//! Calls into the protocol crate. Nothing here is proved: each contract says
//! what the protocol crate's source shows of the function that is called.
//!
//! The body decoders read whatever the peer sent. The protocol crate reserves
//! room for as many elements as a body announces before it reads them, so what
//! a hostile body costs in memory is the protocol crate's to bound.

use crate::kafka::message::RequestHeader;
use kafka_protocol::messages::ApiVersionsRequest;
use kafka_protocol::messages::ApiVersionsResponse;
use kafka_protocol::messages::CreateTopicsRequest;
use kafka_protocol::messages::CreateTopicsResponse;
use kafka_protocol::messages::LeaderAndIsrRequest;
use kafka_protocol::messages::LeaderAndIsrResponse;
use kafka_protocol::messages::MetadataRequest;
use kafka_protocol::messages::MetadataResponse;
use kafka_protocol::protocol::Decodable;
use kafka_protocol::protocol::Encodable;
use kafka_protocol::protocol::HeaderVersion;
use kafka_protocol::protocol::StrBytes;
use vstd::prelude::*;

verus! {

/// The bytes the protocol crate writes for a request header with these fields at
/// header version `header_version`, or `None` where it refuses to write one.
pub uninterp spec fn request_header_wire(
    api_key: i16,
    api_version: i16,
    correlation_id: i32,
    client_id: Option<Seq<char>>,
    header_version: i16,
) -> Option<Seq<u8>>;

/// The bytes that follow a response header at the front of `payload`, as the
/// protocol crate reads the header at header version `header_version`; `None`
/// where it finds no header.
pub uninterp spec fn response_header_rest(payload: Seq<u8>, header_version: i16) -> Option<Seq<u8>>;

/// The bytes the protocol crate writes for a Metadata request at API version
/// `version`, or `None` where it refuses to write it.
pub uninterp spec fn metadata_request_wire(req: MetadataRequest, version: i16) -> Option<Seq<u8>>;

/// The bytes the protocol crate writes for an ApiVersions request at API version
/// `version`, or `None` where it refuses to write it.
pub uninterp spec fn api_versions_request_wire(req: ApiVersionsRequest, version: i16) -> Option<Seq<u8>>;

/// The bytes the protocol crate writes for a LeaderAndIsr request at API version
/// `version`, or `None` where it refuses to write it.
pub uninterp spec fn leader_and_isr_request_wire(req: LeaderAndIsrRequest, version: i16) -> Option<Seq<u8>>;

/// The bytes the protocol crate writes for a CreateTopics request at API version
/// `version`, or `None` where it refuses to write it.
pub uninterp spec fn create_topics_request_wire(req: CreateTopicsRequest, version: i16) -> Option<Seq<u8>>;

/// The Metadata response the protocol crate reads from the front of `body` at
/// API version `version`, or `None` where it cannot read one.
pub uninterp spec fn metadata_response_of(body: Seq<u8>, version: i16) -> Option<MetadataResponse>;

/// The ApiVersions response the protocol crate reads from the front of `body`
/// at API version `version`, or `None` where it cannot read one.
pub uninterp spec fn api_versions_response_of(body: Seq<u8>, version: i16) -> Option<ApiVersionsResponse>;

/// The LeaderAndIsr response the protocol crate reads from the front of `body`
/// at API version `version`, or `None` where it cannot read one.
pub uninterp spec fn leader_and_isr_response_of(body: Seq<u8>, version: i16) -> Option<LeaderAndIsrResponse>;

/// The CreateTopics response the protocol crate reads from the front of `body`
/// at API version `version`, or `None` where it cannot read one.
pub uninterp spec fn create_topics_response_of(body: Seq<u8>, version: i16) -> Option<CreateTopicsResponse>;

/// The signed integer that the first two bytes of `bytes` spell, most
/// significant byte first.
pub open spec fn be_i16(bytes: Seq<u8>) -> i16
    recommends
        bytes.len() >= 2,
{
    let unsigned = (bytes[0] as int) * 0x100 + (bytes[1] as int);
    if unsigned >= 0x8000 {
        (unsigned - 0x1_0000) as i16
    } else {
        unsigned as i16
    }
}

/// The signed integer that the first four bytes of `bytes` spell, most
/// significant byte first.
pub open spec fn be_i32(bytes: Seq<u8>) -> i32
    recommends
        bytes.len() >= 4,
{
    let unsigned = (bytes[0] as int) * 0x100_0000 + (bytes[1] as int) * 0x1_0000 + (
    bytes[2] as int) * 0x100 + (bytes[3] as int);
    if unsigned >= 0x8000_0000 {
        (unsigned - 0x1_0000_0000) as i32
    } else {
        unsigned as i32
    }
}

/// `<kafka_protocol::messages::RequestHeader as Encodable>::encode`, on a header
/// with the given fields and no tagged fields, into an empty buffer. The result
/// is the buffer on success and depends on the arguments alone. A header that
/// is written starts with the API key and the API version, two bytes each, and
/// has the correlation id in the four bytes after them, most significant first.
#[verifier::external_body]
pub(crate) fn encode_request_header(
    header: &RequestHeader,
    header_version: i16,
) -> (r: Option<Vec<u8>>)
    ensures
        match (
            r,
            request_header_wire(
                header.request_api_key,
                header.request_api_version,
                header.correlation_id,
                header.client_id_view(),
                header_version,
            ),
        ) {
            (Some(v), Some(s)) => v@ == s,
            (None, None) => true,
            _ => false,
        },
        match r {
            Some(v) => v@.len() >= 8 && be_i16(v@) == header.request_api_key && be_i16(v@.skip(2))
                == header.request_api_version && be_i32(v@.skip(4)) == header.correlation_id,
            None => true,
        },
{
    let h = kafka_protocol::messages::RequestHeader::default()
        .with_request_api_key(header.request_api_key)
        .with_request_api_version(header.request_api_version)
        .with_correlation_id(header.correlation_id)
        .with_client_id(header.client_id.clone().map(StrBytes::from_string));
    let mut buf: Vec<u8> = Vec::new();
    match h.encode(&mut buf, header_version) {
        Ok(()) => Some(buf),
        Err(_) => None,
    }
}

/// `<kafka_protocol::messages::ResponseHeader as Decodable>::decode` on the front
/// of `payload`: the correlation id read and the bytes left after the header.
///
/// A header starts with the correlation id, four bytes, most significant first.
/// At header version 0 that is all of it: a header is found exactly where four
/// bytes are there, and what is left is what follows them. At any other header
/// version what is left has a name and depends on the arguments alone.
#[verifier::external_body]
pub(crate) fn decode_response_header(
    payload: &Vec<u8>,
    header_version: i16,
) -> (r: Option<(i32, Vec<u8>)>)
    ensures
        match r {
            Some(got) => payload@.len() >= 4 && got.0 == be_i32(payload@) && response_header_rest(
                payload@,
                header_version,
            ) == Some(got.1@) && (header_version == 0 ==> got.1@ == payload@.skip(4)),
            None => response_header_rest(payload@, header_version) is None && (header_version != 0
                || payload@.len() < 4),
        },
{
    let mut cur: &[u8] = payload.as_slice();
    match kafka_protocol::messages::ResponseHeader::decode(&mut cur, header_version) {
        Ok(h) => Some((h.correlation_id, cur.to_vec())),
        Err(_) => None,
    }
}

/// `<MetadataRequest as HeaderVersion>::header_version`: 2 from API version 9
/// on, 1 before.
#[verifier::external_body]
pub(crate) fn metadata_header_version(version: i16) -> (hv: i16)
    ensures
        hv == (if version >= 9 { 2i16 } else { 1i16 }),
{
    MetadataRequest::header_version(version)
}

/// `<ApiVersionsRequest as HeaderVersion>::header_version`: 2 from API version 3
/// on, 1 before.
#[verifier::external_body]
pub(crate) fn api_versions_header_version(version: i16) -> (hv: i16)
    ensures
        hv == (if version >= 3 { 2i16 } else { 1i16 }),
{
    ApiVersionsRequest::header_version(version)
}

/// `<LeaderAndIsrRequest as HeaderVersion>::header_version`: 2 from API version
/// 4 on, 1 before.
#[verifier::external_body]
pub(crate) fn leader_and_isr_header_version(version: i16) -> (hv: i16)
    ensures
        hv == (if version >= 4 { 2i16 } else { 1i16 }),
{
    LeaderAndIsrRequest::header_version(version)
}

/// `<CreateTopicsRequest as HeaderVersion>::header_version`: 2 from API version
/// 5 on, 1 before.
#[verifier::external_body]
pub(crate) fn create_topics_header_version(version: i16) -> (hv: i16)
    ensures
        hv == (if version >= 5 { 2i16 } else { 1i16 }),
{
    CreateTopicsRequest::header_version(version)
}

/// `<MetadataResponse as HeaderVersion>::header_version`: 1 from API version 9
/// on, 0 before.
#[verifier::external_body]
pub(crate) fn metadata_response_header_version(version: i16) -> (hv: i16)
    ensures
        hv == (if version >= 9 { 1i16 } else { 0i16 }),
{
    MetadataResponse::header_version(version)
}

/// `<ApiVersionsResponse as HeaderVersion>::header_version`: 0 at every API
/// version.
#[verifier::external_body]
pub(crate) fn api_versions_response_header_version(version: i16) -> (hv: i16)
    ensures
        hv == 0,
{
    ApiVersionsResponse::header_version(version)
}

/// `<LeaderAndIsrResponse as HeaderVersion>::header_version`: 1 from API
/// version 4 on, 0 before.
#[verifier::external_body]
pub(crate) fn leader_and_isr_response_header_version(version: i16) -> (hv: i16)
    ensures
        hv == (if version >= 4 { 1i16 } else { 0i16 }),
{
    LeaderAndIsrResponse::header_version(version)
}

/// `<CreateTopicsResponse as HeaderVersion>::header_version`: 1 from API
/// version 5 on, 0 before.
#[verifier::external_body]
pub(crate) fn create_topics_response_header_version(version: i16) -> (hv: i16)
    ensures
        hv == (if version >= 5 { 1i16 } else { 0i16 }),
{
    CreateTopicsResponse::header_version(version)
}

/// `<MetadataRequest as Encodable>::encode` into an empty buffer: the buffer on
/// success. The result depends on the request and the version alone.
#[verifier::external_body]
pub(crate) fn encode_metadata_request(req: &MetadataRequest, version: i16) -> (r: Option<Vec<u8>>)
    ensures
        match (r, metadata_request_wire(*req, version)) {
            (Some(v), Some(s)) => v@ == s,
            (None, None) => true,
            _ => false,
        },
{
    let mut buf: Vec<u8> = Vec::new();
    match req.encode(&mut buf, version) {
        Ok(()) => Some(buf),
        Err(_) => None,
    }
}

/// `<ApiVersionsRequest as Encodable>::encode` into an empty buffer: the buffer on
/// success. The result depends on the request and the version alone.
#[verifier::external_body]
pub(crate) fn encode_api_versions_request(req: &ApiVersionsRequest, version: i16) -> (r: Option<Vec<u8>>)
    ensures
        match (r, api_versions_request_wire(*req, version)) {
            (Some(v), Some(s)) => v@ == s,
            (None, None) => true,
            _ => false,
        },
{
    let mut buf: Vec<u8> = Vec::new();
    match req.encode(&mut buf, version) {
        Ok(()) => Some(buf),
        Err(_) => None,
    }
}

/// `<LeaderAndIsrRequest as Encodable>::encode` into an empty buffer: the buffer on
/// success. The result depends on the request and the version alone.
#[verifier::external_body]
pub(crate) fn encode_leader_and_isr_request(req: &LeaderAndIsrRequest, version: i16) -> (r: Option<Vec<u8>>)
    ensures
        match (r, leader_and_isr_request_wire(*req, version)) {
            (Some(v), Some(s)) => v@ == s,
            (None, None) => true,
            _ => false,
        },
{
    let mut buf: Vec<u8> = Vec::new();
    match req.encode(&mut buf, version) {
        Ok(()) => Some(buf),
        Err(_) => None,
    }
}

/// `<CreateTopicsRequest as Encodable>::encode` into an empty buffer: the buffer on
/// success. The result depends on the request and the version alone.
#[verifier::external_body]
pub(crate) fn encode_create_topics_request(req: &CreateTopicsRequest, version: i16) -> (r: Option<Vec<u8>>)
    ensures
        match (r, create_topics_request_wire(*req, version)) {
            (Some(v), Some(s)) => v@ == s,
            (None, None) => true,
            _ => false,
        },
{
    let mut buf: Vec<u8> = Vec::new();
    match req.encode(&mut buf, version) {
        Ok(()) => Some(buf),
        Err(_) => None,
    }
}

/// `<MetadataResponse as Decodable>::decode` on the front of `body`. The result
/// depends on the bytes and the version alone.
#[verifier::external_body]
pub(crate) fn decode_metadata_response(body: &Vec<u8>, version: i16) -> (r: Option<MetadataResponse>)
    ensures
        r == metadata_response_of(body@, version),
{
    let mut cur: &[u8] = body.as_slice();
    MetadataResponse::decode(&mut cur, version).ok()
}

/// `<ApiVersionsResponse as Decodable>::decode` on the front of `body`. The result
/// depends on the bytes and the version alone.
#[verifier::external_body]
pub(crate) fn decode_api_versions_response(body: &Vec<u8>, version: i16) -> (r: Option<ApiVersionsResponse>)
    ensures
        r == api_versions_response_of(body@, version),
{
    let mut cur: &[u8] = body.as_slice();
    ApiVersionsResponse::decode(&mut cur, version).ok()
}

/// `<LeaderAndIsrResponse as Decodable>::decode` on the front of `body`. The result
/// depends on the bytes and the version alone.
#[verifier::external_body]
pub(crate) fn decode_leader_and_isr_response(body: &Vec<u8>, version: i16) -> (r: Option<LeaderAndIsrResponse>)
    ensures
        r == leader_and_isr_response_of(body@, version),
{
    let mut cur: &[u8] = body.as_slice();
    LeaderAndIsrResponse::decode(&mut cur, version).ok()
}

/// `<CreateTopicsResponse as Decodable>::decode` on the front of `body`. The result
/// depends on the bytes and the version alone.
#[verifier::external_body]
pub(crate) fn decode_create_topics_response(body: &Vec<u8>, version: i16) -> (r: Option<CreateTopicsResponse>)
    ensures
        r == create_topics_response_of(body@, version),
{
    let mut cur: &[u8] = body.as_slice();
    CreateTopicsResponse::decode(&mut cur, version).ok()
}

} // verus!
