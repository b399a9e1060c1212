//! The client codec and the correlation store.
//!
//! The codec turns `(header, request)` pairs into length-prefixed frames and
//! frames back into `(header, response)` pairs. It remembers the header of every
//! request it has framed until the response with the same correlation id comes
//! in: that header says how the response is to be read. The correlation store
//! hands out the ids and keeps the set of those still in flight.

use crate::kafka::frame::after_frame;
use crate::kafka::frame::complete;
use crate::kafka::frame::first_payload;
use crate::kafka::frame::frame_of;
use crate::kafka::frame::oversized;
use crate::kafka::frame::read_frame;
use crate::kafka::frame::write_frame;
use crate::kafka::frame::MAX_FRAME_LEN;
use crate::kafka::message::ApiKind;
use crate::kafka::message::RequestHeader;
use crate::kafka::message::RequestKind;
use crate::kafka::message::ResponseHeader;
use crate::kafka::message::ResponseKind;
use crate::kafka::wire::api_versions_header_version;
use crate::kafka::wire::create_topics_header_version;
use crate::kafka::wire::decode_api_versions_response;
use crate::kafka::wire::decode_create_topics_response;
use crate::kafka::wire::decode_leader_and_isr_response;
use crate::kafka::wire::decode_metadata_response;
use crate::kafka::wire::decode_response_header;
use crate::kafka::wire::encode_api_versions_request;
use crate::kafka::wire::encode_create_topics_request;
use crate::kafka::wire::encode_leader_and_isr_request;
use crate::kafka::wire::encode_metadata_request;
use crate::kafka::wire::encode_request_header;
use crate::kafka::wire::leader_and_isr_header_version;
use crate::kafka::wire::metadata_header_version;
use crate::kafka::wire::request_header_wire;
use crate::kafka::wire::api_versions_request_wire;
use crate::kafka::wire::api_versions_response_of;
use crate::kafka::wire::be_i16;
use crate::kafka::wire::be_i32;
use crate::kafka::wire::create_topics_request_wire;
use crate::kafka::wire::create_topics_response_of;
use crate::kafka::wire::leader_and_isr_request_wire;
use crate::kafka::wire::leader_and_isr_response_of;
use crate::kafka::wire::metadata_request_wire;
use crate::kafka::wire::metadata_response_of;
use crate::kafka::wire::response_header_rest;
use crate::kafka::wire::api_versions_response_header_version;
use crate::kafka::wire::create_topics_response_header_version;
use crate::kafka::wire::leader_and_isr_response_header_version;
use crate::kafka::wire::metadata_response_header_version;
use std::collections::HashMap;
use std::collections::HashSet;
use vstd::prelude::*;

verus! {

broadcast use vstd::std_specs::hash::group_hash_axioms;

/// The header version at which the correlation id of a response is read: the
/// id stands in the same place at every header version, and this one holds
/// nothing else.
pub const CORRELATION_HEADER_VERSION: i16 = 0;

/// The ways a call can fail.
#[derive(Debug, Clone, Copy, PartialEq, Eq, Structural)]
pub enum ErrorKind {
    /// The request could not be put on the wire.
    Encode,
    /// The response could not be read.
    Decode,
    /// A response came in under a correlation id that nothing waits for.
    UnknownCorrelation,
    /// The connection failed or carried a frame that is too long.
    Transport,
    /// The connection could not be set up.
    Setup,
}

/// The error a caller of the client sees.
#[derive(Debug, Clone, Copy, PartialEq, Eq, Structural)]
pub struct KafkaClientError {
    pub kind: ErrorKind,
}

/// What the multiplexer reports when a call does not come back. Where it passes
/// on an error of the codec, that error's kind is carried along.
#[derive(Debug, Clone, Copy, PartialEq, Eq, Structural)]
pub enum TransportFailure {
    BrokenSend(Option<ErrorKind>),
    BrokenRecv(Option<ErrorKind>),
    TransportFull,
    ClientDropped,
    Desynchronized,
}

impl KafkaClientError {
    /// The error that stands for a failure of the multiplexer.
    pub open spec fn of_failure(failure: TransportFailure) -> KafkaClientError {
        match failure {
            TransportFailure::BrokenSend(Some(kind)) => KafkaClientError { kind },
            TransportFailure::BrokenRecv(Some(kind)) => KafkaClientError { kind },
            TransportFailure::Desynchronized => KafkaClientError {
                kind: ErrorKind::UnknownCorrelation,
            },
            _ => KafkaClientError { kind: ErrorKind::Transport },
        }
    }

    /// Maps a failure of the multiplexer to the error the caller sees. Every
    /// failure has an image: an error of the codec keeps its kind, a response
    /// nobody waits for is an unknown correlation, all else is a transport error.
    pub fn from_failure(failure: TransportFailure) -> (e: KafkaClientError)
        ensures
            e == KafkaClientError::of_failure(failure),
    {
        match failure {
            TransportFailure::BrokenSend(Some(kind)) => KafkaClientError { kind },
            TransportFailure::BrokenRecv(Some(kind)) => KafkaClientError { kind },
            TransportFailure::Desynchronized => KafkaClientError {
                kind: ErrorKind::UnknownCorrelation,
            },
            TransportFailure::BrokenSend(None) => KafkaClientError { kind: ErrorKind::Transport },
            TransportFailure::BrokenRecv(None) => KafkaClientError { kind: ErrorKind::Transport },
            TransportFailure::TransportFull => KafkaClientError { kind: ErrorKind::Transport },
            TransportFailure::ClientDropped => KafkaClientError { kind: ErrorKind::Transport },
        }
    }

    /// The error for a connection that could not be set up.
    pub fn setup() -> (e: KafkaClientError)
        ensures
            e.kind == ErrorKind::Setup,
    {
        KafkaClientError { kind: ErrorKind::Setup }
    }
}

/// `r` is an error of kind `kind`.
pub open spec fn fails_as<T>(r: Result<T, KafkaClientError>, kind: ErrorKind) -> bool {
    r is Err && r->Err_0.kind == kind
}

/// The header of a request as the protocol crate writes it in front of the
/// body, at the header version that goes with the request's operation at API
/// version `version`; `None` for an unsupported request and where the protocol
/// crate refuses to write the header.
pub open spec fn header_wire(header: RequestHeader, request: RequestKind, version: i16) -> Option<Seq<u8>> {
    match request.spec_kind() {
        Some(kind) => request_header_wire(
            header.request_api_key,
            header.request_api_version,
            header.correlation_id,
            header.client_id_view(),
            kind.request_header_version(version),
        ),
        None => None,
    }
}

/// The body of a request as the protocol crate writes it at API version
/// `version`; `None` for an unsupported request and where the protocol crate
/// refuses to write the body.
pub open spec fn body_wire(request: RequestKind, version: i16) -> Option<Seq<u8>> {
    match request {
        RequestKind::MetadataRequest(q) => metadata_request_wire(q, version),
        RequestKind::ApiVersionsRequest(q) => api_versions_request_wire(q, version),
        RequestKind::LeaderAndIsrRequest(q) => leader_and_isr_request_wire(q, version),
        RequestKind::CreateTopicsRequest(q) => create_topics_request_wire(q, version),
        RequestKind::Unsupported => None,
    }
}

/// What a request puts on the wire inside its frame: the header and then the
/// body, nothing before, between or after; `None` where either cannot be
/// written.
pub open spec fn payload_wire(header: RequestHeader, request: RequestKind, version: i16) -> Option<Seq<u8>> {
    match (header_wire(header, request, version), body_wire(request, version)) {
        (Some(head), Some(body)) => Some(head + body),
        _ => None,
    }
}

/// The API key that a request payload carries: its first two bytes.
pub open spec fn wire_api_key(payload: Seq<u8>) -> i16 {
    be_i16(payload)
}

/// The API version that a request payload carries: the two bytes after the key.
pub open spec fn wire_api_version(payload: Seq<u8>) -> i16 {
    be_i16(payload.skip(2))
}

/// The correlation id that a request payload carries: the four bytes after the
/// API key and the API version.
pub open spec fn wire_correlation_id(payload: Seq<u8>) -> i32 {
    be_i32(payload.skip(4))
}

/// The response of the operation that `api_key` names, as the protocol crate
/// reads it from `body` at API version `version`; `None` for a key of no
/// supported operation and where the protocol crate cannot read the body.
pub open spec fn response_of(api_key: i16, body: Seq<u8>, version: i16) -> Option<ResponseKind> {
    match ApiKind::of_key(api_key) {
        Some(ApiKind::Metadata) => match metadata_response_of(body, version) {
            Some(x) => Some(ResponseKind::MetadataResponse(x)),
            None => None,
        },
        Some(ApiKind::ApiVersions) => match api_versions_response_of(body, version) {
            Some(x) => Some(ResponseKind::ApiVersionsResponse(x)),
            None => None,
        },
        Some(ApiKind::LeaderAndIsr) => match leader_and_isr_response_of(body, version) {
            Some(x) => Some(ResponseKind::LeaderAndIsrResponse(x)),
            None => None,
        },
        Some(ApiKind::CreateTopics) => match create_topics_response_of(body, version) {
            Some(x) => Some(ResponseKind::CreateTopicsResponse(x)),
            None => None,
        },
        None => None,
    }
}

/// The error of a response that cannot be read.
pub open spec fn decode_error() -> KafkaClientError {
    KafkaClientError { kind: ErrorKind::Decode }
}

/// The body of a response payload: what follows the response header. At header
/// version 0 the header is the four bytes of the correlation id; at any other
/// it is what the protocol crate reads as one.
pub open spec fn body_after_header(payload: Seq<u8>, header_version: i16) -> Option<Seq<u8>> {
    if header_version == 0 {
        if payload.len() >= 4 {
            Some(payload.skip(4))
        } else {
            None
        }
    } else {
        response_header_rest(payload, header_version)
    }
}

/// What the response in `payload`, under correlation id `cid`, comes to for the
/// request whose header is `entry`: the operation and the API version that the
/// header records say where the body starts and how it is read. A recorded key
/// of no supported operation, a payload without a header and a body that cannot
/// be read are decode errors.
pub open spec fn answer(entry: RequestHeader, cid: i32, payload: Seq<u8>) -> Result<
    (ResponseHeader, ResponseKind),
    KafkaClientError,
> {
    match ApiKind::of_key(entry.request_api_key) {
        None => Err(decode_error()),
        Some(kind) => match body_after_header(
            payload,
            kind.response_header_version(entry.request_api_version),
        ) {
            None => Err(decode_error()),
            Some(body) => match response_of(
                entry.request_api_key,
                body,
                entry.request_api_version,
            ) {
                Some(response) => Ok((ResponseHeader { correlation_id: cid }, response)),
                None => Err(decode_error()),
            },
        },
    }
}

/// The response in `payload`, with correlation id `cid`, met the pending table
/// `before`, left it as `after` and gave `r`.
///
/// With no entry under `cid` the table stays as it was and the outcome is an
/// unknown correlation. Otherwise exactly that entry leaves the table and the
/// outcome is the answer for it.
pub open spec fn routed(
    before: Map<i32, RequestHeader>,
    cid: i32,
    payload: Seq<u8>,
    after: Map<i32, RequestHeader>,
    r: Result<(ResponseHeader, ResponseKind), KafkaClientError>,
) -> bool {
    if !before.contains_key(cid) {
        after == before && r == Err::<(ResponseHeader, ResponseKind), KafkaClientError>(
            KafkaClientError { kind: ErrorKind::UnknownCorrelation },
        )
    } else {
        after == before.remove(cid) && r == answer(before[cid], cid, payload)
    }
}

/// The frame payload `payload` met the pending table `before`, left it as
/// `after` and gave `r`: a payload too short to hold a correlation id is a
/// decode error and leaves the table alone, any other is routed by the id that
/// its first four bytes spell.
pub open spec fn frame_decoded(
    before: Map<i32, RequestHeader>,
    payload: Seq<u8>,
    after: Map<i32, RequestHeader>,
    r: Result<(ResponseHeader, ResponseKind), KafkaClientError>,
) -> bool {
    if payload.len() < 4 {
        after == before && r == Err::<(ResponseHeader, ResponseKind), KafkaClientError>(
            decode_error(),
        )
    } else {
        routed(before, be_i32(payload), payload, after, r)
    }
}

/// What `encode` owes for a request whose payload is `payload`, where it can be
/// written at all: a payload that fits a frame is framed and its header
/// registered; one that does not is a transport error and changes nothing; a
/// request that cannot be written is an encode error and changes nothing.
pub open spec fn encoded(
    before: Map<i32, RequestHeader>,
    header: RequestHeader,
    payload: Option<Seq<u8>>,
    old_dst: Seq<u8>,
    after: Map<i32, RequestHeader>,
    new_dst: Seq<u8>,
    r: Result<(), KafkaClientError>,
) -> bool {
    match payload {
        Some(p) => if p.len() <= MAX_FRAME_LEN {
            r is Ok && after == before.insert(header.correlation_id, header) && new_dst == old_dst
                + frame_of(p)
        } else {
            r == Err::<(), KafkaClientError>(KafkaClientError { kind: ErrorKind::Transport })
                && after == before && new_dst == old_dst
        },
        None => r == Err::<(), KafkaClientError>(KafkaClientError { kind: ErrorKind::Encode })
            && after == before && new_dst == old_dst,
    }
}

/// A payload keeps the key, the version and the id of the header it starts
/// with.
proof fn lemma_payload_keeps_header_fields(head: Seq<u8>, body: Seq<u8>)
    requires
        head.len() >= 8,
    ensures
        wire_api_key(head + body) == wire_api_key(head),
        wire_api_version(head + body) == wire_api_version(head),
        wire_correlation_id(head + body) == wire_correlation_id(head),
{
    let payload = head + body;
    assert(payload[0] == head[0] && payload[1] == head[1]);
    assert(payload.skip(2)[0] == head.skip(2)[0]);
    assert(payload.skip(2)[1] == head.skip(2)[1]);
    assert(payload.skip(4)[0] == head.skip(4)[0]);
    assert(payload.skip(4)[1] == head.skip(4)[1]);
    assert(payload.skip(4)[2] == head.skip(4)[2]);
    assert(payload.skip(4)[3] == head.skip(4)[3]);
}

/// Appends `src` to `dst`.
fn append(dst: &mut Vec<u8>, src: &Vec<u8>)
    ensures
        final(dst)@ == old(dst)@ + src@,
{
    let n: usize = src.len();
    let mut i: usize = 0;
    assert(dst@ =~= old(dst)@ + src@.subrange(0, 0));
    while i < n
        invariant
            n == src@.len(),
            0 <= i <= n,
            dst@ == old(dst)@ + src@.subrange(0, i as int),
        decreases n - i,
    {
        dst.push(src[i]);
        assert(dst@ =~= old(dst)@ + src@.subrange(0, i + 1));
        i = i + 1;
    }
    assert(src@.subrange(0, n as int) =~= src@);
}

/// The codec of one connection.
pub struct KafkaClientCodec {
    requests: HashMap<i32, RequestHeader>,
}

impl KafkaClientCodec {
    /// The pending table: the header of every request framed and not yet
    /// answered, by correlation id.
    pub closed spec fn pending(&self) -> Map<i32, RequestHeader> {
        self.requests@
    }

    /// A codec with nothing pending.
    pub fn new() -> (codec: Self)
        ensures
            codec.pending() == Map::<i32, RequestHeader>::empty(),
    {
        KafkaClientCodec { requests: HashMap::new() }
    }

    /// Number of requests that wait for their response.
    pub fn pending_len(&self) -> (n: usize)
        ensures
            n == self.pending().len(),
    {
        self.requests.len()
    }

    /// Whether a request waits under `correlation_id`.
    pub fn is_pending(&self, correlation_id: i32) -> (b: bool)
        ensures
            b == self.pending().contains_key(correlation_id),
    {
        self.requests.contains_key(&correlation_id)
    }

    /// The request header version for an operation at an API version.
    pub fn header_version(kind: ApiKind, version: i16) -> (hv: i16)
        ensures
            hv == kind.request_header_version(version),
    {
        match kind {
            ApiKind::Metadata => metadata_header_version(version),
            ApiKind::ApiVersions => api_versions_header_version(version),
            ApiKind::LeaderAndIsr => leader_and_isr_header_version(version),
            ApiKind::CreateTopics => create_topics_header_version(version),
        }
    }

    /// The response header version for an operation at an API version.
    pub fn response_header_version(kind: ApiKind, version: i16) -> (hv: i16)
        ensures
            hv == kind.response_header_version(version),
    {
        match kind {
            ApiKind::Metadata => metadata_response_header_version(version),
            ApiKind::ApiVersions => api_versions_response_header_version(version),
            ApiKind::LeaderAndIsr => leader_and_isr_response_header_version(version),
            ApiKind::CreateTopics => create_topics_response_header_version(version),
        }
    }

    /// Appends to `bytes` the header and then the body of `request`, both at API
    /// version `version`, as the protocol crate writes them.
    ///
    /// It succeeds exactly where the request is a supported one and the
    /// protocol crate writes both its header and its body. Anything else is an
    /// encode error and leaves `bytes` as it was. What is appended starts with
    /// the API key, the API version and the correlation id of the header.
    pub fn encode_request(
        bytes: &mut Vec<u8>,
        header: &RequestHeader,
        request: &RequestKind,
        version: i16,
    ) -> (r: Result<(), KafkaClientError>)
        ensures
            match payload_wire(*header, *request, version) {
                Some(payload) => r is Ok && final(bytes)@ == old(bytes)@ + payload
                    && payload.len() >= 8 && wire_api_key(payload) == header.request_api_key
                    && wire_api_version(payload) == header.request_api_version
                    && wire_correlation_id(payload) == header.correlation_id,
                None => r == Err::<(), KafkaClientError>(
                    KafkaClientError { kind: ErrorKind::Encode },
                ) && final(bytes)@ == old(bytes)@,
            },
    {
        let body = match request {
            RequestKind::MetadataRequest(req) => encode_metadata_request(req, version),
            RequestKind::ApiVersionsRequest(req) => encode_api_versions_request(req, version),
            RequestKind::LeaderAndIsrRequest(req) => encode_leader_and_isr_request(req, version),
            RequestKind::CreateTopicsRequest(req) => encode_create_topics_request(req, version),
            RequestKind::Unsupported => None,
        };
        match request.kind() {
            None => Err(KafkaClientError { kind: ErrorKind::Encode }),
            Some(kind) => {
                let head = encode_request_header(header, Self::header_version(kind, version));
                match (head, body) {
                    (Some(head), Some(body)) => {
                        append(bytes, &head);
                        append(bytes, &body);
                        proof {
                            lemma_payload_keeps_header_fields(head@, body@);
                            assert(bytes@ =~= old(bytes)@ + (head@ + body@));
                        }
                        Ok(())
                    },
                    _ => Err(KafkaClientError { kind: ErrorKind::Encode }),
                }
            },
        }
    }

    /// Reads a response body of the operation that `api_key` names, at API
    /// version `version`: the result is what the protocol crate reads from
    /// `bytes` at that version, as a response of that operation.
    ///
    /// A key of no supported operation is a decode error, and so is a body the
    /// protocol crate cannot read.
    pub fn decode_response(
        bytes: &Vec<u8>,
        api_key: i16,
        version: i16,
    ) -> (r: Result<ResponseKind, KafkaClientError>)
        ensures
            r == (match response_of(api_key, bytes@, version) {
                Some(response) => Ok::<ResponseKind, KafkaClientError>(response),
                None => Err::<ResponseKind, KafkaClientError>(decode_error()),
            }),
    {
        let failed = KafkaClientError { kind: ErrorKind::Decode };
        match ApiKind::from_key(api_key) {
            None => Err(failed),
            Some(ApiKind::Metadata) => match decode_metadata_response(bytes, version) {
                Some(res) => Ok(ResponseKind::MetadataResponse(res)),
                None => Err(failed),
            },
            Some(ApiKind::ApiVersions) => match decode_api_versions_response(bytes, version) {
                Some(res) => Ok(ResponseKind::ApiVersionsResponse(res)),
                None => Err(failed),
            },
            Some(ApiKind::LeaderAndIsr) => match decode_leader_and_isr_response(bytes, version) {
                Some(res) => Ok(ResponseKind::LeaderAndIsrResponse(res)),
                None => Err(failed),
            },
            Some(ApiKind::CreateTopics) => match decode_create_topics_response(bytes, version) {
                Some(res) => Ok(ResponseKind::CreateTopicsResponse(res)),
                None => Err(failed),
            },
        }
    }

    /// Registers `header` as pending under its correlation id and appends the
    /// frame that carries `payload` to `dst`. A payload too long for one frame
    /// is a transport error; nothing is registered and nothing written then.
    pub fn register(
        &mut self,
        header: RequestHeader,
        payload: &Vec<u8>,
        dst: &mut Vec<u8>,
    ) -> (r: Result<(), KafkaClientError>)
        ensures
            payload@.len() <= MAX_FRAME_LEN ==> r is Ok
                && final(self).pending() == old(self).pending().insert(header.correlation_id, header)
                && final(dst)@ == old(dst)@ + frame_of(payload@),
            payload@.len() > MAX_FRAME_LEN ==> r == Err::<(), KafkaClientError>(
                KafkaClientError { kind: ErrorKind::Transport },
            ) && final(self).pending() == old(self).pending() && final(dst)@ == old(dst)@,
    {
        match write_frame(payload, dst) {
            Ok(()) => {
                self.requests.insert(header.correlation_id, header);
                Ok(())
            },
            Err(_) => Err(KafkaClientError { kind: ErrorKind::Transport }),
        }
    }

    /// Encodes a request, registers its header as pending and appends the frame
    /// to `dst`. The header's correlation id is taken as it stands.
    ///
    /// It succeeds exactly where the request is a supported one, the protocol
    /// crate writes its header and its body, and the two together fit a frame.
    /// Then the header is pending under its correlation id and `dst` has grown
    /// by the frame of header and body. A request that cannot be written is an
    /// encode error, a payload too long for a frame a transport error; either
    /// way nothing is registered and `dst` is left as it was.
    pub fn encode(
        &mut self,
        item: (RequestHeader, RequestKind),
        dst: &mut Vec<u8>,
    ) -> (r: Result<(), KafkaClientError>)
        ensures
            encoded(
                old(self).pending(),
                item.0,
                payload_wire(item.0, item.1, item.0.request_api_version),
                old(dst)@,
                final(self).pending(),
                final(dst)@,
                r,
            ),
            r is Ok ==> payload_wire(item.0, item.1, item.0.request_api_version) is Some && {
                let payload = payload_wire(item.0, item.1, item.0.request_api_version)->0;
                payload.len() >= 8 && wire_api_key(payload) == item.0.request_api_key
                    && wire_api_version(payload) == item.0.request_api_version
                    && wire_correlation_id(payload) == item.0.correlation_id
            },
    {
        let (header, request) = item;
        let api_version = header.request_api_version;
        let mut bytes: Vec<u8> = Vec::new();
        match Self::encode_request(&mut bytes, &header, &request, api_version) {
            Err(e) => Err(e),
            Ok(()) => {
                assert(bytes@ =~= payload_wire(header, request, api_version)->0);
                self.register(header, &bytes, dst)
            },
        }
    }

    /// Routes the response in `payload`, whose header carries
    /// `correlation_id`: the pending entry under that id is taken out, and the
    /// operation and API version it records say at which header version the
    /// body starts and at which API version it is read.
    pub fn route(
        &mut self,
        correlation_id: i32,
        payload: &Vec<u8>,
    ) -> (r: Result<(ResponseHeader, ResponseKind), KafkaClientError>)
        ensures
            routed(old(self).pending(), correlation_id, payload@, final(self).pending(), r),
    {
        match self.requests.remove(&correlation_id) {
            None => {
                assert(self.requests@ =~= old(self).requests@);
                Err(KafkaClientError { kind: ErrorKind::UnknownCorrelation })
            },
            Some(request_header) => {
                let api_key: i16 = request_header.request_api_key;
                let version: i16 = request_header.request_api_version;
                match ApiKind::from_key(api_key) {
                    None => Err(KafkaClientError { kind: ErrorKind::Decode }),
                    Some(kind) => {
                        let header_version = Self::response_header_version(kind, version);
                        match decode_response_header(payload, header_version) {
                            None => Err(KafkaClientError { kind: ErrorKind::Decode }),
                            Some(head) => match Self::decode_response(&head.1, api_key, version) {
                                Ok(response) => Ok((ResponseHeader { correlation_id }, response)),
                                Err(e) => Err(e),
                            },
                        }
                    },
                }
            },
        }
    }

    /// Decodes the payload of one frame: reads the correlation id and routes
    /// the response by it.
    pub fn decode_frame(
        &mut self,
        payload: &Vec<u8>,
    ) -> (r: Result<(ResponseHeader, ResponseKind), KafkaClientError>)
        ensures
            frame_decoded(old(self).pending(), payload@, final(self).pending(), r),
    {
        match decode_response_header(payload, CORRELATION_HEADER_VERSION) {
            None => Err(KafkaClientError { kind: ErrorKind::Decode }),
            Some(head) => self.route(head.0, payload),
        }
    }

    /// Gives up the request pending under `correlation_id`, as a caller does
    /// that stops waiting: the entry leaves the table and is handed back. With
    /// no such entry nothing changes.
    pub fn cancel(&mut self, correlation_id: i32) -> (r: Option<RequestHeader>)
        ensures
            final(self).pending() == old(self).pending().remove(correlation_id),
            old(self).pending().contains_key(correlation_id) ==> r == Some(
                old(self).pending()[correlation_id],
            ),
            !old(self).pending().contains_key(correlation_id) ==> r is None,
    {
        self.requests.remove(&correlation_id)
    }

    /// Gives up every pending request, as is due when the connection has
    /// failed, and says how many there were.
    pub fn abandon_all(&mut self) -> (n: usize)
        ensures
            n == old(self).pending().len(),
            final(self).pending() == Map::<i32, RequestHeader>::empty(),
    {
        let n: usize = self.requests.len();
        self.requests.clear();
        n
    }

    /// Takes the next response off the front of `src`.
    ///
    /// While `src` does not hold a whole frame nothing is consumed, nothing
    /// changes and there is no response yet. A frame that announces more than a
    /// frame may carry is a transport error, and nothing is consumed either.
    /// A whole frame is consumed, prefix and payload and no byte more, whether
    /// or not its payload can be decoded.
    pub fn decode(
        &mut self,
        src: &mut Vec<u8>,
    ) -> (r: Result<Option<(ResponseHeader, ResponseKind)>, KafkaClientError>)
        ensures
            oversized(old(src)@) ==> fails_as(r, ErrorKind::Transport) && final(src)@ == old(src)@
                && final(self).pending() == old(self).pending(),
            !oversized(old(src)@) && !complete(old(src)@) ==> r is Ok && r->Ok_0 is None
                && final(src)@ == old(src)@ && final(self).pending() == old(self).pending(),
            complete(old(src)@) ==> final(src)@ == after_frame(old(src)@) && match r {
                Ok(Some(item)) => frame_decoded(
                    old(self).pending(),
                    first_payload(old(src)@),
                    final(self).pending(),
                    Ok(item),
                ),
                Ok(None) => false,
                Err(e) => frame_decoded(
                    old(self).pending(),
                    first_payload(old(src)@),
                    final(self).pending(),
                    Err(e),
                ),
            },
    {
        match read_frame(src) {
            Err(_) => Err(KafkaClientError { kind: ErrorKind::Transport }),
            Ok(None) => Ok(None),
            Ok(Some(payload)) => match self.decode_frame(&payload) {
                Ok(item) => Ok(Some(item)),
                Err(e) => Err(e),
            },
        }
    }
}

/// The id that follows `id`; after the largest comes the smallest.
pub open spec fn next_after(id: i32) -> i32 {
    if id == i32::MAX {
        i32::MIN
    } else {
        (id + 1) as i32
    }
}

/// What a correlation store holds: the id it hands out next and the ids in
/// flight.
pub struct StoreModel {
    pub next: i32,
    pub in_flight: Set<i32>,
}

impl StoreModel {
    /// A store that has handed out nothing.
    pub open spec fn fresh() -> StoreModel {
        StoreModel { next: 0, in_flight: Set::empty() }
    }

    /// The store after it has handed out its next id.
    pub open spec fn assign(self) -> StoreModel {
        StoreModel { next: next_after(self.next), in_flight: self.in_flight.insert(self.next) }
    }

    /// The store after the response under `tag` has come in.
    pub open spec fn finish(self, tag: i32) -> StoreModel {
        StoreModel { next: self.next, in_flight: self.in_flight.remove(tag) }
    }

    /// The store after it has handed out `n` ids in a row.
    pub open spec fn assign_n(self, n: nat) -> StoreModel
        decreases n,
    {
        if n == 0 {
            self
        } else {
            self.assign_n((n - 1) as nat).assign()
        }
    }
}

/// Hands out correlation ids and keeps track of those in flight.
pub struct CorrelationStore {
    correlation_ids: HashSet<i32>,
    id_gen: i32,
}

impl View for CorrelationStore {
    type V = StoreModel;

    closed spec fn view(&self) -> StoreModel {
        StoreModel { next: self.id_gen, in_flight: self.correlation_ids@ }
    }
}

impl Default for CorrelationStore {
    /// A store that has handed out nothing.
    fn default() -> (store: Self)
        ensures
            store@ == StoreModel::fresh(),
    {
        CorrelationStore { correlation_ids: HashSet::new(), id_gen: 0 }
    }
}

impl CorrelationStore {
    /// Stamps the next id on the request's header, marks it as in flight and
    /// returns it.
    pub fn assign_tag(&mut self, request: &mut (RequestHeader, RequestKind)) -> (tag: i32)
        ensures
            tag == old(self)@.next,
            final(self)@ == old(self)@.assign(),
            final(request).0 == old(request).0.with_id(tag),
            final(request).1 == old(request).1,
    {
        let tag: i32 = self.id_gen;
        self.id_gen = if tag == i32::MAX {
            i32::MIN
        } else {
            tag + 1
        };
        self.correlation_ids.insert(tag);
        request.0.correlation_id = tag;
        tag
    }

    /// Takes the id of a response out of the set in flight and returns it.
    pub fn finish_tag(&mut self, response: &(ResponseHeader, ResponseKind)) -> (tag: i32)
        ensures
            tag == response.0.correlation_id,
            final(self)@ == old(self)@.finish(tag),
    {
        let tag: i32 = response.0.correlation_id;
        self.correlation_ids.remove(&tag);
        tag
    }

    /// Takes `tag` out of the set in flight without a response, as is due when
    /// its caller stops waiting. Says whether it was in flight.
    pub fn release(&mut self, tag: i32) -> (was: bool)
        ensures
            was == old(self)@.in_flight.contains(tag),
            final(self)@ == old(self)@.finish(tag),
    {
        self.correlation_ids.remove(&tag)
    }

    /// Empties the set in flight, as is due when the connection has failed, and
    /// says how many ids it held. The next id stays as it is.
    pub fn release_all(&mut self) -> (n: usize)
        ensures
            n == old(self)@.in_flight.len(),
            final(self)@.in_flight == Set::<i32>::empty(),
            final(self)@.next == old(self)@.next,
    {
        let n: usize = self.correlation_ids.len();
        self.correlation_ids.clear();
        n
    }

    /// Whether `tag` is in flight.
    pub fn is_in_flight(&self, tag: i32) -> (b: bool)
        ensures
            b == self@.in_flight.contains(tag),
    {
        self.correlation_ids.contains(&tag)
    }

    /// Number of ids in flight.
    pub fn in_flight_len(&self) -> (n: usize)
        ensures
            n == self@.in_flight.len(),
    {
        self.correlation_ids.len()
    }
}

/// Place of an id in the order in which a fresh store hands ids out.
pub open spec fn place(id: i32) -> int {
    if id >= 0 {
        id as int
    } else {
        id + 0x1_0000_0000
    }
}

proof fn lemma_fresh_run(n: nat)
    requires
        n <= 0x1_0000_0000,
    ensures
        StoreModel::fresh().assign_n(n).in_flight.finite(),
        StoreModel::fresh().assign_n(n).in_flight.len() == n,
        forall|id: i32| #[trigger]
            StoreModel::fresh().assign_n(n).in_flight.contains(id) <==> place(id) < n,
        n < 0x1_0000_0000 ==> place(StoreModel::fresh().assign_n(n).next) == n,
    decreases n,
{
    if n > 0 {
        lemma_fresh_run((n - 1) as nat);
        let before = StoreModel::fresh().assign_n((n - 1) as nat);
        assert(StoreModel::fresh().assign_n(n) == before.assign());
        assert(!before.in_flight.contains(before.next));
    }
}

/// Ids handed out in a row by a fresh store are all different: after `n` of
/// them, with no response in between, exactly `n` ids are in flight. This holds
/// for as many ids as there are.
pub proof fn lemma_ids_in_flight_are_distinct(n: nat)
    requires
        n <= 0x1_0000_0000,
    ensures
        StoreModel::fresh().assign_n(n).in_flight.finite(),
        StoreModel::fresh().assign_n(n).in_flight.len() == n,
{
    lemma_fresh_run(n);
}

/// A request that got its id from the store and was registered by the codec is
/// answered under that very id: decoding a response payload that carries the id
/// finds the entry, so the outcome is the answer for that request and never an
/// unknown correlation; a response that comes out carries the id, and once the
/// store has finished it the id is in flight no more and pending no more.
pub proof fn lemma_round_trip(
    store: StoreModel,
    table: Map<i32, RequestHeader>,
    header: RequestHeader,
    payload: Seq<u8>,
    after: Map<i32, RequestHeader>,
    r: Result<(ResponseHeader, ResponseKind), KafkaClientError>,
)
    requires
        payload.len() >= 4,
        be_i32(payload) == store.next,
        frame_decoded(
            table.insert(store.next, header.with_id(store.next)),
            payload,
            after,
            r,
        ),
    ensures
        r == answer(header.with_id(store.next), store.next, payload),
        !fails_as(r, ErrorKind::UnknownCorrelation),
        after == table.remove(store.next),
        r is Ok ==> r->Ok_0.0.correlation_id == store.next && store.assign().finish(
            r->Ok_0.0.correlation_id,
        ).in_flight == store.in_flight.remove(store.next) && ApiKind::of_key(
            header.request_api_key,
        ) == Some(r->Ok_0.1.spec_kind()),
{
    let tag = store.next;
    assert(table.insert(tag, header.with_id(tag)).remove(tag) =~= table.remove(tag));
    assert(store.in_flight.insert(tag).remove(tag) =~= store.in_flight.remove(tag));
}

/// Responses may come in any order: decoding the response of the request sent
/// second, while the one sent first still waits, gives the answer for the second
/// request and leaves the first pending and in flight.
pub proof fn lemma_out_of_order(
    store: StoreModel,
    table: Map<i32, RequestHeader>,
    first: i32,
    second: i32,
    payload: Seq<u8>,
    after: Map<i32, RequestHeader>,
    r: Result<(ResponseHeader, ResponseKind), KafkaClientError>,
)
    requires
        first != second,
        table.contains_key(first),
        table.contains_key(second),
        store.in_flight.contains(first),
        payload.len() >= 4,
        be_i32(payload) == second,
        frame_decoded(table, payload, after, r),
    ensures
        r == answer(table[second], second, payload),
        !fails_as(r, ErrorKind::UnknownCorrelation),
        r is Ok ==> r->Ok_0.0.correlation_id == second,
        after.contains_key(first),
        after[first] == table[first],
        !after.contains_key(second),
        store.finish(second).in_flight.contains(first),
{
}

/// A response nothing waits for is an unknown correlation and changes nothing:
/// the table after it is the table before it, entry for entry.
pub proof fn lemma_unknown_id_leaves_table(
    table: Map<i32, RequestHeader>,
    payload: Seq<u8>,
    after: Map<i32, RequestHeader>,
    r: Result<(ResponseHeader, ResponseKind), KafkaClientError>,
)
    requires
        payload.len() >= 4,
        !table.contains_key(be_i32(payload)),
        frame_decoded(table, payload, after, r),
    ensures
        fails_as(r, ErrorKind::UnknownCorrelation),
        after == table,
{
}

/// A response of a supported operation whose body the protocol crate can read
/// is delivered: the answer is the response under the id, not an error.
pub proof fn lemma_readable_response_is_delivered(
    entry: RequestHeader,
    cid: i32,
    payload: Seq<u8>,
)
    requires
        ApiKind::of_key(entry.request_api_key) is Some,
        body_after_header(
            payload,
            ApiKind::of_key(entry.request_api_key)->0.response_header_version(
                entry.request_api_version,
            ),
        ) is Some,
        response_of(
            entry.request_api_key,
            body_after_header(
                payload,
                ApiKind::of_key(entry.request_api_key)->0.response_header_version(
                    entry.request_api_version,
                ),
            )->0,
            entry.request_api_version,
        ) is Some,
    ensures
        answer(entry, cid, payload) is Ok,
        answer(entry, cid, payload)->Ok_0.0.correlation_id == cid,
        ApiKind::of_key(entry.request_api_key) == Some(
            answer(entry, cid, payload)->Ok_0.1.spec_kind(),
        ),
{
}

/// The ids in flight and the ids pending stay the same set: if they agree, they
/// still agree after a request was tagged and registered, and after a response
/// was routed and finished.
pub proof fn lemma_in_flight_is_pending(
    store: StoreModel,
    table: Map<i32, RequestHeader>,
    header: RequestHeader,
    cid: i32,
)
    requires
        store.in_flight == table.dom(),
    ensures
        store.assign().in_flight == table.insert(store.next, header.with_id(store.next)).dom(),
        store.finish(cid).in_flight == table.remove(cid).dom(),
{
    assert(store.assign().in_flight =~= table.insert(
        store.next,
        header.with_id(store.next),
    ).dom());
    assert(store.finish(cid).in_flight =~= table.remove(cid).dom());
}

} // verus!
