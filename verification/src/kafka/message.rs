//! The messages the client exchanges with a broker: headers as plain values,
//! bodies as the protocol crate's own structures.

use kafka_protocol::messages::ApiVersionsRequest;
use kafka_protocol::messages::ApiVersionsResponse;
use kafka_protocol::messages::CreateTopicsRequest;
use kafka_protocol::messages::CreateTopicsResponse;
use kafka_protocol::messages::LeaderAndIsrRequest;
use kafka_protocol::messages::LeaderAndIsrResponse;
use kafka_protocol::messages::MetadataRequest;
use kafka_protocol::messages::MetadataResponse;
use vstd::prelude::*;

verus! {

/// `kafka_protocol::messages::MetadataRequest`, carried through unread.
#[verifier::external_type_specification]
#[verifier::external_body]
pub struct ExMetadataRequest(kafka_protocol::messages::MetadataRequest);

/// `kafka_protocol::messages::ApiVersionsRequest`, carried through unread.
#[verifier::external_type_specification]
#[verifier::external_body]
pub struct ExApiVersionsRequest(kafka_protocol::messages::ApiVersionsRequest);

/// `kafka_protocol::messages::LeaderAndIsrRequest`, carried through unread.
#[verifier::external_type_specification]
#[verifier::external_body]
pub struct ExLeaderAndIsrRequest(kafka_protocol::messages::LeaderAndIsrRequest);

/// `kafka_protocol::messages::CreateTopicsRequest`, carried through unread.
#[verifier::external_type_specification]
#[verifier::external_body]
pub struct ExCreateTopicsRequest(kafka_protocol::messages::CreateTopicsRequest);

/// `kafka_protocol::messages::MetadataResponse`, carried through unread.
#[verifier::external_type_specification]
#[verifier::external_body]
pub struct ExMetadataResponse(kafka_protocol::messages::MetadataResponse);

/// `kafka_protocol::messages::ApiVersionsResponse`, carried through unread.
#[verifier::external_type_specification]
#[verifier::external_body]
pub struct ExApiVersionsResponse(kafka_protocol::messages::ApiVersionsResponse);

/// `kafka_protocol::messages::LeaderAndIsrResponse`, carried through unread.
#[verifier::external_type_specification]
#[verifier::external_body]
pub struct ExLeaderAndIsrResponse(kafka_protocol::messages::LeaderAndIsrResponse);

/// `kafka_protocol::messages::CreateTopicsResponse`, carried through unread.
#[verifier::external_type_specification]
#[verifier::external_body]
pub struct ExCreateTopicsResponse(kafka_protocol::messages::CreateTopicsResponse);

/// API key of the Metadata operation.
pub const METADATA_KEY: i16 = 3;

/// API key of the LeaderAndIsr operation.
pub const LEADER_AND_ISR_KEY: i16 = 4;

/// API key of the ApiVersions operation.
pub const API_VERSIONS_KEY: i16 = 18;

/// API key of the CreateTopics operation.
pub const CREATE_TOPICS_KEY: i16 = 19;

/// The operations this client can send and understand.
#[derive(Debug, Clone, Copy, PartialEq, Eq, Structural)]
pub enum ApiKind {
    Metadata,
    ApiVersions,
    LeaderAndIsr,
    CreateTopics,
}

impl ApiKind {
    /// The operation an API key stands for, if the client supports it.
    pub open spec fn of_key(key: i16) -> Option<ApiKind> {
        if key == METADATA_KEY {
            Some(ApiKind::Metadata)
        } else if key == LEADER_AND_ISR_KEY {
            Some(ApiKind::LeaderAndIsr)
        } else if key == API_VERSIONS_KEY {
            Some(ApiKind::ApiVersions)
        } else if key == CREATE_TOPICS_KEY {
            Some(ApiKind::CreateTopics)
        } else {
            None
        }
    }

    /// The API key of an operation.
    pub open spec fn spec_key(self) -> i16 {
        match self {
            ApiKind::Metadata => METADATA_KEY,
            ApiKind::ApiVersions => API_VERSIONS_KEY,
            ApiKind::LeaderAndIsr => LEADER_AND_ISR_KEY,
            ApiKind::CreateTopics => CREATE_TOPICS_KEY,
        }
    }

    /// The request header version that goes with a request of this operation at
    /// API version `version`: 2 from the first flexible version on, 1 before.
    pub open spec fn request_header_version(self, version: i16) -> i16 {
        let first_flexible: i16 = match self {
            ApiKind::Metadata => 9,
            ApiKind::ApiVersions => 3,
            ApiKind::LeaderAndIsr => 4,
            ApiKind::CreateTopics => 5,
        };
        if version >= first_flexible {
            2
        } else {
            1
        }
    }

    /// The response header version that goes with a response of this operation
    /// at API version `version`: 1 from the first flexible version on, 0 before;
    /// always 0 for ApiVersions, whose response a client must be able to read
    /// before it knows what the broker speaks.
    pub open spec fn response_header_version(self, version: i16) -> i16 {
        match self {
            ApiKind::Metadata => if version >= 9 {
                1
            } else {
                0
            },
            ApiKind::ApiVersions => 0,
            ApiKind::LeaderAndIsr => if version >= 4 {
                1
            } else {
                0
            },
            ApiKind::CreateTopics => if version >= 5 {
                1
            } else {
                0
            },
        }
    }

    /// Looks an API key up among the supported operations.
    pub fn from_key(key: i16) -> (r: Option<ApiKind>)
        ensures
            r == ApiKind::of_key(key),
    {
        if key == METADATA_KEY {
            Some(ApiKind::Metadata)
        } else if key == LEADER_AND_ISR_KEY {
            Some(ApiKind::LeaderAndIsr)
        } else if key == API_VERSIONS_KEY {
            Some(ApiKind::ApiVersions)
        } else if key == CREATE_TOPICS_KEY {
            Some(ApiKind::CreateTopics)
        } else {
            None
        }
    }

    /// The API key of this operation.
    pub fn key(self) -> (k: i16)
        ensures
            k == self.spec_key(),
            ApiKind::of_key(k) == Some(self),
    {
        match self {
            ApiKind::Metadata => METADATA_KEY,
            ApiKind::ApiVersions => API_VERSIONS_KEY,
            ApiKind::LeaderAndIsr => LEADER_AND_ISR_KEY,
            ApiKind::CreateTopics => CREATE_TOPICS_KEY,
        }
    }
}

/// Header of an outgoing request.
#[derive(Debug, Clone, PartialEq, Eq)]
pub struct RequestHeader {
    pub request_api_key: i16,
    pub request_api_version: i16,
    pub correlation_id: i32,
    pub client_id: Option<String>,
}

impl RequestHeader {
    /// The client identifier as a sequence of characters.
    pub open spec fn client_id_view(&self) -> Option<Seq<char>> {
        match self.client_id {
            Some(s) => Some(s@),
            None => None,
        }
    }

    /// The same header under another correlation id.
    pub open spec fn with_id(self, id: i32) -> RequestHeader {
        RequestHeader {
            request_api_key: self.request_api_key,
            request_api_version: self.request_api_version,
            correlation_id: id,
            client_id: self.client_id,
        }
    }
}

/// Header of an incoming response.
#[derive(Debug, Clone, Copy, PartialEq, Eq)]
pub struct ResponseHeader {
    pub correlation_id: i32,
}

/// An outgoing request body. `Unsupported` stands for every operation the client
/// does not send.
pub enum RequestKind {
    MetadataRequest(MetadataRequest),
    ApiVersionsRequest(ApiVersionsRequest),
    LeaderAndIsrRequest(LeaderAndIsrRequest),
    CreateTopicsRequest(CreateTopicsRequest),
    Unsupported,
}

impl RequestKind {
    /// The operation this request asks for, if it is a supported one.
    pub open spec fn spec_kind(&self) -> Option<ApiKind> {
        match self {
            RequestKind::MetadataRequest(_) => Some(ApiKind::Metadata),
            RequestKind::ApiVersionsRequest(_) => Some(ApiKind::ApiVersions),
            RequestKind::LeaderAndIsrRequest(_) => Some(ApiKind::LeaderAndIsr),
            RequestKind::CreateTopicsRequest(_) => Some(ApiKind::CreateTopics),
            RequestKind::Unsupported => None,
        }
    }

    /// The operation this request asks for, if it is a supported one.
    pub fn kind(&self) -> (k: Option<ApiKind>)
        ensures
            k == self.spec_kind(),
    {
        match self {
            RequestKind::MetadataRequest(_) => Some(ApiKind::Metadata),
            RequestKind::ApiVersionsRequest(_) => Some(ApiKind::ApiVersions),
            RequestKind::LeaderAndIsrRequest(_) => Some(ApiKind::LeaderAndIsr),
            RequestKind::CreateTopicsRequest(_) => Some(ApiKind::CreateTopics),
            RequestKind::Unsupported => None,
        }
    }
}

/// An incoming response body.
pub enum ResponseKind {
    MetadataResponse(MetadataResponse),
    ApiVersionsResponse(ApiVersionsResponse),
    LeaderAndIsrResponse(LeaderAndIsrResponse),
    CreateTopicsResponse(CreateTopicsResponse),
}

impl ResponseKind {
    /// The operation this response answers.
    pub open spec fn spec_kind(&self) -> ApiKind {
        match self {
            ResponseKind::MetadataResponse(_) => ApiKind::Metadata,
            ResponseKind::ApiVersionsResponse(_) => ApiKind::ApiVersions,
            ResponseKind::LeaderAndIsrResponse(_) => ApiKind::LeaderAndIsr,
            ResponseKind::CreateTopicsResponse(_) => ApiKind::CreateTopics,
        }
    }

    /// The operation this response answers.
    pub fn kind(&self) -> (k: ApiKind)
        ensures
            k == self.spec_kind(),
    {
        match self {
            ResponseKind::MetadataResponse(_) => ApiKind::Metadata,
            ResponseKind::ApiVersionsResponse(_) => ApiKind::ApiVersions,
            ResponseKind::LeaderAndIsrResponse(_) => ApiKind::LeaderAndIsr,
            ResponseKind::CreateTopicsResponse(_) => ApiKind::CreateTopics,
        }
    }
}

} // verus!
