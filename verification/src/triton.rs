//! Upstream as the gateway sees it: a call ready to be sent, and the messages
//! and statuses of the health service.

use vstd::prelude::*;

pub mod telemetry;

verus! {

/// The request of the upstream health service. An empty `service` asks for
/// the health of the server as a whole.
#[derive(Clone, Debug, PartialEq, Eq)]
pub struct HealthCheckRequest {
    pub service: String,
}

/// The reply of the upstream health service: a status number as it came off
/// the wire, not yet decoded.
#[derive(Clone, Copy, Debug, PartialEq, Eq)]
pub struct HealthCheckResponse {
    pub status: i32,
}

/// One call to upstream, ready to be sent: the message, and the metadata that
/// travels beside it as pairs of key and value.
#[derive(Clone, Debug, PartialEq, Eq)]
pub struct UpstreamCall<M> {
    pub message: M,
    pub metadata: Vec<(String, String)>,
}

impl<M> UpstreamCall<M> {
    /// A call that carries `message` and no metadata.
    pub fn new(message: M) -> (call: UpstreamCall<M>)
        ensures
            call.message == message,
            call.metadata.deep_view() == Seq::<(Seq<char>, Seq<char>)>::empty(),
    {
        let call = UpstreamCall { message, metadata: Vec::new() };
        call
    }
}

/// What the upstream health service reports about itself.
///
/// The variants are exactly those of the health-checking protocol; a number
/// from the wire that is none of them has no `ServingStatus` at all (see
/// [`ServingStatus::from_i32`]).
#[derive(Clone, Copy, Debug, PartialEq, Eq, Structural)]
pub enum ServingStatus {
    Unknown,
    Serving,
    NotServing,
    ServiceUnknown,
}

impl ServingStatus {
    /// The status that a wire number stands for, if it stands for one.
    pub open spec fn decode(value: int) -> Option<ServingStatus> {
        if value == 0 {
            Some(ServingStatus::Unknown)
        } else if value == 1 {
            Some(ServingStatus::Serving)
        } else if value == 2 {
            Some(ServingStatus::NotServing)
        } else if value == 3 {
            Some(ServingStatus::ServiceUnknown)
        } else {
            None
        }
    }

    /// The name of the variant itself, as a debug print shows it.
    pub open spec fn variant_name(self) -> Seq<char> {
        match self {
            ServingStatus::Unknown => "Unknown"@,
            ServingStatus::Serving => "Serving"@,
            ServingStatus::NotServing => "NotServing"@,
            ServingStatus::ServiceUnknown => "ServiceUnknown"@,
        }
    }

    /// The name of this status in the protocol definition.
    pub open spec fn wire_name(self) -> Seq<char> {
        match self {
            ServingStatus::Unknown => "UNKNOWN"@,
            ServingStatus::Serving => "SERVING"@,
            ServingStatus::NotServing => "NOT_SERVING"@,
            ServingStatus::ServiceUnknown => "SERVICE_UNKNOWN"@,
        }
    }

    /// Decodes a status number received from upstream. Numbers outside the
    /// enumeration are rejected, never mapped to a default.
    pub fn from_i32(value: i32) -> (status: Option<ServingStatus>)
        ensures
            status == Self::decode(value as int),
    {
        match value {
            0 => Some(ServingStatus::Unknown),
            1 => Some(ServingStatus::Serving),
            2 => Some(ServingStatus::NotServing),
            3 => Some(ServingStatus::ServiceUnknown),
            _ => None,
        }
    }

    /// The name of this status as the protocol definition spells it.
    pub fn as_str_name(&self) -> (name: &'static str)
        ensures
            name@ == self.wire_name(),
    {
        match self {
            ServingStatus::Unknown => "UNKNOWN",
            ServingStatus::Serving => "SERVING",
            ServingStatus::NotServing => "NOT_SERVING",
            ServingStatus::ServiceUnknown => "SERVICE_UNKNOWN",
        }
    }

    /// The name of the variant, as a debug print shows it.
    pub fn as_variant_name(&self) -> (name: &'static str)
        ensures
            name@ == self.variant_name(),
    {
        match self {
            ServingStatus::Unknown => "Unknown",
            ServingStatus::Serving => "Serving",
            ServingStatus::NotServing => "NotServing",
            ServingStatus::ServiceUnknown => "ServiceUnknown",
        }
    }

    /// Whether upstream is ready to serve. Only `Serving` counts.
    pub fn is_serving(&self) -> (serving: bool)
        ensures
            serving == (*self == ServingStatus::Serving),
    {
        match self {
            ServingStatus::Serving => true,
            _ => false,
        }
    }
}

} // verus!
