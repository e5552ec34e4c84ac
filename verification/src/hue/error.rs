//! Errors reported by the Hue bridge layer.
use vstd::prelude::*;
use crate::text::{decimal, push_decimal};

verus! {

/// An error of the Hue bridge layer.  Failures of the transport, the filesystem
/// and the TLS library are carried as their rendered messages.
#[derive(Clone, Debug, PartialEq, Eq)]
pub enum HueError {
    InvalidConfig(String),
    MissingUsername,
    MissingClientKey,
    UnexpectedResponse(String),
    Http(String),
    Io(String),
    Openssl(String),
    AudioCapture(String),
    EntertainmentStream(String),
    Api { code: u16, address: String, description: String },
}

/// The error body that the bridge reports for a failed request.
#[derive(Clone, Debug, PartialEq, Eq)]
pub struct HueApiErrorBody {
    pub error_type: u16,
    pub address: String,
    pub description: String,
}

/// The human-readable message of an error.
pub open spec fn hue_error_message(e: HueError) -> Seq<char> {
    match e {
        HueError::InvalidConfig(m) => "invalid Hue bridge configuration: "@ + m@,
        HueError::MissingUsername => "Hue bridge username is required for this operation"@,
        HueError::MissingClientKey => "Hue bridge client key is required for entertainment streaming; pair this app again to enable audio sync"@,
        HueError::UnexpectedResponse(m) => "Hue bridge returned an unexpected response: "@ + m@,
        HueError::Http(m) => "failed to communicate with the Hue bridge: "@ + m@,
        HueError::Io(m) => "failed to use the local filesystem: "@ + m@,
        HueError::Openssl(m) => "failed to configure DTLS: "@ + m@,
        HueError::AudioCapture(m) => "failed to start Linux audio capture: "@ + m@,
        HueError::EntertainmentStream(m) => "failed to stream Hue entertainment data: "@ + m@,
        HueError::Api { code, address, description } => "Hue bridge API error "@ + decimal(
            code as nat,
        ) + " at "@ + address@ + ": "@ + description@,
    }
}

impl HueError {
    /// The message of this error, as shown to the user.
    pub fn message(&self) -> (r: String)
        ensures
            r@ == hue_error_message(*self),
    {
        match self {
            HueError::InvalidConfig(m) => String::from_str("invalid Hue bridge configuration: ").concat(m.as_str()),
            HueError::MissingUsername => String::from_str("Hue bridge username is required for this operation"),
            HueError::MissingClientKey => String::from_str("Hue bridge client key is required for entertainment streaming; pair this app again to enable audio sync"),
            HueError::UnexpectedResponse(m) => String::from_str("Hue bridge returned an unexpected response: ").concat(m.as_str()),
            HueError::Http(m) => String::from_str("failed to communicate with the Hue bridge: ").concat(m.as_str()),
            HueError::Io(m) => String::from_str("failed to use the local filesystem: ").concat(m.as_str()),
            HueError::Openssl(m) => String::from_str("failed to configure DTLS: ").concat(m.as_str()),
            HueError::AudioCapture(m) => String::from_str("failed to start Linux audio capture: ").concat(m.as_str()),
            HueError::EntertainmentStream(m) => String::from_str("failed to stream Hue entertainment data: ").concat(m.as_str()),
            HueError::Api { code, address, description } => {
                let mut out = String::from_str("Hue bridge API error ");
                push_decimal(&mut out, *code as u64);
                out.append(" at ");
                out.append(address.as_str());
                out.append(": ");
                out.append(description.as_str());
                out
            },
        }
    }
}

impl From<HueApiErrorBody> for HueError {
    fn from(value: HueApiErrorBody) -> (r: Self) {
        HueError::Api { code: value.error_type, address: value.address, description: value.description }
    }
}

impl vstd::std_specs::convert::FromSpecImpl<HueApiErrorBody> for HueError {
    open spec fn obeys_from_spec() -> bool {
        true
    }

    open spec fn from_spec(value: HueApiErrorBody) -> Self {
        HueError::Api { code: value.error_type, address: value.address, description: value.description }
    }
}

} // verus!
