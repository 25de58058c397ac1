//! Errors that can occur when interacting with the Parcl Labs API.

use vstd::prelude::*;
use vstd::string::StringExecFns;
use vstd::std_specs::convert::FromSpecImpl;
use crate::text::{decimal_nat, push_decimal_u64};

verus! {

/// The error type of the HTTP transport.
#[verifier::external_type_specification]
#[verifier::external_body]
pub struct ExTransportError(reqwest::Error);

/// The error type of the JSON decoder.
#[verifier::external_type_specification]
#[verifier::external_body]
pub struct ExDecodeError(serde_json::Error);

/// Errors that can occur when interacting with the Parcl Labs API
#[derive(Debug)]
pub enum ParclError {
    /// No credential was given; nothing was sent.
    MissingApiKey,
    /// The request did not complete (connection, TLS, timeout).
    RequestFailed(reqwest::Error),
    /// The server answered with a status that is neither success nor "too many requests".
    ApiError { status: u16, message: String },
    /// The server kept answering "too many requests" until the retries were used up.
    RateLimited { attempts: u32, message: String },
    /// The response body did not match the expected schema.
    ParseError(serde_json::Error),
    /// A parameter was rejected before any request was made.
    InvalidParameter(String),
}

impl From<reqwest::Error> for ParclError {
    fn from(error: reqwest::Error) -> (e: Self) {
        ParclError::RequestFailed(error)
    }
}

impl FromSpecImpl<reqwest::Error> for ParclError {
    open spec fn obeys_from_spec() -> bool {
        true
    }

    open spec fn from_spec(error: reqwest::Error) -> Self {
        ParclError::RequestFailed(error)
    }
}

impl From<serde_json::Error> for ParclError {
    fn from(error: serde_json::Error) -> (e: Self) {
        ParclError::ParseError(error)
    }
}

impl FromSpecImpl<serde_json::Error> for ParclError {
    open spec fn obeys_from_spec() -> bool {
        true
    }

    open spec fn from_spec(error: serde_json::Error) -> Self {
        ParclError::ParseError(error)
    }
}

/// `ToString::to_string` on a `reqwest::Error`: the text that the error
/// displays. Nothing is claimed of the text.
#[verifier::external_body]
fn transport_error_text(error: &reqwest::Error) -> (text: String) {
    error.to_string()
}

/// `ToString::to_string` on a `serde_json::Error`: the text that the error
/// displays. Nothing is claimed of the text.
#[verifier::external_body]
fn decode_error_text(error: &serde_json::Error) -> (text: String) {
    error.to_string()
}

impl ParclError {
    /// Whether the error wraps one of the transport or of the decoder,
    /// whose own text is part of the message.
    pub open spec fn wraps_outside_error(&self) -> bool {
        self is RequestFailed || self is ParseError
    }

    /// The message of the error, where `detail` is the text of the wrapped
    /// outside error, if there is one.
    pub open spec fn rendered(&self, detail: Seq<char>) -> Seq<char> {
        match self {
            ParclError::MissingApiKey =>
                "API key not provided. Set PARCL_LABS_API_KEY environment variable or pass it to the client"@,
            ParclError::RequestFailed(_) => "HTTP request failed: "@ + detail,
            ParclError::ApiError { status, message } => "API error ("@ + decimal_nat(
                *status as nat,
            ) + "): "@ + message@,
            ParclError::RateLimited { attempts, message } => "Rate limited after "@ + decimal_nat(
                *attempts as nat,
            ) + " attempts: "@ + message@,
            ParclError::ParseError(_) => "Failed to parse response: "@ + detail,
            ParclError::InvalidParameter(reason) => "Invalid parameter: "@ + reason@,
        }
    }

    /// The message of the error.
    pub fn to_string(&self) -> (text: String)
        ensures
            !self.wraps_outside_error() ==> text@ == self.rendered(Seq::empty()),
            self.wraps_outside_error() ==> exists|detail: Seq<char>|
                text@ == #[trigger] self.rendered(detail),
    {
        match self {
            ParclError::MissingApiKey => String::from_str(
                "API key not provided. Set PARCL_LABS_API_KEY environment variable or pass it to the client",
            ),
            ParclError::RequestFailed(error) => {
                let detail = transport_error_text(error);
                let text = String::from_str("HTTP request failed: ").concat(detail.as_str());
                assert(text@ == self.rendered(detail@));
                text
            },
            ParclError::ApiError { status, message } => {
                let mut text = String::from_str("API error (");
                push_decimal_u64(&mut text, *status as u64);
                text.append("): ");
                text.append(message.as_str());
                text
            },
            ParclError::RateLimited { attempts, message } => {
                let mut text = String::from_str("Rate limited after ");
                push_decimal_u64(&mut text, *attempts as u64);
                text.append(" attempts: ");
                text.append(message.as_str());
                text
            },
            ParclError::ParseError(error) => {
                let detail = decode_error_text(error);
                let text = String::from_str("Failed to parse response: ").concat(detail.as_str());
                assert(text@ == self.rendered(detail@));
                text
            },
            ParclError::InvalidParameter(reason) => String::from_str("Invalid parameter: ").concat(
                reason.as_str(),
            ),
        }
    }
}

} // verus!
