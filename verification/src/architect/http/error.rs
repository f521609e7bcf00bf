//! Error structures and enumerations for the Architect HTTP integration.

use vstd::prelude::*;
use vstd::string::StringExecFns;

use crate::text::{i64_to_string, int_decimal};

verus! {

#[verifier::external_type_specification]
#[verifier::external_body]
pub struct ExJsonError(serde_json::Error);

/// Build error for query parameter validation.
#[derive(Debug, Clone)]
pub enum ArchitectBuildError {
    /// Missing required symbol.
    MissingSymbol,
    /// Invalid limit value.
    InvalidLimit(String),
    /// Invalid time range: `start` should be less than `end`.
    InvalidTimeRange { start: i64, end: i64 },
    /// Missing required order identifier.
    MissingOrderId,
}

impl ArchitectBuildError {
    /// The message of each error.
    pub open spec fn spec_message(self) -> Seq<char> {
        match self {
            ArchitectBuildError::MissingSymbol => "Missing required symbol"@,
            ArchitectBuildError::InvalidLimit(s) => "Invalid limit: "@ + s@,
            ArchitectBuildError::InvalidTimeRange { start, end } => "Invalid time range: start ("@
                + int_decimal(start as int) + ") must be less than end ("@ + int_decimal(end as int)
                + ")"@,
            ArchitectBuildError::MissingOrderId => "Missing required order identifier"@,
        }
    }

    /// The message of the error.
    #[allow(clippy::inherent_to_string)]
    pub fn to_string(&self) -> (r: String)
        ensures
            r@ == self.spec_message(),
    {
        match self {
            ArchitectBuildError::MissingSymbol => "Missing required symbol".to_owned(),
            ArchitectBuildError::InvalidLimit(s) => {
                let mut r = "Invalid limit: ".to_owned();
                r.append(s.as_str());
                r
            },
            ArchitectBuildError::InvalidTimeRange { start, end } => {
                let mut r = "Invalid time range: start (".to_owned();
                r.append(i64_to_string(*start).as_str());
                r.append(") must be less than end (");
                r.append(i64_to_string(*end).as_str());
                r.append(")");
                r
            },
            ArchitectBuildError::MissingOrderId => "Missing required order identifier".to_owned(),
        }
    }
}

/// Represents the JSON structure of an error response returned by the Architect API.
#[derive(Clone, Debug)]
pub struct ArchitectErrorResponse {
    /// Error code or type.
    pub error: Option<String>,
    /// A human-readable explanation of the error condition.
    pub message: Option<String>,
    /// HTTP status code.
    pub status: Option<u16>,
}

/// A typed error enumeration for the Architect HTTP client.
#[derive(Debug, Clone)]
pub enum ArchitectHttpError {
    /// Error variant when credentials are missing but the request is authenticated.
    MissingCredentials,
    /// Errors returned directly by Architect API.
    ApiError { message: String },
    /// Failure during JSON serialization/deserialization.
    JsonError(String),
    /// Parameter validation error.
    ValidationError(String),
    /// Build error for query parameters.
    BuildError(ArchitectBuildError),
    /// Request was canceled, typically due to shutdown or disconnect.
    Canceled(String),
    /// Generic network error (for retries, cancellations, etc).
    NetworkError(String),
    /// Any unknown HTTP status or unexpected response from Architect.
    UnexpectedStatus { status: u16, body: String },
}

impl vstd::std_specs::convert::FromSpecImpl<String> for ArchitectHttpError {
    open spec fn obeys_from_spec() -> bool {
        true
    }

    open spec fn from_spec(error: String) -> Self {
        ArchitectHttpError::ValidationError(error)
    }
}

impl From<String> for ArchitectHttpError {
    fn from(error: String) -> (r: Self) {
        Self::ValidationError(error)
    }
}

impl vstd::std_specs::convert::FromSpecImpl<ArchitectBuildError> for ArchitectHttpError {
    open spec fn obeys_from_spec() -> bool {
        true
    }

    open spec fn from_spec(error: ArchitectBuildError) -> Self {
        ArchitectHttpError::BuildError(error)
    }
}

impl From<ArchitectBuildError> for ArchitectHttpError {
    fn from(error: ArchitectBuildError) -> (r: Self) {
        Self::BuildError(error)
    }
}

impl ArchitectHttpError {
    /// The `message` of an error response, else its `error`, else "Unknown error".
    pub open spec fn spec_response_message(response: ArchitectErrorResponse) -> Seq<char> {
        match response.message {
            Some(m) => m@,
            None => match response.error {
                Some(e) => e@,
                None => "Unknown error"@,
            },
        }
    }

    /// Converts an API error response into an [`ArchitectHttpError::ApiError`].
    pub fn from_error_response(error: ArchitectErrorResponse) -> (r: Self)
        ensures
            r matches ArchitectHttpError::ApiError { message } && message@
                == Self::spec_response_message(error),
    {
        let message = match error.message {
            Some(m) => m,
            None => match error.error {
                Some(e) => e,
                None => "Unknown error".to_owned(),
            },
        };
        Self::ApiError { message }
    }

    /// Converts a JSON failure into an [`ArchitectHttpError::JsonError`] holding its text.
    pub fn from_json_error(error: &serde_json::Error) -> (r: Self)
        ensures
            r matches ArchitectHttpError::JsonError(text)
                && vstd::string::to_string_from_display_ensures::<serde_json::Error>(error, text),
    {
        Self::JsonError(error.to_string())
    }

    /// The message of each error.
    pub open spec fn spec_message(self) -> Seq<char> {
        match self {
            ArchitectHttpError::MissingCredentials => "Missing credentials for authenticated request"@,
            ArchitectHttpError::ApiError { message } => "Architect API error: "@ + message@,
            ArchitectHttpError::JsonError(s) => "JSON error: "@ + s@,
            ArchitectHttpError::ValidationError(s) => "Parameter validation error: "@ + s@,
            ArchitectHttpError::BuildError(e) => "Build error: "@ + e.spec_message(),
            ArchitectHttpError::Canceled(s) => "Request canceled: "@ + s@,
            ArchitectHttpError::NetworkError(s) => "Network error: "@ + s@,
            ArchitectHttpError::UnexpectedStatus { status, body } => "Unexpected HTTP status code "@
                + int_decimal(status as int) + ": "@ + body@,
        }
    }

    /// The message of the error.
    #[allow(clippy::inherent_to_string)]
    pub fn to_string(&self) -> (r: String)
        ensures
            r@ == self.spec_message(),
    {
        match self {
            ArchitectHttpError::MissingCredentials => "Missing credentials for authenticated request".to_owned(),
            ArchitectHttpError::ApiError { message } => {
                let mut r = "Architect API error: ".to_owned();
                r.append(message.as_str());
                r
            },
            ArchitectHttpError::JsonError(s) => {
                let mut r = "JSON error: ".to_owned();
                r.append(s.as_str());
                r
            },
            ArchitectHttpError::ValidationError(s) => {
                let mut r = "Parameter validation error: ".to_owned();
                r.append(s.as_str());
                r
            },
            ArchitectHttpError::BuildError(e) => {
                let mut r = "Build error: ".to_owned();
                r.append(e.to_string().as_str());
                r
            },
            ArchitectHttpError::Canceled(s) => {
                let mut r = "Request canceled: ".to_owned();
                r.append(s.as_str());
                r
            },
            ArchitectHttpError::NetworkError(s) => {
                let mut r = "Network error: ".to_owned();
                r.append(s.as_str());
                r
            },
            ArchitectHttpError::UnexpectedStatus { status, body } => {
                let mut r = "Unexpected HTTP status code ".to_owned();
                r.append(i64_to_string(*status as i64).as_str());
                r.append(": ");
                r.append(body.as_str());
                r
            },
        }
    }
}

/// An error response of the API is reported as "Architect API error: "
/// followed by its message, else its error code, else "Unknown error".
pub proof fn lemma_error_response_text(response: ArchitectErrorResponse, error: ArchitectHttpError)
    requires
        error matches ArchitectHttpError::ApiError { message } && message@
            == ArchitectHttpError::spec_response_message(response),
    ensures
        error.spec_message() == "Architect API error: "@ + ArchitectHttpError::spec_response_message(
            response,
        ),
{
}

} // verus!
