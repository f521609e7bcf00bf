//! Error types produced by the Architect WebSocket client implementation.

use vstd::prelude::*;
use vstd::string::StringExecFns;

verus! {

#[verifier::external_type_specification]
#[verifier::external_body]
pub struct ExTungsteniteError(tokio_tungstenite::tungstenite::Error);

/// A typed error enumeration for the Architect WebSocket client.
#[derive(Debug, Clone)]
pub enum ArchitectWsError {
    /// Failure to parse incoming message.
    ParsingError(String),
    /// Errors returned directly by Architect API.
    ApiError(String),
    /// Failure during JSON serialization/deserialization.
    JsonError(String),
    /// Generic client error.
    ClientError(String),
    /// Authentication error (invalid/expired token, etc.).
    AuthenticationError(String),
    /// Connection error during WebSocket setup.
    ConnectionError(String),
    /// Subscription error (invalid symbol, already subscribed, etc.).
    SubscriptionError(String),
    /// Order operation error (rejection, cancellation failure, etc.).
    OrderError(String),
    /// WebSocket transport error.
    TungsteniteError(String),
    /// Channel communication error.
    ChannelError(String),
    /// Timeout waiting for response.
    Timeout(String),
}

/// Represents an error response from the Architect WebSocket API.
#[derive(Clone, Debug)]
pub struct ArchitectWsErrorResponse {
    /// Error code.
    pub code: Option<String>,
    /// Error message.
    pub message: Option<String>,
    /// Request ID if available.
    pub rid: Option<i64>,
}

impl vstd::std_specs::convert::FromSpecImpl<String> for ArchitectWsError {
    open spec fn obeys_from_spec() -> bool {
        true
    }

    open spec fn from_spec(msg: String) -> Self {
        ArchitectWsError::ClientError(msg)
    }
}

impl From<String> for ArchitectWsError {
    fn from(msg: String) -> (r: Self) {
        Self::ClientError(msg)
    }
}

impl ArchitectWsError {
    /// The `message` of an error response, else its `code`, else "Unknown error".
    pub open spec fn spec_response_message(response: ArchitectWsErrorResponse) -> Seq<char> {
        match response.message {
            Some(m) => m@,
            None => match response.code {
                Some(c) => c@,
                None => "Unknown error"@,
            },
        }
    }

    /// Converts an API error response into an [`ArchitectWsError::ApiError`].
    pub fn from_error_response(error: ArchitectWsErrorResponse) -> (r: Self)
        ensures
            r matches ArchitectWsError::ApiError(message) && message@ == Self::spec_response_message(
                error,
            ),
    {
        let message = match error.message {
            Some(m) => m,
            None => match error.code {
                Some(c) => c,
                None => "Unknown error".to_owned(),
            },
        };
        Self::ApiError(message)
    }

    /// Converts a JSON failure into an [`ArchitectWsError::JsonError`] holding its text.
    pub fn from_json_error(error: &serde_json::Error) -> (r: Self)
        ensures
            r matches ArchitectWsError::JsonError(text)
                && vstd::string::to_string_from_display_ensures::<serde_json::Error>(error, text),
    {
        Self::JsonError(error.to_string())
    }

    /// Converts a transport failure into an [`ArchitectWsError::TungsteniteError`] holding its text.
    pub fn from_tungstenite_error(error: &tokio_tungstenite::tungstenite::Error) -> (r: Self)
        ensures
            r matches ArchitectWsError::TungsteniteError(text)
                && vstd::string::to_string_from_display_ensures::<tokio_tungstenite::tungstenite::Error>(
                error,
                text,
            ),
    {
        Self::TungsteniteError(error.to_string())
    }

    /// The message prefix of each variant.
    pub open spec fn spec_prefix(self) -> Seq<char> {
        match self {
            ArchitectWsError::ParsingError(_) => "Parsing error: "@,
            ArchitectWsError::ApiError(_) => "Architect error: "@,
            ArchitectWsError::JsonError(_) => "JSON error: "@,
            ArchitectWsError::ClientError(_) => "Client error: "@,
            ArchitectWsError::AuthenticationError(_) => "Authentication error: "@,
            ArchitectWsError::ConnectionError(_) => "Connection error: "@,
            ArchitectWsError::SubscriptionError(_) => "Subscription error: "@,
            ArchitectWsError::OrderError(_) => "Order error: "@,
            ArchitectWsError::TungsteniteError(_) => "Tungstenite error: "@,
            ArchitectWsError::ChannelError(_) => "Channel error: "@,
            ArchitectWsError::Timeout(_) => "Timeout: "@,
        }
    }

    /// The text carried by the error.
    pub open spec fn spec_detail(self) -> Seq<char> {
        match self {
            ArchitectWsError::ParsingError(s) => s@,
            ArchitectWsError::ApiError(s) => s@,
            ArchitectWsError::JsonError(s) => s@,
            ArchitectWsError::ClientError(s) => s@,
            ArchitectWsError::AuthenticationError(s) => s@,
            ArchitectWsError::ConnectionError(s) => s@,
            ArchitectWsError::SubscriptionError(s) => s@,
            ArchitectWsError::OrderError(s) => s@,
            ArchitectWsError::TungsteniteError(s) => s@,
            ArchitectWsError::ChannelError(s) => s@,
            ArchitectWsError::Timeout(s) => s@,
        }
    }

    /// The message of the error: its variant's prefix, then its text.
    #[allow(clippy::inherent_to_string)]
    pub fn to_string(&self) -> (r: String)
        ensures
            r@ == self.spec_prefix() + self.spec_detail(),
    {
        let (prefix, detail) = match self {
            ArchitectWsError::ParsingError(s) => ("Parsing error: ", s),
            ArchitectWsError::ApiError(s) => ("Architect error: ", s),
            ArchitectWsError::JsonError(s) => ("JSON error: ", s),
            ArchitectWsError::ClientError(s) => ("Client error: ", s),
            ArchitectWsError::AuthenticationError(s) => ("Authentication error: ", s),
            ArchitectWsError::ConnectionError(s) => ("Connection error: ", s),
            ArchitectWsError::SubscriptionError(s) => ("Subscription error: ", s),
            ArchitectWsError::OrderError(s) => ("Order error: ", s),
            ArchitectWsError::TungsteniteError(s) => ("Tungstenite error: ", s),
            ArchitectWsError::ChannelError(s) => ("Channel error: ", s),
            ArchitectWsError::Timeout(s) => ("Timeout: ", s),
        };
        let mut r = prefix.to_owned();
        r.append(detail.as_str());
        r
    }
}

/// An error response of the WebSocket API is reported as "Architect error: "
/// followed by its message, else its code, else "Unknown error".
pub proof fn lemma_error_response_text(response: ArchitectWsErrorResponse, error: ArchitectWsError)
    requires
        error matches ArchitectWsError::ApiError(message) && message@
            == ArchitectWsError::spec_response_message(response),
    ensures
        error.spec_prefix() + error.spec_detail() == "Architect error: "@
            + ArchitectWsError::spec_response_message(response),
{
}

} // verus!
