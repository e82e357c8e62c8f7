//! What can go wrong between building a request and reading the reply.

use vstd::prelude::*;

verus! {

/// `reqwest::Error`, the reason why a request or its reply did not get through.
#[verifier::external_type_specification]
#[verifier::external_body]
pub struct ExTransportError(reqwest::Error);

/// The ways in which a push can fail.
#[derive(Debug)]
pub enum BarkError {
    /// The request did not reach the server, or its reply did not arrive.
    RequestError(reqwest::Error),
    /// Kept for addresses that cannot be used; nothing returns it yet.
    InvalidUrl,
    /// Neither the message nor the client names a device.
    MissingDeviceKey,
    /// A payload could not be written as JSON, or a reply could not be read as one.
    SerializationError(serde_json::Error),
}

impl From<reqwest::Error> for BarkError {
    fn from(error: reqwest::Error) -> (converted: Self) {
        BarkError::RequestError(error)
    }
}

impl vstd::std_specs::convert::FromSpecImpl<reqwest::Error> for BarkError {
    open spec fn obeys_from_spec() -> bool {
        true
    }

    open spec fn from_spec(error: reqwest::Error) -> Self {
        BarkError::RequestError(error)
    }
}

impl From<serde_json::Error> for BarkError {
    fn from(error: serde_json::Error) -> (converted: Self) {
        BarkError::SerializationError(error)
    }
}

impl vstd::std_specs::convert::FromSpecImpl<serde_json::Error> for BarkError {
    open spec fn obeys_from_spec() -> bool {
        true
    }

    open spec fn from_spec(error: serde_json::Error) -> Self {
        BarkError::SerializationError(error)
    }
}

impl BarkError {
    /// What [`describe`](Self::describe) puts before the underlying error's own
    /// text, or the whole description where there is no underlying error.
    pub open spec fn heading(self) -> Seq<char> {
        match self {
            BarkError::RequestError(_) => "Request error: "@,
            BarkError::InvalidUrl => "Invalid URL"@,
            BarkError::MissingDeviceKey => "Missing device key"@,
            BarkError::SerializationError(_) => "Serialization error: "@,
        }
    }

    /// Describes the error in words, as it would be shown to a person: the
    /// heading, followed by what the underlying error says of itself where
    /// there is one.
    pub fn describe(&self) -> (text: String)
        ensures
            match self {
                BarkError::RequestError(error) => exists|detail: String|
                    vstd::string::to_string_from_display_ensures::<reqwest::Error>(error, detail)
                        && text@ == self.heading() + detail@,
                BarkError::SerializationError(error) => exists|detail: String|
                    vstd::string::to_string_from_display_ensures::<serde_json::Error>(
                        error,
                        detail,
                    ) && text@ == self.heading() + detail@,
                _ => text@ == self.heading(),
            },
    {
        match self {
            BarkError::RequestError(error) => {
                let detail = error.to_string();
                let text = "Request error: ".to_owned().concat(detail.as_str());
                text
            },
            BarkError::InvalidUrl => "Invalid URL".to_owned(),
            BarkError::MissingDeviceKey => "Missing device key".to_owned(),
            BarkError::SerializationError(error) => {
                let detail = error.to_string();
                let text = "Serialization error: ".to_owned().concat(detail.as_str());
                text
            },
        }
    }
}

} // verus!
