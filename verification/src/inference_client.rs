//! The failures of a call to the inference service and how they are shown
//! to a client.

use crate::config::AppConfig;
use crate::types::{Status, BAD_REQUEST, INTERNAL_SERVER_ERROR, SERVICE_UNAVAILABLE};
use reqwest::{Client, Error, StatusCode};
use std::time::Duration;
use vstd::prelude::*;

verus! {

/// A failure of the HTTP transport, as the HTTP client reports it.
#[verifier::external_type_specification]
#[verifier::external_body]
pub struct ExTransportError(Error);

/// The status of an HTTP response, as the HTTP client reports it.
#[verifier::external_type_specification]
#[verifier::external_body]
pub struct ExStatusCode(StatusCode);

/// A reusable HTTP client.
#[verifier::external_type_specification]
#[verifier::external_body]
pub struct ExClient(Client);

/// The numeric code of a response status.
pub uninterp spec fn status_code_number(status: StatusCode) -> u16;

/// The text that shows a status with the given code: the code and the
/// reason phrase that goes with it.
pub uninterp spec fn status_code_display(code: u16) -> Seq<char>;

/// The text that shows a transport failure.
pub uninterp spec fn transport_error_display(error: Error) -> Seq<char>;

/// `StatusCode::as_u16`: the numeric code, which a status keeps between 100
/// and 999.
pub assume_specification[ StatusCode::as_u16 ](status: &StatusCode) -> (code: u16)
    ensures
        code == status_code_number(*status),
        100 <= code <= 999,
;

/// The `Display` of `StatusCode`: the code followed by its reason phrase,
/// which depends on the code alone.
#[verifier::external_body]
fn status_text(status: &StatusCode) -> (text: String)
    ensures
        text@ == status_code_display(status_code_number(*status)),
{
    status.to_string()
}

/// The `Display` of `reqwest::Error`: a description of the failure.
#[verifier::external_body]
fn transport_error_text(error: &Error) -> (text: String)
    ensures
        text@ == transport_error_display(*error),
{
    error.to_string()
}

/// `reqwest::Client::builder`, `timeout` and `build`: a client whose calls
/// give up after the given time. Building may fail; nothing is promised.
#[verifier::external_body]
fn build_client(timeout: Duration) -> (built: Result<Client, Error>) {
    Client::builder().timeout(timeout).build()
}

/// Why a call to the inference service failed.
#[derive(Debug)]
pub enum InferenceError {
    /// The transport failed: no connection, a timeout, a reset.
    NetworkError(Error),
    /// The service answered with a status outside the 2xx range.
    HttpError { status: StatusCode, body: String },
    /// The body of the answer was not a list of embeddings.
    ParseError(Error),
}

impl InferenceError {
    /// The status code under which the failure is reported to a client.
    pub open spec fn client_status(self) -> u16 {
        match self {
            InferenceError::NetworkError(_) => SERVICE_UNAVAILABLE,
            InferenceError::HttpError { status, .. } => {
                let code = status_code_number(status);
                if 400 <= code <= 499 {
                    BAD_REQUEST
                } else if 500 <= code <= 599 {
                    SERVICE_UNAVAILABLE
                } else {
                    INTERNAL_SERVER_ERROR
                }
            },
            InferenceError::ParseError(_) => INTERNAL_SERVER_ERROR,
        }
    }

    /// The text under which the failure is reported to a client.
    pub open spec fn description(self) -> Seq<char> {
        match self {
            InferenceError::NetworkError(error) => "Network error: "@ + transport_error_display(
                error,
            ),
            InferenceError::HttpError { status, body } => "HTTP "@ + status_code_display(
                status_code_number(status),
            ) + ": "@ + body@,
            InferenceError::ParseError(error) => "Parse error: "@ + transport_error_display(error),
        }
    }

    /// Maps the failure to the status of the answer: a transport failure and
    /// a 5xx of the service make the proxy unavailable, a 4xx of the service
    /// is a bad request, anything else an internal error.
    pub fn to_rocket_status(&self) -> (status: Status)
        ensures
            status.code == self.client_status(),
    {
        match self {
            InferenceError::NetworkError(_) => Status { code: SERVICE_UNAVAILABLE },
            InferenceError::HttpError { status, .. } => {
                let code: u16 = status.as_u16();
                if 400 <= code && code <= 499 {
                    Status { code: BAD_REQUEST }
                } else if 500 <= code && code <= 599 {
                    Status { code: SERVICE_UNAVAILABLE }
                } else {
                    Status { code: INTERNAL_SERVER_ERROR }
                }
            },
            InferenceError::ParseError(_) => Status { code: INTERNAL_SERVER_ERROR },
        }
    }

    /// Describes the failure in one line.
    pub fn message(&self) -> (text: String)
        ensures
            text@ == self.description(),
    {
        match self {
            InferenceError::NetworkError(error) => {
                let mut text = "Network error: ".to_owned();
                text.push_str(transport_error_text(error).as_str());
                text
            },
            InferenceError::HttpError { status, body } => {
                let mut text = "HTTP ".to_owned();
                text.push_str(status_text(status).as_str());
                text.push_str(": ");
                text.push_str(body.as_str());
                text
            },
            InferenceError::ParseError(error) => {
                let mut text = "Parse error: ".to_owned();
                text.push_str(transport_error_text(error).as_str());
                text
            },
        }
    }
}

/// The client of the inference service: an HTTP client and the URL it posts
/// to.
pub struct InferenceServiceClient {
    pub client: Client,
    pub base_url: String,
}

impl InferenceServiceClient {
    /// A client for the configured URL whose calls give up after the
    /// configured timeout. Where the HTTP client cannot be built, the failure
    /// is described.
    pub fn new(config: &AppConfig) -> (made: Result<Self, String>)
        ensures
            match made {
                Ok(service) => service.base_url@ == config.inference_url@,
                Err(complaint) => exists|error: Error|
                    complaint@ == "Failed to create HTTP client: "@ + #[trigger] transport_error_display(
                        error,
                    ),
            },
    {
        match build_client(Duration::from_secs(config.inference_timeout_secs)) {
            Ok(client) => Ok(InferenceServiceClient { client, base_url: config.inference_url.clone() }),
            Err(error) => {
                let mut complaint = "Failed to create HTTP client: ".to_owned();
                complaint.push_str(transport_error_text(&error).as_str());
                Err(complaint)
            },
        }
    }
}

} // verus!
