//! Error values of the component and their conversion to the structured
//! failure that is reported at the invocation boundary.
use vstd::prelude::*;

verus! {

/// A failure as reported to the host: a message and ordered details.
#[derive(Debug)]
pub struct ComponentError {
    pub message: String,
    pub inner: Vec<String>,
}

/// What a failed HTTP request reports: its message, its details, and the
/// body of the response when one was received.
#[derive(Debug)]
pub struct RequestFailure {
    pub message: String,
    pub inner: Vec<String>,
    pub response_body: Option<String>,
}

/// A credential or identifier that neither the input nor the environment
/// provides.
#[derive(Debug, Clone, Copy, PartialEq, Eq, Structural)]
pub enum ConfigError {
    MissingApiToken,
    MissingInverterId,
}

/// A failure while collecting the pages of readings.
#[derive(Debug)]
pub enum FetchError {
    /// The transport reported a failed request.
    Request(RequestFailure),
    /// A response body that is not a page of readings, with the decoder's
    /// message.
    MalformedResponse { detail: String },
    /// More pages than the given limit would have been requested.
    TooManyPages { limit: usize },
}

/// A timestamp of the readings that does not parse as an instant.
#[derive(Debug)]
pub enum ProjectionError {
    UnparsableTimestamp { raw: String, index: usize },
}

impl ComponentError {
    /// A failure with a message and no details.
    pub fn new(message: &str) -> (r: ComponentError)
        ensures
            r.message@ == message@,
            r.inner@.len() == 0,
    {
        ComponentError { message: message.to_owned(), inner: Vec::new() }
    }

    /// A failure with a message and the text of the error that caused it.
    pub fn for_error(message: &str, error: &str) -> (r: ComponentError)
        ensures
            r.message@ == message@,
            r.inner@.len() == 1,
            r.inner@[0]@ == error@,
    {
        let mut inner: Vec<String> = Vec::new();
        inner.push(error.to_owned());
        ComponentError { message: message.to_owned(), inner }
    }

    /// The failure of a request: its message, then its details, then the
    /// response body if there was one.
    pub fn from_request_failure(failure: RequestFailure) -> (r: ComponentError)
        ensures
            r.message == failure.message,
            r.inner@ == (match failure.response_body {
                Some(body) => failure.inner@.push(body),
                None => failure.inner@,
            }),
    {
        let RequestFailure { message, inner, response_body } = failure;
        let mut inner = inner;
        match response_body {
            Some(body) => inner.push(body),
            None => {},
        }
        ComponentError { message, inner }
    }
}

impl ConfigError {
    /// The failure reported for a missing value, naming where it may be given.
    pub fn into_component_error(self) -> (r: ComponentError)
        ensures
            r.inner@.len() == 0,
            r.message@ == (match self {
                ConfigError::MissingApiToken => "No API token provided. Use the input field or the GIVENERGY_API_TOKEN environment variable."@,
                ConfigError::MissingInverterId => "No inverter ID provided. Use the input field or the GIVENERGY_INVERTER_ID environment variable."@,
            }),
    {
        match self {
            ConfigError::MissingApiToken => ComponentError::new(
                "No API token provided. Use the input field or the GIVENERGY_API_TOKEN environment variable.",
            ),
            ConfigError::MissingInverterId => ComponentError::new(
                "No inverter ID provided. Use the input field or the GIVENERGY_INVERTER_ID environment variable.",
            ),
        }
    }
}

impl FetchError {
    /// The failure reported at the boundary: a failed request as it came,
    /// a malformed page with the decoder's message, or the page limit.
    pub fn into_component_error(self) -> (r: ComponentError)
        ensures
            match self {
                FetchError::Request(f) => {
                    &&& r.message == f.message
                    &&& r.inner@ == (match f.response_body {
                        Some(body) => f.inner@.push(body),
                        None => f.inner@,
                    })
                },
                FetchError::MalformedResponse { detail } => {
                    &&& r.message@ == "Failed to deserialize response."@
                    &&& r.inner@.len() == 1
                    &&& r.inner@[0]@ == detail@
                },
                FetchError::TooManyPages { .. } => {
                    &&& r.message@ == "Too many pages of data points."@
                    &&& r.inner@.len() == 0
                },
            },
    {
        match self {
            FetchError::Request(f) => ComponentError::from_request_failure(f),
            FetchError::MalformedResponse { detail } => {
                ComponentError::for_error("Failed to deserialize response.", detail.as_str())
            },
            FetchError::TooManyPages { .. } => ComponentError::new("Too many pages of data points."),
        }
    }
}

impl ProjectionError {
    /// The failure reported for an unparsable timestamp, with its text.
    pub fn into_component_error(self) -> (r: ComponentError)
        ensures
            r.message@ == "Failed to parse date/time."@,
            r.inner@.len() == 1,
            r.inner@[0]@ == (match self {
                ProjectionError::UnparsableTimestamp { raw, .. } => raw@,
            }),
    {
        match self {
            ProjectionError::UnparsableTimestamp { raw, .. } => {
                ComponentError::for_error("Failed to parse date/time.", raw.as_str())
            },
        }
    }
}

} // verus!
