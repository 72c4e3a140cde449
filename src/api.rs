use vstd::prelude::*;

verus! {

/// Body of an error response sent by the serving layer.
#[derive(Debug)]
pub struct ErrorMessage {
    pub message: String,
}

/// Stand-in data source that always reports the same fixed measurement.
#[derive(Debug, Clone, Copy, PartialEq, Eq, Structural)]
pub struct MockWeatherApi {}

impl ErrorMessage {
    /// Message for a request to a path that does not exist.
    pub fn not_found() -> (r: ErrorMessage)
        ensures
            r.message@ == "The requested resource was not found."@,
    {
        ErrorMessage { message: "The requested resource was not found.".to_string() }
    }

    /// Message for a request that failed inside the server.
    pub fn server_error() -> (r: ErrorMessage)
        ensures
            r.message@
                == "The server encountered an internal error while processing the request"@,
    {
        ErrorMessage {
            message: "The server encountered an internal error while processing the request"
                .to_string(),
        }
    }
}

} // verus!
