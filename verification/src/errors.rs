use vstd::prelude::*;

verus! {

/// The closed set of error kinds a command can end in.
///
/// Construction-time kinds (`AbsentAccessToken`, `PrepareClient`) are fatal to
/// startup; every other kind is surfaced as a single log line and never ends
/// the session.
#[derive(Debug)]
pub enum AppError {
    /// The input line did not match the command grammar.
    ParseCommand,
    /// The access token environment variable was absent at construction.
    AbsentAccessToken,
    /// The backend adapter could not be constructed.
    PrepareClient(String),
    /// Request parameters could not be assembled.
    PrepareRequestParameters,
    /// The request could not be built before sending.
    PrepareRequest,
    /// The transport failed to deliver the request.
    SendRequest(String),
    /// The remote service rejected the call; the payload says why.
    Request(String),
    /// The remote service accepted the call but its payload could not be decoded.
    Response(String),
    /// A local file could not be read or written.
    Io(String),
}

/// The one human-readable line that a value of `AppError` turns into.
pub open spec fn spec_message(e: &AppError) -> Seq<char> {
    match e {
        AppError::ParseCommand => "unable to parse command"@,
        AppError::AbsentAccessToken => "Access token is absent"@,
        AppError::PrepareClient(s) => "Failed to prepare cloud client: "@ + s@,
        AppError::PrepareRequestParameters => "Failed to prepare request parameters"@,
        AppError::PrepareRequest => "Failed to prepare request"@,
        AppError::SendRequest(s) => "Failed to send request: "@ + s@,
        AppError::Request(s) => "Request error: "@ + s@,
        AppError::Response(s) => "Response error: "@ + s@,
        AppError::Io(s) => "Io error: "@ + s@,
    }
}

impl AppError {
    /// Renders the error as the log line the executor records for it.
    pub fn message(&self) -> (r: String)
        ensures
            r@ == spec_message(self),
    {
        match self {
            AppError::ParseCommand => String::from_str("unable to parse command"),
            AppError::AbsentAccessToken => String::from_str("Access token is absent"),
            AppError::PrepareClient(s) => String::from_str("Failed to prepare cloud client: ").concat(s.as_str()),
            AppError::PrepareRequestParameters => String::from_str("Failed to prepare request parameters"),
            AppError::PrepareRequest => String::from_str("Failed to prepare request"),
            AppError::SendRequest(s) => String::from_str("Failed to send request: ").concat(s.as_str()),
            AppError::Request(s) => String::from_str("Request error: ").concat(s.as_str()),
            AppError::Response(s) => String::from_str("Response error: ").concat(s.as_str()),
            AppError::Io(s) => String::from_str("Io error: ").concat(s.as_str()),
        }
    }
}

} // verus!
