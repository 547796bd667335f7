//! The `UP` and `DOWN` statuses and the HTTP status codes that they stand for.
use vstd::prelude::*;

verus! {

/// A health status value.
#[derive(Debug, Clone, Copy, PartialEq, Eq, Structural)]
pub enum Status {
    /// The application or component is healthy.
    Up,
    /// The application or component is unhealthy.
    Down,
}

impl Status {
    /// The HTTP status code of a response with this aggregate status.
    pub open spec fn code(self) -> u16 {
        match self {
            Status::Up => 200,
            Status::Down => 503,
        }
    }

    /// The status as it is written in a response.
    pub open spec fn text(self) -> Seq<char> {
        match self {
            Status::Up => "UP"@,
            Status::Down => "DOWN"@,
        }
    }

    /// Returns the HTTP status code of a response with this aggregate status.
    pub fn http_status(self) -> (code: u16)
        ensures
            code == self.code(),
    {
        match self {
            Status::Up => ok_code(),
            Status::Down => service_unavailable_code(),
        }
    }

    /// Returns the status as it is written in a response.
    pub fn as_str(self) -> (text: &'static str)
        ensures
            text@ == self.text(),
    {
        match self {
            Status::Up => "UP",
            Status::Down => "DOWN",
        }
    }
}

/// The number of `axum::http::StatusCode::OK`, which its method `as_u16` gives
/// as 200.
#[verifier::external_body]
fn ok_code() -> (code: u16)
    ensures
        code == 200,
{
    axum::http::StatusCode::OK.as_u16()
}

/// The number of `axum::http::StatusCode::SERVICE_UNAVAILABLE`, which its method
/// `as_u16` gives as 503.
#[verifier::external_body]
fn service_unavailable_code() -> (code: u16)
    ensures
        code == 503,
{
    axum::http::StatusCode::SERVICE_UNAVAILABLE.as_u16()
}

} // verus!
