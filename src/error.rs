use vstd::prelude::*;

verus! {

/// Every fault a dispatch can end in.
///
/// A well-formed negative answer from the server is not one of these: it is the
/// `Err((statuscode, value))` side of a successful outcome.
#[derive(Debug)]
pub enum RequestError {
    /// The transport failed: connection, TLS, timeout, or reading the body.
    Reqwest(reqwest::Error),
    /// The response arrived but its body did not decode as the type that the
    /// status code called for.
    Unparsable { statuscode: u16, body: String },
    /// A header name that HTTP does not allow.
    InvalidHeaderName(reqwest::header::InvalidHeaderName),
    /// A header value that HTTP does not allow.
    InvalidHeaderValue(reqwest::header::InvalidHeaderValue),
}

impl From<reqwest::Error> for RequestError {
    fn from(e: reqwest::Error) -> (r: Self)
        ensures
            r == RequestError::Reqwest(e),
    {
        RequestError::Reqwest(e)
    }
}

impl vstd::std_specs::convert::FromSpecImpl<reqwest::Error> for RequestError {
    open spec fn obeys_from_spec() -> bool {
        true
    }

    open spec fn from_spec(e: reqwest::Error) -> RequestError {
        RequestError::Reqwest(e)
    }
}

impl From<reqwest::header::InvalidHeaderName> for RequestError {
    fn from(e: reqwest::header::InvalidHeaderName) -> (r: Self)
        ensures
            r == RequestError::InvalidHeaderName(e),
    {
        RequestError::InvalidHeaderName(e)
    }
}

impl vstd::std_specs::convert::FromSpecImpl<reqwest::header::InvalidHeaderName> for RequestError {
    open spec fn obeys_from_spec() -> bool {
        true
    }

    open spec fn from_spec(e: reqwest::header::InvalidHeaderName) -> RequestError {
        RequestError::InvalidHeaderName(e)
    }
}

impl From<reqwest::header::InvalidHeaderValue> for RequestError {
    fn from(e: reqwest::header::InvalidHeaderValue) -> (r: Self)
        ensures
            r == RequestError::InvalidHeaderValue(e),
    {
        RequestError::InvalidHeaderValue(e)
    }
}

impl vstd::std_specs::convert::FromSpecImpl<reqwest::header::InvalidHeaderValue> for RequestError {
    open spec fn obeys_from_spec() -> bool {
        true
    }

    open spec fn from_spec(e: reqwest::header::InvalidHeaderValue) -> RequestError {
        RequestError::InvalidHeaderValue(e)
    }
}

} // verus!
