use vstd::prelude::*;

verus! {

/// The ways in which building a request or rendering a response can fail.
#[derive(Debug, PartialEq, Eq)]
pub enum HttpieError {
    /// A body field token holds no `=`; carries the token.
    MalformedPair(String),
    /// A target is not an absolute URL; carries the text given.
    InvalidUrl(String),
    /// The response declared JSON but its body is not JSON.
    BodyFormat,
}

impl HttpieError {
    /// A human-readable description of the error.
    pub fn message(&self) -> (r: String)
        ensures
            self matches HttpieError::MalformedPair(t) ==> r@ == "Failed to parse: "@ + t@,
            self matches HttpieError::InvalidUrl(t) ==> r@ == "Invalid URL: "@ + t@,
            self is BodyFormat ==> r@ == "response body is not valid JSON"@,
    {
        match self {
            HttpieError::MalformedPair(t) => String::from_str("Failed to parse: ").concat(t.as_str()),
            HttpieError::InvalidUrl(t) => String::from_str("Invalid URL: ").concat(t.as_str()),
            HttpieError::BodyFormat => String::from_str("response body is not valid JSON"),
        }
    }
}

} // verus!
