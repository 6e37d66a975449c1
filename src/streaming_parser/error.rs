use vstd::prelude::*;

verus! {

/// Indicates all Errors related to parsing a Request/Response/Chunk
#[derive(Debug, Clone, Copy, PartialEq, Eq, Structural)]
pub enum ParseError {
    /// Could not find a valid Method in the Request
    MissingMethod,
    /// Could not find a valid Path in the Request
    MissingPath,
    /// Could not identify the Protocol of the Request/Response
    MissingProtocol,
    /// Could not find any headers in the Request/Response, or the header
    /// section or the body it announces is malformed or incomplete
    MissingHeaders,
    /// Could not find a StatusCode in the Response
    MissingStatusCode,
    /// Returned StatusCode is not valid
    InvalidStatusCode,
}

impl ParseError {
    /// A short description of the error for people to read.
    pub fn describe(&self) -> &'static str {
        match *self {
            Self::MissingMethod => "Missing Method",
            Self::MissingPath => "Missing Path",
            Self::MissingProtocol => "Missing Protocol",
            Self::MissingHeaders => "Missing Headers",
            Self::MissingStatusCode => "Missing StatusCode",
            Self::InvalidStatusCode => "Invalid StatusCode",
        }
    }
}

} // verus!
