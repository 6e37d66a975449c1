//! A fast and simple to use HTTP-Parsing crate, whose message model and
//! streaming parsers carry machine-checked contracts.

mod general;
pub use general::StringContainer;

mod method;
pub use method::Method;

mod status_code;
pub use status_code::StatusCode;

/// Holds some more Types that are needed for Headers
pub mod header;
pub use header::Header;

mod headers;
pub use headers::Headers;

mod chunk;
pub use chunk::Chunk;

mod request;
pub use request::Request;

mod response;
pub use response::Response;

/// This module holds all the Parsers that can deal
/// with parsing the Data in multiple chunks and dont
/// need all of it right away
pub mod streaming_parser;
