use vstd::prelude::*;
use vstd::string::StringSliceAdditionalSpecFns;

verus! {

/// Represents all the known and defined StatusCodes
#[derive(Debug, PartialEq, Eq, Clone, Copy, Structural)]
pub enum StatusCode {
    /// The Request should be continued by the Client
    Continue,
    /// The Server acknowledges and accepts the Request to
    /// switch to another Protocol
    SwitchingProtocols,
    /// The Request has successfully been processed
    OK,
    /// The Request successfully created a new Ressource
    Created,
    /// The Request was successfully accpeted to be processed
    /// but has not been completed yet
    Accepted,
    /// The returned Metainformation was not returned by the
    /// Origin-Server
    NonAuthoritativeInformation,
    /// The Request was successful but there is no Data returned
    NoContent,
    /// The Request has been successfully fulfilled and the
    /// Client can clear its input Content
    ResetContent,
    /// The requested partial Data has been fulfilled
    PartialContent,
    /// The requested Ressource corresponds multiple Ressources
    MultipleChoices,
    /// The Requested Data was moved to another URI
    MovedPermanently,
    /// The requested Ressource temporarily resides under a
    /// different URI
    Found,
    /// The Response to this Request can be found at a
    /// different URI
    SeeOther,
    /// The requested Ressource was not modified between the
    /// last Request and now
    NotModified,
    /// The Ressource can only be accessed through a Proxy
    UseProxy,
    /// The requested Ressource temporarily resides under a
    /// different URI
    TemporaryRedirect,
    /// The Request was not properly send or received
    BadRequest,
    /// The Request tried to access something it is not
    /// authorized to do
    Unauthorized,
    /// Reserved for future use
    PaymentRequired,
    /// The requested Ressource is not allowed to be accessed
    Forbidden,
    /// The requested Ressource could not be found
    NotFound,
    /// The requested Method is not allowed for the specified
    /// Ressource
    MethodNotAllowed,
    /// The Ressource is not capable of accepting the Request
    NotAcceptable,
    /// The Client should first Authenticate with a Proxy and
    /// before attempting the Request again
    ProxyAuthenticationRequired,
    /// The Server decided that the Client took to long and the
    /// Request timed out
    RequestTimeOut,
    /// Request could not complete because there was a conflict
    /// current State of the Ressource
    Conflict,
    /// The Ressource is no longer available
    Gone,
    /// The Server only accepts Requests where the Content-Length
    /// is set
    LengthRequired,
    /// The given Precondition failed
    PreconditionFailed,
    /// The Request-Entity was larger than what the Server allows
    RequestEntityTooLarge,
    /// The URI is longer than what the Server allows
    RequestURITooLarge,
    /// The Media-Type is not supported by the Server for this ressource
    UnsupportedMediaType,
    /// The Requested Range could not be satisfied by the Server
    RequestedRangeNotSatisfiable,
    /// The given Expectation has failed
    ExpectationFailed,
    /// An April Fool's Status-Code that some servers use for a
    /// variety of Situations
    ImATeapot,
    /// The Server Processing encountered some internal Problem
    /// and could not process the Request
    InternalServerError,
    /// Some requested Functionality is not implemented on the Server
    NotImplemented,
    /// An Error occured at a Gateway while sending the
    /// Request to the Target-Server
    BadGateway,
    /// The requested Service is currently unavailable
    ServiceUnavailable,
    /// The Gateway did not received a Response in time
    GatewayTimeout,
    /// The requested HTTP-Version is not supported by the Server
    HTTPVersionNotSupported,
}

impl StatusCode {
    /// The status line text: the three-digit code and its reason phrase.
    pub open spec fn spec_text(self) -> Seq<char> {
        match self {
            StatusCode::Continue => "100 Continue"@,
            StatusCode::SwitchingProtocols => "101 Switching Protocols"@,
            StatusCode::OK => "200 OK"@,
            StatusCode::Created => "201 Created"@,
            StatusCode::Accepted => "202 Accepted"@,
            StatusCode::NonAuthoritativeInformation => "203 Non-Authoritative Information"@,
            StatusCode::NoContent => "204 No Content"@,
            StatusCode::ResetContent => "205 Reset Content"@,
            StatusCode::PartialContent => "206 Partial Content"@,
            StatusCode::MultipleChoices => "300 Multiple Choices"@,
            StatusCode::MovedPermanently => "301 Moved Permanently"@,
            StatusCode::Found => "302 Found"@,
            StatusCode::SeeOther => "303 See Other"@,
            StatusCode::NotModified => "304 Not Modified"@,
            StatusCode::UseProxy => "305 Use Proxy"@,
            StatusCode::TemporaryRedirect => "307 Temporary Redirect"@,
            StatusCode::BadRequest => "400 Bad Request"@,
            StatusCode::Unauthorized => "401 Unauthorized"@,
            StatusCode::PaymentRequired => "402 Payment Required"@,
            StatusCode::Forbidden => "403 Forbidden"@,
            StatusCode::NotFound => "404 Not Found"@,
            StatusCode::MethodNotAllowed => "405 Method Not Allowed"@,
            StatusCode::NotAcceptable => "406 Not Acceptable"@,
            StatusCode::ProxyAuthenticationRequired => "407 Proxy Authentication Required"@,
            StatusCode::RequestTimeOut => "408 Request Time-out"@,
            StatusCode::Conflict => "409 Conflict"@,
            StatusCode::Gone => "410 Gone"@,
            StatusCode::LengthRequired => "411 Length Required"@,
            StatusCode::PreconditionFailed => "412 Precondition Failed"@,
            StatusCode::RequestEntityTooLarge => "413 Request Entity Too Large"@,
            StatusCode::RequestURITooLarge => "414 Request-URI Too Large"@,
            StatusCode::UnsupportedMediaType => "415 Unsupported Media Type"@,
            StatusCode::RequestedRangeNotSatisfiable => "416 Requested Range Not Satisfiable"@,
            StatusCode::ExpectationFailed => "417 Expectation Failed"@,
            StatusCode::ImATeapot => "418 I'm a Teapot"@,
            StatusCode::InternalServerError => "500 Internal Server Error"@,
            StatusCode::NotImplemented => "501 Not Implemented"@,
            StatusCode::BadGateway => "502 Bad Gateway"@,
            StatusCode::ServiceUnavailable => "503 Service Unavailable"@,
            StatusCode::GatewayTimeout => "504 Gateway Time-out"@,
            StatusCode::HTTPVersionNotSupported => "505 HTTP Version Not Supported"@,
        }
    }

    /// The numeric three-digit code.
    pub open spec fn spec_code(self) -> i32 {
        match self {
            StatusCode::Continue => 100,
            StatusCode::SwitchingProtocols => 101,
            StatusCode::OK => 200,
            StatusCode::Created => 201,
            StatusCode::Accepted => 202,
            StatusCode::NonAuthoritativeInformation => 203,
            StatusCode::NoContent => 204,
            StatusCode::ResetContent => 205,
            StatusCode::PartialContent => 206,
            StatusCode::MultipleChoices => 300,
            StatusCode::MovedPermanently => 301,
            StatusCode::Found => 302,
            StatusCode::SeeOther => 303,
            StatusCode::NotModified => 304,
            StatusCode::UseProxy => 305,
            StatusCode::TemporaryRedirect => 307,
            StatusCode::BadRequest => 400,
            StatusCode::Unauthorized => 401,
            StatusCode::PaymentRequired => 402,
            StatusCode::Forbidden => 403,
            StatusCode::NotFound => 404,
            StatusCode::MethodNotAllowed => 405,
            StatusCode::NotAcceptable => 406,
            StatusCode::ProxyAuthenticationRequired => 407,
            StatusCode::RequestTimeOut => 408,
            StatusCode::Conflict => 409,
            StatusCode::Gone => 410,
            StatusCode::LengthRequired => 411,
            StatusCode::PreconditionFailed => 412,
            StatusCode::RequestEntityTooLarge => 413,
            StatusCode::RequestURITooLarge => 414,
            StatusCode::UnsupportedMediaType => 415,
            StatusCode::RequestedRangeNotSatisfiable => 416,
            StatusCode::ExpectationFailed => 417,
            StatusCode::ImATeapot => 418,
            StatusCode::InternalServerError => 500,
            StatusCode::NotImplemented => 501,
            StatusCode::BadGateway => 502,
            StatusCode::ServiceUnavailable => 503,
            StatusCode::GatewayTimeout => 504,
            StatusCode::HTTPVersionNotSupported => 505,
        }
    }

    /// The status whose numeric code is `code`, if any.
    pub open spec fn from_code(code: int) -> Option<StatusCode> {
        if code == 100 {
            Some(StatusCode::Continue)
        } else if code == 101 {
            Some(StatusCode::SwitchingProtocols)
        } else if code == 200 {
            Some(StatusCode::OK)
        } else if code == 201 {
            Some(StatusCode::Created)
        } else if code == 202 {
            Some(StatusCode::Accepted)
        } else if code == 203 {
            Some(StatusCode::NonAuthoritativeInformation)
        } else if code == 204 {
            Some(StatusCode::NoContent)
        } else if code == 205 {
            Some(StatusCode::ResetContent)
        } else if code == 206 {
            Some(StatusCode::PartialContent)
        } else if code == 300 {
            Some(StatusCode::MultipleChoices)
        } else if code == 301 {
            Some(StatusCode::MovedPermanently)
        } else if code == 302 {
            Some(StatusCode::Found)
        } else if code == 303 {
            Some(StatusCode::SeeOther)
        } else if code == 304 {
            Some(StatusCode::NotModified)
        } else if code == 305 {
            Some(StatusCode::UseProxy)
        } else if code == 307 {
            Some(StatusCode::TemporaryRedirect)
        } else if code == 400 {
            Some(StatusCode::BadRequest)
        } else if code == 401 {
            Some(StatusCode::Unauthorized)
        } else if code == 402 {
            Some(StatusCode::PaymentRequired)
        } else if code == 403 {
            Some(StatusCode::Forbidden)
        } else if code == 404 {
            Some(StatusCode::NotFound)
        } else if code == 405 {
            Some(StatusCode::MethodNotAllowed)
        } else if code == 406 {
            Some(StatusCode::NotAcceptable)
        } else if code == 407 {
            Some(StatusCode::ProxyAuthenticationRequired)
        } else if code == 408 {
            Some(StatusCode::RequestTimeOut)
        } else if code == 409 {
            Some(StatusCode::Conflict)
        } else if code == 410 {
            Some(StatusCode::Gone)
        } else if code == 411 {
            Some(StatusCode::LengthRequired)
        } else if code == 412 {
            Some(StatusCode::PreconditionFailed)
        } else if code == 413 {
            Some(StatusCode::RequestEntityTooLarge)
        } else if code == 414 {
            Some(StatusCode::RequestURITooLarge)
        } else if code == 415 {
            Some(StatusCode::UnsupportedMediaType)
        } else if code == 416 {
            Some(StatusCode::RequestedRangeNotSatisfiable)
        } else if code == 417 {
            Some(StatusCode::ExpectationFailed)
        } else if code == 418 {
            Some(StatusCode::ImATeapot)
        } else if code == 500 {
            Some(StatusCode::InternalServerError)
        } else if code == 501 {
            Some(StatusCode::NotImplemented)
        } else if code == 502 {
            Some(StatusCode::BadGateway)
        } else if code == 503 {
            Some(StatusCode::ServiceUnavailable)
        } else if code == 504 {
            Some(StatusCode::GatewayTimeout)
        } else if code == 505 {
            Some(StatusCode::HTTPVersionNotSupported)
        } else {
            None
        }
    }

    /// The value of an ASCII decimal digit.
    pub open spec fn digit_value(b: u8) -> int {
        b as int - 48
    }

    /// Whether a byte is an ASCII decimal digit.
    pub open spec fn is_digit(b: u8) -> bool {
        48 <= b <= 57
    }

    /// What `parse` answers for text with these bytes: the status named by
    /// the first three bytes, read as a decimal code.
    pub open spec fn from_bytes(b: Seq<u8>) -> Option<StatusCode> {
        if b.len() >= 3 && Self::is_digit(b[0]) && Self::is_digit(b[1]) && Self::is_digit(b[2]) {
            Self::from_code(
                100 * Self::digit_value(b[0]) + 10 * Self::digit_value(b[1]) + Self::digit_value(b[2]),
            )
        } else {
            None
        }
    }

    /// Parses a raw status code given as bytes: the first three must be a
    /// known decimal code, whatever follows them.
    pub fn parse_bytes(raw: &[u8]) -> (r: Option<Self>)
        ensures
            r == Self::from_bytes(raw@),
    {
        if raw.len() < 3 {
            return None;
        }
        let (a, b, c) = (raw[0], raw[1], raw[2]);
        if a < 48 || a > 57 || b < 48 || b > 57 || c < 48 || c > 57 {
            return None;
        }
        let code: i32 = 100 * (a - 48) as i32 + 10 * (b - 48) as i32 + (c - 48) as i32;
        Self::wasm_deserialize(code)
    }

    /// Parses the Raw Response Status-Code to the enum
    pub fn parse(raw: &str) -> (r: Option<Self>)
        ensures
            r == Self::from_bytes(raw.spec_bytes()),
    {
        Self::parse_bytes(raw.as_bytes())
    }

    /// Serialzes the given StatusCode
    pub fn serialize(&self) -> (r: &'static str)
        ensures
            r@ == self.spec_text(),
    {
        match *self {
            Self::Continue => "100 Continue",
            Self::SwitchingProtocols => "101 Switching Protocols",
            Self::OK => "200 OK",
            Self::Created => "201 Created",
            Self::Accepted => "202 Accepted",
            Self::NonAuthoritativeInformation => "203 Non-Authoritative Information",
            Self::NoContent => "204 No Content",
            Self::ResetContent => "205 Reset Content",
            Self::PartialContent => "206 Partial Content",
            Self::MultipleChoices => "300 Multiple Choices",
            Self::MovedPermanently => "301 Moved Permanently",
            Self::Found => "302 Found",
            Self::SeeOther => "303 See Other",
            Self::NotModified => "304 Not Modified",
            Self::UseProxy => "305 Use Proxy",
            Self::TemporaryRedirect => "307 Temporary Redirect",
            Self::BadRequest => "400 Bad Request",
            Self::Unauthorized => "401 Unauthorized",
            Self::PaymentRequired => "402 Payment Required",
            Self::Forbidden => "403 Forbidden",
            Self::NotFound => "404 Not Found",
            Self::MethodNotAllowed => "405 Method Not Allowed",
            Self::NotAcceptable => "406 Not Acceptable",
            Self::ProxyAuthenticationRequired => "407 Proxy Authentication Required",
            Self::RequestTimeOut => "408 Request Time-out",
            Self::Conflict => "409 Conflict",
            Self::Gone => "410 Gone",
            Self::LengthRequired => "411 Length Required",
            Self::PreconditionFailed => "412 Precondition Failed",
            Self::RequestEntityTooLarge => "413 Request Entity Too Large",
            Self::RequestURITooLarge => "414 Request-URI Too Large",
            Self::UnsupportedMediaType => "415 Unsupported Media Type",
            Self::RequestedRangeNotSatisfiable => "416 Requested Range Not Satisfiable",
            Self::ExpectationFailed => "417 Expectation Failed",
            Self::ImATeapot => "418 I'm a Teapot",
            Self::InternalServerError => "500 Internal Server Error",
            Self::NotImplemented => "501 Not Implemented",
            Self::BadGateway => "502 Bad Gateway",
            Self::ServiceUnavailable => "503 Service Unavailable",
            Self::GatewayTimeout => "504 Gateway Time-out",
            Self::HTTPVersionNotSupported => "505 HTTP Version Not Supported",
        }
    }

    /// Deserializes the i32 Value to a StatusCode for easier
    /// exchange between WASM and the Host
    pub fn wasm_deserialize(key: i32) -> (r: Option<Self>)
        ensures
            r == Self::from_code(key as int),
    {
        match key {
            100 => Some(StatusCode::Continue),
            101 => Some(StatusCode::SwitchingProtocols),
            200 => Some(StatusCode::OK),
            201 => Some(StatusCode::Created),
            202 => Some(StatusCode::Accepted),
            203 => Some(StatusCode::NonAuthoritativeInformation),
            204 => Some(StatusCode::NoContent),
            205 => Some(StatusCode::ResetContent),
            206 => Some(StatusCode::PartialContent),
            300 => Some(StatusCode::MultipleChoices),
            301 => Some(StatusCode::MovedPermanently),
            302 => Some(StatusCode::Found),
            303 => Some(StatusCode::SeeOther),
            304 => Some(StatusCode::NotModified),
            305 => Some(StatusCode::UseProxy),
            307 => Some(StatusCode::TemporaryRedirect),
            400 => Some(StatusCode::BadRequest),
            401 => Some(StatusCode::Unauthorized),
            402 => Some(StatusCode::PaymentRequired),
            403 => Some(StatusCode::Forbidden),
            404 => Some(StatusCode::NotFound),
            405 => Some(StatusCode::MethodNotAllowed),
            406 => Some(StatusCode::NotAcceptable),
            407 => Some(StatusCode::ProxyAuthenticationRequired),
            408 => Some(StatusCode::RequestTimeOut),
            409 => Some(StatusCode::Conflict),
            410 => Some(StatusCode::Gone),
            411 => Some(StatusCode::LengthRequired),
            412 => Some(StatusCode::PreconditionFailed),
            413 => Some(StatusCode::RequestEntityTooLarge),
            414 => Some(StatusCode::RequestURITooLarge),
            415 => Some(StatusCode::UnsupportedMediaType),
            416 => Some(StatusCode::RequestedRangeNotSatisfiable),
            417 => Some(StatusCode::ExpectationFailed),
            418 => Some(StatusCode::ImATeapot),
            500 => Some(StatusCode::InternalServerError),
            501 => Some(StatusCode::NotImplemented),
            502 => Some(StatusCode::BadGateway),
            503 => Some(StatusCode::ServiceUnavailable),
            504 => Some(StatusCode::GatewayTimeout),
            505 => Some(StatusCode::HTTPVersionNotSupported),
            _ => None,
        }
    }

    /// Serializes the given StatusCode to a simple
    /// i32 Value, which makes it easier to exchange between
    /// a WASM module and its host
    pub fn wasms_serialize(&self) -> (r: i32)
        ensures
            r == self.spec_code(),
            Self::from_code(r as int) == Some(*self),
    {
        match *self {
            Self::Continue => 100,
            Self::SwitchingProtocols => 101,
            Self::OK => 200,
            Self::Created => 201,
            Self::Accepted => 202,
            Self::NonAuthoritativeInformation => 203,
            Self::NoContent => 204,
            Self::ResetContent => 205,
            Self::PartialContent => 206,
            Self::MultipleChoices => 300,
            Self::MovedPermanently => 301,
            Self::Found => 302,
            Self::SeeOther => 303,
            Self::NotModified => 304,
            Self::UseProxy => 305,
            Self::TemporaryRedirect => 307,
            Self::BadRequest => 400,
            Self::Unauthorized => 401,
            Self::PaymentRequired => 402,
            Self::Forbidden => 403,
            Self::NotFound => 404,
            Self::MethodNotAllowed => 405,
            Self::NotAcceptable => 406,
            Self::ProxyAuthenticationRequired => 407,
            Self::RequestTimeOut => 408,
            Self::Conflict => 409,
            Self::Gone => 410,
            Self::LengthRequired => 411,
            Self::PreconditionFailed => 412,
            Self::RequestEntityTooLarge => 413,
            Self::RequestURITooLarge => 414,
            Self::UnsupportedMediaType => 415,
            Self::RequestedRangeNotSatisfiable => 416,
            Self::ExpectationFailed => 417,
            Self::ImATeapot => 418,
            Self::InternalServerError => 500,
            Self::NotImplemented => 501,
            Self::BadGateway => 502,
            Self::ServiceUnavailable => 503,
            Self::GatewayTimeout => 504,
            Self::HTTPVersionNotSupported => 505,
        }
    }
}

} // verus!

verus! {

/// The bytes of a status line's text: three decimal digits that `parse`
/// reads back as the same status, a space, and a reason phrase without line
/// breaks.
pub proof fn lemma_status_text(c: StatusCode)
    ensures
        ({
            let b = vstd::utf8::encode_utf8(c.spec_text());
            &&& b.len() >= 4
            &&& StatusCode::from_bytes(b.take(3)) == Some(c)
            &&& b[3] == 32
            &&& forall|i: int| 0 <= i < 3 ==> 48 <= #[trigger] b[i] <= 57
            &&& forall|i: int| 4 <= i < b.len() ==> #[trigger] b[i] != 13 && b[i] != 10
        }),
{
    match c {
        StatusCode::Continue => {
            reveal_strlit("100 Continue");
        },
        StatusCode::SwitchingProtocols => {
            reveal_strlit("101 Switching Protocols");
        },
        StatusCode::OK => {
            reveal_strlit("200 OK");
        },
        StatusCode::Created => {
            reveal_strlit("201 Created");
        },
        StatusCode::Accepted => {
            reveal_strlit("202 Accepted");
        },
        StatusCode::NonAuthoritativeInformation => {
            reveal_strlit("203 Non-Authoritative Information");
        },
        StatusCode::NoContent => {
            reveal_strlit("204 No Content");
        },
        StatusCode::ResetContent => {
            reveal_strlit("205 Reset Content");
        },
        StatusCode::PartialContent => {
            reveal_strlit("206 Partial Content");
        },
        StatusCode::MultipleChoices => {
            reveal_strlit("300 Multiple Choices");
        },
        StatusCode::MovedPermanently => {
            reveal_strlit("301 Moved Permanently");
        },
        StatusCode::Found => {
            reveal_strlit("302 Found");
        },
        StatusCode::SeeOther => {
            reveal_strlit("303 See Other");
        },
        StatusCode::NotModified => {
            reveal_strlit("304 Not Modified");
        },
        StatusCode::UseProxy => {
            reveal_strlit("305 Use Proxy");
        },
        StatusCode::TemporaryRedirect => {
            reveal_strlit("307 Temporary Redirect");
        },
        StatusCode::BadRequest => {
            reveal_strlit("400 Bad Request");
        },
        StatusCode::Unauthorized => {
            reveal_strlit("401 Unauthorized");
        },
        StatusCode::PaymentRequired => {
            reveal_strlit("402 Payment Required");
        },
        StatusCode::Forbidden => {
            reveal_strlit("403 Forbidden");
        },
        StatusCode::NotFound => {
            reveal_strlit("404 Not Found");
        },
        StatusCode::MethodNotAllowed => {
            reveal_strlit("405 Method Not Allowed");
        },
        StatusCode::NotAcceptable => {
            reveal_strlit("406 Not Acceptable");
        },
        StatusCode::ProxyAuthenticationRequired => {
            reveal_strlit("407 Proxy Authentication Required");
        },
        StatusCode::RequestTimeOut => {
            reveal_strlit("408 Request Time-out");
        },
        StatusCode::Conflict => {
            reveal_strlit("409 Conflict");
        },
        StatusCode::Gone => {
            reveal_strlit("410 Gone");
        },
        StatusCode::LengthRequired => {
            reveal_strlit("411 Length Required");
        },
        StatusCode::PreconditionFailed => {
            reveal_strlit("412 Precondition Failed");
        },
        StatusCode::RequestEntityTooLarge => {
            reveal_strlit("413 Request Entity Too Large");
        },
        StatusCode::RequestURITooLarge => {
            reveal_strlit("414 Request-URI Too Large");
        },
        StatusCode::UnsupportedMediaType => {
            reveal_strlit("415 Unsupported Media Type");
        },
        StatusCode::RequestedRangeNotSatisfiable => {
            reveal_strlit("416 Requested Range Not Satisfiable");
        },
        StatusCode::ExpectationFailed => {
            reveal_strlit("417 Expectation Failed");
        },
        StatusCode::ImATeapot => {
            reveal_strlit("418 I'm a Teapot");
        },
        StatusCode::InternalServerError => {
            reveal_strlit("500 Internal Server Error");
        },
        StatusCode::NotImplemented => {
            reveal_strlit("501 Not Implemented");
        },
        StatusCode::BadGateway => {
            reveal_strlit("502 Bad Gateway");
        },
        StatusCode::ServiceUnavailable => {
            reveal_strlit("503 Service Unavailable");
        },
        StatusCode::GatewayTimeout => {
            reveal_strlit("504 Gateway Time-out");
        },
        StatusCode::HTTPVersionNotSupported => {
            reveal_strlit("505 HTTP Version Not Supported");
        },
    }
    let t = c.spec_text();
    assert(vstd::utf8::is_ascii_chars(t));
    vstd::utf8::is_ascii_chars_encode_utf8(t);
    let b = vstd::utf8::encode_utf8(t);
    assert(b.take(3)[0] == b[0] && b.take(3)[1] == b[1] && b.take(3)[2] == b[2]);
}

} // verus!
