use vstd::prelude::*;
use vstd::string::StringSliceAdditionalSpecFns;

use crate::general::bytes_eq;

verus! {

/// The different HTTP-Methods as defined by
/// [RFC 2616 5.1.1](https://tools.ietf.org/html/rfc2616#section-5.1.1)
#[derive(Debug, PartialEq, Eq, Clone, Copy, Structural)]
pub enum Method {
    /// Requests the Communication-Options available
    /// for a given Ressource
    OPTIONS,
    /// Retrieves the specified Ressource from the Server
    GET,
    /// Identical to the GET-Method, but the Server is not
    /// required to return a Response-Body
    HEAD,
    /// Used to post Data to the Server
    POST,
    /// Tells the Server to store the supplied Body under a
    /// given Ressource URI
    PUT,
    /// Requests that the given Data assosicated with the
    /// Ressource-URI is deleted
    DELETE,
    /// Used to invoke a remote application-layer loopback
    TRACE,
    /// Reserved
    CONNECT,
}

impl Method {
    /// The token that names the method on the wire.
    pub open spec fn spec_text(self) -> Seq<char> {
        match self {
            Method::OPTIONS => "OPTIONS"@,
            Method::GET => "GET"@,
            Method::HEAD => "HEAD"@,
            Method::POST => "POST"@,
            Method::PUT => "PUT"@,
            Method::DELETE => "DELETE"@,
            Method::TRACE => "TRACE"@,
            Method::CONNECT => "CONNECT"@,
        }
    }

    /// The UTF-8 bytes of the method's token.
    pub open spec fn spec_bytes(self) -> Seq<u8> {
        vstd::utf8::encode_utf8(self.spec_text())
    }

    /// The method whose token is exactly these bytes, looked up in the order
    /// in which the methods are declared.
    pub open spec fn from_bytes(b: Seq<u8>) -> Option<Method> {
        if b == Method::OPTIONS.spec_bytes() {
            Some(Method::OPTIONS)
        } else if b == Method::GET.spec_bytes() {
            Some(Method::GET)
        } else if b == Method::HEAD.spec_bytes() {
            Some(Method::HEAD)
        } else if b == Method::POST.spec_bytes() {
            Some(Method::POST)
        } else if b == Method::PUT.spec_bytes() {
            Some(Method::PUT)
        } else if b == Method::DELETE.spec_bytes() {
            Some(Method::DELETE)
        } else if b == Method::TRACE.spec_bytes() {
            Some(Method::TRACE)
        } else if b == Method::CONNECT.spec_bytes() {
            Some(Method::CONNECT)
        } else {
            None
        }
    }

    /// The small integer that stands for the method across a WASM boundary.
    pub open spec fn spec_index(self) -> i32 {
        match self {
            Method::OPTIONS => 0,
            Method::GET => 1,
            Method::HEAD => 2,
            Method::POST => 3,
            Method::PUT => 4,
            Method::DELETE => 5,
            Method::TRACE => 6,
            Method::CONNECT => 7,
        }
    }

    /// Parses a raw method given as bytes; `None` when they name no method.
    pub fn parse_bytes(raw: &[u8]) -> (r: Option<Method>)
        ensures
            r == Method::from_bytes(raw@),
    {
        if bytes_eq(raw, Method::OPTIONS.serialize().as_bytes()) {
            Some(Method::OPTIONS)
        } else if bytes_eq(raw, Method::GET.serialize().as_bytes()) {
            Some(Method::GET)
        } else if bytes_eq(raw, Method::HEAD.serialize().as_bytes()) {
            Some(Method::HEAD)
        } else if bytes_eq(raw, Method::POST.serialize().as_bytes()) {
            Some(Method::POST)
        } else if bytes_eq(raw, Method::PUT.serialize().as_bytes()) {
            Some(Method::PUT)
        } else if bytes_eq(raw, Method::DELETE.serialize().as_bytes()) {
            Some(Method::DELETE)
        } else if bytes_eq(raw, Method::TRACE.serialize().as_bytes()) {
            Some(Method::TRACE)
        } else if bytes_eq(raw, Method::CONNECT.serialize().as_bytes()) {
            Some(Method::CONNECT)
        } else {
            None
        }
    }

    /// Parses the raw Method into one of the known Methods,
    /// returns None if the Method is unknown
    pub fn parse(raw_method: &str) -> (r: Option<Method>)
        ensures
            r == Method::from_bytes(raw_method.spec_bytes()),
    {
        Method::parse_bytes(raw_method.as_bytes())
    }

    /// Serializes the Method into a static String
    /// for that Method
    pub fn serialize(&self) -> (r: &'static str)
        ensures
            r@ == self.spec_text(),
    {
        match *self {
            Method::OPTIONS => "OPTIONS",
            Method::GET => "GET",
            Method::HEAD => "HEAD",
            Method::POST => "POST",
            Method::PUT => "PUT",
            Method::DELETE => "DELETE",
            Method::TRACE => "TRACE",
            Method::CONNECT => "CONNECT",
        }
    }

    /// Serializes the header into a WASM friendly form
    pub fn wasm_serialize(&self) -> (r: i32)
        ensures
            r == self.spec_index(),
            0 <= r < 8,
    {
        match *self {
            Self::OPTIONS => 0,
            Self::GET => 1,
            Self::HEAD => 2,
            Self::POST => 3,
            Self::PUT => 4,
            Self::DELETE => 5,
            Self::TRACE => 6,
            Self::CONNECT => 7,
        }
    }

    /// Deserializes the Output from the `wasm_serialize` method
    /// back into a valid Method
    pub fn wasm_deserialize(tmp: i32) -> (r: Option<Self>)
        ensures
            r matches Some(m) ==> m.spec_index() == tmp,
            r is None <==> !(0 <= tmp < 8),
    {
        match tmp {
            0 => Some(Self::OPTIONS),
            1 => Some(Self::GET),
            2 => Some(Self::HEAD),
            3 => Some(Self::POST),
            4 => Some(Self::PUT),
            5 => Some(Self::DELETE),
            6 => Some(Self::TRACE),
            7 => Some(Self::CONNECT),
            _ => None,
        }
    }
}

} // verus!

verus! {

/// The bytes of a method's token are upper case ASCII letters, and `parse`
/// recognizes exactly that token as the method.
pub proof fn lemma_method_bytes(m: Method)
    ensures
        Method::from_bytes(m.spec_bytes()) == Some(m),
        m.spec_bytes().len() > 0,
        forall|i: int| 0 <= i < m.spec_bytes().len() ==> 65 <= #[trigger] m.spec_bytes()[i] <= 90,
{
    reveal_strlit("OPTIONS");
    reveal_strlit("GET");
    reveal_strlit("HEAD");
    reveal_strlit("POST");
    reveal_strlit("PUT");
    reveal_strlit("DELETE");
    reveal_strlit("TRACE");
    reveal_strlit("CONNECT");
    let all = seq![
        Method::OPTIONS,
        Method::GET,
        Method::HEAD,
        Method::POST,
        Method::PUT,
        Method::DELETE,
        Method::TRACE,
        Method::CONNECT,
    ];
    assert forall|k: int| 0 <= k < 8 implies vstd::utf8::is_ascii_chars(#[trigger] all[k].spec_text()) by {}
    assert forall|k: int| 0 <= k < 8 implies #[trigger] all[k].spec_bytes() =~= all[k].spec_text().map_values(|c: char| c as u8) by {
        vstd::utf8::is_ascii_chars_encode_utf8(all[k].spec_text());
    }
    assert(all[0] == Method::OPTIONS);
    assert(all[1] == Method::GET);
    assert(all[2] == Method::HEAD);
    assert(all[3] == Method::POST);
    assert(all[4] == Method::PUT);
    assert(all[5] == Method::DELETE);
    assert(all[6] == Method::TRACE);
    assert(all[7] == Method::CONNECT);
    assert(Method::OPTIONS.spec_bytes().len() == 7 && Method::OPTIONS.spec_bytes()[0] == 79);
    assert(Method::GET.spec_bytes().len() == 3 && Method::GET.spec_bytes()[0] == 71);
    assert(Method::HEAD.spec_bytes().len() == 4 && Method::HEAD.spec_bytes()[0] == 72);
    assert(Method::POST.spec_bytes().len() == 4 && Method::POST.spec_bytes()[0] == 80);
    assert(Method::PUT.spec_bytes().len() == 3 && Method::PUT.spec_bytes()[0] == 80);
    assert(Method::DELETE.spec_bytes().len() == 6 && Method::DELETE.spec_bytes()[0] == 68);
    assert(Method::TRACE.spec_bytes().len() == 5 && Method::TRACE.spec_bytes()[0] == 84);
    assert(Method::CONNECT.spec_bytes().len() == 7 && Method::CONNECT.spec_bytes()[0] == 67);
}

} // verus!
