use vstd::prelude::*;
use vstd::string::StringSliceAdditionalSpecFns;

use crate::general::{caseless_match, StringContainer, CR, LF, SP};
use crate::header::HeaderValue;
use crate::headers::{find_key, headers_bytes, Headers};
use crate::method::Method;

verus! {

/// The head of a request on the wire: the request line, the header lines
/// and the blank line that ends them.
pub open spec fn request_head<'a>(
    method: Method,
    path: Seq<char>,
    protocol: Seq<char>,
    headers: Seq<crate::header::Header<'a>>,
) -> Seq<u8> {
    method.spec_bytes() + seq![SP] + vstd::utf8::encode_utf8(path) + seq![SP]
        + vstd::utf8::encode_utf8(protocol) + seq![CR, LF] + headers_bytes(headers) + seq![CR, LF]
}

/// Whether the first header named `name` holds text equal to `expected`
/// without regard to case.
pub open spec fn header_is<'a>(
    headers: Seq<crate::header::Header<'a>>,
    name: Seq<char>,
    expected: Seq<char>,
) -> bool {
    match find_key(headers, name) {
        Some(i) => !(headers[i].value is NumberUsize) && caseless_match(headers[i].value@, expected),
        None => false,
    }
}

/// Represents a single HTTP-Request
#[derive(Debug, PartialEq)]
pub struct Request<'a> {
    method: Method,
    path: StringContainer<'a>,
    protocol: &'a str,
    headers: Headers<'a>,
    body: &'a [u8],
}

impl<'a> Request<'a> {
    /// The request's method.
    pub closed spec fn spec_method(&self) -> Method {
        self.method
    }

    /// The request's path.
    pub closed spec fn spec_path(&self) -> Seq<char> {
        self.path@
    }

    /// The request's protocol.
    pub closed spec fn spec_protocol(&self) -> Seq<char> {
        self.protocol@
    }

    /// The request's headers.
    pub closed spec fn spec_headers(&self) -> Headers<'a> {
        self.headers
    }

    /// The request's body.
    pub closed spec fn spec_body(&self) -> Seq<u8> {
        self.body@
    }

    /// Creates a new Request with the given Data as its
    /// initial Data
    pub fn new(
        protocol: &'a str,
        method: Method,
        path: &'a str,
        headers: Headers<'a>,
        body: &'a [u8],
    ) -> (r: Self)
        ensures
            r.spec_method() == method,
            r.spec_path() == path@,
            r.spec_protocol() == protocol@,
            r.spec_headers() == headers,
            r.spec_body() == body@,
    {
        Self { method, path: StringContainer::Ref(path), protocol, headers, body }
    }

    /// Serializes the Request and returns the final Data
    /// as a tuple of (HTTP-Head, HTTP-Body)
    pub fn serialize(&self) -> (r: (Vec<u8>, &[u8]))
        ensures
            r.0@ == request_head(
                self.spec_method(),
                self.spec_path(),
                self.spec_protocol(),
                self.spec_headers()@,
            ),
            r.1@ == self.spec_body(),
    {
        let method = self.method.serialize();
        let path = self.path.as_str();
        let mut result: Vec<u8> = Vec::new();
        result.extend_from_slice(method.as_bytes());
        result.push(SP);
        result.extend_from_slice(path.as_bytes());
        result.push(SP);
        result.extend_from_slice(self.protocol.as_bytes());
        result.push(CR);
        result.push(LF);
        let ghost line = result@;
        self.headers.serialize(&mut result);
        result.push(CR);
        result.push(LF);
        assert(result@ =~= request_head(
            self.spec_method(),
            self.spec_path(),
            self.spec_protocol(),
            self.spec_headers()@,
        ));
        (result, self.body)
    }

    /// Returns the Protocol of the Request
    pub fn protocol(&self) -> (r: &'a str)
        ensures
            r@ == self.spec_protocol(),
    {
        self.protocol
    }

    /// Returns the Method of the Request
    pub fn method(&self) -> (r: &Method)
        ensures
            *r == self.spec_method(),
    {
        &self.method
    }

    /// Returns the Path of the Request
    pub fn path(&self) -> (r: &str)
        ensures
            r@ == self.spec_path(),
    {
        self.path.as_str()
    }

    /// Returns the Headers of the Request
    pub fn headers(&self) -> (r: &Headers<'a>)
        ensures
            *r == self.spec_headers(),
    {
        &self.headers
    }

    /// Returns a mutable Reference to the Headers of the Request
    pub fn header_mut(&mut self) -> (r: &mut Headers<'a>)
        ensures
            *r == old(self).spec_headers(),
            final(self).spec_headers() == *final(r),
            final(self).spec_method() == old(self).spec_method(),
            final(self).spec_path() == old(self).spec_path(),
            final(self).spec_protocol() == old(self).spec_protocol(),
            final(self).spec_body() == old(self).spec_body(),
    {
        &mut self.headers
    }

    /// Returns the Body of the Request
    pub fn body(&self) -> (r: &[u8])
        ensures
            r@ == self.spec_body(),
    {
        self.body
    }

    /// Checks if the Requests expects a
    /// Keep-alive connection
    pub fn is_keep_alive(&self) -> (r: bool)
        ensures
            r == header_is(self.spec_headers()@, "Connection"@, "Keep-Alive"@),
    {
        match self.headers.get("Connection") {
            None => false,
            Some(value) => value.eq_ignore_case(&HeaderValue::StrRef("Keep-Alive")),
        }
    }

    /// Overwrites the Path with the new Path
    pub fn set_path_ref<'b>(&mut self, n_path: &'b str) where 'b: 'a
        ensures
            final(self).spec_path() == n_path@,
            final(self).spec_headers() == old(self).spec_headers(),
            final(self).spec_method() == old(self).spec_method(),
            final(self).spec_protocol() == old(self).spec_protocol(),
            final(self).spec_body() == old(self).spec_body(),
    {
        self.path = StringContainer::Ref(n_path);
    }

    /// Overwrites the Path with the new Path, but using
    /// an owned String instead of a reference
    pub fn set_path_owned(&mut self, n_path: String)
        ensures
            final(self).spec_path() == n_path@,
            final(self).spec_headers() == old(self).spec_headers(),
            final(self).spec_method() == old(self).spec_method(),
            final(self).spec_protocol() == old(self).spec_protocol(),
            final(self).spec_body() == old(self).spec_body(),
    {
        self.path = StringContainer::Owned(n_path);
    }
}

} // verus!
