use vstd::prelude::*;
use vstd::utf8::{decode_utf8, valid_utf8};

use crate::general::{decode_text, CR, LF, SP};
use crate::header::{Header, HeaderValue};
use crate::headers::Headers;
use crate::method::Method;
use crate::request::Request;

use super::error::ParseError;
use super::fields::{FieldsModel, FieldsParser, FieldsState};
use super::machine::{consumed, lemma_consumed_prefix, run, ByteMachine};

verus! {

/// Where a request parser stands on the request line.
#[derive(Debug, Clone, Copy, PartialEq, Eq, Structural)]
pub enum ReqLine {
    /// Reading the method, up to a space.
    Method,
    /// Reading the path, up to a space.
    Path,
    /// Reading the protocol, up to the CR.
    Protocol,
    /// The request line's CR was read; its LF must follow.
    LineLf,
    /// The request line is complete; the header section and body follow.
    Fields,
    /// The request is malformed.
    Failed(ParseError),
}

/// The abstract state of a request parser.
pub struct ReqModel {
    pub line: ReqLine,
    pub method: Seq<u8>,
    pub path: Seq<u8>,
    pub protocol: Seq<u8>,
    pub fields: FieldsModel,
}

impl ReqModel {
    /// A parser that has read nothing.
    pub open spec fn initial() -> ReqModel {
        ReqModel {
            line: ReqLine::Method,
            method: Seq::empty(),
            path: Seq::empty(),
            protocol: Seq::empty(),
            fields: FieldsModel::initial(),
        }
    }

    /// The same state, moved to `line`.
    pub open spec fn with_line(self, line: ReqLine) -> ReqModel {
        ReqModel { line, ..self }
    }

    /// Why `finish` fails on this state, or `None` when it succeeds.
    pub open spec fn error(self) -> Option<ParseError> {
        match self.line {
            ReqLine::Failed(e) => Some(e),
            ReqLine::Method => Some(ParseError::MissingMethod),
            ReqLine::Path => Some(ParseError::MissingPath),
            ReqLine::Protocol => Some(ParseError::MissingProtocol),
            ReqLine::LineLf => Some(ParseError::MissingHeaders),
            ReqLine::Fields => if !(self.fields.state is Done) {
                Some(ParseError::MissingHeaders)
            } else if Method::from_bytes(self.method) is None {
                Some(ParseError::MissingMethod)
            } else if !valid_utf8(self.path) {
                Some(ParseError::MissingPath)
            } else if !valid_utf8(self.protocol) {
                Some(ParseError::MissingProtocol)
            } else if !fields_valid_utf8(self.fields.fields) {
                Some(ParseError::MissingHeaders)
            } else {
                None
            },
        }
    }
}

/// Every header field's key and value is valid UTF-8.
pub open spec fn fields_valid_utf8(fs: Seq<(Seq<u8>, Seq<u8>)>) -> bool {
    forall|i: int| 0 <= i < fs.len() ==> valid_utf8((#[trigger] fs[i]).0) && valid_utf8(fs[i].1)
}

/// The headers hold the fields as borrowed text, in order.
pub open spec fn headers_from_fields<'a>(hs: Seq<Header<'a>>, fs: Seq<(Seq<u8>, Seq<u8>)>) -> bool {
    &&& hs.len() == fs.len()
    &&& forall|i: int|
        0 <= i < hs.len() ==> {
            &&& (#[trigger] hs[i]).key@ == decode_utf8(fs[i].0)
            &&& hs[i].value is StrRef
            &&& hs[i].value@ == decode_utf8(fs[i].1)
        }
}

impl ByteMachine for ReqModel {
    open spec fn is_terminal(self) -> bool {
        self.line is Failed || (self.line is Fields && self.fields.is_terminal())
    }

    open spec fn step(self, b: u8) -> ReqModel {
        match self.line {
            ReqLine::Method => if b == SP {
                if Method::from_bytes(self.method) is Some {
                    self.with_line(ReqLine::Path)
                } else {
                    self.with_line(ReqLine::Failed(ParseError::MissingMethod))
                }
            } else if b == CR || b == LF {
                self.with_line(ReqLine::Failed(ParseError::MissingMethod))
            } else {
                ReqModel { method: self.method.push(b), ..self }
            },
            ReqLine::Path => if b == SP || b == CR || b == LF {
                if self.path.len() == 0 {
                    self.with_line(ReqLine::Failed(ParseError::MissingPath))
                } else if b == SP {
                    self.with_line(ReqLine::Protocol)
                } else {
                    self.with_line(ReqLine::Failed(ParseError::MissingProtocol))
                }
            } else {
                ReqModel { path: self.path.push(b), ..self }
            },
            ReqLine::Protocol => if b == CR {
                if self.protocol.len() == 0 {
                    self.with_line(ReqLine::Failed(ParseError::MissingProtocol))
                } else {
                    self.with_line(ReqLine::LineLf)
                }
            } else if b == LF {
                self.with_line(ReqLine::Failed(ParseError::MissingProtocol))
            } else {
                ReqModel { protocol: self.protocol.push(b), ..self }
            },
            ReqLine::LineLf => if b == LF {
                self.with_line(ReqLine::Fields)
            } else {
                self.with_line(ReqLine::Failed(ParseError::MissingHeaders))
            },
            ReqLine::Fields => ReqModel { fields: self.fields.step(b), ..self },
            ReqLine::Failed(_) => self,
        }
    }
}

/// An incremental parser for one HTTP request, fed the bytes as they arrive
/// in chunks of any size.
pub struct ReqParser {
    line: ReqLine,
    method: Vec<u8>,
    path: Vec<u8>,
    protocol: Vec<u8>,
    fields: FieldsParser,
}

impl View for ReqParser {
    type V = ReqModel;

    closed spec fn view(&self) -> ReqModel {
        ReqModel {
            line: self.line,
            method: self.method@,
            path: self.path@,
            protocol: self.protocol@,
            fields: self.fields@,
        }
    }
}

impl ReqParser {
    /// Creates a parser that has read nothing, with room for `capacity`
    /// bytes of path reserved.
    pub fn new_capacity(capacity: usize) -> (r: Self)
        ensures
            r@ == ReqModel::initial(),
    {
        ReqParser {
            line: ReqLine::Method,
            method: Vec::new(),
            path: Vec::with_capacity(capacity),
            protocol: Vec::new(),
            fields: FieldsParser::new(),
        }
    }

    /// Whether the request is complete or has failed: no more bytes are
    /// taken.
    pub fn is_done(&self) -> (r: bool)
        ensures
            r == self@.is_terminal(),
    {
        match self.line {
            ReqLine::Failed(_) => true,
            ReqLine::Fields => {
                let s = self.fields.state();
                s == FieldsState::Done || s == FieldsState::Failed
            },
            _ => false,
        }
    }

    /// Reads one byte.
    fn step(&mut self, b: u8)
        ensures
            final(self)@ == old(self)@.step(b),
    {
        match self.line {
            ReqLine::Method => {
                if b == SP {
                    if Method::parse_bytes(self.method.as_slice()).is_some() {
                        self.line = ReqLine::Path;
                    } else {
                        self.line = ReqLine::Failed(ParseError::MissingMethod);
                    }
                } else if b == CR || b == LF {
                    self.line = ReqLine::Failed(ParseError::MissingMethod);
                } else {
                    self.method.push(b);
                }
            },
            ReqLine::Path => {
                if b == SP || b == CR || b == LF {
                    if self.path.len() == 0 {
                        self.line = ReqLine::Failed(ParseError::MissingPath);
                    } else if b == SP {
                        self.line = ReqLine::Protocol;
                    } else {
                        self.line = ReqLine::Failed(ParseError::MissingProtocol);
                    }
                } else {
                    self.path.push(b);
                }
            },
            ReqLine::Protocol => {
                if b == CR {
                    if self.protocol.len() == 0 {
                        self.line = ReqLine::Failed(ParseError::MissingProtocol);
                    } else {
                        self.line = ReqLine::LineLf;
                    }
                } else if b == LF {
                    self.line = ReqLine::Failed(ParseError::MissingProtocol);
                } else {
                    self.protocol.push(b);
                }
            },
            ReqLine::LineLf => {
                if b == LF {
                    self.line = ReqLine::Fields;
                } else {
                    self.line = ReqLine::Failed(ParseError::MissingHeaders);
                }
            },
            ReqLine::Fields => {
                self.fields.step(b);
            },
            ReqLine::Failed(_) => {},
        }
    }

    /// Feeds the next bytes of the request. Bytes are taken one by one until
    /// the request is complete or has failed, or until `data` runs out.
    /// Returns whether the parser is now done and how many bytes of `data`
    /// it took: all of them, unless the request ended or failed inside
    /// `data`, in which case the rest belongs to whatever comes next.
    pub fn block_parse(&mut self, data: &[u8]) -> (r: (bool, usize))
        ensures
            r.1 == consumed(old(self)@, data@),
            final(self)@ == run(old(self)@, data@),
            final(self)@ == run(old(self)@, data@.take(r.1 as int)),
            r.0 == final(self)@.is_terminal(),
            r.1 < data@.len() ==> r.0,
            old(self)@.is_terminal() ==> r == (true, 0usize) && final(self)@ == old(self)@,
    {
        let ghost start = self@;
        let mut i: usize = 0;
        assert(data@.skip(0) =~= data@);
        while i < data.len() && !self.is_done()
            invariant
                0 <= i <= data@.len(),
                run(start, data@) == run(self@, data@.skip(i as int)),
                consumed(start, data@) == i + consumed(self@, data@.skip(i as int)),
                start.is_terminal() ==> i == 0 && self@ == start,
            decreases data@.len() - i,
        {
            assert(data@.skip(i as int).drop_first() =~= data@.skip(i + 1));
            self.step(data[i]);
            i = i + 1;
        }
        proof {
            lemma_consumed_prefix(start, data@);
        }
        (self.is_done(), i)
    }

    /// Builds the request once it is complete, borrowing its text and body
    /// from the parser; or says why it is not one.
    pub fn finish(&self) -> (r: Result<Request<'_>, ParseError>)
        ensures
            r is Err <==> self@.error() is Some,
            r matches Err(e) ==> self@.error() == Some(e),
            r matches Ok(req) ==> {
                &&& self@.error() is None
                &&& req.spec_method() == Method::from_bytes(self@.method)->0
                &&& req.spec_path() == decode_utf8(self@.path)
                &&& req.spec_protocol() == decode_utf8(self@.protocol)
                &&& headers_from_fields(req.spec_headers()@, self@.fields.fields)
                &&& req.spec_body() == self@.fields.body
            },
    {
        match self.line {
            ReqLine::Failed(e) => return Err(e),
            ReqLine::Method => return Err(ParseError::MissingMethod),
            ReqLine::Path => return Err(ParseError::MissingPath),
            ReqLine::Protocol => return Err(ParseError::MissingProtocol),
            ReqLine::LineLf => return Err(ParseError::MissingHeaders),
            ReqLine::Fields => {},
        }
        if self.fields.state() != FieldsState::Done {
            return Err(ParseError::MissingHeaders);
        }
        let method = match Method::parse_bytes(self.method.as_slice()) {
            Some(m) => m,
            None => return Err(ParseError::MissingMethod),
        };
        let path = match decode_text(self.path.as_slice()) {
            Some(p) => p,
            None => return Err(ParseError::MissingPath),
        };
        let protocol = match decode_text(self.protocol.as_slice()) {
            Some(p) => p,
            None => return Err(ParseError::MissingProtocol),
        };
        let headers = match build_headers(&self.fields) {
            Some(h) => h,
            None => return Err(ParseError::MissingHeaders),
        };
        Ok(Request::new(protocol, method, path, headers, self.fields.body()))
    }
}

/// The header fields as borrowed text, or `None` when one is not UTF-8.
pub(crate) fn build_headers<'b>(fields: &'b FieldsParser) -> (r: Option<Headers<'b>>)
    ensures
        r is Some <==> fields_valid_utf8(fields@.fields),
        r matches Some(h) ==> headers_from_fields(h@, fields@.fields),
{
    let n = fields.field_count();
    let mut headers = Headers::with_capacity(n);
    let mut i: usize = 0;
    while i < n
        invariant
            n == fields@.fields.len(),
            0 <= i <= n,
            headers_from_fields(headers@, fields@.fields.take(i as int)),
            fields_valid_utf8(fields@.fields.take(i as int)),
        decreases n - i,
    {
        let (k, v) = fields.field(i);
        let key = match decode_text(k) {
            Some(t) => t,
            None => return None,
        };
        let value = match decode_text(v) {
            Some(t) => t,
            None => return None,
        };
        headers.append(key, value);
        assert(fields@.fields.take(i + 1)[i as int] == fields@.fields[i as int]);
        assert forall|j: int| 0 <= j < i + 1 implies #[trigger] fields@.fields.take(i + 1)[j]
            == fields@.fields.take(i as int + 1)[j] by {}
        i = i + 1;
    }
    assert(fields@.fields.take(n as int) =~= fields@.fields);
    Some(headers)
}

} // verus!
