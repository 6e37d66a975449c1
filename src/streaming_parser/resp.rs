use vstd::prelude::*;
use vstd::utf8::{decode_utf8, valid_utf8};

use crate::general::{decode_text, CR, LF, SP};
use crate::response::Response;
use crate::status_code::StatusCode;

use super::error::ParseError;
use super::fields::{FieldsModel, FieldsParser, FieldsState};
use super::machine::{consumed, lemma_consumed_prefix, run, ByteMachine};
use super::req::{build_headers, fields_valid_utf8, headers_from_fields};

verus! {

/// Where a response parser stands on the status line.
#[derive(Debug, Clone, Copy, PartialEq, Eq, Structural)]
pub enum RespLine {
    /// Reading the protocol, up to a space.
    Protocol,
    /// Reading the status code, up to a space or the CR.
    Code,
    /// Skipping the reason phrase, up to the CR.
    Reason,
    /// The status line's CR was read; its LF must follow.
    LineLf,
    /// The status line is complete; the header section and body follow.
    Fields,
    /// The response is malformed.
    Failed(ParseError),
}

/// The abstract state of a response parser.
pub struct RespModel {
    pub line: RespLine,
    pub protocol: Seq<u8>,
    pub code: Seq<u8>,
    pub fields: FieldsModel,
}

impl RespModel {
    /// A parser that has read nothing.
    pub open spec fn initial() -> RespModel {
        RespModel {
            line: RespLine::Protocol,
            protocol: Seq::empty(),
            code: Seq::empty(),
            fields: FieldsModel::initial(),
        }
    }

    /// The same state, moved to `line`.
    pub open spec fn with_line(self, line: RespLine) -> RespModel {
        RespModel { line, ..self }
    }

    /// Why `finish` fails on this state, or `None` when it succeeds.
    pub open spec fn error(self) -> Option<ParseError> {
        match self.line {
            RespLine::Failed(e) => Some(e),
            RespLine::Protocol => Some(ParseError::MissingProtocol),
            RespLine::Code => Some(ParseError::MissingStatusCode),
            RespLine::Reason => Some(ParseError::MissingHeaders),
            RespLine::LineLf => Some(ParseError::MissingHeaders),
            RespLine::Fields => if !(self.fields.state is Done) {
                Some(ParseError::MissingHeaders)
            } else if StatusCode::from_bytes(self.code) is None {
                Some(ParseError::InvalidStatusCode)
            } else if !valid_utf8(self.protocol) {
                Some(ParseError::MissingProtocol)
            } else if !fields_valid_utf8(self.fields.fields) {
                Some(ParseError::MissingHeaders)
            } else {
                None
            },
        }
    }
}

impl ByteMachine for RespModel {
    open spec fn is_terminal(self) -> bool {
        self.line is Failed || (self.line is Fields && self.fields.is_terminal())
    }

    open spec fn step(self, b: u8) -> RespModel {
        match self.line {
            RespLine::Protocol => if b == SP || b == CR || b == LF {
                if self.protocol.len() == 0 {
                    self.with_line(RespLine::Failed(ParseError::MissingProtocol))
                } else if b == SP {
                    self.with_line(RespLine::Code)
                } else {
                    self.with_line(RespLine::Failed(ParseError::MissingStatusCode))
                }
            } else {
                RespModel { protocol: self.protocol.push(b), ..self }
            },
            RespLine::Code => if b == SP || b == CR {
                if self.code.len() == 0 {
                    self.with_line(RespLine::Failed(ParseError::MissingStatusCode))
                } else if StatusCode::from_bytes(self.code) is None {
                    self.with_line(RespLine::Failed(ParseError::InvalidStatusCode))
                } else if b == SP {
                    self.with_line(RespLine::Reason)
                } else {
                    self.with_line(RespLine::LineLf)
                }
            } else if b == LF {
                self.with_line(RespLine::Failed(ParseError::MissingStatusCode))
            } else {
                RespModel { code: self.code.push(b), ..self }
            },
            RespLine::Reason => if b == CR {
                self.with_line(RespLine::LineLf)
            } else if b == LF {
                self.with_line(RespLine::Failed(ParseError::MissingHeaders))
            } else {
                self
            },
            RespLine::LineLf => if b == LF {
                self.with_line(RespLine::Fields)
            } else {
                self.with_line(RespLine::Failed(ParseError::MissingHeaders))
            },
            RespLine::Fields => RespModel { fields: self.fields.step(b), ..self },
            RespLine::Failed(_) => self,
        }
    }
}

/// An incremental parser for one HTTP response, fed the bytes as they
/// arrive in chunks of any size.
pub struct RespParser {
    line: RespLine,
    protocol: Vec<u8>,
    code: Vec<u8>,
    fields: FieldsParser,
}

impl View for RespParser {
    type V = RespModel;

    closed spec fn view(&self) -> RespModel {
        RespModel {
            line: self.line,
            protocol: self.protocol@,
            code: self.code@,
            fields: self.fields@,
        }
    }
}

impl RespParser {
    /// Creates a parser that has read nothing, with room for `capacity`
    /// bytes of protocol reserved.
    pub fn new_capacity(capacity: usize) -> (r: Self)
        ensures
            r@ == RespModel::initial(),
    {
        RespParser {
            line: RespLine::Protocol,
            protocol: Vec::with_capacity(capacity),
            code: Vec::new(),
            fields: FieldsParser::new(),
        }
    }

    /// Whether the response is complete or has failed: no more bytes are
    /// taken.
    pub fn is_done(&self) -> (r: bool)
        ensures
            r == self@.is_terminal(),
    {
        match self.line {
            RespLine::Failed(_) => true,
            RespLine::Fields => {
                let s = self.fields.state();
                s == FieldsState::Done || s == FieldsState::Failed
            },
            _ => false,
        }
    }

    /// Reads one byte.
    fn step(&mut self, b: u8)
        ensures
            final(self)@ == old(self)@.step(b),
    {
        match self.line {
            RespLine::Protocol => {
                if b == SP || b == CR || b == LF {
                    if self.protocol.len() == 0 {
                        self.line = RespLine::Failed(ParseError::MissingProtocol);
                    } else if b == SP {
                        self.line = RespLine::Code;
                    } else {
                        self.line = RespLine::Failed(ParseError::MissingStatusCode);
                    }
                } else {
                    self.protocol.push(b);
                }
            },
            RespLine::Code => {
                if b == SP || b == CR {
                    if self.code.len() == 0 {
                        self.line = RespLine::Failed(ParseError::MissingStatusCode);
                    } else if StatusCode::parse_bytes(self.code.as_slice()).is_none() {
                        self.line = RespLine::Failed(ParseError::InvalidStatusCode);
                    } else if b == SP {
                        self.line = RespLine::Reason;
                    } else {
                        self.line = RespLine::LineLf;
                    }
                } else if b == LF {
                    self.line = RespLine::Failed(ParseError::MissingStatusCode);
                } else {
                    self.code.push(b);
                }
            },
            RespLine::Reason => {
                if b == CR {
                    self.line = RespLine::LineLf;
                } else if b == LF {
                    self.line = RespLine::Failed(ParseError::MissingHeaders);
                }
            },
            RespLine::LineLf => {
                if b == LF {
                    self.line = RespLine::Fields;
                } else {
                    self.line = RespLine::Failed(ParseError::MissingHeaders);
                }
            },
            RespLine::Fields => {
                self.fields.step(b);
            },
            RespLine::Failed(_) => {},
        }
    }

    /// Feeds the next bytes of the response. Bytes are taken one by one
    /// until the response is complete or has failed, or until `data` runs
    /// out. Returns whether the parser is now done and how many bytes of
    /// `data` it took: all of them, unless the response ended or failed
    /// inside `data`, in which case the rest belongs to whatever comes next.
    pub fn block_parse(&mut self, data: &[u8]) -> (r: (bool, usize))
        ensures
            r.1 == consumed(old(self)@, data@),
            final(self)@ == run(old(self)@, data@),
            final(self)@ == run(old(self)@, data@.take(r.1 as int)),
            r.0 == final(self)@.is_terminal(),
            r.1 < data@.len() ==> r.0,
            old(self)@.is_terminal() ==> r == (true, 0usize) && final(self)@ == old(self)@,
    {
        let ghost start = self@;
        let mut i: usize = 0;
        assert(data@.skip(0) =~= data@);
        while i < data.len() && !self.is_done()
            invariant
                0 <= i <= data@.len(),
                run(start, data@) == run(self@, data@.skip(i as int)),
                consumed(start, data@) == i + consumed(self@, data@.skip(i as int)),
                start.is_terminal() ==> i == 0 && self@ == start,
            decreases data@.len() - i,
        {
            assert(data@.skip(i as int).drop_first() =~= data@.skip(i + 1));
            self.step(data[i]);
            i = i + 1;
        }
        proof {
            lemma_consumed_prefix(start, data@);
        }
        (self.is_done(), i)
    }

    /// Builds the response once it is complete, borrowing its text from the
    /// parser and copying its body; or says why it is not one.
    pub fn finish(&self) -> (r: Result<Response<'_>, ParseError>)
        ensures
            r is Err <==> self@.error() is Some,
            r matches Err(e) ==> self@.error() == Some(e),
            r matches Ok(resp) ==> {
                &&& self@.error() is None
                &&& resp.spec_status_code() == StatusCode::from_bytes(self@.code)->0
                &&& resp.spec_protocol() == decode_utf8(self@.protocol)
                &&& headers_from_fields(resp.spec_headers()@, self@.fields.fields)
                &&& resp.spec_body() == self@.fields.body
            },
    {
        match self.line {
            RespLine::Failed(e) => return Err(e),
            RespLine::Protocol => return Err(ParseError::MissingProtocol),
            RespLine::Code => return Err(ParseError::MissingStatusCode),
            RespLine::Reason => return Err(ParseError::MissingHeaders),
            RespLine::LineLf => return Err(ParseError::MissingHeaders),
            RespLine::Fields => {},
        }
        if self.fields.state() != FieldsState::Done {
            return Err(ParseError::MissingHeaders);
        }
        let status_code = match StatusCode::parse_bytes(self.code.as_slice()) {
            Some(c) => c,
            None => return Err(ParseError::InvalidStatusCode),
        };
        let protocol = match decode_text(self.protocol.as_slice()) {
            Some(p) => p,
            None => return Err(ParseError::MissingProtocol),
        };
        let headers = match build_headers(&self.fields) {
            Some(h) => h,
            None => return Err(ParseError::MissingHeaders),
        };
        let body = vstd::slice::slice_to_vec(self.fields.body());
        Ok(Response::new(protocol, status_code, headers, body))
    }
}

} // verus!
