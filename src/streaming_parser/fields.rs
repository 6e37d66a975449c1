use vstd::prelude::*;
use vstd::string::StringSliceAdditionalSpecFns;

use crate::general::{COLON, CR, HT, LF, SP};

use super::machine::ByteMachine;

verus! {

/// The semicolon that starts a chunk extension.
pub const SEMICOLON: u8 = 59;

/// Where the header section and body decoder stands.
#[derive(Debug, Clone, Copy, PartialEq, Eq, Structural)]
pub enum FieldsState {
    /// Reading a header line's key, up to its colon.
    Key,
    /// Reading a header line's value, up to its CR.
    Value,
    /// A header line's CR was read; its LF must follow.
    LineLf,
    /// The CR of the blank line that ends the header section was read.
    EndLf,
    /// Reading a body of fixed length; `remaining` bytes are still owed.
    Fixed { remaining: usize },
    /// Reading a chunk's hex size.
    ChunkSize { size: usize, digits: bool },
    /// Skipping a chunk extension up to the size line's CR.
    ChunkExt { size: usize },
    /// The size line's CR was read; its LF must follow.
    ChunkSizeLf { size: usize },
    /// Reading a chunk's data; `remaining` bytes are still owed.
    ChunkData { remaining: usize },
    /// A chunk's data was read; its CR must follow.
    ChunkDataCr,
    /// The CR after a chunk's data was read; its LF must follow.
    ChunkDataLf,
    /// At the start of a trailer line, after the last chunk.
    TrailerStart,
    /// Skipping a trailer line up to its CR.
    TrailerLine,
    /// A trailer line's CR was read; its LF must follow.
    TrailerLineLf,
    /// The CR of the final blank line was read; its LF must follow.
    TrailerEndLf,
    /// The message is complete.
    Done,
    /// The header section or body is malformed.
    Failed,
}

/// The abstract state of the header section and body decoder.
pub struct FieldsModel {
    pub state: FieldsState,
    /// The key of the header line being read.
    pub key: Seq<u8>,
    /// The value of the header line being read.
    pub value: Seq<u8>,
    /// The header lines read so far, as (key, value) bytes.
    pub fields: Seq<(Seq<u8>, Seq<u8>)>,
    /// The decoded body so far.
    pub body: Seq<u8>,
}

/// Whether a byte is a space or a horizontal tab.
pub open spec fn is_ws(b: u8) -> bool {
    b == SP || b == HT
}

/// The bytes without their leading spaces and tabs.
pub open spec fn trim_start(s: Seq<u8>) -> Seq<u8>
    decreases s.len(),
{
    if s.len() > 0 && is_ws(s[0]) {
        trim_start(s.drop_first())
    } else {
        s
    }
}

/// The bytes without their trailing spaces and tabs.
pub open spec fn trim_end(s: Seq<u8>) -> Seq<u8>
    decreases s.len(),
{
    if s.len() > 0 && is_ws(s.last()) {
        trim_end(s.drop_last())
    } else {
        s
    }
}

/// The bytes without spaces and tabs at either end.
pub open spec fn trim(s: Seq<u8>) -> Seq<u8> {
    trim_start(trim_end(s))
}

/// The byte with ASCII upper case letters made lower case.
pub open spec fn ascii_lower(b: u8) -> u8 {
    if 65 <= b <= 90 {
        (b + 32) as u8
    } else {
        b
    }
}

/// Whether two byte sequences are equal without regard to ASCII case.
pub open spec fn eq_ascii_case(a: Seq<u8>, b: Seq<u8>) -> bool {
    &&& a.len() == b.len()
    &&& forall|i: int| 0 <= i < a.len() ==> ascii_lower(#[trigger] a[i]) == ascii_lower(b[i])
}

/// The value of the first field whose key is `name` without regard to ASCII
/// case.
pub open spec fn find_field(fs: Seq<(Seq<u8>, Seq<u8>)>, name: Seq<u8>) -> Option<Seq<u8>>
    decreases fs.len(),
{
    if fs.len() == 0 {
        None
    } else if eq_ascii_case(fs[0].0, name) {
        Some(fs[0].1)
    } else {
        find_field(fs.drop_first(), name)
    }
}

/// Whether a byte is an ASCII decimal digit.
pub open spec fn is_digit(b: u8) -> bool {
    48 <= b <= 57
}

/// The number that a sequence of decimal digits spells.
pub open spec fn decimal_value(s: Seq<u8>) -> nat
    decreases s.len(),
{
    if s.len() == 0 {
        0
    } else {
        decimal_value(s.drop_last()) * 10 + (s.last() - 48) as nat
    }
}

/// A `Content-Length` value: one or more decimal digits whose number fits in
/// a `usize`.
pub open spec fn parse_length(v: Seq<u8>) -> Option<usize> {
    if v.len() > 0 && (forall|i: int| 0 <= i < v.len() ==> is_digit(#[trigger] v[i]))
        && decimal_value(v) <= usize::MAX {
        Some(decimal_value(v) as usize)
    } else {
        None
    }
}

/// The value of an ASCII hex digit, either case.
pub open spec fn hex_value(b: u8) -> Option<nat> {
    if 48 <= b <= 57 {
        Some((b - 48) as nat)
    } else if 97 <= b <= 102 {
        Some((b - 87) as nat)
    } else if 65 <= b <= 70 {
        Some((b - 55) as nat)
    } else {
        None
    }
}

/// The name of the header that announces a chunked body.
pub open spec fn transfer_encoding_name() -> Seq<u8> {
    "transfer-encoding".spec_bytes()
}

/// The transfer coding that makes a body chunked.
pub open spec fn chunked_name() -> Seq<u8> {
    "chunked".spec_bytes()
}

/// The name of the header that gives a fixed body length.
pub open spec fn content_length_name() -> Seq<u8> {
    "content-length".spec_bytes()
}

/// Whether the header fields announce a chunked body.
pub open spec fn is_chunked(fs: Seq<(Seq<u8>, Seq<u8>)>) -> bool {
    match find_field(fs, transfer_encoding_name()) {
        Some(v) => eq_ascii_case(v, chunked_name()),
        None => false,
    }
}

/// The body length that the header fields announce, if any.
pub open spec fn content_length(fs: Seq<(Seq<u8>, Seq<u8>)>) -> Option<usize> {
    match find_field(fs, content_length_name()) {
        Some(v) => parse_length(v),
        None => None,
    }
}

/// How the body is read once the header section has ended: chunked when
/// announced, else as many bytes as a valid `Content-Length` gives, else none.
pub open spec fn body_state(fs: Seq<(Seq<u8>, Seq<u8>)>) -> FieldsState {
    if is_chunked(fs) {
        FieldsState::ChunkSize { size: 0, digits: false }
    } else {
        match content_length(fs) {
            Some(n) => if n > 0 {
                FieldsState::Fixed { remaining: n }
            } else {
                FieldsState::Done
            },
            None => FieldsState::Done,
        }
    }
}

impl FieldsModel {
    /// The state at the start of the header section.
    pub open spec fn initial() -> FieldsModel {
        FieldsModel {
            state: FieldsState::Key,
            key: Seq::empty(),
            value: Seq::empty(),
            fields: Seq::empty(),
            body: Seq::empty(),
        }
    }

    /// The same state, moved to `state`.
    pub open spec fn with_state(self, state: FieldsState) -> FieldsModel {
        FieldsModel { state, ..self }
    }

}

impl ByteMachine for FieldsModel {
    /// Whether the decoder has stopped.
    open spec fn is_terminal(self) -> bool {
        self.state is Done || self.state is Failed
    }

    /// The state after reading one more byte.
    open spec fn step(self, b: u8) -> FieldsModel {
        let fail = self.with_state(FieldsState::Failed);
        match self.state {
            FieldsState::Key => if b == CR {
                if self.key.len() == 0 {
                    self.with_state(FieldsState::EndLf)
                } else {
                    fail
                }
            } else if b == LF {
                fail
            } else if b == COLON {
                FieldsModel { state: FieldsState::Value, key: trim(self.key), ..self }
            } else {
                FieldsModel { key: self.key.push(b), ..self }
            },
            FieldsState::Value => if b == CR {
                FieldsModel {
                    state: FieldsState::LineLf,
                    key: Seq::empty(),
                    value: Seq::empty(),
                    fields: self.fields.push((self.key, self.value)),
                    ..self
                }
            } else if b == LF {
                fail
            } else if is_ws(b) && self.value.len() == 0 {
                self
            } else {
                FieldsModel { value: self.value.push(b), ..self }
            },
            FieldsState::LineLf => if b == LF {
                self.with_state(FieldsState::Key)
            } else {
                fail
            },
            FieldsState::EndLf => if b == LF {
                self.with_state(body_state(self.fields))
            } else {
                fail
            },
            FieldsState::Fixed { remaining } => {
                let next = if remaining <= 1 {
                    FieldsState::Done
                } else {
                    FieldsState::Fixed { remaining: (remaining - 1) as usize }
                };
                FieldsModel { state: next, body: self.body.push(b), ..self }
            },
            FieldsState::ChunkSize { size, digits } => match hex_value(b) {
                Some(d) => if size * 16 + d <= usize::MAX {
                    self.with_state(FieldsState::ChunkSize { size: (size * 16 + d) as usize, digits: true })
                } else {
                    fail
                },
                None => if digits && b == CR {
                    self.with_state(FieldsState::ChunkSizeLf { size })
                } else if digits && b == SEMICOLON {
                    self.with_state(FieldsState::ChunkExt { size })
                } else {
                    fail
                },
            },
            FieldsState::ChunkExt { size } => if b == CR {
                self.with_state(FieldsState::ChunkSizeLf { size })
            } else if b == LF {
                fail
            } else {
                self
            },
            FieldsState::ChunkSizeLf { size } => if b != LF {
                fail
            } else if size == 0 {
                self.with_state(FieldsState::TrailerStart)
            } else {
                self.with_state(FieldsState::ChunkData { remaining: size })
            },
            FieldsState::ChunkData { remaining } => {
                let next = if remaining <= 1 {
                    FieldsState::ChunkDataCr
                } else {
                    FieldsState::ChunkData { remaining: (remaining - 1) as usize }
                };
                FieldsModel { state: next, body: self.body.push(b), ..self }
            },
            FieldsState::ChunkDataCr => if b == CR {
                self.with_state(FieldsState::ChunkDataLf)
            } else {
                fail
            },
            FieldsState::ChunkDataLf => if b == LF {
                self.with_state(FieldsState::ChunkSize { size: 0, digits: false })
            } else {
                fail
            },
            FieldsState::TrailerStart => if b == CR {
                self.with_state(FieldsState::TrailerEndLf)
            } else if b == LF {
                fail
            } else {
                self.with_state(FieldsState::TrailerLine)
            },
            FieldsState::TrailerLine => if b == CR {
                self.with_state(FieldsState::TrailerLineLf)
            } else if b == LF {
                fail
            } else {
                self
            },
            FieldsState::TrailerLineLf => if b == LF {
                self.with_state(FieldsState::TrailerStart)
            } else {
                fail
            },
            FieldsState::TrailerEndLf => if b == LF {
                self.with_state(FieldsState::Done)
            } else {
                fail
            },
            FieldsState::Done => self,
            FieldsState::Failed => self,
        }
    }
}

} // verus!

verus! {

/// The header fields as byte sequences.
pub open spec fn fields_view(v: Seq<(Vec<u8>, Vec<u8>)>) -> Seq<(Seq<u8>, Seq<u8>)> {
    v.map_values(|p: (Vec<u8>, Vec<u8>)| (p.0@, p.1@))
}

/// The digits of `s` taken one by one from the left add up, so a prefix
/// never spells a larger number than the whole.
proof fn lemma_decimal_prefix(s: Seq<u8>, i: int)
    requires
        0 <= i <= s.len(),
        forall|k: int| 0 <= k < s.len() ==> is_digit(#[trigger] s[k]),
    ensures
        decimal_value(s.take(i)) <= decimal_value(s),
    decreases s.len() - i,
{
    if i < s.len() {
        lemma_decimal_prefix(s, i + 1);
        assert(s.take(i + 1).drop_last() =~= s.take(i));
    } else {
        assert(s.take(i) =~= s);
    }
}

/// The byte with ASCII upper case letters made lower case.
fn lower(b: u8) -> (r: u8)
    ensures
        r == ascii_lower(b),
{
    if 65 <= b && b <= 90 {
        b + 32
    } else {
        b
    }
}

/// Compares two byte slices without regard to ASCII case.
fn eq_ascii_case_bytes(a: &[u8], b: &[u8]) -> (r: bool)
    ensures
        r == eq_ascii_case(a@, b@),
{
    if a.len() != b.len() {
        return false;
    }
    let mut i: usize = 0;
    while i < a.len()
        invariant
            a@.len() == b@.len(),
            0 <= i <= a@.len(),
            forall|j: int| 0 <= j < i ==> ascii_lower(#[trigger] a@[j]) == ascii_lower(b@[j]),
        decreases a@.len() - i,
    {
        if lower(a[i]) != lower(b[i]) {
            return false;
        }
        i = i + 1;
    }
    true
}

/// Removes spaces and tabs at either end.
fn trim_bytes(s: &[u8]) -> (r: Vec<u8>)
    ensures
        r@ == trim(s@),
{
    let mut end: usize = s.len();
    assert(s@.take(end as int) =~= s@);
    while end > 0 && (s[end - 1] == SP || s[end - 1] == HT)
        invariant
            0 <= end <= s@.len(),
            trim_end(s@) == trim_end(s@.take(end as int)),
        decreases end,
    {
        assert(s@.take(end as int).drop_last() =~= s@.take(end - 1));
        end = end - 1;
    }
    let mut start: usize = 0;
    assert(s@.subrange(0, end as int) =~= s@.take(end as int));
    while start < end && (s[start] == SP || s[start] == HT)
        invariant
            0 <= start <= end <= s@.len(),
            trim(s@) == trim_start(s@.subrange(start as int, end as int)),
        decreases end - start,
    {
        assert(s@.subrange(start as int, end as int).drop_first() =~= s@.subrange(
            start + 1,
            end as int,
        ));
        start = start + 1;
    }
    let mut r: Vec<u8> = Vec::new();
    let mut k: usize = start;
    while k < end
        invariant
            start <= k <= end <= s@.len(),
            r@ == s@.subrange(start as int, k as int),
        decreases end - k,
    {
        r.push(s[k]);
        assert(r@ =~= s@.subrange(start as int, k + 1));
        k = k + 1;
    }
    r
}

/// Reads a `Content-Length` value.
fn parse_length_bytes(v: &[u8]) -> (r: Option<usize>)
    ensures
        r == parse_length(v@),
{
    if v.len() == 0 {
        return None;
    }
    let mut acc: usize = 0;
    let mut i: usize = 0;
    assert(v@.take(0) =~= Seq::<u8>::empty());
    while i < v.len()
        invariant
            0 <= i <= v@.len(),
            forall|k: int| 0 <= k < i ==> is_digit(#[trigger] v@[k]),
            acc == decimal_value(v@.take(i as int)),
        decreases v@.len() - i,
    {
        let b = v[i];
        if b < 48 || b > 57 {
            return None;
        }
        assert(v@.take(i + 1).drop_last() =~= v@.take(i as int));
        let d: usize = (b - 48) as usize;
        match acc.checked_mul(10) {
            Some(m) => match m.checked_add(d) {
                Some(n) => {
                    acc = n;
                },
                None => {
                    proof {
                        if forall|k: int| 0 <= k < v@.len() ==> is_digit(#[trigger] v@[k]) {
                            lemma_decimal_prefix(v@, i + 1);
                        }
                    }
                    return None;
                },
            },
            None => {
                proof {
                    if forall|k: int| 0 <= k < v@.len() ==> is_digit(#[trigger] v@[k]) {
                        lemma_decimal_prefix(v@, i + 1);
                    }
                }
                return None;
            },
        }
        i = i + 1;
    }
    assert(v@.take(i as int) =~= v@);
    Some(acc)
}

/// The value of an ASCII hex digit, either case.
fn hex_digit_value(b: u8) -> (r: Option<usize>)
    ensures
        r matches Some(d) ==> hex_value(b) == Some(d as nat),
        r is None ==> hex_value(b) is None,
{
    if 48 <= b && b <= 57 {
        Some((b - 48) as usize)
    } else if 97 <= b && b <= 102 {
        Some((b - 87) as usize)
    } else if 65 <= b && b <= 70 {
        Some((b - 55) as usize)
    } else {
        None
    }
}

/// The first field whose key is `name` without regard to ASCII case.
fn find_field_index(fields: &Vec<(Vec<u8>, Vec<u8>)>, name: &[u8]) -> (r: Option<usize>)
    ensures
        r matches Some(i) ==> i < fields@.len() && find_field(fields_view(fields@), name@) == Some(
            fields@[i as int].1@,
        ),
        r is None ==> find_field(fields_view(fields@), name@) is None,
{
    let ghost fv = fields_view(fields@);
    let mut i: usize = 0;
    assert(fv.skip(0) =~= fv);
    while i < fields.len()
        invariant
            0 <= i <= fields@.len(),
            fv == fields_view(fields@),
            find_field(fv, name@) == find_field(fv.skip(i as int), name@),
        decreases fields@.len() - i,
    {
        assert(fv.skip(i as int)[0] == (fields@[i as int].0@, fields@[i as int].1@));
        if eq_ascii_case_bytes(fields[i].0.as_slice(), name) {
            return Some(i);
        }
        assert(fv.skip(i as int).drop_first() =~= fv.skip(i + 1));
        i = i + 1;
    }
    None
}

/// The header section and body decoder that both parsers share once the
/// first line of a message has been read.
pub struct FieldsParser {
    state: FieldsState,
    key: Vec<u8>,
    value: Vec<u8>,
    fields: Vec<(Vec<u8>, Vec<u8>)>,
    body: Vec<u8>,
}

impl View for FieldsParser {
    type V = FieldsModel;

    closed spec fn view(&self) -> FieldsModel {
        FieldsModel {
            state: self.state,
            key: self.key@,
            value: self.value@,
            fields: fields_view(self.fields@),
            body: self.body@,
        }
    }
}

impl FieldsParser {
    /// A decoder at the start of the header section.
    pub fn new() -> (r: Self)
        ensures
            r@ == FieldsModel::initial(),
    {
        let r = FieldsParser {
            state: FieldsState::Key,
            key: Vec::new(),
            value: Vec::new(),
            fields: Vec::new(),
            body: Vec::new(),
        };
        assert(r@.fields =~= Seq::<(Seq<u8>, Seq<u8>)>::empty());
        r
    }

    /// Where the decoder stands.
    pub fn state(&self) -> (r: FieldsState)
        ensures
            r == self@.state,
    {
        self.state
    }

    /// How many header fields were read.
    pub fn field_count(&self) -> (r: usize)
        ensures
            r == self@.fields.len(),
    {
        self.fields.len()
    }

    /// The key and value bytes of the `i`-th header field.
    pub fn field(&self, i: usize) -> (r: (&[u8], &[u8]))
        requires
            i < self@.fields.len(),
        ensures
            r.0@ == self@.fields[i as int].0,
            r.1@ == self@.fields[i as int].1,
    {
        (self.fields[i].0.as_slice(), self.fields[i].1.as_slice())
    }

    /// The body decoded so far.
    pub fn body(&self) -> (r: &[u8])
        ensures
            r@ == self@.body,
    {
        self.body.as_slice()
    }

    /// How the body is read, decided from the header fields.
    fn body_state(&self) -> (r: FieldsState)
        ensures
            r == body_state(self@.fields),
    {
        let chunked = match find_field_index(&self.fields, "transfer-encoding".as_bytes()) {
            Some(i) => eq_ascii_case_bytes(self.fields[i].1.as_slice(), "chunked".as_bytes()),
            None => false,
        };
        if chunked {
            return FieldsState::ChunkSize { size: 0, digits: false };
        }
        match find_field_index(&self.fields, "content-length".as_bytes()) {
            Some(i) => match parse_length_bytes(self.fields[i].1.as_slice()) {
                Some(n) => if n > 0 {
                    FieldsState::Fixed { remaining: n }
                } else {
                    FieldsState::Done
                },
                None => FieldsState::Done,
            },
            None => FieldsState::Done,
        }
    }

    /// Reads one byte.
    pub fn step(&mut self, b: u8)
        ensures
            final(self)@ == old(self)@.step(b),
    {
        match self.state {
            FieldsState::Key => {
                if b == CR {
                    if self.key.len() == 0 {
                        self.state = FieldsState::EndLf;
                    } else {
                        self.state = FieldsState::Failed;
                    }
                } else if b == LF {
                    self.state = FieldsState::Failed;
                } else if b == COLON {
                    self.key = trim_bytes(self.key.as_slice());
                    self.state = FieldsState::Value;
                } else {
                    self.key.push(b);
                }
            },
            FieldsState::Value => {
                if b == CR {
                    let mut k: Vec<u8> = Vec::new();
                    let mut v: Vec<u8> = Vec::new();
                    core::mem::swap(&mut self.key, &mut k);
                    core::mem::swap(&mut self.value, &mut v);
                    let ghost before = self.fields@;
                    self.fields.push((k, v));
                    assert(fields_view(self.fields@) =~= fields_view(before).push((k@, v@)));
                    self.state = FieldsState::LineLf;
                } else if b == LF {
                    self.state = FieldsState::Failed;
                } else if (b == SP || b == HT) && self.value.len() == 0 {
                } else {
                    self.value.push(b);
                }
            },
            FieldsState::LineLf => {
                if b == LF {
                    self.state = FieldsState::Key;
                } else {
                    self.state = FieldsState::Failed;
                }
            },
            FieldsState::EndLf => {
                if b == LF {
                    self.state = self.body_state();
                } else {
                    self.state = FieldsState::Failed;
                }
            },
            FieldsState::Fixed { remaining } => {
                self.body.push(b);
                if remaining <= 1 {
                    self.state = FieldsState::Done;
                } else {
                    self.state = FieldsState::Fixed { remaining: remaining - 1 };
                }
            },
            FieldsState::ChunkSize { size, digits } => {
                match hex_digit_value(b) {
                    Some(d) => {
                        let next = match size.checked_mul(16) {
                            Some(m) => m.checked_add(d),
                            None => None,
                        };
                        match next {
                            Some(n) => {
                                self.state = FieldsState::ChunkSize { size: n, digits: true };
                            },
                            None => {
                                self.state = FieldsState::Failed;
                            },
                        }
                    },
                    None => {
                        if digits && b == CR {
                            self.state = FieldsState::ChunkSizeLf { size };
                        } else if digits && b == SEMICOLON {
                            self.state = FieldsState::ChunkExt { size };
                        } else {
                            self.state = FieldsState::Failed;
                        }
                    },
                }
            },
            FieldsState::ChunkExt { size } => {
                if b == CR {
                    self.state = FieldsState::ChunkSizeLf { size };
                } else if b == LF {
                    self.state = FieldsState::Failed;
                }
            },
            FieldsState::ChunkSizeLf { size } => {
                if b != LF {
                    self.state = FieldsState::Failed;
                } else if size == 0 {
                    self.state = FieldsState::TrailerStart;
                } else {
                    self.state = FieldsState::ChunkData { remaining: size };
                }
            },
            FieldsState::ChunkData { remaining } => {
                self.body.push(b);
                if remaining <= 1 {
                    self.state = FieldsState::ChunkDataCr;
                } else {
                    self.state = FieldsState::ChunkData { remaining: remaining - 1 };
                }
            },
            FieldsState::ChunkDataCr => {
                if b == CR {
                    self.state = FieldsState::ChunkDataLf;
                } else {
                    self.state = FieldsState::Failed;
                }
            },
            FieldsState::ChunkDataLf => {
                if b == LF {
                    self.state = FieldsState::ChunkSize { size: 0, digits: false };
                } else {
                    self.state = FieldsState::Failed;
                }
            },
            FieldsState::TrailerStart => {
                if b == CR {
                    self.state = FieldsState::TrailerEndLf;
                } else if b == LF {
                    self.state = FieldsState::Failed;
                } else {
                    self.state = FieldsState::TrailerLine;
                }
            },
            FieldsState::TrailerLine => {
                if b == CR {
                    self.state = FieldsState::TrailerLineLf;
                } else if b == LF {
                    self.state = FieldsState::Failed;
                }
            },
            FieldsState::TrailerLineLf => {
                if b == LF {
                    self.state = FieldsState::TrailerStart;
                } else {
                    self.state = FieldsState::Failed;
                }
            },
            FieldsState::TrailerEndLf => {
                if b == LF {
                    self.state = FieldsState::Done;
                } else {
                    self.state = FieldsState::Failed;
                }
            },
            FieldsState::Done => {},
            FieldsState::Failed => {},
        }
    }
}

} // verus!
