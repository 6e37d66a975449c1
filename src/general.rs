use vstd::prelude::*;

verus! {

/// Carriage return.
pub const CR: u8 = 13;
/// Line feed.
pub const LF: u8 = 10;
/// Space.
pub const SP: u8 = 32;
/// Horizontal tab.
pub const HT: u8 = 9;
/// The colon between a header's key and its value.
pub const COLON: u8 = 58;

/// Text that is either borrowed from a buffer that outlives it or owned.
#[derive(Debug)]
pub enum StringContainer<'a> {
    Ref(&'a str),
    Owned(String),
}

impl<'a> View for StringContainer<'a> {
    type V = Seq<char>;

    open spec fn view(&self) -> Seq<char> {
        match self {
            StringContainer::Ref(r) => r@,
            StringContainer::Owned(o) => o@,
        }
    }
}

impl<'a> StringContainer<'a> {
    /// The text, however it is held.
    pub fn as_str(&self) -> (r: &str)
        ensures
            r@ == self@,
    {
        match self {
            StringContainer::Ref(r) => r,
            StringContainer::Owned(o) => o.as_str(),
        }
    }
}

impl<'a> AsRef<str> for StringContainer<'a> {
    fn as_ref(&self) -> &str {
        self.as_str()
    }
}

impl<'a> PartialEq for StringContainer<'a> {
    fn eq(&self, other: &Self) -> (r: bool) {
        str_eq(self.as_str(), other.as_str())
    }
}

impl<'a> vstd::std_specs::cmp::PartialEqSpecImpl for StringContainer<'a> {
    open spec fn obeys_eq_spec() -> bool {
        true
    }

    open spec fn eq_spec(&self, other: &Self) -> bool {
        self@ == other@
    }
}

/// Byte-wise equality of two slices.
pub(crate) fn bytes_eq(a: &[u8], b: &[u8]) -> (r: bool)
    ensures
        r == (a@ == b@),
{
    if a.len() != b.len() {
        return false;
    }
    let mut i: usize = 0;
    while i < a.len()
        invariant
            a@.len() == b@.len(),
            0 <= i <= a@.len(),
            forall|j: int| 0 <= j < i ==> a@[j] == b@[j],
        decreases a@.len() - i,
    {
        if a[i] != b[i] {
            return false;
        }
        i = i + 1;
    }
    assert(a@ =~= b@);
    true
}

/// Equality of two texts, decided on their UTF-8 bytes.
pub(crate) fn str_eq(a: &str, b: &str) -> (r: bool)
    ensures
        r == (a@ == b@),
{
    let r = bytes_eq(a.as_bytes(), b.as_bytes());
    proof {
        vstd::utf8::encode_utf8_decode_utf8(a@);
        vstd::utf8::encode_utf8_decode_utf8(b@);
    }
    r
}

/// What `caseless::default_caseless_match_str` answers for two texts: whether
/// their Unicode default case foldings are equal.
pub uninterp spec fn caseless_match(a: Seq<char>, b: Seq<char>) -> bool;

/// Relies on `caseless::default_caseless_match_str`: it folds both texts with
/// the default Unicode case folding and compares the results, so the answer
/// depends on the two texts alone, and equal texts always match.
#[verifier::external_body]
pub(crate) fn caseless_eq(a: &str, b: &str) -> (r: bool)
    ensures
        r == caseless_match(a@, b@),
        a@ == b@ ==> r,
{
    caseless::default_caseless_match_str(a, b)
}

} // verus!

verus! {

/// The lexicographic order of two byte sequences, which is the order of
/// `str` on the texts they encode.
pub open spec fn lex_order(a: Seq<u8>, b: Seq<u8>) -> core::cmp::Ordering
    decreases a.len(),
{
    if a.len() == 0 {
        if b.len() == 0 {
            core::cmp::Ordering::Equal
        } else {
            core::cmp::Ordering::Less
        }
    } else if b.len() == 0 {
        core::cmp::Ordering::Greater
    } else if a[0] < b[0] {
        core::cmp::Ordering::Less
    } else if a[0] > b[0] {
        core::cmp::Ordering::Greater
    } else {
        lex_order(a.drop_first(), b.drop_first())
    }
}

/// Compares two byte slices lexicographically.
pub(crate) fn lex_cmp(a: &[u8], b: &[u8]) -> (r: core::cmp::Ordering)
    ensures
        r == lex_order(a@, b@),
{
    let mut i: usize = 0;
    assert(a@.skip(0) =~= a@);
    assert(b@.skip(0) =~= b@);
    while i < a.len() && i < b.len()
        invariant
            0 <= i <= a@.len(),
            i <= b@.len(),
            lex_order(a@, b@) == lex_order(a@.skip(i as int), b@.skip(i as int)),
        decreases a@.len() - i,
    {
        if a[i] < b[i] {
            return core::cmp::Ordering::Less;
        }
        if a[i] > b[i] {
            return core::cmp::Ordering::Greater;
        }
        assert(a@.skip(i as int).drop_first() =~= a@.skip(i + 1));
        assert(b@.skip(i as int).drop_first() =~= b@.skip(i + 1));
        i = i + 1;
    }
    if i < b.len() {
        core::cmp::Ordering::Less
    } else if i < a.len() {
        core::cmp::Ordering::Greater
    } else {
        core::cmp::Ordering::Equal
    }
}

} // verus!

verus! {

/// The ASCII digit for a value below ten.
pub open spec fn digit_char(d: nat) -> char {
    ((d + 48) as u8) as char
}

/// The decimal digits of a number, most significant first, without leading
/// zeros.
pub open spec fn decimal_chars(n: nat) -> Seq<char>
    decreases n,
{
    if n < 10 {
        seq![digit_char(n)]
    } else {
        decimal_chars(n / 10).push(digit_char(n % 10))
    }
}

/// A decimal rendering is ASCII, one byte per digit, and a number below
/// ten has one digit.
pub proof fn lemma_decimal_chars(n: nat)
    ensures
        vstd::utf8::is_ascii_chars(decimal_chars(n)),
        vstd::utf8::encode_utf8(decimal_chars(n)).len() == decimal_chars(n).len(),
        n < 10 ==> decimal_chars(n).len() == 1,
        n >= 10 ==> decimal_chars(n).len() == decimal_chars(n / 10).len() + 1,
        n >= 1 ==> decimal_chars(n).len() <= n,
    decreases n,
{
    if n >= 10 {
        lemma_decimal_chars(n / 10);
    }
    let c = decimal_chars(n);
    assert forall|i: int| 0 <= i < c.len() implies '\0' <= #[trigger] c[i] <= '\u{7f}' by {
        if n >= 10 && i < c.len() - 1 {
            assert(c[i] == decimal_chars(n / 10)[i]);
        }
    }
    vstd::utf8::is_ascii_chars_encode_utf8(c);
}

} // verus!

verus! {

/// Relies on `std::str::from_utf8`: it succeeds exactly when the bytes are
/// valid UTF-8, and the text it returns is made of those bytes.
#[verifier::external_body]
pub(crate) fn utf8_text<'b>(b: &'b [u8]) -> (r: Option<&'b str>)
    ensures
        r is Some <==> vstd::utf8::valid_utf8(b@),
        r matches Some(s) ==> vstd::string::StringSliceAdditionalSpecFns::spec_bytes(s) == b@,
{
    std::str::from_utf8(b).ok()
}

/// Decodes bytes as UTF-8 text.
pub(crate) fn decode_text<'b>(b: &'b [u8]) -> (r: Option<&'b str>)
    ensures
        r is Some <==> vstd::utf8::valid_utf8(b@),
        r matches Some(s) ==> s@ == vstd::utf8::decode_utf8(b@),
{
    let r = utf8_text(b);
    proof {
        if let Some(s) = r {
            vstd::utf8::encode_utf8_decode_utf8(s@);
        }
    }
    r
}

} // verus!
