use vstd::prelude::*;
use vstd::string::StringSliceAdditionalSpecFns;

use crate::general::{caseless_eq, caseless_match, decimal_chars, lemma_decimal_chars, str_eq};

verus! {

/// A single HeaderValue that can hold Data
/// in a variety of forms allowing for easier
/// and more flexible use
#[derive(Debug)]
pub enum HeaderValue<'a> {
    /// Stores the Value as a reference to a String
    StrRef(&'a str),
    /// Stores the Value as an owned String
    Str(String),
    /// Stores the Value in its raw Number format
    NumberUsize(usize),
}

impl<'a> View for HeaderValue<'a> {
    type V = Seq<char>;

    /// The value as text: a number is written in decimal.
    open spec fn view(&self) -> Seq<char> {
        match self {
            HeaderValue::StrRef(s) => s@,
            HeaderValue::Str(s) => s@,
            HeaderValue::NumberUsize(n) => decimal_chars(*n as nat),
        }
    }
}

impl<'a> From<&'a str> for HeaderValue<'a> {
    fn from(val: &'a str) -> (r: Self) {
        HeaderValue::StrRef(val)
    }
}

impl<'a> vstd::std_specs::convert::FromSpecImpl<&'a str> for HeaderValue<'a> {
    open spec fn obeys_from_spec() -> bool {
        true
    }

    open spec fn from_spec(v: &'a str) -> Self {
        HeaderValue::StrRef(v)
    }
}

impl<'a> From<String> for HeaderValue<'a> {
    fn from(val: String) -> (r: Self) {
        HeaderValue::Str(val)
    }
}

impl<'a> vstd::std_specs::convert::FromSpecImpl<String> for HeaderValue<'a> {
    open spec fn obeys_from_spec() -> bool {
        true
    }

    open spec fn from_spec(v: String) -> Self {
        HeaderValue::Str(v)
    }
}

impl<'a> From<usize> for HeaderValue<'a> {
    fn from(val: usize) -> (r: Self) {
        HeaderValue::NumberUsize(val)
    }
}

impl<'a> vstd::std_specs::convert::FromSpecImpl<usize> for HeaderValue<'a> {
    open spec fn obeys_from_spec() -> bool {
        true
    }

    open spec fn from_spec(v: usize) -> Self {
        HeaderValue::NumberUsize(v)
    }
}

/// Relies on the `Display` impl of `usize` behind `to_string`: the decimal
/// digits of the number, without sign, padding or leading zeros.
#[verifier::external_body]
fn usize_to_string(n: usize) -> (r: String)
    ensures
        r@ == decimal_chars(n as nat),
{
    n.to_string()
}

impl<'a> HeaderValue<'a> {
    /// The UTF-8 bytes of the value as it is written on the wire.
    pub open spec fn spec_bytes(&self) -> Seq<u8> {
        vstd::utf8::encode_utf8(self@)
    }

    /// Serializes the Value into the given Buffer by
    /// appending the Data to it
    pub fn serialize(&self, buf: &mut Vec<u8>)
        ensures
            final(buf)@ == old(buf)@ + self.spec_bytes(),
    {
        match self {
            Self::StrRef(value) => {
                buf.extend_from_slice(value.as_bytes());
            },
            Self::Str(value) => {
                buf.extend_from_slice(value.as_str().as_bytes());
            },
            Self::NumberUsize(value) => {
                let text = usize_to_string(*value);
                buf.extend_from_slice(text.as_str().as_bytes());
            },
        }
    }

    /// Turns the given Value, regardless of how it is stored,
    /// into an owned String
    pub fn to_string(&self) -> (r: String)
        ensures
            r@ == self@,
    {
        match self {
            Self::StrRef(value) => (*value).to_owned(),
            Self::Str(value) => value.as_str().to_owned(),
            Self::NumberUsize(value) => usize_to_string(*value),
        }
    }

    /// Compares the Two values without case
    ///
    /// Any number type in either of them immediately
    /// returns false
    pub fn eq_ignore_case(&self, other: &Self) -> (r: bool)
        ensures
            r == (!(self is NumberUsize) && !(other is NumberUsize) && caseless_match(
                self@,
                other@,
            )),
    {
        let own_ref = match self.try_as_str_ref() {
            Some(r) => r,
            None => return false,
        };
        let other_ref = match other.try_as_str_ref() {
            Some(r) => r,
            None => return false,
        };
        caseless_eq(own_ref, other_ref)
    }

    /// Tries to return a reference to the underlying String,
    /// if it is a String, otherwise returns None
    pub fn try_as_str_ref(&self) -> (r: Option<&str>)
        ensures
            r is None <==> self is NumberUsize,
            r matches Some(s) ==> s@ == self@,
    {
        match self {
            Self::StrRef(value) => Some(value),
            Self::Str(value) => Some(value.as_str()),
            Self::NumberUsize(_) => None,
        }
    }

    /// Returns the amount of space in bytes that
    /// this Value needs
    pub fn length(&self) -> (r: usize)
        ensures
            r == self.spec_bytes().len(),
    {
        match self {
            Self::Str(tmp) => tmp.as_str().as_bytes().len(),
            Self::StrRef(tmp) => tmp.as_bytes().len(),
            Self::NumberUsize(val) => {
                proof {
                    lemma_decimal_chars(*val as nat);
                }
                let mut tmp: usize = *val;
                let mut result: usize = 1;
                while tmp >= 10
                    invariant
                        result + decimal_chars(tmp as nat).len() == decimal_chars(*val as nat).len()
                            + 1,
                        tmp >= 10 ==> decimal_chars(*val as nat).len() <= *val,
                        tmp >= 10 ==> result < decimal_chars(*val as nat).len(),
                    decreases tmp,
                {
                    proof {
                        lemma_decimal_chars(tmp as nat);
                    }
                    proof {
                        lemma_decimal_chars(tmp as nat / 10);
                    }
                    tmp = tmp / 10;
                    result = result + 1;
                }
                proof {
                    lemma_decimal_chars(tmp as nat);
                }
                result
            },
        }
    }

    /// Clones all the needed Data in order to create a new
    /// HeaderValue that is completly independant of the given
    /// self reference
    pub fn to_owned<'owned>(&self) -> (r: HeaderValue<'owned>)
        ensures
            r@ == self@,
            !(r is StrRef),
            r is NumberUsize <==> self is NumberUsize,
    {
        match self {
            Self::Str(tmp) => HeaderValue::Str(tmp.as_str().to_owned()),
            Self::StrRef(tmp) => HeaderValue::Str((*tmp).to_owned()),
            Self::NumberUsize(tmp) => HeaderValue::NumberUsize(*tmp),
        }
    }
}

impl<'a> Clone for HeaderValue<'a> {
    fn clone(&self) -> (r: Self)
        ensures
            r == *self,
    {
        match self {
            Self::StrRef(value) => Self::StrRef(value),
            Self::Str(value) => Self::Str(value.clone()),
            Self::NumberUsize(value) => Self::NumberUsize(*value),
        }
    }
}

impl PartialEq for HeaderValue<'_> {
    fn eq(&self, other: &Self) -> (r: bool) {
        match (self, other) {
            (Self::StrRef(a), Self::StrRef(b)) => str_eq(a, b),
            (Self::Str(a), Self::Str(b)) => str_eq(a.as_str(), b.as_str()),
            (Self::NumberUsize(a), Self::NumberUsize(b)) => *a == *b,
            _ => false,
        }
    }
}

impl vstd::std_specs::cmp::PartialEqSpecImpl for HeaderValue<'_> {
    open spec fn obeys_eq_spec() -> bool {
        true
    }

    /// Equal when held in the same form with the same content.
    open spec fn eq_spec(&self, other: &Self) -> bool {
        match (self, other) {
            (HeaderValue::StrRef(a), HeaderValue::StrRef(b)) => a@ == b@,
            (HeaderValue::Str(a), HeaderValue::Str(b)) => a@ == b@,
            (HeaderValue::NumberUsize(a), HeaderValue::NumberUsize(b)) => a == b,
            _ => false,
        }
    }
}

impl PartialEq<String> for HeaderValue<'_> {
    fn eq(&self, other: &String) -> (r: bool) {
        match self {
            Self::StrRef(value) => str_eq(value, other.as_str()),
            Self::Str(value) => str_eq(value.as_str(), other.as_str()),
            _ => false,
        }
    }
}

impl vstd::std_specs::cmp::PartialEqSpecImpl<String> for HeaderValue<'_> {
    open spec fn obeys_eq_spec() -> bool {
        true
    }

    open spec fn eq_spec(&self, other: &String) -> bool {
        !(self is NumberUsize) && self@ == other@
    }
}

} // verus!
