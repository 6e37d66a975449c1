use vstd::prelude::*;
use vstd::string::StringSliceAdditionalSpecFns;

use crate::general::{caseless_eq, caseless_match, lex_cmp, lex_order};

verus! {

/// Allows the HeaderKey to take the form of a variety of different
/// valid Types, mostly related to their lifetimes.
/// This however also gives more control over how they are compared
/// to each other, ignoring case in this case
#[derive(Debug)]
pub enum HeaderKey<'a> {
    /// Stores the Key as a refernce to a String
    StrRef(&'a str),
    /// Stores the Key as an owned String
    Str(String),
}

impl<'a> View for HeaderKey<'a> {
    type V = Seq<char>;

    open spec fn view(&self) -> Seq<char> {
        match self {
            HeaderKey::StrRef(s) => s@,
            HeaderKey::Str(s) => s@,
        }
    }
}

impl<'a> From<&'a str> for HeaderKey<'a> {
    fn from(val: &'a str) -> (r: Self) {
        HeaderKey::StrRef(val)
    }
}

impl<'a> vstd::std_specs::convert::FromSpecImpl<&'a str> for HeaderKey<'a> {
    open spec fn obeys_from_spec() -> bool {
        true
    }

    open spec fn from_spec(v: &'a str) -> Self {
        HeaderKey::StrRef(v)
    }
}

impl<'a> From<String> for HeaderKey<'a> {
    fn from(val: String) -> (r: Self) {
        HeaderKey::Str(val)
    }
}

impl<'a> vstd::std_specs::convert::FromSpecImpl<String> for HeaderKey<'a> {
    open spec fn obeys_from_spec() -> bool {
        true
    }

    open spec fn from_spec(v: String) -> Self {
        HeaderKey::Str(v)
    }
}

impl<'a> HeaderKey<'a> {
    /// The UTF-8 bytes of the key.
    pub open spec fn spec_bytes(&self) -> Seq<u8> {
        vstd::utf8::encode_utf8(self@)
    }

    /// The key as text, however it is held.
    pub fn as_str(&self) -> (r: &str)
        ensures
            r@ == self@,
    {
        match self {
            Self::StrRef(value) => value,
            Self::Str(value) => value.as_str(),
        }
    }

    /// Serializes the Key into the Buffer by appending
    /// the Data to it
    pub fn serialize(&self, buf: &mut Vec<u8>)
        ensures
            final(buf)@ == old(buf)@ + self.spec_bytes(),
    {
        buf.extend_from_slice(self.as_str().as_bytes());
    }

    /// Clones all the needed Data in order to create a new
    /// HeaderKey that is completly independant of the given
    /// self reference
    pub fn to_owned<'owned>(&self) -> (r: HeaderKey<'owned>)
        ensures
            r@ == self@,
            r is Str,
    {
        let value: String = match self {
            Self::StrRef(tmp) => (*tmp).to_owned(),
            Self::Str(tmp) => tmp.as_str().to_owned(),
        };
        HeaderKey::Str(value)
    }
}

impl<'a> Clone for HeaderKey<'a> {
    fn clone(&self) -> (r: Self)
        ensures
            r == *self,
    {
        match self {
            Self::StrRef(value) => Self::StrRef(value),
            Self::Str(value) => Self::Str(value.clone()),
        }
    }
}

impl AsRef<str> for HeaderKey<'_> {
    fn as_ref(&self) -> &str {
        self.as_str()
    }
}

impl PartialEq for HeaderKey<'_> {
    fn eq(&self, other: &Self) -> (r: bool) {
        caseless_eq(self.as_str(), other.as_str())
    }
}

impl vstd::std_specs::cmp::PartialEqSpecImpl for HeaderKey<'_> {
    open spec fn obeys_eq_spec() -> bool {
        true
    }

    open spec fn eq_spec(&self, other: &Self) -> bool {
        caseless_match(self@, other@)
    }
}

impl Eq for HeaderKey<'_> {}

impl PartialOrd for HeaderKey<'_> {
    fn partial_cmp(&self, other: &Self) -> (r: Option<core::cmp::Ordering>) {
        Some(lex_cmp(self.as_str().as_bytes(), other.as_str().as_bytes()))
    }
}

impl vstd::std_specs::cmp::PartialOrdSpecImpl for HeaderKey<'_> {
    open spec fn obeys_partial_cmp_spec() -> bool {
        true
    }

    open spec fn partial_cmp_spec(&self, other: &Self) -> Option<core::cmp::Ordering> {
        Some(lex_order(self.spec_bytes(), other.spec_bytes()))
    }
}

} // verus!
