use vstd::prelude::*;
use vstd::string::StringSliceAdditionalSpecFns;

use crate::general::{COLON, CR, LF, SP};

mod key;
pub use key::HeaderKey;
mod value;
pub use value::HeaderValue;

verus! {

/// A single HTTP-Header Pair(Key-Value)
#[derive(Debug)]
pub struct Header<'a> {
    /// The Key part of the Header
    pub key: HeaderKey<'a>,
    /// The Value assosicated with the Header
    pub value: HeaderValue<'a>,
}

impl<'a> Header<'a> {
    /// The header's line on the wire: `Key: Value` and a CRLF.
    pub open spec fn spec_bytes(&self) -> Seq<u8> {
        self.key.spec_bytes() + seq![COLON, SP] + self.value.spec_bytes() + seq![CR, LF]
    }

    /// Serializes the Header into the given Buffer
    /// by appending the final Data to the End of it
    pub fn serialize(&self, buf: &mut Vec<u8>)
        ensures
            final(buf)@ == old(buf)@ + self.spec_bytes(),
    {
        self.key.serialize(buf);
        buf.push(COLON);
        buf.push(SP);
        self.value.serialize(buf);
        buf.push(CR);
        buf.push(LF);
        assert(final(buf)@ =~= old(buf)@ + self.spec_bytes());
    }
}

impl<'a> Clone for Header<'a> {
    fn clone(&self) -> (r: Self)
        ensures
            r == *self,
    {
        Header { key: self.key.clone(), value: self.value.clone() }
    }
}

impl PartialEq for Header<'_> {
    fn eq(&self, other: &Self) -> (r: bool) {
        self.key.eq(&other.key)
    }
}

impl vstd::std_specs::cmp::PartialEqSpecImpl for Header<'_> {
    open spec fn obeys_eq_spec() -> bool {
        true
    }

    /// Two headers are equal when their keys match without regard to case.
    open spec fn eq_spec(&self, other: &Self) -> bool {
        crate::general::caseless_match(self.key@, other.key@)
    }
}

} // verus!
