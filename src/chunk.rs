use vstd::prelude::*;

use crate::general::{CR, LF};

verus! {

/// The lowercase ASCII hex digit for a value below sixteen.
pub open spec fn hex_digit(d: nat) -> u8 {
    if d < 10 {
        (d + 48) as u8
    } else {
        (d + 87) as u8
    }
}

/// The lowercase hex digits of a number, most significant first, without
/// leading zeros.
pub open spec fn hex_bytes(n: nat) -> Seq<u8>
    decreases n,
{
    if n < 16 {
        seq![hex_digit(n)]
    } else {
        hex_bytes(n / 16).push(hex_digit(n % 16))
    }
}

/// Appends the lowercase hex digits of `n`.
fn push_hex(n: usize, buf: &mut Vec<u8>)
    ensures
        final(buf)@ == old(buf)@ + hex_bytes(n as nat),
    decreases n,
{
    if n >= 16 {
        push_hex(n / 16, buf);
    }
    let d: usize = n % 16;
    let digit: u8 = if d < 10 {
        (d + 48) as u8
    } else {
        (d + 87) as u8
    };
    buf.push(digit);
    assert(final(buf)@ =~= old(buf)@ + hex_bytes(n as nat));
}

/// A single HTTP-Chunk used for sending
/// Data with `Transfer-Encoding: Chunked`
#[derive(Debug, PartialEq)]
pub struct Chunk {
    size: usize,
    body: Vec<u8>,
}

impl Chunk {
    /// The size the chunk announces.
    pub closed spec fn spec_size(&self) -> nat {
        self.size as nat
    }

    /// The chunk's data.
    pub closed spec fn spec_body(&self) -> Seq<u8> {
        self.body@
    }

    /// The chunk on the wire: its size in hex, CRLF, the data, CRLF.
    pub open spec fn spec_bytes(&self) -> Seq<u8> {
        hex_bytes(self.spec_size()) + seq![CR, LF] + self.spec_body() + seq![CR, LF]
    }

    /// Creates a new Chunk with the given Data as its
    /// state
    pub fn new(size: usize, data: Vec<u8>) -> (r: Self)
        ensures
            r.spec_size() == size,
            r.spec_body() == data@,
    {
        Self { size, body: data }
    }

    /// Serializes the Chunk into the given Buffer
    /// by appending the final Data to the End of it
    pub fn serialize(&self, buf: &mut Vec<u8>)
        ensures
            final(buf)@ == old(buf)@ + self.spec_bytes(),
    {
        push_hex(self.size, buf);
        buf.push(CR);
        buf.push(LF);
        buf.extend_from_slice(self.body.as_slice());
        buf.push(CR);
        buf.push(LF);
        assert(final(buf)@ =~= old(buf)@ + self.spec_bytes());
    }

    /// The given Size of the Chunk
    pub fn size(&self) -> (r: usize)
        ensures
            r == self.spec_size(),
    {
        self.size
    }
}

} // verus!
