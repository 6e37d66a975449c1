use vstd::prelude::*;
use vstd::std_specs::convert::FromSpec;

use crate::general::{caseless_eq, caseless_match};
use crate::header::{Header, HeaderKey, HeaderValue};

verus! {

/// A collection of Headers
#[derive(Debug, PartialEq)]
pub struct Headers<'a> {
    headers: Vec<Header<'a>>,
    max_value_length: usize,
}

impl<'a> View for Headers<'a> {
    type V = Seq<Header<'a>>;

    /// The headers, in the order in which they stand.
    closed spec fn view(&self) -> Seq<Header<'a>> {
        self.headers@
    }
}

/// Whether `i` is the first position whose key matches `key` without regard
/// to case.
pub open spec fn is_first_match<'a>(hs: Seq<Header<'a>>, key: Seq<char>, i: int) -> bool {
    &&& 0 <= i < hs.len()
    &&& caseless_match(hs[i].key@, key)
    &&& forall|j: int| 0 <= j < i ==> !caseless_match(#[trigger] hs[j].key@, key)
}

/// The first position whose key matches `key` without regard to case.
pub open spec fn find_key<'a>(hs: Seq<Header<'a>>, key: Seq<char>) -> Option<int> {
    if exists|i: int| is_first_match(hs, key, i) {
        Some(choose|i: int| is_first_match(hs, key, i))
    } else {
        None
    }
}

/// The headers without the first one whose key matches `key`.
pub open spec fn without_key<'a>(hs: Seq<Header<'a>>, key: Seq<char>) -> Seq<Header<'a>> {
    match find_key(hs, key) {
        Some(i) => hs.remove(i),
        None => hs,
    }
}

/// The header lines of a collection, one after the other.
pub open spec fn headers_bytes<'a>(hs: Seq<Header<'a>>) -> Seq<u8>
    decreases hs.len(),
{
    if hs.len() == 0 {
        Seq::empty()
    } else {
        headers_bytes(hs.drop_last()) + hs.last().spec_bytes()
    }
}

/// The larger of two lengths.
pub open spec fn max_nat(a: nat, b: nat) -> nat {
    if a >= b {
        a
    } else {
        b
    }
}

/// Two header sequences hold the same keys and values as text, in order.
pub open spec fn same_text<'a, 'b>(a: Seq<Header<'a>>, b: Seq<Header<'b>>) -> bool {
    &&& a.len() == b.len()
    &&& forall|i: int|
        0 <= i < a.len() ==> (#[trigger] a[i]).key@ == b[i].key@ && a[i].value@ == b[i].value@
}

proof fn lemma_first_match_unique<'a>(hs: Seq<Header<'a>>, key: Seq<char>, i: int, j: int)
    requires
        is_first_match(hs, key, i),
        is_first_match(hs, key, j),
    ensures
        i == j,
{
}

impl<'a> Headers<'a> {
    /// Every value fits in the recorded maximum size.
    #[verifier::type_invariant]
    spec fn values_fit(&self) -> bool {
        forall|i: int|
            0 <= i < self.headers@.len() ==> (#[trigger] self.headers@[i]).value.spec_bytes().len()
                <= self.max_value_length
    }

    /// The size in bytes of the largest value ever added.
    pub closed spec fn max_len(&self) -> nat {
        self.max_value_length as nat
    }

    /// Creates a new Headers-Instance, for performance reasons
    /// it is recommended to use the `with_capacity` method
    /// as that would avoid frequent reallocations
    pub fn new() -> (r: Self)
        ensures
            r@ == Seq::<Header<'a>>::empty(),
            r.max_len() == 0,
    {
        Self { headers: Vec::new(), max_value_length: 0 }
    }

    /// Creates the Headers-Object with the given Capacity
    /// prereserved for future Headers.
    /// This should be used when you already kind of know
    /// how many Headers this will hold, as it will avoid
    /// extra allocations in the future
    pub fn with_capacity(cap: usize) -> (r: Self)
        ensures
            r@ == Seq::<Header<'a>>::empty(),
            r.max_len() == 0,
    {
        Self { headers: Vec::with_capacity(cap), max_value_length: 0 }
    }

    /// The headers as a slice, in order.
    pub fn pairs(&self) -> (r: &[Header<'a>])
        ensures
            r@ == self@,
    {
        self.headers.as_slice()
    }

    fn push_header(&mut self, key: HeaderKey<'a>, value: HeaderValue<'a>)
        ensures
            final(self)@ == old(self)@.push((Header { key, value })),
            final(self).max_len() == max_nat(old(self).max_len(), value.spec_bytes().len()),
    {
        let (mut headers, mut max_value_length) = self.take_parts();
        let n_value_length = value.length();
        if n_value_length > max_value_length {
            max_value_length = n_value_length;
        }
        headers.push(Header { key, value });
        *self = Headers { headers, max_value_length };
    }

    /// Moves the fields out, leaving an empty collection behind.
    fn take_parts(&mut self) -> (r: (Vec<Header<'a>>, usize))
        ensures
            r.0@ == old(self)@,
            r.1 == old(self).max_len(),
            forall|i: int|
                0 <= i < r.0@.len() ==> (#[trigger] r.0@[i]).value.spec_bytes().len() <= r.1,
    {
        let mut taken = Headers::new();
        core::mem::swap(self, &mut taken);
        proof {
            use_type_invariant(&taken);
        }
        let Headers { headers, max_value_length } = taken;
        (headers, max_value_length)
    }

    fn remove_at(&mut self, index: usize)
        requires
            index < old(self)@.len(),
        ensures
            final(self)@ == old(self)@.remove(index as int),
            final(self).max_len() == old(self).max_len(),
    {
        let (mut headers, max_value_length) = self.take_parts();
        let ghost before = headers@;
        headers.remove(index);
        assert forall|i: int| 0 <= i < headers@.len() implies (
        #[trigger] headers@[i]).value.spec_bytes().len() <= max_value_length by {
            if i >= index {
                assert(headers@[i] == before[i + 1]);
            }
        }
        *self = Headers { headers, max_value_length };
    }

    /// Sets the Value of the of the Header for the given Key to
    /// the given Value
    ///
    /// ## Behaviour
    /// Checks if the Key is already present in the Collection and
    /// removes it if that is the case.
    /// Then adds the new Header to the End of the Collection
    pub fn set<K, V>(&mut self, key: K, value: V) where
        HeaderKey<'a>: From<K>,
        HeaderValue<'a>: From<V>,

        requires
            <HeaderKey<'a> as FromSpec<K>>::obeys_from_spec(),
            <HeaderValue<'a> as FromSpec<V>>::obeys_from_spec(),
        ensures
            final(self)@ == without_key(old(self)@, HeaderKey::<'a>::from_spec(key)@).push(
                (Header { key: HeaderKey::<'a>::from_spec(key), value: HeaderValue::<'a>::from_spec(value) }),
            ),
            final(self).max_len() == max_nat(
                old(self).max_len(),
                HeaderValue::<'a>::from_spec(value).spec_bytes().len(),
            ),
    {
        let final_key = HeaderKey::from(key);
        if let Some(index) = self.find(&final_key) {
            self.remove_at(index);
        }
        let n_value = HeaderValue::from(value);
        self.push_header(final_key, n_value);
    }

    /// Appends the given Key-Value Pair to the end of the
    /// Collection, without checking if the Key is already
    /// present in the Collection
    pub fn append<K, V>(&mut self, key: K, value: V) where
        HeaderKey<'a>: From<K>,
        HeaderValue<'a>: From<V>,

        requires
            <HeaderKey<'a> as FromSpec<K>>::obeys_from_spec(),
            <HeaderValue<'a> as FromSpec<V>>::obeys_from_spec(),
        ensures
            final(self)@ == old(self)@.push(
                (Header { key: HeaderKey::<'a>::from_spec(key), value: HeaderValue::<'a>::from_spec(value) }),
            ),
            final(self).max_len() == max_nat(
                old(self).max_len(),
                HeaderValue::<'a>::from_spec(value).spec_bytes().len(),
            ),
    {
        let n_value = HeaderValue::from(value);
        self.push_header(HeaderKey::from(key), n_value);
    }

    fn find(&self, key: &HeaderKey<'a>) -> (r: Option<usize>)
        ensures
            r matches Some(i) ==> find_key(self@, key@) == Some(i as int),
            r is None ==> find_key(self@, key@) is None,
    {
        let mut index: usize = 0;
        while index < self.headers.len()
            invariant
                0 <= index <= self@.len(),
                forall|j: int| 0 <= j < index ==> !caseless_match(#[trigger] self@[j].key@, key@),
            decreases self@.len() - index,
        {
            if caseless_eq(self.headers[index].key.as_str(), key.as_str()) {
                assert(is_first_match(self@, key@, index as int));
                proof {
                    let c = choose|i: int| is_first_match(self@, key@, i);
                    lemma_first_match_unique(self@, key@, index as int, c);
                }
                return Some(index);
            }
            index = index + 1;
        }
        None
    }

    /// Removes the first Header, that matches the given
    /// Key, from the Collection
    pub fn remove<K>(&mut self, key: K) where HeaderKey<'a>: From<K>
        requires
            <HeaderKey<'a> as FromSpec<K>>::obeys_from_spec(),
        ensures
            final(self)@ == without_key(old(self)@, HeaderKey::<'a>::from_spec(key)@),
            final(self).max_len() == old(self).max_len(),
    {
        let k = HeaderKey::from(key);
        if let Some(index) = self.find(&k) {
            self.remove_at(index);
        }
    }

    /// Searches the Collection for a Header that matches
    /// the given Key
    ///
    /// Returns:
    /// * None: if no Header matches the Key
    /// * A Reference to the underlying Header-Value that
    /// belongs to the Key
    pub fn get<K>(&self, key: K) -> (r: Option<&HeaderValue<'a>>) where HeaderKey<'a>: From<K>
        requires
            <HeaderKey<'a> as FromSpec<K>>::obeys_from_spec(),
        ensures
            r is Some <==> find_key(self@, HeaderKey::<'a>::from_spec(key)@) is Some,
            r matches Some(v) ==> *v == self@[find_key(
                self@,
                HeaderKey::<'a>::from_spec(key)@,
            )->0].value,
    {
        let k = HeaderKey::from(key);
        match self.find(&k) {
            Some(index) => Some(&self.headers[index].value),
            None => None,
        }
    }

    /// Serializes the Collection of Headers into the
    /// given Buffer by append to it
    pub fn serialize(&self, buf: &mut Vec<u8>)
        ensures
            final(buf)@ == old(buf)@ + headers_bytes(self@),
    {
        let mut i: usize = 0;
        while i < self.headers.len()
            invariant
                0 <= i <= self@.len(),
                buf@ == old(buf)@ + headers_bytes(self@.take(i as int)),
            decreases self@.len() - i,
        {
            self.headers[i].serialize(buf);
            assert(self@.take(i + 1).drop_last() =~= self@.take(i as int));
            assert(buf@ =~= old(buf)@ + headers_bytes(self@.take(i + 1)));
            i = i + 1;
        }
        assert(self@.take(i as int) =~= self@);
    }

    /// Returns the Size in bytes of the biggest Value as text.
    ///
    /// This means that all the Header-Values in this collection
    /// can fit in a buffer of this size.
    pub fn get_max_value_size(&self) -> (r: usize)
        ensures
            r == self.max_len(),
            forall|i: int| 0 <= i < self@.len() ==> (#[trigger] self@[i]).value.spec_bytes().len() <= r,
    {
        proof {
            use_type_invariant(self);
        }
        self.max_value_length
    }

    /// Returns the Number of Headers in this collection
    pub fn get_header_count(&self) -> (r: usize)
        ensures
            r == self@.len(),
    {
        self.headers.len()
    }

    /// Clones all the assosicated Data to produce a new and
    /// independant Header-Collection
    pub fn to_owned<'owned>(&self) -> (r: Headers<'owned>)
        ensures
            same_text(self@, r@),
            r.max_len() == self.max_len(),
    {
        proof {
            use_type_invariant(self);
        }
        let mut n_headers: Vec<Header<'owned>> = Vec::with_capacity(self.headers.len());
        let mut i: usize = 0;
        while i < self.headers.len()
            invariant
                0 <= i <= self@.len(),
                same_text(self@.take(i as int), n_headers@),
                forall|j: int|
                    0 <= j < self.headers@.len() ==> (#[trigger] self.headers@[j]).value.spec_bytes().len()
                        <= self.max_value_length,
            decreases self@.len() - i,
        {
            let tmp = &self.headers[i];
            n_headers.push(Header { key: tmp.key.to_owned(), value: tmp.value.to_owned() });
            i = i + 1;
        }
        assert(self@.take(i as int) =~= self@);
        assert forall|j: int| 0 <= j < n_headers@.len() implies (
        #[trigger] n_headers@[j]).value.spec_bytes().len() <= self.max_value_length by {
            assert(n_headers@[j].value@ == self@[j].value@);
        }
        Headers { headers: n_headers, max_value_length: self.max_value_length }
    }
}

impl<'a> Clone for Headers<'a> {
    fn clone(&self) -> (r: Self)
        ensures
            r@ == self@,
            r.max_len() == self.max_len(),
    {
        proof {
            use_type_invariant(self);
        }
        let mut n_headers: Vec<Header<'a>> = Vec::with_capacity(self.headers.len());
        let mut i: usize = 0;
        while i < self.headers.len()
            invariant
                0 <= i <= self@.len(),
                n_headers@ == self@.take(i as int),
            decreases self@.len() - i,
        {
            n_headers.push(self.headers[i].clone());
            assert(n_headers@ =~= self@.take(i + 1));
            i = i + 1;
        }
        assert(self@.take(i as int) =~= self@);
        Headers { headers: n_headers, max_value_length: self.max_value_length }
    }
}

impl<'a> Default for Headers<'a> {
    fn default() -> (r: Self)
        ensures
            r@ == Seq::<Header<'a>>::empty(),
            r.max_len() == 0,
    {
        Self::new()
    }
}

} // verus!
