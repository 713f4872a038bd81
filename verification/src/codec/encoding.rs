use std::marker::PhantomData;
use vstd::prelude::*;

use crate::codec::decoding::{min, DecodingVec};

verus! {

/// Define how to encode an object to the bytes that will be stored.
pub trait Encode<'a> {
    /// The type to encode.
    type Item: ?Sized + 'a;
    /// The error returned if the item can't be encoded.
    type Error;

    /// The bytes that encoding `item` appends, or `None` when encoding it fails. A codec that
    /// does not define it leaves it unknown.
    open spec fn encoding(item: &Self::Item) -> Option<Seq<u8>> {
        arbitrary()
    }

    /// Encode the given item into the specified `EncodingVec`.
    fn encode(into: EncodingVec<Fresh>, item: &Self::Item) -> (r: Result<EncodingVec<Fresh>, Self::Error>)
        ensures
            match r {
                Ok(out) => {
                    &&& Self::encoding(item) is Some
                    &&& out.is_fresh()
                    &&& out.bytes() == into.bytes() + Self::encoding(item).unwrap()
                },
                Err(_) => Self::encoding(item) is None,
            },
    ;

    /// Encode the given item in a newly allocated `EncodingVec`.
    fn encode_alloc(item: &Self::Item) -> (r: Result<EncodingVec<Fresh>, Self::Error>)
        ensures
            match r {
                Ok(out) => {
                    &&& Self::encoding(item) is Some
                    &&& out.is_fresh()
                    &&& out.bytes() == Self::encoding(item).unwrap()
                },
                Err(_) => Self::encoding(item) is None,
            },
    {
        proof {
            let e = Self::encoding(item).unwrap();
            assert(Seq::<u8>::empty() + e =~= e);
        }
        Self::encode(EncodingVec::new(), item)
    }
}

/// Marks an `EncodingVec` whose written region is empty and ready for a codec.
pub struct Fresh(());

/// Marks an `EncodingVec` that is being written to.
pub struct Dirty(());

pub struct EncodingVec<T> {
    pub(crate) vec: Vec<u8>,
    start_at: usize,
    marker: PhantomData<T>,
}

impl<T> EncodingVec<T> {
    /// Every byte held, including those written before the last `make_fresh`.
    pub closed spec fn bytes(&self) -> Seq<u8> {
        self.vec@
    }

    /// Where the region written since the last `make_fresh` starts.
    pub closed spec fn start(&self) -> nat {
        self.start_at as nat
    }

    /// The start of the written region lies within the bytes.
    pub open spec fn wf(&self) -> bool {
        self.start() <= self.bytes().len()
    }

    /// Nothing has been written since the last `make_fresh`.
    pub open spec fn is_fresh(&self) -> bool {
        self.start() == self.bytes().len()
    }

    /// The bytes written since the last `make_fresh`.
    pub open spec fn written(&self) -> Seq<u8> {
        self.bytes().skip(self.start() as int)
    }

    /// Returns every byte held.
    pub fn finish(self) -> (r: Vec<u8>)
        ensures
            r@ == self.bytes(),
    {
        self.vec
    }

    /// Every byte held: after an encode, the encoded bytes.
    pub fn as_slice(&self) -> (r: &[u8])
        ensures
            r@ == self.bytes(),
    {
        self.vec.as_slice()
    }

    /// The number of bytes written since the last `make_fresh`.
    pub fn len(&self) -> (r: usize)
        requires
            self.wf(),
        ensures
            r == self.written().len(),
    {
        self.vec.len() - self.start_at
    }

    /// Whether nothing was written since the last `make_fresh`.
    pub fn is_empty(self) -> (r: bool)
        requires
            self.wf(),
        ensures
            r == (self.written().len() == 0),
    {
        self.vec.len() == self.start_at
    }

    /// A decoder over every byte held.
    pub fn into_decoding_vec(self) -> (r: DecodingVec<'static>)
        ensures
            r@ == self.bytes(),
    {
        DecodingVec::new(self.vec)
    }

    /// The number of bytes held, counted from the very beginning.
    pub fn absolute_pos(&self) -> (r: usize)
        ensures
            r == self.bytes().len(),
    {
        self.vec.len()
    }

    /// Gives access to the bytes reserved by `save_space_for_later`.
    pub fn retrieve_space(&mut self, token: SpaceToken) -> (r: &mut [u8])
        requires
            token.pos() + token.size() <= old(self).bytes().len(),
        ensures
            r@ == old(self).bytes().subrange(token.pos() as int, (token.pos() + token.size()) as int),
            final(self).start() == old(self).start(),
            final(self).bytes() == old(self).bytes().subrange(0, token.pos() as int) + final(r)@
                + old(self).bytes().subrange((token.pos() + token.size()) as int, old(self).bytes().len() as int),
    {
        let whole = self.vec.as_mut_slice();
        let (_, rest) = whole.split_at_mut(token.pos);
        let (space, _) = rest.split_at_mut(token.size);
        space
    }
}

impl<T> core::ops::Deref for EncodingVec<T> {
    type Target = [u8];

    /// Every byte held, as `as_slice` gives them.
    fn deref(&self) -> (r: &[u8])
        ensures
            r@ == self.bytes(),
    {
        self.vec.as_slice()
    }
}

impl<T> AsRef<[u8]> for EncodingVec<T> {
    /// Every byte held, as `as_slice` gives them.
    fn as_ref(&self) -> (r: &[u8])
        ensures
            r@ == self.bytes(),
    {
        self.vec.as_slice()
    }
}

impl EncodingVec<Fresh> {
    /// Start writing: the bytes written from now on form the written region.
    pub fn edit(self) -> (r: EncodingVec<Dirty>)
        ensures
            r.bytes() == self.bytes(),
            r.start() == self.start(),
    {
        EncodingVec { vec: self.vec, start_at: self.start_at, marker: PhantomData }
    }

    /// An empty vector, ready for a codec.
    pub fn new() -> (r: Self)
        ensures
            r.bytes() == Seq::<u8>::empty(),
            r.start() == 0,
    {
        EncodingVec { vec: Vec::new(), start_at: 0, marker: PhantomData }
    }
}

/// Bytes reserved in an `EncodingVec`, to be filled in once their value is known.
pub struct SpaceToken {
    pos: usize,
    size: usize,
}

impl SpaceToken {
    /// Where the reserved bytes start.
    pub closed spec fn pos(&self) -> nat {
        self.pos as nat
    }

    /// How many bytes are reserved.
    pub closed spec fn size(&self) -> nat {
        self.size as nat
    }
}

impl EncodingVec<Dirty> {
    pub fn push(&mut self, byte: u8)
        ensures
            old(self).wf() ==> final(self).wf(),
            final(self).bytes() == old(self).bytes().push(byte),
            final(self).start() == old(self).start(),
    {
        self.vec.push(byte);
    }

    pub fn append(&mut self, other: Vec<u8>)
        ensures
            old(self).wf() ==> final(self).wf(),
            final(self).bytes() == old(self).bytes() + other@,
            final(self).start() == old(self).start(),
    {
        let mut other = other;
        self.vec.append(&mut other)
    }

    /// Appends every byte of `bytes`.
    pub fn extend_from_slice(&mut self, bytes: &[u8])
        ensures
            old(self).wf() ==> final(self).wf(),
            final(self).bytes() == old(self).bytes() + bytes@,
            final(self).start() == old(self).start(),
    {
        let mut i: usize = 0;
        while i < bytes.len()
            invariant
                i <= bytes@.len(),
                self.start() == old(self).start(),
                self.bytes() == old(self).bytes() + bytes@.take(i as int),
            decreases bytes@.len() - i,
        {
            self.vec.push(bytes[i]);
            proof {
                assert(bytes@.take(i + 1) =~= bytes@.take(i as int).push(bytes@[i as int]));
            }
            i = i + 1;
        }
        proof {
            assert(bytes@.take(i as int) =~= bytes@);
        }
    }

    /// Inserts `element` at `index` within the written region.
    pub fn insert(&mut self, index: usize, element: u8)
        requires
            old(self).wf(),
            index <= old(self).written().len(),
        ensures
            final(self).wf(),
            final(self).bytes() == old(self).bytes().insert(old(self).start() + index, element),
            final(self).start() == old(self).start(),
    {
        // The length of a `Vec` fits in a `usize`, so the position below cannot overflow.
        let held = self.vec.len();
        assert(index + self.start_at <= held);
        self.vec.insert(index + self.start_at, element)
    }

    /// Removes and returns the byte at `index` within the written region.
    pub fn remove(&mut self, index: usize) -> (r: u8)
        requires
            old(self).wf(),
            index < old(self).written().len(),
        ensures
            final(self).wf(),
            r == old(self).written()[index as int],
            final(self).bytes() == old(self).bytes().remove(old(self).start() + index),
            final(self).start() == old(self).start(),
    {
        // The length of a `Vec` fits in a `usize`, so the position below cannot overflow.
        let held = self.vec.len();
        assert(index + self.start_at < held);
        self.vec.remove(index + self.start_at)
    }

    /// Appends `size` copies of `fill_with` and returns a token to overwrite them later.
    pub fn save_space_for_later(&mut self, size: usize, fill_with: u8) -> (r: SpaceToken)
        ensures
            old(self).wf() ==> final(self).wf(),
            final(self).bytes() == old(self).bytes() + Seq::new(size as nat, |_i: int| fill_with),
            final(self).start() == old(self).start(),
            r.pos() == old(self).bytes().len(),
            r.size() == size,
    {
        let pos = self.vec.len();
        let mut i: usize = 0;
        while i < size
            invariant
                i <= size,
                pos == old(self).bytes().len(),
                self.start() == old(self).start(),
                self.bytes() == old(self).bytes() + Seq::new(i as nat, |_i: int| fill_with),
            decreases size - i,
        {
            self.vec.push(fill_with);
            proof {
                assert(old(self).bytes() + Seq::new((i + 1) as nat, |_i: int| fill_with) =~= (
                old(self).bytes() + Seq::new(i as nat, |_i: int| fill_with)).push(fill_with));
            }
            i = i + 1;
        }
        SpaceToken { pos, size }
    }

    /// Changes nothing to the bytes held.
    pub fn reserve(&mut self, additional: usize)
        ensures
            old(self).wf() ==> final(self).wf(),
            final(self).bytes() == old(self).bytes(),
            final(self).start() == old(self).start(),
    {
        self.vec.reserve(additional)
    }

    /// Drops the written region.
    pub fn clear(&mut self)
        requires
            old(self).wf(),
        ensures
            final(self).wf(),
            final(self).bytes() == old(self).bytes().take(old(self).start() as int),
            final(self).start() == old(self).start(),
    {
        self.vec.truncate(self.start_at)
    }

    pub fn resize(&mut self, new_len: usize, value: u8)
        requires
            old(self).wf(),
        ensures
            final(self).wf(),
            final(self).start() == old(self).start(),
            ({
                let target = old(self).start() + resize_growth(new_len as int, old(self).bytes().len() as int);
                &&& target <= old(self).bytes().len() ==> final(self).bytes() == old(self).bytes().take(target)
                &&& target > old(self).bytes().len() ==> final(self).bytes() == old(self).bytes()
                    + Seq::new((target - old(self).bytes().len()) as nat, |_i: int| value)
            }),
            new_len > old(self).bytes().len() ==> final(self).bytes().len() == old(self).start() + new_len
                - old(self).bytes().len(),
            new_len > old(self).bytes().len() ==> final(self).bytes().take(
                min(old(self).bytes().len() as int, old(self).start() + new_len - old(self).bytes().len()),
            ) == old(self).bytes().take(
                min(old(self).bytes().len() as int, old(self).start() + new_len - old(self).bytes().len()),
            ),
            forall|i: int|
                old(self).bytes().len() <= i < final(self).bytes().len() ==> #[trigger] final(self).bytes()[i]
                    == value,
            new_len <= old(self).bytes().len() ==> final(self).bytes() == old(self).bytes().take(
                old(self).start() as int,
            ),
    {
        let len = new_len.saturating_sub(self.vec.len());
        let target = self.start_at + len;
        if target <= self.vec.len() {
            self.vec.truncate(target);
        } else {
            let extra = target - self.vec.len();
            self.save_space_for_later(extra, value);
        }
    }

    /// Removes and returns the last byte of the written region, if there is one.
    pub fn pop(&mut self) -> (r: Option<u8>)
        requires
            old(self).wf(),
        ensures
            final(self).wf(),
            final(self).start() == old(self).start(),
            old(self).written().len() > 0 ==> r == Some(old(self).bytes().last())
                && final(self).bytes() == old(self).bytes().drop_last(),
            old(self).written().len() == 0 ==> r is None && final(self).bytes() == old(self).bytes(),
    {
        if self.vec.len() > self.start_at {
            self.vec.pop()
        } else {
            None
        }
    }

    /// Ends the written region: whatever comes next is written after every byte held.
    pub fn make_fresh(self) -> (r: EncodingVec<Fresh>)
        ensures
            r.bytes() == self.bytes(),
            r.is_fresh(),
    {
        EncodingVec { start_at: self.vec.len(), vec: self.vec, marker: PhantomData }
    }
}

/// A space token stays usable while the vector only grows: when `token` designates bytes
/// within the bytes of `before` and `after` holds those bytes as its prefix (as after any
/// `push`, `append`, `extend_from_slice`, `save_space_for_later`, `edit` or `make_fresh`),
/// `token` designates the same bytes within `after`, so `retrieve_space` may be called on it.
pub proof fn lemma_space_token_survives_growth<A, B>(
    token: SpaceToken,
    before: EncodingVec<A>,
    after: EncodingVec<B>,
)
    requires
        token.pos() + token.size() <= before.bytes().len(),
        before.bytes().is_prefix_of(after.bytes()),
    ensures
        token.pos() + token.size() <= after.bytes().len(),
        after.bytes().subrange(token.pos() as int, (token.pos() + token.size()) as int)
            == before.bytes().subrange(token.pos() as int, (token.pos() + token.size()) as int),
{
    assert(after.bytes().subrange(token.pos() as int, (token.pos() + token.size()) as int)
        =~= before.bytes().subrange(token.pos() as int, (token.pos() + token.size()) as int));
}

/// How much `resize` grows the written region: the amount by which `new_len` exceeds `len`.
pub open spec fn resize_growth(new_len: int, len: int) -> int {
    if new_len > len { new_len - len } else { 0 }
}

} // verus!
