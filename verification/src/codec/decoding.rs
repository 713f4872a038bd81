use vstd::prelude::*;

verus! {

/// Define how to decode an object from stored bytes.
///
/// A decoder must not read more bytes than the item needs, otherwise it eats the bytes of
/// the codec that comes after it.
pub trait Decode {
    /// The type to decode.
    type Item;
    /// The error returned if the bytes can't be decoded.
    type Error;
    /// The abstract value that a decoded item stands for.
    type Model;

    /// The abstract value of a decoded item. A codec that does not define it leaves it unknown.
    open spec fn model(item: &Self::Item) -> Self::Model {
        arbitrary()
    }

    /// What decoding `input` gives (the model of the item, or `None` when decoding fails)
    /// and how many bytes of `input` it consumes, whether it succeeds or fails. A codec that
    /// does not define it leaves it unknown.
    open spec fn decoding(input: Seq<u8>) -> (Option<Self::Model>, nat) {
        arbitrary()
    }

    /// Decode an item from the front of `bytes`, consuming the bytes it reads.
    fn decode(bytes: &mut DecodingVec) -> (r: Result<Self::Item, Self::Error>)
        ensures
            Self::decoding(old(bytes)@).1 <= old(bytes)@.len(),
            final(bytes)@ == old(bytes)@.skip(Self::decoding(old(bytes)@).1 as int),
            match r {
                Ok(item) => Self::decoding(old(bytes)@).0 == Some(Self::model(&item)),
                Err(_) => Self::decoding(old(bytes)@).0 is None,
            },
    ;
}

/// Decodes a value that the store may or may not hold: no value gives `Ok(None)`, and held
/// bytes give what `V` decodes from them.
pub fn decode_stored<V: Decode>(stored: Option<Vec<u8>>) -> (r: Result<Option<V::Item>, V::Error>)
    ensures
        match stored {
            None => r matches Ok(None),
            Some(bytes) => match r {
                Ok(Some(item)) => V::decoding(bytes@).0 == Some(V::model(&item)),
                Ok(None) => false,
                Err(_) => V::decoding(bytes@).0 is None,
            },
        },
{
    match stored {
        Some(bytes) => match V::decode(&mut DecodingVec::new(bytes)) {
            Ok(item) => Ok(Some(item)),
            Err(e) => Err(e),
        },
        None => Ok(None),
    }
}

enum Source<'a> {
    Borrowed(&'a [u8]),
    Owned(Vec<u8>),
}

/// A cursor over bytes to decode; its view is the bytes that are left to read.
pub struct DecodingVec<'a> {
    data: Source<'a>,
    pos: usize,
}

impl<'a> View for DecodingVec<'a> {
    type V = Seq<u8>;

    closed spec fn view(&self) -> Seq<u8> {
        self.all().skip(self.pos as int)
    }
}

/// The smaller of two integers.
pub open spec fn min(a: int, b: int) -> int {
    if a <= b { a } else { b }
}

impl<'a> DecodingVec<'a> {
    closed spec fn all(&self) -> Seq<u8> {
        match self.data {
            Source::Borrowed(s) => s@,
            Source::Owned(v) => v@,
        }
    }

    #[verifier::type_invariant]
    closed spec fn inv(&self) -> bool {
        self.pos <= self.all().len()
    }

    fn all_slice(&self) -> (r: &[u8])
        ensures
            r@ == self.all(),
    {
        match &self.data {
            Source::Borrowed(s) => s,
            Source::Owned(v) => v.as_slice(),
        }
    }

    /// A decoder over the bytes of `vec`.
    pub fn new(vec: Vec<u8>) -> (r: Self)
        ensures
            r@ == vec@,
    {
        let r = DecodingVec { data: Source::Owned(vec), pos: 0 };
        assert(r@ =~= vec@);
        r
    }

    /// Splits off the next `size` bytes (or all that are left, if fewer) as a decoder of their
    /// own, to be handed to another codec.
    pub fn take_next<'b>(&'b mut self, size: usize) -> (r: DecodingVec<'b>)
        ensures
            r@ == old(self)@.take(min(size as int, old(self)@.len() as int)),
            final(self)@ == old(self)@.skip(min(size as int, old(self)@.len() as int)),
    {
        proof {
            use_type_invariant(&*self);
        }
        let current_pos = self.pos;
        let len = self.all_slice().len();
        let take_until = if size <= len - current_pos {
            current_pos + size
        } else {
            len
        };
        self.pos = take_until;
        let this: &'b DecodingVec<'a> = self;
        let all = this.all_slice();
        let data = &all[current_pos..take_until];
        let r = DecodingVec { data: Source::Borrowed(data), pos: 0 };
        proof {
            assert(r@ =~= old(self)@.take(min(size as int, old(self)@.len() as int)));
            assert(this@ =~= old(self)@.skip(min(size as int, old(self)@.len() as int)));
        }
        r
    }

    /// Whether every byte has been read.
    pub fn is_empty(&self) -> (r: bool)
        ensures
            r == (self@.len() == 0),
    {
        proof {
            use_type_invariant(self);
        }
        self.all_slice().len() == self.pos
    }

    /// Takes every byte that is left, leaving the decoder empty.
    pub fn consume(&mut self) -> (r: Vec<u8>)
        ensures
            r@ == old(self)@,
            final(self)@ == Seq::<u8>::empty(),
    {
        let mut taken = DecodingVec::new(Vec::new());
        std::mem::swap(self, &mut taken);
        proof {
            use_type_invariant(&taken);
        }
        let pos = taken.pos;
        match taken.data {
            Source::Borrowed(slice) => {
                let (_, tail) = slice.split_at(pos);
                vstd::slice::slice_to_vec(tail)
            },
            Source::Owned(vec) => {
                let mut vec = vec;
                vec.split_off(pos)
            },
        }
    }

    /// Copies the next bytes into `buf`, as many as fit and are left, and returns their number.
    pub fn read(&mut self, buf: &mut [u8]) -> (r: usize)
        ensures
            r == min(old(buf)@.len() as int, old(self)@.len() as int),
            final(buf)@ == old(self)@.take(r as int) + old(buf)@.skip(r as int),
            final(self)@ == old(self)@.skip(r as int),
    {
        proof {
            use_type_invariant(&*self);
        }
        let all = self.all_slice();
        let pos = self.pos;
        let all_len = all.len();
        let left = all_len - pos;
        let n = if buf.len() <= left {
            buf.len()
        } else {
            left
        };
        let mut i: usize = 0;
        while i < n
            invariant
                i <= n,
                n <= buf@.len(),
                pos + n <= all_len,
                all_len == all@.len(),
                buf@.len() == old(buf)@.len(),
                buf@ == all@.subrange(pos as int, pos + i) + old(buf)@.skip(i as int),
            decreases n - i,
        {
            buf[i] = all[pos + i];
            proof {
                assert(buf@ =~= all@.subrange(pos as int, pos + i + 1) + old(buf)@.skip(i + 1));
            }
            i = i + 1;
        }
        self.pos = pos + n;
        proof {
            assert(old(self)@.take(n as int) =~= all@.subrange(pos as int, pos + n));
            assert(self@ =~= old(self)@.skip(n as int));
        }
        n
    }
}

} // verus!
