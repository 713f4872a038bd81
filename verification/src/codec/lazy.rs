use std::convert::Infallible;
use std::marker::PhantomData;
use vstd::prelude::*;

use crate::codec::{Decode, DecodingVec};

verus! {

/// Lazily decodes the data bytes.
///
/// It can be used to avoid CPU-intensive decoding before making sure that it actually needs
/// to be decoded (e.g. based on the key).
#[derive(Default)]
pub struct LazyDecode<C>(PhantomData<C>);

impl<C: 'static> Decode for LazyDecode<C> {
    type Item = Lazy<C>;
    type Error = Infallible;
    type Model = Seq<u8>;

    open spec fn model(item: &Lazy<C>) -> Seq<u8> {
        item.bytes()
    }

    open spec fn decoding(input: Seq<u8>) -> (Option<Seq<u8>>, nat) {
        (Some(input), input.len())
    }

    fn decode(bytes: &mut DecodingVec) -> (r: Result<Lazy<C>, Infallible>) {
        Ok(Lazy(bytes.consume(), PhantomData))
    }
}

/// Owns bytes that can be decoded on demand.
#[derive(Debug)]
pub struct Lazy<C>(Vec<u8>, PhantomData<C>);

impl<C> Clone for Lazy<C> {
    fn clone(&self) -> (r: Self)
        ensures
            r.bytes() == self.bytes(),
    {
        Lazy(self.0.clone(), PhantomData)
    }
}

impl<C> Lazy<C> {
    /// The bytes waiting to be decoded.
    pub closed spec fn bytes(&self) -> Seq<u8> {
        self.0@
    }

    /// Change the codec type of the given bytes, specifying the new codec.
    pub fn remap<NC>(self) -> (r: Lazy<NC>)
        ensures
            r.bytes() == self.bytes(),
    {
        Lazy(self.0, PhantomData)
    }
}

impl<C: Decode> Lazy<C> {
    /// Decode the given bytes according to the codec.
    pub fn decode(self) -> (r: Result<C::Item, C::Error>)
        ensures
            match r {
                Ok(item) => C::decoding(self.bytes()).0 == Some(C::model(&item)),
                Err(_) => C::decoding(self.bytes()).0 is None,
            },
    {
        C::decode(&mut DecodingVec::new(self.0))
    }
}

} // verus!
