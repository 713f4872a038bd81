use std::convert::Infallible;
use vstd::prelude::*;

use crate::codec::{Decode, DecodingVec, Encode, EncodingVec, Fresh};

verus! {

/// Describes a raw byte slice, written as is.
///
/// This codec is final: it decodes every byte till the end, so it can only come last unless
/// it is wrapped in a [`crate::codec::SizedCodec`].
pub struct Bytes(());

impl<'a> Encode<'a> for Bytes {
    type Item = [u8];
    type Error = Infallible;

    open spec fn encoding(item: &[u8]) -> Option<Seq<u8>> {
        Some(item@)
    }

    fn encode(into: EncodingVec<Fresh>, item: &[u8]) -> (r: Result<EncodingVec<Fresh>, Infallible>)
        ensures
            r matches Ok(out) && out.bytes() == into.bytes() + item@,
    {
        let mut ret = into.edit();
        ret.extend_from_slice(item);
        Ok(ret.make_fresh())
    }
}

impl Decode for Bytes {
    type Item = Vec<u8>;
    type Error = Infallible;
    type Model = Seq<u8>;

    open spec fn model(item: &Vec<u8>) -> Seq<u8> {
        item@
    }

    open spec fn decoding(input: Seq<u8>) -> (Option<Seq<u8>>, nat) {
        (Some(input), input.len())
    }

    fn decode(bytes: &mut DecodingVec) -> (r: Result<Vec<u8>, Infallible>)
        ensures
            r matches Ok(v) && v@ == old(bytes)@,
            final(bytes)@.len() == 0,
    {
        Ok(bytes.consume())
    }
}

/// `Bytes` writes the slice as it is, and reads back every byte that is left, unchanged.
pub proof fn lemma_bytes_are_raw(item: &[u8], input: Seq<u8>)
    ensures
        Bytes::encoding(item) == Some(item@),
        <Bytes as Decode>::decoding(input) == (Some(input), input.len()),
{
}

} // verus!
