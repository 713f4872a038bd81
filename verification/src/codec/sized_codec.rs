use byteorder::ByteOrder;
use std::marker::PhantomData;
use vstd::prelude::*;

use crate::codec::{min, Decode, DecodingVec, Encode, EncodingVec, Fresh};

verus! {

/// The four big-endian bytes of `n`.
pub open spec fn be_u32_bytes(n: u32) -> Seq<u8> {
    seq![
        (n / 0x100_0000) as u8,
        (n / 0x1_0000 % 0x100) as u8,
        (n / 0x100 % 0x100) as u8,
        (n % 0x100) as u8,
    ]
}

/// The integer whose big-endian representation is the first four of `bytes`.
pub open spec fn be_u32_value(bytes: Seq<u8>) -> u32 {
    (bytes[0] * 0x100_0000 + bytes[1] * 0x1_0000 + bytes[2] * 0x100 + bytes[3]) as u32
}

/// Reading back the four big-endian bytes of `n` gives `n`.
pub proof fn lemma_be_u32_roundtrip(n: u32)
    ensures
        be_u32_bytes(n).len() == 4,
        be_u32_value(be_u32_bytes(n)) == n,
{
}

/// The header is the standard big-endian representation of `n`: most significant byte first,
/// as `n.to_be_bytes()` gives it.
pub proof fn lemma_be_u32_bytes_are_big_endian(n: u32)
    ensures
        be_u32_bytes(n) == seq![(n >> 24) as u8, (n >> 16) as u8, (n >> 8) as u8, n as u8],
{
    assert((n / 0x100_0000) as u8 == (n >> 24) as u8) by (bit_vector);
    assert((n / 0x1_0000 % 0x100) as u8 == (n >> 16) as u8) by (bit_vector);
    assert((n / 0x100 % 0x100) as u8 == (n >> 8) as u8) by (bit_vector);
    assert((n % 0x100) as u8 == n as u8) by (bit_vector);
    assert(be_u32_bytes(n) =~= seq![(n >> 24) as u8, (n >> 16) as u8, (n >> 8) as u8, n as u8]);
}

/// Reading a header takes its first byte as the most significant one, as
/// `u32::from_be_bytes` does.
pub proof fn lemma_be_u32_value_is_big_endian(bytes: Seq<u8>)
    requires
        bytes.len() >= 4,
    ensures
        be_u32_value(bytes) == ((bytes[0] as u32) << 24) | ((bytes[1] as u32) << 16) | ((bytes[2] as u32) << 8)
            | (bytes[3] as u32),
{
    let (b0, b1, b2, b3) = (bytes[0], bytes[1], bytes[2], bytes[3]);
    assert(((b0 * 0x100_0000 + b1 * 0x1_0000 + b2 * 0x100 + b3) as u32) == ((b0 as u32) << 24) | ((b1 as u32)
        << 16) | ((b2 as u32) << 8) | (b3 as u32)) by (bit_vector);
}

/// `byteorder::BigEndian::write_u32`: overwrites the first four bytes of `buf` with the
/// big-endian bytes of `n` and leaves the rest as it was; it panics on a shorter `buf`.
#[verifier::external_body]
fn write_u32_big_endian(buf: &mut [u8], n: u32)
    requires
        old(buf)@.len() >= 4,
    ensures
        final(buf)@ == be_u32_bytes(n) + old(buf)@.skip(4),
{
    byteorder::BigEndian::write_u32(buf, n)
}

/// The integer whose big-endian representation is `bytes`.
fn u32_from_be_bytes(bytes: [u8; 4]) -> (r: u32)
    ensures
        r == be_u32_value(bytes@),
{
    (bytes[0] as u32) * 0x100_0000 + (bytes[1] as u32) * 0x1_0000 + (bytes[2] as u32) * 0x100 + bytes[3] as u32
}

/// Prefixes the encoding of `C` with its length, as a big-endian `u32`, so that a final codec
/// can be followed by other codecs.
pub struct SizedCodec<C>(PhantomData<C>);

/// The length of `b` as written by [`SizedCodec`]: reduced modulo 2^32.
pub open spec fn size_field(b: Seq<u8>) -> u32 {
    (b.len() % 0x1_0000_0000) as u32
}

impl<'a, C: Encode<'a>> Encode<'a> for SizedCodec<C> {
    type Item = C::Item;
    type Error = C::Error;

    open spec fn encoding(item: &C::Item) -> Option<Seq<u8>> {
        match C::encoding(item) {
            Some(b) => Some(be_u32_bytes(size_field(b)) + b),
            None => None,
        }
    }

    fn encode(into: EncodingVec<Fresh>, item: &C::Item) -> (r: Result<EncodingVec<Fresh>, C::Error>) {
        let mut ret = into.edit();
        let token = ret.save_space_for_later(4, 0);
        let pos = ret.absolute_pos();
        let mut ret = C::encode(ret.make_fresh(), item)?;
        let size = ret.absolute_pos() - pos;
        let bytes = ret.retrieve_space(token);
        let ghost b = C::encoding(item).unwrap();
        let size64 = size as u64;
        assert((size64 as u32) == (size64 % 0x1_0000_0000) as u32) by (bit_vector);
        write_u32_big_endian(bytes, #[verifier::truncate] (size64 as u32));
        proof {
            assert(size == b.len());
            assert(ret.bytes() =~= into.bytes() + (be_u32_bytes(size_field(b)) + b));
        }
        Ok(ret)
    }
}

/// Why [`SizedCodec`] could not decode.
#[derive(Debug)]
pub enum SizedCodecError<E> {
    /// Fewer than four bytes were left to read the size from.
    TooSmall,
    /// The inner codec failed.
    Other(E),
}

impl<C: Decode> Decode for SizedCodec<C> {
    type Item = C::Item;
    type Error = SizedCodecError<C::Error>;
    type Model = C::Model;

    open spec fn model(item: &C::Item) -> C::Model {
        C::model(item)
    }

    open spec fn decoding(input: Seq<u8>) -> (Option<C::Model>, nat) {
        if input.len() < 4 {
            (None, input.len())
        } else {
            let size = min(be_u32_value(input) as int, input.len() - 4);
            (C::decoding(input.subrange(4, 4 + size)).0, (4 + size) as nat)
        }
    }

    fn decode(bytes: &mut DecodingVec) -> (r: Result<C::Item, SizedCodecError<C::Error>>)
        ensures
            r matches Err(SizedCodecError::TooSmall) <==> old(bytes)@.len() < 4,
            old(bytes)@.len() < 4 ==> final(bytes)@.len() == 0,
            old(bytes)@.len() >= 4 ==> final(bytes)@ == old(bytes)@.skip(
                4 + min(be_u32_value(old(bytes)@) as int, old(bytes)@.len() - 4),
            ),
    {
        let mut size_bytes = [0u8; 4];
        let n = bytes.read(&mut size_bytes);
        if n < 4 {
            return Err(SizedCodecError::TooSmall);
        }
        let size = u32_from_be_bytes(size_bytes);
        let ghost input = old(bytes)@;
        proof {
            assert(size_bytes@ =~= input.take(4));
            assert(size == be_u32_value(input));
        }
        let mut sub = bytes.take_next(size as usize);
        proof {
            let k = min(size as int, input.len() - 4);
            assert(sub@ =~= input.subrange(4, 4 + k));
        }
        let res = match C::decode(&mut sub) {
            Ok(v) => Ok(v),
            Err(e) => Err(SizedCodecError::Other(e)),
        };
        proof {
            let k = min(size as int, input.len() - 4);
            assert(bytes@ =~= input.skip(4 + k));
        }
        res
    }
}

/// Decoding moves past the whole frame that the header announces (or every byte that is
/// left, if fewer), however many of them the inner codec reads: the next codec starts right
/// after the frame. Fewer than four bytes fail and are all consumed.
pub proof fn lemma_sized_skips_the_frame<C: Decode>(input: Seq<u8>)
    ensures
        input.len() < 4 ==> SizedCodec::<C>::decoding(input) == (None::<C::Model>, input.len()),
        input.len() >= 4 ==> SizedCodec::<C>::decoding(input).1 == 4 + min(
            be_u32_value(input) as int,
            input.len() - 4,
        ),
        input.len() >= 4 ==> SizedCodec::<C>::decoding(input).0 == C::decoding(
            input.subrange(4, 4 + min(be_u32_value(input) as int, input.len() - 4)),
        ).0,
{
}

/// A frame written with its big-endian length in front decodes with the inner codec applied
/// to exactly that frame, and decoding ends right after the frame, whatever follows it.
pub proof fn lemma_sized_reads_one_frame<C: Decode>(frame: Seq<u8>, rest: Seq<u8>)
    requires
        frame.len() < 0x1_0000_0000,
    ensures
        SizedCodec::<C>::decoding(be_u32_bytes(frame.len() as u32) + frame + rest) == (
            C::decoding(frame).0,
            4 + frame.len(),
        ),
{
    lemma_be_u32_roundtrip(frame.len() as u32);
    let input = be_u32_bytes(frame.len() as u32) + frame + rest;
    assert(be_u32_value(input) == be_u32_value(be_u32_bytes(frame.len() as u32)));
    assert(input.subrange(4, 4 + frame.len() as int) =~= frame);
}

} // verus!
