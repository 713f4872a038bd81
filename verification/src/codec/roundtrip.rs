use vstd::prelude::*;
use vstd::utf8::encode_utf8;

use crate::codec::{lemma_compose2_roundtrip, ComposeCodec, be_u32_bytes, be_u32_value, lemma_be_u32_roundtrip, size_field, Bytes, Decode, Encode, LazyDecode, SizedCodec, Str};

verus! {

/// Decoding exactly the encoding of `item` gives `m` and consumes every byte of it.
pub open spec fn roundtrips_alone<'a, C: Encode<'a> + Decode>(
    item: &<C as Encode<'a>>::Item,
    m: <C as Decode>::Model,
) -> bool {
    &&& C::encoding(item) is Some
    &&& C::decoding(C::encoding(item).unwrap()) == (Some(m), C::encoding(item).unwrap().len())
}

/// Whatever bytes follow the encoding of `item`, decoding gives `m` and consumes exactly the
/// encoding, leaving the bytes that follow to the next codec.
pub open spec fn roundtrips_before_anything<'a, C: Encode<'a> + Decode>(
    item: &<C as Encode<'a>>::Item,
    m: <C as Decode>::Model,
) -> bool {
    &&& C::encoding(item) is Some
    &&& forall|rest: Seq<u8>|
        #[trigger] C::decoding(C::encoding(item).unwrap() + rest) == (
            Some(m),
            C::encoding(item).unwrap().len(),
        )
}

/// A codec that recovers its item whatever follows the encoding also recovers it from the
/// encoding alone.
pub proof fn lemma_before_anything_implies_alone<'a, C: Encode<'a> + Decode>(
    item: &<C as Encode<'a>>::Item,
    m: <C as Decode>::Model,
)
    requires
        roundtrips_before_anything::<C>(item, m),
    ensures
        roundtrips_alone::<C>(item, m),
{
    let b = C::encoding(item).unwrap();
    assert(b + Seq::<u8>::empty() =~= b);
    assert(C::decoding(b + Seq::<u8>::empty()) == (Some(m), b.len()));
}

/// Raw bytes decode back to themselves.
pub proof fn lemma_bytes_roundtrip(item: &[u8])
    ensures
        roundtrips_alone::<Bytes>(item, item@),
{
}

/// A string decodes back to itself.
pub proof fn lemma_str_roundtrip(item: &str)
    ensures
        roundtrips_alone::<Str>(item, item@),
{
    vstd::utf8::encode_utf8_valid_utf8(item@);
    vstd::utf8::encode_utf8_decode_utf8(item@);
}

/// Whatever a codec recovers from its own encoding, the sized codec recovers from its
/// encoding followed by any bytes, and it consumes exactly its encoding: this is what lets a
/// final codec stand before another one. It needs the inner encoding to be shorter than 2^32
/// bytes, since the length is written on four bytes.
pub proof fn lemma_sized_roundtrip<'a, C: Encode<'a> + Decode>(
    item: &<C as Encode<'a>>::Item,
    m: <C as Decode>::Model,
)
    requires
        roundtrips_alone::<C>(item, m),
        C::encoding(item).unwrap().len() < 0x1_0000_0000,
    ensures
        roundtrips_before_anything::<SizedCodec<C>>(item, m),
{
    let b = C::encoding(item).unwrap();
    lemma_be_u32_roundtrip(size_field(b));
    assert forall|rest: Seq<u8>|
        #[trigger] SizedCodec::<C>::decoding(SizedCodec::<C>::encoding(item).unwrap() + rest) == (
            Some(m),
            SizedCodec::<C>::encoding(item).unwrap().len(),
        ) by {
        let input = SizedCodec::<C>::encoding(item).unwrap() + rest;
        let header = be_u32_bytes(size_field(b));
        assert(input =~= header + (b + rest));
        assert(be_u32_value(input) == be_u32_value(header));
        assert(input.subrange(4, 4 + b.len() as int) =~= b);
    }
}

/// A string framed by its length followed by raw bytes decodes back to the pair; the string's
/// UTF-8 encoding must be shorter than 2^32 bytes.
pub proof fn lemma_sized_str_then_bytes_roundtrip<'a>(text: &'a str, bytes: &'a [u8])
    requires
        encode_utf8(text@).len() < 0x1_0000_0000,
    ensures
        roundtrips_alone::<ComposeCodec<(SizedCodec<Str>, Bytes)>>(&(text, bytes), (text@, bytes@)),
{
    lemma_str_roundtrip(text);
    lemma_sized_roundtrip::<Str>(text, text@);
    lemma_bytes_roundtrip(bytes);
    lemma_compose2_roundtrip::<SizedCodec<Str>, Bytes>(&(text, bytes), text@, bytes@);
}

/// Deferring a decode changes nothing to its result: decoding lazily consumes every byte
/// that is left and keeps exactly those bytes, so forcing them later with `Lazy::decode`
/// gives what decoding the same bytes directly with `C` gives.
pub proof fn lemma_lazy_decode_defers<C: Decode + 'static>(input: Seq<u8>)
    ensures
        LazyDecode::<C>::decoding(input).1 == input.len(),
        LazyDecode::<C>::decoding(input).0 matches Some(kept) && C::decoding(kept).0 == C::decoding(input).0,
{
}

} // verus!
