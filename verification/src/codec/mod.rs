//! Types that serialize and deserialize the keys and values of a keyspace.
mod bytes;
mod compose_codec;
mod decoding;
mod encoding;
mod ignore;
mod lazy;
mod roundtrip;
mod sized_codec;
mod str;

pub use bytes::{lemma_bytes_are_raw, Bytes};
pub use compose_codec::{ComposeCodec, ComposeCodecError1, lemma_compose1_roundtrip, lemma_compose1_roundtrip_before_anything, ComposeCodecError2, lemma_compose2_roundtrip, lemma_compose2_roundtrip_before_anything, ComposeCodecError3, lemma_compose3_roundtrip, lemma_compose3_roundtrip_before_anything, ComposeCodecError4, lemma_compose4_roundtrip, lemma_compose4_roundtrip_before_anything, ComposeCodecError5, lemma_compose5_roundtrip, lemma_compose5_roundtrip_before_anything, ComposeCodecError6, lemma_compose6_roundtrip, lemma_compose6_roundtrip_before_anything, ComposeCodecError7, lemma_compose7_roundtrip, lemma_compose7_roundtrip_before_anything, ComposeCodecError8, lemma_compose8_roundtrip, lemma_compose8_roundtrip_before_anything, ComposeCodecError9, lemma_compose9_roundtrip, lemma_compose9_roundtrip_before_anything, ComposeCodecError10, lemma_compose10_roundtrip, lemma_compose10_roundtrip_before_anything, ComposeCodecError11, lemma_compose11_roundtrip, lemma_compose11_roundtrip_before_anything, ComposeCodecError12, lemma_compose12_roundtrip, lemma_compose12_roundtrip_before_anything, ComposeCodecError13, lemma_compose13_roundtrip, lemma_compose13_roundtrip_before_anything, ComposeCodecError14, lemma_compose14_roundtrip, lemma_compose14_roundtrip_before_anything, ComposeCodecError15, lemma_compose15_roundtrip, lemma_compose15_roundtrip_before_anything, ComposeCodecError16, lemma_compose16_roundtrip, lemma_compose16_roundtrip_before_anything, ComposeCodecError17, lemma_compose17_roundtrip, lemma_compose17_roundtrip_before_anything, ComposeCodecError18, lemma_compose18_roundtrip, lemma_compose18_roundtrip_before_anything, ComposeCodecError19, lemma_compose19_roundtrip, lemma_compose19_roundtrip_before_anything};
pub use decoding::{decode_stored, min, Decode, DecodingVec};
pub use encoding::{lemma_space_token_survives_growth, resize_growth, Dirty, Encode, EncodingVec, Fresh, SpaceToken};
pub use ignore::{DecodeIgnore, Unspecified};
pub use lazy::{Lazy, LazyDecode};
pub use roundtrip::{lemma_before_anything_implies_alone, lemma_bytes_roundtrip, lemma_lazy_decode_defers, lemma_sized_str_then_bytes_roundtrip, lemma_sized_roundtrip, lemma_str_roundtrip, roundtrips_alone, roundtrips_before_anything};
pub use sized_codec::{be_u32_bytes, be_u32_value, lemma_be_u32_bytes_are_big_endian, lemma_be_u32_roundtrip, lemma_be_u32_value_is_big_endian, lemma_sized_reads_one_frame, lemma_sized_skips_the_frame, size_field, SizedCodec, SizedCodecError};
pub use str::{lemma_str_is_raw_utf8, Str};
