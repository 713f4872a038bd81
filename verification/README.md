# fiole

Typed keys and values for the fjall key-value store, through codecs.

- `src/` is the verified library: the byte buffers that codecs write to (`EncodingVec`) and
  read from (`DecodingVec`), the `Encode` and `Decode` traits, and the codecs `Bytes`, `Str`,
  `SizedCodec`, `ComposeCodec` (tuples of up to 19 codecs), `LazyDecode` and `DecodeIgnore`.
  Each codec states the bytes it writes and what it reads back, and the round-trip laws of
  `codec::roundtrip` and `codec::compose_codec` prove that decoding recovers what was encoded.
- `app/` is the database side: `Database`, `Keyspace`, the transactions, `Guard` and `Iter`
  over fjall, and the codecs built on serde, postcard, facet and rkyv.
