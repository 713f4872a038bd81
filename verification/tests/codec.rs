use std::borrow::Cow;
use std::marker::PhantomData;

use fiole::codec::{
    Bytes, ComposeCodec, Decode, DecodeIgnore, DecodingVec, Encode, EncodingVec, Fresh, Lazy, LazyDecode,
    SizedCodec, SizedCodecError, Str,
};

#[test]
fn compose_simple_test() {
    let letter = "ACAB";
    let number = [13, 12];

    type MyCodec = ComposeCodec<(SizedCodec<Str>, Bytes)>;

    let buf = MyCodec::encode_alloc(&(letter, &number)).unwrap();
    let decode = MyCodec::decode(&mut buf.into_decoding_vec()).unwrap();
    assert_eq!((letter.to_string(), number.to_vec()), (decode.0, decode.1));

    type MyCodec2 = ComposeCodec<(SizedCodec<Bytes>, Str)>;

    let buf = MyCodec2::encode_alloc(&(&number, &letter)).unwrap();
    let decode = MyCodec2::decode(&mut buf.into_decoding_vec()).unwrap();
    assert_eq!((number.to_vec(), letter.to_string()), (decode.0, decode.1));
}

#[test]
fn compose_used_inside_another_codec_simple_case() {
    #[derive(Debug, PartialEq, Eq)]
    struct MyStruct {
        s: String,
        n: Vec<u8>,
    }

    impl Encode<'_> for MyStruct {
        type Item = Self;
        type Error = String;

        fn encode(into: EncodingVec<Fresh>, item: &'_ Self::Item) -> Result<EncodingVec<Fresh>, Self::Error> {
            ComposeCodec::<(SizedCodec<Str>, Bytes)>::encode(into, &(&item.s, &item.n))
                .map_err(|err| format!("{:?}", err))
        }
    }

    impl Decode for MyStruct {
        type Item = Self;
        type Error = String;
        type Model = ();

        fn decode(bytes: &mut DecodingVec) -> Result<Self::Item, Self::Error> {
            let (s, n) = ComposeCodec::<(SizedCodec<Str>, Bytes)>::decode(bytes)
                .map_err(|err| format!("{:?}", err))?;
            Ok(Self { s, n })
        }
    }

    let s = MyStruct { s: String::from("ACAB"), n: vec![13, 12] };
    let buf = MyStruct::encode_alloc(&s).unwrap();
    let decode = MyStruct::decode(&mut buf.into_decoding_vec()).unwrap();
    assert_eq!(s, decode);
}

#[test]
fn compose_used_inside_another_codec_with_lifetime() {
    #[derive(Debug, PartialEq, Eq)]
    struct MyStruct<'s, 'n> {
        s: Cow<'s, str>,
        n: Cow<'n, [u8]>,
    }

    impl<'a> Encode<'a> for MyStruct<'a, 'a> {
        type Item = Self;
        type Error = String;

        fn encode(into: EncodingVec<Fresh>, item: &'_ Self::Item) -> Result<EncodingVec<Fresh>, Self::Error> {
            ComposeCodec::<(SizedCodec<Str>, Bytes)>::encode(into, &(&item.s, &item.n))
                .map_err(|err| format!("{:?}", err))
        }
    }

    impl Decode for MyStruct<'static, 'static> {
        type Item = Self;
        type Error = String;
        type Model = ();

        fn decode(bytes: &mut DecodingVec) -> Result<Self::Item, Self::Error> {
            let (s, n) = ComposeCodec::<(SizedCodec<Str>, Bytes)>::decode(bytes)
                .map_err(|err| format!("{:?}", err))?;
            Ok(Self { s: Cow::Owned(s), n: Cow::Owned(n) })
        }
    }

    let s = MyStruct { s: Cow::Borrowed("ACAB"), n: Cow::Owned(vec![13, 12]) };
    let buf = MyStruct::encode_alloc(&s).unwrap();
    let decode = MyStruct::decode(&mut buf.into_decoding_vec()).unwrap();
    assert_eq!(s, decode);
}

#[test]
fn make_sure_all_tuple_size_support_encoding_and_decoding() {
    struct Tester<'a, T: Encode<'a> + Decode>(PhantomData<&'a T>);

    let _ = Tester::<ComposeCodec<(Str,)>>(PhantomData);
    let _ = Tester::<ComposeCodec<(Str, Str)>>(PhantomData);
    let _ = Tester::<ComposeCodec<(Str, Str, Str)>>(PhantomData);
    let _ = Tester::<ComposeCodec<(Str, Str, Str, Str)>>(PhantomData);
    let _ = Tester::<
        ComposeCodec<(
            Str, // 1
            Str, // 2
            Str, // 3
            Str, // 4
            Str, // 5
            Str, // 6
            Str, // 7
            Str, // 8
            Str, // 9
            Str, // 10
            Str, // 11
            Str, // 12
            Str, // 13
            Str, // 14
            Str, // 15
            Str, // 16
            Str, // 17
            Str, // 18
            Str, // 19
        )>,
    >(PhantomData);
}

#[test]
fn sized() {
    let letter = "ACAB";
    let number = [13, 12];

    // === Without the sized codec

    // With the normal codec all the bytes are put one after the other with no size in between
    let buf = Str::encode_alloc(&letter).unwrap();
    let buf = Bytes::encode(buf, &number).unwrap();
    let ret = buf.into_decoding_vec().consume();
    assert_eq!(&ret, &[b'A', b'C', b'A', b'B', 13, 12]);

    // The decoder can't make the difference between the two slices of bytes
    let decode = Bytes::decode(&mut DecodingVec::new(ret)).unwrap();
    assert_eq!(&decode, &[b'A', b'C', b'A', b'B', 13, 12]);

    // === With the sized codec used everywhere

    // With the Sized codec, the size is written as an u32.
    let buf = SizedCodec::<Str>::encode_alloc(&letter).unwrap();
    let buf = SizedCodec::<Bytes>::encode(buf, &number).unwrap();
    let ret = buf.into_decoding_vec().consume();
    assert_eq!(&ret, &[0, 0, 0, 4, b'A', b'C', b'A', b'B', 0, 0, 0, 2, 13, 12]);

    // The decoder can extract each slice as expected
    let mut decoder = DecodingVec::new(ret);
    let decode_letter = SizedCodec::<Str>::decode(&mut decoder).unwrap();
    let decode_bytes = SizedCodec::<Bytes>::decode(&mut decoder).unwrap();
    assert_eq!(&decode_letter, "ACAB");
    assert_eq!(&decode_bytes, &[13, 12]);
    assert!(decoder.is_empty());
    assert!(decoder.consume().is_empty());

    // === With the sized codec for all entries except the last

    let buf = SizedCodec::<Str>::encode_alloc(&letter).unwrap();
    let buf = Bytes::encode(buf, &number).unwrap();
    let ret = buf.into_decoding_vec().consume();
    assert_eq!(&ret, &[0, 0, 0, 4, b'A', b'C', b'A', b'B', 13, 12]);

    // This also works and saved us 4 bytes for the size of the second slice
    let mut decoder = DecodingVec::new(ret);
    let decode_letter = SizedCodec::<Str>::decode(&mut decoder).unwrap();
    let decode_bytes = Bytes::decode(&mut decoder).unwrap();
    assert_eq!(&decode_letter, "ACAB");
    assert_eq!(&decode_bytes, &[13, 12]);
    assert!(decoder.is_empty());
    assert!(decoder.consume().is_empty());
}

#[test]
fn encoding_vec() {
    // convert from dirty to fresh
    let vec = EncodingVec::new().edit();
    let vec = vec.make_fresh();

    let mut vec = vec.edit();
    vec.clear();
    vec.push(42);
    vec.push(36);
    let mut vec = vec.make_fresh().edit();
    vec.clear();
    let bytes = fjall::Slice::from(vec.finish());
    assert_eq!(&bytes, &[42, 36]);
}
