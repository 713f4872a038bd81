use fiole::codec::{
    decode_stored, Bytes, ComposeCodec, ComposeCodecError2, Decode, DecodeIgnore, DecodingVec, Encode, EncodingVec, LazyDecode,
    SizedCodec, SizedCodecError, Str,
};
use fiole::range::{encode_range_bound, EncodedBound, KeyBound};

#[test]
fn bytes_roundtrip_on_values() {
    let data: [u8; 5] = [0, 255, 7, 7, 1];
    let buf = Bytes::encode_alloc(&data).unwrap();
    assert_eq!(buf.absolute_pos(), 5);
    let mut d = buf.into_decoding_vec();
    assert_eq!(Bytes::decode(&mut d).unwrap(), data.to_vec());
    assert!(d.is_empty());
}

#[test]
fn str_roundtrip_on_multibyte_text() {
    let text = "héllo, 世界";
    let buf = Str::encode_alloc(text).unwrap();
    assert_eq!(buf.absolute_pos(), text.len());
    let decoded = Str::decode(&mut buf.into_decoding_vec()).unwrap();
    assert_eq!(decoded, text);
}

#[test]
fn str_rejects_invalid_utf8_and_consumes_it() {
    let mut d = DecodingVec::new(vec![b'a', 0xff, b'b']);
    assert!(Str::decode(&mut d).is_err());
    assert!(d.is_empty());
}

#[test]
fn sized_header_is_big_endian_length() {
    let payload = vec![9u8; 300];
    let buf = SizedCodec::<Bytes>::encode_alloc(&payload).unwrap();
    let all = buf.finish();
    assert_eq!(&all[..4], &[0, 0, 1, 44]);
    assert_eq!(all.len(), 304);
}

#[test]
fn sized_roundtrip_leaves_following_bytes() {
    let buf = SizedCodec::<Str>::encode_alloc("abc").unwrap();
    let mut dirty = buf.edit();
    dirty.push(99);
    let mut d = dirty.make_fresh().into_decoding_vec();
    assert_eq!(SizedCodec::<Str>::decode(&mut d).unwrap(), "abc");
    assert_eq!(d.consume(), vec![99]);
}

#[test]
fn sized_too_small_consumes_everything() {
    let mut d = DecodingVec::new(vec![0, 0, 1]);
    assert!(matches!(SizedCodec::<Bytes>::decode(&mut d), Err(SizedCodecError::TooSmall)));
    assert!(d.is_empty());
}

#[test]
fn sized_size_beyond_the_end_takes_what_is_left() {
    let mut d = DecodingVec::new(vec![0, 0, 0, 9, 1, 2, 3]);
    assert_eq!(SizedCodec::<Bytes>::decode(&mut d).unwrap(), vec![1, 2, 3]);
    assert!(d.is_empty());
}

#[test]
fn sized_inner_error_is_other() {
    let mut d = DecodingVec::new(vec![0, 0, 0, 1, 0xff, b'x']);
    assert!(matches!(SizedCodec::<Str>::decode(&mut d), Err(SizedCodecError::Other(_))));
    assert_eq!(d.consume(), vec![b'x']);
}

#[test]
fn compose_reports_the_failing_position() {
    type C = ComposeCodec<(SizedCodec<Bytes>, Str)>;
    let mut d = DecodingVec::new(vec![0, 0]);
    assert!(matches!(C::decode(&mut d), Err(ComposeCodecError2::C0(_))));
    let mut d = DecodingVec::new(vec![0, 0, 0, 1, 5, 0xff]);
    assert!(matches!(C::decode(&mut d), Err(ComposeCodecError2::C1(_))));
}

#[test]
fn compose_roundtrip_of_three() {
    type C = ComposeCodec<(SizedCodec<Str>, SizedCodec<Bytes>, Str)>;
    let bytes: [u8; 2] = [1, 2];
    let buf = C::encode_alloc(&("x", &bytes, "yz")).unwrap();
    assert_eq!(buf.absolute_pos(), 4 + 1 + 4 + 2 + 2);
    let (a, b, c) = C::decode(&mut buf.into_decoding_vec()).unwrap();
    assert_eq!((a.as_str(), b.as_slice(), c.as_str()), ("x", &bytes[..], "yz"));
}

#[test]
fn lazy_decoding_gives_what_direct_decoding_gives() {
    let buf = SizedCodec::<Str>::encode_alloc("lazy").unwrap();
    let bytes = buf.finish();
    let lazy = LazyDecode::<SizedCodec<Str>>::decode(&mut DecodingVec::new(bytes.clone())).unwrap();
    let copy = lazy.clone();
    assert_eq!(lazy.decode().unwrap(), "lazy");
    let direct = SizedCodec::<Str>::decode(&mut DecodingVec::new(bytes)).unwrap();
    assert_eq!(copy.remap::<SizedCodec<Str>>().decode().unwrap(), direct);
}

#[test]
fn decode_ignore_reads_nothing() {
    let mut d = DecodingVec::new(vec![1, 2, 3]);
    DecodeIgnore::decode(&mut d).unwrap();
    assert_eq!(d.consume(), vec![1, 2, 3]);
}

#[test]
fn encoding_vec_regions() {
    let mut v = EncodingVec::new().edit();
    v.push(1);
    v.push(2);
    let mut v = v.make_fresh().edit();
    assert_eq!(v.len(), 0);
    v.extend_from_slice(&[5, 6, 7]);
    assert_eq!(v.as_slice(), &[1, 2, 5, 6, 7]);
    assert_eq!(v.len(), 3);
    v.insert(0, 4);
    assert_eq!(v.remove(1), 5);
    assert_eq!(v.as_slice(), &[1, 2, 4, 6, 7]);
    assert_eq!(v.pop(), Some(7));
    v.append(vec![8, 9]);
    v.reserve(10);
    assert_eq!(v.as_slice(), &[1, 2, 4, 6, 8, 9]);
    assert_eq!(v.absolute_pos(), 6);
    v.clear();
    assert_eq!(v.pop(), None);
    assert_eq!(v.finish(), vec![1, 2]);
}

#[test]
fn as_slice_shows_the_encoded_bytes() {
    let data: [u8; 2] = [1, 2];
    let buf = Bytes::encode_alloc(&data).unwrap();
    assert_eq!(buf.as_slice(), &[1, 2]);
    let buf = SizedCodec::<Str>::encode_alloc("ab").unwrap();
    assert_eq!(buf.as_slice(), &[0, 0, 0, 2, b'a', b'b']);
    assert_eq!(&*buf, &[0, 0, 0, 2, b'a', b'b']);
    let bytes: &[u8] = buf.as_ref();
    assert_eq!(bytes, &[0, 0, 0, 2, b'a', b'b']);
}

#[test]
fn encoding_vec_reserved_space() {
    let mut v = EncodingVec::new().edit();
    v.push(1);
    let token = v.save_space_for_later(3, 0xaa);
    v.push(2);
    v.extend_from_slice(&[3, 4]);
    assert_eq!(v.as_slice(), &[1, 0xaa, 0xaa, 0xaa, 2, 3, 4]);
    let space = v.retrieve_space(token);
    space[0] = 7;
    space[2] = 8;
    assert_eq!(v.as_slice(), &[1, 7, 0xaa, 8, 2, 3, 4]);
    assert!(v.make_fresh().is_empty());
}

#[test]
fn decode_stored_values() {
    assert_eq!(decode_stored::<Str>(None).unwrap(), None);
    assert_eq!(decode_stored::<Str>(Some(b"hi".to_vec())).unwrap(), Some("hi".to_string()));
    assert!(decode_stored::<Str>(Some(vec![0xff])).is_err());
}

#[test]
fn encoding_vec_resize_is_relative_to_the_start() {
    let mut v = EncodingVec::new().edit();
    v.push(1);
    let mut v = v.make_fresh().edit();
    v.push(2);
    // new_len 4 exceeds the two bytes held by 2, so the written region grows to 2 bytes
    v.resize(4, 9);
    assert_eq!(v.as_slice(), &[1, 2, 9]);
    v.resize(1, 9);
    assert_eq!(v.as_slice(), &[1]);
    assert!(v.is_empty());
}

#[test]
fn decoding_vec_take_next_and_read() {
    let mut d = DecodingVec::new(vec![1, 2, 3, 4, 5]);
    let mut buf = [0u8; 2];
    assert_eq!(d.read(&mut buf), 2);
    assert_eq!(buf, [1, 2]);
    {
        let mut sub = d.take_next(2);
        assert_eq!(sub.consume(), vec![3, 4]);
    }
    let mut big = [0u8; 4];
    assert_eq!(d.read(&mut big), 1);
    assert_eq!(big, [5, 0, 0, 0]);
    assert!(d.is_empty());
    let mut sub = d.take_next(10);
    assert!(sub.is_empty());
}

#[test]
fn range_bounds_swap_inclusion() {
    match encode_range_bound::<Str>(KeyBound::Included("a")).unwrap() {
        EncodedBound::Excluded(b) => assert_eq!(b, b"a".to_vec()),
        _ => panic!("an included key becomes an excluded bound"),
    }
    match encode_range_bound::<Str>(KeyBound::Excluded("b")).unwrap() {
        EncodedBound::Included(b) => assert_eq!(b, b"b".to_vec()),
        _ => panic!("an excluded key becomes an included bound"),
    }
    assert!(matches!(encode_range_bound::<Str>(KeyBound::Unbounded).unwrap(), EncodedBound::Unbounded));
}
