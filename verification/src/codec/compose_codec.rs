use std::marker::PhantomData;
use vstd::prelude::*;

use crate::codec::{roundtrips_alone, roundtrips_before_anything, Decode, DecodingVec, Encode, EncodingVec, Fresh};

verus! {

/// Composes several codecs: the item is a tuple, whose fields are encoded one after the other,
/// each by the codec in the same position.
///
/// Every codec but the last must know where its own bytes end (a final codec such as
/// [`crate::codec::Str`] must be wrapped in a [`crate::codec::SizedCodec`] to stand before
/// another one).
pub struct ComposeCodec<T>(PhantomData<T>);

proof fn lemma_concat_assoc(a: Seq<u8>, b: Seq<u8>, c: Seq<u8>)
    ensures
        (a + b) + c == a + (b + c),
{
    assert((a + b) + c =~= a + (b + c));
}

proof fn lemma_skip_prefix(a: Seq<u8>, b: Seq<u8>)
    ensures
        (a + b).skip(a.len() as int) == b,
{
    assert((a + b).skip(a.len() as int) =~= b);
}

/// Why a composition of 1 codec failed: the variant names the codec that failed.
#[derive(Debug)]
pub enum ComposeCodecError1<C1> {
    /// The codec in position 0 failed.
    C1(C1),
}

impl<'a, C1: Encode<'a>> Encode<'a> for ComposeCodec<(C1,)> {
    type Item = (&'a C1::Item,);
    type Error = ComposeCodecError1<C1::Error>;

    open spec fn encoding(item: &Self::Item) -> Option<Seq<u8>> {
        match C1::encoding(item.0) {
            None => None,
            Some(b0) => Some(b0),
        }
    }

    fn encode(into: EncodingVec<Fresh>, item: &Self::Item) -> (r: Result<EncodingVec<Fresh>, Self::Error>)
        ensures
            r matches Err(ComposeCodecError1::C1(_)) ==> C1::encoding(item.0) is None,
    {
        let ret = match C1::encode(into, item.0) {
            Ok(v) => v,
            Err(e) => return Err(ComposeCodecError1::C1(e)),
        };
        Ok(ret)
    }
}

impl<C1: Decode> Decode for ComposeCodec<(C1,)> {
    type Item = (C1::Item,);
    type Error = ComposeCodecError1<C1::Error>;
    type Model = (C1::Model,);

    open spec fn model(item: &Self::Item) -> Self::Model {
        (C1::model(&item.0),)
    }

    open spec fn decoding(input: Seq<u8>) -> (Option<Self::Model>, nat) {
        let d0 = C1::decoding(input);
        let o1 = d0.1;
        match d0.0 {
            None => (None, o1),
            Some(m0) => (Some((m0,)), o1),
        }
    }

    fn decode(bytes: &mut DecodingVec) -> (r: Result<Self::Item, Self::Error>)
        ensures
            ({
                let input = old(bytes)@;
                let d0 = C1::decoding(input);
                let o1 = d0.1;
                &&& (r matches Err(ComposeCodecError1::C1(_)) <==> d0.0 is None)
            }),
    {
        let ghost input = bytes@;
        let ghost o1 = C1::decoding(input).1;
        let r0 = C1::decode(bytes);
        assert(bytes@ =~= input.skip(o1 as int));
        let v0 = match r0 {
            Ok(v) => v,
            Err(e) => return Err(ComposeCodecError1::C1(e)),
        };
        Ok((v0,))
    }
}

/// When every codec but the last recovers its item whatever follows it, and the last one
/// recovers its item from its own encoding, the composition recovers the whole tuple from
/// its encoding.
pub proof fn lemma_compose1_roundtrip<'a, C1: Encode<'a> + Decode>(
    item: &<ComposeCodec<(C1,)> as Encode<'a>>::Item,
    m0: <C1 as Decode>::Model,
)
    requires
        roundtrips_alone::<C1>(item.0, m0),
    ensures
        roundtrips_alone::<ComposeCodec<(C1,)>>(item, (m0,)),
{
    let b0 = C1::encoding(item.0).unwrap();
    let p1 = b0;
    assert(ComposeCodec::<(C1,)>::encoding(item) == Some(p1));
    assert(C1::decoding(b0) == (Some(m0), b0.len()));
}

/// When every codec recovers its item whatever follows it, so does the composition: it can
/// itself stand before another codec.
pub proof fn lemma_compose1_roundtrip_before_anything<'a, C1: Encode<'a> + Decode>(
    item: &<ComposeCodec<(C1,)> as Encode<'a>>::Item,
    m0: <C1 as Decode>::Model,
)
    requires
        roundtrips_before_anything::<C1>(item.0, m0),
    ensures
        roundtrips_before_anything::<ComposeCodec<(C1,)>>(item, (m0,)),
{
    let b0 = C1::encoding(item.0).unwrap();
    let p1 = b0;
    assert(ComposeCodec::<(C1,)>::encoding(item) == Some(p1));
    assert forall|rest: Seq<u8>|
        #[trigger] ComposeCodec::<(C1,)>::decoding(p1 + rest) == (Some((m0,)), p1.len()) by {
        let t1 = rest;
        assert(C1::decoding(b0 + t1) == (Some(m0), b0.len()));
    }
}

/// Why a composition of 2 codecs failed: the variant names the codec that failed.
#[derive(Debug)]
pub enum ComposeCodecError2<C0, C1> {
    /// The codec in position 0 failed.
    C0(C0),
    /// The codec in position 1 failed.
    C1(C1),
}

impl<'a, C0: Encode<'a>, C1: Encode<'a>> Encode<'a> for ComposeCodec<(C0, C1)> {
    type Item = (&'a C0::Item, &'a C1::Item);
    type Error = ComposeCodecError2<C0::Error, C1::Error>;

    open spec fn encoding(item: &Self::Item) -> Option<Seq<u8>> {
        match C0::encoding(item.0) {
            None => None,
            Some(b0) => {
                match C1::encoding(item.1) {
                    None => None,
                    Some(b1) => Some(b0 + b1),
                }
            },
        }
    }

    fn encode(into: EncodingVec<Fresh>, item: &Self::Item) -> (r: Result<EncodingVec<Fresh>, Self::Error>)
        ensures
            r matches Err(ComposeCodecError2::C0(_)) ==> C0::encoding(item.0) is None,
            r matches Err(ComposeCodecError2::C1(_)) ==> C0::encoding(item.0) is Some && C1::encoding(item.1) is None,
    {
        let ghost start = into.bytes();
        let ret = match C0::encode(into, item.0) {
            Ok(v) => v,
            Err(e) => return Err(ComposeCodecError2::C0(e)),
        };
        let ghost acc0 = C0::encoding(item.0).unwrap();
        let ret = match C1::encode(ret, item.1) {
            Ok(v) => v,
            Err(e) => return Err(ComposeCodecError2::C1(e)),
        };
        proof {
            lemma_concat_assoc(start, acc0, C1::encoding(item.1).unwrap());
        }
        Ok(ret)
    }
}

impl<C0: Decode, C1: Decode> Decode for ComposeCodec<(C0, C1)> {
    type Item = (C0::Item, C1::Item);
    type Error = ComposeCodecError2<C0::Error, C1::Error>;
    type Model = (C0::Model, C1::Model);

    open spec fn model(item: &Self::Item) -> Self::Model {
        (C0::model(&item.0), C1::model(&item.1))
    }

    open spec fn decoding(input: Seq<u8>) -> (Option<Self::Model>, nat) {
        let d0 = C0::decoding(input);
        let o1 = d0.1;
        match d0.0 {
            None => (None, o1),
            Some(m0) => {
                let d1 = C1::decoding(input.skip(o1 as int));
                let o2 = o1 + d1.1;
                match d1.0 {
                    None => (None, o2),
                    Some(m1) => (Some((m0, m1)), o2),
                }
            },
        }
    }

    fn decode(bytes: &mut DecodingVec) -> (r: Result<Self::Item, Self::Error>)
        ensures
            ({
                let input = old(bytes)@;
                let d0 = C0::decoding(input);
                let o1 = d0.1;
                let d1 = C1::decoding(input.skip(o1 as int));
                let o2 = o1 + d1.1;
                &&& (r matches Err(ComposeCodecError2::C0(_)) <==> d0.0 is None)
                &&& (r matches Err(ComposeCodecError2::C1(_)) <==> d0.0 is Some && d1.0 is None)
            }),
    {
        let ghost input = bytes@;
        let ghost o1 = C0::decoding(input).1;
        let r0 = C0::decode(bytes);
        assert(bytes@ =~= input.skip(o1 as int));
        let v0 = match r0 {
            Ok(v) => v,
            Err(e) => return Err(ComposeCodecError2::C0(e)),
        };
        let ghost o2 = o1 + C1::decoding(input.skip(o1 as int)).1;
        let r1 = C1::decode(bytes);
        assert(bytes@ =~= input.skip(o2 as int));
        let v1 = match r1 {
            Ok(v) => v,
            Err(e) => return Err(ComposeCodecError2::C1(e)),
        };
        Ok((v0, v1))
    }
}

/// When every codec but the last recovers its item whatever follows it, and the last one
/// recovers its item from its own encoding, the composition recovers the whole tuple from
/// its encoding.
pub proof fn lemma_compose2_roundtrip<'a, C0: Encode<'a> + Decode, C1: Encode<'a> + Decode>(
    item: &<ComposeCodec<(C0, C1)> as Encode<'a>>::Item,
    m0: <C0 as Decode>::Model, m1: <C1 as Decode>::Model,
)
    requires
        roundtrips_before_anything::<C0>(item.0, m0),
        roundtrips_alone::<C1>(item.1, m1),
    ensures
        roundtrips_alone::<ComposeCodec<(C0, C1)>>(item, (m0, m1)),
{
    let b0 = C0::encoding(item.0).unwrap();
    let b1 = C1::encoding(item.1).unwrap();
    let p1 = b0;
    let p2 = p1 + b1;
    assert(ComposeCodec::<(C0, C1)>::encoding(item) == Some(p2));
    let t1 = b1;
    lemma_skip_prefix(p1, t1);
    assert(C0::decoding(b0 + t1) == (Some(m0), b0.len()));
    assert(C1::decoding(b1) == (Some(m1), b1.len()));
}

/// When every codec recovers its item whatever follows it, so does the composition: it can
/// itself stand before another codec.
pub proof fn lemma_compose2_roundtrip_before_anything<'a, C0: Encode<'a> + Decode, C1: Encode<'a> + Decode>(
    item: &<ComposeCodec<(C0, C1)> as Encode<'a>>::Item,
    m0: <C0 as Decode>::Model, m1: <C1 as Decode>::Model,
)
    requires
        roundtrips_before_anything::<C0>(item.0, m0),
        roundtrips_before_anything::<C1>(item.1, m1),
    ensures
        roundtrips_before_anything::<ComposeCodec<(C0, C1)>>(item, (m0, m1)),
{
    let b0 = C0::encoding(item.0).unwrap();
    let b1 = C1::encoding(item.1).unwrap();
    let p1 = b0;
    let p2 = p1 + b1;
    assert(ComposeCodec::<(C0, C1)>::encoding(item) == Some(p2));
    assert forall|rest: Seq<u8>|
        #[trigger] ComposeCodec::<(C0, C1)>::decoding(p2 + rest) == (Some((m0, m1)), p2.len()) by {
        let t2 = rest;
        let t1 = b1 + t2;
        lemma_concat_assoc(p1, b1, t2);
        lemma_skip_prefix(p1, t1);
        assert(C0::decoding(b0 + t1) == (Some(m0), b0.len()));
        assert(C1::decoding(b1 + t2) == (Some(m1), b1.len()));
    }
}

/// Why a composition of 3 codecs failed: the variant names the codec that failed.
#[derive(Debug)]
pub enum ComposeCodecError3<C0, C1, C2> {
    /// The codec in position 0 failed.
    C0(C0),
    /// The codec in position 1 failed.
    C1(C1),
    /// The codec in position 2 failed.
    C2(C2),
}

impl<'a, C0: Encode<'a>, C1: Encode<'a>, C2: Encode<'a>> Encode<'a> for ComposeCodec<(C0, C1, C2)> {
    type Item = (&'a C0::Item, &'a C1::Item, &'a C2::Item);
    type Error = ComposeCodecError3<C0::Error, C1::Error, C2::Error>;

    open spec fn encoding(item: &Self::Item) -> Option<Seq<u8>> {
        match C0::encoding(item.0) {
            None => None,
            Some(b0) => {
                match C1::encoding(item.1) {
                    None => None,
                    Some(b1) => {
                        match C2::encoding(item.2) {
                            None => None,
                            Some(b2) => Some(b0 + b1 + b2),
                        }
                    },
                }
            },
        }
    }

    fn encode(into: EncodingVec<Fresh>, item: &Self::Item) -> (r: Result<EncodingVec<Fresh>, Self::Error>)
        ensures
            r matches Err(ComposeCodecError3::C0(_)) ==> C0::encoding(item.0) is None,
            r matches Err(ComposeCodecError3::C1(_)) ==> C0::encoding(item.0) is Some && C1::encoding(item.1) is None,
            r matches Err(ComposeCodecError3::C2(_)) ==> C0::encoding(item.0) is Some && C1::encoding(item.1) is Some && C2::encoding(item.2) is None,
    {
        let ghost start = into.bytes();
        let ret = match C0::encode(into, item.0) {
            Ok(v) => v,
            Err(e) => return Err(ComposeCodecError3::C0(e)),
        };
        let ghost acc0 = C0::encoding(item.0).unwrap();
        let ret = match C1::encode(ret, item.1) {
            Ok(v) => v,
            Err(e) => return Err(ComposeCodecError3::C1(e)),
        };
        let ghost acc1 = acc0 + C1::encoding(item.1).unwrap();
        proof {
            lemma_concat_assoc(start, acc0, C1::encoding(item.1).unwrap());
        }
        let ret = match C2::encode(ret, item.2) {
            Ok(v) => v,
            Err(e) => return Err(ComposeCodecError3::C2(e)),
        };
        proof {
            lemma_concat_assoc(start, acc1, C2::encoding(item.2).unwrap());
        }
        Ok(ret)
    }
}

impl<C0: Decode, C1: Decode, C2: Decode> Decode for ComposeCodec<(C0, C1, C2)> {
    type Item = (C0::Item, C1::Item, C2::Item);
    type Error = ComposeCodecError3<C0::Error, C1::Error, C2::Error>;
    type Model = (C0::Model, C1::Model, C2::Model);

    open spec fn model(item: &Self::Item) -> Self::Model {
        (C0::model(&item.0), C1::model(&item.1), C2::model(&item.2))
    }

    open spec fn decoding(input: Seq<u8>) -> (Option<Self::Model>, nat) {
        let d0 = C0::decoding(input);
        let o1 = d0.1;
        match d0.0 {
            None => (None, o1),
            Some(m0) => {
                let d1 = C1::decoding(input.skip(o1 as int));
                let o2 = o1 + d1.1;
                match d1.0 {
                    None => (None, o2),
                    Some(m1) => {
                        let d2 = C2::decoding(input.skip(o2 as int));
                        let o3 = o2 + d2.1;
                        match d2.0 {
                            None => (None, o3),
                            Some(m2) => (Some((m0, m1, m2)), o3),
                        }
                    },
                }
            },
        }
    }

    fn decode(bytes: &mut DecodingVec) -> (r: Result<Self::Item, Self::Error>)
        ensures
            ({
                let input = old(bytes)@;
                let d0 = C0::decoding(input);
                let o1 = d0.1;
                let d1 = C1::decoding(input.skip(o1 as int));
                let o2 = o1 + d1.1;
                let d2 = C2::decoding(input.skip(o2 as int));
                let o3 = o2 + d2.1;
                &&& (r matches Err(ComposeCodecError3::C0(_)) <==> d0.0 is None)
                &&& (r matches Err(ComposeCodecError3::C1(_)) <==> d0.0 is Some && d1.0 is None)
                &&& (r matches Err(ComposeCodecError3::C2(_)) <==> d0.0 is Some && d1.0 is Some && d2.0 is None)
            }),
    {
        let ghost input = bytes@;
        let ghost o1 = C0::decoding(input).1;
        let r0 = C0::decode(bytes);
        assert(bytes@ =~= input.skip(o1 as int));
        let v0 = match r0 {
            Ok(v) => v,
            Err(e) => return Err(ComposeCodecError3::C0(e)),
        };
        let ghost o2 = o1 + C1::decoding(input.skip(o1 as int)).1;
        let r1 = C1::decode(bytes);
        assert(bytes@ =~= input.skip(o2 as int));
        let v1 = match r1 {
            Ok(v) => v,
            Err(e) => return Err(ComposeCodecError3::C1(e)),
        };
        let ghost o3 = o2 + C2::decoding(input.skip(o2 as int)).1;
        let r2 = C2::decode(bytes);
        assert(bytes@ =~= input.skip(o3 as int));
        let v2 = match r2 {
            Ok(v) => v,
            Err(e) => return Err(ComposeCodecError3::C2(e)),
        };
        Ok((v0, v1, v2))
    }
}

/// When every codec but the last recovers its item whatever follows it, and the last one
/// recovers its item from its own encoding, the composition recovers the whole tuple from
/// its encoding.
pub proof fn lemma_compose3_roundtrip<'a, C0: Encode<'a> + Decode, C1: Encode<'a> + Decode, C2: Encode<'a> + Decode>(
    item: &<ComposeCodec<(C0, C1, C2)> as Encode<'a>>::Item,
    m0: <C0 as Decode>::Model, m1: <C1 as Decode>::Model, m2: <C2 as Decode>::Model,
)
    requires
        roundtrips_before_anything::<C0>(item.0, m0),
        roundtrips_before_anything::<C1>(item.1, m1),
        roundtrips_alone::<C2>(item.2, m2),
    ensures
        roundtrips_alone::<ComposeCodec<(C0, C1, C2)>>(item, (m0, m1, m2)),
{
    let b0 = C0::encoding(item.0).unwrap();
    let b1 = C1::encoding(item.1).unwrap();
    let b2 = C2::encoding(item.2).unwrap();
    let p1 = b0;
    let p2 = p1 + b1;
    let p3 = p2 + b2;
    assert(ComposeCodec::<(C0, C1, C2)>::encoding(item) == Some(p3));
    let t2 = b2;
    let t1 = b1 + t2;
    lemma_concat_assoc(p1, b1, t2);
    lemma_skip_prefix(p1, t1);
    lemma_skip_prefix(p2, t2);
    assert(C0::decoding(b0 + t1) == (Some(m0), b0.len()));
    assert(C1::decoding(b1 + t2) == (Some(m1), b1.len()));
    assert(C2::decoding(b2) == (Some(m2), b2.len()));
}

/// When every codec recovers its item whatever follows it, so does the composition: it can
/// itself stand before another codec.
pub proof fn lemma_compose3_roundtrip_before_anything<'a, C0: Encode<'a> + Decode, C1: Encode<'a> + Decode, C2: Encode<'a> + Decode>(
    item: &<ComposeCodec<(C0, C1, C2)> as Encode<'a>>::Item,
    m0: <C0 as Decode>::Model, m1: <C1 as Decode>::Model, m2: <C2 as Decode>::Model,
)
    requires
        roundtrips_before_anything::<C0>(item.0, m0),
        roundtrips_before_anything::<C1>(item.1, m1),
        roundtrips_before_anything::<C2>(item.2, m2),
    ensures
        roundtrips_before_anything::<ComposeCodec<(C0, C1, C2)>>(item, (m0, m1, m2)),
{
    let b0 = C0::encoding(item.0).unwrap();
    let b1 = C1::encoding(item.1).unwrap();
    let b2 = C2::encoding(item.2).unwrap();
    let p1 = b0;
    let p2 = p1 + b1;
    let p3 = p2 + b2;
    assert(ComposeCodec::<(C0, C1, C2)>::encoding(item) == Some(p3));
    assert forall|rest: Seq<u8>|
        #[trigger] ComposeCodec::<(C0, C1, C2)>::decoding(p3 + rest) == (Some((m0, m1, m2)), p3.len()) by {
        let t3 = rest;
        let t2 = b2 + t3;
        lemma_concat_assoc(p2, b2, t3);
        let t1 = b1 + t2;
        lemma_concat_assoc(p1, b1, t2);
        lemma_skip_prefix(p1, t1);
        lemma_skip_prefix(p2, t2);
        assert(C0::decoding(b0 + t1) == (Some(m0), b0.len()));
        assert(C1::decoding(b1 + t2) == (Some(m1), b1.len()));
        assert(C2::decoding(b2 + t3) == (Some(m2), b2.len()));
    }
}

/// Why a composition of 4 codecs failed: the variant names the codec that failed.
#[derive(Debug)]
pub enum ComposeCodecError4<C0, C1, C2, C3> {
    /// The codec in position 0 failed.
    C0(C0),
    /// The codec in position 1 failed.
    C1(C1),
    /// The codec in position 2 failed.
    C2(C2),
    /// The codec in position 3 failed.
    C3(C3),
}

impl<'a, C0: Encode<'a>, C1: Encode<'a>, C2: Encode<'a>, C3: Encode<'a>> Encode<'a> for ComposeCodec<(C0, C1, C2, C3)> {
    type Item = (&'a C0::Item, &'a C1::Item, &'a C2::Item, &'a C3::Item);
    type Error = ComposeCodecError4<C0::Error, C1::Error, C2::Error, C3::Error>;

    open spec fn encoding(item: &Self::Item) -> Option<Seq<u8>> {
        match C0::encoding(item.0) {
            None => None,
            Some(b0) => {
                match C1::encoding(item.1) {
                    None => None,
                    Some(b1) => {
                        match C2::encoding(item.2) {
                            None => None,
                            Some(b2) => {
                                match C3::encoding(item.3) {
                                    None => None,
                                    Some(b3) => Some(b0 + b1 + b2 + b3),
                                }
                            },
                        }
                    },
                }
            },
        }
    }

    fn encode(into: EncodingVec<Fresh>, item: &Self::Item) -> (r: Result<EncodingVec<Fresh>, Self::Error>)
        ensures
            r matches Err(ComposeCodecError4::C0(_)) ==> C0::encoding(item.0) is None,
            r matches Err(ComposeCodecError4::C1(_)) ==> C0::encoding(item.0) is Some && C1::encoding(item.1) is None,
            r matches Err(ComposeCodecError4::C2(_)) ==> C0::encoding(item.0) is Some && C1::encoding(item.1) is Some && C2::encoding(item.2) is None,
            r matches Err(ComposeCodecError4::C3(_)) ==> C0::encoding(item.0) is Some && C1::encoding(item.1) is Some && C2::encoding(item.2) is Some && C3::encoding(item.3) is None,
    {
        let ghost start = into.bytes();
        let ret = match C0::encode(into, item.0) {
            Ok(v) => v,
            Err(e) => return Err(ComposeCodecError4::C0(e)),
        };
        let ghost acc0 = C0::encoding(item.0).unwrap();
        let ret = match C1::encode(ret, item.1) {
            Ok(v) => v,
            Err(e) => return Err(ComposeCodecError4::C1(e)),
        };
        let ghost acc1 = acc0 + C1::encoding(item.1).unwrap();
        proof {
            lemma_concat_assoc(start, acc0, C1::encoding(item.1).unwrap());
        }
        let ret = match C2::encode(ret, item.2) {
            Ok(v) => v,
            Err(e) => return Err(ComposeCodecError4::C2(e)),
        };
        let ghost acc2 = acc1 + C2::encoding(item.2).unwrap();
        proof {
            lemma_concat_assoc(start, acc1, C2::encoding(item.2).unwrap());
        }
        let ret = match C3::encode(ret, item.3) {
            Ok(v) => v,
            Err(e) => return Err(ComposeCodecError4::C3(e)),
        };
        proof {
            lemma_concat_assoc(start, acc2, C3::encoding(item.3).unwrap());
        }
        Ok(ret)
    }
}

impl<C0: Decode, C1: Decode, C2: Decode, C3: Decode> Decode for ComposeCodec<(C0, C1, C2, C3)> {
    type Item = (C0::Item, C1::Item, C2::Item, C3::Item);
    type Error = ComposeCodecError4<C0::Error, C1::Error, C2::Error, C3::Error>;
    type Model = (C0::Model, C1::Model, C2::Model, C3::Model);

    open spec fn model(item: &Self::Item) -> Self::Model {
        (C0::model(&item.0), C1::model(&item.1), C2::model(&item.2), C3::model(&item.3))
    }

    open spec fn decoding(input: Seq<u8>) -> (Option<Self::Model>, nat) {
        let d0 = C0::decoding(input);
        let o1 = d0.1;
        match d0.0 {
            None => (None, o1),
            Some(m0) => {
                let d1 = C1::decoding(input.skip(o1 as int));
                let o2 = o1 + d1.1;
                match d1.0 {
                    None => (None, o2),
                    Some(m1) => {
                        let d2 = C2::decoding(input.skip(o2 as int));
                        let o3 = o2 + d2.1;
                        match d2.0 {
                            None => (None, o3),
                            Some(m2) => {
                                let d3 = C3::decoding(input.skip(o3 as int));
                                let o4 = o3 + d3.1;
                                match d3.0 {
                                    None => (None, o4),
                                    Some(m3) => (Some((m0, m1, m2, m3)), o4),
                                }
                            },
                        }
                    },
                }
            },
        }
    }

    fn decode(bytes: &mut DecodingVec) -> (r: Result<Self::Item, Self::Error>)
        ensures
            ({
                let input = old(bytes)@;
                let d0 = C0::decoding(input);
                let o1 = d0.1;
                let d1 = C1::decoding(input.skip(o1 as int));
                let o2 = o1 + d1.1;
                let d2 = C2::decoding(input.skip(o2 as int));
                let o3 = o2 + d2.1;
                let d3 = C3::decoding(input.skip(o3 as int));
                let o4 = o3 + d3.1;
                &&& (r matches Err(ComposeCodecError4::C0(_)) <==> d0.0 is None)
                &&& (r matches Err(ComposeCodecError4::C1(_)) <==> d0.0 is Some && d1.0 is None)
                &&& (r matches Err(ComposeCodecError4::C2(_)) <==> d0.0 is Some && d1.0 is Some && d2.0 is None)
                &&& (r matches Err(ComposeCodecError4::C3(_)) <==> d0.0 is Some && d1.0 is Some && d2.0 is Some && d3.0 is None)
            }),
    {
        let ghost input = bytes@;
        let ghost o1 = C0::decoding(input).1;
        let r0 = C0::decode(bytes);
        assert(bytes@ =~= input.skip(o1 as int));
        let v0 = match r0 {
            Ok(v) => v,
            Err(e) => return Err(ComposeCodecError4::C0(e)),
        };
        let ghost o2 = o1 + C1::decoding(input.skip(o1 as int)).1;
        let r1 = C1::decode(bytes);
        assert(bytes@ =~= input.skip(o2 as int));
        let v1 = match r1 {
            Ok(v) => v,
            Err(e) => return Err(ComposeCodecError4::C1(e)),
        };
        let ghost o3 = o2 + C2::decoding(input.skip(o2 as int)).1;
        let r2 = C2::decode(bytes);
        assert(bytes@ =~= input.skip(o3 as int));
        let v2 = match r2 {
            Ok(v) => v,
            Err(e) => return Err(ComposeCodecError4::C2(e)),
        };
        let ghost o4 = o3 + C3::decoding(input.skip(o3 as int)).1;
        let r3 = C3::decode(bytes);
        assert(bytes@ =~= input.skip(o4 as int));
        let v3 = match r3 {
            Ok(v) => v,
            Err(e) => return Err(ComposeCodecError4::C3(e)),
        };
        Ok((v0, v1, v2, v3))
    }
}

/// When every codec but the last recovers its item whatever follows it, and the last one
/// recovers its item from its own encoding, the composition recovers the whole tuple from
/// its encoding.
pub proof fn lemma_compose4_roundtrip<'a, C0: Encode<'a> + Decode, C1: Encode<'a> + Decode, C2: Encode<'a> + Decode, C3: Encode<'a> + Decode>(
    item: &<ComposeCodec<(C0, C1, C2, C3)> as Encode<'a>>::Item,
    m0: <C0 as Decode>::Model, m1: <C1 as Decode>::Model, m2: <C2 as Decode>::Model, m3: <C3 as Decode>::Model,
)
    requires
        roundtrips_before_anything::<C0>(item.0, m0),
        roundtrips_before_anything::<C1>(item.1, m1),
        roundtrips_before_anything::<C2>(item.2, m2),
        roundtrips_alone::<C3>(item.3, m3),
    ensures
        roundtrips_alone::<ComposeCodec<(C0, C1, C2, C3)>>(item, (m0, m1, m2, m3)),
{
    let b0 = C0::encoding(item.0).unwrap();
    let b1 = C1::encoding(item.1).unwrap();
    let b2 = C2::encoding(item.2).unwrap();
    let b3 = C3::encoding(item.3).unwrap();
    let p1 = b0;
    let p2 = p1 + b1;
    let p3 = p2 + b2;
    let p4 = p3 + b3;
    assert(ComposeCodec::<(C0, C1, C2, C3)>::encoding(item) == Some(p4));
    let t3 = b3;
    let t2 = b2 + t3;
    lemma_concat_assoc(p2, b2, t3);
    let t1 = b1 + t2;
    lemma_concat_assoc(p1, b1, t2);
    lemma_skip_prefix(p1, t1);
    lemma_skip_prefix(p2, t2);
    lemma_skip_prefix(p3, t3);
    assert(C0::decoding(b0 + t1) == (Some(m0), b0.len()));
    assert(C1::decoding(b1 + t2) == (Some(m1), b1.len()));
    assert(C2::decoding(b2 + t3) == (Some(m2), b2.len()));
    assert(C3::decoding(b3) == (Some(m3), b3.len()));
}

/// When every codec recovers its item whatever follows it, so does the composition: it can
/// itself stand before another codec.
pub proof fn lemma_compose4_roundtrip_before_anything<'a, C0: Encode<'a> + Decode, C1: Encode<'a> + Decode, C2: Encode<'a> + Decode, C3: Encode<'a> + Decode>(
    item: &<ComposeCodec<(C0, C1, C2, C3)> as Encode<'a>>::Item,
    m0: <C0 as Decode>::Model, m1: <C1 as Decode>::Model, m2: <C2 as Decode>::Model, m3: <C3 as Decode>::Model,
)
    requires
        roundtrips_before_anything::<C0>(item.0, m0),
        roundtrips_before_anything::<C1>(item.1, m1),
        roundtrips_before_anything::<C2>(item.2, m2),
        roundtrips_before_anything::<C3>(item.3, m3),
    ensures
        roundtrips_before_anything::<ComposeCodec<(C0, C1, C2, C3)>>(item, (m0, m1, m2, m3)),
{
    let b0 = C0::encoding(item.0).unwrap();
    let b1 = C1::encoding(item.1).unwrap();
    let b2 = C2::encoding(item.2).unwrap();
    let b3 = C3::encoding(item.3).unwrap();
    let p1 = b0;
    let p2 = p1 + b1;
    let p3 = p2 + b2;
    let p4 = p3 + b3;
    assert(ComposeCodec::<(C0, C1, C2, C3)>::encoding(item) == Some(p4));
    assert forall|rest: Seq<u8>|
        #[trigger] ComposeCodec::<(C0, C1, C2, C3)>::decoding(p4 + rest) == (Some((m0, m1, m2, m3)), p4.len()) by {
        let t4 = rest;
        let t3 = b3 + t4;
        lemma_concat_assoc(p3, b3, t4);
        let t2 = b2 + t3;
        lemma_concat_assoc(p2, b2, t3);
        let t1 = b1 + t2;
        lemma_concat_assoc(p1, b1, t2);
        lemma_skip_prefix(p1, t1);
        lemma_skip_prefix(p2, t2);
        lemma_skip_prefix(p3, t3);
        assert(C0::decoding(b0 + t1) == (Some(m0), b0.len()));
        assert(C1::decoding(b1 + t2) == (Some(m1), b1.len()));
        assert(C2::decoding(b2 + t3) == (Some(m2), b2.len()));
        assert(C3::decoding(b3 + t4) == (Some(m3), b3.len()));
    }
}

/// Why a composition of 5 codecs failed: the variant names the codec that failed.
#[derive(Debug)]
pub enum ComposeCodecError5<C0, C1, C2, C3, C4> {
    /// The codec in position 0 failed.
    C0(C0),
    /// The codec in position 1 failed.
    C1(C1),
    /// The codec in position 2 failed.
    C2(C2),
    /// The codec in position 3 failed.
    C3(C3),
    /// The codec in position 4 failed.
    C4(C4),
}

impl<'a, C0: Encode<'a>, C1: Encode<'a>, C2: Encode<'a>, C3: Encode<'a>, C4: Encode<'a>> Encode<'a> for ComposeCodec<(C0, C1, C2, C3, C4)> {
    type Item = (&'a C0::Item, &'a C1::Item, &'a C2::Item, &'a C3::Item, &'a C4::Item);
    type Error = ComposeCodecError5<C0::Error, C1::Error, C2::Error, C3::Error, C4::Error>;

    open spec fn encoding(item: &Self::Item) -> Option<Seq<u8>> {
        match C0::encoding(item.0) {
            None => None,
            Some(b0) => {
                match C1::encoding(item.1) {
                    None => None,
                    Some(b1) => {
                        match C2::encoding(item.2) {
                            None => None,
                            Some(b2) => {
                                match C3::encoding(item.3) {
                                    None => None,
                                    Some(b3) => {
                                        match C4::encoding(item.4) {
                                            None => None,
                                            Some(b4) => Some(b0 + b1 + b2 + b3 + b4),
                                        }
                                    },
                                }
                            },
                        }
                    },
                }
            },
        }
    }

    fn encode(into: EncodingVec<Fresh>, item: &Self::Item) -> (r: Result<EncodingVec<Fresh>, Self::Error>)
        ensures
            r matches Err(ComposeCodecError5::C0(_)) ==> C0::encoding(item.0) is None,
            r matches Err(ComposeCodecError5::C1(_)) ==> C0::encoding(item.0) is Some && C1::encoding(item.1) is None,
            r matches Err(ComposeCodecError5::C2(_)) ==> C0::encoding(item.0) is Some && C1::encoding(item.1) is Some && C2::encoding(item.2) is None,
            r matches Err(ComposeCodecError5::C3(_)) ==> C0::encoding(item.0) is Some && C1::encoding(item.1) is Some && C2::encoding(item.2) is Some && C3::encoding(item.3) is None,
            r matches Err(ComposeCodecError5::C4(_)) ==> C0::encoding(item.0) is Some && C1::encoding(item.1) is Some && C2::encoding(item.2) is Some && C3::encoding(item.3) is Some && C4::encoding(item.4) is None,
    {
        let ghost start = into.bytes();
        let ret = match C0::encode(into, item.0) {
            Ok(v) => v,
            Err(e) => return Err(ComposeCodecError5::C0(e)),
        };
        let ghost acc0 = C0::encoding(item.0).unwrap();
        let ret = match C1::encode(ret, item.1) {
            Ok(v) => v,
            Err(e) => return Err(ComposeCodecError5::C1(e)),
        };
        let ghost acc1 = acc0 + C1::encoding(item.1).unwrap();
        proof {
            lemma_concat_assoc(start, acc0, C1::encoding(item.1).unwrap());
        }
        let ret = match C2::encode(ret, item.2) {
            Ok(v) => v,
            Err(e) => return Err(ComposeCodecError5::C2(e)),
        };
        let ghost acc2 = acc1 + C2::encoding(item.2).unwrap();
        proof {
            lemma_concat_assoc(start, acc1, C2::encoding(item.2).unwrap());
        }
        let ret = match C3::encode(ret, item.3) {
            Ok(v) => v,
            Err(e) => return Err(ComposeCodecError5::C3(e)),
        };
        let ghost acc3 = acc2 + C3::encoding(item.3).unwrap();
        proof {
            lemma_concat_assoc(start, acc2, C3::encoding(item.3).unwrap());
        }
        let ret = match C4::encode(ret, item.4) {
            Ok(v) => v,
            Err(e) => return Err(ComposeCodecError5::C4(e)),
        };
        proof {
            lemma_concat_assoc(start, acc3, C4::encoding(item.4).unwrap());
        }
        Ok(ret)
    }
}

impl<C0: Decode, C1: Decode, C2: Decode, C3: Decode, C4: Decode> Decode for ComposeCodec<(C0, C1, C2, C3, C4)> {
    type Item = (C0::Item, C1::Item, C2::Item, C3::Item, C4::Item);
    type Error = ComposeCodecError5<C0::Error, C1::Error, C2::Error, C3::Error, C4::Error>;
    type Model = (C0::Model, C1::Model, C2::Model, C3::Model, C4::Model);

    open spec fn model(item: &Self::Item) -> Self::Model {
        (C0::model(&item.0), C1::model(&item.1), C2::model(&item.2), C3::model(&item.3), C4::model(&item.4))
    }

    open spec fn decoding(input: Seq<u8>) -> (Option<Self::Model>, nat) {
        let d0 = C0::decoding(input);
        let o1 = d0.1;
        match d0.0 {
            None => (None, o1),
            Some(m0) => {
                let d1 = C1::decoding(input.skip(o1 as int));
                let o2 = o1 + d1.1;
                match d1.0 {
                    None => (None, o2),
                    Some(m1) => {
                        let d2 = C2::decoding(input.skip(o2 as int));
                        let o3 = o2 + d2.1;
                        match d2.0 {
                            None => (None, o3),
                            Some(m2) => {
                                let d3 = C3::decoding(input.skip(o3 as int));
                                let o4 = o3 + d3.1;
                                match d3.0 {
                                    None => (None, o4),
                                    Some(m3) => {
                                        let d4 = C4::decoding(input.skip(o4 as int));
                                        let o5 = o4 + d4.1;
                                        match d4.0 {
                                            None => (None, o5),
                                            Some(m4) => (Some((m0, m1, m2, m3, m4)), o5),
                                        }
                                    },
                                }
                            },
                        }
                    },
                }
            },
        }
    }

    fn decode(bytes: &mut DecodingVec) -> (r: Result<Self::Item, Self::Error>)
        ensures
            ({
                let input = old(bytes)@;
                let d0 = C0::decoding(input);
                let o1 = d0.1;
                let d1 = C1::decoding(input.skip(o1 as int));
                let o2 = o1 + d1.1;
                let d2 = C2::decoding(input.skip(o2 as int));
                let o3 = o2 + d2.1;
                let d3 = C3::decoding(input.skip(o3 as int));
                let o4 = o3 + d3.1;
                let d4 = C4::decoding(input.skip(o4 as int));
                let o5 = o4 + d4.1;
                &&& (r matches Err(ComposeCodecError5::C0(_)) <==> d0.0 is None)
                &&& (r matches Err(ComposeCodecError5::C1(_)) <==> d0.0 is Some && d1.0 is None)
                &&& (r matches Err(ComposeCodecError5::C2(_)) <==> d0.0 is Some && d1.0 is Some && d2.0 is None)
                &&& (r matches Err(ComposeCodecError5::C3(_)) <==> d0.0 is Some && d1.0 is Some && d2.0 is Some && d3.0 is None)
                &&& (r matches Err(ComposeCodecError5::C4(_)) <==> d0.0 is Some && d1.0 is Some && d2.0 is Some && d3.0 is Some && d4.0 is None)
            }),
    {
        let ghost input = bytes@;
        let ghost o1 = C0::decoding(input).1;
        let r0 = C0::decode(bytes);
        assert(bytes@ =~= input.skip(o1 as int));
        let v0 = match r0 {
            Ok(v) => v,
            Err(e) => return Err(ComposeCodecError5::C0(e)),
        };
        let ghost o2 = o1 + C1::decoding(input.skip(o1 as int)).1;
        let r1 = C1::decode(bytes);
        assert(bytes@ =~= input.skip(o2 as int));
        let v1 = match r1 {
            Ok(v) => v,
            Err(e) => return Err(ComposeCodecError5::C1(e)),
        };
        let ghost o3 = o2 + C2::decoding(input.skip(o2 as int)).1;
        let r2 = C2::decode(bytes);
        assert(bytes@ =~= input.skip(o3 as int));
        let v2 = match r2 {
            Ok(v) => v,
            Err(e) => return Err(ComposeCodecError5::C2(e)),
        };
        let ghost o4 = o3 + C3::decoding(input.skip(o3 as int)).1;
        let r3 = C3::decode(bytes);
        assert(bytes@ =~= input.skip(o4 as int));
        let v3 = match r3 {
            Ok(v) => v,
            Err(e) => return Err(ComposeCodecError5::C3(e)),
        };
        let ghost o5 = o4 + C4::decoding(input.skip(o4 as int)).1;
        let r4 = C4::decode(bytes);
        assert(bytes@ =~= input.skip(o5 as int));
        let v4 = match r4 {
            Ok(v) => v,
            Err(e) => return Err(ComposeCodecError5::C4(e)),
        };
        Ok((v0, v1, v2, v3, v4))
    }
}

/// When every codec but the last recovers its item whatever follows it, and the last one
/// recovers its item from its own encoding, the composition recovers the whole tuple from
/// its encoding.
pub proof fn lemma_compose5_roundtrip<'a, C0: Encode<'a> + Decode, C1: Encode<'a> + Decode, C2: Encode<'a> + Decode, C3: Encode<'a> + Decode, C4: Encode<'a> + Decode>(
    item: &<ComposeCodec<(C0, C1, C2, C3, C4)> as Encode<'a>>::Item,
    m0: <C0 as Decode>::Model, m1: <C1 as Decode>::Model, m2: <C2 as Decode>::Model, m3: <C3 as Decode>::Model, m4: <C4 as Decode>::Model,
)
    requires
        roundtrips_before_anything::<C0>(item.0, m0),
        roundtrips_before_anything::<C1>(item.1, m1),
        roundtrips_before_anything::<C2>(item.2, m2),
        roundtrips_before_anything::<C3>(item.3, m3),
        roundtrips_alone::<C4>(item.4, m4),
    ensures
        roundtrips_alone::<ComposeCodec<(C0, C1, C2, C3, C4)>>(item, (m0, m1, m2, m3, m4)),
{
    let b0 = C0::encoding(item.0).unwrap();
    let b1 = C1::encoding(item.1).unwrap();
    let b2 = C2::encoding(item.2).unwrap();
    let b3 = C3::encoding(item.3).unwrap();
    let b4 = C4::encoding(item.4).unwrap();
    let p1 = b0;
    let p2 = p1 + b1;
    let p3 = p2 + b2;
    let p4 = p3 + b3;
    let p5 = p4 + b4;
    assert(ComposeCodec::<(C0, C1, C2, C3, C4)>::encoding(item) == Some(p5));
    let t4 = b4;
    let t3 = b3 + t4;
    lemma_concat_assoc(p3, b3, t4);
    let t2 = b2 + t3;
    lemma_concat_assoc(p2, b2, t3);
    let t1 = b1 + t2;
    lemma_concat_assoc(p1, b1, t2);
    lemma_skip_prefix(p1, t1);
    lemma_skip_prefix(p2, t2);
    lemma_skip_prefix(p3, t3);
    lemma_skip_prefix(p4, t4);
    assert(C0::decoding(b0 + t1) == (Some(m0), b0.len()));
    assert(C1::decoding(b1 + t2) == (Some(m1), b1.len()));
    assert(C2::decoding(b2 + t3) == (Some(m2), b2.len()));
    assert(C3::decoding(b3 + t4) == (Some(m3), b3.len()));
    assert(C4::decoding(b4) == (Some(m4), b4.len()));
}

/// When every codec recovers its item whatever follows it, so does the composition: it can
/// itself stand before another codec.
pub proof fn lemma_compose5_roundtrip_before_anything<'a, C0: Encode<'a> + Decode, C1: Encode<'a> + Decode, C2: Encode<'a> + Decode, C3: Encode<'a> + Decode, C4: Encode<'a> + Decode>(
    item: &<ComposeCodec<(C0, C1, C2, C3, C4)> as Encode<'a>>::Item,
    m0: <C0 as Decode>::Model, m1: <C1 as Decode>::Model, m2: <C2 as Decode>::Model, m3: <C3 as Decode>::Model, m4: <C4 as Decode>::Model,
)
    requires
        roundtrips_before_anything::<C0>(item.0, m0),
        roundtrips_before_anything::<C1>(item.1, m1),
        roundtrips_before_anything::<C2>(item.2, m2),
        roundtrips_before_anything::<C3>(item.3, m3),
        roundtrips_before_anything::<C4>(item.4, m4),
    ensures
        roundtrips_before_anything::<ComposeCodec<(C0, C1, C2, C3, C4)>>(item, (m0, m1, m2, m3, m4)),
{
    let b0 = C0::encoding(item.0).unwrap();
    let b1 = C1::encoding(item.1).unwrap();
    let b2 = C2::encoding(item.2).unwrap();
    let b3 = C3::encoding(item.3).unwrap();
    let b4 = C4::encoding(item.4).unwrap();
    let p1 = b0;
    let p2 = p1 + b1;
    let p3 = p2 + b2;
    let p4 = p3 + b3;
    let p5 = p4 + b4;
    assert(ComposeCodec::<(C0, C1, C2, C3, C4)>::encoding(item) == Some(p5));
    assert forall|rest: Seq<u8>|
        #[trigger] ComposeCodec::<(C0, C1, C2, C3, C4)>::decoding(p5 + rest) == (Some((m0, m1, m2, m3, m4)), p5.len()) by {
        let t5 = rest;
        let t4 = b4 + t5;
        lemma_concat_assoc(p4, b4, t5);
        let t3 = b3 + t4;
        lemma_concat_assoc(p3, b3, t4);
        let t2 = b2 + t3;
        lemma_concat_assoc(p2, b2, t3);
        let t1 = b1 + t2;
        lemma_concat_assoc(p1, b1, t2);
        lemma_skip_prefix(p1, t1);
        lemma_skip_prefix(p2, t2);
        lemma_skip_prefix(p3, t3);
        lemma_skip_prefix(p4, t4);
        assert(C0::decoding(b0 + t1) == (Some(m0), b0.len()));
        assert(C1::decoding(b1 + t2) == (Some(m1), b1.len()));
        assert(C2::decoding(b2 + t3) == (Some(m2), b2.len()));
        assert(C3::decoding(b3 + t4) == (Some(m3), b3.len()));
        assert(C4::decoding(b4 + t5) == (Some(m4), b4.len()));
    }
}

/// Why a composition of 6 codecs failed: the variant names the codec that failed.
#[derive(Debug)]
pub enum ComposeCodecError6<C0, C1, C2, C3, C4, C5> {
    /// The codec in position 0 failed.
    C0(C0),
    /// The codec in position 1 failed.
    C1(C1),
    /// The codec in position 2 failed.
    C2(C2),
    /// The codec in position 3 failed.
    C3(C3),
    /// The codec in position 4 failed.
    C4(C4),
    /// The codec in position 5 failed.
    C5(C5),
}

impl<'a, C0: Encode<'a>, C1: Encode<'a>, C2: Encode<'a>, C3: Encode<'a>, C4: Encode<'a>, C5: Encode<'a>> Encode<'a> for ComposeCodec<(C0, C1, C2, C3, C4, C5)> {
    type Item = (&'a C0::Item, &'a C1::Item, &'a C2::Item, &'a C3::Item, &'a C4::Item, &'a C5::Item);
    type Error = ComposeCodecError6<C0::Error, C1::Error, C2::Error, C3::Error, C4::Error, C5::Error>;

    open spec fn encoding(item: &Self::Item) -> Option<Seq<u8>> {
        match C0::encoding(item.0) {
            None => None,
            Some(b0) => {
                match C1::encoding(item.1) {
                    None => None,
                    Some(b1) => {
                        match C2::encoding(item.2) {
                            None => None,
                            Some(b2) => {
                                match C3::encoding(item.3) {
                                    None => None,
                                    Some(b3) => {
                                        match C4::encoding(item.4) {
                                            None => None,
                                            Some(b4) => {
                                                match C5::encoding(item.5) {
                                                    None => None,
                                                    Some(b5) => Some(b0 + b1 + b2 + b3 + b4 + b5),
                                                }
                                            },
                                        }
                                    },
                                }
                            },
                        }
                    },
                }
            },
        }
    }

    fn encode(into: EncodingVec<Fresh>, item: &Self::Item) -> (r: Result<EncodingVec<Fresh>, Self::Error>)
        ensures
            r matches Err(ComposeCodecError6::C0(_)) ==> C0::encoding(item.0) is None,
            r matches Err(ComposeCodecError6::C1(_)) ==> C0::encoding(item.0) is Some && C1::encoding(item.1) is None,
            r matches Err(ComposeCodecError6::C2(_)) ==> C0::encoding(item.0) is Some && C1::encoding(item.1) is Some && C2::encoding(item.2) is None,
            r matches Err(ComposeCodecError6::C3(_)) ==> C0::encoding(item.0) is Some && C1::encoding(item.1) is Some && C2::encoding(item.2) is Some && C3::encoding(item.3) is None,
            r matches Err(ComposeCodecError6::C4(_)) ==> C0::encoding(item.0) is Some && C1::encoding(item.1) is Some && C2::encoding(item.2) is Some && C3::encoding(item.3) is Some && C4::encoding(item.4) is None,
            r matches Err(ComposeCodecError6::C5(_)) ==> C0::encoding(item.0) is Some && C1::encoding(item.1) is Some && C2::encoding(item.2) is Some && C3::encoding(item.3) is Some && C4::encoding(item.4) is Some && C5::encoding(item.5) is None,
    {
        let ghost start = into.bytes();
        let ret = match C0::encode(into, item.0) {
            Ok(v) => v,
            Err(e) => return Err(ComposeCodecError6::C0(e)),
        };
        let ghost acc0 = C0::encoding(item.0).unwrap();
        let ret = match C1::encode(ret, item.1) {
            Ok(v) => v,
            Err(e) => return Err(ComposeCodecError6::C1(e)),
        };
        let ghost acc1 = acc0 + C1::encoding(item.1).unwrap();
        proof {
            lemma_concat_assoc(start, acc0, C1::encoding(item.1).unwrap());
        }
        let ret = match C2::encode(ret, item.2) {
            Ok(v) => v,
            Err(e) => return Err(ComposeCodecError6::C2(e)),
        };
        let ghost acc2 = acc1 + C2::encoding(item.2).unwrap();
        proof {
            lemma_concat_assoc(start, acc1, C2::encoding(item.2).unwrap());
        }
        let ret = match C3::encode(ret, item.3) {
            Ok(v) => v,
            Err(e) => return Err(ComposeCodecError6::C3(e)),
        };
        let ghost acc3 = acc2 + C3::encoding(item.3).unwrap();
        proof {
            lemma_concat_assoc(start, acc2, C3::encoding(item.3).unwrap());
        }
        let ret = match C4::encode(ret, item.4) {
            Ok(v) => v,
            Err(e) => return Err(ComposeCodecError6::C4(e)),
        };
        let ghost acc4 = acc3 + C4::encoding(item.4).unwrap();
        proof {
            lemma_concat_assoc(start, acc3, C4::encoding(item.4).unwrap());
        }
        let ret = match C5::encode(ret, item.5) {
            Ok(v) => v,
            Err(e) => return Err(ComposeCodecError6::C5(e)),
        };
        proof {
            lemma_concat_assoc(start, acc4, C5::encoding(item.5).unwrap());
        }
        Ok(ret)
    }
}

impl<C0: Decode, C1: Decode, C2: Decode, C3: Decode, C4: Decode, C5: Decode> Decode for ComposeCodec<(C0, C1, C2, C3, C4, C5)> {
    type Item = (C0::Item, C1::Item, C2::Item, C3::Item, C4::Item, C5::Item);
    type Error = ComposeCodecError6<C0::Error, C1::Error, C2::Error, C3::Error, C4::Error, C5::Error>;
    type Model = (C0::Model, C1::Model, C2::Model, C3::Model, C4::Model, C5::Model);

    open spec fn model(item: &Self::Item) -> Self::Model {
        (C0::model(&item.0), C1::model(&item.1), C2::model(&item.2), C3::model(&item.3), C4::model(&item.4), C5::model(&item.5))
    }

    open spec fn decoding(input: Seq<u8>) -> (Option<Self::Model>, nat) {
        let d0 = C0::decoding(input);
        let o1 = d0.1;
        match d0.0 {
            None => (None, o1),
            Some(m0) => {
                let d1 = C1::decoding(input.skip(o1 as int));
                let o2 = o1 + d1.1;
                match d1.0 {
                    None => (None, o2),
                    Some(m1) => {
                        let d2 = C2::decoding(input.skip(o2 as int));
                        let o3 = o2 + d2.1;
                        match d2.0 {
                            None => (None, o3),
                            Some(m2) => {
                                let d3 = C3::decoding(input.skip(o3 as int));
                                let o4 = o3 + d3.1;
                                match d3.0 {
                                    None => (None, o4),
                                    Some(m3) => {
                                        let d4 = C4::decoding(input.skip(o4 as int));
                                        let o5 = o4 + d4.1;
                                        match d4.0 {
                                            None => (None, o5),
                                            Some(m4) => {
                                                let d5 = C5::decoding(input.skip(o5 as int));
                                                let o6 = o5 + d5.1;
                                                match d5.0 {
                                                    None => (None, o6),
                                                    Some(m5) => (Some((m0, m1, m2, m3, m4, m5)), o6),
                                                }
                                            },
                                        }
                                    },
                                }
                            },
                        }
                    },
                }
            },
        }
    }

    fn decode(bytes: &mut DecodingVec) -> (r: Result<Self::Item, Self::Error>)
        ensures
            ({
                let input = old(bytes)@;
                let d0 = C0::decoding(input);
                let o1 = d0.1;
                let d1 = C1::decoding(input.skip(o1 as int));
                let o2 = o1 + d1.1;
                let d2 = C2::decoding(input.skip(o2 as int));
                let o3 = o2 + d2.1;
                let d3 = C3::decoding(input.skip(o3 as int));
                let o4 = o3 + d3.1;
                let d4 = C4::decoding(input.skip(o4 as int));
                let o5 = o4 + d4.1;
                let d5 = C5::decoding(input.skip(o5 as int));
                let o6 = o5 + d5.1;
                &&& (r matches Err(ComposeCodecError6::C0(_)) <==> d0.0 is None)
                &&& (r matches Err(ComposeCodecError6::C1(_)) <==> d0.0 is Some && d1.0 is None)
                &&& (r matches Err(ComposeCodecError6::C2(_)) <==> d0.0 is Some && d1.0 is Some && d2.0 is None)
                &&& (r matches Err(ComposeCodecError6::C3(_)) <==> d0.0 is Some && d1.0 is Some && d2.0 is Some && d3.0 is None)
                &&& (r matches Err(ComposeCodecError6::C4(_)) <==> d0.0 is Some && d1.0 is Some && d2.0 is Some && d3.0 is Some && d4.0 is None)
                &&& (r matches Err(ComposeCodecError6::C5(_)) <==> d0.0 is Some && d1.0 is Some && d2.0 is Some && d3.0 is Some && d4.0 is Some && d5.0 is None)
            }),
    {
        let ghost input = bytes@;
        let ghost o1 = C0::decoding(input).1;
        let r0 = C0::decode(bytes);
        assert(bytes@ =~= input.skip(o1 as int));
        let v0 = match r0 {
            Ok(v) => v,
            Err(e) => return Err(ComposeCodecError6::C0(e)),
        };
        let ghost o2 = o1 + C1::decoding(input.skip(o1 as int)).1;
        let r1 = C1::decode(bytes);
        assert(bytes@ =~= input.skip(o2 as int));
        let v1 = match r1 {
            Ok(v) => v,
            Err(e) => return Err(ComposeCodecError6::C1(e)),
        };
        let ghost o3 = o2 + C2::decoding(input.skip(o2 as int)).1;
        let r2 = C2::decode(bytes);
        assert(bytes@ =~= input.skip(o3 as int));
        let v2 = match r2 {
            Ok(v) => v,
            Err(e) => return Err(ComposeCodecError6::C2(e)),
        };
        let ghost o4 = o3 + C3::decoding(input.skip(o3 as int)).1;
        let r3 = C3::decode(bytes);
        assert(bytes@ =~= input.skip(o4 as int));
        let v3 = match r3 {
            Ok(v) => v,
            Err(e) => return Err(ComposeCodecError6::C3(e)),
        };
        let ghost o5 = o4 + C4::decoding(input.skip(o4 as int)).1;
        let r4 = C4::decode(bytes);
        assert(bytes@ =~= input.skip(o5 as int));
        let v4 = match r4 {
            Ok(v) => v,
            Err(e) => return Err(ComposeCodecError6::C4(e)),
        };
        let ghost o6 = o5 + C5::decoding(input.skip(o5 as int)).1;
        let r5 = C5::decode(bytes);
        assert(bytes@ =~= input.skip(o6 as int));
        let v5 = match r5 {
            Ok(v) => v,
            Err(e) => return Err(ComposeCodecError6::C5(e)),
        };
        Ok((v0, v1, v2, v3, v4, v5))
    }
}

/// When every codec but the last recovers its item whatever follows it, and the last one
/// recovers its item from its own encoding, the composition recovers the whole tuple from
/// its encoding.
pub proof fn lemma_compose6_roundtrip<'a, C0: Encode<'a> + Decode, C1: Encode<'a> + Decode, C2: Encode<'a> + Decode, C3: Encode<'a> + Decode, C4: Encode<'a> + Decode, C5: Encode<'a> + Decode>(
    item: &<ComposeCodec<(C0, C1, C2, C3, C4, C5)> as Encode<'a>>::Item,
    m0: <C0 as Decode>::Model, m1: <C1 as Decode>::Model, m2: <C2 as Decode>::Model, m3: <C3 as Decode>::Model, m4: <C4 as Decode>::Model, m5: <C5 as Decode>::Model,
)
    requires
        roundtrips_before_anything::<C0>(item.0, m0),
        roundtrips_before_anything::<C1>(item.1, m1),
        roundtrips_before_anything::<C2>(item.2, m2),
        roundtrips_before_anything::<C3>(item.3, m3),
        roundtrips_before_anything::<C4>(item.4, m4),
        roundtrips_alone::<C5>(item.5, m5),
    ensures
        roundtrips_alone::<ComposeCodec<(C0, C1, C2, C3, C4, C5)>>(item, (m0, m1, m2, m3, m4, m5)),
{
    let b0 = C0::encoding(item.0).unwrap();
    let b1 = C1::encoding(item.1).unwrap();
    let b2 = C2::encoding(item.2).unwrap();
    let b3 = C3::encoding(item.3).unwrap();
    let b4 = C4::encoding(item.4).unwrap();
    let b5 = C5::encoding(item.5).unwrap();
    let p1 = b0;
    let p2 = p1 + b1;
    let p3 = p2 + b2;
    let p4 = p3 + b3;
    let p5 = p4 + b4;
    let p6 = p5 + b5;
    assert(ComposeCodec::<(C0, C1, C2, C3, C4, C5)>::encoding(item) == Some(p6));
    let t5 = b5;
    let t4 = b4 + t5;
    lemma_concat_assoc(p4, b4, t5);
    let t3 = b3 + t4;
    lemma_concat_assoc(p3, b3, t4);
    let t2 = b2 + t3;
    lemma_concat_assoc(p2, b2, t3);
    let t1 = b1 + t2;
    lemma_concat_assoc(p1, b1, t2);
    lemma_skip_prefix(p1, t1);
    lemma_skip_prefix(p2, t2);
    lemma_skip_prefix(p3, t3);
    lemma_skip_prefix(p4, t4);
    lemma_skip_prefix(p5, t5);
    assert(C0::decoding(b0 + t1) == (Some(m0), b0.len()));
    assert(C1::decoding(b1 + t2) == (Some(m1), b1.len()));
    assert(C2::decoding(b2 + t3) == (Some(m2), b2.len()));
    assert(C3::decoding(b3 + t4) == (Some(m3), b3.len()));
    assert(C4::decoding(b4 + t5) == (Some(m4), b4.len()));
    assert(C5::decoding(b5) == (Some(m5), b5.len()));
}

/// When every codec recovers its item whatever follows it, so does the composition: it can
/// itself stand before another codec.
pub proof fn lemma_compose6_roundtrip_before_anything<'a, C0: Encode<'a> + Decode, C1: Encode<'a> + Decode, C2: Encode<'a> + Decode, C3: Encode<'a> + Decode, C4: Encode<'a> + Decode, C5: Encode<'a> + Decode>(
    item: &<ComposeCodec<(C0, C1, C2, C3, C4, C5)> as Encode<'a>>::Item,
    m0: <C0 as Decode>::Model, m1: <C1 as Decode>::Model, m2: <C2 as Decode>::Model, m3: <C3 as Decode>::Model, m4: <C4 as Decode>::Model, m5: <C5 as Decode>::Model,
)
    requires
        roundtrips_before_anything::<C0>(item.0, m0),
        roundtrips_before_anything::<C1>(item.1, m1),
        roundtrips_before_anything::<C2>(item.2, m2),
        roundtrips_before_anything::<C3>(item.3, m3),
        roundtrips_before_anything::<C4>(item.4, m4),
        roundtrips_before_anything::<C5>(item.5, m5),
    ensures
        roundtrips_before_anything::<ComposeCodec<(C0, C1, C2, C3, C4, C5)>>(item, (m0, m1, m2, m3, m4, m5)),
{
    let b0 = C0::encoding(item.0).unwrap();
    let b1 = C1::encoding(item.1).unwrap();
    let b2 = C2::encoding(item.2).unwrap();
    let b3 = C3::encoding(item.3).unwrap();
    let b4 = C4::encoding(item.4).unwrap();
    let b5 = C5::encoding(item.5).unwrap();
    let p1 = b0;
    let p2 = p1 + b1;
    let p3 = p2 + b2;
    let p4 = p3 + b3;
    let p5 = p4 + b4;
    let p6 = p5 + b5;
    assert(ComposeCodec::<(C0, C1, C2, C3, C4, C5)>::encoding(item) == Some(p6));
    assert forall|rest: Seq<u8>|
        #[trigger] ComposeCodec::<(C0, C1, C2, C3, C4, C5)>::decoding(p6 + rest) == (Some((m0, m1, m2, m3, m4, m5)), p6.len()) by {
        let t6 = rest;
        let t5 = b5 + t6;
        lemma_concat_assoc(p5, b5, t6);
        let t4 = b4 + t5;
        lemma_concat_assoc(p4, b4, t5);
        let t3 = b3 + t4;
        lemma_concat_assoc(p3, b3, t4);
        let t2 = b2 + t3;
        lemma_concat_assoc(p2, b2, t3);
        let t1 = b1 + t2;
        lemma_concat_assoc(p1, b1, t2);
        lemma_skip_prefix(p1, t1);
        lemma_skip_prefix(p2, t2);
        lemma_skip_prefix(p3, t3);
        lemma_skip_prefix(p4, t4);
        lemma_skip_prefix(p5, t5);
        assert(C0::decoding(b0 + t1) == (Some(m0), b0.len()));
        assert(C1::decoding(b1 + t2) == (Some(m1), b1.len()));
        assert(C2::decoding(b2 + t3) == (Some(m2), b2.len()));
        assert(C3::decoding(b3 + t4) == (Some(m3), b3.len()));
        assert(C4::decoding(b4 + t5) == (Some(m4), b4.len()));
        assert(C5::decoding(b5 + t6) == (Some(m5), b5.len()));
    }
}

/// Why a composition of 7 codecs failed: the variant names the codec that failed.
#[derive(Debug)]
pub enum ComposeCodecError7<C0, C1, C2, C3, C4, C5, C6> {
    /// The codec in position 0 failed.
    C0(C0),
    /// The codec in position 1 failed.
    C1(C1),
    /// The codec in position 2 failed.
    C2(C2),
    /// The codec in position 3 failed.
    C3(C3),
    /// The codec in position 4 failed.
    C4(C4),
    /// The codec in position 5 failed.
    C5(C5),
    /// The codec in position 6 failed.
    C6(C6),
}

impl<'a, C0: Encode<'a>, C1: Encode<'a>, C2: Encode<'a>, C3: Encode<'a>, C4: Encode<'a>, C5: Encode<'a>, C6: Encode<'a>> Encode<'a> for ComposeCodec<(C0, C1, C2, C3, C4, C5, C6)> {
    type Item = (&'a C0::Item, &'a C1::Item, &'a C2::Item, &'a C3::Item, &'a C4::Item, &'a C5::Item, &'a C6::Item);
    type Error = ComposeCodecError7<C0::Error, C1::Error, C2::Error, C3::Error, C4::Error, C5::Error, C6::Error>;

    open spec fn encoding(item: &Self::Item) -> Option<Seq<u8>> {
        match C0::encoding(item.0) {
            None => None,
            Some(b0) => {
                match C1::encoding(item.1) {
                    None => None,
                    Some(b1) => {
                        match C2::encoding(item.2) {
                            None => None,
                            Some(b2) => {
                                match C3::encoding(item.3) {
                                    None => None,
                                    Some(b3) => {
                                        match C4::encoding(item.4) {
                                            None => None,
                                            Some(b4) => {
                                                match C5::encoding(item.5) {
                                                    None => None,
                                                    Some(b5) => {
                                                        match C6::encoding(item.6) {
                                                            None => None,
                                                            Some(b6) => Some(b0 + b1 + b2 + b3 + b4 + b5 + b6),
                                                        }
                                                    },
                                                }
                                            },
                                        }
                                    },
                                }
                            },
                        }
                    },
                }
            },
        }
    }

    fn encode(into: EncodingVec<Fresh>, item: &Self::Item) -> (r: Result<EncodingVec<Fresh>, Self::Error>)
        ensures
            r matches Err(ComposeCodecError7::C0(_)) ==> C0::encoding(item.0) is None,
            r matches Err(ComposeCodecError7::C1(_)) ==> C0::encoding(item.0) is Some && C1::encoding(item.1) is None,
            r matches Err(ComposeCodecError7::C2(_)) ==> C0::encoding(item.0) is Some && C1::encoding(item.1) is Some && C2::encoding(item.2) is None,
            r matches Err(ComposeCodecError7::C3(_)) ==> C0::encoding(item.0) is Some && C1::encoding(item.1) is Some && C2::encoding(item.2) is Some && C3::encoding(item.3) is None,
            r matches Err(ComposeCodecError7::C4(_)) ==> C0::encoding(item.0) is Some && C1::encoding(item.1) is Some && C2::encoding(item.2) is Some && C3::encoding(item.3) is Some && C4::encoding(item.4) is None,
            r matches Err(ComposeCodecError7::C5(_)) ==> C0::encoding(item.0) is Some && C1::encoding(item.1) is Some && C2::encoding(item.2) is Some && C3::encoding(item.3) is Some && C4::encoding(item.4) is Some && C5::encoding(item.5) is None,
            r matches Err(ComposeCodecError7::C6(_)) ==> C0::encoding(item.0) is Some && C1::encoding(item.1) is Some && C2::encoding(item.2) is Some && C3::encoding(item.3) is Some && C4::encoding(item.4) is Some && C5::encoding(item.5) is Some && C6::encoding(item.6) is None,
    {
        let ghost start = into.bytes();
        let ret = match C0::encode(into, item.0) {
            Ok(v) => v,
            Err(e) => return Err(ComposeCodecError7::C0(e)),
        };
        let ghost acc0 = C0::encoding(item.0).unwrap();
        let ret = match C1::encode(ret, item.1) {
            Ok(v) => v,
            Err(e) => return Err(ComposeCodecError7::C1(e)),
        };
        let ghost acc1 = acc0 + C1::encoding(item.1).unwrap();
        proof {
            lemma_concat_assoc(start, acc0, C1::encoding(item.1).unwrap());
        }
        let ret = match C2::encode(ret, item.2) {
            Ok(v) => v,
            Err(e) => return Err(ComposeCodecError7::C2(e)),
        };
        let ghost acc2 = acc1 + C2::encoding(item.2).unwrap();
        proof {
            lemma_concat_assoc(start, acc1, C2::encoding(item.2).unwrap());
        }
        let ret = match C3::encode(ret, item.3) {
            Ok(v) => v,
            Err(e) => return Err(ComposeCodecError7::C3(e)),
        };
        let ghost acc3 = acc2 + C3::encoding(item.3).unwrap();
        proof {
            lemma_concat_assoc(start, acc2, C3::encoding(item.3).unwrap());
        }
        let ret = match C4::encode(ret, item.4) {
            Ok(v) => v,
            Err(e) => return Err(ComposeCodecError7::C4(e)),
        };
        let ghost acc4 = acc3 + C4::encoding(item.4).unwrap();
        proof {
            lemma_concat_assoc(start, acc3, C4::encoding(item.4).unwrap());
        }
        let ret = match C5::encode(ret, item.5) {
            Ok(v) => v,
            Err(e) => return Err(ComposeCodecError7::C5(e)),
        };
        let ghost acc5 = acc4 + C5::encoding(item.5).unwrap();
        proof {
            lemma_concat_assoc(start, acc4, C5::encoding(item.5).unwrap());
        }
        let ret = match C6::encode(ret, item.6) {
            Ok(v) => v,
            Err(e) => return Err(ComposeCodecError7::C6(e)),
        };
        proof {
            lemma_concat_assoc(start, acc5, C6::encoding(item.6).unwrap());
        }
        Ok(ret)
    }
}

impl<C0: Decode, C1: Decode, C2: Decode, C3: Decode, C4: Decode, C5: Decode, C6: Decode> Decode for ComposeCodec<(C0, C1, C2, C3, C4, C5, C6)> {
    type Item = (C0::Item, C1::Item, C2::Item, C3::Item, C4::Item, C5::Item, C6::Item);
    type Error = ComposeCodecError7<C0::Error, C1::Error, C2::Error, C3::Error, C4::Error, C5::Error, C6::Error>;
    type Model = (C0::Model, C1::Model, C2::Model, C3::Model, C4::Model, C5::Model, C6::Model);

    open spec fn model(item: &Self::Item) -> Self::Model {
        (C0::model(&item.0), C1::model(&item.1), C2::model(&item.2), C3::model(&item.3), C4::model(&item.4), C5::model(&item.5), C6::model(&item.6))
    }

    open spec fn decoding(input: Seq<u8>) -> (Option<Self::Model>, nat) {
        let d0 = C0::decoding(input);
        let o1 = d0.1;
        match d0.0 {
            None => (None, o1),
            Some(m0) => {
                let d1 = C1::decoding(input.skip(o1 as int));
                let o2 = o1 + d1.1;
                match d1.0 {
                    None => (None, o2),
                    Some(m1) => {
                        let d2 = C2::decoding(input.skip(o2 as int));
                        let o3 = o2 + d2.1;
                        match d2.0 {
                            None => (None, o3),
                            Some(m2) => {
                                let d3 = C3::decoding(input.skip(o3 as int));
                                let o4 = o3 + d3.1;
                                match d3.0 {
                                    None => (None, o4),
                                    Some(m3) => {
                                        let d4 = C4::decoding(input.skip(o4 as int));
                                        let o5 = o4 + d4.1;
                                        match d4.0 {
                                            None => (None, o5),
                                            Some(m4) => {
                                                let d5 = C5::decoding(input.skip(o5 as int));
                                                let o6 = o5 + d5.1;
                                                match d5.0 {
                                                    None => (None, o6),
                                                    Some(m5) => {
                                                        let d6 = C6::decoding(input.skip(o6 as int));
                                                        let o7 = o6 + d6.1;
                                                        match d6.0 {
                                                            None => (None, o7),
                                                            Some(m6) => (Some((m0, m1, m2, m3, m4, m5, m6)), o7),
                                                        }
                                                    },
                                                }
                                            },
                                        }
                                    },
                                }
                            },
                        }
                    },
                }
            },
        }
    }

    fn decode(bytes: &mut DecodingVec) -> (r: Result<Self::Item, Self::Error>)
        ensures
            ({
                let input = old(bytes)@;
                let d0 = C0::decoding(input);
                let o1 = d0.1;
                let d1 = C1::decoding(input.skip(o1 as int));
                let o2 = o1 + d1.1;
                let d2 = C2::decoding(input.skip(o2 as int));
                let o3 = o2 + d2.1;
                let d3 = C3::decoding(input.skip(o3 as int));
                let o4 = o3 + d3.1;
                let d4 = C4::decoding(input.skip(o4 as int));
                let o5 = o4 + d4.1;
                let d5 = C5::decoding(input.skip(o5 as int));
                let o6 = o5 + d5.1;
                let d6 = C6::decoding(input.skip(o6 as int));
                let o7 = o6 + d6.1;
                &&& (r matches Err(ComposeCodecError7::C0(_)) <==> d0.0 is None)
                &&& (r matches Err(ComposeCodecError7::C1(_)) <==> d0.0 is Some && d1.0 is None)
                &&& (r matches Err(ComposeCodecError7::C2(_)) <==> d0.0 is Some && d1.0 is Some && d2.0 is None)
                &&& (r matches Err(ComposeCodecError7::C3(_)) <==> d0.0 is Some && d1.0 is Some && d2.0 is Some && d3.0 is None)
                &&& (r matches Err(ComposeCodecError7::C4(_)) <==> d0.0 is Some && d1.0 is Some && d2.0 is Some && d3.0 is Some && d4.0 is None)
                &&& (r matches Err(ComposeCodecError7::C5(_)) <==> d0.0 is Some && d1.0 is Some && d2.0 is Some && d3.0 is Some && d4.0 is Some && d5.0 is None)
                &&& (r matches Err(ComposeCodecError7::C6(_)) <==> d0.0 is Some && d1.0 is Some && d2.0 is Some && d3.0 is Some && d4.0 is Some && d5.0 is Some && d6.0 is None)
            }),
    {
        let ghost input = bytes@;
        let ghost o1 = C0::decoding(input).1;
        let r0 = C0::decode(bytes);
        assert(bytes@ =~= input.skip(o1 as int));
        let v0 = match r0 {
            Ok(v) => v,
            Err(e) => return Err(ComposeCodecError7::C0(e)),
        };
        let ghost o2 = o1 + C1::decoding(input.skip(o1 as int)).1;
        let r1 = C1::decode(bytes);
        assert(bytes@ =~= input.skip(o2 as int));
        let v1 = match r1 {
            Ok(v) => v,
            Err(e) => return Err(ComposeCodecError7::C1(e)),
        };
        let ghost o3 = o2 + C2::decoding(input.skip(o2 as int)).1;
        let r2 = C2::decode(bytes);
        assert(bytes@ =~= input.skip(o3 as int));
        let v2 = match r2 {
            Ok(v) => v,
            Err(e) => return Err(ComposeCodecError7::C2(e)),
        };
        let ghost o4 = o3 + C3::decoding(input.skip(o3 as int)).1;
        let r3 = C3::decode(bytes);
        assert(bytes@ =~= input.skip(o4 as int));
        let v3 = match r3 {
            Ok(v) => v,
            Err(e) => return Err(ComposeCodecError7::C3(e)),
        };
        let ghost o5 = o4 + C4::decoding(input.skip(o4 as int)).1;
        let r4 = C4::decode(bytes);
        assert(bytes@ =~= input.skip(o5 as int));
        let v4 = match r4 {
            Ok(v) => v,
            Err(e) => return Err(ComposeCodecError7::C4(e)),
        };
        let ghost o6 = o5 + C5::decoding(input.skip(o5 as int)).1;
        let r5 = C5::decode(bytes);
        assert(bytes@ =~= input.skip(o6 as int));
        let v5 = match r5 {
            Ok(v) => v,
            Err(e) => return Err(ComposeCodecError7::C5(e)),
        };
        let ghost o7 = o6 + C6::decoding(input.skip(o6 as int)).1;
        let r6 = C6::decode(bytes);
        assert(bytes@ =~= input.skip(o7 as int));
        let v6 = match r6 {
            Ok(v) => v,
            Err(e) => return Err(ComposeCodecError7::C6(e)),
        };
        Ok((v0, v1, v2, v3, v4, v5, v6))
    }
}

/// When every codec but the last recovers its item whatever follows it, and the last one
/// recovers its item from its own encoding, the composition recovers the whole tuple from
/// its encoding.
pub proof fn lemma_compose7_roundtrip<'a, C0: Encode<'a> + Decode, C1: Encode<'a> + Decode, C2: Encode<'a> + Decode, C3: Encode<'a> + Decode, C4: Encode<'a> + Decode, C5: Encode<'a> + Decode, C6: Encode<'a> + Decode>(
    item: &<ComposeCodec<(C0, C1, C2, C3, C4, C5, C6)> as Encode<'a>>::Item,
    m0: <C0 as Decode>::Model, m1: <C1 as Decode>::Model, m2: <C2 as Decode>::Model, m3: <C3 as Decode>::Model, m4: <C4 as Decode>::Model, m5: <C5 as Decode>::Model, m6: <C6 as Decode>::Model,
)
    requires
        roundtrips_before_anything::<C0>(item.0, m0),
        roundtrips_before_anything::<C1>(item.1, m1),
        roundtrips_before_anything::<C2>(item.2, m2),
        roundtrips_before_anything::<C3>(item.3, m3),
        roundtrips_before_anything::<C4>(item.4, m4),
        roundtrips_before_anything::<C5>(item.5, m5),
        roundtrips_alone::<C6>(item.6, m6),
    ensures
        roundtrips_alone::<ComposeCodec<(C0, C1, C2, C3, C4, C5, C6)>>(item, (m0, m1, m2, m3, m4, m5, m6)),
{
    let b0 = C0::encoding(item.0).unwrap();
    let b1 = C1::encoding(item.1).unwrap();
    let b2 = C2::encoding(item.2).unwrap();
    let b3 = C3::encoding(item.3).unwrap();
    let b4 = C4::encoding(item.4).unwrap();
    let b5 = C5::encoding(item.5).unwrap();
    let b6 = C6::encoding(item.6).unwrap();
    let p1 = b0;
    let p2 = p1 + b1;
    let p3 = p2 + b2;
    let p4 = p3 + b3;
    let p5 = p4 + b4;
    let p6 = p5 + b5;
    let p7 = p6 + b6;
    assert(ComposeCodec::<(C0, C1, C2, C3, C4, C5, C6)>::encoding(item) == Some(p7));
    let t6 = b6;
    let t5 = b5 + t6;
    lemma_concat_assoc(p5, b5, t6);
    let t4 = b4 + t5;
    lemma_concat_assoc(p4, b4, t5);
    let t3 = b3 + t4;
    lemma_concat_assoc(p3, b3, t4);
    let t2 = b2 + t3;
    lemma_concat_assoc(p2, b2, t3);
    let t1 = b1 + t2;
    lemma_concat_assoc(p1, b1, t2);
    lemma_skip_prefix(p1, t1);
    lemma_skip_prefix(p2, t2);
    lemma_skip_prefix(p3, t3);
    lemma_skip_prefix(p4, t4);
    lemma_skip_prefix(p5, t5);
    lemma_skip_prefix(p6, t6);
    assert(C0::decoding(b0 + t1) == (Some(m0), b0.len()));
    assert(C1::decoding(b1 + t2) == (Some(m1), b1.len()));
    assert(C2::decoding(b2 + t3) == (Some(m2), b2.len()));
    assert(C3::decoding(b3 + t4) == (Some(m3), b3.len()));
    assert(C4::decoding(b4 + t5) == (Some(m4), b4.len()));
    assert(C5::decoding(b5 + t6) == (Some(m5), b5.len()));
    assert(C6::decoding(b6) == (Some(m6), b6.len()));
}

/// When every codec recovers its item whatever follows it, so does the composition: it can
/// itself stand before another codec.
pub proof fn lemma_compose7_roundtrip_before_anything<'a, C0: Encode<'a> + Decode, C1: Encode<'a> + Decode, C2: Encode<'a> + Decode, C3: Encode<'a> + Decode, C4: Encode<'a> + Decode, C5: Encode<'a> + Decode, C6: Encode<'a> + Decode>(
    item: &<ComposeCodec<(C0, C1, C2, C3, C4, C5, C6)> as Encode<'a>>::Item,
    m0: <C0 as Decode>::Model, m1: <C1 as Decode>::Model, m2: <C2 as Decode>::Model, m3: <C3 as Decode>::Model, m4: <C4 as Decode>::Model, m5: <C5 as Decode>::Model, m6: <C6 as Decode>::Model,
)
    requires
        roundtrips_before_anything::<C0>(item.0, m0),
        roundtrips_before_anything::<C1>(item.1, m1),
        roundtrips_before_anything::<C2>(item.2, m2),
        roundtrips_before_anything::<C3>(item.3, m3),
        roundtrips_before_anything::<C4>(item.4, m4),
        roundtrips_before_anything::<C5>(item.5, m5),
        roundtrips_before_anything::<C6>(item.6, m6),
    ensures
        roundtrips_before_anything::<ComposeCodec<(C0, C1, C2, C3, C4, C5, C6)>>(item, (m0, m1, m2, m3, m4, m5, m6)),
{
    let b0 = C0::encoding(item.0).unwrap();
    let b1 = C1::encoding(item.1).unwrap();
    let b2 = C2::encoding(item.2).unwrap();
    let b3 = C3::encoding(item.3).unwrap();
    let b4 = C4::encoding(item.4).unwrap();
    let b5 = C5::encoding(item.5).unwrap();
    let b6 = C6::encoding(item.6).unwrap();
    let p1 = b0;
    let p2 = p1 + b1;
    let p3 = p2 + b2;
    let p4 = p3 + b3;
    let p5 = p4 + b4;
    let p6 = p5 + b5;
    let p7 = p6 + b6;
    assert(ComposeCodec::<(C0, C1, C2, C3, C4, C5, C6)>::encoding(item) == Some(p7));
    assert forall|rest: Seq<u8>|
        #[trigger] ComposeCodec::<(C0, C1, C2, C3, C4, C5, C6)>::decoding(p7 + rest) == (Some((m0, m1, m2, m3, m4, m5, m6)), p7.len()) by {
        let t7 = rest;
        let t6 = b6 + t7;
        lemma_concat_assoc(p6, b6, t7);
        let t5 = b5 + t6;
        lemma_concat_assoc(p5, b5, t6);
        let t4 = b4 + t5;
        lemma_concat_assoc(p4, b4, t5);
        let t3 = b3 + t4;
        lemma_concat_assoc(p3, b3, t4);
        let t2 = b2 + t3;
        lemma_concat_assoc(p2, b2, t3);
        let t1 = b1 + t2;
        lemma_concat_assoc(p1, b1, t2);
        lemma_skip_prefix(p1, t1);
        lemma_skip_prefix(p2, t2);
        lemma_skip_prefix(p3, t3);
        lemma_skip_prefix(p4, t4);
        lemma_skip_prefix(p5, t5);
        lemma_skip_prefix(p6, t6);
        assert(C0::decoding(b0 + t1) == (Some(m0), b0.len()));
        assert(C1::decoding(b1 + t2) == (Some(m1), b1.len()));
        assert(C2::decoding(b2 + t3) == (Some(m2), b2.len()));
        assert(C3::decoding(b3 + t4) == (Some(m3), b3.len()));
        assert(C4::decoding(b4 + t5) == (Some(m4), b4.len()));
        assert(C5::decoding(b5 + t6) == (Some(m5), b5.len()));
        assert(C6::decoding(b6 + t7) == (Some(m6), b6.len()));
    }
}

/// Why a composition of 8 codecs failed: the variant names the codec that failed.
#[derive(Debug)]
pub enum ComposeCodecError8<C0, C1, C2, C3, C4, C5, C6, C7> {
    /// The codec in position 0 failed.
    C0(C0),
    /// The codec in position 1 failed.
    C1(C1),
    /// The codec in position 2 failed.
    C2(C2),
    /// The codec in position 3 failed.
    C3(C3),
    /// The codec in position 4 failed.
    C4(C4),
    /// The codec in position 5 failed.
    C5(C5),
    /// The codec in position 6 failed.
    C6(C6),
    /// The codec in position 7 failed.
    C7(C7),
}

impl<'a, C0: Encode<'a>, C1: Encode<'a>, C2: Encode<'a>, C3: Encode<'a>, C4: Encode<'a>, C5: Encode<'a>, C6: Encode<'a>, C7: Encode<'a>> Encode<'a> for ComposeCodec<(C0, C1, C2, C3, C4, C5, C6, C7)> {
    type Item = (&'a C0::Item, &'a C1::Item, &'a C2::Item, &'a C3::Item, &'a C4::Item, &'a C5::Item, &'a C6::Item, &'a C7::Item);
    type Error = ComposeCodecError8<C0::Error, C1::Error, C2::Error, C3::Error, C4::Error, C5::Error, C6::Error, C7::Error>;

    open spec fn encoding(item: &Self::Item) -> Option<Seq<u8>> {
        match C0::encoding(item.0) {
            None => None,
            Some(b0) => {
                match C1::encoding(item.1) {
                    None => None,
                    Some(b1) => {
                        match C2::encoding(item.2) {
                            None => None,
                            Some(b2) => {
                                match C3::encoding(item.3) {
                                    None => None,
                                    Some(b3) => {
                                        match C4::encoding(item.4) {
                                            None => None,
                                            Some(b4) => {
                                                match C5::encoding(item.5) {
                                                    None => None,
                                                    Some(b5) => {
                                                        match C6::encoding(item.6) {
                                                            None => None,
                                                            Some(b6) => {
                                                                match C7::encoding(item.7) {
                                                                    None => None,
                                                                    Some(b7) => Some(b0 + b1 + b2 + b3 + b4 + b5 + b6 + b7),
                                                                }
                                                            },
                                                        }
                                                    },
                                                }
                                            },
                                        }
                                    },
                                }
                            },
                        }
                    },
                }
            },
        }
    }

    fn encode(into: EncodingVec<Fresh>, item: &Self::Item) -> (r: Result<EncodingVec<Fresh>, Self::Error>)
        ensures
            r matches Err(ComposeCodecError8::C0(_)) ==> C0::encoding(item.0) is None,
            r matches Err(ComposeCodecError8::C1(_)) ==> C0::encoding(item.0) is Some && C1::encoding(item.1) is None,
            r matches Err(ComposeCodecError8::C2(_)) ==> C0::encoding(item.0) is Some && C1::encoding(item.1) is Some && C2::encoding(item.2) is None,
            r matches Err(ComposeCodecError8::C3(_)) ==> C0::encoding(item.0) is Some && C1::encoding(item.1) is Some && C2::encoding(item.2) is Some && C3::encoding(item.3) is None,
            r matches Err(ComposeCodecError8::C4(_)) ==> C0::encoding(item.0) is Some && C1::encoding(item.1) is Some && C2::encoding(item.2) is Some && C3::encoding(item.3) is Some && C4::encoding(item.4) is None,
            r matches Err(ComposeCodecError8::C5(_)) ==> C0::encoding(item.0) is Some && C1::encoding(item.1) is Some && C2::encoding(item.2) is Some && C3::encoding(item.3) is Some && C4::encoding(item.4) is Some && C5::encoding(item.5) is None,
            r matches Err(ComposeCodecError8::C6(_)) ==> C0::encoding(item.0) is Some && C1::encoding(item.1) is Some && C2::encoding(item.2) is Some && C3::encoding(item.3) is Some && C4::encoding(item.4) is Some && C5::encoding(item.5) is Some && C6::encoding(item.6) is None,
            r matches Err(ComposeCodecError8::C7(_)) ==> C0::encoding(item.0) is Some && C1::encoding(item.1) is Some && C2::encoding(item.2) is Some && C3::encoding(item.3) is Some && C4::encoding(item.4) is Some && C5::encoding(item.5) is Some && C6::encoding(item.6) is Some && C7::encoding(item.7) is None,
    {
        let ghost start = into.bytes();
        let ret = match C0::encode(into, item.0) {
            Ok(v) => v,
            Err(e) => return Err(ComposeCodecError8::C0(e)),
        };
        let ghost acc0 = C0::encoding(item.0).unwrap();
        let ret = match C1::encode(ret, item.1) {
            Ok(v) => v,
            Err(e) => return Err(ComposeCodecError8::C1(e)),
        };
        let ghost acc1 = acc0 + C1::encoding(item.1).unwrap();
        proof {
            lemma_concat_assoc(start, acc0, C1::encoding(item.1).unwrap());
        }
        let ret = match C2::encode(ret, item.2) {
            Ok(v) => v,
            Err(e) => return Err(ComposeCodecError8::C2(e)),
        };
        let ghost acc2 = acc1 + C2::encoding(item.2).unwrap();
        proof {
            lemma_concat_assoc(start, acc1, C2::encoding(item.2).unwrap());
        }
        let ret = match C3::encode(ret, item.3) {
            Ok(v) => v,
            Err(e) => return Err(ComposeCodecError8::C3(e)),
        };
        let ghost acc3 = acc2 + C3::encoding(item.3).unwrap();
        proof {
            lemma_concat_assoc(start, acc2, C3::encoding(item.3).unwrap());
        }
        let ret = match C4::encode(ret, item.4) {
            Ok(v) => v,
            Err(e) => return Err(ComposeCodecError8::C4(e)),
        };
        let ghost acc4 = acc3 + C4::encoding(item.4).unwrap();
        proof {
            lemma_concat_assoc(start, acc3, C4::encoding(item.4).unwrap());
        }
        let ret = match C5::encode(ret, item.5) {
            Ok(v) => v,
            Err(e) => return Err(ComposeCodecError8::C5(e)),
        };
        let ghost acc5 = acc4 + C5::encoding(item.5).unwrap();
        proof {
            lemma_concat_assoc(start, acc4, C5::encoding(item.5).unwrap());
        }
        let ret = match C6::encode(ret, item.6) {
            Ok(v) => v,
            Err(e) => return Err(ComposeCodecError8::C6(e)),
        };
        let ghost acc6 = acc5 + C6::encoding(item.6).unwrap();
        proof {
            lemma_concat_assoc(start, acc5, C6::encoding(item.6).unwrap());
        }
        let ret = match C7::encode(ret, item.7) {
            Ok(v) => v,
            Err(e) => return Err(ComposeCodecError8::C7(e)),
        };
        proof {
            lemma_concat_assoc(start, acc6, C7::encoding(item.7).unwrap());
        }
        Ok(ret)
    }
}

impl<C0: Decode, C1: Decode, C2: Decode, C3: Decode, C4: Decode, C5: Decode, C6: Decode, C7: Decode> Decode for ComposeCodec<(C0, C1, C2, C3, C4, C5, C6, C7)> {
    type Item = (C0::Item, C1::Item, C2::Item, C3::Item, C4::Item, C5::Item, C6::Item, C7::Item);
    type Error = ComposeCodecError8<C0::Error, C1::Error, C2::Error, C3::Error, C4::Error, C5::Error, C6::Error, C7::Error>;
    type Model = (C0::Model, C1::Model, C2::Model, C3::Model, C4::Model, C5::Model, C6::Model, C7::Model);

    open spec fn model(item: &Self::Item) -> Self::Model {
        (C0::model(&item.0), C1::model(&item.1), C2::model(&item.2), C3::model(&item.3), C4::model(&item.4), C5::model(&item.5), C6::model(&item.6), C7::model(&item.7))
    }

    open spec fn decoding(input: Seq<u8>) -> (Option<Self::Model>, nat) {
        let d0 = C0::decoding(input);
        let o1 = d0.1;
        match d0.0 {
            None => (None, o1),
            Some(m0) => {
                let d1 = C1::decoding(input.skip(o1 as int));
                let o2 = o1 + d1.1;
                match d1.0 {
                    None => (None, o2),
                    Some(m1) => {
                        let d2 = C2::decoding(input.skip(o2 as int));
                        let o3 = o2 + d2.1;
                        match d2.0 {
                            None => (None, o3),
                            Some(m2) => {
                                let d3 = C3::decoding(input.skip(o3 as int));
                                let o4 = o3 + d3.1;
                                match d3.0 {
                                    None => (None, o4),
                                    Some(m3) => {
                                        let d4 = C4::decoding(input.skip(o4 as int));
                                        let o5 = o4 + d4.1;
                                        match d4.0 {
                                            None => (None, o5),
                                            Some(m4) => {
                                                let d5 = C5::decoding(input.skip(o5 as int));
                                                let o6 = o5 + d5.1;
                                                match d5.0 {
                                                    None => (None, o6),
                                                    Some(m5) => {
                                                        let d6 = C6::decoding(input.skip(o6 as int));
                                                        let o7 = o6 + d6.1;
                                                        match d6.0 {
                                                            None => (None, o7),
                                                            Some(m6) => {
                                                                let d7 = C7::decoding(input.skip(o7 as int));
                                                                let o8 = o7 + d7.1;
                                                                match d7.0 {
                                                                    None => (None, o8),
                                                                    Some(m7) => (Some((m0, m1, m2, m3, m4, m5, m6, m7)), o8),
                                                                }
                                                            },
                                                        }
                                                    },
                                                }
                                            },
                                        }
                                    },
                                }
                            },
                        }
                    },
                }
            },
        }
    }

    fn decode(bytes: &mut DecodingVec) -> (r: Result<Self::Item, Self::Error>)
        ensures
            ({
                let input = old(bytes)@;
                let d0 = C0::decoding(input);
                let o1 = d0.1;
                let d1 = C1::decoding(input.skip(o1 as int));
                let o2 = o1 + d1.1;
                let d2 = C2::decoding(input.skip(o2 as int));
                let o3 = o2 + d2.1;
                let d3 = C3::decoding(input.skip(o3 as int));
                let o4 = o3 + d3.1;
                let d4 = C4::decoding(input.skip(o4 as int));
                let o5 = o4 + d4.1;
                let d5 = C5::decoding(input.skip(o5 as int));
                let o6 = o5 + d5.1;
                let d6 = C6::decoding(input.skip(o6 as int));
                let o7 = o6 + d6.1;
                let d7 = C7::decoding(input.skip(o7 as int));
                let o8 = o7 + d7.1;
                &&& (r matches Err(ComposeCodecError8::C0(_)) <==> d0.0 is None)
                &&& (r matches Err(ComposeCodecError8::C1(_)) <==> d0.0 is Some && d1.0 is None)
                &&& (r matches Err(ComposeCodecError8::C2(_)) <==> d0.0 is Some && d1.0 is Some && d2.0 is None)
                &&& (r matches Err(ComposeCodecError8::C3(_)) <==> d0.0 is Some && d1.0 is Some && d2.0 is Some && d3.0 is None)
                &&& (r matches Err(ComposeCodecError8::C4(_)) <==> d0.0 is Some && d1.0 is Some && d2.0 is Some && d3.0 is Some && d4.0 is None)
                &&& (r matches Err(ComposeCodecError8::C5(_)) <==> d0.0 is Some && d1.0 is Some && d2.0 is Some && d3.0 is Some && d4.0 is Some && d5.0 is None)
                &&& (r matches Err(ComposeCodecError8::C6(_)) <==> d0.0 is Some && d1.0 is Some && d2.0 is Some && d3.0 is Some && d4.0 is Some && d5.0 is Some && d6.0 is None)
                &&& (r matches Err(ComposeCodecError8::C7(_)) <==> d0.0 is Some && d1.0 is Some && d2.0 is Some && d3.0 is Some && d4.0 is Some && d5.0 is Some && d6.0 is Some && d7.0 is None)
            }),
    {
        let ghost input = bytes@;
        let ghost o1 = C0::decoding(input).1;
        let r0 = C0::decode(bytes);
        assert(bytes@ =~= input.skip(o1 as int));
        let v0 = match r0 {
            Ok(v) => v,
            Err(e) => return Err(ComposeCodecError8::C0(e)),
        };
        let ghost o2 = o1 + C1::decoding(input.skip(o1 as int)).1;
        let r1 = C1::decode(bytes);
        assert(bytes@ =~= input.skip(o2 as int));
        let v1 = match r1 {
            Ok(v) => v,
            Err(e) => return Err(ComposeCodecError8::C1(e)),
        };
        let ghost o3 = o2 + C2::decoding(input.skip(o2 as int)).1;
        let r2 = C2::decode(bytes);
        assert(bytes@ =~= input.skip(o3 as int));
        let v2 = match r2 {
            Ok(v) => v,
            Err(e) => return Err(ComposeCodecError8::C2(e)),
        };
        let ghost o4 = o3 + C3::decoding(input.skip(o3 as int)).1;
        let r3 = C3::decode(bytes);
        assert(bytes@ =~= input.skip(o4 as int));
        let v3 = match r3 {
            Ok(v) => v,
            Err(e) => return Err(ComposeCodecError8::C3(e)),
        };
        let ghost o5 = o4 + C4::decoding(input.skip(o4 as int)).1;
        let r4 = C4::decode(bytes);
        assert(bytes@ =~= input.skip(o5 as int));
        let v4 = match r4 {
            Ok(v) => v,
            Err(e) => return Err(ComposeCodecError8::C4(e)),
        };
        let ghost o6 = o5 + C5::decoding(input.skip(o5 as int)).1;
        let r5 = C5::decode(bytes);
        assert(bytes@ =~= input.skip(o6 as int));
        let v5 = match r5 {
            Ok(v) => v,
            Err(e) => return Err(ComposeCodecError8::C5(e)),
        };
        let ghost o7 = o6 + C6::decoding(input.skip(o6 as int)).1;
        let r6 = C6::decode(bytes);
        assert(bytes@ =~= input.skip(o7 as int));
        let v6 = match r6 {
            Ok(v) => v,
            Err(e) => return Err(ComposeCodecError8::C6(e)),
        };
        let ghost o8 = o7 + C7::decoding(input.skip(o7 as int)).1;
        let r7 = C7::decode(bytes);
        assert(bytes@ =~= input.skip(o8 as int));
        let v7 = match r7 {
            Ok(v) => v,
            Err(e) => return Err(ComposeCodecError8::C7(e)),
        };
        Ok((v0, v1, v2, v3, v4, v5, v6, v7))
    }
}

/// When every codec but the last recovers its item whatever follows it, and the last one
/// recovers its item from its own encoding, the composition recovers the whole tuple from
/// its encoding.
pub proof fn lemma_compose8_roundtrip<'a, C0: Encode<'a> + Decode, C1: Encode<'a> + Decode, C2: Encode<'a> + Decode, C3: Encode<'a> + Decode, C4: Encode<'a> + Decode, C5: Encode<'a> + Decode, C6: Encode<'a> + Decode, C7: Encode<'a> + Decode>(
    item: &<ComposeCodec<(C0, C1, C2, C3, C4, C5, C6, C7)> as Encode<'a>>::Item,
    m0: <C0 as Decode>::Model, m1: <C1 as Decode>::Model, m2: <C2 as Decode>::Model, m3: <C3 as Decode>::Model, m4: <C4 as Decode>::Model, m5: <C5 as Decode>::Model, m6: <C6 as Decode>::Model, m7: <C7 as Decode>::Model,
)
    requires
        roundtrips_before_anything::<C0>(item.0, m0),
        roundtrips_before_anything::<C1>(item.1, m1),
        roundtrips_before_anything::<C2>(item.2, m2),
        roundtrips_before_anything::<C3>(item.3, m3),
        roundtrips_before_anything::<C4>(item.4, m4),
        roundtrips_before_anything::<C5>(item.5, m5),
        roundtrips_before_anything::<C6>(item.6, m6),
        roundtrips_alone::<C7>(item.7, m7),
    ensures
        roundtrips_alone::<ComposeCodec<(C0, C1, C2, C3, C4, C5, C6, C7)>>(item, (m0, m1, m2, m3, m4, m5, m6, m7)),
{
    let b0 = C0::encoding(item.0).unwrap();
    let b1 = C1::encoding(item.1).unwrap();
    let b2 = C2::encoding(item.2).unwrap();
    let b3 = C3::encoding(item.3).unwrap();
    let b4 = C4::encoding(item.4).unwrap();
    let b5 = C5::encoding(item.5).unwrap();
    let b6 = C6::encoding(item.6).unwrap();
    let b7 = C7::encoding(item.7).unwrap();
    let p1 = b0;
    let p2 = p1 + b1;
    let p3 = p2 + b2;
    let p4 = p3 + b3;
    let p5 = p4 + b4;
    let p6 = p5 + b5;
    let p7 = p6 + b6;
    let p8 = p7 + b7;
    assert(ComposeCodec::<(C0, C1, C2, C3, C4, C5, C6, C7)>::encoding(item) == Some(p8));
    let t7 = b7;
    let t6 = b6 + t7;
    lemma_concat_assoc(p6, b6, t7);
    let t5 = b5 + t6;
    lemma_concat_assoc(p5, b5, t6);
    let t4 = b4 + t5;
    lemma_concat_assoc(p4, b4, t5);
    let t3 = b3 + t4;
    lemma_concat_assoc(p3, b3, t4);
    let t2 = b2 + t3;
    lemma_concat_assoc(p2, b2, t3);
    let t1 = b1 + t2;
    lemma_concat_assoc(p1, b1, t2);
    lemma_skip_prefix(p1, t1);
    lemma_skip_prefix(p2, t2);
    lemma_skip_prefix(p3, t3);
    lemma_skip_prefix(p4, t4);
    lemma_skip_prefix(p5, t5);
    lemma_skip_prefix(p6, t6);
    lemma_skip_prefix(p7, t7);
    assert(C0::decoding(b0 + t1) == (Some(m0), b0.len()));
    assert(C1::decoding(b1 + t2) == (Some(m1), b1.len()));
    assert(C2::decoding(b2 + t3) == (Some(m2), b2.len()));
    assert(C3::decoding(b3 + t4) == (Some(m3), b3.len()));
    assert(C4::decoding(b4 + t5) == (Some(m4), b4.len()));
    assert(C5::decoding(b5 + t6) == (Some(m5), b5.len()));
    assert(C6::decoding(b6 + t7) == (Some(m6), b6.len()));
    assert(C7::decoding(b7) == (Some(m7), b7.len()));
}

/// When every codec recovers its item whatever follows it, so does the composition: it can
/// itself stand before another codec.
pub proof fn lemma_compose8_roundtrip_before_anything<'a, C0: Encode<'a> + Decode, C1: Encode<'a> + Decode, C2: Encode<'a> + Decode, C3: Encode<'a> + Decode, C4: Encode<'a> + Decode, C5: Encode<'a> + Decode, C6: Encode<'a> + Decode, C7: Encode<'a> + Decode>(
    item: &<ComposeCodec<(C0, C1, C2, C3, C4, C5, C6, C7)> as Encode<'a>>::Item,
    m0: <C0 as Decode>::Model, m1: <C1 as Decode>::Model, m2: <C2 as Decode>::Model, m3: <C3 as Decode>::Model, m4: <C4 as Decode>::Model, m5: <C5 as Decode>::Model, m6: <C6 as Decode>::Model, m7: <C7 as Decode>::Model,
)
    requires
        roundtrips_before_anything::<C0>(item.0, m0),
        roundtrips_before_anything::<C1>(item.1, m1),
        roundtrips_before_anything::<C2>(item.2, m2),
        roundtrips_before_anything::<C3>(item.3, m3),
        roundtrips_before_anything::<C4>(item.4, m4),
        roundtrips_before_anything::<C5>(item.5, m5),
        roundtrips_before_anything::<C6>(item.6, m6),
        roundtrips_before_anything::<C7>(item.7, m7),
    ensures
        roundtrips_before_anything::<ComposeCodec<(C0, C1, C2, C3, C4, C5, C6, C7)>>(item, (m0, m1, m2, m3, m4, m5, m6, m7)),
{
    let b0 = C0::encoding(item.0).unwrap();
    let b1 = C1::encoding(item.1).unwrap();
    let b2 = C2::encoding(item.2).unwrap();
    let b3 = C3::encoding(item.3).unwrap();
    let b4 = C4::encoding(item.4).unwrap();
    let b5 = C5::encoding(item.5).unwrap();
    let b6 = C6::encoding(item.6).unwrap();
    let b7 = C7::encoding(item.7).unwrap();
    let p1 = b0;
    let p2 = p1 + b1;
    let p3 = p2 + b2;
    let p4 = p3 + b3;
    let p5 = p4 + b4;
    let p6 = p5 + b5;
    let p7 = p6 + b6;
    let p8 = p7 + b7;
    assert(ComposeCodec::<(C0, C1, C2, C3, C4, C5, C6, C7)>::encoding(item) == Some(p8));
    assert forall|rest: Seq<u8>|
        #[trigger] ComposeCodec::<(C0, C1, C2, C3, C4, C5, C6, C7)>::decoding(p8 + rest) == (Some((m0, m1, m2, m3, m4, m5, m6, m7)), p8.len()) by {
        let t8 = rest;
        let t7 = b7 + t8;
        lemma_concat_assoc(p7, b7, t8);
        let t6 = b6 + t7;
        lemma_concat_assoc(p6, b6, t7);
        let t5 = b5 + t6;
        lemma_concat_assoc(p5, b5, t6);
        let t4 = b4 + t5;
        lemma_concat_assoc(p4, b4, t5);
        let t3 = b3 + t4;
        lemma_concat_assoc(p3, b3, t4);
        let t2 = b2 + t3;
        lemma_concat_assoc(p2, b2, t3);
        let t1 = b1 + t2;
        lemma_concat_assoc(p1, b1, t2);
        lemma_skip_prefix(p1, t1);
        lemma_skip_prefix(p2, t2);
        lemma_skip_prefix(p3, t3);
        lemma_skip_prefix(p4, t4);
        lemma_skip_prefix(p5, t5);
        lemma_skip_prefix(p6, t6);
        lemma_skip_prefix(p7, t7);
        assert(C0::decoding(b0 + t1) == (Some(m0), b0.len()));
        assert(C1::decoding(b1 + t2) == (Some(m1), b1.len()));
        assert(C2::decoding(b2 + t3) == (Some(m2), b2.len()));
        assert(C3::decoding(b3 + t4) == (Some(m3), b3.len()));
        assert(C4::decoding(b4 + t5) == (Some(m4), b4.len()));
        assert(C5::decoding(b5 + t6) == (Some(m5), b5.len()));
        assert(C6::decoding(b6 + t7) == (Some(m6), b6.len()));
        assert(C7::decoding(b7 + t8) == (Some(m7), b7.len()));
    }
}

/// Why a composition of 9 codecs failed: the variant names the codec that failed.
#[derive(Debug)]
pub enum ComposeCodecError9<C0, C1, C2, C3, C4, C5, C6, C7, C8> {
    /// The codec in position 0 failed.
    C0(C0),
    /// The codec in position 1 failed.
    C1(C1),
    /// The codec in position 2 failed.
    C2(C2),
    /// The codec in position 3 failed.
    C3(C3),
    /// The codec in position 4 failed.
    C4(C4),
    /// The codec in position 5 failed.
    C5(C5),
    /// The codec in position 6 failed.
    C6(C6),
    /// The codec in position 7 failed.
    C7(C7),
    /// The codec in position 8 failed.
    C8(C8),
}

impl<'a, C0: Encode<'a>, C1: Encode<'a>, C2: Encode<'a>, C3: Encode<'a>, C4: Encode<'a>, C5: Encode<'a>, C6: Encode<'a>, C7: Encode<'a>, C8: Encode<'a>> Encode<'a> for ComposeCodec<(C0, C1, C2, C3, C4, C5, C6, C7, C8)> {
    type Item = (&'a C0::Item, &'a C1::Item, &'a C2::Item, &'a C3::Item, &'a C4::Item, &'a C5::Item, &'a C6::Item, &'a C7::Item, &'a C8::Item);
    type Error = ComposeCodecError9<C0::Error, C1::Error, C2::Error, C3::Error, C4::Error, C5::Error, C6::Error, C7::Error, C8::Error>;

    open spec fn encoding(item: &Self::Item) -> Option<Seq<u8>> {
        match C0::encoding(item.0) {
            None => None,
            Some(b0) => {
                match C1::encoding(item.1) {
                    None => None,
                    Some(b1) => {
                        match C2::encoding(item.2) {
                            None => None,
                            Some(b2) => {
                                match C3::encoding(item.3) {
                                    None => None,
                                    Some(b3) => {
                                        match C4::encoding(item.4) {
                                            None => None,
                                            Some(b4) => {
                                                match C5::encoding(item.5) {
                                                    None => None,
                                                    Some(b5) => {
                                                        match C6::encoding(item.6) {
                                                            None => None,
                                                            Some(b6) => {
                                                                match C7::encoding(item.7) {
                                                                    None => None,
                                                                    Some(b7) => {
                                                                        match C8::encoding(item.8) {
                                                                            None => None,
                                                                            Some(b8) => Some(b0 + b1 + b2 + b3 + b4 + b5 + b6 + b7 + b8),
                                                                        }
                                                                    },
                                                                }
                                                            },
                                                        }
                                                    },
                                                }
                                            },
                                        }
                                    },
                                }
                            },
                        }
                    },
                }
            },
        }
    }

    fn encode(into: EncodingVec<Fresh>, item: &Self::Item) -> (r: Result<EncodingVec<Fresh>, Self::Error>)
        ensures
            r matches Err(ComposeCodecError9::C0(_)) ==> C0::encoding(item.0) is None,
            r matches Err(ComposeCodecError9::C1(_)) ==> C0::encoding(item.0) is Some && C1::encoding(item.1) is None,
            r matches Err(ComposeCodecError9::C2(_)) ==> C0::encoding(item.0) is Some && C1::encoding(item.1) is Some && C2::encoding(item.2) is None,
            r matches Err(ComposeCodecError9::C3(_)) ==> C0::encoding(item.0) is Some && C1::encoding(item.1) is Some && C2::encoding(item.2) is Some && C3::encoding(item.3) is None,
            r matches Err(ComposeCodecError9::C4(_)) ==> C0::encoding(item.0) is Some && C1::encoding(item.1) is Some && C2::encoding(item.2) is Some && C3::encoding(item.3) is Some && C4::encoding(item.4) is None,
            r matches Err(ComposeCodecError9::C5(_)) ==> C0::encoding(item.0) is Some && C1::encoding(item.1) is Some && C2::encoding(item.2) is Some && C3::encoding(item.3) is Some && C4::encoding(item.4) is Some && C5::encoding(item.5) is None,
            r matches Err(ComposeCodecError9::C6(_)) ==> C0::encoding(item.0) is Some && C1::encoding(item.1) is Some && C2::encoding(item.2) is Some && C3::encoding(item.3) is Some && C4::encoding(item.4) is Some && C5::encoding(item.5) is Some && C6::encoding(item.6) is None,
            r matches Err(ComposeCodecError9::C7(_)) ==> C0::encoding(item.0) is Some && C1::encoding(item.1) is Some && C2::encoding(item.2) is Some && C3::encoding(item.3) is Some && C4::encoding(item.4) is Some && C5::encoding(item.5) is Some && C6::encoding(item.6) is Some && C7::encoding(item.7) is None,
            r matches Err(ComposeCodecError9::C8(_)) ==> C0::encoding(item.0) is Some && C1::encoding(item.1) is Some && C2::encoding(item.2) is Some && C3::encoding(item.3) is Some && C4::encoding(item.4) is Some && C5::encoding(item.5) is Some && C6::encoding(item.6) is Some && C7::encoding(item.7) is Some && C8::encoding(item.8) is None,
    {
        let ghost start = into.bytes();
        let ret = match C0::encode(into, item.0) {
            Ok(v) => v,
            Err(e) => return Err(ComposeCodecError9::C0(e)),
        };
        let ghost acc0 = C0::encoding(item.0).unwrap();
        let ret = match C1::encode(ret, item.1) {
            Ok(v) => v,
            Err(e) => return Err(ComposeCodecError9::C1(e)),
        };
        let ghost acc1 = acc0 + C1::encoding(item.1).unwrap();
        proof {
            lemma_concat_assoc(start, acc0, C1::encoding(item.1).unwrap());
        }
        let ret = match C2::encode(ret, item.2) {
            Ok(v) => v,
            Err(e) => return Err(ComposeCodecError9::C2(e)),
        };
        let ghost acc2 = acc1 + C2::encoding(item.2).unwrap();
        proof {
            lemma_concat_assoc(start, acc1, C2::encoding(item.2).unwrap());
        }
        let ret = match C3::encode(ret, item.3) {
            Ok(v) => v,
            Err(e) => return Err(ComposeCodecError9::C3(e)),
        };
        let ghost acc3 = acc2 + C3::encoding(item.3).unwrap();
        proof {
            lemma_concat_assoc(start, acc2, C3::encoding(item.3).unwrap());
        }
        let ret = match C4::encode(ret, item.4) {
            Ok(v) => v,
            Err(e) => return Err(ComposeCodecError9::C4(e)),
        };
        let ghost acc4 = acc3 + C4::encoding(item.4).unwrap();
        proof {
            lemma_concat_assoc(start, acc3, C4::encoding(item.4).unwrap());
        }
        let ret = match C5::encode(ret, item.5) {
            Ok(v) => v,
            Err(e) => return Err(ComposeCodecError9::C5(e)),
        };
        let ghost acc5 = acc4 + C5::encoding(item.5).unwrap();
        proof {
            lemma_concat_assoc(start, acc4, C5::encoding(item.5).unwrap());
        }
        let ret = match C6::encode(ret, item.6) {
            Ok(v) => v,
            Err(e) => return Err(ComposeCodecError9::C6(e)),
        };
        let ghost acc6 = acc5 + C6::encoding(item.6).unwrap();
        proof {
            lemma_concat_assoc(start, acc5, C6::encoding(item.6).unwrap());
        }
        let ret = match C7::encode(ret, item.7) {
            Ok(v) => v,
            Err(e) => return Err(ComposeCodecError9::C7(e)),
        };
        let ghost acc7 = acc6 + C7::encoding(item.7).unwrap();
        proof {
            lemma_concat_assoc(start, acc6, C7::encoding(item.7).unwrap());
        }
        let ret = match C8::encode(ret, item.8) {
            Ok(v) => v,
            Err(e) => return Err(ComposeCodecError9::C8(e)),
        };
        proof {
            lemma_concat_assoc(start, acc7, C8::encoding(item.8).unwrap());
        }
        Ok(ret)
    }
}

impl<C0: Decode, C1: Decode, C2: Decode, C3: Decode, C4: Decode, C5: Decode, C6: Decode, C7: Decode, C8: Decode> Decode for ComposeCodec<(C0, C1, C2, C3, C4, C5, C6, C7, C8)> {
    type Item = (C0::Item, C1::Item, C2::Item, C3::Item, C4::Item, C5::Item, C6::Item, C7::Item, C8::Item);
    type Error = ComposeCodecError9<C0::Error, C1::Error, C2::Error, C3::Error, C4::Error, C5::Error, C6::Error, C7::Error, C8::Error>;
    type Model = (C0::Model, C1::Model, C2::Model, C3::Model, C4::Model, C5::Model, C6::Model, C7::Model, C8::Model);

    open spec fn model(item: &Self::Item) -> Self::Model {
        (C0::model(&item.0), C1::model(&item.1), C2::model(&item.2), C3::model(&item.3), C4::model(&item.4), C5::model(&item.5), C6::model(&item.6), C7::model(&item.7), C8::model(&item.8))
    }

    open spec fn decoding(input: Seq<u8>) -> (Option<Self::Model>, nat) {
        let d0 = C0::decoding(input);
        let o1 = d0.1;
        match d0.0 {
            None => (None, o1),
            Some(m0) => {
                let d1 = C1::decoding(input.skip(o1 as int));
                let o2 = o1 + d1.1;
                match d1.0 {
                    None => (None, o2),
                    Some(m1) => {
                        let d2 = C2::decoding(input.skip(o2 as int));
                        let o3 = o2 + d2.1;
                        match d2.0 {
                            None => (None, o3),
                            Some(m2) => {
                                let d3 = C3::decoding(input.skip(o3 as int));
                                let o4 = o3 + d3.1;
                                match d3.0 {
                                    None => (None, o4),
                                    Some(m3) => {
                                        let d4 = C4::decoding(input.skip(o4 as int));
                                        let o5 = o4 + d4.1;
                                        match d4.0 {
                                            None => (None, o5),
                                            Some(m4) => {
                                                let d5 = C5::decoding(input.skip(o5 as int));
                                                let o6 = o5 + d5.1;
                                                match d5.0 {
                                                    None => (None, o6),
                                                    Some(m5) => {
                                                        let d6 = C6::decoding(input.skip(o6 as int));
                                                        let o7 = o6 + d6.1;
                                                        match d6.0 {
                                                            None => (None, o7),
                                                            Some(m6) => {
                                                                let d7 = C7::decoding(input.skip(o7 as int));
                                                                let o8 = o7 + d7.1;
                                                                match d7.0 {
                                                                    None => (None, o8),
                                                                    Some(m7) => {
                                                                        let d8 = C8::decoding(input.skip(o8 as int));
                                                                        let o9 = o8 + d8.1;
                                                                        match d8.0 {
                                                                            None => (None, o9),
                                                                            Some(m8) => (Some((m0, m1, m2, m3, m4, m5, m6, m7, m8)), o9),
                                                                        }
                                                                    },
                                                                }
                                                            },
                                                        }
                                                    },
                                                }
                                            },
                                        }
                                    },
                                }
                            },
                        }
                    },
                }
            },
        }
    }

    fn decode(bytes: &mut DecodingVec) -> (r: Result<Self::Item, Self::Error>)
        ensures
            ({
                let input = old(bytes)@;
                let d0 = C0::decoding(input);
                let o1 = d0.1;
                let d1 = C1::decoding(input.skip(o1 as int));
                let o2 = o1 + d1.1;
                let d2 = C2::decoding(input.skip(o2 as int));
                let o3 = o2 + d2.1;
                let d3 = C3::decoding(input.skip(o3 as int));
                let o4 = o3 + d3.1;
                let d4 = C4::decoding(input.skip(o4 as int));
                let o5 = o4 + d4.1;
                let d5 = C5::decoding(input.skip(o5 as int));
                let o6 = o5 + d5.1;
                let d6 = C6::decoding(input.skip(o6 as int));
                let o7 = o6 + d6.1;
                let d7 = C7::decoding(input.skip(o7 as int));
                let o8 = o7 + d7.1;
                let d8 = C8::decoding(input.skip(o8 as int));
                let o9 = o8 + d8.1;
                &&& (r matches Err(ComposeCodecError9::C0(_)) <==> d0.0 is None)
                &&& (r matches Err(ComposeCodecError9::C1(_)) <==> d0.0 is Some && d1.0 is None)
                &&& (r matches Err(ComposeCodecError9::C2(_)) <==> d0.0 is Some && d1.0 is Some && d2.0 is None)
                &&& (r matches Err(ComposeCodecError9::C3(_)) <==> d0.0 is Some && d1.0 is Some && d2.0 is Some && d3.0 is None)
                &&& (r matches Err(ComposeCodecError9::C4(_)) <==> d0.0 is Some && d1.0 is Some && d2.0 is Some && d3.0 is Some && d4.0 is None)
                &&& (r matches Err(ComposeCodecError9::C5(_)) <==> d0.0 is Some && d1.0 is Some && d2.0 is Some && d3.0 is Some && d4.0 is Some && d5.0 is None)
                &&& (r matches Err(ComposeCodecError9::C6(_)) <==> d0.0 is Some && d1.0 is Some && d2.0 is Some && d3.0 is Some && d4.0 is Some && d5.0 is Some && d6.0 is None)
                &&& (r matches Err(ComposeCodecError9::C7(_)) <==> d0.0 is Some && d1.0 is Some && d2.0 is Some && d3.0 is Some && d4.0 is Some && d5.0 is Some && d6.0 is Some && d7.0 is None)
                &&& (r matches Err(ComposeCodecError9::C8(_)) <==> d0.0 is Some && d1.0 is Some && d2.0 is Some && d3.0 is Some && d4.0 is Some && d5.0 is Some && d6.0 is Some && d7.0 is Some && d8.0 is None)
            }),
    {
        let ghost input = bytes@;
        let ghost o1 = C0::decoding(input).1;
        let r0 = C0::decode(bytes);
        assert(bytes@ =~= input.skip(o1 as int));
        let v0 = match r0 {
            Ok(v) => v,
            Err(e) => return Err(ComposeCodecError9::C0(e)),
        };
        let ghost o2 = o1 + C1::decoding(input.skip(o1 as int)).1;
        let r1 = C1::decode(bytes);
        assert(bytes@ =~= input.skip(o2 as int));
        let v1 = match r1 {
            Ok(v) => v,
            Err(e) => return Err(ComposeCodecError9::C1(e)),
        };
        let ghost o3 = o2 + C2::decoding(input.skip(o2 as int)).1;
        let r2 = C2::decode(bytes);
        assert(bytes@ =~= input.skip(o3 as int));
        let v2 = match r2 {
            Ok(v) => v,
            Err(e) => return Err(ComposeCodecError9::C2(e)),
        };
        let ghost o4 = o3 + C3::decoding(input.skip(o3 as int)).1;
        let r3 = C3::decode(bytes);
        assert(bytes@ =~= input.skip(o4 as int));
        let v3 = match r3 {
            Ok(v) => v,
            Err(e) => return Err(ComposeCodecError9::C3(e)),
        };
        let ghost o5 = o4 + C4::decoding(input.skip(o4 as int)).1;
        let r4 = C4::decode(bytes);
        assert(bytes@ =~= input.skip(o5 as int));
        let v4 = match r4 {
            Ok(v) => v,
            Err(e) => return Err(ComposeCodecError9::C4(e)),
        };
        let ghost o6 = o5 + C5::decoding(input.skip(o5 as int)).1;
        let r5 = C5::decode(bytes);
        assert(bytes@ =~= input.skip(o6 as int));
        let v5 = match r5 {
            Ok(v) => v,
            Err(e) => return Err(ComposeCodecError9::C5(e)),
        };
        let ghost o7 = o6 + C6::decoding(input.skip(o6 as int)).1;
        let r6 = C6::decode(bytes);
        assert(bytes@ =~= input.skip(o7 as int));
        let v6 = match r6 {
            Ok(v) => v,
            Err(e) => return Err(ComposeCodecError9::C6(e)),
        };
        let ghost o8 = o7 + C7::decoding(input.skip(o7 as int)).1;
        let r7 = C7::decode(bytes);
        assert(bytes@ =~= input.skip(o8 as int));
        let v7 = match r7 {
            Ok(v) => v,
            Err(e) => return Err(ComposeCodecError9::C7(e)),
        };
        let ghost o9 = o8 + C8::decoding(input.skip(o8 as int)).1;
        let r8 = C8::decode(bytes);
        assert(bytes@ =~= input.skip(o9 as int));
        let v8 = match r8 {
            Ok(v) => v,
            Err(e) => return Err(ComposeCodecError9::C8(e)),
        };
        Ok((v0, v1, v2, v3, v4, v5, v6, v7, v8))
    }
}

/// When every codec but the last recovers its item whatever follows it, and the last one
/// recovers its item from its own encoding, the composition recovers the whole tuple from
/// its encoding.
pub proof fn lemma_compose9_roundtrip<'a, C0: Encode<'a> + Decode, C1: Encode<'a> + Decode, C2: Encode<'a> + Decode, C3: Encode<'a> + Decode, C4: Encode<'a> + Decode, C5: Encode<'a> + Decode, C6: Encode<'a> + Decode, C7: Encode<'a> + Decode, C8: Encode<'a> + Decode>(
    item: &<ComposeCodec<(C0, C1, C2, C3, C4, C5, C6, C7, C8)> as Encode<'a>>::Item,
    m0: <C0 as Decode>::Model, m1: <C1 as Decode>::Model, m2: <C2 as Decode>::Model, m3: <C3 as Decode>::Model, m4: <C4 as Decode>::Model, m5: <C5 as Decode>::Model, m6: <C6 as Decode>::Model, m7: <C7 as Decode>::Model, m8: <C8 as Decode>::Model,
)
    requires
        roundtrips_before_anything::<C0>(item.0, m0),
        roundtrips_before_anything::<C1>(item.1, m1),
        roundtrips_before_anything::<C2>(item.2, m2),
        roundtrips_before_anything::<C3>(item.3, m3),
        roundtrips_before_anything::<C4>(item.4, m4),
        roundtrips_before_anything::<C5>(item.5, m5),
        roundtrips_before_anything::<C6>(item.6, m6),
        roundtrips_before_anything::<C7>(item.7, m7),
        roundtrips_alone::<C8>(item.8, m8),
    ensures
        roundtrips_alone::<ComposeCodec<(C0, C1, C2, C3, C4, C5, C6, C7, C8)>>(item, (m0, m1, m2, m3, m4, m5, m6, m7, m8)),
{
    let b0 = C0::encoding(item.0).unwrap();
    let b1 = C1::encoding(item.1).unwrap();
    let b2 = C2::encoding(item.2).unwrap();
    let b3 = C3::encoding(item.3).unwrap();
    let b4 = C4::encoding(item.4).unwrap();
    let b5 = C5::encoding(item.5).unwrap();
    let b6 = C6::encoding(item.6).unwrap();
    let b7 = C7::encoding(item.7).unwrap();
    let b8 = C8::encoding(item.8).unwrap();
    let p1 = b0;
    let p2 = p1 + b1;
    let p3 = p2 + b2;
    let p4 = p3 + b3;
    let p5 = p4 + b4;
    let p6 = p5 + b5;
    let p7 = p6 + b6;
    let p8 = p7 + b7;
    let p9 = p8 + b8;
    assert(ComposeCodec::<(C0, C1, C2, C3, C4, C5, C6, C7, C8)>::encoding(item) == Some(p9));
    let t8 = b8;
    let t7 = b7 + t8;
    lemma_concat_assoc(p7, b7, t8);
    let t6 = b6 + t7;
    lemma_concat_assoc(p6, b6, t7);
    let t5 = b5 + t6;
    lemma_concat_assoc(p5, b5, t6);
    let t4 = b4 + t5;
    lemma_concat_assoc(p4, b4, t5);
    let t3 = b3 + t4;
    lemma_concat_assoc(p3, b3, t4);
    let t2 = b2 + t3;
    lemma_concat_assoc(p2, b2, t3);
    let t1 = b1 + t2;
    lemma_concat_assoc(p1, b1, t2);
    lemma_skip_prefix(p1, t1);
    lemma_skip_prefix(p2, t2);
    lemma_skip_prefix(p3, t3);
    lemma_skip_prefix(p4, t4);
    lemma_skip_prefix(p5, t5);
    lemma_skip_prefix(p6, t6);
    lemma_skip_prefix(p7, t7);
    lemma_skip_prefix(p8, t8);
    assert(C0::decoding(b0 + t1) == (Some(m0), b0.len()));
    assert(C1::decoding(b1 + t2) == (Some(m1), b1.len()));
    assert(C2::decoding(b2 + t3) == (Some(m2), b2.len()));
    assert(C3::decoding(b3 + t4) == (Some(m3), b3.len()));
    assert(C4::decoding(b4 + t5) == (Some(m4), b4.len()));
    assert(C5::decoding(b5 + t6) == (Some(m5), b5.len()));
    assert(C6::decoding(b6 + t7) == (Some(m6), b6.len()));
    assert(C7::decoding(b7 + t8) == (Some(m7), b7.len()));
    assert(C8::decoding(b8) == (Some(m8), b8.len()));
}

/// When every codec recovers its item whatever follows it, so does the composition: it can
/// itself stand before another codec.
pub proof fn lemma_compose9_roundtrip_before_anything<'a, C0: Encode<'a> + Decode, C1: Encode<'a> + Decode, C2: Encode<'a> + Decode, C3: Encode<'a> + Decode, C4: Encode<'a> + Decode, C5: Encode<'a> + Decode, C6: Encode<'a> + Decode, C7: Encode<'a> + Decode, C8: Encode<'a> + Decode>(
    item: &<ComposeCodec<(C0, C1, C2, C3, C4, C5, C6, C7, C8)> as Encode<'a>>::Item,
    m0: <C0 as Decode>::Model, m1: <C1 as Decode>::Model, m2: <C2 as Decode>::Model, m3: <C3 as Decode>::Model, m4: <C4 as Decode>::Model, m5: <C5 as Decode>::Model, m6: <C6 as Decode>::Model, m7: <C7 as Decode>::Model, m8: <C8 as Decode>::Model,
)
    requires
        roundtrips_before_anything::<C0>(item.0, m0),
        roundtrips_before_anything::<C1>(item.1, m1),
        roundtrips_before_anything::<C2>(item.2, m2),
        roundtrips_before_anything::<C3>(item.3, m3),
        roundtrips_before_anything::<C4>(item.4, m4),
        roundtrips_before_anything::<C5>(item.5, m5),
        roundtrips_before_anything::<C6>(item.6, m6),
        roundtrips_before_anything::<C7>(item.7, m7),
        roundtrips_before_anything::<C8>(item.8, m8),
    ensures
        roundtrips_before_anything::<ComposeCodec<(C0, C1, C2, C3, C4, C5, C6, C7, C8)>>(item, (m0, m1, m2, m3, m4, m5, m6, m7, m8)),
{
    let b0 = C0::encoding(item.0).unwrap();
    let b1 = C1::encoding(item.1).unwrap();
    let b2 = C2::encoding(item.2).unwrap();
    let b3 = C3::encoding(item.3).unwrap();
    let b4 = C4::encoding(item.4).unwrap();
    let b5 = C5::encoding(item.5).unwrap();
    let b6 = C6::encoding(item.6).unwrap();
    let b7 = C7::encoding(item.7).unwrap();
    let b8 = C8::encoding(item.8).unwrap();
    let p1 = b0;
    let p2 = p1 + b1;
    let p3 = p2 + b2;
    let p4 = p3 + b3;
    let p5 = p4 + b4;
    let p6 = p5 + b5;
    let p7 = p6 + b6;
    let p8 = p7 + b7;
    let p9 = p8 + b8;
    assert(ComposeCodec::<(C0, C1, C2, C3, C4, C5, C6, C7, C8)>::encoding(item) == Some(p9));
    assert forall|rest: Seq<u8>|
        #[trigger] ComposeCodec::<(C0, C1, C2, C3, C4, C5, C6, C7, C8)>::decoding(p9 + rest) == (Some((m0, m1, m2, m3, m4, m5, m6, m7, m8)), p9.len()) by {
        let t9 = rest;
        let t8 = b8 + t9;
        lemma_concat_assoc(p8, b8, t9);
        let t7 = b7 + t8;
        lemma_concat_assoc(p7, b7, t8);
        let t6 = b6 + t7;
        lemma_concat_assoc(p6, b6, t7);
        let t5 = b5 + t6;
        lemma_concat_assoc(p5, b5, t6);
        let t4 = b4 + t5;
        lemma_concat_assoc(p4, b4, t5);
        let t3 = b3 + t4;
        lemma_concat_assoc(p3, b3, t4);
        let t2 = b2 + t3;
        lemma_concat_assoc(p2, b2, t3);
        let t1 = b1 + t2;
        lemma_concat_assoc(p1, b1, t2);
        lemma_skip_prefix(p1, t1);
        lemma_skip_prefix(p2, t2);
        lemma_skip_prefix(p3, t3);
        lemma_skip_prefix(p4, t4);
        lemma_skip_prefix(p5, t5);
        lemma_skip_prefix(p6, t6);
        lemma_skip_prefix(p7, t7);
        lemma_skip_prefix(p8, t8);
        assert(C0::decoding(b0 + t1) == (Some(m0), b0.len()));
        assert(C1::decoding(b1 + t2) == (Some(m1), b1.len()));
        assert(C2::decoding(b2 + t3) == (Some(m2), b2.len()));
        assert(C3::decoding(b3 + t4) == (Some(m3), b3.len()));
        assert(C4::decoding(b4 + t5) == (Some(m4), b4.len()));
        assert(C5::decoding(b5 + t6) == (Some(m5), b5.len()));
        assert(C6::decoding(b6 + t7) == (Some(m6), b6.len()));
        assert(C7::decoding(b7 + t8) == (Some(m7), b7.len()));
        assert(C8::decoding(b8 + t9) == (Some(m8), b8.len()));
    }
}

/// Why a composition of 10 codecs failed: the variant names the codec that failed.
#[derive(Debug)]
pub enum ComposeCodecError10<C0, C1, C2, C3, C4, C5, C6, C7, C8, C9> {
    /// The codec in position 0 failed.
    C0(C0),
    /// The codec in position 1 failed.
    C1(C1),
    /// The codec in position 2 failed.
    C2(C2),
    /// The codec in position 3 failed.
    C3(C3),
    /// The codec in position 4 failed.
    C4(C4),
    /// The codec in position 5 failed.
    C5(C5),
    /// The codec in position 6 failed.
    C6(C6),
    /// The codec in position 7 failed.
    C7(C7),
    /// The codec in position 8 failed.
    C8(C8),
    /// The codec in position 9 failed.
    C9(C9),
}

impl<'a, C0: Encode<'a>, C1: Encode<'a>, C2: Encode<'a>, C3: Encode<'a>, C4: Encode<'a>, C5: Encode<'a>, C6: Encode<'a>, C7: Encode<'a>, C8: Encode<'a>, C9: Encode<'a>> Encode<'a> for ComposeCodec<(C0, C1, C2, C3, C4, C5, C6, C7, C8, C9)> {
    type Item = (&'a C0::Item, &'a C1::Item, &'a C2::Item, &'a C3::Item, &'a C4::Item, &'a C5::Item, &'a C6::Item, &'a C7::Item, &'a C8::Item, &'a C9::Item);
    type Error = ComposeCodecError10<C0::Error, C1::Error, C2::Error, C3::Error, C4::Error, C5::Error, C6::Error, C7::Error, C8::Error, C9::Error>;

    open spec fn encoding(item: &Self::Item) -> Option<Seq<u8>> {
        match C0::encoding(item.0) {
            None => None,
            Some(b0) => {
                match C1::encoding(item.1) {
                    None => None,
                    Some(b1) => {
                        match C2::encoding(item.2) {
                            None => None,
                            Some(b2) => {
                                match C3::encoding(item.3) {
                                    None => None,
                                    Some(b3) => {
                                        match C4::encoding(item.4) {
                                            None => None,
                                            Some(b4) => {
                                                match C5::encoding(item.5) {
                                                    None => None,
                                                    Some(b5) => {
                                                        match C6::encoding(item.6) {
                                                            None => None,
                                                            Some(b6) => {
                                                                match C7::encoding(item.7) {
                                                                    None => None,
                                                                    Some(b7) => {
                                                                        match C8::encoding(item.8) {
                                                                            None => None,
                                                                            Some(b8) => {
                                                                                match C9::encoding(item.9) {
                                                                                    None => None,
                                                                                    Some(b9) => Some(b0 + b1 + b2 + b3 + b4 + b5 + b6 + b7 + b8 + b9),
                                                                                }
                                                                            },
                                                                        }
                                                                    },
                                                                }
                                                            },
                                                        }
                                                    },
                                                }
                                            },
                                        }
                                    },
                                }
                            },
                        }
                    },
                }
            },
        }
    }

    fn encode(into: EncodingVec<Fresh>, item: &Self::Item) -> (r: Result<EncodingVec<Fresh>, Self::Error>)
        ensures
            r matches Err(ComposeCodecError10::C0(_)) ==> C0::encoding(item.0) is None,
            r matches Err(ComposeCodecError10::C1(_)) ==> C0::encoding(item.0) is Some && C1::encoding(item.1) is None,
            r matches Err(ComposeCodecError10::C2(_)) ==> C0::encoding(item.0) is Some && C1::encoding(item.1) is Some && C2::encoding(item.2) is None,
            r matches Err(ComposeCodecError10::C3(_)) ==> C0::encoding(item.0) is Some && C1::encoding(item.1) is Some && C2::encoding(item.2) is Some && C3::encoding(item.3) is None,
            r matches Err(ComposeCodecError10::C4(_)) ==> C0::encoding(item.0) is Some && C1::encoding(item.1) is Some && C2::encoding(item.2) is Some && C3::encoding(item.3) is Some && C4::encoding(item.4) is None,
            r matches Err(ComposeCodecError10::C5(_)) ==> C0::encoding(item.0) is Some && C1::encoding(item.1) is Some && C2::encoding(item.2) is Some && C3::encoding(item.3) is Some && C4::encoding(item.4) is Some && C5::encoding(item.5) is None,
            r matches Err(ComposeCodecError10::C6(_)) ==> C0::encoding(item.0) is Some && C1::encoding(item.1) is Some && C2::encoding(item.2) is Some && C3::encoding(item.3) is Some && C4::encoding(item.4) is Some && C5::encoding(item.5) is Some && C6::encoding(item.6) is None,
            r matches Err(ComposeCodecError10::C7(_)) ==> C0::encoding(item.0) is Some && C1::encoding(item.1) is Some && C2::encoding(item.2) is Some && C3::encoding(item.3) is Some && C4::encoding(item.4) is Some && C5::encoding(item.5) is Some && C6::encoding(item.6) is Some && C7::encoding(item.7) is None,
            r matches Err(ComposeCodecError10::C8(_)) ==> C0::encoding(item.0) is Some && C1::encoding(item.1) is Some && C2::encoding(item.2) is Some && C3::encoding(item.3) is Some && C4::encoding(item.4) is Some && C5::encoding(item.5) is Some && C6::encoding(item.6) is Some && C7::encoding(item.7) is Some && C8::encoding(item.8) is None,
            r matches Err(ComposeCodecError10::C9(_)) ==> C0::encoding(item.0) is Some && C1::encoding(item.1) is Some && C2::encoding(item.2) is Some && C3::encoding(item.3) is Some && C4::encoding(item.4) is Some && C5::encoding(item.5) is Some && C6::encoding(item.6) is Some && C7::encoding(item.7) is Some && C8::encoding(item.8) is Some && C9::encoding(item.9) is None,
    {
        let ghost start = into.bytes();
        let ret = match C0::encode(into, item.0) {
            Ok(v) => v,
            Err(e) => return Err(ComposeCodecError10::C0(e)),
        };
        let ghost acc0 = C0::encoding(item.0).unwrap();
        let ret = match C1::encode(ret, item.1) {
            Ok(v) => v,
            Err(e) => return Err(ComposeCodecError10::C1(e)),
        };
        let ghost acc1 = acc0 + C1::encoding(item.1).unwrap();
        proof {
            lemma_concat_assoc(start, acc0, C1::encoding(item.1).unwrap());
        }
        let ret = match C2::encode(ret, item.2) {
            Ok(v) => v,
            Err(e) => return Err(ComposeCodecError10::C2(e)),
        };
        let ghost acc2 = acc1 + C2::encoding(item.2).unwrap();
        proof {
            lemma_concat_assoc(start, acc1, C2::encoding(item.2).unwrap());
        }
        let ret = match C3::encode(ret, item.3) {
            Ok(v) => v,
            Err(e) => return Err(ComposeCodecError10::C3(e)),
        };
        let ghost acc3 = acc2 + C3::encoding(item.3).unwrap();
        proof {
            lemma_concat_assoc(start, acc2, C3::encoding(item.3).unwrap());
        }
        let ret = match C4::encode(ret, item.4) {
            Ok(v) => v,
            Err(e) => return Err(ComposeCodecError10::C4(e)),
        };
        let ghost acc4 = acc3 + C4::encoding(item.4).unwrap();
        proof {
            lemma_concat_assoc(start, acc3, C4::encoding(item.4).unwrap());
        }
        let ret = match C5::encode(ret, item.5) {
            Ok(v) => v,
            Err(e) => return Err(ComposeCodecError10::C5(e)),
        };
        let ghost acc5 = acc4 + C5::encoding(item.5).unwrap();
        proof {
            lemma_concat_assoc(start, acc4, C5::encoding(item.5).unwrap());
        }
        let ret = match C6::encode(ret, item.6) {
            Ok(v) => v,
            Err(e) => return Err(ComposeCodecError10::C6(e)),
        };
        let ghost acc6 = acc5 + C6::encoding(item.6).unwrap();
        proof {
            lemma_concat_assoc(start, acc5, C6::encoding(item.6).unwrap());
        }
        let ret = match C7::encode(ret, item.7) {
            Ok(v) => v,
            Err(e) => return Err(ComposeCodecError10::C7(e)),
        };
        let ghost acc7 = acc6 + C7::encoding(item.7).unwrap();
        proof {
            lemma_concat_assoc(start, acc6, C7::encoding(item.7).unwrap());
        }
        let ret = match C8::encode(ret, item.8) {
            Ok(v) => v,
            Err(e) => return Err(ComposeCodecError10::C8(e)),
        };
        let ghost acc8 = acc7 + C8::encoding(item.8).unwrap();
        proof {
            lemma_concat_assoc(start, acc7, C8::encoding(item.8).unwrap());
        }
        let ret = match C9::encode(ret, item.9) {
            Ok(v) => v,
            Err(e) => return Err(ComposeCodecError10::C9(e)),
        };
        proof {
            lemma_concat_assoc(start, acc8, C9::encoding(item.9).unwrap());
        }
        Ok(ret)
    }
}

impl<C0: Decode, C1: Decode, C2: Decode, C3: Decode, C4: Decode, C5: Decode, C6: Decode, C7: Decode, C8: Decode, C9: Decode> Decode for ComposeCodec<(C0, C1, C2, C3, C4, C5, C6, C7, C8, C9)> {
    type Item = (C0::Item, C1::Item, C2::Item, C3::Item, C4::Item, C5::Item, C6::Item, C7::Item, C8::Item, C9::Item);
    type Error = ComposeCodecError10<C0::Error, C1::Error, C2::Error, C3::Error, C4::Error, C5::Error, C6::Error, C7::Error, C8::Error, C9::Error>;
    type Model = (C0::Model, C1::Model, C2::Model, C3::Model, C4::Model, C5::Model, C6::Model, C7::Model, C8::Model, C9::Model);

    open spec fn model(item: &Self::Item) -> Self::Model {
        (C0::model(&item.0), C1::model(&item.1), C2::model(&item.2), C3::model(&item.3), C4::model(&item.4), C5::model(&item.5), C6::model(&item.6), C7::model(&item.7), C8::model(&item.8), C9::model(&item.9))
    }

    open spec fn decoding(input: Seq<u8>) -> (Option<Self::Model>, nat) {
        let d0 = C0::decoding(input);
        let o1 = d0.1;
        match d0.0 {
            None => (None, o1),
            Some(m0) => {
                let d1 = C1::decoding(input.skip(o1 as int));
                let o2 = o1 + d1.1;
                match d1.0 {
                    None => (None, o2),
                    Some(m1) => {
                        let d2 = C2::decoding(input.skip(o2 as int));
                        let o3 = o2 + d2.1;
                        match d2.0 {
                            None => (None, o3),
                            Some(m2) => {
                                let d3 = C3::decoding(input.skip(o3 as int));
                                let o4 = o3 + d3.1;
                                match d3.0 {
                                    None => (None, o4),
                                    Some(m3) => {
                                        let d4 = C4::decoding(input.skip(o4 as int));
                                        let o5 = o4 + d4.1;
                                        match d4.0 {
                                            None => (None, o5),
                                            Some(m4) => {
                                                let d5 = C5::decoding(input.skip(o5 as int));
                                                let o6 = o5 + d5.1;
                                                match d5.0 {
                                                    None => (None, o6),
                                                    Some(m5) => {
                                                        let d6 = C6::decoding(input.skip(o6 as int));
                                                        let o7 = o6 + d6.1;
                                                        match d6.0 {
                                                            None => (None, o7),
                                                            Some(m6) => {
                                                                let d7 = C7::decoding(input.skip(o7 as int));
                                                                let o8 = o7 + d7.1;
                                                                match d7.0 {
                                                                    None => (None, o8),
                                                                    Some(m7) => {
                                                                        let d8 = C8::decoding(input.skip(o8 as int));
                                                                        let o9 = o8 + d8.1;
                                                                        match d8.0 {
                                                                            None => (None, o9),
                                                                            Some(m8) => {
                                                                                let d9 = C9::decoding(input.skip(o9 as int));
                                                                                let o10 = o9 + d9.1;
                                                                                match d9.0 {
                                                                                    None => (None, o10),
                                                                                    Some(m9) => (Some((m0, m1, m2, m3, m4, m5, m6, m7, m8, m9)), o10),
                                                                                }
                                                                            },
                                                                        }
                                                                    },
                                                                }
                                                            },
                                                        }
                                                    },
                                                }
                                            },
                                        }
                                    },
                                }
                            },
                        }
                    },
                }
            },
        }
    }

    fn decode(bytes: &mut DecodingVec) -> (r: Result<Self::Item, Self::Error>)
        ensures
            ({
                let input = old(bytes)@;
                let d0 = C0::decoding(input);
                let o1 = d0.1;
                let d1 = C1::decoding(input.skip(o1 as int));
                let o2 = o1 + d1.1;
                let d2 = C2::decoding(input.skip(o2 as int));
                let o3 = o2 + d2.1;
                let d3 = C3::decoding(input.skip(o3 as int));
                let o4 = o3 + d3.1;
                let d4 = C4::decoding(input.skip(o4 as int));
                let o5 = o4 + d4.1;
                let d5 = C5::decoding(input.skip(o5 as int));
                let o6 = o5 + d5.1;
                let d6 = C6::decoding(input.skip(o6 as int));
                let o7 = o6 + d6.1;
                let d7 = C7::decoding(input.skip(o7 as int));
                let o8 = o7 + d7.1;
                let d8 = C8::decoding(input.skip(o8 as int));
                let o9 = o8 + d8.1;
                let d9 = C9::decoding(input.skip(o9 as int));
                let o10 = o9 + d9.1;
                &&& (r matches Err(ComposeCodecError10::C0(_)) <==> d0.0 is None)
                &&& (r matches Err(ComposeCodecError10::C1(_)) <==> d0.0 is Some && d1.0 is None)
                &&& (r matches Err(ComposeCodecError10::C2(_)) <==> d0.0 is Some && d1.0 is Some && d2.0 is None)
                &&& (r matches Err(ComposeCodecError10::C3(_)) <==> d0.0 is Some && d1.0 is Some && d2.0 is Some && d3.0 is None)
                &&& (r matches Err(ComposeCodecError10::C4(_)) <==> d0.0 is Some && d1.0 is Some && d2.0 is Some && d3.0 is Some && d4.0 is None)
                &&& (r matches Err(ComposeCodecError10::C5(_)) <==> d0.0 is Some && d1.0 is Some && d2.0 is Some && d3.0 is Some && d4.0 is Some && d5.0 is None)
                &&& (r matches Err(ComposeCodecError10::C6(_)) <==> d0.0 is Some && d1.0 is Some && d2.0 is Some && d3.0 is Some && d4.0 is Some && d5.0 is Some && d6.0 is None)
                &&& (r matches Err(ComposeCodecError10::C7(_)) <==> d0.0 is Some && d1.0 is Some && d2.0 is Some && d3.0 is Some && d4.0 is Some && d5.0 is Some && d6.0 is Some && d7.0 is None)
                &&& (r matches Err(ComposeCodecError10::C8(_)) <==> d0.0 is Some && d1.0 is Some && d2.0 is Some && d3.0 is Some && d4.0 is Some && d5.0 is Some && d6.0 is Some && d7.0 is Some && d8.0 is None)
                &&& (r matches Err(ComposeCodecError10::C9(_)) <==> d0.0 is Some && d1.0 is Some && d2.0 is Some && d3.0 is Some && d4.0 is Some && d5.0 is Some && d6.0 is Some && d7.0 is Some && d8.0 is Some && d9.0 is None)
            }),
    {
        let ghost input = bytes@;
        let ghost o1 = C0::decoding(input).1;
        let r0 = C0::decode(bytes);
        assert(bytes@ =~= input.skip(o1 as int));
        let v0 = match r0 {
            Ok(v) => v,
            Err(e) => return Err(ComposeCodecError10::C0(e)),
        };
        let ghost o2 = o1 + C1::decoding(input.skip(o1 as int)).1;
        let r1 = C1::decode(bytes);
        assert(bytes@ =~= input.skip(o2 as int));
        let v1 = match r1 {
            Ok(v) => v,
            Err(e) => return Err(ComposeCodecError10::C1(e)),
        };
        let ghost o3 = o2 + C2::decoding(input.skip(o2 as int)).1;
        let r2 = C2::decode(bytes);
        assert(bytes@ =~= input.skip(o3 as int));
        let v2 = match r2 {
            Ok(v) => v,
            Err(e) => return Err(ComposeCodecError10::C2(e)),
        };
        let ghost o4 = o3 + C3::decoding(input.skip(o3 as int)).1;
        let r3 = C3::decode(bytes);
        assert(bytes@ =~= input.skip(o4 as int));
        let v3 = match r3 {
            Ok(v) => v,
            Err(e) => return Err(ComposeCodecError10::C3(e)),
        };
        let ghost o5 = o4 + C4::decoding(input.skip(o4 as int)).1;
        let r4 = C4::decode(bytes);
        assert(bytes@ =~= input.skip(o5 as int));
        let v4 = match r4 {
            Ok(v) => v,
            Err(e) => return Err(ComposeCodecError10::C4(e)),
        };
        let ghost o6 = o5 + C5::decoding(input.skip(o5 as int)).1;
        let r5 = C5::decode(bytes);
        assert(bytes@ =~= input.skip(o6 as int));
        let v5 = match r5 {
            Ok(v) => v,
            Err(e) => return Err(ComposeCodecError10::C5(e)),
        };
        let ghost o7 = o6 + C6::decoding(input.skip(o6 as int)).1;
        let r6 = C6::decode(bytes);
        assert(bytes@ =~= input.skip(o7 as int));
        let v6 = match r6 {
            Ok(v) => v,
            Err(e) => return Err(ComposeCodecError10::C6(e)),
        };
        let ghost o8 = o7 + C7::decoding(input.skip(o7 as int)).1;
        let r7 = C7::decode(bytes);
        assert(bytes@ =~= input.skip(o8 as int));
        let v7 = match r7 {
            Ok(v) => v,
            Err(e) => return Err(ComposeCodecError10::C7(e)),
        };
        let ghost o9 = o8 + C8::decoding(input.skip(o8 as int)).1;
        let r8 = C8::decode(bytes);
        assert(bytes@ =~= input.skip(o9 as int));
        let v8 = match r8 {
            Ok(v) => v,
            Err(e) => return Err(ComposeCodecError10::C8(e)),
        };
        let ghost o10 = o9 + C9::decoding(input.skip(o9 as int)).1;
        let r9 = C9::decode(bytes);
        assert(bytes@ =~= input.skip(o10 as int));
        let v9 = match r9 {
            Ok(v) => v,
            Err(e) => return Err(ComposeCodecError10::C9(e)),
        };
        Ok((v0, v1, v2, v3, v4, v5, v6, v7, v8, v9))
    }
}

/// When every codec but the last recovers its item whatever follows it, and the last one
/// recovers its item from its own encoding, the composition recovers the whole tuple from
/// its encoding.
pub proof fn lemma_compose10_roundtrip<'a, C0: Encode<'a> + Decode, C1: Encode<'a> + Decode, C2: Encode<'a> + Decode, C3: Encode<'a> + Decode, C4: Encode<'a> + Decode, C5: Encode<'a> + Decode, C6: Encode<'a> + Decode, C7: Encode<'a> + Decode, C8: Encode<'a> + Decode, C9: Encode<'a> + Decode>(
    item: &<ComposeCodec<(C0, C1, C2, C3, C4, C5, C6, C7, C8, C9)> as Encode<'a>>::Item,
    m0: <C0 as Decode>::Model, m1: <C1 as Decode>::Model, m2: <C2 as Decode>::Model, m3: <C3 as Decode>::Model, m4: <C4 as Decode>::Model, m5: <C5 as Decode>::Model, m6: <C6 as Decode>::Model, m7: <C7 as Decode>::Model, m8: <C8 as Decode>::Model, m9: <C9 as Decode>::Model,
)
    requires
        roundtrips_before_anything::<C0>(item.0, m0),
        roundtrips_before_anything::<C1>(item.1, m1),
        roundtrips_before_anything::<C2>(item.2, m2),
        roundtrips_before_anything::<C3>(item.3, m3),
        roundtrips_before_anything::<C4>(item.4, m4),
        roundtrips_before_anything::<C5>(item.5, m5),
        roundtrips_before_anything::<C6>(item.6, m6),
        roundtrips_before_anything::<C7>(item.7, m7),
        roundtrips_before_anything::<C8>(item.8, m8),
        roundtrips_alone::<C9>(item.9, m9),
    ensures
        roundtrips_alone::<ComposeCodec<(C0, C1, C2, C3, C4, C5, C6, C7, C8, C9)>>(item, (m0, m1, m2, m3, m4, m5, m6, m7, m8, m9)),
{
    let b0 = C0::encoding(item.0).unwrap();
    let b1 = C1::encoding(item.1).unwrap();
    let b2 = C2::encoding(item.2).unwrap();
    let b3 = C3::encoding(item.3).unwrap();
    let b4 = C4::encoding(item.4).unwrap();
    let b5 = C5::encoding(item.5).unwrap();
    let b6 = C6::encoding(item.6).unwrap();
    let b7 = C7::encoding(item.7).unwrap();
    let b8 = C8::encoding(item.8).unwrap();
    let b9 = C9::encoding(item.9).unwrap();
    let p1 = b0;
    let p2 = p1 + b1;
    let p3 = p2 + b2;
    let p4 = p3 + b3;
    let p5 = p4 + b4;
    let p6 = p5 + b5;
    let p7 = p6 + b6;
    let p8 = p7 + b7;
    let p9 = p8 + b8;
    let p10 = p9 + b9;
    assert(ComposeCodec::<(C0, C1, C2, C3, C4, C5, C6, C7, C8, C9)>::encoding(item) == Some(p10));
    let t9 = b9;
    let t8 = b8 + t9;
    lemma_concat_assoc(p8, b8, t9);
    let t7 = b7 + t8;
    lemma_concat_assoc(p7, b7, t8);
    let t6 = b6 + t7;
    lemma_concat_assoc(p6, b6, t7);
    let t5 = b5 + t6;
    lemma_concat_assoc(p5, b5, t6);
    let t4 = b4 + t5;
    lemma_concat_assoc(p4, b4, t5);
    let t3 = b3 + t4;
    lemma_concat_assoc(p3, b3, t4);
    let t2 = b2 + t3;
    lemma_concat_assoc(p2, b2, t3);
    let t1 = b1 + t2;
    lemma_concat_assoc(p1, b1, t2);
    lemma_skip_prefix(p1, t1);
    lemma_skip_prefix(p2, t2);
    lemma_skip_prefix(p3, t3);
    lemma_skip_prefix(p4, t4);
    lemma_skip_prefix(p5, t5);
    lemma_skip_prefix(p6, t6);
    lemma_skip_prefix(p7, t7);
    lemma_skip_prefix(p8, t8);
    lemma_skip_prefix(p9, t9);
    assert(C0::decoding(b0 + t1) == (Some(m0), b0.len()));
    assert(C1::decoding(b1 + t2) == (Some(m1), b1.len()));
    assert(C2::decoding(b2 + t3) == (Some(m2), b2.len()));
    assert(C3::decoding(b3 + t4) == (Some(m3), b3.len()));
    assert(C4::decoding(b4 + t5) == (Some(m4), b4.len()));
    assert(C5::decoding(b5 + t6) == (Some(m5), b5.len()));
    assert(C6::decoding(b6 + t7) == (Some(m6), b6.len()));
    assert(C7::decoding(b7 + t8) == (Some(m7), b7.len()));
    assert(C8::decoding(b8 + t9) == (Some(m8), b8.len()));
    assert(C9::decoding(b9) == (Some(m9), b9.len()));
}

/// When every codec recovers its item whatever follows it, so does the composition: it can
/// itself stand before another codec.
pub proof fn lemma_compose10_roundtrip_before_anything<'a, C0: Encode<'a> + Decode, C1: Encode<'a> + Decode, C2: Encode<'a> + Decode, C3: Encode<'a> + Decode, C4: Encode<'a> + Decode, C5: Encode<'a> + Decode, C6: Encode<'a> + Decode, C7: Encode<'a> + Decode, C8: Encode<'a> + Decode, C9: Encode<'a> + Decode>(
    item: &<ComposeCodec<(C0, C1, C2, C3, C4, C5, C6, C7, C8, C9)> as Encode<'a>>::Item,
    m0: <C0 as Decode>::Model, m1: <C1 as Decode>::Model, m2: <C2 as Decode>::Model, m3: <C3 as Decode>::Model, m4: <C4 as Decode>::Model, m5: <C5 as Decode>::Model, m6: <C6 as Decode>::Model, m7: <C7 as Decode>::Model, m8: <C8 as Decode>::Model, m9: <C9 as Decode>::Model,
)
    requires
        roundtrips_before_anything::<C0>(item.0, m0),
        roundtrips_before_anything::<C1>(item.1, m1),
        roundtrips_before_anything::<C2>(item.2, m2),
        roundtrips_before_anything::<C3>(item.3, m3),
        roundtrips_before_anything::<C4>(item.4, m4),
        roundtrips_before_anything::<C5>(item.5, m5),
        roundtrips_before_anything::<C6>(item.6, m6),
        roundtrips_before_anything::<C7>(item.7, m7),
        roundtrips_before_anything::<C8>(item.8, m8),
        roundtrips_before_anything::<C9>(item.9, m9),
    ensures
        roundtrips_before_anything::<ComposeCodec<(C0, C1, C2, C3, C4, C5, C6, C7, C8, C9)>>(item, (m0, m1, m2, m3, m4, m5, m6, m7, m8, m9)),
{
    let b0 = C0::encoding(item.0).unwrap();
    let b1 = C1::encoding(item.1).unwrap();
    let b2 = C2::encoding(item.2).unwrap();
    let b3 = C3::encoding(item.3).unwrap();
    let b4 = C4::encoding(item.4).unwrap();
    let b5 = C5::encoding(item.5).unwrap();
    let b6 = C6::encoding(item.6).unwrap();
    let b7 = C7::encoding(item.7).unwrap();
    let b8 = C8::encoding(item.8).unwrap();
    let b9 = C9::encoding(item.9).unwrap();
    let p1 = b0;
    let p2 = p1 + b1;
    let p3 = p2 + b2;
    let p4 = p3 + b3;
    let p5 = p4 + b4;
    let p6 = p5 + b5;
    let p7 = p6 + b6;
    let p8 = p7 + b7;
    let p9 = p8 + b8;
    let p10 = p9 + b9;
    assert(ComposeCodec::<(C0, C1, C2, C3, C4, C5, C6, C7, C8, C9)>::encoding(item) == Some(p10));
    assert forall|rest: Seq<u8>|
        #[trigger] ComposeCodec::<(C0, C1, C2, C3, C4, C5, C6, C7, C8, C9)>::decoding(p10 + rest) == (Some((m0, m1, m2, m3, m4, m5, m6, m7, m8, m9)), p10.len()) by {
        let t10 = rest;
        let t9 = b9 + t10;
        lemma_concat_assoc(p9, b9, t10);
        let t8 = b8 + t9;
        lemma_concat_assoc(p8, b8, t9);
        let t7 = b7 + t8;
        lemma_concat_assoc(p7, b7, t8);
        let t6 = b6 + t7;
        lemma_concat_assoc(p6, b6, t7);
        let t5 = b5 + t6;
        lemma_concat_assoc(p5, b5, t6);
        let t4 = b4 + t5;
        lemma_concat_assoc(p4, b4, t5);
        let t3 = b3 + t4;
        lemma_concat_assoc(p3, b3, t4);
        let t2 = b2 + t3;
        lemma_concat_assoc(p2, b2, t3);
        let t1 = b1 + t2;
        lemma_concat_assoc(p1, b1, t2);
        lemma_skip_prefix(p1, t1);
        lemma_skip_prefix(p2, t2);
        lemma_skip_prefix(p3, t3);
        lemma_skip_prefix(p4, t4);
        lemma_skip_prefix(p5, t5);
        lemma_skip_prefix(p6, t6);
        lemma_skip_prefix(p7, t7);
        lemma_skip_prefix(p8, t8);
        lemma_skip_prefix(p9, t9);
        assert(C0::decoding(b0 + t1) == (Some(m0), b0.len()));
        assert(C1::decoding(b1 + t2) == (Some(m1), b1.len()));
        assert(C2::decoding(b2 + t3) == (Some(m2), b2.len()));
        assert(C3::decoding(b3 + t4) == (Some(m3), b3.len()));
        assert(C4::decoding(b4 + t5) == (Some(m4), b4.len()));
        assert(C5::decoding(b5 + t6) == (Some(m5), b5.len()));
        assert(C6::decoding(b6 + t7) == (Some(m6), b6.len()));
        assert(C7::decoding(b7 + t8) == (Some(m7), b7.len()));
        assert(C8::decoding(b8 + t9) == (Some(m8), b8.len()));
        assert(C9::decoding(b9 + t10) == (Some(m9), b9.len()));
    }
}

/// Why a composition of 11 codecs failed: the variant names the codec that failed.
#[derive(Debug)]
pub enum ComposeCodecError11<C0, C1, C2, C3, C4, C5, C6, C7, C8, C9, C10> {
    /// The codec in position 0 failed.
    C0(C0),
    /// The codec in position 1 failed.
    C1(C1),
    /// The codec in position 2 failed.
    C2(C2),
    /// The codec in position 3 failed.
    C3(C3),
    /// The codec in position 4 failed.
    C4(C4),
    /// The codec in position 5 failed.
    C5(C5),
    /// The codec in position 6 failed.
    C6(C6),
    /// The codec in position 7 failed.
    C7(C7),
    /// The codec in position 8 failed.
    C8(C8),
    /// The codec in position 9 failed.
    C9(C9),
    /// The codec in position 10 failed.
    C10(C10),
}

impl<'a, C0: Encode<'a>, C1: Encode<'a>, C2: Encode<'a>, C3: Encode<'a>, C4: Encode<'a>, C5: Encode<'a>, C6: Encode<'a>, C7: Encode<'a>, C8: Encode<'a>, C9: Encode<'a>, C10: Encode<'a>> Encode<'a> for ComposeCodec<(C0, C1, C2, C3, C4, C5, C6, C7, C8, C9, C10)> {
    type Item = (&'a C0::Item, &'a C1::Item, &'a C2::Item, &'a C3::Item, &'a C4::Item, &'a C5::Item, &'a C6::Item, &'a C7::Item, &'a C8::Item, &'a C9::Item, &'a C10::Item);
    type Error = ComposeCodecError11<C0::Error, C1::Error, C2::Error, C3::Error, C4::Error, C5::Error, C6::Error, C7::Error, C8::Error, C9::Error, C10::Error>;

    open spec fn encoding(item: &Self::Item) -> Option<Seq<u8>> {
        match C0::encoding(item.0) {
            None => None,
            Some(b0) => {
                match C1::encoding(item.1) {
                    None => None,
                    Some(b1) => {
                        match C2::encoding(item.2) {
                            None => None,
                            Some(b2) => {
                                match C3::encoding(item.3) {
                                    None => None,
                                    Some(b3) => {
                                        match C4::encoding(item.4) {
                                            None => None,
                                            Some(b4) => {
                                                match C5::encoding(item.5) {
                                                    None => None,
                                                    Some(b5) => {
                                                        match C6::encoding(item.6) {
                                                            None => None,
                                                            Some(b6) => {
                                                                match C7::encoding(item.7) {
                                                                    None => None,
                                                                    Some(b7) => {
                                                                        match C8::encoding(item.8) {
                                                                            None => None,
                                                                            Some(b8) => {
                                                                                match C9::encoding(item.9) {
                                                                                    None => None,
                                                                                    Some(b9) => {
                                                                                        match C10::encoding(item.10) {
                                                                                            None => None,
                                                                                            Some(b10) => Some(b0 + b1 + b2 + b3 + b4 + b5 + b6 + b7 + b8 + b9 + b10),
                                                                                        }
                                                                                    },
                                                                                }
                                                                            },
                                                                        }
                                                                    },
                                                                }
                                                            },
                                                        }
                                                    },
                                                }
                                            },
                                        }
                                    },
                                }
                            },
                        }
                    },
                }
            },
        }
    }

    fn encode(into: EncodingVec<Fresh>, item: &Self::Item) -> (r: Result<EncodingVec<Fresh>, Self::Error>)
        ensures
            r matches Err(ComposeCodecError11::C0(_)) ==> C0::encoding(item.0) is None,
            r matches Err(ComposeCodecError11::C1(_)) ==> C0::encoding(item.0) is Some && C1::encoding(item.1) is None,
            r matches Err(ComposeCodecError11::C2(_)) ==> C0::encoding(item.0) is Some && C1::encoding(item.1) is Some && C2::encoding(item.2) is None,
            r matches Err(ComposeCodecError11::C3(_)) ==> C0::encoding(item.0) is Some && C1::encoding(item.1) is Some && C2::encoding(item.2) is Some && C3::encoding(item.3) is None,
            r matches Err(ComposeCodecError11::C4(_)) ==> C0::encoding(item.0) is Some && C1::encoding(item.1) is Some && C2::encoding(item.2) is Some && C3::encoding(item.3) is Some && C4::encoding(item.4) is None,
            r matches Err(ComposeCodecError11::C5(_)) ==> C0::encoding(item.0) is Some && C1::encoding(item.1) is Some && C2::encoding(item.2) is Some && C3::encoding(item.3) is Some && C4::encoding(item.4) is Some && C5::encoding(item.5) is None,
            r matches Err(ComposeCodecError11::C6(_)) ==> C0::encoding(item.0) is Some && C1::encoding(item.1) is Some && C2::encoding(item.2) is Some && C3::encoding(item.3) is Some && C4::encoding(item.4) is Some && C5::encoding(item.5) is Some && C6::encoding(item.6) is None,
            r matches Err(ComposeCodecError11::C7(_)) ==> C0::encoding(item.0) is Some && C1::encoding(item.1) is Some && C2::encoding(item.2) is Some && C3::encoding(item.3) is Some && C4::encoding(item.4) is Some && C5::encoding(item.5) is Some && C6::encoding(item.6) is Some && C7::encoding(item.7) is None,
            r matches Err(ComposeCodecError11::C8(_)) ==> C0::encoding(item.0) is Some && C1::encoding(item.1) is Some && C2::encoding(item.2) is Some && C3::encoding(item.3) is Some && C4::encoding(item.4) is Some && C5::encoding(item.5) is Some && C6::encoding(item.6) is Some && C7::encoding(item.7) is Some && C8::encoding(item.8) is None,
            r matches Err(ComposeCodecError11::C9(_)) ==> C0::encoding(item.0) is Some && C1::encoding(item.1) is Some && C2::encoding(item.2) is Some && C3::encoding(item.3) is Some && C4::encoding(item.4) is Some && C5::encoding(item.5) is Some && C6::encoding(item.6) is Some && C7::encoding(item.7) is Some && C8::encoding(item.8) is Some && C9::encoding(item.9) is None,
            r matches Err(ComposeCodecError11::C10(_)) ==> C0::encoding(item.0) is Some && C1::encoding(item.1) is Some && C2::encoding(item.2) is Some && C3::encoding(item.3) is Some && C4::encoding(item.4) is Some && C5::encoding(item.5) is Some && C6::encoding(item.6) is Some && C7::encoding(item.7) is Some && C8::encoding(item.8) is Some && C9::encoding(item.9) is Some && C10::encoding(item.10) is None,
    {
        let ghost start = into.bytes();
        let ret = match C0::encode(into, item.0) {
            Ok(v) => v,
            Err(e) => return Err(ComposeCodecError11::C0(e)),
        };
        let ghost acc0 = C0::encoding(item.0).unwrap();
        let ret = match C1::encode(ret, item.1) {
            Ok(v) => v,
            Err(e) => return Err(ComposeCodecError11::C1(e)),
        };
        let ghost acc1 = acc0 + C1::encoding(item.1).unwrap();
        proof {
            lemma_concat_assoc(start, acc0, C1::encoding(item.1).unwrap());
        }
        let ret = match C2::encode(ret, item.2) {
            Ok(v) => v,
            Err(e) => return Err(ComposeCodecError11::C2(e)),
        };
        let ghost acc2 = acc1 + C2::encoding(item.2).unwrap();
        proof {
            lemma_concat_assoc(start, acc1, C2::encoding(item.2).unwrap());
        }
        let ret = match C3::encode(ret, item.3) {
            Ok(v) => v,
            Err(e) => return Err(ComposeCodecError11::C3(e)),
        };
        let ghost acc3 = acc2 + C3::encoding(item.3).unwrap();
        proof {
            lemma_concat_assoc(start, acc2, C3::encoding(item.3).unwrap());
        }
        let ret = match C4::encode(ret, item.4) {
            Ok(v) => v,
            Err(e) => return Err(ComposeCodecError11::C4(e)),
        };
        let ghost acc4 = acc3 + C4::encoding(item.4).unwrap();
        proof {
            lemma_concat_assoc(start, acc3, C4::encoding(item.4).unwrap());
        }
        let ret = match C5::encode(ret, item.5) {
            Ok(v) => v,
            Err(e) => return Err(ComposeCodecError11::C5(e)),
        };
        let ghost acc5 = acc4 + C5::encoding(item.5).unwrap();
        proof {
            lemma_concat_assoc(start, acc4, C5::encoding(item.5).unwrap());
        }
        let ret = match C6::encode(ret, item.6) {
            Ok(v) => v,
            Err(e) => return Err(ComposeCodecError11::C6(e)),
        };
        let ghost acc6 = acc5 + C6::encoding(item.6).unwrap();
        proof {
            lemma_concat_assoc(start, acc5, C6::encoding(item.6).unwrap());
        }
        let ret = match C7::encode(ret, item.7) {
            Ok(v) => v,
            Err(e) => return Err(ComposeCodecError11::C7(e)),
        };
        let ghost acc7 = acc6 + C7::encoding(item.7).unwrap();
        proof {
            lemma_concat_assoc(start, acc6, C7::encoding(item.7).unwrap());
        }
        let ret = match C8::encode(ret, item.8) {
            Ok(v) => v,
            Err(e) => return Err(ComposeCodecError11::C8(e)),
        };
        let ghost acc8 = acc7 + C8::encoding(item.8).unwrap();
        proof {
            lemma_concat_assoc(start, acc7, C8::encoding(item.8).unwrap());
        }
        let ret = match C9::encode(ret, item.9) {
            Ok(v) => v,
            Err(e) => return Err(ComposeCodecError11::C9(e)),
        };
        let ghost acc9 = acc8 + C9::encoding(item.9).unwrap();
        proof {
            lemma_concat_assoc(start, acc8, C9::encoding(item.9).unwrap());
        }
        let ret = match C10::encode(ret, item.10) {
            Ok(v) => v,
            Err(e) => return Err(ComposeCodecError11::C10(e)),
        };
        proof {
            lemma_concat_assoc(start, acc9, C10::encoding(item.10).unwrap());
        }
        Ok(ret)
    }
}

impl<C0: Decode, C1: Decode, C2: Decode, C3: Decode, C4: Decode, C5: Decode, C6: Decode, C7: Decode, C8: Decode, C9: Decode, C10: Decode> Decode for ComposeCodec<(C0, C1, C2, C3, C4, C5, C6, C7, C8, C9, C10)> {
    type Item = (C0::Item, C1::Item, C2::Item, C3::Item, C4::Item, C5::Item, C6::Item, C7::Item, C8::Item, C9::Item, C10::Item);
    type Error = ComposeCodecError11<C0::Error, C1::Error, C2::Error, C3::Error, C4::Error, C5::Error, C6::Error, C7::Error, C8::Error, C9::Error, C10::Error>;
    type Model = (C0::Model, C1::Model, C2::Model, C3::Model, C4::Model, C5::Model, C6::Model, C7::Model, C8::Model, C9::Model, C10::Model);

    open spec fn model(item: &Self::Item) -> Self::Model {
        (C0::model(&item.0), C1::model(&item.1), C2::model(&item.2), C3::model(&item.3), C4::model(&item.4), C5::model(&item.5), C6::model(&item.6), C7::model(&item.7), C8::model(&item.8), C9::model(&item.9), C10::model(&item.10))
    }

    open spec fn decoding(input: Seq<u8>) -> (Option<Self::Model>, nat) {
        let d0 = C0::decoding(input);
        let o1 = d0.1;
        match d0.0 {
            None => (None, o1),
            Some(m0) => {
                let d1 = C1::decoding(input.skip(o1 as int));
                let o2 = o1 + d1.1;
                match d1.0 {
                    None => (None, o2),
                    Some(m1) => {
                        let d2 = C2::decoding(input.skip(o2 as int));
                        let o3 = o2 + d2.1;
                        match d2.0 {
                            None => (None, o3),
                            Some(m2) => {
                                let d3 = C3::decoding(input.skip(o3 as int));
                                let o4 = o3 + d3.1;
                                match d3.0 {
                                    None => (None, o4),
                                    Some(m3) => {
                                        let d4 = C4::decoding(input.skip(o4 as int));
                                        let o5 = o4 + d4.1;
                                        match d4.0 {
                                            None => (None, o5),
                                            Some(m4) => {
                                                let d5 = C5::decoding(input.skip(o5 as int));
                                                let o6 = o5 + d5.1;
                                                match d5.0 {
                                                    None => (None, o6),
                                                    Some(m5) => {
                                                        let d6 = C6::decoding(input.skip(o6 as int));
                                                        let o7 = o6 + d6.1;
                                                        match d6.0 {
                                                            None => (None, o7),
                                                            Some(m6) => {
                                                                let d7 = C7::decoding(input.skip(o7 as int));
                                                                let o8 = o7 + d7.1;
                                                                match d7.0 {
                                                                    None => (None, o8),
                                                                    Some(m7) => {
                                                                        let d8 = C8::decoding(input.skip(o8 as int));
                                                                        let o9 = o8 + d8.1;
                                                                        match d8.0 {
                                                                            None => (None, o9),
                                                                            Some(m8) => {
                                                                                let d9 = C9::decoding(input.skip(o9 as int));
                                                                                let o10 = o9 + d9.1;
                                                                                match d9.0 {
                                                                                    None => (None, o10),
                                                                                    Some(m9) => {
                                                                                        let d10 = C10::decoding(input.skip(o10 as int));
                                                                                        let o11 = o10 + d10.1;
                                                                                        match d10.0 {
                                                                                            None => (None, o11),
                                                                                            Some(m10) => (Some((m0, m1, m2, m3, m4, m5, m6, m7, m8, m9, m10)), o11),
                                                                                        }
                                                                                    },
                                                                                }
                                                                            },
                                                                        }
                                                                    },
                                                                }
                                                            },
                                                        }
                                                    },
                                                }
                                            },
                                        }
                                    },
                                }
                            },
                        }
                    },
                }
            },
        }
    }

    fn decode(bytes: &mut DecodingVec) -> (r: Result<Self::Item, Self::Error>)
        ensures
            ({
                let input = old(bytes)@;
                let d0 = C0::decoding(input);
                let o1 = d0.1;
                let d1 = C1::decoding(input.skip(o1 as int));
                let o2 = o1 + d1.1;
                let d2 = C2::decoding(input.skip(o2 as int));
                let o3 = o2 + d2.1;
                let d3 = C3::decoding(input.skip(o3 as int));
                let o4 = o3 + d3.1;
                let d4 = C4::decoding(input.skip(o4 as int));
                let o5 = o4 + d4.1;
                let d5 = C5::decoding(input.skip(o5 as int));
                let o6 = o5 + d5.1;
                let d6 = C6::decoding(input.skip(o6 as int));
                let o7 = o6 + d6.1;
                let d7 = C7::decoding(input.skip(o7 as int));
                let o8 = o7 + d7.1;
                let d8 = C8::decoding(input.skip(o8 as int));
                let o9 = o8 + d8.1;
                let d9 = C9::decoding(input.skip(o9 as int));
                let o10 = o9 + d9.1;
                let d10 = C10::decoding(input.skip(o10 as int));
                let o11 = o10 + d10.1;
                &&& (r matches Err(ComposeCodecError11::C0(_)) <==> d0.0 is None)
                &&& (r matches Err(ComposeCodecError11::C1(_)) <==> d0.0 is Some && d1.0 is None)
                &&& (r matches Err(ComposeCodecError11::C2(_)) <==> d0.0 is Some && d1.0 is Some && d2.0 is None)
                &&& (r matches Err(ComposeCodecError11::C3(_)) <==> d0.0 is Some && d1.0 is Some && d2.0 is Some && d3.0 is None)
                &&& (r matches Err(ComposeCodecError11::C4(_)) <==> d0.0 is Some && d1.0 is Some && d2.0 is Some && d3.0 is Some && d4.0 is None)
                &&& (r matches Err(ComposeCodecError11::C5(_)) <==> d0.0 is Some && d1.0 is Some && d2.0 is Some && d3.0 is Some && d4.0 is Some && d5.0 is None)
                &&& (r matches Err(ComposeCodecError11::C6(_)) <==> d0.0 is Some && d1.0 is Some && d2.0 is Some && d3.0 is Some && d4.0 is Some && d5.0 is Some && d6.0 is None)
                &&& (r matches Err(ComposeCodecError11::C7(_)) <==> d0.0 is Some && d1.0 is Some && d2.0 is Some && d3.0 is Some && d4.0 is Some && d5.0 is Some && d6.0 is Some && d7.0 is None)
                &&& (r matches Err(ComposeCodecError11::C8(_)) <==> d0.0 is Some && d1.0 is Some && d2.0 is Some && d3.0 is Some && d4.0 is Some && d5.0 is Some && d6.0 is Some && d7.0 is Some && d8.0 is None)
                &&& (r matches Err(ComposeCodecError11::C9(_)) <==> d0.0 is Some && d1.0 is Some && d2.0 is Some && d3.0 is Some && d4.0 is Some && d5.0 is Some && d6.0 is Some && d7.0 is Some && d8.0 is Some && d9.0 is None)
                &&& (r matches Err(ComposeCodecError11::C10(_)) <==> d0.0 is Some && d1.0 is Some && d2.0 is Some && d3.0 is Some && d4.0 is Some && d5.0 is Some && d6.0 is Some && d7.0 is Some && d8.0 is Some && d9.0 is Some && d10.0 is None)
            }),
    {
        let ghost input = bytes@;
        let ghost o1 = C0::decoding(input).1;
        let r0 = C0::decode(bytes);
        assert(bytes@ =~= input.skip(o1 as int));
        let v0 = match r0 {
            Ok(v) => v,
            Err(e) => return Err(ComposeCodecError11::C0(e)),
        };
        let ghost o2 = o1 + C1::decoding(input.skip(o1 as int)).1;
        let r1 = C1::decode(bytes);
        assert(bytes@ =~= input.skip(o2 as int));
        let v1 = match r1 {
            Ok(v) => v,
            Err(e) => return Err(ComposeCodecError11::C1(e)),
        };
        let ghost o3 = o2 + C2::decoding(input.skip(o2 as int)).1;
        let r2 = C2::decode(bytes);
        assert(bytes@ =~= input.skip(o3 as int));
        let v2 = match r2 {
            Ok(v) => v,
            Err(e) => return Err(ComposeCodecError11::C2(e)),
        };
        let ghost o4 = o3 + C3::decoding(input.skip(o3 as int)).1;
        let r3 = C3::decode(bytes);
        assert(bytes@ =~= input.skip(o4 as int));
        let v3 = match r3 {
            Ok(v) => v,
            Err(e) => return Err(ComposeCodecError11::C3(e)),
        };
        let ghost o5 = o4 + C4::decoding(input.skip(o4 as int)).1;
        let r4 = C4::decode(bytes);
        assert(bytes@ =~= input.skip(o5 as int));
        let v4 = match r4 {
            Ok(v) => v,
            Err(e) => return Err(ComposeCodecError11::C4(e)),
        };
        let ghost o6 = o5 + C5::decoding(input.skip(o5 as int)).1;
        let r5 = C5::decode(bytes);
        assert(bytes@ =~= input.skip(o6 as int));
        let v5 = match r5 {
            Ok(v) => v,
            Err(e) => return Err(ComposeCodecError11::C5(e)),
        };
        let ghost o7 = o6 + C6::decoding(input.skip(o6 as int)).1;
        let r6 = C6::decode(bytes);
        assert(bytes@ =~= input.skip(o7 as int));
        let v6 = match r6 {
            Ok(v) => v,
            Err(e) => return Err(ComposeCodecError11::C6(e)),
        };
        let ghost o8 = o7 + C7::decoding(input.skip(o7 as int)).1;
        let r7 = C7::decode(bytes);
        assert(bytes@ =~= input.skip(o8 as int));
        let v7 = match r7 {
            Ok(v) => v,
            Err(e) => return Err(ComposeCodecError11::C7(e)),
        };
        let ghost o9 = o8 + C8::decoding(input.skip(o8 as int)).1;
        let r8 = C8::decode(bytes);
        assert(bytes@ =~= input.skip(o9 as int));
        let v8 = match r8 {
            Ok(v) => v,
            Err(e) => return Err(ComposeCodecError11::C8(e)),
        };
        let ghost o10 = o9 + C9::decoding(input.skip(o9 as int)).1;
        let r9 = C9::decode(bytes);
        assert(bytes@ =~= input.skip(o10 as int));
        let v9 = match r9 {
            Ok(v) => v,
            Err(e) => return Err(ComposeCodecError11::C9(e)),
        };
        let ghost o11 = o10 + C10::decoding(input.skip(o10 as int)).1;
        let r10 = C10::decode(bytes);
        assert(bytes@ =~= input.skip(o11 as int));
        let v10 = match r10 {
            Ok(v) => v,
            Err(e) => return Err(ComposeCodecError11::C10(e)),
        };
        Ok((v0, v1, v2, v3, v4, v5, v6, v7, v8, v9, v10))
    }
}

/// When every codec but the last recovers its item whatever follows it, and the last one
/// recovers its item from its own encoding, the composition recovers the whole tuple from
/// its encoding.
pub proof fn lemma_compose11_roundtrip<'a, C0: Encode<'a> + Decode, C1: Encode<'a> + Decode, C2: Encode<'a> + Decode, C3: Encode<'a> + Decode, C4: Encode<'a> + Decode, C5: Encode<'a> + Decode, C6: Encode<'a> + Decode, C7: Encode<'a> + Decode, C8: Encode<'a> + Decode, C9: Encode<'a> + Decode, C10: Encode<'a> + Decode>(
    item: &<ComposeCodec<(C0, C1, C2, C3, C4, C5, C6, C7, C8, C9, C10)> as Encode<'a>>::Item,
    m0: <C0 as Decode>::Model, m1: <C1 as Decode>::Model, m2: <C2 as Decode>::Model, m3: <C3 as Decode>::Model, m4: <C4 as Decode>::Model, m5: <C5 as Decode>::Model, m6: <C6 as Decode>::Model, m7: <C7 as Decode>::Model, m8: <C8 as Decode>::Model, m9: <C9 as Decode>::Model, m10: <C10 as Decode>::Model,
)
    requires
        roundtrips_before_anything::<C0>(item.0, m0),
        roundtrips_before_anything::<C1>(item.1, m1),
        roundtrips_before_anything::<C2>(item.2, m2),
        roundtrips_before_anything::<C3>(item.3, m3),
        roundtrips_before_anything::<C4>(item.4, m4),
        roundtrips_before_anything::<C5>(item.5, m5),
        roundtrips_before_anything::<C6>(item.6, m6),
        roundtrips_before_anything::<C7>(item.7, m7),
        roundtrips_before_anything::<C8>(item.8, m8),
        roundtrips_before_anything::<C9>(item.9, m9),
        roundtrips_alone::<C10>(item.10, m10),
    ensures
        roundtrips_alone::<ComposeCodec<(C0, C1, C2, C3, C4, C5, C6, C7, C8, C9, C10)>>(item, (m0, m1, m2, m3, m4, m5, m6, m7, m8, m9, m10)),
{
    let b0 = C0::encoding(item.0).unwrap();
    let b1 = C1::encoding(item.1).unwrap();
    let b2 = C2::encoding(item.2).unwrap();
    let b3 = C3::encoding(item.3).unwrap();
    let b4 = C4::encoding(item.4).unwrap();
    let b5 = C5::encoding(item.5).unwrap();
    let b6 = C6::encoding(item.6).unwrap();
    let b7 = C7::encoding(item.7).unwrap();
    let b8 = C8::encoding(item.8).unwrap();
    let b9 = C9::encoding(item.9).unwrap();
    let b10 = C10::encoding(item.10).unwrap();
    let p1 = b0;
    let p2 = p1 + b1;
    let p3 = p2 + b2;
    let p4 = p3 + b3;
    let p5 = p4 + b4;
    let p6 = p5 + b5;
    let p7 = p6 + b6;
    let p8 = p7 + b7;
    let p9 = p8 + b8;
    let p10 = p9 + b9;
    let p11 = p10 + b10;
    assert(ComposeCodec::<(C0, C1, C2, C3, C4, C5, C6, C7, C8, C9, C10)>::encoding(item) == Some(p11));
    let t10 = b10;
    let t9 = b9 + t10;
    lemma_concat_assoc(p9, b9, t10);
    let t8 = b8 + t9;
    lemma_concat_assoc(p8, b8, t9);
    let t7 = b7 + t8;
    lemma_concat_assoc(p7, b7, t8);
    let t6 = b6 + t7;
    lemma_concat_assoc(p6, b6, t7);
    let t5 = b5 + t6;
    lemma_concat_assoc(p5, b5, t6);
    let t4 = b4 + t5;
    lemma_concat_assoc(p4, b4, t5);
    let t3 = b3 + t4;
    lemma_concat_assoc(p3, b3, t4);
    let t2 = b2 + t3;
    lemma_concat_assoc(p2, b2, t3);
    let t1 = b1 + t2;
    lemma_concat_assoc(p1, b1, t2);
    lemma_skip_prefix(p1, t1);
    lemma_skip_prefix(p2, t2);
    lemma_skip_prefix(p3, t3);
    lemma_skip_prefix(p4, t4);
    lemma_skip_prefix(p5, t5);
    lemma_skip_prefix(p6, t6);
    lemma_skip_prefix(p7, t7);
    lemma_skip_prefix(p8, t8);
    lemma_skip_prefix(p9, t9);
    lemma_skip_prefix(p10, t10);
    assert(C0::decoding(b0 + t1) == (Some(m0), b0.len()));
    assert(C1::decoding(b1 + t2) == (Some(m1), b1.len()));
    assert(C2::decoding(b2 + t3) == (Some(m2), b2.len()));
    assert(C3::decoding(b3 + t4) == (Some(m3), b3.len()));
    assert(C4::decoding(b4 + t5) == (Some(m4), b4.len()));
    assert(C5::decoding(b5 + t6) == (Some(m5), b5.len()));
    assert(C6::decoding(b6 + t7) == (Some(m6), b6.len()));
    assert(C7::decoding(b7 + t8) == (Some(m7), b7.len()));
    assert(C8::decoding(b8 + t9) == (Some(m8), b8.len()));
    assert(C9::decoding(b9 + t10) == (Some(m9), b9.len()));
    assert(C10::decoding(b10) == (Some(m10), b10.len()));
}

/// When every codec recovers its item whatever follows it, so does the composition: it can
/// itself stand before another codec.
pub proof fn lemma_compose11_roundtrip_before_anything<'a, C0: Encode<'a> + Decode, C1: Encode<'a> + Decode, C2: Encode<'a> + Decode, C3: Encode<'a> + Decode, C4: Encode<'a> + Decode, C5: Encode<'a> + Decode, C6: Encode<'a> + Decode, C7: Encode<'a> + Decode, C8: Encode<'a> + Decode, C9: Encode<'a> + Decode, C10: Encode<'a> + Decode>(
    item: &<ComposeCodec<(C0, C1, C2, C3, C4, C5, C6, C7, C8, C9, C10)> as Encode<'a>>::Item,
    m0: <C0 as Decode>::Model, m1: <C1 as Decode>::Model, m2: <C2 as Decode>::Model, m3: <C3 as Decode>::Model, m4: <C4 as Decode>::Model, m5: <C5 as Decode>::Model, m6: <C6 as Decode>::Model, m7: <C7 as Decode>::Model, m8: <C8 as Decode>::Model, m9: <C9 as Decode>::Model, m10: <C10 as Decode>::Model,
)
    requires
        roundtrips_before_anything::<C0>(item.0, m0),
        roundtrips_before_anything::<C1>(item.1, m1),
        roundtrips_before_anything::<C2>(item.2, m2),
        roundtrips_before_anything::<C3>(item.3, m3),
        roundtrips_before_anything::<C4>(item.4, m4),
        roundtrips_before_anything::<C5>(item.5, m5),
        roundtrips_before_anything::<C6>(item.6, m6),
        roundtrips_before_anything::<C7>(item.7, m7),
        roundtrips_before_anything::<C8>(item.8, m8),
        roundtrips_before_anything::<C9>(item.9, m9),
        roundtrips_before_anything::<C10>(item.10, m10),
    ensures
        roundtrips_before_anything::<ComposeCodec<(C0, C1, C2, C3, C4, C5, C6, C7, C8, C9, C10)>>(item, (m0, m1, m2, m3, m4, m5, m6, m7, m8, m9, m10)),
{
    let b0 = C0::encoding(item.0).unwrap();
    let b1 = C1::encoding(item.1).unwrap();
    let b2 = C2::encoding(item.2).unwrap();
    let b3 = C3::encoding(item.3).unwrap();
    let b4 = C4::encoding(item.4).unwrap();
    let b5 = C5::encoding(item.5).unwrap();
    let b6 = C6::encoding(item.6).unwrap();
    let b7 = C7::encoding(item.7).unwrap();
    let b8 = C8::encoding(item.8).unwrap();
    let b9 = C9::encoding(item.9).unwrap();
    let b10 = C10::encoding(item.10).unwrap();
    let p1 = b0;
    let p2 = p1 + b1;
    let p3 = p2 + b2;
    let p4 = p3 + b3;
    let p5 = p4 + b4;
    let p6 = p5 + b5;
    let p7 = p6 + b6;
    let p8 = p7 + b7;
    let p9 = p8 + b8;
    let p10 = p9 + b9;
    let p11 = p10 + b10;
    assert(ComposeCodec::<(C0, C1, C2, C3, C4, C5, C6, C7, C8, C9, C10)>::encoding(item) == Some(p11));
    assert forall|rest: Seq<u8>|
        #[trigger] ComposeCodec::<(C0, C1, C2, C3, C4, C5, C6, C7, C8, C9, C10)>::decoding(p11 + rest) == (Some((m0, m1, m2, m3, m4, m5, m6, m7, m8, m9, m10)), p11.len()) by {
        let t11 = rest;
        let t10 = b10 + t11;
        lemma_concat_assoc(p10, b10, t11);
        let t9 = b9 + t10;
        lemma_concat_assoc(p9, b9, t10);
        let t8 = b8 + t9;
        lemma_concat_assoc(p8, b8, t9);
        let t7 = b7 + t8;
        lemma_concat_assoc(p7, b7, t8);
        let t6 = b6 + t7;
        lemma_concat_assoc(p6, b6, t7);
        let t5 = b5 + t6;
        lemma_concat_assoc(p5, b5, t6);
        let t4 = b4 + t5;
        lemma_concat_assoc(p4, b4, t5);
        let t3 = b3 + t4;
        lemma_concat_assoc(p3, b3, t4);
        let t2 = b2 + t3;
        lemma_concat_assoc(p2, b2, t3);
        let t1 = b1 + t2;
        lemma_concat_assoc(p1, b1, t2);
        lemma_skip_prefix(p1, t1);
        lemma_skip_prefix(p2, t2);
        lemma_skip_prefix(p3, t3);
        lemma_skip_prefix(p4, t4);
        lemma_skip_prefix(p5, t5);
        lemma_skip_prefix(p6, t6);
        lemma_skip_prefix(p7, t7);
        lemma_skip_prefix(p8, t8);
        lemma_skip_prefix(p9, t9);
        lemma_skip_prefix(p10, t10);
        assert(C0::decoding(b0 + t1) == (Some(m0), b0.len()));
        assert(C1::decoding(b1 + t2) == (Some(m1), b1.len()));
        assert(C2::decoding(b2 + t3) == (Some(m2), b2.len()));
        assert(C3::decoding(b3 + t4) == (Some(m3), b3.len()));
        assert(C4::decoding(b4 + t5) == (Some(m4), b4.len()));
        assert(C5::decoding(b5 + t6) == (Some(m5), b5.len()));
        assert(C6::decoding(b6 + t7) == (Some(m6), b6.len()));
        assert(C7::decoding(b7 + t8) == (Some(m7), b7.len()));
        assert(C8::decoding(b8 + t9) == (Some(m8), b8.len()));
        assert(C9::decoding(b9 + t10) == (Some(m9), b9.len()));
        assert(C10::decoding(b10 + t11) == (Some(m10), b10.len()));
    }
}

/// Why a composition of 12 codecs failed: the variant names the codec that failed.
#[derive(Debug)]
pub enum ComposeCodecError12<C0, C1, C2, C3, C4, C5, C6, C7, C8, C9, C10, C11> {
    /// The codec in position 0 failed.
    C0(C0),
    /// The codec in position 1 failed.
    C1(C1),
    /// The codec in position 2 failed.
    C2(C2),
    /// The codec in position 3 failed.
    C3(C3),
    /// The codec in position 4 failed.
    C4(C4),
    /// The codec in position 5 failed.
    C5(C5),
    /// The codec in position 6 failed.
    C6(C6),
    /// The codec in position 7 failed.
    C7(C7),
    /// The codec in position 8 failed.
    C8(C8),
    /// The codec in position 9 failed.
    C9(C9),
    /// The codec in position 10 failed.
    C10(C10),
    /// The codec in position 11 failed.
    C11(C11),
}

impl<'a, C0: Encode<'a>, C1: Encode<'a>, C2: Encode<'a>, C3: Encode<'a>, C4: Encode<'a>, C5: Encode<'a>, C6: Encode<'a>, C7: Encode<'a>, C8: Encode<'a>, C9: Encode<'a>, C10: Encode<'a>, C11: Encode<'a>> Encode<'a> for ComposeCodec<(C0, C1, C2, C3, C4, C5, C6, C7, C8, C9, C10, C11)> {
    type Item = (&'a C0::Item, &'a C1::Item, &'a C2::Item, &'a C3::Item, &'a C4::Item, &'a C5::Item, &'a C6::Item, &'a C7::Item, &'a C8::Item, &'a C9::Item, &'a C10::Item, &'a C11::Item);
    type Error = ComposeCodecError12<C0::Error, C1::Error, C2::Error, C3::Error, C4::Error, C5::Error, C6::Error, C7::Error, C8::Error, C9::Error, C10::Error, C11::Error>;

    open spec fn encoding(item: &Self::Item) -> Option<Seq<u8>> {
        match C0::encoding(item.0) {
            None => None,
            Some(b0) => {
                match C1::encoding(item.1) {
                    None => None,
                    Some(b1) => {
                        match C2::encoding(item.2) {
                            None => None,
                            Some(b2) => {
                                match C3::encoding(item.3) {
                                    None => None,
                                    Some(b3) => {
                                        match C4::encoding(item.4) {
                                            None => None,
                                            Some(b4) => {
                                                match C5::encoding(item.5) {
                                                    None => None,
                                                    Some(b5) => {
                                                        match C6::encoding(item.6) {
                                                            None => None,
                                                            Some(b6) => {
                                                                match C7::encoding(item.7) {
                                                                    None => None,
                                                                    Some(b7) => {
                                                                        match C8::encoding(item.8) {
                                                                            None => None,
                                                                            Some(b8) => {
                                                                                match C9::encoding(item.9) {
                                                                                    None => None,
                                                                                    Some(b9) => {
                                                                                        match C10::encoding(item.10) {
                                                                                            None => None,
                                                                                            Some(b10) => {
                                                                                                match C11::encoding(item.11) {
                                                                                                    None => None,
                                                                                                    Some(b11) => Some(b0 + b1 + b2 + b3 + b4 + b5 + b6 + b7 + b8 + b9 + b10 + b11),
                                                                                                }
                                                                                            },
                                                                                        }
                                                                                    },
                                                                                }
                                                                            },
                                                                        }
                                                                    },
                                                                }
                                                            },
                                                        }
                                                    },
                                                }
                                            },
                                        }
                                    },
                                }
                            },
                        }
                    },
                }
            },
        }
    }

    fn encode(into: EncodingVec<Fresh>, item: &Self::Item) -> (r: Result<EncodingVec<Fresh>, Self::Error>)
        ensures
            r matches Err(ComposeCodecError12::C0(_)) ==> C0::encoding(item.0) is None,
            r matches Err(ComposeCodecError12::C1(_)) ==> C0::encoding(item.0) is Some && C1::encoding(item.1) is None,
            r matches Err(ComposeCodecError12::C2(_)) ==> C0::encoding(item.0) is Some && C1::encoding(item.1) is Some && C2::encoding(item.2) is None,
            r matches Err(ComposeCodecError12::C3(_)) ==> C0::encoding(item.0) is Some && C1::encoding(item.1) is Some && C2::encoding(item.2) is Some && C3::encoding(item.3) is None,
            r matches Err(ComposeCodecError12::C4(_)) ==> C0::encoding(item.0) is Some && C1::encoding(item.1) is Some && C2::encoding(item.2) is Some && C3::encoding(item.3) is Some && C4::encoding(item.4) is None,
            r matches Err(ComposeCodecError12::C5(_)) ==> C0::encoding(item.0) is Some && C1::encoding(item.1) is Some && C2::encoding(item.2) is Some && C3::encoding(item.3) is Some && C4::encoding(item.4) is Some && C5::encoding(item.5) is None,
            r matches Err(ComposeCodecError12::C6(_)) ==> C0::encoding(item.0) is Some && C1::encoding(item.1) is Some && C2::encoding(item.2) is Some && C3::encoding(item.3) is Some && C4::encoding(item.4) is Some && C5::encoding(item.5) is Some && C6::encoding(item.6) is None,
            r matches Err(ComposeCodecError12::C7(_)) ==> C0::encoding(item.0) is Some && C1::encoding(item.1) is Some && C2::encoding(item.2) is Some && C3::encoding(item.3) is Some && C4::encoding(item.4) is Some && C5::encoding(item.5) is Some && C6::encoding(item.6) is Some && C7::encoding(item.7) is None,
            r matches Err(ComposeCodecError12::C8(_)) ==> C0::encoding(item.0) is Some && C1::encoding(item.1) is Some && C2::encoding(item.2) is Some && C3::encoding(item.3) is Some && C4::encoding(item.4) is Some && C5::encoding(item.5) is Some && C6::encoding(item.6) is Some && C7::encoding(item.7) is Some && C8::encoding(item.8) is None,
            r matches Err(ComposeCodecError12::C9(_)) ==> C0::encoding(item.0) is Some && C1::encoding(item.1) is Some && C2::encoding(item.2) is Some && C3::encoding(item.3) is Some && C4::encoding(item.4) is Some && C5::encoding(item.5) is Some && C6::encoding(item.6) is Some && C7::encoding(item.7) is Some && C8::encoding(item.8) is Some && C9::encoding(item.9) is None,
            r matches Err(ComposeCodecError12::C10(_)) ==> C0::encoding(item.0) is Some && C1::encoding(item.1) is Some && C2::encoding(item.2) is Some && C3::encoding(item.3) is Some && C4::encoding(item.4) is Some && C5::encoding(item.5) is Some && C6::encoding(item.6) is Some && C7::encoding(item.7) is Some && C8::encoding(item.8) is Some && C9::encoding(item.9) is Some && C10::encoding(item.10) is None,
            r matches Err(ComposeCodecError12::C11(_)) ==> C0::encoding(item.0) is Some && C1::encoding(item.1) is Some && C2::encoding(item.2) is Some && C3::encoding(item.3) is Some && C4::encoding(item.4) is Some && C5::encoding(item.5) is Some && C6::encoding(item.6) is Some && C7::encoding(item.7) is Some && C8::encoding(item.8) is Some && C9::encoding(item.9) is Some && C10::encoding(item.10) is Some && C11::encoding(item.11) is None,
    {
        let ghost start = into.bytes();
        let ret = match C0::encode(into, item.0) {
            Ok(v) => v,
            Err(e) => return Err(ComposeCodecError12::C0(e)),
        };
        let ghost acc0 = C0::encoding(item.0).unwrap();
        let ret = match C1::encode(ret, item.1) {
            Ok(v) => v,
            Err(e) => return Err(ComposeCodecError12::C1(e)),
        };
        let ghost acc1 = acc0 + C1::encoding(item.1).unwrap();
        proof {
            lemma_concat_assoc(start, acc0, C1::encoding(item.1).unwrap());
        }
        let ret = match C2::encode(ret, item.2) {
            Ok(v) => v,
            Err(e) => return Err(ComposeCodecError12::C2(e)),
        };
        let ghost acc2 = acc1 + C2::encoding(item.2).unwrap();
        proof {
            lemma_concat_assoc(start, acc1, C2::encoding(item.2).unwrap());
        }
        let ret = match C3::encode(ret, item.3) {
            Ok(v) => v,
            Err(e) => return Err(ComposeCodecError12::C3(e)),
        };
        let ghost acc3 = acc2 + C3::encoding(item.3).unwrap();
        proof {
            lemma_concat_assoc(start, acc2, C3::encoding(item.3).unwrap());
        }
        let ret = match C4::encode(ret, item.4) {
            Ok(v) => v,
            Err(e) => return Err(ComposeCodecError12::C4(e)),
        };
        let ghost acc4 = acc3 + C4::encoding(item.4).unwrap();
        proof {
            lemma_concat_assoc(start, acc3, C4::encoding(item.4).unwrap());
        }
        let ret = match C5::encode(ret, item.5) {
            Ok(v) => v,
            Err(e) => return Err(ComposeCodecError12::C5(e)),
        };
        let ghost acc5 = acc4 + C5::encoding(item.5).unwrap();
        proof {
            lemma_concat_assoc(start, acc4, C5::encoding(item.5).unwrap());
        }
        let ret = match C6::encode(ret, item.6) {
            Ok(v) => v,
            Err(e) => return Err(ComposeCodecError12::C6(e)),
        };
        let ghost acc6 = acc5 + C6::encoding(item.6).unwrap();
        proof {
            lemma_concat_assoc(start, acc5, C6::encoding(item.6).unwrap());
        }
        let ret = match C7::encode(ret, item.7) {
            Ok(v) => v,
            Err(e) => return Err(ComposeCodecError12::C7(e)),
        };
        let ghost acc7 = acc6 + C7::encoding(item.7).unwrap();
        proof {
            lemma_concat_assoc(start, acc6, C7::encoding(item.7).unwrap());
        }
        let ret = match C8::encode(ret, item.8) {
            Ok(v) => v,
            Err(e) => return Err(ComposeCodecError12::C8(e)),
        };
        let ghost acc8 = acc7 + C8::encoding(item.8).unwrap();
        proof {
            lemma_concat_assoc(start, acc7, C8::encoding(item.8).unwrap());
        }
        let ret = match C9::encode(ret, item.9) {
            Ok(v) => v,
            Err(e) => return Err(ComposeCodecError12::C9(e)),
        };
        let ghost acc9 = acc8 + C9::encoding(item.9).unwrap();
        proof {
            lemma_concat_assoc(start, acc8, C9::encoding(item.9).unwrap());
        }
        let ret = match C10::encode(ret, item.10) {
            Ok(v) => v,
            Err(e) => return Err(ComposeCodecError12::C10(e)),
        };
        let ghost acc10 = acc9 + C10::encoding(item.10).unwrap();
        proof {
            lemma_concat_assoc(start, acc9, C10::encoding(item.10).unwrap());
        }
        let ret = match C11::encode(ret, item.11) {
            Ok(v) => v,
            Err(e) => return Err(ComposeCodecError12::C11(e)),
        };
        proof {
            lemma_concat_assoc(start, acc10, C11::encoding(item.11).unwrap());
        }
        Ok(ret)
    }
}

impl<C0: Decode, C1: Decode, C2: Decode, C3: Decode, C4: Decode, C5: Decode, C6: Decode, C7: Decode, C8: Decode, C9: Decode, C10: Decode, C11: Decode> Decode for ComposeCodec<(C0, C1, C2, C3, C4, C5, C6, C7, C8, C9, C10, C11)> {
    type Item = (C0::Item, C1::Item, C2::Item, C3::Item, C4::Item, C5::Item, C6::Item, C7::Item, C8::Item, C9::Item, C10::Item, C11::Item);
    type Error = ComposeCodecError12<C0::Error, C1::Error, C2::Error, C3::Error, C4::Error, C5::Error, C6::Error, C7::Error, C8::Error, C9::Error, C10::Error, C11::Error>;
    type Model = (C0::Model, C1::Model, C2::Model, C3::Model, C4::Model, C5::Model, C6::Model, C7::Model, C8::Model, C9::Model, C10::Model, C11::Model);

    open spec fn model(item: &Self::Item) -> Self::Model {
        (C0::model(&item.0), C1::model(&item.1), C2::model(&item.2), C3::model(&item.3), C4::model(&item.4), C5::model(&item.5), C6::model(&item.6), C7::model(&item.7), C8::model(&item.8), C9::model(&item.9), C10::model(&item.10), C11::model(&item.11))
    }

    open spec fn decoding(input: Seq<u8>) -> (Option<Self::Model>, nat) {
        let d0 = C0::decoding(input);
        let o1 = d0.1;
        match d0.0 {
            None => (None, o1),
            Some(m0) => {
                let d1 = C1::decoding(input.skip(o1 as int));
                let o2 = o1 + d1.1;
                match d1.0 {
                    None => (None, o2),
                    Some(m1) => {
                        let d2 = C2::decoding(input.skip(o2 as int));
                        let o3 = o2 + d2.1;
                        match d2.0 {
                            None => (None, o3),
                            Some(m2) => {
                                let d3 = C3::decoding(input.skip(o3 as int));
                                let o4 = o3 + d3.1;
                                match d3.0 {
                                    None => (None, o4),
                                    Some(m3) => {
                                        let d4 = C4::decoding(input.skip(o4 as int));
                                        let o5 = o4 + d4.1;
                                        match d4.0 {
                                            None => (None, o5),
                                            Some(m4) => {
                                                let d5 = C5::decoding(input.skip(o5 as int));
                                                let o6 = o5 + d5.1;
                                                match d5.0 {
                                                    None => (None, o6),
                                                    Some(m5) => {
                                                        let d6 = C6::decoding(input.skip(o6 as int));
                                                        let o7 = o6 + d6.1;
                                                        match d6.0 {
                                                            None => (None, o7),
                                                            Some(m6) => {
                                                                let d7 = C7::decoding(input.skip(o7 as int));
                                                                let o8 = o7 + d7.1;
                                                                match d7.0 {
                                                                    None => (None, o8),
                                                                    Some(m7) => {
                                                                        let d8 = C8::decoding(input.skip(o8 as int));
                                                                        let o9 = o8 + d8.1;
                                                                        match d8.0 {
                                                                            None => (None, o9),
                                                                            Some(m8) => {
                                                                                let d9 = C9::decoding(input.skip(o9 as int));
                                                                                let o10 = o9 + d9.1;
                                                                                match d9.0 {
                                                                                    None => (None, o10),
                                                                                    Some(m9) => {
                                                                                        let d10 = C10::decoding(input.skip(o10 as int));
                                                                                        let o11 = o10 + d10.1;
                                                                                        match d10.0 {
                                                                                            None => (None, o11),
                                                                                            Some(m10) => {
                                                                                                let d11 = C11::decoding(input.skip(o11 as int));
                                                                                                let o12 = o11 + d11.1;
                                                                                                match d11.0 {
                                                                                                    None => (None, o12),
                                                                                                    Some(m11) => (Some((m0, m1, m2, m3, m4, m5, m6, m7, m8, m9, m10, m11)), o12),
                                                                                                }
                                                                                            },
                                                                                        }
                                                                                    },
                                                                                }
                                                                            },
                                                                        }
                                                                    },
                                                                }
                                                            },
                                                        }
                                                    },
                                                }
                                            },
                                        }
                                    },
                                }
                            },
                        }
                    },
                }
            },
        }
    }

    fn decode(bytes: &mut DecodingVec) -> (r: Result<Self::Item, Self::Error>)
        ensures
            ({
                let input = old(bytes)@;
                let d0 = C0::decoding(input);
                let o1 = d0.1;
                let d1 = C1::decoding(input.skip(o1 as int));
                let o2 = o1 + d1.1;
                let d2 = C2::decoding(input.skip(o2 as int));
                let o3 = o2 + d2.1;
                let d3 = C3::decoding(input.skip(o3 as int));
                let o4 = o3 + d3.1;
                let d4 = C4::decoding(input.skip(o4 as int));
                let o5 = o4 + d4.1;
                let d5 = C5::decoding(input.skip(o5 as int));
                let o6 = o5 + d5.1;
                let d6 = C6::decoding(input.skip(o6 as int));
                let o7 = o6 + d6.1;
                let d7 = C7::decoding(input.skip(o7 as int));
                let o8 = o7 + d7.1;
                let d8 = C8::decoding(input.skip(o8 as int));
                let o9 = o8 + d8.1;
                let d9 = C9::decoding(input.skip(o9 as int));
                let o10 = o9 + d9.1;
                let d10 = C10::decoding(input.skip(o10 as int));
                let o11 = o10 + d10.1;
                let d11 = C11::decoding(input.skip(o11 as int));
                let o12 = o11 + d11.1;
                &&& (r matches Err(ComposeCodecError12::C0(_)) <==> d0.0 is None)
                &&& (r matches Err(ComposeCodecError12::C1(_)) <==> d0.0 is Some && d1.0 is None)
                &&& (r matches Err(ComposeCodecError12::C2(_)) <==> d0.0 is Some && d1.0 is Some && d2.0 is None)
                &&& (r matches Err(ComposeCodecError12::C3(_)) <==> d0.0 is Some && d1.0 is Some && d2.0 is Some && d3.0 is None)
                &&& (r matches Err(ComposeCodecError12::C4(_)) <==> d0.0 is Some && d1.0 is Some && d2.0 is Some && d3.0 is Some && d4.0 is None)
                &&& (r matches Err(ComposeCodecError12::C5(_)) <==> d0.0 is Some && d1.0 is Some && d2.0 is Some && d3.0 is Some && d4.0 is Some && d5.0 is None)
                &&& (r matches Err(ComposeCodecError12::C6(_)) <==> d0.0 is Some && d1.0 is Some && d2.0 is Some && d3.0 is Some && d4.0 is Some && d5.0 is Some && d6.0 is None)
                &&& (r matches Err(ComposeCodecError12::C7(_)) <==> d0.0 is Some && d1.0 is Some && d2.0 is Some && d3.0 is Some && d4.0 is Some && d5.0 is Some && d6.0 is Some && d7.0 is None)
                &&& (r matches Err(ComposeCodecError12::C8(_)) <==> d0.0 is Some && d1.0 is Some && d2.0 is Some && d3.0 is Some && d4.0 is Some && d5.0 is Some && d6.0 is Some && d7.0 is Some && d8.0 is None)
                &&& (r matches Err(ComposeCodecError12::C9(_)) <==> d0.0 is Some && d1.0 is Some && d2.0 is Some && d3.0 is Some && d4.0 is Some && d5.0 is Some && d6.0 is Some && d7.0 is Some && d8.0 is Some && d9.0 is None)
                &&& (r matches Err(ComposeCodecError12::C10(_)) <==> d0.0 is Some && d1.0 is Some && d2.0 is Some && d3.0 is Some && d4.0 is Some && d5.0 is Some && d6.0 is Some && d7.0 is Some && d8.0 is Some && d9.0 is Some && d10.0 is None)
                &&& (r matches Err(ComposeCodecError12::C11(_)) <==> d0.0 is Some && d1.0 is Some && d2.0 is Some && d3.0 is Some && d4.0 is Some && d5.0 is Some && d6.0 is Some && d7.0 is Some && d8.0 is Some && d9.0 is Some && d10.0 is Some && d11.0 is None)
            }),
    {
        let ghost input = bytes@;
        let ghost o1 = C0::decoding(input).1;
        let r0 = C0::decode(bytes);
        assert(bytes@ =~= input.skip(o1 as int));
        let v0 = match r0 {
            Ok(v) => v,
            Err(e) => return Err(ComposeCodecError12::C0(e)),
        };
        let ghost o2 = o1 + C1::decoding(input.skip(o1 as int)).1;
        let r1 = C1::decode(bytes);
        assert(bytes@ =~= input.skip(o2 as int));
        let v1 = match r1 {
            Ok(v) => v,
            Err(e) => return Err(ComposeCodecError12::C1(e)),
        };
        let ghost o3 = o2 + C2::decoding(input.skip(o2 as int)).1;
        let r2 = C2::decode(bytes);
        assert(bytes@ =~= input.skip(o3 as int));
        let v2 = match r2 {
            Ok(v) => v,
            Err(e) => return Err(ComposeCodecError12::C2(e)),
        };
        let ghost o4 = o3 + C3::decoding(input.skip(o3 as int)).1;
        let r3 = C3::decode(bytes);
        assert(bytes@ =~= input.skip(o4 as int));
        let v3 = match r3 {
            Ok(v) => v,
            Err(e) => return Err(ComposeCodecError12::C3(e)),
        };
        let ghost o5 = o4 + C4::decoding(input.skip(o4 as int)).1;
        let r4 = C4::decode(bytes);
        assert(bytes@ =~= input.skip(o5 as int));
        let v4 = match r4 {
            Ok(v) => v,
            Err(e) => return Err(ComposeCodecError12::C4(e)),
        };
        let ghost o6 = o5 + C5::decoding(input.skip(o5 as int)).1;
        let r5 = C5::decode(bytes);
        assert(bytes@ =~= input.skip(o6 as int));
        let v5 = match r5 {
            Ok(v) => v,
            Err(e) => return Err(ComposeCodecError12::C5(e)),
        };
        let ghost o7 = o6 + C6::decoding(input.skip(o6 as int)).1;
        let r6 = C6::decode(bytes);
        assert(bytes@ =~= input.skip(o7 as int));
        let v6 = match r6 {
            Ok(v) => v,
            Err(e) => return Err(ComposeCodecError12::C6(e)),
        };
        let ghost o8 = o7 + C7::decoding(input.skip(o7 as int)).1;
        let r7 = C7::decode(bytes);
        assert(bytes@ =~= input.skip(o8 as int));
        let v7 = match r7 {
            Ok(v) => v,
            Err(e) => return Err(ComposeCodecError12::C7(e)),
        };
        let ghost o9 = o8 + C8::decoding(input.skip(o8 as int)).1;
        let r8 = C8::decode(bytes);
        assert(bytes@ =~= input.skip(o9 as int));
        let v8 = match r8 {
            Ok(v) => v,
            Err(e) => return Err(ComposeCodecError12::C8(e)),
        };
        let ghost o10 = o9 + C9::decoding(input.skip(o9 as int)).1;
        let r9 = C9::decode(bytes);
        assert(bytes@ =~= input.skip(o10 as int));
        let v9 = match r9 {
            Ok(v) => v,
            Err(e) => return Err(ComposeCodecError12::C9(e)),
        };
        let ghost o11 = o10 + C10::decoding(input.skip(o10 as int)).1;
        let r10 = C10::decode(bytes);
        assert(bytes@ =~= input.skip(o11 as int));
        let v10 = match r10 {
            Ok(v) => v,
            Err(e) => return Err(ComposeCodecError12::C10(e)),
        };
        let ghost o12 = o11 + C11::decoding(input.skip(o11 as int)).1;
        let r11 = C11::decode(bytes);
        assert(bytes@ =~= input.skip(o12 as int));
        let v11 = match r11 {
            Ok(v) => v,
            Err(e) => return Err(ComposeCodecError12::C11(e)),
        };
        Ok((v0, v1, v2, v3, v4, v5, v6, v7, v8, v9, v10, v11))
    }
}

/// When every codec but the last recovers its item whatever follows it, and the last one
/// recovers its item from its own encoding, the composition recovers the whole tuple from
/// its encoding.
pub proof fn lemma_compose12_roundtrip<'a, C0: Encode<'a> + Decode, C1: Encode<'a> + Decode, C2: Encode<'a> + Decode, C3: Encode<'a> + Decode, C4: Encode<'a> + Decode, C5: Encode<'a> + Decode, C6: Encode<'a> + Decode, C7: Encode<'a> + Decode, C8: Encode<'a> + Decode, C9: Encode<'a> + Decode, C10: Encode<'a> + Decode, C11: Encode<'a> + Decode>(
    item: &<ComposeCodec<(C0, C1, C2, C3, C4, C5, C6, C7, C8, C9, C10, C11)> as Encode<'a>>::Item,
    m0: <C0 as Decode>::Model, m1: <C1 as Decode>::Model, m2: <C2 as Decode>::Model, m3: <C3 as Decode>::Model, m4: <C4 as Decode>::Model, m5: <C5 as Decode>::Model, m6: <C6 as Decode>::Model, m7: <C7 as Decode>::Model, m8: <C8 as Decode>::Model, m9: <C9 as Decode>::Model, m10: <C10 as Decode>::Model, m11: <C11 as Decode>::Model,
)
    requires
        roundtrips_before_anything::<C0>(item.0, m0),
        roundtrips_before_anything::<C1>(item.1, m1),
        roundtrips_before_anything::<C2>(item.2, m2),
        roundtrips_before_anything::<C3>(item.3, m3),
        roundtrips_before_anything::<C4>(item.4, m4),
        roundtrips_before_anything::<C5>(item.5, m5),
        roundtrips_before_anything::<C6>(item.6, m6),
        roundtrips_before_anything::<C7>(item.7, m7),
        roundtrips_before_anything::<C8>(item.8, m8),
        roundtrips_before_anything::<C9>(item.9, m9),
        roundtrips_before_anything::<C10>(item.10, m10),
        roundtrips_alone::<C11>(item.11, m11),
    ensures
        roundtrips_alone::<ComposeCodec<(C0, C1, C2, C3, C4, C5, C6, C7, C8, C9, C10, C11)>>(item, (m0, m1, m2, m3, m4, m5, m6, m7, m8, m9, m10, m11)),
{
    let b0 = C0::encoding(item.0).unwrap();
    let b1 = C1::encoding(item.1).unwrap();
    let b2 = C2::encoding(item.2).unwrap();
    let b3 = C3::encoding(item.3).unwrap();
    let b4 = C4::encoding(item.4).unwrap();
    let b5 = C5::encoding(item.5).unwrap();
    let b6 = C6::encoding(item.6).unwrap();
    let b7 = C7::encoding(item.7).unwrap();
    let b8 = C8::encoding(item.8).unwrap();
    let b9 = C9::encoding(item.9).unwrap();
    let b10 = C10::encoding(item.10).unwrap();
    let b11 = C11::encoding(item.11).unwrap();
    let p1 = b0;
    let p2 = p1 + b1;
    let p3 = p2 + b2;
    let p4 = p3 + b3;
    let p5 = p4 + b4;
    let p6 = p5 + b5;
    let p7 = p6 + b6;
    let p8 = p7 + b7;
    let p9 = p8 + b8;
    let p10 = p9 + b9;
    let p11 = p10 + b10;
    let p12 = p11 + b11;
    assert(ComposeCodec::<(C0, C1, C2, C3, C4, C5, C6, C7, C8, C9, C10, C11)>::encoding(item) == Some(p12));
    let t11 = b11;
    let t10 = b10 + t11;
    lemma_concat_assoc(p10, b10, t11);
    let t9 = b9 + t10;
    lemma_concat_assoc(p9, b9, t10);
    let t8 = b8 + t9;
    lemma_concat_assoc(p8, b8, t9);
    let t7 = b7 + t8;
    lemma_concat_assoc(p7, b7, t8);
    let t6 = b6 + t7;
    lemma_concat_assoc(p6, b6, t7);
    let t5 = b5 + t6;
    lemma_concat_assoc(p5, b5, t6);
    let t4 = b4 + t5;
    lemma_concat_assoc(p4, b4, t5);
    let t3 = b3 + t4;
    lemma_concat_assoc(p3, b3, t4);
    let t2 = b2 + t3;
    lemma_concat_assoc(p2, b2, t3);
    let t1 = b1 + t2;
    lemma_concat_assoc(p1, b1, t2);
    lemma_skip_prefix(p1, t1);
    lemma_skip_prefix(p2, t2);
    lemma_skip_prefix(p3, t3);
    lemma_skip_prefix(p4, t4);
    lemma_skip_prefix(p5, t5);
    lemma_skip_prefix(p6, t6);
    lemma_skip_prefix(p7, t7);
    lemma_skip_prefix(p8, t8);
    lemma_skip_prefix(p9, t9);
    lemma_skip_prefix(p10, t10);
    lemma_skip_prefix(p11, t11);
    assert(C0::decoding(b0 + t1) == (Some(m0), b0.len()));
    assert(C1::decoding(b1 + t2) == (Some(m1), b1.len()));
    assert(C2::decoding(b2 + t3) == (Some(m2), b2.len()));
    assert(C3::decoding(b3 + t4) == (Some(m3), b3.len()));
    assert(C4::decoding(b4 + t5) == (Some(m4), b4.len()));
    assert(C5::decoding(b5 + t6) == (Some(m5), b5.len()));
    assert(C6::decoding(b6 + t7) == (Some(m6), b6.len()));
    assert(C7::decoding(b7 + t8) == (Some(m7), b7.len()));
    assert(C8::decoding(b8 + t9) == (Some(m8), b8.len()));
    assert(C9::decoding(b9 + t10) == (Some(m9), b9.len()));
    assert(C10::decoding(b10 + t11) == (Some(m10), b10.len()));
    assert(C11::decoding(b11) == (Some(m11), b11.len()));
}

/// When every codec recovers its item whatever follows it, so does the composition: it can
/// itself stand before another codec.
pub proof fn lemma_compose12_roundtrip_before_anything<'a, C0: Encode<'a> + Decode, C1: Encode<'a> + Decode, C2: Encode<'a> + Decode, C3: Encode<'a> + Decode, C4: Encode<'a> + Decode, C5: Encode<'a> + Decode, C6: Encode<'a> + Decode, C7: Encode<'a> + Decode, C8: Encode<'a> + Decode, C9: Encode<'a> + Decode, C10: Encode<'a> + Decode, C11: Encode<'a> + Decode>(
    item: &<ComposeCodec<(C0, C1, C2, C3, C4, C5, C6, C7, C8, C9, C10, C11)> as Encode<'a>>::Item,
    m0: <C0 as Decode>::Model, m1: <C1 as Decode>::Model, m2: <C2 as Decode>::Model, m3: <C3 as Decode>::Model, m4: <C4 as Decode>::Model, m5: <C5 as Decode>::Model, m6: <C6 as Decode>::Model, m7: <C7 as Decode>::Model, m8: <C8 as Decode>::Model, m9: <C9 as Decode>::Model, m10: <C10 as Decode>::Model, m11: <C11 as Decode>::Model,
)
    requires
        roundtrips_before_anything::<C0>(item.0, m0),
        roundtrips_before_anything::<C1>(item.1, m1),
        roundtrips_before_anything::<C2>(item.2, m2),
        roundtrips_before_anything::<C3>(item.3, m3),
        roundtrips_before_anything::<C4>(item.4, m4),
        roundtrips_before_anything::<C5>(item.5, m5),
        roundtrips_before_anything::<C6>(item.6, m6),
        roundtrips_before_anything::<C7>(item.7, m7),
        roundtrips_before_anything::<C8>(item.8, m8),
        roundtrips_before_anything::<C9>(item.9, m9),
        roundtrips_before_anything::<C10>(item.10, m10),
        roundtrips_before_anything::<C11>(item.11, m11),
    ensures
        roundtrips_before_anything::<ComposeCodec<(C0, C1, C2, C3, C4, C5, C6, C7, C8, C9, C10, C11)>>(item, (m0, m1, m2, m3, m4, m5, m6, m7, m8, m9, m10, m11)),
{
    let b0 = C0::encoding(item.0).unwrap();
    let b1 = C1::encoding(item.1).unwrap();
    let b2 = C2::encoding(item.2).unwrap();
    let b3 = C3::encoding(item.3).unwrap();
    let b4 = C4::encoding(item.4).unwrap();
    let b5 = C5::encoding(item.5).unwrap();
    let b6 = C6::encoding(item.6).unwrap();
    let b7 = C7::encoding(item.7).unwrap();
    let b8 = C8::encoding(item.8).unwrap();
    let b9 = C9::encoding(item.9).unwrap();
    let b10 = C10::encoding(item.10).unwrap();
    let b11 = C11::encoding(item.11).unwrap();
    let p1 = b0;
    let p2 = p1 + b1;
    let p3 = p2 + b2;
    let p4 = p3 + b3;
    let p5 = p4 + b4;
    let p6 = p5 + b5;
    let p7 = p6 + b6;
    let p8 = p7 + b7;
    let p9 = p8 + b8;
    let p10 = p9 + b9;
    let p11 = p10 + b10;
    let p12 = p11 + b11;
    assert(ComposeCodec::<(C0, C1, C2, C3, C4, C5, C6, C7, C8, C9, C10, C11)>::encoding(item) == Some(p12));
    assert forall|rest: Seq<u8>|
        #[trigger] ComposeCodec::<(C0, C1, C2, C3, C4, C5, C6, C7, C8, C9, C10, C11)>::decoding(p12 + rest) == (Some((m0, m1, m2, m3, m4, m5, m6, m7, m8, m9, m10, m11)), p12.len()) by {
        let t12 = rest;
        let t11 = b11 + t12;
        lemma_concat_assoc(p11, b11, t12);
        let t10 = b10 + t11;
        lemma_concat_assoc(p10, b10, t11);
        let t9 = b9 + t10;
        lemma_concat_assoc(p9, b9, t10);
        let t8 = b8 + t9;
        lemma_concat_assoc(p8, b8, t9);
        let t7 = b7 + t8;
        lemma_concat_assoc(p7, b7, t8);
        let t6 = b6 + t7;
        lemma_concat_assoc(p6, b6, t7);
        let t5 = b5 + t6;
        lemma_concat_assoc(p5, b5, t6);
        let t4 = b4 + t5;
        lemma_concat_assoc(p4, b4, t5);
        let t3 = b3 + t4;
        lemma_concat_assoc(p3, b3, t4);
        let t2 = b2 + t3;
        lemma_concat_assoc(p2, b2, t3);
        let t1 = b1 + t2;
        lemma_concat_assoc(p1, b1, t2);
        lemma_skip_prefix(p1, t1);
        lemma_skip_prefix(p2, t2);
        lemma_skip_prefix(p3, t3);
        lemma_skip_prefix(p4, t4);
        lemma_skip_prefix(p5, t5);
        lemma_skip_prefix(p6, t6);
        lemma_skip_prefix(p7, t7);
        lemma_skip_prefix(p8, t8);
        lemma_skip_prefix(p9, t9);
        lemma_skip_prefix(p10, t10);
        lemma_skip_prefix(p11, t11);
        assert(C0::decoding(b0 + t1) == (Some(m0), b0.len()));
        assert(C1::decoding(b1 + t2) == (Some(m1), b1.len()));
        assert(C2::decoding(b2 + t3) == (Some(m2), b2.len()));
        assert(C3::decoding(b3 + t4) == (Some(m3), b3.len()));
        assert(C4::decoding(b4 + t5) == (Some(m4), b4.len()));
        assert(C5::decoding(b5 + t6) == (Some(m5), b5.len()));
        assert(C6::decoding(b6 + t7) == (Some(m6), b6.len()));
        assert(C7::decoding(b7 + t8) == (Some(m7), b7.len()));
        assert(C8::decoding(b8 + t9) == (Some(m8), b8.len()));
        assert(C9::decoding(b9 + t10) == (Some(m9), b9.len()));
        assert(C10::decoding(b10 + t11) == (Some(m10), b10.len()));
        assert(C11::decoding(b11 + t12) == (Some(m11), b11.len()));
    }
}

/// Why a composition of 13 codecs failed: the variant names the codec that failed.
#[derive(Debug)]
pub enum ComposeCodecError13<C0, C1, C2, C3, C4, C5, C6, C7, C8, C9, C10, C11, C12> {
    /// The codec in position 0 failed.
    C0(C0),
    /// The codec in position 1 failed.
    C1(C1),
    /// The codec in position 2 failed.
    C2(C2),
    /// The codec in position 3 failed.
    C3(C3),
    /// The codec in position 4 failed.
    C4(C4),
    /// The codec in position 5 failed.
    C5(C5),
    /// The codec in position 6 failed.
    C6(C6),
    /// The codec in position 7 failed.
    C7(C7),
    /// The codec in position 8 failed.
    C8(C8),
    /// The codec in position 9 failed.
    C9(C9),
    /// The codec in position 10 failed.
    C10(C10),
    /// The codec in position 11 failed.
    C11(C11),
    /// The codec in position 12 failed.
    C12(C12),
}

impl<'a, C0: Encode<'a>, C1: Encode<'a>, C2: Encode<'a>, C3: Encode<'a>, C4: Encode<'a>, C5: Encode<'a>, C6: Encode<'a>, C7: Encode<'a>, C8: Encode<'a>, C9: Encode<'a>, C10: Encode<'a>, C11: Encode<'a>, C12: Encode<'a>> Encode<'a> for ComposeCodec<(C0, C1, C2, C3, C4, C5, C6, C7, C8, C9, C10, C11, C12)> {
    type Item = (&'a C0::Item, &'a C1::Item, &'a C2::Item, &'a C3::Item, &'a C4::Item, &'a C5::Item, &'a C6::Item, &'a C7::Item, &'a C8::Item, &'a C9::Item, &'a C10::Item, &'a C11::Item, &'a C12::Item);
    type Error = ComposeCodecError13<C0::Error, C1::Error, C2::Error, C3::Error, C4::Error, C5::Error, C6::Error, C7::Error, C8::Error, C9::Error, C10::Error, C11::Error, C12::Error>;

    open spec fn encoding(item: &Self::Item) -> Option<Seq<u8>> {
        match C0::encoding(item.0) {
            None => None,
            Some(b0) => {
                match C1::encoding(item.1) {
                    None => None,
                    Some(b1) => {
                        match C2::encoding(item.2) {
                            None => None,
                            Some(b2) => {
                                match C3::encoding(item.3) {
                                    None => None,
                                    Some(b3) => {
                                        match C4::encoding(item.4) {
                                            None => None,
                                            Some(b4) => {
                                                match C5::encoding(item.5) {
                                                    None => None,
                                                    Some(b5) => {
                                                        match C6::encoding(item.6) {
                                                            None => None,
                                                            Some(b6) => {
                                                                match C7::encoding(item.7) {
                                                                    None => None,
                                                                    Some(b7) => {
                                                                        match C8::encoding(item.8) {
                                                                            None => None,
                                                                            Some(b8) => {
                                                                                match C9::encoding(item.9) {
                                                                                    None => None,
                                                                                    Some(b9) => {
                                                                                        match C10::encoding(item.10) {
                                                                                            None => None,
                                                                                            Some(b10) => {
                                                                                                match C11::encoding(item.11) {
                                                                                                    None => None,
                                                                                                    Some(b11) => {
                                                                                                        match C12::encoding(item.12) {
                                                                                                            None => None,
                                                                                                            Some(b12) => Some(b0 + b1 + b2 + b3 + b4 + b5 + b6 + b7 + b8 + b9 + b10 + b11 + b12),
                                                                                                        }
                                                                                                    },
                                                                                                }
                                                                                            },
                                                                                        }
                                                                                    },
                                                                                }
                                                                            },
                                                                        }
                                                                    },
                                                                }
                                                            },
                                                        }
                                                    },
                                                }
                                            },
                                        }
                                    },
                                }
                            },
                        }
                    },
                }
            },
        }
    }

    fn encode(into: EncodingVec<Fresh>, item: &Self::Item) -> (r: Result<EncodingVec<Fresh>, Self::Error>)
        ensures
            r matches Err(ComposeCodecError13::C0(_)) ==> C0::encoding(item.0) is None,
            r matches Err(ComposeCodecError13::C1(_)) ==> C0::encoding(item.0) is Some && C1::encoding(item.1) is None,
            r matches Err(ComposeCodecError13::C2(_)) ==> C0::encoding(item.0) is Some && C1::encoding(item.1) is Some && C2::encoding(item.2) is None,
            r matches Err(ComposeCodecError13::C3(_)) ==> C0::encoding(item.0) is Some && C1::encoding(item.1) is Some && C2::encoding(item.2) is Some && C3::encoding(item.3) is None,
            r matches Err(ComposeCodecError13::C4(_)) ==> C0::encoding(item.0) is Some && C1::encoding(item.1) is Some && C2::encoding(item.2) is Some && C3::encoding(item.3) is Some && C4::encoding(item.4) is None,
            r matches Err(ComposeCodecError13::C5(_)) ==> C0::encoding(item.0) is Some && C1::encoding(item.1) is Some && C2::encoding(item.2) is Some && C3::encoding(item.3) is Some && C4::encoding(item.4) is Some && C5::encoding(item.5) is None,
            r matches Err(ComposeCodecError13::C6(_)) ==> C0::encoding(item.0) is Some && C1::encoding(item.1) is Some && C2::encoding(item.2) is Some && C3::encoding(item.3) is Some && C4::encoding(item.4) is Some && C5::encoding(item.5) is Some && C6::encoding(item.6) is None,
            r matches Err(ComposeCodecError13::C7(_)) ==> C0::encoding(item.0) is Some && C1::encoding(item.1) is Some && C2::encoding(item.2) is Some && C3::encoding(item.3) is Some && C4::encoding(item.4) is Some && C5::encoding(item.5) is Some && C6::encoding(item.6) is Some && C7::encoding(item.7) is None,
            r matches Err(ComposeCodecError13::C8(_)) ==> C0::encoding(item.0) is Some && C1::encoding(item.1) is Some && C2::encoding(item.2) is Some && C3::encoding(item.3) is Some && C4::encoding(item.4) is Some && C5::encoding(item.5) is Some && C6::encoding(item.6) is Some && C7::encoding(item.7) is Some && C8::encoding(item.8) is None,
            r matches Err(ComposeCodecError13::C9(_)) ==> C0::encoding(item.0) is Some && C1::encoding(item.1) is Some && C2::encoding(item.2) is Some && C3::encoding(item.3) is Some && C4::encoding(item.4) is Some && C5::encoding(item.5) is Some && C6::encoding(item.6) is Some && C7::encoding(item.7) is Some && C8::encoding(item.8) is Some && C9::encoding(item.9) is None,
            r matches Err(ComposeCodecError13::C10(_)) ==> C0::encoding(item.0) is Some && C1::encoding(item.1) is Some && C2::encoding(item.2) is Some && C3::encoding(item.3) is Some && C4::encoding(item.4) is Some && C5::encoding(item.5) is Some && C6::encoding(item.6) is Some && C7::encoding(item.7) is Some && C8::encoding(item.8) is Some && C9::encoding(item.9) is Some && C10::encoding(item.10) is None,
            r matches Err(ComposeCodecError13::C11(_)) ==> C0::encoding(item.0) is Some && C1::encoding(item.1) is Some && C2::encoding(item.2) is Some && C3::encoding(item.3) is Some && C4::encoding(item.4) is Some && C5::encoding(item.5) is Some && C6::encoding(item.6) is Some && C7::encoding(item.7) is Some && C8::encoding(item.8) is Some && C9::encoding(item.9) is Some && C10::encoding(item.10) is Some && C11::encoding(item.11) is None,
            r matches Err(ComposeCodecError13::C12(_)) ==> C0::encoding(item.0) is Some && C1::encoding(item.1) is Some && C2::encoding(item.2) is Some && C3::encoding(item.3) is Some && C4::encoding(item.4) is Some && C5::encoding(item.5) is Some && C6::encoding(item.6) is Some && C7::encoding(item.7) is Some && C8::encoding(item.8) is Some && C9::encoding(item.9) is Some && C10::encoding(item.10) is Some && C11::encoding(item.11) is Some && C12::encoding(item.12) is None,
    {
        let ghost start = into.bytes();
        let ret = match C0::encode(into, item.0) {
            Ok(v) => v,
            Err(e) => return Err(ComposeCodecError13::C0(e)),
        };
        let ghost acc0 = C0::encoding(item.0).unwrap();
        let ret = match C1::encode(ret, item.1) {
            Ok(v) => v,
            Err(e) => return Err(ComposeCodecError13::C1(e)),
        };
        let ghost acc1 = acc0 + C1::encoding(item.1).unwrap();
        proof {
            lemma_concat_assoc(start, acc0, C1::encoding(item.1).unwrap());
        }
        let ret = match C2::encode(ret, item.2) {
            Ok(v) => v,
            Err(e) => return Err(ComposeCodecError13::C2(e)),
        };
        let ghost acc2 = acc1 + C2::encoding(item.2).unwrap();
        proof {
            lemma_concat_assoc(start, acc1, C2::encoding(item.2).unwrap());
        }
        let ret = match C3::encode(ret, item.3) {
            Ok(v) => v,
            Err(e) => return Err(ComposeCodecError13::C3(e)),
        };
        let ghost acc3 = acc2 + C3::encoding(item.3).unwrap();
        proof {
            lemma_concat_assoc(start, acc2, C3::encoding(item.3).unwrap());
        }
        let ret = match C4::encode(ret, item.4) {
            Ok(v) => v,
            Err(e) => return Err(ComposeCodecError13::C4(e)),
        };
        let ghost acc4 = acc3 + C4::encoding(item.4).unwrap();
        proof {
            lemma_concat_assoc(start, acc3, C4::encoding(item.4).unwrap());
        }
        let ret = match C5::encode(ret, item.5) {
            Ok(v) => v,
            Err(e) => return Err(ComposeCodecError13::C5(e)),
        };
        let ghost acc5 = acc4 + C5::encoding(item.5).unwrap();
        proof {
            lemma_concat_assoc(start, acc4, C5::encoding(item.5).unwrap());
        }
        let ret = match C6::encode(ret, item.6) {
            Ok(v) => v,
            Err(e) => return Err(ComposeCodecError13::C6(e)),
        };
        let ghost acc6 = acc5 + C6::encoding(item.6).unwrap();
        proof {
            lemma_concat_assoc(start, acc5, C6::encoding(item.6).unwrap());
        }
        let ret = match C7::encode(ret, item.7) {
            Ok(v) => v,
            Err(e) => return Err(ComposeCodecError13::C7(e)),
        };
        let ghost acc7 = acc6 + C7::encoding(item.7).unwrap();
        proof {
            lemma_concat_assoc(start, acc6, C7::encoding(item.7).unwrap());
        }
        let ret = match C8::encode(ret, item.8) {
            Ok(v) => v,
            Err(e) => return Err(ComposeCodecError13::C8(e)),
        };
        let ghost acc8 = acc7 + C8::encoding(item.8).unwrap();
        proof {
            lemma_concat_assoc(start, acc7, C8::encoding(item.8).unwrap());
        }
        let ret = match C9::encode(ret, item.9) {
            Ok(v) => v,
            Err(e) => return Err(ComposeCodecError13::C9(e)),
        };
        let ghost acc9 = acc8 + C9::encoding(item.9).unwrap();
        proof {
            lemma_concat_assoc(start, acc8, C9::encoding(item.9).unwrap());
        }
        let ret = match C10::encode(ret, item.10) {
            Ok(v) => v,
            Err(e) => return Err(ComposeCodecError13::C10(e)),
        };
        let ghost acc10 = acc9 + C10::encoding(item.10).unwrap();
        proof {
            lemma_concat_assoc(start, acc9, C10::encoding(item.10).unwrap());
        }
        let ret = match C11::encode(ret, item.11) {
            Ok(v) => v,
            Err(e) => return Err(ComposeCodecError13::C11(e)),
        };
        let ghost acc11 = acc10 + C11::encoding(item.11).unwrap();
        proof {
            lemma_concat_assoc(start, acc10, C11::encoding(item.11).unwrap());
        }
        let ret = match C12::encode(ret, item.12) {
            Ok(v) => v,
            Err(e) => return Err(ComposeCodecError13::C12(e)),
        };
        proof {
            lemma_concat_assoc(start, acc11, C12::encoding(item.12).unwrap());
        }
        Ok(ret)
    }
}

impl<C0: Decode, C1: Decode, C2: Decode, C3: Decode, C4: Decode, C5: Decode, C6: Decode, C7: Decode, C8: Decode, C9: Decode, C10: Decode, C11: Decode, C12: Decode> Decode for ComposeCodec<(C0, C1, C2, C3, C4, C5, C6, C7, C8, C9, C10, C11, C12)> {
    type Item = (C0::Item, C1::Item, C2::Item, C3::Item, C4::Item, C5::Item, C6::Item, C7::Item, C8::Item, C9::Item, C10::Item, C11::Item, C12::Item);
    type Error = ComposeCodecError13<C0::Error, C1::Error, C2::Error, C3::Error, C4::Error, C5::Error, C6::Error, C7::Error, C8::Error, C9::Error, C10::Error, C11::Error, C12::Error>;
    type Model = (C0::Model, C1::Model, C2::Model, C3::Model, C4::Model, C5::Model, C6::Model, C7::Model, C8::Model, C9::Model, C10::Model, C11::Model, C12::Model);

    open spec fn model(item: &Self::Item) -> Self::Model {
        (C0::model(&item.0), C1::model(&item.1), C2::model(&item.2), C3::model(&item.3), C4::model(&item.4), C5::model(&item.5), C6::model(&item.6), C7::model(&item.7), C8::model(&item.8), C9::model(&item.9), C10::model(&item.10), C11::model(&item.11), C12::model(&item.12))
    }

    open spec fn decoding(input: Seq<u8>) -> (Option<Self::Model>, nat) {
        let d0 = C0::decoding(input);
        let o1 = d0.1;
        match d0.0 {
            None => (None, o1),
            Some(m0) => {
                let d1 = C1::decoding(input.skip(o1 as int));
                let o2 = o1 + d1.1;
                match d1.0 {
                    None => (None, o2),
                    Some(m1) => {
                        let d2 = C2::decoding(input.skip(o2 as int));
                        let o3 = o2 + d2.1;
                        match d2.0 {
                            None => (None, o3),
                            Some(m2) => {
                                let d3 = C3::decoding(input.skip(o3 as int));
                                let o4 = o3 + d3.1;
                                match d3.0 {
                                    None => (None, o4),
                                    Some(m3) => {
                                        let d4 = C4::decoding(input.skip(o4 as int));
                                        let o5 = o4 + d4.1;
                                        match d4.0 {
                                            None => (None, o5),
                                            Some(m4) => {
                                                let d5 = C5::decoding(input.skip(o5 as int));
                                                let o6 = o5 + d5.1;
                                                match d5.0 {
                                                    None => (None, o6),
                                                    Some(m5) => {
                                                        let d6 = C6::decoding(input.skip(o6 as int));
                                                        let o7 = o6 + d6.1;
                                                        match d6.0 {
                                                            None => (None, o7),
                                                            Some(m6) => {
                                                                let d7 = C7::decoding(input.skip(o7 as int));
                                                                let o8 = o7 + d7.1;
                                                                match d7.0 {
                                                                    None => (None, o8),
                                                                    Some(m7) => {
                                                                        let d8 = C8::decoding(input.skip(o8 as int));
                                                                        let o9 = o8 + d8.1;
                                                                        match d8.0 {
                                                                            None => (None, o9),
                                                                            Some(m8) => {
                                                                                let d9 = C9::decoding(input.skip(o9 as int));
                                                                                let o10 = o9 + d9.1;
                                                                                match d9.0 {
                                                                                    None => (None, o10),
                                                                                    Some(m9) => {
                                                                                        let d10 = C10::decoding(input.skip(o10 as int));
                                                                                        let o11 = o10 + d10.1;
                                                                                        match d10.0 {
                                                                                            None => (None, o11),
                                                                                            Some(m10) => {
                                                                                                let d11 = C11::decoding(input.skip(o11 as int));
                                                                                                let o12 = o11 + d11.1;
                                                                                                match d11.0 {
                                                                                                    None => (None, o12),
                                                                                                    Some(m11) => {
                                                                                                        let d12 = C12::decoding(input.skip(o12 as int));
                                                                                                        let o13 = o12 + d12.1;
                                                                                                        match d12.0 {
                                                                                                            None => (None, o13),
                                                                                                            Some(m12) => (Some((m0, m1, m2, m3, m4, m5, m6, m7, m8, m9, m10, m11, m12)), o13),
                                                                                                        }
                                                                                                    },
                                                                                                }
                                                                                            },
                                                                                        }
                                                                                    },
                                                                                }
                                                                            },
                                                                        }
                                                                    },
                                                                }
                                                            },
                                                        }
                                                    },
                                                }
                                            },
                                        }
                                    },
                                }
                            },
                        }
                    },
                }
            },
        }
    }

    fn decode(bytes: &mut DecodingVec) -> (r: Result<Self::Item, Self::Error>)
        ensures
            ({
                let input = old(bytes)@;
                let d0 = C0::decoding(input);
                let o1 = d0.1;
                let d1 = C1::decoding(input.skip(o1 as int));
                let o2 = o1 + d1.1;
                let d2 = C2::decoding(input.skip(o2 as int));
                let o3 = o2 + d2.1;
                let d3 = C3::decoding(input.skip(o3 as int));
                let o4 = o3 + d3.1;
                let d4 = C4::decoding(input.skip(o4 as int));
                let o5 = o4 + d4.1;
                let d5 = C5::decoding(input.skip(o5 as int));
                let o6 = o5 + d5.1;
                let d6 = C6::decoding(input.skip(o6 as int));
                let o7 = o6 + d6.1;
                let d7 = C7::decoding(input.skip(o7 as int));
                let o8 = o7 + d7.1;
                let d8 = C8::decoding(input.skip(o8 as int));
                let o9 = o8 + d8.1;
                let d9 = C9::decoding(input.skip(o9 as int));
                let o10 = o9 + d9.1;
                let d10 = C10::decoding(input.skip(o10 as int));
                let o11 = o10 + d10.1;
                let d11 = C11::decoding(input.skip(o11 as int));
                let o12 = o11 + d11.1;
                let d12 = C12::decoding(input.skip(o12 as int));
                let o13 = o12 + d12.1;
                &&& (r matches Err(ComposeCodecError13::C0(_)) <==> d0.0 is None)
                &&& (r matches Err(ComposeCodecError13::C1(_)) <==> d0.0 is Some && d1.0 is None)
                &&& (r matches Err(ComposeCodecError13::C2(_)) <==> d0.0 is Some && d1.0 is Some && d2.0 is None)
                &&& (r matches Err(ComposeCodecError13::C3(_)) <==> d0.0 is Some && d1.0 is Some && d2.0 is Some && d3.0 is None)
                &&& (r matches Err(ComposeCodecError13::C4(_)) <==> d0.0 is Some && d1.0 is Some && d2.0 is Some && d3.0 is Some && d4.0 is None)
                &&& (r matches Err(ComposeCodecError13::C5(_)) <==> d0.0 is Some && d1.0 is Some && d2.0 is Some && d3.0 is Some && d4.0 is Some && d5.0 is None)
                &&& (r matches Err(ComposeCodecError13::C6(_)) <==> d0.0 is Some && d1.0 is Some && d2.0 is Some && d3.0 is Some && d4.0 is Some && d5.0 is Some && d6.0 is None)
                &&& (r matches Err(ComposeCodecError13::C7(_)) <==> d0.0 is Some && d1.0 is Some && d2.0 is Some && d3.0 is Some && d4.0 is Some && d5.0 is Some && d6.0 is Some && d7.0 is None)
                &&& (r matches Err(ComposeCodecError13::C8(_)) <==> d0.0 is Some && d1.0 is Some && d2.0 is Some && d3.0 is Some && d4.0 is Some && d5.0 is Some && d6.0 is Some && d7.0 is Some && d8.0 is None)
                &&& (r matches Err(ComposeCodecError13::C9(_)) <==> d0.0 is Some && d1.0 is Some && d2.0 is Some && d3.0 is Some && d4.0 is Some && d5.0 is Some && d6.0 is Some && d7.0 is Some && d8.0 is Some && d9.0 is None)
                &&& (r matches Err(ComposeCodecError13::C10(_)) <==> d0.0 is Some && d1.0 is Some && d2.0 is Some && d3.0 is Some && d4.0 is Some && d5.0 is Some && d6.0 is Some && d7.0 is Some && d8.0 is Some && d9.0 is Some && d10.0 is None)
                &&& (r matches Err(ComposeCodecError13::C11(_)) <==> d0.0 is Some && d1.0 is Some && d2.0 is Some && d3.0 is Some && d4.0 is Some && d5.0 is Some && d6.0 is Some && d7.0 is Some && d8.0 is Some && d9.0 is Some && d10.0 is Some && d11.0 is None)
                &&& (r matches Err(ComposeCodecError13::C12(_)) <==> d0.0 is Some && d1.0 is Some && d2.0 is Some && d3.0 is Some && d4.0 is Some && d5.0 is Some && d6.0 is Some && d7.0 is Some && d8.0 is Some && d9.0 is Some && d10.0 is Some && d11.0 is Some && d12.0 is None)
            }),
    {
        let ghost input = bytes@;
        let ghost o1 = C0::decoding(input).1;
        let r0 = C0::decode(bytes);
        assert(bytes@ =~= input.skip(o1 as int));
        let v0 = match r0 {
            Ok(v) => v,
            Err(e) => return Err(ComposeCodecError13::C0(e)),
        };
        let ghost o2 = o1 + C1::decoding(input.skip(o1 as int)).1;
        let r1 = C1::decode(bytes);
        assert(bytes@ =~= input.skip(o2 as int));
        let v1 = match r1 {
            Ok(v) => v,
            Err(e) => return Err(ComposeCodecError13::C1(e)),
        };
        let ghost o3 = o2 + C2::decoding(input.skip(o2 as int)).1;
        let r2 = C2::decode(bytes);
        assert(bytes@ =~= input.skip(o3 as int));
        let v2 = match r2 {
            Ok(v) => v,
            Err(e) => return Err(ComposeCodecError13::C2(e)),
        };
        let ghost o4 = o3 + C3::decoding(input.skip(o3 as int)).1;
        let r3 = C3::decode(bytes);
        assert(bytes@ =~= input.skip(o4 as int));
        let v3 = match r3 {
            Ok(v) => v,
            Err(e) => return Err(ComposeCodecError13::C3(e)),
        };
        let ghost o5 = o4 + C4::decoding(input.skip(o4 as int)).1;
        let r4 = C4::decode(bytes);
        assert(bytes@ =~= input.skip(o5 as int));
        let v4 = match r4 {
            Ok(v) => v,
            Err(e) => return Err(ComposeCodecError13::C4(e)),
        };
        let ghost o6 = o5 + C5::decoding(input.skip(o5 as int)).1;
        let r5 = C5::decode(bytes);
        assert(bytes@ =~= input.skip(o6 as int));
        let v5 = match r5 {
            Ok(v) => v,
            Err(e) => return Err(ComposeCodecError13::C5(e)),
        };
        let ghost o7 = o6 + C6::decoding(input.skip(o6 as int)).1;
        let r6 = C6::decode(bytes);
        assert(bytes@ =~= input.skip(o7 as int));
        let v6 = match r6 {
            Ok(v) => v,
            Err(e) => return Err(ComposeCodecError13::C6(e)),
        };
        let ghost o8 = o7 + C7::decoding(input.skip(o7 as int)).1;
        let r7 = C7::decode(bytes);
        assert(bytes@ =~= input.skip(o8 as int));
        let v7 = match r7 {
            Ok(v) => v,
            Err(e) => return Err(ComposeCodecError13::C7(e)),
        };
        let ghost o9 = o8 + C8::decoding(input.skip(o8 as int)).1;
        let r8 = C8::decode(bytes);
        assert(bytes@ =~= input.skip(o9 as int));
        let v8 = match r8 {
            Ok(v) => v,
            Err(e) => return Err(ComposeCodecError13::C8(e)),
        };
        let ghost o10 = o9 + C9::decoding(input.skip(o9 as int)).1;
        let r9 = C9::decode(bytes);
        assert(bytes@ =~= input.skip(o10 as int));
        let v9 = match r9 {
            Ok(v) => v,
            Err(e) => return Err(ComposeCodecError13::C9(e)),
        };
        let ghost o11 = o10 + C10::decoding(input.skip(o10 as int)).1;
        let r10 = C10::decode(bytes);
        assert(bytes@ =~= input.skip(o11 as int));
        let v10 = match r10 {
            Ok(v) => v,
            Err(e) => return Err(ComposeCodecError13::C10(e)),
        };
        let ghost o12 = o11 + C11::decoding(input.skip(o11 as int)).1;
        let r11 = C11::decode(bytes);
        assert(bytes@ =~= input.skip(o12 as int));
        let v11 = match r11 {
            Ok(v) => v,
            Err(e) => return Err(ComposeCodecError13::C11(e)),
        };
        let ghost o13 = o12 + C12::decoding(input.skip(o12 as int)).1;
        let r12 = C12::decode(bytes);
        assert(bytes@ =~= input.skip(o13 as int));
        let v12 = match r12 {
            Ok(v) => v,
            Err(e) => return Err(ComposeCodecError13::C12(e)),
        };
        Ok((v0, v1, v2, v3, v4, v5, v6, v7, v8, v9, v10, v11, v12))
    }
}

/// When every codec but the last recovers its item whatever follows it, and the last one
/// recovers its item from its own encoding, the composition recovers the whole tuple from
/// its encoding.
pub proof fn lemma_compose13_roundtrip<'a, C0: Encode<'a> + Decode, C1: Encode<'a> + Decode, C2: Encode<'a> + Decode, C3: Encode<'a> + Decode, C4: Encode<'a> + Decode, C5: Encode<'a> + Decode, C6: Encode<'a> + Decode, C7: Encode<'a> + Decode, C8: Encode<'a> + Decode, C9: Encode<'a> + Decode, C10: Encode<'a> + Decode, C11: Encode<'a> + Decode, C12: Encode<'a> + Decode>(
    item: &<ComposeCodec<(C0, C1, C2, C3, C4, C5, C6, C7, C8, C9, C10, C11, C12)> as Encode<'a>>::Item,
    m0: <C0 as Decode>::Model, m1: <C1 as Decode>::Model, m2: <C2 as Decode>::Model, m3: <C3 as Decode>::Model, m4: <C4 as Decode>::Model, m5: <C5 as Decode>::Model, m6: <C6 as Decode>::Model, m7: <C7 as Decode>::Model, m8: <C8 as Decode>::Model, m9: <C9 as Decode>::Model, m10: <C10 as Decode>::Model, m11: <C11 as Decode>::Model, m12: <C12 as Decode>::Model,
)
    requires
        roundtrips_before_anything::<C0>(item.0, m0),
        roundtrips_before_anything::<C1>(item.1, m1),
        roundtrips_before_anything::<C2>(item.2, m2),
        roundtrips_before_anything::<C3>(item.3, m3),
        roundtrips_before_anything::<C4>(item.4, m4),
        roundtrips_before_anything::<C5>(item.5, m5),
        roundtrips_before_anything::<C6>(item.6, m6),
        roundtrips_before_anything::<C7>(item.7, m7),
        roundtrips_before_anything::<C8>(item.8, m8),
        roundtrips_before_anything::<C9>(item.9, m9),
        roundtrips_before_anything::<C10>(item.10, m10),
        roundtrips_before_anything::<C11>(item.11, m11),
        roundtrips_alone::<C12>(item.12, m12),
    ensures
        roundtrips_alone::<ComposeCodec<(C0, C1, C2, C3, C4, C5, C6, C7, C8, C9, C10, C11, C12)>>(item, (m0, m1, m2, m3, m4, m5, m6, m7, m8, m9, m10, m11, m12)),
{
    let b0 = C0::encoding(item.0).unwrap();
    let b1 = C1::encoding(item.1).unwrap();
    let b2 = C2::encoding(item.2).unwrap();
    let b3 = C3::encoding(item.3).unwrap();
    let b4 = C4::encoding(item.4).unwrap();
    let b5 = C5::encoding(item.5).unwrap();
    let b6 = C6::encoding(item.6).unwrap();
    let b7 = C7::encoding(item.7).unwrap();
    let b8 = C8::encoding(item.8).unwrap();
    let b9 = C9::encoding(item.9).unwrap();
    let b10 = C10::encoding(item.10).unwrap();
    let b11 = C11::encoding(item.11).unwrap();
    let b12 = C12::encoding(item.12).unwrap();
    let p1 = b0;
    let p2 = p1 + b1;
    let p3 = p2 + b2;
    let p4 = p3 + b3;
    let p5 = p4 + b4;
    let p6 = p5 + b5;
    let p7 = p6 + b6;
    let p8 = p7 + b7;
    let p9 = p8 + b8;
    let p10 = p9 + b9;
    let p11 = p10 + b10;
    let p12 = p11 + b11;
    let p13 = p12 + b12;
    assert(ComposeCodec::<(C0, C1, C2, C3, C4, C5, C6, C7, C8, C9, C10, C11, C12)>::encoding(item) == Some(p13));
    let t12 = b12;
    let t11 = b11 + t12;
    lemma_concat_assoc(p11, b11, t12);
    let t10 = b10 + t11;
    lemma_concat_assoc(p10, b10, t11);
    let t9 = b9 + t10;
    lemma_concat_assoc(p9, b9, t10);
    let t8 = b8 + t9;
    lemma_concat_assoc(p8, b8, t9);
    let t7 = b7 + t8;
    lemma_concat_assoc(p7, b7, t8);
    let t6 = b6 + t7;
    lemma_concat_assoc(p6, b6, t7);
    let t5 = b5 + t6;
    lemma_concat_assoc(p5, b5, t6);
    let t4 = b4 + t5;
    lemma_concat_assoc(p4, b4, t5);
    let t3 = b3 + t4;
    lemma_concat_assoc(p3, b3, t4);
    let t2 = b2 + t3;
    lemma_concat_assoc(p2, b2, t3);
    let t1 = b1 + t2;
    lemma_concat_assoc(p1, b1, t2);
    lemma_skip_prefix(p1, t1);
    lemma_skip_prefix(p2, t2);
    lemma_skip_prefix(p3, t3);
    lemma_skip_prefix(p4, t4);
    lemma_skip_prefix(p5, t5);
    lemma_skip_prefix(p6, t6);
    lemma_skip_prefix(p7, t7);
    lemma_skip_prefix(p8, t8);
    lemma_skip_prefix(p9, t9);
    lemma_skip_prefix(p10, t10);
    lemma_skip_prefix(p11, t11);
    lemma_skip_prefix(p12, t12);
    assert(C0::decoding(b0 + t1) == (Some(m0), b0.len()));
    assert(C1::decoding(b1 + t2) == (Some(m1), b1.len()));
    assert(C2::decoding(b2 + t3) == (Some(m2), b2.len()));
    assert(C3::decoding(b3 + t4) == (Some(m3), b3.len()));
    assert(C4::decoding(b4 + t5) == (Some(m4), b4.len()));
    assert(C5::decoding(b5 + t6) == (Some(m5), b5.len()));
    assert(C6::decoding(b6 + t7) == (Some(m6), b6.len()));
    assert(C7::decoding(b7 + t8) == (Some(m7), b7.len()));
    assert(C8::decoding(b8 + t9) == (Some(m8), b8.len()));
    assert(C9::decoding(b9 + t10) == (Some(m9), b9.len()));
    assert(C10::decoding(b10 + t11) == (Some(m10), b10.len()));
    assert(C11::decoding(b11 + t12) == (Some(m11), b11.len()));
    assert(C12::decoding(b12) == (Some(m12), b12.len()));
}

/// When every codec recovers its item whatever follows it, so does the composition: it can
/// itself stand before another codec.
pub proof fn lemma_compose13_roundtrip_before_anything<'a, C0: Encode<'a> + Decode, C1: Encode<'a> + Decode, C2: Encode<'a> + Decode, C3: Encode<'a> + Decode, C4: Encode<'a> + Decode, C5: Encode<'a> + Decode, C6: Encode<'a> + Decode, C7: Encode<'a> + Decode, C8: Encode<'a> + Decode, C9: Encode<'a> + Decode, C10: Encode<'a> + Decode, C11: Encode<'a> + Decode, C12: Encode<'a> + Decode>(
    item: &<ComposeCodec<(C0, C1, C2, C3, C4, C5, C6, C7, C8, C9, C10, C11, C12)> as Encode<'a>>::Item,
    m0: <C0 as Decode>::Model, m1: <C1 as Decode>::Model, m2: <C2 as Decode>::Model, m3: <C3 as Decode>::Model, m4: <C4 as Decode>::Model, m5: <C5 as Decode>::Model, m6: <C6 as Decode>::Model, m7: <C7 as Decode>::Model, m8: <C8 as Decode>::Model, m9: <C9 as Decode>::Model, m10: <C10 as Decode>::Model, m11: <C11 as Decode>::Model, m12: <C12 as Decode>::Model,
)
    requires
        roundtrips_before_anything::<C0>(item.0, m0),
        roundtrips_before_anything::<C1>(item.1, m1),
        roundtrips_before_anything::<C2>(item.2, m2),
        roundtrips_before_anything::<C3>(item.3, m3),
        roundtrips_before_anything::<C4>(item.4, m4),
        roundtrips_before_anything::<C5>(item.5, m5),
        roundtrips_before_anything::<C6>(item.6, m6),
        roundtrips_before_anything::<C7>(item.7, m7),
        roundtrips_before_anything::<C8>(item.8, m8),
        roundtrips_before_anything::<C9>(item.9, m9),
        roundtrips_before_anything::<C10>(item.10, m10),
        roundtrips_before_anything::<C11>(item.11, m11),
        roundtrips_before_anything::<C12>(item.12, m12),
    ensures
        roundtrips_before_anything::<ComposeCodec<(C0, C1, C2, C3, C4, C5, C6, C7, C8, C9, C10, C11, C12)>>(item, (m0, m1, m2, m3, m4, m5, m6, m7, m8, m9, m10, m11, m12)),
{
    let b0 = C0::encoding(item.0).unwrap();
    let b1 = C1::encoding(item.1).unwrap();
    let b2 = C2::encoding(item.2).unwrap();
    let b3 = C3::encoding(item.3).unwrap();
    let b4 = C4::encoding(item.4).unwrap();
    let b5 = C5::encoding(item.5).unwrap();
    let b6 = C6::encoding(item.6).unwrap();
    let b7 = C7::encoding(item.7).unwrap();
    let b8 = C8::encoding(item.8).unwrap();
    let b9 = C9::encoding(item.9).unwrap();
    let b10 = C10::encoding(item.10).unwrap();
    let b11 = C11::encoding(item.11).unwrap();
    let b12 = C12::encoding(item.12).unwrap();
    let p1 = b0;
    let p2 = p1 + b1;
    let p3 = p2 + b2;
    let p4 = p3 + b3;
    let p5 = p4 + b4;
    let p6 = p5 + b5;
    let p7 = p6 + b6;
    let p8 = p7 + b7;
    let p9 = p8 + b8;
    let p10 = p9 + b9;
    let p11 = p10 + b10;
    let p12 = p11 + b11;
    let p13 = p12 + b12;
    assert(ComposeCodec::<(C0, C1, C2, C3, C4, C5, C6, C7, C8, C9, C10, C11, C12)>::encoding(item) == Some(p13));
    assert forall|rest: Seq<u8>|
        #[trigger] ComposeCodec::<(C0, C1, C2, C3, C4, C5, C6, C7, C8, C9, C10, C11, C12)>::decoding(p13 + rest) == (Some((m0, m1, m2, m3, m4, m5, m6, m7, m8, m9, m10, m11, m12)), p13.len()) by {
        let t13 = rest;
        let t12 = b12 + t13;
        lemma_concat_assoc(p12, b12, t13);
        let t11 = b11 + t12;
        lemma_concat_assoc(p11, b11, t12);
        let t10 = b10 + t11;
        lemma_concat_assoc(p10, b10, t11);
        let t9 = b9 + t10;
        lemma_concat_assoc(p9, b9, t10);
        let t8 = b8 + t9;
        lemma_concat_assoc(p8, b8, t9);
        let t7 = b7 + t8;
        lemma_concat_assoc(p7, b7, t8);
        let t6 = b6 + t7;
        lemma_concat_assoc(p6, b6, t7);
        let t5 = b5 + t6;
        lemma_concat_assoc(p5, b5, t6);
        let t4 = b4 + t5;
        lemma_concat_assoc(p4, b4, t5);
        let t3 = b3 + t4;
        lemma_concat_assoc(p3, b3, t4);
        let t2 = b2 + t3;
        lemma_concat_assoc(p2, b2, t3);
        let t1 = b1 + t2;
        lemma_concat_assoc(p1, b1, t2);
        lemma_skip_prefix(p1, t1);
        lemma_skip_prefix(p2, t2);
        lemma_skip_prefix(p3, t3);
        lemma_skip_prefix(p4, t4);
        lemma_skip_prefix(p5, t5);
        lemma_skip_prefix(p6, t6);
        lemma_skip_prefix(p7, t7);
        lemma_skip_prefix(p8, t8);
        lemma_skip_prefix(p9, t9);
        lemma_skip_prefix(p10, t10);
        lemma_skip_prefix(p11, t11);
        lemma_skip_prefix(p12, t12);
        assert(C0::decoding(b0 + t1) == (Some(m0), b0.len()));
        assert(C1::decoding(b1 + t2) == (Some(m1), b1.len()));
        assert(C2::decoding(b2 + t3) == (Some(m2), b2.len()));
        assert(C3::decoding(b3 + t4) == (Some(m3), b3.len()));
        assert(C4::decoding(b4 + t5) == (Some(m4), b4.len()));
        assert(C5::decoding(b5 + t6) == (Some(m5), b5.len()));
        assert(C6::decoding(b6 + t7) == (Some(m6), b6.len()));
        assert(C7::decoding(b7 + t8) == (Some(m7), b7.len()));
        assert(C8::decoding(b8 + t9) == (Some(m8), b8.len()));
        assert(C9::decoding(b9 + t10) == (Some(m9), b9.len()));
        assert(C10::decoding(b10 + t11) == (Some(m10), b10.len()));
        assert(C11::decoding(b11 + t12) == (Some(m11), b11.len()));
        assert(C12::decoding(b12 + t13) == (Some(m12), b12.len()));
    }
}

/// Why a composition of 14 codecs failed: the variant names the codec that failed.
#[derive(Debug)]
pub enum ComposeCodecError14<C0, C1, C2, C3, C4, C5, C6, C7, C8, C9, C10, C11, C12, C13> {
    /// The codec in position 0 failed.
    C0(C0),
    /// The codec in position 1 failed.
    C1(C1),
    /// The codec in position 2 failed.
    C2(C2),
    /// The codec in position 3 failed.
    C3(C3),
    /// The codec in position 4 failed.
    C4(C4),
    /// The codec in position 5 failed.
    C5(C5),
    /// The codec in position 6 failed.
    C6(C6),
    /// The codec in position 7 failed.
    C7(C7),
    /// The codec in position 8 failed.
    C8(C8),
    /// The codec in position 9 failed.
    C9(C9),
    /// The codec in position 10 failed.
    C10(C10),
    /// The codec in position 11 failed.
    C11(C11),
    /// The codec in position 12 failed.
    C12(C12),
    /// The codec in position 13 failed.
    C13(C13),
}

impl<'a, C0: Encode<'a>, C1: Encode<'a>, C2: Encode<'a>, C3: Encode<'a>, C4: Encode<'a>, C5: Encode<'a>, C6: Encode<'a>, C7: Encode<'a>, C8: Encode<'a>, C9: Encode<'a>, C10: Encode<'a>, C11: Encode<'a>, C12: Encode<'a>, C13: Encode<'a>> Encode<'a> for ComposeCodec<(C0, C1, C2, C3, C4, C5, C6, C7, C8, C9, C10, C11, C12, C13)> {
    type Item = (&'a C0::Item, &'a C1::Item, &'a C2::Item, &'a C3::Item, &'a C4::Item, &'a C5::Item, &'a C6::Item, &'a C7::Item, &'a C8::Item, &'a C9::Item, &'a C10::Item, &'a C11::Item, &'a C12::Item, &'a C13::Item);
    type Error = ComposeCodecError14<C0::Error, C1::Error, C2::Error, C3::Error, C4::Error, C5::Error, C6::Error, C7::Error, C8::Error, C9::Error, C10::Error, C11::Error, C12::Error, C13::Error>;

    open spec fn encoding(item: &Self::Item) -> Option<Seq<u8>> {
        match C0::encoding(item.0) {
            None => None,
            Some(b0) => {
                match C1::encoding(item.1) {
                    None => None,
                    Some(b1) => {
                        match C2::encoding(item.2) {
                            None => None,
                            Some(b2) => {
                                match C3::encoding(item.3) {
                                    None => None,
                                    Some(b3) => {
                                        match C4::encoding(item.4) {
                                            None => None,
                                            Some(b4) => {
                                                match C5::encoding(item.5) {
                                                    None => None,
                                                    Some(b5) => {
                                                        match C6::encoding(item.6) {
                                                            None => None,
                                                            Some(b6) => {
                                                                match C7::encoding(item.7) {
                                                                    None => None,
                                                                    Some(b7) => {
                                                                        match C8::encoding(item.8) {
                                                                            None => None,
                                                                            Some(b8) => {
                                                                                match C9::encoding(item.9) {
                                                                                    None => None,
                                                                                    Some(b9) => {
                                                                                        match C10::encoding(item.10) {
                                                                                            None => None,
                                                                                            Some(b10) => {
                                                                                                match C11::encoding(item.11) {
                                                                                                    None => None,
                                                                                                    Some(b11) => {
                                                                                                        match C12::encoding(item.12) {
                                                                                                            None => None,
                                                                                                            Some(b12) => {
                                                                                                                match C13::encoding(item.13) {
                                                                                                                    None => None,
                                                                                                                    Some(b13) => Some(b0 + b1 + b2 + b3 + b4 + b5 + b6 + b7 + b8 + b9 + b10 + b11 + b12 + b13),
                                                                                                                }
                                                                                                            },
                                                                                                        }
                                                                                                    },
                                                                                                }
                                                                                            },
                                                                                        }
                                                                                    },
                                                                                }
                                                                            },
                                                                        }
                                                                    },
                                                                }
                                                            },
                                                        }
                                                    },
                                                }
                                            },
                                        }
                                    },
                                }
                            },
                        }
                    },
                }
            },
        }
    }

    fn encode(into: EncodingVec<Fresh>, item: &Self::Item) -> (r: Result<EncodingVec<Fresh>, Self::Error>)
        ensures
            r matches Err(ComposeCodecError14::C0(_)) ==> C0::encoding(item.0) is None,
            r matches Err(ComposeCodecError14::C1(_)) ==> C0::encoding(item.0) is Some && C1::encoding(item.1) is None,
            r matches Err(ComposeCodecError14::C2(_)) ==> C0::encoding(item.0) is Some && C1::encoding(item.1) is Some && C2::encoding(item.2) is None,
            r matches Err(ComposeCodecError14::C3(_)) ==> C0::encoding(item.0) is Some && C1::encoding(item.1) is Some && C2::encoding(item.2) is Some && C3::encoding(item.3) is None,
            r matches Err(ComposeCodecError14::C4(_)) ==> C0::encoding(item.0) is Some && C1::encoding(item.1) is Some && C2::encoding(item.2) is Some && C3::encoding(item.3) is Some && C4::encoding(item.4) is None,
            r matches Err(ComposeCodecError14::C5(_)) ==> C0::encoding(item.0) is Some && C1::encoding(item.1) is Some && C2::encoding(item.2) is Some && C3::encoding(item.3) is Some && C4::encoding(item.4) is Some && C5::encoding(item.5) is None,
            r matches Err(ComposeCodecError14::C6(_)) ==> C0::encoding(item.0) is Some && C1::encoding(item.1) is Some && C2::encoding(item.2) is Some && C3::encoding(item.3) is Some && C4::encoding(item.4) is Some && C5::encoding(item.5) is Some && C6::encoding(item.6) is None,
            r matches Err(ComposeCodecError14::C7(_)) ==> C0::encoding(item.0) is Some && C1::encoding(item.1) is Some && C2::encoding(item.2) is Some && C3::encoding(item.3) is Some && C4::encoding(item.4) is Some && C5::encoding(item.5) is Some && C6::encoding(item.6) is Some && C7::encoding(item.7) is None,
            r matches Err(ComposeCodecError14::C8(_)) ==> C0::encoding(item.0) is Some && C1::encoding(item.1) is Some && C2::encoding(item.2) is Some && C3::encoding(item.3) is Some && C4::encoding(item.4) is Some && C5::encoding(item.5) is Some && C6::encoding(item.6) is Some && C7::encoding(item.7) is Some && C8::encoding(item.8) is None,
            r matches Err(ComposeCodecError14::C9(_)) ==> C0::encoding(item.0) is Some && C1::encoding(item.1) is Some && C2::encoding(item.2) is Some && C3::encoding(item.3) is Some && C4::encoding(item.4) is Some && C5::encoding(item.5) is Some && C6::encoding(item.6) is Some && C7::encoding(item.7) is Some && C8::encoding(item.8) is Some && C9::encoding(item.9) is None,
            r matches Err(ComposeCodecError14::C10(_)) ==> C0::encoding(item.0) is Some && C1::encoding(item.1) is Some && C2::encoding(item.2) is Some && C3::encoding(item.3) is Some && C4::encoding(item.4) is Some && C5::encoding(item.5) is Some && C6::encoding(item.6) is Some && C7::encoding(item.7) is Some && C8::encoding(item.8) is Some && C9::encoding(item.9) is Some && C10::encoding(item.10) is None,
            r matches Err(ComposeCodecError14::C11(_)) ==> C0::encoding(item.0) is Some && C1::encoding(item.1) is Some && C2::encoding(item.2) is Some && C3::encoding(item.3) is Some && C4::encoding(item.4) is Some && C5::encoding(item.5) is Some && C6::encoding(item.6) is Some && C7::encoding(item.7) is Some && C8::encoding(item.8) is Some && C9::encoding(item.9) is Some && C10::encoding(item.10) is Some && C11::encoding(item.11) is None,
            r matches Err(ComposeCodecError14::C12(_)) ==> C0::encoding(item.0) is Some && C1::encoding(item.1) is Some && C2::encoding(item.2) is Some && C3::encoding(item.3) is Some && C4::encoding(item.4) is Some && C5::encoding(item.5) is Some && C6::encoding(item.6) is Some && C7::encoding(item.7) is Some && C8::encoding(item.8) is Some && C9::encoding(item.9) is Some && C10::encoding(item.10) is Some && C11::encoding(item.11) is Some && C12::encoding(item.12) is None,
            r matches Err(ComposeCodecError14::C13(_)) ==> C0::encoding(item.0) is Some && C1::encoding(item.1) is Some && C2::encoding(item.2) is Some && C3::encoding(item.3) is Some && C4::encoding(item.4) is Some && C5::encoding(item.5) is Some && C6::encoding(item.6) is Some && C7::encoding(item.7) is Some && C8::encoding(item.8) is Some && C9::encoding(item.9) is Some && C10::encoding(item.10) is Some && C11::encoding(item.11) is Some && C12::encoding(item.12) is Some && C13::encoding(item.13) is None,
    {
        let ghost start = into.bytes();
        let ret = match C0::encode(into, item.0) {
            Ok(v) => v,
            Err(e) => return Err(ComposeCodecError14::C0(e)),
        };
        let ghost acc0 = C0::encoding(item.0).unwrap();
        let ret = match C1::encode(ret, item.1) {
            Ok(v) => v,
            Err(e) => return Err(ComposeCodecError14::C1(e)),
        };
        let ghost acc1 = acc0 + C1::encoding(item.1).unwrap();
        proof {
            lemma_concat_assoc(start, acc0, C1::encoding(item.1).unwrap());
        }
        let ret = match C2::encode(ret, item.2) {
            Ok(v) => v,
            Err(e) => return Err(ComposeCodecError14::C2(e)),
        };
        let ghost acc2 = acc1 + C2::encoding(item.2).unwrap();
        proof {
            lemma_concat_assoc(start, acc1, C2::encoding(item.2).unwrap());
        }
        let ret = match C3::encode(ret, item.3) {
            Ok(v) => v,
            Err(e) => return Err(ComposeCodecError14::C3(e)),
        };
        let ghost acc3 = acc2 + C3::encoding(item.3).unwrap();
        proof {
            lemma_concat_assoc(start, acc2, C3::encoding(item.3).unwrap());
        }
        let ret = match C4::encode(ret, item.4) {
            Ok(v) => v,
            Err(e) => return Err(ComposeCodecError14::C4(e)),
        };
        let ghost acc4 = acc3 + C4::encoding(item.4).unwrap();
        proof {
            lemma_concat_assoc(start, acc3, C4::encoding(item.4).unwrap());
        }
        let ret = match C5::encode(ret, item.5) {
            Ok(v) => v,
            Err(e) => return Err(ComposeCodecError14::C5(e)),
        };
        let ghost acc5 = acc4 + C5::encoding(item.5).unwrap();
        proof {
            lemma_concat_assoc(start, acc4, C5::encoding(item.5).unwrap());
        }
        let ret = match C6::encode(ret, item.6) {
            Ok(v) => v,
            Err(e) => return Err(ComposeCodecError14::C6(e)),
        };
        let ghost acc6 = acc5 + C6::encoding(item.6).unwrap();
        proof {
            lemma_concat_assoc(start, acc5, C6::encoding(item.6).unwrap());
        }
        let ret = match C7::encode(ret, item.7) {
            Ok(v) => v,
            Err(e) => return Err(ComposeCodecError14::C7(e)),
        };
        let ghost acc7 = acc6 + C7::encoding(item.7).unwrap();
        proof {
            lemma_concat_assoc(start, acc6, C7::encoding(item.7).unwrap());
        }
        let ret = match C8::encode(ret, item.8) {
            Ok(v) => v,
            Err(e) => return Err(ComposeCodecError14::C8(e)),
        };
        let ghost acc8 = acc7 + C8::encoding(item.8).unwrap();
        proof {
            lemma_concat_assoc(start, acc7, C8::encoding(item.8).unwrap());
        }
        let ret = match C9::encode(ret, item.9) {
            Ok(v) => v,
            Err(e) => return Err(ComposeCodecError14::C9(e)),
        };
        let ghost acc9 = acc8 + C9::encoding(item.9).unwrap();
        proof {
            lemma_concat_assoc(start, acc8, C9::encoding(item.9).unwrap());
        }
        let ret = match C10::encode(ret, item.10) {
            Ok(v) => v,
            Err(e) => return Err(ComposeCodecError14::C10(e)),
        };
        let ghost acc10 = acc9 + C10::encoding(item.10).unwrap();
        proof {
            lemma_concat_assoc(start, acc9, C10::encoding(item.10).unwrap());
        }
        let ret = match C11::encode(ret, item.11) {
            Ok(v) => v,
            Err(e) => return Err(ComposeCodecError14::C11(e)),
        };
        let ghost acc11 = acc10 + C11::encoding(item.11).unwrap();
        proof {
            lemma_concat_assoc(start, acc10, C11::encoding(item.11).unwrap());
        }
        let ret = match C12::encode(ret, item.12) {
            Ok(v) => v,
            Err(e) => return Err(ComposeCodecError14::C12(e)),
        };
        let ghost acc12 = acc11 + C12::encoding(item.12).unwrap();
        proof {
            lemma_concat_assoc(start, acc11, C12::encoding(item.12).unwrap());
        }
        let ret = match C13::encode(ret, item.13) {
            Ok(v) => v,
            Err(e) => return Err(ComposeCodecError14::C13(e)),
        };
        proof {
            lemma_concat_assoc(start, acc12, C13::encoding(item.13).unwrap());
        }
        Ok(ret)
    }
}

impl<C0: Decode, C1: Decode, C2: Decode, C3: Decode, C4: Decode, C5: Decode, C6: Decode, C7: Decode, C8: Decode, C9: Decode, C10: Decode, C11: Decode, C12: Decode, C13: Decode> Decode for ComposeCodec<(C0, C1, C2, C3, C4, C5, C6, C7, C8, C9, C10, C11, C12, C13)> {
    type Item = (C0::Item, C1::Item, C2::Item, C3::Item, C4::Item, C5::Item, C6::Item, C7::Item, C8::Item, C9::Item, C10::Item, C11::Item, C12::Item, C13::Item);
    type Error = ComposeCodecError14<C0::Error, C1::Error, C2::Error, C3::Error, C4::Error, C5::Error, C6::Error, C7::Error, C8::Error, C9::Error, C10::Error, C11::Error, C12::Error, C13::Error>;
    type Model = (C0::Model, C1::Model, C2::Model, C3::Model, C4::Model, C5::Model, C6::Model, C7::Model, C8::Model, C9::Model, C10::Model, C11::Model, C12::Model, C13::Model);

    open spec fn model(item: &Self::Item) -> Self::Model {
        (C0::model(&item.0), C1::model(&item.1), C2::model(&item.2), C3::model(&item.3), C4::model(&item.4), C5::model(&item.5), C6::model(&item.6), C7::model(&item.7), C8::model(&item.8), C9::model(&item.9), C10::model(&item.10), C11::model(&item.11), C12::model(&item.12), C13::model(&item.13))
    }

    open spec fn decoding(input: Seq<u8>) -> (Option<Self::Model>, nat) {
        let d0 = C0::decoding(input);
        let o1 = d0.1;
        match d0.0 {
            None => (None, o1),
            Some(m0) => {
                let d1 = C1::decoding(input.skip(o1 as int));
                let o2 = o1 + d1.1;
                match d1.0 {
                    None => (None, o2),
                    Some(m1) => {
                        let d2 = C2::decoding(input.skip(o2 as int));
                        let o3 = o2 + d2.1;
                        match d2.0 {
                            None => (None, o3),
                            Some(m2) => {
                                let d3 = C3::decoding(input.skip(o3 as int));
                                let o4 = o3 + d3.1;
                                match d3.0 {
                                    None => (None, o4),
                                    Some(m3) => {
                                        let d4 = C4::decoding(input.skip(o4 as int));
                                        let o5 = o4 + d4.1;
                                        match d4.0 {
                                            None => (None, o5),
                                            Some(m4) => {
                                                let d5 = C5::decoding(input.skip(o5 as int));
                                                let o6 = o5 + d5.1;
                                                match d5.0 {
                                                    None => (None, o6),
                                                    Some(m5) => {
                                                        let d6 = C6::decoding(input.skip(o6 as int));
                                                        let o7 = o6 + d6.1;
                                                        match d6.0 {
                                                            None => (None, o7),
                                                            Some(m6) => {
                                                                let d7 = C7::decoding(input.skip(o7 as int));
                                                                let o8 = o7 + d7.1;
                                                                match d7.0 {
                                                                    None => (None, o8),
                                                                    Some(m7) => {
                                                                        let d8 = C8::decoding(input.skip(o8 as int));
                                                                        let o9 = o8 + d8.1;
                                                                        match d8.0 {
                                                                            None => (None, o9),
                                                                            Some(m8) => {
                                                                                let d9 = C9::decoding(input.skip(o9 as int));
                                                                                let o10 = o9 + d9.1;
                                                                                match d9.0 {
                                                                                    None => (None, o10),
                                                                                    Some(m9) => {
                                                                                        let d10 = C10::decoding(input.skip(o10 as int));
                                                                                        let o11 = o10 + d10.1;
                                                                                        match d10.0 {
                                                                                            None => (None, o11),
                                                                                            Some(m10) => {
                                                                                                let d11 = C11::decoding(input.skip(o11 as int));
                                                                                                let o12 = o11 + d11.1;
                                                                                                match d11.0 {
                                                                                                    None => (None, o12),
                                                                                                    Some(m11) => {
                                                                                                        let d12 = C12::decoding(input.skip(o12 as int));
                                                                                                        let o13 = o12 + d12.1;
                                                                                                        match d12.0 {
                                                                                                            None => (None, o13),
                                                                                                            Some(m12) => {
                                                                                                                let d13 = C13::decoding(input.skip(o13 as int));
                                                                                                                let o14 = o13 + d13.1;
                                                                                                                match d13.0 {
                                                                                                                    None => (None, o14),
                                                                                                                    Some(m13) => (Some((m0, m1, m2, m3, m4, m5, m6, m7, m8, m9, m10, m11, m12, m13)), o14),
                                                                                                                }
                                                                                                            },
                                                                                                        }
                                                                                                    },
                                                                                                }
                                                                                            },
                                                                                        }
                                                                                    },
                                                                                }
                                                                            },
                                                                        }
                                                                    },
                                                                }
                                                            },
                                                        }
                                                    },
                                                }
                                            },
                                        }
                                    },
                                }
                            },
                        }
                    },
                }
            },
        }
    }

    fn decode(bytes: &mut DecodingVec) -> (r: Result<Self::Item, Self::Error>)
        ensures
            ({
                let input = old(bytes)@;
                let d0 = C0::decoding(input);
                let o1 = d0.1;
                let d1 = C1::decoding(input.skip(o1 as int));
                let o2 = o1 + d1.1;
                let d2 = C2::decoding(input.skip(o2 as int));
                let o3 = o2 + d2.1;
                let d3 = C3::decoding(input.skip(o3 as int));
                let o4 = o3 + d3.1;
                let d4 = C4::decoding(input.skip(o4 as int));
                let o5 = o4 + d4.1;
                let d5 = C5::decoding(input.skip(o5 as int));
                let o6 = o5 + d5.1;
                let d6 = C6::decoding(input.skip(o6 as int));
                let o7 = o6 + d6.1;
                let d7 = C7::decoding(input.skip(o7 as int));
                let o8 = o7 + d7.1;
                let d8 = C8::decoding(input.skip(o8 as int));
                let o9 = o8 + d8.1;
                let d9 = C9::decoding(input.skip(o9 as int));
                let o10 = o9 + d9.1;
                let d10 = C10::decoding(input.skip(o10 as int));
                let o11 = o10 + d10.1;
                let d11 = C11::decoding(input.skip(o11 as int));
                let o12 = o11 + d11.1;
                let d12 = C12::decoding(input.skip(o12 as int));
                let o13 = o12 + d12.1;
                let d13 = C13::decoding(input.skip(o13 as int));
                let o14 = o13 + d13.1;
                &&& (r matches Err(ComposeCodecError14::C0(_)) <==> d0.0 is None)
                &&& (r matches Err(ComposeCodecError14::C1(_)) <==> d0.0 is Some && d1.0 is None)
                &&& (r matches Err(ComposeCodecError14::C2(_)) <==> d0.0 is Some && d1.0 is Some && d2.0 is None)
                &&& (r matches Err(ComposeCodecError14::C3(_)) <==> d0.0 is Some && d1.0 is Some && d2.0 is Some && d3.0 is None)
                &&& (r matches Err(ComposeCodecError14::C4(_)) <==> d0.0 is Some && d1.0 is Some && d2.0 is Some && d3.0 is Some && d4.0 is None)
                &&& (r matches Err(ComposeCodecError14::C5(_)) <==> d0.0 is Some && d1.0 is Some && d2.0 is Some && d3.0 is Some && d4.0 is Some && d5.0 is None)
                &&& (r matches Err(ComposeCodecError14::C6(_)) <==> d0.0 is Some && d1.0 is Some && d2.0 is Some && d3.0 is Some && d4.0 is Some && d5.0 is Some && d6.0 is None)
                &&& (r matches Err(ComposeCodecError14::C7(_)) <==> d0.0 is Some && d1.0 is Some && d2.0 is Some && d3.0 is Some && d4.0 is Some && d5.0 is Some && d6.0 is Some && d7.0 is None)
                &&& (r matches Err(ComposeCodecError14::C8(_)) <==> d0.0 is Some && d1.0 is Some && d2.0 is Some && d3.0 is Some && d4.0 is Some && d5.0 is Some && d6.0 is Some && d7.0 is Some && d8.0 is None)
                &&& (r matches Err(ComposeCodecError14::C9(_)) <==> d0.0 is Some && d1.0 is Some && d2.0 is Some && d3.0 is Some && d4.0 is Some && d5.0 is Some && d6.0 is Some && d7.0 is Some && d8.0 is Some && d9.0 is None)
                &&& (r matches Err(ComposeCodecError14::C10(_)) <==> d0.0 is Some && d1.0 is Some && d2.0 is Some && d3.0 is Some && d4.0 is Some && d5.0 is Some && d6.0 is Some && d7.0 is Some && d8.0 is Some && d9.0 is Some && d10.0 is None)
                &&& (r matches Err(ComposeCodecError14::C11(_)) <==> d0.0 is Some && d1.0 is Some && d2.0 is Some && d3.0 is Some && d4.0 is Some && d5.0 is Some && d6.0 is Some && d7.0 is Some && d8.0 is Some && d9.0 is Some && d10.0 is Some && d11.0 is None)
                &&& (r matches Err(ComposeCodecError14::C12(_)) <==> d0.0 is Some && d1.0 is Some && d2.0 is Some && d3.0 is Some && d4.0 is Some && d5.0 is Some && d6.0 is Some && d7.0 is Some && d8.0 is Some && d9.0 is Some && d10.0 is Some && d11.0 is Some && d12.0 is None)
                &&& (r matches Err(ComposeCodecError14::C13(_)) <==> d0.0 is Some && d1.0 is Some && d2.0 is Some && d3.0 is Some && d4.0 is Some && d5.0 is Some && d6.0 is Some && d7.0 is Some && d8.0 is Some && d9.0 is Some && d10.0 is Some && d11.0 is Some && d12.0 is Some && d13.0 is None)
            }),
    {
        let ghost input = bytes@;
        let ghost o1 = C0::decoding(input).1;
        let r0 = C0::decode(bytes);
        assert(bytes@ =~= input.skip(o1 as int));
        let v0 = match r0 {
            Ok(v) => v,
            Err(e) => return Err(ComposeCodecError14::C0(e)),
        };
        let ghost o2 = o1 + C1::decoding(input.skip(o1 as int)).1;
        let r1 = C1::decode(bytes);
        assert(bytes@ =~= input.skip(o2 as int));
        let v1 = match r1 {
            Ok(v) => v,
            Err(e) => return Err(ComposeCodecError14::C1(e)),
        };
        let ghost o3 = o2 + C2::decoding(input.skip(o2 as int)).1;
        let r2 = C2::decode(bytes);
        assert(bytes@ =~= input.skip(o3 as int));
        let v2 = match r2 {
            Ok(v) => v,
            Err(e) => return Err(ComposeCodecError14::C2(e)),
        };
        let ghost o4 = o3 + C3::decoding(input.skip(o3 as int)).1;
        let r3 = C3::decode(bytes);
        assert(bytes@ =~= input.skip(o4 as int));
        let v3 = match r3 {
            Ok(v) => v,
            Err(e) => return Err(ComposeCodecError14::C3(e)),
        };
        let ghost o5 = o4 + C4::decoding(input.skip(o4 as int)).1;
        let r4 = C4::decode(bytes);
        assert(bytes@ =~= input.skip(o5 as int));
        let v4 = match r4 {
            Ok(v) => v,
            Err(e) => return Err(ComposeCodecError14::C4(e)),
        };
        let ghost o6 = o5 + C5::decoding(input.skip(o5 as int)).1;
        let r5 = C5::decode(bytes);
        assert(bytes@ =~= input.skip(o6 as int));
        let v5 = match r5 {
            Ok(v) => v,
            Err(e) => return Err(ComposeCodecError14::C5(e)),
        };
        let ghost o7 = o6 + C6::decoding(input.skip(o6 as int)).1;
        let r6 = C6::decode(bytes);
        assert(bytes@ =~= input.skip(o7 as int));
        let v6 = match r6 {
            Ok(v) => v,
            Err(e) => return Err(ComposeCodecError14::C6(e)),
        };
        let ghost o8 = o7 + C7::decoding(input.skip(o7 as int)).1;
        let r7 = C7::decode(bytes);
        assert(bytes@ =~= input.skip(o8 as int));
        let v7 = match r7 {
            Ok(v) => v,
            Err(e) => return Err(ComposeCodecError14::C7(e)),
        };
        let ghost o9 = o8 + C8::decoding(input.skip(o8 as int)).1;
        let r8 = C8::decode(bytes);
        assert(bytes@ =~= input.skip(o9 as int));
        let v8 = match r8 {
            Ok(v) => v,
            Err(e) => return Err(ComposeCodecError14::C8(e)),
        };
        let ghost o10 = o9 + C9::decoding(input.skip(o9 as int)).1;
        let r9 = C9::decode(bytes);
        assert(bytes@ =~= input.skip(o10 as int));
        let v9 = match r9 {
            Ok(v) => v,
            Err(e) => return Err(ComposeCodecError14::C9(e)),
        };
        let ghost o11 = o10 + C10::decoding(input.skip(o10 as int)).1;
        let r10 = C10::decode(bytes);
        assert(bytes@ =~= input.skip(o11 as int));
        let v10 = match r10 {
            Ok(v) => v,
            Err(e) => return Err(ComposeCodecError14::C10(e)),
        };
        let ghost o12 = o11 + C11::decoding(input.skip(o11 as int)).1;
        let r11 = C11::decode(bytes);
        assert(bytes@ =~= input.skip(o12 as int));
        let v11 = match r11 {
            Ok(v) => v,
            Err(e) => return Err(ComposeCodecError14::C11(e)),
        };
        let ghost o13 = o12 + C12::decoding(input.skip(o12 as int)).1;
        let r12 = C12::decode(bytes);
        assert(bytes@ =~= input.skip(o13 as int));
        let v12 = match r12 {
            Ok(v) => v,
            Err(e) => return Err(ComposeCodecError14::C12(e)),
        };
        let ghost o14 = o13 + C13::decoding(input.skip(o13 as int)).1;
        let r13 = C13::decode(bytes);
        assert(bytes@ =~= input.skip(o14 as int));
        let v13 = match r13 {
            Ok(v) => v,
            Err(e) => return Err(ComposeCodecError14::C13(e)),
        };
        Ok((v0, v1, v2, v3, v4, v5, v6, v7, v8, v9, v10, v11, v12, v13))
    }
}

/// When every codec but the last recovers its item whatever follows it, and the last one
/// recovers its item from its own encoding, the composition recovers the whole tuple from
/// its encoding.
pub proof fn lemma_compose14_roundtrip<'a, C0: Encode<'a> + Decode, C1: Encode<'a> + Decode, C2: Encode<'a> + Decode, C3: Encode<'a> + Decode, C4: Encode<'a> + Decode, C5: Encode<'a> + Decode, C6: Encode<'a> + Decode, C7: Encode<'a> + Decode, C8: Encode<'a> + Decode, C9: Encode<'a> + Decode, C10: Encode<'a> + Decode, C11: Encode<'a> + Decode, C12: Encode<'a> + Decode, C13: Encode<'a> + Decode>(
    item: &<ComposeCodec<(C0, C1, C2, C3, C4, C5, C6, C7, C8, C9, C10, C11, C12, C13)> as Encode<'a>>::Item,
    m0: <C0 as Decode>::Model, m1: <C1 as Decode>::Model, m2: <C2 as Decode>::Model, m3: <C3 as Decode>::Model, m4: <C4 as Decode>::Model, m5: <C5 as Decode>::Model, m6: <C6 as Decode>::Model, m7: <C7 as Decode>::Model, m8: <C8 as Decode>::Model, m9: <C9 as Decode>::Model, m10: <C10 as Decode>::Model, m11: <C11 as Decode>::Model, m12: <C12 as Decode>::Model, m13: <C13 as Decode>::Model,
)
    requires
        roundtrips_before_anything::<C0>(item.0, m0),
        roundtrips_before_anything::<C1>(item.1, m1),
        roundtrips_before_anything::<C2>(item.2, m2),
        roundtrips_before_anything::<C3>(item.3, m3),
        roundtrips_before_anything::<C4>(item.4, m4),
        roundtrips_before_anything::<C5>(item.5, m5),
        roundtrips_before_anything::<C6>(item.6, m6),
        roundtrips_before_anything::<C7>(item.7, m7),
        roundtrips_before_anything::<C8>(item.8, m8),
        roundtrips_before_anything::<C9>(item.9, m9),
        roundtrips_before_anything::<C10>(item.10, m10),
        roundtrips_before_anything::<C11>(item.11, m11),
        roundtrips_before_anything::<C12>(item.12, m12),
        roundtrips_alone::<C13>(item.13, m13),
    ensures
        roundtrips_alone::<ComposeCodec<(C0, C1, C2, C3, C4, C5, C6, C7, C8, C9, C10, C11, C12, C13)>>(item, (m0, m1, m2, m3, m4, m5, m6, m7, m8, m9, m10, m11, m12, m13)),
{
    let b0 = C0::encoding(item.0).unwrap();
    let b1 = C1::encoding(item.1).unwrap();
    let b2 = C2::encoding(item.2).unwrap();
    let b3 = C3::encoding(item.3).unwrap();
    let b4 = C4::encoding(item.4).unwrap();
    let b5 = C5::encoding(item.5).unwrap();
    let b6 = C6::encoding(item.6).unwrap();
    let b7 = C7::encoding(item.7).unwrap();
    let b8 = C8::encoding(item.8).unwrap();
    let b9 = C9::encoding(item.9).unwrap();
    let b10 = C10::encoding(item.10).unwrap();
    let b11 = C11::encoding(item.11).unwrap();
    let b12 = C12::encoding(item.12).unwrap();
    let b13 = C13::encoding(item.13).unwrap();
    let p1 = b0;
    let p2 = p1 + b1;
    let p3 = p2 + b2;
    let p4 = p3 + b3;
    let p5 = p4 + b4;
    let p6 = p5 + b5;
    let p7 = p6 + b6;
    let p8 = p7 + b7;
    let p9 = p8 + b8;
    let p10 = p9 + b9;
    let p11 = p10 + b10;
    let p12 = p11 + b11;
    let p13 = p12 + b12;
    let p14 = p13 + b13;
    assert(ComposeCodec::<(C0, C1, C2, C3, C4, C5, C6, C7, C8, C9, C10, C11, C12, C13)>::encoding(item) == Some(p14));
    let t13 = b13;
    let t12 = b12 + t13;
    lemma_concat_assoc(p12, b12, t13);
    let t11 = b11 + t12;
    lemma_concat_assoc(p11, b11, t12);
    let t10 = b10 + t11;
    lemma_concat_assoc(p10, b10, t11);
    let t9 = b9 + t10;
    lemma_concat_assoc(p9, b9, t10);
    let t8 = b8 + t9;
    lemma_concat_assoc(p8, b8, t9);
    let t7 = b7 + t8;
    lemma_concat_assoc(p7, b7, t8);
    let t6 = b6 + t7;
    lemma_concat_assoc(p6, b6, t7);
    let t5 = b5 + t6;
    lemma_concat_assoc(p5, b5, t6);
    let t4 = b4 + t5;
    lemma_concat_assoc(p4, b4, t5);
    let t3 = b3 + t4;
    lemma_concat_assoc(p3, b3, t4);
    let t2 = b2 + t3;
    lemma_concat_assoc(p2, b2, t3);
    let t1 = b1 + t2;
    lemma_concat_assoc(p1, b1, t2);
    lemma_skip_prefix(p1, t1);
    lemma_skip_prefix(p2, t2);
    lemma_skip_prefix(p3, t3);
    lemma_skip_prefix(p4, t4);
    lemma_skip_prefix(p5, t5);
    lemma_skip_prefix(p6, t6);
    lemma_skip_prefix(p7, t7);
    lemma_skip_prefix(p8, t8);
    lemma_skip_prefix(p9, t9);
    lemma_skip_prefix(p10, t10);
    lemma_skip_prefix(p11, t11);
    lemma_skip_prefix(p12, t12);
    lemma_skip_prefix(p13, t13);
    assert(C0::decoding(b0 + t1) == (Some(m0), b0.len()));
    assert(C1::decoding(b1 + t2) == (Some(m1), b1.len()));
    assert(C2::decoding(b2 + t3) == (Some(m2), b2.len()));
    assert(C3::decoding(b3 + t4) == (Some(m3), b3.len()));
    assert(C4::decoding(b4 + t5) == (Some(m4), b4.len()));
    assert(C5::decoding(b5 + t6) == (Some(m5), b5.len()));
    assert(C6::decoding(b6 + t7) == (Some(m6), b6.len()));
    assert(C7::decoding(b7 + t8) == (Some(m7), b7.len()));
    assert(C8::decoding(b8 + t9) == (Some(m8), b8.len()));
    assert(C9::decoding(b9 + t10) == (Some(m9), b9.len()));
    assert(C10::decoding(b10 + t11) == (Some(m10), b10.len()));
    assert(C11::decoding(b11 + t12) == (Some(m11), b11.len()));
    assert(C12::decoding(b12 + t13) == (Some(m12), b12.len()));
    assert(C13::decoding(b13) == (Some(m13), b13.len()));
}

/// When every codec recovers its item whatever follows it, so does the composition: it can
/// itself stand before another codec.
pub proof fn lemma_compose14_roundtrip_before_anything<'a, C0: Encode<'a> + Decode, C1: Encode<'a> + Decode, C2: Encode<'a> + Decode, C3: Encode<'a> + Decode, C4: Encode<'a> + Decode, C5: Encode<'a> + Decode, C6: Encode<'a> + Decode, C7: Encode<'a> + Decode, C8: Encode<'a> + Decode, C9: Encode<'a> + Decode, C10: Encode<'a> + Decode, C11: Encode<'a> + Decode, C12: Encode<'a> + Decode, C13: Encode<'a> + Decode>(
    item: &<ComposeCodec<(C0, C1, C2, C3, C4, C5, C6, C7, C8, C9, C10, C11, C12, C13)> as Encode<'a>>::Item,
    m0: <C0 as Decode>::Model, m1: <C1 as Decode>::Model, m2: <C2 as Decode>::Model, m3: <C3 as Decode>::Model, m4: <C4 as Decode>::Model, m5: <C5 as Decode>::Model, m6: <C6 as Decode>::Model, m7: <C7 as Decode>::Model, m8: <C8 as Decode>::Model, m9: <C9 as Decode>::Model, m10: <C10 as Decode>::Model, m11: <C11 as Decode>::Model, m12: <C12 as Decode>::Model, m13: <C13 as Decode>::Model,
)
    requires
        roundtrips_before_anything::<C0>(item.0, m0),
        roundtrips_before_anything::<C1>(item.1, m1),
        roundtrips_before_anything::<C2>(item.2, m2),
        roundtrips_before_anything::<C3>(item.3, m3),
        roundtrips_before_anything::<C4>(item.4, m4),
        roundtrips_before_anything::<C5>(item.5, m5),
        roundtrips_before_anything::<C6>(item.6, m6),
        roundtrips_before_anything::<C7>(item.7, m7),
        roundtrips_before_anything::<C8>(item.8, m8),
        roundtrips_before_anything::<C9>(item.9, m9),
        roundtrips_before_anything::<C10>(item.10, m10),
        roundtrips_before_anything::<C11>(item.11, m11),
        roundtrips_before_anything::<C12>(item.12, m12),
        roundtrips_before_anything::<C13>(item.13, m13),
    ensures
        roundtrips_before_anything::<ComposeCodec<(C0, C1, C2, C3, C4, C5, C6, C7, C8, C9, C10, C11, C12, C13)>>(item, (m0, m1, m2, m3, m4, m5, m6, m7, m8, m9, m10, m11, m12, m13)),
{
    let b0 = C0::encoding(item.0).unwrap();
    let b1 = C1::encoding(item.1).unwrap();
    let b2 = C2::encoding(item.2).unwrap();
    let b3 = C3::encoding(item.3).unwrap();
    let b4 = C4::encoding(item.4).unwrap();
    let b5 = C5::encoding(item.5).unwrap();
    let b6 = C6::encoding(item.6).unwrap();
    let b7 = C7::encoding(item.7).unwrap();
    let b8 = C8::encoding(item.8).unwrap();
    let b9 = C9::encoding(item.9).unwrap();
    let b10 = C10::encoding(item.10).unwrap();
    let b11 = C11::encoding(item.11).unwrap();
    let b12 = C12::encoding(item.12).unwrap();
    let b13 = C13::encoding(item.13).unwrap();
    let p1 = b0;
    let p2 = p1 + b1;
    let p3 = p2 + b2;
    let p4 = p3 + b3;
    let p5 = p4 + b4;
    let p6 = p5 + b5;
    let p7 = p6 + b6;
    let p8 = p7 + b7;
    let p9 = p8 + b8;
    let p10 = p9 + b9;
    let p11 = p10 + b10;
    let p12 = p11 + b11;
    let p13 = p12 + b12;
    let p14 = p13 + b13;
    assert(ComposeCodec::<(C0, C1, C2, C3, C4, C5, C6, C7, C8, C9, C10, C11, C12, C13)>::encoding(item) == Some(p14));
    assert forall|rest: Seq<u8>|
        #[trigger] ComposeCodec::<(C0, C1, C2, C3, C4, C5, C6, C7, C8, C9, C10, C11, C12, C13)>::decoding(p14 + rest) == (Some((m0, m1, m2, m3, m4, m5, m6, m7, m8, m9, m10, m11, m12, m13)), p14.len()) by {
        let t14 = rest;
        let t13 = b13 + t14;
        lemma_concat_assoc(p13, b13, t14);
        let t12 = b12 + t13;
        lemma_concat_assoc(p12, b12, t13);
        let t11 = b11 + t12;
        lemma_concat_assoc(p11, b11, t12);
        let t10 = b10 + t11;
        lemma_concat_assoc(p10, b10, t11);
        let t9 = b9 + t10;
        lemma_concat_assoc(p9, b9, t10);
        let t8 = b8 + t9;
        lemma_concat_assoc(p8, b8, t9);
        let t7 = b7 + t8;
        lemma_concat_assoc(p7, b7, t8);
        let t6 = b6 + t7;
        lemma_concat_assoc(p6, b6, t7);
        let t5 = b5 + t6;
        lemma_concat_assoc(p5, b5, t6);
        let t4 = b4 + t5;
        lemma_concat_assoc(p4, b4, t5);
        let t3 = b3 + t4;
        lemma_concat_assoc(p3, b3, t4);
        let t2 = b2 + t3;
        lemma_concat_assoc(p2, b2, t3);
        let t1 = b1 + t2;
        lemma_concat_assoc(p1, b1, t2);
        lemma_skip_prefix(p1, t1);
        lemma_skip_prefix(p2, t2);
        lemma_skip_prefix(p3, t3);
        lemma_skip_prefix(p4, t4);
        lemma_skip_prefix(p5, t5);
        lemma_skip_prefix(p6, t6);
        lemma_skip_prefix(p7, t7);
        lemma_skip_prefix(p8, t8);
        lemma_skip_prefix(p9, t9);
        lemma_skip_prefix(p10, t10);
        lemma_skip_prefix(p11, t11);
        lemma_skip_prefix(p12, t12);
        lemma_skip_prefix(p13, t13);
        assert(C0::decoding(b0 + t1) == (Some(m0), b0.len()));
        assert(C1::decoding(b1 + t2) == (Some(m1), b1.len()));
        assert(C2::decoding(b2 + t3) == (Some(m2), b2.len()));
        assert(C3::decoding(b3 + t4) == (Some(m3), b3.len()));
        assert(C4::decoding(b4 + t5) == (Some(m4), b4.len()));
        assert(C5::decoding(b5 + t6) == (Some(m5), b5.len()));
        assert(C6::decoding(b6 + t7) == (Some(m6), b6.len()));
        assert(C7::decoding(b7 + t8) == (Some(m7), b7.len()));
        assert(C8::decoding(b8 + t9) == (Some(m8), b8.len()));
        assert(C9::decoding(b9 + t10) == (Some(m9), b9.len()));
        assert(C10::decoding(b10 + t11) == (Some(m10), b10.len()));
        assert(C11::decoding(b11 + t12) == (Some(m11), b11.len()));
        assert(C12::decoding(b12 + t13) == (Some(m12), b12.len()));
        assert(C13::decoding(b13 + t14) == (Some(m13), b13.len()));
    }
}

/// Why a composition of 15 codecs failed: the variant names the codec that failed.
#[derive(Debug)]
pub enum ComposeCodecError15<C0, C1, C2, C3, C4, C5, C6, C7, C8, C9, C10, C11, C12, C13, C14> {
    /// The codec in position 0 failed.
    C0(C0),
    /// The codec in position 1 failed.
    C1(C1),
    /// The codec in position 2 failed.
    C2(C2),
    /// The codec in position 3 failed.
    C3(C3),
    /// The codec in position 4 failed.
    C4(C4),
    /// The codec in position 5 failed.
    C5(C5),
    /// The codec in position 6 failed.
    C6(C6),
    /// The codec in position 7 failed.
    C7(C7),
    /// The codec in position 8 failed.
    C8(C8),
    /// The codec in position 9 failed.
    C9(C9),
    /// The codec in position 10 failed.
    C10(C10),
    /// The codec in position 11 failed.
    C11(C11),
    /// The codec in position 12 failed.
    C12(C12),
    /// The codec in position 13 failed.
    C13(C13),
    /// The codec in position 14 failed.
    C14(C14),
}

impl<'a, C0: Encode<'a>, C1: Encode<'a>, C2: Encode<'a>, C3: Encode<'a>, C4: Encode<'a>, C5: Encode<'a>, C6: Encode<'a>, C7: Encode<'a>, C8: Encode<'a>, C9: Encode<'a>, C10: Encode<'a>, C11: Encode<'a>, C12: Encode<'a>, C13: Encode<'a>, C14: Encode<'a>> Encode<'a> for ComposeCodec<(C0, C1, C2, C3, C4, C5, C6, C7, C8, C9, C10, C11, C12, C13, C14)> {
    type Item = (&'a C0::Item, &'a C1::Item, &'a C2::Item, &'a C3::Item, &'a C4::Item, &'a C5::Item, &'a C6::Item, &'a C7::Item, &'a C8::Item, &'a C9::Item, &'a C10::Item, &'a C11::Item, &'a C12::Item, &'a C13::Item, &'a C14::Item);
    type Error = ComposeCodecError15<C0::Error, C1::Error, C2::Error, C3::Error, C4::Error, C5::Error, C6::Error, C7::Error, C8::Error, C9::Error, C10::Error, C11::Error, C12::Error, C13::Error, C14::Error>;

    open spec fn encoding(item: &Self::Item) -> Option<Seq<u8>> {
        match C0::encoding(item.0) {
            None => None,
            Some(b0) => {
                match C1::encoding(item.1) {
                    None => None,
                    Some(b1) => {
                        match C2::encoding(item.2) {
                            None => None,
                            Some(b2) => {
                                match C3::encoding(item.3) {
                                    None => None,
                                    Some(b3) => {
                                        match C4::encoding(item.4) {
                                            None => None,
                                            Some(b4) => {
                                                match C5::encoding(item.5) {
                                                    None => None,
                                                    Some(b5) => {
                                                        match C6::encoding(item.6) {
                                                            None => None,
                                                            Some(b6) => {
                                                                match C7::encoding(item.7) {
                                                                    None => None,
                                                                    Some(b7) => {
                                                                        match C8::encoding(item.8) {
                                                                            None => None,
                                                                            Some(b8) => {
                                                                                match C9::encoding(item.9) {
                                                                                    None => None,
                                                                                    Some(b9) => {
                                                                                        match C10::encoding(item.10) {
                                                                                            None => None,
                                                                                            Some(b10) => {
                                                                                                match C11::encoding(item.11) {
                                                                                                    None => None,
                                                                                                    Some(b11) => {
                                                                                                        match C12::encoding(item.12) {
                                                                                                            None => None,
                                                                                                            Some(b12) => {
                                                                                                                match C13::encoding(item.13) {
                                                                                                                    None => None,
                                                                                                                    Some(b13) => {
                                                                                                                        match C14::encoding(item.14) {
                                                                                                                            None => None,
                                                                                                                            Some(b14) => Some(b0 + b1 + b2 + b3 + b4 + b5 + b6 + b7 + b8 + b9 + b10 + b11 + b12 + b13 + b14),
                                                                                                                        }
                                                                                                                    },
                                                                                                                }
                                                                                                            },
                                                                                                        }
                                                                                                    },
                                                                                                }
                                                                                            },
                                                                                        }
                                                                                    },
                                                                                }
                                                                            },
                                                                        }
                                                                    },
                                                                }
                                                            },
                                                        }
                                                    },
                                                }
                                            },
                                        }
                                    },
                                }
                            },
                        }
                    },
                }
            },
        }
    }

    fn encode(into: EncodingVec<Fresh>, item: &Self::Item) -> (r: Result<EncodingVec<Fresh>, Self::Error>)
        ensures
            r matches Err(ComposeCodecError15::C0(_)) ==> C0::encoding(item.0) is None,
            r matches Err(ComposeCodecError15::C1(_)) ==> C0::encoding(item.0) is Some && C1::encoding(item.1) is None,
            r matches Err(ComposeCodecError15::C2(_)) ==> C0::encoding(item.0) is Some && C1::encoding(item.1) is Some && C2::encoding(item.2) is None,
            r matches Err(ComposeCodecError15::C3(_)) ==> C0::encoding(item.0) is Some && C1::encoding(item.1) is Some && C2::encoding(item.2) is Some && C3::encoding(item.3) is None,
            r matches Err(ComposeCodecError15::C4(_)) ==> C0::encoding(item.0) is Some && C1::encoding(item.1) is Some && C2::encoding(item.2) is Some && C3::encoding(item.3) is Some && C4::encoding(item.4) is None,
            r matches Err(ComposeCodecError15::C5(_)) ==> C0::encoding(item.0) is Some && C1::encoding(item.1) is Some && C2::encoding(item.2) is Some && C3::encoding(item.3) is Some && C4::encoding(item.4) is Some && C5::encoding(item.5) is None,
            r matches Err(ComposeCodecError15::C6(_)) ==> C0::encoding(item.0) is Some && C1::encoding(item.1) is Some && C2::encoding(item.2) is Some && C3::encoding(item.3) is Some && C4::encoding(item.4) is Some && C5::encoding(item.5) is Some && C6::encoding(item.6) is None,
            r matches Err(ComposeCodecError15::C7(_)) ==> C0::encoding(item.0) is Some && C1::encoding(item.1) is Some && C2::encoding(item.2) is Some && C3::encoding(item.3) is Some && C4::encoding(item.4) is Some && C5::encoding(item.5) is Some && C6::encoding(item.6) is Some && C7::encoding(item.7) is None,
            r matches Err(ComposeCodecError15::C8(_)) ==> C0::encoding(item.0) is Some && C1::encoding(item.1) is Some && C2::encoding(item.2) is Some && C3::encoding(item.3) is Some && C4::encoding(item.4) is Some && C5::encoding(item.5) is Some && C6::encoding(item.6) is Some && C7::encoding(item.7) is Some && C8::encoding(item.8) is None,
            r matches Err(ComposeCodecError15::C9(_)) ==> C0::encoding(item.0) is Some && C1::encoding(item.1) is Some && C2::encoding(item.2) is Some && C3::encoding(item.3) is Some && C4::encoding(item.4) is Some && C5::encoding(item.5) is Some && C6::encoding(item.6) is Some && C7::encoding(item.7) is Some && C8::encoding(item.8) is Some && C9::encoding(item.9) is None,
            r matches Err(ComposeCodecError15::C10(_)) ==> C0::encoding(item.0) is Some && C1::encoding(item.1) is Some && C2::encoding(item.2) is Some && C3::encoding(item.3) is Some && C4::encoding(item.4) is Some && C5::encoding(item.5) is Some && C6::encoding(item.6) is Some && C7::encoding(item.7) is Some && C8::encoding(item.8) is Some && C9::encoding(item.9) is Some && C10::encoding(item.10) is None,
            r matches Err(ComposeCodecError15::C11(_)) ==> C0::encoding(item.0) is Some && C1::encoding(item.1) is Some && C2::encoding(item.2) is Some && C3::encoding(item.3) is Some && C4::encoding(item.4) is Some && C5::encoding(item.5) is Some && C6::encoding(item.6) is Some && C7::encoding(item.7) is Some && C8::encoding(item.8) is Some && C9::encoding(item.9) is Some && C10::encoding(item.10) is Some && C11::encoding(item.11) is None,
            r matches Err(ComposeCodecError15::C12(_)) ==> C0::encoding(item.0) is Some && C1::encoding(item.1) is Some && C2::encoding(item.2) is Some && C3::encoding(item.3) is Some && C4::encoding(item.4) is Some && C5::encoding(item.5) is Some && C6::encoding(item.6) is Some && C7::encoding(item.7) is Some && C8::encoding(item.8) is Some && C9::encoding(item.9) is Some && C10::encoding(item.10) is Some && C11::encoding(item.11) is Some && C12::encoding(item.12) is None,
            r matches Err(ComposeCodecError15::C13(_)) ==> C0::encoding(item.0) is Some && C1::encoding(item.1) is Some && C2::encoding(item.2) is Some && C3::encoding(item.3) is Some && C4::encoding(item.4) is Some && C5::encoding(item.5) is Some && C6::encoding(item.6) is Some && C7::encoding(item.7) is Some && C8::encoding(item.8) is Some && C9::encoding(item.9) is Some && C10::encoding(item.10) is Some && C11::encoding(item.11) is Some && C12::encoding(item.12) is Some && C13::encoding(item.13) is None,
            r matches Err(ComposeCodecError15::C14(_)) ==> C0::encoding(item.0) is Some && C1::encoding(item.1) is Some && C2::encoding(item.2) is Some && C3::encoding(item.3) is Some && C4::encoding(item.4) is Some && C5::encoding(item.5) is Some && C6::encoding(item.6) is Some && C7::encoding(item.7) is Some && C8::encoding(item.8) is Some && C9::encoding(item.9) is Some && C10::encoding(item.10) is Some && C11::encoding(item.11) is Some && C12::encoding(item.12) is Some && C13::encoding(item.13) is Some && C14::encoding(item.14) is None,
    {
        let ghost start = into.bytes();
        let ret = match C0::encode(into, item.0) {
            Ok(v) => v,
            Err(e) => return Err(ComposeCodecError15::C0(e)),
        };
        let ghost acc0 = C0::encoding(item.0).unwrap();
        let ret = match C1::encode(ret, item.1) {
            Ok(v) => v,
            Err(e) => return Err(ComposeCodecError15::C1(e)),
        };
        let ghost acc1 = acc0 + C1::encoding(item.1).unwrap();
        proof {
            lemma_concat_assoc(start, acc0, C1::encoding(item.1).unwrap());
        }
        let ret = match C2::encode(ret, item.2) {
            Ok(v) => v,
            Err(e) => return Err(ComposeCodecError15::C2(e)),
        };
        let ghost acc2 = acc1 + C2::encoding(item.2).unwrap();
        proof {
            lemma_concat_assoc(start, acc1, C2::encoding(item.2).unwrap());
        }
        let ret = match C3::encode(ret, item.3) {
            Ok(v) => v,
            Err(e) => return Err(ComposeCodecError15::C3(e)),
        };
        let ghost acc3 = acc2 + C3::encoding(item.3).unwrap();
        proof {
            lemma_concat_assoc(start, acc2, C3::encoding(item.3).unwrap());
        }
        let ret = match C4::encode(ret, item.4) {
            Ok(v) => v,
            Err(e) => return Err(ComposeCodecError15::C4(e)),
        };
        let ghost acc4 = acc3 + C4::encoding(item.4).unwrap();
        proof {
            lemma_concat_assoc(start, acc3, C4::encoding(item.4).unwrap());
        }
        let ret = match C5::encode(ret, item.5) {
            Ok(v) => v,
            Err(e) => return Err(ComposeCodecError15::C5(e)),
        };
        let ghost acc5 = acc4 + C5::encoding(item.5).unwrap();
        proof {
            lemma_concat_assoc(start, acc4, C5::encoding(item.5).unwrap());
        }
        let ret = match C6::encode(ret, item.6) {
            Ok(v) => v,
            Err(e) => return Err(ComposeCodecError15::C6(e)),
        };
        let ghost acc6 = acc5 + C6::encoding(item.6).unwrap();
        proof {
            lemma_concat_assoc(start, acc5, C6::encoding(item.6).unwrap());
        }
        let ret = match C7::encode(ret, item.7) {
            Ok(v) => v,
            Err(e) => return Err(ComposeCodecError15::C7(e)),
        };
        let ghost acc7 = acc6 + C7::encoding(item.7).unwrap();
        proof {
            lemma_concat_assoc(start, acc6, C7::encoding(item.7).unwrap());
        }
        let ret = match C8::encode(ret, item.8) {
            Ok(v) => v,
            Err(e) => return Err(ComposeCodecError15::C8(e)),
        };
        let ghost acc8 = acc7 + C8::encoding(item.8).unwrap();
        proof {
            lemma_concat_assoc(start, acc7, C8::encoding(item.8).unwrap());
        }
        let ret = match C9::encode(ret, item.9) {
            Ok(v) => v,
            Err(e) => return Err(ComposeCodecError15::C9(e)),
        };
        let ghost acc9 = acc8 + C9::encoding(item.9).unwrap();
        proof {
            lemma_concat_assoc(start, acc8, C9::encoding(item.9).unwrap());
        }
        let ret = match C10::encode(ret, item.10) {
            Ok(v) => v,
            Err(e) => return Err(ComposeCodecError15::C10(e)),
        };
        let ghost acc10 = acc9 + C10::encoding(item.10).unwrap();
        proof {
            lemma_concat_assoc(start, acc9, C10::encoding(item.10).unwrap());
        }
        let ret = match C11::encode(ret, item.11) {
            Ok(v) => v,
            Err(e) => return Err(ComposeCodecError15::C11(e)),
        };
        let ghost acc11 = acc10 + C11::encoding(item.11).unwrap();
        proof {
            lemma_concat_assoc(start, acc10, C11::encoding(item.11).unwrap());
        }
        let ret = match C12::encode(ret, item.12) {
            Ok(v) => v,
            Err(e) => return Err(ComposeCodecError15::C12(e)),
        };
        let ghost acc12 = acc11 + C12::encoding(item.12).unwrap();
        proof {
            lemma_concat_assoc(start, acc11, C12::encoding(item.12).unwrap());
        }
        let ret = match C13::encode(ret, item.13) {
            Ok(v) => v,
            Err(e) => return Err(ComposeCodecError15::C13(e)),
        };
        let ghost acc13 = acc12 + C13::encoding(item.13).unwrap();
        proof {
            lemma_concat_assoc(start, acc12, C13::encoding(item.13).unwrap());
        }
        let ret = match C14::encode(ret, item.14) {
            Ok(v) => v,
            Err(e) => return Err(ComposeCodecError15::C14(e)),
        };
        proof {
            lemma_concat_assoc(start, acc13, C14::encoding(item.14).unwrap());
        }
        Ok(ret)
    }
}

impl<C0: Decode, C1: Decode, C2: Decode, C3: Decode, C4: Decode, C5: Decode, C6: Decode, C7: Decode, C8: Decode, C9: Decode, C10: Decode, C11: Decode, C12: Decode, C13: Decode, C14: Decode> Decode for ComposeCodec<(C0, C1, C2, C3, C4, C5, C6, C7, C8, C9, C10, C11, C12, C13, C14)> {
    type Item = (C0::Item, C1::Item, C2::Item, C3::Item, C4::Item, C5::Item, C6::Item, C7::Item, C8::Item, C9::Item, C10::Item, C11::Item, C12::Item, C13::Item, C14::Item);
    type Error = ComposeCodecError15<C0::Error, C1::Error, C2::Error, C3::Error, C4::Error, C5::Error, C6::Error, C7::Error, C8::Error, C9::Error, C10::Error, C11::Error, C12::Error, C13::Error, C14::Error>;
    type Model = (C0::Model, C1::Model, C2::Model, C3::Model, C4::Model, C5::Model, C6::Model, C7::Model, C8::Model, C9::Model, C10::Model, C11::Model, C12::Model, C13::Model, C14::Model);

    open spec fn model(item: &Self::Item) -> Self::Model {
        (C0::model(&item.0), C1::model(&item.1), C2::model(&item.2), C3::model(&item.3), C4::model(&item.4), C5::model(&item.5), C6::model(&item.6), C7::model(&item.7), C8::model(&item.8), C9::model(&item.9), C10::model(&item.10), C11::model(&item.11), C12::model(&item.12), C13::model(&item.13), C14::model(&item.14))
    }

    open spec fn decoding(input: Seq<u8>) -> (Option<Self::Model>, nat) {
        let d0 = C0::decoding(input);
        let o1 = d0.1;
        match d0.0 {
            None => (None, o1),
            Some(m0) => {
                let d1 = C1::decoding(input.skip(o1 as int));
                let o2 = o1 + d1.1;
                match d1.0 {
                    None => (None, o2),
                    Some(m1) => {
                        let d2 = C2::decoding(input.skip(o2 as int));
                        let o3 = o2 + d2.1;
                        match d2.0 {
                            None => (None, o3),
                            Some(m2) => {
                                let d3 = C3::decoding(input.skip(o3 as int));
                                let o4 = o3 + d3.1;
                                match d3.0 {
                                    None => (None, o4),
                                    Some(m3) => {
                                        let d4 = C4::decoding(input.skip(o4 as int));
                                        let o5 = o4 + d4.1;
                                        match d4.0 {
                                            None => (None, o5),
                                            Some(m4) => {
                                                let d5 = C5::decoding(input.skip(o5 as int));
                                                let o6 = o5 + d5.1;
                                                match d5.0 {
                                                    None => (None, o6),
                                                    Some(m5) => {
                                                        let d6 = C6::decoding(input.skip(o6 as int));
                                                        let o7 = o6 + d6.1;
                                                        match d6.0 {
                                                            None => (None, o7),
                                                            Some(m6) => {
                                                                let d7 = C7::decoding(input.skip(o7 as int));
                                                                let o8 = o7 + d7.1;
                                                                match d7.0 {
                                                                    None => (None, o8),
                                                                    Some(m7) => {
                                                                        let d8 = C8::decoding(input.skip(o8 as int));
                                                                        let o9 = o8 + d8.1;
                                                                        match d8.0 {
                                                                            None => (None, o9),
                                                                            Some(m8) => {
                                                                                let d9 = C9::decoding(input.skip(o9 as int));
                                                                                let o10 = o9 + d9.1;
                                                                                match d9.0 {
                                                                                    None => (None, o10),
                                                                                    Some(m9) => {
                                                                                        let d10 = C10::decoding(input.skip(o10 as int));
                                                                                        let o11 = o10 + d10.1;
                                                                                        match d10.0 {
                                                                                            None => (None, o11),
                                                                                            Some(m10) => {
                                                                                                let d11 = C11::decoding(input.skip(o11 as int));
                                                                                                let o12 = o11 + d11.1;
                                                                                                match d11.0 {
                                                                                                    None => (None, o12),
                                                                                                    Some(m11) => {
                                                                                                        let d12 = C12::decoding(input.skip(o12 as int));
                                                                                                        let o13 = o12 + d12.1;
                                                                                                        match d12.0 {
                                                                                                            None => (None, o13),
                                                                                                            Some(m12) => {
                                                                                                                let d13 = C13::decoding(input.skip(o13 as int));
                                                                                                                let o14 = o13 + d13.1;
                                                                                                                match d13.0 {
                                                                                                                    None => (None, o14),
                                                                                                                    Some(m13) => {
                                                                                                                        let d14 = C14::decoding(input.skip(o14 as int));
                                                                                                                        let o15 = o14 + d14.1;
                                                                                                                        match d14.0 {
                                                                                                                            None => (None, o15),
                                                                                                                            Some(m14) => (Some((m0, m1, m2, m3, m4, m5, m6, m7, m8, m9, m10, m11, m12, m13, m14)), o15),
                                                                                                                        }
                                                                                                                    },
                                                                                                                }
                                                                                                            },
                                                                                                        }
                                                                                                    },
                                                                                                }
                                                                                            },
                                                                                        }
                                                                                    },
                                                                                }
                                                                            },
                                                                        }
                                                                    },
                                                                }
                                                            },
                                                        }
                                                    },
                                                }
                                            },
                                        }
                                    },
                                }
                            },
                        }
                    },
                }
            },
        }
    }

    fn decode(bytes: &mut DecodingVec) -> (r: Result<Self::Item, Self::Error>)
        ensures
            ({
                let input = old(bytes)@;
                let d0 = C0::decoding(input);
                let o1 = d0.1;
                let d1 = C1::decoding(input.skip(o1 as int));
                let o2 = o1 + d1.1;
                let d2 = C2::decoding(input.skip(o2 as int));
                let o3 = o2 + d2.1;
                let d3 = C3::decoding(input.skip(o3 as int));
                let o4 = o3 + d3.1;
                let d4 = C4::decoding(input.skip(o4 as int));
                let o5 = o4 + d4.1;
                let d5 = C5::decoding(input.skip(o5 as int));
                let o6 = o5 + d5.1;
                let d6 = C6::decoding(input.skip(o6 as int));
                let o7 = o6 + d6.1;
                let d7 = C7::decoding(input.skip(o7 as int));
                let o8 = o7 + d7.1;
                let d8 = C8::decoding(input.skip(o8 as int));
                let o9 = o8 + d8.1;
                let d9 = C9::decoding(input.skip(o9 as int));
                let o10 = o9 + d9.1;
                let d10 = C10::decoding(input.skip(o10 as int));
                let o11 = o10 + d10.1;
                let d11 = C11::decoding(input.skip(o11 as int));
                let o12 = o11 + d11.1;
                let d12 = C12::decoding(input.skip(o12 as int));
                let o13 = o12 + d12.1;
                let d13 = C13::decoding(input.skip(o13 as int));
                let o14 = o13 + d13.1;
                let d14 = C14::decoding(input.skip(o14 as int));
                let o15 = o14 + d14.1;
                &&& (r matches Err(ComposeCodecError15::C0(_)) <==> d0.0 is None)
                &&& (r matches Err(ComposeCodecError15::C1(_)) <==> d0.0 is Some && d1.0 is None)
                &&& (r matches Err(ComposeCodecError15::C2(_)) <==> d0.0 is Some && d1.0 is Some && d2.0 is None)
                &&& (r matches Err(ComposeCodecError15::C3(_)) <==> d0.0 is Some && d1.0 is Some && d2.0 is Some && d3.0 is None)
                &&& (r matches Err(ComposeCodecError15::C4(_)) <==> d0.0 is Some && d1.0 is Some && d2.0 is Some && d3.0 is Some && d4.0 is None)
                &&& (r matches Err(ComposeCodecError15::C5(_)) <==> d0.0 is Some && d1.0 is Some && d2.0 is Some && d3.0 is Some && d4.0 is Some && d5.0 is None)
                &&& (r matches Err(ComposeCodecError15::C6(_)) <==> d0.0 is Some && d1.0 is Some && d2.0 is Some && d3.0 is Some && d4.0 is Some && d5.0 is Some && d6.0 is None)
                &&& (r matches Err(ComposeCodecError15::C7(_)) <==> d0.0 is Some && d1.0 is Some && d2.0 is Some && d3.0 is Some && d4.0 is Some && d5.0 is Some && d6.0 is Some && d7.0 is None)
                &&& (r matches Err(ComposeCodecError15::C8(_)) <==> d0.0 is Some && d1.0 is Some && d2.0 is Some && d3.0 is Some && d4.0 is Some && d5.0 is Some && d6.0 is Some && d7.0 is Some && d8.0 is None)
                &&& (r matches Err(ComposeCodecError15::C9(_)) <==> d0.0 is Some && d1.0 is Some && d2.0 is Some && d3.0 is Some && d4.0 is Some && d5.0 is Some && d6.0 is Some && d7.0 is Some && d8.0 is Some && d9.0 is None)
                &&& (r matches Err(ComposeCodecError15::C10(_)) <==> d0.0 is Some && d1.0 is Some && d2.0 is Some && d3.0 is Some && d4.0 is Some && d5.0 is Some && d6.0 is Some && d7.0 is Some && d8.0 is Some && d9.0 is Some && d10.0 is None)
                &&& (r matches Err(ComposeCodecError15::C11(_)) <==> d0.0 is Some && d1.0 is Some && d2.0 is Some && d3.0 is Some && d4.0 is Some && d5.0 is Some && d6.0 is Some && d7.0 is Some && d8.0 is Some && d9.0 is Some && d10.0 is Some && d11.0 is None)
                &&& (r matches Err(ComposeCodecError15::C12(_)) <==> d0.0 is Some && d1.0 is Some && d2.0 is Some && d3.0 is Some && d4.0 is Some && d5.0 is Some && d6.0 is Some && d7.0 is Some && d8.0 is Some && d9.0 is Some && d10.0 is Some && d11.0 is Some && d12.0 is None)
                &&& (r matches Err(ComposeCodecError15::C13(_)) <==> d0.0 is Some && d1.0 is Some && d2.0 is Some && d3.0 is Some && d4.0 is Some && d5.0 is Some && d6.0 is Some && d7.0 is Some && d8.0 is Some && d9.0 is Some && d10.0 is Some && d11.0 is Some && d12.0 is Some && d13.0 is None)
                &&& (r matches Err(ComposeCodecError15::C14(_)) <==> d0.0 is Some && d1.0 is Some && d2.0 is Some && d3.0 is Some && d4.0 is Some && d5.0 is Some && d6.0 is Some && d7.0 is Some && d8.0 is Some && d9.0 is Some && d10.0 is Some && d11.0 is Some && d12.0 is Some && d13.0 is Some && d14.0 is None)
            }),
    {
        let ghost input = bytes@;
        let ghost o1 = C0::decoding(input).1;
        let r0 = C0::decode(bytes);
        assert(bytes@ =~= input.skip(o1 as int));
        let v0 = match r0 {
            Ok(v) => v,
            Err(e) => return Err(ComposeCodecError15::C0(e)),
        };
        let ghost o2 = o1 + C1::decoding(input.skip(o1 as int)).1;
        let r1 = C1::decode(bytes);
        assert(bytes@ =~= input.skip(o2 as int));
        let v1 = match r1 {
            Ok(v) => v,
            Err(e) => return Err(ComposeCodecError15::C1(e)),
        };
        let ghost o3 = o2 + C2::decoding(input.skip(o2 as int)).1;
        let r2 = C2::decode(bytes);
        assert(bytes@ =~= input.skip(o3 as int));
        let v2 = match r2 {
            Ok(v) => v,
            Err(e) => return Err(ComposeCodecError15::C2(e)),
        };
        let ghost o4 = o3 + C3::decoding(input.skip(o3 as int)).1;
        let r3 = C3::decode(bytes);
        assert(bytes@ =~= input.skip(o4 as int));
        let v3 = match r3 {
            Ok(v) => v,
            Err(e) => return Err(ComposeCodecError15::C3(e)),
        };
        let ghost o5 = o4 + C4::decoding(input.skip(o4 as int)).1;
        let r4 = C4::decode(bytes);
        assert(bytes@ =~= input.skip(o5 as int));
        let v4 = match r4 {
            Ok(v) => v,
            Err(e) => return Err(ComposeCodecError15::C4(e)),
        };
        let ghost o6 = o5 + C5::decoding(input.skip(o5 as int)).1;
        let r5 = C5::decode(bytes);
        assert(bytes@ =~= input.skip(o6 as int));
        let v5 = match r5 {
            Ok(v) => v,
            Err(e) => return Err(ComposeCodecError15::C5(e)),
        };
        let ghost o7 = o6 + C6::decoding(input.skip(o6 as int)).1;
        let r6 = C6::decode(bytes);
        assert(bytes@ =~= input.skip(o7 as int));
        let v6 = match r6 {
            Ok(v) => v,
            Err(e) => return Err(ComposeCodecError15::C6(e)),
        };
        let ghost o8 = o7 + C7::decoding(input.skip(o7 as int)).1;
        let r7 = C7::decode(bytes);
        assert(bytes@ =~= input.skip(o8 as int));
        let v7 = match r7 {
            Ok(v) => v,
            Err(e) => return Err(ComposeCodecError15::C7(e)),
        };
        let ghost o9 = o8 + C8::decoding(input.skip(o8 as int)).1;
        let r8 = C8::decode(bytes);
        assert(bytes@ =~= input.skip(o9 as int));
        let v8 = match r8 {
            Ok(v) => v,
            Err(e) => return Err(ComposeCodecError15::C8(e)),
        };
        let ghost o10 = o9 + C9::decoding(input.skip(o9 as int)).1;
        let r9 = C9::decode(bytes);
        assert(bytes@ =~= input.skip(o10 as int));
        let v9 = match r9 {
            Ok(v) => v,
            Err(e) => return Err(ComposeCodecError15::C9(e)),
        };
        let ghost o11 = o10 + C10::decoding(input.skip(o10 as int)).1;
        let r10 = C10::decode(bytes);
        assert(bytes@ =~= input.skip(o11 as int));
        let v10 = match r10 {
            Ok(v) => v,
            Err(e) => return Err(ComposeCodecError15::C10(e)),
        };
        let ghost o12 = o11 + C11::decoding(input.skip(o11 as int)).1;
        let r11 = C11::decode(bytes);
        assert(bytes@ =~= input.skip(o12 as int));
        let v11 = match r11 {
            Ok(v) => v,
            Err(e) => return Err(ComposeCodecError15::C11(e)),
        };
        let ghost o13 = o12 + C12::decoding(input.skip(o12 as int)).1;
        let r12 = C12::decode(bytes);
        assert(bytes@ =~= input.skip(o13 as int));
        let v12 = match r12 {
            Ok(v) => v,
            Err(e) => return Err(ComposeCodecError15::C12(e)),
        };
        let ghost o14 = o13 + C13::decoding(input.skip(o13 as int)).1;
        let r13 = C13::decode(bytes);
        assert(bytes@ =~= input.skip(o14 as int));
        let v13 = match r13 {
            Ok(v) => v,
            Err(e) => return Err(ComposeCodecError15::C13(e)),
        };
        let ghost o15 = o14 + C14::decoding(input.skip(o14 as int)).1;
        let r14 = C14::decode(bytes);
        assert(bytes@ =~= input.skip(o15 as int));
        let v14 = match r14 {
            Ok(v) => v,
            Err(e) => return Err(ComposeCodecError15::C14(e)),
        };
        Ok((v0, v1, v2, v3, v4, v5, v6, v7, v8, v9, v10, v11, v12, v13, v14))
    }
}

/// When every codec but the last recovers its item whatever follows it, and the last one
/// recovers its item from its own encoding, the composition recovers the whole tuple from
/// its encoding.
pub proof fn lemma_compose15_roundtrip<'a, C0: Encode<'a> + Decode, C1: Encode<'a> + Decode, C2: Encode<'a> + Decode, C3: Encode<'a> + Decode, C4: Encode<'a> + Decode, C5: Encode<'a> + Decode, C6: Encode<'a> + Decode, C7: Encode<'a> + Decode, C8: Encode<'a> + Decode, C9: Encode<'a> + Decode, C10: Encode<'a> + Decode, C11: Encode<'a> + Decode, C12: Encode<'a> + Decode, C13: Encode<'a> + Decode, C14: Encode<'a> + Decode>(
    item: &<ComposeCodec<(C0, C1, C2, C3, C4, C5, C6, C7, C8, C9, C10, C11, C12, C13, C14)> as Encode<'a>>::Item,
    m0: <C0 as Decode>::Model, m1: <C1 as Decode>::Model, m2: <C2 as Decode>::Model, m3: <C3 as Decode>::Model, m4: <C4 as Decode>::Model, m5: <C5 as Decode>::Model, m6: <C6 as Decode>::Model, m7: <C7 as Decode>::Model, m8: <C8 as Decode>::Model, m9: <C9 as Decode>::Model, m10: <C10 as Decode>::Model, m11: <C11 as Decode>::Model, m12: <C12 as Decode>::Model, m13: <C13 as Decode>::Model, m14: <C14 as Decode>::Model,
)
    requires
        roundtrips_before_anything::<C0>(item.0, m0),
        roundtrips_before_anything::<C1>(item.1, m1),
        roundtrips_before_anything::<C2>(item.2, m2),
        roundtrips_before_anything::<C3>(item.3, m3),
        roundtrips_before_anything::<C4>(item.4, m4),
        roundtrips_before_anything::<C5>(item.5, m5),
        roundtrips_before_anything::<C6>(item.6, m6),
        roundtrips_before_anything::<C7>(item.7, m7),
        roundtrips_before_anything::<C8>(item.8, m8),
        roundtrips_before_anything::<C9>(item.9, m9),
        roundtrips_before_anything::<C10>(item.10, m10),
        roundtrips_before_anything::<C11>(item.11, m11),
        roundtrips_before_anything::<C12>(item.12, m12),
        roundtrips_before_anything::<C13>(item.13, m13),
        roundtrips_alone::<C14>(item.14, m14),
    ensures
        roundtrips_alone::<ComposeCodec<(C0, C1, C2, C3, C4, C5, C6, C7, C8, C9, C10, C11, C12, C13, C14)>>(item, (m0, m1, m2, m3, m4, m5, m6, m7, m8, m9, m10, m11, m12, m13, m14)),
{
    let b0 = C0::encoding(item.0).unwrap();
    let b1 = C1::encoding(item.1).unwrap();
    let b2 = C2::encoding(item.2).unwrap();
    let b3 = C3::encoding(item.3).unwrap();
    let b4 = C4::encoding(item.4).unwrap();
    let b5 = C5::encoding(item.5).unwrap();
    let b6 = C6::encoding(item.6).unwrap();
    let b7 = C7::encoding(item.7).unwrap();
    let b8 = C8::encoding(item.8).unwrap();
    let b9 = C9::encoding(item.9).unwrap();
    let b10 = C10::encoding(item.10).unwrap();
    let b11 = C11::encoding(item.11).unwrap();
    let b12 = C12::encoding(item.12).unwrap();
    let b13 = C13::encoding(item.13).unwrap();
    let b14 = C14::encoding(item.14).unwrap();
    let p1 = b0;
    let p2 = p1 + b1;
    let p3 = p2 + b2;
    let p4 = p3 + b3;
    let p5 = p4 + b4;
    let p6 = p5 + b5;
    let p7 = p6 + b6;
    let p8 = p7 + b7;
    let p9 = p8 + b8;
    let p10 = p9 + b9;
    let p11 = p10 + b10;
    let p12 = p11 + b11;
    let p13 = p12 + b12;
    let p14 = p13 + b13;
    let p15 = p14 + b14;
    assert(ComposeCodec::<(C0, C1, C2, C3, C4, C5, C6, C7, C8, C9, C10, C11, C12, C13, C14)>::encoding(item) == Some(p15));
    let t14 = b14;
    let t13 = b13 + t14;
    lemma_concat_assoc(p13, b13, t14);
    let t12 = b12 + t13;
    lemma_concat_assoc(p12, b12, t13);
    let t11 = b11 + t12;
    lemma_concat_assoc(p11, b11, t12);
    let t10 = b10 + t11;
    lemma_concat_assoc(p10, b10, t11);
    let t9 = b9 + t10;
    lemma_concat_assoc(p9, b9, t10);
    let t8 = b8 + t9;
    lemma_concat_assoc(p8, b8, t9);
    let t7 = b7 + t8;
    lemma_concat_assoc(p7, b7, t8);
    let t6 = b6 + t7;
    lemma_concat_assoc(p6, b6, t7);
    let t5 = b5 + t6;
    lemma_concat_assoc(p5, b5, t6);
    let t4 = b4 + t5;
    lemma_concat_assoc(p4, b4, t5);
    let t3 = b3 + t4;
    lemma_concat_assoc(p3, b3, t4);
    let t2 = b2 + t3;
    lemma_concat_assoc(p2, b2, t3);
    let t1 = b1 + t2;
    lemma_concat_assoc(p1, b1, t2);
    lemma_skip_prefix(p1, t1);
    lemma_skip_prefix(p2, t2);
    lemma_skip_prefix(p3, t3);
    lemma_skip_prefix(p4, t4);
    lemma_skip_prefix(p5, t5);
    lemma_skip_prefix(p6, t6);
    lemma_skip_prefix(p7, t7);
    lemma_skip_prefix(p8, t8);
    lemma_skip_prefix(p9, t9);
    lemma_skip_prefix(p10, t10);
    lemma_skip_prefix(p11, t11);
    lemma_skip_prefix(p12, t12);
    lemma_skip_prefix(p13, t13);
    lemma_skip_prefix(p14, t14);
    assert(C0::decoding(b0 + t1) == (Some(m0), b0.len()));
    assert(C1::decoding(b1 + t2) == (Some(m1), b1.len()));
    assert(C2::decoding(b2 + t3) == (Some(m2), b2.len()));
    assert(C3::decoding(b3 + t4) == (Some(m3), b3.len()));
    assert(C4::decoding(b4 + t5) == (Some(m4), b4.len()));
    assert(C5::decoding(b5 + t6) == (Some(m5), b5.len()));
    assert(C6::decoding(b6 + t7) == (Some(m6), b6.len()));
    assert(C7::decoding(b7 + t8) == (Some(m7), b7.len()));
    assert(C8::decoding(b8 + t9) == (Some(m8), b8.len()));
    assert(C9::decoding(b9 + t10) == (Some(m9), b9.len()));
    assert(C10::decoding(b10 + t11) == (Some(m10), b10.len()));
    assert(C11::decoding(b11 + t12) == (Some(m11), b11.len()));
    assert(C12::decoding(b12 + t13) == (Some(m12), b12.len()));
    assert(C13::decoding(b13 + t14) == (Some(m13), b13.len()));
    assert(C14::decoding(b14) == (Some(m14), b14.len()));
}

/// When every codec recovers its item whatever follows it, so does the composition: it can
/// itself stand before another codec.
pub proof fn lemma_compose15_roundtrip_before_anything<'a, C0: Encode<'a> + Decode, C1: Encode<'a> + Decode, C2: Encode<'a> + Decode, C3: Encode<'a> + Decode, C4: Encode<'a> + Decode, C5: Encode<'a> + Decode, C6: Encode<'a> + Decode, C7: Encode<'a> + Decode, C8: Encode<'a> + Decode, C9: Encode<'a> + Decode, C10: Encode<'a> + Decode, C11: Encode<'a> + Decode, C12: Encode<'a> + Decode, C13: Encode<'a> + Decode, C14: Encode<'a> + Decode>(
    item: &<ComposeCodec<(C0, C1, C2, C3, C4, C5, C6, C7, C8, C9, C10, C11, C12, C13, C14)> as Encode<'a>>::Item,
    m0: <C0 as Decode>::Model, m1: <C1 as Decode>::Model, m2: <C2 as Decode>::Model, m3: <C3 as Decode>::Model, m4: <C4 as Decode>::Model, m5: <C5 as Decode>::Model, m6: <C6 as Decode>::Model, m7: <C7 as Decode>::Model, m8: <C8 as Decode>::Model, m9: <C9 as Decode>::Model, m10: <C10 as Decode>::Model, m11: <C11 as Decode>::Model, m12: <C12 as Decode>::Model, m13: <C13 as Decode>::Model, m14: <C14 as Decode>::Model,
)
    requires
        roundtrips_before_anything::<C0>(item.0, m0),
        roundtrips_before_anything::<C1>(item.1, m1),
        roundtrips_before_anything::<C2>(item.2, m2),
        roundtrips_before_anything::<C3>(item.3, m3),
        roundtrips_before_anything::<C4>(item.4, m4),
        roundtrips_before_anything::<C5>(item.5, m5),
        roundtrips_before_anything::<C6>(item.6, m6),
        roundtrips_before_anything::<C7>(item.7, m7),
        roundtrips_before_anything::<C8>(item.8, m8),
        roundtrips_before_anything::<C9>(item.9, m9),
        roundtrips_before_anything::<C10>(item.10, m10),
        roundtrips_before_anything::<C11>(item.11, m11),
        roundtrips_before_anything::<C12>(item.12, m12),
        roundtrips_before_anything::<C13>(item.13, m13),
        roundtrips_before_anything::<C14>(item.14, m14),
    ensures
        roundtrips_before_anything::<ComposeCodec<(C0, C1, C2, C3, C4, C5, C6, C7, C8, C9, C10, C11, C12, C13, C14)>>(item, (m0, m1, m2, m3, m4, m5, m6, m7, m8, m9, m10, m11, m12, m13, m14)),
{
    let b0 = C0::encoding(item.0).unwrap();
    let b1 = C1::encoding(item.1).unwrap();
    let b2 = C2::encoding(item.2).unwrap();
    let b3 = C3::encoding(item.3).unwrap();
    let b4 = C4::encoding(item.4).unwrap();
    let b5 = C5::encoding(item.5).unwrap();
    let b6 = C6::encoding(item.6).unwrap();
    let b7 = C7::encoding(item.7).unwrap();
    let b8 = C8::encoding(item.8).unwrap();
    let b9 = C9::encoding(item.9).unwrap();
    let b10 = C10::encoding(item.10).unwrap();
    let b11 = C11::encoding(item.11).unwrap();
    let b12 = C12::encoding(item.12).unwrap();
    let b13 = C13::encoding(item.13).unwrap();
    let b14 = C14::encoding(item.14).unwrap();
    let p1 = b0;
    let p2 = p1 + b1;
    let p3 = p2 + b2;
    let p4 = p3 + b3;
    let p5 = p4 + b4;
    let p6 = p5 + b5;
    let p7 = p6 + b6;
    let p8 = p7 + b7;
    let p9 = p8 + b8;
    let p10 = p9 + b9;
    let p11 = p10 + b10;
    let p12 = p11 + b11;
    let p13 = p12 + b12;
    let p14 = p13 + b13;
    let p15 = p14 + b14;
    assert(ComposeCodec::<(C0, C1, C2, C3, C4, C5, C6, C7, C8, C9, C10, C11, C12, C13, C14)>::encoding(item) == Some(p15));
    assert forall|rest: Seq<u8>|
        #[trigger] ComposeCodec::<(C0, C1, C2, C3, C4, C5, C6, C7, C8, C9, C10, C11, C12, C13, C14)>::decoding(p15 + rest) == (Some((m0, m1, m2, m3, m4, m5, m6, m7, m8, m9, m10, m11, m12, m13, m14)), p15.len()) by {
        let t15 = rest;
        let t14 = b14 + t15;
        lemma_concat_assoc(p14, b14, t15);
        let t13 = b13 + t14;
        lemma_concat_assoc(p13, b13, t14);
        let t12 = b12 + t13;
        lemma_concat_assoc(p12, b12, t13);
        let t11 = b11 + t12;
        lemma_concat_assoc(p11, b11, t12);
        let t10 = b10 + t11;
        lemma_concat_assoc(p10, b10, t11);
        let t9 = b9 + t10;
        lemma_concat_assoc(p9, b9, t10);
        let t8 = b8 + t9;
        lemma_concat_assoc(p8, b8, t9);
        let t7 = b7 + t8;
        lemma_concat_assoc(p7, b7, t8);
        let t6 = b6 + t7;
        lemma_concat_assoc(p6, b6, t7);
        let t5 = b5 + t6;
        lemma_concat_assoc(p5, b5, t6);
        let t4 = b4 + t5;
        lemma_concat_assoc(p4, b4, t5);
        let t3 = b3 + t4;
        lemma_concat_assoc(p3, b3, t4);
        let t2 = b2 + t3;
        lemma_concat_assoc(p2, b2, t3);
        let t1 = b1 + t2;
        lemma_concat_assoc(p1, b1, t2);
        lemma_skip_prefix(p1, t1);
        lemma_skip_prefix(p2, t2);
        lemma_skip_prefix(p3, t3);
        lemma_skip_prefix(p4, t4);
        lemma_skip_prefix(p5, t5);
        lemma_skip_prefix(p6, t6);
        lemma_skip_prefix(p7, t7);
        lemma_skip_prefix(p8, t8);
        lemma_skip_prefix(p9, t9);
        lemma_skip_prefix(p10, t10);
        lemma_skip_prefix(p11, t11);
        lemma_skip_prefix(p12, t12);
        lemma_skip_prefix(p13, t13);
        lemma_skip_prefix(p14, t14);
        assert(C0::decoding(b0 + t1) == (Some(m0), b0.len()));
        assert(C1::decoding(b1 + t2) == (Some(m1), b1.len()));
        assert(C2::decoding(b2 + t3) == (Some(m2), b2.len()));
        assert(C3::decoding(b3 + t4) == (Some(m3), b3.len()));
        assert(C4::decoding(b4 + t5) == (Some(m4), b4.len()));
        assert(C5::decoding(b5 + t6) == (Some(m5), b5.len()));
        assert(C6::decoding(b6 + t7) == (Some(m6), b6.len()));
        assert(C7::decoding(b7 + t8) == (Some(m7), b7.len()));
        assert(C8::decoding(b8 + t9) == (Some(m8), b8.len()));
        assert(C9::decoding(b9 + t10) == (Some(m9), b9.len()));
        assert(C10::decoding(b10 + t11) == (Some(m10), b10.len()));
        assert(C11::decoding(b11 + t12) == (Some(m11), b11.len()));
        assert(C12::decoding(b12 + t13) == (Some(m12), b12.len()));
        assert(C13::decoding(b13 + t14) == (Some(m13), b13.len()));
        assert(C14::decoding(b14 + t15) == (Some(m14), b14.len()));
    }
}

/// Why a composition of 16 codecs failed: the variant names the codec that failed.
#[derive(Debug)]
pub enum ComposeCodecError16<C0, C1, C2, C3, C4, C5, C6, C7, C8, C9, C10, C11, C12, C13, C14, C15> {
    /// The codec in position 0 failed.
    C0(C0),
    /// The codec in position 1 failed.
    C1(C1),
    /// The codec in position 2 failed.
    C2(C2),
    /// The codec in position 3 failed.
    C3(C3),
    /// The codec in position 4 failed.
    C4(C4),
    /// The codec in position 5 failed.
    C5(C5),
    /// The codec in position 6 failed.
    C6(C6),
    /// The codec in position 7 failed.
    C7(C7),
    /// The codec in position 8 failed.
    C8(C8),
    /// The codec in position 9 failed.
    C9(C9),
    /// The codec in position 10 failed.
    C10(C10),
    /// The codec in position 11 failed.
    C11(C11),
    /// The codec in position 12 failed.
    C12(C12),
    /// The codec in position 13 failed.
    C13(C13),
    /// The codec in position 14 failed.
    C14(C14),
    /// The codec in position 15 failed.
    C15(C15),
}

impl<'a, C0: Encode<'a>, C1: Encode<'a>, C2: Encode<'a>, C3: Encode<'a>, C4: Encode<'a>, C5: Encode<'a>, C6: Encode<'a>, C7: Encode<'a>, C8: Encode<'a>, C9: Encode<'a>, C10: Encode<'a>, C11: Encode<'a>, C12: Encode<'a>, C13: Encode<'a>, C14: Encode<'a>, C15: Encode<'a>> Encode<'a> for ComposeCodec<(C0, C1, C2, C3, C4, C5, C6, C7, C8, C9, C10, C11, C12, C13, C14, C15)> {
    type Item = (&'a C0::Item, &'a C1::Item, &'a C2::Item, &'a C3::Item, &'a C4::Item, &'a C5::Item, &'a C6::Item, &'a C7::Item, &'a C8::Item, &'a C9::Item, &'a C10::Item, &'a C11::Item, &'a C12::Item, &'a C13::Item, &'a C14::Item, &'a C15::Item);
    type Error = ComposeCodecError16<C0::Error, C1::Error, C2::Error, C3::Error, C4::Error, C5::Error, C6::Error, C7::Error, C8::Error, C9::Error, C10::Error, C11::Error, C12::Error, C13::Error, C14::Error, C15::Error>;

    open spec fn encoding(item: &Self::Item) -> Option<Seq<u8>> {
        match C0::encoding(item.0) {
            None => None,
            Some(b0) => {
                match C1::encoding(item.1) {
                    None => None,
                    Some(b1) => {
                        match C2::encoding(item.2) {
                            None => None,
                            Some(b2) => {
                                match C3::encoding(item.3) {
                                    None => None,
                                    Some(b3) => {
                                        match C4::encoding(item.4) {
                                            None => None,
                                            Some(b4) => {
                                                match C5::encoding(item.5) {
                                                    None => None,
                                                    Some(b5) => {
                                                        match C6::encoding(item.6) {
                                                            None => None,
                                                            Some(b6) => {
                                                                match C7::encoding(item.7) {
                                                                    None => None,
                                                                    Some(b7) => {
                                                                        match C8::encoding(item.8) {
                                                                            None => None,
                                                                            Some(b8) => {
                                                                                match C9::encoding(item.9) {
                                                                                    None => None,
                                                                                    Some(b9) => {
                                                                                        match C10::encoding(item.10) {
                                                                                            None => None,
                                                                                            Some(b10) => {
                                                                                                match C11::encoding(item.11) {
                                                                                                    None => None,
                                                                                                    Some(b11) => {
                                                                                                        match C12::encoding(item.12) {
                                                                                                            None => None,
                                                                                                            Some(b12) => {
                                                                                                                match C13::encoding(item.13) {
                                                                                                                    None => None,
                                                                                                                    Some(b13) => {
                                                                                                                        match C14::encoding(item.14) {
                                                                                                                            None => None,
                                                                                                                            Some(b14) => {
                                                                                                                                match C15::encoding(item.15) {
                                                                                                                                    None => None,
                                                                                                                                    Some(b15) => Some(b0 + b1 + b2 + b3 + b4 + b5 + b6 + b7 + b8 + b9 + b10 + b11 + b12 + b13 + b14 + b15),
                                                                                                                                }
                                                                                                                            },
                                                                                                                        }
                                                                                                                    },
                                                                                                                }
                                                                                                            },
                                                                                                        }
                                                                                                    },
                                                                                                }
                                                                                            },
                                                                                        }
                                                                                    },
                                                                                }
                                                                            },
                                                                        }
                                                                    },
                                                                }
                                                            },
                                                        }
                                                    },
                                                }
                                            },
                                        }
                                    },
                                }
                            },
                        }
                    },
                }
            },
        }
    }

    fn encode(into: EncodingVec<Fresh>, item: &Self::Item) -> (r: Result<EncodingVec<Fresh>, Self::Error>)
        ensures
            r matches Err(ComposeCodecError16::C0(_)) ==> C0::encoding(item.0) is None,
            r matches Err(ComposeCodecError16::C1(_)) ==> C0::encoding(item.0) is Some && C1::encoding(item.1) is None,
            r matches Err(ComposeCodecError16::C2(_)) ==> C0::encoding(item.0) is Some && C1::encoding(item.1) is Some && C2::encoding(item.2) is None,
            r matches Err(ComposeCodecError16::C3(_)) ==> C0::encoding(item.0) is Some && C1::encoding(item.1) is Some && C2::encoding(item.2) is Some && C3::encoding(item.3) is None,
            r matches Err(ComposeCodecError16::C4(_)) ==> C0::encoding(item.0) is Some && C1::encoding(item.1) is Some && C2::encoding(item.2) is Some && C3::encoding(item.3) is Some && C4::encoding(item.4) is None,
            r matches Err(ComposeCodecError16::C5(_)) ==> C0::encoding(item.0) is Some && C1::encoding(item.1) is Some && C2::encoding(item.2) is Some && C3::encoding(item.3) is Some && C4::encoding(item.4) is Some && C5::encoding(item.5) is None,
            r matches Err(ComposeCodecError16::C6(_)) ==> C0::encoding(item.0) is Some && C1::encoding(item.1) is Some && C2::encoding(item.2) is Some && C3::encoding(item.3) is Some && C4::encoding(item.4) is Some && C5::encoding(item.5) is Some && C6::encoding(item.6) is None,
            r matches Err(ComposeCodecError16::C7(_)) ==> C0::encoding(item.0) is Some && C1::encoding(item.1) is Some && C2::encoding(item.2) is Some && C3::encoding(item.3) is Some && C4::encoding(item.4) is Some && C5::encoding(item.5) is Some && C6::encoding(item.6) is Some && C7::encoding(item.7) is None,
            r matches Err(ComposeCodecError16::C8(_)) ==> C0::encoding(item.0) is Some && C1::encoding(item.1) is Some && C2::encoding(item.2) is Some && C3::encoding(item.3) is Some && C4::encoding(item.4) is Some && C5::encoding(item.5) is Some && C6::encoding(item.6) is Some && C7::encoding(item.7) is Some && C8::encoding(item.8) is None,
            r matches Err(ComposeCodecError16::C9(_)) ==> C0::encoding(item.0) is Some && C1::encoding(item.1) is Some && C2::encoding(item.2) is Some && C3::encoding(item.3) is Some && C4::encoding(item.4) is Some && C5::encoding(item.5) is Some && C6::encoding(item.6) is Some && C7::encoding(item.7) is Some && C8::encoding(item.8) is Some && C9::encoding(item.9) is None,
            r matches Err(ComposeCodecError16::C10(_)) ==> C0::encoding(item.0) is Some && C1::encoding(item.1) is Some && C2::encoding(item.2) is Some && C3::encoding(item.3) is Some && C4::encoding(item.4) is Some && C5::encoding(item.5) is Some && C6::encoding(item.6) is Some && C7::encoding(item.7) is Some && C8::encoding(item.8) is Some && C9::encoding(item.9) is Some && C10::encoding(item.10) is None,
            r matches Err(ComposeCodecError16::C11(_)) ==> C0::encoding(item.0) is Some && C1::encoding(item.1) is Some && C2::encoding(item.2) is Some && C3::encoding(item.3) is Some && C4::encoding(item.4) is Some && C5::encoding(item.5) is Some && C6::encoding(item.6) is Some && C7::encoding(item.7) is Some && C8::encoding(item.8) is Some && C9::encoding(item.9) is Some && C10::encoding(item.10) is Some && C11::encoding(item.11) is None,
            r matches Err(ComposeCodecError16::C12(_)) ==> C0::encoding(item.0) is Some && C1::encoding(item.1) is Some && C2::encoding(item.2) is Some && C3::encoding(item.3) is Some && C4::encoding(item.4) is Some && C5::encoding(item.5) is Some && C6::encoding(item.6) is Some && C7::encoding(item.7) is Some && C8::encoding(item.8) is Some && C9::encoding(item.9) is Some && C10::encoding(item.10) is Some && C11::encoding(item.11) is Some && C12::encoding(item.12) is None,
            r matches Err(ComposeCodecError16::C13(_)) ==> C0::encoding(item.0) is Some && C1::encoding(item.1) is Some && C2::encoding(item.2) is Some && C3::encoding(item.3) is Some && C4::encoding(item.4) is Some && C5::encoding(item.5) is Some && C6::encoding(item.6) is Some && C7::encoding(item.7) is Some && C8::encoding(item.8) is Some && C9::encoding(item.9) is Some && C10::encoding(item.10) is Some && C11::encoding(item.11) is Some && C12::encoding(item.12) is Some && C13::encoding(item.13) is None,
            r matches Err(ComposeCodecError16::C14(_)) ==> C0::encoding(item.0) is Some && C1::encoding(item.1) is Some && C2::encoding(item.2) is Some && C3::encoding(item.3) is Some && C4::encoding(item.4) is Some && C5::encoding(item.5) is Some && C6::encoding(item.6) is Some && C7::encoding(item.7) is Some && C8::encoding(item.8) is Some && C9::encoding(item.9) is Some && C10::encoding(item.10) is Some && C11::encoding(item.11) is Some && C12::encoding(item.12) is Some && C13::encoding(item.13) is Some && C14::encoding(item.14) is None,
            r matches Err(ComposeCodecError16::C15(_)) ==> C0::encoding(item.0) is Some && C1::encoding(item.1) is Some && C2::encoding(item.2) is Some && C3::encoding(item.3) is Some && C4::encoding(item.4) is Some && C5::encoding(item.5) is Some && C6::encoding(item.6) is Some && C7::encoding(item.7) is Some && C8::encoding(item.8) is Some && C9::encoding(item.9) is Some && C10::encoding(item.10) is Some && C11::encoding(item.11) is Some && C12::encoding(item.12) is Some && C13::encoding(item.13) is Some && C14::encoding(item.14) is Some && C15::encoding(item.15) is None,
    {
        let ghost start = into.bytes();
        let ret = match C0::encode(into, item.0) {
            Ok(v) => v,
            Err(e) => return Err(ComposeCodecError16::C0(e)),
        };
        let ghost acc0 = C0::encoding(item.0).unwrap();
        let ret = match C1::encode(ret, item.1) {
            Ok(v) => v,
            Err(e) => return Err(ComposeCodecError16::C1(e)),
        };
        let ghost acc1 = acc0 + C1::encoding(item.1).unwrap();
        proof {
            lemma_concat_assoc(start, acc0, C1::encoding(item.1).unwrap());
        }
        let ret = match C2::encode(ret, item.2) {
            Ok(v) => v,
            Err(e) => return Err(ComposeCodecError16::C2(e)),
        };
        let ghost acc2 = acc1 + C2::encoding(item.2).unwrap();
        proof {
            lemma_concat_assoc(start, acc1, C2::encoding(item.2).unwrap());
        }
        let ret = match C3::encode(ret, item.3) {
            Ok(v) => v,
            Err(e) => return Err(ComposeCodecError16::C3(e)),
        };
        let ghost acc3 = acc2 + C3::encoding(item.3).unwrap();
        proof {
            lemma_concat_assoc(start, acc2, C3::encoding(item.3).unwrap());
        }
        let ret = match C4::encode(ret, item.4) {
            Ok(v) => v,
            Err(e) => return Err(ComposeCodecError16::C4(e)),
        };
        let ghost acc4 = acc3 + C4::encoding(item.4).unwrap();
        proof {
            lemma_concat_assoc(start, acc3, C4::encoding(item.4).unwrap());
        }
        let ret = match C5::encode(ret, item.5) {
            Ok(v) => v,
            Err(e) => return Err(ComposeCodecError16::C5(e)),
        };
        let ghost acc5 = acc4 + C5::encoding(item.5).unwrap();
        proof {
            lemma_concat_assoc(start, acc4, C5::encoding(item.5).unwrap());
        }
        let ret = match C6::encode(ret, item.6) {
            Ok(v) => v,
            Err(e) => return Err(ComposeCodecError16::C6(e)),
        };
        let ghost acc6 = acc5 + C6::encoding(item.6).unwrap();
        proof {
            lemma_concat_assoc(start, acc5, C6::encoding(item.6).unwrap());
        }
        let ret = match C7::encode(ret, item.7) {
            Ok(v) => v,
            Err(e) => return Err(ComposeCodecError16::C7(e)),
        };
        let ghost acc7 = acc6 + C7::encoding(item.7).unwrap();
        proof {
            lemma_concat_assoc(start, acc6, C7::encoding(item.7).unwrap());
        }
        let ret = match C8::encode(ret, item.8) {
            Ok(v) => v,
            Err(e) => return Err(ComposeCodecError16::C8(e)),
        };
        let ghost acc8 = acc7 + C8::encoding(item.8).unwrap();
        proof {
            lemma_concat_assoc(start, acc7, C8::encoding(item.8).unwrap());
        }
        let ret = match C9::encode(ret, item.9) {
            Ok(v) => v,
            Err(e) => return Err(ComposeCodecError16::C9(e)),
        };
        let ghost acc9 = acc8 + C9::encoding(item.9).unwrap();
        proof {
            lemma_concat_assoc(start, acc8, C9::encoding(item.9).unwrap());
        }
        let ret = match C10::encode(ret, item.10) {
            Ok(v) => v,
            Err(e) => return Err(ComposeCodecError16::C10(e)),
        };
        let ghost acc10 = acc9 + C10::encoding(item.10).unwrap();
        proof {
            lemma_concat_assoc(start, acc9, C10::encoding(item.10).unwrap());
        }
        let ret = match C11::encode(ret, item.11) {
            Ok(v) => v,
            Err(e) => return Err(ComposeCodecError16::C11(e)),
        };
        let ghost acc11 = acc10 + C11::encoding(item.11).unwrap();
        proof {
            lemma_concat_assoc(start, acc10, C11::encoding(item.11).unwrap());
        }
        let ret = match C12::encode(ret, item.12) {
            Ok(v) => v,
            Err(e) => return Err(ComposeCodecError16::C12(e)),
        };
        let ghost acc12 = acc11 + C12::encoding(item.12).unwrap();
        proof {
            lemma_concat_assoc(start, acc11, C12::encoding(item.12).unwrap());
        }
        let ret = match C13::encode(ret, item.13) {
            Ok(v) => v,
            Err(e) => return Err(ComposeCodecError16::C13(e)),
        };
        let ghost acc13 = acc12 + C13::encoding(item.13).unwrap();
        proof {
            lemma_concat_assoc(start, acc12, C13::encoding(item.13).unwrap());
        }
        let ret = match C14::encode(ret, item.14) {
            Ok(v) => v,
            Err(e) => return Err(ComposeCodecError16::C14(e)),
        };
        let ghost acc14 = acc13 + C14::encoding(item.14).unwrap();
        proof {
            lemma_concat_assoc(start, acc13, C14::encoding(item.14).unwrap());
        }
        let ret = match C15::encode(ret, item.15) {
            Ok(v) => v,
            Err(e) => return Err(ComposeCodecError16::C15(e)),
        };
        proof {
            lemma_concat_assoc(start, acc14, C15::encoding(item.15).unwrap());
        }
        Ok(ret)
    }
}

impl<C0: Decode, C1: Decode, C2: Decode, C3: Decode, C4: Decode, C5: Decode, C6: Decode, C7: Decode, C8: Decode, C9: Decode, C10: Decode, C11: Decode, C12: Decode, C13: Decode, C14: Decode, C15: Decode> Decode for ComposeCodec<(C0, C1, C2, C3, C4, C5, C6, C7, C8, C9, C10, C11, C12, C13, C14, C15)> {
    type Item = (C0::Item, C1::Item, C2::Item, C3::Item, C4::Item, C5::Item, C6::Item, C7::Item, C8::Item, C9::Item, C10::Item, C11::Item, C12::Item, C13::Item, C14::Item, C15::Item);
    type Error = ComposeCodecError16<C0::Error, C1::Error, C2::Error, C3::Error, C4::Error, C5::Error, C6::Error, C7::Error, C8::Error, C9::Error, C10::Error, C11::Error, C12::Error, C13::Error, C14::Error, C15::Error>;
    type Model = (C0::Model, C1::Model, C2::Model, C3::Model, C4::Model, C5::Model, C6::Model, C7::Model, C8::Model, C9::Model, C10::Model, C11::Model, C12::Model, C13::Model, C14::Model, C15::Model);

    open spec fn model(item: &Self::Item) -> Self::Model {
        (C0::model(&item.0), C1::model(&item.1), C2::model(&item.2), C3::model(&item.3), C4::model(&item.4), C5::model(&item.5), C6::model(&item.6), C7::model(&item.7), C8::model(&item.8), C9::model(&item.9), C10::model(&item.10), C11::model(&item.11), C12::model(&item.12), C13::model(&item.13), C14::model(&item.14), C15::model(&item.15))
    }

    open spec fn decoding(input: Seq<u8>) -> (Option<Self::Model>, nat) {
        let d0 = C0::decoding(input);
        let o1 = d0.1;
        match d0.0 {
            None => (None, o1),
            Some(m0) => {
                let d1 = C1::decoding(input.skip(o1 as int));
                let o2 = o1 + d1.1;
                match d1.0 {
                    None => (None, o2),
                    Some(m1) => {
                        let d2 = C2::decoding(input.skip(o2 as int));
                        let o3 = o2 + d2.1;
                        match d2.0 {
                            None => (None, o3),
                            Some(m2) => {
                                let d3 = C3::decoding(input.skip(o3 as int));
                                let o4 = o3 + d3.1;
                                match d3.0 {
                                    None => (None, o4),
                                    Some(m3) => {
                                        let d4 = C4::decoding(input.skip(o4 as int));
                                        let o5 = o4 + d4.1;
                                        match d4.0 {
                                            None => (None, o5),
                                            Some(m4) => {
                                                let d5 = C5::decoding(input.skip(o5 as int));
                                                let o6 = o5 + d5.1;
                                                match d5.0 {
                                                    None => (None, o6),
                                                    Some(m5) => {
                                                        let d6 = C6::decoding(input.skip(o6 as int));
                                                        let o7 = o6 + d6.1;
                                                        match d6.0 {
                                                            None => (None, o7),
                                                            Some(m6) => {
                                                                let d7 = C7::decoding(input.skip(o7 as int));
                                                                let o8 = o7 + d7.1;
                                                                match d7.0 {
                                                                    None => (None, o8),
                                                                    Some(m7) => {
                                                                        let d8 = C8::decoding(input.skip(o8 as int));
                                                                        let o9 = o8 + d8.1;
                                                                        match d8.0 {
                                                                            None => (None, o9),
                                                                            Some(m8) => {
                                                                                let d9 = C9::decoding(input.skip(o9 as int));
                                                                                let o10 = o9 + d9.1;
                                                                                match d9.0 {
                                                                                    None => (None, o10),
                                                                                    Some(m9) => {
                                                                                        let d10 = C10::decoding(input.skip(o10 as int));
                                                                                        let o11 = o10 + d10.1;
                                                                                        match d10.0 {
                                                                                            None => (None, o11),
                                                                                            Some(m10) => {
                                                                                                let d11 = C11::decoding(input.skip(o11 as int));
                                                                                                let o12 = o11 + d11.1;
                                                                                                match d11.0 {
                                                                                                    None => (None, o12),
                                                                                                    Some(m11) => {
                                                                                                        let d12 = C12::decoding(input.skip(o12 as int));
                                                                                                        let o13 = o12 + d12.1;
                                                                                                        match d12.0 {
                                                                                                            None => (None, o13),
                                                                                                            Some(m12) => {
                                                                                                                let d13 = C13::decoding(input.skip(o13 as int));
                                                                                                                let o14 = o13 + d13.1;
                                                                                                                match d13.0 {
                                                                                                                    None => (None, o14),
                                                                                                                    Some(m13) => {
                                                                                                                        let d14 = C14::decoding(input.skip(o14 as int));
                                                                                                                        let o15 = o14 + d14.1;
                                                                                                                        match d14.0 {
                                                                                                                            None => (None, o15),
                                                                                                                            Some(m14) => {
                                                                                                                                let d15 = C15::decoding(input.skip(o15 as int));
                                                                                                                                let o16 = o15 + d15.1;
                                                                                                                                match d15.0 {
                                                                                                                                    None => (None, o16),
                                                                                                                                    Some(m15) => (Some((m0, m1, m2, m3, m4, m5, m6, m7, m8, m9, m10, m11, m12, m13, m14, m15)), o16),
                                                                                                                                }
                                                                                                                            },
                                                                                                                        }
                                                                                                                    },
                                                                                                                }
                                                                                                            },
                                                                                                        }
                                                                                                    },
                                                                                                }
                                                                                            },
                                                                                        }
                                                                                    },
                                                                                }
                                                                            },
                                                                        }
                                                                    },
                                                                }
                                                            },
                                                        }
                                                    },
                                                }
                                            },
                                        }
                                    },
                                }
                            },
                        }
                    },
                }
            },
        }
    }

    fn decode(bytes: &mut DecodingVec) -> (r: Result<Self::Item, Self::Error>)
        ensures
            ({
                let input = old(bytes)@;
                let d0 = C0::decoding(input);
                let o1 = d0.1;
                let d1 = C1::decoding(input.skip(o1 as int));
                let o2 = o1 + d1.1;
                let d2 = C2::decoding(input.skip(o2 as int));
                let o3 = o2 + d2.1;
                let d3 = C3::decoding(input.skip(o3 as int));
                let o4 = o3 + d3.1;
                let d4 = C4::decoding(input.skip(o4 as int));
                let o5 = o4 + d4.1;
                let d5 = C5::decoding(input.skip(o5 as int));
                let o6 = o5 + d5.1;
                let d6 = C6::decoding(input.skip(o6 as int));
                let o7 = o6 + d6.1;
                let d7 = C7::decoding(input.skip(o7 as int));
                let o8 = o7 + d7.1;
                let d8 = C8::decoding(input.skip(o8 as int));
                let o9 = o8 + d8.1;
                let d9 = C9::decoding(input.skip(o9 as int));
                let o10 = o9 + d9.1;
                let d10 = C10::decoding(input.skip(o10 as int));
                let o11 = o10 + d10.1;
                let d11 = C11::decoding(input.skip(o11 as int));
                let o12 = o11 + d11.1;
                let d12 = C12::decoding(input.skip(o12 as int));
                let o13 = o12 + d12.1;
                let d13 = C13::decoding(input.skip(o13 as int));
                let o14 = o13 + d13.1;
                let d14 = C14::decoding(input.skip(o14 as int));
                let o15 = o14 + d14.1;
                let d15 = C15::decoding(input.skip(o15 as int));
                let o16 = o15 + d15.1;
                &&& (r matches Err(ComposeCodecError16::C0(_)) <==> d0.0 is None)
                &&& (r matches Err(ComposeCodecError16::C1(_)) <==> d0.0 is Some && d1.0 is None)
                &&& (r matches Err(ComposeCodecError16::C2(_)) <==> d0.0 is Some && d1.0 is Some && d2.0 is None)
                &&& (r matches Err(ComposeCodecError16::C3(_)) <==> d0.0 is Some && d1.0 is Some && d2.0 is Some && d3.0 is None)
                &&& (r matches Err(ComposeCodecError16::C4(_)) <==> d0.0 is Some && d1.0 is Some && d2.0 is Some && d3.0 is Some && d4.0 is None)
                &&& (r matches Err(ComposeCodecError16::C5(_)) <==> d0.0 is Some && d1.0 is Some && d2.0 is Some && d3.0 is Some && d4.0 is Some && d5.0 is None)
                &&& (r matches Err(ComposeCodecError16::C6(_)) <==> d0.0 is Some && d1.0 is Some && d2.0 is Some && d3.0 is Some && d4.0 is Some && d5.0 is Some && d6.0 is None)
                &&& (r matches Err(ComposeCodecError16::C7(_)) <==> d0.0 is Some && d1.0 is Some && d2.0 is Some && d3.0 is Some && d4.0 is Some && d5.0 is Some && d6.0 is Some && d7.0 is None)
                &&& (r matches Err(ComposeCodecError16::C8(_)) <==> d0.0 is Some && d1.0 is Some && d2.0 is Some && d3.0 is Some && d4.0 is Some && d5.0 is Some && d6.0 is Some && d7.0 is Some && d8.0 is None)
                &&& (r matches Err(ComposeCodecError16::C9(_)) <==> d0.0 is Some && d1.0 is Some && d2.0 is Some && d3.0 is Some && d4.0 is Some && d5.0 is Some && d6.0 is Some && d7.0 is Some && d8.0 is Some && d9.0 is None)
                &&& (r matches Err(ComposeCodecError16::C10(_)) <==> d0.0 is Some && d1.0 is Some && d2.0 is Some && d3.0 is Some && d4.0 is Some && d5.0 is Some && d6.0 is Some && d7.0 is Some && d8.0 is Some && d9.0 is Some && d10.0 is None)
                &&& (r matches Err(ComposeCodecError16::C11(_)) <==> d0.0 is Some && d1.0 is Some && d2.0 is Some && d3.0 is Some && d4.0 is Some && d5.0 is Some && d6.0 is Some && d7.0 is Some && d8.0 is Some && d9.0 is Some && d10.0 is Some && d11.0 is None)
                &&& (r matches Err(ComposeCodecError16::C12(_)) <==> d0.0 is Some && d1.0 is Some && d2.0 is Some && d3.0 is Some && d4.0 is Some && d5.0 is Some && d6.0 is Some && d7.0 is Some && d8.0 is Some && d9.0 is Some && d10.0 is Some && d11.0 is Some && d12.0 is None)
                &&& (r matches Err(ComposeCodecError16::C13(_)) <==> d0.0 is Some && d1.0 is Some && d2.0 is Some && d3.0 is Some && d4.0 is Some && d5.0 is Some && d6.0 is Some && d7.0 is Some && d8.0 is Some && d9.0 is Some && d10.0 is Some && d11.0 is Some && d12.0 is Some && d13.0 is None)
                &&& (r matches Err(ComposeCodecError16::C14(_)) <==> d0.0 is Some && d1.0 is Some && d2.0 is Some && d3.0 is Some && d4.0 is Some && d5.0 is Some && d6.0 is Some && d7.0 is Some && d8.0 is Some && d9.0 is Some && d10.0 is Some && d11.0 is Some && d12.0 is Some && d13.0 is Some && d14.0 is None)
                &&& (r matches Err(ComposeCodecError16::C15(_)) <==> d0.0 is Some && d1.0 is Some && d2.0 is Some && d3.0 is Some && d4.0 is Some && d5.0 is Some && d6.0 is Some && d7.0 is Some && d8.0 is Some && d9.0 is Some && d10.0 is Some && d11.0 is Some && d12.0 is Some && d13.0 is Some && d14.0 is Some && d15.0 is None)
            }),
    {
        let ghost input = bytes@;
        let ghost o1 = C0::decoding(input).1;
        let r0 = C0::decode(bytes);
        assert(bytes@ =~= input.skip(o1 as int));
        let v0 = match r0 {
            Ok(v) => v,
            Err(e) => return Err(ComposeCodecError16::C0(e)),
        };
        let ghost o2 = o1 + C1::decoding(input.skip(o1 as int)).1;
        let r1 = C1::decode(bytes);
        assert(bytes@ =~= input.skip(o2 as int));
        let v1 = match r1 {
            Ok(v) => v,
            Err(e) => return Err(ComposeCodecError16::C1(e)),
        };
        let ghost o3 = o2 + C2::decoding(input.skip(o2 as int)).1;
        let r2 = C2::decode(bytes);
        assert(bytes@ =~= input.skip(o3 as int));
        let v2 = match r2 {
            Ok(v) => v,
            Err(e) => return Err(ComposeCodecError16::C2(e)),
        };
        let ghost o4 = o3 + C3::decoding(input.skip(o3 as int)).1;
        let r3 = C3::decode(bytes);
        assert(bytes@ =~= input.skip(o4 as int));
        let v3 = match r3 {
            Ok(v) => v,
            Err(e) => return Err(ComposeCodecError16::C3(e)),
        };
        let ghost o5 = o4 + C4::decoding(input.skip(o4 as int)).1;
        let r4 = C4::decode(bytes);
        assert(bytes@ =~= input.skip(o5 as int));
        let v4 = match r4 {
            Ok(v) => v,
            Err(e) => return Err(ComposeCodecError16::C4(e)),
        };
        let ghost o6 = o5 + C5::decoding(input.skip(o5 as int)).1;
        let r5 = C5::decode(bytes);
        assert(bytes@ =~= input.skip(o6 as int));
        let v5 = match r5 {
            Ok(v) => v,
            Err(e) => return Err(ComposeCodecError16::C5(e)),
        };
        let ghost o7 = o6 + C6::decoding(input.skip(o6 as int)).1;
        let r6 = C6::decode(bytes);
        assert(bytes@ =~= input.skip(o7 as int));
        let v6 = match r6 {
            Ok(v) => v,
            Err(e) => return Err(ComposeCodecError16::C6(e)),
        };
        let ghost o8 = o7 + C7::decoding(input.skip(o7 as int)).1;
        let r7 = C7::decode(bytes);
        assert(bytes@ =~= input.skip(o8 as int));
        let v7 = match r7 {
            Ok(v) => v,
            Err(e) => return Err(ComposeCodecError16::C7(e)),
        };
        let ghost o9 = o8 + C8::decoding(input.skip(o8 as int)).1;
        let r8 = C8::decode(bytes);
        assert(bytes@ =~= input.skip(o9 as int));
        let v8 = match r8 {
            Ok(v) => v,
            Err(e) => return Err(ComposeCodecError16::C8(e)),
        };
        let ghost o10 = o9 + C9::decoding(input.skip(o9 as int)).1;
        let r9 = C9::decode(bytes);
        assert(bytes@ =~= input.skip(o10 as int));
        let v9 = match r9 {
            Ok(v) => v,
            Err(e) => return Err(ComposeCodecError16::C9(e)),
        };
        let ghost o11 = o10 + C10::decoding(input.skip(o10 as int)).1;
        let r10 = C10::decode(bytes);
        assert(bytes@ =~= input.skip(o11 as int));
        let v10 = match r10 {
            Ok(v) => v,
            Err(e) => return Err(ComposeCodecError16::C10(e)),
        };
        let ghost o12 = o11 + C11::decoding(input.skip(o11 as int)).1;
        let r11 = C11::decode(bytes);
        assert(bytes@ =~= input.skip(o12 as int));
        let v11 = match r11 {
            Ok(v) => v,
            Err(e) => return Err(ComposeCodecError16::C11(e)),
        };
        let ghost o13 = o12 + C12::decoding(input.skip(o12 as int)).1;
        let r12 = C12::decode(bytes);
        assert(bytes@ =~= input.skip(o13 as int));
        let v12 = match r12 {
            Ok(v) => v,
            Err(e) => return Err(ComposeCodecError16::C12(e)),
        };
        let ghost o14 = o13 + C13::decoding(input.skip(o13 as int)).1;
        let r13 = C13::decode(bytes);
        assert(bytes@ =~= input.skip(o14 as int));
        let v13 = match r13 {
            Ok(v) => v,
            Err(e) => return Err(ComposeCodecError16::C13(e)),
        };
        let ghost o15 = o14 + C14::decoding(input.skip(o14 as int)).1;
        let r14 = C14::decode(bytes);
        assert(bytes@ =~= input.skip(o15 as int));
        let v14 = match r14 {
            Ok(v) => v,
            Err(e) => return Err(ComposeCodecError16::C14(e)),
        };
        let ghost o16 = o15 + C15::decoding(input.skip(o15 as int)).1;
        let r15 = C15::decode(bytes);
        assert(bytes@ =~= input.skip(o16 as int));
        let v15 = match r15 {
            Ok(v) => v,
            Err(e) => return Err(ComposeCodecError16::C15(e)),
        };
        Ok((v0, v1, v2, v3, v4, v5, v6, v7, v8, v9, v10, v11, v12, v13, v14, v15))
    }
}

/// When every codec but the last recovers its item whatever follows it, and the last one
/// recovers its item from its own encoding, the composition recovers the whole tuple from
/// its encoding.
pub proof fn lemma_compose16_roundtrip<'a, C0: Encode<'a> + Decode, C1: Encode<'a> + Decode, C2: Encode<'a> + Decode, C3: Encode<'a> + Decode, C4: Encode<'a> + Decode, C5: Encode<'a> + Decode, C6: Encode<'a> + Decode, C7: Encode<'a> + Decode, C8: Encode<'a> + Decode, C9: Encode<'a> + Decode, C10: Encode<'a> + Decode, C11: Encode<'a> + Decode, C12: Encode<'a> + Decode, C13: Encode<'a> + Decode, C14: Encode<'a> + Decode, C15: Encode<'a> + Decode>(
    item: &<ComposeCodec<(C0, C1, C2, C3, C4, C5, C6, C7, C8, C9, C10, C11, C12, C13, C14, C15)> as Encode<'a>>::Item,
    m0: <C0 as Decode>::Model, m1: <C1 as Decode>::Model, m2: <C2 as Decode>::Model, m3: <C3 as Decode>::Model, m4: <C4 as Decode>::Model, m5: <C5 as Decode>::Model, m6: <C6 as Decode>::Model, m7: <C7 as Decode>::Model, m8: <C8 as Decode>::Model, m9: <C9 as Decode>::Model, m10: <C10 as Decode>::Model, m11: <C11 as Decode>::Model, m12: <C12 as Decode>::Model, m13: <C13 as Decode>::Model, m14: <C14 as Decode>::Model, m15: <C15 as Decode>::Model,
)
    requires
        roundtrips_before_anything::<C0>(item.0, m0),
        roundtrips_before_anything::<C1>(item.1, m1),
        roundtrips_before_anything::<C2>(item.2, m2),
        roundtrips_before_anything::<C3>(item.3, m3),
        roundtrips_before_anything::<C4>(item.4, m4),
        roundtrips_before_anything::<C5>(item.5, m5),
        roundtrips_before_anything::<C6>(item.6, m6),
        roundtrips_before_anything::<C7>(item.7, m7),
        roundtrips_before_anything::<C8>(item.8, m8),
        roundtrips_before_anything::<C9>(item.9, m9),
        roundtrips_before_anything::<C10>(item.10, m10),
        roundtrips_before_anything::<C11>(item.11, m11),
        roundtrips_before_anything::<C12>(item.12, m12),
        roundtrips_before_anything::<C13>(item.13, m13),
        roundtrips_before_anything::<C14>(item.14, m14),
        roundtrips_alone::<C15>(item.15, m15),
    ensures
        roundtrips_alone::<ComposeCodec<(C0, C1, C2, C3, C4, C5, C6, C7, C8, C9, C10, C11, C12, C13, C14, C15)>>(item, (m0, m1, m2, m3, m4, m5, m6, m7, m8, m9, m10, m11, m12, m13, m14, m15)),
{
    let b0 = C0::encoding(item.0).unwrap();
    let b1 = C1::encoding(item.1).unwrap();
    let b2 = C2::encoding(item.2).unwrap();
    let b3 = C3::encoding(item.3).unwrap();
    let b4 = C4::encoding(item.4).unwrap();
    let b5 = C5::encoding(item.5).unwrap();
    let b6 = C6::encoding(item.6).unwrap();
    let b7 = C7::encoding(item.7).unwrap();
    let b8 = C8::encoding(item.8).unwrap();
    let b9 = C9::encoding(item.9).unwrap();
    let b10 = C10::encoding(item.10).unwrap();
    let b11 = C11::encoding(item.11).unwrap();
    let b12 = C12::encoding(item.12).unwrap();
    let b13 = C13::encoding(item.13).unwrap();
    let b14 = C14::encoding(item.14).unwrap();
    let b15 = C15::encoding(item.15).unwrap();
    let p1 = b0;
    let p2 = p1 + b1;
    let p3 = p2 + b2;
    let p4 = p3 + b3;
    let p5 = p4 + b4;
    let p6 = p5 + b5;
    let p7 = p6 + b6;
    let p8 = p7 + b7;
    let p9 = p8 + b8;
    let p10 = p9 + b9;
    let p11 = p10 + b10;
    let p12 = p11 + b11;
    let p13 = p12 + b12;
    let p14 = p13 + b13;
    let p15 = p14 + b14;
    let p16 = p15 + b15;
    assert(ComposeCodec::<(C0, C1, C2, C3, C4, C5, C6, C7, C8, C9, C10, C11, C12, C13, C14, C15)>::encoding(item) == Some(p16));
    let t15 = b15;
    let t14 = b14 + t15;
    lemma_concat_assoc(p14, b14, t15);
    let t13 = b13 + t14;
    lemma_concat_assoc(p13, b13, t14);
    let t12 = b12 + t13;
    lemma_concat_assoc(p12, b12, t13);
    let t11 = b11 + t12;
    lemma_concat_assoc(p11, b11, t12);
    let t10 = b10 + t11;
    lemma_concat_assoc(p10, b10, t11);
    let t9 = b9 + t10;
    lemma_concat_assoc(p9, b9, t10);
    let t8 = b8 + t9;
    lemma_concat_assoc(p8, b8, t9);
    let t7 = b7 + t8;
    lemma_concat_assoc(p7, b7, t8);
    let t6 = b6 + t7;
    lemma_concat_assoc(p6, b6, t7);
    let t5 = b5 + t6;
    lemma_concat_assoc(p5, b5, t6);
    let t4 = b4 + t5;
    lemma_concat_assoc(p4, b4, t5);
    let t3 = b3 + t4;
    lemma_concat_assoc(p3, b3, t4);
    let t2 = b2 + t3;
    lemma_concat_assoc(p2, b2, t3);
    let t1 = b1 + t2;
    lemma_concat_assoc(p1, b1, t2);
    lemma_skip_prefix(p1, t1);
    lemma_skip_prefix(p2, t2);
    lemma_skip_prefix(p3, t3);
    lemma_skip_prefix(p4, t4);
    lemma_skip_prefix(p5, t5);
    lemma_skip_prefix(p6, t6);
    lemma_skip_prefix(p7, t7);
    lemma_skip_prefix(p8, t8);
    lemma_skip_prefix(p9, t9);
    lemma_skip_prefix(p10, t10);
    lemma_skip_prefix(p11, t11);
    lemma_skip_prefix(p12, t12);
    lemma_skip_prefix(p13, t13);
    lemma_skip_prefix(p14, t14);
    lemma_skip_prefix(p15, t15);
    assert(C0::decoding(b0 + t1) == (Some(m0), b0.len()));
    assert(C1::decoding(b1 + t2) == (Some(m1), b1.len()));
    assert(C2::decoding(b2 + t3) == (Some(m2), b2.len()));
    assert(C3::decoding(b3 + t4) == (Some(m3), b3.len()));
    assert(C4::decoding(b4 + t5) == (Some(m4), b4.len()));
    assert(C5::decoding(b5 + t6) == (Some(m5), b5.len()));
    assert(C6::decoding(b6 + t7) == (Some(m6), b6.len()));
    assert(C7::decoding(b7 + t8) == (Some(m7), b7.len()));
    assert(C8::decoding(b8 + t9) == (Some(m8), b8.len()));
    assert(C9::decoding(b9 + t10) == (Some(m9), b9.len()));
    assert(C10::decoding(b10 + t11) == (Some(m10), b10.len()));
    assert(C11::decoding(b11 + t12) == (Some(m11), b11.len()));
    assert(C12::decoding(b12 + t13) == (Some(m12), b12.len()));
    assert(C13::decoding(b13 + t14) == (Some(m13), b13.len()));
    assert(C14::decoding(b14 + t15) == (Some(m14), b14.len()));
    assert(C15::decoding(b15) == (Some(m15), b15.len()));
}

/// When every codec recovers its item whatever follows it, so does the composition: it can
/// itself stand before another codec.
pub proof fn lemma_compose16_roundtrip_before_anything<'a, C0: Encode<'a> + Decode, C1: Encode<'a> + Decode, C2: Encode<'a> + Decode, C3: Encode<'a> + Decode, C4: Encode<'a> + Decode, C5: Encode<'a> + Decode, C6: Encode<'a> + Decode, C7: Encode<'a> + Decode, C8: Encode<'a> + Decode, C9: Encode<'a> + Decode, C10: Encode<'a> + Decode, C11: Encode<'a> + Decode, C12: Encode<'a> + Decode, C13: Encode<'a> + Decode, C14: Encode<'a> + Decode, C15: Encode<'a> + Decode>(
    item: &<ComposeCodec<(C0, C1, C2, C3, C4, C5, C6, C7, C8, C9, C10, C11, C12, C13, C14, C15)> as Encode<'a>>::Item,
    m0: <C0 as Decode>::Model, m1: <C1 as Decode>::Model, m2: <C2 as Decode>::Model, m3: <C3 as Decode>::Model, m4: <C4 as Decode>::Model, m5: <C5 as Decode>::Model, m6: <C6 as Decode>::Model, m7: <C7 as Decode>::Model, m8: <C8 as Decode>::Model, m9: <C9 as Decode>::Model, m10: <C10 as Decode>::Model, m11: <C11 as Decode>::Model, m12: <C12 as Decode>::Model, m13: <C13 as Decode>::Model, m14: <C14 as Decode>::Model, m15: <C15 as Decode>::Model,
)
    requires
        roundtrips_before_anything::<C0>(item.0, m0),
        roundtrips_before_anything::<C1>(item.1, m1),
        roundtrips_before_anything::<C2>(item.2, m2),
        roundtrips_before_anything::<C3>(item.3, m3),
        roundtrips_before_anything::<C4>(item.4, m4),
        roundtrips_before_anything::<C5>(item.5, m5),
        roundtrips_before_anything::<C6>(item.6, m6),
        roundtrips_before_anything::<C7>(item.7, m7),
        roundtrips_before_anything::<C8>(item.8, m8),
        roundtrips_before_anything::<C9>(item.9, m9),
        roundtrips_before_anything::<C10>(item.10, m10),
        roundtrips_before_anything::<C11>(item.11, m11),
        roundtrips_before_anything::<C12>(item.12, m12),
        roundtrips_before_anything::<C13>(item.13, m13),
        roundtrips_before_anything::<C14>(item.14, m14),
        roundtrips_before_anything::<C15>(item.15, m15),
    ensures
        roundtrips_before_anything::<ComposeCodec<(C0, C1, C2, C3, C4, C5, C6, C7, C8, C9, C10, C11, C12, C13, C14, C15)>>(item, (m0, m1, m2, m3, m4, m5, m6, m7, m8, m9, m10, m11, m12, m13, m14, m15)),
{
    let b0 = C0::encoding(item.0).unwrap();
    let b1 = C1::encoding(item.1).unwrap();
    let b2 = C2::encoding(item.2).unwrap();
    let b3 = C3::encoding(item.3).unwrap();
    let b4 = C4::encoding(item.4).unwrap();
    let b5 = C5::encoding(item.5).unwrap();
    let b6 = C6::encoding(item.6).unwrap();
    let b7 = C7::encoding(item.7).unwrap();
    let b8 = C8::encoding(item.8).unwrap();
    let b9 = C9::encoding(item.9).unwrap();
    let b10 = C10::encoding(item.10).unwrap();
    let b11 = C11::encoding(item.11).unwrap();
    let b12 = C12::encoding(item.12).unwrap();
    let b13 = C13::encoding(item.13).unwrap();
    let b14 = C14::encoding(item.14).unwrap();
    let b15 = C15::encoding(item.15).unwrap();
    let p1 = b0;
    let p2 = p1 + b1;
    let p3 = p2 + b2;
    let p4 = p3 + b3;
    let p5 = p4 + b4;
    let p6 = p5 + b5;
    let p7 = p6 + b6;
    let p8 = p7 + b7;
    let p9 = p8 + b8;
    let p10 = p9 + b9;
    let p11 = p10 + b10;
    let p12 = p11 + b11;
    let p13 = p12 + b12;
    let p14 = p13 + b13;
    let p15 = p14 + b14;
    let p16 = p15 + b15;
    assert(ComposeCodec::<(C0, C1, C2, C3, C4, C5, C6, C7, C8, C9, C10, C11, C12, C13, C14, C15)>::encoding(item) == Some(p16));
    assert forall|rest: Seq<u8>|
        #[trigger] ComposeCodec::<(C0, C1, C2, C3, C4, C5, C6, C7, C8, C9, C10, C11, C12, C13, C14, C15)>::decoding(p16 + rest) == (Some((m0, m1, m2, m3, m4, m5, m6, m7, m8, m9, m10, m11, m12, m13, m14, m15)), p16.len()) by {
        let t16 = rest;
        let t15 = b15 + t16;
        lemma_concat_assoc(p15, b15, t16);
        let t14 = b14 + t15;
        lemma_concat_assoc(p14, b14, t15);
        let t13 = b13 + t14;
        lemma_concat_assoc(p13, b13, t14);
        let t12 = b12 + t13;
        lemma_concat_assoc(p12, b12, t13);
        let t11 = b11 + t12;
        lemma_concat_assoc(p11, b11, t12);
        let t10 = b10 + t11;
        lemma_concat_assoc(p10, b10, t11);
        let t9 = b9 + t10;
        lemma_concat_assoc(p9, b9, t10);
        let t8 = b8 + t9;
        lemma_concat_assoc(p8, b8, t9);
        let t7 = b7 + t8;
        lemma_concat_assoc(p7, b7, t8);
        let t6 = b6 + t7;
        lemma_concat_assoc(p6, b6, t7);
        let t5 = b5 + t6;
        lemma_concat_assoc(p5, b5, t6);
        let t4 = b4 + t5;
        lemma_concat_assoc(p4, b4, t5);
        let t3 = b3 + t4;
        lemma_concat_assoc(p3, b3, t4);
        let t2 = b2 + t3;
        lemma_concat_assoc(p2, b2, t3);
        let t1 = b1 + t2;
        lemma_concat_assoc(p1, b1, t2);
        lemma_skip_prefix(p1, t1);
        lemma_skip_prefix(p2, t2);
        lemma_skip_prefix(p3, t3);
        lemma_skip_prefix(p4, t4);
        lemma_skip_prefix(p5, t5);
        lemma_skip_prefix(p6, t6);
        lemma_skip_prefix(p7, t7);
        lemma_skip_prefix(p8, t8);
        lemma_skip_prefix(p9, t9);
        lemma_skip_prefix(p10, t10);
        lemma_skip_prefix(p11, t11);
        lemma_skip_prefix(p12, t12);
        lemma_skip_prefix(p13, t13);
        lemma_skip_prefix(p14, t14);
        lemma_skip_prefix(p15, t15);
        assert(C0::decoding(b0 + t1) == (Some(m0), b0.len()));
        assert(C1::decoding(b1 + t2) == (Some(m1), b1.len()));
        assert(C2::decoding(b2 + t3) == (Some(m2), b2.len()));
        assert(C3::decoding(b3 + t4) == (Some(m3), b3.len()));
        assert(C4::decoding(b4 + t5) == (Some(m4), b4.len()));
        assert(C5::decoding(b5 + t6) == (Some(m5), b5.len()));
        assert(C6::decoding(b6 + t7) == (Some(m6), b6.len()));
        assert(C7::decoding(b7 + t8) == (Some(m7), b7.len()));
        assert(C8::decoding(b8 + t9) == (Some(m8), b8.len()));
        assert(C9::decoding(b9 + t10) == (Some(m9), b9.len()));
        assert(C10::decoding(b10 + t11) == (Some(m10), b10.len()));
        assert(C11::decoding(b11 + t12) == (Some(m11), b11.len()));
        assert(C12::decoding(b12 + t13) == (Some(m12), b12.len()));
        assert(C13::decoding(b13 + t14) == (Some(m13), b13.len()));
        assert(C14::decoding(b14 + t15) == (Some(m14), b14.len()));
        assert(C15::decoding(b15 + t16) == (Some(m15), b15.len()));
    }
}

/// Why a composition of 17 codecs failed: the variant names the codec that failed.
#[derive(Debug)]
pub enum ComposeCodecError17<C0, C1, C2, C3, C4, C5, C6, C7, C8, C9, C10, C11, C12, C13, C14, C15, C16> {
    /// The codec in position 0 failed.
    C0(C0),
    /// The codec in position 1 failed.
    C1(C1),
    /// The codec in position 2 failed.
    C2(C2),
    /// The codec in position 3 failed.
    C3(C3),
    /// The codec in position 4 failed.
    C4(C4),
    /// The codec in position 5 failed.
    C5(C5),
    /// The codec in position 6 failed.
    C6(C6),
    /// The codec in position 7 failed.
    C7(C7),
    /// The codec in position 8 failed.
    C8(C8),
    /// The codec in position 9 failed.
    C9(C9),
    /// The codec in position 10 failed.
    C10(C10),
    /// The codec in position 11 failed.
    C11(C11),
    /// The codec in position 12 failed.
    C12(C12),
    /// The codec in position 13 failed.
    C13(C13),
    /// The codec in position 14 failed.
    C14(C14),
    /// The codec in position 15 failed.
    C15(C15),
    /// The codec in position 16 failed.
    C16(C16),
}

impl<'a, C0: Encode<'a>, C1: Encode<'a>, C2: Encode<'a>, C3: Encode<'a>, C4: Encode<'a>, C5: Encode<'a>, C6: Encode<'a>, C7: Encode<'a>, C8: Encode<'a>, C9: Encode<'a>, C10: Encode<'a>, C11: Encode<'a>, C12: Encode<'a>, C13: Encode<'a>, C14: Encode<'a>, C15: Encode<'a>, C16: Encode<'a>> Encode<'a> for ComposeCodec<(C0, C1, C2, C3, C4, C5, C6, C7, C8, C9, C10, C11, C12, C13, C14, C15, C16)> {
    type Item = (&'a C0::Item, &'a C1::Item, &'a C2::Item, &'a C3::Item, &'a C4::Item, &'a C5::Item, &'a C6::Item, &'a C7::Item, &'a C8::Item, &'a C9::Item, &'a C10::Item, &'a C11::Item, &'a C12::Item, &'a C13::Item, &'a C14::Item, &'a C15::Item, &'a C16::Item);
    type Error = ComposeCodecError17<C0::Error, C1::Error, C2::Error, C3::Error, C4::Error, C5::Error, C6::Error, C7::Error, C8::Error, C9::Error, C10::Error, C11::Error, C12::Error, C13::Error, C14::Error, C15::Error, C16::Error>;

    open spec fn encoding(item: &Self::Item) -> Option<Seq<u8>> {
        match C0::encoding(item.0) {
            None => None,
            Some(b0) => {
                match C1::encoding(item.1) {
                    None => None,
                    Some(b1) => {
                        match C2::encoding(item.2) {
                            None => None,
                            Some(b2) => {
                                match C3::encoding(item.3) {
                                    None => None,
                                    Some(b3) => {
                                        match C4::encoding(item.4) {
                                            None => None,
                                            Some(b4) => {
                                                match C5::encoding(item.5) {
                                                    None => None,
                                                    Some(b5) => {
                                                        match C6::encoding(item.6) {
                                                            None => None,
                                                            Some(b6) => {
                                                                match C7::encoding(item.7) {
                                                                    None => None,
                                                                    Some(b7) => {
                                                                        match C8::encoding(item.8) {
                                                                            None => None,
                                                                            Some(b8) => {
                                                                                match C9::encoding(item.9) {
                                                                                    None => None,
                                                                                    Some(b9) => {
                                                                                        match C10::encoding(item.10) {
                                                                                            None => None,
                                                                                            Some(b10) => {
                                                                                                match C11::encoding(item.11) {
                                                                                                    None => None,
                                                                                                    Some(b11) => {
                                                                                                        match C12::encoding(item.12) {
                                                                                                            None => None,
                                                                                                            Some(b12) => {
                                                                                                                match C13::encoding(item.13) {
                                                                                                                    None => None,
                                                                                                                    Some(b13) => {
                                                                                                                        match C14::encoding(item.14) {
                                                                                                                            None => None,
                                                                                                                            Some(b14) => {
                                                                                                                                match C15::encoding(item.15) {
                                                                                                                                    None => None,
                                                                                                                                    Some(b15) => {
                                                                                                                                        match C16::encoding(item.16) {
                                                                                                                                            None => None,
                                                                                                                                            Some(b16) => Some(b0 + b1 + b2 + b3 + b4 + b5 + b6 + b7 + b8 + b9 + b10 + b11 + b12 + b13 + b14 + b15 + b16),
                                                                                                                                        }
                                                                                                                                    },
                                                                                                                                }
                                                                                                                            },
                                                                                                                        }
                                                                                                                    },
                                                                                                                }
                                                                                                            },
                                                                                                        }
                                                                                                    },
                                                                                                }
                                                                                            },
                                                                                        }
                                                                                    },
                                                                                }
                                                                            },
                                                                        }
                                                                    },
                                                                }
                                                            },
                                                        }
                                                    },
                                                }
                                            },
                                        }
                                    },
                                }
                            },
                        }
                    },
                }
            },
        }
    }

    fn encode(into: EncodingVec<Fresh>, item: &Self::Item) -> (r: Result<EncodingVec<Fresh>, Self::Error>)
        ensures
            r matches Err(ComposeCodecError17::C0(_)) ==> C0::encoding(item.0) is None,
            r matches Err(ComposeCodecError17::C1(_)) ==> C0::encoding(item.0) is Some && C1::encoding(item.1) is None,
            r matches Err(ComposeCodecError17::C2(_)) ==> C0::encoding(item.0) is Some && C1::encoding(item.1) is Some && C2::encoding(item.2) is None,
            r matches Err(ComposeCodecError17::C3(_)) ==> C0::encoding(item.0) is Some && C1::encoding(item.1) is Some && C2::encoding(item.2) is Some && C3::encoding(item.3) is None,
            r matches Err(ComposeCodecError17::C4(_)) ==> C0::encoding(item.0) is Some && C1::encoding(item.1) is Some && C2::encoding(item.2) is Some && C3::encoding(item.3) is Some && C4::encoding(item.4) is None,
            r matches Err(ComposeCodecError17::C5(_)) ==> C0::encoding(item.0) is Some && C1::encoding(item.1) is Some && C2::encoding(item.2) is Some && C3::encoding(item.3) is Some && C4::encoding(item.4) is Some && C5::encoding(item.5) is None,
            r matches Err(ComposeCodecError17::C6(_)) ==> C0::encoding(item.0) is Some && C1::encoding(item.1) is Some && C2::encoding(item.2) is Some && C3::encoding(item.3) is Some && C4::encoding(item.4) is Some && C5::encoding(item.5) is Some && C6::encoding(item.6) is None,
            r matches Err(ComposeCodecError17::C7(_)) ==> C0::encoding(item.0) is Some && C1::encoding(item.1) is Some && C2::encoding(item.2) is Some && C3::encoding(item.3) is Some && C4::encoding(item.4) is Some && C5::encoding(item.5) is Some && C6::encoding(item.6) is Some && C7::encoding(item.7) is None,
            r matches Err(ComposeCodecError17::C8(_)) ==> C0::encoding(item.0) is Some && C1::encoding(item.1) is Some && C2::encoding(item.2) is Some && C3::encoding(item.3) is Some && C4::encoding(item.4) is Some && C5::encoding(item.5) is Some && C6::encoding(item.6) is Some && C7::encoding(item.7) is Some && C8::encoding(item.8) is None,
            r matches Err(ComposeCodecError17::C9(_)) ==> C0::encoding(item.0) is Some && C1::encoding(item.1) is Some && C2::encoding(item.2) is Some && C3::encoding(item.3) is Some && C4::encoding(item.4) is Some && C5::encoding(item.5) is Some && C6::encoding(item.6) is Some && C7::encoding(item.7) is Some && C8::encoding(item.8) is Some && C9::encoding(item.9) is None,
            r matches Err(ComposeCodecError17::C10(_)) ==> C0::encoding(item.0) is Some && C1::encoding(item.1) is Some && C2::encoding(item.2) is Some && C3::encoding(item.3) is Some && C4::encoding(item.4) is Some && C5::encoding(item.5) is Some && C6::encoding(item.6) is Some && C7::encoding(item.7) is Some && C8::encoding(item.8) is Some && C9::encoding(item.9) is Some && C10::encoding(item.10) is None,
            r matches Err(ComposeCodecError17::C11(_)) ==> C0::encoding(item.0) is Some && C1::encoding(item.1) is Some && C2::encoding(item.2) is Some && C3::encoding(item.3) is Some && C4::encoding(item.4) is Some && C5::encoding(item.5) is Some && C6::encoding(item.6) is Some && C7::encoding(item.7) is Some && C8::encoding(item.8) is Some && C9::encoding(item.9) is Some && C10::encoding(item.10) is Some && C11::encoding(item.11) is None,
            r matches Err(ComposeCodecError17::C12(_)) ==> C0::encoding(item.0) is Some && C1::encoding(item.1) is Some && C2::encoding(item.2) is Some && C3::encoding(item.3) is Some && C4::encoding(item.4) is Some && C5::encoding(item.5) is Some && C6::encoding(item.6) is Some && C7::encoding(item.7) is Some && C8::encoding(item.8) is Some && C9::encoding(item.9) is Some && C10::encoding(item.10) is Some && C11::encoding(item.11) is Some && C12::encoding(item.12) is None,
            r matches Err(ComposeCodecError17::C13(_)) ==> C0::encoding(item.0) is Some && C1::encoding(item.1) is Some && C2::encoding(item.2) is Some && C3::encoding(item.3) is Some && C4::encoding(item.4) is Some && C5::encoding(item.5) is Some && C6::encoding(item.6) is Some && C7::encoding(item.7) is Some && C8::encoding(item.8) is Some && C9::encoding(item.9) is Some && C10::encoding(item.10) is Some && C11::encoding(item.11) is Some && C12::encoding(item.12) is Some && C13::encoding(item.13) is None,
            r matches Err(ComposeCodecError17::C14(_)) ==> C0::encoding(item.0) is Some && C1::encoding(item.1) is Some && C2::encoding(item.2) is Some && C3::encoding(item.3) is Some && C4::encoding(item.4) is Some && C5::encoding(item.5) is Some && C6::encoding(item.6) is Some && C7::encoding(item.7) is Some && C8::encoding(item.8) is Some && C9::encoding(item.9) is Some && C10::encoding(item.10) is Some && C11::encoding(item.11) is Some && C12::encoding(item.12) is Some && C13::encoding(item.13) is Some && C14::encoding(item.14) is None,
            r matches Err(ComposeCodecError17::C15(_)) ==> C0::encoding(item.0) is Some && C1::encoding(item.1) is Some && C2::encoding(item.2) is Some && C3::encoding(item.3) is Some && C4::encoding(item.4) is Some && C5::encoding(item.5) is Some && C6::encoding(item.6) is Some && C7::encoding(item.7) is Some && C8::encoding(item.8) is Some && C9::encoding(item.9) is Some && C10::encoding(item.10) is Some && C11::encoding(item.11) is Some && C12::encoding(item.12) is Some && C13::encoding(item.13) is Some && C14::encoding(item.14) is Some && C15::encoding(item.15) is None,
            r matches Err(ComposeCodecError17::C16(_)) ==> C0::encoding(item.0) is Some && C1::encoding(item.1) is Some && C2::encoding(item.2) is Some && C3::encoding(item.3) is Some && C4::encoding(item.4) is Some && C5::encoding(item.5) is Some && C6::encoding(item.6) is Some && C7::encoding(item.7) is Some && C8::encoding(item.8) is Some && C9::encoding(item.9) is Some && C10::encoding(item.10) is Some && C11::encoding(item.11) is Some && C12::encoding(item.12) is Some && C13::encoding(item.13) is Some && C14::encoding(item.14) is Some && C15::encoding(item.15) is Some && C16::encoding(item.16) is None,
    {
        let ghost start = into.bytes();
        let ret = match C0::encode(into, item.0) {
            Ok(v) => v,
            Err(e) => return Err(ComposeCodecError17::C0(e)),
        };
        let ghost acc0 = C0::encoding(item.0).unwrap();
        let ret = match C1::encode(ret, item.1) {
            Ok(v) => v,
            Err(e) => return Err(ComposeCodecError17::C1(e)),
        };
        let ghost acc1 = acc0 + C1::encoding(item.1).unwrap();
        proof {
            lemma_concat_assoc(start, acc0, C1::encoding(item.1).unwrap());
        }
        let ret = match C2::encode(ret, item.2) {
            Ok(v) => v,
            Err(e) => return Err(ComposeCodecError17::C2(e)),
        };
        let ghost acc2 = acc1 + C2::encoding(item.2).unwrap();
        proof {
            lemma_concat_assoc(start, acc1, C2::encoding(item.2).unwrap());
        }
        let ret = match C3::encode(ret, item.3) {
            Ok(v) => v,
            Err(e) => return Err(ComposeCodecError17::C3(e)),
        };
        let ghost acc3 = acc2 + C3::encoding(item.3).unwrap();
        proof {
            lemma_concat_assoc(start, acc2, C3::encoding(item.3).unwrap());
        }
        let ret = match C4::encode(ret, item.4) {
            Ok(v) => v,
            Err(e) => return Err(ComposeCodecError17::C4(e)),
        };
        let ghost acc4 = acc3 + C4::encoding(item.4).unwrap();
        proof {
            lemma_concat_assoc(start, acc3, C4::encoding(item.4).unwrap());
        }
        let ret = match C5::encode(ret, item.5) {
            Ok(v) => v,
            Err(e) => return Err(ComposeCodecError17::C5(e)),
        };
        let ghost acc5 = acc4 + C5::encoding(item.5).unwrap();
        proof {
            lemma_concat_assoc(start, acc4, C5::encoding(item.5).unwrap());
        }
        let ret = match C6::encode(ret, item.6) {
            Ok(v) => v,
            Err(e) => return Err(ComposeCodecError17::C6(e)),
        };
        let ghost acc6 = acc5 + C6::encoding(item.6).unwrap();
        proof {
            lemma_concat_assoc(start, acc5, C6::encoding(item.6).unwrap());
        }
        let ret = match C7::encode(ret, item.7) {
            Ok(v) => v,
            Err(e) => return Err(ComposeCodecError17::C7(e)),
        };
        let ghost acc7 = acc6 + C7::encoding(item.7).unwrap();
        proof {
            lemma_concat_assoc(start, acc6, C7::encoding(item.7).unwrap());
        }
        let ret = match C8::encode(ret, item.8) {
            Ok(v) => v,
            Err(e) => return Err(ComposeCodecError17::C8(e)),
        };
        let ghost acc8 = acc7 + C8::encoding(item.8).unwrap();
        proof {
            lemma_concat_assoc(start, acc7, C8::encoding(item.8).unwrap());
        }
        let ret = match C9::encode(ret, item.9) {
            Ok(v) => v,
            Err(e) => return Err(ComposeCodecError17::C9(e)),
        };
        let ghost acc9 = acc8 + C9::encoding(item.9).unwrap();
        proof {
            lemma_concat_assoc(start, acc8, C9::encoding(item.9).unwrap());
        }
        let ret = match C10::encode(ret, item.10) {
            Ok(v) => v,
            Err(e) => return Err(ComposeCodecError17::C10(e)),
        };
        let ghost acc10 = acc9 + C10::encoding(item.10).unwrap();
        proof {
            lemma_concat_assoc(start, acc9, C10::encoding(item.10).unwrap());
        }
        let ret = match C11::encode(ret, item.11) {
            Ok(v) => v,
            Err(e) => return Err(ComposeCodecError17::C11(e)),
        };
        let ghost acc11 = acc10 + C11::encoding(item.11).unwrap();
        proof {
            lemma_concat_assoc(start, acc10, C11::encoding(item.11).unwrap());
        }
        let ret = match C12::encode(ret, item.12) {
            Ok(v) => v,
            Err(e) => return Err(ComposeCodecError17::C12(e)),
        };
        let ghost acc12 = acc11 + C12::encoding(item.12).unwrap();
        proof {
            lemma_concat_assoc(start, acc11, C12::encoding(item.12).unwrap());
        }
        let ret = match C13::encode(ret, item.13) {
            Ok(v) => v,
            Err(e) => return Err(ComposeCodecError17::C13(e)),
        };
        let ghost acc13 = acc12 + C13::encoding(item.13).unwrap();
        proof {
            lemma_concat_assoc(start, acc12, C13::encoding(item.13).unwrap());
        }
        let ret = match C14::encode(ret, item.14) {
            Ok(v) => v,
            Err(e) => return Err(ComposeCodecError17::C14(e)),
        };
        let ghost acc14 = acc13 + C14::encoding(item.14).unwrap();
        proof {
            lemma_concat_assoc(start, acc13, C14::encoding(item.14).unwrap());
        }
        let ret = match C15::encode(ret, item.15) {
            Ok(v) => v,
            Err(e) => return Err(ComposeCodecError17::C15(e)),
        };
        let ghost acc15 = acc14 + C15::encoding(item.15).unwrap();
        proof {
            lemma_concat_assoc(start, acc14, C15::encoding(item.15).unwrap());
        }
        let ret = match C16::encode(ret, item.16) {
            Ok(v) => v,
            Err(e) => return Err(ComposeCodecError17::C16(e)),
        };
        proof {
            lemma_concat_assoc(start, acc15, C16::encoding(item.16).unwrap());
        }
        Ok(ret)
    }
}

impl<C0: Decode, C1: Decode, C2: Decode, C3: Decode, C4: Decode, C5: Decode, C6: Decode, C7: Decode, C8: Decode, C9: Decode, C10: Decode, C11: Decode, C12: Decode, C13: Decode, C14: Decode, C15: Decode, C16: Decode> Decode for ComposeCodec<(C0, C1, C2, C3, C4, C5, C6, C7, C8, C9, C10, C11, C12, C13, C14, C15, C16)> {
    type Item = (C0::Item, C1::Item, C2::Item, C3::Item, C4::Item, C5::Item, C6::Item, C7::Item, C8::Item, C9::Item, C10::Item, C11::Item, C12::Item, C13::Item, C14::Item, C15::Item, C16::Item);
    type Error = ComposeCodecError17<C0::Error, C1::Error, C2::Error, C3::Error, C4::Error, C5::Error, C6::Error, C7::Error, C8::Error, C9::Error, C10::Error, C11::Error, C12::Error, C13::Error, C14::Error, C15::Error, C16::Error>;
    type Model = (C0::Model, C1::Model, C2::Model, C3::Model, C4::Model, C5::Model, C6::Model, C7::Model, C8::Model, C9::Model, C10::Model, C11::Model, C12::Model, C13::Model, C14::Model, C15::Model, C16::Model);

    open spec fn model(item: &Self::Item) -> Self::Model {
        (C0::model(&item.0), C1::model(&item.1), C2::model(&item.2), C3::model(&item.3), C4::model(&item.4), C5::model(&item.5), C6::model(&item.6), C7::model(&item.7), C8::model(&item.8), C9::model(&item.9), C10::model(&item.10), C11::model(&item.11), C12::model(&item.12), C13::model(&item.13), C14::model(&item.14), C15::model(&item.15), C16::model(&item.16))
    }

    open spec fn decoding(input: Seq<u8>) -> (Option<Self::Model>, nat) {
        let d0 = C0::decoding(input);
        let o1 = d0.1;
        match d0.0 {
            None => (None, o1),
            Some(m0) => {
                let d1 = C1::decoding(input.skip(o1 as int));
                let o2 = o1 + d1.1;
                match d1.0 {
                    None => (None, o2),
                    Some(m1) => {
                        let d2 = C2::decoding(input.skip(o2 as int));
                        let o3 = o2 + d2.1;
                        match d2.0 {
                            None => (None, o3),
                            Some(m2) => {
                                let d3 = C3::decoding(input.skip(o3 as int));
                                let o4 = o3 + d3.1;
                                match d3.0 {
                                    None => (None, o4),
                                    Some(m3) => {
                                        let d4 = C4::decoding(input.skip(o4 as int));
                                        let o5 = o4 + d4.1;
                                        match d4.0 {
                                            None => (None, o5),
                                            Some(m4) => {
                                                let d5 = C5::decoding(input.skip(o5 as int));
                                                let o6 = o5 + d5.1;
                                                match d5.0 {
                                                    None => (None, o6),
                                                    Some(m5) => {
                                                        let d6 = C6::decoding(input.skip(o6 as int));
                                                        let o7 = o6 + d6.1;
                                                        match d6.0 {
                                                            None => (None, o7),
                                                            Some(m6) => {
                                                                let d7 = C7::decoding(input.skip(o7 as int));
                                                                let o8 = o7 + d7.1;
                                                                match d7.0 {
                                                                    None => (None, o8),
                                                                    Some(m7) => {
                                                                        let d8 = C8::decoding(input.skip(o8 as int));
                                                                        let o9 = o8 + d8.1;
                                                                        match d8.0 {
                                                                            None => (None, o9),
                                                                            Some(m8) => {
                                                                                let d9 = C9::decoding(input.skip(o9 as int));
                                                                                let o10 = o9 + d9.1;
                                                                                match d9.0 {
                                                                                    None => (None, o10),
                                                                                    Some(m9) => {
                                                                                        let d10 = C10::decoding(input.skip(o10 as int));
                                                                                        let o11 = o10 + d10.1;
                                                                                        match d10.0 {
                                                                                            None => (None, o11),
                                                                                            Some(m10) => {
                                                                                                let d11 = C11::decoding(input.skip(o11 as int));
                                                                                                let o12 = o11 + d11.1;
                                                                                                match d11.0 {
                                                                                                    None => (None, o12),
                                                                                                    Some(m11) => {
                                                                                                        let d12 = C12::decoding(input.skip(o12 as int));
                                                                                                        let o13 = o12 + d12.1;
                                                                                                        match d12.0 {
                                                                                                            None => (None, o13),
                                                                                                            Some(m12) => {
                                                                                                                let d13 = C13::decoding(input.skip(o13 as int));
                                                                                                                let o14 = o13 + d13.1;
                                                                                                                match d13.0 {
                                                                                                                    None => (None, o14),
                                                                                                                    Some(m13) => {
                                                                                                                        let d14 = C14::decoding(input.skip(o14 as int));
                                                                                                                        let o15 = o14 + d14.1;
                                                                                                                        match d14.0 {
                                                                                                                            None => (None, o15),
                                                                                                                            Some(m14) => {
                                                                                                                                let d15 = C15::decoding(input.skip(o15 as int));
                                                                                                                                let o16 = o15 + d15.1;
                                                                                                                                match d15.0 {
                                                                                                                                    None => (None, o16),
                                                                                                                                    Some(m15) => {
                                                                                                                                        let d16 = C16::decoding(input.skip(o16 as int));
                                                                                                                                        let o17 = o16 + d16.1;
                                                                                                                                        match d16.0 {
                                                                                                                                            None => (None, o17),
                                                                                                                                            Some(m16) => (Some((m0, m1, m2, m3, m4, m5, m6, m7, m8, m9, m10, m11, m12, m13, m14, m15, m16)), o17),
                                                                                                                                        }
                                                                                                                                    },
                                                                                                                                }
                                                                                                                            },
                                                                                                                        }
                                                                                                                    },
                                                                                                                }
                                                                                                            },
                                                                                                        }
                                                                                                    },
                                                                                                }
                                                                                            },
                                                                                        }
                                                                                    },
                                                                                }
                                                                            },
                                                                        }
                                                                    },
                                                                }
                                                            },
                                                        }
                                                    },
                                                }
                                            },
                                        }
                                    },
                                }
                            },
                        }
                    },
                }
            },
        }
    }

    fn decode(bytes: &mut DecodingVec) -> (r: Result<Self::Item, Self::Error>)
        ensures
            ({
                let input = old(bytes)@;
                let d0 = C0::decoding(input);
                let o1 = d0.1;
                let d1 = C1::decoding(input.skip(o1 as int));
                let o2 = o1 + d1.1;
                let d2 = C2::decoding(input.skip(o2 as int));
                let o3 = o2 + d2.1;
                let d3 = C3::decoding(input.skip(o3 as int));
                let o4 = o3 + d3.1;
                let d4 = C4::decoding(input.skip(o4 as int));
                let o5 = o4 + d4.1;
                let d5 = C5::decoding(input.skip(o5 as int));
                let o6 = o5 + d5.1;
                let d6 = C6::decoding(input.skip(o6 as int));
                let o7 = o6 + d6.1;
                let d7 = C7::decoding(input.skip(o7 as int));
                let o8 = o7 + d7.1;
                let d8 = C8::decoding(input.skip(o8 as int));
                let o9 = o8 + d8.1;
                let d9 = C9::decoding(input.skip(o9 as int));
                let o10 = o9 + d9.1;
                let d10 = C10::decoding(input.skip(o10 as int));
                let o11 = o10 + d10.1;
                let d11 = C11::decoding(input.skip(o11 as int));
                let o12 = o11 + d11.1;
                let d12 = C12::decoding(input.skip(o12 as int));
                let o13 = o12 + d12.1;
                let d13 = C13::decoding(input.skip(o13 as int));
                let o14 = o13 + d13.1;
                let d14 = C14::decoding(input.skip(o14 as int));
                let o15 = o14 + d14.1;
                let d15 = C15::decoding(input.skip(o15 as int));
                let o16 = o15 + d15.1;
                let d16 = C16::decoding(input.skip(o16 as int));
                let o17 = o16 + d16.1;
                &&& (r matches Err(ComposeCodecError17::C0(_)) <==> d0.0 is None)
                &&& (r matches Err(ComposeCodecError17::C1(_)) <==> d0.0 is Some && d1.0 is None)
                &&& (r matches Err(ComposeCodecError17::C2(_)) <==> d0.0 is Some && d1.0 is Some && d2.0 is None)
                &&& (r matches Err(ComposeCodecError17::C3(_)) <==> d0.0 is Some && d1.0 is Some && d2.0 is Some && d3.0 is None)
                &&& (r matches Err(ComposeCodecError17::C4(_)) <==> d0.0 is Some && d1.0 is Some && d2.0 is Some && d3.0 is Some && d4.0 is None)
                &&& (r matches Err(ComposeCodecError17::C5(_)) <==> d0.0 is Some && d1.0 is Some && d2.0 is Some && d3.0 is Some && d4.0 is Some && d5.0 is None)
                &&& (r matches Err(ComposeCodecError17::C6(_)) <==> d0.0 is Some && d1.0 is Some && d2.0 is Some && d3.0 is Some && d4.0 is Some && d5.0 is Some && d6.0 is None)
                &&& (r matches Err(ComposeCodecError17::C7(_)) <==> d0.0 is Some && d1.0 is Some && d2.0 is Some && d3.0 is Some && d4.0 is Some && d5.0 is Some && d6.0 is Some && d7.0 is None)
                &&& (r matches Err(ComposeCodecError17::C8(_)) <==> d0.0 is Some && d1.0 is Some && d2.0 is Some && d3.0 is Some && d4.0 is Some && d5.0 is Some && d6.0 is Some && d7.0 is Some && d8.0 is None)
                &&& (r matches Err(ComposeCodecError17::C9(_)) <==> d0.0 is Some && d1.0 is Some && d2.0 is Some && d3.0 is Some && d4.0 is Some && d5.0 is Some && d6.0 is Some && d7.0 is Some && d8.0 is Some && d9.0 is None)
                &&& (r matches Err(ComposeCodecError17::C10(_)) <==> d0.0 is Some && d1.0 is Some && d2.0 is Some && d3.0 is Some && d4.0 is Some && d5.0 is Some && d6.0 is Some && d7.0 is Some && d8.0 is Some && d9.0 is Some && d10.0 is None)
                &&& (r matches Err(ComposeCodecError17::C11(_)) <==> d0.0 is Some && d1.0 is Some && d2.0 is Some && d3.0 is Some && d4.0 is Some && d5.0 is Some && d6.0 is Some && d7.0 is Some && d8.0 is Some && d9.0 is Some && d10.0 is Some && d11.0 is None)
                &&& (r matches Err(ComposeCodecError17::C12(_)) <==> d0.0 is Some && d1.0 is Some && d2.0 is Some && d3.0 is Some && d4.0 is Some && d5.0 is Some && d6.0 is Some && d7.0 is Some && d8.0 is Some && d9.0 is Some && d10.0 is Some && d11.0 is Some && d12.0 is None)
                &&& (r matches Err(ComposeCodecError17::C13(_)) <==> d0.0 is Some && d1.0 is Some && d2.0 is Some && d3.0 is Some && d4.0 is Some && d5.0 is Some && d6.0 is Some && d7.0 is Some && d8.0 is Some && d9.0 is Some && d10.0 is Some && d11.0 is Some && d12.0 is Some && d13.0 is None)
                &&& (r matches Err(ComposeCodecError17::C14(_)) <==> d0.0 is Some && d1.0 is Some && d2.0 is Some && d3.0 is Some && d4.0 is Some && d5.0 is Some && d6.0 is Some && d7.0 is Some && d8.0 is Some && d9.0 is Some && d10.0 is Some && d11.0 is Some && d12.0 is Some && d13.0 is Some && d14.0 is None)
                &&& (r matches Err(ComposeCodecError17::C15(_)) <==> d0.0 is Some && d1.0 is Some && d2.0 is Some && d3.0 is Some && d4.0 is Some && d5.0 is Some && d6.0 is Some && d7.0 is Some && d8.0 is Some && d9.0 is Some && d10.0 is Some && d11.0 is Some && d12.0 is Some && d13.0 is Some && d14.0 is Some && d15.0 is None)
                &&& (r matches Err(ComposeCodecError17::C16(_)) <==> d0.0 is Some && d1.0 is Some && d2.0 is Some && d3.0 is Some && d4.0 is Some && d5.0 is Some && d6.0 is Some && d7.0 is Some && d8.0 is Some && d9.0 is Some && d10.0 is Some && d11.0 is Some && d12.0 is Some && d13.0 is Some && d14.0 is Some && d15.0 is Some && d16.0 is None)
            }),
    {
        let ghost input = bytes@;
        let ghost o1 = C0::decoding(input).1;
        let r0 = C0::decode(bytes);
        assert(bytes@ =~= input.skip(o1 as int));
        let v0 = match r0 {
            Ok(v) => v,
            Err(e) => return Err(ComposeCodecError17::C0(e)),
        };
        let ghost o2 = o1 + C1::decoding(input.skip(o1 as int)).1;
        let r1 = C1::decode(bytes);
        assert(bytes@ =~= input.skip(o2 as int));
        let v1 = match r1 {
            Ok(v) => v,
            Err(e) => return Err(ComposeCodecError17::C1(e)),
        };
        let ghost o3 = o2 + C2::decoding(input.skip(o2 as int)).1;
        let r2 = C2::decode(bytes);
        assert(bytes@ =~= input.skip(o3 as int));
        let v2 = match r2 {
            Ok(v) => v,
            Err(e) => return Err(ComposeCodecError17::C2(e)),
        };
        let ghost o4 = o3 + C3::decoding(input.skip(o3 as int)).1;
        let r3 = C3::decode(bytes);
        assert(bytes@ =~= input.skip(o4 as int));
        let v3 = match r3 {
            Ok(v) => v,
            Err(e) => return Err(ComposeCodecError17::C3(e)),
        };
        let ghost o5 = o4 + C4::decoding(input.skip(o4 as int)).1;
        let r4 = C4::decode(bytes);
        assert(bytes@ =~= input.skip(o5 as int));
        let v4 = match r4 {
            Ok(v) => v,
            Err(e) => return Err(ComposeCodecError17::C4(e)),
        };
        let ghost o6 = o5 + C5::decoding(input.skip(o5 as int)).1;
        let r5 = C5::decode(bytes);
        assert(bytes@ =~= input.skip(o6 as int));
        let v5 = match r5 {
            Ok(v) => v,
            Err(e) => return Err(ComposeCodecError17::C5(e)),
        };
        let ghost o7 = o6 + C6::decoding(input.skip(o6 as int)).1;
        let r6 = C6::decode(bytes);
        assert(bytes@ =~= input.skip(o7 as int));
        let v6 = match r6 {
            Ok(v) => v,
            Err(e) => return Err(ComposeCodecError17::C6(e)),
        };
        let ghost o8 = o7 + C7::decoding(input.skip(o7 as int)).1;
        let r7 = C7::decode(bytes);
        assert(bytes@ =~= input.skip(o8 as int));
        let v7 = match r7 {
            Ok(v) => v,
            Err(e) => return Err(ComposeCodecError17::C7(e)),
        };
        let ghost o9 = o8 + C8::decoding(input.skip(o8 as int)).1;
        let r8 = C8::decode(bytes);
        assert(bytes@ =~= input.skip(o9 as int));
        let v8 = match r8 {
            Ok(v) => v,
            Err(e) => return Err(ComposeCodecError17::C8(e)),
        };
        let ghost o10 = o9 + C9::decoding(input.skip(o9 as int)).1;
        let r9 = C9::decode(bytes);
        assert(bytes@ =~= input.skip(o10 as int));
        let v9 = match r9 {
            Ok(v) => v,
            Err(e) => return Err(ComposeCodecError17::C9(e)),
        };
        let ghost o11 = o10 + C10::decoding(input.skip(o10 as int)).1;
        let r10 = C10::decode(bytes);
        assert(bytes@ =~= input.skip(o11 as int));
        let v10 = match r10 {
            Ok(v) => v,
            Err(e) => return Err(ComposeCodecError17::C10(e)),
        };
        let ghost o12 = o11 + C11::decoding(input.skip(o11 as int)).1;
        let r11 = C11::decode(bytes);
        assert(bytes@ =~= input.skip(o12 as int));
        let v11 = match r11 {
            Ok(v) => v,
            Err(e) => return Err(ComposeCodecError17::C11(e)),
        };
        let ghost o13 = o12 + C12::decoding(input.skip(o12 as int)).1;
        let r12 = C12::decode(bytes);
        assert(bytes@ =~= input.skip(o13 as int));
        let v12 = match r12 {
            Ok(v) => v,
            Err(e) => return Err(ComposeCodecError17::C12(e)),
        };
        let ghost o14 = o13 + C13::decoding(input.skip(o13 as int)).1;
        let r13 = C13::decode(bytes);
        assert(bytes@ =~= input.skip(o14 as int));
        let v13 = match r13 {
            Ok(v) => v,
            Err(e) => return Err(ComposeCodecError17::C13(e)),
        };
        let ghost o15 = o14 + C14::decoding(input.skip(o14 as int)).1;
        let r14 = C14::decode(bytes);
        assert(bytes@ =~= input.skip(o15 as int));
        let v14 = match r14 {
            Ok(v) => v,
            Err(e) => return Err(ComposeCodecError17::C14(e)),
        };
        let ghost o16 = o15 + C15::decoding(input.skip(o15 as int)).1;
        let r15 = C15::decode(bytes);
        assert(bytes@ =~= input.skip(o16 as int));
        let v15 = match r15 {
            Ok(v) => v,
            Err(e) => return Err(ComposeCodecError17::C15(e)),
        };
        let ghost o17 = o16 + C16::decoding(input.skip(o16 as int)).1;
        let r16 = C16::decode(bytes);
        assert(bytes@ =~= input.skip(o17 as int));
        let v16 = match r16 {
            Ok(v) => v,
            Err(e) => return Err(ComposeCodecError17::C16(e)),
        };
        Ok((v0, v1, v2, v3, v4, v5, v6, v7, v8, v9, v10, v11, v12, v13, v14, v15, v16))
    }
}

/// When every codec but the last recovers its item whatever follows it, and the last one
/// recovers its item from its own encoding, the composition recovers the whole tuple from
/// its encoding.
pub proof fn lemma_compose17_roundtrip<'a, C0: Encode<'a> + Decode, C1: Encode<'a> + Decode, C2: Encode<'a> + Decode, C3: Encode<'a> + Decode, C4: Encode<'a> + Decode, C5: Encode<'a> + Decode, C6: Encode<'a> + Decode, C7: Encode<'a> + Decode, C8: Encode<'a> + Decode, C9: Encode<'a> + Decode, C10: Encode<'a> + Decode, C11: Encode<'a> + Decode, C12: Encode<'a> + Decode, C13: Encode<'a> + Decode, C14: Encode<'a> + Decode, C15: Encode<'a> + Decode, C16: Encode<'a> + Decode>(
    item: &<ComposeCodec<(C0, C1, C2, C3, C4, C5, C6, C7, C8, C9, C10, C11, C12, C13, C14, C15, C16)> as Encode<'a>>::Item,
    m0: <C0 as Decode>::Model, m1: <C1 as Decode>::Model, m2: <C2 as Decode>::Model, m3: <C3 as Decode>::Model, m4: <C4 as Decode>::Model, m5: <C5 as Decode>::Model, m6: <C6 as Decode>::Model, m7: <C7 as Decode>::Model, m8: <C8 as Decode>::Model, m9: <C9 as Decode>::Model, m10: <C10 as Decode>::Model, m11: <C11 as Decode>::Model, m12: <C12 as Decode>::Model, m13: <C13 as Decode>::Model, m14: <C14 as Decode>::Model, m15: <C15 as Decode>::Model, m16: <C16 as Decode>::Model,
)
    requires
        roundtrips_before_anything::<C0>(item.0, m0),
        roundtrips_before_anything::<C1>(item.1, m1),
        roundtrips_before_anything::<C2>(item.2, m2),
        roundtrips_before_anything::<C3>(item.3, m3),
        roundtrips_before_anything::<C4>(item.4, m4),
        roundtrips_before_anything::<C5>(item.5, m5),
        roundtrips_before_anything::<C6>(item.6, m6),
        roundtrips_before_anything::<C7>(item.7, m7),
        roundtrips_before_anything::<C8>(item.8, m8),
        roundtrips_before_anything::<C9>(item.9, m9),
        roundtrips_before_anything::<C10>(item.10, m10),
        roundtrips_before_anything::<C11>(item.11, m11),
        roundtrips_before_anything::<C12>(item.12, m12),
        roundtrips_before_anything::<C13>(item.13, m13),
        roundtrips_before_anything::<C14>(item.14, m14),
        roundtrips_before_anything::<C15>(item.15, m15),
        roundtrips_alone::<C16>(item.16, m16),
    ensures
        roundtrips_alone::<ComposeCodec<(C0, C1, C2, C3, C4, C5, C6, C7, C8, C9, C10, C11, C12, C13, C14, C15, C16)>>(item, (m0, m1, m2, m3, m4, m5, m6, m7, m8, m9, m10, m11, m12, m13, m14, m15, m16)),
{
    let b0 = C0::encoding(item.0).unwrap();
    let b1 = C1::encoding(item.1).unwrap();
    let b2 = C2::encoding(item.2).unwrap();
    let b3 = C3::encoding(item.3).unwrap();
    let b4 = C4::encoding(item.4).unwrap();
    let b5 = C5::encoding(item.5).unwrap();
    let b6 = C6::encoding(item.6).unwrap();
    let b7 = C7::encoding(item.7).unwrap();
    let b8 = C8::encoding(item.8).unwrap();
    let b9 = C9::encoding(item.9).unwrap();
    let b10 = C10::encoding(item.10).unwrap();
    let b11 = C11::encoding(item.11).unwrap();
    let b12 = C12::encoding(item.12).unwrap();
    let b13 = C13::encoding(item.13).unwrap();
    let b14 = C14::encoding(item.14).unwrap();
    let b15 = C15::encoding(item.15).unwrap();
    let b16 = C16::encoding(item.16).unwrap();
    let p1 = b0;
    let p2 = p1 + b1;
    let p3 = p2 + b2;
    let p4 = p3 + b3;
    let p5 = p4 + b4;
    let p6 = p5 + b5;
    let p7 = p6 + b6;
    let p8 = p7 + b7;
    let p9 = p8 + b8;
    let p10 = p9 + b9;
    let p11 = p10 + b10;
    let p12 = p11 + b11;
    let p13 = p12 + b12;
    let p14 = p13 + b13;
    let p15 = p14 + b14;
    let p16 = p15 + b15;
    let p17 = p16 + b16;
    assert(ComposeCodec::<(C0, C1, C2, C3, C4, C5, C6, C7, C8, C9, C10, C11, C12, C13, C14, C15, C16)>::encoding(item) == Some(p17));
    let t16 = b16;
    let t15 = b15 + t16;
    lemma_concat_assoc(p15, b15, t16);
    let t14 = b14 + t15;
    lemma_concat_assoc(p14, b14, t15);
    let t13 = b13 + t14;
    lemma_concat_assoc(p13, b13, t14);
    let t12 = b12 + t13;
    lemma_concat_assoc(p12, b12, t13);
    let t11 = b11 + t12;
    lemma_concat_assoc(p11, b11, t12);
    let t10 = b10 + t11;
    lemma_concat_assoc(p10, b10, t11);
    let t9 = b9 + t10;
    lemma_concat_assoc(p9, b9, t10);
    let t8 = b8 + t9;
    lemma_concat_assoc(p8, b8, t9);
    let t7 = b7 + t8;
    lemma_concat_assoc(p7, b7, t8);
    let t6 = b6 + t7;
    lemma_concat_assoc(p6, b6, t7);
    let t5 = b5 + t6;
    lemma_concat_assoc(p5, b5, t6);
    let t4 = b4 + t5;
    lemma_concat_assoc(p4, b4, t5);
    let t3 = b3 + t4;
    lemma_concat_assoc(p3, b3, t4);
    let t2 = b2 + t3;
    lemma_concat_assoc(p2, b2, t3);
    let t1 = b1 + t2;
    lemma_concat_assoc(p1, b1, t2);
    lemma_skip_prefix(p1, t1);
    lemma_skip_prefix(p2, t2);
    lemma_skip_prefix(p3, t3);
    lemma_skip_prefix(p4, t4);
    lemma_skip_prefix(p5, t5);
    lemma_skip_prefix(p6, t6);
    lemma_skip_prefix(p7, t7);
    lemma_skip_prefix(p8, t8);
    lemma_skip_prefix(p9, t9);
    lemma_skip_prefix(p10, t10);
    lemma_skip_prefix(p11, t11);
    lemma_skip_prefix(p12, t12);
    lemma_skip_prefix(p13, t13);
    lemma_skip_prefix(p14, t14);
    lemma_skip_prefix(p15, t15);
    lemma_skip_prefix(p16, t16);
    assert(C0::decoding(b0 + t1) == (Some(m0), b0.len()));
    assert(C1::decoding(b1 + t2) == (Some(m1), b1.len()));
    assert(C2::decoding(b2 + t3) == (Some(m2), b2.len()));
    assert(C3::decoding(b3 + t4) == (Some(m3), b3.len()));
    assert(C4::decoding(b4 + t5) == (Some(m4), b4.len()));
    assert(C5::decoding(b5 + t6) == (Some(m5), b5.len()));
    assert(C6::decoding(b6 + t7) == (Some(m6), b6.len()));
    assert(C7::decoding(b7 + t8) == (Some(m7), b7.len()));
    assert(C8::decoding(b8 + t9) == (Some(m8), b8.len()));
    assert(C9::decoding(b9 + t10) == (Some(m9), b9.len()));
    assert(C10::decoding(b10 + t11) == (Some(m10), b10.len()));
    assert(C11::decoding(b11 + t12) == (Some(m11), b11.len()));
    assert(C12::decoding(b12 + t13) == (Some(m12), b12.len()));
    assert(C13::decoding(b13 + t14) == (Some(m13), b13.len()));
    assert(C14::decoding(b14 + t15) == (Some(m14), b14.len()));
    assert(C15::decoding(b15 + t16) == (Some(m15), b15.len()));
    assert(C16::decoding(b16) == (Some(m16), b16.len()));
}

/// When every codec recovers its item whatever follows it, so does the composition: it can
/// itself stand before another codec.
pub proof fn lemma_compose17_roundtrip_before_anything<'a, C0: Encode<'a> + Decode, C1: Encode<'a> + Decode, C2: Encode<'a> + Decode, C3: Encode<'a> + Decode, C4: Encode<'a> + Decode, C5: Encode<'a> + Decode, C6: Encode<'a> + Decode, C7: Encode<'a> + Decode, C8: Encode<'a> + Decode, C9: Encode<'a> + Decode, C10: Encode<'a> + Decode, C11: Encode<'a> + Decode, C12: Encode<'a> + Decode, C13: Encode<'a> + Decode, C14: Encode<'a> + Decode, C15: Encode<'a> + Decode, C16: Encode<'a> + Decode>(
    item: &<ComposeCodec<(C0, C1, C2, C3, C4, C5, C6, C7, C8, C9, C10, C11, C12, C13, C14, C15, C16)> as Encode<'a>>::Item,
    m0: <C0 as Decode>::Model, m1: <C1 as Decode>::Model, m2: <C2 as Decode>::Model, m3: <C3 as Decode>::Model, m4: <C4 as Decode>::Model, m5: <C5 as Decode>::Model, m6: <C6 as Decode>::Model, m7: <C7 as Decode>::Model, m8: <C8 as Decode>::Model, m9: <C9 as Decode>::Model, m10: <C10 as Decode>::Model, m11: <C11 as Decode>::Model, m12: <C12 as Decode>::Model, m13: <C13 as Decode>::Model, m14: <C14 as Decode>::Model, m15: <C15 as Decode>::Model, m16: <C16 as Decode>::Model,
)
    requires
        roundtrips_before_anything::<C0>(item.0, m0),
        roundtrips_before_anything::<C1>(item.1, m1),
        roundtrips_before_anything::<C2>(item.2, m2),
        roundtrips_before_anything::<C3>(item.3, m3),
        roundtrips_before_anything::<C4>(item.4, m4),
        roundtrips_before_anything::<C5>(item.5, m5),
        roundtrips_before_anything::<C6>(item.6, m6),
        roundtrips_before_anything::<C7>(item.7, m7),
        roundtrips_before_anything::<C8>(item.8, m8),
        roundtrips_before_anything::<C9>(item.9, m9),
        roundtrips_before_anything::<C10>(item.10, m10),
        roundtrips_before_anything::<C11>(item.11, m11),
        roundtrips_before_anything::<C12>(item.12, m12),
        roundtrips_before_anything::<C13>(item.13, m13),
        roundtrips_before_anything::<C14>(item.14, m14),
        roundtrips_before_anything::<C15>(item.15, m15),
        roundtrips_before_anything::<C16>(item.16, m16),
    ensures
        roundtrips_before_anything::<ComposeCodec<(C0, C1, C2, C3, C4, C5, C6, C7, C8, C9, C10, C11, C12, C13, C14, C15, C16)>>(item, (m0, m1, m2, m3, m4, m5, m6, m7, m8, m9, m10, m11, m12, m13, m14, m15, m16)),
{
    let b0 = C0::encoding(item.0).unwrap();
    let b1 = C1::encoding(item.1).unwrap();
    let b2 = C2::encoding(item.2).unwrap();
    let b3 = C3::encoding(item.3).unwrap();
    let b4 = C4::encoding(item.4).unwrap();
    let b5 = C5::encoding(item.5).unwrap();
    let b6 = C6::encoding(item.6).unwrap();
    let b7 = C7::encoding(item.7).unwrap();
    let b8 = C8::encoding(item.8).unwrap();
    let b9 = C9::encoding(item.9).unwrap();
    let b10 = C10::encoding(item.10).unwrap();
    let b11 = C11::encoding(item.11).unwrap();
    let b12 = C12::encoding(item.12).unwrap();
    let b13 = C13::encoding(item.13).unwrap();
    let b14 = C14::encoding(item.14).unwrap();
    let b15 = C15::encoding(item.15).unwrap();
    let b16 = C16::encoding(item.16).unwrap();
    let p1 = b0;
    let p2 = p1 + b1;
    let p3 = p2 + b2;
    let p4 = p3 + b3;
    let p5 = p4 + b4;
    let p6 = p5 + b5;
    let p7 = p6 + b6;
    let p8 = p7 + b7;
    let p9 = p8 + b8;
    let p10 = p9 + b9;
    let p11 = p10 + b10;
    let p12 = p11 + b11;
    let p13 = p12 + b12;
    let p14 = p13 + b13;
    let p15 = p14 + b14;
    let p16 = p15 + b15;
    let p17 = p16 + b16;
    assert(ComposeCodec::<(C0, C1, C2, C3, C4, C5, C6, C7, C8, C9, C10, C11, C12, C13, C14, C15, C16)>::encoding(item) == Some(p17));
    assert forall|rest: Seq<u8>|
        #[trigger] ComposeCodec::<(C0, C1, C2, C3, C4, C5, C6, C7, C8, C9, C10, C11, C12, C13, C14, C15, C16)>::decoding(p17 + rest) == (Some((m0, m1, m2, m3, m4, m5, m6, m7, m8, m9, m10, m11, m12, m13, m14, m15, m16)), p17.len()) by {
        let t17 = rest;
        let t16 = b16 + t17;
        lemma_concat_assoc(p16, b16, t17);
        let t15 = b15 + t16;
        lemma_concat_assoc(p15, b15, t16);
        let t14 = b14 + t15;
        lemma_concat_assoc(p14, b14, t15);
        let t13 = b13 + t14;
        lemma_concat_assoc(p13, b13, t14);
        let t12 = b12 + t13;
        lemma_concat_assoc(p12, b12, t13);
        let t11 = b11 + t12;
        lemma_concat_assoc(p11, b11, t12);
        let t10 = b10 + t11;
        lemma_concat_assoc(p10, b10, t11);
        let t9 = b9 + t10;
        lemma_concat_assoc(p9, b9, t10);
        let t8 = b8 + t9;
        lemma_concat_assoc(p8, b8, t9);
        let t7 = b7 + t8;
        lemma_concat_assoc(p7, b7, t8);
        let t6 = b6 + t7;
        lemma_concat_assoc(p6, b6, t7);
        let t5 = b5 + t6;
        lemma_concat_assoc(p5, b5, t6);
        let t4 = b4 + t5;
        lemma_concat_assoc(p4, b4, t5);
        let t3 = b3 + t4;
        lemma_concat_assoc(p3, b3, t4);
        let t2 = b2 + t3;
        lemma_concat_assoc(p2, b2, t3);
        let t1 = b1 + t2;
        lemma_concat_assoc(p1, b1, t2);
        lemma_skip_prefix(p1, t1);
        lemma_skip_prefix(p2, t2);
        lemma_skip_prefix(p3, t3);
        lemma_skip_prefix(p4, t4);
        lemma_skip_prefix(p5, t5);
        lemma_skip_prefix(p6, t6);
        lemma_skip_prefix(p7, t7);
        lemma_skip_prefix(p8, t8);
        lemma_skip_prefix(p9, t9);
        lemma_skip_prefix(p10, t10);
        lemma_skip_prefix(p11, t11);
        lemma_skip_prefix(p12, t12);
        lemma_skip_prefix(p13, t13);
        lemma_skip_prefix(p14, t14);
        lemma_skip_prefix(p15, t15);
        lemma_skip_prefix(p16, t16);
        assert(C0::decoding(b0 + t1) == (Some(m0), b0.len()));
        assert(C1::decoding(b1 + t2) == (Some(m1), b1.len()));
        assert(C2::decoding(b2 + t3) == (Some(m2), b2.len()));
        assert(C3::decoding(b3 + t4) == (Some(m3), b3.len()));
        assert(C4::decoding(b4 + t5) == (Some(m4), b4.len()));
        assert(C5::decoding(b5 + t6) == (Some(m5), b5.len()));
        assert(C6::decoding(b6 + t7) == (Some(m6), b6.len()));
        assert(C7::decoding(b7 + t8) == (Some(m7), b7.len()));
        assert(C8::decoding(b8 + t9) == (Some(m8), b8.len()));
        assert(C9::decoding(b9 + t10) == (Some(m9), b9.len()));
        assert(C10::decoding(b10 + t11) == (Some(m10), b10.len()));
        assert(C11::decoding(b11 + t12) == (Some(m11), b11.len()));
        assert(C12::decoding(b12 + t13) == (Some(m12), b12.len()));
        assert(C13::decoding(b13 + t14) == (Some(m13), b13.len()));
        assert(C14::decoding(b14 + t15) == (Some(m14), b14.len()));
        assert(C15::decoding(b15 + t16) == (Some(m15), b15.len()));
        assert(C16::decoding(b16 + t17) == (Some(m16), b16.len()));
    }
}

/// Why a composition of 18 codecs failed: the variant names the codec that failed.
#[derive(Debug)]
pub enum ComposeCodecError18<C0, C1, C2, C3, C4, C5, C6, C7, C8, C9, C10, C11, C12, C13, C14, C15, C16, C17> {
    /// The codec in position 0 failed.
    C0(C0),
    /// The codec in position 1 failed.
    C1(C1),
    /// The codec in position 2 failed.
    C2(C2),
    /// The codec in position 3 failed.
    C3(C3),
    /// The codec in position 4 failed.
    C4(C4),
    /// The codec in position 5 failed.
    C5(C5),
    /// The codec in position 6 failed.
    C6(C6),
    /// The codec in position 7 failed.
    C7(C7),
    /// The codec in position 8 failed.
    C8(C8),
    /// The codec in position 9 failed.
    C9(C9),
    /// The codec in position 10 failed.
    C10(C10),
    /// The codec in position 11 failed.
    C11(C11),
    /// The codec in position 12 failed.
    C12(C12),
    /// The codec in position 13 failed.
    C13(C13),
    /// The codec in position 14 failed.
    C14(C14),
    /// The codec in position 15 failed.
    C15(C15),
    /// The codec in position 16 failed.
    C16(C16),
    /// The codec in position 17 failed.
    C17(C17),
}

impl<'a, C0: Encode<'a>, C1: Encode<'a>, C2: Encode<'a>, C3: Encode<'a>, C4: Encode<'a>, C5: Encode<'a>, C6: Encode<'a>, C7: Encode<'a>, C8: Encode<'a>, C9: Encode<'a>, C10: Encode<'a>, C11: Encode<'a>, C12: Encode<'a>, C13: Encode<'a>, C14: Encode<'a>, C15: Encode<'a>, C16: Encode<'a>, C17: Encode<'a>> Encode<'a> for ComposeCodec<(C0, C1, C2, C3, C4, C5, C6, C7, C8, C9, C10, C11, C12, C13, C14, C15, C16, C17)> {
    type Item = (&'a C0::Item, &'a C1::Item, &'a C2::Item, &'a C3::Item, &'a C4::Item, &'a C5::Item, &'a C6::Item, &'a C7::Item, &'a C8::Item, &'a C9::Item, &'a C10::Item, &'a C11::Item, &'a C12::Item, &'a C13::Item, &'a C14::Item, &'a C15::Item, &'a C16::Item, &'a C17::Item);
    type Error = ComposeCodecError18<C0::Error, C1::Error, C2::Error, C3::Error, C4::Error, C5::Error, C6::Error, C7::Error, C8::Error, C9::Error, C10::Error, C11::Error, C12::Error, C13::Error, C14::Error, C15::Error, C16::Error, C17::Error>;

    open spec fn encoding(item: &Self::Item) -> Option<Seq<u8>> {
        match C0::encoding(item.0) {
            None => None,
            Some(b0) => {
                match C1::encoding(item.1) {
                    None => None,
                    Some(b1) => {
                        match C2::encoding(item.2) {
                            None => None,
                            Some(b2) => {
                                match C3::encoding(item.3) {
                                    None => None,
                                    Some(b3) => {
                                        match C4::encoding(item.4) {
                                            None => None,
                                            Some(b4) => {
                                                match C5::encoding(item.5) {
                                                    None => None,
                                                    Some(b5) => {
                                                        match C6::encoding(item.6) {
                                                            None => None,
                                                            Some(b6) => {
                                                                match C7::encoding(item.7) {
                                                                    None => None,
                                                                    Some(b7) => {
                                                                        match C8::encoding(item.8) {
                                                                            None => None,
                                                                            Some(b8) => {
                                                                                match C9::encoding(item.9) {
                                                                                    None => None,
                                                                                    Some(b9) => {
                                                                                        match C10::encoding(item.10) {
                                                                                            None => None,
                                                                                            Some(b10) => {
                                                                                                match C11::encoding(item.11) {
                                                                                                    None => None,
                                                                                                    Some(b11) => {
                                                                                                        match C12::encoding(item.12) {
                                                                                                            None => None,
                                                                                                            Some(b12) => {
                                                                                                                match C13::encoding(item.13) {
                                                                                                                    None => None,
                                                                                                                    Some(b13) => {
                                                                                                                        match C14::encoding(item.14) {
                                                                                                                            None => None,
                                                                                                                            Some(b14) => {
                                                                                                                                match C15::encoding(item.15) {
                                                                                                                                    None => None,
                                                                                                                                    Some(b15) => {
                                                                                                                                        match C16::encoding(item.16) {
                                                                                                                                            None => None,
                                                                                                                                            Some(b16) => {
                                                                                                                                                match C17::encoding(item.17) {
                                                                                                                                                    None => None,
                                                                                                                                                    Some(b17) => Some(b0 + b1 + b2 + b3 + b4 + b5 + b6 + b7 + b8 + b9 + b10 + b11 + b12 + b13 + b14 + b15 + b16 + b17),
                                                                                                                                                }
                                                                                                                                            },
                                                                                                                                        }
                                                                                                                                    },
                                                                                                                                }
                                                                                                                            },
                                                                                                                        }
                                                                                                                    },
                                                                                                                }
                                                                                                            },
                                                                                                        }
                                                                                                    },
                                                                                                }
                                                                                            },
                                                                                        }
                                                                                    },
                                                                                }
                                                                            },
                                                                        }
                                                                    },
                                                                }
                                                            },
                                                        }
                                                    },
                                                }
                                            },
                                        }
                                    },
                                }
                            },
                        }
                    },
                }
            },
        }
    }

    fn encode(into: EncodingVec<Fresh>, item: &Self::Item) -> (r: Result<EncodingVec<Fresh>, Self::Error>)
        ensures
            r matches Err(ComposeCodecError18::C0(_)) ==> C0::encoding(item.0) is None,
            r matches Err(ComposeCodecError18::C1(_)) ==> C0::encoding(item.0) is Some && C1::encoding(item.1) is None,
            r matches Err(ComposeCodecError18::C2(_)) ==> C0::encoding(item.0) is Some && C1::encoding(item.1) is Some && C2::encoding(item.2) is None,
            r matches Err(ComposeCodecError18::C3(_)) ==> C0::encoding(item.0) is Some && C1::encoding(item.1) is Some && C2::encoding(item.2) is Some && C3::encoding(item.3) is None,
            r matches Err(ComposeCodecError18::C4(_)) ==> C0::encoding(item.0) is Some && C1::encoding(item.1) is Some && C2::encoding(item.2) is Some && C3::encoding(item.3) is Some && C4::encoding(item.4) is None,
            r matches Err(ComposeCodecError18::C5(_)) ==> C0::encoding(item.0) is Some && C1::encoding(item.1) is Some && C2::encoding(item.2) is Some && C3::encoding(item.3) is Some && C4::encoding(item.4) is Some && C5::encoding(item.5) is None,
            r matches Err(ComposeCodecError18::C6(_)) ==> C0::encoding(item.0) is Some && C1::encoding(item.1) is Some && C2::encoding(item.2) is Some && C3::encoding(item.3) is Some && C4::encoding(item.4) is Some && C5::encoding(item.5) is Some && C6::encoding(item.6) is None,
            r matches Err(ComposeCodecError18::C7(_)) ==> C0::encoding(item.0) is Some && C1::encoding(item.1) is Some && C2::encoding(item.2) is Some && C3::encoding(item.3) is Some && C4::encoding(item.4) is Some && C5::encoding(item.5) is Some && C6::encoding(item.6) is Some && C7::encoding(item.7) is None,
            r matches Err(ComposeCodecError18::C8(_)) ==> C0::encoding(item.0) is Some && C1::encoding(item.1) is Some && C2::encoding(item.2) is Some && C3::encoding(item.3) is Some && C4::encoding(item.4) is Some && C5::encoding(item.5) is Some && C6::encoding(item.6) is Some && C7::encoding(item.7) is Some && C8::encoding(item.8) is None,
            r matches Err(ComposeCodecError18::C9(_)) ==> C0::encoding(item.0) is Some && C1::encoding(item.1) is Some && C2::encoding(item.2) is Some && C3::encoding(item.3) is Some && C4::encoding(item.4) is Some && C5::encoding(item.5) is Some && C6::encoding(item.6) is Some && C7::encoding(item.7) is Some && C8::encoding(item.8) is Some && C9::encoding(item.9) is None,
            r matches Err(ComposeCodecError18::C10(_)) ==> C0::encoding(item.0) is Some && C1::encoding(item.1) is Some && C2::encoding(item.2) is Some && C3::encoding(item.3) is Some && C4::encoding(item.4) is Some && C5::encoding(item.5) is Some && C6::encoding(item.6) is Some && C7::encoding(item.7) is Some && C8::encoding(item.8) is Some && C9::encoding(item.9) is Some && C10::encoding(item.10) is None,
            r matches Err(ComposeCodecError18::C11(_)) ==> C0::encoding(item.0) is Some && C1::encoding(item.1) is Some && C2::encoding(item.2) is Some && C3::encoding(item.3) is Some && C4::encoding(item.4) is Some && C5::encoding(item.5) is Some && C6::encoding(item.6) is Some && C7::encoding(item.7) is Some && C8::encoding(item.8) is Some && C9::encoding(item.9) is Some && C10::encoding(item.10) is Some && C11::encoding(item.11) is None,
            r matches Err(ComposeCodecError18::C12(_)) ==> C0::encoding(item.0) is Some && C1::encoding(item.1) is Some && C2::encoding(item.2) is Some && C3::encoding(item.3) is Some && C4::encoding(item.4) is Some && C5::encoding(item.5) is Some && C6::encoding(item.6) is Some && C7::encoding(item.7) is Some && C8::encoding(item.8) is Some && C9::encoding(item.9) is Some && C10::encoding(item.10) is Some && C11::encoding(item.11) is Some && C12::encoding(item.12) is None,
            r matches Err(ComposeCodecError18::C13(_)) ==> C0::encoding(item.0) is Some && C1::encoding(item.1) is Some && C2::encoding(item.2) is Some && C3::encoding(item.3) is Some && C4::encoding(item.4) is Some && C5::encoding(item.5) is Some && C6::encoding(item.6) is Some && C7::encoding(item.7) is Some && C8::encoding(item.8) is Some && C9::encoding(item.9) is Some && C10::encoding(item.10) is Some && C11::encoding(item.11) is Some && C12::encoding(item.12) is Some && C13::encoding(item.13) is None,
            r matches Err(ComposeCodecError18::C14(_)) ==> C0::encoding(item.0) is Some && C1::encoding(item.1) is Some && C2::encoding(item.2) is Some && C3::encoding(item.3) is Some && C4::encoding(item.4) is Some && C5::encoding(item.5) is Some && C6::encoding(item.6) is Some && C7::encoding(item.7) is Some && C8::encoding(item.8) is Some && C9::encoding(item.9) is Some && C10::encoding(item.10) is Some && C11::encoding(item.11) is Some && C12::encoding(item.12) is Some && C13::encoding(item.13) is Some && C14::encoding(item.14) is None,
            r matches Err(ComposeCodecError18::C15(_)) ==> C0::encoding(item.0) is Some && C1::encoding(item.1) is Some && C2::encoding(item.2) is Some && C3::encoding(item.3) is Some && C4::encoding(item.4) is Some && C5::encoding(item.5) is Some && C6::encoding(item.6) is Some && C7::encoding(item.7) is Some && C8::encoding(item.8) is Some && C9::encoding(item.9) is Some && C10::encoding(item.10) is Some && C11::encoding(item.11) is Some && C12::encoding(item.12) is Some && C13::encoding(item.13) is Some && C14::encoding(item.14) is Some && C15::encoding(item.15) is None,
            r matches Err(ComposeCodecError18::C16(_)) ==> C0::encoding(item.0) is Some && C1::encoding(item.1) is Some && C2::encoding(item.2) is Some && C3::encoding(item.3) is Some && C4::encoding(item.4) is Some && C5::encoding(item.5) is Some && C6::encoding(item.6) is Some && C7::encoding(item.7) is Some && C8::encoding(item.8) is Some && C9::encoding(item.9) is Some && C10::encoding(item.10) is Some && C11::encoding(item.11) is Some && C12::encoding(item.12) is Some && C13::encoding(item.13) is Some && C14::encoding(item.14) is Some && C15::encoding(item.15) is Some && C16::encoding(item.16) is None,
            r matches Err(ComposeCodecError18::C17(_)) ==> C0::encoding(item.0) is Some && C1::encoding(item.1) is Some && C2::encoding(item.2) is Some && C3::encoding(item.3) is Some && C4::encoding(item.4) is Some && C5::encoding(item.5) is Some && C6::encoding(item.6) is Some && C7::encoding(item.7) is Some && C8::encoding(item.8) is Some && C9::encoding(item.9) is Some && C10::encoding(item.10) is Some && C11::encoding(item.11) is Some && C12::encoding(item.12) is Some && C13::encoding(item.13) is Some && C14::encoding(item.14) is Some && C15::encoding(item.15) is Some && C16::encoding(item.16) is Some && C17::encoding(item.17) is None,
    {
        let ghost start = into.bytes();
        let ret = match C0::encode(into, item.0) {
            Ok(v) => v,
            Err(e) => return Err(ComposeCodecError18::C0(e)),
        };
        let ghost acc0 = C0::encoding(item.0).unwrap();
        let ret = match C1::encode(ret, item.1) {
            Ok(v) => v,
            Err(e) => return Err(ComposeCodecError18::C1(e)),
        };
        let ghost acc1 = acc0 + C1::encoding(item.1).unwrap();
        proof {
            lemma_concat_assoc(start, acc0, C1::encoding(item.1).unwrap());
        }
        let ret = match C2::encode(ret, item.2) {
            Ok(v) => v,
            Err(e) => return Err(ComposeCodecError18::C2(e)),
        };
        let ghost acc2 = acc1 + C2::encoding(item.2).unwrap();
        proof {
            lemma_concat_assoc(start, acc1, C2::encoding(item.2).unwrap());
        }
        let ret = match C3::encode(ret, item.3) {
            Ok(v) => v,
            Err(e) => return Err(ComposeCodecError18::C3(e)),
        };
        let ghost acc3 = acc2 + C3::encoding(item.3).unwrap();
        proof {
            lemma_concat_assoc(start, acc2, C3::encoding(item.3).unwrap());
        }
        let ret = match C4::encode(ret, item.4) {
            Ok(v) => v,
            Err(e) => return Err(ComposeCodecError18::C4(e)),
        };
        let ghost acc4 = acc3 + C4::encoding(item.4).unwrap();
        proof {
            lemma_concat_assoc(start, acc3, C4::encoding(item.4).unwrap());
        }
        let ret = match C5::encode(ret, item.5) {
            Ok(v) => v,
            Err(e) => return Err(ComposeCodecError18::C5(e)),
        };
        let ghost acc5 = acc4 + C5::encoding(item.5).unwrap();
        proof {
            lemma_concat_assoc(start, acc4, C5::encoding(item.5).unwrap());
        }
        let ret = match C6::encode(ret, item.6) {
            Ok(v) => v,
            Err(e) => return Err(ComposeCodecError18::C6(e)),
        };
        let ghost acc6 = acc5 + C6::encoding(item.6).unwrap();
        proof {
            lemma_concat_assoc(start, acc5, C6::encoding(item.6).unwrap());
        }
        let ret = match C7::encode(ret, item.7) {
            Ok(v) => v,
            Err(e) => return Err(ComposeCodecError18::C7(e)),
        };
        let ghost acc7 = acc6 + C7::encoding(item.7).unwrap();
        proof {
            lemma_concat_assoc(start, acc6, C7::encoding(item.7).unwrap());
        }
        let ret = match C8::encode(ret, item.8) {
            Ok(v) => v,
            Err(e) => return Err(ComposeCodecError18::C8(e)),
        };
        let ghost acc8 = acc7 + C8::encoding(item.8).unwrap();
        proof {
            lemma_concat_assoc(start, acc7, C8::encoding(item.8).unwrap());
        }
        let ret = match C9::encode(ret, item.9) {
            Ok(v) => v,
            Err(e) => return Err(ComposeCodecError18::C9(e)),
        };
        let ghost acc9 = acc8 + C9::encoding(item.9).unwrap();
        proof {
            lemma_concat_assoc(start, acc8, C9::encoding(item.9).unwrap());
        }
        let ret = match C10::encode(ret, item.10) {
            Ok(v) => v,
            Err(e) => return Err(ComposeCodecError18::C10(e)),
        };
        let ghost acc10 = acc9 + C10::encoding(item.10).unwrap();
        proof {
            lemma_concat_assoc(start, acc9, C10::encoding(item.10).unwrap());
        }
        let ret = match C11::encode(ret, item.11) {
            Ok(v) => v,
            Err(e) => return Err(ComposeCodecError18::C11(e)),
        };
        let ghost acc11 = acc10 + C11::encoding(item.11).unwrap();
        proof {
            lemma_concat_assoc(start, acc10, C11::encoding(item.11).unwrap());
        }
        let ret = match C12::encode(ret, item.12) {
            Ok(v) => v,
            Err(e) => return Err(ComposeCodecError18::C12(e)),
        };
        let ghost acc12 = acc11 + C12::encoding(item.12).unwrap();
        proof {
            lemma_concat_assoc(start, acc11, C12::encoding(item.12).unwrap());
        }
        let ret = match C13::encode(ret, item.13) {
            Ok(v) => v,
            Err(e) => return Err(ComposeCodecError18::C13(e)),
        };
        let ghost acc13 = acc12 + C13::encoding(item.13).unwrap();
        proof {
            lemma_concat_assoc(start, acc12, C13::encoding(item.13).unwrap());
        }
        let ret = match C14::encode(ret, item.14) {
            Ok(v) => v,
            Err(e) => return Err(ComposeCodecError18::C14(e)),
        };
        let ghost acc14 = acc13 + C14::encoding(item.14).unwrap();
        proof {
            lemma_concat_assoc(start, acc13, C14::encoding(item.14).unwrap());
        }
        let ret = match C15::encode(ret, item.15) {
            Ok(v) => v,
            Err(e) => return Err(ComposeCodecError18::C15(e)),
        };
        let ghost acc15 = acc14 + C15::encoding(item.15).unwrap();
        proof {
            lemma_concat_assoc(start, acc14, C15::encoding(item.15).unwrap());
        }
        let ret = match C16::encode(ret, item.16) {
            Ok(v) => v,
            Err(e) => return Err(ComposeCodecError18::C16(e)),
        };
        let ghost acc16 = acc15 + C16::encoding(item.16).unwrap();
        proof {
            lemma_concat_assoc(start, acc15, C16::encoding(item.16).unwrap());
        }
        let ret = match C17::encode(ret, item.17) {
            Ok(v) => v,
            Err(e) => return Err(ComposeCodecError18::C17(e)),
        };
        proof {
            lemma_concat_assoc(start, acc16, C17::encoding(item.17).unwrap());
        }
        Ok(ret)
    }
}

impl<C0: Decode, C1: Decode, C2: Decode, C3: Decode, C4: Decode, C5: Decode, C6: Decode, C7: Decode, C8: Decode, C9: Decode, C10: Decode, C11: Decode, C12: Decode, C13: Decode, C14: Decode, C15: Decode, C16: Decode, C17: Decode> Decode for ComposeCodec<(C0, C1, C2, C3, C4, C5, C6, C7, C8, C9, C10, C11, C12, C13, C14, C15, C16, C17)> {
    type Item = (C0::Item, C1::Item, C2::Item, C3::Item, C4::Item, C5::Item, C6::Item, C7::Item, C8::Item, C9::Item, C10::Item, C11::Item, C12::Item, C13::Item, C14::Item, C15::Item, C16::Item, C17::Item);
    type Error = ComposeCodecError18<C0::Error, C1::Error, C2::Error, C3::Error, C4::Error, C5::Error, C6::Error, C7::Error, C8::Error, C9::Error, C10::Error, C11::Error, C12::Error, C13::Error, C14::Error, C15::Error, C16::Error, C17::Error>;
    type Model = (C0::Model, C1::Model, C2::Model, C3::Model, C4::Model, C5::Model, C6::Model, C7::Model, C8::Model, C9::Model, C10::Model, C11::Model, C12::Model, C13::Model, C14::Model, C15::Model, C16::Model, C17::Model);

    open spec fn model(item: &Self::Item) -> Self::Model {
        (C0::model(&item.0), C1::model(&item.1), C2::model(&item.2), C3::model(&item.3), C4::model(&item.4), C5::model(&item.5), C6::model(&item.6), C7::model(&item.7), C8::model(&item.8), C9::model(&item.9), C10::model(&item.10), C11::model(&item.11), C12::model(&item.12), C13::model(&item.13), C14::model(&item.14), C15::model(&item.15), C16::model(&item.16), C17::model(&item.17))
    }

    open spec fn decoding(input: Seq<u8>) -> (Option<Self::Model>, nat) {
        let d0 = C0::decoding(input);
        let o1 = d0.1;
        match d0.0 {
            None => (None, o1),
            Some(m0) => {
                let d1 = C1::decoding(input.skip(o1 as int));
                let o2 = o1 + d1.1;
                match d1.0 {
                    None => (None, o2),
                    Some(m1) => {
                        let d2 = C2::decoding(input.skip(o2 as int));
                        let o3 = o2 + d2.1;
                        match d2.0 {
                            None => (None, o3),
                            Some(m2) => {
                                let d3 = C3::decoding(input.skip(o3 as int));
                                let o4 = o3 + d3.1;
                                match d3.0 {
                                    None => (None, o4),
                                    Some(m3) => {
                                        let d4 = C4::decoding(input.skip(o4 as int));
                                        let o5 = o4 + d4.1;
                                        match d4.0 {
                                            None => (None, o5),
                                            Some(m4) => {
                                                let d5 = C5::decoding(input.skip(o5 as int));
                                                let o6 = o5 + d5.1;
                                                match d5.0 {
                                                    None => (None, o6),
                                                    Some(m5) => {
                                                        let d6 = C6::decoding(input.skip(o6 as int));
                                                        let o7 = o6 + d6.1;
                                                        match d6.0 {
                                                            None => (None, o7),
                                                            Some(m6) => {
                                                                let d7 = C7::decoding(input.skip(o7 as int));
                                                                let o8 = o7 + d7.1;
                                                                match d7.0 {
                                                                    None => (None, o8),
                                                                    Some(m7) => {
                                                                        let d8 = C8::decoding(input.skip(o8 as int));
                                                                        let o9 = o8 + d8.1;
                                                                        match d8.0 {
                                                                            None => (None, o9),
                                                                            Some(m8) => {
                                                                                let d9 = C9::decoding(input.skip(o9 as int));
                                                                                let o10 = o9 + d9.1;
                                                                                match d9.0 {
                                                                                    None => (None, o10),
                                                                                    Some(m9) => {
                                                                                        let d10 = C10::decoding(input.skip(o10 as int));
                                                                                        let o11 = o10 + d10.1;
                                                                                        match d10.0 {
                                                                                            None => (None, o11),
                                                                                            Some(m10) => {
                                                                                                let d11 = C11::decoding(input.skip(o11 as int));
                                                                                                let o12 = o11 + d11.1;
                                                                                                match d11.0 {
                                                                                                    None => (None, o12),
                                                                                                    Some(m11) => {
                                                                                                        let d12 = C12::decoding(input.skip(o12 as int));
                                                                                                        let o13 = o12 + d12.1;
                                                                                                        match d12.0 {
                                                                                                            None => (None, o13),
                                                                                                            Some(m12) => {
                                                                                                                let d13 = C13::decoding(input.skip(o13 as int));
                                                                                                                let o14 = o13 + d13.1;
                                                                                                                match d13.0 {
                                                                                                                    None => (None, o14),
                                                                                                                    Some(m13) => {
                                                                                                                        let d14 = C14::decoding(input.skip(o14 as int));
                                                                                                                        let o15 = o14 + d14.1;
                                                                                                                        match d14.0 {
                                                                                                                            None => (None, o15),
                                                                                                                            Some(m14) => {
                                                                                                                                let d15 = C15::decoding(input.skip(o15 as int));
                                                                                                                                let o16 = o15 + d15.1;
                                                                                                                                match d15.0 {
                                                                                                                                    None => (None, o16),
                                                                                                                                    Some(m15) => {
                                                                                                                                        let d16 = C16::decoding(input.skip(o16 as int));
                                                                                                                                        let o17 = o16 + d16.1;
                                                                                                                                        match d16.0 {
                                                                                                                                            None => (None, o17),
                                                                                                                                            Some(m16) => {
                                                                                                                                                let d17 = C17::decoding(input.skip(o17 as int));
                                                                                                                                                let o18 = o17 + d17.1;
                                                                                                                                                match d17.0 {
                                                                                                                                                    None => (None, o18),
                                                                                                                                                    Some(m17) => (Some((m0, m1, m2, m3, m4, m5, m6, m7, m8, m9, m10, m11, m12, m13, m14, m15, m16, m17)), o18),
                                                                                                                                                }
                                                                                                                                            },
                                                                                                                                        }
                                                                                                                                    },
                                                                                                                                }
                                                                                                                            },
                                                                                                                        }
                                                                                                                    },
                                                                                                                }
                                                                                                            },
                                                                                                        }
                                                                                                    },
                                                                                                }
                                                                                            },
                                                                                        }
                                                                                    },
                                                                                }
                                                                            },
                                                                        }
                                                                    },
                                                                }
                                                            },
                                                        }
                                                    },
                                                }
                                            },
                                        }
                                    },
                                }
                            },
                        }
                    },
                }
            },
        }
    }

    fn decode(bytes: &mut DecodingVec) -> (r: Result<Self::Item, Self::Error>)
        ensures
            ({
                let input = old(bytes)@;
                let d0 = C0::decoding(input);
                let o1 = d0.1;
                let d1 = C1::decoding(input.skip(o1 as int));
                let o2 = o1 + d1.1;
                let d2 = C2::decoding(input.skip(o2 as int));
                let o3 = o2 + d2.1;
                let d3 = C3::decoding(input.skip(o3 as int));
                let o4 = o3 + d3.1;
                let d4 = C4::decoding(input.skip(o4 as int));
                let o5 = o4 + d4.1;
                let d5 = C5::decoding(input.skip(o5 as int));
                let o6 = o5 + d5.1;
                let d6 = C6::decoding(input.skip(o6 as int));
                let o7 = o6 + d6.1;
                let d7 = C7::decoding(input.skip(o7 as int));
                let o8 = o7 + d7.1;
                let d8 = C8::decoding(input.skip(o8 as int));
                let o9 = o8 + d8.1;
                let d9 = C9::decoding(input.skip(o9 as int));
                let o10 = o9 + d9.1;
                let d10 = C10::decoding(input.skip(o10 as int));
                let o11 = o10 + d10.1;
                let d11 = C11::decoding(input.skip(o11 as int));
                let o12 = o11 + d11.1;
                let d12 = C12::decoding(input.skip(o12 as int));
                let o13 = o12 + d12.1;
                let d13 = C13::decoding(input.skip(o13 as int));
                let o14 = o13 + d13.1;
                let d14 = C14::decoding(input.skip(o14 as int));
                let o15 = o14 + d14.1;
                let d15 = C15::decoding(input.skip(o15 as int));
                let o16 = o15 + d15.1;
                let d16 = C16::decoding(input.skip(o16 as int));
                let o17 = o16 + d16.1;
                let d17 = C17::decoding(input.skip(o17 as int));
                let o18 = o17 + d17.1;
                &&& (r matches Err(ComposeCodecError18::C0(_)) <==> d0.0 is None)
                &&& (r matches Err(ComposeCodecError18::C1(_)) <==> d0.0 is Some && d1.0 is None)
                &&& (r matches Err(ComposeCodecError18::C2(_)) <==> d0.0 is Some && d1.0 is Some && d2.0 is None)
                &&& (r matches Err(ComposeCodecError18::C3(_)) <==> d0.0 is Some && d1.0 is Some && d2.0 is Some && d3.0 is None)
                &&& (r matches Err(ComposeCodecError18::C4(_)) <==> d0.0 is Some && d1.0 is Some && d2.0 is Some && d3.0 is Some && d4.0 is None)
                &&& (r matches Err(ComposeCodecError18::C5(_)) <==> d0.0 is Some && d1.0 is Some && d2.0 is Some && d3.0 is Some && d4.0 is Some && d5.0 is None)
                &&& (r matches Err(ComposeCodecError18::C6(_)) <==> d0.0 is Some && d1.0 is Some && d2.0 is Some && d3.0 is Some && d4.0 is Some && d5.0 is Some && d6.0 is None)
                &&& (r matches Err(ComposeCodecError18::C7(_)) <==> d0.0 is Some && d1.0 is Some && d2.0 is Some && d3.0 is Some && d4.0 is Some && d5.0 is Some && d6.0 is Some && d7.0 is None)
                &&& (r matches Err(ComposeCodecError18::C8(_)) <==> d0.0 is Some && d1.0 is Some && d2.0 is Some && d3.0 is Some && d4.0 is Some && d5.0 is Some && d6.0 is Some && d7.0 is Some && d8.0 is None)
                &&& (r matches Err(ComposeCodecError18::C9(_)) <==> d0.0 is Some && d1.0 is Some && d2.0 is Some && d3.0 is Some && d4.0 is Some && d5.0 is Some && d6.0 is Some && d7.0 is Some && d8.0 is Some && d9.0 is None)
                &&& (r matches Err(ComposeCodecError18::C10(_)) <==> d0.0 is Some && d1.0 is Some && d2.0 is Some && d3.0 is Some && d4.0 is Some && d5.0 is Some && d6.0 is Some && d7.0 is Some && d8.0 is Some && d9.0 is Some && d10.0 is None)
                &&& (r matches Err(ComposeCodecError18::C11(_)) <==> d0.0 is Some && d1.0 is Some && d2.0 is Some && d3.0 is Some && d4.0 is Some && d5.0 is Some && d6.0 is Some && d7.0 is Some && d8.0 is Some && d9.0 is Some && d10.0 is Some && d11.0 is None)
                &&& (r matches Err(ComposeCodecError18::C12(_)) <==> d0.0 is Some && d1.0 is Some && d2.0 is Some && d3.0 is Some && d4.0 is Some && d5.0 is Some && d6.0 is Some && d7.0 is Some && d8.0 is Some && d9.0 is Some && d10.0 is Some && d11.0 is Some && d12.0 is None)
                &&& (r matches Err(ComposeCodecError18::C13(_)) <==> d0.0 is Some && d1.0 is Some && d2.0 is Some && d3.0 is Some && d4.0 is Some && d5.0 is Some && d6.0 is Some && d7.0 is Some && d8.0 is Some && d9.0 is Some && d10.0 is Some && d11.0 is Some && d12.0 is Some && d13.0 is None)
                &&& (r matches Err(ComposeCodecError18::C14(_)) <==> d0.0 is Some && d1.0 is Some && d2.0 is Some && d3.0 is Some && d4.0 is Some && d5.0 is Some && d6.0 is Some && d7.0 is Some && d8.0 is Some && d9.0 is Some && d10.0 is Some && d11.0 is Some && d12.0 is Some && d13.0 is Some && d14.0 is None)
                &&& (r matches Err(ComposeCodecError18::C15(_)) <==> d0.0 is Some && d1.0 is Some && d2.0 is Some && d3.0 is Some && d4.0 is Some && d5.0 is Some && d6.0 is Some && d7.0 is Some && d8.0 is Some && d9.0 is Some && d10.0 is Some && d11.0 is Some && d12.0 is Some && d13.0 is Some && d14.0 is Some && d15.0 is None)
                &&& (r matches Err(ComposeCodecError18::C16(_)) <==> d0.0 is Some && d1.0 is Some && d2.0 is Some && d3.0 is Some && d4.0 is Some && d5.0 is Some && d6.0 is Some && d7.0 is Some && d8.0 is Some && d9.0 is Some && d10.0 is Some && d11.0 is Some && d12.0 is Some && d13.0 is Some && d14.0 is Some && d15.0 is Some && d16.0 is None)
                &&& (r matches Err(ComposeCodecError18::C17(_)) <==> d0.0 is Some && d1.0 is Some && d2.0 is Some && d3.0 is Some && d4.0 is Some && d5.0 is Some && d6.0 is Some && d7.0 is Some && d8.0 is Some && d9.0 is Some && d10.0 is Some && d11.0 is Some && d12.0 is Some && d13.0 is Some && d14.0 is Some && d15.0 is Some && d16.0 is Some && d17.0 is None)
            }),
    {
        let ghost input = bytes@;
        let ghost o1 = C0::decoding(input).1;
        let r0 = C0::decode(bytes);
        assert(bytes@ =~= input.skip(o1 as int));
        let v0 = match r0 {
            Ok(v) => v,
            Err(e) => return Err(ComposeCodecError18::C0(e)),
        };
        let ghost o2 = o1 + C1::decoding(input.skip(o1 as int)).1;
        let r1 = C1::decode(bytes);
        assert(bytes@ =~= input.skip(o2 as int));
        let v1 = match r1 {
            Ok(v) => v,
            Err(e) => return Err(ComposeCodecError18::C1(e)),
        };
        let ghost o3 = o2 + C2::decoding(input.skip(o2 as int)).1;
        let r2 = C2::decode(bytes);
        assert(bytes@ =~= input.skip(o3 as int));
        let v2 = match r2 {
            Ok(v) => v,
            Err(e) => return Err(ComposeCodecError18::C2(e)),
        };
        let ghost o4 = o3 + C3::decoding(input.skip(o3 as int)).1;
        let r3 = C3::decode(bytes);
        assert(bytes@ =~= input.skip(o4 as int));
        let v3 = match r3 {
            Ok(v) => v,
            Err(e) => return Err(ComposeCodecError18::C3(e)),
        };
        let ghost o5 = o4 + C4::decoding(input.skip(o4 as int)).1;
        let r4 = C4::decode(bytes);
        assert(bytes@ =~= input.skip(o5 as int));
        let v4 = match r4 {
            Ok(v) => v,
            Err(e) => return Err(ComposeCodecError18::C4(e)),
        };
        let ghost o6 = o5 + C5::decoding(input.skip(o5 as int)).1;
        let r5 = C5::decode(bytes);
        assert(bytes@ =~= input.skip(o6 as int));
        let v5 = match r5 {
            Ok(v) => v,
            Err(e) => return Err(ComposeCodecError18::C5(e)),
        };
        let ghost o7 = o6 + C6::decoding(input.skip(o6 as int)).1;
        let r6 = C6::decode(bytes);
        assert(bytes@ =~= input.skip(o7 as int));
        let v6 = match r6 {
            Ok(v) => v,
            Err(e) => return Err(ComposeCodecError18::C6(e)),
        };
        let ghost o8 = o7 + C7::decoding(input.skip(o7 as int)).1;
        let r7 = C7::decode(bytes);
        assert(bytes@ =~= input.skip(o8 as int));
        let v7 = match r7 {
            Ok(v) => v,
            Err(e) => return Err(ComposeCodecError18::C7(e)),
        };
        let ghost o9 = o8 + C8::decoding(input.skip(o8 as int)).1;
        let r8 = C8::decode(bytes);
        assert(bytes@ =~= input.skip(o9 as int));
        let v8 = match r8 {
            Ok(v) => v,
            Err(e) => return Err(ComposeCodecError18::C8(e)),
        };
        let ghost o10 = o9 + C9::decoding(input.skip(o9 as int)).1;
        let r9 = C9::decode(bytes);
        assert(bytes@ =~= input.skip(o10 as int));
        let v9 = match r9 {
            Ok(v) => v,
            Err(e) => return Err(ComposeCodecError18::C9(e)),
        };
        let ghost o11 = o10 + C10::decoding(input.skip(o10 as int)).1;
        let r10 = C10::decode(bytes);
        assert(bytes@ =~= input.skip(o11 as int));
        let v10 = match r10 {
            Ok(v) => v,
            Err(e) => return Err(ComposeCodecError18::C10(e)),
        };
        let ghost o12 = o11 + C11::decoding(input.skip(o11 as int)).1;
        let r11 = C11::decode(bytes);
        assert(bytes@ =~= input.skip(o12 as int));
        let v11 = match r11 {
            Ok(v) => v,
            Err(e) => return Err(ComposeCodecError18::C11(e)),
        };
        let ghost o13 = o12 + C12::decoding(input.skip(o12 as int)).1;
        let r12 = C12::decode(bytes);
        assert(bytes@ =~= input.skip(o13 as int));
        let v12 = match r12 {
            Ok(v) => v,
            Err(e) => return Err(ComposeCodecError18::C12(e)),
        };
        let ghost o14 = o13 + C13::decoding(input.skip(o13 as int)).1;
        let r13 = C13::decode(bytes);
        assert(bytes@ =~= input.skip(o14 as int));
        let v13 = match r13 {
            Ok(v) => v,
            Err(e) => return Err(ComposeCodecError18::C13(e)),
        };
        let ghost o15 = o14 + C14::decoding(input.skip(o14 as int)).1;
        let r14 = C14::decode(bytes);
        assert(bytes@ =~= input.skip(o15 as int));
        let v14 = match r14 {
            Ok(v) => v,
            Err(e) => return Err(ComposeCodecError18::C14(e)),
        };
        let ghost o16 = o15 + C15::decoding(input.skip(o15 as int)).1;
        let r15 = C15::decode(bytes);
        assert(bytes@ =~= input.skip(o16 as int));
        let v15 = match r15 {
            Ok(v) => v,
            Err(e) => return Err(ComposeCodecError18::C15(e)),
        };
        let ghost o17 = o16 + C16::decoding(input.skip(o16 as int)).1;
        let r16 = C16::decode(bytes);
        assert(bytes@ =~= input.skip(o17 as int));
        let v16 = match r16 {
            Ok(v) => v,
            Err(e) => return Err(ComposeCodecError18::C16(e)),
        };
        let ghost o18 = o17 + C17::decoding(input.skip(o17 as int)).1;
        let r17 = C17::decode(bytes);
        assert(bytes@ =~= input.skip(o18 as int));
        let v17 = match r17 {
            Ok(v) => v,
            Err(e) => return Err(ComposeCodecError18::C17(e)),
        };
        Ok((v0, v1, v2, v3, v4, v5, v6, v7, v8, v9, v10, v11, v12, v13, v14, v15, v16, v17))
    }
}

/// When every codec but the last recovers its item whatever follows it, and the last one
/// recovers its item from its own encoding, the composition recovers the whole tuple from
/// its encoding.
pub proof fn lemma_compose18_roundtrip<'a, C0: Encode<'a> + Decode, C1: Encode<'a> + Decode, C2: Encode<'a> + Decode, C3: Encode<'a> + Decode, C4: Encode<'a> + Decode, C5: Encode<'a> + Decode, C6: Encode<'a> + Decode, C7: Encode<'a> + Decode, C8: Encode<'a> + Decode, C9: Encode<'a> + Decode, C10: Encode<'a> + Decode, C11: Encode<'a> + Decode, C12: Encode<'a> + Decode, C13: Encode<'a> + Decode, C14: Encode<'a> + Decode, C15: Encode<'a> + Decode, C16: Encode<'a> + Decode, C17: Encode<'a> + Decode>(
    item: &<ComposeCodec<(C0, C1, C2, C3, C4, C5, C6, C7, C8, C9, C10, C11, C12, C13, C14, C15, C16, C17)> as Encode<'a>>::Item,
    m0: <C0 as Decode>::Model, m1: <C1 as Decode>::Model, m2: <C2 as Decode>::Model, m3: <C3 as Decode>::Model, m4: <C4 as Decode>::Model, m5: <C5 as Decode>::Model, m6: <C6 as Decode>::Model, m7: <C7 as Decode>::Model, m8: <C8 as Decode>::Model, m9: <C9 as Decode>::Model, m10: <C10 as Decode>::Model, m11: <C11 as Decode>::Model, m12: <C12 as Decode>::Model, m13: <C13 as Decode>::Model, m14: <C14 as Decode>::Model, m15: <C15 as Decode>::Model, m16: <C16 as Decode>::Model, m17: <C17 as Decode>::Model,
)
    requires
        roundtrips_before_anything::<C0>(item.0, m0),
        roundtrips_before_anything::<C1>(item.1, m1),
        roundtrips_before_anything::<C2>(item.2, m2),
        roundtrips_before_anything::<C3>(item.3, m3),
        roundtrips_before_anything::<C4>(item.4, m4),
        roundtrips_before_anything::<C5>(item.5, m5),
        roundtrips_before_anything::<C6>(item.6, m6),
        roundtrips_before_anything::<C7>(item.7, m7),
        roundtrips_before_anything::<C8>(item.8, m8),
        roundtrips_before_anything::<C9>(item.9, m9),
        roundtrips_before_anything::<C10>(item.10, m10),
        roundtrips_before_anything::<C11>(item.11, m11),
        roundtrips_before_anything::<C12>(item.12, m12),
        roundtrips_before_anything::<C13>(item.13, m13),
        roundtrips_before_anything::<C14>(item.14, m14),
        roundtrips_before_anything::<C15>(item.15, m15),
        roundtrips_before_anything::<C16>(item.16, m16),
        roundtrips_alone::<C17>(item.17, m17),
    ensures
        roundtrips_alone::<ComposeCodec<(C0, C1, C2, C3, C4, C5, C6, C7, C8, C9, C10, C11, C12, C13, C14, C15, C16, C17)>>(item, (m0, m1, m2, m3, m4, m5, m6, m7, m8, m9, m10, m11, m12, m13, m14, m15, m16, m17)),
{
    let b0 = C0::encoding(item.0).unwrap();
    let b1 = C1::encoding(item.1).unwrap();
    let b2 = C2::encoding(item.2).unwrap();
    let b3 = C3::encoding(item.3).unwrap();
    let b4 = C4::encoding(item.4).unwrap();
    let b5 = C5::encoding(item.5).unwrap();
    let b6 = C6::encoding(item.6).unwrap();
    let b7 = C7::encoding(item.7).unwrap();
    let b8 = C8::encoding(item.8).unwrap();
    let b9 = C9::encoding(item.9).unwrap();
    let b10 = C10::encoding(item.10).unwrap();
    let b11 = C11::encoding(item.11).unwrap();
    let b12 = C12::encoding(item.12).unwrap();
    let b13 = C13::encoding(item.13).unwrap();
    let b14 = C14::encoding(item.14).unwrap();
    let b15 = C15::encoding(item.15).unwrap();
    let b16 = C16::encoding(item.16).unwrap();
    let b17 = C17::encoding(item.17).unwrap();
    let p1 = b0;
    let p2 = p1 + b1;
    let p3 = p2 + b2;
    let p4 = p3 + b3;
    let p5 = p4 + b4;
    let p6 = p5 + b5;
    let p7 = p6 + b6;
    let p8 = p7 + b7;
    let p9 = p8 + b8;
    let p10 = p9 + b9;
    let p11 = p10 + b10;
    let p12 = p11 + b11;
    let p13 = p12 + b12;
    let p14 = p13 + b13;
    let p15 = p14 + b14;
    let p16 = p15 + b15;
    let p17 = p16 + b16;
    let p18 = p17 + b17;
    assert(ComposeCodec::<(C0, C1, C2, C3, C4, C5, C6, C7, C8, C9, C10, C11, C12, C13, C14, C15, C16, C17)>::encoding(item) == Some(p18));
    let t17 = b17;
    let t16 = b16 + t17;
    lemma_concat_assoc(p16, b16, t17);
    let t15 = b15 + t16;
    lemma_concat_assoc(p15, b15, t16);
    let t14 = b14 + t15;
    lemma_concat_assoc(p14, b14, t15);
    let t13 = b13 + t14;
    lemma_concat_assoc(p13, b13, t14);
    let t12 = b12 + t13;
    lemma_concat_assoc(p12, b12, t13);
    let t11 = b11 + t12;
    lemma_concat_assoc(p11, b11, t12);
    let t10 = b10 + t11;
    lemma_concat_assoc(p10, b10, t11);
    let t9 = b9 + t10;
    lemma_concat_assoc(p9, b9, t10);
    let t8 = b8 + t9;
    lemma_concat_assoc(p8, b8, t9);
    let t7 = b7 + t8;
    lemma_concat_assoc(p7, b7, t8);
    let t6 = b6 + t7;
    lemma_concat_assoc(p6, b6, t7);
    let t5 = b5 + t6;
    lemma_concat_assoc(p5, b5, t6);
    let t4 = b4 + t5;
    lemma_concat_assoc(p4, b4, t5);
    let t3 = b3 + t4;
    lemma_concat_assoc(p3, b3, t4);
    let t2 = b2 + t3;
    lemma_concat_assoc(p2, b2, t3);
    let t1 = b1 + t2;
    lemma_concat_assoc(p1, b1, t2);
    lemma_skip_prefix(p1, t1);
    lemma_skip_prefix(p2, t2);
    lemma_skip_prefix(p3, t3);
    lemma_skip_prefix(p4, t4);
    lemma_skip_prefix(p5, t5);
    lemma_skip_prefix(p6, t6);
    lemma_skip_prefix(p7, t7);
    lemma_skip_prefix(p8, t8);
    lemma_skip_prefix(p9, t9);
    lemma_skip_prefix(p10, t10);
    lemma_skip_prefix(p11, t11);
    lemma_skip_prefix(p12, t12);
    lemma_skip_prefix(p13, t13);
    lemma_skip_prefix(p14, t14);
    lemma_skip_prefix(p15, t15);
    lemma_skip_prefix(p16, t16);
    lemma_skip_prefix(p17, t17);
    assert(C0::decoding(b0 + t1) == (Some(m0), b0.len()));
    assert(C1::decoding(b1 + t2) == (Some(m1), b1.len()));
    assert(C2::decoding(b2 + t3) == (Some(m2), b2.len()));
    assert(C3::decoding(b3 + t4) == (Some(m3), b3.len()));
    assert(C4::decoding(b4 + t5) == (Some(m4), b4.len()));
    assert(C5::decoding(b5 + t6) == (Some(m5), b5.len()));
    assert(C6::decoding(b6 + t7) == (Some(m6), b6.len()));
    assert(C7::decoding(b7 + t8) == (Some(m7), b7.len()));
    assert(C8::decoding(b8 + t9) == (Some(m8), b8.len()));
    assert(C9::decoding(b9 + t10) == (Some(m9), b9.len()));
    assert(C10::decoding(b10 + t11) == (Some(m10), b10.len()));
    assert(C11::decoding(b11 + t12) == (Some(m11), b11.len()));
    assert(C12::decoding(b12 + t13) == (Some(m12), b12.len()));
    assert(C13::decoding(b13 + t14) == (Some(m13), b13.len()));
    assert(C14::decoding(b14 + t15) == (Some(m14), b14.len()));
    assert(C15::decoding(b15 + t16) == (Some(m15), b15.len()));
    assert(C16::decoding(b16 + t17) == (Some(m16), b16.len()));
    assert(C17::decoding(b17) == (Some(m17), b17.len()));
}

/// When every codec recovers its item whatever follows it, so does the composition: it can
/// itself stand before another codec.
pub proof fn lemma_compose18_roundtrip_before_anything<'a, C0: Encode<'a> + Decode, C1: Encode<'a> + Decode, C2: Encode<'a> + Decode, C3: Encode<'a> + Decode, C4: Encode<'a> + Decode, C5: Encode<'a> + Decode, C6: Encode<'a> + Decode, C7: Encode<'a> + Decode, C8: Encode<'a> + Decode, C9: Encode<'a> + Decode, C10: Encode<'a> + Decode, C11: Encode<'a> + Decode, C12: Encode<'a> + Decode, C13: Encode<'a> + Decode, C14: Encode<'a> + Decode, C15: Encode<'a> + Decode, C16: Encode<'a> + Decode, C17: Encode<'a> + Decode>(
    item: &<ComposeCodec<(C0, C1, C2, C3, C4, C5, C6, C7, C8, C9, C10, C11, C12, C13, C14, C15, C16, C17)> as Encode<'a>>::Item,
    m0: <C0 as Decode>::Model, m1: <C1 as Decode>::Model, m2: <C2 as Decode>::Model, m3: <C3 as Decode>::Model, m4: <C4 as Decode>::Model, m5: <C5 as Decode>::Model, m6: <C6 as Decode>::Model, m7: <C7 as Decode>::Model, m8: <C8 as Decode>::Model, m9: <C9 as Decode>::Model, m10: <C10 as Decode>::Model, m11: <C11 as Decode>::Model, m12: <C12 as Decode>::Model, m13: <C13 as Decode>::Model, m14: <C14 as Decode>::Model, m15: <C15 as Decode>::Model, m16: <C16 as Decode>::Model, m17: <C17 as Decode>::Model,
)
    requires
        roundtrips_before_anything::<C0>(item.0, m0),
        roundtrips_before_anything::<C1>(item.1, m1),
        roundtrips_before_anything::<C2>(item.2, m2),
        roundtrips_before_anything::<C3>(item.3, m3),
        roundtrips_before_anything::<C4>(item.4, m4),
        roundtrips_before_anything::<C5>(item.5, m5),
        roundtrips_before_anything::<C6>(item.6, m6),
        roundtrips_before_anything::<C7>(item.7, m7),
        roundtrips_before_anything::<C8>(item.8, m8),
        roundtrips_before_anything::<C9>(item.9, m9),
        roundtrips_before_anything::<C10>(item.10, m10),
        roundtrips_before_anything::<C11>(item.11, m11),
        roundtrips_before_anything::<C12>(item.12, m12),
        roundtrips_before_anything::<C13>(item.13, m13),
        roundtrips_before_anything::<C14>(item.14, m14),
        roundtrips_before_anything::<C15>(item.15, m15),
        roundtrips_before_anything::<C16>(item.16, m16),
        roundtrips_before_anything::<C17>(item.17, m17),
    ensures
        roundtrips_before_anything::<ComposeCodec<(C0, C1, C2, C3, C4, C5, C6, C7, C8, C9, C10, C11, C12, C13, C14, C15, C16, C17)>>(item, (m0, m1, m2, m3, m4, m5, m6, m7, m8, m9, m10, m11, m12, m13, m14, m15, m16, m17)),
{
    let b0 = C0::encoding(item.0).unwrap();
    let b1 = C1::encoding(item.1).unwrap();
    let b2 = C2::encoding(item.2).unwrap();
    let b3 = C3::encoding(item.3).unwrap();
    let b4 = C4::encoding(item.4).unwrap();
    let b5 = C5::encoding(item.5).unwrap();
    let b6 = C6::encoding(item.6).unwrap();
    let b7 = C7::encoding(item.7).unwrap();
    let b8 = C8::encoding(item.8).unwrap();
    let b9 = C9::encoding(item.9).unwrap();
    let b10 = C10::encoding(item.10).unwrap();
    let b11 = C11::encoding(item.11).unwrap();
    let b12 = C12::encoding(item.12).unwrap();
    let b13 = C13::encoding(item.13).unwrap();
    let b14 = C14::encoding(item.14).unwrap();
    let b15 = C15::encoding(item.15).unwrap();
    let b16 = C16::encoding(item.16).unwrap();
    let b17 = C17::encoding(item.17).unwrap();
    let p1 = b0;
    let p2 = p1 + b1;
    let p3 = p2 + b2;
    let p4 = p3 + b3;
    let p5 = p4 + b4;
    let p6 = p5 + b5;
    let p7 = p6 + b6;
    let p8 = p7 + b7;
    let p9 = p8 + b8;
    let p10 = p9 + b9;
    let p11 = p10 + b10;
    let p12 = p11 + b11;
    let p13 = p12 + b12;
    let p14 = p13 + b13;
    let p15 = p14 + b14;
    let p16 = p15 + b15;
    let p17 = p16 + b16;
    let p18 = p17 + b17;
    assert(ComposeCodec::<(C0, C1, C2, C3, C4, C5, C6, C7, C8, C9, C10, C11, C12, C13, C14, C15, C16, C17)>::encoding(item) == Some(p18));
    assert forall|rest: Seq<u8>|
        #[trigger] ComposeCodec::<(C0, C1, C2, C3, C4, C5, C6, C7, C8, C9, C10, C11, C12, C13, C14, C15, C16, C17)>::decoding(p18 + rest) == (Some((m0, m1, m2, m3, m4, m5, m6, m7, m8, m9, m10, m11, m12, m13, m14, m15, m16, m17)), p18.len()) by {
        let t18 = rest;
        let t17 = b17 + t18;
        lemma_concat_assoc(p17, b17, t18);
        let t16 = b16 + t17;
        lemma_concat_assoc(p16, b16, t17);
        let t15 = b15 + t16;
        lemma_concat_assoc(p15, b15, t16);
        let t14 = b14 + t15;
        lemma_concat_assoc(p14, b14, t15);
        let t13 = b13 + t14;
        lemma_concat_assoc(p13, b13, t14);
        let t12 = b12 + t13;
        lemma_concat_assoc(p12, b12, t13);
        let t11 = b11 + t12;
        lemma_concat_assoc(p11, b11, t12);
        let t10 = b10 + t11;
        lemma_concat_assoc(p10, b10, t11);
        let t9 = b9 + t10;
        lemma_concat_assoc(p9, b9, t10);
        let t8 = b8 + t9;
        lemma_concat_assoc(p8, b8, t9);
        let t7 = b7 + t8;
        lemma_concat_assoc(p7, b7, t8);
        let t6 = b6 + t7;
        lemma_concat_assoc(p6, b6, t7);
        let t5 = b5 + t6;
        lemma_concat_assoc(p5, b5, t6);
        let t4 = b4 + t5;
        lemma_concat_assoc(p4, b4, t5);
        let t3 = b3 + t4;
        lemma_concat_assoc(p3, b3, t4);
        let t2 = b2 + t3;
        lemma_concat_assoc(p2, b2, t3);
        let t1 = b1 + t2;
        lemma_concat_assoc(p1, b1, t2);
        lemma_skip_prefix(p1, t1);
        lemma_skip_prefix(p2, t2);
        lemma_skip_prefix(p3, t3);
        lemma_skip_prefix(p4, t4);
        lemma_skip_prefix(p5, t5);
        lemma_skip_prefix(p6, t6);
        lemma_skip_prefix(p7, t7);
        lemma_skip_prefix(p8, t8);
        lemma_skip_prefix(p9, t9);
        lemma_skip_prefix(p10, t10);
        lemma_skip_prefix(p11, t11);
        lemma_skip_prefix(p12, t12);
        lemma_skip_prefix(p13, t13);
        lemma_skip_prefix(p14, t14);
        lemma_skip_prefix(p15, t15);
        lemma_skip_prefix(p16, t16);
        lemma_skip_prefix(p17, t17);
        assert(C0::decoding(b0 + t1) == (Some(m0), b0.len()));
        assert(C1::decoding(b1 + t2) == (Some(m1), b1.len()));
        assert(C2::decoding(b2 + t3) == (Some(m2), b2.len()));
        assert(C3::decoding(b3 + t4) == (Some(m3), b3.len()));
        assert(C4::decoding(b4 + t5) == (Some(m4), b4.len()));
        assert(C5::decoding(b5 + t6) == (Some(m5), b5.len()));
        assert(C6::decoding(b6 + t7) == (Some(m6), b6.len()));
        assert(C7::decoding(b7 + t8) == (Some(m7), b7.len()));
        assert(C8::decoding(b8 + t9) == (Some(m8), b8.len()));
        assert(C9::decoding(b9 + t10) == (Some(m9), b9.len()));
        assert(C10::decoding(b10 + t11) == (Some(m10), b10.len()));
        assert(C11::decoding(b11 + t12) == (Some(m11), b11.len()));
        assert(C12::decoding(b12 + t13) == (Some(m12), b12.len()));
        assert(C13::decoding(b13 + t14) == (Some(m13), b13.len()));
        assert(C14::decoding(b14 + t15) == (Some(m14), b14.len()));
        assert(C15::decoding(b15 + t16) == (Some(m15), b15.len()));
        assert(C16::decoding(b16 + t17) == (Some(m16), b16.len()));
        assert(C17::decoding(b17 + t18) == (Some(m17), b17.len()));
    }
}

/// Why a composition of 19 codecs failed: the variant names the codec that failed.
#[derive(Debug)]
pub enum ComposeCodecError19<C0, C1, C2, C3, C4, C5, C6, C7, C8, C9, C10, C11, C12, C13, C14, C15, C16, C17, C18> {
    /// The codec in position 0 failed.
    C0(C0),
    /// The codec in position 1 failed.
    C1(C1),
    /// The codec in position 2 failed.
    C2(C2),
    /// The codec in position 3 failed.
    C3(C3),
    /// The codec in position 4 failed.
    C4(C4),
    /// The codec in position 5 failed.
    C5(C5),
    /// The codec in position 6 failed.
    C6(C6),
    /// The codec in position 7 failed.
    C7(C7),
    /// The codec in position 8 failed.
    C8(C8),
    /// The codec in position 9 failed.
    C9(C9),
    /// The codec in position 10 failed.
    C10(C10),
    /// The codec in position 11 failed.
    C11(C11),
    /// The codec in position 12 failed.
    C12(C12),
    /// The codec in position 13 failed.
    C13(C13),
    /// The codec in position 14 failed.
    C14(C14),
    /// The codec in position 15 failed.
    C15(C15),
    /// The codec in position 16 failed.
    C16(C16),
    /// The codec in position 17 failed.
    C17(C17),
    /// The codec in position 18 failed.
    C18(C18),
}

impl<'a, C0: Encode<'a>, C1: Encode<'a>, C2: Encode<'a>, C3: Encode<'a>, C4: Encode<'a>, C5: Encode<'a>, C6: Encode<'a>, C7: Encode<'a>, C8: Encode<'a>, C9: Encode<'a>, C10: Encode<'a>, C11: Encode<'a>, C12: Encode<'a>, C13: Encode<'a>, C14: Encode<'a>, C15: Encode<'a>, C16: Encode<'a>, C17: Encode<'a>, C18: Encode<'a>> Encode<'a> for ComposeCodec<(C0, C1, C2, C3, C4, C5, C6, C7, C8, C9, C10, C11, C12, C13, C14, C15, C16, C17, C18)> {
    type Item = (&'a C0::Item, &'a C1::Item, &'a C2::Item, &'a C3::Item, &'a C4::Item, &'a C5::Item, &'a C6::Item, &'a C7::Item, &'a C8::Item, &'a C9::Item, &'a C10::Item, &'a C11::Item, &'a C12::Item, &'a C13::Item, &'a C14::Item, &'a C15::Item, &'a C16::Item, &'a C17::Item, &'a C18::Item);
    type Error = ComposeCodecError19<C0::Error, C1::Error, C2::Error, C3::Error, C4::Error, C5::Error, C6::Error, C7::Error, C8::Error, C9::Error, C10::Error, C11::Error, C12::Error, C13::Error, C14::Error, C15::Error, C16::Error, C17::Error, C18::Error>;

    open spec fn encoding(item: &Self::Item) -> Option<Seq<u8>> {
        match C0::encoding(item.0) {
            None => None,
            Some(b0) => {
                match C1::encoding(item.1) {
                    None => None,
                    Some(b1) => {
                        match C2::encoding(item.2) {
                            None => None,
                            Some(b2) => {
                                match C3::encoding(item.3) {
                                    None => None,
                                    Some(b3) => {
                                        match C4::encoding(item.4) {
                                            None => None,
                                            Some(b4) => {
                                                match C5::encoding(item.5) {
                                                    None => None,
                                                    Some(b5) => {
                                                        match C6::encoding(item.6) {
                                                            None => None,
                                                            Some(b6) => {
                                                                match C7::encoding(item.7) {
                                                                    None => None,
                                                                    Some(b7) => {
                                                                        match C8::encoding(item.8) {
                                                                            None => None,
                                                                            Some(b8) => {
                                                                                match C9::encoding(item.9) {
                                                                                    None => None,
                                                                                    Some(b9) => {
                                                                                        match C10::encoding(item.10) {
                                                                                            None => None,
                                                                                            Some(b10) => {
                                                                                                match C11::encoding(item.11) {
                                                                                                    None => None,
                                                                                                    Some(b11) => {
                                                                                                        match C12::encoding(item.12) {
                                                                                                            None => None,
                                                                                                            Some(b12) => {
                                                                                                                match C13::encoding(item.13) {
                                                                                                                    None => None,
                                                                                                                    Some(b13) => {
                                                                                                                        match C14::encoding(item.14) {
                                                                                                                            None => None,
                                                                                                                            Some(b14) => {
                                                                                                                                match C15::encoding(item.15) {
                                                                                                                                    None => None,
                                                                                                                                    Some(b15) => {
                                                                                                                                        match C16::encoding(item.16) {
                                                                                                                                            None => None,
                                                                                                                                            Some(b16) => {
                                                                                                                                                match C17::encoding(item.17) {
                                                                                                                                                    None => None,
                                                                                                                                                    Some(b17) => {
                                                                                                                                                        match C18::encoding(item.18) {
                                                                                                                                                            None => None,
                                                                                                                                                            Some(b18) => Some(b0 + b1 + b2 + b3 + b4 + b5 + b6 + b7 + b8 + b9 + b10 + b11 + b12 + b13 + b14 + b15 + b16 + b17 + b18),
                                                                                                                                                        }
                                                                                                                                                    },
                                                                                                                                                }
                                                                                                                                            },
                                                                                                                                        }
                                                                                                                                    },
                                                                                                                                }
                                                                                                                            },
                                                                                                                        }
                                                                                                                    },
                                                                                                                }
                                                                                                            },
                                                                                                        }
                                                                                                    },
                                                                                                }
                                                                                            },
                                                                                        }
                                                                                    },
                                                                                }
                                                                            },
                                                                        }
                                                                    },
                                                                }
                                                            },
                                                        }
                                                    },
                                                }
                                            },
                                        }
                                    },
                                }
                            },
                        }
                    },
                }
            },
        }
    }

    fn encode(into: EncodingVec<Fresh>, item: &Self::Item) -> (r: Result<EncodingVec<Fresh>, Self::Error>)
        ensures
            r matches Err(ComposeCodecError19::C0(_)) ==> C0::encoding(item.0) is None,
            r matches Err(ComposeCodecError19::C1(_)) ==> C0::encoding(item.0) is Some && C1::encoding(item.1) is None,
            r matches Err(ComposeCodecError19::C2(_)) ==> C0::encoding(item.0) is Some && C1::encoding(item.1) is Some && C2::encoding(item.2) is None,
            r matches Err(ComposeCodecError19::C3(_)) ==> C0::encoding(item.0) is Some && C1::encoding(item.1) is Some && C2::encoding(item.2) is Some && C3::encoding(item.3) is None,
            r matches Err(ComposeCodecError19::C4(_)) ==> C0::encoding(item.0) is Some && C1::encoding(item.1) is Some && C2::encoding(item.2) is Some && C3::encoding(item.3) is Some && C4::encoding(item.4) is None,
            r matches Err(ComposeCodecError19::C5(_)) ==> C0::encoding(item.0) is Some && C1::encoding(item.1) is Some && C2::encoding(item.2) is Some && C3::encoding(item.3) is Some && C4::encoding(item.4) is Some && C5::encoding(item.5) is None,
            r matches Err(ComposeCodecError19::C6(_)) ==> C0::encoding(item.0) is Some && C1::encoding(item.1) is Some && C2::encoding(item.2) is Some && C3::encoding(item.3) is Some && C4::encoding(item.4) is Some && C5::encoding(item.5) is Some && C6::encoding(item.6) is None,
            r matches Err(ComposeCodecError19::C7(_)) ==> C0::encoding(item.0) is Some && C1::encoding(item.1) is Some && C2::encoding(item.2) is Some && C3::encoding(item.3) is Some && C4::encoding(item.4) is Some && C5::encoding(item.5) is Some && C6::encoding(item.6) is Some && C7::encoding(item.7) is None,
            r matches Err(ComposeCodecError19::C8(_)) ==> C0::encoding(item.0) is Some && C1::encoding(item.1) is Some && C2::encoding(item.2) is Some && C3::encoding(item.3) is Some && C4::encoding(item.4) is Some && C5::encoding(item.5) is Some && C6::encoding(item.6) is Some && C7::encoding(item.7) is Some && C8::encoding(item.8) is None,
            r matches Err(ComposeCodecError19::C9(_)) ==> C0::encoding(item.0) is Some && C1::encoding(item.1) is Some && C2::encoding(item.2) is Some && C3::encoding(item.3) is Some && C4::encoding(item.4) is Some && C5::encoding(item.5) is Some && C6::encoding(item.6) is Some && C7::encoding(item.7) is Some && C8::encoding(item.8) is Some && C9::encoding(item.9) is None,
            r matches Err(ComposeCodecError19::C10(_)) ==> C0::encoding(item.0) is Some && C1::encoding(item.1) is Some && C2::encoding(item.2) is Some && C3::encoding(item.3) is Some && C4::encoding(item.4) is Some && C5::encoding(item.5) is Some && C6::encoding(item.6) is Some && C7::encoding(item.7) is Some && C8::encoding(item.8) is Some && C9::encoding(item.9) is Some && C10::encoding(item.10) is None,
            r matches Err(ComposeCodecError19::C11(_)) ==> C0::encoding(item.0) is Some && C1::encoding(item.1) is Some && C2::encoding(item.2) is Some && C3::encoding(item.3) is Some && C4::encoding(item.4) is Some && C5::encoding(item.5) is Some && C6::encoding(item.6) is Some && C7::encoding(item.7) is Some && C8::encoding(item.8) is Some && C9::encoding(item.9) is Some && C10::encoding(item.10) is Some && C11::encoding(item.11) is None,
            r matches Err(ComposeCodecError19::C12(_)) ==> C0::encoding(item.0) is Some && C1::encoding(item.1) is Some && C2::encoding(item.2) is Some && C3::encoding(item.3) is Some && C4::encoding(item.4) is Some && C5::encoding(item.5) is Some && C6::encoding(item.6) is Some && C7::encoding(item.7) is Some && C8::encoding(item.8) is Some && C9::encoding(item.9) is Some && C10::encoding(item.10) is Some && C11::encoding(item.11) is Some && C12::encoding(item.12) is None,
            r matches Err(ComposeCodecError19::C13(_)) ==> C0::encoding(item.0) is Some && C1::encoding(item.1) is Some && C2::encoding(item.2) is Some && C3::encoding(item.3) is Some && C4::encoding(item.4) is Some && C5::encoding(item.5) is Some && C6::encoding(item.6) is Some && C7::encoding(item.7) is Some && C8::encoding(item.8) is Some && C9::encoding(item.9) is Some && C10::encoding(item.10) is Some && C11::encoding(item.11) is Some && C12::encoding(item.12) is Some && C13::encoding(item.13) is None,
            r matches Err(ComposeCodecError19::C14(_)) ==> C0::encoding(item.0) is Some && C1::encoding(item.1) is Some && C2::encoding(item.2) is Some && C3::encoding(item.3) is Some && C4::encoding(item.4) is Some && C5::encoding(item.5) is Some && C6::encoding(item.6) is Some && C7::encoding(item.7) is Some && C8::encoding(item.8) is Some && C9::encoding(item.9) is Some && C10::encoding(item.10) is Some && C11::encoding(item.11) is Some && C12::encoding(item.12) is Some && C13::encoding(item.13) is Some && C14::encoding(item.14) is None,
            r matches Err(ComposeCodecError19::C15(_)) ==> C0::encoding(item.0) is Some && C1::encoding(item.1) is Some && C2::encoding(item.2) is Some && C3::encoding(item.3) is Some && C4::encoding(item.4) is Some && C5::encoding(item.5) is Some && C6::encoding(item.6) is Some && C7::encoding(item.7) is Some && C8::encoding(item.8) is Some && C9::encoding(item.9) is Some && C10::encoding(item.10) is Some && C11::encoding(item.11) is Some && C12::encoding(item.12) is Some && C13::encoding(item.13) is Some && C14::encoding(item.14) is Some && C15::encoding(item.15) is None,
            r matches Err(ComposeCodecError19::C16(_)) ==> C0::encoding(item.0) is Some && C1::encoding(item.1) is Some && C2::encoding(item.2) is Some && C3::encoding(item.3) is Some && C4::encoding(item.4) is Some && C5::encoding(item.5) is Some && C6::encoding(item.6) is Some && C7::encoding(item.7) is Some && C8::encoding(item.8) is Some && C9::encoding(item.9) is Some && C10::encoding(item.10) is Some && C11::encoding(item.11) is Some && C12::encoding(item.12) is Some && C13::encoding(item.13) is Some && C14::encoding(item.14) is Some && C15::encoding(item.15) is Some && C16::encoding(item.16) is None,
            r matches Err(ComposeCodecError19::C17(_)) ==> C0::encoding(item.0) is Some && C1::encoding(item.1) is Some && C2::encoding(item.2) is Some && C3::encoding(item.3) is Some && C4::encoding(item.4) is Some && C5::encoding(item.5) is Some && C6::encoding(item.6) is Some && C7::encoding(item.7) is Some && C8::encoding(item.8) is Some && C9::encoding(item.9) is Some && C10::encoding(item.10) is Some && C11::encoding(item.11) is Some && C12::encoding(item.12) is Some && C13::encoding(item.13) is Some && C14::encoding(item.14) is Some && C15::encoding(item.15) is Some && C16::encoding(item.16) is Some && C17::encoding(item.17) is None,
            r matches Err(ComposeCodecError19::C18(_)) ==> C0::encoding(item.0) is Some && C1::encoding(item.1) is Some && C2::encoding(item.2) is Some && C3::encoding(item.3) is Some && C4::encoding(item.4) is Some && C5::encoding(item.5) is Some && C6::encoding(item.6) is Some && C7::encoding(item.7) is Some && C8::encoding(item.8) is Some && C9::encoding(item.9) is Some && C10::encoding(item.10) is Some && C11::encoding(item.11) is Some && C12::encoding(item.12) is Some && C13::encoding(item.13) is Some && C14::encoding(item.14) is Some && C15::encoding(item.15) is Some && C16::encoding(item.16) is Some && C17::encoding(item.17) is Some && C18::encoding(item.18) is None,
    {
        let ghost start = into.bytes();
        let ret = match C0::encode(into, item.0) {
            Ok(v) => v,
            Err(e) => return Err(ComposeCodecError19::C0(e)),
        };
        let ghost acc0 = C0::encoding(item.0).unwrap();
        let ret = match C1::encode(ret, item.1) {
            Ok(v) => v,
            Err(e) => return Err(ComposeCodecError19::C1(e)),
        };
        let ghost acc1 = acc0 + C1::encoding(item.1).unwrap();
        proof {
            lemma_concat_assoc(start, acc0, C1::encoding(item.1).unwrap());
        }
        let ret = match C2::encode(ret, item.2) {
            Ok(v) => v,
            Err(e) => return Err(ComposeCodecError19::C2(e)),
        };
        let ghost acc2 = acc1 + C2::encoding(item.2).unwrap();
        proof {
            lemma_concat_assoc(start, acc1, C2::encoding(item.2).unwrap());
        }
        let ret = match C3::encode(ret, item.3) {
            Ok(v) => v,
            Err(e) => return Err(ComposeCodecError19::C3(e)),
        };
        let ghost acc3 = acc2 + C3::encoding(item.3).unwrap();
        proof {
            lemma_concat_assoc(start, acc2, C3::encoding(item.3).unwrap());
        }
        let ret = match C4::encode(ret, item.4) {
            Ok(v) => v,
            Err(e) => return Err(ComposeCodecError19::C4(e)),
        };
        let ghost acc4 = acc3 + C4::encoding(item.4).unwrap();
        proof {
            lemma_concat_assoc(start, acc3, C4::encoding(item.4).unwrap());
        }
        let ret = match C5::encode(ret, item.5) {
            Ok(v) => v,
            Err(e) => return Err(ComposeCodecError19::C5(e)),
        };
        let ghost acc5 = acc4 + C5::encoding(item.5).unwrap();
        proof {
            lemma_concat_assoc(start, acc4, C5::encoding(item.5).unwrap());
        }
        let ret = match C6::encode(ret, item.6) {
            Ok(v) => v,
            Err(e) => return Err(ComposeCodecError19::C6(e)),
        };
        let ghost acc6 = acc5 + C6::encoding(item.6).unwrap();
        proof {
            lemma_concat_assoc(start, acc5, C6::encoding(item.6).unwrap());
        }
        let ret = match C7::encode(ret, item.7) {
            Ok(v) => v,
            Err(e) => return Err(ComposeCodecError19::C7(e)),
        };
        let ghost acc7 = acc6 + C7::encoding(item.7).unwrap();
        proof {
            lemma_concat_assoc(start, acc6, C7::encoding(item.7).unwrap());
        }
        let ret = match C8::encode(ret, item.8) {
            Ok(v) => v,
            Err(e) => return Err(ComposeCodecError19::C8(e)),
        };
        let ghost acc8 = acc7 + C8::encoding(item.8).unwrap();
        proof {
            lemma_concat_assoc(start, acc7, C8::encoding(item.8).unwrap());
        }
        let ret = match C9::encode(ret, item.9) {
            Ok(v) => v,
            Err(e) => return Err(ComposeCodecError19::C9(e)),
        };
        let ghost acc9 = acc8 + C9::encoding(item.9).unwrap();
        proof {
            lemma_concat_assoc(start, acc8, C9::encoding(item.9).unwrap());
        }
        let ret = match C10::encode(ret, item.10) {
            Ok(v) => v,
            Err(e) => return Err(ComposeCodecError19::C10(e)),
        };
        let ghost acc10 = acc9 + C10::encoding(item.10).unwrap();
        proof {
            lemma_concat_assoc(start, acc9, C10::encoding(item.10).unwrap());
        }
        let ret = match C11::encode(ret, item.11) {
            Ok(v) => v,
            Err(e) => return Err(ComposeCodecError19::C11(e)),
        };
        let ghost acc11 = acc10 + C11::encoding(item.11).unwrap();
        proof {
            lemma_concat_assoc(start, acc10, C11::encoding(item.11).unwrap());
        }
        let ret = match C12::encode(ret, item.12) {
            Ok(v) => v,
            Err(e) => return Err(ComposeCodecError19::C12(e)),
        };
        let ghost acc12 = acc11 + C12::encoding(item.12).unwrap();
        proof {
            lemma_concat_assoc(start, acc11, C12::encoding(item.12).unwrap());
        }
        let ret = match C13::encode(ret, item.13) {
            Ok(v) => v,
            Err(e) => return Err(ComposeCodecError19::C13(e)),
        };
        let ghost acc13 = acc12 + C13::encoding(item.13).unwrap();
        proof {
            lemma_concat_assoc(start, acc12, C13::encoding(item.13).unwrap());
        }
        let ret = match C14::encode(ret, item.14) {
            Ok(v) => v,
            Err(e) => return Err(ComposeCodecError19::C14(e)),
        };
        let ghost acc14 = acc13 + C14::encoding(item.14).unwrap();
        proof {
            lemma_concat_assoc(start, acc13, C14::encoding(item.14).unwrap());
        }
        let ret = match C15::encode(ret, item.15) {
            Ok(v) => v,
            Err(e) => return Err(ComposeCodecError19::C15(e)),
        };
        let ghost acc15 = acc14 + C15::encoding(item.15).unwrap();
        proof {
            lemma_concat_assoc(start, acc14, C15::encoding(item.15).unwrap());
        }
        let ret = match C16::encode(ret, item.16) {
            Ok(v) => v,
            Err(e) => return Err(ComposeCodecError19::C16(e)),
        };
        let ghost acc16 = acc15 + C16::encoding(item.16).unwrap();
        proof {
            lemma_concat_assoc(start, acc15, C16::encoding(item.16).unwrap());
        }
        let ret = match C17::encode(ret, item.17) {
            Ok(v) => v,
            Err(e) => return Err(ComposeCodecError19::C17(e)),
        };
        let ghost acc17 = acc16 + C17::encoding(item.17).unwrap();
        proof {
            lemma_concat_assoc(start, acc16, C17::encoding(item.17).unwrap());
        }
        let ret = match C18::encode(ret, item.18) {
            Ok(v) => v,
            Err(e) => return Err(ComposeCodecError19::C18(e)),
        };
        proof {
            lemma_concat_assoc(start, acc17, C18::encoding(item.18).unwrap());
        }
        Ok(ret)
    }
}

impl<C0: Decode, C1: Decode, C2: Decode, C3: Decode, C4: Decode, C5: Decode, C6: Decode, C7: Decode, C8: Decode, C9: Decode, C10: Decode, C11: Decode, C12: Decode, C13: Decode, C14: Decode, C15: Decode, C16: Decode, C17: Decode, C18: Decode> Decode for ComposeCodec<(C0, C1, C2, C3, C4, C5, C6, C7, C8, C9, C10, C11, C12, C13, C14, C15, C16, C17, C18)> {
    type Item = (C0::Item, C1::Item, C2::Item, C3::Item, C4::Item, C5::Item, C6::Item, C7::Item, C8::Item, C9::Item, C10::Item, C11::Item, C12::Item, C13::Item, C14::Item, C15::Item, C16::Item, C17::Item, C18::Item);
    type Error = ComposeCodecError19<C0::Error, C1::Error, C2::Error, C3::Error, C4::Error, C5::Error, C6::Error, C7::Error, C8::Error, C9::Error, C10::Error, C11::Error, C12::Error, C13::Error, C14::Error, C15::Error, C16::Error, C17::Error, C18::Error>;
    type Model = (C0::Model, C1::Model, C2::Model, C3::Model, C4::Model, C5::Model, C6::Model, C7::Model, C8::Model, C9::Model, C10::Model, C11::Model, C12::Model, C13::Model, C14::Model, C15::Model, C16::Model, C17::Model, C18::Model);

    open spec fn model(item: &Self::Item) -> Self::Model {
        (C0::model(&item.0), C1::model(&item.1), C2::model(&item.2), C3::model(&item.3), C4::model(&item.4), C5::model(&item.5), C6::model(&item.6), C7::model(&item.7), C8::model(&item.8), C9::model(&item.9), C10::model(&item.10), C11::model(&item.11), C12::model(&item.12), C13::model(&item.13), C14::model(&item.14), C15::model(&item.15), C16::model(&item.16), C17::model(&item.17), C18::model(&item.18))
    }

    open spec fn decoding(input: Seq<u8>) -> (Option<Self::Model>, nat) {
        let d0 = C0::decoding(input);
        let o1 = d0.1;
        match d0.0 {
            None => (None, o1),
            Some(m0) => {
                let d1 = C1::decoding(input.skip(o1 as int));
                let o2 = o1 + d1.1;
                match d1.0 {
                    None => (None, o2),
                    Some(m1) => {
                        let d2 = C2::decoding(input.skip(o2 as int));
                        let o3 = o2 + d2.1;
                        match d2.0 {
                            None => (None, o3),
                            Some(m2) => {
                                let d3 = C3::decoding(input.skip(o3 as int));
                                let o4 = o3 + d3.1;
                                match d3.0 {
                                    None => (None, o4),
                                    Some(m3) => {
                                        let d4 = C4::decoding(input.skip(o4 as int));
                                        let o5 = o4 + d4.1;
                                        match d4.0 {
                                            None => (None, o5),
                                            Some(m4) => {
                                                let d5 = C5::decoding(input.skip(o5 as int));
                                                let o6 = o5 + d5.1;
                                                match d5.0 {
                                                    None => (None, o6),
                                                    Some(m5) => {
                                                        let d6 = C6::decoding(input.skip(o6 as int));
                                                        let o7 = o6 + d6.1;
                                                        match d6.0 {
                                                            None => (None, o7),
                                                            Some(m6) => {
                                                                let d7 = C7::decoding(input.skip(o7 as int));
                                                                let o8 = o7 + d7.1;
                                                                match d7.0 {
                                                                    None => (None, o8),
                                                                    Some(m7) => {
                                                                        let d8 = C8::decoding(input.skip(o8 as int));
                                                                        let o9 = o8 + d8.1;
                                                                        match d8.0 {
                                                                            None => (None, o9),
                                                                            Some(m8) => {
                                                                                let d9 = C9::decoding(input.skip(o9 as int));
                                                                                let o10 = o9 + d9.1;
                                                                                match d9.0 {
                                                                                    None => (None, o10),
                                                                                    Some(m9) => {
                                                                                        let d10 = C10::decoding(input.skip(o10 as int));
                                                                                        let o11 = o10 + d10.1;
                                                                                        match d10.0 {
                                                                                            None => (None, o11),
                                                                                            Some(m10) => {
                                                                                                let d11 = C11::decoding(input.skip(o11 as int));
                                                                                                let o12 = o11 + d11.1;
                                                                                                match d11.0 {
                                                                                                    None => (None, o12),
                                                                                                    Some(m11) => {
                                                                                                        let d12 = C12::decoding(input.skip(o12 as int));
                                                                                                        let o13 = o12 + d12.1;
                                                                                                        match d12.0 {
                                                                                                            None => (None, o13),
                                                                                                            Some(m12) => {
                                                                                                                let d13 = C13::decoding(input.skip(o13 as int));
                                                                                                                let o14 = o13 + d13.1;
                                                                                                                match d13.0 {
                                                                                                                    None => (None, o14),
                                                                                                                    Some(m13) => {
                                                                                                                        let d14 = C14::decoding(input.skip(o14 as int));
                                                                                                                        let o15 = o14 + d14.1;
                                                                                                                        match d14.0 {
                                                                                                                            None => (None, o15),
                                                                                                                            Some(m14) => {
                                                                                                                                let d15 = C15::decoding(input.skip(o15 as int));
                                                                                                                                let o16 = o15 + d15.1;
                                                                                                                                match d15.0 {
                                                                                                                                    None => (None, o16),
                                                                                                                                    Some(m15) => {
                                                                                                                                        let d16 = C16::decoding(input.skip(o16 as int));
                                                                                                                                        let o17 = o16 + d16.1;
                                                                                                                                        match d16.0 {
                                                                                                                                            None => (None, o17),
                                                                                                                                            Some(m16) => {
                                                                                                                                                let d17 = C17::decoding(input.skip(o17 as int));
                                                                                                                                                let o18 = o17 + d17.1;
                                                                                                                                                match d17.0 {
                                                                                                                                                    None => (None, o18),
                                                                                                                                                    Some(m17) => {
                                                                                                                                                        let d18 = C18::decoding(input.skip(o18 as int));
                                                                                                                                                        let o19 = o18 + d18.1;
                                                                                                                                                        match d18.0 {
                                                                                                                                                            None => (None, o19),
                                                                                                                                                            Some(m18) => (Some((m0, m1, m2, m3, m4, m5, m6, m7, m8, m9, m10, m11, m12, m13, m14, m15, m16, m17, m18)), o19),
                                                                                                                                                        }
                                                                                                                                                    },
                                                                                                                                                }
                                                                                                                                            },
                                                                                                                                        }
                                                                                                                                    },
                                                                                                                                }
                                                                                                                            },
                                                                                                                        }
                                                                                                                    },
                                                                                                                }
                                                                                                            },
                                                                                                        }
                                                                                                    },
                                                                                                }
                                                                                            },
                                                                                        }
                                                                                    },
                                                                                }
                                                                            },
                                                                        }
                                                                    },
                                                                }
                                                            },
                                                        }
                                                    },
                                                }
                                            },
                                        }
                                    },
                                }
                            },
                        }
                    },
                }
            },
        }
    }

    fn decode(bytes: &mut DecodingVec) -> (r: Result<Self::Item, Self::Error>)
        ensures
            ({
                let input = old(bytes)@;
                let d0 = C0::decoding(input);
                let o1 = d0.1;
                let d1 = C1::decoding(input.skip(o1 as int));
                let o2 = o1 + d1.1;
                let d2 = C2::decoding(input.skip(o2 as int));
                let o3 = o2 + d2.1;
                let d3 = C3::decoding(input.skip(o3 as int));
                let o4 = o3 + d3.1;
                let d4 = C4::decoding(input.skip(o4 as int));
                let o5 = o4 + d4.1;
                let d5 = C5::decoding(input.skip(o5 as int));
                let o6 = o5 + d5.1;
                let d6 = C6::decoding(input.skip(o6 as int));
                let o7 = o6 + d6.1;
                let d7 = C7::decoding(input.skip(o7 as int));
                let o8 = o7 + d7.1;
                let d8 = C8::decoding(input.skip(o8 as int));
                let o9 = o8 + d8.1;
                let d9 = C9::decoding(input.skip(o9 as int));
                let o10 = o9 + d9.1;
                let d10 = C10::decoding(input.skip(o10 as int));
                let o11 = o10 + d10.1;
                let d11 = C11::decoding(input.skip(o11 as int));
                let o12 = o11 + d11.1;
                let d12 = C12::decoding(input.skip(o12 as int));
                let o13 = o12 + d12.1;
                let d13 = C13::decoding(input.skip(o13 as int));
                let o14 = o13 + d13.1;
                let d14 = C14::decoding(input.skip(o14 as int));
                let o15 = o14 + d14.1;
                let d15 = C15::decoding(input.skip(o15 as int));
                let o16 = o15 + d15.1;
                let d16 = C16::decoding(input.skip(o16 as int));
                let o17 = o16 + d16.1;
                let d17 = C17::decoding(input.skip(o17 as int));
                let o18 = o17 + d17.1;
                let d18 = C18::decoding(input.skip(o18 as int));
                let o19 = o18 + d18.1;
                &&& (r matches Err(ComposeCodecError19::C0(_)) <==> d0.0 is None)
                &&& (r matches Err(ComposeCodecError19::C1(_)) <==> d0.0 is Some && d1.0 is None)
                &&& (r matches Err(ComposeCodecError19::C2(_)) <==> d0.0 is Some && d1.0 is Some && d2.0 is None)
                &&& (r matches Err(ComposeCodecError19::C3(_)) <==> d0.0 is Some && d1.0 is Some && d2.0 is Some && d3.0 is None)
                &&& (r matches Err(ComposeCodecError19::C4(_)) <==> d0.0 is Some && d1.0 is Some && d2.0 is Some && d3.0 is Some && d4.0 is None)
                &&& (r matches Err(ComposeCodecError19::C5(_)) <==> d0.0 is Some && d1.0 is Some && d2.0 is Some && d3.0 is Some && d4.0 is Some && d5.0 is None)
                &&& (r matches Err(ComposeCodecError19::C6(_)) <==> d0.0 is Some && d1.0 is Some && d2.0 is Some && d3.0 is Some && d4.0 is Some && d5.0 is Some && d6.0 is None)
                &&& (r matches Err(ComposeCodecError19::C7(_)) <==> d0.0 is Some && d1.0 is Some && d2.0 is Some && d3.0 is Some && d4.0 is Some && d5.0 is Some && d6.0 is Some && d7.0 is None)
                &&& (r matches Err(ComposeCodecError19::C8(_)) <==> d0.0 is Some && d1.0 is Some && d2.0 is Some && d3.0 is Some && d4.0 is Some && d5.0 is Some && d6.0 is Some && d7.0 is Some && d8.0 is None)
                &&& (r matches Err(ComposeCodecError19::C9(_)) <==> d0.0 is Some && d1.0 is Some && d2.0 is Some && d3.0 is Some && d4.0 is Some && d5.0 is Some && d6.0 is Some && d7.0 is Some && d8.0 is Some && d9.0 is None)
                &&& (r matches Err(ComposeCodecError19::C10(_)) <==> d0.0 is Some && d1.0 is Some && d2.0 is Some && d3.0 is Some && d4.0 is Some && d5.0 is Some && d6.0 is Some && d7.0 is Some && d8.0 is Some && d9.0 is Some && d10.0 is None)
                &&& (r matches Err(ComposeCodecError19::C11(_)) <==> d0.0 is Some && d1.0 is Some && d2.0 is Some && d3.0 is Some && d4.0 is Some && d5.0 is Some && d6.0 is Some && d7.0 is Some && d8.0 is Some && d9.0 is Some && d10.0 is Some && d11.0 is None)
                &&& (r matches Err(ComposeCodecError19::C12(_)) <==> d0.0 is Some && d1.0 is Some && d2.0 is Some && d3.0 is Some && d4.0 is Some && d5.0 is Some && d6.0 is Some && d7.0 is Some && d8.0 is Some && d9.0 is Some && d10.0 is Some && d11.0 is Some && d12.0 is None)
                &&& (r matches Err(ComposeCodecError19::C13(_)) <==> d0.0 is Some && d1.0 is Some && d2.0 is Some && d3.0 is Some && d4.0 is Some && d5.0 is Some && d6.0 is Some && d7.0 is Some && d8.0 is Some && d9.0 is Some && d10.0 is Some && d11.0 is Some && d12.0 is Some && d13.0 is None)
                &&& (r matches Err(ComposeCodecError19::C14(_)) <==> d0.0 is Some && d1.0 is Some && d2.0 is Some && d3.0 is Some && d4.0 is Some && d5.0 is Some && d6.0 is Some && d7.0 is Some && d8.0 is Some && d9.0 is Some && d10.0 is Some && d11.0 is Some && d12.0 is Some && d13.0 is Some && d14.0 is None)
                &&& (r matches Err(ComposeCodecError19::C15(_)) <==> d0.0 is Some && d1.0 is Some && d2.0 is Some && d3.0 is Some && d4.0 is Some && d5.0 is Some && d6.0 is Some && d7.0 is Some && d8.0 is Some && d9.0 is Some && d10.0 is Some && d11.0 is Some && d12.0 is Some && d13.0 is Some && d14.0 is Some && d15.0 is None)
                &&& (r matches Err(ComposeCodecError19::C16(_)) <==> d0.0 is Some && d1.0 is Some && d2.0 is Some && d3.0 is Some && d4.0 is Some && d5.0 is Some && d6.0 is Some && d7.0 is Some && d8.0 is Some && d9.0 is Some && d10.0 is Some && d11.0 is Some && d12.0 is Some && d13.0 is Some && d14.0 is Some && d15.0 is Some && d16.0 is None)
                &&& (r matches Err(ComposeCodecError19::C17(_)) <==> d0.0 is Some && d1.0 is Some && d2.0 is Some && d3.0 is Some && d4.0 is Some && d5.0 is Some && d6.0 is Some && d7.0 is Some && d8.0 is Some && d9.0 is Some && d10.0 is Some && d11.0 is Some && d12.0 is Some && d13.0 is Some && d14.0 is Some && d15.0 is Some && d16.0 is Some && d17.0 is None)
                &&& (r matches Err(ComposeCodecError19::C18(_)) <==> d0.0 is Some && d1.0 is Some && d2.0 is Some && d3.0 is Some && d4.0 is Some && d5.0 is Some && d6.0 is Some && d7.0 is Some && d8.0 is Some && d9.0 is Some && d10.0 is Some && d11.0 is Some && d12.0 is Some && d13.0 is Some && d14.0 is Some && d15.0 is Some && d16.0 is Some && d17.0 is Some && d18.0 is None)
            }),
    {
        let ghost input = bytes@;
        let ghost o1 = C0::decoding(input).1;
        let r0 = C0::decode(bytes);
        assert(bytes@ =~= input.skip(o1 as int));
        let v0 = match r0 {
            Ok(v) => v,
            Err(e) => return Err(ComposeCodecError19::C0(e)),
        };
        let ghost o2 = o1 + C1::decoding(input.skip(o1 as int)).1;
        let r1 = C1::decode(bytes);
        assert(bytes@ =~= input.skip(o2 as int));
        let v1 = match r1 {
            Ok(v) => v,
            Err(e) => return Err(ComposeCodecError19::C1(e)),
        };
        let ghost o3 = o2 + C2::decoding(input.skip(o2 as int)).1;
        let r2 = C2::decode(bytes);
        assert(bytes@ =~= input.skip(o3 as int));
        let v2 = match r2 {
            Ok(v) => v,
            Err(e) => return Err(ComposeCodecError19::C2(e)),
        };
        let ghost o4 = o3 + C3::decoding(input.skip(o3 as int)).1;
        let r3 = C3::decode(bytes);
        assert(bytes@ =~= input.skip(o4 as int));
        let v3 = match r3 {
            Ok(v) => v,
            Err(e) => return Err(ComposeCodecError19::C3(e)),
        };
        let ghost o5 = o4 + C4::decoding(input.skip(o4 as int)).1;
        let r4 = C4::decode(bytes);
        assert(bytes@ =~= input.skip(o5 as int));
        let v4 = match r4 {
            Ok(v) => v,
            Err(e) => return Err(ComposeCodecError19::C4(e)),
        };
        let ghost o6 = o5 + C5::decoding(input.skip(o5 as int)).1;
        let r5 = C5::decode(bytes);
        assert(bytes@ =~= input.skip(o6 as int));
        let v5 = match r5 {
            Ok(v) => v,
            Err(e) => return Err(ComposeCodecError19::C5(e)),
        };
        let ghost o7 = o6 + C6::decoding(input.skip(o6 as int)).1;
        let r6 = C6::decode(bytes);
        assert(bytes@ =~= input.skip(o7 as int));
        let v6 = match r6 {
            Ok(v) => v,
            Err(e) => return Err(ComposeCodecError19::C6(e)),
        };
        let ghost o8 = o7 + C7::decoding(input.skip(o7 as int)).1;
        let r7 = C7::decode(bytes);
        assert(bytes@ =~= input.skip(o8 as int));
        let v7 = match r7 {
            Ok(v) => v,
            Err(e) => return Err(ComposeCodecError19::C7(e)),
        };
        let ghost o9 = o8 + C8::decoding(input.skip(o8 as int)).1;
        let r8 = C8::decode(bytes);
        assert(bytes@ =~= input.skip(o9 as int));
        let v8 = match r8 {
            Ok(v) => v,
            Err(e) => return Err(ComposeCodecError19::C8(e)),
        };
        let ghost o10 = o9 + C9::decoding(input.skip(o9 as int)).1;
        let r9 = C9::decode(bytes);
        assert(bytes@ =~= input.skip(o10 as int));
        let v9 = match r9 {
            Ok(v) => v,
            Err(e) => return Err(ComposeCodecError19::C9(e)),
        };
        let ghost o11 = o10 + C10::decoding(input.skip(o10 as int)).1;
        let r10 = C10::decode(bytes);
        assert(bytes@ =~= input.skip(o11 as int));
        let v10 = match r10 {
            Ok(v) => v,
            Err(e) => return Err(ComposeCodecError19::C10(e)),
        };
        let ghost o12 = o11 + C11::decoding(input.skip(o11 as int)).1;
        let r11 = C11::decode(bytes);
        assert(bytes@ =~= input.skip(o12 as int));
        let v11 = match r11 {
            Ok(v) => v,
            Err(e) => return Err(ComposeCodecError19::C11(e)),
        };
        let ghost o13 = o12 + C12::decoding(input.skip(o12 as int)).1;
        let r12 = C12::decode(bytes);
        assert(bytes@ =~= input.skip(o13 as int));
        let v12 = match r12 {
            Ok(v) => v,
            Err(e) => return Err(ComposeCodecError19::C12(e)),
        };
        let ghost o14 = o13 + C13::decoding(input.skip(o13 as int)).1;
        let r13 = C13::decode(bytes);
        assert(bytes@ =~= input.skip(o14 as int));
        let v13 = match r13 {
            Ok(v) => v,
            Err(e) => return Err(ComposeCodecError19::C13(e)),
        };
        let ghost o15 = o14 + C14::decoding(input.skip(o14 as int)).1;
        let r14 = C14::decode(bytes);
        assert(bytes@ =~= input.skip(o15 as int));
        let v14 = match r14 {
            Ok(v) => v,
            Err(e) => return Err(ComposeCodecError19::C14(e)),
        };
        let ghost o16 = o15 + C15::decoding(input.skip(o15 as int)).1;
        let r15 = C15::decode(bytes);
        assert(bytes@ =~= input.skip(o16 as int));
        let v15 = match r15 {
            Ok(v) => v,
            Err(e) => return Err(ComposeCodecError19::C15(e)),
        };
        let ghost o17 = o16 + C16::decoding(input.skip(o16 as int)).1;
        let r16 = C16::decode(bytes);
        assert(bytes@ =~= input.skip(o17 as int));
        let v16 = match r16 {
            Ok(v) => v,
            Err(e) => return Err(ComposeCodecError19::C16(e)),
        };
        let ghost o18 = o17 + C17::decoding(input.skip(o17 as int)).1;
        let r17 = C17::decode(bytes);
        assert(bytes@ =~= input.skip(o18 as int));
        let v17 = match r17 {
            Ok(v) => v,
            Err(e) => return Err(ComposeCodecError19::C17(e)),
        };
        let ghost o19 = o18 + C18::decoding(input.skip(o18 as int)).1;
        let r18 = C18::decode(bytes);
        assert(bytes@ =~= input.skip(o19 as int));
        let v18 = match r18 {
            Ok(v) => v,
            Err(e) => return Err(ComposeCodecError19::C18(e)),
        };
        Ok((v0, v1, v2, v3, v4, v5, v6, v7, v8, v9, v10, v11, v12, v13, v14, v15, v16, v17, v18))
    }
}

/// When every codec but the last recovers its item whatever follows it, and the last one
/// recovers its item from its own encoding, the composition recovers the whole tuple from
/// its encoding.
pub proof fn lemma_compose19_roundtrip<'a, C0: Encode<'a> + Decode, C1: Encode<'a> + Decode, C2: Encode<'a> + Decode, C3: Encode<'a> + Decode, C4: Encode<'a> + Decode, C5: Encode<'a> + Decode, C6: Encode<'a> + Decode, C7: Encode<'a> + Decode, C8: Encode<'a> + Decode, C9: Encode<'a> + Decode, C10: Encode<'a> + Decode, C11: Encode<'a> + Decode, C12: Encode<'a> + Decode, C13: Encode<'a> + Decode, C14: Encode<'a> + Decode, C15: Encode<'a> + Decode, C16: Encode<'a> + Decode, C17: Encode<'a> + Decode, C18: Encode<'a> + Decode>(
    item: &<ComposeCodec<(C0, C1, C2, C3, C4, C5, C6, C7, C8, C9, C10, C11, C12, C13, C14, C15, C16, C17, C18)> as Encode<'a>>::Item,
    m0: <C0 as Decode>::Model, m1: <C1 as Decode>::Model, m2: <C2 as Decode>::Model, m3: <C3 as Decode>::Model, m4: <C4 as Decode>::Model, m5: <C5 as Decode>::Model, m6: <C6 as Decode>::Model, m7: <C7 as Decode>::Model, m8: <C8 as Decode>::Model, m9: <C9 as Decode>::Model, m10: <C10 as Decode>::Model, m11: <C11 as Decode>::Model, m12: <C12 as Decode>::Model, m13: <C13 as Decode>::Model, m14: <C14 as Decode>::Model, m15: <C15 as Decode>::Model, m16: <C16 as Decode>::Model, m17: <C17 as Decode>::Model, m18: <C18 as Decode>::Model,
)
    requires
        roundtrips_before_anything::<C0>(item.0, m0),
        roundtrips_before_anything::<C1>(item.1, m1),
        roundtrips_before_anything::<C2>(item.2, m2),
        roundtrips_before_anything::<C3>(item.3, m3),
        roundtrips_before_anything::<C4>(item.4, m4),
        roundtrips_before_anything::<C5>(item.5, m5),
        roundtrips_before_anything::<C6>(item.6, m6),
        roundtrips_before_anything::<C7>(item.7, m7),
        roundtrips_before_anything::<C8>(item.8, m8),
        roundtrips_before_anything::<C9>(item.9, m9),
        roundtrips_before_anything::<C10>(item.10, m10),
        roundtrips_before_anything::<C11>(item.11, m11),
        roundtrips_before_anything::<C12>(item.12, m12),
        roundtrips_before_anything::<C13>(item.13, m13),
        roundtrips_before_anything::<C14>(item.14, m14),
        roundtrips_before_anything::<C15>(item.15, m15),
        roundtrips_before_anything::<C16>(item.16, m16),
        roundtrips_before_anything::<C17>(item.17, m17),
        roundtrips_alone::<C18>(item.18, m18),
    ensures
        roundtrips_alone::<ComposeCodec<(C0, C1, C2, C3, C4, C5, C6, C7, C8, C9, C10, C11, C12, C13, C14, C15, C16, C17, C18)>>(item, (m0, m1, m2, m3, m4, m5, m6, m7, m8, m9, m10, m11, m12, m13, m14, m15, m16, m17, m18)),
{
    let b0 = C0::encoding(item.0).unwrap();
    let b1 = C1::encoding(item.1).unwrap();
    let b2 = C2::encoding(item.2).unwrap();
    let b3 = C3::encoding(item.3).unwrap();
    let b4 = C4::encoding(item.4).unwrap();
    let b5 = C5::encoding(item.5).unwrap();
    let b6 = C6::encoding(item.6).unwrap();
    let b7 = C7::encoding(item.7).unwrap();
    let b8 = C8::encoding(item.8).unwrap();
    let b9 = C9::encoding(item.9).unwrap();
    let b10 = C10::encoding(item.10).unwrap();
    let b11 = C11::encoding(item.11).unwrap();
    let b12 = C12::encoding(item.12).unwrap();
    let b13 = C13::encoding(item.13).unwrap();
    let b14 = C14::encoding(item.14).unwrap();
    let b15 = C15::encoding(item.15).unwrap();
    let b16 = C16::encoding(item.16).unwrap();
    let b17 = C17::encoding(item.17).unwrap();
    let b18 = C18::encoding(item.18).unwrap();
    let p1 = b0;
    let p2 = p1 + b1;
    let p3 = p2 + b2;
    let p4 = p3 + b3;
    let p5 = p4 + b4;
    let p6 = p5 + b5;
    let p7 = p6 + b6;
    let p8 = p7 + b7;
    let p9 = p8 + b8;
    let p10 = p9 + b9;
    let p11 = p10 + b10;
    let p12 = p11 + b11;
    let p13 = p12 + b12;
    let p14 = p13 + b13;
    let p15 = p14 + b14;
    let p16 = p15 + b15;
    let p17 = p16 + b16;
    let p18 = p17 + b17;
    let p19 = p18 + b18;
    assert(ComposeCodec::<(C0, C1, C2, C3, C4, C5, C6, C7, C8, C9, C10, C11, C12, C13, C14, C15, C16, C17, C18)>::encoding(item) == Some(p19));
    let t18 = b18;
    let t17 = b17 + t18;
    lemma_concat_assoc(p17, b17, t18);
    let t16 = b16 + t17;
    lemma_concat_assoc(p16, b16, t17);
    let t15 = b15 + t16;
    lemma_concat_assoc(p15, b15, t16);
    let t14 = b14 + t15;
    lemma_concat_assoc(p14, b14, t15);
    let t13 = b13 + t14;
    lemma_concat_assoc(p13, b13, t14);
    let t12 = b12 + t13;
    lemma_concat_assoc(p12, b12, t13);
    let t11 = b11 + t12;
    lemma_concat_assoc(p11, b11, t12);
    let t10 = b10 + t11;
    lemma_concat_assoc(p10, b10, t11);
    let t9 = b9 + t10;
    lemma_concat_assoc(p9, b9, t10);
    let t8 = b8 + t9;
    lemma_concat_assoc(p8, b8, t9);
    let t7 = b7 + t8;
    lemma_concat_assoc(p7, b7, t8);
    let t6 = b6 + t7;
    lemma_concat_assoc(p6, b6, t7);
    let t5 = b5 + t6;
    lemma_concat_assoc(p5, b5, t6);
    let t4 = b4 + t5;
    lemma_concat_assoc(p4, b4, t5);
    let t3 = b3 + t4;
    lemma_concat_assoc(p3, b3, t4);
    let t2 = b2 + t3;
    lemma_concat_assoc(p2, b2, t3);
    let t1 = b1 + t2;
    lemma_concat_assoc(p1, b1, t2);
    lemma_skip_prefix(p1, t1);
    lemma_skip_prefix(p2, t2);
    lemma_skip_prefix(p3, t3);
    lemma_skip_prefix(p4, t4);
    lemma_skip_prefix(p5, t5);
    lemma_skip_prefix(p6, t6);
    lemma_skip_prefix(p7, t7);
    lemma_skip_prefix(p8, t8);
    lemma_skip_prefix(p9, t9);
    lemma_skip_prefix(p10, t10);
    lemma_skip_prefix(p11, t11);
    lemma_skip_prefix(p12, t12);
    lemma_skip_prefix(p13, t13);
    lemma_skip_prefix(p14, t14);
    lemma_skip_prefix(p15, t15);
    lemma_skip_prefix(p16, t16);
    lemma_skip_prefix(p17, t17);
    lemma_skip_prefix(p18, t18);
    assert(C0::decoding(b0 + t1) == (Some(m0), b0.len()));
    assert(C1::decoding(b1 + t2) == (Some(m1), b1.len()));
    assert(C2::decoding(b2 + t3) == (Some(m2), b2.len()));
    assert(C3::decoding(b3 + t4) == (Some(m3), b3.len()));
    assert(C4::decoding(b4 + t5) == (Some(m4), b4.len()));
    assert(C5::decoding(b5 + t6) == (Some(m5), b5.len()));
    assert(C6::decoding(b6 + t7) == (Some(m6), b6.len()));
    assert(C7::decoding(b7 + t8) == (Some(m7), b7.len()));
    assert(C8::decoding(b8 + t9) == (Some(m8), b8.len()));
    assert(C9::decoding(b9 + t10) == (Some(m9), b9.len()));
    assert(C10::decoding(b10 + t11) == (Some(m10), b10.len()));
    assert(C11::decoding(b11 + t12) == (Some(m11), b11.len()));
    assert(C12::decoding(b12 + t13) == (Some(m12), b12.len()));
    assert(C13::decoding(b13 + t14) == (Some(m13), b13.len()));
    assert(C14::decoding(b14 + t15) == (Some(m14), b14.len()));
    assert(C15::decoding(b15 + t16) == (Some(m15), b15.len()));
    assert(C16::decoding(b16 + t17) == (Some(m16), b16.len()));
    assert(C17::decoding(b17 + t18) == (Some(m17), b17.len()));
    assert(C18::decoding(b18) == (Some(m18), b18.len()));
}

/// When every codec recovers its item whatever follows it, so does the composition: it can
/// itself stand before another codec.
pub proof fn lemma_compose19_roundtrip_before_anything<'a, C0: Encode<'a> + Decode, C1: Encode<'a> + Decode, C2: Encode<'a> + Decode, C3: Encode<'a> + Decode, C4: Encode<'a> + Decode, C5: Encode<'a> + Decode, C6: Encode<'a> + Decode, C7: Encode<'a> + Decode, C8: Encode<'a> + Decode, C9: Encode<'a> + Decode, C10: Encode<'a> + Decode, C11: Encode<'a> + Decode, C12: Encode<'a> + Decode, C13: Encode<'a> + Decode, C14: Encode<'a> + Decode, C15: Encode<'a> + Decode, C16: Encode<'a> + Decode, C17: Encode<'a> + Decode, C18: Encode<'a> + Decode>(
    item: &<ComposeCodec<(C0, C1, C2, C3, C4, C5, C6, C7, C8, C9, C10, C11, C12, C13, C14, C15, C16, C17, C18)> as Encode<'a>>::Item,
    m0: <C0 as Decode>::Model, m1: <C1 as Decode>::Model, m2: <C2 as Decode>::Model, m3: <C3 as Decode>::Model, m4: <C4 as Decode>::Model, m5: <C5 as Decode>::Model, m6: <C6 as Decode>::Model, m7: <C7 as Decode>::Model, m8: <C8 as Decode>::Model, m9: <C9 as Decode>::Model, m10: <C10 as Decode>::Model, m11: <C11 as Decode>::Model, m12: <C12 as Decode>::Model, m13: <C13 as Decode>::Model, m14: <C14 as Decode>::Model, m15: <C15 as Decode>::Model, m16: <C16 as Decode>::Model, m17: <C17 as Decode>::Model, m18: <C18 as Decode>::Model,
)
    requires
        roundtrips_before_anything::<C0>(item.0, m0),
        roundtrips_before_anything::<C1>(item.1, m1),
        roundtrips_before_anything::<C2>(item.2, m2),
        roundtrips_before_anything::<C3>(item.3, m3),
        roundtrips_before_anything::<C4>(item.4, m4),
        roundtrips_before_anything::<C5>(item.5, m5),
        roundtrips_before_anything::<C6>(item.6, m6),
        roundtrips_before_anything::<C7>(item.7, m7),
        roundtrips_before_anything::<C8>(item.8, m8),
        roundtrips_before_anything::<C9>(item.9, m9),
        roundtrips_before_anything::<C10>(item.10, m10),
        roundtrips_before_anything::<C11>(item.11, m11),
        roundtrips_before_anything::<C12>(item.12, m12),
        roundtrips_before_anything::<C13>(item.13, m13),
        roundtrips_before_anything::<C14>(item.14, m14),
        roundtrips_before_anything::<C15>(item.15, m15),
        roundtrips_before_anything::<C16>(item.16, m16),
        roundtrips_before_anything::<C17>(item.17, m17),
        roundtrips_before_anything::<C18>(item.18, m18),
    ensures
        roundtrips_before_anything::<ComposeCodec<(C0, C1, C2, C3, C4, C5, C6, C7, C8, C9, C10, C11, C12, C13, C14, C15, C16, C17, C18)>>(item, (m0, m1, m2, m3, m4, m5, m6, m7, m8, m9, m10, m11, m12, m13, m14, m15, m16, m17, m18)),
{
    let b0 = C0::encoding(item.0).unwrap();
    let b1 = C1::encoding(item.1).unwrap();
    let b2 = C2::encoding(item.2).unwrap();
    let b3 = C3::encoding(item.3).unwrap();
    let b4 = C4::encoding(item.4).unwrap();
    let b5 = C5::encoding(item.5).unwrap();
    let b6 = C6::encoding(item.6).unwrap();
    let b7 = C7::encoding(item.7).unwrap();
    let b8 = C8::encoding(item.8).unwrap();
    let b9 = C9::encoding(item.9).unwrap();
    let b10 = C10::encoding(item.10).unwrap();
    let b11 = C11::encoding(item.11).unwrap();
    let b12 = C12::encoding(item.12).unwrap();
    let b13 = C13::encoding(item.13).unwrap();
    let b14 = C14::encoding(item.14).unwrap();
    let b15 = C15::encoding(item.15).unwrap();
    let b16 = C16::encoding(item.16).unwrap();
    let b17 = C17::encoding(item.17).unwrap();
    let b18 = C18::encoding(item.18).unwrap();
    let p1 = b0;
    let p2 = p1 + b1;
    let p3 = p2 + b2;
    let p4 = p3 + b3;
    let p5 = p4 + b4;
    let p6 = p5 + b5;
    let p7 = p6 + b6;
    let p8 = p7 + b7;
    let p9 = p8 + b8;
    let p10 = p9 + b9;
    let p11 = p10 + b10;
    let p12 = p11 + b11;
    let p13 = p12 + b12;
    let p14 = p13 + b13;
    let p15 = p14 + b14;
    let p16 = p15 + b15;
    let p17 = p16 + b16;
    let p18 = p17 + b17;
    let p19 = p18 + b18;
    assert(ComposeCodec::<(C0, C1, C2, C3, C4, C5, C6, C7, C8, C9, C10, C11, C12, C13, C14, C15, C16, C17, C18)>::encoding(item) == Some(p19));
    assert forall|rest: Seq<u8>|
        #[trigger] ComposeCodec::<(C0, C1, C2, C3, C4, C5, C6, C7, C8, C9, C10, C11, C12, C13, C14, C15, C16, C17, C18)>::decoding(p19 + rest) == (Some((m0, m1, m2, m3, m4, m5, m6, m7, m8, m9, m10, m11, m12, m13, m14, m15, m16, m17, m18)), p19.len()) by {
        let t19 = rest;
        let t18 = b18 + t19;
        lemma_concat_assoc(p18, b18, t19);
        let t17 = b17 + t18;
        lemma_concat_assoc(p17, b17, t18);
        let t16 = b16 + t17;
        lemma_concat_assoc(p16, b16, t17);
        let t15 = b15 + t16;
        lemma_concat_assoc(p15, b15, t16);
        let t14 = b14 + t15;
        lemma_concat_assoc(p14, b14, t15);
        let t13 = b13 + t14;
        lemma_concat_assoc(p13, b13, t14);
        let t12 = b12 + t13;
        lemma_concat_assoc(p12, b12, t13);
        let t11 = b11 + t12;
        lemma_concat_assoc(p11, b11, t12);
        let t10 = b10 + t11;
        lemma_concat_assoc(p10, b10, t11);
        let t9 = b9 + t10;
        lemma_concat_assoc(p9, b9, t10);
        let t8 = b8 + t9;
        lemma_concat_assoc(p8, b8, t9);
        let t7 = b7 + t8;
        lemma_concat_assoc(p7, b7, t8);
        let t6 = b6 + t7;
        lemma_concat_assoc(p6, b6, t7);
        let t5 = b5 + t6;
        lemma_concat_assoc(p5, b5, t6);
        let t4 = b4 + t5;
        lemma_concat_assoc(p4, b4, t5);
        let t3 = b3 + t4;
        lemma_concat_assoc(p3, b3, t4);
        let t2 = b2 + t3;
        lemma_concat_assoc(p2, b2, t3);
        let t1 = b1 + t2;
        lemma_concat_assoc(p1, b1, t2);
        lemma_skip_prefix(p1, t1);
        lemma_skip_prefix(p2, t2);
        lemma_skip_prefix(p3, t3);
        lemma_skip_prefix(p4, t4);
        lemma_skip_prefix(p5, t5);
        lemma_skip_prefix(p6, t6);
        lemma_skip_prefix(p7, t7);
        lemma_skip_prefix(p8, t8);
        lemma_skip_prefix(p9, t9);
        lemma_skip_prefix(p10, t10);
        lemma_skip_prefix(p11, t11);
        lemma_skip_prefix(p12, t12);
        lemma_skip_prefix(p13, t13);
        lemma_skip_prefix(p14, t14);
        lemma_skip_prefix(p15, t15);
        lemma_skip_prefix(p16, t16);
        lemma_skip_prefix(p17, t17);
        lemma_skip_prefix(p18, t18);
        assert(C0::decoding(b0 + t1) == (Some(m0), b0.len()));
        assert(C1::decoding(b1 + t2) == (Some(m1), b1.len()));
        assert(C2::decoding(b2 + t3) == (Some(m2), b2.len()));
        assert(C3::decoding(b3 + t4) == (Some(m3), b3.len()));
        assert(C4::decoding(b4 + t5) == (Some(m4), b4.len()));
        assert(C5::decoding(b5 + t6) == (Some(m5), b5.len()));
        assert(C6::decoding(b6 + t7) == (Some(m6), b6.len()));
        assert(C7::decoding(b7 + t8) == (Some(m7), b7.len()));
        assert(C8::decoding(b8 + t9) == (Some(m8), b8.len()));
        assert(C9::decoding(b9 + t10) == (Some(m9), b9.len()));
        assert(C10::decoding(b10 + t11) == (Some(m10), b10.len()));
        assert(C11::decoding(b11 + t12) == (Some(m11), b11.len()));
        assert(C12::decoding(b12 + t13) == (Some(m12), b12.len()));
        assert(C13::decoding(b13 + t14) == (Some(m13), b13.len()));
        assert(C14::decoding(b14 + t15) == (Some(m14), b14.len()));
        assert(C15::decoding(b15 + t16) == (Some(m15), b15.len()));
        assert(C16::decoding(b16 + t17) == (Some(m16), b16.len()));
        assert(C17::decoding(b17 + t18) == (Some(m17), b17.len()));
        assert(C18::decoding(b18 + t19) == (Some(m18), b18.len()));
    }
}

} // verus!
