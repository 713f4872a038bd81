use std::convert::Infallible;
use std::string::FromUtf8Error;
use vstd::prelude::*;
use vstd::string::StringSliceAdditionalSpecFns;
use vstd::utf8::{decode_utf8, encode_utf8, valid_utf8};

use crate::codec::{Decode, DecodingVec, Encode, EncodingVec, Fresh};

verus! {

#[verifier::external_type_specification]
#[verifier::external_body]
pub struct ExFromUtf8Error(FromUtf8Error);

/// Describes a raw UTF-8 string, without length or terminating byte.
///
/// This codec is final: it decodes every byte till the end.
pub struct Str {}

impl<'a> Encode<'a> for Str {
    type Item = str;
    type Error = Infallible;

    open spec fn encoding(item: &str) -> Option<Seq<u8>> {
        Some(encode_utf8(item@))
    }

    fn encode(into: EncodingVec<Fresh>, item: &str) -> (r: Result<EncodingVec<Fresh>, Infallible>)
        ensures
            r matches Ok(out) && out.bytes() == into.bytes() + encode_utf8(item@),
    {
        let mut ret = into.edit();
        ret.extend_from_slice(item.as_bytes());
        Ok(ret.make_fresh())
    }
}

/// `String::from_utf8`, which the standard library documents as succeeding exactly on valid
/// UTF-8 and then holding the decoded characters.
#[verifier::external_body]
fn string_from_utf8(bytes: Vec<u8>) -> (r: Result<String, FromUtf8Error>)
    ensures
        match r {
            Ok(s) => valid_utf8(bytes@) && s@ == decode_utf8(bytes@),
            Err(_) => !valid_utf8(bytes@),
        },
{
    String::from_utf8(bytes)
}

impl Decode for Str {
    type Item = String;
    type Error = FromUtf8Error;
    type Model = Seq<char>;

    open spec fn model(item: &String) -> Seq<char> {
        item@
    }

    open spec fn decoding(input: Seq<u8>) -> (Option<Seq<char>>, nat) {
        if valid_utf8(input) {
            (Some(decode_utf8(input)), input.len())
        } else {
            (None, input.len())
        }
    }

    fn decode(bytes: &mut DecodingVec) -> (r: Result<String, FromUtf8Error>)
        ensures
            final(bytes)@.len() == 0,
            r is Ok <==> valid_utf8(old(bytes)@),
            r matches Ok(s) ==> s@ == decode_utf8(old(bytes)@),
    {
        string_from_utf8(bytes.consume())
    }
}

/// `Str` writes exactly the UTF-8 bytes of the string, with no length or terminator, and
/// reads every byte that is left: valid UTF-8 gives exactly the characters it encodes, anything
/// else fails.
pub proof fn lemma_str_is_raw_utf8(item: &str, input: Seq<u8>)
    ensures
        Str::encoding(item) == Some(encode_utf8(item@)),
        Str::encoding(item) == Some(item.spec_bytes()),
        <Str as Decode>::decoding(input).1 == input.len(),
        valid_utf8(input) ==> <Str as Decode>::decoding(input).0 == Some(decode_utf8(input)),
        !valid_utf8(input) ==> <Str as Decode>::decoding(input).0 is None,
{
}

} // verus!
