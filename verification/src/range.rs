use vstd::prelude::*;

use crate::codec::Encode;

verus! {

/// One end of a range of keys, borrowed from the caller.
pub enum KeyBound<'a, T: ?Sized> {
    Included(&'a T),
    Excluded(&'a T),
    Unbounded,
}

/// One end of a range of encoded keys, as handed to the store.
pub enum EncodedBound {
    Included(Vec<u8>),
    Excluded(Vec<u8>),
    Unbounded,
}

/// Encodes one end of a key range with the codec `K`. An included key becomes an excluded
/// encoded key and an excluded key an included one; an unbounded end stays unbounded.
pub fn encode_range_bound<'a, K: Encode<'a>>(bound: KeyBound<'a, K::Item>) -> (r: Result<EncodedBound, K::Error>)
    ensures
        match bound {
            KeyBound::Included(key) => match r {
                Ok(EncodedBound::Excluded(bytes)) => K::encoding(key) == Some(bytes@),
                Ok(_) => false,
                Err(_) => K::encoding(key) is None,
            },
            KeyBound::Excluded(key) => match r {
                Ok(EncodedBound::Included(bytes)) => K::encoding(key) == Some(bytes@),
                Ok(_) => false,
                Err(_) => K::encoding(key) is None,
            },
            KeyBound::Unbounded => r matches Ok(EncodedBound::Unbounded),
        },
{
    match bound {
        KeyBound::Included(key) => Ok(EncodedBound::Excluded(K::encode_alloc(key)?.finish())),
        KeyBound::Excluded(key) => Ok(EncodedBound::Included(K::encode_alloc(key)?.finish())),
        KeyBound::Unbounded => Ok(EncodedBound::Unbounded),
    }
}

} // verus!
