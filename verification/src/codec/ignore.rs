use std::convert::Infallible;
use vstd::prelude::*;

use crate::codec::{Decode, DecodingVec};

verus! {

/// Dummy codec if you don't know yet which codec will be used.
pub struct Unspecified(());

/// Convenient codec to ignore the decoding part and return the unit type instead.
pub struct DecodeIgnore(());

impl Decode for DecodeIgnore {
    type Item = ();
    type Error = Infallible;
    type Model = ();

    open spec fn model(item: &()) -> () {
        ()
    }

    open spec fn decoding(input: Seq<u8>) -> (Option<()>, nat) {
        (Some(()), 0)
    }

    fn decode(bytes: &mut DecodingVec) -> (r: Result<(), Infallible>) {
        Ok(())
    }
}

} // verus!
