//! A typed layer of codecs over an ordered key-value store.
pub mod codec;
pub mod range;
