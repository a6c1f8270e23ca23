//! Codecs that turn a tuple of unsigned coordinates into one sortable key,
//! in Morton (Z-order) or Hilbert order, and back; the width policy that
//! picks the key's size; and named, keyed and unkeyed hashes written out in
//! hexadecimal.

pub mod bits;
pub mod width;
pub mod morton;
pub mod hilbert;
pub mod codec;
pub mod crypto;
pub mod host;
