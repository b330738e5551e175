use vstd::prelude::*;

verus! {

/// Private marker that closes the index-kind family: only this crate can
/// name it, so no code outside the crate can add an index type.
pub trait Sealed {}

impl Sealed for u8 {}

impl Sealed for u16 {}

impl Sealed for u32 {}

impl Sealed for usize {}

} // verus!
