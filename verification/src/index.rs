use vstd::prelude::*;

use crate::sealed::Sealed;

verus! {

/// An index kind: a numeric type that is eligible to express positions and
/// lengths for slicing. The family is sealed to the integer types that
/// convert losslessly into `usize`, so every slicing implementation is a
/// total function over a known, finite set of index representations.
pub trait Index: Sealed + Copy {
    /// The numeric magnitude this index value denotes, in elements.
    spec fn as_index(&self) -> nat;

    /// The same magnitude as a native size value.
    fn as_usize(self) -> (r: usize)
        ensures
            r as nat == self.as_index(),
    ;
}

impl Index for u8 {
    open spec fn as_index(&self) -> nat {
        *self as nat
    }

    fn as_usize(self) -> usize {
        self as usize
    }
}

impl Index for u16 {
    open spec fn as_index(&self) -> nat {
        *self as nat
    }

    fn as_usize(self) -> usize {
        self as usize
    }
}

impl Index for u32 {
    open spec fn as_index(&self) -> nat {
        *self as nat
    }

    fn as_usize(self) -> usize {
        self as usize
    }
}

impl Index for usize {
    open spec fn as_index(&self) -> nat {
        *self as nat
    }

    fn as_usize(self) -> usize {
        self
    }
}

} // verus!
