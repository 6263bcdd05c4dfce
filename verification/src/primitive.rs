//! The engine's memory primitives as values: one `Load` or `Store` stands for
//! one call of the byte-, halfword- or word-sized read or write function of
//! the foreign engine.

use crate::codec::Width;
use vstd::prelude::*;

verus! {

/// One call of the read primitive of the given width.
#[derive(Clone, Copy, PartialEq, Eq, Structural, Debug)]
pub struct Load {
    /// The byte address handed to the engine.
    pub address: u32,
    /// Which of the three read primitives is called.
    pub width: Width,
}

/// One call of the write primitive of the given width.
#[derive(Clone, Copy, PartialEq, Eq, Structural, Debug)]
pub struct Store {
    /// The byte address handed to the engine.
    pub address: u32,
    /// Which of the three write primitives is called.
    pub width: Width,
    /// The value handed to the engine, zero-extended to 32 bits.
    pub value: u32,
}

impl Store {
    /// The value fits the primitive's width, so narrowing it to the
    /// primitive's argument type loses nothing.
    pub open spec fn fits(self) -> bool {
        (self.value as int) < self.width.limit()
    }
}

} // verus!
