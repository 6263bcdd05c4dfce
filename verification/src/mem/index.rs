//! Indexing by address or by address range, under one pair of names.
//!
//! `index_move` is the read side and `index_set` the write side. Both take
//! either one address or a half-open range of byte addresses, so a call site
//! never branches on the element width or on the shape of the index.

use crate::codec::Element;
use crate::mem::read::element_load;
use crate::mem::read::element_store;
use crate::mem::read::is_read_plan;
use crate::mem::read::is_write_plan;
use crate::mem::read::ContractViolation;
use crate::mem::read::MemIndexWrapper;
use crate::mem::read::TypedMemoryAccessor;
use crate::mem::read::TypedMemoryMutator;
use crate::primitive::Load;
use crate::primitive::Store;
use std::ops::Range;
use vstd::prelude::*;

verus! {

/// Copying out of an indexed place.
pub trait IndexMove<Idx, Out> {
    /// Whether `out` is what indexing by `index` gives.
    spec fn moves(&self, index: Idx, out: Out) -> bool;

    /// What is to be done to move the indexed elements out.
    fn index_move(&self, index: Idx) -> (out: Out)
        ensures
            self.moves(index, out),
    ;
}

/// Copying into an indexed place.
pub trait IndexSet<Idx, Val, Out>: Sized {
    /// Whether `out` is what setting the place at `index` to `value` gives.
    spec fn sets(&self, index: Idx, value: Val, out: Out) -> bool;

    /// What is to be done to set the indexed elements to `value`.
    fn index_set(&mut self, index: Idx, value: &Val) -> (out: Out)
        ensures
            old(self).sets(index, *value, out),
            *final(self) == *old(self),
    ;
}

impl<A: TypedMemoryAccessor<U>, U: Element, const WRITE: bool> IndexMove<
    u32,
    Load,
> for MemIndexWrapper<A, U, WRITE> {
    /// One address gives the one access that reads the element there.
    open spec fn moves(&self, index: u32, out: Load) -> bool {
        out == element_load::<U>(index)
    }

    fn index_move(&self, index: u32) -> (out: Load) {
        self.0.read_one(index)
    }
}

impl<A: TypedMemoryAccessor<U>, U: Element, const WRITE: bool> IndexMove<
    Range<u32>,
    Result<Vec<Load>, ContractViolation>,
> for MemIndexWrapper<A, U, WRITE> {
    /// A range gives one access per element, lowest address first, or the
    /// reason why the range is refused.
    open spec fn moves(&self, index: Range<u32>, out: Result<Vec<Load>, ContractViolation>) -> bool {
        is_read_plan::<U>(index.start, index.end, out)
    }

    fn index_move(&self, index: Range<u32>) -> (out: Result<Vec<Load>, ContractViolation>) {
        self.0.read_range(index)
    }
}

impl<A: TypedMemoryMutator<U>, U: Element> IndexSet<u32, U, Store> for MemIndexWrapper<
    A,
    U,
    true,
> {
    /// One address and one value give the one access that writes the value
    /// there.
    open spec fn sets(&self, index: u32, value: U, out: Store) -> bool {
        out == element_store::<U>(index, value) && out.fits()
    }

    fn index_set(&mut self, index: u32, value: &U) -> (out: Store) {
        self.0.write_one(index, *value)
    }
}

impl<A: TypedMemoryMutator<U>, U: Element> IndexSet<
    Range<u32>,
    Vec<U>,
    Result<Vec<Store>, ContractViolation>,
> for MemIndexWrapper<A, U, true> {
    /// A range and as many values as it has elements give one access per
    /// element, lowest address first, or the reason for a refusal.
    open spec fn sets(
        &self,
        index: Range<u32>,
        value: Vec<U>,
        out: Result<Vec<Store>, ContractViolation>,
    ) -> bool {
        is_write_plan::<U>(index.start, index.end, value@, out)
    }

    fn index_set(&mut self, index: Range<u32>, value: &Vec<U>) -> (out: Result<
        Vec<Store>,
        ContractViolation,
    >) {
        self.0.write_range(index, value.as_slice())
    }
}

} // verus!
