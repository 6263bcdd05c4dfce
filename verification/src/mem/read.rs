//! Typed readers and writers over foreign memory.
//!
//! A reader or writer is fixed to one element type. It turns an address, or
//! a half-open range of byte addresses, into the primitive accesses that move
//! the elements: one width-matched access per element, in ascending address
//! order. A range whose length is not a whole number of elements is refused.

use crate::codec::Element;
use crate::codec::Width;
use crate::mem::DeSmuMEMemory;
use crate::primitive::Load;
use crate::primitive::Store;
use std::marker::PhantomData;
use std::ops::Range;
use vstd::prelude::*;

verus! {

/// Why an index was refused.
#[derive(Clone, Copy, PartialEq, Eq, Structural, Debug)]
pub enum ContractViolation {
    /// The length of the range is not a multiple of the element width.
    MisalignedRange,
    /// The number of values differs from the number of elements in the range.
    LengthMismatch,
}

/// The number of bytes in `[start, end)`. A range that ends where or before
/// it starts is empty.
pub open spec fn span(start: u32, end: u32) -> nat {
    if start <= end {
        (end - start) as nat
    } else {
        0
    }
}

/// The number of `width`-byte elements in `[start, end)`.
pub open spec fn element_count(start: u32, end: u32, width: Width) -> nat {
    span(start, end) / (width.bytes() as nat)
}

/// What is wrong with `[start, end)` as an index of `width`-byte elements,
/// if anything: its length must be a whole number of elements.
pub open spec fn range_violation(start: u32, end: u32, width: Width) -> Option<
    ContractViolation,
> {
    if span(start, end) % (width.bytes() as nat) != 0 {
        Some(ContractViolation::MisalignedRange)
    } else {
        None
    }
}

/// What is wrong with writing `given` values to `[start, end)`, if anything.
/// A fault of the range itself is named before a wrong number of values.
pub open spec fn write_violation(start: u32, end: u32, width: Width, given: nat) -> Option<
    ContractViolation,
> {
    if range_violation(start, end, width) is Some {
        range_violation(start, end, width)
    } else if given != element_count(start, end, width) {
        Some(ContractViolation::LengthMismatch)
    } else {
        None
    }
}

/// The address of the element at position `index` of a range from `start`.
pub open spec fn element_address(start: u32, width: Width, index: int) -> u32 {
    (start + index * width.bytes()) as u32
}

/// The access that reads the element of type `T` at `address`.
pub open spec fn element_load<T: Element>(address: u32) -> Load {
    Load { address, width: T::spec_width() }
}

/// The access that writes `value` to the element of type `T` at `address`.
pub open spec fn element_store<T: Element>(address: u32, value: T) -> Store {
    Store { address, width: T::spec_width(), value: value.spec_to_raw() }
}

/// The accesses that read the elements of `[start, end)`, lowest address
/// first.
pub open spec fn range_loads<T: Element>(start: u32, end: u32) -> Seq<Load> {
    Seq::new(
        element_count(start, end, T::spec_width()),
        |index: int| element_load::<T>(element_address(start, T::spec_width(), index)),
    )
}

/// The accesses that write `values` to the elements of `[start, end)`,
/// lowest address first.
pub open spec fn range_stores<T: Element>(start: u32, end: u32, values: Seq<T>) -> Seq<Store> {
    Seq::new(
        element_count(start, end, T::spec_width()),
        |index: int|
            element_store::<T>(element_address(start, T::spec_width(), index), values[index]),
    )
}

/// The elements that the results of a run of loads stand for, in order.
pub open spec fn decode_each<T: Element>(raws: Seq<u32>) -> Seq<T> {
    Seq::new(raws.len(), |index: int| T::spec_from_raw(raws[index]))
}

/// What reading `[start, end)` as elements of type `T` must give: the
/// accesses of the range, or the reason why the range is refused.
pub open spec fn is_read_plan<T: Element>(
    start: u32,
    end: u32,
    plan: Result<Vec<Load>, ContractViolation>,
) -> bool {
    match plan {
        Ok(loads) => range_violation(start, end, T::spec_width()) is None && loads@
            == range_loads::<T>(start, end),
        Err(violation) => range_violation(start, end, T::spec_width()) == Some(violation),
    }
}

/// What writing `values` to `[start, end)` as elements of type `T` must
/// give: the accesses of the range, each with a value that fits its width,
/// or the reason why the range or the number of values is refused.
pub open spec fn is_write_plan<T: Element>(
    start: u32,
    end: u32,
    values: Seq<T>,
    plan: Result<Vec<Store>, ContractViolation>,
) -> bool {
    match plan {
        Ok(stores) => {
            &&& write_violation(start, end, T::spec_width(), values.len()) is None
            &&& stores@ == range_stores::<T>(start, end, values)
            &&& forall|index: int| 0 <= index < stores@.len() ==> stores@[index].fits()
        },
        Err(violation) => write_violation(start, end, T::spec_width(), values.len()) == Some(
            violation,
        ),
    }
}

/// Where the elements of a range of whole elements lie: element `index`
/// starts and ends inside the range, and the end of the range is where an
/// element past the last one would start.
pub proof fn lemma_element_in_range(start: u32, end: u32, width: Width, index: int)
    requires
        start <= end,
        range_violation(start, end, width) is None,
        0 <= index <= element_count(start, end, width),
    ensures
        element_address(start, width, index) == start + index * width.bytes(),
        start + index * width.bytes() <= end,
        index == element_count(start, end, width) <==> start + index * width.bytes() == end,
        index < element_count(start, end, width) ==> start + index * width.bytes()
            + width.bytes() <= end,
{
    let stride = width.bytes() as int;
    match width {
        Width::Byte => {
            assert(index * stride == index) by (nonlinear_arith)
                requires
                    stride == 1,
            ;
        },
        Width::Half => {
            assert(index * stride == 2 * index) by (nonlinear_arith)
                requires
                    stride == 2,
            ;
        },
        Width::Word => {
            assert(index * stride == 4 * index) by (nonlinear_arith)
                requires
                    stride == 4,
            ;
        },
    }
}

/// The number of bytes in `range`.
pub fn byte_length(range: &Range<u32>) -> (length: u32)
    ensures
        length == span(range.start, range.end),
{
    if range.start <= range.end {
        range.end - range.start
    } else {
        0
    }
}

/// Walks `range` in strides of one element and lists the read accesses.
pub fn plan_loads<T: Element>(range: &Range<u32>) -> (plan: Result<Vec<Load>, ContractViolation>)
    ensures
        is_read_plan::<T>(range.start, range.end, plan),
{
    let width = T::width();
    let stride = width.bytes();
    let length = byte_length(range);
    if length % stride != 0 {
        return Err(ContractViolation::MisalignedRange);
    }
    let count = length / stride;
    let mut loads: Vec<Load> = Vec::new();
    let mut address = range.start;
    let mut position: u32 = 0;
    while position < count
        invariant
            width == T::spec_width(),
            stride == width.bytes(),
            range_violation(range.start, range.end, width) is None,
            count == element_count(range.start, range.end, width),
            position <= count,
            position == loads@.len(),
            address == range.start + position * width.bytes(),
            forall|index: int|
                0 <= index < loads@.len() ==> loads@[index] == element_load::<T>(
                    element_address(range.start, width, index),
                ),
        decreases count - position,
    {
        proof {
            lemma_element_in_range(range.start, range.end, width, position as int);
            lemma_element_in_range(range.start, range.end, width, position + 1);
        }
        loads.push(Load { address, width });
        address = address + stride;
        position = position + 1;
    }
    assert(loads@ =~= range_loads::<T>(range.start, range.end));
    Ok(loads)
}

/// Walks `range` in strides of one element and lists the write accesses
/// that put `values` there.
pub fn plan_stores<T: Element>(range: &Range<u32>, values: &[T]) -> (plan: Result<
    Vec<Store>,
    ContractViolation,
>)
    ensures
        is_write_plan::<T>(range.start, range.end, values@, plan),
{
    let width = T::width();
    let stride = width.bytes();
    let length = byte_length(range);
    if length % stride != 0 {
        return Err(ContractViolation::MisalignedRange);
    }
    let count = length / stride;
    if values.len() != count as usize {
        return Err(ContractViolation::LengthMismatch);
    }
    let mut stores: Vec<Store> = Vec::new();
    let mut address = range.start;
    let mut position: usize = 0;
    while position < values.len()
        invariant
            width == T::spec_width(),
            stride == width.bytes(),
            range_violation(range.start, range.end, width) is None,
            values@.len() == element_count(range.start, range.end, width),
            position <= values@.len(),
            position == stores@.len(),
            address == range.start + position * width.bytes(),
            forall|index: int|
                0 <= index < stores@.len() ==> stores@[index] == element_store::<T>(
                    element_address(range.start, width, index),
                    values@[index],
                ),
            forall|index: int| 0 <= index < stores@.len() ==> stores@[index].fits(),
        decreases values@.len() - position,
    {
        let value = values[position];
        proof {
            T::lemma_to_raw_in_range(value);
            lemma_element_in_range(range.start, range.end, width, position as int);
            lemma_element_in_range(range.start, range.end, width, position + 1);
        }
        stores.push(Store { address, width, value: value.to_raw() });
        address = address + stride;
        position = position + 1;
    }
    assert(stores@ =~= range_stores::<T>(range.start, range.end, values@));
    Ok(stores)
}

/// Reads what a run of loads returned as elements, one per load, in order.
pub fn decode_elements<T: Element>(raws: &[u32]) -> (values: Vec<T>)
    ensures
        values@ == decode_each::<T>(raws@),
{
    let mut values: Vec<T> = Vec::new();
    let mut position: usize = 0;
    while position < raws.len()
        invariant
            position <= raws@.len(),
            position == values@.len(),
            forall|index: int|
                0 <= index < values@.len() ==> values@[index] == T::spec_from_raw(raws@[index]),
        decreases raws@.len() - position,
    {
        values.push(T::from_raw(raws[position]));
        position = position + 1;
    }
    assert(values@ =~= decode_each::<T>(raws@));
    values
}

/// Read access to foreign memory as elements of type `T`.
pub trait TypedMemoryAccessor<T: Element> {
    /// The access that reads the element at `address`. The address is not
    /// checked: what the engine does with it is the engine's affair.
    fn read_one(&self, address: u32) -> (load: Load)
        ensures
            load == element_load::<T>(address),
    ;

    /// The accesses that read the elements of `range`, one per element, in
    /// ascending address order; or the reason why `range` is no index.
    fn read_range(&self, range: Range<u32>) -> (plan: Result<Vec<Load>, ContractViolation>)
        ensures
            is_read_plan::<T>(range.start, range.end, plan),
    ;
}

/// Write access to foreign memory as elements of type `T`. Whatever can
/// write can also read.
pub trait TypedMemoryMutator<T: Element>: TypedMemoryAccessor<T> + Sized {
    /// The access that writes `value` to the element at `address`.
    fn write_one(&mut self, address: u32, value: T) -> (store: Store)
        ensures
            store == element_store::<T>(address, value),
            store.fits(),
            *final(self) == *old(self),
    ;

    /// The accesses that write `values` to the elements of `range`, one per
    /// element, in ascending address order; or the reason why `range` is no
    /// index or `values` does not fill it.
    fn write_range(&mut self, range: Range<u32>, values: &[T]) -> (plan: Result<
        Vec<Store>,
        ContractViolation,
    >)
        ensures
            is_write_plan::<T>(range.start, range.end, values@, plan),
            *final(self) == *old(self),
    ;
}

/// A read-only view of foreign memory as elements of type `T`. Any number
/// of readers may share one memory handle.
pub struct TypedMemoryReader<'a, T>(pub(crate) &'a DeSmuMEMemory, pub(crate) PhantomData<T>);

/// A read-write view of foreign memory as elements of type `T`. It holds the
/// memory handle exclusively for as long as it lives.
pub struct TypedMemoryWriter<'a, T>(pub(crate) &'a mut DeSmuMEMemory, pub(crate) PhantomData<T>);

/// Puts the index operations on a reader or writer of elements of type `U`.
/// `WRITE` says whether the wrapped view may write.
pub struct MemIndexWrapper<A, U, const WRITE: bool>(pub A, pub PhantomData<U>);

impl<'a, T> TypedMemoryReader<'a, T> {
    /// The memory handle that this reader borrows.
    pub closed spec fn memory(self) -> DeSmuMEMemory {
        *self.0
    }
}

impl<'a, T> TypedMemoryWriter<'a, T> {
    /// The memory handle that this writer borrows.
    pub closed spec fn memory(self) -> DeSmuMEMemory {
        *self.0
    }
}

impl<'a, T: Element> TypedMemoryAccessor<T> for TypedMemoryReader<'a, T> {
    fn read_one(&self, address: u32) -> (load: Load) {
        Load { address, width: T::width() }
    }

    fn read_range(&self, range: Range<u32>) -> (plan: Result<Vec<Load>, ContractViolation>) {
        plan_loads::<T>(&range)
    }
}

impl<'a, T: Element> TypedMemoryAccessor<T> for TypedMemoryWriter<'a, T> {
    fn read_one(&self, address: u32) -> (load: Load) {
        Load { address, width: T::width() }
    }

    fn read_range(&self, range: Range<u32>) -> (plan: Result<Vec<Load>, ContractViolation>) {
        plan_loads::<T>(&range)
    }
}

impl<'a, T: Element> TypedMemoryMutator<T> for TypedMemoryWriter<'a, T> {
    fn write_one(&mut self, address: u32, value: T) -> (store: Store) {
        proof {
            T::lemma_to_raw_in_range(value);
        }
        Store { address, width: T::width(), value: value.to_raw() }
    }

    fn write_range(&mut self, range: Range<u32>, values: &[T]) -> (plan: Result<
        Vec<Store>,
        ContractViolation,
    >) {
        plan_stores::<T>(&range, values)
    }
}

} // verus!
