//! What holds of the typed views on a memory that behaves as the model in
//! `engine` says.

use crate::codec::byte_of;
use crate::codec::le_bytes;
use crate::codec::lemma_le_value_by_width;
use crate::codec::lemma_le_value_of_le_bytes;
use crate::codec::spec_decode;
use crate::codec::spec_encode;
use crate::codec::Element;
use crate::codec::Width;
use crate::engine::bytes_at;
use crate::engine::covers;
use crate::engine::lemma_load_after_store;
use crate::engine::lemma_load_after_store_elsewhere;
use crate::engine::lemma_store_each_elsewhere;
use crate::engine::lemma_store_each_last_cover;
use crate::engine::load;
use crate::engine::load_each;
use crate::engine::store;
use crate::engine::store_each;
use crate::engine::Memory;
use crate::mem::read::decode_each;
use crate::mem::read::element_address;
use crate::mem::read::element_count;
use crate::mem::read::element_load;
use crate::mem::read::element_store;
use crate::mem::read::lemma_element_in_range;
use crate::mem::read::range_loads;
use crate::mem::read::range_stores;
use crate::mem::read::range_violation;
use crate::mem::read::span;
use crate::mem::read::write_violation;
use crate::mem::read::ContractViolation;
use vstd::prelude::*;

verus! {

/// Reading a range gives one element for each element-sized step from its
/// start to its end, and each is what reading that one address gives.
pub proof fn lemma_read_range_is_read_one_per_step<T: Element>(
    memory: Memory,
    start: u32,
    end: u32,
)
    requires
        range_violation(start, end, T::spec_width()) is None,
    ensures
        ({
            let width = T::spec_width();
            let values = decode_each::<T>(load_each(memory, range_loads::<T>(start, end)));
            &&& values.len() == span(start, end) / (width.bytes() as nat)
            &&& forall|index: int|
                0 <= index < values.len() ==> #[trigger] values[index] == T::spec_from_raw(
                    load(memory, element_load::<T>(element_address(start, width, index))),
                )
            &&& forall|index: int|
                0 <= index < values.len() ==> #[trigger] element_address(start, width, index)
                    == start + index * width.bytes() < end
        }),
{
    let width = T::spec_width();
    let values = decode_each::<T>(load_each(memory, range_loads::<T>(start, end)));
    assert forall|index: int| 0 <= index < values.len() implies #[trigger] element_address(
        start,
        width,
        index,
    ) == start + index * width.bytes() < end by {
        lemma_element_in_range(start, end, width, index);
    }
}

/// Writing values to a range and then reading the range gives the values
/// back, unchanged and in order.
pub proof fn lemma_write_then_read_round_trip<T: Element>(
    memory: Memory,
    start: u32,
    end: u32,
    values: Seq<T>,
)
    requires
        write_violation(start, end, T::spec_width(), values.len()) is None,
    ensures
        decode_each::<T>(
            load_each(
                store_each(memory, range_stores::<T>(start, end, values)),
                range_loads::<T>(start, end),
            ),
        ) == values,
{
    let width = T::spec_width();
    let stores = range_stores::<T>(start, end, values);
    let loads = range_loads::<T>(start, end);
    let after = store_each(memory, stores);
    let read = decode_each::<T>(load_each(after, loads));
    assert forall|index: int| 0 <= index < values.len() implies read[index] == values[index] by {
        assert(start < end);
        let address = element_address(start, width, index);
        let raw = values[index].spec_to_raw();
        lemma_element_in_range(start, end, width, index);
        assert(stores[index] == element_store::<T>(address, values[index]));
        assert forall|offset: int| 0 <= offset < width.bytes() implies after(address + offset)
            == byte_of(raw, offset) by {
            let at = address + offset;
            assert forall|later: int| index < later < stores.len() implies !covers(
                (#[trigger] stores[later]).address,
                stores[later].width,
                at,
            ) by {
                lemma_element_in_range(start, end, width, later);
                lemma_stride(width, index, later);
            }
            lemma_store_each_last_cover(memory, stores, index, at);
        }
        assert(bytes_at(after, address as int, width.bytes() as nat) =~= le_bytes(raw, width));
        lemma_le_value_of_le_bytes(raw, width);
        T::lemma_to_raw_in_range(values[index]);
        T::lemma_from_raw_of_to_raw(values[index]);
    }
    assert(read =~= values);
}

/// A later element starts where or after the element before it ends.
proof fn lemma_stride(width: Width, index: int, later: int)
    requires
        index < later,
    ensures
        index * width.bytes() + width.bytes() <= later * width.bytes(),
{
    let stride = width.bytes() as int;
    assert(index * stride + stride <= later * stride) by (nonlinear_arith)
        requires
            index < later,
            stride > 0,
    ;
}

/// Writing a value to an address and then reading that address gives the
/// value back.
pub proof fn lemma_write_one_then_read_one<T: Element>(memory: Memory, address: u32, value: T)
    ensures
        T::spec_from_raw(
            load(store(memory, element_store::<T>(address, value)), element_load::<T>(address)),
        ) == value,
{
    lemma_load_after_store(memory, element_store::<T>(address, value));
    T::lemma_to_raw_in_range(value);
    T::lemma_from_raw_of_to_raw(value);
}

/// Writing an element leaves what is read of any element that shares no
/// byte with it as it was, whatever the two element types.
pub proof fn lemma_write_one_leaves_others<T: Element, U: Element>(
    memory: Memory,
    address: u32,
    value: T,
    other: u32,
)
    requires
        other + U::spec_width().bytes() <= address || address + T::spec_width().bytes() <= other,
    ensures
        load(store(memory, element_store::<T>(address, value)), element_load::<U>(other)) == load(
            memory,
            element_load::<U>(other),
        ),
{
    lemma_load_after_store_elsewhere(
        memory,
        element_store::<T>(address, value),
        element_load::<U>(other),
    );
}

/// Writing a range changes no byte outside the range.
pub proof fn lemma_write_range_stays_in_range<T: Element>(
    memory: Memory,
    start: u32,
    end: u32,
    values: Seq<T>,
    at: int,
)
    requires
        range_violation(start, end, T::spec_width()) is None,
        at < start || end <= at,
    ensures
        store_each(memory, range_stores::<T>(start, end, values))(at) == memory(at),
{
    let width = T::spec_width();
    let stores = range_stores::<T>(start, end, values);
    assert forall|index: int| 0 <= index < stores.len() implies !covers(
        (#[trigger] stores[index]).address,
        stores[index].width,
        at,
    ) by {
        lemma_element_in_range(start, end, width, index);
    }
    lemma_store_each_elsewhere(memory, stores, at);
}

/// A range whose length is not a whole number of elements is refused, for
/// reading and for writing whatever the values; only elements of more than
/// one byte can be so missed.
pub proof fn lemma_misaligned_range_is_refused<T: Element>(start: u32, end: u32, given: nat)
    requires
        span(start, end) % (T::spec_width().bytes() as nat) != 0,
    ensures
        start < end,
        range_violation(start, end, T::spec_width()) == Some(ContractViolation::MisalignedRange),
        write_violation(start, end, T::spec_width(), given) == Some(
            ContractViolation::MisalignedRange,
        ),
        T::spec_width() != Width::Byte,
{
}

/// A range as long as one element is that element: it is never refused, and
/// reading or writing it is the single access to its start.
pub proof fn lemma_range_of_one_element<T: Element>(address: u32, value: T)
    requires
        address + T::spec_width().bytes() <= u32::MAX,
    ensures
        ({
            let end = (address + T::spec_width().bytes()) as u32;
            &&& range_violation(address, end, T::spec_width()) is None
            &&& write_violation(address, end, T::spec_width(), 1) is None
            &&& range_loads::<T>(address, end) == seq![element_load::<T>(address)]
            &&& range_stores::<T>(address, end, seq![value]) == seq![
                element_store::<T>(address, value),
            ]
        }),
{
    let width = T::spec_width();
    let end = (address + width.bytes()) as u32;
    assert(element_count(address, end, width) == 1) by {
        match width {
            Width::Byte => {},
            Width::Half => {},
            Width::Word => {},
        }
    }
    lemma_element_in_range(address, end, width, 0);
    assert(range_loads::<T>(address, end) =~= seq![element_load::<T>(address)]);
    assert(range_stores::<T>(address, end, seq![value]) =~= seq![
        element_store::<T>(address, value),
    ]);
}

/// The accesses of a range ascend without overlap: each element ends where
/// or before the next one starts, for reads and for writes alike.
pub proof fn lemma_range_accesses_ascend<T: Element>(
    start: u32,
    end: u32,
    values: Seq<T>,
    earlier: int,
    later: int,
)
    requires
        range_violation(start, end, T::spec_width()) is None,
        0 <= earlier < later < element_count(start, end, T::spec_width()),
    ensures
        range_loads::<T>(start, end)[earlier].address + T::spec_width().bytes() <= range_loads::<T>(
            start,
            end,
        )[later].address,
        range_stores::<T>(start, end, values)[earlier].address == range_loads::<T>(
            start,
            end,
        )[earlier].address,
        range_stores::<T>(start, end, values)[later].address == range_loads::<T>(
            start,
            end,
        )[later].address,
{
    let width = T::spec_width();
    lemma_element_in_range(start, end, width, earlier);
    lemma_element_in_range(start, end, width, later);
    lemma_stride(width, earlier, later);
}

/// Reading a range byte by byte gives the bytes of memory in address order.
pub proof fn lemma_byte_range_reads_the_bytes(memory: Memory, start: u32, end: u32)
    requires
        start <= end,
    ensures
        decode_each::<u8>(load_each(memory, range_loads::<u8>(start, end))) == bytes_at(
            memory,
            start as int,
            (end - start) as nat,
        ),
{
    let read = decode_each::<u8>(load_each(memory, range_loads::<u8>(start, end)));
    let bytes = bytes_at(memory, start as int, (end - start) as nat);
    assert(element_count(start, end, Width::Byte) == end - start);
    assert forall|index: int| 0 <= index < bytes.len() implies read[index] == bytes[index] by {
        lemma_element_in_range(start, end, Width::Byte, index);
        let access = element_load::<u8>(element_address(start, Width::Byte, index));
        lemma_le_value_by_width(bytes_at(memory, access.address as int, 1));
    }
    assert(read =~= bytes);
}

/// The element that a width-matched read gives is the decoding of the bytes
/// it covers, so reading those bytes one by one and decoding them gives the
/// same element.
pub proof fn lemma_element_is_its_bytes<T: Element>(memory: Memory, address: u32)
    ensures
        spec_decode::<T>(bytes_at(memory, address as int, T::spec_width().bytes() as nat)) == Some(
            T::spec_from_raw(load(memory, element_load::<T>(address))),
        ),
{
}

/// A width-matched write puts the encoding of the value into the bytes it
/// covers.
pub proof fn lemma_store_writes_the_encoding<T: Element>(memory: Memory, address: u32, value: T)
    ensures
        bytes_at(
            store(memory, element_store::<T>(address, value)),
            address as int,
            T::spec_width().bytes() as nat,
        ) == spec_encode(value),
{
    assert(bytes_at(
        store(memory, element_store::<T>(address, value)),
        address as int,
        T::spec_width().bytes() as nat,
    ) =~= spec_encode(value));
}

} // verus!
