//! What the engine's memory primitives are taken to do.
//!
//! The engine is a foreign collaborator, so nothing here is proved of it.
//! This is the model against which the laws of the typed views are stated: a
//! flat little-endian memory with one byte per address, in which a write
//! changes the bytes it covers and nothing else, and a read returns the bytes
//! it covers. An engine with no intervening mutation behaves so on the plain
//! memory it maps.

use crate::codec::byte_of;
use crate::codec::le_bytes;
use crate::codec::le_value;
use crate::codec::lemma_le_value_of_le_bytes;
use crate::codec::unsigned_value;
use crate::codec::Width;
use crate::primitive::Load;
use crate::primitive::Store;
use vstd::prelude::*;

verus! {

/// Foreign memory: the byte at each address.
pub type Memory = spec_fn(int) -> u8;

/// The `count` bytes of `memory` from `address` upwards.
pub open spec fn bytes_at(memory: Memory, address: int, count: nat) -> Seq<u8> {
    Seq::new(count, |offset: int| memory(address + offset))
}

/// Whether the access of `width` bytes at `address` covers the byte at `at`.
pub open spec fn covers(address: u32, width: Width, at: int) -> bool {
    address <= at < address + width.bytes()
}

/// What a read primitive returns: the bytes it covers, least significant
/// first.
pub open spec fn load(memory: Memory, op: Load) -> u32 {
    le_value(bytes_at(memory, op.address as int, op.width.bytes() as nat)) as u32
}

/// The memory after a write primitive: the bytes it covers hold the low
/// bytes of the value, least significant first; the others are as before.
pub open spec fn store(memory: Memory, op: Store) -> Memory {
    |at: int|
        if covers(op.address, op.width, at) {
            byte_of(op.value, at - op.address)
        } else {
            memory(at)
        }
}

/// What a run of reads returns, in order.
pub open spec fn load_each(memory: Memory, ops: Seq<Load>) -> Seq<u32> {
    Seq::new(ops.len(), |index: int| load(memory, ops[index]))
}

/// The memory after a run of writes, performed first to last.
pub open spec fn store_each(memory: Memory, ops: Seq<Store>) -> Memory
    decreases ops.len(),
{
    if ops.len() == 0 {
        memory
    } else {
        store(store_each(memory, ops.drop_last()), ops.last())
    }
}

/// A read of the place just written returns what was written, as far as the
/// primitive's width goes.
pub proof fn lemma_load_after_store(memory: Memory, op: Store)
    ensures
        load(store(memory, op), Load { address: op.address, width: op.width }) == unsigned_value(
            op.value,
            op.width,
        ),
{
    let after = store(memory, op);
    let read = bytes_at(after, op.address as int, op.width.bytes() as nat);
    assert(read =~= le_bytes(op.value, op.width));
    lemma_le_value_of_le_bytes(op.value, op.width);
}

/// A write leaves a read of bytes it does not cover as it was.
pub proof fn lemma_load_after_store_elsewhere(memory: Memory, op: Store, other: Load)
    requires
        other.address + other.width.bytes() <= op.address || op.address + op.width.bytes()
            <= other.address,
    ensures
        load(store(memory, op), other) == load(memory, other),
{
    let count = other.width.bytes() as nat;
    assert(bytes_at(store(memory, op), other.address as int, count) =~= bytes_at(
        memory,
        other.address as int,
        count,
    ));
}

/// A run of writes leaves a byte that none of them covers as it was.
pub proof fn lemma_store_each_elsewhere(memory: Memory, ops: Seq<Store>, at: int)
    requires
        forall|index: int|
            0 <= index < ops.len() ==> !covers(
                (#[trigger] ops[index]).address,
                ops[index].width,
                at,
            ),
    ensures
        store_each(memory, ops)(at) == memory(at),
    decreases ops.len(),
{
    if ops.len() > 0 {
        lemma_store_each_elsewhere(memory, ops.drop_last(), at);
    }
}

/// After a run of writes, a byte holds what the last write that covers it
/// put there.
pub proof fn lemma_store_each_last_cover(memory: Memory, ops: Seq<Store>, last: int, at: int)
    requires
        0 <= last < ops.len(),
        covers(ops[last].address, ops[last].width, at),
        forall|index: int|
            last < index < ops.len() ==> !covers(
                (#[trigger] ops[index]).address,
                ops[index].width,
                at,
            ),
    ensures
        store_each(memory, ops)(at) == byte_of(ops[last].value, at - ops[last].address),
    decreases ops.len(),
{
    if last < ops.len() - 1 {
        lemma_store_each_last_cover(memory, ops.drop_last(), last, at);
    }
}

} // verus!
