//! The memory handle and the typed views it hands out.

pub mod index;
pub mod laws;
pub mod read;
pub mod register;
pub mod watch;

pub use crate::mem::index::IndexMove;
pub use crate::mem::index::IndexSet;
pub use crate::mem::read::MemIndexWrapper;
pub use crate::mem::read::TypedMemoryReader;
pub use crate::mem::read::TypedMemoryWriter;
pub use crate::mem::register::Processor;
pub use crate::mem::register::Register;

use crate::mem::register::c_string;
use crate::mem::register::register_token;
use crate::mem::register::token_bytes;
use crate::mem::register::RegisterLoad;
use crate::mem::register::RegisterStore;
use crate::mem::watch::WatchKey;
use crate::mem::watch::WatchKind;
use crate::mem::watch::Watchpoint;
use crate::mem::watch::EXEC_SIZE;

use std::marker::PhantomData;
use vstd::prelude::*;

verus! {

/// Access to the memory of the emulator: a token that stands for the right
/// to touch foreign memory, with no state of its own.
pub struct DeSmuMEMemory(pub(crate) PhantomData<()>);

impl DeSmuMEMemory {
    /// A handle to the memory of the running engine. There is one engine, so
    /// there should be one handle: the borrow rules keep the views of one
    /// handle apart, not those of two.
    pub fn new() -> (memory: DeSmuMEMemory) {
        DeSmuMEMemory(PhantomData)
    }

    /// Foreign memory read like a `&[u8]`, indexed by byte address.
    pub fn u8(&self) -> (view: MemIndexWrapper<TypedMemoryReader<'_, u8>, u8, false>)
        ensures
            view.0.memory() == *self,
    {
        MemIndexWrapper(TypedMemoryReader(self, PhantomData), PhantomData)
    }

    /// Foreign memory read and written like a `&mut [u8]`.
    pub fn u8_mut(&mut self) -> (view: MemIndexWrapper<TypedMemoryWriter<'_, u8>, u8, true>)
        ensures
            view.0.memory() == *old(self),
            *final(self) == *old(self),
    {
        MemIndexWrapper(TypedMemoryWriter(self, PhantomData), PhantomData)
    }

    /// Foreign memory read like a `&[u16]`. It is indexed by byte address,
    /// so the length of a range must be a multiple of 2.
    pub fn u16(&self) -> (view: MemIndexWrapper<TypedMemoryReader<'_, u16>, u16, false>)
        ensures
            view.0.memory() == *self,
    {
        MemIndexWrapper(TypedMemoryReader(self, PhantomData), PhantomData)
    }

    /// Foreign memory read and written like a `&mut [u16]`. It is indexed by
    /// byte address, so the length of a range must be a multiple of 2.
    pub fn u16_mut(&mut self) -> (view: MemIndexWrapper<TypedMemoryWriter<'_, u16>, u16, true>)
        ensures
            view.0.memory() == *old(self),
            *final(self) == *old(self),
    {
        MemIndexWrapper(TypedMemoryWriter(self, PhantomData), PhantomData)
    }

    /// Foreign memory read like a `&[u32]`. It is indexed by byte address,
    /// so the length of a range must be a multiple of 4.
    pub fn u32(&self) -> (view: MemIndexWrapper<TypedMemoryReader<'_, u32>, u32, false>)
        ensures
            view.0.memory() == *self,
    {
        MemIndexWrapper(TypedMemoryReader(self, PhantomData), PhantomData)
    }

    /// Foreign memory read and written like a `&mut [u32]`. It is indexed by
    /// byte address, so the length of a range must be a multiple of 4.
    pub fn u32_mut(&mut self) -> (view: MemIndexWrapper<TypedMemoryWriter<'_, u32>, u32, true>)
        ensures
            view.0.memory() == *old(self),
            *final(self) == *old(self),
    {
        MemIndexWrapper(TypedMemoryWriter(self, PhantomData), PhantomData)
    }

    /// Foreign memory read like a `&[i8]`, indexed by byte address.
    pub fn i8(&self) -> (view: MemIndexWrapper<TypedMemoryReader<'_, i8>, i8, false>)
        ensures
            view.0.memory() == *self,
    {
        MemIndexWrapper(TypedMemoryReader(self, PhantomData), PhantomData)
    }

    /// Foreign memory read and written like a `&mut [i8]`.
    pub fn i8_mut(&mut self) -> (view: MemIndexWrapper<TypedMemoryWriter<'_, i8>, i8, true>)
        ensures
            view.0.memory() == *old(self),
            *final(self) == *old(self),
    {
        MemIndexWrapper(TypedMemoryWriter(self, PhantomData), PhantomData)
    }

    /// Foreign memory read like a `&[i16]`. It is indexed by byte address,
    /// so the length of a range must be a multiple of 2.
    pub fn i16(&self) -> (view: MemIndexWrapper<TypedMemoryReader<'_, i16>, i16, false>)
        ensures
            view.0.memory() == *self,
    {
        MemIndexWrapper(TypedMemoryReader(self, PhantomData), PhantomData)
    }

    /// Foreign memory read and written like a `&mut [i16]`. It is indexed by
    /// byte address, so the length of a range must be a multiple of 2.
    pub fn i16_mut(&mut self) -> (view: MemIndexWrapper<TypedMemoryWriter<'_, i16>, i16, true>)
        ensures
            view.0.memory() == *old(self),
            *final(self) == *old(self),
    {
        MemIndexWrapper(TypedMemoryWriter(self, PhantomData), PhantomData)
    }

    /// Foreign memory read like a `&[i32]`. It is indexed by byte address,
    /// so the length of a range must be a multiple of 4.
    pub fn i32(&self) -> (view: MemIndexWrapper<TypedMemoryReader<'_, i32>, i32, false>)
        ensures
            view.0.memory() == *self,
    {
        MemIndexWrapper(TypedMemoryReader(self, PhantomData), PhantomData)
    }

    /// Foreign memory read and written like a `&mut [i32]`. It is indexed by
    /// byte address, so the length of a range must be a multiple of 4.
    pub fn i32_mut(&mut self) -> (view: MemIndexWrapper<TypedMemoryWriter<'_, i32>, i32, true>)
        ensures
            view.0.memory() == *old(self),
            *final(self) == *old(self),
    {
        MemIndexWrapper(TypedMemoryWriter(self, PhantomData), PhantomData)
    }

    /// The call that reads `reg` of `processor`.
    pub fn get_reg(&self, processor: Processor, reg: Register) -> (request: RegisterLoad)
        ensures
            request.token@ == c_string(register_token(processor, reg)),
    {
        RegisterLoad { token: token_bytes(processor, reg) }
    }

    /// The call that sets `reg` of `processor` to `value`.
    pub fn set_reg(&mut self, processor: Processor, reg: Register, value: u32) -> (request:
        RegisterStore)
        ensures
            request.token@ == c_string(register_token(processor, reg)),
            request.value == value,
            *final(self) == *old(self),
    {
        RegisterStore { token: token_bytes(processor, reg), value }
    }

    /// The registration of a callback for when memory in the `size` bytes
    /// from `address` is written.
    ///
    /// A callback takes the place of the one registered before for this
    /// address and size. No callback removes it.
    pub fn register_write<C>(&mut self, address: u32, size: u16, callback: Option<C>) -> (request:
        Watchpoint<C>)
        ensures
            request.key == (WatchKey { kind: WatchKind::Write, address, size }),
            request.callback == callback,
            *final(self) == *old(self),
    {
        Watchpoint { key: WatchKey { kind: WatchKind::Write, address, size }, callback }
    }

    /// The registration of a callback for when memory in the `size` bytes
    /// from `address` is read.
    ///
    /// A callback takes the place of the one registered before for this
    /// address and size. No callback removes it.
    pub fn register_read<C>(&mut self, address: u32, size: u16, callback: Option<C>) -> (request:
        Watchpoint<C>)
        ensures
            request.key == (WatchKey { kind: WatchKind::Read, address, size }),
            request.callback == callback,
            *final(self) == *old(self),
    {
        Watchpoint { key: WatchKey { kind: WatchKind::Read, address, size }, callback }
    }

    /// The registration of a callback for when the instruction at `address`
    /// is fetched. The watched span has a fixed size.
    ///
    /// A callback takes the place of the one registered before for this
    /// address. No callback removes it.
    pub fn register_exec<C>(&mut self, address: u32, callback: Option<C>) -> (request: Watchpoint<
        C,
    >)
        ensures
            request.key == (WatchKey { kind: WatchKind::Exec, address, size: EXEC_SIZE }),
            request.callback == callback,
            *final(self) == *old(self),
    {
        Watchpoint { key: WatchKey { kind: WatchKind::Exec, address, size: EXEC_SIZE }, callback }
    }
}

} // verus!
