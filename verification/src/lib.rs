//! A typed, range-indexable view over the address space of an emulated
//! console whose memory, registers and watchpoints live in a foreign engine.
//!
//! Nothing here crosses into the engine. Each operation says which of the
//! engine's primitives are to be called, with which arguments and in which
//! order, and turns what they return into elements; the caller performs the
//! calls. Reading the four `u16` elements of sixteen bits each that lie at
//! byte addresses 1000 to 1007 goes like this:
//!
//! 1. `memory.u16().index_move(1000..1008)` gives four `Load`s of two bytes
//!    each, at 1000, 1002, 1004 and 1006, or says why the range is refused;
//! 2. the caller hands each `Load` to the engine's halfword read primitive and
//!    collects the results;
//! 3. `decode_elements::<u16>(&results)` gives the four elements.
//!
//! Writing is the same without the third step: `index_set` gives the `Store`s
//! to perform.
//!
//! - `codec` holds the element types, their widths and their encoding.
//! - `primitive` holds the memory accesses as values.
//! - `mem` holds the memory handle, the typed readers and writers, the two
//!   index operations, the names of the registers and the watchpoints.
//! - `engine` holds the model of foreign memory against which the laws in
//!   `mem::laws` are proved.

pub mod codec;
pub mod engine;
pub mod mem;
pub mod primitive;

pub use crate::mem::DeSmuMEMemory;
