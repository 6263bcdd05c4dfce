//! Watchpoints: callbacks that the engine fires when a span of addresses is
//! written, read or executed.
//!
//! The engine keeps the callbacks. A registration is a single call of one of
//! its three registration primitives, described here as a value; nothing is
//! remembered on this side of the boundary.

use vstd::prelude::*;

verus! {

/// The event that fires a watchpoint.
#[derive(Clone, Copy, PartialEq, Eq, Structural, Debug)]
pub enum WatchKind {
    /// A write to the watched span.
    Write,
    /// A read from the watched span.
    Read,
    /// An instruction fetch from the watched span.
    Exec,
}

/// The number of bytes watched by an execute watchpoint. It is fixed; the
/// caller has no say in it.
pub const EXEC_SIZE: u16 = 2;

/// What the engine keeps one callback for.
#[derive(Clone, Copy, PartialEq, Eq, Structural, Debug)]
pub struct WatchKey {
    /// The event watched for.
    pub kind: WatchKind,
    /// The first watched address.
    pub address: u32,
    /// The number of watched bytes from `address` on.
    pub size: u16,
}

/// One call of the registration primitive for the kind of event in `key`.
#[derive(Debug)]
pub struct Watchpoint<C> {
    /// The span and the event that the registration is about.
    pub key: WatchKey,
    /// The callback to install, or none to remove the one installed.
    pub callback: Option<C>,
}

/// The callbacks that the engine holds, as it is documented to keep them: at
/// most one for each kind of event, address and size.
pub type Registry<C> = Map<WatchKey, C>;

/// The engine's table after a registration: a callback takes the place of
/// whatever was registered under the same key, and no callback empties the
/// entry.
pub open spec fn registered<C>(registry: Registry<C>, request: Watchpoint<C>) -> Registry<C> {
    match request.callback {
        Some(callback) => registry.insert(request.key, callback),
        None => registry.remove(request.key),
    }
}

/// Registering twice under one key leaves only the second callback: the
/// table is as if the first registration had never been made.
pub proof fn lemma_second_registration_wins<C>(
    registry: Registry<C>,
    key: WatchKey,
    first: C,
    second: C,
)
    ensures
        registered(
            registered(registry, Watchpoint { key, callback: Some(first) }),
            Watchpoint { key, callback: Some(second) },
        ) == registered(registry, Watchpoint { key, callback: Some(second) }),
        registered(registry, Watchpoint { key, callback: Some(second) }).contains_pair(
            key,
            second,
        ),
{
    assert(registered(
        registered(registry, Watchpoint { key, callback: Some(first) }),
        Watchpoint { key, callback: Some(second) },
    ) =~= registered(registry, Watchpoint { key, callback: Some(second) }));
}

/// Registering no callback removes the one registered under that key and
/// leaves every other entry alone.
pub proof fn lemma_absent_callback_removes<C>(registry: Registry<C>, key: WatchKey)
    ensures
        !registered(registry, Watchpoint::<C> { key, callback: None }).dom().contains(key),
        forall|other: WatchKey|
            other != key ==> (#[trigger] registered(
                registry,
                Watchpoint::<C> { key, callback: None },
            ).dom().contains(other) <==> registry.dom().contains(other)),
        forall|other: WatchKey|
            other != key && registry.dom().contains(other) ==> #[trigger] registered(
                registry,
                Watchpoint::<C> { key, callback: None },
            )[other] == registry[other],
{
}

} // verus!
