//! The handler registry: a single-slot holder for the one currently
//! registered signal handler.
//!
//! There is deliberately no subscriber list: registration replaces the slot
//! wholesale and hands the previous occupant back, so callers that want
//! chains compose them by hand. A handler is a function value taking the
//! signal cell (so it may peek, clear, or raise a fresh signal while it
//! runs) and the signal being dispatched, and reporting either "resolved"
//! (`Ok`) or "still active, with a possibly different code" (`Err`).

use vstd::prelude::*;

verus! {

/// The single handler slot: empty, or holding the one registered handler.
pub struct HandlerSlot<F> {
    handler: Option<F>,
}

impl<F> View for HandlerSlot<F> {
    type V = Option<F>;

    closed spec fn view(&self) -> Option<F> {
        self.handler
    }
}

/// What registering `h` in a slot holding `s` leaves behind: the new slot
/// contents and the previous occupant handed back to the caller.
pub open spec fn spec_register<F>(s: Option<F>, h: F) -> (Option<F>, Option<F>) {
    (Some(h), s)
}

/// What clearing a slot holding `s` leaves behind: the new slot contents
/// and the previous occupant handed back to the caller.
pub open spec fn spec_unregister<F>(s: Option<F>) -> (Option<F>, Option<F>) {
    (None, s)
}

impl<F> HandlerSlot<F> {
    /// A fresh slot, empty at the start of its life.
    pub fn new() -> (s: HandlerSlot<F>)
        ensures
            s@ is None,
    {
        HandlerSlot { handler: None }
    }
}

/// Registers a signal handler, replacing whatever was registered before.
///
/// Returns the previously registered handler, if any, so that a caller can
/// save it and chain to it from the new handler.
pub fn set_signal_handler<F>(slot: &mut HandlerSlot<F>, handler: F) -> (prev: Option<F>)
    ensures
        final(slot)@ == spec_register(old(slot)@, handler).0,
        prev == spec_register(old(slot)@, handler).1,
{
    let prev = slot.handler.take();
    slot.handler = Some(handler);
    prev
}

/// Clears the registered signal handler and returns it, if any.
///
/// Afterwards a checkpoint that detects a signal finds no handler and
/// treats the signal as unresolved.
pub fn clear_signal_handler<F>(slot: &mut HandlerSlot<F>) -> (prev: Option<F>)
    ensures
        final(slot)@ == spec_unregister(old(slot)@).0,
        prev == spec_unregister(old(slot)@).1,
{
    slot.handler.take()
}

/// Reads the currently registered signal handler, if any, without
/// changing the slot.
pub fn get_signal_handler<F>(slot: &HandlerSlot<F>) -> (r: Option<&F>)
    ensures
        slot@ is None <==> r is None,
        slot@ matches Some(h) ==> r matches Some(rh) && *rh == h,
{
    slot.handler.as_ref()
}

} // verus!
