//! The check/dispatch protocol: the operations a computation calls at its
//! own checkpoints to observe a pending signal and react to it.
//!
//! The ordering guarantee the whole protocol turns on: **the cell is always
//! cleared before the handler runs**, never after. A handler therefore
//! observes a clear cell, may raise a fresh signal of its own without the
//! dispatch logic clobbering it, and may fail without leaving a consumed
//! signal behind to fire again. Each dispatch contract below states exactly
//! this: there is an invocation `m` of the handler on a cell holding `0`
//! whose resulting cell contents and outcome are what the checkpoint
//! reports.

use vstd::prelude::*;

use crate::cell::SignalCell;
use crate::registry::{get_signal_handler, HandlerSlot};
use crate::signal::Signal;

verus! {

/// Holds when the registered handler `h` accepts being invoked on
/// `Signal(v)` with the cell cleared: what a checkpoint must know before it
/// may dispatch `v` through `h`.
pub open spec fn accepts<F: Fn(&mut SignalCell, Signal) -> Result<(), Signal>>(
    h: F,
    v: u32,
) -> bool {
    forall|m: &mut SignalCell| mut_ref_current(m)@ == 0 ==> call_requires(h, (m, Signal(v)))
}

/// Dispatches a detected signal: clears the cell, then invokes the
/// registered handler on the signal, or reports the signal unresolved if
/// no handler is registered.
fn handle_signal<F: Fn(&mut SignalCell, Signal) -> Result<(), Signal>>(
    cell: &mut SignalCell,
    slot: &HandlerSlot<F>,
    signal_value: u32,
) -> (r: Result<(), Signal>)
    requires
        slot@ matches Some(h) ==> accepts(h, signal_value),
    ensures
        slot@ is None ==> r == Err::<(), Signal>(Signal(signal_value)) && final(cell)@ == 0,
        slot@ matches Some(h) ==> exists|m: &mut SignalCell|
            mut_ref_current(m)@ == 0 && *final(cell) == mut_ref_future(m) && call_ensures(
                h,
                (m, Signal(signal_value)),
                r,
            ),
{
    cell.swap(0);
    let signal = Signal(signal_value);
    match get_signal_handler(slot) {
        None => Err(signal),
        Some(h) => h(cell, signal),
    }
}

/// Checks for a pending signal, dispatching it if one is found.
///
/// The common case (no signal pending) costs one read and a branch, leaves
/// the cell untouched, and never consults the handler slot. When a signal
/// is pending, the cell is cleared and then: with no handler registered,
/// the signal comes back unresolved as `Err`; with a handler registered,
/// the handler runs on the cleared cell and its outcome is adopted
/// verbatim, `Ok` for resolved and `Err` with a possibly relabelled code
/// for still active.
pub fn try_check_signal<F: Fn(&mut SignalCell, Signal) -> Result<(), Signal>>(
    cell: &mut SignalCell,
    slot: &HandlerSlot<F>,
) -> (r: Result<(), Signal>)
    requires
        old(cell)@ != 0 ==> (slot@ matches Some(h) ==> accepts(h, old(cell)@)),
    ensures
        old(cell)@ == 0 ==> r == Ok::<(), Signal>(()) && *final(cell) == *old(cell),
        old(cell)@ != 0 && slot@ is None ==> r == Err::<(), Signal>(Signal(old(cell)@))
            && final(cell)@ == 0,
        old(cell)@ != 0 ==> (slot@ matches Some(h) ==> exists|m: &mut SignalCell|
            mut_ref_current(m)@ == 0 && *final(cell) == mut_ref_future(m) && call_ensures(
                h,
                (m, Signal(old(cell)@)),
                r,
            )),
{
    let sig = cell.load();
    if sig != 0 {
        handle_signal(cell, slot, sig)
    } else {
        Ok(())
    }
}

/// Checks for a pending signal and treats an unresolved one as fatal.
///
/// The caller must know that dispatch cannot end unresolved: either no
/// signal is pending, or a handler is registered whose every outcome on
/// the pending signal is "resolved". On any other state this operation
/// would abort the current unit of work, so those states are excluded
/// here; an embedding that wants the abort wraps `try_check_signal` and
/// escalates the `Err` itself, with the cell already cleared by then.
pub fn check_signal<F: Fn(&mut SignalCell, Signal) -> Result<(), Signal>>(
    cell: &mut SignalCell,
    slot: &HandlerSlot<F>,
)
    requires
        old(cell)@ != 0 ==> slot@ is Some,
        old(cell)@ != 0 ==> (slot@ matches Some(h) ==> accepts(h, old(cell)@) && (forall|
            m: &mut SignalCell,
            out: Result<(), Signal>,
        |
            call_ensures(h, (m, Signal(old(cell)@)), out) ==> out is Ok)),
    ensures
        old(cell)@ == 0 ==> *final(cell) == *old(cell),
        old(cell)@ != 0 ==> (slot@ matches Some(h) ==> exists|
            m: &mut SignalCell,
            out: Result<(), Signal>,
        |
            out is Ok && mut_ref_current(m)@ == 0 && *final(cell) == mut_ref_future(m)
                && call_ensures(h, (m, Signal(old(cell)@)), out)),
{
    match try_check_signal(cell, slot) {
        Ok(()) => (),
        Err(_) => vstd::pervasive::unreached(),
    }
}

} // verus!
