//! The laws of the protocol: properties that hold for every signal code and
//! every handler of the stated shape, proved once and for all.
//!
//! The dispatch laws all share one premise: a completed dispatch, exactly as
//! the `ensures` of `try_check_signal` reports it when a handler is
//! registered. There is an invocation `m` of the handler on `Signal(v)`
//! that started from a cell holding `0` (the clear-before-dispatch
//! guarantee) and whose resulting cell contents and outcome are what the
//! checkpoint reported. Each law adds a contract that the handler is known
//! to obey and concludes what the checkpoint must have reported.

use vstd::prelude::*;

use crate::cell::{spec_peek, SignalCell};
use crate::registry::{spec_register, spec_unregister};
use crate::signal::Signal;

verus! {

/// After the cell is set to a non-zero code `v`, a peek reports exactly
/// `Signal(v)`; and since a peek borrows the cell immutably, repeating it
/// can never change what is stored.
pub proof fn lemma_set_then_peek(v: u32)
    requires
        v != 0,
    ensures
        spec_peek(v) == Some(Signal(v)),
{
}

/// Registering `a` and then `b` hands `a` back as the previous handler,
/// and clearing afterwards hands back `b`: registration composes as a
/// save-and-chain round trip.
pub proof fn lemma_register_round_trip<F>(start: Option<F>, a: F, b: F)
    ensures
        spec_register(spec_register(start, a).0, b).1 == Some(a),
        spec_unregister(spec_register(spec_register(start, a).0, b).0).1 == Some(b),
        spec_register(start, a).1 == start,
{
}

/// A handler that always resolves, and leaves the cell as it found it,
/// forces every dispatch to report success with the cell still clear.
pub proof fn lemma_resolving_handler<F: Fn(&mut SignalCell, Signal) -> Result<(), Signal>>(
    h: F,
    v: u32,
    end: SignalCell,
    r: Result<(), Signal>,
)
    requires
        forall|m: &mut SignalCell, s: Signal, out: Result<(), Signal>|
            call_ensures(h, (m, s), out) ==> out is Ok && mut_ref_future(m) == mut_ref_current(m),
        exists|m: &mut SignalCell|
            mut_ref_current(m)@ == 0 && end == mut_ref_future(m) && call_ensures(
                h,
                (m, Signal(v)),
                r,
            ),
    ensures
        r is Ok,
        end@ == 0,
{
}

/// A handler that relabels every signal `s` as the still-active code
/// `f(s)`, and leaves the cell as it found it, forces every dispatch of
/// `v` to report the signal unresolved under the code `f(v)`, with the
/// cell clear.
pub proof fn lemma_relabelling_handler<F: Fn(&mut SignalCell, Signal) -> Result<(), Signal>>(
    h: F,
    f: spec_fn(u32) -> u32,
    v: u32,
    end: SignalCell,
    r: Result<(), Signal>,
)
    requires
        forall|m: &mut SignalCell, s: Signal, out: Result<(), Signal>|
            call_ensures(h, (m, s), out) ==> out == Err::<(), Signal>(Signal(f(s.0)))
                && mut_ref_future(m) == mut_ref_current(m),
        exists|m: &mut SignalCell|
            mut_ref_current(m)@ == 0 && end == mut_ref_future(m) && call_ensures(
                h,
                (m, Signal(v)),
                r,
            ),
    ensures
        r == Err::<(), Signal>(Signal(f(v))),
        end@ == 0,
{
}

/// A handler that reports success exactly when the cell it is handed reads
/// clear can only ever report success at a dispatch: the cell is always
/// cleared before the handler runs, so the handler observes `0`, never the
/// signal being dispatched.
pub proof fn lemma_handler_observes_clear<F: Fn(&mut SignalCell, Signal) -> Result<(), Signal>>(
    h: F,
    v: u32,
    end: SignalCell,
    r: Result<(), Signal>,
)
    requires
        forall|m: &mut SignalCell, s: Signal, out: Result<(), Signal>|
            call_ensures(h, (m, s), out) ==> (out is Ok <==> mut_ref_current(m)@ == 0),
        exists|m: &mut SignalCell|
            mut_ref_current(m)@ == 0 && end == mut_ref_future(m) && call_ensures(
                h,
                (m, Signal(v)),
                r,
            ),
    ensures
        r is Ok,
{
}

/// A handler that resolves every signal but leaves a fresh code `w` in the
/// cell ends every dispatch with success reported and `w` pending: the
/// dispatch logic never clobbers what the handler wrote, because the clear
/// happened before the handler ran.
pub proof fn lemma_renewing_handler<F: Fn(&mut SignalCell, Signal) -> Result<(), Signal>>(
    h: F,
    w: u32,
    v: u32,
    end: SignalCell,
    r: Result<(), Signal>,
)
    requires
        forall|m: &mut SignalCell, s: Signal, out: Result<(), Signal>|
            call_ensures(h, (m, s), out) ==> out is Ok && mut_ref_future(m)@ == w,
        exists|m: &mut SignalCell|
            mut_ref_current(m)@ == 0 && end == mut_ref_future(m) && call_ensures(
                h,
                (m, Signal(v)),
                r,
            ),
    ensures
        r is Ok,
        end@ == w,
{
}

} // verus!
