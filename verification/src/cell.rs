//! The signal cell: the single mutable location an external controller
//! writes a signal code into and checkpoints read it back out of.
//!
//! The cell is modelled here as an explicit value so that every operation
//! on it carries a proved contract. An embedding gives the cell a stable,
//! externally discoverable home (for instance an exported atomic word) and
//! mirrors that location into a value of this type at each checkpoint; the
//! protocol itself is indifferent to where the word lives.

use vstd::prelude::*;

use crate::signal::Signal;

verus! {

/// The signal cell. Holds `0` when no signal is pending, and the pending
/// signal code otherwise. There is no queue: a later write overwrites an
/// unobserved earlier one (last write wins).
pub struct SignalCell {
    value: u32,
}

impl View for SignalCell {
    type V = u32;

    closed spec fn view(&self) -> u32 {
        self.value
    }
}

/// What a non-clearing read of a cell holding `v` reports: nothing for the
/// cleared sentinel `0`, and the signal itself otherwise.
pub open spec fn spec_peek(v: u32) -> Option<Signal> {
    if v == 0 {
        None
    } else {
        Some(Signal(v))
    }
}

impl SignalCell {
    /// A fresh cell, clear at the start of its life.
    pub fn new() -> (c: SignalCell)
        ensures
            c@ == 0,
    {
        SignalCell { value: 0 }
    }

    /// Reads the raw stored word without changing it.
    pub fn load(&self) -> (v: u32)
        ensures
            v == self@,
    {
        self.value
    }

    /// Unconditionally stores a raw word.
    pub fn store(&mut self, v: u32)
        ensures
            final(self)@ == v,
    {
        self.value = v;
    }

    /// Stores a raw word and hands back what was there before.
    pub fn swap(&mut self, v: u32) -> (prev: u32)
        ensures
            final(self)@ == v,
            prev == old(self)@,
    {
        let prev = self.value;
        self.value = v;
        prev
    }
}

/// Reads the current signal without clearing it.
///
/// Returns `None` when no signal is pending and `Some` with the pending
/// signal otherwise. The cell is borrowed immutably: a peek can never
/// change what is stored, however often it is repeated.
pub fn peek_signal(cell: &SignalCell) -> (r: Option<Signal>)
    ensures
        r == spec_peek(cell@),
{
    let sig = cell.load();
    if sig != 0 {
        Some(Signal(sig))
    } else {
        None
    }
}

/// Manually clears the signal without invoking any handler.
///
/// Returns the signal that was pending, or `None` if the cell was already
/// clear. Afterwards the cell always holds `0`.
pub fn clear_signal(cell: &mut SignalCell) -> (r: Option<Signal>)
    ensures
        final(cell)@ == 0,
        r == spec_peek(old(cell)@),
{
    let sig = cell.swap(0);
    if sig != 0 {
        Some(Signal(sig))
    } else {
        None
    }
}

/// Manually sets the signal word: `0` to clear, non-zero to raise a signal.
/// Meant for testing and for simulating the external controller.
pub fn set_signal(cell: &mut SignalCell, signal: u32)
    ensures
        final(cell)@ == signal,
{
    cell.store(signal);
}

} // verus!
