//! Tests for the signal cell, the handler registry, and the
//! check/dispatch protocol.

use wasm_signal_handler::{
    check_signal, clear_signal, clear_signal_handler, get_signal_handler, peek_signal,
    set_signal, set_signal_handler, try_check_signal, HandlerSlot, Signal, SignalCell,
};

type Handler = fn(&mut SignalCell, Signal) -> Result<(), Signal>;

#[test]
fn test_no_signal() {
    let mut cell = SignalCell::new();
    let slot: HandlerSlot<Handler> = HandlerSlot::new();
    clear_signal(&mut cell);
    assert!(try_check_signal(&mut cell, &slot).is_ok());
}

#[test]
fn test_signal_detected() {
    let mut cell = SignalCell::new();
    let mut slot: HandlerSlot<Handler> = HandlerSlot::new();
    clear_signal_handler(&mut slot);
    set_signal(&mut cell, 42);
    let result = try_check_signal(&mut cell, &slot);
    assert!(result.is_err());
    assert_eq!(result.unwrap_err().0, 42);
    // Signal should be cleared after check
    assert!(try_check_signal(&mut cell, &slot).is_ok());
}

#[test]
fn test_handler_clears_signal() {
    let mut cell = SignalCell::new();
    let mut slot = HandlerSlot::new();
    set_signal_handler(
        &mut slot,
        |_cell: &mut SignalCell, _signal: Signal| -> Result<(), Signal> { Ok(()) },
    );
    set_signal(&mut cell, 1);
    assert!(try_check_signal(&mut cell, &slot).is_ok());
    clear_signal_handler(&mut slot);
}

#[test]
fn test_handler_propagates_signal() {
    let mut cell = SignalCell::new();
    let mut slot = HandlerSlot::new();
    set_signal_handler(
        &mut slot,
        |_cell: &mut SignalCell, signal: Signal| -> Result<(), Signal> {
            Err(Signal(signal.0 * 2))
        },
    );
    set_signal(&mut cell, 21);
    let result = try_check_signal(&mut cell, &slot);
    assert!(result.is_err());
    assert_eq!(result.unwrap_err().0, 42);
    clear_signal_handler(&mut slot);
}

fn handler1(_: &mut SignalCell, _: Signal) -> Result<(), Signal> {
    Ok(())
}

fn handler2(_: &mut SignalCell, _: Signal) -> Result<(), Signal> {
    Err(Signal(0))
}

#[test]
fn test_set_handler_returns_previous() {
    let mut slot: HandlerSlot<Handler> = HandlerSlot::new();
    clear_signal_handler(&mut slot);

    assert!(set_signal_handler(&mut slot, handler1).is_none());
    let prev = set_signal_handler(&mut slot, handler2);
    assert!(prev.is_some());

    clear_signal_handler(&mut slot);
}

#[test]
fn test_peek_signal() {
    let mut cell = SignalCell::new();
    clear_signal(&mut cell);
    assert!(peek_signal(&cell).is_none());

    set_signal(&mut cell, 123);
    assert_eq!(peek_signal(&cell), Some(Signal(123)));

    // Peek doesn't clear
    assert_eq!(peek_signal(&cell), Some(Signal(123)));

    clear_signal(&mut cell);
}

#[test]
fn test_register_round_trip() {
    // Registering A then B hands A back; clearing afterwards hands B back.
    let mut slot: HandlerSlot<Handler> = HandlerSlot::new();
    let mut cell = SignalCell::new();

    assert!(set_signal_handler(&mut slot, handler1).is_none());
    let prev = set_signal_handler(&mut slot, handler2).expect("previous handler");
    // The returned previous handler behaves as handler1 (resolves).
    assert!(prev(&mut cell, Signal(5)).is_ok());

    let cleared = clear_signal_handler(&mut slot).expect("registered handler");
    // The returned handler behaves as handler2 (propagates as code 0).
    assert_eq!(cleared(&mut cell, Signal(5)), Err(Signal(0)));
    assert!(clear_signal_handler(&mut slot).is_none());
}

#[test]
fn test_current_handler() {
    let mut slot: HandlerSlot<Handler> = HandlerSlot::new();
    let mut cell = SignalCell::new();
    assert!(get_signal_handler(&slot).is_none());

    set_signal_handler(&mut slot, handler2);
    let current = get_signal_handler(&slot).expect("registered handler");
    assert_eq!(current(&mut cell, Signal(7)), Err(Signal(0)));
    // Reading the slot does not change it.
    assert!(get_signal_handler(&slot).is_some());
}

#[test]
fn test_handler_observes_cleared_cell() {
    // Clear-before-dispatch: a handler that peeks must observe no signal.
    let mut cell = SignalCell::new();
    let mut slot = HandlerSlot::new();
    set_signal_handler(
        &mut slot,
        |cell: &mut SignalCell, signal: Signal| -> Result<(), Signal> {
            match peek_signal(cell) {
                None => Ok(()),
                Some(_) => Err(signal),
            }
        },
    );
    set_signal(&mut cell, 77);
    // The handler saw the cell already cleared, so it resolved.
    assert!(try_check_signal(&mut cell, &slot).is_ok());
}

#[test]
fn test_reentrant_handler_sets_new_signal() {
    // A handler may raise a fresh signal; dispatch must not clobber it.
    let mut cell = SignalCell::new();
    let mut slot = HandlerSlot::new();
    set_signal_handler(
        &mut slot,
        |cell: &mut SignalCell, signal: Signal| -> Result<(), Signal> {
            if signal.0 == 1 {
                set_signal(cell, 2);
            }
            Ok(())
        },
    );
    set_signal(&mut cell, 1);
    assert!(try_check_signal(&mut cell, &slot).is_ok());
    // The fresh signal the handler raised is still pending.
    assert_eq!(peek_signal(&cell), Some(Signal(2)));

    clear_signal_handler(&mut slot);
    let result = try_check_signal(&mut cell, &slot);
    assert_eq!(result, Err(Signal(2)));
    assert!(peek_signal(&cell).is_none());
}

#[test]
fn test_quiet_cell_never_fires() {
    // No signal ever set: every checkpoint succeeds, the cell stays clear.
    let mut cell = SignalCell::new();
    let slot: HandlerSlot<Handler> = HandlerSlot::new();
    for _ in 0..5 {
        assert!(try_check_signal(&mut cell, &slot).is_ok());
        assert!(peek_signal(&cell).is_none());
    }
}

#[test]
fn test_max_signal_code_round_trips() {
    let mut cell = SignalCell::new();
    let slot: HandlerSlot<Handler> = HandlerSlot::new();
    set_signal(&mut cell, 0xFFFF_FFFF);
    assert_eq!(peek_signal(&cell), Some(Signal(0xFFFF_FFFF)));
    let result = try_check_signal(&mut cell, &slot);
    assert_eq!(result, Err(Signal(0xFFFF_FFFF)));
    assert!(peek_signal(&cell).is_none());
}

#[test]
fn test_clear_signal_returns_prior_value() {
    let mut cell = SignalCell::new();
    set_signal(&mut cell, 777);
    assert_eq!(clear_signal(&mut cell), Some(Signal(777)));
    assert_eq!(clear_signal(&mut cell), None);
}

#[test]
fn test_set_zero_means_no_signal() {
    let mut cell = SignalCell::new();
    let slot: HandlerSlot<Handler> = HandlerSlot::new();
    set_signal(&mut cell, 0);
    assert!(peek_signal(&cell).is_none());
    assert!(try_check_signal(&mut cell, &slot).is_ok());
}

#[test]
fn test_last_write_wins() {
    // No queueing: an unobserved signal is overwritten by a later one.
    let mut cell = SignalCell::new();
    let slot: HandlerSlot<Handler> = HandlerSlot::new();
    set_signal(&mut cell, 10);
    set_signal(&mut cell, 20);
    assert_eq!(try_check_signal(&mut cell, &slot), Err(Signal(20)));
    assert!(try_check_signal(&mut cell, &slot).is_ok());
}

#[test]
fn test_multiple_signals_in_sequence() {
    let mut cell = SignalCell::new();
    let slot: HandlerSlot<Handler> = HandlerSlot::new();
    for i in 1..=10u32 {
        set_signal(&mut cell, i);
        let result = try_check_signal(&mut cell, &slot);
        assert_eq!(result.unwrap_err().0, i);
        assert!(try_check_signal(&mut cell, &slot).is_ok());
    }
}

#[test]
fn test_check_signal_quiet_cell() {
    let mut cell = SignalCell::new();
    let slot: HandlerSlot<Handler> = HandlerSlot::new();
    check_signal(&mut cell, &slot);
    assert!(peek_signal(&cell).is_none());
}

#[test]
fn test_check_signal_resolving_handler() {
    let mut cell = SignalCell::new();
    let mut slot = HandlerSlot::new();
    set_signal_handler(
        &mut slot,
        |_cell: &mut SignalCell, _signal: Signal| -> Result<(), Signal> { Ok(()) },
    );
    set_signal(&mut cell, 5);
    check_signal(&mut cell, &slot);
    // The cell was cleared before the handler ran and left untouched by it.
    assert!(peek_signal(&cell).is_none());
}

#[test]
fn test_signal_text() {
    assert_eq!(Signal(0).text(), "Signal(0)");
    assert_eq!(Signal(42).text(), "Signal(42)");
    assert_eq!(Signal(1000).text(), "Signal(1000)");
    assert_eq!(Signal(4294967295).text(), "Signal(4294967295)");
}

#[test]
fn test_reentrant_checkpoint_inside_handler() {
    // A handler may itself run a checkpoint: the cell was already cleared,
    // so the nested call only fires on the fresh signal the handler raised.
    let mut cell = SignalCell::new();
    let mut slot = HandlerSlot::new();
    set_signal_handler(
        &mut slot,
        |cell: &mut SignalCell, _signal: Signal| -> Result<(), Signal> {
            set_signal(cell, 3);
            let inner: HandlerSlot<Handler> = HandlerSlot::new();
            let nested = try_check_signal(cell, &inner);
            assert_eq!(nested, Err(Signal(3)));
            Ok(())
        },
    );
    set_signal(&mut cell, 1);
    assert!(try_check_signal(&mut cell, &slot).is_ok());
    assert!(peek_signal(&cell).is_none());
}
