//! A cooperative signal-delivery primitive for sandboxed execution
//! environments such as a WebAssembly module embedded in a host runtime.
//!
//! An external controller raises a signal by writing a non-zero 32-bit code
//! into a shared cell; the running computation observes and reacts to it at
//! checkpoints of its own choosing. A single replaceable handler decides,
//! per signal, whether the request is resolved or still active. The cell is
//! always cleared before the handler runs, so a handler may raise a fresh
//! signal, or fail, without the dispatch logic clobbering or retrying it.
//!
//! The state the protocol acts on (the cell and the handler slot) is passed
//! explicitly, so every operation's effect is stated in its contract; an
//! embedding owns one process-wide instance of each and a fixed,
//! externally addressable home for the cell's word.

pub mod cell;
pub mod dispatch;
pub mod laws;
pub mod registry;
pub mod signal;

pub use cell::{clear_signal, peek_signal, set_signal, SignalCell};
pub use dispatch::{check_signal, try_check_signal};
pub use registry::{clear_signal_handler, get_signal_handler, set_signal_handler, HandlerSlot};
pub use signal::Signal;
