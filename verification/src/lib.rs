//! Driver core for a short-range radio peripheral: decoding of the hardware's
//! status codes into logical modes, the S0/LENGTH/S1/PAYLOAD packet framing
//! with its size bound, the task-sequencing rules for switching between
//! receive and transmit, and the single-slot completion notification raised
//! from interrupt context.
//!
//! The peripheral executes register writes asynchronously, so the driver here
//! records the exact sequence of hardware actions it decides on; an executor
//! that owns the memory-mapped register block performs them in order and hands
//! observed status codes and received bytes back in.

use vstd::prelude::*;

mod driver;
mod packet;
mod signal;
mod state;

pub use driver::HwAction;
pub use driver::Radio;
pub use packet::Packet;
pub use packet::MAX_FRAME_LEN;
pub use signal::ReadySignal;
pub use state::RadioState;

verus! {

/// The recoverable conditions this driver reports. None of them aborts the
/// process: an out-of-range status code or a corrupt frame is hardware data,
/// not a program invariant.
#[derive(Clone, Copy, Debug, PartialEq, Eq, Structural)]
pub enum RadioError {
    /// The status register holds a code outside the defined set of modes.
    UnrecognizedMode,
    /// A requested frame would exceed the hardware's 254-byte frame bound.
    OversizedFrame,
    /// A received frame reports a LENGTH that does not fit the supplied buffer.
    FramingOverrun,
}

} // verus!
