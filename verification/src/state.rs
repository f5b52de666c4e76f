//! The radio's operating modes, the total decoding of the status register, and
//! a model of the documented mode machine around the DISABLE task.

use vstd::prelude::*;

use crate::RadioError;

verus! {

/// Operating mode of the peripheral, as reported by its status register. The
/// mode is derived on every read and never cached: the register is the single
/// source of truth.
#[derive(Clone, Copy, Debug, PartialEq, Eq, Structural)]
pub enum RadioState {
    Disabled,
    RxRu,
    RxIdle,
    Rx,
    RxDisable,
    TxRu,
    TxIdle,
    Tx,
    TxDisable,
}

/// The documented status-register encoding: the mode a raw code denotes, or
/// `None` for any code outside the defined set.
pub open spec fn state_of_code(code: u32) -> Option<RadioState> {
    if code == 0 {
        Some(RadioState::Disabled)
    } else if code == 1 {
        Some(RadioState::RxRu)
    } else if code == 2 {
        Some(RadioState::RxIdle)
    } else if code == 3 {
        Some(RadioState::Rx)
    } else if code == 4 {
        Some(RadioState::RxDisable)
    } else if code == 9 {
        Some(RadioState::TxRu)
    } else if code == 10 {
        Some(RadioState::TxIdle)
    } else if code == 11 {
        Some(RadioState::Tx)
    } else if code == 12 {
        Some(RadioState::TxDisable)
    } else {
        None
    }
}

impl RadioState {
    /// Total decoding of a raw status code. A defined code yields its
    /// documented mode; every other code reports `UnrecognizedMode`, never an
    /// abort: a reserved or transient code is a data condition the caller must
    /// be able to react to.
    pub fn from_code(code: u32) -> (r: Result<RadioState, RadioError>)
        ensures
            r == (match state_of_code(code) {
                Some(s) => Ok::<RadioState, RadioError>(s),
                None => Err::<RadioState, RadioError>(RadioError::UnrecognizedMode),
            }),
    {
        match code {
            0 => Ok(RadioState::Disabled),
            1 => Ok(RadioState::RxRu),
            2 => Ok(RadioState::RxIdle),
            3 => Ok(RadioState::Rx),
            4 => Ok(RadioState::RxDisable),
            9 => Ok(RadioState::TxRu),
            10 => Ok(RadioState::TxIdle),
            11 => Ok(RadioState::Tx),
            12 => Ok(RadioState::TxDisable),
            _ => Err(RadioError::UnrecognizedMode),
        }
    }
}

/// Mode reached when the DISABLE task is issued, per the documented machine: a
/// receive-branch mode falls to `RxDisable`, a transmit-branch mode to
/// `TxDisable`, and `Disabled` stays put.
pub open spec fn disable_step(s: RadioState) -> RadioState {
    match s {
        RadioState::Disabled => RadioState::Disabled,
        RadioState::RxRu => RadioState::RxDisable,
        RadioState::RxIdle => RadioState::RxDisable,
        RadioState::Rx => RadioState::RxDisable,
        RadioState::RxDisable => RadioState::RxDisable,
        RadioState::TxRu => RadioState::TxDisable,
        RadioState::TxIdle => RadioState::TxDisable,
        RadioState::Tx => RadioState::TxDisable,
        RadioState::TxDisable => RadioState::TxDisable,
    }
}

/// Mode reached when the DISABLED completion event fires: either disabling
/// intermediate settles in `Disabled`; the event changes no other mode.
pub open spec fn disabled_event_step(s: RadioState) -> RadioState {
    match s {
        RadioState::RxDisable => RadioState::Disabled,
        RadioState::TxDisable => RadioState::Disabled,
        _ => s,
    }
}

/// A documented disabling intermediate.
pub open spec fn is_disabling(s: RadioState) -> bool {
    s == RadioState::RxDisable || s == RadioState::TxDisable
}

/// The receive-enable task is a legal request only from `Disabled`.
pub open spec fn rxen_legal(s: RadioState) -> bool {
    s == RadioState::Disabled
}

/// The transmit-enable task is a legal request only from `Disabled`.
pub open spec fn txen_legal(s: RadioState) -> bool {
    s == RadioState::Disabled
}

/// From every defined mode, the DISABLE task drives the peripheral to
/// `Disabled`: directly, or through its documented disabling intermediate,
/// which the DISABLED event then settles.
pub proof fn lemma_disable_reaches_disabled(s: RadioState)
    ensures
        disable_step(s) == RadioState::Disabled || is_disabling(disable_step(s)),
        disabled_event_step(disable_step(s)) == RadioState::Disabled,
{
}

/// From every defined starting mode, disabling first and letting the disabling
/// settle reaches the one mode from which either enable task is legal: the
/// disable-then-enable sequence never asks for a cross-branch transition.
pub proof fn lemma_disable_first_makes_enable_legal(s: RadioState)
    ensures
        rxen_legal(disabled_event_step(disable_step(s))),
        txen_legal(disabled_event_step(disable_step(s))),
{
}

} // verus!
