//! The radio driver: the single owner of one peripheral's register interface.
//!
//! The peripheral acts on register writes asynchronously, so the driver is
//! split from the raw register access: each operation decides on the exact
//! ordered sequence of hardware actions and records it, and an executor that
//! holds the memory-mapped register block drains the record with
//! [`Radio::take_actions`] and performs each action in order. Status codes it
//! reads and buffers the peripheral fills come back in through
//! [`Radio::check_state`] and [`Radio::receive_packet`].

use vstd::prelude::*;

use crate::packet::Packet;
use crate::state::RadioState;
use crate::RadioError;

verus! {

/// Relies on cortex_m::interrupt::CriticalSection: a value of it is handed out
/// only inside cortex_m::interrupt::free, or made by unsafe code, so holding
/// one proves that no other context can touch the peripheral's registers.
#[verifier::external_type_specification]
#[verifier::external_body]
pub struct ExCriticalSection(cortex_m::interrupt::CriticalSection);

/// One write the driver asks the register-block owner to perform, in the order
/// recorded: a task trigger, the buffer-pointer registration, or arming the
/// READY interrupt.
#[derive(Clone, Copy, Debug, PartialEq, Eq, Structural)]
pub enum HwAction {
    /// Trigger the DISABLE task.
    Disable,
    /// Trigger the receive-enable task.
    RxEn,
    /// Trigger the transmit-enable task.
    TxEn,
    /// Trigger the START task.
    Start,
    /// Trigger the STOP task.
    Stop,
    /// Write the address of the staged frame into the buffer-pointer register.
    SetPacketPtr,
    /// Arm the READY event to raise an interrupt and unmask its line.
    EnableReadyInterrupt,
}

/// The driver for one radio peripheral. Exactly one instance exists per
/// physical peripheral; every register mutation is funnelled through it.
pub struct Radio {
    actions: Vec<HwAction>,
    in_flight: Option<Packet>,
    s0_len: usize,
    s1_len: usize,
}

impl Radio {
    /// The hardware actions decided on so far, oldest first, that the executor
    /// has not yet drained.
    pub closed spec fn issued(&self) -> Seq<HwAction> {
        self.actions@
    }

    /// The frame owned by the transfer in flight, if one is: handed over by
    /// `send_packet`, released again by `complete_transfer`.
    pub closed spec fn in_flight_frame(&self) -> Option<Packet> {
        self.in_flight
    }

    /// Whether a buffer address has been registered with the peripheral's
    /// buffer-pointer register.
    pub closed spec fn buffer_registered(&self) -> bool {
        self.issued().contains(HwAction::SetPacketPtr)
    }

    /// The configured S0 field length, in bytes.
    pub closed spec fn s0_len(&self) -> usize {
        self.s0_len
    }

    /// The configured S1 field length, in bytes.
    pub closed spec fn s1_len(&self) -> usize {
        self.s1_len
    }

    /// Constructs the driver over a freshly handed-off peripheral whose frame
    /// layout was configured with the given S0 and S1 field lengths.
    pub fn new(s0_len: usize, s1_len: usize) -> (r: Radio)
        ensures
            r.issued() == Seq::<HwAction>::empty(),
            r.in_flight_frame() is None,
            r.s0_len() == s0_len,
            r.s1_len() == s1_len,
    {
        let r = Radio { actions: Vec::new(), in_flight: None, s0_len, s1_len };
        proof {
            assert(r.issued() =~= Seq::<HwAction>::empty());
        }
        r
    }

    /// Decodes a status code read from the peripheral's state register. Total:
    /// a defined code yields its mode, any other code `UnrecognizedMode`.
    pub fn check_state(&self, status: u32) -> (r: Result<RadioState, RadioError>)
        ensures
            r == (match crate::state::state_of_code(status) {
                Some(s) => Ok::<RadioState, RadioError>(s),
                None => Err::<RadioState, RadioError>(RadioError::UnrecognizedMode),
            }),
    {
        RadioState::from_code(status)
    }

    /// Issues the DISABLE task. Valid from every mode, idempotent, and the
    /// only way back towards `Disabled`.
    pub fn disable(&mut self)
        ensures
            final(self).issued() == old(self).issued().push(HwAction::Disable),
            final(self).in_flight_frame() == old(self).in_flight_frame(),
            final(self).s0_len() == old(self).s0_len(),
            final(self).s1_len() == old(self).s1_len(),
    {
        self.actions.push(HwAction::Disable);
    }

    /// Issues DISABLE and then the receive-enable task. Disabling first is
    /// mandatory: receive-enable is only a legal request from `Disabled`, so
    /// no starting mode can make this sequence a cross-branch transition.
    pub fn switch_receive(&mut self)
        ensures
            final(self).issued() == old(self).issued() + seq![
                HwAction::Disable,
                HwAction::RxEn,
            ],
            final(self).in_flight_frame() == old(self).in_flight_frame(),
            final(self).s0_len() == old(self).s0_len(),
            final(self).s1_len() == old(self).s1_len(),
    {
        self.disable();
        self.actions.push(HwAction::RxEn);
        proof {
            assert(self.issued() =~= old(self).issued() + seq![
                HwAction::Disable,
                HwAction::RxEn,
            ]);
        }
    }

    /// Issues DISABLE and then the transmit-enable task; the mirror image of
    /// `switch_receive`, with the same reason for disabling first.
    pub fn switch_transmit(&mut self)
        ensures
            final(self).issued() == old(self).issued() + seq![
                HwAction::Disable,
                HwAction::TxEn,
            ],
            final(self).in_flight_frame() == old(self).in_flight_frame(),
            final(self).s0_len() == old(self).s0_len(),
            final(self).s1_len() == old(self).s1_len(),
    {
        self.disable();
        self.actions.push(HwAction::TxEn);
        proof {
            assert(self.issued() =~= old(self).issued() + seq![
                HwAction::Disable,
                HwAction::TxEn,
            ]);
        }
    }

    /// Issues the START task: the peripheral begins transmitting or receiving
    /// through the registered buffer. Starting with no buffer registered is a
    /// caller error, so the contract demands one.
    pub fn start(&mut self)
        requires
            old(self).buffer_registered(),
        ensures
            final(self).issued() == old(self).issued().push(HwAction::Start),
            final(self).in_flight_frame() == old(self).in_flight_frame(),
            final(self).s0_len() == old(self).s0_len(),
            final(self).s1_len() == old(self).s1_len(),
    {
        self.actions.push(HwAction::Start);
    }

    /// Issues the STOP task, aborting an in-progress transfer.
    pub fn stop(&mut self)
        ensures
            final(self).issued() == old(self).issued().push(HwAction::Stop),
            final(self).in_flight_frame() == old(self).in_flight_frame(),
            final(self).s0_len() == old(self).s0_len(),
            final(self).s1_len() == old(self).s1_len(),
    {
        self.actions.push(HwAction::Stop);
    }

    /// Arms the peripheral's READY event to raise an interrupt and unmasks the
    /// line. Re-arming is a hardware no-op, so calling this twice is harmless.
    pub fn enable_ready_ie(&mut self)
        ensures
            final(self).issued() == old(self).issued().push(HwAction::EnableReadyInterrupt),
            final(self).in_flight_frame() == old(self).in_flight_frame(),
            final(self).s0_len() == old(self).s0_len(),
            final(self).s1_len() == old(self).s1_len(),
    {
        self.actions.push(HwAction::EnableReadyInterrupt);
    }

    /// Registers the frame's buffer with the buffer-pointer register, switches
    /// to transmit mode and starts the transfer — in that order, and as one
    /// sequence that must not be interleaved with any other register write,
    /// which is why a `CriticalSection` token must be presented. The frame is
    /// consumed: the in-flight transfer owns it until `complete_transfer`
    /// releases it.
    pub fn send_packet(&mut self, packet: Packet, _cs: cortex_m::interrupt::CriticalSection)
        requires
            packet.wf(),
            old(self).in_flight_frame() is None,
        ensures
            final(self).issued() == old(self).issued() + seq![
                HwAction::SetPacketPtr,
                HwAction::Disable,
                HwAction::TxEn,
                HwAction::Start,
            ],
            final(self).in_flight_frame() == Some(packet),
            final(self).s0_len() == old(self).s0_len(),
            final(self).s1_len() == old(self).s1_len(),
    {
        self.actions.push(HwAction::SetPacketPtr);
        self.in_flight = Some(packet);
        self.switch_transmit();
        proof {
            assert(self.issued()[old(self).issued().len() as int] == HwAction::SetPacketPtr);
            assert(self.buffer_registered());
        }
        self.start();
        proof {
            assert(self.issued() =~= old(self).issued() + seq![
                HwAction::SetPacketPtr,
                HwAction::Disable,
                HwAction::TxEn,
                HwAction::Start,
            ]);
        }
    }

    /// The completion side of `send_packet`: once the executor has observed
    /// the end of the transfer, the frame is released back to the caller.
    /// Until then no other code may touch its memory, which the ownership
    /// transfer enforces by construction.
    pub fn complete_transfer(&mut self) -> (r: Option<Packet>)
        ensures
            r == old(self).in_flight_frame(),
            final(self).in_flight_frame() is None,
            final(self).issued() == old(self).issued(),
            final(self).s0_len() == old(self).s0_len(),
            final(self).s1_len() == old(self).s1_len(),
    {
        self.in_flight.take()
    }

    /// Registers a receive buffer, switches to receive mode and starts
    /// reception: the front half of receiving one frame. The executor then
    /// waits on the completion signal and hands the filled buffer to
    /// `receive_packet`.
    pub fn start_receive(&mut self)
        ensures
            final(self).issued() == old(self).issued() + seq![
                HwAction::SetPacketPtr,
                HwAction::Disable,
                HwAction::RxEn,
                HwAction::Start,
            ],
            final(self).in_flight_frame() == old(self).in_flight_frame(),
            final(self).s0_len() == old(self).s0_len(),
            final(self).s1_len() == old(self).s1_len(),
    {
        self.actions.push(HwAction::SetPacketPtr);
        self.switch_receive();
        proof {
            assert(self.issued()[old(self).issued().len() as int] == HwAction::SetPacketPtr);
            assert(self.buffer_registered());
        }
        self.start();
        proof {
            assert(self.issued() =~= old(self).issued() + seq![
                HwAction::SetPacketPtr,
                HwAction::Disable,
                HwAction::RxEn,
                HwAction::Start,
            ]);
        }
    }

    /// The completion side of receiving: reads one frame out of the buffer the
    /// peripheral filled, under the configured frame layout. The reported
    /// LENGTH is validated against the buffer's capacity before any byte is
    /// copied: a frame exceeding the buffer is a `FramingOverrun`, never an
    /// over-read.
    pub fn receive_packet(&self, raw: &Vec<u8>) -> (r: Result<Packet, RadioError>)
        ensures
            raw@.len() < self.s0_len() + 1 ==> r == Err::<Packet, RadioError>(
                RadioError::FramingOverrun,
            ),
            raw@.len() >= self.s0_len() + 1 && self.s0_len() + 1 + self.s1_len()
                + raw@[self.s0_len() as int] > raw@.len() ==> r == Err::<Packet, RadioError>(
                RadioError::FramingOverrun,
            ),
            raw@.len() >= self.s0_len() + 1 && self.s0_len() + 1 + self.s1_len()
                + raw@[self.s0_len() as int] <= raw@.len() && self.s0_len() + 1 + self.s1_len()
                + raw@[self.s0_len() as int] > crate::packet::MAX_FRAME_LEN ==> r == Err::<
                Packet,
                RadioError,
            >(RadioError::OversizedFrame),
            raw@.len() >= self.s0_len() + 1 && self.s0_len() + 1 + self.s1_len()
                + raw@[self.s0_len() as int] <= raw@.len() && self.s0_len() + 1 + self.s1_len()
                + raw@[self.s0_len() as int] <= crate::packet::MAX_FRAME_LEN ==> (r matches Ok(p)
                && p.spec_s0() == raw@.subrange(0, self.s0_len() as int) && p.spec_s1()
                == raw@.subrange(self.s0_len() + 1, self.s0_len() + 1 + self.s1_len())
                && p.spec_payload() == raw@.subrange(
                self.s0_len() + 1 + self.s1_len(),
                self.s0_len() + 1 + self.s1_len() + raw@[self.s0_len() as int],
            ) && p.wf()),
    {
        Packet::parse(raw, self.s0_len, self.s1_len)
    }

    /// Drains the recorded hardware actions, oldest first, for the executor to
    /// perform in order on the register block.
    pub fn take_actions(&mut self) -> (r: Vec<HwAction>)
        ensures
            r@ == old(self).issued(),
            final(self).issued() == Seq::<HwAction>::empty(),
            final(self).in_flight_frame() == old(self).in_flight_frame(),
            final(self).s0_len() == old(self).s0_len(),
            final(self).s1_len() == old(self).s1_len(),
    {
        let mut out: Vec<HwAction> = Vec::new();
        let mut i: usize = 0;
        while i < self.actions.len()
            invariant
                i <= self.actions@.len(),
                out@ == self.actions@.subrange(0, i as int),
                self == old(self),
            decreases self.actions@.len() - i,
        {
            out.push(self.actions[i]);
            proof {
                assert(self.actions@.subrange(0, i as int).push(self.actions@[i as int])
                    =~= self.actions@.subrange(0, i + 1));
            }
            i += 1;
        }
        self.actions.clear();
        proof {
            assert(old(self).actions@.subrange(0, old(self).actions@.len() as int) =~= old(
                self,
            ).actions@);
            assert(self.issued() =~= Seq::<HwAction>::empty());
        }
        out
    }
}

} // verus!
