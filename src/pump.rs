//! The decisions of the streaming pump: which piece of outside work comes
//! next, given the outcome of the last one and the streaming flag.
use vstd::prelude::*;

use embassy_usb::driver::EndpointError;

verus! {

/// Bytes in one packet: the bulk endpoint's maximum packet size.
pub const PACKET_SIZE: usize = 64;

/// The outside work the pump asks for next.
#[derive(Clone, Copy, Debug, PartialEq, Eq, Structural)]
pub enum PumpAction {
    /// Wait until the host has enabled the bulk endpoint.
    WaitConnection,
    /// Wait for a change of the streaming flag.
    WaitChange,
    /// Reset the sensor's FIFO.
    ResetFifo,
    /// Read how many bytes the sensor's FIFO holds.
    QueryFifo,
    /// Read exactly `PACKET_SIZE` bytes from the FIFO into the packet buffer.
    ReadPacket,
    /// Write the whole packet buffer to the bulk endpoint.
    WritePacket,
    /// An unrecoverable configuration fault: stop the device.
    Halt,
}

/// The outcome of the work last asked for.
#[derive(Clone, Copy, Debug, PartialEq, Eq)]
pub enum PumpEvent {
    /// The work completed (a connection, a change, a reset, a read, a write).
    Done,
    /// The FIFO query completed with this fill level in bytes.
    FifoLevel(usize),
    /// A FIFO reset, query or read failed.
    SensorFailed,
    /// The endpoint write failed.
    WriteFailed(EndpointError),
}

/// A FIFO query outcome that reports at least one full packet.
pub open spec fn holds_packet(event: PumpEvent) -> bool {
    match event {
        PumpEvent::FifoLevel(n) => n >= PACKET_SIZE,
        _ => false,
    }
}

/// What the pump does next after `event` ends the work `last`, with
/// `streaming` read just before deciding.
pub open spec fn next_action(last: PumpAction, event: PumpEvent, streaming: bool) -> PumpAction {
    if last == PumpAction::Halt {
        PumpAction::Halt
    } else {
        match event {
            PumpEvent::SensorFailed => PumpAction::WaitConnection,
            PumpEvent::WriteFailed(EndpointError::Disabled) => PumpAction::WaitConnection,
            PumpEvent::WriteFailed(EndpointError::BufferOverflow) => PumpAction::Halt,
            _ => {
                if last == PumpAction::QueryFifo && holds_packet(event) {
                    PumpAction::ReadPacket
                } else if last == PumpAction::ReadPacket {
                    PumpAction::WritePacket
                } else if !streaming {
                    PumpAction::WaitChange
                } else if last == PumpAction::WaitConnection || last == PumpAction::WaitChange {
                    PumpAction::ResetFifo
                } else {
                    PumpAction::QueryFifo
                }
            },
        }
    }
}

/// The pump's position in its cycle: the work it asked for last.
pub struct Pump {
    last: PumpAction,
}

impl View for Pump {
    type V = PumpAction;

    closed spec fn view(&self) -> PumpAction {
        self.last
    }
}

impl Pump {
    /// A pump at the top of its cycle: its first work is to wait for the host.
    pub fn new() -> (r: Pump)
        ensures
            r@ == PumpAction::WaitConnection,
    {
        Pump { last: PumpAction::WaitConnection }
    }

    /// The work the pump asked for last (at first, waiting for the host).
    pub fn action(&self) -> (r: PumpAction)
        ensures
            r == self@,
    {
        self.last
    }

    /// Takes the outcome of the last work and the current streaming flag, and
    /// returns the next work to do.
    pub fn step(&mut self, event: PumpEvent, streaming: bool) -> (r: PumpAction)
        ensures
            r == next_action(old(self)@, event, streaming),
            final(self)@ == r,
    {
        let next = if self.last == PumpAction::Halt {
            PumpAction::Halt
        } else {
            match event {
                PumpEvent::SensorFailed => PumpAction::WaitConnection,
                PumpEvent::WriteFailed(EndpointError::Disabled) => PumpAction::WaitConnection,
                PumpEvent::WriteFailed(EndpointError::BufferOverflow) => PumpAction::Halt,
                PumpEvent::FifoLevel(n) if self.last == PumpAction::QueryFifo && n
                    >= PACKET_SIZE => PumpAction::ReadPacket,
                _ => {
                    if self.last == PumpAction::ReadPacket {
                        PumpAction::WritePacket
                    } else if !streaming {
                        PumpAction::WaitChange
                    } else if self.last == PumpAction::WaitConnection || self.last
                        == PumpAction::WaitChange {
                        PumpAction::ResetFifo
                    } else {
                        PumpAction::QueryFifo
                    }
                },
            }
        };
        self.last = next;
        next
    }
}

/// A packet is read only right after a FIFO query that reported at least a
/// full packet, and written only right after that read succeeded: no partial
/// packet is ever sent.
pub proof fn lemma_only_full_packets(last: PumpAction, event: PumpEvent, streaming: bool)
    ensures
        next_action(last, event, streaming) == PumpAction::ReadPacket ==> last
            == PumpAction::QueryFifo && holds_packet(event),
        next_action(last, event, streaming) == PumpAction::WritePacket ==> last
            == PumpAction::ReadPacket && (event is Done || event is FifoLevel),
{
}

/// Leaving a wait (for the host or for a change) the pump never queries the
/// FIFO directly: the FIFO is reset first.
pub proof fn lemma_reset_before_streaming(last: PumpAction, event: PumpEvent, streaming: bool)
    requires
        last == PumpAction::WaitConnection || last == PumpAction::WaitChange,
    ensures
        next_action(last, event, streaming) != PumpAction::QueryFifo,
        next_action(last, event, streaming) != PumpAction::ReadPacket,
        next_action(last, event, streaming) != PumpAction::WritePacket,
{
}

/// Once the flag reads off, the pump goes back to waiting for a change at the
/// next decision that does not complete a packet already begun.
pub proof fn lemma_stop_is_honored(last: PumpAction, event: PumpEvent)
    requires
        last != PumpAction::Halt,
        last != PumpAction::ReadPacket,
        event is Done || event is FifoLevel,
        !(last == PumpAction::QueryFifo && holds_packet(event)),
    ensures
        next_action(last, event, false) == PumpAction::WaitChange,
{
}

/// Any sensor failure, and an endpoint that went away, send the pump back to
/// waiting for the host; only an endpoint buffer overflow halts it.
pub proof fn lemma_errors_recover(last: PumpAction, event: PumpEvent, streaming: bool)
    requires
        last != PumpAction::Halt,
    ensures
        event is SensorFailed ==> next_action(last, event, streaming)
            == PumpAction::WaitConnection,
        event == PumpEvent::WriteFailed(EndpointError::Disabled) ==> next_action(
            last,
            event,
            streaming,
        ) == PumpAction::WaitConnection,
        next_action(last, event, streaming) == PumpAction::Halt <==> event
            == PumpEvent::WriteFailed(EndpointError::BufferOverflow),
{
}

} // verus!
