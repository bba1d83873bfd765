use vstd::prelude::*;

use crate::codec::{pack_bits, pressed_flags};
use crate::packet::{
    buttons1_levels, buttons2_levels, twenty_byte_packet, Axis, Button, ControllerSnapshot,
    TriggerMode, DUALSHOCK_MAGIC,
};

verus! {

/// The first response byte of the minimal-dialect firmware on success (`'k'`).
pub const SEVEN_BYTE_OK_RESPONSE: u8 = 0x6B;

/// The first response byte of the minimal-dialect firmware when it did not
/// understand a packet (`'x'`).
pub const SEVEN_BYTE_ERR_RESPONSE: u8 = 0x78;

/// The extended-dialect firmware echoes vibration data that begins with the
/// magic byte.
pub const TWENTY_BYTE_OK_HEADER: u8 = DUALSHOCK_MAGIC;

/// The wire dialect spoken by the emulator on the other end of the link.
#[derive(Debug, Clone, Copy, PartialEq, Eq, Structural)]
pub enum ControllerEmulatorPacketType {
    /// Unrecognised device: packets are only shown, never sent.
    Undetermined,
    /// Seven-byte packets, answered by a one-character acknowledgement.
    SevenByte,
    /// Twenty-byte packets, answered by vibration data.
    TwentyByte,
}

/// The dialect that a response to the probe packet reveals.
pub open spec fn mode_for_response(response: Seq<u8>) -> ControllerEmulatorPacketType {
    if response.len() > 0 && response[0] == TWENTY_BYTE_OK_HEADER {
        ControllerEmulatorPacketType::TwentyByte
    } else if response.len() > 0 && response[0] == SEVEN_BYTE_ERR_RESPONSE {
        ControllerEmulatorPacketType::SevenByte
    } else {
        ControllerEmulatorPacketType::Undetermined
    }
}

/// Decides the dialect from the bytes that answered the probe packet.
pub fn communication_mode_from_response(response: &[u8]) -> (r: ControllerEmulatorPacketType)
    ensures
        r == mode_for_response(response@),
{
    if response.len() > 0 && response[0] == TWENTY_BYTE_OK_HEADER {
        ControllerEmulatorPacketType::TwentyByte
    } else if response.len() > 0 && response[0] == SEVEN_BYTE_ERR_RESPONSE {
        ControllerEmulatorPacketType::SevenByte
    } else {
        ControllerEmulatorPacketType::Undetermined
    }
}

/// The probe packet: an extended packet of a released, centred controller.
pub open spec fn neutral_probe() -> Seq<u8> {
    seq![
        DUALSHOCK_MAGIC, 0xFFu8, 0xFFu8,
        0x80u8, 0x80u8, 0x80u8, 0x80u8,
        0u8, 0u8, 0u8, 0u8, 0u8, 0u8, 0u8, 0u8, 0u8, 0u8, 0u8, 0u8,
        0x55u8,
    ]
}

/// Builds the probe packet sent once at the start of a session.
pub fn neutral_packet() -> (r: Vec<u8>)
    ensures
        r@ == neutral_probe(),
{
    let packet = vec![
        DUALSHOCK_MAGIC, 0xFF, 0xFF,
        0x80, 0x80, 0x80, 0x80,
        0, 0, 0, 0, 0, 0, 0, 0, 0, 0, 0, 0,
        0x55,
    ];
    assert(packet@ =~= neutral_probe());
    packet
}

/// A controller with every button released and every axis centred produces
/// the probe packet, whatever the trigger mode and stick normalisation.
pub proof fn lemma_neutral_controller_sends_probe(
    c: ControllerSnapshot,
    mode: TriggerMode,
    normalise: bool,
)
    requires
        forall|b: Button| !c.pressed(b),
        forall|a: Axis| c.position(a) == 0,
    ensures
        twenty_byte_packet(c, mode, normalise) == neutral_probe(),
{
    assert(!c.pressed(Button::DPadLeft) && !c.pressed(Button::DPadDown) && !c.pressed(Button::DPadRight));
    assert(!c.pressed(Button::DPadUp) && !c.pressed(Button::Start) && !c.pressed(Button::Back));
    assert(!c.pressed(Button::LeftStick) && !c.pressed(Button::RightStick) && !c.pressed(Button::A));
    assert(!c.pressed(Button::B) && !c.pressed(Button::X) && !c.pressed(Button::Y));
    assert(!c.pressed(Button::LeftShoulder) && !c.pressed(Button::RightShoulder));
    assert(!c.pressed(Button::Guide));
    assert(c.position(Axis::LeftX) == 0 && c.position(Axis::LeftY) == 0);
    assert(c.position(Axis::RightX) == 0 && c.position(Axis::RightY) == 0);
    assert(c.position(Axis::TriggerLeft) == 0 && c.position(Axis::TriggerRight) == 0);
    let released = seq![false, false, false, false, false, false, false, false];
    assert(pressed_flags(buttons1_levels(c)) =~= released);
    assert(pressed_flags(buttons2_levels(c, mode)) =~= released);
    reveal_with_fuel(pack_bits, 9);
    assert(pack_bits(released) == 0);
    assert(twenty_byte_packet(c, mode, normalise) =~= neutral_probe());
}

/// What one read from the transport gave.
#[derive(Debug, PartialEq, Eq)]
pub enum ReadOutcome {
    /// The bytes that arrived before the timeout; possibly none.
    Received(Vec<u8>),
    /// Nothing arrived within the timeout.
    TimedOut,
    /// Any other transport error.
    Failed,
}

/// The stages of the handshake at the start of a session.
#[derive(Debug, Clone, Copy, PartialEq, Eq, Structural)]
pub enum NegotiationState {
    /// Initial: discarding bytes left over from an earlier session.
    ClearingStale,
    /// The probe packet was sent; its response is awaited.
    Probed,
    /// The dialect is known; bytes left after the response are discarded.
    ClearingProbe(ControllerEmulatorPacketType),
    /// Final: the dialect for the rest of the session.
    Decided(ControllerEmulatorPacketType),
    /// Final: the transport failed while the buffer was being cleared or the
    /// probe written.
    Aborted,
}

/// What the transport reported back to the handshake.
#[derive(Debug, PartialEq, Eq)]
pub enum NegotiationEvent {
    /// The outcome of the read that the last action asked for.
    Read(ReadOutcome),
    /// Writing the probe packet failed.
    WriteFailed,
}

/// What the handshake asks of the transport next.
#[derive(Debug, PartialEq, Eq)]
pub enum NegotiationAction {
    /// Read one byte (with the usual timeout) and report the outcome.
    ReadByte,
    /// Write these bytes, then read up to four response bytes and report the
    /// outcome.
    SendProbe(Vec<u8>),
    /// The handshake is over: this is the session's dialect.
    Finished(ControllerEmulatorPacketType),
    /// The handshake failed for good.
    Abort,
}

/// The state that follows `s` on event `e`.
pub open spec fn next_negotiation_state(s: NegotiationState, e: NegotiationEvent) -> NegotiationState {
    match s {
        NegotiationState::ClearingStale => match e {
            NegotiationEvent::Read(ReadOutcome::Received(_)) => NegotiationState::ClearingStale,
            NegotiationEvent::Read(ReadOutcome::TimedOut) => NegotiationState::Probed,
            _ => NegotiationState::Aborted,
        },
        NegotiationState::Probed => match e {
            NegotiationEvent::Read(ReadOutcome::Received(bytes)) => NegotiationState::ClearingProbe(
                mode_for_response(bytes@),
            ),
            NegotiationEvent::Read(_) => NegotiationState::ClearingProbe(
                ControllerEmulatorPacketType::Undetermined,
            ),
            NegotiationEvent::WriteFailed => NegotiationState::Aborted,
        },
        NegotiationState::ClearingProbe(mode) => match e {
            NegotiationEvent::Read(ReadOutcome::Received(_)) => NegotiationState::ClearingProbe(mode),
            NegotiationEvent::Read(ReadOutcome::TimedOut) => NegotiationState::Decided(mode),
            _ => NegotiationState::Aborted,
        },
        NegotiationState::Decided(mode) => NegotiationState::Decided(mode),
        NegotiationState::Aborted => NegotiationState::Aborted,
    }
}

/// Whether `a` is the action that goes with entering state `s`.
pub open spec fn action_for_state(s: NegotiationState, a: NegotiationAction) -> bool {
    match s {
        NegotiationState::ClearingStale => a == NegotiationAction::ReadByte,
        NegotiationState::Probed => match a {
            NegotiationAction::SendProbe(bytes) => bytes@ == neutral_probe(),
            _ => false,
        },
        NegotiationState::ClearingProbe(_) => a == NegotiationAction::ReadByte,
        NegotiationState::Decided(mode) => a == NegotiationAction::Finished(mode),
        NegotiationState::Aborted => a == NegotiationAction::Abort,
    }
}

/// The handshake that decides a session's dialect.
///
/// Driven by whoever owns the transport: it performs each action and reports
/// the outcome back through `step`.
pub struct Negotiator {
    pub state: NegotiationState,
}

impl Negotiator {
    /// A handshake about to clear the transport; the first action is a read.
    pub fn new() -> (r: Negotiator)
        ensures
            r.state == NegotiationState::ClearingStale,
            action_for_state(r.state, NegotiationAction::ReadByte),
    {
        Negotiator { state: NegotiationState::ClearingStale }
    }

    /// Moves the handshake on by one event and says what to do next.
    pub fn step(&mut self, event: NegotiationEvent) -> (r: NegotiationAction)
        ensures
            final(self).state == next_negotiation_state(old(self).state, event),
            action_for_state(final(self).state, r),
    {
        let next = match self.state {
            NegotiationState::ClearingStale => match event {
                NegotiationEvent::Read(ReadOutcome::Received(_)) => NegotiationState::ClearingStale,
                NegotiationEvent::Read(ReadOutcome::TimedOut) => NegotiationState::Probed,
                _ => NegotiationState::Aborted,
            },
            NegotiationState::Probed => match event {
                NegotiationEvent::Read(ReadOutcome::Received(bytes)) => {
                    NegotiationState::ClearingProbe(communication_mode_from_response(bytes.as_slice()))
                },
                NegotiationEvent::Read(_) => NegotiationState::ClearingProbe(
                    ControllerEmulatorPacketType::Undetermined,
                ),
                NegotiationEvent::WriteFailed => NegotiationState::Aborted,
            },
            NegotiationState::ClearingProbe(mode) => match event {
                NegotiationEvent::Read(ReadOutcome::Received(_)) => NegotiationState::ClearingProbe(mode),
                NegotiationEvent::Read(ReadOutcome::TimedOut) => NegotiationState::Decided(mode),
                _ => NegotiationState::Aborted,
            },
            NegotiationState::Decided(mode) => NegotiationState::Decided(mode),
            NegotiationState::Aborted => NegotiationState::Aborted,
        };
        self.state = next;
        match next {
            NegotiationState::ClearingStale => NegotiationAction::ReadByte,
            NegotiationState::Probed => NegotiationAction::SendProbe(neutral_packet()),
            NegotiationState::ClearingProbe(_) => NegotiationAction::ReadByte,
            NegotiationState::Decided(mode) => NegotiationAction::Finished(mode),
            NegotiationState::Aborted => NegotiationAction::Abort,
        }
    }
}

/// How the handshake ends: once the probe is answered by `response` and
/// the leftover bytes are cleared, the dialect is the extended one when the
/// answer begins with the magic byte, the minimal one when it begins with the
/// minimal firmware's error character, and undetermined otherwise. Once
/// decided, no event changes it.
pub proof fn lemma_handshake_outcome(response: Vec<u8>, later: NegotiationEvent)
    ensures
        ({
            let s = next_negotiation_state(
                next_negotiation_state(
                    NegotiationState::Probed,
                    NegotiationEvent::Read(ReadOutcome::Received(response)),
                ),
                NegotiationEvent::Read(ReadOutcome::TimedOut),
            );
            &&& (response@.len() > 0 && response@[0] == DUALSHOCK_MAGIC) ==> s
                == NegotiationState::Decided(ControllerEmulatorPacketType::TwentyByte)
            &&& (response@.len() > 0 && response@[0] == SEVEN_BYTE_ERR_RESPONSE) ==> s
                == NegotiationState::Decided(ControllerEmulatorPacketType::SevenByte)
            &&& (response@.len() == 0 || (response@[0] != DUALSHOCK_MAGIC && response@[0]
                != SEVEN_BYTE_ERR_RESPONSE)) ==> s == NegotiationState::Decided(
                ControllerEmulatorPacketType::Undetermined,
            )
            &&& next_negotiation_state(s, later) == s
        }),
{
}

} // verus!
