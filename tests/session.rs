use omnishock::packet::{ControllerSnapshot, TriggerMode, DUALSHOCK_MAGIC};
use omnishock::pump::{
    Feedback, FrameClock, FramePump, FrameUpdate, RumbleCommand, FRAME_PERIOD_NS,
    RUMBLE_DURATION_MS,
};
use omnishock::session::{
    communication_mode_from_response, neutral_packet, ControllerEmulatorPacketType,
    NegotiationAction, NegotiationEvent, NegotiationState, Negotiator, ReadOutcome,
    SEVEN_BYTE_ERR_RESPONSE, SEVEN_BYTE_OK_RESPONSE, TWENTY_BYTE_OK_HEADER,
};

fn neutral_twenty() -> Vec<u8> {
    vec![
        DUALSHOCK_MAGIC,
        0xFF,
        0xFF,
        0x80,
        0x80,
        0x80,
        0x80,
        0x00,
        0x00,
        0x00,
        0x00,
        0x00,
        0x00,
        0x00,
        0x00,
        0x00,
        0x00,
        0x00,
        0x00,
        0x55,
    ]
}

#[test]
fn send_event_to_controller_works() {
    let controller = ControllerSnapshot::released();

    let seven_byte_console_response = vec![SEVEN_BYTE_OK_RESPONSE];
    let pump = FramePump::new(
        ControllerEmulatorPacketType::SevenByte,
        TriggerMode::Normal,
        false,
    );
    assert_eq!(
        pump.update(&controller),
        FrameUpdate::Transmit(vec![DUALSHOCK_MAGIC, 0xFF, 0xFF, 0x80, 0x80, 0x80, 0x80])
    );
    assert_eq!(
        pump.feedback(&ReadOutcome::Received(seven_byte_console_response)),
        Feedback::Quiet
    );

    let twenty_byte_console_response = vec![TWENTY_BYTE_OK_HEADER, 0x00, 0x00, 0x55];
    let pump = FramePump::new(
        ControllerEmulatorPacketType::TwentyByte,
        TriggerMode::Normal,
        false,
    );
    assert_eq!(
        pump.update(&controller),
        FrameUpdate::Transmit(neutral_twenty())
    );
    assert_eq!(
        pump.feedback(&ReadOutcome::Received(twenty_byte_console_response)),
        Feedback::StopRumble
    );
}

#[test]
fn neutral_packet_is_the_neutral_controller_packet() {
    assert_eq!(neutral_packet(), neutral_twenty());
    let pump = FramePump::new(
        ControllerEmulatorPacketType::TwentyByte,
        TriggerMode::Normal,
        true,
    );
    assert_eq!(
        pump.update(&ControllerSnapshot::released()),
        FrameUpdate::Transmit(neutral_packet())
    );
}

#[test]
fn handshake_response_decides_mode() {
    assert_eq!(
        communication_mode_from_response(&[0x5A, 0x00, 0x00, 0x55]),
        ControllerEmulatorPacketType::TwentyByte
    );
    assert_eq!(
        communication_mode_from_response(&[b'x']),
        ControllerEmulatorPacketType::SevenByte
    );
    assert_eq!(
        communication_mode_from_response(&[SEVEN_BYTE_ERR_RESPONSE, 0x5A]),
        ControllerEmulatorPacketType::SevenByte
    );
    assert_eq!(
        communication_mode_from_response(&[b'k']),
        ControllerEmulatorPacketType::Undetermined
    );
    assert_eq!(
        communication_mode_from_response(&[0x00, 0x5A]),
        ControllerEmulatorPacketType::Undetermined
    );
    assert_eq!(
        communication_mode_from_response(&[]),
        ControllerEmulatorPacketType::Undetermined
    );
}

fn run_handshake(response: ReadOutcome) -> (Negotiator, NegotiationAction) {
    let mut negotiator = Negotiator::new();
    assert_eq!(negotiator.state, NegotiationState::ClearingStale);
    // Two stale bytes, then the buffer is empty.
    assert_eq!(
        negotiator.step(NegotiationEvent::Read(ReadOutcome::Received(vec![0x12]))),
        NegotiationAction::ReadByte
    );
    assert_eq!(
        negotiator.step(NegotiationEvent::Read(ReadOutcome::Received(vec![0x34]))),
        NegotiationAction::ReadByte
    );
    assert_eq!(
        negotiator.step(NegotiationEvent::Read(ReadOutcome::TimedOut)),
        NegotiationAction::SendProbe(neutral_twenty())
    );
    assert_eq!(negotiator.state, NegotiationState::Probed);
    assert_eq!(
        negotiator.step(NegotiationEvent::Read(response)),
        NegotiationAction::ReadByte
    );
    let action = negotiator.step(NegotiationEvent::Read(ReadOutcome::TimedOut));
    (negotiator, action)
}

#[test]
fn handshake_with_extended_firmware() {
    let (negotiator, action) =
        run_handshake(ReadOutcome::Received(vec![0x5A, 0x00, 0x00, 0x55]));
    assert_eq!(
        action,
        NegotiationAction::Finished(ControllerEmulatorPacketType::TwentyByte)
    );
    assert_eq!(
        negotiator.state,
        NegotiationState::Decided(ControllerEmulatorPacketType::TwentyByte)
    );
}

#[test]
fn handshake_with_minimal_firmware() {
    let (_, action) = run_handshake(ReadOutcome::Received(vec![b'x']));
    assert_eq!(
        action,
        NegotiationAction::Finished(ControllerEmulatorPacketType::SevenByte)
    );
}

#[test]
fn handshake_with_unknown_or_silent_device() {
    let (_, action) = run_handshake(ReadOutcome::Received(vec![b'?', 0x5A]));
    assert_eq!(
        action,
        NegotiationAction::Finished(ControllerEmulatorPacketType::Undetermined)
    );
    let (_, action) = run_handshake(ReadOutcome::TimedOut);
    assert_eq!(
        action,
        NegotiationAction::Finished(ControllerEmulatorPacketType::Undetermined)
    );
    let (_, action) = run_handshake(ReadOutcome::Failed);
    assert_eq!(
        action,
        NegotiationAction::Finished(ControllerEmulatorPacketType::Undetermined)
    );
}

#[test]
fn decided_mode_is_never_renegotiated() {
    let (mut negotiator, _) = run_handshake(ReadOutcome::Received(vec![b'x']));
    let events = vec![
        NegotiationEvent::Read(ReadOutcome::Received(vec![0x5A])),
        NegotiationEvent::Read(ReadOutcome::TimedOut),
        NegotiationEvent::Read(ReadOutcome::Failed),
        NegotiationEvent::WriteFailed,
    ];
    for event in events {
        assert_eq!(
            negotiator.step(event),
            NegotiationAction::Finished(ControllerEmulatorPacketType::SevenByte)
        );
    }
}

#[test]
fn transport_errors_abort_the_handshake() {
    let mut negotiator = Negotiator::new();
    assert_eq!(
        negotiator.step(NegotiationEvent::Read(ReadOutcome::Failed)),
        NegotiationAction::Abort
    );
    assert_eq!(negotiator.state, NegotiationState::Aborted);
    assert_eq!(
        negotiator.step(NegotiationEvent::Read(ReadOutcome::TimedOut)),
        NegotiationAction::Abort
    );

    let mut negotiator = Negotiator::new();
    negotiator.step(NegotiationEvent::Read(ReadOutcome::TimedOut));
    assert_eq!(
        negotiator.step(NegotiationEvent::WriteFailed),
        NegotiationAction::Abort
    );

    let (_, action) = {
        let mut negotiator = Negotiator::new();
        negotiator.step(NegotiationEvent::Read(ReadOutcome::TimedOut));
        negotiator.step(NegotiationEvent::Read(ReadOutcome::Received(vec![0x5A])));
        let action = negotiator.step(NegotiationEvent::Read(ReadOutcome::Failed));
        (negotiator, action)
    };
    assert_eq!(action, NegotiationAction::Abort);
}

#[test]
fn undetermined_mode_only_displays() {
    let pump = FramePump::new(
        ControllerEmulatorPacketType::Undetermined,
        TriggerMode::Normal,
        true,
    );
    assert_eq!(
        pump.update(&ControllerSnapshot::released()),
        FrameUpdate::Display(neutral_twenty())
    );
    assert_eq!(
        pump.feedback(&ReadOutcome::Received(vec![0x5A, 0xFF, 0xFF])),
        Feedback::Quiet
    );
}

#[test]
fn extended_feedback_rumbles() {
    let pump = FramePump::new(
        ControllerEmulatorPacketType::TwentyByte,
        TriggerMode::Normal,
        true,
    );
    assert_eq!(
        pump.feedback(&ReadOutcome::Received(vec![0x5A, 0x01, 0xFF, 0x55])),
        Feedback::Rumble(RumbleCommand {
            low_frequency: 0xFFFF,
            high_frequency: 257,
            duration_ms: RUMBLE_DURATION_MS,
        })
    );
    assert_eq!(
        pump.feedback(&ReadOutcome::Received(vec![0x5A, 0x80, 0x00])),
        Feedback::Rumble(RumbleCommand {
            low_frequency: 0,
            high_frequency: 0x8080,
            duration_ms: 500,
        })
    );
    assert_eq!(
        pump.feedback(&ReadOutcome::Received(vec![0x5A, 0x00, 0x00])),
        Feedback::StopRumble
    );
    assert_eq!(
        pump.feedback(&ReadOutcome::Received(vec![0x5A, 0x10])),
        Feedback::Quiet
    );
    assert_eq!(pump.feedback(&ReadOutcome::Received(vec![])), Feedback::Quiet);
    assert_eq!(pump.feedback(&ReadOutcome::TimedOut), Feedback::Quiet);
    assert_eq!(pump.feedback(&ReadOutcome::Failed), Feedback::Quiet);
}

#[test]
fn minimal_feedback_reports_errors() {
    let pump = FramePump::new(
        ControllerEmulatorPacketType::SevenByte,
        TriggerMode::Normal,
        true,
    );
    assert_eq!(
        pump.feedback(&ReadOutcome::Received(vec![b'k'])),
        Feedback::Quiet
    );
    assert_eq!(
        pump.feedback(&ReadOutcome::Received(vec![b'x'])),
        Feedback::AdapterError
    );
    assert_eq!(
        pump.feedback(&ReadOutcome::Received(vec![0x00, b'k'])),
        Feedback::AdapterError
    );
}

#[test]
fn minimal_silence_is_no_feedback() {
    let pump = FramePump::new(
        ControllerEmulatorPacketType::SevenByte,
        TriggerMode::Normal,
        true,
    );
    assert_eq!(pump.feedback(&ReadOutcome::Received(vec![])), Feedback::Quiet);
    assert_eq!(pump.feedback(&ReadOutcome::TimedOut), Feedback::Quiet);
    assert_eq!(pump.feedback(&ReadOutcome::Failed), Feedback::Quiet);
}

#[test]
fn frame_clock_keeps_cadence() {
    let mut clock = FrameClock::new(FRAME_PERIOD_NS, 1_000);
    assert_eq!(clock.deadline_ns, 1_000 + FRAME_PERIOD_NS);
    assert_eq!(clock.finish_frame(5_000_000), 1_000 + FRAME_PERIOD_NS - 5_000_000);
    assert_eq!(clock.deadline_ns, 1_000 + 2 * FRAME_PERIOD_NS);
    // A frame that overruns its deadline does not sleep and restarts the cadence.
    let late = 1_000 + 3 * FRAME_PERIOD_NS;
    assert_eq!(clock.finish_frame(late), 0);
    assert_eq!(clock.deadline_ns, late + FRAME_PERIOD_NS);
}

#[test]
fn frame_clock_saturates() {
    let mut clock = FrameClock::new(10, u64::MAX - 3);
    assert_eq!(clock.deadline_ns, u64::MAX);
    assert_eq!(clock.finish_frame(u64::MAX - 1), 1);
    assert_eq!(clock.deadline_ns, u64::MAX);
}
