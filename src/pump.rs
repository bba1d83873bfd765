use vstd::prelude::*;

use crate::packet::{
    controller_map_seven_byte, controller_map_twenty_byte, seven_byte_packet, twenty_byte_packet,
    ControllerSnapshot, TriggerMode,
};
use crate::session::{ControllerEmulatorPacketType, ReadOutcome, SEVEN_BYTE_OK_RESPONSE};

verus! {

/// How long one rumble command lasts, in milliseconds.
pub const RUMBLE_DURATION_MS: u32 = 500;

/// The factor that stretches a byte over the range of a `u16`
/// (`u16::MAX / u8::MAX`).
pub const U8_TO_U16_MAGNITUDE: u16 = 257;

/// The most response bytes read after one packet.
pub const RESPONSE_LENGTH: usize = 4;

/// What to do with the packet built for one frame.
#[derive(Debug, PartialEq, Eq)]
pub enum FrameUpdate {
    /// Write it to the transport, then read up to four response bytes.
    Transmit(Vec<u8>),
    /// Only show it: the dialect is unknown, so nothing is sent.
    Display(Vec<u8>),
}

/// A vibration request for the controller.
#[derive(Debug, Clone, Copy, PartialEq, Eq, Structural)]
pub struct RumbleCommand {
    /// Intensity of the large, low-frequency motor.
    pub low_frequency: u16,
    /// Intensity of the small, high-frequency motor.
    pub high_frequency: u16,
    pub duration_ms: u32,
}

/// What a response to one packet asks of the controller or the user.
#[derive(Debug, Clone, Copy, PartialEq, Eq, Structural)]
pub enum Feedback {
    /// Nothing to do.
    Quiet,
    /// Start (or continue) vibrating.
    Rumble(RumbleCommand),
    /// Stop vibrating.
    StopRumble,
    /// The minimal-dialect firmware answered with a failure character; worth
    /// a warning, not an end to the session.
    AdapterError,
}

/// The packet that a dialect sends for a controller state.
pub open spec fn packet_for(
    mode: ControllerEmulatorPacketType,
    c: ControllerSnapshot,
    trigger_mode: TriggerMode,
    normalise: bool,
) -> Seq<u8> {
    match mode {
        ControllerEmulatorPacketType::SevenByte => seven_byte_packet(c, trigger_mode, normalise),
        _ => twenty_byte_packet(c, trigger_mode, normalise),
    }
}

/// A response byte stretched over the range of a motor intensity.
pub open spec fn motor_intensity(byte: u8) -> u16 {
    (byte * 257) as u16
}

/// What the response `response` to a packet asks for in dialect `mode`.
///
/// The extended dialect sends the small motor's intensity in byte 1 and the
/// large motor's in byte 2; both at zero stop the vibration. The minimal
/// dialect acknowledges with `'k'` in byte 0, and any other byte there is a
/// failure. No bytes at all (a timed-out, failed or empty read) means no
/// feedback this frame, which is not an error.
pub open spec fn feedback_for(mode: ControllerEmulatorPacketType, response: Seq<u8>) -> Feedback {
    match mode {
        ControllerEmulatorPacketType::TwentyByte => if response.len() < 3 {
            Feedback::Quiet
        } else if response[1] == 0 && response[2] == 0 {
            Feedback::StopRumble
        } else {
            Feedback::Rumble(
                RumbleCommand {
                    low_frequency: motor_intensity(response[2]),
                    high_frequency: motor_intensity(response[1]),
                    duration_ms: RUMBLE_DURATION_MS,
                },
            )
        },
        ControllerEmulatorPacketType::SevenByte => if response.len() > 0 && response[0]
            != SEVEN_BYTE_OK_RESPONSE {
            Feedback::AdapterError
        } else {
            Feedback::Quiet
        },
        ControllerEmulatorPacketType::Undetermined => Feedback::Quiet,
    }
}

/// The bytes that a read delivered: none when it timed out or failed.
pub open spec fn received_bytes(outcome: ReadOutcome) -> Seq<u8> {
    match outcome {
        ReadOutcome::Received(bytes) => bytes@,
        _ => Seq::empty(),
    }
}

/// The steady-state loop's decisions, fixed for a session once the dialect is known.
pub struct FramePump {
    pub mode: ControllerEmulatorPacketType,
    pub trigger_mode: TriggerMode,
    pub normalise_sticks: bool,
}

impl FramePump {
    pub fn new(
        mode: ControllerEmulatorPacketType,
        trigger_mode: TriggerMode,
        normalise_sticks: bool,
    ) -> (r: FramePump)
        ensures
            r.mode == mode,
            r.trigger_mode == trigger_mode,
            r.normalise_sticks == normalise_sticks,
    {
        FramePump { mode, trigger_mode, normalise_sticks }
    }

    /// The packet for the controller's current state, and whether it is sent.
    pub fn update(&self, controller: &ControllerSnapshot) -> (r: FrameUpdate)
        ensures
            match r {
                FrameUpdate::Transmit(packet) => self.mode
                    != ControllerEmulatorPacketType::Undetermined && packet@ == packet_for(
                    self.mode,
                    *controller,
                    self.trigger_mode,
                    self.normalise_sticks,
                ),
                FrameUpdate::Display(packet) => self.mode
                    == ControllerEmulatorPacketType::Undetermined && packet@ == packet_for(
                    self.mode,
                    *controller,
                    self.trigger_mode,
                    self.normalise_sticks,
                ),
            },
    {
        match self.mode {
            ControllerEmulatorPacketType::Undetermined => FrameUpdate::Display(
                controller_map_twenty_byte(controller, self.trigger_mode, self.normalise_sticks),
            ),
            ControllerEmulatorPacketType::SevenByte => FrameUpdate::Transmit(
                controller_map_seven_byte(controller, self.trigger_mode, self.normalise_sticks),
            ),
            ControllerEmulatorPacketType::TwentyByte => FrameUpdate::Transmit(
                controller_map_twenty_byte(controller, self.trigger_mode, self.normalise_sticks),
            ),
        }
    }

    /// What the response read after a transmitted packet asks for.
    pub fn feedback(&self, outcome: &ReadOutcome) -> (r: Feedback)
        ensures
            r == feedback_for(self.mode, received_bytes(*outcome)),
    {
        let empty: Vec<u8> = Vec::new();
        let response: &Vec<u8> = match outcome {
            ReadOutcome::Received(bytes) => bytes,
            _ => &empty,
        };
        match self.mode {
            ControllerEmulatorPacketType::TwentyByte => {
                if response.len() < 3 {
                    Feedback::Quiet
                } else if response[1] == 0 && response[2] == 0 {
                    Feedback::StopRumble
                } else {
                    Feedback::Rumble(
                        RumbleCommand {
                            low_frequency: response[2] as u16 * U8_TO_U16_MAGNITUDE,
                            high_frequency: response[1] as u16 * U8_TO_U16_MAGNITUDE,
                            duration_ms: RUMBLE_DURATION_MS,
                        },
                    )
                }
            },
            ControllerEmulatorPacketType::SevenByte => {
                if response.len() > 0 && response[0] != SEVEN_BYTE_OK_RESPONSE {
                    Feedback::AdapterError
                } else {
                    Feedback::Quiet
                }
            },
            ControllerEmulatorPacketType::Undetermined => Feedback::Quiet,
        }
    }
}

/// Length of one frame at sixty frames a second, in nanoseconds.
pub const FRAME_PERIOD_NS: u64 = 16_666_667;

/// `a + b`, saturating at `u64::MAX`.
pub open spec fn saturated_sum(a: u64, b: u64) -> u64 {
    if a + b > u64::MAX {
        u64::MAX
    } else {
        (a + b) as u64
    }
}

/// Paces the loop at a fixed cadence on a monotonic clock read in nanoseconds.
pub struct FrameClock {
    pub period_ns: u64,
    /// When the current frame should end.
    pub deadline_ns: u64,
}

impl FrameClock {
    /// A clock whose first frame ends one period after `now_ns`.
    pub fn new(period_ns: u64, now_ns: u64) -> (r: FrameClock)
        ensures
            r.period_ns == period_ns,
            r.deadline_ns == saturated_sum(now_ns, period_ns),
    {
        FrameClock { period_ns, deadline_ns: now_ns.saturating_add(period_ns) }
    }

    /// Ends the current frame at `now_ns` and returns how long to sleep before
    /// the next one starts. The next deadline follows one period after this
    /// one; a frame that overran its deadline sleeps not at all and starts
    /// the cadence again from `now_ns`.
    pub fn finish_frame(&mut self, now_ns: u64) -> (sleep_ns: u64)
        ensures
            final(self).period_ns == old(self).period_ns,
            now_ns < old(self).deadline_ns ==> sleep_ns == old(self).deadline_ns - now_ns
                && final(self).deadline_ns == saturated_sum(
                old(self).deadline_ns,
                old(self).period_ns,
            ),
            now_ns >= old(self).deadline_ns ==> sleep_ns == 0 && final(self).deadline_ns
                == saturated_sum(now_ns, old(self).period_ns),
    {
        if now_ns < self.deadline_ns {
            let sleep_ns = self.deadline_ns - now_ns;
            self.deadline_ns = self.deadline_ns.saturating_add(self.period_ns);
            sleep_ns
        } else {
            self.deadline_ns = now_ns.saturating_add(self.period_ns);
            0
        }
    }
}

} // verus!
