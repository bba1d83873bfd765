use vstd::prelude::*;

use crate::codec::{
    clamp_i16, collapse_bits, convert_button_to_analog, convert_for_dualshock,
    convert_half_axis_negative, convert_half_axis_positive, half_axis_negative, half_axis_positive,
    normalise_stick_as_dualshock2, normalised_coordinate, pack_bits, pressed_flags,
    saturating_sub_i16, wire_byte,
};

verus! {

/// The first byte of every packet.
pub const DUALSHOCK_MAGIC: u8 = 0x5A;

/// Mode byte of an extended packet while the guide button is held.
pub const MODE_GUIDE_HELD: u8 = 0xAA;

/// Mode byte of an extended packet otherwise.
pub const MODE_NORMAL: u8 = 0x55;

/// Length of a packet in the minimal dialect.
pub const SEVEN_BYTE_LENGTH: usize = 7;

/// Length of a packet in the extended dialect.
pub const TWENTY_BYTE_LENGTH: usize = 20;

/// The digital inputs of a modern controller.
#[derive(Debug, Clone, Copy, PartialEq, Eq, Structural)]
pub enum Button {
    DPadLeft,
    DPadDown,
    DPadRight,
    DPadUp,
    Start,
    Back,
    LeftStick,
    RightStick,
    A,
    B,
    X,
    Y,
    LeftShoulder,
    RightShoulder,
    Guide,
}

/// The analog inputs of a modern controller.
#[derive(Debug, Clone, Copy, PartialEq, Eq, Structural)]
pub enum Axis {
    LeftX,
    LeftY,
    RightX,
    RightY,
    TriggerLeft,
    TriggerRight,
}

/// Which physical inputs feed the emulated L2, R2, Cross, Square and
/// right-stick Y fields.
#[derive(Debug, Clone, Copy, PartialEq, Eq, Structural)]
pub enum TriggerMode {
    /// Triggers drive L2 and R2.
    Normal,
    /// The right stick's Y axis drives L2 and R2; the triggers drive the
    /// right stick's Y axis.
    RightStickAsTrigger,
    /// The triggers drive Cross and Square; A and X drive L2 and R2.
    CrossSquareAsTrigger,
}

/// The state of one controller at one instant.
///
/// Sticks range over all of `i16`, centred at 0; triggers read `0..=i16::MAX`.
#[derive(Debug, Clone, Copy, PartialEq, Eq, Structural)]
pub struct ControllerSnapshot {
    pub dpad_left: bool,
    pub dpad_down: bool,
    pub dpad_right: bool,
    pub dpad_up: bool,
    pub start: bool,
    pub back: bool,
    pub left_stick: bool,
    pub right_stick: bool,
    pub a: bool,
    pub b: bool,
    pub x: bool,
    pub y: bool,
    pub left_shoulder: bool,
    pub right_shoulder: bool,
    pub guide: bool,
    pub left_x: i16,
    pub left_y: i16,
    pub right_x: i16,
    pub right_y: i16,
    pub trigger_left: i16,
    pub trigger_right: i16,
}

impl ControllerSnapshot {
    /// Whether `button` is held.
    pub open spec fn pressed(&self, button: Button) -> bool {
        match button {
            Button::DPadLeft => self.dpad_left,
            Button::DPadDown => self.dpad_down,
            Button::DPadRight => self.dpad_right,
            Button::DPadUp => self.dpad_up,
            Button::Start => self.start,
            Button::Back => self.back,
            Button::LeftStick => self.left_stick,
            Button::RightStick => self.right_stick,
            Button::A => self.a,
            Button::B => self.b,
            Button::X => self.x,
            Button::Y => self.y,
            Button::LeftShoulder => self.left_shoulder,
            Button::RightShoulder => self.right_shoulder,
            Button::Guide => self.guide,
        }
    }

    /// The position of `axis`.
    pub open spec fn position(&self, axis: Axis) -> i16 {
        match axis {
            Axis::LeftX => self.left_x,
            Axis::LeftY => self.left_y,
            Axis::RightX => self.right_x,
            Axis::RightY => self.right_y,
            Axis::TriggerLeft => self.trigger_left,
            Axis::TriggerRight => self.trigger_right,
        }
    }

    /// A controller with every button released and every axis at 0.
    pub fn released() -> (r: ControllerSnapshot)
        ensures
            forall|b: Button| !r.pressed(b),
            forall|a: Axis| r.position(a) == 0,
    {
        ControllerSnapshot {
            dpad_left: false,
            dpad_down: false,
            dpad_right: false,
            dpad_up: false,
            start: false,
            back: false,
            left_stick: false,
            right_stick: false,
            a: false,
            b: false,
            x: false,
            y: false,
            left_shoulder: false,
            right_shoulder: false,
            guide: false,
            left_x: 0,
            left_y: 0,
            right_x: 0,
            right_y: 0,
            trigger_left: 0,
            trigger_right: 0,
        }
    }

    pub fn button(&self, button: Button) -> (r: bool)
        ensures
            r == self.pressed(button),
    {
        match button {
            Button::DPadLeft => self.dpad_left,
            Button::DPadDown => self.dpad_down,
            Button::DPadRight => self.dpad_right,
            Button::DPadUp => self.dpad_up,
            Button::Start => self.start,
            Button::Back => self.back,
            Button::LeftStick => self.left_stick,
            Button::RightStick => self.right_stick,
            Button::A => self.a,
            Button::B => self.b,
            Button::X => self.x,
            Button::Y => self.y,
            Button::LeftShoulder => self.left_shoulder,
            Button::RightShoulder => self.right_shoulder,
            Button::Guide => self.guide,
        }
    }

    pub fn axis(&self, axis: Axis) -> (r: i16)
        ensures
            r == self.position(axis),
    {
        match axis {
            Axis::LeftX => self.left_x,
            Axis::LeftY => self.left_y,
            Axis::RightX => self.right_x,
            Axis::RightY => self.right_y,
            Axis::TriggerLeft => self.trigger_left,
            Axis::TriggerRight => self.trigger_right,
        }
    }

    /// This state with `button` held or released; nothing else changes.
    pub open spec fn with_button(self, button: Button, value: bool) -> ControllerSnapshot {
        match button {
            Button::DPadLeft => ControllerSnapshot { dpad_left: value, ..self },
            Button::DPadDown => ControllerSnapshot { dpad_down: value, ..self },
            Button::DPadRight => ControllerSnapshot { dpad_right: value, ..self },
            Button::DPadUp => ControllerSnapshot { dpad_up: value, ..self },
            Button::Start => ControllerSnapshot { start: value, ..self },
            Button::Back => ControllerSnapshot { back: value, ..self },
            Button::LeftStick => ControllerSnapshot { left_stick: value, ..self },
            Button::RightStick => ControllerSnapshot { right_stick: value, ..self },
            Button::A => ControllerSnapshot { a: value, ..self },
            Button::B => ControllerSnapshot { b: value, ..self },
            Button::X => ControllerSnapshot { x: value, ..self },
            Button::Y => ControllerSnapshot { y: value, ..self },
            Button::LeftShoulder => ControllerSnapshot { left_shoulder: value, ..self },
            Button::RightShoulder => ControllerSnapshot { right_shoulder: value, ..self },
            Button::Guide => ControllerSnapshot { guide: value, ..self },
        }
    }

    /// This state with `axis` moved to `value`; nothing else changes.
    pub open spec fn with_axis(self, axis: Axis, value: i16) -> ControllerSnapshot {
        match axis {
            Axis::LeftX => ControllerSnapshot { left_x: value, ..self },
            Axis::LeftY => ControllerSnapshot { left_y: value, ..self },
            Axis::RightX => ControllerSnapshot { right_x: value, ..self },
            Axis::RightY => ControllerSnapshot { right_y: value, ..self },
            Axis::TriggerLeft => ControllerSnapshot { trigger_left: value, ..self },
            Axis::TriggerRight => ControllerSnapshot { trigger_right: value, ..self },
        }
    }

    /// Holds or releases `button`.
    pub fn set_button(&mut self, button: Button, value: bool)
        ensures
            *final(self) == old(self).with_button(button, value),
            final(self).pressed(button) == value,
    {
        match button {
            Button::DPadLeft => {
                *self = ControllerSnapshot { dpad_left: value, ..*self };
            },
            Button::DPadDown => {
                *self = ControllerSnapshot { dpad_down: value, ..*self };
            },
            Button::DPadRight => {
                *self = ControllerSnapshot { dpad_right: value, ..*self };
            },
            Button::DPadUp => {
                *self = ControllerSnapshot { dpad_up: value, ..*self };
            },
            Button::Start => {
                *self = ControllerSnapshot { start: value, ..*self };
            },
            Button::Back => {
                *self = ControllerSnapshot { back: value, ..*self };
            },
            Button::LeftStick => {
                *self = ControllerSnapshot { left_stick: value, ..*self };
            },
            Button::RightStick => {
                *self = ControllerSnapshot { right_stick: value, ..*self };
            },
            Button::A => {
                *self = ControllerSnapshot { a: value, ..*self };
            },
            Button::B => {
                *self = ControllerSnapshot { b: value, ..*self };
            },
            Button::X => {
                *self = ControllerSnapshot { x: value, ..*self };
            },
            Button::Y => {
                *self = ControllerSnapshot { y: value, ..*self };
            },
            Button::LeftShoulder => {
                *self = ControllerSnapshot { left_shoulder: value, ..*self };
            },
            Button::RightShoulder => {
                *self = ControllerSnapshot { right_shoulder: value, ..*self };
            },
            Button::Guide => {
                *self = ControllerSnapshot { guide: value, ..*self };
            },
        }
    }

    /// Moves `axis` to `value`.
    pub fn set_axis(&mut self, axis: Axis, value: i16)
        ensures
            *final(self) == old(self).with_axis(axis, value),
            final(self).position(axis) == value,
    {
        match axis {
            Axis::LeftX => {
                *self = ControllerSnapshot { left_x: value, ..*self };
            },
            Axis::LeftY => {
                *self = ControllerSnapshot { left_y: value, ..*self };
            },
            Axis::RightX => {
                *self = ControllerSnapshot { right_x: value, ..*self };
            },
            Axis::RightY => {
                *self = ControllerSnapshot { right_y: value, ..*self };
            },
            Axis::TriggerLeft => {
                *self = ControllerSnapshot { trigger_left: value, ..*self };
            },
            Axis::TriggerRight => {
                *self = ControllerSnapshot { trigger_right: value, ..*self };
            },
        }
    }
}

/// The analog level of a digital button: `i16::MAX` held, `i16::MIN` released.
pub open spec fn digital_level(held: bool) -> i16 {
    if held {
        i16::MAX
    } else {
        i16::MIN
    }
}

/// The level sent as L2.
pub open spec fn l2_level(c: ControllerSnapshot, mode: TriggerMode) -> i16 {
    match mode {
        TriggerMode::Normal => half_axis_positive(c.trigger_left as int) as i16,
        TriggerMode::RightStickAsTrigger => half_axis_negative(c.right_y as int) as i16,
        TriggerMode::CrossSquareAsTrigger => digital_level(c.a),
    }
}

/// The level sent as R2.
pub open spec fn r2_level(c: ControllerSnapshot, mode: TriggerMode) -> i16 {
    match mode {
        TriggerMode::Normal => half_axis_positive(c.trigger_right as int) as i16,
        TriggerMode::RightStickAsTrigger => half_axis_positive(c.right_y as int) as i16,
        TriggerMode::CrossSquareAsTrigger => digital_level(c.x),
    }
}

/// The level sent as Cross.
pub open spec fn cross_level(c: ControllerSnapshot, mode: TriggerMode) -> i16 {
    match mode {
        TriggerMode::CrossSquareAsTrigger => half_axis_positive(c.trigger_right as int) as i16,
        _ => digital_level(c.a),
    }
}

/// The level sent as Square.
pub open spec fn square_level(c: ControllerSnapshot, mode: TriggerMode) -> i16 {
    match mode {
        TriggerMode::CrossSquareAsTrigger => half_axis_positive(c.trigger_left as int) as i16,
        _ => digital_level(c.x),
    }
}

/// The right stick's Y axis before normalisation. With the triggers driving
/// it, it is their difference, which is exact while both triggers stay in
/// `0..=i16::MAX` and saturates otherwise.
pub open spec fn right_y_source(c: ControllerSnapshot, mode: TriggerMode) -> i16 {
    match mode {
        TriggerMode::RightStickAsTrigger => clamp_i16(c.trigger_left - c.trigger_right) as i16,
        _ => c.right_y,
    }
}

/// A stick coordinate as sent, with or without normalisation.
pub open spec fn stick_level(v: i16, normalise: bool) -> i16 {
    if normalise {
        normalised_coordinate(v as int) as i16
    } else {
        v
    }
}

/// The levels packed into the first button byte, most significant bit first:
/// left, down, right, up, start, R3, L3, select.
pub open spec fn buttons1_levels(c: ControllerSnapshot) -> Seq<i16> {
    seq![
        digital_level(c.dpad_left),
        digital_level(c.dpad_down),
        digital_level(c.dpad_right),
        digital_level(c.dpad_up),
        digital_level(c.start),
        digital_level(c.right_stick),
        digital_level(c.left_stick),
        digital_level(c.back),
    ]
}

/// The levels packed into the second button byte, most significant bit first:
/// square, cross, circle, triangle, R1, L1, R2, L2.
pub open spec fn buttons2_levels(c: ControllerSnapshot, mode: TriggerMode) -> Seq<i16> {
    seq![
        square_level(c, mode),
        cross_level(c, mode),
        digital_level(c.b),
        digital_level(c.y),
        digital_level(c.right_shoulder),
        digital_level(c.left_shoulder),
        r2_level(c, mode),
        l2_level(c, mode),
    ]
}

/// A button byte: the packed pressed bits, inverted, since the protocol
/// sends 0 for a held button.
pub open spec fn button_byte(levels: Seq<i16>) -> u8 {
    (255 - pack_bits(pressed_flags(levels))) as u8
}

/// The wire byte of a level.
pub open spec fn wire(v: i16) -> u8 {
    wire_byte(v as int) as u8
}

/// The four stick bytes: right X, right Y, left X, left Y.
pub open spec fn stick_bytes(c: ControllerSnapshot, mode: TriggerMode, normalise: bool) -> Seq<u8> {
    seq![
        wire(stick_level(c.right_x, normalise)),
        wire(stick_level(right_y_source(c, mode), normalise)),
        wire(stick_level(c.left_x, normalise)),
        wire(stick_level(c.left_y, normalise)),
    ]
}

/// The twelve pressure bytes: right, left, up, down, triangle, circle, cross,
/// square, L1, R1, L2, R2.
pub open spec fn pressure_bytes(c: ControllerSnapshot, mode: TriggerMode) -> Seq<u8> {
    seq![
        wire(digital_level(c.dpad_right)),
        wire(digital_level(c.dpad_left)),
        wire(digital_level(c.dpad_up)),
        wire(digital_level(c.dpad_down)),
        wire(digital_level(c.y)),
        wire(digital_level(c.b)),
        wire(cross_level(c, mode)),
        wire(square_level(c, mode)),
        wire(digital_level(c.left_shoulder)),
        wire(digital_level(c.right_shoulder)),
        wire(l2_level(c, mode)),
        wire(r2_level(c, mode)),
    ]
}

/// The closing mode byte of an extended packet.
pub open spec fn mode_byte(c: ControllerSnapshot) -> u8 {
    if c.guide {
        MODE_GUIDE_HELD
    } else {
        MODE_NORMAL
    }
}

/// The extended packet for a controller state: magic byte, two button bytes,
/// four stick bytes, twelve pressure bytes and the mode byte.
pub open spec fn twenty_byte_packet(c: ControllerSnapshot, mode: TriggerMode, normalise: bool) -> Seq<u8> {
    seq![DUALSHOCK_MAGIC, button_byte(buttons1_levels(c)), button_byte(buttons2_levels(c, mode))]
        + stick_bytes(c, mode, normalise) + pressure_bytes(c, mode) + seq![mode_byte(c)]
}

/// The minimal packet: the first seven bytes of the extended one.
pub open spec fn seven_byte_packet(c: ControllerSnapshot, mode: TriggerMode, normalise: bool) -> Seq<u8> {
    twenty_byte_packet(c, mode, normalise).take(SEVEN_BYTE_LENGTH as int)
}

/// Packs eight levels into an inverted button byte.
fn button_byte_of(levels: Vec<i16>) -> (r: u8)
    requires
        levels@.len() == 8,
    ensures
        r == button_byte(levels@),
{
    match collapse_bits(levels.as_slice()) {
        Ok(bits) => {
            let inverted = !bits;
            assert(inverted == 255u8 - bits) by (bit_vector)
                requires
                    inverted == !bits,
            ;
            inverted
        },
        Err(_) => 0,
    }
}

/// The analog level of a button of `c`.
fn button_level(c: &ControllerSnapshot, button: Button) -> (r: i16)
    ensures
        r == digital_level(c.pressed(button)),
{
    convert_button_to_analog(c.button(button))
}

/// The levels sent as Square, Cross, R2 and L2 under `trigger_mode`.
fn trigger_levels(c: &ControllerSnapshot, trigger_mode: TriggerMode) -> (r: (i16, i16, i16, i16))
    ensures
        r.0 == square_level(*c, trigger_mode),
        r.1 == cross_level(*c, trigger_mode),
        r.2 == r2_level(*c, trigger_mode),
        r.3 == l2_level(*c, trigger_mode),
{
    match trigger_mode {
        TriggerMode::Normal => (
            button_level(c, Button::X),
            button_level(c, Button::A),
            convert_half_axis_positive(c.axis(Axis::TriggerRight)),
            convert_half_axis_positive(c.axis(Axis::TriggerLeft)),
        ),
        TriggerMode::RightStickAsTrigger => (
            button_level(c, Button::X),
            button_level(c, Button::A),
            convert_half_axis_positive(c.axis(Axis::RightY)),
            convert_half_axis_negative(c.axis(Axis::RightY)),
        ),
        TriggerMode::CrossSquareAsTrigger => (
            convert_half_axis_positive(c.axis(Axis::TriggerLeft)),
            convert_half_axis_positive(c.axis(Axis::TriggerRight)),
            button_level(c, Button::X),
            button_level(c, Button::A),
        ),
    }
}

/// The four stick bytes of a packet.
fn stick_bytes_of(c: &ControllerSnapshot, trigger_mode: TriggerMode, normalise_sticks: bool) -> (r:
    Vec<u8>)
    ensures
        r@ == stick_bytes(*c, trigger_mode, normalise_sticks),
{
    let mut right_stick_x_value: i16 = c.axis(Axis::RightX);
    let mut right_stick_y_value: i16 = match trigger_mode {
        // Both triggers share one axis, so only one can be read at a time.
        TriggerMode::RightStickAsTrigger => saturating_sub_i16(
            c.axis(Axis::TriggerLeft),
            c.axis(Axis::TriggerRight),
        ),
        _ => c.axis(Axis::RightY),
    };
    let mut left_stick_x_value: i16 = c.axis(Axis::LeftX);
    let mut left_stick_y_value: i16 = c.axis(Axis::LeftY);
    if normalise_sticks {
        normalise_stick_as_dualshock2(&mut right_stick_x_value, &mut right_stick_y_value);
        normalise_stick_as_dualshock2(&mut left_stick_x_value, &mut left_stick_y_value);
    }
    let bytes = vec![
        convert_for_dualshock(right_stick_x_value),
        convert_for_dualshock(right_stick_y_value),
        convert_for_dualshock(left_stick_x_value),
        convert_for_dualshock(left_stick_y_value),
    ];
    assert(bytes@ =~= stick_bytes(*c, trigger_mode, normalise_sticks));
    bytes
}

/// The twelve pressure bytes of a packet, given the levels that the trigger
/// mode chose for Square, Cross, R2 and L2.
fn pressure_bytes_of(
    c: &ControllerSnapshot,
    trigger_mode: TriggerMode,
    levels: (i16, i16, i16, i16),
) -> (r: Vec<u8>)
    requires
        levels.0 == square_level(*c, trigger_mode),
        levels.1 == cross_level(*c, trigger_mode),
        levels.2 == r2_level(*c, trigger_mode),
        levels.3 == l2_level(*c, trigger_mode),
    ensures
        r@ == pressure_bytes(*c, trigger_mode),
{
    let (square_value, cross_value, r2_button_value, l2_button_value) = levels;
    let bytes = vec![
        convert_for_dualshock(button_level(c, Button::DPadRight)),
        convert_for_dualshock(button_level(c, Button::DPadLeft)),
        convert_for_dualshock(button_level(c, Button::DPadUp)),
        convert_for_dualshock(button_level(c, Button::DPadDown)),
        convert_for_dualshock(button_level(c, Button::Y)),
        convert_for_dualshock(button_level(c, Button::B)),
        convert_for_dualshock(cross_value),
        convert_for_dualshock(square_value),
        convert_for_dualshock(button_level(c, Button::LeftShoulder)),
        convert_for_dualshock(button_level(c, Button::RightShoulder)),
        convert_for_dualshock(l2_button_value),
        convert_for_dualshock(r2_button_value),
    ];
    assert(bytes@ =~= pressure_bytes(*c, trigger_mode));
    bytes
}

/// The two button bytes of a packet, given the levels that the trigger mode
/// chose for Square, Cross, R2 and L2.
fn button_bytes_of(
    c: &ControllerSnapshot,
    trigger_mode: TriggerMode,
    levels: (i16, i16, i16, i16),
) -> (r: (u8, u8))
    requires
        levels.0 == square_level(*c, trigger_mode),
        levels.1 == cross_level(*c, trigger_mode),
        levels.2 == r2_level(*c, trigger_mode),
        levels.3 == l2_level(*c, trigger_mode),
    ensures
        r.0 == button_byte(buttons1_levels(*c)),
        r.1 == button_byte(buttons2_levels(*c, trigger_mode)),
{
    let (square_value, cross_value, r2_button_value, l2_button_value) = levels;
    let levels1 = vec![
        button_level(c, Button::DPadLeft),
        button_level(c, Button::DPadDown),
        button_level(c, Button::DPadRight),
        button_level(c, Button::DPadUp),
        button_level(c, Button::Start),
        button_level(c, Button::RightStick),
        button_level(c, Button::LeftStick),
        button_level(c, Button::Back),
    ];
    assert(levels1@ =~= buttons1_levels(*c));
    let levels2 = vec![
        square_value,
        cross_value,
        button_level(c, Button::B),
        button_level(c, Button::Y),
        button_level(c, Button::RightShoulder),
        button_level(c, Button::LeftShoulder),
        r2_button_value,
        l2_button_value,
    ];
    assert(levels2@ =~= buttons2_levels(*c, trigger_mode));
    (button_byte_of(levels1), button_byte_of(levels2))
}

/// Builds the twenty-byte packet of the extended dialect.
pub fn controller_map_twenty_byte(
    controller: &ControllerSnapshot,
    trigger_mode: TriggerMode,
    normalise_sticks: bool,
) -> (r: Vec<u8>)
    ensures
        r@ == twenty_byte_packet(*controller, trigger_mode, normalise_sticks),
{
    let levels = trigger_levels(controller, trigger_mode);
    let (buttons1, buttons2) = button_bytes_of(controller, trigger_mode, levels);
    let mut packet = vec![DUALSHOCK_MAGIC, buttons1, buttons2];
    let mut sticks = stick_bytes_of(controller, trigger_mode, normalise_sticks);
    let mut pressures = pressure_bytes_of(controller, trigger_mode, levels);
    packet.append(&mut sticks);
    packet.append(&mut pressures);
    let mode_footer: u8 = if controller.button(Button::Guide) {
        MODE_GUIDE_HELD
    } else {
        MODE_NORMAL
    };
    packet.push(mode_footer);
    packet
}

/// Builds the seven-byte packet of the minimal dialect, as the extended packet
/// cut after its stick bytes.
pub fn controller_map_seven_byte(
    controller: &ControllerSnapshot,
    trigger_mode: TriggerMode,
    normalise_sticks: bool,
) -> (r: Vec<u8>)
    ensures
        r@ == seven_byte_packet(*controller, trigger_mode, normalise_sticks),
{
    let mut map = controller_map_twenty_byte(controller, trigger_mode, normalise_sticks);
    map.truncate(SEVEN_BYTE_LENGTH);
    map
}

/// An extended packet is twenty bytes long, a minimal one seven, and the
/// minimal packet is the extended packet's first seven bytes.
pub proof fn lemma_seven_byte_is_prefix(c: ControllerSnapshot, mode: TriggerMode, normalise: bool)
    ensures
        twenty_byte_packet(c, mode, normalise).len() == TWENTY_BYTE_LENGTH,
        seven_byte_packet(c, mode, normalise).len() == SEVEN_BYTE_LENGTH,
        forall|i: int|
            0 <= i < SEVEN_BYTE_LENGTH ==> #[trigger] seven_byte_packet(c, mode, normalise)[i]
                == twenty_byte_packet(c, mode, normalise)[i],
{
}

/// Building a packet is deterministic: the same controller state, trigger
/// mode and normalisation flag always give byte-identical packets.
pub proof fn lemma_packet_is_deterministic(
    c1: ControllerSnapshot,
    c2: ControllerSnapshot,
    mode: TriggerMode,
    normalise: bool,
)
    requires
        c1 == c2,
    ensures
        twenty_byte_packet(c1, mode, normalise) == twenty_byte_packet(c2, mode, normalise),
        seven_byte_packet(c1, mode, normalise) == seven_byte_packet(c2, mode, normalise),
{
}

} // verus!
