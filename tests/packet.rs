use omnishock::packet::{
    controller_map_seven_byte, controller_map_twenty_byte, Axis, Button, ControllerSnapshot,
    TriggerMode, DUALSHOCK_MAGIC,
};

const LEFT: u8 = 0b1000_0000;
const START: u8 = 0b0000_1000;
const SELECT: u8 = 0b0000_0001;
const SQUARE: u8 = 0b1000_0000;
const CROSS: u8 = 0b0100_0000;
const R2: u8 = 0b0000_0010;
const L2: u8 = 0b0000_0001;

const NEUTRAL_TWENTY: [u8; 20] = [
    DUALSHOCK_MAGIC,
    !0u8,
    !0u8,
    // Analog sticks
    0x80,
    0x80,
    0x80,
    0x80,
    // Pressure values
    0x00,
    0x00,
    0x00,
    0x00,
    0x00,
    0x00,
    0x00,
    0x00,
    0x00,
    0x00,
    0x00,
    0x00,
    // Mode footer
    0x55,
];

const MODES: [TriggerMode; 3] = [
    TriggerMode::Normal,
    TriggerMode::RightStickAsTrigger,
    TriggerMode::CrossSquareAsTrigger,
];

fn busy_controller() -> ControllerSnapshot {
    let mut controller = ControllerSnapshot::released();
    controller.set_button(Button::DPadLeft, true);
    controller.set_button(Button::A, true);
    controller.set_axis(Axis::TriggerLeft, i16::MAX);
    controller.set_axis(Axis::RightX, -24_000);
    controller.set_axis(Axis::RightY, 16_500);
    controller.set_axis(Axis::LeftX, 255);
    controller.set_axis(Axis::LeftY, -4_096);
    controller
}

#[test]
fn controller_map_twenty_byte_works() {
    let controller = ControllerSnapshot::released();

    assert_eq!(
        controller_map_twenty_byte(&controller, TriggerMode::Normal, true),
        NEUTRAL_TWENTY.to_vec()
    );
    assert_eq!(
        controller_map_twenty_byte(&controller, TriggerMode::RightStickAsTrigger, true),
        NEUTRAL_TWENTY.to_vec()
    );
    assert_eq!(
        controller_map_twenty_byte(&controller, TriggerMode::CrossSquareAsTrigger, true),
        NEUTRAL_TWENTY.to_vec()
    );

    // Do some stuff to the controller state, and test again
    let controller = busy_controller();

    assert_eq!(
        controller_map_twenty_byte(&controller, TriggerMode::Normal, true),
        vec![
            DUALSHOCK_MAGIC,
            !LEFT,
            !(CROSS | L2),
            // Analog sticks
            0x18,
            0xC6,
            0x81,
            0x6E,
            // Pressure values
            0x00,
            0xFF,
            0x00,
            0x00,
            0x00,
            0x00,
            0xFF,
            0x00,
            0x00,
            0x00,
            0xFF,
            0x00,
            // Mode footer
            0x55,
        ]
    );

    assert_eq!(
        controller_map_twenty_byte(&controller, TriggerMode::RightStickAsTrigger, true),
        vec![
            DUALSHOCK_MAGIC,
            !LEFT,
            !(CROSS | R2),
            // Analog sticks
            0x18,
            0xFF,
            0x81,
            0x6E,
            // Pressure values
            0x00,
            0xFF,
            0x00,
            0x00,
            0x00,
            0x00,
            0xFF,
            0x00,
            0x00,
            0x00,
            0x00,
            0x80,
            // Mode footer
            0x55,
        ]
    );

    assert_eq!(
        controller_map_twenty_byte(&controller, TriggerMode::CrossSquareAsTrigger, true),
        vec![
            DUALSHOCK_MAGIC,
            !LEFT,
            !(SQUARE | L2),
            // Analog sticks
            0x18,
            0xC6,
            0x81,
            0x6E,
            // Pressure values
            0x00,
            0xFF,
            0x00,
            0x00,
            0x00,
            0x00,
            0x00,
            0xFF,
            0x00,
            0x00,
            0xFF,
            0x00,
            // Mode footer
            0x55,
        ]
    );
}

#[test]
fn controller_map_seven_byte_works() {
    let controller = ControllerSnapshot::released();

    for mode in MODES {
        assert_eq!(
            controller_map_seven_byte(&controller, mode, true),
            vec![DUALSHOCK_MAGIC, !0u8, !0u8, 0x80, 0x80, 0x80, 0x80]
        );
    }

    // Do some stuff to the controller state, and test again
    let controller = busy_controller();

    assert_eq!(
        controller_map_seven_byte(&controller, TriggerMode::Normal, true),
        vec![DUALSHOCK_MAGIC, !LEFT, !(CROSS | L2), 0x18, 0xC6, 0x81, 0x6E]
    );
    assert_eq!(
        controller_map_seven_byte(&controller, TriggerMode::RightStickAsTrigger, true),
        vec![DUALSHOCK_MAGIC, !LEFT, !(CROSS | R2), 0x18, 0xFF, 0x81, 0x6E]
    );
    assert_eq!(
        controller_map_seven_byte(&controller, TriggerMode::CrossSquareAsTrigger, true),
        vec![DUALSHOCK_MAGIC, !LEFT, !(SQUARE | L2), 0x18, 0xC6, 0x81, 0x6E]
    );
}

#[test]
fn seven_byte_packet_is_prefix_of_twenty_byte_packet() {
    let controller = busy_controller();
    for mode in MODES {
        for normalise in [false, true] {
            let twenty = controller_map_twenty_byte(&controller, mode, normalise);
            let seven = controller_map_seven_byte(&controller, mode, normalise);
            assert_eq!(twenty.len(), 20);
            assert_eq!(seven.len(), 7);
            assert_eq!(&twenty[..7], &seven[..]);
        }
    }
}

#[test]
fn building_twice_gives_identical_packets() {
    let controller = busy_controller();
    for mode in MODES {
        assert_eq!(
            controller_map_twenty_byte(&controller, mode, true),
            controller_map_twenty_byte(&controller, mode, true)
        );
        assert_eq!(
            controller_map_seven_byte(&controller, mode, false),
            controller_map_seven_byte(&controller, mode, false)
        );
    }
}

#[test]
fn sticks_without_normalisation_are_raw() {
    let controller = busy_controller();
    let packet = controller_map_twenty_byte(&controller, TriggerMode::Normal, false);
    // -24000 >> 8 = -94, 16500 >> 8 = 64, 255 >> 8 = 0, -4096 >> 8 = -16
    assert_eq!(&packet[3..7], &[0x22, 0xC0, 0x80, 0x70]);
}

#[test]
fn guide_button_sets_mode_byte() {
    let mut controller = ControllerSnapshot::released();
    controller.set_button(Button::Guide, true);
    let packet = controller_map_twenty_byte(&controller, TriggerMode::Normal, true);
    assert_eq!(packet[19], 0xAA);
    assert_eq!(&packet[..19], &NEUTRAL_TWENTY[..19]);
}

#[test]
fn start_and_back_set_first_button_byte() {
    let mut controller = ControllerSnapshot::released();
    controller.set_button(Button::Start, true);
    controller.set_button(Button::Back, true);
    let packet = controller_map_seven_byte(&controller, TriggerMode::Normal, true);
    assert_eq!(packet[1], !(START | SELECT));
    assert_eq!(packet[2], 0xFF);
}

#[test]
fn right_stick_mode_reads_trigger_difference() {
    let mut controller = ControllerSnapshot::released();
    controller.set_axis(Axis::TriggerRight, i16::MAX);
    let packet = controller_map_twenty_byte(&controller, TriggerMode::RightStickAsTrigger, false);
    // 0 - 32767 = -32767, whose top byte is -128
    assert_eq!(packet[4], 0x00);
    // The right stick's own Y axis sits at 0: neither L2 nor R2 is held.
    assert_eq!(packet[2], 0xFF);
}

#[test]
fn snapshot_setters_and_getters() {
    let mut controller = ControllerSnapshot::released();
    assert!(!controller.button(Button::Y));
    controller.set_button(Button::Y, true);
    assert!(controller.button(Button::Y));
    assert!(!controller.button(Button::B));
    controller.set_axis(Axis::LeftY, -7);
    assert_eq!(controller.axis(Axis::LeftY), -7);
    assert_eq!(controller.axis(Axis::LeftX), 0);
}
