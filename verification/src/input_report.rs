//! Decoding of DualSense input and feature reports, and the per-device cache
//! of the latest decoded input.
use vstd::prelude::*;
use std::collections::HashMap;
use crate::crc::{ds_crc, ds_crc_prefix, le_value, read_u32_at};
use crate::dualsense::FirmwareInfo;
use crate::model::{BatteryStatus, Button, GamepadState, MotionState, StickState, TouchPoint};
use crate::text::{push_char, push_hex_fixed, spec_hex_fixed};

verus! {

broadcast use vstd::std_specs::hash::group_hash_axioms;

pub const DS_USB_INPUT_REPORT_ID: u8 = 0x01;
pub const DS_USB_INPUT_REPORT_LEN: usize = 64;
pub const DS_BT_INPUT_REPORT_ID: u8 = 0x31;
pub const DS_BT_INPUT_REPORT_LEN: usize = 78;
pub const DS_BT_INPUT_CRC_SEED: u8 = 0xa1;
pub const DS_FEATURE_REPORT_PAIRING_INFO: u8 = 0x09;
pub const DS_FEATURE_REPORT_PAIRING_INFO_LEN: usize = 20;
pub const DS_FEATURE_REPORT_FIRMWARE_INFO: u8 = 0x20;
pub const DS_FEATURE_REPORT_FIRMWARE_INFO_LEN: usize = 64;

pub const OFFSET_INPUT_LEFT_X: usize = 0;
pub const OFFSET_INPUT_LEFT_Y: usize = 1;
pub const OFFSET_INPUT_RIGHT_X: usize = 2;
pub const OFFSET_INPUT_RIGHT_Y: usize = 3;
pub const OFFSET_INPUT_LEFT_TRIGGER: usize = 4;
pub const OFFSET_INPUT_RIGHT_TRIGGER: usize = 5;
pub const OFFSET_INPUT_SEQUENCE: usize = 6;
pub const OFFSET_INPUT_BUTTONS0: usize = 7;
pub const OFFSET_INPUT_BUTTONS1: usize = 8;
pub const OFFSET_INPUT_BUTTONS2: usize = 9;
pub const OFFSET_INPUT_GYRO: usize = 15;
pub const OFFSET_INPUT_ACCEL: usize = 21;
pub const OFFSET_INPUT_SENSOR_TIMESTAMP: usize = 27;
pub const OFFSET_INPUT_TOUCH_0: usize = 32;
pub const OFFSET_INPUT_TOUCH_1: usize = 36;
pub const OFFSET_INPUT_BATTERY: usize = 52;
pub const OFFSET_INPUT_STATUS1: usize = 53;

/// The battery level and charging state of the battery status byte: the high
/// nibble is the state, the low nibble the level in tenths.
pub open spec fn spec_battery_status(status0: u8) -> (Option<u8>, BatteryStatus) {
    let level = status0 % 16;
    let state = status0 / 16;
    let percent = if level * 10 + 5 > 100 { 100u8 } else { (level * 10 + 5) as u8 };
    if state == 0 {
        (Some(percent), BatteryStatus::Discharging)
    } else if state == 1 {
        (Some(percent), BatteryStatus::Charging)
    } else if state == 2 {
        (Some(100u8), BatteryStatus::Full)
    } else if state == 0xa || state == 0xb {
        (Some(0u8), BatteryStatus::Error)
    } else {
        (None, BatteryStatus::Unknown)
    }
}

pub fn parse_battery_status(status0: u8) -> (r: (Option<u8>, BatteryStatus))
    ensures
        r == spec_battery_status(status0),
{
    let level = status0 % 16;
    let percent: u8 = if level * 10 + 5 > 100 { 100 } else { level * 10 + 5 };
    match status0 / 16 {
        0x0 => (Some(percent), BatteryStatus::Discharging),
        0x1 => (Some(percent), BatteryStatus::Charging),
        0x2 => (Some(100), BatteryStatus::Full),
        0xa | 0xb => (Some(0), BatteryStatus::Error),
        _ => (None, BatteryStatus::Unknown),
    }
}

/// The touch contact at `offset`: absent when the high bit of its first byte
/// is set or the report is too short; otherwise a 7-bit id and 12-bit
/// coordinates packed across three bytes.
pub open spec fn spec_touch_point(report: Seq<u8>, offset: int) -> Option<TouchPoint> {
    if offset < 0 || offset >= report.len() || report[offset] >= 128 || offset + 3 >= report.len() {
        None
    } else {
        Some(
            TouchPoint {
                contact_id: report[offset] % 128,
                x: (report[offset + 1] + (report[offset + 2] % 16) * 256) as u16,
                y: (report[offset + 2] / 16 + report[offset + 3] * 16) as u16,
            },
        )
    }
}

pub fn parse_touch_point(report: &[u8], offset: usize) -> (r: Option<TouchPoint>)
    ensures
        r == spec_touch_point(report@, offset as int),
{
    if offset >= report.len() {
        return None;
    }
    let contact = report[offset];
    if contact >= 128 {
        return None;
    }
    if report.len() <= 3 || offset >= report.len() - 3 {
        return None;
    }
    let x_low = report[offset + 1];
    let packed = report[offset + 2];
    let y_high = report[offset + 3];
    Some(
        TouchPoint {
            contact_id: contact % 128,
            x: x_low as u16 + (packed % 16) as u16 * 256,
            y: (packed / 16) as u16 + y_high as u16 * 16,
        },
    )
}

/// The signed 16-bit value of two bytes, least significant first.
pub open spec fn spec_i16_at(report: Seq<u8>, offset: int) -> i16 {
    let v = report[offset] + 256 * report[offset + 1];
    (if v >= 32768 { v - 65536 } else { v }) as i16
}

/// The unsigned 16-bit value of two bytes, least significant first.
pub open spec fn spec_u16_at(report: Seq<u8>, offset: int) -> u16 {
    (report[offset] + 256 * report[offset + 1]) as u16
}

/// The unsigned 32-bit value of four bytes, least significant first.
pub open spec fn spec_u32_at(report: Seq<u8>, offset: int) -> u32 {
    le_value(report.subrange(offset, offset + 4)) as u32
}

pub fn read_i16_le(report: &[u8], offset: usize) -> (r: Option<i16>)
    requires
        offset <= usize::MAX - 2,
    ensures
        offset + 2 <= report@.len() ==> r == Some(spec_i16_at(report@, offset as int)),
        offset + 2 > report@.len() ==> r is None,
{
    if offset + 2 > report.len() {
        return None;
    }
    let v: u32 = report[offset] as u32 + 256 * (report[offset + 1] as u32);
    if v >= 32768 {
        Some((v as i32 - 65536) as i16)
    } else {
        Some(v as i16)
    }
}

pub fn read_u16_le(report: &[u8], offset: usize) -> (r: Option<u16>)
    requires
        offset <= usize::MAX - 2,
    ensures
        offset + 2 <= report@.len() ==> r == Some(spec_u16_at(report@, offset as int)),
        offset + 2 > report@.len() ==> r is None,
{
    if offset + 2 > report.len() {
        return None;
    }
    Some(report[offset] as u16 + 256 * (report[offset + 1] as u16))
}

pub fn read_u32_le(report: &[u8], offset: usize) -> (r: Option<u32>)
    requires
        offset <= usize::MAX - 4,
    ensures
        offset + 4 <= report@.len() ==> r == Some(spec_u32_at(report@, offset as int)),
        offset + 4 > report@.len() ==> r is None,
{
    if offset + 4 > report.len() {
        return None;
    }
    Some(read_u32_at(report, offset))
}

/// The checksum verdict of a full Bluetooth input report: none unless the
/// report is a 78-byte Bluetooth report with a non-zero stored checksum,
/// otherwise whether the stored checksum matches the bytes before it.
pub open spec fn spec_bluetooth_input_crc_valid(report: Seq<u8>) -> Option<bool> {
    if report.len() != 78 || report[0] != DS_BT_INPUT_REPORT_ID || spec_u32_at(report, 74) == 0 {
        None
    } else {
        Some(ds_crc(DS_BT_INPUT_CRC_SEED, report.subrange(0, 74)) == spec_u32_at(report, 74))
    }
}

pub fn bluetooth_input_crc_valid(report: &[u8]) -> (r: Option<bool>)
    ensures
        r == spec_bluetooth_input_crc_valid(report@),
{
    if report.len() != DS_BT_INPUT_REPORT_LEN || report[0] != DS_BT_INPUT_REPORT_ID {
        return None;
    }
    let expected = read_u32_at(report, 74);
    if expected == 0 {
        return None;
    }
    let crc = ds_crc_prefix(DS_BT_INPUT_CRC_SEED, report, 74);
    Some(crc == expected)
}

/// The directions held for a hat-switch value: 0 up, then clockwise in
/// eighths; 8 and above mean released.
pub open spec fn spec_dpad_buttons(value: u8) -> Seq<Button> {
    if value == 0 {
        seq![Button::DpadUp]
    } else if value == 1 {
        seq![Button::DpadUp, Button::DpadRight]
    } else if value == 2 {
        seq![Button::DpadRight]
    } else if value == 3 {
        seq![Button::DpadDown, Button::DpadRight]
    } else if value == 4 {
        seq![Button::DpadDown]
    } else if value == 5 {
        seq![Button::DpadDown, Button::DpadLeft]
    } else if value == 6 {
        seq![Button::DpadLeft]
    } else if value == 7 {
        seq![Button::DpadUp, Button::DpadLeft]
    } else {
        Seq::empty()
    }
}

/// The hat switch reads as a compass: value `v` below 8 points `v` eighths of
/// a clockwise turn from up. Up is held for the three values pointing
/// upwards (7, 0, 1), right for the three pointing right (1, 2, 3), down for
/// 3, 4, 5 and left for 5, 6, 7; each direction is reported at most once,
/// and 8 and above report nothing.
pub proof fn lemma_dpad_is_a_compass(value: u8)
    ensures
        spec_dpad_buttons(value).contains(Button::DpadUp) <==> (value == 7 || value == 0 || value == 1),
        spec_dpad_buttons(value).contains(Button::DpadRight) <==> (1 <= value <= 3),
        spec_dpad_buttons(value).contains(Button::DpadDown) <==> (3 <= value <= 5),
        spec_dpad_buttons(value).contains(Button::DpadLeft) <==> (5 <= value <= 7),
        spec_dpad_buttons(value).no_duplicates(),
        forall|i: int|
            0 <= i < spec_dpad_buttons(value).len() ==> {
                let b = #[trigger] spec_dpad_buttons(value)[i];
                b == Button::DpadUp || b == Button::DpadRight || b == Button::DpadDown || b == Button::DpadLeft
            },
{
    let d = spec_dpad_buttons(value);
    assert forall|x: Button| d.contains(x) <==> ((d.len() >= 1 && d[0] == x) || (d.len() >= 2 && d[1] == x)) by {
        if d.contains(x) {
            let i = choose|i: int| 0 <= i < d.len() && d[i] == x;
            assert(d.len() <= 2);
        }
        if d.len() >= 1 && d[0] == x {
            assert(d[0] == x);
        }
        if d.len() >= 2 && d[1] == x {
            assert(d[1] == x);
        }
    }
    assert(Button::DpadUp != Button::DpadRight && Button::DpadUp != Button::DpadDown && Button::DpadUp
        != Button::DpadLeft && Button::DpadRight != Button::DpadDown && Button::DpadRight
        != Button::DpadLeft && Button::DpadDown != Button::DpadLeft);
}

/// `button` when `bit` is set in `mask`, nothing otherwise.
pub open spec fn if_pressed(mask: u8, bit: u8, button: Button) -> Seq<Button> {
    if mask & bit != 0 {
        seq![button]
    } else {
        Seq::empty()
    }
}

/// The pressed buttons of the three button bytes, in report order: the
/// hat switch, face buttons, shoulders, sticks and system buttons, and on a
/// DualSense Edge the Fn buttons and rear paddles.
pub open spec fn spec_pressed_buttons(b0: u8, b1: u8, b2: u8, is_edge: bool) -> Seq<Button> {
    let base = spec_dpad_buttons(b0 % 16) + if_pressed(b0, 0x10, Button::Square) + if_pressed(
        b0,
        0x20,
        Button::Cross,
    ) + if_pressed(b0, 0x40, Button::Circle) + if_pressed(b0, 0x80, Button::Triangle)
        + if_pressed(b1, 0x01, Button::L1) + if_pressed(b1, 0x02, Button::R1) + if_pressed(
        b1,
        0x04,
        Button::L2,
    ) + if_pressed(b1, 0x08, Button::R2) + if_pressed(b1, 0x10, Button::Create) + if_pressed(
        b1,
        0x20,
        Button::Options,
    ) + if_pressed(b1, 0x40, Button::L3) + if_pressed(b1, 0x80, Button::R3) + if_pressed(
        b2,
        0x01,
        Button::Ps,
    ) + if_pressed(b2, 0x02, Button::Touchpad) + if_pressed(b2, 0x04, Button::Mute);
    if is_edge {
        base + if_pressed(b2, 0x10, Button::Fn1) + if_pressed(b2, 0x20, Button::Fn2) + if_pressed(
            b2,
            0x40,
            Button::LeftPaddle,
        ) + if_pressed(b2, 0x80, Button::RightPaddle)
    } else {
        base
    }
}

pub fn push_if_pressed(mask: u8, bit: u8, button: Button, buttons: &mut Vec<Button>)
    ensures
        final(buttons)@ == old(buttons)@ + if_pressed(mask, bit, button),
{
    if mask & bit != 0 {
        buttons.push(button);
    }
    assert(buttons@ =~= old(buttons)@ + if_pressed(mask, bit, button));
}

pub fn push_dpad_buttons(value: u8, buttons: &mut Vec<Button>)
    ensures
        final(buttons)@ == old(buttons)@ + spec_dpad_buttons(value),
{
    match value {
        0 => buttons.push(Button::DpadUp),
        1 => {
            buttons.push(Button::DpadUp);
            buttons.push(Button::DpadRight);
        },
        2 => buttons.push(Button::DpadRight),
        3 => {
            buttons.push(Button::DpadDown);
            buttons.push(Button::DpadRight);
        },
        4 => buttons.push(Button::DpadDown),
        5 => {
            buttons.push(Button::DpadDown);
            buttons.push(Button::DpadLeft);
        },
        6 => buttons.push(Button::DpadLeft),
        7 => {
            buttons.push(Button::DpadUp);
            buttons.push(Button::DpadLeft);
        },
        _ => {},
    }
    assert(buttons@ =~= old(buttons)@ + spec_dpad_buttons(value));
}

fn pressed_buttons(b0: u8, b1: u8, b2: u8, is_edge: bool) -> (buttons: Vec<Button>)
    ensures
        buttons@ == spec_pressed_buttons(b0, b1, b2, is_edge),
{
    let mut buttons: Vec<Button> = Vec::new();
    push_dpad_buttons(b0 % 16, &mut buttons);
    assert(buttons@ =~= spec_dpad_buttons(b0 % 16));
    push_if_pressed(b0, 0x10, Button::Square, &mut buttons);
    push_if_pressed(b0, 0x20, Button::Cross, &mut buttons);
    push_if_pressed(b0, 0x40, Button::Circle, &mut buttons);
    push_if_pressed(b0, 0x80, Button::Triangle, &mut buttons);
    push_if_pressed(b1, 0x01, Button::L1, &mut buttons);
    push_if_pressed(b1, 0x02, Button::R1, &mut buttons);
    push_if_pressed(b1, 0x04, Button::L2, &mut buttons);
    push_if_pressed(b1, 0x08, Button::R2, &mut buttons);
    push_if_pressed(b1, 0x10, Button::Create, &mut buttons);
    push_if_pressed(b1, 0x20, Button::Options, &mut buttons);
    push_if_pressed(b1, 0x40, Button::L3, &mut buttons);
    push_if_pressed(b1, 0x80, Button::R3, &mut buttons);
    push_if_pressed(b2, 0x01, Button::Ps, &mut buttons);
    push_if_pressed(b2, 0x02, Button::Touchpad, &mut buttons);
    push_if_pressed(b2, 0x04, Button::Mute, &mut buttons);
    if is_edge {
        push_if_pressed(b2, 0x10, Button::Fn1, &mut buttons);
        push_if_pressed(b2, 0x20, Button::Fn2, &mut buttons);
        push_if_pressed(b2, 0x40, Button::LeftPaddle, &mut buttons);
        push_if_pressed(b2, 0x80, Button::RightPaddle, &mut buttons);
    }
    buttons
}

/// Where the input fields of a full report start: after the report ID on
/// USB, after the report ID and one more byte on Bluetooth; none when the
/// report ID is unknown or the report too short.
pub open spec fn input_common_offset(report: Seq<u8>) -> Option<int> {
    if report.len() == 0 {
        None
    } else if report[0] == DS_USB_INPUT_REPORT_ID && report.len() >= 64 {
        Some(1)
    } else if report[0] == DS_BT_INPUT_REPORT_ID && report.len() >= 78 {
        Some(2)
    } else {
        None
    }
}

/// `s` holds what the input fields of `report` at `off` say.
pub open spec fn decodes_to(s: GamepadState, report: Seq<u8>, off: int, is_edge: bool) -> bool {
    let status1 = report[off + 53];
    &&& s.left_stick == (StickState { x: report[off], y: report[off + 1] })
    &&& s.right_stick == (StickState { x: report[off + 2], y: report[off + 3] })
    &&& s.left_trigger == report[off + 4]
    &&& s.right_trigger == report[off + 5]
    &&& s.report_sequence == report[off + 6]
    &&& s.buttons@ == spec_pressed_buttons(report[off + 7], report[off + 8], report[off + 9], is_edge)
    &&& (s.battery_percent, s.battery_status) == spec_battery_status(report[off + 52])
    &&& s.headset_connected == (status1 & 1 != 0)
    &&& s.microphone_connected == (status1 & 2 != 0)
    &&& s.microphone_muted == (status1 & 4 != 0)
    &&& s.touch_points@ == seq![spec_touch_point(report, off + 32), spec_touch_point(report, off + 36)]
    &&& s.motion.gyro@ == seq![
        spec_i16_at(report, off + 15),
        spec_i16_at(report, off + 17),
        spec_i16_at(report, off + 19),
    ]
    &&& s.motion.accel@ == seq![
        spec_i16_at(report, off + 21),
        spec_i16_at(report, off + 23),
        spec_i16_at(report, off + 25),
    ]
    &&& s.motion.sensor_timestamp == spec_u32_at(report, off + 27)
    &&& s.bluetooth_crc_valid == spec_bluetooth_input_crc_valid(report)
    &&& s.packet_count == 0
}

/// Decodes a full input report, report ID first.
pub fn parse_full_input_report(report: &[u8], is_edge: bool) -> (r: Option<GamepadState>)
    ensures
        r is Some <==> input_common_offset(report@) is Some,
        r matches Some(s) ==> decodes_to(s, report@, input_common_offset(report@)->0, is_edge),
{
    if report.len() == 0 {
        return None;
    }
    let off: usize = if report[0] == DS_USB_INPUT_REPORT_ID && report.len() >= DS_USB_INPUT_REPORT_LEN {
        1
    } else if report[0] == DS_BT_INPUT_REPORT_ID && report.len() >= DS_BT_INPUT_REPORT_LEN {
        2
    } else {
        return None;
    };
    let buttons = pressed_buttons(
        report[off + OFFSET_INPUT_BUTTONS0],
        report[off + OFFSET_INPUT_BUTTONS1],
        report[off + OFFSET_INPUT_BUTTONS2],
        is_edge,
    );
    let status0 = report[off + OFFSET_INPUT_BATTERY];
    let status1 = report[off + OFFSET_INPUT_STATUS1];
    let (battery_percent, battery_status) = parse_battery_status(status0);
    let g0 = match read_i16_le(report, off + OFFSET_INPUT_GYRO) { Some(v) => v, None => return None };
    let g1 = match read_i16_le(report, off + OFFSET_INPUT_GYRO + 2) { Some(v) => v, None => return None };
    let g2 = match read_i16_le(report, off + OFFSET_INPUT_GYRO + 4) { Some(v) => v, None => return None };
    let a0 = match read_i16_le(report, off + OFFSET_INPUT_ACCEL) { Some(v) => v, None => return None };
    let a1 = match read_i16_le(report, off + OFFSET_INPUT_ACCEL + 2) { Some(v) => v, None => return None };
    let a2 = match read_i16_le(report, off + OFFSET_INPUT_ACCEL + 4) { Some(v) => v, None => return None };
    let timestamp = match read_u32_le(report, off + OFFSET_INPUT_SENSOR_TIMESTAMP) {
        Some(v) => v,
        None => return None,
    };
    let state = GamepadState {
        left_stick: StickState::new(report[off + OFFSET_INPUT_LEFT_X], report[off + OFFSET_INPUT_LEFT_Y]),
        right_stick: StickState::new(
            report[off + OFFSET_INPUT_RIGHT_X],
            report[off + OFFSET_INPUT_RIGHT_Y],
        ),
        left_trigger: report[off + OFFSET_INPUT_LEFT_TRIGGER],
        right_trigger: report[off + OFFSET_INPUT_RIGHT_TRIGGER],
        buttons,
        battery_percent,
        battery_status,
        headset_connected: status1 & 1 != 0,
        microphone_connected: status1 & 2 != 0,
        microphone_muted: status1 & 4 != 0,
        touch_points: [
            parse_touch_point(report, off + OFFSET_INPUT_TOUCH_0),
            parse_touch_point(report, off + OFFSET_INPUT_TOUCH_1),
        ],
        motion: MotionState { gyro: [g0, g1, g2], accel: [a0, a1, a2], sensor_timestamp: timestamp },
        report_sequence: report[off + OFFSET_INPUT_SEQUENCE],
        bluetooth_crc_valid: bluetooth_input_crc_valid(report),
        packet_count: 0,
    };
    assert(state.touch_points@ =~= seq![
        spec_touch_point(report@, off + 32),
        spec_touch_point(report@, off + 36),
    ]);
    assert(state.motion.gyro@ =~= seq![
        spec_i16_at(report@, off + 15),
        spec_i16_at(report@, off + 17),
        spec_i16_at(report@, off + 19),
    ]);
    assert(state.motion.accel@ =~= seq![
        spec_i16_at(report@, off + 21),
        spec_i16_at(report@, off + 23),
        spec_i16_at(report@, off + 25),
    ]);
    Some(state)
}

/// The full report an input callback stands for: the bytes as given when
/// they already start with the report ID and are long enough, otherwise the
/// report ID followed by the bytes. Unknown report IDs give nothing.
pub open spec fn effective_input_report(report_id: u8, report: Seq<u8>) -> Option<Seq<u8>> {
    let full_len: int = if report_id == DS_USB_INPUT_REPORT_ID { 64 } else { 78 };
    if report_id != DS_USB_INPUT_REPORT_ID && report_id != DS_BT_INPUT_REPORT_ID {
        None
    } else if report.len() >= full_len && report[0] == report_id {
        Some(report)
    } else {
        Some(seq![report_id] + report)
    }
}

/// Decodes the input report that arrived with `report_id`.
pub fn parse_input_report(report_id: u8, report: &[u8], is_edge: bool) -> (r: Option<GamepadState>)
    ensures
        r is Some <==> (effective_input_report(report_id, report@) matches Some(full)
            && input_common_offset(full) is Some),
        r matches Some(s) ==> decodes_to(
            s,
            effective_input_report(report_id, report@)->0,
            input_common_offset(effective_input_report(report_id, report@)->0)->0,
            is_edge,
        ),
{
    let expected_full_len: usize = if report_id == DS_USB_INPUT_REPORT_ID {
        DS_USB_INPUT_REPORT_LEN
    } else if report_id == DS_BT_INPUT_REPORT_ID {
        DS_BT_INPUT_REPORT_LEN
    } else {
        return None;
    };
    if report.len() >= expected_full_len && report[0] == report_id {
        parse_full_input_report(report, is_edge)
    } else {
        let mut full_report: Vec<u8> = Vec::new();
        full_report.push(report_id);
        let mut i: usize = 0;
        while i < report.len()
            invariant
                i <= report@.len(),
                full_report@ == seq![report_id] + report@.subrange(0, i as int),
            decreases report@.len() - i,
        {
            full_report.push(report[i]);
            assert(full_report@ =~= seq![report_id] + report@.subrange(0, i + 1));
            i = i + 1;
        }
        assert(full_report@ =~= seq![report_id] + report@);
        parse_full_input_report(full_report.as_slice(), is_edge)
    }
}

/// The versions in a firmware feature report, read 24, 28 and 44 bytes in
/// (one byte earlier when the report ID is missing); none when too short.
pub open spec fn spec_firmware_info(report: Seq<u8>) -> Option<FirmwareInfo> {
    let w: int = if report.len() < 64 || report[0] != DS_FEATURE_REPORT_FIRMWARE_INFO { 1 } else { 0 };
    if report.len() < 46 - w {
        None
    } else {
        Some(
            FirmwareInfo {
                hardware_version: spec_u32_at(report, 24 - w),
                firmware_version: spec_u32_at(report, 28 - w),
                feature_version: spec_u16_at(report, 44 - w),
            },
        )
    }
}

pub fn parse_firmware_info(report: &[u8]) -> (r: Option<FirmwareInfo>)
    ensures
        r == spec_firmware_info(report@),
{
    let w: usize = if report.len() < DS_FEATURE_REPORT_FIRMWARE_INFO_LEN || report[0]
        != DS_FEATURE_REPORT_FIRMWARE_INFO {
        1
    } else {
        0
    };
    let hardware_version = match read_u32_le(report, 24 - w) {
        Some(v) => v,
        None => return None,
    };
    let firmware_version = match read_u32_le(report, 28 - w) {
        Some(v) => v,
        None => return None,
    };
    let feature_version = match read_u16_le(report, 44 - w) {
        Some(v) => v,
        None => return None,
    };
    Some(FirmwareInfo { hardware_version, firmware_version, feature_version })
}

/// Six bytes as a MAC address: last byte first, two lower-case hex digits
/// each, separated by colons.
pub open spec fn spec_mac_text(b: Seq<u8>) -> Seq<char> {
    spec_hex_fixed(b[5] as nat, 2) + seq![':'] + spec_hex_fixed(b[4] as nat, 2) + seq![':']
        + spec_hex_fixed(b[3] as nat, 2) + seq![':'] + spec_hex_fixed(b[2] as nat, 2) + seq![':']
        + spec_hex_fixed(b[1] as nat, 2) + seq![':'] + spec_hex_fixed(b[0] as nat, 2)
}

/// The controller MAC address of a pairing feature report, found one byte in
/// (at the start when the report ID is missing); none when too short.
pub open spec fn spec_pairing_mac(report: Seq<u8>) -> Option<Seq<char>> {
    let start: int = if report.len() < 20 || report[0] != DS_FEATURE_REPORT_PAIRING_INFO { 0 } else { 1 };
    if report.len() < start + 6 {
        None
    } else {
        Some(spec_mac_text(report.subrange(start, start + 6)))
    }
}

pub fn parse_pairing_mac_address(report: &[u8]) -> (r: Option<String>)
    ensures
        r is Some <==> spec_pairing_mac(report@) is Some,
        r matches Some(s) ==> s@ == spec_pairing_mac(report@)->0,
{
    let start: usize = if report.len() < DS_FEATURE_REPORT_PAIRING_INFO_LEN || report[0]
        != DS_FEATURE_REPORT_PAIRING_INFO {
        0
    } else {
        1
    };
    if report.len() < start + 6 {
        return None;
    }
    let mut s = String::new();
    push_hex_fixed(&mut s, report[start + 5] as u64, 2);
    push_char(&mut s, ':');
    push_hex_fixed(&mut s, report[start + 4] as u64, 2);
    push_char(&mut s, ':');
    push_hex_fixed(&mut s, report[start + 3] as u64, 2);
    push_char(&mut s, ':');
    push_hex_fixed(&mut s, report[start + 2] as u64, 2);
    push_char(&mut s, ':');
    push_hex_fixed(&mut s, report[start + 1] as u64, 2);
    push_char(&mut s, ':');
    push_hex_fixed(&mut s, report[start] as u64, 2);
    assert(s@ =~= spec_pairing_mac(report@)->0);
    Some(s)
}

/// Set by hot-plug notifications, consumed by the main loop.
pub struct DeviceChangeState {
    pub changed: bool,
}

impl Default for DeviceChangeState {
    fn default() -> (s: Self)
        ensures
            !s.changed,
    {
        DeviceChangeState { changed: false }
    }
}

impl DeviceChangeState {
    pub fn mark_changed(&mut self)
        ensures
            final(self).changed,
    {
        self.changed = true;
    }

    /// Whether a change was marked since the last call; clears the mark.
    pub fn take(&mut self) -> (r: bool)
        ensures
            r == old(self).changed,
            !final(self).changed,
    {
        let r = self.changed;
        self.changed = false;
        r
    }
}

/// The cache entry of one registered device.
pub struct InputReportSlot {
    pub is_edge: bool,
    pub latest_state: Option<GamepadState>,
    pub packet_count: u64,
}

/// The latest decoded input per registered device.
pub struct InputReportState {
    pub reports: HashMap<usize, InputReportSlot>,
}

impl Default for InputReportState {
    fn default() -> (s: Self)
        ensures
            s.reports@ == Map::<usize, InputReportSlot>::empty(),
    {
        InputReportState { reports: HashMap::new() }
    }
}

impl InputReportState {
    /// Forgets every device.
    pub fn clear(&mut self)
        ensures
            final(self).reports@ == Map::<usize, InputReportSlot>::empty(),
    {
        self.reports.clear();
    }

    /// Starts (or restarts) the cache of one device, empty.
    pub fn register(&mut self, device_key: usize, is_edge: bool)
        ensures
            final(self).reports@.dom() == old(self).reports@.dom().insert(device_key),
            forall|k: usize| k != device_key && old(self).reports@.contains_key(k)
                ==> #[trigger] final(self).reports@[k] == old(self).reports@[k],
            final(self).reports@[device_key].is_edge == is_edge,
            final(self).reports@[device_key].latest_state is None,
            final(self).reports@[device_key].packet_count == 0,
    {
        self.reports.insert(device_key, InputReportSlot { is_edge, latest_state: None, packet_count: 0 });
    }

    /// Decodes a report for a registered device and keeps it as that device's
    /// latest state, counting it; reports of unknown devices or that do not
    /// decode change nothing.
    pub fn record(&mut self, device_key: usize, report_id: u8, report: &[u8])
        ensures
            !old(self).reports@.contains_key(device_key) ==> final(self).reports@ == old(self).reports@,
            old(self).reports@.contains_key(device_key) && !(effective_input_report(report_id, report@) matches Some(full)
                && input_common_offset(full) is Some) ==> final(self).reports@ == old(self).reports@,
            old(self).reports@.contains_key(device_key) && (effective_input_report(report_id, report@) matches Some(full)
                && input_common_offset(full) is Some) ==> {
                let old_slot = old(self).reports@[device_key];
                let slot = final(self).reports@[device_key];
                let full = effective_input_report(report_id, report@)->0;
                &&& final(self).reports@.dom() == old(self).reports@.dom()
                &&& forall|k: usize| k != device_key && old(self).reports@.contains_key(k)
                    ==> #[trigger] final(self).reports@[k] == old(self).reports@[k]
                &&& slot.is_edge == old_slot.is_edge
                &&& slot.packet_count == (old_slot.packet_count as int + 1) % 0x1_0000_0000_0000_0000
                &&& slot.latest_state matches Some(s) && s.packet_count == slot.packet_count
                    && decodes_to(
                    GamepadState { packet_count: 0, ..s },
                    full,
                    input_common_offset(full)->0,
                    old_slot.is_edge,
                )
            },
    {
        let (is_edge, count) = match self.reports.get(&device_key) {
            Some(slot) => (slot.is_edge, slot.packet_count),
            None => return,
        };
        let mut state = match parse_input_report(report_id, report, is_edge) {
            Some(state) => state,
            None => return,
        };
        let next = count.wrapping_add(1);
        state.packet_count = next;
        self.reports.insert(device_key, InputReportSlot { is_edge, latest_state: Some(state), packet_count: next });
    }

    /// A copy of the latest decoded state of a device, if any.
    pub fn latest_for(&self, device_key: usize) -> (r: Option<GamepadState>)
        ensures
            !self.reports@.contains_key(device_key) ==> r is None,
            self.reports@.contains_key(device_key) ==> match (r, self.reports@[device_key].latest_state) {
                (Some(a), Some(b)) => a.same_as(&b),
                (None, None) => true,
                _ => false,
            },
    {
        match self.reports.get(&device_key) {
            Some(slot) => match &slot.latest_state {
                Some(state) => Some(state.duplicate()),
                None => None,
            },
            None => None,
        }
    }
}

} // verus!
