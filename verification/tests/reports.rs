use dualsense_tui::crc::crc32_le;
use dualsense_tui::dualsense::{AdaptiveTriggerEffect, FirmwareInfo, HapticOutput};
use dualsense_tui::input_report::{
    parse_firmware_info, parse_input_report, parse_pairing_mac_address, DeviceChangeState,
    InputReportState, DS_BT_INPUT_CRC_SEED, DS_BT_INPUT_REPORT_ID, DS_BT_INPUT_REPORT_LEN,
    DS_FEATURE_REPORT_FIRMWARE_INFO, DS_FEATURE_REPORT_FIRMWARE_INFO_LEN,
    DS_FEATURE_REPORT_PAIRING_INFO, DS_FEATURE_REPORT_PAIRING_INFO_LEN, DS_USB_INPUT_REPORT_ID,
    DS_USB_INPUT_REPORT_LEN, OFFSET_INPUT_ACCEL, OFFSET_INPUT_BATTERY, OFFSET_INPUT_BUTTONS0,
    OFFSET_INPUT_BUTTONS1, OFFSET_INPUT_BUTTONS2, OFFSET_INPUT_GYRO, OFFSET_INPUT_LEFT_TRIGGER,
    OFFSET_INPUT_LEFT_X, OFFSET_INPUT_LEFT_Y, OFFSET_INPUT_RIGHT_TRIGGER, OFFSET_INPUT_RIGHT_X,
    OFFSET_INPUT_RIGHT_Y, OFFSET_INPUT_SENSOR_TIMESTAMP, OFFSET_INPUT_SEQUENCE,
    OFFSET_INPUT_STATUS1, OFFSET_INPUT_TOUCH_0, OFFSET_INPUT_TOUCH_1,
};
use dualsense_tui::model::{
    AudioRoute, BatteryStatus, Button, PlayerIndicator, Rgb, StickState, TouchPoint,
};
use dualsense_tui::output_report::{
    apply_system_controls, build_output_report, output_common_offset, LightbarSetup,
    TransportKind, DS_BT_CRC_SEED, DS_BT_OUTPUT_REPORT_ID, DS_BT_OUTPUT_REPORT_LEN,
    DS_BT_OUTPUT_TAG, DS_OUTPUT_AUDIO_ROUTE_SPEAKER, DS_OUTPUT_LIGHTBAR_SETUP_LIGHT_OUT,
    DS_OUTPUT_POWER_SAVE_CONTROL_MIC_MUTE, DS_OUTPUT_VALID_FLAG0_AUDIO_CONTROL_ENABLE,
    DS_OUTPUT_VALID_FLAG0_COMPATIBLE_VIBRATION, DS_OUTPUT_VALID_FLAG0_HAPTICS_SELECT,
    DS_OUTPUT_VALID_FLAG0_LEFT_TRIGGER_EFFECT, DS_OUTPUT_VALID_FLAG0_MIC_VOLUME_ENABLE,
    DS_OUTPUT_VALID_FLAG0_RIGHT_TRIGGER_EFFECT, DS_OUTPUT_VALID_FLAG0_SPEAKER_VOLUME_ENABLE,
    DS_OUTPUT_VALID_FLAG1_LIGHTBAR_CONTROL_ENABLE,
    DS_OUTPUT_VALID_FLAG1_PLAYER_INDICATOR_CONTROL_ENABLE,
    DS_OUTPUT_VALID_FLAG2_COMPATIBLE_VIBRATION2, DS_OUTPUT_VALID_FLAG2_LIGHTBAR_SETUP_CONTROL_ENABLE,
    DS_USB_OUTPUT_REPORT_ID, DS_USB_OUTPUT_REPORT_LEN, OFFSET_AUDIO_CONTROL,
    OFFSET_LEFT_TRIGGER_EFFECT, OFFSET_LIGHTBAR_BLUE, OFFSET_LIGHTBAR_GREEN, OFFSET_LIGHTBAR_RED,
    OFFSET_LIGHTBAR_SETUP, OFFSET_MIC_VOLUME, OFFSET_MOTOR_LEFT, OFFSET_MOTOR_RIGHT,
    OFFSET_MUTE_BUTTON_LED, OFFSET_PLAYER_LEDS, OFFSET_POWER_SAVE_CONTROL,
    OFFSET_RIGHT_TRIGGER_EFFECT, OFFSET_SPEAKER_VOLUME, OFFSET_VALID_FLAG0, OFFSET_VALID_FLAG1,
    OFFSET_VALID_FLAG2,
};
use dualsense_tui::profile::SystemProfile;

#[test]
fn device_change_notification_is_consumed_once() {
    let mut state = DeviceChangeState::default();

    assert!(!state.take());
    state.mark_changed();
    state.mark_changed();
    assert!(state.take());
    assert!(!state.take());
}

#[test]
fn usb_lightbar_report_uses_common_dualsense_layout() {
    let report = build_output_report(
        TransportKind::Usb,
        0,
        Some(Rgb::new(10, 20, 30)),
        None,
        LightbarSetup::Keep,
        None,
    );

    assert_eq!(report.len(), DS_USB_OUTPUT_REPORT_LEN);
    assert_eq!(report[0], DS_USB_OUTPUT_REPORT_ID);
    assert_eq!(
        report[1 + OFFSET_VALID_FLAG1] & DS_OUTPUT_VALID_FLAG1_LIGHTBAR_CONTROL_ENABLE,
        DS_OUTPUT_VALID_FLAG1_LIGHTBAR_CONTROL_ENABLE
    );
    assert_eq!(report[1 + OFFSET_LIGHTBAR_RED], 10);
    assert_eq!(report[1 + OFFSET_LIGHTBAR_GREEN], 20);
    assert_eq!(report[1 + OFFSET_LIGHTBAR_BLUE], 30);
    assert_eq!(
        report[1 + OFFSET_VALID_FLAG2] & DS_OUTPUT_VALID_FLAG2_LIGHTBAR_SETUP_CONTROL_ENABLE,
        0
    );
}

#[test]
fn usb_lightbar_setup_report_disables_startup_animation() {
    let report = build_output_report(
        TransportKind::Usb,
        0,
        None,
        None,
        LightbarSetup::EnableLightOut,
        None,
    );

    assert_eq!(
        report[1 + OFFSET_VALID_FLAG2] & DS_OUTPUT_VALID_FLAG2_LIGHTBAR_SETUP_CONTROL_ENABLE,
        DS_OUTPUT_VALID_FLAG2_LIGHTBAR_SETUP_CONTROL_ENABLE
    );
    assert_eq!(
        report[1 + OFFSET_LIGHTBAR_SETUP],
        DS_OUTPUT_LIGHTBAR_SETUP_LIGHT_OUT
    );
}

#[test]
fn bluetooth_report_sets_sequence_tag_and_crc() {
    let report = build_output_report(
        TransportKind::Bluetooth,
        7,
        Some(Rgb::new(1, 2, 3)),
        Some((4, 5, true)),
        LightbarSetup::Keep,
        None,
    );

    assert_eq!(report.len(), DS_BT_OUTPUT_REPORT_LEN);
    assert_eq!(report[0], DS_BT_OUTPUT_REPORT_ID);
    assert_eq!(report[1], 0x70);
    assert_eq!(report[2], DS_BT_OUTPUT_TAG);
    assert_ne!(&report[DS_BT_OUTPUT_REPORT_LEN - 4..], &[0, 0, 0, 0]);

    let crc_start = report.len() - 4;
    let mut crc = crc32_le(0xffff_ffff, &[DS_BT_CRC_SEED]);
    crc = !crc32_le(crc, &report[..crc_start]);
    assert_eq!(&report[crc_start..], crc.to_le_bytes().as_slice());
}

#[test]
fn audio_haptics_use_vibration_v2_flag() {
    let report = build_output_report(
        TransportKind::Usb,
        0,
        None,
        Some((17, 17, true)),
        LightbarSetup::Keep,
        None,
    );

    assert_eq!(
        report[1 + OFFSET_VALID_FLAG0] & DS_OUTPUT_VALID_FLAG0_HAPTICS_SELECT,
        DS_OUTPUT_VALID_FLAG0_HAPTICS_SELECT
    );
    assert_eq!(
        report[1 + OFFSET_VALID_FLAG2] & DS_OUTPUT_VALID_FLAG2_COMPATIBLE_VIBRATION2,
        DS_OUTPUT_VALID_FLAG2_COMPATIBLE_VIBRATION2
    );
    assert_eq!(report[1 + OFFSET_MOTOR_LEFT], 17);
    assert_eq!(report[1 + OFFSET_MOTOR_RIGHT], 17);
}

#[test]
fn haptics_reports_mirror_legacy_channel_values_for_every_transport() {
    let requested = HapticOutput::new(0x12, 0xe7);
    let expected = requested.symmetrized();

    for (transport, common_offset) in [(TransportKind::Usb, 1), (TransportKind::Bluetooth, 3)] {
        for audio_haptics in [false, true] {
            let report = build_output_report(
                transport,
                0,
                None,
                Some((requested.heavy, requested.sharp, audio_haptics)),
                LightbarSetup::Keep,
                None,
            );

            assert_eq!(report[common_offset + OFFSET_MOTOR_LEFT], expected.heavy);
            assert_eq!(report[common_offset + OFFSET_MOTOR_RIGHT], expected.sharp);
            assert_eq!(
                report[common_offset + OFFSET_MOTOR_LEFT],
                report[common_offset + OFFSET_MOTOR_RIGHT]
            );
            if audio_haptics {
                assert_ne!(
                    report[common_offset + OFFSET_VALID_FLAG2]
                        & DS_OUTPUT_VALID_FLAG2_COMPATIBLE_VIBRATION2,
                    0
                );
            } else {
                assert_ne!(
                    report[common_offset + OFFSET_VALID_FLAG0]
                        & DS_OUTPUT_VALID_FLAG0_COMPATIBLE_VIBRATION,
                    0
                );
            }
        }
    }
}

#[test]
fn adaptive_trigger_report_sets_both_trigger_effect_blocks() {
    let left = AdaptiveTriggerEffect::from_bytes([0x21, 0x04, 0x80, 0, 0, 0, 0, 0, 0, 0, 0]);
    let right = AdaptiveTriggerEffect::from_bytes([0x26, 0x02, 0x70, 0x18, 0, 0, 0, 0, 0, 0, 0]);
    let report = build_output_report(
        TransportKind::Usb,
        0,
        None,
        None,
        LightbarSetup::Keep,
        Some((left, right)),
    );

    assert_eq!(
        report[1 + OFFSET_VALID_FLAG0] & DS_OUTPUT_VALID_FLAG0_LEFT_TRIGGER_EFFECT,
        DS_OUTPUT_VALID_FLAG0_LEFT_TRIGGER_EFFECT
    );
    assert_eq!(
        report[1 + OFFSET_VALID_FLAG0] & DS_OUTPUT_VALID_FLAG0_RIGHT_TRIGGER_EFFECT,
        DS_OUTPUT_VALID_FLAG0_RIGHT_TRIGGER_EFFECT
    );
    assert_eq!(
        &report[1 + OFFSET_LEFT_TRIGGER_EFFECT..1 + OFFSET_LEFT_TRIGGER_EFFECT + 11],
        left.bytes.as_slice()
    );
    assert_eq!(
        &report[1 + OFFSET_RIGHT_TRIGGER_EFFECT..1 + OFFSET_RIGHT_TRIGGER_EFFECT + 11],
        right.bytes.as_slice()
    );
}

#[test]
fn usb_input_report_parses_buttons_sticks_and_battery() {
    let mut report = vec![0; DS_USB_INPUT_REPORT_LEN];
    let common = 1;
    report[0] = DS_USB_INPUT_REPORT_ID;
    report[common + OFFSET_INPUT_LEFT_X] = 10;
    report[common + OFFSET_INPUT_LEFT_Y] = 20;
    report[common + OFFSET_INPUT_RIGHT_X] = 30;
    report[common + OFFSET_INPUT_RIGHT_Y] = 40;
    report[common + OFFSET_INPUT_LEFT_TRIGGER] = 50;
    report[common + OFFSET_INPUT_RIGHT_TRIGGER] = 60;
    report[common + OFFSET_INPUT_BUTTONS0] = 8 | (1 << 5);
    report[common + OFFSET_INPUT_BUTTONS1] = (1 << 0) | (1 << 7);
    report[common + OFFSET_INPUT_BUTTONS2] = 1 << 2;
    report[common + OFFSET_INPUT_BATTERY] = 7;

    let state = parse_input_report(DS_USB_INPUT_REPORT_ID, &report, false).unwrap();

    assert_eq!(state.left_stick, StickState::new(10, 20));
    assert_eq!(state.right_stick, StickState::new(30, 40));
    assert_eq!(state.left_trigger, 50);
    assert_eq!(state.right_trigger, 60);
    assert!(state.is_pressed(Button::Cross));
    assert!(state.is_pressed(Button::L1));
    assert!(state.is_pressed(Button::R3));
    assert!(state.is_pressed(Button::Mute));
    assert!(!state.is_pressed(Button::DpadUp));
    assert_eq!(state.battery_percent, Some(75));
    assert_eq!(state.battery_status, BatteryStatus::Discharging);
}

#[test]
fn bluetooth_input_report_parses_when_callback_omits_report_id() {
    let mut report = [0; DS_BT_INPUT_REPORT_LEN];
    let common = 2;
    report[0] = DS_BT_INPUT_REPORT_ID;
    report[1] = 0x40;
    report[common + OFFSET_INPUT_BUTTONS0] = 1 | (1 << 7);
    report[common + OFFSET_INPUT_BUTTONS1] = 1 << 5;

    let state = parse_input_report(DS_BT_INPUT_REPORT_ID, &report[1..], false).unwrap();

    assert!(state.is_pressed(Button::DpadUp));
    assert!(state.is_pressed(Button::DpadRight));
    assert!(state.is_pressed(Button::Triangle));
    assert!(state.is_pressed(Button::Options));
}

#[test]
fn manager_input_state_caches_callback_reports() {
    let mut input_state = InputReportState::default();
    let device_key = 42;
    input_state.register(device_key, false);

    let mut report = [0; DS_USB_INPUT_REPORT_LEN - 1];
    report[OFFSET_INPUT_LEFT_X] = 17;
    input_state.record(device_key, DS_USB_INPUT_REPORT_ID, &report);
    input_state.record(device_key, DS_USB_INPUT_REPORT_ID, &report);

    let state = input_state.latest_for(device_key).unwrap();
    assert_eq!(state.left_stick.x, 17);
    assert_eq!(state.packet_count, 2);
}

#[test]
fn payload_starting_with_report_id_is_not_mistaken_for_a_full_report() {
    let mut report = [0; DS_USB_INPUT_REPORT_LEN];
    let common = 1;
    report[0] = DS_USB_INPUT_REPORT_ID;
    report[common + OFFSET_INPUT_LEFT_X] = DS_USB_INPUT_REPORT_ID;
    report[common + OFFSET_INPUT_RIGHT_X] = 99;

    let state = parse_input_report(DS_USB_INPUT_REPORT_ID, &report[1..], false).unwrap();

    assert_eq!(state.left_stick.x, DS_USB_INPUT_REPORT_ID);
    assert_eq!(state.right_stick.x, 99);
}

#[test]
fn extended_input_report_parses_touch_motion_status_and_edge_buttons() {
    let mut report = [0; DS_USB_INPUT_REPORT_LEN];
    let common = 1;
    report[0] = DS_USB_INPUT_REPORT_ID;
    report[common + OFFSET_INPUT_BUTTONS2] = 0b1111_0000;
    report[common + OFFSET_INPUT_BATTERY] = 0x19;
    report[common + OFFSET_INPUT_STATUS1] = 0b0000_0111;
    report[common + OFFSET_INPUT_SEQUENCE] = 42;

    report[common + OFFSET_INPUT_GYRO..common + OFFSET_INPUT_GYRO + 2]
        .copy_from_slice(&(-120i16).to_le_bytes());
    report[common + OFFSET_INPUT_GYRO + 2..common + OFFSET_INPUT_GYRO + 4]
        .copy_from_slice(&(240i16).to_le_bytes());
    report[common + OFFSET_INPUT_GYRO + 4..common + OFFSET_INPUT_GYRO + 6]
        .copy_from_slice(&(360i16).to_le_bytes());
    report[common + OFFSET_INPUT_ACCEL..common + OFFSET_INPUT_ACCEL + 2]
        .copy_from_slice(&(8192i16).to_le_bytes());
    report[common + OFFSET_INPUT_ACCEL + 2..common + OFFSET_INPUT_ACCEL + 4]
        .copy_from_slice(&(-8192i16).to_le_bytes());
    report[common + OFFSET_INPUT_ACCEL + 4..common + OFFSET_INPUT_ACCEL + 6]
        .copy_from_slice(&(123i16).to_le_bytes());
    report[common + OFFSET_INPUT_SENSOR_TIMESTAMP..common + OFFSET_INPUT_SENSOR_TIMESTAMP + 4]
        .copy_from_slice(&(0x1234_5678u32).to_le_bytes());

    let touch = common + OFFSET_INPUT_TOUCH_0;
    report[touch] = 3;
    report[touch + 1] = 0xd2;
    report[touch + 2] = 0xb4;
    report[touch + 3] = 0x3d;
    report[common + OFFSET_INPUT_TOUCH_1] = 0x80;

    let state = parse_input_report(DS_USB_INPUT_REPORT_ID, &report, true).unwrap();

    assert!(state.is_pressed(Button::Fn1));
    assert!(state.is_pressed(Button::Fn2));
    assert!(state.is_pressed(Button::LeftPaddle));
    assert!(state.is_pressed(Button::RightPaddle));
    assert_eq!(state.battery_percent, Some(95));
    assert_eq!(state.battery_status, BatteryStatus::Charging);
    assert!(state.headset_connected);
    assert!(state.microphone_connected);
    assert!(state.microphone_muted);
    assert_eq!(
        state.touch_points[0],
        Some(TouchPoint {
            contact_id: 3,
            x: 1234,
            y: 987,
        })
    );
    assert_eq!(state.touch_points[1], None);
    assert_eq!(state.motion.gyro, [-120, 240, 360]);
    assert_eq!(state.motion.accel, [8192, -8192, 123]);
    assert_eq!(state.motion.sensor_timestamp, 0x1234_5678);
    assert_eq!(state.report_sequence, 42);
}

#[test]
fn bluetooth_input_crc_is_reported_without_rejecting_a_frame() {
    let mut report = [0; DS_BT_INPUT_REPORT_LEN];
    report[0] = DS_BT_INPUT_REPORT_ID;
    let crc_offset = report.len() - 4;
    let mut crc = crc32_le(0xffff_ffff, &[DS_BT_INPUT_CRC_SEED]);
    crc = !crc32_le(crc, &report[..crc_offset]);
    report[crc_offset..].copy_from_slice(&crc.to_le_bytes());

    let valid = parse_input_report(DS_BT_INPUT_REPORT_ID, &report, false).unwrap();
    assert_eq!(valid.bluetooth_crc_valid, Some(true));

    report[crc_offset] ^= 0xff;
    let invalid = parse_input_report(DS_BT_INPUT_REPORT_ID, &report, false).unwrap();
    assert_eq!(invalid.bluetooth_crc_valid, Some(false));
}

#[test]
fn system_controls_use_documented_output_offsets_and_flags() {
    let system = SystemProfile {
        player_indicator: PlayerIndicator::Player3,
        microphone_muted: true,
        speaker_volume: 180,
        microphone_volume: 255,
        audio_route: AudioRoute::Speaker,
    };

    let mut report =
        build_output_report(TransportKind::Usb, 0, None, None, LightbarSetup::Keep, None);
    apply_system_controls(
        &mut report,
        output_common_offset(TransportKind::Usb),
        &system,
    );

    let common = 1;
    assert_eq!(
        report[common + OFFSET_VALID_FLAG1] & DS_OUTPUT_VALID_FLAG1_PLAYER_INDICATOR_CONTROL_ENABLE,
        DS_OUTPUT_VALID_FLAG1_PLAYER_INDICATOR_CONTROL_ENABLE
    );
    assert_eq!(report[common + OFFSET_PLAYER_LEDS], 0b10101);
    assert_eq!(report[common + OFFSET_MUTE_BUTTON_LED], 1);
    assert_eq!(
        report[common + OFFSET_POWER_SAVE_CONTROL],
        DS_OUTPUT_POWER_SAVE_CONTROL_MIC_MUTE
    );
    assert_eq!(report[common + OFFSET_SPEAKER_VOLUME], 180);
    assert_eq!(report[common + OFFSET_MIC_VOLUME], 0x40);
    assert_eq!(
        report[common + OFFSET_AUDIO_CONTROL],
        DS_OUTPUT_AUDIO_ROUTE_SPEAKER
    );
    assert_eq!(
        report[common + OFFSET_VALID_FLAG0]
            & (DS_OUTPUT_VALID_FLAG0_SPEAKER_VOLUME_ENABLE
                | DS_OUTPUT_VALID_FLAG0_MIC_VOLUME_ENABLE
                | DS_OUTPUT_VALID_FLAG0_AUDIO_CONTROL_ENABLE),
        DS_OUTPUT_VALID_FLAG0_SPEAKER_VOLUME_ENABLE
            | DS_OUTPUT_VALID_FLAG0_MIC_VOLUME_ENABLE
            | DS_OUTPUT_VALID_FLAG0_AUDIO_CONTROL_ENABLE
    );
}

#[test]
fn feature_reports_expose_firmware_and_pairing_details() {
    let mut firmware = [0; DS_FEATURE_REPORT_FIRMWARE_INFO_LEN];
    firmware[0] = DS_FEATURE_REPORT_FIRMWARE_INFO;
    firmware[24..28].copy_from_slice(&(0x0102_0304u32).to_le_bytes());
    firmware[28..32].copy_from_slice(&(0xa0b0_c0d0u32).to_le_bytes());
    firmware[44..46].copy_from_slice(&(0x0215u16).to_le_bytes());

    assert_eq!(
        parse_firmware_info(&firmware),
        Some(FirmwareInfo {
            hardware_version: 0x0102_0304,
            firmware_version: 0xa0b0_c0d0,
            feature_version: 0x0215,
        })
    );

    let mut pairing = [0; DS_FEATURE_REPORT_PAIRING_INFO_LEN];
    pairing[0] = DS_FEATURE_REPORT_PAIRING_INFO;
    pairing[1..7].copy_from_slice(&[6, 5, 4, 3, 2, 1]);
    assert_eq!(
        parse_pairing_mac_address(&pairing).as_deref(),
        Some("01:02:03:04:05:06")
    );
}
