use dualsense_tui::app_state::{should_proxy_to_daemon, BackgroundAgentSnapshot, MouseField};
use dualsense_tui::dualsense::DeviceInfo;
use dualsense_tui::model::{AdaptiveTriggerMode, Button, GamepadState, StickState, TouchPoint};
use dualsense_tui::profile::{AdaptiveTriggerProfile, MouseMappingProfile};
use dualsense_tui::screen::{
    audio_transport_note, axes_label, crc_label, hex_id_label, model_name, timestamp_label, usb_audio_note, gauge_label, microphone_label, mouse_setting_name,
    mouse_setting_value, percent_label, pressed_summary, scale_audio_level, scaled_panel_height,
    status_line_count, stick_grid_cell, touch_point_label, touch_summary, trigger_expected_text,
    visible_list_range,
};

#[test]
fn visible_list_range_keeps_last_selected_item_visible() {
    assert_eq!(visible_list_range(8, 7, 1), 7..8);
    assert_eq!(visible_list_range(8, 7, 3), 5..8);
}

#[test]
fn visible_list_range_centers_middle_selection_when_possible() {
    assert_eq!(visible_list_range(8, 4, 3), 3..6);
    assert_eq!(visible_list_range(8, 0, 3), 0..3);
}

#[test]
fn visible_list_range_handles_short_and_empty_lists() {
    assert_eq!(visible_list_range(0, 3, 5), 0..0);
    assert_eq!(visible_list_range(3, 10, 5), 0..3);
    assert_eq!(visible_list_range(8, 4, 0), 0..0);
}

#[test]
fn unloaded_agent_uses_the_local_gui_service() {
    assert!(!should_proxy_to_daemon(BackgroundAgentSnapshot {
        installed: true,
        loaded: false,
    }));
    assert!(should_proxy_to_daemon(BackgroundAgentSnapshot {
        installed: true,
        loaded: true,
    }));
}

#[test]
fn readouts_show_touch_buttons_and_levels() {
    assert_eq!(
        touch_point_label(Some(TouchPoint { contact_id: 3, x: 12, y: 1234 })),
        "id 3  x   12  y 1234"
    );
    assert_eq!(touch_point_label(None), "inactive");

    let mut state = GamepadState::default();
    assert_eq!(pressed_summary(&state), "none");
    assert_eq!(touch_summary(&state), "Touch: inactive");
    state.buttons = vec![Button::Cross, Button::L1];
    assert_eq!(
        pressed_summary(&state),
        format!("{} {}", Button::Cross.short_label(), Button::L1.short_label())
    );
    state.touch_points = [None, Some(TouchPoint { contact_id: 1, x: 5, y: 6 })];
    assert_eq!(touch_summary(&state), "Touch: 1:5,6");
    state.touch_points = [
        Some(TouchPoint { contact_id: 0, x: 1, y: 2 }),
        Some(TouchPoint { contact_id: 1, x: 5, y: 6 }),
    ];
    assert_eq!(touch_summary(&state), "Touch: 0:1,2 1:5,6");

    assert_eq!(scale_audio_level(0), 0);
    assert_eq!(scale_audio_level(u16::MAX), 255);
    assert_eq!(scale_audio_level(32768), 127);
    assert_eq!(scaled_panel_height(40, 4, 4, 8), 8);
    assert_eq!(scaled_panel_height(12, 4, 4, 8), 4);
    assert_eq!(scaled_panel_height(24, 4, 4, 8), 6);
    assert_eq!(crc_label(Some(true)), "valid");
    assert_eq!(crc_label(Some(false)), "invalid");
    assert_eq!(crc_label(None), "not present");
    assert_eq!(stick_grid_cell(StickState::new(128, 128)), (5, 3));
    assert_eq!(stick_grid_cell(StickState::new(255, 0)), (10, 0));
}

#[test]
fn gauge_and_percent_labels_mark_the_selected_row() {
    assert_eq!(gauge_label(7, true), ">   7 <");
    assert_eq!(gauge_label(255, false), "255");
    assert_eq!(gauge_label(42, false), " 42");
    assert_eq!(percent_label(90, true), "> 90% <");
    assert_eq!(percent_label(5, false), "5%");
}

#[test]
fn microphone_and_transport_readouts() {
    assert_eq!(microphone_label(false, true), "not connected");
    assert_eq!(microphone_label(true, true), "connected, muted");
    assert_eq!(microphone_label(true, false), "connected");
    assert_eq!(audio_transport_note(None), "No DualSense selected");
    let device = |transport: &str| DeviceInfo {
        name: "DualSense".to_string(),
        vendor_id: 0x054c,
        product_id: 0x0ce6,
        transport: transport.to_string(),
        mac_address: None,
        firmware: None,
        diagnostics_error: None,
    };
    assert_eq!(
        audio_transport_note(Some(&device("USB"))),
        "USB: audio endpoint is managed by macOS CoreAudio"
    );
    assert_eq!(
        audio_transport_note(Some(&device("Bluetooth"))),
        "Bluetooth: controller audio endpoint is not exposed by this backend"
    );
}

#[test]
fn trigger_screen_describes_the_custom_effects() {
    let mut triggers = AdaptiveTriggerProfile::default();
    triggers.start_position = 2;
    triggers.end_position = 7;
    triggers.frequency = 38;
    triggers.mode = AdaptiveTriggerMode::Resistance;
    assert_eq!(trigger_expected_text(&triggers), "constant resistance from position 2 to 7");
    triggers.mode = AdaptiveTriggerMode::Vibration;
    assert_eq!(
        trigger_expected_text(&triggers),
        "persistent vibration from position 2 at frequency 38"
    );
    triggers.mode = AdaptiveTriggerMode::Preset;
    assert_eq!(trigger_expected_text(&triggers), triggers.preset.expected_effect());
}

#[test]
fn mouse_table_and_status_panel_rows() {
    let mut mouse = MouseMappingProfile::default();
    mouse.pointer_speed = 12;
    mouse.deadzone_percent = 8;
    mouse.scroll_speed = 3;
    assert_eq!(mouse_setting_name(MouseField::Deadzone), "Dead zone");
    assert_eq!(mouse_setting_value(&mouse, MouseField::PointerSpeed), "12 px/tick");
    assert_eq!(mouse_setting_value(&mouse, MouseField::Deadzone), "8%");
    assert_eq!(mouse_setting_value(&mouse, MouseField::ScrollSpeed), "3 px/tick");
    mouse.enabled = false;
    assert_eq!(mouse_setting_value(&mouse, MouseField::Enabled), "disabled");
    assert_eq!(status_line_count(4), 2);
    assert_eq!(status_line_count(10), 4);
    assert_eq!(status_line_count(11), 6);
}

#[test]
fn device_and_sensor_readouts() {
    assert_eq!(hex_id_label(0x054c), "0x054c");
    assert_eq!(hex_id_label(0x0df2), "0x0df2");
    assert_eq!(hex_id_label(0x7), "0x0007");
    assert_eq!(hex_id_label(0x12345), "0x12345");
    let device = DeviceInfo {
        name: "DualSense Edge".to_string(),
        vendor_id: 0x054c,
        product_id: 0x0df2,
        transport: "Bluetooth".to_string(),
        mac_address: None,
        firmware: None,
        diagnostics_error: None,
    };
    assert_eq!(model_name(&device), "DualSense Edge");
    assert_eq!(usb_audio_note(&device), "not exposed over Bluetooth");
    assert_eq!(axes_label([-12, 0, 32767]), "x    -12  y      0  z  32767 raw");
    assert_eq!(timestamp_label(4096), "Timestamp: 4096 ticks");
}
