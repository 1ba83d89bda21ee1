use dualsense_tui::app_state::{HapticField, LightbarField, MappingView, MouseField, SystemField, Tab};
use dualsense_tui::editor::{
    command_for_key, reselected_device, saved_profile_source, EditorAction, EditorState,
    KeyInput, ProfileSource, StatusNote, UiCommand,
};
use dualsense_tui::gui::{
    action_failed_status, apply_gui_command, wants_live_state, GuiAction, GuiCommand, GuiError,
    ServiceMode,
};
use dualsense_tui::model::{AudioRoute, Button, HapticDemo, KeyboardKey, PlayerIndicator, Rgb};
use dualsense_tui::profile::Profile;
use dualsense_tui::status::{
    auto_apply_status, background_agent_status, device_count_status, profile_switch_status,
    system_controls_applied_status,
};
use dualsense_tui::app_state::BackgroundAgentSnapshot;

fn editor(devices: usize) -> EditorState {
    EditorState::new(Profile::default(), devices)
}

#[test]
fn device_list_moves_wrap_and_report_a_switch() {
    let mut e = editor(3);
    assert_eq!(e.move_selection(1), EditorAction::DeviceSelection { changed: true });
    assert_eq!(e.selection.device, 1);
    assert_eq!(e.move_selection(-2), EditorAction::DeviceSelection { changed: true });
    assert_eq!(e.selection.device, 2);
    let mut single = editor(1);
    assert_eq!(single.move_selection(1), EditorAction::DeviceSelection { changed: false });
    let mut none = editor(0);
    assert_eq!(none.adjust_active(5), (EditorAction::DeviceSelection { changed: false }, None));
    assert_eq!(none.selection.device, 0);
}

#[test]
fn tabs_cycle_in_both_directions() {
    let mut e = editor(1);
    e.previous_tab();
    assert_eq!(e.selection.active_tab, Tab::Mapping);
    e.next_tab();
    assert_eq!(e.selection.active_tab, Tab::Devices);
    e.select_tab(Tab::System);
    assert_eq!(e.selection.active_tab, Tab::System);
}

#[test]
fn lightbar_and_haptics_adjustments() {
    let mut e = editor(1);
    e.select_tab(Tab::Lightbar);
    e.selection.lightbar_field = LightbarField::Green;
    let before = e.profile.lightbar;
    assert_eq!(e.adjust_active(-5), (EditorAction::Nothing, None));
    assert_eq!(e.profile.lightbar, Rgb::new(before.r, before.g - 5, before.b));
    assert!(e.dirty);

    let mut h = editor(1);
    h.select_tab(Tab::Haptics);
    assert_eq!(h.adjust_active(1).0, EditorAction::ToggleHapticsEnabled);
    assert_eq!(h.adjust_active(0).0, EditorAction::Nothing);
    h.selection.haptic_field = HapticField::ReactiveSensitivity;
    h.profile.haptics.audio_reactive.sensitivity_percent = 248;
    h.adjust_active(5);
    assert_eq!(h.profile.haptics.audio_reactive.sensitivity_percent, 250);
    h.selection.haptic_field = HapticField::ReactiveThreshold;
    h.profile.haptics.audio_reactive.threshold_percent = 88;
    h.adjust_active(5);
    assert_eq!(h.profile.haptics.audio_reactive.threshold_percent, 90);
    h.selection.haptic_field = HapticField::Demo;
    h.adjust_active(1);
    assert_eq!(h.selection.haptic_demo, HapticDemo::Click.next());
    h.selection.haptic_field = HapticField::Strength;
    h.profile.haptics.left_strength = 10;
    h.profile.haptics.right_strength = 20;
    h.adjust_active(0);
    assert_eq!(h.profile.haptics.left_strength, 15);
    assert_eq!(h.profile.haptics.right_strength, 15);
}

#[test]
fn system_and_mouse_adjustments_report_their_values() {
    let mut e = editor(1);
    e.select_tab(Tab::System);
    e.selection.system_field = SystemField::MicrophoneVolume;
    e.profile.system.microphone_volume = 0x3e;
    assert_eq!(e.adjust_active(5), (EditorAction::Nothing, None));
    assert_eq!(e.profile.system.microphone_volume, 0x40);
    e.selection.system_field = SystemField::MicrophoneMute;
    let muted = e.profile.system.microphone_muted;
    let note = e.adjust_active(1).1.unwrap();
    assert_eq!(e.profile.system.microphone_muted, !muted);
    assert_eq!(note, if muted { StatusNote::MicrophoneWillBeEnabled } else { StatusNote::MicrophoneWillBeMuted });
    e.selection.system_field = SystemField::AudioRoute;
    e.adjust_active(-1);
    assert_eq!(e.profile.system.audio_route, AudioRoute::Unchanged.previous());

    let mut m = editor(1);
    m.select_tab(Tab::Mapping);
    m.selection.mapping_view = MappingView::MouseOutput;
    m.selection.mouse_field = MouseField::PointerSpeed;
    m.profile.mouse_mapping.pointer_speed = 38;
    let (_, note) = m.adjust_active(5);
    assert_eq!(m.profile.mouse_mapping.pointer_speed, 40);
    assert_eq!(note.unwrap().message(), "Mouse pointer speed: 40");
    m.selection.mouse_field = MouseField::Deadzone;
    m.profile.mouse_mapping.deadzone_percent = 12;
    let (_, note) = m.adjust_active(-1);
    assert_eq!(note.unwrap().message(), "Mouse dead zone: 11%");
    m.selection.mouse_field = MouseField::Enabled;
    assert_eq!(m.adjust_active(1).0, EditorAction::ToggleMouseOutput);
}

#[test]
fn mapping_rows_step_and_reset() {
    let mut e = editor(1);
    e.select_tab(Tab::Mapping);
    e.profile.normalize_mappings();
    e.selection.mapping = 0;
    let from = e.profile.mappings[0].from;
    e.adjust_active(1);
    assert_eq!(e.profile.mappings[0].to, from.next());
    assert!(e.dirty);
    assert_eq!(e.toggle_active(), (EditorAction::Nothing, None));
    assert_eq!(e.profile.mappings[0].to, from);

    e.toggle_mapping_view();
    assert_eq!(e.selection.mapping_view, MappingView::KeyboardOutput);
    e.selection.keyboard_mapping = 0;
    e.adjust_active(1);
    assert_eq!(e.profile.keyboard_mapping.bindings[0].to, KeyboardKey::Disabled.next());
    e.toggle_active();
    assert_eq!(e.profile.keyboard_mapping.bindings[0].to, KeyboardKey::Disabled);
    assert_eq!(e.apply_active_panel(), (EditorAction::ToggleKeyboardOutput, None));
    assert_eq!(
        e.toggle_mapping_view().message(),
        format!("Mapping view: {}", MappingView::MouseOutput.label())
    );
}

#[test]
fn apply_key_asks_for_the_panel_action() {
    let mut e = editor(1);
    assert_eq!(e.apply_active_panel(), (EditorAction::Nothing, Some(StatusNote::NoApplyAction)));
    e.select_tab(Tab::Lightbar);
    assert_eq!(e.apply_active_panel().0, EditorAction::ApplyLightbar);
    e.select_tab(Tab::Triggers);
    assert_eq!(e.apply_active_panel().0, EditorAction::ApplyAdaptiveTriggers);
    e.select_tab(Tab::Haptics);
    assert_eq!(e.apply_active_panel().0, EditorAction::PlayHapticDemo);
    e.selection.haptic_field = HapticField::ReactiveState;
    assert_eq!(e.apply_active_panel().0, EditorAction::ToggleAudioReactive);
    assert_eq!(StatusNote::NoApplyAction.message(), "No apply action for this panel");
}

#[test]
fn keys_map_to_commands() {
    assert_eq!(command_for_key(KeyInput::Char('q'), false, Tab::Devices), Some(UiCommand::Quit));
    assert_eq!(command_for_key(KeyInput::Char('4'), false, Tab::Devices), Some(UiCommand::SelectTab(Tab::Lightbar)));
    assert_eq!(command_for_key(KeyInput::Left, true, Tab::Devices), Some(UiCommand::ResizeDevices(-2)));
    assert_eq!(command_for_key(KeyInput::Left, false, Tab::Devices), Some(UiCommand::AdjustActive(-5)));
    assert_eq!(command_for_key(KeyInput::Char('x'), false, Tab::Devices), None);
    assert_eq!(command_for_key(KeyInput::Char('x'), false, Tab::Triggers), Some(UiCommand::ResetAdaptiveTriggers));
    assert_eq!(command_for_key(KeyInput::Char('m'), false, Tab::Mapping), Some(UiCommand::ToggleMappingView));
    assert_eq!(command_for_key(KeyInput::Char('m'), false, Tab::Input), None);
    assert_eq!(command_for_key(KeyInput::Char('_'), false, Tab::Input), Some(UiCommand::AdjustActive(-1)));
    assert_eq!(command_for_key(KeyInput::Char('x'), true, Tab::Triggers), Some(UiCommand::ResetAdaptiveTriggers));
    assert_eq!(command_for_key(KeyInput::Other, false, Tab::Input), None);
}

#[test]
fn gui_commands_stage_settings_and_ask_for_work() {
    let mut e = editor(2);
    let step = apply_gui_command(&mut e, GuiCommand::SetLightbar { r: 1, g: 0xab, b: 0xff, apply: false }, ServiceMode::Local).unwrap();
    assert!(matches!(step.action, GuiAction::Nothing));
    assert_eq!(step.status.unwrap(), "Lightbar staged: #01abff");
    assert_eq!(e.profile.lightbar, Rgb::new(1, 0xab, 0xff));
    assert!(e.dirty);

    let step = apply_gui_command(
        &mut e,
        GuiCommand::SetTriggers {
            target: dualsense_tui::model::TriggerTarget::Left,
            mode: dualsense_tui::model::AdaptiveTriggerMode::Resistance,
            preset: dualsense_tui::model::AdaptiveTriggerPreset::Bow,
            intensity: 200,
            start_position: 12,
            end_position: 3,
            frequency: 0,
            apply: true,
        },
        ServiceMode::Local,
    )
    .unwrap();
    assert!(matches!(step.action, GuiAction::ApplyAdaptiveTriggers));
    assert_eq!(e.profile.adaptive_triggers.start_position, 9);
    assert_eq!(e.profile.adaptive_triggers.end_position, 9);
    assert_eq!(e.profile.adaptive_triggers.frequency, 1);

    apply_gui_command(
        &mut e,
        GuiCommand::SetSystem {
            player_indicator: PlayerIndicator::Player2,
            microphone_muted: true,
            speaker_volume: 7,
            microphone_volume: 200,
            audio_route: AudioRoute::Speaker,
            apply: false,
        },
        ServiceMode::Local,
    )
    .unwrap();
    assert_eq!(e.profile.system.microphone_volume, 0x40);

    let step = apply_gui_command(&mut e, GuiCommand::SetControllerMapping { from: Button::Cross, to: Button::Circle }, ServiceMode::Local).unwrap();
    assert_eq!(step.status.unwrap(), format!("Controller mapping updated: {}", Button::Cross.label()));
    assert_eq!(e.profile.mappings.len(), Button::ALL.len());
    assert_eq!(e.profile.mappings[Button::Cross.index()].to, Button::Circle);

    apply_gui_command(&mut e, GuiCommand::SetKeyboardMapping { from: Button::Circle, to: KeyboardKey::Space }, ServiceMode::Local).unwrap();
    assert_eq!(e.profile.keyboard_mapping.bindings[Button::Circle.index()].to, KeyboardKey::Space);

    assert!(matches!(
        apply_gui_command(&mut e, GuiCommand::SelectDevice { index: 5 }, ServiceMode::Local),
        Err(GuiError::ControllerUnavailable(5))
    ));
    assert_eq!(GuiError::ControllerUnavailable(5).message(), "controller index 5 is unavailable");
    let step = apply_gui_command(&mut e, GuiCommand::SelectDevice { index: 1 }, ServiceMode::Local).unwrap();
    assert!(matches!(step.action, GuiAction::DeviceSelected));
    assert_eq!(e.selection.device, 1);

    assert!(matches!(
        apply_gui_command(&mut e, GuiCommand::InstallBackgroundAgent, ServiceMode::Daemon),
        Err(GuiError::BackgroundServiceSelfModification)
    ));
    let step = apply_gui_command(&mut e, GuiCommand::SaveNamedProfile { name: "Racing".to_string() }, ServiceMode::Local).unwrap();
    assert!(matches!(step.action, GuiAction::SaveNamedProfile(ref name) if name == "Racing"));
    let step = apply_gui_command(&mut e, GuiCommand::Quit, ServiceMode::Daemon).unwrap();
    assert!(matches!(step.action, GuiAction::Quit));
    assert!(wants_live_state(&GuiCommand::LiveState));
    assert!(!wants_live_state(&GuiCommand::Snapshot));
    assert_eq!(action_failed_status("boom"), "Action failed: boom");
}

#[test]
fn refreshed_devices_keep_the_selected_controller() {
    let macs = vec![Some("aa:bb".to_string()), None, Some("CC:DD".to_string())];
    assert_eq!(reselected_device(&macs, Some("cc:dd"), 0), 2);
    assert_eq!(reselected_device(&macs, Some("ee:ff"), 1), 1);
    assert_eq!(reselected_device(&macs, Some("ee:ff"), 7), 2);
    assert_eq!(reselected_device(&macs, None, 9), 2);
    assert_eq!(reselected_device(&Vec::new(), None, 9), 0);
    assert_eq!(saved_profile_source(true, true, false), ProfileSource::Edited);
    assert_eq!(saved_profile_source(true, false, true), ProfileSource::Saved);
    assert_eq!(saved_profile_source(false, true, false), ProfileSource::Skip);
}

#[test]
fn status_lines() {
    assert_eq!(device_count_status(0), "No DualSense detected");
    assert_eq!(device_count_status(2), "Detected 2 DualSense device(s); saved profiles will auto-apply");
    assert_eq!(
        auto_apply_status(&vec!["a: x".to_string(), "b: y".to_string()], 1).unwrap(),
        "Automatic apply failed: a: x; b: y"
    );
    assert_eq!(auto_apply_status(&Vec::new(), 3).unwrap(), "Automatically applied saved profile to 3 controller(s)");
    assert!(auto_apply_status(&Vec::new(), 0).is_none());
    assert_eq!(
        background_agent_status(BackgroundAgentSnapshot { installed: true, loaded: false }),
        "Background service is installed but not loaded"
    );
    assert_eq!(
        profile_switch_status("Profile reset to defaults", None, Some("busy"), None, Some(None)),
        "Profile reset to defaults; haptics stop failed: busy; applied to the selected controller; save to persist"
    );
    assert_eq!(
        profile_switch_status("Loaded", None, None, None, None),
        "Loaded; no controller selected; save to persist"
    );
    let mut system = Profile::default().system;
    system.microphone_muted = true;
    assert_eq!(
        system_controls_applied_status(&system),
        format!(
            "System controls applied: {}, mic muted, route {}",
            system.player_indicator.label(),
            system.audio_route.label()
        )
    );
}
