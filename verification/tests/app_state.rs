use dualsense_tui::app_state::{
    adjust_trigger_field, inactive_lightbar_reapply_delay, HapticField, MappingView, MouseField,
    PanelLayout, TriggerField, LIGHTBAR_INACTIVE_REAPPLY_INTERVAL_MS,
};
use dualsense_tui::profile::Profile;

#[test]
fn inactive_lightbar_reapply_uses_a_fast_burst_before_steady_state() {
    let (first_delay, first_index) = inactive_lightbar_reapply_delay(0);
    let (second_delay, second_index) = inactive_lightbar_reapply_delay(first_index);
    let (third_delay, third_index) = inactive_lightbar_reapply_delay(second_index);
    let (steady_delay, steady_index) = inactive_lightbar_reapply_delay(third_index);

    assert_eq!(first_delay, 50);
    assert_eq!(second_delay, 150);
    assert_eq!(third_delay, 400);
    assert_eq!(steady_delay, LIGHTBAR_INACTIVE_REAPPLY_INTERVAL_MS);
    assert_eq!(steady_index, third_index);
}

#[test]
fn trigger_field_order_matches_visual_layout() {
    let mut profile = Profile::default();
    let initial_target = profile.adaptive_triggers.target;
    let initial_preset = profile.adaptive_triggers.preset;
    let initial_intensity = profile.adaptive_triggers.intensity;

    adjust_trigger_field(&mut profile, TriggerField::Intensity, 5);
    assert_eq!(profile.adaptive_triggers.target, initial_target);
    assert_eq!(profile.adaptive_triggers.preset, initial_preset);
    assert_eq!(profile.adaptive_triggers.intensity, initial_intensity + 5);

    adjust_trigger_field(&mut profile, TriggerField::Presets, 1);
    assert_eq!(profile.adaptive_triggers.target, initial_target);
    assert_eq!(profile.adaptive_triggers.preset, initial_preset.next());
    assert_eq!(profile.adaptive_triggers.intensity, initial_intensity + 5);
}

#[test]
fn selection_fields_follow_visual_order() {
    assert_eq!(HapticField::State.move_by(1), HapticField::Mode);
    assert_eq!(HapticField::Mode.move_by(1), HapticField::Strength);
    assert_eq!(HapticField::Strength.move_by(1), HapticField::ReactiveState);
    assert_eq!(
        HapticField::ReactiveState.move_by(1),
        HapticField::ReactiveSensitivity
    );
    assert_eq!(
        HapticField::ReactiveSensitivity.move_by(1),
        HapticField::ReactiveThreshold
    );
    assert_eq!(HapticField::ReactiveThreshold.move_by(1), HapticField::Demo);
    assert_eq!(HapticField::Demo.move_by(1), HapticField::State);

    assert_eq!(TriggerField::Target.move_by(1), TriggerField::Mode);
    assert_eq!(TriggerField::Mode.move_by(1), TriggerField::Intensity);
    assert_eq!(
        TriggerField::Intensity.move_by(1),
        TriggerField::StartPosition
    );
    assert_eq!(
        TriggerField::StartPosition.move_by(1),
        TriggerField::EndPosition
    );
    assert_eq!(
        TriggerField::EndPosition.move_by(1),
        TriggerField::Frequency
    );
    assert_eq!(TriggerField::Frequency.move_by(1), TriggerField::Presets);
    assert_eq!(TriggerField::Presets.move_by(1), TriggerField::Target);

    assert_eq!(MouseField::Enabled.move_by(1), MouseField::PointerSpeed);
    assert_eq!(MouseField::PointerSpeed.move_by(1), MouseField::Deadzone);
    assert_eq!(MouseField::Deadzone.move_by(1), MouseField::ScrollSpeed);
    assert_eq!(MouseField::ScrollSpeed.move_by(1), MouseField::Enabled);

    assert_eq!(
        MappingView::ControllerProfile.next(),
        MappingView::KeyboardOutput
    );
    assert_eq!(MappingView::KeyboardOutput.next(), MappingView::MouseOutput);
    assert_eq!(
        MappingView::MouseOutput.next(),
        MappingView::ControllerProfile
    );
}

#[test]
fn zero_delta_does_not_change_cyclic_trigger_fields() {
    let mut profile = Profile::default();
    let target = profile.adaptive_triggers.target;
    let preset = profile.adaptive_triggers.preset;

    adjust_trigger_field(&mut profile, TriggerField::Target, 0);
    adjust_trigger_field(&mut profile, TriggerField::Presets, 0);

    assert_eq!(profile.adaptive_triggers.target, target);
    assert_eq!(profile.adaptive_triggers.preset, preset);
}

#[test]
fn custom_trigger_positions_stay_in_protocol_range_and_order() {
    let mut profile = Profile::default();
    profile.adaptive_triggers.start_position = 8;
    profile.adaptive_triggers.end_position = 8;

    adjust_trigger_field(&mut profile, TriggerField::StartPosition, 20);
    assert_eq!(profile.adaptive_triggers.start_position, 9);
    assert_eq!(profile.adaptive_triggers.end_position, 9);

    adjust_trigger_field(&mut profile, TriggerField::EndPosition, -20);
    assert_eq!(profile.adaptive_triggers.end_position, 9);

    profile.adaptive_triggers.frequency = 1;
    adjust_trigger_field(&mut profile, TriggerField::Frequency, -10);
    assert_eq!(profile.adaptive_triggers.frequency, 1);
}

#[test]
fn panel_layout_adjustments_are_clamped() {
    let mut layout = PanelLayout::default();

    layout.adjust_devices(-1000);
    layout.adjust_status(-1000);
    layout.adjust_controls(-1000);
    assert_eq!(layout.devices_size, 20);
    assert_eq!(layout.status_size, 24);
    assert_eq!(layout.controls_height, 4);

    layout.adjust_devices(1000);
    layout.adjust_status(1000);
    layout.adjust_controls(1000);
    assert_eq!(layout.devices_size, 48);
    assert_eq!(layout.status_size, 56);
    assert_eq!(layout.controls_height, 8);
}
