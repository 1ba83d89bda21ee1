use dualsense_tui::dualsense::HapticFrame;
use dualsense_tui::effects::{
    demo_frames, trigger_effect_for, trigger_effect_for_profile, vibration_effect, weapon_effect,
};
use dualsense_tui::model::{AdaptiveTriggerMode, AdaptiveTriggerPreset, HapticDemo};
use dualsense_tui::profile::AdaptiveTriggerProfile;

#[test]
fn vibration_named_trigger_presets_use_persistent_vibration_mode() {
    let machine_gun = trigger_effect_for(AdaptiveTriggerPreset::MachineGun, 180);
    let pulse = trigger_effect_for(AdaptiveTriggerPreset::Pulse, 180);
    let bow = trigger_effect_for(AdaptiveTriggerPreset::Bow, 180);

    assert_eq!(machine_gun.bytes[0], 0x26);
    assert_eq!(pulse.bytes[0], 0x26);
    assert_eq!(bow.bytes[0], 0x21);
    assert_ne!(machine_gun.bytes[9], 0);
    assert_ne!(pulse.bytes[9], 0);
    assert_ne!(&machine_gun.bytes[1..7], &[0, 0, 0, 0, 0, 0]);
    assert_ne!(&pulse.bytes[1..7], &[0, 0, 0, 0, 0, 0]);
}

#[test]
fn vibration_effect_uses_zone_mask_strength_pack_and_frequency() {
    let effect = vibration_effect(8, 8, 38);

    assert_eq!(effect.bytes[0], 0x26);
    assert_eq!(effect.bytes[1], 0x00);
    assert_eq!(effect.bytes[2], 0x03);
    assert_eq!(effect.bytes[6], 0x3f);
    assert_eq!(effect.bytes[9], 38);
}

#[test]
fn pistol_trigger_uses_weapon_zone_mask_and_zero_based_strength() {
    let effect = trigger_effect_for(AdaptiveTriggerPreset::Pistol, 255);

    assert_eq!(effect.bytes, [0x25, 0x24, 0x00, 0x07, 0, 0, 0, 0, 0, 0, 0]);
}

#[test]
fn every_haptic_demo_contains_only_symmetric_samples() {
    for demo in HapticDemo::ALL {
        for frame in demo_frames(demo) {
            assert!(
                frame.is_symmetric(),
                "{} contains an asymmetric sample: {frame:?}",
                demo.label()
            );
        }
    }
}

#[test]
fn pulse_train_alternates_strength_without_alternating_motors() {
    let frames = demo_frames(HapticDemo::PulseTrain);
    let strengths: Vec<_> = frames.iter().map(|frame| frame.left).collect();

    assert_eq!(strengths, [220, 0, 140, 0, 220, 0, 140, 0]);
    assert_eq!(frames.last(), Some(&HapticFrame::symmetric(0, 70)));
}

#[test]
fn impact_and_tap_demos_drive_both_motors_at_the_same_strength() {
    for demo in [HapticDemo::Impact, HapticDemo::Tap] {
        let frames = demo_frames(demo);
        let first = frames[0];

        assert!(first.left > 0, "{} should vibrate", demo.label());
        assert_eq!(first.left, first.right, "{} must be paired", demo.label());
        assert_eq!(frames.last(), Some(&HapticFrame::symmetric(0, 70)));
    }
}

#[test]
fn weapon_effect_clamps_to_valid_weapon_positions() {
    let effect = weapon_effect(1, 3, 8);

    assert_eq!(effect.bytes, [0x25, 0x0c, 0x00, 0x07, 0, 0, 0, 0, 0, 0, 0]);
}

#[test]
fn custom_trigger_profiles_use_the_selected_protocol_mode() {
    let resistance = AdaptiveTriggerProfile {
        mode: AdaptiveTriggerMode::Resistance,
        start_position: 3,
        end_position: 6,
        intensity: 255,
        ..AdaptiveTriggerProfile::default()
    };
    let vibration = AdaptiveTriggerProfile {
        mode: AdaptiveTriggerMode::Vibration,
        start_position: 4,
        frequency: 73,
        intensity: 255,
        ..AdaptiveTriggerProfile::default()
    };

    let resistance_effect = trigger_effect_for_profile(&resistance);
    let vibration_effect = trigger_effect_for_profile(&vibration);

    assert_eq!(resistance_effect.bytes[0], 0x21);
    assert_eq!(resistance_effect.bytes[1], 0b0111_1000);
    assert_eq!(vibration_effect.bytes[0], 0x26);
    assert_eq!(vibration_effect.bytes[1], 0b1111_0000);
    assert_eq!(vibration_effect.bytes[2], 0b0000_0011);
    assert_eq!(vibration_effect.bytes[9], 73);
}
