use dualsense_tui::dualsense::{HapticFrame, HapticOutput};
use dualsense_tui::model::{AdaptiveTriggerMode, Button, KeyboardKey, Rgb};
use dualsense_tui::profile::{
    AudioReactiveHapticsProfile, ButtonMapping, HapticsProfile, KeyboardMappingProfile, MouseMappingProfile,
    Profile, SystemProfile,
};

#[test]
fn legacy_haptic_values_are_converted_to_one_shared_level() {
    let output = HapticOutput::new(10, 21).symmetrized();
    let frame = HapticFrame::new(10, 21, 180).symmetrized();

    assert_eq!(output, HapticOutput::symmetric(16));
    assert_eq!(frame, HapticFrame::symmetric(16, 180));
    assert!(output.is_symmetric());
    assert!(frame.is_symmetric());
}

#[test]
fn rgb_adjustment_clamps_values_and_ignores_unknown_channels() {
    let mut color = Rgb::new(0, 255, 10);

    color.adjust_channel(0, -1);
    color.adjust_channel(1, 1);
    color.adjust_channel(2, 10);
    color.adjust_channel(9, 100);

    assert_eq!(color, Rgb::new(0, 255, 20));
}

#[test]
fn normalize_mappings_keeps_first_mapping_and_fills_identity_rows() {
    let mut profile = Profile {
        mappings: vec![
            ButtonMapping {
                from: Button::Cross,
                to: Button::Circle,
            },
            ButtonMapping {
                from: Button::Cross,
                to: Button::Square,
            },
            ButtonMapping {
                from: Button::Circle,
                to: Button::Cross,
            },
        ],
        ..Profile::default()
    };

    profile.normalize_mappings();

    assert_eq!(profile.mappings.len(), Button::ALL.len());
    assert_eq!(profile.mappings[0].from, Button::Cross);
    assert_eq!(profile.mappings[0].to, Button::Circle);
    assert_eq!(profile.mappings[1].from, Button::Circle);
    assert_eq!(profile.mappings[1].to, Button::Cross);
    let triangle = profile
        .mappings
        .iter()
        .find(|mapping| mapping.from == Button::Triangle)
        .unwrap();
    assert_eq!(triangle.to, Button::Triangle);
}

#[test]
fn mouse_mapping_values_are_normalized_to_supported_ranges() {
    let mut mapping = MouseMappingProfile {
        enabled: true,
        pointer_speed: 0,
        deadzone_percent: u8::MAX,
        scroll_speed: u8::MAX,
    };

    mapping.normalize();

    assert_eq!(
        mapping.pointer_speed,
        MouseMappingProfile::MIN_POINTER_SPEED
    );
    assert_eq!(
        mapping.deadzone_percent,
        MouseMappingProfile::MAX_DEADZONE_PERCENT
    );
    assert_eq!(mapping.scroll_speed, MouseMappingProfile::MAX_SCROLL_SPEED);
}

#[test]
fn old_profiles_receive_new_system_trigger_mapping_and_haptics_defaults() {
    // A profile saved before the newer sections existed: no mappings and no
    // key bindings; the other sections take their defaults.
    let mut profile = Profile {
        mappings: Vec::new(),
        keyboard_mapping: KeyboardMappingProfile { enabled: false, bindings: Vec::new() },
        ..Profile::default()
    };

    profile.normalize_mappings();

    assert_eq!(profile.adaptive_triggers.mode, AdaptiveTriggerMode::Preset);
    assert_eq!(profile.system, SystemProfile::default());
    assert!(!profile.keyboard_mapping.enabled);
    assert_eq!(profile.keyboard_mapping.bindings.len(), Button::ALL.len());
    assert!(profile
        .keyboard_mapping
        .bindings
        .iter()
        .all(|binding| binding.to == KeyboardKey::Disabled));
    assert_eq!(profile.mappings.len(), Button::ALL.len());
    assert!(profile.mappings.iter().all(|mapping| mapping.to == mapping.from));
    assert_eq!(profile.mouse_mapping, MouseMappingProfile::default());
    assert_eq!(profile.haptics.audio_reactive, AudioReactiveHapticsProfile::default());
}

#[test]
fn old_haptics_profiles_become_symmetric_and_receive_audio_reactive_defaults() {
    let mut profile = Profile {
        haptics: HapticsProfile {
            enabled: false,
            audio_haptics: false,
            left_strength: 10,
            right_strength: 20,
            audio_reactive: AudioReactiveHapticsProfile::default(),
        },
        ..Profile::default()
    };

    profile.normalize_mappings();

    assert_eq!(profile.haptics.left_strength, 15);
    assert_eq!(profile.haptics.right_strength, 15);
    assert_eq!(profile.haptics.strength(), 15);
    assert_eq!(profile.haptics.audio_reactive, AudioReactiveHapticsProfile::default());
}
