use dualsense_tui::mapping::{
    desired_keys, desired_mouse_buttons, HeldMouseButtons, KeyEvent, KeyboardMapper,
    virtual_key_code, MappingError, MouseButton, MouseButtonEvent,
};
use dualsense_tui::model::{Button, GamepadState, KeyboardKey};
use dualsense_tui::profile::{KeyboardBinding, KeyboardMappingProfile};

#[test]
fn disabled_bindings_do_not_produce_desired_keyboard_events() {
    let profile = KeyboardMappingProfile::default();
    let state = GamepadState {
        buttons: vec![Button::Cross],
        ..GamepadState::default()
    };

    assert!(profile
        .bindings
        .iter()
        .filter(|binding| state.is_pressed(binding.from))
        .all(|binding| binding.to.is_disabled()));
    assert!(desired_keys(&state, &profile).is_empty());
}

#[test]
fn keyboard_bindings_normalize_to_every_dualsense_button() {
    let mut profile = KeyboardMappingProfile {
        enabled: true,
        bindings: vec![KeyboardBinding {
            from: Button::Cross,
            to: KeyboardKey::Space,
        }],
    };

    profile.normalize_bindings();

    assert_eq!(profile.bindings.len(), Button::ALL.len());
    assert_eq!(profile.bindings[0].to, KeyboardKey::Space);
}

fn profile_with(bindings: Vec<KeyboardBinding>) -> KeyboardMappingProfile {
    KeyboardMappingProfile {
        enabled: true,
        bindings,
    }
}

fn apply(mapper: &mut KeyboardMapper, events: &[KeyEvent]) {
    for event in events {
        mapper.record(*event);
    }
}

#[test]
fn keyboard_transitions_release_then_press_and_reach_the_desired_keys() {
    let profile = profile_with(vec![
        KeyboardBinding { from: Button::Cross, to: KeyboardKey::Space },
        KeyboardBinding { from: Button::Circle, to: KeyboardKey::Escape },
        KeyboardBinding { from: Button::Square, to: KeyboardKey::Space },
    ]);
    let mut mapper = KeyboardMapper::new();

    let pressed = GamepadState { buttons: vec![Button::Cross, Button::Square], ..GamepadState::default() };
    let desired = desired_keys(&pressed, &profile);
    assert_eq!(desired, vec![KeyboardKey::Space]);
    let events = mapper.sync(&pressed, &profile, true).unwrap();
    assert_eq!(events, vec![KeyEvent { key: KeyboardKey::Space, pressed: true }]);
    apply(&mut mapper, &events);
    assert!(mapper.is_held(KeyboardKey::Space));

    let next = GamepadState { buttons: vec![Button::Circle], ..GamepadState::default() };
    let events = mapper.sync(&next, &profile, true).unwrap();
    assert_eq!(
        events,
        vec![
            KeyEvent { key: KeyboardKey::Space, pressed: false },
            KeyEvent { key: KeyboardKey::Escape, pressed: true },
        ]
    );
    apply(&mut mapper, &events);
    assert!(!mapper.is_held(KeyboardKey::Space));
    assert!(mapper.is_held(KeyboardKey::Escape));

    // Holding the same key again posts nothing.
    assert!(mapper.sync(&next, &profile, true).unwrap().is_empty());
}

#[test]
fn keyboard_output_needs_permission_and_disabling_releases_everything() {
    let mut profile = profile_with(vec![KeyboardBinding { from: Button::Cross, to: KeyboardKey::A }]);
    let mut mapper = KeyboardMapper::new();
    let state = GamepadState { buttons: vec![Button::Cross], ..GamepadState::default() };

    assert_eq!(
        mapper.sync(&state, &profile, false).err(),
        Some(MappingError::AccessibilityRequired)
    );
    let events = mapper.sync(&state, &profile, true).unwrap();
    apply(&mut mapper, &events);
    assert!(mapper.is_held(KeyboardKey::A));

    profile.enabled = false;
    let events = mapper.sync(&state, &profile, false).unwrap();
    assert_eq!(events, vec![KeyEvent { key: KeyboardKey::A, pressed: false }]);
    apply(&mut mapper, &events);
    assert!(!mapper.is_held(KeyboardKey::A));
    assert!(mapper.release_all().is_empty());
    assert_eq!(
        MappingError::AccessibilityRequired.message(),
        "grant Accessibility access to DualSenseTUI in System Settings"
    );
}

#[test]
fn mouse_buttons_follow_cross_circle_and_square() {
    let state = GamepadState {
        buttons: vec![Button::Square, Button::Cross],
        ..GamepadState::default()
    };
    assert_eq!(
        desired_mouse_buttons(&state),
        vec![MouseButton::Left, MouseButton::Middle]
    );
    assert_eq!(MouseButton::Left.platform_code(), 0);
    assert_eq!(MouseButton::Right.platform_code(), 1);
    assert_eq!(MouseButton::Middle.platform_code(), 2);

    let mut held = HeldMouseButtons::new();
    let events = held.plan_transition(&desired_mouse_buttons(&state));
    assert_eq!(
        events,
        vec![
            MouseButtonEvent { button: MouseButton::Left, pressed: true },
            MouseButtonEvent { button: MouseButton::Middle, pressed: true },
        ]
    );
    for event in &events {
        held.record(*event);
    }
    assert_eq!(held.dragged_button(), Some(MouseButton::Left));

    let release = held.release_all();
    assert_eq!(
        release,
        vec![
            MouseButtonEvent { button: MouseButton::Left, pressed: false },
            MouseButtonEvent { button: MouseButton::Middle, pressed: false },
        ]
    );
    for event in &release {
        held.record(*event);
    }
    assert_eq!(held.dragged_button(), None);
    assert!(!held.is_held(MouseButton::Middle));
}

#[test]
fn keys_are_posted_with_their_macos_codes() {
    assert_eq!(virtual_key_code(KeyboardKey::Disabled), None);
    assert_eq!(virtual_key_code(KeyboardKey::A), Some(0));
    assert_eq!(virtual_key_code(KeyboardKey::Space), Some(49));
    assert_eq!(virtual_key_code(KeyboardKey::Up), Some(126));
    let mut codes: Vec<u16> = KeyboardKey::ALL.iter().filter_map(|key| virtual_key_code(*key)).collect();
    let count = codes.len();
    codes.sort();
    codes.dedup();
    assert_eq!(codes.len(), count);
    assert_eq!(count, KeyboardKey::ALL.len() - 1);
}

#[test]
fn a_release_stopped_part_way_leaves_the_rest_held() {
    let mut mapper = KeyboardMapper::new();
    for key in [KeyboardKey::W, KeyboardKey::A, KeyboardKey::Space] {
        mapper.record(KeyEvent { key, pressed: true });
    }
    let releases = mapper.release_all();
    assert_eq!(releases.len(), 3);
    assert_eq!(releases[0], KeyEvent { key: KeyboardKey::W, pressed: false });
    // The first release is posted; the second fails and is not recorded.
    mapper.record(releases[0]);
    assert!(!mapper.is_held(KeyboardKey::W));
    assert!(mapper.is_held(KeyboardKey::A));
    assert!(mapper.is_held(KeyboardKey::Space));
    assert_eq!(mapper.release_all().len(), 2);
}

#[test]
fn a_transition_posts_each_changed_key_once() {
    let mut mapper = KeyboardMapper::new();
    for key in [KeyboardKey::W, KeyboardKey::A, KeyboardKey::Space] {
        mapper.record(KeyEvent { key, pressed: true });
    }
    let desired = vec![KeyboardKey::A, KeyboardKey::D, KeyboardKey::Shift];
    let events = mapper.plan_transition(&desired);
    assert_eq!(
        events,
        vec![
            KeyEvent { key: KeyboardKey::W, pressed: false },
            KeyEvent { key: KeyboardKey::Space, pressed: false },
            KeyEvent { key: KeyboardKey::D, pressed: true },
            KeyEvent { key: KeyboardKey::Shift, pressed: true },
        ]
    );
}
