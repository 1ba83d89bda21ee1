use dualsense_tui::config::{
    config_root, daemon_socket_path, device_profile_file_name, find_named_profile,
    is_valid_named_profile_id, named_profile_descriptor, named_profile_entry, named_profile_id,
    named_profiles_path, normalize_named_profile_name, profile_path, profile_path_for_device,
    sort_named_profiles, temporary_file_name, usable_address, NamedProfile, NamedProfileError,
};

#[test]
fn device_profile_file_name_normalizes_common_mac_formats() {
    let expected = "aa-bb-cc-dd-ee-ff.json";

    for mac_address in [
        "AA:BB:CC:DD:EE:FF",
        "aa-bb-cc-dd-ee-ff",
        "aabbccddeeff",
        " aa bb cc dd ee ff ",
    ] {
        assert_eq!(device_profile_file_name(mac_address), expected);
    }
}

#[test]
fn device_profile_file_name_sanitizes_unexpected_input() {
    let file_name = device_profile_file_name("../../Controller Profile/1");

    assert_eq!(file_name, "controller-profile-1.json");
    assert!(!file_name.contains('/'));
    assert!(!file_name.contains('\\'));
}

#[test]
fn device_profile_file_name_falls_back_to_unknown_and_caps_length() {
    assert_eq!(device_profile_file_name("::--::"), "unknown.json");
    assert_eq!(device_profile_file_name(""), "unknown.json");
    let long = "x".repeat(200);
    let name = device_profile_file_name(&long);
    assert_eq!(name, format!("{}.json", "x".repeat(96)));
    // Eleven hex digits are not a MAC address and are kept as a sanitized name.
    assert_eq!(device_profile_file_name("AA:BB:CC:DD:EE:F"), "aa-bb-cc-dd-ee-f.json");
}

#[test]
fn named_profiles_reject_blank_or_unsafe_names_without_touching_disk() {
    assert_eq!(
        normalize_named_profile_name("   ").err(),
        Some(NamedProfileError::EmptyName)
    );
    assert_eq!(
        named_profile_descriptor("///").err(),
        Some(NamedProfileError::NoAlphanumeric)
    );
    assert_eq!(
        normalize_named_profile_name(&"a".repeat(49)).err(),
        Some(NamedProfileError::NameTooLong)
    );
    assert_eq!(
        normalize_named_profile_name("bad\u{7}name").err(),
        Some(NamedProfileError::ControlCharacter)
    );
    assert_eq!(
        NamedProfileError::NameTooLong.message(),
        "profile name must be at most 48 characters"
    );
    assert_eq!(
        NamedProfileError::NoAlphanumeric.message(),
        "profile name must include at least one letter or number"
    );
}

#[test]
fn named_profile_names_are_trimmed_and_ids_are_lower_case_runs() {
    assert_eq!(normalize_named_profile_name("  Racing  ").unwrap(), "Racing");
    assert_eq!(named_profile_id("Racing").unwrap(), "racing");
    assert_eq!(named_profile_id("  My -- Best__Setup! ").unwrap(), "my-best-setup");
    let descriptor = named_profile_descriptor("Гонки 2026").unwrap();
    assert_eq!(descriptor.name, "Гонки 2026");
    assert_eq!(descriptor.id, "гонки-2026");
    assert!(descriptor
        .id
        .chars()
        .all(|character| character.is_alphanumeric() || character == '-'));
}

#[test]
fn named_profile_ids_are_capped_at_96_bytes() {
    let id = named_profile_id(&"ab ".repeat(40)).unwrap();
    assert!(id.len() <= 96);
    assert!(!id.ends_with('-'));
    let wide = named_profile_id(&"ж".repeat(60)).unwrap();
    assert_eq!(wide.len(), 96);
}

#[test]
fn named_profile_id_validation() {
    assert!(is_valid_named_profile_id("racing-2"));
    assert!(!is_valid_named_profile_id(""));
    assert!(!is_valid_named_profile_id("../../racing"));
    assert!(!is_valid_named_profile_id(&"a".repeat(97)));
    assert!(is_valid_named_profile_id(&"a".repeat(96)));
}

#[test]
fn library_entries_need_a_matching_identifier() {
    let entry = named_profile_entry("racing", "Racing").unwrap();
    assert_eq!(entry.id, "racing");
    assert_eq!(entry.name, "Racing");
    assert!(named_profile_entry("racing", "Rally").is_none());
    assert!(named_profile_entry("../racing", "Racing").is_none());
    assert!(named_profile_entry("racing", "   ").is_none());
}

#[test]
fn library_is_sorted_by_lower_case_name_then_identifier() {
    let profiles = vec![
        NamedProfile { id: "racing".to_string(), name: "Racing".to_string() },
        NamedProfile { id: "fps".to_string(), name: "FPS".to_string() },
        NamedProfile { id: "arcade".to_string(), name: "arcade".to_string() },
    ];
    let sorted = sort_named_profiles(profiles);
    let ids: Vec<&str> = sorted.iter().map(|p| p.id.as_str()).collect();
    assert_eq!(ids, ["arcade", "fps", "racing"]);
    assert_eq!(find_named_profile(&sorted, "fps"), Some(1));
    assert_eq!(find_named_profile(&sorted, "../../racing"), None);
}

#[test]
fn sorting_keeps_profiles_with_equal_keys_in_their_order() {
    let entry = |id: &str, name: &str| NamedProfile { id: id.to_string(), name: name.to_string() };
    let profiles = vec![entry("b", "Zed"), entry("a", "Same"), entry("b", "zed"), entry("a", "SAME")];
    let sorted = sort_named_profiles(profiles);
    let names: Vec<&str> = sorted.iter().map(|p| p.name.as_str()).collect();
    assert_eq!(names, ["Same", "SAME", "Zed", "zed"]);
}

#[test]
fn configuration_paths_follow_the_environment() {
    assert_eq!(
        config_root(Some("/xdg".to_string()), Some("/home/u".to_string())),
        "/xdg"
    );
    assert_eq!(
        config_root(Some("  ".to_string()), Some("/home/u".to_string())),
        "/home/u/.config"
    );
    assert_eq!(config_root(None, Some("".to_string())), ".");
    assert_eq!(profile_path("/c"), "/c/DualSenseTUI/profile.json");
    assert_eq!(daemon_socket_path("/c/"), "/c/DualSenseTUI/daemon.sock");
    assert_eq!(
        profile_path_for_device("/c", "AA:BB:CC:DD:EE:FF"),
        "/c/DualSenseTUI/profiles/aa-bb-cc-dd-ee-ff.json"
    );
    assert_eq!(named_profiles_path("/c"), "/c/DualSenseTUI/saved-profiles");
    assert_eq!(usable_address(Some("  ")), None);
    assert_eq!(usable_address(Some("aa")), Some("aa"));
    assert_eq!(
        temporary_file_name(Some("profile.json"), 12, 3),
        ".profile.json.12.3.tmp"
    );
    assert_eq!(temporary_file_name(None, 1, 0), ".profile.json.1.0.tmp");
}

#[test]
fn named_profiles_reject_blank_or_unsafe_names() {
    assert!(named_profile_descriptor("   ").is_err());
    assert!(named_profile_descriptor("///").is_err());
}

#[test]
fn named_profiles_preserve_unicode_names() {
    let saved = named_profile_descriptor("Гонки 2026").unwrap();
    assert_eq!(saved.name, "Гонки 2026");
    assert!(saved
        .id
        .chars()
        .all(|character| { character.is_alphanumeric() || character == '-' }));
}

#[test]
fn names_with_a_letter_or_digit_are_accepted() {
    let d = named_profile_descriptor("  !x! ").unwrap();
    assert_eq!(d.name, "!x!");
    assert_eq!(d.id, "x");
    assert_eq!(named_profile_descriptor("7").unwrap().id, "7");
    assert_eq!(named_profile_descriptor("--Ab--").unwrap().id, "ab");
}
