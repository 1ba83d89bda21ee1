use dualsense_tui::launch_agent::{
    launch_domain, plist_path_for_home, render_plist, service_target, xml_escape, PlistError,
    DAEMON_ARGUMENT, LAUNCH_AGENT_LABEL, PLIST_FILE_NAME,
};

#[test]
fn plist_path_is_in_the_users_launch_agents_directory() {
    let home = "/tmp/dualsense-tui-home";
    assert_eq!(
        plist_path_for_home(home),
        format!("{home}/Library/LaunchAgents/{PLIST_FILE_NAME}")
    );
}

#[test]
fn rendered_plist_uses_the_daemon_argument_and_escapes_xml() {
    let plist = match render_plist("/Applications/DualSense & Co/<alpha>/DualSense \"TUI\"'.app") {
        Ok(plist) => plist,
        Err(_) => panic!("an absolute path renders"),
    };

    assert!(plist.contains(&format!("<string>{LAUNCH_AGENT_LABEL}</string>")));
    assert!(plist.contains(
        "<string>/Applications/DualSense &amp; Co/&lt;alpha&gt;/DualSense &quot;TUI&quot;&apos;.app</string>"
    ));
    assert!(plist.contains(&format!("<string>{DAEMON_ARGUMENT}</string>")));
    assert!(plist.contains("<key>RunAtLoad</key>\n    <true/>"));
    assert!(plist.contains("<key>KeepAlive</key>\n    <true/>"));
}

#[test]
fn rendered_plist_rejects_a_relative_executable_path() {
    let error = match render_plist("DualSenseTUI") {
        Ok(_) => panic!("a relative path is refused"),
        Err(error) => error,
    };
    assert!(error.message().contains("must be absolute"));
}

#[test]
fn xml_escape_rejects_characters_not_allowed_in_xml_1_0() {
    assert!(xml_escape("valid\u{0001}path").is_err());
}

#[test]
fn plist_errors_and_launchd_names() {
    assert!(matches!(
        render_plist("/bad\u{0}path"),
        Err(PlistError::InvalidXmlCharacter)
    ));
    assert_eq!(
        PlistError::InvalidXmlCharacter.message(),
        "the executable path contains a character invalid in XML 1.0"
    );
    assert_eq!(launch_domain(501), "gui/501");
    assert_eq!(
        service_target("gui/501"),
        format!("gui/501/{LAUNCH_AGENT_LABEL}")
    );
    match xml_escape("a<b") {
        Ok(escaped) => assert_eq!(escaped, "a&lt;b"),
        Err(_) => panic!("escapable text is accepted"),
    }
}
