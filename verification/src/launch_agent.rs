//! The per-user LaunchAgent that keeps the background service running: its
//! property list, the escaping of the executable path, and where it lives.
//!
//! The agent runs the same executable with `--daemon`, so reinstalling only
//! has to point the agent at the new executable.
use vstd::prelude::*;

use crate::text::{push_char, push_decimal, push_str, spec_decimal, spec_join_path, str_chars};

verus! {

/// The label registered with `launchd` for the background service.
pub const LAUNCH_AGENT_LABEL: &'static str = "com.github.minashkinvladislav.dualsensetui.autostart";

/// The file name of the agent's property list.
pub const PLIST_FILE_NAME: &'static str = "com.github.minashkinvladislav.dualsensetui.autostart.plist";

/// The argument that starts the executable as the background service.
pub const DAEMON_ARGUMENT: &'static str = "--daemon";

pub const PLIST_HEAD: &'static str = "<?xml version=\"1.0\" encoding=\"UTF-8\"?>\n<!DOCTYPE plist PUBLIC \"-//Apple//DTD PLIST 1.0//EN\" \"http://www.apple.com/DTDs/PropertyList-1.0.dtd\">\n<plist version=\"1.0\">\n<dict>\n    <key>Label</key>\n    <string>";

pub const PLIST_PROGRAM: &'static str = "</string>\n    <key>ProgramArguments</key>\n    <array>\n        <string>";

pub const PLIST_ARGUMENT: &'static str = "</string>\n        <string>";

pub const PLIST_TAIL: &'static str = "</string>\n    </array>\n    <key>RunAtLoad</key>\n    <true/>\n    <key>KeepAlive</key>\n    <true/>\n</dict>\n</plist>\n";

pub const LAUNCH_AGENTS_DIRECTORY: &'static str = "Library/LaunchAgents/";

/// Installation state of this user's LaunchAgent.
pub struct LaunchAgentStatus {
    /// Where the property list is expected.
    pub plist_path: String,
    /// Whether the property list exists.
    pub installed: bool,
    /// Whether `launchd` has the agent loaded.
    pub loaded: bool,
}

/// Why the property list could not be written.
pub enum PlistError {
    /// The executable path, which is not absolute.
    RelativeExecutable(String),
    /// The executable path holds a character XML 1.0 does not allow.
    InvalidXmlCharacter,
}

impl PlistError {
    pub open spec fn spec_message(&self) -> Seq<char> {
        match self {
            PlistError::RelativeExecutable(p) => "the LaunchAgent executable path must be absolute: "@
                + p@,
            PlistError::InvalidXmlCharacter => "the executable path contains a character invalid in XML 1.0"@,
        }
    }

    /// The sentence shown to the user.
    pub fn message(&self) -> (r: String)
        ensures
            r@ == self.spec_message(),
    {
        match self {
            PlistError::RelativeExecutable(p) => {
                let mut s = crate::text::string_of(
                    "the LaunchAgent executable path must be absolute: ",
                );
                push_str(&mut s, p.as_str());
                s
            },
            PlistError::InvalidXmlCharacter => crate::text::string_of(
                "the executable path contains a character invalid in XML 1.0",
            ),
        }
    }
}

/// The characters XML 1.0 allows in a document.
pub open spec fn spec_is_valid_xml_character(c: char) -> bool {
    let u = c as u32;
    u == 0x9 || u == 0xa || u == 0xd || (0x20 <= u && u <= 0xd7ff) || (0xe000 <= u && u <= 0xfffd)
        || (0x10000 <= u && u <= 0x10ffff)
}

/// Whether XML 1.0 allows `c` in a document.
pub fn is_valid_xml_character(c: char) -> (r: bool)
    ensures
        r == spec_is_valid_xml_character(c),
{
    let u = c as u32;
    u == 0x9 || u == 0xa || u == 0xd || (0x20 <= u && u <= 0xd7ff) || (0xe000 <= u && u <= 0xfffd)
        || (0x10000 <= u && u <= 0x10ffff)
}

/// One character as it is written in XML text.
pub open spec fn escape_char(c: char) -> Seq<char> {
    if c == '&' {
        "&amp;"@
    } else if c == '<' {
        "&lt;"@
    } else if c == '>' {
        "&gt;"@
    } else if c == '"' {
        "&quot;"@
    } else if c == '\'' {
        "&apos;"@
    } else {
        seq![c]
    }
}

/// `s` written as XML text, each character escaped in turn.
pub open spec fn escaped(s: Seq<char>) -> Seq<char>
    decreases s.len(),
{
    if s.len() == 0 {
        seq![]
    } else {
        escaped(s.drop_last()) + escape_char(s.last())
    }
}

pub open spec fn all_valid_xml(s: Seq<char>) -> bool {
    forall|i: int| 0 <= i < s.len() ==> #[trigger] spec_is_valid_xml_character(s[i])
}

/// Escapes `value` for XML text, refusing characters XML 1.0 does not allow.
pub fn xml_escape(value: &str) -> (r: Result<String, PlistError>)
    ensures
        match r {
            Ok(e) => all_valid_xml(value@) && e@ == escaped(value@),
            Err(PlistError::InvalidXmlCharacter) => !all_valid_xml(value@),
            Err(PlistError::RelativeExecutable(_)) => false,
        },
{
    let chars = str_chars(value);
    let mut out = String::new();
    let mut i: usize = 0;
    while i < chars.len()
        invariant
            i <= chars.len(),
            chars@ == value@,
            out@ == escaped(chars@.take(i as int)),
            forall|k: int| 0 <= k < i ==> #[trigger] spec_is_valid_xml_character(chars@[k]),
        decreases chars.len() - i,
    {
        let c = chars[i];
        assert(chars@.take(i + 1).drop_last() =~= chars@.take(i as int));
        if !is_valid_xml_character(c) {
            assert(!spec_is_valid_xml_character(value@[i as int]));
            return Err(PlistError::InvalidXmlCharacter);
        }
        if c == '&' {
            push_str(&mut out, "&amp;");
        } else if c == '<' {
            push_str(&mut out, "&lt;");
        } else if c == '>' {
            push_str(&mut out, "&gt;");
        } else if c == '"' {
            push_str(&mut out, "&quot;");
        } else if c == '\'' {
            push_str(&mut out, "&apos;");
        } else {
            push_char(&mut out, c);
            assert(out@ =~= escaped(chars@.take(i as int)) + seq![c]);
        }
        i = i + 1;
    }
    assert(chars@.take(i as int) =~= chars@);
    Ok(out)
}

/// An absolute path: one that begins at the root directory.
pub open spec fn is_absolute(path: Seq<char>) -> bool {
    path.len() > 0 && path[0] == '/'
}

/// The property list that runs `escaped_executable` with the daemon
/// argument at login and keeps it alive.
pub open spec fn plist_text(escaped_executable: Seq<char>) -> Seq<char> {
    PLIST_HEAD@ + LAUNCH_AGENT_LABEL@ + PLIST_PROGRAM@ + escaped_executable + PLIST_ARGUMENT@
        + DAEMON_ARGUMENT@ + PLIST_TAIL@
}

/// The property list of the LaunchAgent for this executable.
///
/// The path must be absolute; it is escaped for XML and must hold only
/// characters XML 1.0 allows.
pub fn render_plist(executable: &str) -> (r: Result<String, PlistError>)
    ensures
        match r {
            Ok(s) => is_absolute(executable@) && all_valid_xml(executable@) && s@ == plist_text(
                escaped(executable@),
            ),
            Err(PlistError::RelativeExecutable(p)) => !is_absolute(executable@) && p@
                == executable@,
            Err(PlistError::InvalidXmlCharacter) => is_absolute(executable@) && !all_valid_xml(
                executable@,
            ),
        },
{
    let chars = str_chars(executable);
    if chars.len() == 0 || chars[0] != '/' {
        return Err(PlistError::RelativeExecutable(crate::text::string_of(executable)));
    }
    let escaped_executable = match xml_escape(executable) {
        Ok(e) => e,
        Err(e) => return Err(e),
    };
    let mut s = String::new();
    push_str(&mut s, PLIST_HEAD);
    push_str(&mut s, LAUNCH_AGENT_LABEL);
    push_str(&mut s, PLIST_PROGRAM);
    push_str(&mut s, escaped_executable.as_str());
    push_str(&mut s, PLIST_ARGUMENT);
    push_str(&mut s, DAEMON_ARGUMENT);
    push_str(&mut s, PLIST_TAIL);
    Ok(s)
}

/// Where this user's LaunchAgent property list lives: in
/// `Library/LaunchAgents` under the home directory.
pub open spec fn spec_plist_path_for_home(home: Seq<char>) -> Seq<char> {
    spec_join_path(home, LAUNCH_AGENTS_DIRECTORY@ + PLIST_FILE_NAME@)
}

pub fn plist_path_for_home(home: &str) -> (r: String)
    ensures
        r@ == spec_plist_path_for_home(home@),
{
    let mut s = crate::text::join_path(home, LAUNCH_AGENTS_DIRECTORY);
    push_str(&mut s, PLIST_FILE_NAME);
    s
}

/// The `launchd` domain of the graphical session of a user: `gui/{uid}`.
pub open spec fn spec_launch_domain(uid: u32) -> Seq<char> {
    "gui/"@ + spec_decimal(uid as nat)
}

pub fn launch_domain(uid: u32) -> (r: String)
    ensures
        r@ == spec_launch_domain(uid),
{
    let mut s = crate::text::string_of("gui/");
    push_decimal(&mut s, uid as u64);
    s
}

/// The service target `launchctl print` is asked about: the domain and the
/// agent's label.
pub fn service_target(domain: &str) -> (r: String)
    ensures
        r@ == domain@ + seq!['/'] + LAUNCH_AGENT_LABEL@,
{
    let mut s = crate::text::string_of(domain);
    push_char(&mut s, '/');
    push_str(&mut s, LAUNCH_AGENT_LABEL);
    s
}

/// Escaped XML text holds no character that could open or close markup or
/// an attribute: `<`, `>`, `"` and `'` appear only inside entities.
pub proof fn lemma_escaped_text_has_no_markup(s: Seq<char>)
    ensures
        forall|i: int|
            0 <= i < escaped(s).len() ==> {
                let c = #[trigger] escaped(s)[i];
                c != '<' && c != '>' && c != '"' && c != '\''
            },
    decreases s.len(),
{
    if s.len() > 0 {
        lemma_escaped_text_has_no_markup(s.drop_last());
        let prev = escaped(s.drop_last());
        let tail = escape_char(s.last());
        reveal_strlit("&amp;");
        reveal_strlit("&lt;");
        reveal_strlit("&gt;");
        reveal_strlit("&quot;");
        reveal_strlit("&apos;");
        assert forall|i: int| 0 <= i < escaped(s).len() implies {
            let c = #[trigger] escaped(s)[i];
            c != '<' && c != '>' && c != '"' && c != '\''
        } by {
            if i < prev.len() {
                assert(escaped(s)[i] == prev[i]);
            } else {
                assert(escaped(s)[i] == tail[i - prev.len()]);
            }
        }
    }
}

} // verus!
