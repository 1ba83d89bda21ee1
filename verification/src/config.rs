//! Profile storage naming: the file a controller's profile is kept in, the
//! names and identifiers of saved profiles, and the configuration directory.
use vstd::prelude::*;

use crate::text::{
    join_path, spec_join_path, ascii_lower_char, is_blank, is_control_char, push_char, push_chars, push_decimal, push_str,
    spec_decimal, str_chars, str_is_blank, trim_chars, trim_end_char, trim_start_char, trim_ws,
};

verus! {

/// Longest accepted saved-profile name, in characters.
pub const MAX_NAMED_PROFILE_NAME_LENGTH: usize = 48;

/// Longest saved-profile identifier, in UTF-8 bytes.
pub const MAX_NAMED_PROFILE_ID_BYTES: usize = 96;

/// Longest file stem kept from an address that is not a MAC address.
pub const MAX_SANITIZED_STEM_LENGTH: usize = 96;

// ---------------------------------------------------------------------------
// Device profile file names
// ---------------------------------------------------------------------------

pub open spec fn is_ascii_hex_digit(c: char) -> bool {
    let u = c as u32;
    (0x30 <= u && u <= 0x39) || (0x41 <= u && u <= 0x46) || (0x61 <= u && u <= 0x66)
}

pub open spec fn is_ascii_alphanumeric(c: char) -> bool {
    let u = c as u32;
    (0x30 <= u && u <= 0x39) || (0x41 <= u && u <= 0x5a) || (0x61 <= u && u <= 0x7a)
}

/// The hexadecimal digits of `s`, in order and in lower case.
pub open spec fn compact_hex(s: Seq<char>) -> Seq<char>
    decreases s.len(),
{
    if s.len() == 0 {
        seq![]
    } else if is_ascii_hex_digit(s.last()) {
        compact_hex(s.drop_last()).push(ascii_lower_char(s.last()))
    } else {
        compact_hex(s.drop_last())
    }
}

/// Character `k` of twelve hex digits written as six dash-separated pairs.
pub open spec fn dashed_mac_char(hex: Seq<char>, k: int) -> char {
    if k % 3 == 2 {
        '-'
    } else {
        hex[(k / 3) * 2 + k % 3]
    }
}

/// Twelve hex digits written as `aa-bb-cc-dd-ee-ff`.
pub open spec fn dashed_mac(hex: Seq<char>) -> Seq<char> {
    Seq::new(17, |k: int| dashed_mac_char(hex, k))
}

/// An ASCII letter or digit in lower case; anything else becomes a dash.
pub open spec fn sanitize_char(c: char) -> char {
    if is_ascii_alphanumeric(c) {
        ascii_lower_char(c)
    } else {
        '-'
    }
}

/// `s` with every character sanitized and the dashes at both ends removed.
pub open spec fn sanitized_stem(s: Seq<char>) -> Seq<char> {
    trim_end_char(trim_start_char(s.map_values(|c: char| sanitize_char(c)), '-'), '-')
}

pub open spec fn json_extension() -> Seq<char> {
    seq!['.', 'j', 's', 'o', 'n']
}

pub open spec fn unknown_stem() -> Seq<char> {
    seq!['u', 'n', 'k', 'n', 'o', 'w', 'n']
}

/// The file name of the profile saved for a controller with this address:
/// a MAC address in any common notation gives `aa-bb-cc-dd-ee-ff.json`;
/// anything else is sanitized to ASCII letters, digits and dashes, cut to
/// 96 characters, and is `unknown.json` when nothing is left.
pub open spec fn spec_device_profile_file_name(mac: Seq<char>) -> Seq<char> {
    let hex = compact_hex(mac);
    if hex.len() == 12 {
        dashed_mac(hex) + json_extension()
    } else {
        let stem = sanitized_stem(mac);
        if stem.len() == 0 {
            unknown_stem() + json_extension()
        } else if stem.len() > MAX_SANITIZED_STEM_LENGTH {
            stem.take(MAX_SANITIZED_STEM_LENGTH as int) + json_extension()
        } else {
            stem + json_extension()
        }
    }
}

fn char_is_ascii_hex_digit(c: char) -> (r: bool)
    ensures
        r == is_ascii_hex_digit(c),
{
    let u = c as u32;
    (0x30 <= u && u <= 0x39) || (0x41 <= u && u <= 0x46) || (0x61 <= u && u <= 0x66)
}

fn char_is_ascii_alphanumeric(c: char) -> (r: bool)
    ensures
        r == is_ascii_alphanumeric(c),
{
    let u = c as u32;
    (0x30 <= u && u <= 0x39) || (0x41 <= u && u <= 0x5a) || (0x61 <= u && u <= 0x7a)
}

/// `s` without the given character at either end.
pub fn trim_char(s: &Vec<char>, c: char) -> (r: Vec<char>)
    ensures
        r@ == trim_end_char(trim_start_char(s@, c), c),
{
    let mut i: usize = 0;
    assert(s@.subrange(0, s@.len() as int) =~= s@);
    while i < s.len() && s[i] == c
        invariant
            i <= s.len(),
            trim_start_char(s@, c) == trim_start_char(s@.subrange(i as int, s@.len() as int), c),
        decreases s.len() - i,
    {
        assert(s@.subrange(i as int, s@.len() as int).drop_first() =~= s@.subrange(
            i + 1,
            s@.len() as int,
        ));
        i = i + 1;
    }
    let ghost start = s@.subrange(i as int, s@.len() as int);
    assert(trim_start_char(s@, c) == start);
    let mut j: usize = s.len();
    assert(start.subrange(0, start.len() as int) =~= start);
    while j > i && s[j - 1] == c
        invariant
            i <= j <= s.len(),
            start == s@.subrange(i as int, s@.len() as int),
            trim_end_char(start, c) == trim_end_char(start.subrange(0, j - i), c),
        decreases j,
    {
        assert(start.subrange(0, j - i).drop_last() =~= start.subrange(0, j - i - 1));
        j = j - 1;
    }
    let mut r: Vec<char> = Vec::new();
    let mut k: usize = i;
    while k < j
        invariant
            i <= k <= j,
            j <= s.len(),
            r@ == s@.subrange(i as int, k as int),
        decreases j - k,
    {
        r.push(s[k]);
        assert(r@ =~= s@.subrange(i as int, k + 1));
        k = k + 1;
    }
    assert(r@ =~= start.subrange(0, j - i));
    r
}

fn push_json_extension(s: &mut String)
    ensures
        final(s)@ == old(s)@ + json_extension(),
{
    push_str(s, ".json");
    proof {
        reveal_strlit(".json");
    }
}

/// The file name of the profile saved for the controller with this address.
///
/// Colon-, dash- and space-separated MAC addresses select the same file;
/// other input is reduced to a safe name that cannot leave its directory.
pub fn device_profile_file_name(mac_address: &str) -> (r: String)
    ensures
        r@ == spec_device_profile_file_name(mac_address@),
{
    let chars = str_chars(mac_address);
    let mut hex: Vec<char> = Vec::new();
    let mut i: usize = 0;
    while i < chars.len()
        invariant
            i <= chars.len(),
            hex@ == compact_hex(chars@.take(i as int)),
        decreases chars.len() - i,
    {
        let c = chars[i];
        assert(chars@.take(i + 1).drop_last() =~= chars@.take(i as int));
        if char_is_ascii_hex_digit(c) {
            let lower = crate::text::lower_ascii_char(c);
            hex.push(lower);
        }
        i = i + 1;
    }
    assert(chars@.take(chars@.len() as int) =~= chars@);
    let mut name = String::new();
    if hex.len() == 12 {
        let mut k: usize = 0;
        while k < 17
            invariant
                k <= 17,
                hex@.len() == 12,
                name@.len() == k,
                forall|m: int| 0 <= m < k ==> name@[m] == #[trigger] dashed_mac_char(hex@, m),
            decreases 17 - k,
        {
            if k % 3 == 2 {
                push_char(&mut name, '-');
            } else {
                push_char(&mut name, hex[(k / 3) * 2 + k % 3]);
            }
            k = k + 1;
        }
        assert(name@ =~= dashed_mac(hex@));
        push_json_extension(&mut name);
        return name;
    }
    let mut sanitized: Vec<char> = Vec::new();
    let mut m: usize = 0;
    while m < chars.len()
        invariant
            m <= chars.len(),
            sanitized@ =~= chars@.take(m as int).map_values(|c: char| sanitize_char(c)),
        decreases chars.len() - m,
    {
        let c = chars[m];
        if char_is_ascii_alphanumeric(c) {
            sanitized.push(crate::text::lower_ascii_char(c));
        } else {
            sanitized.push('-');
        }
        m = m + 1;
    }
    assert(chars@.take(chars@.len() as int) =~= chars@);
    let stem = trim_char(&sanitized, '-');
    if stem.len() == 0 {
        push_str(&mut name, "unknown");
        proof {
            reveal_strlit("unknown");
        }
        assert(name@ =~= unknown_stem());
    } else {
        let mut k: usize = 0;
        while k < stem.len() && k < MAX_SANITIZED_STEM_LENGTH
            invariant
                k <= stem.len(),
                k <= MAX_SANITIZED_STEM_LENGTH,
                name@ == stem@.take(k as int),
            decreases stem.len() - k,
        {
            push_char(&mut name, stem[k]);
            assert(stem@.take(k + 1) =~= stem@.take(k as int).push(stem@[k as int]));
            k = k + 1;
        }
        assert(stem@.take(stem@.len() as int) =~= stem@);
    }
    push_json_extension(&mut name);
    name
}

// ---------------------------------------------------------------------------
// Saved-profile names and identifiers
// ---------------------------------------------------------------------------

/// Why a saved-profile name was refused.
#[derive(Clone, Copy, Debug, PartialEq, Eq, Structural)]
pub enum NamedProfileError {
    EmptyName,
    NameTooLong,
    ControlCharacter,
    NoAlphanumeric,
}

impl NamedProfileError {
    pub open spec fn spec_message(self) -> Seq<char> {
        match self {
            Self::EmptyName => "profile name cannot be empty"@,
            Self::NameTooLong => "profile name must be at most 48 characters"@,
            Self::ControlCharacter => "profile name cannot contain control characters"@,
            Self::NoAlphanumeric => "profile name must include at least one letter or number"@,
        }
    }

    /// The sentence shown to the user.
    pub fn message(&self) -> (r: String)
        ensures
            r@ == self.spec_message(),
    {
        match self {
            Self::EmptyName => crate::text::string_of("profile name cannot be empty"),
            Self::NameTooLong => crate::text::string_of(
                "profile name must be at most 48 characters",
            ),
            Self::ControlCharacter => crate::text::string_of(
                "profile name cannot contain control characters",
            ),
            Self::NoAlphanumeric => crate::text::string_of(
                "profile name must include at least one letter or number",
            ),
        }
    }
}

pub open spec fn has_control_char(s: Seq<char>) -> bool {
    exists|i: int| 0 <= i < s.len() && #[trigger] is_control_char(s[i])
}

/// What `normalize_named_profile_name` gives: the name without surrounding
/// whitespace, or why it is refused.
pub open spec fn spec_normalized_name(name: Seq<char>) -> Result<Seq<char>, NamedProfileError> {
    let t = trim_ws(name);
    if t.len() == 0 {
        Err(NamedProfileError::EmptyName)
    } else if t.len() > MAX_NAMED_PROFILE_NAME_LENGTH {
        Err(NamedProfileError::NameTooLong)
    } else if has_control_char(t) {
        Err(NamedProfileError::ControlCharacter)
    } else {
        Ok(t)
    }
}

/// Trims a saved-profile name and checks that it is not empty, at most 48
/// characters long and free of control characters.
pub fn normalize_named_profile_name(name: &str) -> (r: Result<String, NamedProfileError>)
    ensures
        match (r, spec_normalized_name(name@)) {
            (Ok(s), Ok(t)) => s@ == t,
            (Err(e), Err(f)) => e == f,
            _ => false,
        },
{
    let chars = str_chars(name);
    let t = trim_chars(&chars);
    if t.len() == 0 {
        return Err(NamedProfileError::EmptyName);
    }
    if t.len() > MAX_NAMED_PROFILE_NAME_LENGTH {
        return Err(NamedProfileError::NameTooLong);
    }
    let mut i: usize = 0;
    while i < t.len()
        invariant
            i <= t.len(),
            t@ == trim_ws(name@),
            0 < t.len() <= MAX_NAMED_PROFILE_NAME_LENGTH,
            forall|k: int| 0 <= k < i ==> !#[trigger] is_control_char(t@[k]),
        decreases t.len() - i,
    {
        if crate::text::char_is_control(t[i]) {
            assert(is_control_char(t@[i as int]));
            assert(has_control_char(t@));
            return Err(NamedProfileError::ControlCharacter);
        }
        i = i + 1;
    }
    let mut s = String::new();
    push_chars(&mut s, &t);
    assert(s@ =~= t@);
    Ok(s)
}

/// Whether `char::is_alphanumeric` holds of `c`: the Unicode `Alphabetic`
/// or `Numeric` property.
pub uninterp spec fn unicode_alphanumeric(c: char) -> bool;

/// The characters `char::to_lowercase` yields for `c`.
pub uninterp spec fn unicode_lowercase(c: char) -> Seq<char>;

/// Calls std's `char::is_alphanumeric`; the contract names its result and
/// claims nothing more of it.
#[verifier::external_body]
fn char_is_alphanumeric(c: char) -> (r: bool)
    ensures
        r == unicode_alphanumeric(c),
{
    c.is_alphanumeric()
}

/// Calls std's `char::to_lowercase` and collects what it yields; the
/// contract names the result and claims of it only what std documents:
/// the lowercase mapping is one or more characters.
#[verifier::external_body]
fn char_to_lowercase(c: char) -> (r: Vec<char>)
    ensures
        r@ == unicode_lowercase(c),
        r@.len() >= 1,
{
    c.to_lowercase().collect()
}

/// Bytes of `c` in UTF-8, as `char::len_utf8` gives.
pub open spec fn utf8_len(c: char) -> nat {
    let u = c as u32;
    if u < 0x80 {
        1
    } else if u < 0x800 {
        2
    } else if u < 0x10000 {
        3
    } else {
        4
    }
}

/// Bytes of `s` in UTF-8.
pub open spec fn utf8_width(s: Seq<char>) -> nat
    decreases s.len(),
{
    if s.len() == 0 {
        0
    } else {
        utf8_width(s.drop_last()) + utf8_len(s.last())
    }
}

pub fn char_utf8_len(c: char) -> (r: usize)
    ensures
        r == utf8_len(c),
{
    let u = c as u32;
    if u < 0x80 {
        1
    } else if u < 0x800 {
        2
    } else if u < 0x10000 {
        3
    } else {
        4
    }
}

/// `lower` appended to `id` one character at a time, up to the first that
/// would take the identifier past its byte limit; the flag tells whether
/// one did not fit.
pub open spec fn push_within_limit(id: Seq<char>, lower: Seq<char>) -> (Seq<char>, bool)
    decreases lower.len(),
{
    if lower.len() == 0 {
        (id, false)
    } else if utf8_width(id) + utf8_len(lower[0]) > MAX_NAMED_PROFILE_ID_BYTES {
        (id, true)
    } else {
        push_within_limit(id.push(lower[0]), lower.drop_first())
    }
}

/// One character of a name folded into the identifier being built: the
/// identifier so far, whether a separator is pending, whether the byte
/// limit stopped the scan.
pub open spec fn id_step(state: (Seq<char>, bool, bool), c: char) -> (Seq<char>, bool, bool) {
    let id = state.0;
    let pending = state.1;
    if state.2 {
        state
    } else if !unicode_alphanumeric(c) {
        (id, true, false)
    } else if pending && id.len() > 0 && utf8_width(id) + 1 > MAX_NAMED_PROFILE_ID_BYTES {
        (id, pending, true)
    } else {
        let with_separator = if pending && id.len() > 0 {
            id.push('-')
        } else {
            id
        };
        let pushed = push_within_limit(with_separator, unicode_lowercase(c));
        (pushed.0, false, pushed.1)
    }
}

/// The identifier state after the characters of `s`.
pub open spec fn id_scan(s: Seq<char>) -> (Seq<char>, bool, bool)
    decreases s.len(),
{
    if s.len() == 0 {
        (seq![], false, false)
    } else {
        id_step(id_scan(s.drop_last()), s.last())
    }
}

/// The identifier a saved-profile name is stored under: runs of letters and
/// digits in lower case, joined by single dashes, at most 96 bytes.
pub open spec fn spec_named_profile_id(name: Seq<char>) -> Result<Seq<char>, NamedProfileError> {
    let id = trim_end_char(trim_start_char(id_scan(name).0, '-'), '-');
    if id.len() == 0 {
        Err(NamedProfileError::NoAlphanumeric)
    } else {
        Ok(id)
    }
}

proof fn lemma_id_scan_stopped(s: Seq<char>, i: int)
    requires
        0 <= i <= s.len(),
        id_scan(s.take(i)).2,
    ensures
        id_scan(s) == id_scan(s.take(i)),
    decreases s.len() - i,
{
    if i < s.len() {
        assert(s.take(i + 1).drop_last() =~= s.take(i));
        lemma_id_scan_stopped(s, i + 1);
    } else {
        assert(s.take(i) =~= s);
    }
}

proof fn lemma_utf8_width_push(s: Seq<char>, c: char)
    ensures
        utf8_width(s.push(c)) == utf8_width(s) + utf8_len(c),
{
    assert(s.push(c).drop_last() =~= s);
}

/// The identifier a saved profile of this name is stored under.
pub fn named_profile_id(name: &str) -> (r: Result<String, NamedProfileError>)
    ensures
        match (r, spec_named_profile_id(name@)) {
            (Ok(s), Ok(t)) => s@ == t,
            (Err(e), Err(f)) => e == f,
            _ => false,
        },
{
    let chars = str_chars(name);
    let mut id: Vec<char> = Vec::new();
    let mut width: usize = 0;
    let mut pending = false;
    let mut stopped = false;
    let mut i: usize = 0;
    while i < chars.len() && !stopped
        invariant
            i <= chars.len(),
            chars@ == name@,
            id_scan(chars@.take(i as int)) == (id@, pending, stopped),
            width == utf8_width(id@),
            width <= MAX_NAMED_PROFILE_ID_BYTES,
        decreases chars.len() - i,
    {
        let c = chars[i];
        let ghost before = (id@, pending, stopped);
        assert(chars@.take(i + 1).drop_last() =~= chars@.take(i as int));
        assert(chars@.take(i + 1).last() == c);
        if !char_is_alphanumeric(c) {
            pending = true;
        } else if pending && id.len() > 0 && width + 1 > MAX_NAMED_PROFILE_ID_BYTES {
            stopped = true;
        } else {
            if pending && id.len() > 0 {
                proof {
                    lemma_utf8_width_push(id@, '-');
                }
                id.push('-');
                width = width + 1;
            }
            pending = false;
            let lower = char_to_lowercase(c);
            let ghost start = id@;
            let mut j: usize = 0;
            let mut over = false;
            assert(lower@.skip(0) =~= lower@);
            while j < lower.len() && !over
                invariant
                    j <= lower.len(),
                    width == utf8_width(id@),
                    width <= MAX_NAMED_PROFILE_ID_BYTES,
                    !over ==> push_within_limit(start, lower@) == push_within_limit(
                        id@,
                        lower@.skip(j as int),
                    ),
                    over ==> push_within_limit(start, lower@) == (id@, true),
                decreases (lower.len() - j) * 2 + (if over { 0int } else { 1int }),
            {
                let l = lower[j];
                let n = char_utf8_len(l);
                assert(lower@.skip(j as int)[0] == l);
                if width + n > MAX_NAMED_PROFILE_ID_BYTES {
                    over = true;
                } else {
                    proof {
                        lemma_utf8_width_push(id@, l);
                        assert(lower@.skip(j as int).drop_first() =~= lower@.skip(j + 1));
                    }
                    id.push(l);
                    width = width + n;
                    j = j + 1;
                }
            }
            if !over {
                assert(lower@.skip(j as int).len() == 0);
            }
            stopped = over;
        }
        i = i + 1;
    }
    proof {
        if stopped {
            lemma_id_scan_stopped(chars@, i as int);
        } else {
            assert(chars@.take(i as int) =~= chars@);
        }
    }
    let trimmed = trim_char(&id, '-');
    if trimmed.len() == 0 {
        return Err(NamedProfileError::NoAlphanumeric);
    }
    let mut s = String::new();
    push_chars(&mut s, &trimmed);
    assert(s@ =~= trimmed@);
    Ok(s)
}

/// Whether `id` could name a saved profile: not empty, at most 96 bytes,
/// and only letters, digits and dashes.
pub open spec fn spec_is_valid_named_profile_id(id: Seq<char>) -> bool {
    &&& id.len() > 0
    &&& utf8_width(id) <= MAX_NAMED_PROFILE_ID_BYTES
    &&& forall|i: int|
        0 <= i < id.len() ==> (#[trigger] unicode_alphanumeric(id[i]) || id[i] == '-')
}

proof fn lemma_utf8_width_monotone(s: Seq<char>, i: int)
    requires
        0 <= i <= s.len(),
    ensures
        utf8_width(s.take(i)) <= utf8_width(s),
    decreases s.len() - i,
{
    if i < s.len() {
        lemma_utf8_width_monotone(s, i + 1);
        assert(s.take(i + 1).drop_last() =~= s.take(i));
    } else {
        assert(s.take(i) =~= s);
    }
}

/// Whether `id` could name a saved profile.
pub fn is_valid_named_profile_id(id: &str) -> (r: bool)
    ensures
        r == spec_is_valid_named_profile_id(id@),
{
    let chars = str_chars(id);
    if chars.len() == 0 {
        return false;
    }
    let mut width: usize = 0;
    let mut i: usize = 0;
    while i < chars.len()
        invariant
            i <= chars.len(),
            chars@ == id@,
            width == utf8_width(chars@.take(i as int)),
            width <= MAX_NAMED_PROFILE_ID_BYTES,
            forall|k: int|
                0 <= k < i ==> (#[trigger] unicode_alphanumeric(chars@[k]) || chars@[k] == '-'),
        decreases chars.len() - i,
    {
        let c = chars[i];
        assert(chars@.take(i + 1).drop_last() =~= chars@.take(i as int));
        let n = char_utf8_len(c);
        if width + n > MAX_NAMED_PROFILE_ID_BYTES {
            proof {
                lemma_utf8_width_monotone(chars@, i + 1);
            }
            return false;
        }
        width = width + n;
        if !(c == '-' || char_is_alphanumeric(c)) {
            return false;
        }
        i = i + 1;
    }
    assert(chars@.take(i as int) =~= chars@);
    true
}

// ---------------------------------------------------------------------------
// The saved-profile library
// ---------------------------------------------------------------------------

/// A reusable, user-named profile, stored apart from the profile that a
/// controller applies automatically.
pub struct NamedProfile {
    pub id: String,
    pub name: String,
}

/// The descriptor a profile saved under `name` gets, or why the name is
/// refused.
pub open spec fn spec_named_profile_descriptor(name: Seq<char>) -> Result<(Seq<char>, Seq<char>), NamedProfileError> {
    match spec_normalized_name(name) {
        Err(e) => Err(e),
        Ok(n) => match spec_named_profile_id(n) {
            Err(e) => Err(e),
            Ok(id) => Ok((id, n)),
        },
    }
}

/// The descriptor under which a profile named `name` is saved: the trimmed
/// name and the identifier derived from it.
pub fn named_profile_descriptor(name: &str) -> (r: Result<NamedProfile, NamedProfileError>)
    ensures
        match (r, spec_named_profile_descriptor(name@)) {
            (Ok(p), Ok(d)) => p.id@ == d.0 && p.name@ == d.1,
            (Err(e), Err(f)) => e == f,
            _ => false,
        },
{
    let name = match normalize_named_profile_name(name) {
        Ok(n) => n,
        Err(e) => return Err(e),
    };
    let id = match named_profile_id(name.as_str()) {
        Ok(i) => i,
        Err(e) => return Err(e),
    };
    Ok(NamedProfile { id, name })
}

fn chars_equal(a: &Vec<char>, b: &Vec<char>) -> (r: bool)
    ensures
        r == (a@ == b@),
{
    if a.len() != b.len() {
        return false;
    }
    let mut i: usize = 0;
    while i < a.len()
        invariant
            i <= a.len(),
            a.len() == b.len(),
            forall|k: int| 0 <= k < i ==> a@[k] == b@[k],
        decreases a.len() - i,
    {
        if a[i] != b[i] {
            return false;
        }
        i = i + 1;
    }
    assert(a@ =~= b@);
    true
}

/// Whether a file of the library with this stem, holding a profile saved
/// under `document_name`, is listed: the stem is a valid identifier, the
/// name is acceptable, and the name derives exactly that identifier.
pub open spec fn spec_named_profile_entry(stem: Seq<char>, document_name: Seq<char>) -> Option<Seq<char>> {
    if !spec_is_valid_named_profile_id(stem) {
        None
    } else {
        match spec_normalized_name(document_name) {
            Err(_) => None,
            Ok(n) => if spec_named_profile_id(n) == Ok::<Seq<char>, NamedProfileError>(stem) {
                Some(n)
            } else {
                None
            },
        }
    }
}

/// The library entry for a saved-profile file, or `None` where the file is
/// skipped.
pub fn named_profile_entry(stem: &str, document_name: &str) -> (r: Option<NamedProfile>)
    ensures
        match (r, spec_named_profile_entry(stem@, document_name@)) {
            (Some(p), Some(n)) => p.id@ == stem@ && p.name@ == n,
            (None, None) => true,
            _ => false,
        },
{
    if !is_valid_named_profile_id(stem) {
        return None;
    }
    let name = match normalize_named_profile_name(document_name) {
        Ok(n) => n,
        Err(_) => return None,
    };
    let expected = match named_profile_id(name.as_str()) {
        Ok(i) => i,
        Err(_) => return None,
    };
    let expected_chars = str_chars(expected.as_str());
    let stem_chars = str_chars(stem);
    if !chars_equal(&expected_chars, &stem_chars) {
        return None;
    }
    Some(NamedProfile { id: crate::text::string_of(stem), name })
}

/// The position of the first profile with identifier `id`.
pub fn find_named_profile(profiles: &Vec<NamedProfile>, id: &str) -> (r: Option<usize>)
    ensures
        match r {
            Some(i) => i < profiles.len() && profiles@[i as int].id@ == id@ && forall|k: int|
                0 <= k < i ==> (#[trigger] profiles@[k]).id@ != id@,
            None => forall|k: int| 0 <= k < profiles.len() ==> (#[trigger] profiles@[k]).id@ != id@,
        },
{
    let wanted = str_chars(id);
    let mut i: usize = 0;
    while i < profiles.len()
        invariant
            i <= profiles.len(),
            wanted@ == id@,
            forall|k: int| 0 <= k < i ==> (#[trigger] profiles@[k]).id@ != id@,
        decreases profiles.len() - i,
    {
        let candidate = str_chars(profiles[i].id.as_str());
        if chars_equal(&candidate, &wanted) {
            return Some(i);
        }
        i = i + 1;
    }
    None
}

/// What `str::to_lowercase` gives for a string with these characters.
pub uninterp spec fn unicode_str_lowercase(s: Seq<char>) -> Seq<char>;

/// Calls std's `str::to_lowercase`; the contract names its result and
/// claims nothing more of it.
#[verifier::external_body]
fn str_to_lowercase(s: &str) -> (r: Vec<char>)
    ensures
        r@ == unicode_str_lowercase(s@),
{
    s.to_lowercase().chars().collect()
}

/// Strict order of character sequences by code point, shorter prefixes
/// first; the order of UTF-8 strings compared byte by byte.
pub open spec fn chars_lt(a: Seq<char>, b: Seq<char>) -> bool
    decreases a.len(),
{
    if b.len() == 0 {
        false
    } else if a.len() == 0 {
        true
    } else if (a[0] as u32) < (b[0] as u32) {
        true
    } else if a[0] == b[0] {
        chars_lt(a.drop_first(), b.drop_first())
    } else {
        false
    }
}

/// The order of the library: by lower-cased name, then by identifier.
pub open spec fn profile_key(p: NamedProfile) -> (Seq<char>, Seq<char>) {
    (unicode_str_lowercase(p.name@), p.id@)
}

pub open spec fn key_lt(a: (Seq<char>, Seq<char>), b: (Seq<char>, Seq<char>)) -> bool {
    chars_lt(a.0, b.0) || (a.0 == b.0 && chars_lt(a.1, b.1))
}

/// Whether a profile has this key.
pub open spec fn has_key(k: (Seq<char>, Seq<char>)) -> spec_fn(NamedProfile) -> bool {
    |p: NamedProfile| profile_key(p) == k
}

/// Whether the profiles are in library order.
pub open spec fn sorted_by_key(s: Seq<NamedProfile>) -> bool {
    forall|i: int, j: int|
        0 <= i < j < s.len() ==> !key_lt(profile_key(#[trigger] s[j]), profile_key(#[trigger] s[i]))
}

proof fn lemma_chars_lt_transitive(a: Seq<char>, b: Seq<char>, c: Seq<char>)
    requires
        chars_lt(a, b),
        chars_lt(b, c),
    ensures
        chars_lt(a, c),
    decreases a.len(),
{
    if a.len() > 0 && b.len() > 0 && c.len() > 0 && a[0] == b[0] && b[0] == c[0] {
        lemma_chars_lt_transitive(a.drop_first(), b.drop_first(), c.drop_first());
    }
}

proof fn lemma_chars_lt_irreflexive(a: Seq<char>)
    ensures
        !chars_lt(a, a),
    decreases a.len(),
{
    if a.len() > 0 {
        lemma_chars_lt_irreflexive(a.drop_first());
    }
}

proof fn lemma_key_lt_transitive(
    a: (Seq<char>, Seq<char>),
    b: (Seq<char>, Seq<char>),
    c: (Seq<char>, Seq<char>),
)
    requires
        key_lt(a, b),
        key_lt(b, c),
    ensures
        key_lt(a, c),
{
    if chars_lt(a.0, b.0) && chars_lt(b.0, c.0) {
        lemma_chars_lt_transitive(a.0, b.0, c.0);
    }
    if a.0 == b.0 && b.0 == c.0 && chars_lt(a.1, b.1) && chars_lt(b.1, c.1) {
        lemma_chars_lt_transitive(a.1, b.1, c.1);
    }
}

proof fn lemma_chars_lt_total(a: Seq<char>, b: Seq<char>)
    ensures
        a == b || chars_lt(a, b) || chars_lt(b, a),
    decreases a.len(),
{
    if a.len() > 0 && b.len() > 0 && a[0] == b[0] {
        lemma_chars_lt_total(a.drop_first(), b.drop_first());
        if a.drop_first() == b.drop_first() {
            assert forall|i: int| 0 <= i < a.len() implies a[i] == b[i] by {
                if i > 0 {
                    assert(a[i] == a.drop_first()[i - 1]);
                    assert(b[i] == b.drop_first()[i - 1]);
                }
            }
            assert(a =~= b);
        }
    } else if a.len() > 0 && b.len() > 0 {
        vstd::utf8::char_u32_cast(a[0], a[0] as u32);
        vstd::utf8::char_u32_cast(b[0], b[0] as u32);
    } else if a.len() == 0 && b.len() == 0 {
        assert(a =~= b);
    }
}

proof fn lemma_key_lt_total(a: (Seq<char>, Seq<char>), b: (Seq<char>, Seq<char>))
    ensures
        a == b || key_lt(a, b) || key_lt(b, a),
{
    lemma_chars_lt_total(a.0, b.0);
    lemma_chars_lt_total(a.1, b.1);
}

/// Inserting `x` in front of the profiles that sort after it keeps the
/// profiles of each key in the order of appending `x`.
proof fn lemma_insert_keeps_key_order(s: Seq<NamedProfile>, p: int, x: NamedProfile, k: (Seq<char>, Seq<char>))
    requires
        0 <= p <= s.len(),
        forall|j: int| p <= j < s.len() ==> key_lt(profile_key(x), profile_key(#[trigger] s[j])),
    ensures
        s.insert(p, x).filter(has_key(k)) == s.push(x).filter(has_key(k)),
{
    let f = has_key(k);
    let a = s.take(p);
    let b = s.skip(p);
    assert(s =~= a + b);
    assert(s.insert(p, x) =~= a.push(x) + b);
    Seq::filter_distributes_over_add(a.push(x), b, f);
    Seq::filter_distributes_over_add(a, b, f);
    a.lemma_filter_push(x, f);
    s.lemma_filter_push(x, f);
    if profile_key(x) == k {
        assert forall|j: int| 0 <= j < b.len() implies !f(#[trigger] b[j]) by {
            assert(b[j] == s[p + j]);
            lemma_chars_lt_irreflexive(k.0);
            lemma_chars_lt_irreflexive(k.1);
        }
        assert(b.all(|y: NamedProfile| !f(y)));
        b.lemma_all_neg_filter_empty(f);
        assert(b.filter(f) =~= Seq::<NamedProfile>::empty());
        assert(a.push(x).filter(f) + b.filter(f) =~= a.push(x).filter(f));
        assert((a.filter(f) + b.filter(f)).push(x) =~= a.filter(f).push(x));
    } else {
        assert(a.push(x).filter(f) == a.filter(f));
    }
}

/// Inserting `x` into sorted profiles in front of the first one that sorts
/// after it keeps, for every key, the order of appending `x`.
proof fn lemma_sorted_insert_keeps_key_order(
    s: Seq<NamedProfile>,
    p: int,
    x: NamedProfile,
    before: Seq<NamedProfile>,
)
    requires
        0 <= p <= s.len(),
        sorted_by_key(s),
        p < s.len() ==> key_lt(profile_key(x), profile_key(s[p])),
        forall|k: (Seq<char>, Seq<char>)| #[trigger] s.filter(has_key(k)) == before.filter(has_key(k)),
    ensures
        forall|k: (Seq<char>, Seq<char>)| #[trigger] s.insert(p, x).filter(has_key(k)) == before.push(x).filter(has_key(k)),
{
    assert forall|j: int| p <= j < s.len() implies key_lt(profile_key(x), profile_key(#[trigger] s[j])) by {
        if j > p {
            assert(!key_lt(profile_key(s[j]), profile_key(s[p])));
            lemma_key_lt_total(profile_key(s[j]), profile_key(s[p]));
            if key_lt(profile_key(s[p]), profile_key(s[j])) {
                lemma_key_lt_transitive(profile_key(x), profile_key(s[p]), profile_key(s[j]));
            }
        }
    }
    assert forall|k: (Seq<char>, Seq<char>)| #[trigger] s.insert(p, x).filter(has_key(k))
        == before.push(x).filter(has_key(k)) by {
        lemma_insert_keeps_key_order(s, p, x, k);
        before.lemma_filter_push(x, has_key(k));
        s.lemma_filter_push(x, has_key(k));
    }
}

fn chars_less(a: &Vec<char>, b: &Vec<char>) -> (r: bool)
    ensures
        r == chars_lt(a@, b@),
{
    let mut k: usize = 0;
    assert(a@.skip(0) =~= a@);
    assert(b@.skip(0) =~= b@);
    while k < a.len() && k < b.len() && a[k] == b[k]
        invariant
            k <= a.len(),
            k <= b.len(),
            chars_lt(a@, b@) == chars_lt(a@.skip(k as int), b@.skip(k as int)),
        decreases a.len() - k,
    {
        assert(a@.skip(k as int).drop_first() =~= a@.skip(k + 1));
        assert(b@.skip(k as int).drop_first() =~= b@.skip(k + 1));
        k = k + 1;
    }
    if k == b.len() {
        false
    } else if k == a.len() {
        true
    } else {
        assert(a@.skip(k as int)[0] == a@[k as int]);
        assert(b@.skip(k as int)[0] == b@[k as int]);
        (a[k] as u32) < (b[k] as u32)
    }
}

fn key_less(a: &(Vec<char>, Vec<char>), b: &(Vec<char>, Vec<char>)) -> (r: bool)
    ensures
        r == key_lt((a.0@, a.1@), (b.0@, b.1@)),
{
    if chars_less(&a.0, &b.0) {
        true
    } else if chars_equal(&a.0, &b.0) {
        chars_less(&a.1, &b.1)
    } else {
        false
    }
}

/// The saved profiles in library order: by lower-cased name, then by
/// identifier; each profile kept once, and profiles with the same key in
/// the order they came.
#[verifier::spinoff_prover]
#[verifier::rlimit(40)]
pub fn sort_named_profiles(profiles: Vec<NamedProfile>) -> (r: Vec<NamedProfile>)
    ensures
        r@.to_multiset() == profiles@.to_multiset(),
        sorted_by_key(r@),
        forall|k: (Seq<char>, Seq<char>)| #[trigger] r@.filter(has_key(k)) == profiles@.filter(has_key(k)),
{
    broadcast use vstd::seq_lib::to_multiset_build, vstd::seq_lib::to_multiset_insert;

    let ghost input = profiles@;
    let count = profiles.len();
    assert(input.len() == count);
    let mut remaining = profiles;
    let mut result: Vec<NamedProfile> = Vec::new();
    let mut keys: Vec<(Vec<char>, Vec<char>)> = Vec::new();
    let mut taken: usize = 0;
    assert(input.take(0) =~= result@);
    assert(input.skip(0) =~= input);
    while remaining.len() > 0
        invariant
            taken <= input.len(),
            input.len() <= usize::MAX,
            remaining@ == input.skip(taken as int),
            result@.to_multiset() == input.take(taken as int).to_multiset(),
            sorted_by_key(result@),
            forall|k: (Seq<char>, Seq<char>)| #[trigger] result@.filter(has_key(k)) == input.take(taken as int).filter(has_key(k)),
            keys.len() == result.len(),
            forall|i: int|
                0 <= i < keys.len() ==> (#[trigger] keys@[i].0)@ == profile_key(result@[i]).0
                    && keys@[i].1@ == profile_key(result@[i]).1,
        decreases remaining.len(),
    {
        let item = remaining.remove(0);
        let ghost x = item;
        assert(input.take(taken + 1) =~= input.take(taken as int).push(x));
        assert(remaining@ =~= input.skip(taken + 1));
        let lower = str_to_lowercase(item.name.as_str());
        let id_chars = str_chars(item.id.as_str());
        let key = (lower, id_chars);
        let mut p: usize = 0;
        while p < keys.len() && !key_less(&key, &keys[p])
            invariant
                p <= keys.len(),
                keys.len() == result.len(),
                key.0@ == profile_key(x).0,
                key.1@ == profile_key(x).1,
                forall|i: int|
                    0 <= i < keys.len() ==> (#[trigger] keys@[i].0)@ == profile_key(result@[i]).0
                        && keys@[i].1@ == profile_key(result@[i]).1,
                forall|i: int| 0 <= i < p ==> !key_lt(profile_key(x), profile_key(#[trigger] result@[i])),
            decreases keys.len() - p,
        {
            p = p + 1;
        }
        let ghost old_result = result@;
        let ghost old_keys = keys@;
        proof {
            assert forall|j: int| p <= j < old_result.len() implies !key_lt(
                profile_key(#[trigger] old_result[j]),
                profile_key(x),
            ) by {
                assert(key_lt(profile_key(x), profile_key(old_result[p as int])));
                if j > p {
                    assert(!key_lt(profile_key(old_result[j]), profile_key(old_result[p as int])));
                }
                if key_lt(profile_key(old_result[j]), profile_key(x)) {
                    lemma_chars_lt_irreflexive(profile_key(old_result[p as int]).0);
                    lemma_chars_lt_irreflexive(profile_key(old_result[p as int]).1);
                    lemma_key_lt_transitive(
                        profile_key(old_result[j]),
                        profile_key(x),
                        profile_key(old_result[p as int]),
                    );
                }
            }
        }
        result.insert(p, item);
        keys.insert(p, key);
        proof {
            let r = result@;
            assert(r == old_result.insert(p as int, x));
            vstd::seq_lib::to_multiset_insert(old_result, p as int, x);
            vstd::seq_lib::to_multiset_build(input.take(taken as int), x);
            assert(r.to_multiset() == input.take(taken + 1).to_multiset());
            assert forall|i: int, j: int| 0 <= i < j < r.len() implies !key_lt(
                profile_key(#[trigger] r[j]),
                profile_key(#[trigger] r[i]),
            ) by {
                if j < p {
                    assert(r[i] == old_result[i] && r[j] == old_result[j]);
                } else if j == p {
                    assert(r[i] == old_result[i]);
                } else if i < p {
                    assert(r[j] == old_result[j - 1] && r[i] == old_result[i]);
                } else if i == p {
                    assert(r[j] == old_result[j - 1]);
                } else {
                    assert(r[j] == old_result[j - 1] && r[i] == old_result[i - 1]);
                }
            }
            assert(keys@ == old_keys.insert(p as int, key));
            assert forall|i: int| 0 <= i < keys.len() implies (#[trigger] keys@[i].0)@
                == profile_key(result@[i]).0 && keys@[i].1@ == profile_key(result@[i]).1 by {
                if i < p {
                    assert(keys@[i] == old_keys[i] && result@[i] == old_result[i]);
                } else if i == p {
                    assert(keys@[i] == key && result@[i] == x);
                } else {
                    assert(keys@[i] == old_keys[i - 1] && result@[i] == old_result[i - 1]);
                }
            }
            lemma_sorted_insert_keeps_key_order(old_result, p as int, x, input.take(taken as int));
            assert(input.take(taken + 1) == input.take(taken as int).push(x));
        }
        taken = taken + 1;
    }
    assert(input.take(taken as int) =~= input);
    result
}

// ---------------------------------------------------------------------------
// Locations
// ---------------------------------------------------------------------------

/// The address of a controller when it can select a profile of its own:
/// present and not blank.
pub fn usable_address<'a>(mac_address: Option<&'a str>) -> (r: Option<&'a str>)
    ensures
        match mac_address {
            Some(a) => if is_blank(a@) {
                r is None
            } else {
                r == Some(a)
            },
            None => r is None,
        },
{
    match mac_address {
        Some(a) => if str_is_blank(a) {
            None
        } else {
            Some(a)
        },
        None => None,
    }
}

pub open spec fn set_and_not_blank(v: Option<String>) -> bool {
    v is Some && !is_blank(v->0@)
}

/// The configuration directory: `$XDG_CONFIG_HOME` where it is set and not
/// blank, else `.config` under a `$HOME` that is set and not blank, else the
/// working directory.
pub open spec fn spec_config_root(xdg_config_home: Option<String>, home: Option<String>) -> Seq<char> {
    if set_and_not_blank(xdg_config_home) {
        xdg_config_home->0@
    } else if set_and_not_blank(home) {
        spec_join_path(home->0@, ".config"@)
    } else {
        "."@
    }
}

/// The configuration directory, given the values of `$XDG_CONFIG_HOME` and
/// `$HOME`.
pub fn config_root(xdg_config_home: Option<String>, home: Option<String>) -> (r: String)
    ensures
        r@ == spec_config_root(xdg_config_home, home),
{
    if let Some(path) = xdg_config_home {
        if !str_is_blank(path.as_str()) {
            return path;
        }
    }
    if let Some(h) = home {
        if !str_is_blank(h.as_str()) {
            return join_path(h.as_str(), ".config");
        }
    }
    crate::text::string_of(".")
}

/// The directory of this application under the configuration directory.
pub open spec fn app_directory(root: Seq<char>) -> Seq<char> {
    spec_join_path(root, "DualSenseTUI"@)
}

/// The global profile, used by controllers without a profile of their own.
pub fn profile_path(root: &str) -> (r: String)
    ensures
        r@ == spec_join_path(app_directory(root@), "profile.json"@),
{
    let dir = join_path(root, "DualSenseTUI");
    join_path(dir.as_str(), "profile.json")
}

/// The per-user socket through which the background service is driven.
/// It lies beside the profiles, so it belongs to the current user and is
/// not reachable over the network.
pub fn daemon_socket_path(root: &str) -> (r: String)
    ensures
        r@ == spec_join_path(app_directory(root@), "daemon.sock"@),
{
    let dir = join_path(root, "DualSenseTUI");
    join_path(dir.as_str(), "daemon.sock")
}

/// The profile saved for the controller with this address.
pub fn profile_path_for_device(root: &str, mac_address: &str) -> (r: String)
    ensures
        r@ == spec_join_path(
            spec_join_path(app_directory(root@), "profiles"@),
            spec_device_profile_file_name(mac_address@),
        ),
{
    let dir = join_path(root, "DualSenseTUI");
    let profiles = join_path(dir.as_str(), "profiles");
    let file = device_profile_file_name(mac_address);
    join_path(profiles.as_str(), file.as_str())
}

/// The directory of the saved-profile library.
pub fn named_profiles_path(root: &str) -> (r: String)
    ensures
        r@ == spec_join_path(app_directory(root@), "saved-profiles"@),
{
    let dir = join_path(root, "DualSenseTUI");
    join_path(dir.as_str(), "saved-profiles")
}

/// The name of the temporary file a profile is first written to:
/// `.{file}.{process}.{sequence}.tmp`, with `profile.json` for a path
/// without a usable file name.
pub open spec fn spec_temporary_file_name(file_name: Option<Seq<char>>, process: u32, sequence: u64) -> Seq<char> {
    let file = match file_name {
        Some(f) => f,
        None => "profile.json"@,
    };
    seq!['.'] + file + seq!['.'] + spec_decimal(process as nat) + seq!['.'] + spec_decimal(
        sequence as nat,
    ) + seq!['.', 't', 'm', 'p']
}

pub fn temporary_file_name(file_name: Option<&str>, process: u32, sequence: u64) -> (r: String)
    ensures
        r@ == spec_temporary_file_name(
            match file_name {
                Some(f) => Some(f@),
                None => None,
            },
            process,
            sequence,
        ),
{
    let mut s = String::new();
    push_char(&mut s, '.');
    match file_name {
        Some(f) => push_str(&mut s, f),
        None => push_str(&mut s, "profile.json"),
    }
    push_char(&mut s, '.');
    push_decimal(&mut s, process as u64);
    push_char(&mut s, '.');
    push_decimal(&mut s, sequence);
    push_str(&mut s, ".tmp");
    proof {
        reveal_strlit(".tmp");
    }
    s
}

// ---------------------------------------------------------------------------
// Laws
// ---------------------------------------------------------------------------

proof fn lemma_trim_start_is_suffix(s: Seq<char>, c: char)
    ensures
        trim_start_char(s, c).len() <= s.len(),
        trim_start_char(s, c) == s.skip(s.len() - trim_start_char(s, c).len()),
        trim_start_char(s, c).len() > 0 ==> trim_start_char(s, c)[0] != c,
    decreases s.len(),
{
    if s.len() > 0 && s[0] == c {
        lemma_trim_start_is_suffix(s.drop_first(), c);
        let r = trim_start_char(s, c);
        assert(s.drop_first().skip(s.drop_first().len() - r.len()) =~= s.skip(s.len() - r.len()));
    } else {
        assert(s.skip(0) =~= s);
    }
}

proof fn lemma_trim_end_is_prefix(s: Seq<char>, c: char)
    ensures
        trim_end_char(s, c).len() <= s.len(),
        trim_end_char(s, c) == s.take(trim_end_char(s, c).len() as int),
        trim_end_char(s, c).len() > 0 ==> trim_end_char(s, c).last() != c,
    decreases s.len(),
{
    if s.len() > 0 && s.last() == c {
        lemma_trim_end_is_prefix(s.drop_last(), c);
        let r = trim_end_char(s, c);
        assert(s.drop_last().take(r.len() as int) =~= s.take(r.len() as int));
    } else {
        assert(s.take(s.len() as int) =~= s);
    }
}

proof fn lemma_utf8_width_front(s: Seq<char>)
    requires
        s.len() > 0,
    ensures
        utf8_width(s) == utf8_len(s[0]) + utf8_width(s.drop_first()),
    decreases s.len(),
{
    if s.len() > 1 {
        lemma_utf8_width_front(s.drop_last());
        assert(s.drop_last().drop_first() =~= s.drop_first().drop_last());
        assert(s.drop_last()[0] == s[0]);
        assert(s.drop_first().last() == s.last());
        assert(utf8_width(s) == utf8_width(s.drop_last()) + utf8_len(s.last()));
        assert(utf8_width(s.drop_last()) == utf8_len(s.drop_last()[0]) + utf8_width(
            s.drop_last().drop_first(),
        ));
        assert(utf8_width(s.drop_first()) == utf8_width(s.drop_first().drop_last()) + utf8_len(
            s.drop_first().last(),
        ));
    } else {
        assert(s.drop_first().len() == 0);
        assert(s.drop_last().len() == 0);
        assert(s.last() == s[0]);
        assert(utf8_width(s.drop_last()) == 0);
        assert(utf8_width(s.drop_first()) == 0);
        assert(utf8_width(s) == utf8_width(s.drop_last()) + utf8_len(s.last()));
    }
}

proof fn lemma_utf8_width_skip(s: Seq<char>, k: int)
    requires
        0 <= k <= s.len(),
    ensures
        utf8_width(s.skip(k)) <= utf8_width(s),
    decreases k,
{
    if k > 0 {
        lemma_utf8_width_skip(s, k - 1);
        lemma_utf8_width_front(s.skip(k - 1));
        assert(s.skip(k - 1).drop_first() =~= s.skip(k));
    } else {
        assert(s.skip(0) =~= s);
    }
}

proof fn lemma_push_within_limit_bounded(id: Seq<char>, lower: Seq<char>)
    requires
        utf8_width(id) <= MAX_NAMED_PROFILE_ID_BYTES,
    ensures
        utf8_width(push_within_limit(id, lower).0) <= MAX_NAMED_PROFILE_ID_BYTES,
    decreases lower.len(),
{
    if lower.len() > 0 && utf8_width(id) + utf8_len(lower[0]) <= MAX_NAMED_PROFILE_ID_BYTES {
        lemma_utf8_width_push(id, lower[0]);
        lemma_push_within_limit_bounded(id.push(lower[0]), lower.drop_first());
    }
}

proof fn lemma_id_scan_bounded(s: Seq<char>)
    ensures
        utf8_width(id_scan(s).0) <= MAX_NAMED_PROFILE_ID_BYTES,
    decreases s.len(),
{
    if s.len() > 0 {
        lemma_id_scan_bounded(s.drop_last());
        let st = id_scan(s.drop_last());
        if !st.2 && unicode_alphanumeric(s.last()) && !(st.1 && st.0.len() > 0 && utf8_width(st.0)
            + 1 > MAX_NAMED_PROFILE_ID_BYTES) {
            let with_separator = if st.1 && st.0.len() > 0 {
                st.0.push('-')
            } else {
                st.0
            };
            lemma_utf8_width_push(st.0, '-');
            lemma_push_within_limit_bounded(with_separator, unicode_lowercase(s.last()));
        }
    } else {
        assert(utf8_width(id_scan(s).0) == 0);
    }
}

/// A saved-profile identifier is never empty, neither starts nor ends with
/// a dash, and takes at most 96 bytes of UTF-8.
pub proof fn lemma_named_profile_id_shape(name: Seq<char>)
    ensures
        match spec_named_profile_id(name) {
            Ok(id) => id.len() > 0 && id[0] != '-' && id.last() != '-' && utf8_width(id)
                <= MAX_NAMED_PROFILE_ID_BYTES,
            Err(e) => e == NamedProfileError::NoAlphanumeric,
        },
{
    let raw = id_scan(name).0;
    let start = trim_start_char(raw, '-');
    let id = trim_end_char(start, '-');
    lemma_id_scan_bounded(name);
    lemma_trim_start_is_suffix(raw, '-');
    lemma_trim_end_is_prefix(start, '-');
    lemma_utf8_width_skip(raw, raw.len() - start.len());
    lemma_utf8_width_monotone(start, id.len() as int);
    if id.len() > 0 {
        assert(id[0] == start[0]);
    }
}

proof fn lemma_push_within_limit_extends(id: Seq<char>, lower: Seq<char>)
    ensures
        push_within_limit(id, lower).0.len() >= id.len(),
        forall|k: int| 0 <= k < id.len() ==> #[trigger] push_within_limit(id, lower).0[k] == id[k],
    decreases lower.len(),
{
    if lower.len() > 0 && utf8_width(id) + utf8_len(lower[0]) <= MAX_NAMED_PROFILE_ID_BYTES {
        lemma_push_within_limit_extends(id.push(lower[0]), lower.drop_first());
        assert forall|k: int| 0 <= k < id.len() implies #[trigger] push_within_limit(id, lower).0[k] == id[k] by {
            assert(id.push(lower[0])[k] == id[k]);
        }
    }
}

proof fn lemma_id_step_extends(state: (Seq<char>, bool, bool), c: char)
    ensures
        id_step(state, c).0.len() >= state.0.len(),
        forall|k: int| 0 <= k < state.0.len() ==> #[trigger] id_step(state, c).0[k] == state.0[k],
{
    let id = state.0;
    if !state.2 && unicode_alphanumeric(c) && !(state.1 && id.len() > 0 && utf8_width(id) + 1
        > MAX_NAMED_PROFILE_ID_BYTES) {
        let with_separator = if state.1 && id.len() > 0 {
            id.push('-')
        } else {
            id
        };
        lemma_push_within_limit_extends(with_separator, unicode_lowercase(c));
        assert forall|k: int| 0 <= k < id.len() implies #[trigger] id_step(state, c).0[k] == id[k] by {
            assert(with_separator[k] == id[k]);
        }
    }
}

/// Before the first letter or digit nothing has entered the identifier.
proof fn lemma_id_scan_empty_before(s: Seq<char>, i: int)
    requires
        0 <= i <= s.len(),
        forall|j: int| 0 <= j < i ==> !unicode_alphanumeric(#[trigger] s[j]),
    ensures
        id_scan(s.take(i)).0.len() == 0,
        !id_scan(s.take(i)).2,
    decreases i,
{
    if i > 0 {
        lemma_id_scan_empty_before(s, i - 1);
        assert(s.take(i).drop_last() =~= s.take(i - 1));
        assert(s.take(i).last() == s[i - 1]);
    }
}

/// Once the identifier starts with `first`, later characters keep it so.
proof fn lemma_id_scan_keeps_first(s: Seq<char>, i: int, first: char)
    requires
        0 <= i <= s.len(),
        id_scan(s.take(i)).0.len() > 0,
        id_scan(s.take(i)).0[0] == first,
    ensures
        id_scan(s).0.len() > 0,
        id_scan(s).0[0] == first,
    decreases s.len() - i,
{
    if i < s.len() {
        assert(s.take(i + 1).drop_last() =~= s.take(i));
        lemma_id_step_extends(id_scan(s.take(i)), s.take(i + 1).last());
        lemma_id_scan_keeps_first(s, i + 1, first);
    } else {
        assert(s.take(i) =~= s);
    }
}

proof fn lemma_trim_end_keeps_a_start(s: Seq<char>, c: char)
    requires
        s.len() > 0,
        s[0] != c,
    ensures
        trim_end_char(s, c).len() > 0,
    decreases s.len(),
{
    if s.last() == c {
        assert(s.len() > 1);
        assert(s.drop_last()[0] == s[0]);
        lemma_trim_end_keeps_a_start(s.drop_last(), c);
    }
}

/// A name with a letter or digit gets an identifier. The identifier starts
/// with the lower case of the first letter or digit; so this holds when
/// those lower-case forms do not start with a dash, as Unicode's never do
/// (std documents only that each is one or more characters).
pub proof fn lemma_alphanumeric_name_gets_an_id(name: Seq<char>, i: int)
    requires
        0 <= i < name.len(),
        unicode_alphanumeric(name[i]),
        forall|j: int|
            0 <= j < name.len() && unicode_alphanumeric(#[trigger] name[j]) ==> unicode_lowercase(name[j]).len()
                >= 1 && unicode_lowercase(name[j])[0] != '-',
    ensures
        spec_named_profile_id(name) is Ok,
{
    let first = choose|f: int| 0 <= f < name.len() && unicode_alphanumeric(#[trigger] name[f]) && forall|j: int|
        0 <= j < f ==> !unicode_alphanumeric(#[trigger] name[j]);
    assert(exists|f: int| 0 <= f < name.len() && unicode_alphanumeric(#[trigger] name[f]) && forall|j: int|
        0 <= j < f ==> !unicode_alphanumeric(#[trigger] name[j])) by {
        lemma_first_alphanumeric(name, i);
    }
    lemma_id_scan_empty_before(name, first);
    let c = name[first];
    let lower = unicode_lowercase(c);
    let state = id_scan(name.take(first));
    assert(name.take(first + 1).drop_last() =~= name.take(first));
    assert(name.take(first + 1).last() == c);
    assert(id_scan(name.take(first + 1)) == id_step(state, c));
    assert(state.0 =~= Seq::<char>::empty());
    assert(utf8_width(Seq::<char>::empty()) == 0);
    assert(utf8_len(lower[0]) <= 4);
    assert(push_within_limit(state.0, lower) == push_within_limit(state.0.push(lower[0]), lower.drop_first()));
    lemma_push_within_limit_extends(state.0.push(lower[0]), lower.drop_first());
    assert(state.0.push(lower[0])[0] == lower[0]);
    lemma_id_scan_keeps_first(name, first + 1, lower[0]);
    let raw = id_scan(name).0;
    assert(trim_start_char(raw, '-') == raw);
    lemma_trim_end_keeps_a_start(raw, '-');
}

proof fn lemma_first_alphanumeric(name: Seq<char>, i: int)
    requires
        0 <= i < name.len(),
        unicode_alphanumeric(name[i]),
    ensures
        exists|f: int| 0 <= f < name.len() && unicode_alphanumeric(#[trigger] name[f]) && forall|j: int|
            0 <= j < f ==> !unicode_alphanumeric(#[trigger] name[j]),
    decreases i,
{
    if exists|j: int| 0 <= j < i && unicode_alphanumeric(#[trigger] name[j]) {
        let j = choose|j: int| 0 <= j < i && unicode_alphanumeric(#[trigger] name[j]);
        lemma_first_alphanumeric(name, j);
    } else {
        assert(forall|j: int| 0 <= j < i ==> !unicode_alphanumeric(#[trigger] name[j]));
    }
}

/// A saved-profile name that passes the name checks (not blank, at most 48
/// characters, no control character) and holds a letter or digit is
/// accepted under its trimmed form, on the premise about lower-case forms
/// of `lemma_alphanumeric_name_gets_an_id`.
pub proof fn lemma_valid_profile_name_is_accepted(name: Seq<char>, i: int)
    requires
        spec_normalized_name(name) is Ok,
        0 <= i < spec_normalized_name(name)->Ok_0.len(),
        unicode_alphanumeric(spec_normalized_name(name)->Ok_0[i]),
        forall|j: int|
            0 <= j < spec_normalized_name(name)->Ok_0.len() && unicode_alphanumeric(
                #[trigger] spec_normalized_name(name)->Ok_0[j],
            ) ==> unicode_lowercase(spec_normalized_name(name)->Ok_0[j]).len() >= 1 && unicode_lowercase(
                spec_normalized_name(name)->Ok_0[j],
            )[0] != '-',
    ensures
        spec_named_profile_descriptor(name) is Ok,
        spec_named_profile_descriptor(name)->Ok_0.1 == spec_normalized_name(name)->Ok_0,
{
    lemma_alphanumeric_name_gets_an_id(spec_normalized_name(name)->Ok_0, i);
}

/// Writings of one MAC address that differ only in separators, spacing or
/// letter case select the same profile file.
pub proof fn lemma_equivalent_mac_forms_share_a_file(a: Seq<char>, b: Seq<char>)
    requires
        compact_hex(a).len() == 12,
        compact_hex(a) == compact_hex(b),
    ensures
        spec_device_profile_file_name(a) == spec_device_profile_file_name(b),
{
}

pub open spec fn is_safe_name_char(c: char) -> bool {
    let u = c as u32;
    (0x30 <= u && u <= 0x39) || (0x61 <= u && u <= 0x7a) || c == '-' || c == '.'
}

/// A file name made of lower-case ASCII letters, digits, dashes and dots,
/// that does not begin with a dot: it holds no path separator and cannot
/// name `.` or `..`.
pub open spec fn is_safe_file_name(n: Seq<char>) -> bool {
    &&& n.len() > 0
    &&& n[0] != '.'
    &&& forall|i: int| 0 <= i < n.len() ==> #[trigger] is_safe_name_char(n[i])
}

pub open spec fn is_lower_alphanumeric(c: char) -> bool {
    let u = c as u32;
    (0x30 <= u && u <= 0x39) || (0x61 <= u && u <= 0x7a)
}

proof fn lemma_compact_hex_lower(s: Seq<char>)
    ensures
        forall|i: int|
            0 <= i < compact_hex(s).len() ==> #[trigger] is_lower_alphanumeric(compact_hex(s)[i]),
    decreases s.len(),
{
    if s.len() > 0 {
        lemma_compact_hex_lower(s.drop_last());
        let c = s.last();
        let prev = compact_hex(s.drop_last());
        if is_ascii_hex_digit(c) {
            let l = ascii_lower_char(c);
            if 'A' <= c && c <= 'Z' {
                assert(((c as u32) + 32) as char as u32 == (c as u32) + 32);
            }
            assert(is_lower_alphanumeric(l));
            assert(compact_hex(s) == prev.push(l));
            assert forall|i: int| 0 <= i < compact_hex(s).len() implies #[trigger] is_lower_alphanumeric(
                compact_hex(s)[i],
            ) by {
                if i < prev.len() {
                    assert(compact_hex(s)[i] == prev[i]);
                }
            }
        } else {
            assert(compact_hex(s) == prev);
        }
    } else {
        assert(compact_hex(s).len() == 0);
    }
}

/// Whatever address it is given, the profile file of a controller is a safe
/// name inside the profile directory.
pub proof fn lemma_device_profile_file_stays_in_its_directory(mac: Seq<char>)
    ensures
        is_safe_file_name(spec_device_profile_file_name(mac)),
{
    let hex = compact_hex(mac);
    let r = spec_device_profile_file_name(mac);
    let ext = json_extension();
    if hex.len() == 12 {
        lemma_compact_hex_lower(mac);
        let d = dashed_mac(hex);
        assert forall|i: int| 0 <= i < r.len() implies #[trigger] is_safe_name_char(r[i]) by {
            if i < 17 {
                assert(r[i] == dashed_mac_char(hex, i));
                if i % 3 != 2 {
                    assert(0 <= (i / 3) * 2 + i % 3 < 12);
                    assert(is_lower_alphanumeric(hex[(i / 3) * 2 + i % 3]));
                }
            } else {
                assert(r[i] == ext[i - 17]);
            }
        }
        assert(r[0] == hex[0]);
        assert(is_lower_alphanumeric(hex[0]));
        assert(r[0] != '.');
    } else {
        let mapped = mac.map_values(|c: char| sanitize_char(c));
        let start = trim_start_char(mapped, '-');
        let stem = sanitized_stem(mac);
        lemma_trim_start_is_suffix(mapped, '-');
        lemma_trim_end_is_prefix(start, '-');
        assert forall|i: int| 0 <= i < stem.len() implies #[trigger] is_safe_name_char(stem[i])
            && stem[i] != '.' by {
            assert(stem[i] == start[i]);
            assert(start[i] == mapped[mapped.len() - start.len() + i]);
        }
        if stem.len() == 0 {
            let u = unknown_stem();
            assert forall|i: int| 0 <= i < r.len() implies #[trigger] is_safe_name_char(r[i]) by {
                if i < 7 {
                    assert(r[i] == u[i]);
                } else {
                    assert(r[i] == ext[i - 7]);
                }
            }
            assert(r[0] == 'u');
        } else {
            let kept = if stem.len() > MAX_SANITIZED_STEM_LENGTH {
                stem.take(MAX_SANITIZED_STEM_LENGTH as int)
            } else {
                stem
            };
            assert(r == kept + ext);
            assert forall|i: int| 0 <= i < r.len() implies #[trigger] is_safe_name_char(r[i]) by {
                if i < kept.len() {
                    assert(r[i] == stem[i]);
                } else {
                    assert(r[i] == ext[i - kept.len()]);
                }
            }
            assert(r[0] == stem[0]);
            assert(stem[0] != '.');
        }
    }
}

} // verus!
