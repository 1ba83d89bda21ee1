//! The status lines the configurator reports after its actions.
use vstd::prelude::*;

use crate::app_state::{spec_trigger_effect_description, trigger_effect_description, BackgroundAgentSnapshot};
use crate::model::{Button, HapticDemo, Rgb};
use crate::profile::{AdaptiveTriggerProfile, SystemProfile};
use crate::text::{push_decimal, push_hex_fixed, push_str, spec_decimal, spec_hex_fixed, string_of};

verus! {

/// The colour as `#rrggbb`.
pub open spec fn spec_color_hex(c: Rgb) -> Seq<char> {
    "#"@ + spec_hex_fixed(c.r as nat, 2) + spec_hex_fixed(c.g as nat, 2) + spec_hex_fixed(
        c.b as nat,
        2,
    )
}

fn push_color_hex(s: &mut String, c: Rgb)
    ensures
        final(s)@ == old(s)@ + spec_color_hex(c),
{
    push_str(s, "#");
    push_hex_fixed(s, c.r as u64, 2);
    push_hex_fixed(s, c.g as u64, 2);
    push_hex_fixed(s, c.b as u64, 2);
}

/// "Lightbar staged: #rrggbb".
pub fn lightbar_staged_status(c: Rgb) -> (r: String)
    ensures
        r@ == "Lightbar staged: "@ + spec_color_hex(c),
{
    let mut s = string_of("Lightbar staged: ");
    push_color_hex(&mut s, c);
    s
}

/// "Lightbar applied and saved: #rrggbb".
pub fn lightbar_saved_status(c: Rgb) -> (r: String)
    ensures
        r@ == "Lightbar applied and saved: "@ + spec_color_hex(c),
{
    let mut s = string_of("Lightbar applied and saved: ");
    push_color_hex(&mut s, c);
    s
}

/// What the start-up scan found.
pub fn device_count_status(count: usize) -> (r: String)
    ensures
        r@ == (if count == 0 {
            "No DualSense detected"@
        } else {
            "Detected "@ + spec_decimal(count as nat)
                + " DualSense device(s); saved profiles will auto-apply"@
        }),
{
    if count == 0 {
        string_of("No DualSense detected")
    } else {
        let mut s = string_of("Detected ");
        push_decimal(&mut s, count as u64);
        push_str(&mut s, " DualSense device(s); saved profiles will auto-apply");
        s
    }
}

/// What the system controls were set to.
pub fn system_controls_applied_status(p: &SystemProfile) -> (r: String)
    ensures
        r@ == "System controls applied: "@ + p.player_indicator.spec_label() + ", mic "@ + (if p.microphone_muted {
            "muted"@
        } else {
            "live"@
        }) + ", route "@ + p.audio_route.spec_label(),
{
    let mut s = string_of("System controls applied: ");
    push_str(&mut s, p.player_indicator.label());
    push_str(&mut s, ", mic ");
    if p.microphone_muted {
        push_str(&mut s, "muted");
    } else {
        push_str(&mut s, "live");
    }
    push_str(&mut s, ", route ");
    push_str(&mut s, p.audio_route.label());
    s
}

/// Which trigger effect was sent, and to which triggers.
pub fn triggers_applied_status(t: &AdaptiveTriggerProfile) -> (r: String)
    ensures
        r@ == "Adaptive triggers applied: "@ + spec_trigger_effect_description(*t) + " on "@
            + t.target.spec_label(),
{
    let mut s = string_of("Adaptive triggers applied: ");
    let d = trigger_effect_description(t);
    push_str(&mut s, d.as_str());
    push_str(&mut s, " on ");
    push_str(&mut s, t.target.label());
    s
}

/// The level the motors were set to.
pub fn haptics_applied_status(strength: u8) -> (r: String)
    ensures
        r@ == "Haptics applied: "@ + spec_decimal(strength as nat),
{
    let mut s = string_of("Haptics applied: ");
    push_decimal(&mut s, strength as u64);
    s
}

/// Which haptics demo was played.
pub fn haptic_demo_played_status(demo: HapticDemo) -> (r: String)
    ensures
        r@ == "Haptics demo played: "@ + demo.spec_label(),
{
    let mut s = string_of("Haptics demo played: ");
    push_str(&mut s, demo.label());
    s
}

/// Which controller mapping the desktop app changed.
pub fn controller_mapping_updated_status(from: Button) -> (r: String)
    ensures
        r@ == "Controller mapping updated: "@ + from.spec_label(),
{
    let mut s = string_of("Controller mapping updated: ");
    push_str(&mut s, from.label());
    s
}

/// Which key binding the desktop app changed.
pub fn keyboard_mapping_updated_status(from: Button) -> (r: String)
    ensures
        r@ == "Keyboard mapping updated: "@ + from.spec_label(),
{
    let mut s = string_of("Keyboard mapping updated: ");
    push_str(&mut s, from.label());
    s
}

/// The state of the background service.
pub fn background_agent_status(status: BackgroundAgentSnapshot) -> (r: String)
    ensures
        r@ == (if status.loaded {
            "Background service is active"@
        } else if status.installed {
            "Background service is installed but not loaded"@
        } else {
            "Background service is disabled"@
        }),
{
    if status.loaded {
        string_of("Background service is active")
    } else if status.installed {
        string_of("Background service is installed but not loaded")
    } else {
        string_of("Background service is disabled")
    }
}

/// What a device refresh found.
pub fn refresh_status(count: usize) -> (r: String)
    ensures
        r@ == (if count == 0 {
            "No DualSense detected"@
        } else {
            "Refreshed: "@ + spec_decimal(count as nat) + " DualSense device(s)"@
        }),
{
    if count == 0 {
        string_of("No DualSense detected")
    } else {
        let mut s = string_of("Refreshed: ");
        push_decimal(&mut s, count as u64);
        push_str(&mut s, " DualSense device(s)");
        s
    }
}

/// `parts` joined with `separator` between them.
pub open spec fn joined(parts: Seq<Seq<char>>, separator: Seq<char>) -> Seq<char>
    decreases parts.len(),
{
    if parts.len() == 0 {
        seq![]
    } else if parts.len() == 1 {
        parts[0]
    } else {
        joined(parts.drop_last(), separator) + separator + parts.last()
    }
}

pub open spec fn views(parts: Seq<String>) -> Seq<Seq<char>> {
    parts.map_values(|p: String| p@)
}

fn push_joined(s: &mut String, parts: &Vec<String>, separator: &str)
    ensures
        final(s)@ == old(s)@ + joined(views(parts@), separator@),
{
    let ghost start = s@;
    let mut i: usize = 0;
    while i < parts.len()
        invariant
            i <= parts.len(),
            s@ == start + joined(views(parts@.take(i as int)), separator@),
        decreases parts.len() - i,
    {
        assert(views(parts@.take(i + 1)).drop_last() =~= views(parts@.take(i as int)));
        if i > 0 {
            push_str(s, separator);
        }
        push_str(s, parts[i].as_str());
        assert(views(parts@.take(i + 1)).last() == parts@[i as int]@);
        assert(s@ =~= start + joined(views(parts@.take(i + 1)), separator@));
        i = i + 1;
    }
    assert(parts@.take(parts@.len() as int) =~= parts@);
}

/// The outcome of applying the saved profiles to every controller: the
/// failures, or how many controllers got their profile; nothing when there
/// was nothing to apply.
pub fn auto_apply_status(errors: &Vec<String>, applied: usize) -> (r: Option<String>)
    ensures
        errors.len() > 0 ==> r is Some && r->0@ == "Automatic apply failed: "@ + joined(
            views(errors@),
            "; "@,
        ),
        errors.len() == 0 && applied > 0 ==> r is Some && r->0@ == "Automatically applied saved profile to "@
            + spec_decimal(applied as nat) + " controller(s)"@,
        errors.len() == 0 && applied == 0 ==> r is None,
{
    if errors.len() > 0 {
        let mut s = string_of("Automatic apply failed: ");
        push_joined(&mut s, errors, "; ");
        Some(s)
    } else if applied > 0 {
        let mut s = string_of("Automatically applied saved profile to ");
        push_decimal(&mut s, applied as u64);
        push_str(&mut s, " controller(s)");
        Some(s)
    } else {
        None
    }
}

/// The failures of applying a profile to one controller, joined with
/// commas.
pub fn failures_message(failures: &Vec<String>) -> (r: String)
    ensures
        r@ == joined(views(failures@), ", "@),
{
    let mut s = String::new();
    push_joined(&mut s, failures, ", ");
    s
}

/// The status after switching to another profile: the action, what failed
/// on the way, and whether it reached a controller; `applied` is `None`
/// without a controller, else the failure of applying, if any.
pub open spec fn spec_profile_switch_status(
    action: Seq<char>,
    stop_error: Option<Seq<char>>,
    haptics_stop_error: Option<Seq<char>>,
    lightbar_error: Option<Seq<char>>,
    applied: Option<Option<Seq<char>>>,
) -> Seq<char> {
    let a = match stop_error {
        Some(e) => "; audio-reactive haptics stop failed: "@ + e,
        None => seq![],
    };
    let b = match haptics_stop_error {
        Some(e) => "; haptics stop failed: "@ + e,
        None => seq![],
    };
    let c = match lightbar_error {
        Some(e) => "; lightbar switch failed: "@ + e,
        None => seq![],
    };
    let d = match applied {
        None => "; no controller selected"@,
        Some(None) => "; applied to the selected controller"@,
        Some(Some(e)) => "; apply failed: "@ + e,
    };
    action + a + b + c + d + "; save to persist"@
}

pub open spec fn opt_view(o: Option<&str>) -> Option<Seq<char>> {
    match o {
        Some(s) => Some(s@),
        None => None,
    }
}

pub fn profile_switch_status(
    action: &str,
    stop_error: Option<&str>,
    haptics_stop_error: Option<&str>,
    lightbar_error: Option<&str>,
    applied: Option<Option<&str>>,
) -> (r: String)
    ensures
        r@ == spec_profile_switch_status(
            action@,
            opt_view(stop_error),
            opt_view(haptics_stop_error),
            opt_view(lightbar_error),
            match applied {
                None => None,
                Some(e) => Some(opt_view(e)),
            },
        ),
{
    let mut s = string_of(action);
    if let Some(e) = stop_error {
        push_str(&mut s, "; audio-reactive haptics stop failed: ");
        push_str(&mut s, e);
    }
    if let Some(e) = haptics_stop_error {
        push_str(&mut s, "; haptics stop failed: ");
        push_str(&mut s, e);
    }
    if let Some(e) = lightbar_error {
        push_str(&mut s, "; lightbar switch failed: ");
        push_str(&mut s, e);
    }
    match applied {
        None => push_str(&mut s, "; no controller selected"),
        Some(None) => push_str(&mut s, "; applied to the selected controller"),
        Some(Some(e)) => {
            push_str(&mut s, "; apply failed: ");
            push_str(&mut s, e);
        },
    }
    push_str(&mut s, "; save to persist");
    s
}

} // verus!
