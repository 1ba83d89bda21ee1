//! What the terminal screens show, apart from how they are drawn: which
//! rows of a list fit, panel heights, and the text of the live readouts.
use vstd::prelude::*;
use vstd::string::StrSliceExecFns;

use crate::app_state::MouseField;
use crate::dualsense::DeviceInfo;
use crate::model::{AdaptiveTriggerMode, Button, GamepadState, StickState, TouchPoint};
use crate::profile::{AdaptiveTriggerProfile, MouseMappingProfile};
use crate::text::{
    push_char, push_decimal, push_hex_min, push_signed_decimal, push_str, spec_decimal, spec_hex_min,
    spec_signed_decimal, string_of,
};

verus! {

/// The rows of a list that are shown: `visible_rows` of them (fewer when
/// the list is shorter), placed so that the selection is as central as the
/// ends of the list allow, and always shown.
pub open spec fn spec_visible_list_range(item_count: int, selected_index: int, visible_rows: int) -> (int, int) {
    let rows = if visible_rows < item_count { visible_rows } else { item_count };
    if rows == 0 {
        (0, 0)
    } else {
        let selected = if selected_index < item_count - 1 { selected_index } else { item_count - 1 };
        let back = if selected > rows / 2 { selected - rows / 2 } else { 0 };
        let start = if back < item_count - rows { back } else { item_count - rows };
        (start, start + rows)
    }
}

/// The rows of a list that are shown.
pub fn visible_list_range(item_count: usize, selected_index: usize, visible_rows: usize) -> (r: std::ops::Range<usize>)
    ensures
        (r.start as int, r.end as int) == spec_visible_list_range(
            item_count as int,
            selected_index as int,
            visible_rows as int,
        ),
{
    let rows = if visible_rows < item_count {
        visible_rows
    } else {
        item_count
    };
    if rows == 0 {
        return 0..0;
    }
    let selected = if selected_index < item_count - 1 {
        selected_index
    } else {
        item_count - 1
    };
    let back = if selected > rows / 2 {
        selected - rows / 2
    } else {
        0
    };
    let start = if back < item_count - rows {
        back
    } else {
        item_count - rows
    };
    start..start + rows
}

/// The shown rows lie within the list, are as many as fit, and include the
/// selected row whenever the selection is within the list.
pub proof fn lemma_visible_range_shows_selection(item_count: int, selected_index: int, visible_rows: int)
    requires
        0 <= item_count,
        0 <= selected_index,
        0 <= visible_rows,
    ensures
        ({
            let (start, end) = spec_visible_list_range(item_count, selected_index, visible_rows);
            &&& 0 <= start <= end <= item_count
            &&& end - start == if visible_rows < item_count { visible_rows } else { item_count }
            &&& (visible_rows > 0 && selected_index < item_count) ==> start <= selected_index < end
        }),
{
}

/// A panel's height: a share of the screen, held to `min..=max`.
pub fn scaled_panel_height(size: u16, divisor: u16, min: u16, max: u16) -> (r: u16)
    requires
        divisor > 0,
        min <= max,
    ensures
        r as int == crate::app_state::clamp_between((size / divisor) as int, min as int, max as int),
{
    let v = size / divisor;
    if v < min {
        min
    } else if v > max {
        max
    } else {
        v
    }
}

/// A 16-bit audio level on the 0..=255 scale of a gauge.
pub fn scale_audio_level(level: u16) -> (r: u8)
    ensures
        r as int == (level as int * 255) / 65535,
{
    let v: u32 = (level as u32 * 255) / 65535;
    assert(v <= 255) by (nonlinear_arith)
        requires
            v == (level as u32 * 255) / 65535,
            level <= 65535,
    ;
    v as u8
}

/// `s` right-aligned in `width` columns, as `{:>width}` writes it.
pub open spec fn pad_left(s: Seq<char>, width: nat) -> Seq<char> {
    if s.len() >= width {
        s
    } else {
        Seq::new((width - s.len()) as nat, |i: int| ' ') + s
    }
}

fn push_padded_decimal(s: &mut String, v: u64, width: usize)
    ensures
        final(s)@ == old(s)@ + pad_left(spec_decimal(v as nat), width as nat),
{
    let mut digits = String::new();
    push_decimal(&mut digits, v);
    let n = digits.as_str().unicode_len();
    let ghost start = s@;
    if n < width {
        let mut k: usize = 0;
        while k < width - n
            invariant
                n < width,
                k <= width - n,
                s@ == start + Seq::new(k as nat, |i: int| ' '),
            decreases width - n - k,
        {
            push_char(s, ' ');
            assert(s@ =~= start + Seq::new((k + 1) as nat, |i: int| ' '));
            k = k + 1;
        }
    }
    push_str(s, digits.as_str());
    assert(s@ =~= start + pad_left(spec_decimal(v as nat), width as nat));
}

/// A touch contact as the sensor screen shows it.
pub open spec fn spec_touch_point_label(point: Option<TouchPoint>) -> Seq<char> {
    match point {
        Some(p) => "id "@ + spec_decimal(p.contact_id as nat) + "  x "@ + pad_left(
            spec_decimal(p.x as nat),
            4,
        ) + "  y "@ + pad_left(spec_decimal(p.y as nat), 4),
        None => "inactive"@,
    }
}

pub fn touch_point_label(point: Option<TouchPoint>) -> (r: String)
    ensures
        r@ == spec_touch_point_label(point),
{
    match point {
        Some(p) => {
            let mut s = string_of("id ");
            push_decimal(&mut s, p.contact_id as u64);
            push_str(&mut s, "  x ");
            push_padded_decimal(&mut s, p.x as u64, 4);
            push_str(&mut s, "  y ");
            push_padded_decimal(&mut s, p.y as u64, 4);
            s
        },
        None => string_of("inactive"),
    }
}

/// The short labels of the pressed buttons, separated by spaces, or
/// "none".
pub open spec fn spec_pressed_summary(buttons: Seq<Button>) -> Seq<char> {
    if buttons.len() == 0 {
        "none"@
    } else {
        joined_short_labels(buttons)
    }
}

pub open spec fn joined_short_labels(buttons: Seq<Button>) -> Seq<char>
    decreases buttons.len(),
{
    if buttons.len() == 0 {
        seq![]
    } else if buttons.len() == 1 {
        buttons[0].spec_short_label()
    } else {
        joined_short_labels(buttons.drop_last()) + seq![' '] + buttons.last().spec_short_label()
    }
}

pub fn pressed_summary(state: &GamepadState) -> (r: String)
    ensures
        r@ == spec_pressed_summary(state.buttons@),
{
    let buttons = &state.buttons;
    if buttons.len() == 0 {
        return string_of("none");
    }
    let mut s = String::new();
    let mut i: usize = 0;
    while i < buttons.len()
        invariant
            i <= buttons.len(),
            buttons@ == state.buttons@,
            s@ == joined_short_labels(buttons@.take(i as int)),
        decreases buttons.len() - i,
    {
        assert(buttons@.take(i + 1).drop_last() =~= buttons@.take(i as int));
        if i > 0 {
            push_char(&mut s, ' ');
        }
        push_str(&mut s, buttons[i].short_label());
        i = i + 1;
    }
    assert(buttons@.take(buttons@.len() as int) =~= buttons@);
    s
}

/// One active contact as `id:x,y`.
pub open spec fn touch_entry(p: TouchPoint) -> Seq<char> {
    spec_decimal(p.contact_id as nat) + ":"@ + spec_decimal(p.x as nat) + ","@ + spec_decimal(
        p.y as nat,
    )
}

/// The touchpad line of the input screen: the active contacts, or
/// "inactive".
pub open spec fn spec_touch_summary(points: Seq<Option<TouchPoint>>) -> Seq<char> {
    let a = points[0];
    let b = points[1];
    if a is None && b is None {
        "Touch: inactive"@
    } else if a is Some && b is Some {
        "Touch: "@ + touch_entry(a->0) + " "@ + touch_entry(b->0)
    } else if a is Some {
        "Touch: "@ + touch_entry(a->0)
    } else {
        "Touch: "@ + touch_entry(b->0)
    }
}

fn push_touch_entry(s: &mut String, p: TouchPoint)
    ensures
        final(s)@ == old(s)@ + touch_entry(p),
{
    push_decimal(s, p.contact_id as u64);
    push_str(s, ":");
    push_decimal(s, p.x as u64);
    push_str(s, ",");
    push_decimal(s, p.y as u64);
}

pub fn touch_summary(state: &GamepadState) -> (r: String)
    ensures
        r@ == spec_touch_summary(state.touch_points@),
{
    let a = state.touch_points[0];
    let b = state.touch_points[1];
    match (a, b) {
        (None, None) => string_of("Touch: inactive"),
        (Some(p), Some(q)) => {
            let mut s = string_of("Touch: ");
            push_touch_entry(&mut s, p);
            push_str(&mut s, " ");
            push_touch_entry(&mut s, q);
            s
        },
        (Some(p), None) => {
            let mut s = string_of("Touch: ");
            push_touch_entry(&mut s, p);
            s
        },
        (None, Some(q)) => {
            let mut s = string_of("Touch: ");
            push_touch_entry(&mut s, q);
            s
        },
    }
}

/// How the sensor screen names the Bluetooth checksum state.
pub fn crc_label(valid: Option<bool>) -> (r: &'static str)
    ensures
        r@ == (match valid {
            Some(true) => "valid"@,
            Some(false) => "invalid"@,
            None => "not present"@,
        }),
{
    match valid {
        Some(true) => "valid",
        Some(false) => "invalid",
        None => "not present",
    }
}

/// The cell of the 11 by 7 stick grid that marks the stick's position.
pub fn stick_grid_cell(stick: StickState) -> (r: (usize, usize))
    ensures
        r.0 as int == (stick.x as int * 10) / 255,
        r.1 as int == (stick.y as int * 6) / 255,
        r.0 < 11,
        r.1 < 7,
{
    let x = (stick.x as usize * 10) / 255;
    let y = (stick.y as usize * 6) / 255;
    assert(x <= 10) by (nonlinear_arith)
        requires
            x == (stick.x as usize * 10) / 255,
            stick.x <= 255,
    ;
    assert(y <= 6) by (nonlinear_arith)
        requires
            y == (stick.y as usize * 6) / 255,
            stick.y <= 255,
    ;
    (x, y)
}

/// A gauge's label: the value right-aligned in three columns, between
/// arrows while its row is selected.
pub open spec fn spec_gauge_label(value: u8, selected: bool) -> Seq<char> {
    let v = pad_left(spec_decimal(value as nat), 3);
    if selected {
        "> "@ + v + " <"@
    } else {
        v
    }
}

pub fn gauge_label(value: u8, selected: bool) -> (r: String)
    ensures
        r@ == spec_gauge_label(value, selected),
{
    let mut s = String::new();
    if selected {
        push_str(&mut s, "> ");
    }
    push_padded_decimal(&mut s, value as u64, 3);
    if selected {
        push_str(&mut s, " <");
    }
    s
}

/// A percentage gauge's label, between arrows while its row is selected.
pub open spec fn spec_percent_label(value: u8, selected: bool) -> Seq<char> {
    let v = spec_decimal(value as nat) + "%"@;
    if selected {
        "> "@ + v + " <"@
    } else {
        v
    }
}

pub fn percent_label(value: u8, selected: bool) -> (r: String)
    ensures
        r@ == spec_percent_label(value, selected),
{
    let mut s = String::new();
    if selected {
        push_str(&mut s, "> ");
    }
    push_decimal(&mut s, value as u64);
    push_str(&mut s, "%");
    if selected {
        push_str(&mut s, " <");
    }
    s
}

/// How the input screen describes the headset microphone.
pub fn microphone_label(connected: bool, muted: bool) -> (r: &'static str)
    ensures
        r@ == (if !connected {
            "not connected"@
        } else if muted {
            "connected, muted"@
        } else {
            "connected"@
        }),
{
    if !connected {
        "not connected"
    } else if muted {
        "connected, muted"
    } else {
        "connected"
    }
}

/// What the system screen says of the selected controller's audio.
pub fn audio_transport_note(device: Option<&DeviceInfo>) -> (r: &'static str)
    ensures
        r@ == (match device {
            None => "No DualSense selected"@,
            Some(d) => if !d.spec_is_bluetooth() {
                "USB: audio endpoint is managed by macOS CoreAudio"@
            } else {
                "Bluetooth: controller audio endpoint is not exposed by this backend"@
            },
        }),
{
    match device {
        None => "No DualSense selected",
        Some(d) => {
            if d.supports_usb_audio() {
                "USB: audio endpoint is managed by macOS CoreAudio"
            } else {
                "Bluetooth: controller audio endpoint is not exposed by this backend"
            }
        },
    }
}

/// The feel the trigger screen promises for the staged effect.
pub open spec fn spec_trigger_expected_text(t: AdaptiveTriggerProfile) -> Seq<char> {
    match t.mode {
        AdaptiveTriggerMode::Preset => t.preset.spec_expected_effect(),
        AdaptiveTriggerMode::Resistance => "constant resistance from position "@ + spec_decimal(
            t.start_position as nat,
        ) + " to "@ + spec_decimal(t.end_position as nat),
        AdaptiveTriggerMode::Vibration => "persistent vibration from position "@ + spec_decimal(
            t.start_position as nat,
        ) + " at frequency "@ + spec_decimal(t.frequency as nat),
    }
}

pub fn trigger_expected_text(t: &AdaptiveTriggerProfile) -> (r: String)
    ensures
        r@ == spec_trigger_expected_text(*t),
{
    match t.mode {
        AdaptiveTriggerMode::Preset => string_of(t.preset.expected_effect()),
        AdaptiveTriggerMode::Resistance => {
            let mut s = string_of("constant resistance from position ");
            push_decimal(&mut s, t.start_position as u64);
            push_str(&mut s, " to ");
            push_decimal(&mut s, t.end_position as u64);
            s
        },
        AdaptiveTriggerMode::Vibration => {
            let mut s = string_of("persistent vibration from position ");
            push_decimal(&mut s, t.start_position as u64);
            push_str(&mut s, " at frequency ");
            push_decimal(&mut s, t.frequency as u64);
            s
        },
    }
}

/// The name of a row of the mouse-output table.
pub fn mouse_setting_name(field: MouseField) -> (r: &'static str)
    ensures
        r@ == (match field {
            MouseField::Enabled => "Output"@,
            MouseField::PointerSpeed => "Pointer speed"@,
            MouseField::Deadzone => "Dead zone"@,
            MouseField::ScrollSpeed => "Scroll speed"@,
        }),
{
    match field {
        MouseField::Enabled => "Output",
        MouseField::PointerSpeed => "Pointer speed",
        MouseField::Deadzone => "Dead zone",
        MouseField::ScrollSpeed => "Scroll speed",
    }
}

/// The value a row of the mouse-output table shows.
pub open spec fn spec_mouse_setting_value(m: MouseMappingProfile, field: MouseField) -> Seq<char> {
    match field {
        MouseField::Enabled => if m.enabled {
            "enabled"@
        } else {
            "disabled"@
        },
        MouseField::PointerSpeed => spec_decimal(m.pointer_speed as nat) + " px/tick"@,
        MouseField::Deadzone => spec_decimal(m.deadzone_percent as nat) + "%"@,
        MouseField::ScrollSpeed => spec_decimal(m.scroll_speed as nat) + " px/tick"@,
    }
}

pub fn mouse_setting_value(m: &MouseMappingProfile, field: MouseField) -> (r: String)
    ensures
        r@ == spec_mouse_setting_value(*m, field),
{
    match field {
        MouseField::Enabled => {
            if m.enabled {
                string_of("enabled")
            } else {
                string_of("disabled")
            }
        },
        MouseField::PointerSpeed => {
            let mut s = String::new();
            push_decimal(&mut s, m.pointer_speed as u64);
            push_str(&mut s, " px/tick");
            s
        },
        MouseField::Deadzone => {
            let mut s = String::new();
            push_decimal(&mut s, m.deadzone_percent as u64);
            push_str(&mut s, "%");
            s
        },
        MouseField::ScrollSpeed => {
            let mut s = String::new();
            push_decimal(&mut s, m.scroll_speed as u64);
            push_str(&mut s, " px/tick");
            s
        },
    }
}

/// How many lines of the status panel fit its height: the screen and the
/// status line, then the controller and whether the profile is saved, then
/// the input state and the profile's path.
pub fn status_line_count(height: u16) -> (r: usize)
    ensures
        r == (if height <= 4 {
            2usize
        } else if height <= 10 {
            4usize
        } else {
            6usize
        }),
{
    if height <= 4 {
        2
    } else if height <= 10 {
        4
    } else {
        6
    }
}

/// A vendor or product identifier as the device screen shows it: `0x` and
/// at least four lower-case hex digits.
pub fn hex_id_label(v: u32) -> (r: String)
    ensures
        r@ == "0x"@ + spec_hex_min(v as nat, 4),
{
    let mut s = string_of("0x");
    push_hex_min(&mut s, v as u64, 4);
    s
}

/// The model the device screen names.
pub fn model_name(device: &DeviceInfo) -> (r: &'static str)
    ensures
        r@ == (if device.product_id == crate::dualsense::DUALSENSE_EDGE_PRODUCT_ID {
            "DualSense Edge"@
        } else {
            "DualSense"@
        }),
{
    if device.is_edge() {
        "DualSense Edge"
    } else {
        "DualSense"
    }
}

/// What the device screen says of USB audio.
pub fn usb_audio_note(device: &DeviceInfo) -> (r: &'static str)
    ensures
        r@ == (if !device.spec_is_bluetooth() {
            "available through CoreAudio"@
        } else {
            "not exposed over Bluetooth"@
        }),
{
    if device.supports_usb_audio() {
        "available through CoreAudio"
    } else {
        "not exposed over Bluetooth"
    }
}

fn push_padded_signed(s: &mut String, v: i16, width: usize)
    ensures
        final(s)@ == old(s)@ + pad_left(spec_signed_decimal(v as int), width as nat),
{
    let mut digits = String::new();
    push_signed_decimal(&mut digits, v as i32);
    let n = digits.as_str().unicode_len();
    let ghost start = s@;
    if n < width {
        let mut k: usize = 0;
        while k < width - n
            invariant
                n < width,
                k <= width - n,
                s@ == start + Seq::new(k as nat, |i: int| ' '),
            decreases width - n - k,
        {
            push_char(s, ' ');
            assert(s@ =~= start + Seq::new((k + 1) as nat, |i: int| ' '));
            k = k + 1;
        }
    }
    push_str(s, digits.as_str());
    assert(s@ =~= start + pad_left(spec_signed_decimal(v as int), width as nat));
}

/// Three raw sensor axes as the sensor screen shows them.
pub open spec fn spec_axes_label(v: [i16; 3]) -> Seq<char> {
    "x "@ + pad_left(spec_signed_decimal(v[0] as int), 6) + "  y "@ + pad_left(
        spec_signed_decimal(v[1] as int),
        6,
    ) + "  z "@ + pad_left(spec_signed_decimal(v[2] as int), 6) + " raw"@
}

pub fn axes_label(v: [i16; 3]) -> (r: String)
    ensures
        r@ == spec_axes_label(v),
{
    let mut s = string_of("x ");
    push_padded_signed(&mut s, v[0], 6);
    push_str(&mut s, "  y ");
    push_padded_signed(&mut s, v[1], 6);
    push_str(&mut s, "  z ");
    push_padded_signed(&mut s, v[2], 6);
    push_str(&mut s, " raw");
    s
}

/// The sensor clock as the sensor screen shows it.
pub fn timestamp_label(ticks: u32) -> (r: String)
    ensures
        r@ == "Timestamp: "@ + spec_decimal(ticks as nat) + " ticks"@,
{
    let mut s = string_of("Timestamp: ");
    push_decimal(&mut s, ticks as u64);
    push_str(&mut s, " ticks");
    s
}

} // verus!
