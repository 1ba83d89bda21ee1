//! Selection and adjustment rules of the configurator screens.
use vstd::prelude::*;
use crate::audio::AudioReactiveState;
use crate::dualsense::AdaptiveTriggerEffect;
use crate::model::{AdaptiveTriggerMode, AdaptiveTriggerPreset, TriggerTarget};
use crate::profile::{AdaptiveTriggerProfile, Profile};
use crate::text::{ascii_lower, is_blank, push_decimal, push_signed_decimal, push_str, spec_decimal, spec_signed_decimal};

verus! {

/// `value + delta`, held to the range of a byte.
pub fn adjust_u8(value: u8, delta: i16) -> (r: u8)
    requires
        value + delta <= i16::MAX,
    ensures
        r as int == crate::model::clamp_byte(value as int, delta as int),
{
    let sum: i32 = value as i32 + delta as i32;
    if sum < 0 {
        0
    } else if sum > 255 {
        255
    } else {
        sum as u8
    }
}

/// `value + delta`, held to `min..=max`.
pub open spec fn clamp_between(value: int, min: int, max: int) -> int {
    if value < min {
        min
    } else if value > max {
        max
    } else {
        value
    }
}

/// `value + delta`, held to `min..=max`.
pub fn adjust_u16(value: u16, delta: i16, min: u16, max: u16) -> (r: u16)
    requires
        min <= max,
    ensures
        r as int == clamp_between(value + delta, min as int, max as int),
{
    let sum: i32 = value as i32 + delta as i32;
    if sum < min as i32 {
        min
    } else if sum > max as i32 {
        max
    } else {
        sum as u16
    }
}

/// Moves a selection `delta` places through a list of `len` entries,
/// wrapping at both ends; an empty list always selects 0.
pub fn move_index(current: usize, len: usize, delta: isize) -> (r: usize)
    requires
        current <= isize::MAX,
        len <= isize::MAX,
        isize::MIN <= current + delta <= isize::MAX,
    ensures
        len == 0 ==> r == 0,
        len > 0 ==> r as int == (current + delta) % (len as int),
        len > 0 ==> r < len,
{
    if len == 0 {
        return 0;
    }
    let l: isize = len as isize;
    let s: isize = current as isize + delta;
    match s.checked_rem_euclid(l) {
        Some(m) => m as usize,
        None => 0,
    }
}


/// A screen of the terminal configurator.
#[derive(Clone, Copy, Debug, PartialEq, Eq, Structural)]
pub enum Tab {
    Devices,
    Input,
    Sensors,
    Lightbar,
    Haptics,
    Triggers,
    System,
    Mapping,
}

impl Tab {
    /// Every variant, in the order used for cycling.
    pub const ALL: [Self; 8] = [
        Self::Devices,
        Self::Input,
        Self::Sensors,
        Self::Lightbar,
        Self::Haptics,
        Self::Triggers,
        Self::System,
        Self::Mapping,
    ];

    /// The position of this variant in `ALL`.
    pub open spec fn spec_index(self) -> int {
        match self {
            Self::Devices => 0,
            Self::Input => 1,
            Self::Sensors => 2,
            Self::Lightbar => 3,
            Self::Haptics => 4,
            Self::Triggers => 5,
            Self::System => 6,
            Self::Mapping => 7,
        }
    }

    /// The variant at a position of `ALL`.
    pub open spec fn spec_at(i: int) -> Self {
        if i == 0 {
            Self::Devices
        } else if i == 1 {
            Self::Input
        } else if i == 2 {
            Self::Sensors
        } else if i == 3 {
            Self::Lightbar
        } else if i == 4 {
            Self::Haptics
        } else if i == 5 {
            Self::Triggers
        } else if i == 6 {
            Self::System
        } else {
            Self::Mapping
        }
    }

    pub fn index(self) -> (r: usize)
        ensures
            r as int == self.spec_index(),
            r < 8,
    {
        match self {
            Self::Devices => 0,
            Self::Input => 1,
            Self::Sensors => 2,
            Self::Lightbar => 3,
            Self::Haptics => 4,
            Self::Triggers => 5,
            Self::System => 6,
            Self::Mapping => 7,
        }
    }

    /// The variant at `index` of `ALL`, wrapping around.
    pub fn from_index(index: usize) -> (r: Self)
        ensures
            r == Self::spec_at(index as int % 8),
    {
        let i: usize = index % 8;
        if i == 0 {
            Self::Devices
        } else if i == 1 {
            Self::Input
        } else if i == 2 {
            Self::Sensors
        } else if i == 3 {
            Self::Lightbar
        } else if i == 4 {
            Self::Haptics
        } else if i == 5 {
            Self::Triggers
        } else if i == 6 {
            Self::System
        } else {
            Self::Mapping
        }
    }

    pub open spec fn spec_title(self) -> Seq<char> {
        match self {
            Self::Devices => "Devices"@,
            Self::Input => "Input"@,
            Self::Sensors => "Sensors"@,
            Self::Lightbar => "Lightbar"@,
            Self::Haptics => "Haptics"@,
            Self::Triggers => "Triggers"@,
            Self::System => "System"@,
            Self::Mapping => "Mapping"@,
        }
    }

    /// The tab title.
    pub fn title(self) -> (r: &'static str)
        ensures
            r@ == self.spec_title(),
    {
        match self {
            Self::Devices => "Devices",
            Self::Input => "Input",
            Self::Sensors => "Sensors",
            Self::Lightbar => "Lightbar",
            Self::Haptics => "Haptics",
            Self::Triggers => "Triggers",
            Self::System => "System",
            Self::Mapping => "Mapping",
        }
    }

    pub open spec fn spec_compact_title(self) -> Seq<char> {
        match self {
            Self::Devices => "Dev"@,
            Self::Input => "Input"@,
            Self::Sensors => "Sense"@,
            Self::Lightbar => "Light"@,
            Self::Haptics => "Haptic"@,
            Self::Triggers => "Trig"@,
            Self::System => "System"@,
            Self::Mapping => "Map"@,
        }
    }

    /// A short tab title for narrow terminals.
    pub fn compact_title(self) -> (r: &'static str)
        ensures
            r@ == self.spec_compact_title(),
    {
        match self {
            Self::Devices => "Dev",
            Self::Input => "Input",
            Self::Sensors => "Sense",
            Self::Lightbar => "Light",
            Self::Haptics => "Haptic",
            Self::Triggers => "Trig",
            Self::System => "System",
            Self::Mapping => "Map",
        }
    }

}

/// Every variant of `Tab` sits at one position of the cycle, and that
/// position leads back to it.
pub proof fn lemma_tab_index(x: Tab)
    ensures
        0 <= x.spec_index() < 8,
        Tab::spec_at(x.spec_index()) == x,
{
}

/// A lightbar colour channel.
#[derive(Clone, Copy, Debug, PartialEq, Eq, Structural)]
pub enum LightbarField {
    Red,
    Green,
    Blue,
}

impl LightbarField {
    /// Every variant, in the order used for cycling.
    pub const ALL: [Self; 3] = [
        Self::Red,
        Self::Green,
        Self::Blue,
    ];

    /// The position of this variant in `ALL`.
    pub open spec fn spec_index(self) -> int {
        match self {
            Self::Red => 0,
            Self::Green => 1,
            Self::Blue => 2,
        }
    }

    /// The variant at a position of `ALL`.
    pub open spec fn spec_at(i: int) -> Self {
        if i == 0 {
            Self::Red
        } else if i == 1 {
            Self::Green
        } else {
            Self::Blue
        }
    }

    pub fn channel_index(self) -> (r: usize)
        ensures
            r as int == self.spec_index(),
            r < 3,
    {
        match self {
            Self::Red => 0,
            Self::Green => 1,
            Self::Blue => 2,
        }
    }

    /// The variant at `index` of `ALL`, wrapping around.
    pub fn from_index(index: usize) -> (r: Self)
        ensures
            r == Self::spec_at(index as int % 3),
    {
        let i: usize = index % 3;
        if i == 0 {
            Self::Red
        } else if i == 1 {
            Self::Green
        } else {
            Self::Blue
        }
    }

}

impl LightbarField {
    /// The field `delta` places further down the screen, wrapping around.
    pub fn move_by(self, delta: isize) -> (r: Self)
        requires
            delta <= isize::MAX - 3,
        ensures
            r == Self::spec_at((self.spec_index() + delta) % 3),
    {
        Self::from_index(move_index(self.channel_index(), 3, delta))
    }
}

/// A row of the haptics screen.
#[derive(Clone, Copy, Debug, PartialEq, Eq, Structural)]
pub enum HapticField {
    State,
    Mode,
    Strength,
    ReactiveState,
    ReactiveSensitivity,
    ReactiveThreshold,
    Demo,
}

impl HapticField {
    /// Every variant, in the order used for cycling.
    pub const ALL: [Self; 7] = [
        Self::State,
        Self::Mode,
        Self::Strength,
        Self::ReactiveState,
        Self::ReactiveSensitivity,
        Self::ReactiveThreshold,
        Self::Demo,
    ];

    /// The position of this variant in `ALL`.
    pub open spec fn spec_index(self) -> int {
        match self {
            Self::State => 0,
            Self::Mode => 1,
            Self::Strength => 2,
            Self::ReactiveState => 3,
            Self::ReactiveSensitivity => 4,
            Self::ReactiveThreshold => 5,
            Self::Demo => 6,
        }
    }

    /// The variant at a position of `ALL`.
    pub open spec fn spec_at(i: int) -> Self {
        if i == 0 {
            Self::State
        } else if i == 1 {
            Self::Mode
        } else if i == 2 {
            Self::Strength
        } else if i == 3 {
            Self::ReactiveState
        } else if i == 4 {
            Self::ReactiveSensitivity
        } else if i == 5 {
            Self::ReactiveThreshold
        } else {
            Self::Demo
        }
    }

    pub fn index(self) -> (r: usize)
        ensures
            r as int == self.spec_index(),
            r < 7,
    {
        match self {
            Self::State => 0,
            Self::Mode => 1,
            Self::Strength => 2,
            Self::ReactiveState => 3,
            Self::ReactiveSensitivity => 4,
            Self::ReactiveThreshold => 5,
            Self::Demo => 6,
        }
    }

    /// The variant at `index` of `ALL`, wrapping around.
    pub fn from_index(index: usize) -> (r: Self)
        ensures
            r == Self::spec_at(index as int % 7),
    {
        let i: usize = index % 7;
        if i == 0 {
            Self::State
        } else if i == 1 {
            Self::Mode
        } else if i == 2 {
            Self::Strength
        } else if i == 3 {
            Self::ReactiveState
        } else if i == 4 {
            Self::ReactiveSensitivity
        } else if i == 5 {
            Self::ReactiveThreshold
        } else {
            Self::Demo
        }
    }

}

impl HapticField {
    /// The field `delta` places further down the screen, wrapping around.
    pub fn move_by(self, delta: isize) -> (r: Self)
        requires
            delta <= isize::MAX - 7,
        ensures
            r == Self::spec_at((self.spec_index() + delta) % 7),
    {
        Self::from_index(move_index(self.index(), 7, delta))
    }
}

/// A row of the adaptive-trigger screen.
#[derive(Clone, Copy, Debug, PartialEq, Eq, Structural)]
pub enum TriggerField {
    Target,
    Mode,
    Intensity,
    StartPosition,
    EndPosition,
    Frequency,
    Presets,
}

impl TriggerField {
    /// Every variant, in the order used for cycling.
    pub const ALL: [Self; 7] = [
        Self::Target,
        Self::Mode,
        Self::Intensity,
        Self::StartPosition,
        Self::EndPosition,
        Self::Frequency,
        Self::Presets,
    ];

    /// The position of this variant in `ALL`.
    pub open spec fn spec_index(self) -> int {
        match self {
            Self::Target => 0,
            Self::Mode => 1,
            Self::Intensity => 2,
            Self::StartPosition => 3,
            Self::EndPosition => 4,
            Self::Frequency => 5,
            Self::Presets => 6,
        }
    }

    /// The variant at a position of `ALL`.
    pub open spec fn spec_at(i: int) -> Self {
        if i == 0 {
            Self::Target
        } else if i == 1 {
            Self::Mode
        } else if i == 2 {
            Self::Intensity
        } else if i == 3 {
            Self::StartPosition
        } else if i == 4 {
            Self::EndPosition
        } else if i == 5 {
            Self::Frequency
        } else {
            Self::Presets
        }
    }

    pub fn index(self) -> (r: usize)
        ensures
            r as int == self.spec_index(),
            r < 7,
    {
        match self {
            Self::Target => 0,
            Self::Mode => 1,
            Self::Intensity => 2,
            Self::StartPosition => 3,
            Self::EndPosition => 4,
            Self::Frequency => 5,
            Self::Presets => 6,
        }
    }

    /// The variant at `index` of `ALL`, wrapping around.
    pub fn from_index(index: usize) -> (r: Self)
        ensures
            r == Self::spec_at(index as int % 7),
    {
        let i: usize = index % 7;
        if i == 0 {
            Self::Target
        } else if i == 1 {
            Self::Mode
        } else if i == 2 {
            Self::Intensity
        } else if i == 3 {
            Self::StartPosition
        } else if i == 4 {
            Self::EndPosition
        } else if i == 5 {
            Self::Frequency
        } else {
            Self::Presets
        }
    }

}

impl TriggerField {
    /// The field `delta` places further down the screen, wrapping around.
    pub fn move_by(self, delta: isize) -> (r: Self)
        requires
            delta <= isize::MAX - 7,
        ensures
            r == Self::spec_at((self.spec_index() + delta) % 7),
    {
        Self::from_index(move_index(self.index(), 7, delta))
    }
}

/// A row of the system-controls screen.
#[derive(Clone, Copy, Debug, PartialEq, Eq, Structural)]
pub enum SystemField {
    PlayerIndicator,
    MicrophoneMute,
    SpeakerVolume,
    MicrophoneVolume,
    AudioRoute,
}

impl SystemField {
    /// Every variant, in the order used for cycling.
    pub const ALL: [Self; 5] = [
        Self::PlayerIndicator,
        Self::MicrophoneMute,
        Self::SpeakerVolume,
        Self::MicrophoneVolume,
        Self::AudioRoute,
    ];

    /// The position of this variant in `ALL`.
    pub open spec fn spec_index(self) -> int {
        match self {
            Self::PlayerIndicator => 0,
            Self::MicrophoneMute => 1,
            Self::SpeakerVolume => 2,
            Self::MicrophoneVolume => 3,
            Self::AudioRoute => 4,
        }
    }

    /// The variant at a position of `ALL`.
    pub open spec fn spec_at(i: int) -> Self {
        if i == 0 {
            Self::PlayerIndicator
        } else if i == 1 {
            Self::MicrophoneMute
        } else if i == 2 {
            Self::SpeakerVolume
        } else if i == 3 {
            Self::MicrophoneVolume
        } else {
            Self::AudioRoute
        }
    }

    pub fn index(self) -> (r: usize)
        ensures
            r as int == self.spec_index(),
            r < 5,
    {
        match self {
            Self::PlayerIndicator => 0,
            Self::MicrophoneMute => 1,
            Self::SpeakerVolume => 2,
            Self::MicrophoneVolume => 3,
            Self::AudioRoute => 4,
        }
    }

    /// The variant at `index` of `ALL`, wrapping around.
    pub fn from_index(index: usize) -> (r: Self)
        ensures
            r == Self::spec_at(index as int % 5),
    {
        let i: usize = index % 5;
        if i == 0 {
            Self::PlayerIndicator
        } else if i == 1 {
            Self::MicrophoneMute
        } else if i == 2 {
            Self::SpeakerVolume
        } else if i == 3 {
            Self::MicrophoneVolume
        } else {
            Self::AudioRoute
        }
    }

}

impl SystemField {
    /// The field `delta` places further down the screen, wrapping around.
    pub fn move_by(self, delta: isize) -> (r: Self)
        requires
            delta <= isize::MAX - 5,
        ensures
            r == Self::spec_at((self.spec_index() + delta) % 5),
    {
        Self::from_index(move_index(self.index(), 5, delta))
    }
}

/// A row of the mouse-output screen.
#[derive(Clone, Copy, Debug, PartialEq, Eq, Structural)]
pub enum MouseField {
    Enabled,
    PointerSpeed,
    Deadzone,
    ScrollSpeed,
}

impl MouseField {
    /// Every variant, in the order used for cycling.
    pub const ALL: [Self; 4] = [
        Self::Enabled,
        Self::PointerSpeed,
        Self::Deadzone,
        Self::ScrollSpeed,
    ];

    /// The position of this variant in `ALL`.
    pub open spec fn spec_index(self) -> int {
        match self {
            Self::Enabled => 0,
            Self::PointerSpeed => 1,
            Self::Deadzone => 2,
            Self::ScrollSpeed => 3,
        }
    }

    /// The variant at a position of `ALL`.
    pub open spec fn spec_at(i: int) -> Self {
        if i == 0 {
            Self::Enabled
        } else if i == 1 {
            Self::PointerSpeed
        } else if i == 2 {
            Self::Deadzone
        } else {
            Self::ScrollSpeed
        }
    }

    pub fn index(self) -> (r: usize)
        ensures
            r as int == self.spec_index(),
            r < 4,
    {
        match self {
            Self::Enabled => 0,
            Self::PointerSpeed => 1,
            Self::Deadzone => 2,
            Self::ScrollSpeed => 3,
        }
    }

    /// The variant at `index` of `ALL`, wrapping around.
    pub fn from_index(index: usize) -> (r: Self)
        ensures
            r == Self::spec_at(index as int % 4),
    {
        let i: usize = index % 4;
        if i == 0 {
            Self::Enabled
        } else if i == 1 {
            Self::PointerSpeed
        } else if i == 2 {
            Self::Deadzone
        } else {
            Self::ScrollSpeed
        }
    }

}

impl MouseField {
    /// The field `delta` places further down the screen, wrapping around.
    pub fn move_by(self, delta: isize) -> (r: Self)
        requires
            delta <= isize::MAX - 4,
        ensures
            r == Self::spec_at((self.spec_index() + delta) % 4),
    {
        Self::from_index(move_index(self.index(), 4, delta))
    }
}

/// Which mapping table is shown.
#[derive(Clone, Copy, Debug, PartialEq, Eq, Structural)]
pub enum MappingView {
    ControllerProfile,
    KeyboardOutput,
    MouseOutput,
}

impl MappingView {
    /// The position of this variant in `ALL`.
    pub open spec fn spec_index(self) -> int {
        match self {
            Self::ControllerProfile => 0,
            Self::KeyboardOutput => 1,
            Self::MouseOutput => 2,
        }
    }

    /// The variant at a position of `ALL`.
    pub open spec fn spec_at(i: int) -> Self {
        if i == 0 {
            Self::ControllerProfile
        } else if i == 1 {
            Self::KeyboardOutput
        } else {
            Self::MouseOutput
        }
    }

    pub fn index(self) -> (r: usize)
        ensures
            r as int == self.spec_index(),
            r < 3,
    {
        match self {
            Self::ControllerProfile => 0,
            Self::KeyboardOutput => 1,
            Self::MouseOutput => 2,
        }
    }

    /// The variant at `index` of `ALL`, wrapping around.
    pub fn from_index(index: usize) -> (r: Self)
        ensures
            r == Self::spec_at(index as int % 3),
    {
        let i: usize = index % 3;
        if i == 0 {
            Self::ControllerProfile
        } else if i == 1 {
            Self::KeyboardOutput
        } else {
            Self::MouseOutput
        }
    }

    pub open spec fn spec_label(self) -> Seq<char> {
        match self {
            Self::ControllerProfile => "Controller profile"@,
            Self::KeyboardOutput => "Keyboard output"@,
            Self::MouseOutput => "Mouse output"@,
        }
    }

    /// The name shown to the user.
    pub fn label(self) -> (r: &'static str)
        ensures
            r@ == self.spec_label(),
    {
        match self {
            Self::ControllerProfile => "Controller profile",
            Self::KeyboardOutput => "Keyboard output",
            Self::MouseOutput => "Mouse output",
        }
    }

}

impl MappingView {
    /// The next table, wrapping around.
    pub fn next(self) -> (r: Self)
        ensures
            r == Self::spec_at((self.spec_index() + 1) % 3),
    {
        match self {
            MappingView::ControllerProfile => MappingView::KeyboardOutput,
            MappingView::KeyboardOutput => MappingView::MouseOutput,
            MappingView::MouseOutput => MappingView::ControllerProfile,
        }
    }
}

/// Sizes of the resizable terminal panels.
#[derive(Clone, Copy, Debug, PartialEq, Eq, Structural)]
pub struct PanelLayout {
    pub devices_size: u16,
    pub status_size: u16,
    pub controls_height: u16,
}

impl PanelLayout {
    pub const MIN_DEVICES_SIZE: u16 = 20;
    pub const MAX_DEVICES_SIZE: u16 = 48;
    pub const MIN_STATUS_SIZE: u16 = 24;
    pub const MAX_STATUS_SIZE: u16 = 56;
    pub const MIN_CONTROLS_HEIGHT: u16 = 4;
    pub const MAX_CONTROLS_HEIGHT: u16 = 8;

    /// Widens the device list by `delta`, within 20..=48.
    pub fn adjust_devices(&mut self, delta: i16)
        ensures
            *final(self) == (PanelLayout {
                devices_size: clamp_between(old(self).devices_size + delta, 20, 48) as u16,
                ..*old(self)
            }),
    {
        self.devices_size = adjust_u16(self.devices_size, delta, 20, 48);
    }

    /// Widens the status panel by `delta`, within 24..=56.
    pub fn adjust_status(&mut self, delta: i16)
        ensures
            *final(self) == (PanelLayout {
                status_size: clamp_between(old(self).status_size + delta, 24, 56) as u16,
                ..*old(self)
            }),
    {
        self.status_size = adjust_u16(self.status_size, delta, 24, 56);
    }

    /// Makes the controls panel `delta` rows taller, within 4..=8.
    pub fn adjust_controls(&mut self, delta: i16)
        ensures
            *final(self) == (PanelLayout {
                controls_height: clamp_between(old(self).controls_height + delta, 4, 8) as u16,
                ..*old(self)
            }),
    {
        self.controls_height = adjust_u16(self.controls_height, delta, 4, 8);
    }
}

impl Default for PanelLayout {
    fn default() -> (l: Self)
        ensures
            l == (PanelLayout { devices_size: 32, status_size: 36, controls_height: 6 }),
    {
        PanelLayout { devices_size: 32, status_size: 36, controls_height: 6 }
    }
}

/// Adjusting a panel keeps every size within its range, whatever the delta.
pub proof fn lemma_panel_sizes_in_range(value: int, delta: int, min: int, max: int)
    requires
        min <= max,
    ensures
        min <= clamp_between(value + delta, min, max) <= max,
{
}

/// Steady interval between lightbar reapplications while the app is inactive.
pub const LIGHTBAR_INACTIVE_REAPPLY_INTERVAL_MS: u64 = 2000;

/// The delay before the next lightbar reapplication while inactive, in
/// milliseconds, and the next burst position: a 50, 150, 400 ms burst first,
/// then the steady two-second interval.
pub fn inactive_lightbar_reapply_delay(burst_index: usize) -> (r: (u64, usize))
    ensures
        burst_index == 0 ==> r == (50u64, 1usize),
        burst_index == 1 ==> r == (150u64, 2usize),
        burst_index == 2 ==> r == (400u64, 3usize),
        burst_index >= 3 ==> r == (LIGHTBAR_INACTIVE_REAPPLY_INTERVAL_MS, burst_index),
{
    if burst_index == 0 {
        (50, 1)
    } else if burst_index == 1 {
        (150, 2)
    } else if burst_index == 2 {
        (400, 3)
    } else {
        (LIGHTBAR_INACTIVE_REAPPLY_INTERVAL_MS, burst_index)
    }
}

/// The left and right trigger effects for a target: the effect on the
/// targeted side(s), off on the other.
pub fn trigger_effects_for(target: TriggerTarget, effect: AdaptiveTriggerEffect) -> (r: (AdaptiveTriggerEffect, AdaptiveTriggerEffect))
    ensures
        target == TriggerTarget::Both ==> r.0 == effect && r.1 == effect,
        target == TriggerTarget::Left ==> r.0 == effect && r.1.bytes@ == Seq::new(11, |i: int| 0u8),
        target == TriggerTarget::Right ==> r.0.bytes@ == Seq::new(11, |i: int| 0u8) && r.1 == effect,
{
    let off = AdaptiveTriggerEffect::off();
    match target {
        TriggerTarget::Both => (effect, effect),
        TriggerTarget::Left => (effect, off),
        TriggerTarget::Right => (off, effect),
    }
}

/// The trigger settings after adjusting one field by `delta`: cyclic fields
/// step forward or back by the sign of `delta`, numbers move by `delta` within
/// a byte; positions stay within the ten zones with the end no earlier than
/// the start, and the frequency stays at least 1.
pub open spec fn spec_adjust_trigger(t: AdaptiveTriggerProfile, field: TriggerField, delta: int) -> AdaptiveTriggerProfile {
    match field {
        TriggerField::Target => AdaptiveTriggerProfile {
            target: if delta > 0 { t.target.spec_next() } else if delta < 0 { t.target.spec_previous() } else { t.target },
            ..t
        },
        TriggerField::Mode => AdaptiveTriggerProfile {
            mode: if delta > 0 { t.mode.spec_next() } else if delta < 0 { t.mode.spec_previous() } else { t.mode },
            ..t
        },
        TriggerField::Intensity => AdaptiveTriggerProfile {
            intensity: crate::model::clamp_byte(t.intensity as int, delta) as u8,
            ..t
        },
        TriggerField::StartPosition => {
            let s = crate::model::clamp_byte(t.start_position as int, delta);
            let s = if s > 9 { 9 } else { s };
            let e = if t.end_position > s { t.end_position as int } else { s };
            let e = if e > 9 { 9 } else { e };
            AdaptiveTriggerProfile { start_position: s as u8, end_position: e as u8, ..t }
        },
        TriggerField::EndPosition => AdaptiveTriggerProfile {
            end_position: clamp_between(
                crate::model::clamp_byte(t.end_position as int, delta),
                t.start_position as int,
                9,
            ) as u8,
            ..t
        },
        TriggerField::Frequency => {
            let f = crate::model::clamp_byte(t.frequency as int, delta);
            AdaptiveTriggerProfile { frequency: if f < 1 { 1 } else { f as u8 }, ..t }
        },
        TriggerField::Presets => AdaptiveTriggerProfile {
            preset: if delta > 0 { t.preset.spec_next() } else if delta < 0 { t.preset.spec_previous() } else { t.preset },
            ..t
        },
    }
}

/// The number a trigger field holds, or 0 for the cyclic fields.
pub open spec fn trigger_field_value(t: AdaptiveTriggerProfile, field: TriggerField) -> int {
    match field {
        TriggerField::Intensity => t.intensity as int,
        TriggerField::StartPosition => t.start_position as int,
        TriggerField::EndPosition => t.end_position as int,
        TriggerField::Frequency => t.frequency as int,
        _ => 0,
    }
}

/// Adjusts one trigger field of `profile` by `delta`; nothing else changes.
pub fn adjust_trigger_field(profile: &mut Profile, field: TriggerField, delta: i16)
    requires
        trigger_field_value(old(profile).adaptive_triggers, field) + delta <= i16::MAX,
        field == TriggerField::EndPosition ==> old(profile).adaptive_triggers.start_position <= 9,
    ensures
        final(profile).adaptive_triggers == spec_adjust_trigger(old(profile).adaptive_triggers, field, delta as int),
        final(profile).lightbar == old(profile).lightbar,
        final(profile).haptics == old(profile).haptics,
        final(profile).system == old(profile).system,
        final(profile).mappings == old(profile).mappings,
        final(profile).keyboard_mapping == old(profile).keyboard_mapping,
        final(profile).mouse_mapping == old(profile).mouse_mapping,
{
    let mut t = profile.adaptive_triggers;
    match field {
        TriggerField::Target => {
            if delta > 0 {
                t.target = t.target.next();
            } else if delta < 0 {
                t.target = t.target.previous();
            }
        },
        TriggerField::Mode => {
            if delta > 0 {
                t.mode = t.mode.next();
            } else if delta < 0 {
                t.mode = t.mode.previous();
            }
        },
        TriggerField::Intensity => {
            t.intensity = adjust_u8(t.intensity, delta);
        },
        TriggerField::StartPosition => {
            let s = adjust_u8(t.start_position, delta);
            t.start_position = if s > 9 { 9 } else { s };
            let e = if t.end_position > t.start_position { t.end_position } else { t.start_position };
            t.end_position = if e > 9 { 9 } else { e };
        },
        TriggerField::EndPosition => {
            let e = adjust_u8(t.end_position, delta);
            t.end_position = if e < t.start_position {
                t.start_position
            } else if e > 9 {
                9
            } else {
                e
            };
        },
        TriggerField::Frequency => {
            let f = adjust_u8(t.frequency, delta);
            t.frequency = if f < 1 { 1 } else { f };
        },
        TriggerField::Presets => {
            if delta > 0 {
                t.preset = t.preset.next();
            } else if delta < 0 {
                t.preset = t.preset.previous();
            }
        },
    }
    profile.adaptive_triggers = t;
}

/// Whatever is adjusted, the custom positions of settings that started in the
/// protocol range stay in it with the end no earlier than the start, and the
/// frequency stays at least 1.
pub proof fn lemma_adjust_trigger_keeps_ranges(t: AdaptiveTriggerProfile, field: TriggerField, delta: int)
    requires
        t.start_position <= t.end_position <= 9,
        t.frequency >= 1,
    ensures
        spec_adjust_trigger(t, field, delta).start_position <= spec_adjust_trigger(t, field, delta).end_position <= 9,
        spec_adjust_trigger(t, field, delta).frequency >= 1,
{
}

/// A zero delta leaves every trigger setting as it was.
pub proof fn lemma_zero_delta_keeps_triggers(t: AdaptiveTriggerProfile, field: TriggerField)
    requires
        t.start_position <= t.end_position <= 9,
        t.frequency >= 1,
    ensures
        spec_adjust_trigger(t, field, 0) == t,
{
}

/// One line describing the selected trigger effect.
pub open spec fn spec_trigger_effect_description(p: AdaptiveTriggerProfile) -> Seq<char> {
    match p.mode {
        AdaptiveTriggerMode::Preset => p.preset.spec_label(),
        AdaptiveTriggerMode::Resistance => "Resistance "@ + spec_decimal(p.start_position as nat) + "-"@
            + spec_decimal(p.end_position as nat),
        AdaptiveTriggerMode::Vibration => "Vibration "@ + spec_decimal(p.frequency as nat) + " Hz"@,
    }
}

pub fn trigger_effect_description(profile: &AdaptiveTriggerProfile) -> (s: String)
    ensures
        s@ == spec_trigger_effect_description(*profile),
{
    let mut s = String::new();
    match profile.mode {
        AdaptiveTriggerMode::Preset => push_str(&mut s, profile.preset.label()),
        AdaptiveTriggerMode::Resistance => {
            push_str(&mut s, "Resistance ");
            push_decimal(&mut s, profile.start_position as u64);
            push_str(&mut s, "-");
            push_decimal(&mut s, profile.end_position as u64);
        },
        AdaptiveTriggerMode::Vibration => {
            push_str(&mut s, "Vibration ");
            push_decimal(&mut s, profile.frequency as u64);
            push_str(&mut s, " Hz");
        },
    }
    s
}

/// The key under which a controller's unsaved edits are kept: its MAC
/// address in lower case, or `default` when it has none.
pub open spec fn spec_profile_key(mac_address: Option<Seq<char>>) -> Seq<char> {
    match mac_address {
        Some(a) => if is_blank(a) { "default"@ } else { ascii_lower(a) },
        None => "default"@,
    }
}

pub fn profile_key(mac_address: Option<&str>) -> (r: String)
    ensures
        r@ == spec_profile_key(match mac_address { Some(a) => Some(a@), None => None }),
{
    match mac_address {
        Some(a) => {
            if crate::text::str_is_blank(a) {
                crate::text::string_of("default")
            } else {
                let chars = crate::text::str_chars(a);
                let lower = crate::text::lower_ascii_chars(&chars);
                let mut s = String::new();
                crate::text::push_chars(&mut s, &lower);
                s
            }
        },
        None => crate::text::string_of("default"),
    }
}

/// How a controller is named in messages: its MAC address, or a phrase
/// saying it has none.
pub fn device_label(mac_address: &Option<String>) -> (r: &str)
    ensures
        r@ == match mac_address {
            Some(a) => a@,
            None => "controller without a MAC address"@,
        },
{
    match mac_address {
        Some(a) => a.as_str(),
        None => "controller without a MAC address",
    }
}

/// The status line for a capture outcome.
pub open spec fn spec_audio_capture_status_message(state: AudioReactiveState) -> Seq<char> {
    match state {
        AudioReactiveState::Stopped => "Audio-reactive haptics stopped"@,
        AudioReactiveState::Running => "Audio-reactive haptics started from system audio"@,
        AudioReactiveState::Unsupported => "Audio-reactive haptics require macOS 14.2 or later"@,
        AudioReactiveState::Failed(error) => "System-audio capture failed ("@ + spec_signed_decimal(error as int)
            + "); allow DualSenseTUI in Privacy & Security > Screen & System Audio Recording"@,
    }
}

pub fn audio_capture_status_message(state: AudioReactiveState) -> (s: String)
    ensures
        s@ == spec_audio_capture_status_message(state),
{
    match state {
        AudioReactiveState::Stopped => crate::text::string_of("Audio-reactive haptics stopped"),
        AudioReactiveState::Running => crate::text::string_of("Audio-reactive haptics started from system audio"),
        AudioReactiveState::Unsupported => crate::text::string_of("Audio-reactive haptics require macOS 14.2 or later"),
        AudioReactiveState::Failed(error) => {
            let mut s = crate::text::string_of("System-audio capture failed (");
            push_signed_decimal(&mut s, error);
            push_str(&mut s, "); allow DualSenseTUI in Privacy & Security > Screen & System Audio Recording");
            s
        },
    }
}

/// What the background LaunchAgent looks like from the desktop shell.
#[derive(Clone, Copy, Debug, PartialEq, Eq, Structural)]
pub struct BackgroundAgentSnapshot {
    pub installed: bool,
    pub loaded: bool,
}

impl Default for BackgroundAgentSnapshot {
    fn default() -> (s: Self)
        ensures
            s == (BackgroundAgentSnapshot { installed: false, loaded: false }),
    {
        BackgroundAgentSnapshot { installed: false, loaded: false }
    }
}

/// The desktop shell forwards to the daemon only while the agent is loaded;
/// an installed but unloaded agent leaves the local service in charge.
pub fn should_proxy_to_daemon(status: BackgroundAgentSnapshot) -> (r: bool)
    ensures
        r == status.loaded,
{
    status.loaded
}

} // verus!
