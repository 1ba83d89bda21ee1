//! The persisted controller profile and its normalization rules.
use vstd::prelude::*;
use crate::app_state::clamp_between;
use crate::model::{
    AdaptiveTriggerMode, AdaptiveTriggerPreset, AudioRoute, Button, KeyboardKey, PlayerIndicator,
    Rgb, TriggerTarget,
};

verus! {

/// The adaptive-trigger settings of a profile.
#[derive(Clone, Copy, Debug, PartialEq, Eq, Structural)]
pub struct AdaptiveTriggerProfile {
    pub target: TriggerTarget,
    pub mode: AdaptiveTriggerMode,
    pub preset: AdaptiveTriggerPreset,
    pub intensity: u8,
    pub start_position: u8,
    pub end_position: u8,
    pub frequency: u8,
}

impl Default for AdaptiveTriggerProfile {
    fn default() -> (p: Self)
        ensures
            p == (AdaptiveTriggerProfile {
                target: TriggerTarget::Both,
                mode: AdaptiveTriggerMode::Preset,
                preset: AdaptiveTriggerPreset::Bow,
                intensity: 180,
                start_position: 2,
                end_position: 9,
                frequency: 32,
            }),
    {
        AdaptiveTriggerProfile {
            target: TriggerTarget::Both,
            mode: AdaptiveTriggerMode::Preset,
            preset: AdaptiveTriggerPreset::Bow,
            intensity: 180,
            start_position: 2,
            end_position: 9,
            frequency: 32,
        }
    }
}

/// A controller button remapped to another.
#[derive(Clone, Copy, Debug, PartialEq, Eq, Structural)]
pub struct ButtonMapping {
    pub from: Button,
    pub to: Button,
}

/// A controller button that emits a keyboard key.
#[derive(Clone, Copy, Debug, PartialEq, Eq, Structural)]
pub struct KeyboardBinding {
    pub from: Button,
    pub to: KeyboardKey,
}

/// The target of the first mapping in `ms` from `from` at or after `j`.
pub open spec fn first_mapping_from(ms: Seq<ButtonMapping>, from: Button, j: int) -> Option<Button>
    decreases ms.len() - j,
{
    if j < 0 || j >= ms.len() {
        None
    } else if ms[j].from == from {
        Some(ms[j].to)
    } else {
        first_mapping_from(ms, from, j + 1)
    }
}

/// The key of the first binding in `bs` from `from` at or after `j`.
pub open spec fn first_binding_from(bs: Seq<KeyboardBinding>, from: Button, j: int) -> Option<KeyboardKey>
    decreases bs.len() - j,
{
    if j < 0 || j >= bs.len() {
        None
    } else if bs[j].from == from {
        Some(bs[j].to)
    } else {
        first_binding_from(bs, from, j + 1)
    }
}

/// One mapping per button, in `Button::ALL` order: the first existing mapping
/// from that button wins, and a button without one maps to itself.
pub open spec fn normalized_mappings(ms: Seq<ButtonMapping>) -> Seq<ButtonMapping> {
    Seq::new(
        23,
        |i: int|
            ButtonMapping {
                from: Button::spec_at(i),
                to: match first_mapping_from(ms, Button::spec_at(i), 0) {
                    Some(to) => to,
                    None => Button::spec_at(i),
                },
            },
    )
}

/// One binding per button, in `Button::ALL` order: the first existing binding
/// from that button wins, and a button without one is disabled.
pub open spec fn normalized_bindings(bs: Seq<KeyboardBinding>) -> Seq<KeyboardBinding> {
    Seq::new(
        23,
        |i: int|
            KeyboardBinding {
                from: Button::spec_at(i),
                to: match first_binding_from(bs, Button::spec_at(i), 0) {
                    Some(to) => to,
                    None => KeyboardKey::Disabled,
                },
            },
    )
}

fn find_mapping(ms: &Vec<ButtonMapping>, from: Button) -> (r: Option<Button>)
    ensures
        r == first_mapping_from(ms@, from, 0),
{
    let mut j: usize = 0;
    while j < ms.len()
        invariant
            j <= ms.len(),
            first_mapping_from(ms@, from, 0) == first_mapping_from(ms@, from, j as int),
        decreases ms.len() - j,
    {
        if ms[j].from == from {
            return Some(ms[j].to);
        }
        j = j + 1;
    }
    None
}

fn find_binding(bs: &Vec<KeyboardBinding>, from: Button) -> (r: Option<KeyboardKey>)
    ensures
        r == first_binding_from(bs@, from, 0),
{
    let mut j: usize = 0;
    while j < bs.len()
        invariant
            j <= bs.len(),
            first_binding_from(bs@, from, 0) == first_binding_from(bs@, from, j as int),
        decreases bs.len() - j,
    {
        if bs[j].from == from {
            return Some(bs[j].to);
        }
        j = j + 1;
    }
    None
}

/// Keyboard output settings.
#[derive(Clone, Debug, PartialEq, Eq)]
pub struct KeyboardMappingProfile {
    pub enabled: bool,
    pub bindings: Vec<KeyboardBinding>,
}

impl KeyboardMappingProfile {
    /// Leaves exactly one binding per button, in `Button::ALL` order.
    pub fn normalize_bindings(&mut self)
        ensures
            final(self).enabled == old(self).enabled,
            final(self).bindings@ == normalized_bindings(old(self).bindings@),
    {
        let mut normalized: Vec<KeyboardBinding> = Vec::with_capacity(23);
        let mut i: usize = 0;
        while i < 23
            invariant
                i <= 23,
                normalized@ == normalized_bindings(self.bindings@).subrange(0, i as int),
            decreases 23 - i,
        {
            let from = Button::from_index(i);
            let to = match find_binding(&self.bindings, from) {
                Some(to) => to,
                None => KeyboardKey::Disabled,
            };
            normalized.push(KeyboardBinding { from, to });
            assert(normalized@ =~= normalized_bindings(self.bindings@).subrange(0, i + 1));
            i = i + 1;
        }
        assert(normalized@ =~= normalized_bindings(self.bindings@));
        self.bindings = normalized;
    }
}

/// Every button bound to no key.
pub open spec fn disabled_bindings() -> Seq<KeyboardBinding> {
    Seq::new(23, |i: int| KeyboardBinding { from: Button::spec_at(i), to: KeyboardKey::Disabled })
}

/// Every button mapped to itself.
pub open spec fn identity_mappings() -> Seq<ButtonMapping> {
    Seq::new(23, |i: int| ButtonMapping { from: Button::spec_at(i), to: Button::spec_at(i) })
}

impl Default for KeyboardMappingProfile {
    fn default() -> (p: Self)
        ensures
            !p.enabled,
            p.bindings@ == disabled_bindings(),
    {
        let mut bindings: Vec<KeyboardBinding> = Vec::new();
        let mut i: usize = 0;
        while i < 23
            invariant
                i <= 23,
                bindings@ == disabled_bindings().subrange(0, i as int),
            decreases 23 - i,
        {
            bindings.push(KeyboardBinding { from: Button::from_index(i), to: KeyboardKey::Disabled });
            assert(bindings@ =~= disabled_bindings().subrange(0, i + 1));
            i = i + 1;
        }
        assert(bindings@ =~= disabled_bindings());
        KeyboardMappingProfile { enabled: false, bindings }
    }
}

/// Mouse output settings.
#[derive(Clone, Copy, Debug, PartialEq, Eq, Structural)]
pub struct MouseMappingProfile {
    pub enabled: bool,
    pub pointer_speed: u8,
    pub deadzone_percent: u8,
    pub scroll_speed: u8,
}

impl MouseMappingProfile {
    pub const MIN_POINTER_SPEED: u8 = 1;
    pub const MAX_POINTER_SPEED: u8 = 40;
    pub const MAX_DEADZONE_PERCENT: u8 = 40;
    pub const MIN_SCROLL_SPEED: u8 = 1;
    pub const MAX_SCROLL_SPEED: u8 = 20;

    /// The settings within their supported ranges.
    pub open spec fn spec_normalized(self) -> Self {
        MouseMappingProfile {
            enabled: self.enabled,
            pointer_speed: clamp_between(self.pointer_speed as int, 1, 40) as u8,
            deadzone_percent: if self.deadzone_percent > 40 { 40 } else { self.deadzone_percent },
            scroll_speed: clamp_between(self.scroll_speed as int, 1, 20) as u8,
        }
    }

    /// Holds pointer speed to 1..=40, dead zone to at most 40 and scroll speed
    /// to 1..=20.
    pub fn normalize(&mut self)
        ensures
            *final(self) == old(self).spec_normalized(),
    {
        self.pointer_speed = clamp_byte_to(self.pointer_speed, 1, 40);
        if self.deadzone_percent > 40 {
            self.deadzone_percent = 40;
        }
        self.scroll_speed = clamp_byte_to(self.scroll_speed, 1, 20);
    }
}

fn clamp_byte_to(v: u8, lo: u8, hi: u8) -> (r: u8)
    requires
        lo <= hi,
    ensures
        r as int == clamp_between(v as int, lo as int, hi as int),
{
    if v < lo {
        lo
    } else if v > hi {
        hi
    } else {
        v
    }
}

impl Default for MouseMappingProfile {
    fn default() -> (p: Self)
        ensures
            p == (MouseMappingProfile {
                enabled: false,
                pointer_speed: 14,
                deadzone_percent: 12,
                scroll_speed: 8,
            }),
    {
        MouseMappingProfile { enabled: false, pointer_speed: 14, deadzone_percent: 12, scroll_speed: 8 }
    }
}

/// How system audio drives the motors.
#[derive(Clone, Copy, Debug, PartialEq, Eq, Structural)]
pub struct AudioReactiveHapticsProfile {
    /// Audio gain before the silence threshold is applied.
    pub sensitivity_percent: u8,
    /// Levels below this percentage are treated as silence.
    pub threshold_percent: u8,
}

impl AudioReactiveHapticsProfile {
    pub const MIN_SENSITIVITY_PERCENT: u8 = 25;
    pub const MAX_SENSITIVITY_PERCENT: u8 = 250;
    pub const MAX_THRESHOLD_PERCENT: u8 = 90;

    pub open spec fn spec_normalized(self) -> Self {
        AudioReactiveHapticsProfile {
            sensitivity_percent: clamp_between(self.sensitivity_percent as int, 25, 250) as u8,
            threshold_percent: if self.threshold_percent > 90 { 90 } else { self.threshold_percent },
        }
    }

    /// Holds sensitivity to 25..=250 and the threshold to at most 90.
    pub fn normalize(&mut self)
        ensures
            *final(self) == old(self).spec_normalized(),
    {
        self.sensitivity_percent = clamp_byte_to(self.sensitivity_percent, 25, 250);
        if self.threshold_percent > 90 {
            self.threshold_percent = 90;
        }
    }
}

impl Default for AudioReactiveHapticsProfile {
    fn default() -> (p: Self)
        ensures
            p == (AudioReactiveHapticsProfile { sensitivity_percent: 150, threshold_percent: 4 }),
    {
        AudioReactiveHapticsProfile { sensitivity_percent: 150, threshold_percent: 4 }
    }
}

/// Motor settings.
#[derive(Clone, Copy, Debug, PartialEq, Eq, Structural)]
pub struct HapticsProfile {
    pub enabled: bool,
    pub audio_haptics: bool,
    pub left_strength: u8,
    pub right_strength: u8,
    pub audio_reactive: AudioReactiveHapticsProfile,
}

impl Default for HapticsProfile {
    fn default() -> (p: Self)
        ensures
            p == (HapticsProfile {
                enabled: true,
                audio_haptics: true,
                left_strength: 96,
                right_strength: 96,
                audio_reactive: AudioReactiveHapticsProfile {
                    sensitivity_percent: 150,
                    threshold_percent: 4,
                },
            }),
    {
        HapticsProfile {
            enabled: true,
            audio_haptics: true,
            left_strength: 96,
            right_strength: 96,
            audio_reactive: AudioReactiveHapticsProfile::default(),
        }
    }
}

impl HapticsProfile {
    pub open spec fn spec_strength(self) -> u8 {
        crate::dualsense::shared_level(self.left_strength, self.right_strength)
    }

    pub open spec fn spec_normalized(self) -> Self {
        HapticsProfile {
            left_strength: self.spec_strength(),
            right_strength: self.spec_strength(),
            audio_reactive: self.audio_reactive.spec_normalized(),
            ..self
        }
    }

    /// The one level sent to both motors. Older profiles stored one value per
    /// motor; their average, rounded up, keeps the overall intensity.
    pub fn strength(&self) -> (r: u8)
        ensures
            r == self.spec_strength(),
    {
        ((self.left_strength as u16 + self.right_strength as u16 + 1) / 2) as u8
    }

    /// Sets both motors to `strength`.
    pub fn set_strength(&mut self, strength: u8)
        ensures
            *final(self) == (HapticsProfile {
                left_strength: strength,
                right_strength: strength,
                ..*old(self)
            }),
    {
        self.left_strength = strength;
        self.right_strength = strength;
    }

    /// Makes both motors equal at the shared level and normalizes the
    /// audio-reactive settings.
    pub fn normalize(&mut self)
        ensures
            *final(self) == old(self).spec_normalized(),
    {
        let s = self.strength();
        self.set_strength(s);
        self.audio_reactive.normalize();
    }
}

/// Player LEDs, microphone and speaker settings.
#[derive(Clone, Copy, Debug, PartialEq, Eq, Structural)]
pub struct SystemProfile {
    pub player_indicator: PlayerIndicator,
    pub microphone_muted: bool,
    pub speaker_volume: u8,
    pub microphone_volume: u8,
    pub audio_route: AudioRoute,
}

impl Default for SystemProfile {
    fn default() -> (p: Self)
        ensures
            p == (SystemProfile {
                player_indicator: PlayerIndicator::Player1,
                microphone_muted: false,
                speaker_volume: 100,
                microphone_volume: 32,
                audio_route: AudioRoute::Unchanged,
            }),
    {
        SystemProfile {
            player_indicator: PlayerIndicator::Player1,
            microphone_muted: false,
            speaker_volume: 100,
            microphone_volume: 32,
            audio_route: AudioRoute::Unchanged,
        }
    }
}

/// Everything saved for one controller.
#[derive(Clone, Debug, PartialEq, Eq)]
pub struct Profile {
    pub lightbar: Rgb,
    pub haptics: HapticsProfile,
    pub adaptive_triggers: AdaptiveTriggerProfile,
    pub system: SystemProfile,
    pub mappings: Vec<ButtonMapping>,
    pub keyboard_mapping: KeyboardMappingProfile,
    pub mouse_mapping: MouseMappingProfile,
}

impl Profile {
    /// Brings a loaded profile to its normal form: one mapping and one key
    /// binding per button, mouse and audio settings in range, one shared
    /// motor level. Nothing else changes.
    pub fn normalize_mappings(&mut self)
        ensures
            final(self).mappings@ == normalized_mappings(old(self).mappings@),
            final(self).keyboard_mapping.enabled == old(self).keyboard_mapping.enabled,
            final(self).keyboard_mapping.bindings@ == normalized_bindings(
                old(self).keyboard_mapping.bindings@,
            ),
            final(self).mouse_mapping == old(self).mouse_mapping.spec_normalized(),
            final(self).haptics == old(self).haptics.spec_normalized(),
            final(self).lightbar == old(self).lightbar,
            final(self).adaptive_triggers == old(self).adaptive_triggers,
            final(self).system == old(self).system,
    {
        let mut normalized: Vec<ButtonMapping> = Vec::with_capacity(23);
        let mut i: usize = 0;
        while i < 23
            invariant
                i <= 23,
                normalized@ == normalized_mappings(self.mappings@).subrange(0, i as int),
            decreases 23 - i,
        {
            let from = Button::from_index(i);
            let to = match find_mapping(&self.mappings, from) {
                Some(to) => to,
                None => from,
            };
            normalized.push(ButtonMapping { from, to });
            assert(normalized@ =~= normalized_mappings(self.mappings@).subrange(0, i + 1));
            i = i + 1;
        }
        assert(normalized@ =~= normalized_mappings(self.mappings@));
        self.mappings = normalized;
        self.keyboard_mapping.normalize_bindings();
        self.mouse_mapping.normalize();
        self.haptics.normalize();
    }
}

impl Default for Profile {
    fn default() -> (p: Self)
        ensures
            p.lightbar == (Rgb { r: 0, g: 96, b: 255 }),
            p.haptics == HapticsProfile::default_spec(),
            p.adaptive_triggers == (AdaptiveTriggerProfile {
                target: TriggerTarget::Both,
                mode: AdaptiveTriggerMode::Preset,
                preset: AdaptiveTriggerPreset::Bow,
                intensity: 180,
                start_position: 2,
                end_position: 9,
                frequency: 32,
            }),
            p.system == (SystemProfile {
                player_indicator: PlayerIndicator::Player1,
                microphone_muted: false,
                speaker_volume: 100,
                microphone_volume: 32,
                audio_route: AudioRoute::Unchanged,
            }),
            p.mappings@ == identity_mappings(),
            !p.keyboard_mapping.enabled,
            p.keyboard_mapping.bindings@ == disabled_bindings(),
            p.mouse_mapping == (MouseMappingProfile {
                enabled: false,
                pointer_speed: 14,
                deadzone_percent: 12,
                scroll_speed: 8,
            }),
    {
        let mut mappings: Vec<ButtonMapping> = Vec::new();
        let mut i: usize = 0;
        while i < 23
            invariant
                i <= 23,
                mappings@ == identity_mappings().subrange(0, i as int),
            decreases 23 - i,
        {
            let b = Button::from_index(i);
            mappings.push(ButtonMapping { from: b, to: b });
            assert(mappings@ =~= identity_mappings().subrange(0, i + 1));
            i = i + 1;
        }
        assert(mappings@ =~= identity_mappings());
        Profile {
            lightbar: Rgb::default(),
            haptics: HapticsProfile::default(),
            adaptive_triggers: AdaptiveTriggerProfile::default(),
            system: SystemProfile::default(),
            mappings,
            keyboard_mapping: KeyboardMappingProfile::default(),
            mouse_mapping: MouseMappingProfile::default(),
        }
    }
}

impl HapticsProfile {
    /// The motor settings of a fresh profile.
    pub open spec fn default_spec() -> Self {
        HapticsProfile {
            enabled: true,
            audio_haptics: true,
            left_strength: 96,
            right_strength: 96,
            audio_reactive: AudioReactiveHapticsProfile { sensitivity_percent: 150, threshold_percent: 4 },
        }
    }
}

proof fn lemma_button_at_index(i: int)
    requires
        0 <= i < 23,
    ensures
        Button::spec_at(i).spec_index() == i,
{
}

proof fn lemma_first_mapping_in_normal_form(ms: Seq<ButtonMapping>, i: int, j: int)
    requires
        ms.len() == 23,
        forall|k: int| 0 <= k < 23 ==> #[trigger] ms[k].from == Button::spec_at(k),
        0 <= j <= i < 23,
    ensures
        first_mapping_from(ms, Button::spec_at(i), j) == Some(ms[i].to),
    decreases i - j,
{
    if j < i {
        lemma_button_at_index(i);
        lemma_button_at_index(j);
        assert(ms[j].from != Button::spec_at(i));
        lemma_first_mapping_in_normal_form(ms, i, j + 1);
    }
}

proof fn lemma_first_binding_in_normal_form(bs: Seq<KeyboardBinding>, i: int, j: int)
    requires
        bs.len() == 23,
        forall|k: int| 0 <= k < 23 ==> #[trigger] bs[k].from == Button::spec_at(k),
        0 <= j <= i < 23,
    ensures
        first_binding_from(bs, Button::spec_at(i), j) == Some(bs[i].to),
    decreases i - j,
{
    if j < i {
        lemma_button_at_index(i);
        lemma_button_at_index(j);
        assert(bs[j].from != Button::spec_at(i));
        lemma_first_binding_in_normal_form(bs, i, j + 1);
    }
}

/// Normalizing a loaded profile a second time changes nothing: its mappings,
/// key bindings, mouse settings and motor levels are already in normal form.
pub proof fn lemma_normalization_is_stable(p: Profile)
    ensures
        normalized_mappings(normalized_mappings(p.mappings@)) == normalized_mappings(p.mappings@),
        normalized_bindings(normalized_bindings(p.keyboard_mapping.bindings@)) == normalized_bindings(
            p.keyboard_mapping.bindings@,
        ),
        p.mouse_mapping.spec_normalized().spec_normalized() == p.mouse_mapping.spec_normalized(),
        p.haptics.spec_normalized().spec_normalized() == p.haptics.spec_normalized(),
{
    let n = normalized_mappings(p.mappings@);
    assert forall|i: int| 0 <= i < 23 implies #[trigger] normalized_mappings(n)[i] == n[i] by {
        lemma_first_mapping_in_normal_form(n, i, 0);
    }
    assert(normalized_mappings(n) =~= n);
    let b = normalized_bindings(p.keyboard_mapping.bindings@);
    assert forall|i: int| 0 <= i < 23 implies #[trigger] normalized_bindings(b)[i] == b[i] by {
        lemma_first_binding_in_normal_form(b, i, 0);
    }
    assert(normalized_bindings(b) =~= b);
}

} // verus!
