//! The configurator's editing state and the decisions behind each key:
//! which row is selected, how a value moves, and which outside work (a
//! device switch, a haptics toggle, an output toggle) the application has
//! to carry out.
use vstd::prelude::*;

use crate::app_state::{
    adjust_u8, clamp_between, move_index, HapticField, LightbarField, MappingView, MouseField,
    SystemField, Tab, TriggerField, adjust_trigger_field, spec_adjust_trigger,
};
use crate::model::{clamp_byte, Button, HapticDemo, KeyboardKey, Rgb};
use crate::profile::{
    ButtonMapping, HapticsProfile, KeyboardBinding, MouseMappingProfile, Profile, SystemProfile,
    AudioReactiveHapticsProfile,
};

verus! {

/// What is selected on each screen.
#[derive(Clone, Copy, Debug, PartialEq, Eq, Structural)]
pub struct Selection {
    pub active_tab: Tab,
    pub lightbar_field: LightbarField,
    pub haptic_field: HapticField,
    pub haptic_demo: HapticDemo,
    pub trigger_field: TriggerField,
    pub system_field: SystemField,
    pub mapping: usize,
    pub keyboard_mapping: usize,
    pub mouse_field: MouseField,
    pub mapping_view: MappingView,
    pub device: usize,
}

/// The edited profile, what is selected, how many controllers are listed,
/// and whether the profile differs from what was saved.
pub struct EditorState {
    pub selection: Selection,
    pub device_count: usize,
    pub profile: Profile,
    pub dirty: bool,
}

/// Work outside the editor that a key asks for.
#[derive(Clone, Copy, Debug, PartialEq, Eq, Structural)]
pub enum EditorAction {
    Nothing,
    /// The device list was moved through; when `changed`, another
    /// controller is selected and its profile must be activated.
    DeviceSelection { changed: bool },
    ToggleHapticsEnabled,
    ToggleAudioHaptics,
    ToggleAudioReactive,
    PlayHapticDemo,
    ToggleKeyboardOutput,
    ToggleMouseOutput,
    ApplyLightbar,
    ApplyAdaptiveTriggers,
    ApplySystemControls,
}

/// A status line an editing step produces by itself.
#[derive(Clone, Copy, Debug, PartialEq, Eq, Structural)]
pub enum StatusNote {
    MicrophoneWillBeMuted,
    MicrophoneWillBeEnabled,
    MousePointerSpeed(u8),
    MouseDeadzone(u8),
    MouseScrollSpeed(u8),
    MappingViewShown(MappingView),
    ControllerMappingSavedWithS,
    NoApplyAction,
}

impl StatusNote {
    pub open spec fn spec_message(self) -> Seq<char> {
        match self {
            StatusNote::MicrophoneWillBeMuted => "Microphone will be muted when system controls are applied"@,
            StatusNote::MicrophoneWillBeEnabled => "Microphone will be enabled when system controls are applied"@,
            StatusNote::MousePointerSpeed(v) => "Mouse pointer speed: "@ + crate::text::spec_decimal(
                v as nat,
            ),
            StatusNote::MouseDeadzone(v) => "Mouse dead zone: "@ + crate::text::spec_decimal(v as nat)
                + "%"@,
            StatusNote::MouseScrollSpeed(v) => "Mouse scroll speed: "@ + crate::text::spec_decimal(
                v as nat,
            ),
            StatusNote::MappingViewShown(v) => "Mapping view: "@ + v.spec_label(),
            StatusNote::ControllerMappingSavedWithS => "Controller mapping profile changes are saved with s"@,
            StatusNote::NoApplyAction => "No apply action for this panel"@,
        }
    }

    /// The status line shown to the user.
    pub fn message(&self) -> (r: String)
        ensures
            r@ == self.spec_message(),
    {
        match *self {
            StatusNote::MicrophoneWillBeMuted => crate::text::string_of(
                "Microphone will be muted when system controls are applied",
            ),
            StatusNote::MicrophoneWillBeEnabled => crate::text::string_of(
                "Microphone will be enabled when system controls are applied",
            ),
            StatusNote::MousePointerSpeed(v) => {
                let mut s = crate::text::string_of("Mouse pointer speed: ");
                crate::text::push_decimal(&mut s, v as u64);
                s
            },
            StatusNote::MouseDeadzone(v) => {
                let mut s = crate::text::string_of("Mouse dead zone: ");
                crate::text::push_decimal(&mut s, v as u64);
                crate::text::push_str(&mut s, "%");
                s
            },
            StatusNote::MouseScrollSpeed(v) => {
                let mut s = crate::text::string_of("Mouse scroll speed: ");
                crate::text::push_decimal(&mut s, v as u64);
                s
            },
            StatusNote::MappingViewShown(v) => {
                let mut s = crate::text::string_of("Mapping view: ");
                crate::text::push_str(&mut s, v.label());
                s
            },
            StatusNote::ControllerMappingSavedWithS => crate::text::string_of(
                "Controller mapping profile changes are saved with s",
            ),
            StatusNote::NoApplyAction => crate::text::string_of("No apply action for this panel"),
        }
    }
}

/// The sign of `d`: -1, 0 or 1.
pub open spec fn sign(d: int) -> int {
    if d > 0 {
        1
    } else if d < 0 {
        -1
    } else {
        0
    }
}

/// `c` after moving channel `index` by `delta`, as `Rgb::adjust_channel`
/// does.
pub open spec fn spec_adjust_channel(c: Rgb, index: int, delta: int) -> Rgb {
    if index == 0 {
        Rgb { r: clamp_byte(c.r as int, delta) as u8, ..c }
    } else if index == 1 {
        Rgb { g: clamp_byte(c.g as int, delta) as u8, ..c }
    } else if index == 2 {
        Rgb { b: clamp_byte(c.b as int, delta) as u8, ..c }
    } else {
        c
    }
}

pub open spec fn step_button(b: Button, delta: int) -> Button {
    if delta > 0 {
        b.spec_next()
    } else if delta < 0 {
        b.spec_previous()
    } else {
        b
    }
}

pub open spec fn step_key(k: KeyboardKey, delta: int) -> KeyboardKey {
    if delta > 0 {
        k.spec_next()
    } else if delta < 0 {
        k.spec_previous()
    } else {
        k
    }
}

/// The selection after moving `delta` rows on the active screen, and
/// whether that picked another controller.
pub open spec fn spec_move_selection(s: EditorState, delta: int) -> (Selection, EditorAction) {
    let sel = s.selection;
    match sel.active_tab {
        Tab::Devices => {
            let next = if s.device_count == 0 {
                0
            } else {
                (sel.device + delta) % (s.device_count as int)
            };
            (
                Selection { device: next as usize, ..sel },
                EditorAction::DeviceSelection { changed: next != sel.device },
            )
        },
        Tab::Lightbar => (
            Selection {
                lightbar_field: LightbarField::spec_at((sel.lightbar_field.spec_index() + delta) % 3),
                ..sel
            },
            EditorAction::Nothing,
        ),
        Tab::Haptics => (
            Selection {
                haptic_field: HapticField::spec_at((sel.haptic_field.spec_index() + delta) % 7),
                ..sel
            },
            EditorAction::Nothing,
        ),
        Tab::Triggers => (
            Selection {
                trigger_field: TriggerField::spec_at((sel.trigger_field.spec_index() + delta) % 7),
                ..sel
            },
            EditorAction::Nothing,
        ),
        Tab::System => (
            Selection {
                system_field: SystemField::spec_at((sel.system_field.spec_index() + delta) % 5),
                ..sel
            },
            EditorAction::Nothing,
        ),
        Tab::Mapping => match sel.mapping_view {
            MappingView::ControllerProfile => {
                let len = s.profile.mappings@.len();
                let next = if len == 0 {
                    0
                } else {
                    (sel.mapping + delta) % (len as int)
                };
                (Selection { mapping: next as usize, ..sel }, EditorAction::Nothing)
            },
            MappingView::KeyboardOutput => {
                let len = s.profile.keyboard_mapping.bindings@.len();
                let next = if len == 0 {
                    0
                } else {
                    (sel.keyboard_mapping + delta) % (len as int)
                };
                (Selection { keyboard_mapping: next as usize, ..sel }, EditorAction::Nothing)
            },
            MappingView::MouseOutput => (
                Selection {
                    mouse_field: MouseField::spec_at((sel.mouse_field.spec_index() + delta) % 4),
                    ..sel
                },
                EditorAction::Nothing,
            ),
        },
        _ => (sel, EditorAction::Nothing),
    }
}

/// The moves `move_selection` can make without overflowing the platform's
/// signed index arithmetic.
pub open spec fn move_fits(s: EditorState, delta: int) -> bool {
    &&& delta <= isize::MAX - 8
    &&& s.device_count <= isize::MAX
    &&& s.profile.mappings@.len() <= isize::MAX
    &&& s.profile.keyboard_mapping.bindings@.len() <= isize::MAX
    &&& s.selection.device <= isize::MAX
    &&& s.selection.mapping <= isize::MAX
    &&& s.selection.keyboard_mapping <= isize::MAX
    &&& s.selection.device + delta <= isize::MAX
    &&& s.selection.mapping + delta <= isize::MAX
    &&& s.selection.keyboard_mapping + delta <= isize::MAX
}

// --- what adjusting the active row changes -------------------------------

pub open spec fn adj_selection(s: EditorState, delta: int) -> Selection {
    let sel = s.selection;
    match sel.active_tab {
        Tab::Devices => spec_move_selection(s, sign(delta)).0,
        Tab::Haptics => if sel.haptic_field == HapticField::Demo {
            Selection {
                haptic_demo: if delta > 0 {
                    sel.haptic_demo.spec_next()
                } else if delta < 0 {
                    sel.haptic_demo.spec_previous()
                } else {
                    sel.haptic_demo
                },
                ..sel
            }
        } else {
            sel
        },
        _ => sel,
    }
}

pub open spec fn adj_lightbar(s: EditorState, delta: int) -> Rgb {
    if s.selection.active_tab == Tab::Lightbar && delta != 0 {
        spec_adjust_channel(s.profile.lightbar, s.selection.lightbar_field.spec_index(), delta)
    } else {
        s.profile.lightbar
    }
}

pub open spec fn adj_haptics(s: EditorState, delta: int) -> HapticsProfile {
    let h = s.profile.haptics;
    if s.selection.active_tab != Tab::Haptics {
        h
    } else {
        match s.selection.haptic_field {
            HapticField::Strength => {
                let v = clamp_byte(h.spec_strength() as int, delta) as u8;
                HapticsProfile { left_strength: v, right_strength: v, ..h }
            },
            HapticField::ReactiveSensitivity => if delta != 0 {
                HapticsProfile {
                    audio_reactive: AudioReactiveHapticsProfile {
                        sensitivity_percent: clamp_between(
                            clamp_byte(h.audio_reactive.sensitivity_percent as int, delta),
                            25,
                            250,
                        ) as u8,
                        ..h.audio_reactive
                    },
                    ..h
                }
            } else {
                h
            },
            HapticField::ReactiveThreshold => if delta != 0 {
                let t = clamp_byte(h.audio_reactive.threshold_percent as int, delta);
                HapticsProfile {
                    audio_reactive: AudioReactiveHapticsProfile {
                        threshold_percent: (if t > 90 {
                            90
                        } else {
                            t
                        }) as u8,
                        ..h.audio_reactive
                    },
                    ..h
                }
            } else {
                h
            },
            _ => h,
        }
    }
}

pub open spec fn adj_triggers(s: EditorState, delta: int) -> crate::profile::AdaptiveTriggerProfile {
    if s.selection.active_tab == Tab::Triggers {
        spec_adjust_trigger(s.profile.adaptive_triggers, s.selection.trigger_field, delta)
    } else {
        s.profile.adaptive_triggers
    }
}

/// The system settings after adjusting the selected system row by `delta`.
pub open spec fn spec_adjust_system(p: SystemProfile, field: SystemField, delta: int) -> SystemProfile {
    if delta == 0 {
        p
    } else {
        match field {
            SystemField::PlayerIndicator => SystemProfile {
                player_indicator: if delta > 0 {
                    p.player_indicator.spec_next()
                } else {
                    p.player_indicator.spec_previous()
                },
                ..p
            },
            SystemField::MicrophoneMute => SystemProfile {
                microphone_muted: !p.microphone_muted,
                ..p
            },
            SystemField::SpeakerVolume => SystemProfile {
                speaker_volume: clamp_byte(p.speaker_volume as int, delta) as u8,
                ..p
            },
            SystemField::MicrophoneVolume => {
                let v = clamp_byte(p.microphone_volume as int, delta);
                SystemProfile {
                    microphone_volume: (if v > 0x40 {
                        0x40
                    } else {
                        v
                    }) as u8,
                    ..p
                }
            },
            SystemField::AudioRoute => SystemProfile {
                audio_route: if delta > 0 {
                    p.audio_route.spec_next()
                } else {
                    p.audio_route.spec_previous()
                },
                ..p
            },
        }
    }
}

pub open spec fn adj_system(s: EditorState, delta: int) -> SystemProfile {
    if s.selection.active_tab == Tab::System {
        spec_adjust_system(s.profile.system, s.selection.system_field, delta)
    } else {
        s.profile.system
    }
}

pub open spec fn adj_mappings(s: EditorState, delta: int) -> Seq<ButtonMapping> {
    let ms = s.profile.mappings@;
    let i = s.selection.mapping as int;
    if s.selection.active_tab == Tab::Mapping && s.selection.mapping_view
        == MappingView::ControllerProfile && i < ms.len() {
        ms.update(i, ButtonMapping { to: step_button(ms[i].to, delta), ..ms[i] })
    } else {
        ms
    }
}

pub open spec fn adj_bindings(s: EditorState, delta: int) -> Seq<KeyboardBinding> {
    let bs = s.profile.keyboard_mapping.bindings@;
    let i = s.selection.keyboard_mapping as int;
    if s.selection.active_tab == Tab::Mapping && s.selection.mapping_view
        == MappingView::KeyboardOutput && i < bs.len() {
        bs.update(i, KeyboardBinding { to: step_key(bs[i].to, delta), ..bs[i] })
    } else {
        bs
    }
}

/// The mouse settings after adjusting the selected mouse row by `delta`;
/// the on/off row is toggled outside the editor.
pub open spec fn spec_adjust_mouse(m: MouseMappingProfile, field: MouseField, delta: int) -> MouseMappingProfile {
    if delta == 0 {
        m
    } else {
        match field {
            MouseField::Enabled => m,
            MouseField::PointerSpeed => MouseMappingProfile {
                pointer_speed: clamp_between(clamp_byte(m.pointer_speed as int, delta), 1, 40) as u8,
                ..m
            },
            MouseField::Deadzone => {
                let v = clamp_byte(m.deadzone_percent as int, delta);
                MouseMappingProfile {
                    deadzone_percent: (if v > 40 {
                        40
                    } else {
                        v
                    }) as u8,
                    ..m
                }
            },
            MouseField::ScrollSpeed => MouseMappingProfile {
                scroll_speed: clamp_between(clamp_byte(m.scroll_speed as int, delta), 1, 20) as u8,
                ..m
            },
        }
    }
}

/// The number a row of the mouse settings holds; 0 for the on/off row.
pub open spec fn mouse_field_value(m: MouseMappingProfile, field: MouseField) -> int {
    match field {
        MouseField::PointerSpeed => m.pointer_speed as int,
        MouseField::Deadzone => m.deadzone_percent as int,
        MouseField::ScrollSpeed => m.scroll_speed as int,
        MouseField::Enabled => 0,
    }
}

/// The outside work and the status line of adjusting a mouse row: the
/// on/off row asks for the output to be toggled, the others report their
/// new value; a zero delta does nothing.
pub open spec fn mouse_adjust_outcome(m: MouseMappingProfile, field: MouseField, delta: int) -> (EditorAction, Option<StatusNote>) {
    let n = spec_adjust_mouse(m, field, delta);
    if delta == 0 {
        (EditorAction::Nothing, None)
    } else {
        match field {
            MouseField::Enabled => (EditorAction::ToggleMouseOutput, None),
            MouseField::PointerSpeed => (EditorAction::Nothing, Some(StatusNote::MousePointerSpeed(n.pointer_speed))),
            MouseField::Deadzone => (EditorAction::Nothing, Some(StatusNote::MouseDeadzone(n.deadzone_percent))),
            MouseField::ScrollSpeed => (EditorAction::Nothing, Some(StatusNote::MouseScrollSpeed(n.scroll_speed))),
        }
    }
}

pub open spec fn adj_mouse(s: EditorState, delta: int) -> MouseMappingProfile {
    if s.selection.active_tab == Tab::Mapping && s.selection.mapping_view
        == MappingView::MouseOutput {
        spec_adjust_mouse(s.profile.mouse_mapping, s.selection.mouse_field, delta)
    } else {
        s.profile.mouse_mapping
    }
}

/// Whether adjusting marks the profile as changed.
pub open spec fn adj_marks_dirty(s: EditorState, delta: int) -> bool {
    let sel = s.selection;
    &&& delta != 0
    &&& match sel.active_tab {
        Tab::Lightbar => true,
        Tab::Haptics => sel.haptic_field == HapticField::Strength || sel.haptic_field
            == HapticField::ReactiveSensitivity || sel.haptic_field == HapticField::ReactiveThreshold,
        Tab::Triggers => true,
        Tab::System => true,
        Tab::Mapping => match sel.mapping_view {
            MappingView::ControllerProfile => sel.mapping < s.profile.mappings@.len(),
            MappingView::KeyboardOutput => sel.keyboard_mapping
                < s.profile.keyboard_mapping.bindings@.len(),
            MappingView::MouseOutput => sel.mouse_field != MouseField::Enabled,
        },
        _ => false,
    }
}

/// The outside work and the status line of adjusting the active row.
pub open spec fn adj_outcome(s: EditorState, delta: int) -> (EditorAction, Option<StatusNote>) {
    let sel = s.selection;
    match sel.active_tab {
        Tab::Devices => (spec_move_selection(s, sign(delta)).1, None),
        Tab::Haptics => if delta == 0 {
            (EditorAction::Nothing, None)
        } else {
            match sel.haptic_field {
                HapticField::State => (EditorAction::ToggleHapticsEnabled, None),
                HapticField::Mode => (EditorAction::ToggleAudioHaptics, None),
                HapticField::ReactiveState => (EditorAction::ToggleAudioReactive, None),
                _ => (EditorAction::Nothing, None),
            }
        },
        Tab::System => if delta != 0 && sel.system_field == SystemField::MicrophoneMute {
            (
                EditorAction::Nothing,
                Some(
                    if s.profile.system.microphone_muted {
                        StatusNote::MicrophoneWillBeEnabled
                    } else {
                        StatusNote::MicrophoneWillBeMuted
                    },
                ),
            )
        } else {
            (EditorAction::Nothing, None)
        },
        Tab::Mapping => if sel.mapping_view == MappingView::MouseOutput && delta != 0 {
            let m = adj_mouse(s, delta);
            match sel.mouse_field {
                MouseField::Enabled => (EditorAction::ToggleMouseOutput, None),
                MouseField::PointerSpeed => (
                    EditorAction::Nothing,
                    Some(StatusNote::MousePointerSpeed(m.pointer_speed)),
                ),
                MouseField::Deadzone => (
                    EditorAction::Nothing,
                    Some(StatusNote::MouseDeadzone(m.deadzone_percent)),
                ),
                MouseField::ScrollSpeed => (
                    EditorAction::Nothing,
                    Some(StatusNote::MouseScrollSpeed(m.scroll_speed)),
                ),
            }
        } else {
            (EditorAction::Nothing, None)
        },
        _ => (EditorAction::Nothing, None),
    }
}

/// What adjusting needs to stay within the platform's arithmetic, and,
/// when the trigger end position is adjusted, a start position within the
/// ten zones, which the end position is held above.
pub open spec fn adjust_fits(s: EditorState, delta: int) -> bool {
    &&& s.selection.active_tab == Tab::Devices ==> move_fits(s, sign(delta))
    &&& s.selection.active_tab == Tab::Triggers && s.selection.trigger_field == TriggerField::EndPosition
        ==> s.profile.adaptive_triggers.start_position <= 9
    &&& adjusted_value(s) + delta <= i16::MAX
}

/// The number the selected row holds, which adjusting adds `delta` to in
/// 16-bit arithmetic; 0 where the row holds no number.
pub open spec fn adjusted_value(s: EditorState) -> int {
    let sel = s.selection;
    let p = s.profile;
    match sel.active_tab {
        Tab::Lightbar => p.lightbar.channel_value(sel.lightbar_field.spec_index()),
        Tab::Haptics => match sel.haptic_field {
            HapticField::Strength => p.haptics.spec_strength() as int,
            HapticField::ReactiveSensitivity => p.haptics.audio_reactive.sensitivity_percent as int,
            HapticField::ReactiveThreshold => p.haptics.audio_reactive.threshold_percent as int,
            _ => 0,
        },
        Tab::Triggers => crate::app_state::trigger_field_value(p.adaptive_triggers, sel.trigger_field),
        Tab::System => match sel.system_field {
            SystemField::SpeakerVolume => p.system.speaker_volume as int,
            SystemField::MicrophoneVolume => p.system.microphone_volume as int,
            _ => 0,
        },
        Tab::Mapping => if sel.mapping_view == MappingView::MouseOutput {
            match sel.mouse_field {
                MouseField::PointerSpeed => p.mouse_mapping.pointer_speed as int,
                MouseField::Deadzone => p.mouse_mapping.deadzone_percent as int,
                MouseField::ScrollSpeed => p.mouse_mapping.scroll_speed as int,
                _ => 0,
            }
        } else {
            0
        },
        _ => 0,
    }
}

impl EditorState {
    /// The state a newly opened configurator starts in: the device list is
    /// shown, the first entry of every screen selected, nothing edited.
    pub fn new(profile: Profile, device_count: usize) -> (r: Self)
        ensures
            r.profile == profile,
            r.device_count == device_count,
            !r.dirty,
            r.selection == (Selection {
                active_tab: Tab::Devices,
                lightbar_field: LightbarField::Red,
                haptic_field: HapticField::State,
                haptic_demo: HapticDemo::Click,
                trigger_field: TriggerField::Target,
                system_field: SystemField::PlayerIndicator,
                mapping: 0,
                keyboard_mapping: 0,
                mouse_field: MouseField::Enabled,
                mapping_view: MappingView::ControllerProfile,
                device: 0,
            }),
    {
        EditorState {
            selection: Selection {
                active_tab: Tab::Devices,
                lightbar_field: LightbarField::Red,
                haptic_field: HapticField::State,
                haptic_demo: HapticDemo::Click,
                trigger_field: TriggerField::Target,
                system_field: SystemField::PlayerIndicator,
                mapping: 0,
                keyboard_mapping: 0,
                mouse_field: MouseField::Enabled,
                mapping_view: MappingView::ControllerProfile,
                device: 0,
            },
            device_count,
            profile,
            dirty: false,
        }
    }

    /// Shows `tab`.
    pub fn select_tab(&mut self, tab: Tab)
        ensures
            final(self).selection == (Selection { active_tab: tab, ..old(self).selection }),
            final(self).profile == old(self).profile,
            final(self).device_count == old(self).device_count,
            final(self).dirty == old(self).dirty,
    {
        self.selection.active_tab = tab;
    }

    /// Shows the next screen, wrapping around.
    pub fn next_tab(&mut self)
        ensures
            final(self).selection == (Selection {
                active_tab: Tab::spec_at((old(self).selection.active_tab.spec_index() + 1) % 8),
                ..old(self).selection
            }),
            final(self).profile == old(self).profile,
            final(self).device_count == old(self).device_count,
            final(self).dirty == old(self).dirty,
    {
        self.selection.active_tab = Tab::from_index(self.selection.active_tab.index() + 1);
    }

    /// Shows the previous screen, wrapping around.
    pub fn previous_tab(&mut self)
        ensures
            final(self).selection == (Selection {
                active_tab: Tab::spec_at((old(self).selection.active_tab.spec_index() + 7) % 8),
                ..old(self).selection
            }),
            final(self).profile == old(self).profile,
            final(self).device_count == old(self).device_count,
            final(self).dirty == old(self).dirty,
    {
        self.selection.active_tab = Tab::from_index(self.selection.active_tab.index() + 7);
    }

    /// Moves the selection of the active screen `delta` rows, wrapping
    /// around; on the device list this can pick another controller.
    pub fn move_selection(&mut self, delta: isize) -> (r: EditorAction)
        requires
            move_fits(*old(self), delta as int),
        ensures
            (final(self).selection, r) == spec_move_selection(*old(self), delta as int),
            final(self).profile == old(self).profile,
            final(self).device_count == old(self).device_count,
            final(self).dirty == old(self).dirty,
    {
        match self.selection.active_tab {
            Tab::Devices => {
                let previous = self.selection.device;
                let next = move_index(previous, self.device_count, delta);
                self.selection.device = next;
                EditorAction::DeviceSelection { changed: next != previous }
            },
            Tab::Lightbar => {
                self.selection.lightbar_field = self.selection.lightbar_field.move_by(delta);
                EditorAction::Nothing
            },
            Tab::Haptics => {
                self.selection.haptic_field = self.selection.haptic_field.move_by(delta);
                EditorAction::Nothing
            },
            Tab::Triggers => {
                self.selection.trigger_field = self.selection.trigger_field.move_by(delta);
                EditorAction::Nothing
            },
            Tab::System => {
                self.selection.system_field = self.selection.system_field.move_by(delta);
                EditorAction::Nothing
            },
            Tab::Mapping => {
                match self.selection.mapping_view {
                    MappingView::ControllerProfile => {
                        self.selection.mapping = move_index(
                            self.selection.mapping,
                            self.profile.mappings.len(),
                            delta,
                        );
                    },
                    MappingView::KeyboardOutput => {
                        self.selection.keyboard_mapping = move_index(
                            self.selection.keyboard_mapping,
                            self.profile.keyboard_mapping.bindings.len(),
                            delta,
                        );
                    },
                    MappingView::MouseOutput => {
                        self.selection.mouse_field = self.selection.mouse_field.move_by(delta);
                    },
                }
                EditorAction::Nothing
            },
            _ => EditorAction::Nothing,
        }
    }

    /// Adjusts the selected row of the active screen by `delta`: values move
    /// within their ranges, cyclic choices step forward or back, and the
    /// rows that switch something outside the editor ask for it.
    pub fn adjust_active(&mut self, delta: i16) -> (r: (EditorAction, Option<StatusNote>))
        requires
            adjust_fits(*old(self), delta as int),
        ensures
            r == adj_outcome(*old(self), delta as int),
            final(self).selection == adj_selection(*old(self), delta as int),
            final(self).device_count == old(self).device_count,
            final(self).profile.lightbar == adj_lightbar(*old(self), delta as int),
            final(self).profile.haptics == adj_haptics(*old(self), delta as int),
            final(self).profile.adaptive_triggers == adj_triggers(*old(self), delta as int),
            final(self).profile.system == adj_system(*old(self), delta as int),
            final(self).profile.mappings@ == adj_mappings(*old(self), delta as int),
            final(self).profile.keyboard_mapping.enabled == old(self).profile.keyboard_mapping.enabled,
            final(self).profile.keyboard_mapping.bindings@ == adj_bindings(*old(self), delta as int),
            final(self).profile.mouse_mapping == adj_mouse(*old(self), delta as int),
            final(self).dirty == (old(self).dirty || adj_marks_dirty(*old(self), delta as int)),
    {
        let ghost s = *self;
        match self.selection.active_tab {
            Tab::Devices => {
                let step: isize = if delta > 0 {
                    1
                } else if delta < 0 {
                    -1
                } else {
                    0
                };
                let action = self.move_selection(step);
                (action, None)
            },
            Tab::Lightbar => {
                if delta != 0 {
                    self.profile.lightbar.adjust_channel(
                        self.selection.lightbar_field.channel_index(),
                        delta,
                    );
                    self.dirty = true;
                }
                (EditorAction::Nothing, None)
            },
            Tab::Haptics => self.adjust_haptics(delta),
            Tab::Triggers => {
                adjust_trigger_field(&mut self.profile, self.selection.trigger_field, delta);
                if delta != 0 {
                    self.dirty = true;
                }
                (EditorAction::Nothing, None)
            },
            Tab::System => {
                let note = self.adjust_system_field(delta);
                (EditorAction::Nothing, note)
            },
            Tab::Mapping => self.adjust_mapping(delta),
            _ => (EditorAction::Nothing, None),
        }
    }

    fn adjust_haptics(&mut self, delta: i16) -> (r: (EditorAction, Option<StatusNote>))
        requires
            old(self).selection.active_tab == Tab::Haptics,
            adjusted_value(*old(self)) + delta <= i16::MAX,
        ensures
            r == adj_outcome(*old(self), delta as int),
            final(self).selection == adj_selection(*old(self), delta as int),
            final(self).device_count == old(self).device_count,
            final(self).profile.lightbar == old(self).profile.lightbar,
            final(self).profile.haptics == adj_haptics(*old(self), delta as int),
            final(self).profile.adaptive_triggers == old(self).profile.adaptive_triggers,
            final(self).profile.system == old(self).profile.system,
            final(self).profile.mappings == old(self).profile.mappings,
            final(self).profile.keyboard_mapping == old(self).profile.keyboard_mapping,
            final(self).profile.mouse_mapping == old(self).profile.mouse_mapping,
            final(self).dirty == (old(self).dirty || adj_marks_dirty(*old(self), delta as int)),
    {
        match self.selection.haptic_field {
            HapticField::State => {
                if delta != 0 {
                    (EditorAction::ToggleHapticsEnabled, None)
                } else {
                    (EditorAction::Nothing, None)
                }
            },
            HapticField::Strength => {
                let v = adjust_u8(self.profile.haptics.strength(), delta);
                self.profile.haptics.set_strength(v);
                if delta != 0 {
                    self.dirty = true;
                }
                (EditorAction::Nothing, None)
            },
            HapticField::Mode => {
                if delta != 0 {
                    (EditorAction::ToggleAudioHaptics, None)
                } else {
                    (EditorAction::Nothing, None)
                }
            },
            HapticField::ReactiveState => {
                if delta != 0 {
                    (EditorAction::ToggleAudioReactive, None)
                } else {
                    (EditorAction::Nothing, None)
                }
            },
            HapticField::ReactiveSensitivity => {
                if delta != 0 {
                    let v = adjust_u8(self.profile.haptics.audio_reactive.sensitivity_percent, delta);
                    let v = if v < 25 {
                        25
                    } else if v > 250 {
                        250
                    } else {
                        v
                    };
                    self.profile.haptics.audio_reactive.sensitivity_percent = v;
                    self.dirty = true;
                }
                (EditorAction::Nothing, None)
            },
            HapticField::ReactiveThreshold => {
                if delta != 0 {
                    let v = adjust_u8(self.profile.haptics.audio_reactive.threshold_percent, delta);
                    self.profile.haptics.audio_reactive.threshold_percent = if v > 90 {
                        90
                    } else {
                        v
                    };
                    self.dirty = true;
                }
                (EditorAction::Nothing, None)
            },
            HapticField::Demo => {
                if delta > 0 {
                    self.selection.haptic_demo = self.selection.haptic_demo.next();
                } else if delta < 0 {
                    self.selection.haptic_demo = self.selection.haptic_demo.previous();
                }
                (EditorAction::Nothing, None)
            },
        }
    }

    /// Adjusts the selected system row by `delta`; a mute change reports
    /// what will happen when the controls are applied.
    pub fn adjust_system_field(&mut self, delta: i16) -> (r: Option<StatusNote>)
        requires
            match old(self).selection.system_field {
                SystemField::SpeakerVolume => old(self).profile.system.speaker_volume + delta,
                SystemField::MicrophoneVolume => old(self).profile.system.microphone_volume + delta,
                _ => 0int,
            } <= i16::MAX,
        ensures
            final(self).profile.system == spec_adjust_system(
                old(self).profile.system,
                old(self).selection.system_field,
                delta as int,
            ),
            r == (if delta != 0 && old(self).selection.system_field == SystemField::MicrophoneMute {
                Some(
                    if old(self).profile.system.microphone_muted {
                        StatusNote::MicrophoneWillBeEnabled
                    } else {
                        StatusNote::MicrophoneWillBeMuted
                    },
                )
            } else {
                None::<StatusNote>
            }),
            final(self).dirty == (old(self).dirty || delta != 0),
            final(self).selection == old(self).selection,
            final(self).device_count == old(self).device_count,
            final(self).profile.lightbar == old(self).profile.lightbar,
            final(self).profile.haptics == old(self).profile.haptics,
            final(self).profile.adaptive_triggers == old(self).profile.adaptive_triggers,
            final(self).profile.mappings == old(self).profile.mappings,
            final(self).profile.keyboard_mapping == old(self).profile.keyboard_mapping,
            final(self).profile.mouse_mapping == old(self).profile.mouse_mapping,
    {
        if delta == 0 {
            return None;
        }
        let mut note: Option<StatusNote> = None;
        match self.selection.system_field {
            SystemField::PlayerIndicator => {
                self.profile.system.player_indicator = if delta > 0 {
                    self.profile.system.player_indicator.next()
                } else {
                    self.profile.system.player_indicator.previous()
                };
            },
            SystemField::MicrophoneMute => {
                note = Some(self.toggle_microphone_mute());
            },
            SystemField::SpeakerVolume => {
                self.profile.system.speaker_volume = adjust_u8(
                    self.profile.system.speaker_volume,
                    delta,
                );
            },
            SystemField::MicrophoneVolume => {
                let v = adjust_u8(self.profile.system.microphone_volume, delta);
                self.profile.system.microphone_volume = if v > 0x40 {
                    0x40
                } else {
                    v
                };
            },
            SystemField::AudioRoute => {
                self.profile.system.audio_route = if delta > 0 {
                    self.profile.system.audio_route.next()
                } else {
                    self.profile.system.audio_route.previous()
                };
            },
        }
        self.dirty = true;
        note
    }

    /// Flips whether the microphone is muted and says what will happen when
    /// the system controls are applied.
    pub fn toggle_microphone_mute(&mut self) -> (r: StatusNote)
        ensures
            final(self).profile.system == (SystemProfile {
                microphone_muted: !old(self).profile.system.microphone_muted,
                ..old(self).profile.system
            }),
            final(self).dirty,
            r == (if old(self).profile.system.microphone_muted {
                StatusNote::MicrophoneWillBeEnabled
            } else {
                StatusNote::MicrophoneWillBeMuted
            }),
            final(self).selection == old(self).selection,
            final(self).device_count == old(self).device_count,
            final(self).profile.lightbar == old(self).profile.lightbar,
            final(self).profile.haptics == old(self).profile.haptics,
            final(self).profile.adaptive_triggers == old(self).profile.adaptive_triggers,
            final(self).profile.mappings == old(self).profile.mappings,
            final(self).profile.keyboard_mapping == old(self).profile.keyboard_mapping,
            final(self).profile.mouse_mapping == old(self).profile.mouse_mapping,
    {
        self.profile.system.microphone_muted = !self.profile.system.microphone_muted;
        self.dirty = true;
        if self.profile.system.microphone_muted {
            StatusNote::MicrophoneWillBeMuted
        } else {
            StatusNote::MicrophoneWillBeEnabled
        }
    }

    fn adjust_mapping(&mut self, delta: i16) -> (r: (EditorAction, Option<StatusNote>))
        requires
            old(self).selection.active_tab == Tab::Mapping,
            adjusted_value(*old(self)) + delta <= i16::MAX,
        ensures
            r == adj_outcome(*old(self), delta as int),
            final(self).selection == old(self).selection,
            final(self).device_count == old(self).device_count,
            final(self).profile.lightbar == old(self).profile.lightbar,
            final(self).profile.haptics == old(self).profile.haptics,
            final(self).profile.adaptive_triggers == old(self).profile.adaptive_triggers,
            final(self).profile.system == old(self).profile.system,
            final(self).profile.mappings@ == adj_mappings(*old(self), delta as int),
            final(self).profile.keyboard_mapping.enabled == old(self).profile.keyboard_mapping.enabled,
            final(self).profile.keyboard_mapping.bindings@ == adj_bindings(*old(self), delta as int),
            final(self).profile.mouse_mapping == adj_mouse(*old(self), delta as int),
            final(self).dirty == (old(self).dirty || adj_marks_dirty(*old(self), delta as int)),
    {
        match self.selection.mapping_view {
            MappingView::ControllerProfile => {
                let i = self.selection.mapping;
                if i < self.profile.mappings.len() {
                    let m = self.profile.mappings[i];
                    let to = if delta > 0 {
                        m.to.next()
                    } else if delta < 0 {
                        m.to.previous()
                    } else {
                        m.to
                    };
                    self.profile.mappings.set(i, ButtonMapping { from: m.from, to });
                    if delta != 0 {
                        self.dirty = true;
                    }
                }
                (EditorAction::Nothing, None)
            },
            MappingView::KeyboardOutput => {
                let i = self.selection.keyboard_mapping;
                if i < self.profile.keyboard_mapping.bindings.len() {
                    let b = self.profile.keyboard_mapping.bindings[i];
                    let to = if delta > 0 {
                        b.to.next()
                    } else if delta < 0 {
                        b.to.previous()
                    } else {
                        b.to
                    };
                    self.profile.keyboard_mapping.bindings.set(
                        i,
                        KeyboardBinding { from: b.from, to },
                    );
                    if delta != 0 {
                        self.dirty = true;
                    }
                }
                (EditorAction::Nothing, None)
            },
            MappingView::MouseOutput => self.adjust_mouse_mapping_field(delta),
        }
    }

    /// Adjusts the selected mouse row by `delta`; the on/off row asks for
    /// the output to be toggled.
    pub fn adjust_mouse_mapping_field(&mut self, delta: i16) -> (r: (EditorAction, Option<StatusNote>))
        requires
            mouse_field_value(old(self).profile.mouse_mapping, old(self).selection.mouse_field) + delta <= i16::MAX,
        ensures
            r == mouse_adjust_outcome(old(self).profile.mouse_mapping, old(self).selection.mouse_field, delta as int),
            final(self).profile.mouse_mapping == spec_adjust_mouse(
                old(self).profile.mouse_mapping,
                old(self).selection.mouse_field,
                delta as int,
            ),
            final(self).dirty == (old(self).dirty || (delta != 0 && old(self).selection.mouse_field
                != MouseField::Enabled)),
            final(self).selection == old(self).selection,
            final(self).device_count == old(self).device_count,
            final(self).profile.lightbar == old(self).profile.lightbar,
            final(self).profile.haptics == old(self).profile.haptics,
            final(self).profile.adaptive_triggers == old(self).profile.adaptive_triggers,
            final(self).profile.system == old(self).profile.system,
            final(self).profile.mappings == old(self).profile.mappings,
            final(self).profile.keyboard_mapping == old(self).profile.keyboard_mapping,
    {
        if delta == 0 {
            return (EditorAction::Nothing, None);
        }
        match self.selection.mouse_field {
            MouseField::Enabled => (EditorAction::ToggleMouseOutput, None),
            MouseField::PointerSpeed => {
                let v = adjust_u8(self.profile.mouse_mapping.pointer_speed, delta);
                let v = if v < MouseMappingProfile::MIN_POINTER_SPEED {
                    MouseMappingProfile::MIN_POINTER_SPEED
                } else if v > MouseMappingProfile::MAX_POINTER_SPEED {
                    MouseMappingProfile::MAX_POINTER_SPEED
                } else {
                    v
                };
                self.profile.mouse_mapping.pointer_speed = v;
                self.dirty = true;
                (EditorAction::Nothing, Some(StatusNote::MousePointerSpeed(v)))
            },
            MouseField::Deadzone => {
                let v = adjust_u8(self.profile.mouse_mapping.deadzone_percent, delta);
                let v = if v > MouseMappingProfile::MAX_DEADZONE_PERCENT {
                    MouseMappingProfile::MAX_DEADZONE_PERCENT
                } else {
                    v
                };
                self.profile.mouse_mapping.deadzone_percent = v;
                self.dirty = true;
                (EditorAction::Nothing, Some(StatusNote::MouseDeadzone(v)))
            },
            MouseField::ScrollSpeed => {
                let v = adjust_u8(self.profile.mouse_mapping.scroll_speed, delta);
                let v = if v < MouseMappingProfile::MIN_SCROLL_SPEED {
                    MouseMappingProfile::MIN_SCROLL_SPEED
                } else if v > MouseMappingProfile::MAX_SCROLL_SPEED {
                    MouseMappingProfile::MAX_SCROLL_SPEED
                } else {
                    v
                };
                self.profile.mouse_mapping.scroll_speed = v;
                self.dirty = true;
                (EditorAction::Nothing, Some(StatusNote::MouseScrollSpeed(v)))
            },
        }
    }

    /// Acts on the selected row: toggles what can be toggled, resets a
    /// mapping to its button or a key binding to "no key", and asks for the
    /// outside work of the other rows.
    pub fn toggle_active(&mut self) -> (r: (EditorAction, Option<StatusNote>))
        ensures
            r == toggle_outcome(*old(self)),
            final(self).selection == old(self).selection,
            final(self).device_count == old(self).device_count,
            final(self).profile.lightbar == old(self).profile.lightbar,
            final(self).profile.haptics == old(self).profile.haptics,
            final(self).profile.adaptive_triggers == old(self).profile.adaptive_triggers,
            final(self).profile.system == toggle_system(*old(self)),
            final(self).profile.mappings@ == toggle_mappings(*old(self)),
            final(self).profile.keyboard_mapping.enabled == old(self).profile.keyboard_mapping.enabled,
            final(self).profile.keyboard_mapping.bindings@ == toggle_bindings(*old(self)),
            final(self).profile.mouse_mapping == old(self).profile.mouse_mapping,
            final(self).dirty == (old(self).dirty || toggle_marks_dirty(*old(self))),
    {
        match self.selection.active_tab {
            Tab::Haptics => {
                let action = match self.selection.haptic_field {
                    HapticField::State => EditorAction::ToggleHapticsEnabled,
                    HapticField::Mode => EditorAction::ToggleAudioHaptics,
                    HapticField::ReactiveState => EditorAction::ToggleAudioReactive,
                    HapticField::Demo => EditorAction::PlayHapticDemo,
                    _ => EditorAction::Nothing,
                };
                (action, None)
            },
            Tab::Mapping => {
                match self.selection.mapping_view {
                    MappingView::ControllerProfile => {
                        let i = self.selection.mapping;
                        if i < self.profile.mappings.len() {
                            let m = self.profile.mappings[i];
                            self.profile.mappings.set(i, ButtonMapping { from: m.from, to: m.from });
                            self.dirty = true;
                        }
                        (EditorAction::Nothing, None)
                    },
                    MappingView::KeyboardOutput => {
                        let i = self.selection.keyboard_mapping;
                        if i < self.profile.keyboard_mapping.bindings.len() {
                            let b = self.profile.keyboard_mapping.bindings[i];
                            self.profile.keyboard_mapping.bindings.set(
                                i,
                                KeyboardBinding { from: b.from, to: KeyboardKey::Disabled },
                            );
                            self.dirty = true;
                        }
                        (EditorAction::Nothing, None)
                    },
                    MappingView::MouseOutput => (EditorAction::ToggleMouseOutput, None),
                }
            },
            Tab::System => {
                if self.selection.system_field == SystemField::MicrophoneMute {
                    let note = self.toggle_microphone_mute();
                    (EditorAction::Nothing, Some(note))
                } else {
                    (EditorAction::Nothing, None)
                }
            },
            _ => (EditorAction::Nothing, None),
        }
    }

    /// The outside work the apply key asks for on the active screen, or the
    /// status line saying there is none.
    pub fn apply_active_panel(&self) -> (r: (EditorAction, Option<StatusNote>))
        ensures
            r == apply_outcome(*self),
    {
        match self.selection.active_tab {
            Tab::Lightbar => (EditorAction::ApplyLightbar, None),
            Tab::Haptics => {
                if self.selection.haptic_field == HapticField::ReactiveState {
                    (EditorAction::ToggleAudioReactive, None)
                } else {
                    (EditorAction::PlayHapticDemo, None)
                }
            },
            Tab::Triggers => (EditorAction::ApplyAdaptiveTriggers, None),
            Tab::System => (EditorAction::ApplySystemControls, None),
            Tab::Mapping => self.toggle_mapping_output(),
            _ => (EditorAction::Nothing, Some(StatusNote::NoApplyAction)),
        }
    }

    /// Switches output for the shown mapping table; the controller table is
    /// only saved with the profile.
    pub fn toggle_mapping_output(&self) -> (r: (EditorAction, Option<StatusNote>))
        ensures
            r == (match self.selection.mapping_view {
                MappingView::ControllerProfile => (
                    EditorAction::Nothing,
                    Some(StatusNote::ControllerMappingSavedWithS),
                ),
                MappingView::KeyboardOutput => (EditorAction::ToggleKeyboardOutput, None),
                MappingView::MouseOutput => (EditorAction::ToggleMouseOutput, None),
            }),
    {
        match self.selection.mapping_view {
            MappingView::ControllerProfile => (
                EditorAction::Nothing,
                Some(StatusNote::ControllerMappingSavedWithS),
            ),
            MappingView::KeyboardOutput => (EditorAction::ToggleKeyboardOutput, None),
            MappingView::MouseOutput => (EditorAction::ToggleMouseOutput, None),
        }
    }

    /// Shows the next mapping table.
    pub fn toggle_mapping_view(&mut self) -> (r: StatusNote)
        ensures
            final(self).selection == (Selection {
                mapping_view: MappingView::spec_at((old(self).selection.mapping_view.spec_index() + 1) % 3),
                ..old(self).selection
            }),
            r == StatusNote::MappingViewShown(final(self).selection.mapping_view),
            final(self).profile == old(self).profile,
            final(self).device_count == old(self).device_count,
            final(self).dirty == old(self).dirty,
    {
        self.selection.mapping_view = self.selection.mapping_view.next();
        StatusNote::MappingViewShown(self.selection.mapping_view)
    }
}

/// What acting on the selected row asks of the application.
pub open spec fn toggle_outcome(s: EditorState) -> (EditorAction, Option<StatusNote>) {
    let sel = s.selection;
    match sel.active_tab {
        Tab::Haptics => (
            match sel.haptic_field {
                HapticField::State => EditorAction::ToggleHapticsEnabled,
                HapticField::Mode => EditorAction::ToggleAudioHaptics,
                HapticField::ReactiveState => EditorAction::ToggleAudioReactive,
                HapticField::Demo => EditorAction::PlayHapticDemo,
                _ => EditorAction::Nothing,
            },
            None,
        ),
        Tab::Mapping => if sel.mapping_view == MappingView::MouseOutput {
            (EditorAction::ToggleMouseOutput, None)
        } else {
            (EditorAction::Nothing, None)
        },
        Tab::System => if sel.system_field == SystemField::MicrophoneMute {
            (
                EditorAction::Nothing,
                Some(
                    if s.profile.system.microphone_muted {
                        StatusNote::MicrophoneWillBeEnabled
                    } else {
                        StatusNote::MicrophoneWillBeMuted
                    },
                ),
            )
        } else {
            (EditorAction::Nothing, None)
        },
        _ => (EditorAction::Nothing, None),
    }
}

pub open spec fn toggle_system(s: EditorState) -> SystemProfile {
    if s.selection.active_tab == Tab::System && s.selection.system_field
        == SystemField::MicrophoneMute {
        SystemProfile { microphone_muted: !s.profile.system.microphone_muted, ..s.profile.system }
    } else {
        s.profile.system
    }
}

pub open spec fn toggle_mappings(s: EditorState) -> Seq<ButtonMapping> {
    let ms = s.profile.mappings@;
    let i = s.selection.mapping as int;
    if s.selection.active_tab == Tab::Mapping && s.selection.mapping_view
        == MappingView::ControllerProfile && i < ms.len() {
        ms.update(i, ButtonMapping { to: ms[i].from, ..ms[i] })
    } else {
        ms
    }
}

pub open spec fn toggle_bindings(s: EditorState) -> Seq<KeyboardBinding> {
    let bs = s.profile.keyboard_mapping.bindings@;
    let i = s.selection.keyboard_mapping as int;
    if s.selection.active_tab == Tab::Mapping && s.selection.mapping_view
        == MappingView::KeyboardOutput && i < bs.len() {
        bs.update(i, KeyboardBinding { to: KeyboardKey::Disabled, ..bs[i] })
    } else {
        bs
    }
}

pub open spec fn toggle_marks_dirty(s: EditorState) -> bool {
    let sel = s.selection;
    ||| sel.active_tab == Tab::System && sel.system_field == SystemField::MicrophoneMute
    ||| sel.active_tab == Tab::Mapping && sel.mapping_view == MappingView::ControllerProfile
        && sel.mapping < s.profile.mappings@.len()
    ||| sel.active_tab == Tab::Mapping && sel.mapping_view == MappingView::KeyboardOutput
        && sel.keyboard_mapping < s.profile.keyboard_mapping.bindings@.len()
}

/// What the apply key asks for on the active screen.
pub open spec fn apply_outcome(s: EditorState) -> (EditorAction, Option<StatusNote>) {
    match s.selection.active_tab {
        Tab::Lightbar => (EditorAction::ApplyLightbar, None),
        Tab::Haptics => if s.selection.haptic_field == HapticField::ReactiveState {
            (EditorAction::ToggleAudioReactive, None)
        } else {
            (EditorAction::PlayHapticDemo, None)
        },
        Tab::Triggers => (EditorAction::ApplyAdaptiveTriggers, None),
        Tab::System => (EditorAction::ApplySystemControls, None),
        Tab::Mapping => match s.selection.mapping_view {
            MappingView::ControllerProfile => (
                EditorAction::Nothing,
                Some(StatusNote::ControllerMappingSavedWithS),
            ),
            MappingView::KeyboardOutput => (EditorAction::ToggleKeyboardOutput, None),
            MappingView::MouseOutput => (EditorAction::ToggleMouseOutput, None),
        },
        _ => (EditorAction::Nothing, Some(StatusNote::NoApplyAction)),
    }
}

// ---------------------------------------------------------------------------
// Keys
// ---------------------------------------------------------------------------

/// A key of the terminal, as far as the configurator tells keys apart.
#[derive(Clone, Copy, Debug, PartialEq, Eq, Structural)]
pub enum KeyInput {
    Char(char),
    Left,
    Right,
    Up,
    Down,
    Tab,
    BackTab,
    Enter,
    Esc,
    Other,
}

/// What a key press asks the configurator to do.
#[derive(Clone, Copy, Debug, PartialEq, Eq, Structural)]
pub enum UiCommand {
    Quit,
    NextTab,
    PreviousTab,
    SelectTab(Tab),
    RefreshDevices,
    SaveProfile,
    ResizeDevices(i16),
    ResizeStatus(i16),
    ResizeControls(i16),
    ResetLayout,
    ApplyActivePanel,
    PulseHaptics,
    PlayHapticDemo,
    ToggleMappingView,
    ToggleMappingOutput,
    OpenAccessibilitySettings,
    ResetAdaptiveTriggers,
    ToggleActive,
    MoveSelection(isize),
    AdjustActive(i16),
}

/// The command of a key press; `control` tells whether Control was held.
///
/// With Control the arrows resize panels; digits pick a screen; the
/// mapping keys act only on the mapping screen and `x` only on the trigger
/// screen.
pub open spec fn spec_command_for_key(key: KeyInput, control: bool, active_tab: Tab) -> Option<UiCommand> {
    if control && key == KeyInput::Left {
        Some(UiCommand::ResizeDevices(-2i16))
    } else if control && key == KeyInput::Right {
        Some(UiCommand::ResizeDevices(2i16))
    } else if control && key == KeyInput::Up {
        Some(UiCommand::ResizeControls(-1i16))
    } else if control && key == KeyInput::Down {
        Some(UiCommand::ResizeControls(1i16))
    } else {
        match key {
            KeyInput::Esc => Some(UiCommand::Quit),
            KeyInput::Tab => Some(UiCommand::NextTab),
            KeyInput::BackTab => Some(UiCommand::PreviousTab),
            KeyInput::Enter => Some(UiCommand::ApplyActivePanel),
            KeyInput::Up => Some(UiCommand::MoveSelection(-1isize)),
            KeyInput::Down => Some(UiCommand::MoveSelection(1isize)),
            KeyInput::Left => Some(UiCommand::AdjustActive(-5i16)),
            KeyInput::Right => Some(UiCommand::AdjustActive(5i16)),
            KeyInput::Other => None,
            KeyInput::Char(c) => spec_command_for_char(c, active_tab),
        }
    }
}

pub open spec fn spec_command_for_char(c: char, active_tab: Tab) -> Option<UiCommand> {
    if c == 'q' {
        Some(UiCommand::Quit)
    } else if '1' <= c && c <= '8' {
        Some(UiCommand::SelectTab(Tab::spec_at(c as u32 - '1' as u32)))
    } else if c == 'r' {
        Some(UiCommand::RefreshDevices)
    } else if c == 's' {
        Some(UiCommand::SaveProfile)
    } else if c == '[' {
        Some(UiCommand::ResizeDevices(-2i16))
    } else if c == ']' {
        Some(UiCommand::ResizeDevices(2i16))
    } else if c == '{' {
        Some(UiCommand::ResizeStatus(-2i16))
    } else if c == '}' {
        Some(UiCommand::ResizeStatus(2i16))
    } else if c == '<' {
        Some(UiCommand::ResizeControls(-1i16))
    } else if c == '>' {
        Some(UiCommand::ResizeControls(1i16))
    } else if c == '0' {
        Some(UiCommand::ResetLayout)
    } else if c == 'a' {
        Some(UiCommand::ApplyActivePanel)
    } else if c == 'p' {
        Some(UiCommand::PulseHaptics)
    } else if c == 'd' {
        Some(UiCommand::PlayHapticDemo)
    } else if c == 'm' && active_tab == Tab::Mapping {
        Some(UiCommand::ToggleMappingView)
    } else if c == 'k' && active_tab == Tab::Mapping {
        Some(UiCommand::ToggleMappingOutput)
    } else if c == 'o' && active_tab == Tab::Mapping {
        Some(UiCommand::OpenAccessibilitySettings)
    } else if c == 'x' && active_tab == Tab::Triggers {
        Some(UiCommand::ResetAdaptiveTriggers)
    } else if c == ' ' {
        Some(UiCommand::ToggleActive)
    } else if c == '+' || c == '=' {
        Some(UiCommand::AdjustActive(1i16))
    } else if c == '-' || c == '_' {
        Some(UiCommand::AdjustActive(-1i16))
    } else {
        None
    }
}

/// The command of a key press.
pub fn command_for_key(key: KeyInput, control: bool, active_tab: Tab) -> (r: Option<UiCommand>)
    ensures
        r == spec_command_for_key(key, control, active_tab),
{
    if control {
        match key {
            KeyInput::Left => return Some(UiCommand::ResizeDevices(-2i16)),
            KeyInput::Right => return Some(UiCommand::ResizeDevices(2i16)),
            KeyInput::Up => return Some(UiCommand::ResizeControls(-1i16)),
            KeyInput::Down => return Some(UiCommand::ResizeControls(1i16)),
            _ => {},
        }
    }
    match key {
        KeyInput::Esc => Some(UiCommand::Quit),
        KeyInput::Tab => Some(UiCommand::NextTab),
        KeyInput::BackTab => Some(UiCommand::PreviousTab),
        KeyInput::Enter => Some(UiCommand::ApplyActivePanel),
        KeyInput::Up => Some(UiCommand::MoveSelection(-1isize)),
        KeyInput::Down => Some(UiCommand::MoveSelection(1isize)),
        KeyInput::Left => Some(UiCommand::AdjustActive(-5i16)),
        KeyInput::Right => Some(UiCommand::AdjustActive(5i16)),
        KeyInput::Other => None,
        KeyInput::Char(c) => command_for_char(c, active_tab),
    }
}

fn command_for_char(c: char, active_tab: Tab) -> (r: Option<UiCommand>)
    ensures
        r == spec_command_for_char(c, active_tab),
{
    if c == 'q' {
        Some(UiCommand::Quit)
    } else if '1' <= c && c <= '8' {
        Some(UiCommand::SelectTab(Tab::from_index((c as u32 - '1' as u32) as usize)))
    } else if c == 'r' {
        Some(UiCommand::RefreshDevices)
    } else if c == 's' {
        Some(UiCommand::SaveProfile)
    } else if c == '[' {
        Some(UiCommand::ResizeDevices(-2i16))
    } else if c == ']' {
        Some(UiCommand::ResizeDevices(2i16))
    } else if c == '{' {
        Some(UiCommand::ResizeStatus(-2i16))
    } else if c == '}' {
        Some(UiCommand::ResizeStatus(2i16))
    } else if c == '<' {
        Some(UiCommand::ResizeControls(-1i16))
    } else if c == '>' {
        Some(UiCommand::ResizeControls(1i16))
    } else if c == '0' {
        Some(UiCommand::ResetLayout)
    } else if c == 'a' {
        Some(UiCommand::ApplyActivePanel)
    } else if c == 'p' {
        Some(UiCommand::PulseHaptics)
    } else if c == 'd' {
        Some(UiCommand::PlayHapticDemo)
    } else if c == 'm' && active_tab == Tab::Mapping {
        Some(UiCommand::ToggleMappingView)
    } else if c == 'k' && active_tab == Tab::Mapping {
        Some(UiCommand::ToggleMappingOutput)
    } else if c == 'o' && active_tab == Tab::Mapping {
        Some(UiCommand::OpenAccessibilitySettings)
    } else if c == 'x' && active_tab == Tab::Triggers {
        Some(UiCommand::ResetAdaptiveTriggers)
    } else if c == ' ' {
        Some(UiCommand::ToggleActive)
    } else if c == '+' || c == '=' {
        Some(UiCommand::AdjustActive(1i16))
    } else if c == '-' || c == '_' {
        Some(UiCommand::AdjustActive(-1i16))
    } else {
        None
    }
}

// ---------------------------------------------------------------------------
// Laws
// ---------------------------------------------------------------------------

/// Going to the next screen and back returns to the screen one started on.
pub proof fn lemma_next_then_previous_tab(t: Tab)
    ensures
        Tab::spec_at((Tab::spec_at((t.spec_index() + 1) % 8).spec_index() + 7) % 8) == t,
{
    crate::app_state::lemma_tab_index(t);
    crate::app_state::lemma_tab_index(Tab::spec_at((t.spec_index() + 1) % 8));
}

/// Moving through a non-empty device list by `delta` and back by `-delta`
/// selects the controller one started on.
pub proof fn lemma_device_move_round_trip(s: EditorState, delta: int)
    requires
        s.selection.active_tab == Tab::Devices,
        s.device_count > 0,
        s.selection.device < s.device_count,
    ensures
        ({
            let moved = EditorState { selection: spec_move_selection(s, delta).0, ..s };
            spec_move_selection(moved, -delta).0 == s.selection
        }),
{
    let n = s.device_count as int;
    let i = s.selection.device as int;
    vstd::arithmetic::div_mod::lemma_add_mod_noop_right(-delta, i + delta, n);
    assert(((i + delta) % n + (-delta)) % n == (i + delta + (-delta)) % n);
    vstd::arithmetic::div_mod::lemma_small_mod(i as nat, n as nat);
    assert(i + delta + (-delta) == i);
    vstd::arithmetic::div_mod::lemma_mod_bound(i + delta, n);
    let moved = EditorState { selection: spec_move_selection(s, delta).0, ..s };
    assert(moved.selection.device == (i + delta) % n);
}

// ---------------------------------------------------------------------------
// Settings sent by the desktop app
// ---------------------------------------------------------------------------

/// Takes the audio-reactive settings sent by the desktop app, held to
/// their ranges.
pub fn stage_audio_reactive(p: &mut AudioReactiveHapticsProfile, sensitivity_percent: u8, threshold_percent: u8)
    ensures
        *final(p) == (AudioReactiveHapticsProfile { sensitivity_percent, threshold_percent }).spec_normalized(),
{
    p.sensitivity_percent = sensitivity_percent;
    p.threshold_percent = threshold_percent;
    p.normalize();
}

/// Takes the trigger settings sent by the desktop app: positions within
/// the ten zones with the end no earlier than the start, a frequency of at
/// least 1.
pub fn stage_triggers(
    t: &mut crate::profile::AdaptiveTriggerProfile,
    target: crate::model::TriggerTarget,
    mode: crate::model::AdaptiveTriggerMode,
    preset: crate::model::AdaptiveTriggerPreset,
    intensity: u8,
    start_position: u8,
    end_position: u8,
    frequency: u8,
)
    ensures
        ({
            let start = if start_position > 9 { 9 } else { start_position };
            let end = if end_position < start { start } else { end_position };
            *final(t) == (crate::profile::AdaptiveTriggerProfile {
                target,
                mode,
                preset,
                intensity,
                start_position: start,
                end_position: if end > 9 { 9 } else { end },
                frequency: if frequency < 1 { 1 } else { frequency },
            })
        }),
{
    t.target = target;
    t.mode = mode;
    t.preset = preset;
    t.intensity = intensity;
    t.start_position = if start_position > 9 {
        9
    } else {
        start_position
    };
    let end = if end_position < t.start_position {
        t.start_position
    } else {
        end_position
    };
    t.end_position = if end > 9 {
        9
    } else {
        end
    };
    t.frequency = if frequency < 1 {
        1
    } else {
        frequency
    };
}

/// Takes the system settings sent by the desktop app; the microphone level
/// is held to at most 0x40.
pub fn stage_system(
    p: &mut SystemProfile,
    player_indicator: crate::model::PlayerIndicator,
    microphone_muted: bool,
    speaker_volume: u8,
    microphone_volume: u8,
    audio_route: crate::model::AudioRoute,
)
    ensures
        *final(p) == (SystemProfile {
            player_indicator,
            microphone_muted,
            speaker_volume,
            microphone_volume: if microphone_volume > 0x40 {
                0x40
            } else {
                microphone_volume
            },
            audio_route,
        }),
{
    p.player_indicator = player_indicator;
    p.microphone_muted = microphone_muted;
    p.speaker_volume = speaker_volume;
    p.microphone_volume = if microphone_volume > 0x40 {
        0x40
    } else {
        microphone_volume
    };
    p.audio_route = audio_route;
}

/// Takes the mouse settings sent by the desktop app, held to their ranges;
/// whether mouse output is on is decided apart.
pub fn stage_mouse_settings(m: &mut MouseMappingProfile, pointer_speed: u8, deadzone_percent: u8, scroll_speed: u8)
    ensures
        *final(m) == (MouseMappingProfile {
            pointer_speed,
            deadzone_percent,
            scroll_speed,
            ..*old(m)
        }).spec_normalized(),
{
    m.pointer_speed = pointer_speed;
    m.deadzone_percent = deadzone_percent;
    m.scroll_speed = scroll_speed;
    m.normalize();
}

/// Whether some mapping starts at `from`.
pub open spec fn first_mapping_index(ms: Seq<ButtonMapping>, from: Button) -> Option<int> {
    if exists|i: int| 0 <= i < ms.len() && ms[i].from == from {
        Some(
            choose|i: int|
                0 <= i < ms.len() && ms[i].from == from && forall|k: int|
                    0 <= k < i ==> ms[k].from != from,
        )
    } else {
        None
    }
}

/// `ms` with the first mapping from `from` sent to `to`.
pub open spec fn retarget_first_mapping(ms: Seq<ButtonMapping>, from: Button, to: Button) -> Seq<ButtonMapping> {
    match first_mapping_index(ms, from) {
        Some(i) => ms.update(i, ButtonMapping { from, to }),
        None => ms,
    }
}

pub open spec fn first_binding_index(bs: Seq<KeyboardBinding>, from: Button) -> Option<int> {
    if exists|i: int| 0 <= i < bs.len() && bs[i].from == from {
        Some(
            choose|i: int|
                0 <= i < bs.len() && bs[i].from == from && forall|k: int|
                    0 <= k < i ==> bs[k].from != from,
        )
    } else {
        None
    }
}

/// `bs` with the first binding of `from` set to `to`.
pub open spec fn rebind_first(bs: Seq<KeyboardBinding>, from: Button, to: KeyboardKey) -> Seq<KeyboardBinding> {
    match first_binding_index(bs, from) {
        Some(i) => bs.update(i, KeyboardBinding { from, to }),
        None => bs,
    }
}

/// Sends button `from` to `to` and brings the profile back to its normal
/// form.
pub fn set_controller_mapping(profile: &mut Profile, from: Button, to: Button)
    ensures
        final(profile).mappings@ == crate::profile::normalized_mappings(
            retarget_first_mapping(old(profile).mappings@, from, to),
        ),
        final(profile).keyboard_mapping.enabled == old(profile).keyboard_mapping.enabled,
        final(profile).keyboard_mapping.bindings@ == crate::profile::normalized_bindings(
            old(profile).keyboard_mapping.bindings@,
        ),
        final(profile).mouse_mapping == old(profile).mouse_mapping.spec_normalized(),
        final(profile).haptics == old(profile).haptics.spec_normalized(),
        final(profile).lightbar == old(profile).lightbar,
        final(profile).adaptive_triggers == old(profile).adaptive_triggers,
        final(profile).system == old(profile).system,
{
    let ghost ms = profile.mappings@;
    let mut i: usize = 0;
    while i < profile.mappings.len() && profile.mappings[i].from != from
        invariant
            i <= profile.mappings.len(),
            profile.mappings@ == ms,
            forall|k: int| 0 <= k < i ==> ms[k].from != from,
        decreases profile.mappings.len() - i,
    {
        i = i + 1;
    }
    if i < profile.mappings.len() {
        profile.mappings.set(i, ButtonMapping { from, to });
        proof {
            let j = choose|j: int|
                0 <= j < ms.len() && ms[j].from == from && forall|k: int|
                    0 <= k < j ==> ms[k].from != from;
            assert(ms[i as int].from == from);
            assert(j == i);
        }
    }
    assert(profile.mappings@ == retarget_first_mapping(ms, from, to));
    profile.normalize_mappings();
}

/// Binds button `from` to key `to` and brings the bindings back to their
/// normal form.
pub fn set_keyboard_mapping(profile: &mut Profile, from: Button, to: KeyboardKey)
    ensures
        final(profile).keyboard_mapping.bindings@ == crate::profile::normalized_bindings(
            rebind_first(old(profile).keyboard_mapping.bindings@, from, to),
        ),
        final(profile).keyboard_mapping.enabled == old(profile).keyboard_mapping.enabled,
        final(profile).mappings == old(profile).mappings,
        final(profile).mouse_mapping == old(profile).mouse_mapping,
        final(profile).haptics == old(profile).haptics,
        final(profile).lightbar == old(profile).lightbar,
        final(profile).adaptive_triggers == old(profile).adaptive_triggers,
        final(profile).system == old(profile).system,
{
    let ghost bs = profile.keyboard_mapping.bindings@;
    let mut i: usize = 0;
    while i < profile.keyboard_mapping.bindings.len() && profile.keyboard_mapping.bindings[i].from
        != from
        invariant
            i <= profile.keyboard_mapping.bindings.len(),
            profile.keyboard_mapping.bindings@ == bs,
            forall|k: int| 0 <= k < i ==> bs[k].from != from,
        decreases profile.keyboard_mapping.bindings.len() - i,
    {
        i = i + 1;
    }
    if i < profile.keyboard_mapping.bindings.len() {
        profile.keyboard_mapping.bindings.set(i, KeyboardBinding { from, to });
        proof {
            let j = choose|j: int|
                0 <= j < bs.len() && bs[j].from == from && forall|k: int|
                    0 <= k < j ==> bs[k].from != from;
            assert(bs[i as int].from == from);
            assert(j == i);
        }
    }
    assert(profile.keyboard_mapping.bindings@ == rebind_first(bs, from, to));
    profile.keyboard_mapping.normalize_bindings();
}

// ---------------------------------------------------------------------------
// Devices
// ---------------------------------------------------------------------------

/// Whether two addresses are equal up to ASCII letter case.
pub open spec fn same_address(a: Seq<char>, b: Seq<char>) -> bool {
    crate::text::ascii_lower(a) == crate::text::ascii_lower(b)
}

fn same_address_exec(a: &str, b: &str) -> (r: bool)
    ensures
        r == same_address(a@, b@),
{
    let x = crate::text::lower_ascii_chars(&crate::text::str_chars(a));
    let y = crate::text::lower_ascii_chars(&crate::text::str_chars(b));
    if x.len() != y.len() {
        assert(crate::text::ascii_lower(a@).len() != crate::text::ascii_lower(b@).len());
        return false;
    }
    let mut i: usize = 0;
    while i < x.len()
        invariant
            i <= x.len(),
            x.len() == y.len(),
            x@ == crate::text::ascii_lower(a@),
            y@ == crate::text::ascii_lower(b@),
            forall|k: int| 0 <= k < i ==> x@[k] == y@[k],
        decreases x.len() - i,
    {
        if x[i] != y[i] {
            assert(x@[i as int] != y@[i as int]);
            return false;
        }
        i = i + 1;
    }
    assert(x@ =~= y@);
    true
}

/// Whether the device at `i` has an address equal to `mac` up to case.
pub open spec fn device_has_address(macs: Seq<Option<String>>, i: int, mac: Seq<char>) -> bool {
    macs[i] is Some && same_address(macs[i]->0@, mac)
}

/// The selection after the device list was refreshed: the controller that
/// was selected, found again by its address; failing that, the selection
/// held within the list.
pub open spec fn spec_reselected_device(macs: Seq<Option<String>>, previous_mac: Option<Seq<char>>, selected: int) -> int {
    let kept = if selected >= macs.len() {
        if macs.len() == 0 { 0 } else { macs.len() - 1 }
    } else {
        selected
    };
    match previous_mac {
        Some(mac) => match first_device_with_address(macs, mac, 0) {
            Some(i) => i,
            None => kept,
        },
        None => kept,
    }
}

/// The first device at or after `i` with this address.
pub open spec fn first_device_with_address(macs: Seq<Option<String>>, mac: Seq<char>, i: int) -> Option<int>
    decreases macs.len() - i,
{
    if i < 0 || i >= macs.len() {
        None
    } else if device_has_address(macs, i, mac) {
        Some(i)
    } else {
        first_device_with_address(macs, mac, i + 1)
    }
}

pub fn reselected_device(macs: &Vec<Option<String>>, previous_mac: Option<&str>, selected: usize) -> (r: usize)
    ensures
        r as int == spec_reselected_device(
            macs@,
            match previous_mac {
                Some(m) => Some(m@),
                None => None,
            },
            selected as int,
        ),
{
    let kept = if selected >= macs.len() {
        if macs.len() == 0 {
            0
        } else {
            macs.len() - 1
        }
    } else {
        selected
    };
    if previous_mac.is_none() {
        return kept;
    }
    let mac = previous_mac.unwrap();
    let mut i: usize = 0;
    while i < macs.len()
        invariant
            i <= macs.len(),
            previous_mac == Some(mac),
            first_device_with_address(macs@, mac@, 0) == first_device_with_address(
                macs@,
                mac@,
                i as int,
            ),
        decreases macs.len() - i,
    {
        let found = match &macs[i] {
            Some(candidate) => {
                assert(macs@[i as int] == Some(*candidate));
                same_address_exec(candidate.as_str(), mac)
            },
            None => false,
        };
        if found {
            assert(device_has_address(macs@, i as int, mac@));
            return i;
        }
        i = i + 1;
    }
    kept
}

/// Where the profile applied to a controller at start-up comes from.
#[derive(Clone, Copy, Debug, PartialEq, Eq, Structural)]
pub enum ProfileSource {
    /// The unsaved edits of the profile being edited.
    Edited,
    /// The profile saved for the controller, or the global one.
    Saved,
    /// Nothing is applied.
    Skip,
}

/// The unsaved edits of the controller being edited take precedence; other
/// controllers get what was saved, when anything was.
pub fn saved_profile_source(is_active_profile: bool, dirty: bool, has_saved_profile: bool) -> (r: ProfileSource)
    ensures
        r == (if is_active_profile && dirty {
            ProfileSource::Edited
        } else if has_saved_profile {
            ProfileSource::Saved
        } else {
            ProfileSource::Skip
        }),
{
    if is_active_profile && dirty {
        ProfileSource::Edited
    } else if has_saved_profile {
        ProfileSource::Saved
    } else {
        ProfileSource::Skip
    }
}

} // verus!
