//! Commands of the desktop app: what each one changes in the edited
//! profile, and what it asks the service to do with the controller, the
//! profile store or the background agent.
use vstd::prelude::*;

use crate::editor::{
    rebind_first, retarget_first_mapping, set_controller_mapping, set_keyboard_mapping,
    stage_audio_reactive, stage_mouse_settings, stage_system, stage_triggers, EditorState,
    Selection,
};
use crate::model::{
    AdaptiveTriggerMode, AdaptiveTriggerPreset, AudioRoute, Button, HapticDemo, KeyboardKey,
    PlayerIndicator, Rgb, TriggerTarget,
};
use crate::profile::{
    normalized_bindings, normalized_mappings, AdaptiveTriggerProfile, AudioReactiveHapticsProfile,
    HapticsProfile, MouseMappingProfile, SystemProfile,
};
use crate::status::{spec_color_hex, controller_mapping_updated_status, keyboard_mapping_updated_status, lightbar_staged_status};

verus! {

/// A request of the desktop app.
pub enum GuiCommand {
    Snapshot,
    LiveState,
    Refresh,
    SelectDevice { index: usize },
    SetLightbar { r: u8, g: u8, b: u8, apply: bool },
    SetLightbarInactive { inactive: bool },
    ReapplyLightbar,
    SetHaptics { enabled: bool, audio_haptics: bool, strength: u8, apply: bool },
    SetAudioReactive { enabled: bool, sensitivity_percent: u8, threshold_percent: u8 },
    PlayHapticDemo { demo: HapticDemo },
    SetTriggers {
        target: TriggerTarget,
        mode: AdaptiveTriggerMode,
        preset: AdaptiveTriggerPreset,
        intensity: u8,
        start_position: u8,
        end_position: u8,
        frequency: u8,
        apply: bool,
    },
    ResetTriggers,
    SetSystem {
        player_indicator: PlayerIndicator,
        microphone_muted: bool,
        speaker_volume: u8,
        microphone_volume: u8,
        audio_route: AudioRoute,
        apply: bool,
    },
    SetMouse { enabled: bool, pointer_speed: u8, deadzone_percent: u8, scroll_speed: u8 },
    SetControllerMapping { from: Button, to: Button },
    SetKeyboardMapping { from: Button, to: KeyboardKey },
    SetKeyboardOutput { enabled: bool },
    RequestEventPostingAccess,
    OpenAccessibilitySettings,
    SaveProfile,
    SaveNamedProfile { name: String },
    LoadNamedProfile { profile_id: String },
    ResetProfile,
    InstallBackgroundAgent,
    UninstallBackgroundAgent,
    BackgroundStatus,
    Quit,
}

/// Whether the service runs inside the desktop app or as the background
/// agent.
#[derive(Clone, Copy, Debug, PartialEq, Eq, Structural)]
pub enum ServiceMode {
    Local,
    Daemon,
}

/// The work a command leaves to the service.
pub enum GuiAction {
    Nothing,
    RefreshDevices,
    /// Another controller was selected: stop audio-reactive haptics, release
    /// held outputs, activate its profile and schedule the automatic apply.
    DeviceSelected,
    ApplyLightbar,
    SetLightbarInactive(bool),
    ReapplyLightbar,
    ApplyHaptics,
    /// Audio-reactive haptics should be running or not.
    SetAudioReactive(bool),
    PlayHapticDemo,
    ApplyAdaptiveTriggers,
    ResetAdaptiveTriggers,
    ApplySystemControls,
    SetMouseOutput(bool),
    SetKeyboardOutput(bool),
    RequestEventPostingAccess,
    OpenAccessibilitySettings,
    SaveProfile,
    SaveNamedProfile(String),
    LoadNamedProfile(String),
    ResetProfile,
    InstallBackgroundAgent,
    UninstallBackgroundAgent,
    RefreshBackgroundStatus,
    Quit,
}

/// A command the service refuses.
#[derive(Clone, Copy, Debug, PartialEq, Eq, Structural)]
pub enum GuiError {
    /// No controller is listed at this position.
    ControllerUnavailable(usize),
    /// The background agent cannot install or remove itself.
    BackgroundServiceSelfModification,
}

impl GuiError {
    pub open spec fn spec_message(self) -> Seq<char> {
        match self {
            GuiError::ControllerUnavailable(i) => "controller index "@ + crate::text::spec_decimal(
                i as nat,
            ) + " is unavailable"@,
            GuiError::BackgroundServiceSelfModification => "Background Service cannot modify its own LaunchAgent connection"@,
        }
    }

    /// The sentence shown to the user.
    pub fn message(&self) -> (r: String)
        ensures
            r@ == self.spec_message(),
    {
        match *self {
            GuiError::ControllerUnavailable(i) => {
                let mut s = crate::text::string_of("controller index ");
                crate::text::push_decimal(&mut s, i as u64);
                crate::text::push_str(&mut s, " is unavailable");
                s
            },
            GuiError::BackgroundServiceSelfModification => crate::text::string_of(
                "Background Service cannot modify its own LaunchAgent connection",
            ),
        }
    }
}

/// What the service does next, and the status line a command sets by
/// itself.
pub struct GuiStep {
    pub action: GuiAction,
    pub status: Option<String>,
}

/// Whether the answer to a command carries the live input rather than the
/// full snapshot.
pub fn wants_live_state(command: &GuiCommand) -> (r: bool)
    ensures
        r == (*command is LiveState),
{
    match command {
        GuiCommand::LiveState => true,
        _ => false,
    }
}

pub open spec fn same_editor(a: EditorState, b: EditorState) -> bool {
    &&& a.selection == b.selection
    &&& a.device_count == b.device_count
    &&& a.profile == b.profile
    &&& a.dirty == b.dirty
}

/// The editor after a command that edits the profile: the selection and
/// the device count stay, and the profile is marked as changed.
pub open spec fn profile_edit(a: EditorState, b: EditorState) -> bool {
    &&& b.selection == a.selection
    &&& b.device_count == a.device_count
    &&& b.dirty
}

pub open spec fn has_status(s: Option<String>, text: Seq<char>) -> bool {
    s is Some && s->0@ == text
}

/// What a command does to the editor and what it asks of the service.
pub open spec fn gui_command_effect(
    before: EditorState,
    after: EditorState,
    command: GuiCommand,
    mode: ServiceMode,
    r: Result<GuiStep, GuiError>,
) -> bool {
    let p = before.profile;
    let q = after.profile;
    match command {
        GuiCommand::Snapshot | GuiCommand::LiveState => same_editor(before, after) && r is Ok
            && r->Ok_0.action is Nothing && r->Ok_0.status is None,
        GuiCommand::Refresh => same_editor(before, after) && r is Ok
            && r->Ok_0.action is RefreshDevices && r->Ok_0.status is None,
        GuiCommand::SelectDevice { index } => if index >= before.device_count {
            same_editor(before, after) && r == Err::<GuiStep, GuiError>(
                GuiError::ControllerUnavailable(index),
            )
        } else if index == before.selection.device {
            same_editor(before, after) && r is Ok && r->Ok_0.action is Nothing
                && r->Ok_0.status is None
        } else {
            &&& after.selection == (Selection { device: index, ..before.selection })
            &&& after.device_count == before.device_count
            &&& after.profile == before.profile
            &&& after.dirty == before.dirty
            &&& r is Ok && r->Ok_0.action is DeviceSelected && r->Ok_0.status is None
        },
        GuiCommand::SetLightbar { r: red, g, b, apply } => {
            let c = Rgb { r: red, g, b };
            &&& profile_edit(before, after)
            &&& q.lightbar == c && q.haptics == p.haptics && q.adaptive_triggers
                == p.adaptive_triggers && q.system == p.system && q.mappings == p.mappings
                && q.keyboard_mapping == p.keyboard_mapping && q.mouse_mapping == p.mouse_mapping
            &&& r is Ok
            &&& if apply {
                r->Ok_0.action is ApplyLightbar && r->Ok_0.status is None
            } else {
                r->Ok_0.action is Nothing && has_status(
                    r->Ok_0.status,
                    "Lightbar staged: "@ + spec_color_hex(c),
                )
            }
        },
        GuiCommand::SetLightbarInactive { inactive } => same_editor(before, after) && r is Ok
            && r->Ok_0.action == GuiAction::SetLightbarInactive(inactive) && r->Ok_0.status is None,
        GuiCommand::ReapplyLightbar => same_editor(before, after) && r is Ok
            && r->Ok_0.action is ReapplyLightbar && r->Ok_0.status is None,
        GuiCommand::SetHaptics { enabled, audio_haptics, strength, apply } => {
            &&& profile_edit(before, after)
            &&& q.haptics == (HapticsProfile {
                enabled,
                audio_haptics,
                left_strength: strength,
                right_strength: strength,
                ..p.haptics
            })
            &&& q.lightbar == p.lightbar && q.adaptive_triggers == p.adaptive_triggers && q.system
                == p.system && q.mappings == p.mappings && q.keyboard_mapping == p.keyboard_mapping
                && q.mouse_mapping == p.mouse_mapping
            &&& r is Ok
            &&& if apply {
                r->Ok_0.action is ApplyHaptics && r->Ok_0.status is None
            } else {
                r->Ok_0.action is Nothing && has_status(r->Ok_0.status, "Haptics staged"@)
            }
        },
        GuiCommand::SetAudioReactive { enabled, sensitivity_percent, threshold_percent } => {
            &&& profile_edit(before, after)
            &&& q.haptics == (HapticsProfile {
                audio_reactive: (AudioReactiveHapticsProfile {
                    sensitivity_percent,
                    threshold_percent,
                }).spec_normalized(),
                ..p.haptics
            })
            &&& q.lightbar == p.lightbar && q.adaptive_triggers == p.adaptive_triggers && q.system
                == p.system && q.mappings == p.mappings && q.keyboard_mapping == p.keyboard_mapping
                && q.mouse_mapping == p.mouse_mapping
            &&& r is Ok && r->Ok_0.action == GuiAction::SetAudioReactive(enabled)
                && r->Ok_0.status is None
        },
        GuiCommand::PlayHapticDemo { demo } => {
            &&& after.selection == (Selection { haptic_demo: demo, ..before.selection })
            &&& after.device_count == before.device_count
            &&& after.profile == before.profile
            &&& after.dirty == before.dirty
            &&& r is Ok && r->Ok_0.action is PlayHapticDemo && r->Ok_0.status is None
        },
        GuiCommand::SetTriggers {
            target,
            mode: trigger_mode,
            preset,
            intensity,
            start_position,
            end_position,
            frequency,
            apply,
        } => {
            let start = if start_position > 9 { 9 } else { start_position };
            let end = if end_position < start { start } else { end_position };
            &&& profile_edit(before, after)
            &&& q.adaptive_triggers == (AdaptiveTriggerProfile {
                target,
                mode: trigger_mode,
                preset,
                intensity,
                start_position: start,
                end_position: if end > 9 { 9 } else { end },
                frequency: if frequency < 1 { 1 } else { frequency },
            })
            &&& q.lightbar == p.lightbar && q.haptics == p.haptics && q.system == p.system
                && q.mappings == p.mappings && q.keyboard_mapping == p.keyboard_mapping
                && q.mouse_mapping == p.mouse_mapping
            &&& r is Ok
            &&& if apply {
                r->Ok_0.action is ApplyAdaptiveTriggers && r->Ok_0.status is None
            } else {
                r->Ok_0.action is Nothing && has_status(
                    r->Ok_0.status,
                    "Adaptive triggers staged"@,
                )
            }
        },
        GuiCommand::ResetTriggers => same_editor(before, after) && r is Ok
            && r->Ok_0.action is ResetAdaptiveTriggers && r->Ok_0.status is None,
        GuiCommand::SetSystem {
            player_indicator,
            microphone_muted,
            speaker_volume,
            microphone_volume,
            audio_route,
            apply,
        } => {
            &&& profile_edit(before, after)
            &&& q.system == (SystemProfile {
                player_indicator,
                microphone_muted,
                speaker_volume,
                microphone_volume: if microphone_volume > 0x40 {
                    0x40
                } else {
                    microphone_volume
                },
                audio_route,
            })
            &&& q.lightbar == p.lightbar && q.haptics == p.haptics && q.adaptive_triggers
                == p.adaptive_triggers && q.mappings == p.mappings && q.keyboard_mapping
                == p.keyboard_mapping && q.mouse_mapping == p.mouse_mapping
            &&& r is Ok
            &&& if apply {
                r->Ok_0.action is ApplySystemControls && r->Ok_0.status is None
            } else {
                r->Ok_0.action is Nothing && has_status(r->Ok_0.status, "System controls staged"@)
            }
        },
        GuiCommand::SetMouse { enabled, pointer_speed, deadzone_percent, scroll_speed } => {
            &&& after.selection == before.selection
            &&& after.device_count == before.device_count
            &&& after.dirty == before.dirty
            &&& q.mouse_mapping == (MouseMappingProfile {
                pointer_speed,
                deadzone_percent,
                scroll_speed,
                ..p.mouse_mapping
            }).spec_normalized()
            &&& q.lightbar == p.lightbar && q.haptics == p.haptics && q.adaptive_triggers
                == p.adaptive_triggers && q.system == p.system && q.mappings == p.mappings
                && q.keyboard_mapping == p.keyboard_mapping
            &&& r is Ok && r->Ok_0.action == GuiAction::SetMouseOutput(enabled)
                && r->Ok_0.status is None
        },
        GuiCommand::SetControllerMapping { from, to } => {
            &&& profile_edit(before, after)
            &&& q.mappings@ == normalized_mappings(retarget_first_mapping(p.mappings@, from, to))
            &&& q.keyboard_mapping.enabled == p.keyboard_mapping.enabled
            &&& q.keyboard_mapping.bindings@ == normalized_bindings(p.keyboard_mapping.bindings@)
            &&& q.mouse_mapping == p.mouse_mapping.spec_normalized()
            &&& q.haptics == p.haptics.spec_normalized()
            &&& q.lightbar == p.lightbar && q.adaptive_triggers == p.adaptive_triggers && q.system
                == p.system
            &&& r is Ok && r->Ok_0.action is Nothing && has_status(
                r->Ok_0.status,
                "Controller mapping updated: "@ + from.spec_label(),
            )
        },
        GuiCommand::SetKeyboardMapping { from, to } => {
            &&& profile_edit(before, after)
            &&& q.keyboard_mapping.bindings@ == normalized_bindings(
                rebind_first(p.keyboard_mapping.bindings@, from, to),
            )
            &&& q.keyboard_mapping.enabled == p.keyboard_mapping.enabled
            &&& q.mappings == p.mappings && q.mouse_mapping == p.mouse_mapping && q.haptics
                == p.haptics && q.lightbar == p.lightbar && q.adaptive_triggers
                == p.adaptive_triggers && q.system == p.system
            &&& r is Ok && r->Ok_0.action is Nothing && has_status(
                r->Ok_0.status,
                "Keyboard mapping updated: "@ + from.spec_label(),
            )
        },
        GuiCommand::SetKeyboardOutput { enabled } => same_editor(before, after) && r is Ok
            && r->Ok_0.action == GuiAction::SetKeyboardOutput(enabled) && r->Ok_0.status is None,
        GuiCommand::RequestEventPostingAccess => same_editor(before, after) && r is Ok
            && r->Ok_0.action is RequestEventPostingAccess && r->Ok_0.status is None,
        GuiCommand::OpenAccessibilitySettings => same_editor(before, after) && r is Ok
            && r->Ok_0.action is OpenAccessibilitySettings && r->Ok_0.status is None,
        GuiCommand::SaveProfile => same_editor(before, after) && r is Ok
            && r->Ok_0.action is SaveProfile && r->Ok_0.status is None,
        GuiCommand::SaveNamedProfile { name } => same_editor(before, after) && r is Ok
            && r->Ok_0.action == GuiAction::SaveNamedProfile(name) && r->Ok_0.status is None,
        GuiCommand::LoadNamedProfile { profile_id } => same_editor(before, after) && r is Ok
            && r->Ok_0.action == GuiAction::LoadNamedProfile(profile_id) && r->Ok_0.status is None,
        GuiCommand::ResetProfile => same_editor(before, after) && r is Ok
            && r->Ok_0.action is ResetProfile && r->Ok_0.status is None,
        GuiCommand::InstallBackgroundAgent => same_editor(before, after) && if mode
            == ServiceMode::Daemon {
            r == Err::<GuiStep, GuiError>(GuiError::BackgroundServiceSelfModification)
        } else {
            r is Ok && r->Ok_0.action is InstallBackgroundAgent && r->Ok_0.status is None
        },
        GuiCommand::UninstallBackgroundAgent => same_editor(before, after) && if mode
            == ServiceMode::Daemon {
            r == Err::<GuiStep, GuiError>(GuiError::BackgroundServiceSelfModification)
        } else {
            r is Ok && r->Ok_0.action is UninstallBackgroundAgent && r->Ok_0.status is None
        },
        GuiCommand::BackgroundStatus => same_editor(before, after) && r is Ok
            && r->Ok_0.action is RefreshBackgroundStatus && r->Ok_0.status is None,
        GuiCommand::Quit => same_editor(before, after) && r is Ok && r->Ok_0.action is Quit
            && r->Ok_0.status is None,
    }
}

fn step(action: GuiAction) -> (r: Result<GuiStep, GuiError>)
    ensures
        r == Ok::<GuiStep, GuiError>(GuiStep { action, status: None }),
{
    Ok(GuiStep { action, status: None })
}

fn step_with_status(status: String) -> (r: Result<GuiStep, GuiError>)
    ensures
        r is Ok,
        r->Ok_0.action is Nothing,
        has_status(r->Ok_0.status, status@),
{
    Ok(GuiStep { action: GuiAction::Nothing, status: Some(status) })
}

/// Carries out a command of the desktop app on the editor: settings are
/// staged (held to their ranges), mappings changed, the selection moved;
/// whatever needs the controller, the profile store or the background agent
/// is handed back as the next action.
pub fn apply_gui_command(editor: &mut EditorState, command: GuiCommand, mode: ServiceMode) -> (r: Result<GuiStep, GuiError>)
    ensures
        gui_command_effect(*old(editor), *final(editor), command, mode, r),
{
    match command {
        GuiCommand::Snapshot | GuiCommand::LiveState => step(GuiAction::Nothing),
        GuiCommand::Refresh => step(GuiAction::RefreshDevices),
        GuiCommand::SelectDevice { index } => {
            if index >= editor.device_count {
                return Err(GuiError::ControllerUnavailable(index));
            }
            if index == editor.selection.device {
                return step(GuiAction::Nothing);
            }
            editor.selection.device = index;
            step(GuiAction::DeviceSelected)
        },
        GuiCommand::SetLightbar { r, g, b, apply } => {
            let c = Rgb { r, g, b };
            editor.profile.lightbar = c;
            editor.dirty = true;
            if apply {
                step(GuiAction::ApplyLightbar)
            } else {
                step_with_status(lightbar_staged_status(c))
            }
        },
        GuiCommand::SetLightbarInactive { inactive } => step(GuiAction::SetLightbarInactive(inactive)),
        GuiCommand::ReapplyLightbar => step(GuiAction::ReapplyLightbar),
        GuiCommand::SetHaptics { enabled, audio_haptics, strength, apply } => {
            editor.profile.haptics.enabled = enabled;
            editor.profile.haptics.audio_haptics = audio_haptics;
            editor.profile.haptics.set_strength(strength);
            editor.dirty = true;
            if apply {
                step(GuiAction::ApplyHaptics)
            } else {
                step_with_status(crate::text::string_of("Haptics staged"))
            }
        },
        GuiCommand::SetAudioReactive { enabled, sensitivity_percent, threshold_percent } => {
            stage_audio_reactive(
                &mut editor.profile.haptics.audio_reactive,
                sensitivity_percent,
                threshold_percent,
            );
            editor.dirty = true;
            step(GuiAction::SetAudioReactive(enabled))
        },
        GuiCommand::PlayHapticDemo { demo } => {
            editor.selection.haptic_demo = demo;
            step(GuiAction::PlayHapticDemo)
        },
        GuiCommand::SetTriggers {
            target,
            mode: trigger_mode,
            preset,
            intensity,
            start_position,
            end_position,
            frequency,
            apply,
        } => {
            stage_triggers(
                &mut editor.profile.adaptive_triggers,
                target,
                trigger_mode,
                preset,
                intensity,
                start_position,
                end_position,
                frequency,
            );
            editor.dirty = true;
            if apply {
                step(GuiAction::ApplyAdaptiveTriggers)
            } else {
                step_with_status(crate::text::string_of("Adaptive triggers staged"))
            }
        },
        GuiCommand::ResetTriggers => step(GuiAction::ResetAdaptiveTriggers),
        GuiCommand::SetSystem {
            player_indicator,
            microphone_muted,
            speaker_volume,
            microphone_volume,
            audio_route,
            apply,
        } => {
            stage_system(
                &mut editor.profile.system,
                player_indicator,
                microphone_muted,
                speaker_volume,
                microphone_volume,
                audio_route,
            );
            editor.dirty = true;
            if apply {
                step(GuiAction::ApplySystemControls)
            } else {
                step_with_status(crate::text::string_of("System controls staged"))
            }
        },
        GuiCommand::SetMouse { enabled, pointer_speed, deadzone_percent, scroll_speed } => {
            stage_mouse_settings(
                &mut editor.profile.mouse_mapping,
                pointer_speed,
                deadzone_percent,
                scroll_speed,
            );
            step(GuiAction::SetMouseOutput(enabled))
        },
        GuiCommand::SetControllerMapping { from, to } => {
            set_controller_mapping(&mut editor.profile, from, to);
            editor.dirty = true;
            step_with_status(controller_mapping_updated_status(from))
        },
        GuiCommand::SetKeyboardMapping { from, to } => {
            set_keyboard_mapping(&mut editor.profile, from, to);
            editor.dirty = true;
            step_with_status(keyboard_mapping_updated_status(from))
        },
        GuiCommand::SetKeyboardOutput { enabled } => step(GuiAction::SetKeyboardOutput(enabled)),
        GuiCommand::RequestEventPostingAccess => step(GuiAction::RequestEventPostingAccess),
        GuiCommand::OpenAccessibilitySettings => step(GuiAction::OpenAccessibilitySettings),
        GuiCommand::SaveProfile => step(GuiAction::SaveProfile),
        GuiCommand::SaveNamedProfile { name } => step(GuiAction::SaveNamedProfile(name)),
        GuiCommand::LoadNamedProfile { profile_id } => step(GuiAction::LoadNamedProfile(profile_id)),
        GuiCommand::ResetProfile => step(GuiAction::ResetProfile),
        GuiCommand::InstallBackgroundAgent => {
            if mode == ServiceMode::Daemon {
                Err(GuiError::BackgroundServiceSelfModification)
            } else {
                step(GuiAction::InstallBackgroundAgent)
            }
        },
        GuiCommand::UninstallBackgroundAgent => {
            if mode == ServiceMode::Daemon {
                Err(GuiError::BackgroundServiceSelfModification)
            } else {
                step(GuiAction::UninstallBackgroundAgent)
            }
        },
        GuiCommand::BackgroundStatus => step(GuiAction::RefreshBackgroundStatus),
        GuiCommand::Quit => step(GuiAction::Quit),
    }
}

/// The status line after a refused command.
pub fn action_failed_status(error: &str) -> (r: String)
    ensures
        r@ == "Action failed: "@ + error@,
{
    let mut s = crate::text::string_of("Action failed: ");
    crate::text::push_str(&mut s, error);
    s
}

} // verus!
