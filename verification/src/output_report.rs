//! Encoding of DualSense output reports for USB and Bluetooth.
use vstd::prelude::*;
use crate::crc::{ds_crc, ds_crc_prefix, le_bytes_u32, u32_le_bytes};
use crate::dualsense::{shared_level, AdaptiveTriggerEffect};
use crate::model::{AudioRoute, Rgb};
use crate::profile::SystemProfile;

verus! {

pub const DS_USB_OUTPUT_REPORT_ID: u8 = 0x02;
pub const DS_USB_OUTPUT_REPORT_LEN: usize = 63;
pub const DS_BT_OUTPUT_REPORT_ID: u8 = 0x31;
pub const DS_BT_OUTPUT_REPORT_LEN: usize = 78;
pub const DS_BT_OUTPUT_TAG: u8 = 0x10;
pub const DS_BT_CRC_SEED: u8 = 0xa2;

pub const DS_OUTPUT_VALID_FLAG0_COMPATIBLE_VIBRATION: u8 = 0x01;
pub const DS_OUTPUT_VALID_FLAG0_HAPTICS_SELECT: u8 = 0x02;
pub const DS_OUTPUT_VALID_FLAG0_RIGHT_TRIGGER_EFFECT: u8 = 0x04;
pub const DS_OUTPUT_VALID_FLAG0_LEFT_TRIGGER_EFFECT: u8 = 0x08;
pub const DS_OUTPUT_VALID_FLAG0_SPEAKER_VOLUME_ENABLE: u8 = 0x20;
pub const DS_OUTPUT_VALID_FLAG0_MIC_VOLUME_ENABLE: u8 = 0x40;
pub const DS_OUTPUT_VALID_FLAG0_AUDIO_CONTROL_ENABLE: u8 = 0x80;
pub const DS_OUTPUT_VALID_FLAG1_MIC_MUTE_LED_CONTROL_ENABLE: u8 = 0x01;
pub const DS_OUTPUT_VALID_FLAG1_POWER_SAVE_CONTROL_ENABLE: u8 = 0x02;
pub const DS_OUTPUT_VALID_FLAG1_LIGHTBAR_CONTROL_ENABLE: u8 = 0x04;
pub const DS_OUTPUT_VALID_FLAG1_PLAYER_INDICATOR_CONTROL_ENABLE: u8 = 0x10;
pub const DS_OUTPUT_VALID_FLAG2_LIGHTBAR_SETUP_CONTROL_ENABLE: u8 = 0x02;
pub const DS_OUTPUT_VALID_FLAG2_COMPATIBLE_VIBRATION2: u8 = 0x04;
pub const DS_OUTPUT_LIGHTBAR_SETUP_LIGHT_OUT: u8 = 0x02;
pub const DS_OUTPUT_POWER_SAVE_CONTROL_MIC_MUTE: u8 = 0x10;
pub const DS_OUTPUT_AUDIO_ROUTE_HEADPHONES: u8 = 0;
pub const DS_OUTPUT_AUDIO_ROUTE_SPEAKER: u8 = 0x30;

pub const OFFSET_VALID_FLAG0: usize = 0;
pub const OFFSET_VALID_FLAG1: usize = 1;
pub const OFFSET_MOTOR_RIGHT: usize = 2;
pub const OFFSET_MOTOR_LEFT: usize = 3;
pub const OFFSET_SPEAKER_VOLUME: usize = 5;
pub const OFFSET_MIC_VOLUME: usize = 6;
pub const OFFSET_AUDIO_CONTROL: usize = 7;
pub const OFFSET_MUTE_BUTTON_LED: usize = 8;
pub const OFFSET_POWER_SAVE_CONTROL: usize = 9;
pub const OFFSET_RIGHT_TRIGGER_EFFECT: usize = 10;
pub const OFFSET_LEFT_TRIGGER_EFFECT: usize = 21;
pub const OFFSET_VALID_FLAG2: usize = 38;
pub const OFFSET_LIGHTBAR_SETUP: usize = 41;
pub const OFFSET_PLAYER_LEDS: usize = 43;
pub const OFFSET_LIGHTBAR_RED: usize = 44;
pub const OFFSET_LIGHTBAR_GREEN: usize = 45;
pub const OFFSET_LIGHTBAR_BLUE: usize = 46;

/// How the controller is connected.
#[derive(Clone, Copy, Debug, PartialEq, Eq, Structural)]
pub enum TransportKind {
    Usb,
    Bluetooth,
}

/// Whether a report also runs the one-time lightbar setup.
#[derive(Clone, Copy, Debug, PartialEq, Eq, Structural)]
pub enum LightbarSetup {
    Keep,
    EnableLightOut,
}

/// Where the common output fields start: after the report ID on USB, after
/// the report ID, sequence and tag bytes on Bluetooth.
pub open spec fn spec_common_offset(t: TransportKind) -> int {
    match t {
        TransportKind::Usb => 1,
        TransportKind::Bluetooth => 3,
    }
}

pub fn output_common_offset(transport: TransportKind) -> (r: usize)
    ensures
        r as int == spec_common_offset(transport),
{
    match transport {
        TransportKind::Usb => 1,
        TransportKind::Bluetooth => 3,
    }
}

/// Valid-flag bits 0..=1 for a motor command: haptics select, plus the
/// compatible-vibration bit unless audio haptics are used.
pub open spec fn haptic_flag0(haptics: Option<(u8, u8, bool)>) -> u8 {
    match haptics {
        Some((_, _, audio)) => if audio { 0x02u8 } else { 0x03u8 },
        None => 0u8,
    }
}

/// Valid-flag bits for both trigger effect blocks.
pub open spec fn trigger_flag0(triggers: Option<(AdaptiveTriggerEffect, AdaptiveTriggerEffect)>) -> u8 {
    if triggers is Some { 0x0cu8 } else { 0u8 }
}

/// Valid-flag-2 bits: lightbar setup, and vibration v2 for audio haptics.
pub open spec fn flag2(haptics: Option<(u8, u8, bool)>, setup: LightbarSetup) -> u8 {
    (if setup == LightbarSetup::EnableLightOut { 0x02u8 } else { 0u8 }) | (match haptics {
        Some((_, _, audio)) => if audio { 0x04u8 } else { 0u8 },
        None => 0u8,
    })
}

/// Byte `i` of the common output fields.
pub open spec fn body_byte(
    lightbar: Option<Rgb>,
    haptics: Option<(u8, u8, bool)>,
    setup: LightbarSetup,
    triggers: Option<(AdaptiveTriggerEffect, AdaptiveTriggerEffect)>,
    i: int,
) -> u8 {
    if i == 0 {
        haptic_flag0(haptics) | trigger_flag0(triggers)
    } else if i == 1 {
        if lightbar is Some { 0x04u8 } else { 0u8 }
    } else if i == 2 || i == 3 {
        match haptics {
            Some((l, r, _)) => shared_level(l, r),
            None => 0u8,
        }
    } else if 10 <= i < 21 {
        match triggers {
            Some((_, right)) => right.bytes@[i - 10],
            None => 0u8,
        }
    } else if 21 <= i < 32 {
        match triggers {
            Some((left, _)) => left.bytes@[i - 21],
            None => 0u8,
        }
    } else if i == 38 {
        flag2(haptics, setup)
    } else if i == 41 {
        if setup == LightbarSetup::EnableLightOut { 0x02u8 } else { 0u8 }
    } else if i == 44 {
        match lightbar { Some(c) => c.r, None => 0u8 }
    } else if i == 45 {
        match lightbar { Some(c) => c.g, None => 0u8 }
    } else if i == 46 {
        match lightbar { Some(c) => c.b, None => 0u8 }
    } else {
        0u8
    }
}

/// `len` bytes of common output fields; every field not requested is zero.
pub open spec fn output_body(
    lightbar: Option<Rgb>,
    haptics: Option<(u8, u8, bool)>,
    setup: LightbarSetup,
    triggers: Option<(AdaptiveTriggerEffect, AdaptiveTriggerEffect)>,
    len: nat,
) -> Seq<u8> {
    Seq::new(len, |i: int| body_byte(lightbar, haptics, setup, triggers, i))
}

/// `report` with its last four bytes replaced by the checksum of the rest.
pub open spec fn with_bluetooth_crc(report: Seq<u8>) -> Seq<u8> {
    let body = report.subrange(0, report.len() - 4);
    body + le_bytes_u32(ds_crc(DS_BT_CRC_SEED, body))
}

/// A complete output report. USB: report ID and 62 bytes of fields.
/// Bluetooth: report ID, the sequence number in the high nibble, the tag,
/// 71 bytes of fields and the checksum of all that.
pub open spec fn spec_output_report(
    transport: TransportKind,
    sequence: u8,
    lightbar: Option<Rgb>,
    haptics: Option<(u8, u8, bool)>,
    setup: LightbarSetup,
    triggers: Option<(AdaptiveTriggerEffect, AdaptiveTriggerEffect)>,
) -> Seq<u8> {
    match transport {
        TransportKind::Usb => seq![DS_USB_OUTPUT_REPORT_ID] + output_body(lightbar, haptics, setup, triggers, 62),
        TransportKind::Bluetooth => {
            let head = seq![DS_BT_OUTPUT_REPORT_ID, ((sequence % 16) * 16) as u8, DS_BT_OUTPUT_TAG]
                + output_body(lightbar, haptics, setup, triggers, 71);
            head + le_bytes_u32(ds_crc(DS_BT_CRC_SEED, head))
        },
    }
}

/// Replaces the last four bytes of a Bluetooth report with the checksum of
/// the bytes before them.
pub fn append_bluetooth_crc(report: &mut Vec<u8>)
    requires
        old(report)@.len() >= 4,
    ensures
        final(report)@ == with_bluetooth_crc(old(report)@),
{
    let crc_start = report.len() - 4;
    let crc = ds_crc_prefix(DS_BT_CRC_SEED, report.as_slice(), crc_start);
    let bytes = u32_le_bytes(crc);
    report[crc_start] = bytes[0];
    report[crc_start + 1] = bytes[1];
    report[crc_start + 2] = bytes[2];
    report[crc_start + 3] = bytes[3];
    assert(report@ =~= with_bluetooth_crc(old(report)@));
}

fn zeros(len: usize) -> (v: Vec<u8>)
    ensures
        v@ == Seq::new(len as nat, |i: int| 0u8),
{
    let mut v: Vec<u8> = Vec::new();
    let mut i: usize = 0;
    while i < len
        invariant
            i <= len,
            v@ == Seq::new(i as nat, |k: int| 0u8),
        decreases len - i,
    {
        v.push(0);
        assert(v@ =~= Seq::new((i + 1) as nat, |k: int| 0u8));
        i = i + 1;
    }
    v
}

fn build_body(
    len: usize,
    lightbar: Option<Rgb>,
    haptics: Option<(u8, u8, bool)>,
    setup: LightbarSetup,
    triggers: Option<(AdaptiveTriggerEffect, AdaptiveTriggerEffect)>,
) -> (body: Vec<u8>)
    requires
        47 <= len <= 75,
    ensures
        body@ == output_body(lightbar, haptics, setup, triggers, len as nat),
{
    let mut body = zeros(len);
    let h0: u8 = match haptics {
        Some((_, _, audio)) => if audio { 0x02 } else { 0x03 },
        None => 0,
    };
    let t0: u8 = match triggers {
        Some(_) => 0x0c,
        None => 0,
    };
    body[OFFSET_VALID_FLAG0] = h0 | t0;
    body[OFFSET_VALID_FLAG1] = match lightbar {
        Some(_) => 0x04,
        None => 0,
    };
    let level: u8 = match haptics {
        Some((l, r, _)) => ((l as u16 + r as u16 + 1) / 2) as u8,
        None => 0,
    };
    body[OFFSET_MOTOR_RIGHT] = level;
    body[OFFSET_MOTOR_LEFT] = level;
    let s2: u8 = match setup {
        LightbarSetup::EnableLightOut => 0x02,
        LightbarSetup::Keep => 0,
    };
    let v2: u8 = match haptics {
        Some((_, _, audio)) => if audio { 0x04 } else { 0 },
        None => 0,
    };
    body[OFFSET_VALID_FLAG2] = s2 | v2;
    body[OFFSET_LIGHTBAR_SETUP] = s2;
    match lightbar {
        Some(c) => {
            body[OFFSET_LIGHTBAR_RED] = c.r;
            body[OFFSET_LIGHTBAR_GREEN] = c.g;
            body[OFFSET_LIGHTBAR_BLUE] = c.b;
        },
        None => {},
    }
    let ghost target = output_body(lightbar, haptics, setup, triggers, len as nat);
    assert forall|j: int| 0 <= j < len && !(10 <= j < 32) implies body@[j] == target[j] by {}
    match triggers {
        Some((left, right)) => {
            let mut k: usize = 0;
            while k < 11
                invariant
                    k <= 11,
                    47 <= len <= 75,
                    body@.len() == len,
                    target == output_body(lightbar, haptics, setup, triggers, len as nat),
                    triggers == Some((left, right)),
                    forall|j: int| 0 <= j < len && !(10 <= j < 10 + k) && !(21 <= j < 21 + k) && !(
                        10 + k <= j < 21) && !(21 + k <= j < 32) ==> body@[j] == target[j],
                    forall|j: int| 10 <= j < 10 + k ==> body@[j] == target[j],
                    forall|j: int| 21 <= j < 21 + k ==> body@[j] == target[j],
                decreases 11 - k,
            {
                body[OFFSET_RIGHT_TRIGGER_EFFECT + k] = right.bytes[k];
                body[OFFSET_LEFT_TRIGGER_EFFECT + k] = left.bytes[k];
                k = k + 1;
            }
        },
        None => {},
    }
    assert(body@ =~= target);
    body
}

/// Builds one output report carrying the requested lightbar colour, motor
/// levels (both motors at the shared level of the pair), lightbar setup and
/// trigger effects; Bluetooth reports carry `sequence` and their checksum.
pub fn build_output_report(
    transport: TransportKind,
    sequence: u8,
    lightbar: Option<Rgb>,
    haptics: Option<(u8, u8, bool)>,
    lightbar_setup: LightbarSetup,
    adaptive_triggers: Option<(AdaptiveTriggerEffect, AdaptiveTriggerEffect)>,
) -> (report: Vec<u8>)
    ensures
        report@ == spec_output_report(transport, sequence, lightbar, haptics, lightbar_setup, adaptive_triggers),
        report@.len() == if transport == TransportKind::Usb { 63int } else { 78 },
{
    let mut report: Vec<u8> = Vec::new();
    match transport {
        TransportKind::Usb => {
            report.push(DS_USB_OUTPUT_REPORT_ID);
            let mut body = build_body(62, lightbar, haptics, lightbar_setup, adaptive_triggers);
            report.append(&mut body);
            assert(report@ =~= spec_output_report(transport, sequence, lightbar, haptics, lightbar_setup, adaptive_triggers));
        },
        TransportKind::Bluetooth => {
            report.push(DS_BT_OUTPUT_REPORT_ID);
            report.push((sequence % 16) * 16);
            report.push(DS_BT_OUTPUT_TAG);
            let mut body = build_body(71, lightbar, haptics, lightbar_setup, adaptive_triggers);
            report.append(&mut body);
            let ghost head = report@;
            assert(head =~= seq![DS_BT_OUTPUT_REPORT_ID, ((sequence % 16) * 16) as u8, DS_BT_OUTPUT_TAG]
                + output_body(lightbar, haptics, lightbar_setup, adaptive_triggers, 71));
            let crc = ds_crc_prefix(DS_BT_CRC_SEED, report.as_slice(), 74);
            let bytes = u32_le_bytes(crc);
            assert(report@.subrange(0, 74) =~= report@);
            report.push(bytes[0]);
            report.push(bytes[1]);
            report.push(bytes[2]);
            report.push(bytes[3]);
            assert(report@ =~= head + le_bytes_u32(crc));
        },
    }
    report
}

/// The audio-route byte for a route, when the route changes anything.
pub open spec fn audio_route_byte(route: AudioRoute) -> Option<u8> {
    match route {
        AudioRoute::Unchanged => None,
        AudioRoute::Headphones => Some(DS_OUTPUT_AUDIO_ROUTE_HEADPHONES),
        AudioRoute::Speaker => Some(DS_OUTPUT_AUDIO_ROUTE_SPEAKER),
    }
}

/// `report` with the system controls written at `off`: player LEDs, mute LED
/// and power-save mute, speaker volume, microphone volume (at most 0x40) and,
/// when it changes, the audio route, each with its valid flag.
pub open spec fn spec_system_controls_applied(report: Seq<u8>, off: int, system: SystemProfile) -> Seq<u8> {
    let r1 = report.update(off + 1, report[off + 1] | 0x13).update(
        off + 43,
        system.player_indicator.spec_led_mask(),
    ).update(off + 8, if system.microphone_muted { 1u8 } else { 0u8 }).update(
        off + 9,
        if system.microphone_muted { DS_OUTPUT_POWER_SAVE_CONTROL_MIC_MUTE } else { 0u8 },
    );
    let r2 = r1.update(off, r1[off] | 0x60).update(off + 5, system.speaker_volume).update(
        off + 6,
        if system.microphone_volume > 0x40 { 0x40u8 } else { system.microphone_volume },
    );
    match audio_route_byte(system.audio_route) {
        Some(b) => r2.update(off, r2[off] | 0x80).update(off + 7, b),
        None => r2,
    }
}

/// Writes the system controls into an output report whose common fields
/// start at `common_offset`.
pub fn apply_system_controls(report: &mut Vec<u8>, common_offset: usize, system: &SystemProfile)
    requires
        common_offset + 47 <= old(report).len(),
    ensures
        final(report)@ == spec_system_controls_applied(old(report)@, common_offset as int, *system),
{
    let off = common_offset;
    let f1 = report[off + OFFSET_VALID_FLAG1] | 0x13;
    report[off + OFFSET_VALID_FLAG1] = f1;
    report[off + OFFSET_PLAYER_LEDS] = system.player_indicator.led_mask();
    report[off + OFFSET_MUTE_BUTTON_LED] = if system.microphone_muted { 1 } else { 0 };
    report[off + OFFSET_POWER_SAVE_CONTROL] = if system.microphone_muted {
        DS_OUTPUT_POWER_SAVE_CONTROL_MIC_MUTE
    } else {
        0
    };
    let f0 = report[off + OFFSET_VALID_FLAG0] | 0x60;
    report[off + OFFSET_VALID_FLAG0] = f0;
    report[off + OFFSET_SPEAKER_VOLUME] = system.speaker_volume;
    report[off + OFFSET_MIC_VOLUME] = if system.microphone_volume > 0x40 {
        0x40
    } else {
        system.microphone_volume
    };
    let route: Option<u8> = match system.audio_route {
        AudioRoute::Unchanged => None,
        AudioRoute::Headphones => Some(DS_OUTPUT_AUDIO_ROUTE_HEADPHONES),
        AudioRoute::Speaker => Some(DS_OUTPUT_AUDIO_ROUTE_SPEAKER),
    };
    match route {
        Some(b) => {
            let f = report[off + OFFSET_VALID_FLAG0] | 0x80;
            report[off + OFFSET_VALID_FLAG0] = f;
            report[off + OFFSET_AUDIO_CONTROL] = b;
        },
        None => {},
    }
    assert(report@ =~= spec_system_controls_applied(old(report)@, common_offset as int, *system));
}

/// The report that applies the system controls: a plain report with the
/// controls written in, and on Bluetooth the checksum computed afresh.
pub open spec fn spec_system_controls_report(transport: TransportKind, sequence: u8, system: SystemProfile) -> Seq<u8> {
    let base = spec_output_report(transport, sequence, None, None, LightbarSetup::Keep, None);
    let applied = spec_system_controls_applied(base, spec_common_offset(transport), system);
    match transport {
        TransportKind::Usb => applied,
        TransportKind::Bluetooth => with_bluetooth_crc(applied),
    }
}

/// Builds the output report that sets player LEDs, microphone mute, volumes
/// and audio route.
pub fn build_system_controls_report(transport: TransportKind, sequence: u8, system: &SystemProfile) -> (report: Vec<u8>)
    ensures
        report@ == spec_system_controls_report(transport, sequence, *system),
{
    let mut report = build_output_report(transport, sequence, None, None, LightbarSetup::Keep, None);
    apply_system_controls(&mut report, output_common_offset(transport), system);
    match transport {
        TransportKind::Usb => {},
        TransportKind::Bluetooth => append_bluetooth_crc(&mut report),
    }
    report
}

/// The running Bluetooth output sequence number; only its low four bits are sent.
pub struct OutputSequence {
    pub value: u8,
}

impl OutputSequence {
    pub fn new() -> (s: Self)
        ensures
            s.value == 0,
    {
        OutputSequence { value: 0 }
    }

    /// Returns the current sequence number (mod 16) and advances by one, wrapping at 16.
    pub fn next_sequence(&mut self) -> (r: u8)
        ensures
            r == old(self).value % 16,
            final(self).value == (old(self).value as int + 1) % 16,
    {
        let r = self.value % 16;
        self.value = ((self.value as u16 + 1) % 16) as u8;
        r
    }
}

/// Successive sequence numbers count up by one modulo 16.
pub proof fn lemma_sequence_cycles(v: u8)
    ensures
        ((v as int + 1) % 16) % 16 == ((v as int % 16) + 1) % 16,
{
}

} // verus!
