//! Adaptive-trigger effect encodings and the canned haptic patterns.
use vstd::prelude::*;
use crate::app_state::clamp_between;
use crate::dualsense::{AdaptiveTriggerEffect, HapticFrame};
use crate::model::{AdaptiveTriggerMode, AdaptiveTriggerPreset, HapticDemo};
use crate::profile::AdaptiveTriggerProfile;

verus! {

/// `base` raised to `e`.
pub open spec fn pow_of(base: nat, e: nat) -> nat
    decreases e,
{
    if e == 0 {
        1
    } else {
        base * pow_of(base, (e - 1) as nat)
    }
}

/// The bit mask of the zones whose strength is not zero: bit `i` for zone `i`.
pub open spec fn zones_mask(z: Seq<u8>) -> nat
    decreases z.len(),
{
    if z.len() == 0 {
        0
    } else {
        zones_mask(z.drop_last()) + if z.last() != 0 {
            pow_of(2, (z.len() - 1) as nat)
        } else {
            0
        }
    }
}

/// The three-bit strength fields of the active zones: field `i` holds the
/// strength of zone `i` (held to 1..=8) minus one.
pub open spec fn zones_packed(z: Seq<u8>) -> nat
    decreases z.len(),
{
    if z.len() == 0 {
        0
    } else {
        zones_packed(z.drop_last()) + if z.last() != 0 {
            ((clamp_between(z.last() as int, 1, 8) - 1) as nat) * pow_of(8, (z.len() - 1) as nat)
        } else {
            0
        }
    }
}

/// The ten-zone feedback block: mode byte, two mask bytes and four strength
/// bytes, least significant first, then zeros.
pub open spec fn spec_feedback_bytes(mode: u8, z: Seq<u8>) -> Seq<u8> {
    let m = zones_mask(z);
    let p = zones_packed(z);
    seq![
        mode,
        (m % 256) as u8,
        (m / 256) as u8,
        (p % 256) as u8,
        ((p / 256) % 256) as u8,
        ((p / 65536) % 256) as u8,
        (p / 16777216) as u8,
        0u8,
        0u8,
        0u8,
        0u8,
    ]
}

/// The 1..=8 resistance level for an 8-bit intensity.
pub open spec fn spec_trigger_strength(intensity: u8) -> u8 {
    (1 + (intensity as int * 7) / 255) as u8
}

fn trigger_strength(intensity: u8) -> (r: u8)
    ensures
        r == spec_trigger_strength(intensity),
        1 <= r <= 8,
{
    1 + (intensity as u16 * 7 / 255) as u8
}

fn clamp_u8(v: u8, lo: u8, hi: u8) -> (r: u8)
    requires
        lo <= hi,
    ensures
        r as int == clamp_between(v as int, lo as int, hi as int),
{
    if v < lo {
        lo
    } else if v > hi {
        hi
    } else {
        v
    }
}

fn pack_zones(zones: &Vec<u8>) -> (r: (u8, u8, u8, u8, u8, u8))
    requires
        zones.len() == 10,
    ensures
        seq![r.0, r.1, r.2, r.3, r.4, r.5] == spec_feedback_bytes(0, zones@).subrange(1, 7),
{
    let mut mask: u16 = 0;
    let mut packed: u32 = 0;
    let mut bit: u16 = 1;
    let mut factor: u32 = 1;
    let mut i: usize = 0;
    while i < 10
        invariant
            zones.len() == 10,
            i <= 10,
            bit as nat == pow_of(2, i as nat),
            factor as nat == pow_of(8, i as nat),
            mask as nat == zones_mask(zones@.subrange(0, i as int)),
            packed as nat == zones_packed(zones@.subrange(0, i as int)),
            mask < bit,
            packed < factor,
            bit <= 1024,
            factor <= 1073741824,
            i < 10 ==> factor <= 134217728,
        decreases 10 - i,
    {
        let ghost prefix = zones@.subrange(0, i as int);
        assert(zones@.subrange(0, i + 1).drop_last() =~= prefix);
        let strength = zones[i];
        if strength != 0 {
            let normalized = clamp_u8(strength, 1, 8) - 1;
            assert(normalized as u32 * factor <= 7 * factor) by (nonlinear_arith)
                requires
                    normalized <= 7,
            ;
            mask = mask + bit;
            packed = packed + normalized as u32 * factor;
        }
        proof {
            assert(pow_of(2, (i + 1) as nat) == 2 * pow_of(2, i as nat));
            assert(pow_of(8, (i + 1) as nat) == 8 * pow_of(8, i as nat));
            lemma_pow_values();
            lemma_pow_monotone(2, (i + 1) as nat, 10);
            lemma_pow_monotone(8, (i + 1) as nat, 10);
            if i + 1 < 10 {
                lemma_pow_monotone(8, (i + 1) as nat, 9);
            }
        }
        bit = bit * 2;
        factor = factor * 8;
        i = i + 1;
    }
    assert(zones@.subrange(0, 10) =~= zones@);
    (
        (mask % 256) as u8,
        (mask / 256) as u8,
        (packed % 256) as u8,
        ((packed / 256) % 256) as u8,
        ((packed / 65536) % 256) as u8,
        (packed / 16777216) as u8,
    )
}

/// Encodes per-zone resistance; zones of strength zero stay inactive.
fn feedback_effect(zones: &Vec<u8>) -> (e: AdaptiveTriggerEffect)
    requires
        zones.len() == 10,
    ensures
        e.bytes@ == spec_feedback_bytes(0x21, zones@),
{
    let p = pack_zones(zones);
    let e = AdaptiveTriggerEffect::from_bytes([0x21, p.0, p.1, p.2, p.3, p.4, p.5, 0, 0, 0, 0]);
    assert(e.bytes@ =~= spec_feedback_bytes(0x21, zones@));
    e
}

/// `strength` (held to 1..=8) over the zones `lo..=hi`, zero elsewhere.
pub open spec fn zone_run(lo: int, hi: int, strength: u8) -> Seq<u8> {
    Seq::new(10, |z: int| if lo <= z <= hi { clamp_between(strength as int, 1, 8) as u8 } else { 0u8 })
}

fn fill_zones(lo: u8, hi: u8, strength: u8) -> (zones: Vec<u8>)
    requires
        hi <= 9,
    ensures
        zones@ == zone_run(lo as int, hi as int, strength),
{
    let level = clamp_u8(strength, 1, 8);
    let mut zones: Vec<u8> = Vec::new();
    let mut z: u8 = 0;
    while z < 10
        invariant
            z <= 10,
            hi <= 9,
            level as int == clamp_between(strength as int, 1, 8),
            zones@ == zone_run(lo as int, hi as int, strength).subrange(0, z as int),
        decreases 10 - z,
    {
        if lo <= z && z <= hi {
            zones.push(level);
        } else {
            zones.push(0);
        }
        assert(zones@ =~= zone_run(lo as int, hi as int, strength).subrange(0, z + 1));
        z = z + 1;
    }
    assert(zones@ =~= zone_run(lo as int, hi as int, strength));
    zones
}

/// The zones of steady resistance from `start` to `end` (both held to the ten
/// zones, `end` no earlier than `start`).
pub open spec fn resistance_zones(start: u8, end: u8, strength: u8) -> Seq<u8> {
    let s = if start < 9 { start as int } else { 9 };
    let e = if end < s { s } else if end > 9 { 9 } else { end as int };
    zone_run(s, e, strength)
}

fn resistance_effect(start: u8, end: u8, strength: u8) -> (e: AdaptiveTriggerEffect)
    ensures
        e.bytes@ == spec_feedback_bytes(0x21, resistance_zones(start, end, strength)),
{
    let s = if start < 9 { start } else { 9 };
    let e = if end < s { s } else if end > 9 { 9 } else { end };
    let zones = fill_zones(s, e, strength);
    feedback_effect(&zones)
}

/// The strength of step `step` of a ramp of `span` steps up to `top`.
pub open spec fn progressive_level(step: int, top: int, span: int) -> u8 {
    clamp_between((step * top) / (span + 1), 1, 8) as u8
}

fn progressive_level_exec(step: u16, top: u8, span: u16) -> (r: u8)
    requires
        step <= 10,
        top <= 8,
        1 <= span <= 9,
    ensures
        r == progressive_level(step as int, top as int, span as int),
{
    assert(step * (top as u16) <= 80) by (nonlinear_arith)
        requires
            step <= 10,
            top <= 8,
    ;
    let level: u16 = (step * top as u16) / (span + 1);
    if level < 1 {
        1
    } else if level > 8 {
        8
    } else {
        level as u8
    }
}

/// Resistance that grows linearly across `start..=end` up to `max_strength`.
pub open spec fn progressive_zones(start: u8, end: u8, max_strength: u8) -> Seq<u8> {
    let s = if start < 9 { start as int } else { 9 };
    let e = if end < 9 { end as int } else { 9 };
    let span = if e - s > 1 { e - s } else { 1 };
    let top = clamp_between(max_strength as int, 1, 8);
    Seq::new(
        10,
        |z: int|
            if s <= z <= e {
                progressive_level(z - s + 1, top, span)
            } else {
                0u8
            },
    )
}

fn progressive_effect(start: u8, end: u8, max_strength: u8) -> (e: AdaptiveTriggerEffect)
    ensures
        e.bytes@ == spec_feedback_bytes(0x21, progressive_zones(start, end, max_strength)),
{
    let s: u8 = if start < 9 { start } else { 9 };
    let e: u8 = if end < 9 { end } else { 9 };
    let span: u16 = if e > s && e - s > 1 { (e - s) as u16 } else { 1 };
    let top = clamp_u8(max_strength, 1, 8);
    let ghost target = progressive_zones(start, end, max_strength);
    let mut zones: Vec<u8> = Vec::new();
    let mut z: u8 = 0;
    while z < 10
        invariant
            z <= 10,
            s == (if start < 9 { start } else { 9 }),
            e == (if end < 9 { end } else { 9 }),
            span as int == if e - s > 1 { e - s } else { 1 },
            top as int == clamp_between(max_strength as int, 1, 8),
            target == progressive_zones(start, end, max_strength),
            zones@ == target.subrange(0, z as int),
        decreases 10 - z,
    {
        if s <= z && z <= e {
            let step: u16 = (z - s + 1) as u16;
            let clamped = progressive_level_exec(step, top, span);
            zones.push(clamped);
        } else {
            zones.push(0);
        }
        assert(zones@ =~= target.subrange(0, z + 1));
        z = z + 1;
    }
    assert(zones@ =~= target);
    feedback_effect(&zones)
}

fn pow2_u16(e: u8) -> (r: u16)
    requires
        e < 16,
    ensures
        r as nat == pow_of(2, e as nat),
{
    let mut r: u16 = 1;
    let mut i: u8 = 0;
    while i < e
        invariant
            i <= e,
            e < 16,
            r as nat == pow_of(2, i as nat),
        decreases e - i,
    {
        proof {
            assert(pow_of(2, (i + 1) as nat) == 2 * pow_of(2, i as nat));
            lemma_pow_monotone(2, (i + 1) as nat, 15);
            lemma_pow_values();
        }
        r = r * 2;
        i = i + 1;
    }
    r
}

proof fn lemma_pow_monotone(base: nat, a: nat, b: nat)
    requires
        base >= 1,
        a <= b,
    ensures
        pow_of(base, a) <= pow_of(base, b),
    decreases b,
{
    if a < b {
        lemma_pow_monotone(base, a, (b - 1) as nat);
        assert(pow_of(base, b) == base * pow_of(base, (b - 1) as nat));
        assert(pow_of(base, (b - 1) as nat) <= base * pow_of(base, (b - 1) as nat)) by (nonlinear_arith)
            requires
                base >= 1,
        ;
    }
}

proof fn lemma_pow_values()
    ensures
        pow_of(2, 7) == 128,
        pow_of(2, 8) == 256,
        pow_of(2, 15) == 32768,
        pow_of(2, 10) == 1024,
        pow_of(8, 9) == 134217728,
        pow_of(8, 10) == 1073741824,
{
    reveal_with_fuel(pow_of, 16);
}

/// The weapon-style "wall then release" block: zones `start` (held to 2..=7)
/// and `end` (held to just after `start` up to 8) and one strength level.
pub open spec fn spec_weapon_bytes(start: u8, end: u8, strength: u8) -> Seq<u8> {
    let s = clamp_between(start as int, 2, 7);
    let e = clamp_between(end as int, s + 1, 8);
    let zones = pow_of(2, s as nat) + pow_of(2, e as nat);
    seq![
        0x25u8,
        (zones % 256) as u8,
        (zones / 256) as u8,
        (clamp_between(strength as int, 1, 8) - 1) as u8,
        0u8,
        0u8,
        0u8,
        0u8,
        0u8,
        0u8,
        0u8,
    ]
}

pub fn weapon_effect(start: u8, end: u8, strength: u8) -> (e: AdaptiveTriggerEffect)
    ensures
        e.bytes@ == spec_weapon_bytes(start, end, strength),
{
    let s = clamp_u8(start, 2, 7);
    let e = clamp_u8(end, s + 1, 8);
    proof {
        lemma_pow_monotone(2, s as nat, 7);
        lemma_pow_monotone(2, e as nat, 8);
        lemma_pow_values();
    }
    let zones: u16 = pow2_u16(s) + pow2_u16(e);
    let level = clamp_u8(strength, 1, 8) - 1;
    let eff = AdaptiveTriggerEffect::from_bytes(
        [0x25, (zones % 256) as u8, (zones / 256) as u8, level, 0, 0, 0, 0, 0, 0, 0],
    );
    assert(eff.bytes@ =~= spec_weapon_bytes(start, end, strength));
    eff
}

/// The persistent vibration block: zones from `start` (held to the ten zones)
/// to the end at one strength, and the frequency in byte 9.
pub open spec fn spec_vibration_bytes(start: u8, strength: u8, frequency: u8) -> Seq<u8> {
    let s = if start < 9 { start as int } else { 9 };
    spec_feedback_bytes(0x26, zone_run(s, 9, strength)).update(9, frequency)
}

pub fn vibration_effect(start: u8, strength: u8, frequency: u8) -> (e: AdaptiveTriggerEffect)
    ensures
        e.bytes@ == spec_vibration_bytes(start, strength, frequency),
{
    let s = if start < 9 { start } else { 9 };
    let zones = fill_zones(s, 9, strength);
    let p = pack_zones(&zones);
    let e = AdaptiveTriggerEffect::from_bytes(
        [0x26, p.0, p.1, p.2, p.3, p.4, p.5, 0, 0, frequency, 0],
    );
    assert(e.bytes@ =~= spec_vibration_bytes(start, strength, frequency));
    e
}

/// The effect bytes of a named preset at an 8-bit intensity.
pub open spec fn spec_trigger_effect_for(preset: AdaptiveTriggerPreset, intensity: u8) -> Seq<u8> {
    let strength = spec_trigger_strength(intensity);
    match preset {
        AdaptiveTriggerPreset::Off => Seq::new(11, |i: int| 0u8),
        AdaptiveTriggerPreset::Bow => spec_feedback_bytes(0x21, progressive_zones(2, 9, strength)),
        AdaptiveTriggerPreset::MachineGun => spec_vibration_bytes(0, strength, 38),
        AdaptiveTriggerPreset::Pistol => spec_weapon_bytes(2, 5, strength),
        AdaptiveTriggerPreset::Rigid => spec_feedback_bytes(0x21, resistance_zones(1, 9, strength)),
        AdaptiveTriggerPreset::Brake => spec_feedback_bytes(0x21, resistance_zones(5, 9, strength)),
        AdaptiveTriggerPreset::Pulse => spec_vibration_bytes(1, strength, 16),
        AdaptiveTriggerPreset::Click => spec_weapon_bytes(1, 3, strength),
    }
}

/// The resistance level follows the intensity: level 1 at intensity 0,
/// level 8 at full intensity, never falling as the intensity rises, and
/// one level for each seventh of the intensity range,
/// `1 + intensity * 7 / 255`.
pub proof fn lemma_trigger_strength_follows_intensity(i: u8, j: u8)
    ensures
        spec_trigger_strength(0) == 1,
        spec_trigger_strength(255) == 8,
        1 <= spec_trigger_strength(i) <= 8,
        spec_trigger_strength(i) as int == 1 + (i as int * 7) / 255,
        i <= j ==> spec_trigger_strength(i) <= spec_trigger_strength(j),
{
    assert(0 <= (i as int * 7) / 255 <= 7) by (nonlinear_arith)
        requires
            0 <= i <= 255,
    ;
    assert(0 <= (j as int * 7) / 255 <= 7) by (nonlinear_arith)
        requires
            0 <= j <= 255,
    ;
    if i <= j {
        assert((i as int * 7) / 255 <= (j as int * 7) / 255) by (nonlinear_arith)
            requires
                0 <= i <= j,
        ;
    }
}

/// The weapon presets (Pistol, Click) send the level less one as their
/// strength byte: 0 at intensity 0, 7 at full intensity, rising with the
/// intensity, so a stronger setting never gives a weaker trigger.
pub proof fn lemma_weapon_preset_strength_byte(preset: AdaptiveTriggerPreset, i: u8, j: u8)
    requires
        preset == AdaptiveTriggerPreset::Pistol || preset == AdaptiveTriggerPreset::Click,
    ensures
        spec_trigger_effect_for(preset, i).len() == 11,
        spec_trigger_effect_for(preset, i)[0] == 0x25,
        spec_trigger_effect_for(preset, i)[3] as int == (i as int * 7) / 255,
        spec_trigger_effect_for(preset, 0)[3] == 0,
        spec_trigger_effect_for(preset, 255)[3] == 7,
        i <= j ==> spec_trigger_effect_for(preset, i)[3] <= spec_trigger_effect_for(preset, j)[3],
{
    lemma_trigger_strength_follows_intensity(i, j);
    lemma_trigger_strength_follows_intensity(0, 255);
}

/// The effect of a named preset at an 8-bit intensity.
pub fn trigger_effect_for(preset: AdaptiveTriggerPreset, intensity: u8) -> (e: AdaptiveTriggerEffect)
    ensures
        e.bytes@ == spec_trigger_effect_for(preset, intensity),
{
    let strength = trigger_strength(intensity);
    match preset {
        AdaptiveTriggerPreset::Off => AdaptiveTriggerEffect::off(),
        AdaptiveTriggerPreset::Bow => progressive_effect(2, 9, strength),
        AdaptiveTriggerPreset::MachineGun => vibration_effect(0, strength, 38),
        AdaptiveTriggerPreset::Pistol => weapon_effect(2, 5, strength),
        AdaptiveTriggerPreset::Rigid => resistance_effect(1, 9, strength),
        AdaptiveTriggerPreset::Brake => resistance_effect(5, 9, strength),
        AdaptiveTriggerPreset::Pulse => vibration_effect(1, strength, 16),
        AdaptiveTriggerPreset::Click => weapon_effect(1, 3, strength),
    }
}

/// The effect bytes a trigger profile selects: its preset, or custom
/// resistance from `start_position` to `end_position`, or custom vibration
/// from `start_position` at `frequency` (at least 1).
pub open spec fn spec_trigger_effect_for_profile(p: AdaptiveTriggerProfile) -> Seq<u8> {
    match p.mode {
        AdaptiveTriggerMode::Preset => spec_trigger_effect_for(p.preset, p.intensity),
        AdaptiveTriggerMode::Resistance => spec_feedback_bytes(
            0x21,
            resistance_zones(
                p.start_position,
                if p.end_position > p.start_position { p.end_position } else { p.start_position },
                spec_trigger_strength(p.intensity),
            ),
        ),
        AdaptiveTriggerMode::Vibration => spec_vibration_bytes(
            p.start_position,
            spec_trigger_strength(p.intensity),
            if p.frequency > 1 { p.frequency } else { 1 },
        ),
    }
}

/// The effect a trigger profile selects.
pub fn trigger_effect_for_profile(profile: &AdaptiveTriggerProfile) -> (e: AdaptiveTriggerEffect)
    ensures
        e.bytes@ == spec_trigger_effect_for_profile(*profile),
{
    match profile.mode {
        AdaptiveTriggerMode::Preset => trigger_effect_for(profile.preset, profile.intensity),
        AdaptiveTriggerMode::Resistance => resistance_effect(
            profile.start_position,
            if profile.end_position > profile.start_position {
                profile.end_position
            } else {
                profile.start_position
            },
            trigger_strength(profile.intensity),
        ),
        AdaptiveTriggerMode::Vibration => vibration_effect(
            profile.start_position,
            trigger_strength(profile.intensity),
            if profile.frequency > 1 { profile.frequency } else { 1 },
        ),
    }
}

/// The timed frames of a canned haptic pattern.
pub open spec fn spec_demo_frames(demo: HapticDemo) -> Seq<HapticFrame> {
    let f = |s: u8, d: u64| HapticFrame { left: s, right: s, duration_ms: d };
    match demo {
        HapticDemo::Click => seq![f(70, 45)],
        HapticDemo::Thump => seq![f(230, 170)],
        HapticDemo::Buzz => seq![f(170, 35), f(0, 25), f(190, 35), f(0, 25), f(210, 45)],
        HapticDemo::Heartbeat => seq![f(210, 110), f(0, 120), f(255, 150)],
        HapticDemo::Sweep => seq![f(25, 85), f(95, 85), f(155, 85), f(210, 120)],
        HapticDemo::Impact => seq![f(255, 140), f(0, 70)],
        HapticDemo::Tap => seq![f(220, 140), f(0, 70)],
        HapticDemo::PulseTrain => seq![
            f(220, 90),
            f(0, 45),
            f(140, 90),
            f(0, 45),
            f(220, 90),
            f(0, 45),
            f(140, 90),
            f(0, 70),
        ],
    }
}

/// The frames of a canned haptic pattern.
pub fn demo_frames(demo: HapticDemo) -> (frames: Vec<HapticFrame>)
    ensures
        frames@ == spec_demo_frames(demo),
{
    let frames = match demo {
        HapticDemo::Click => vec![HapticFrame::symmetric(70, 45)],
        HapticDemo::Thump => vec![HapticFrame::symmetric(230, 170)],
        HapticDemo::Buzz => vec![
            HapticFrame::symmetric(170, 35),
            HapticFrame::symmetric(0, 25),
            HapticFrame::symmetric(190, 35),
            HapticFrame::symmetric(0, 25),
            HapticFrame::symmetric(210, 45),
        ],
        HapticDemo::Heartbeat => vec![
            HapticFrame::symmetric(210, 110),
            HapticFrame::symmetric(0, 120),
            HapticFrame::symmetric(255, 150),
        ],
        HapticDemo::Sweep => vec![
            HapticFrame::symmetric(25, 85),
            HapticFrame::symmetric(95, 85),
            HapticFrame::symmetric(155, 85),
            HapticFrame::symmetric(210, 120),
        ],
        HapticDemo::Impact => vec![HapticFrame::symmetric(255, 140), HapticFrame::symmetric(0, 70)],
        HapticDemo::Tap => vec![HapticFrame::symmetric(220, 140), HapticFrame::symmetric(0, 70)],
        HapticDemo::PulseTrain => vec![
            HapticFrame::symmetric(220, 90),
            HapticFrame::symmetric(0, 45),
            HapticFrame::symmetric(140, 90),
            HapticFrame::symmetric(0, 45),
            HapticFrame::symmetric(220, 90),
            HapticFrame::symmetric(0, 45),
            HapticFrame::symmetric(140, 90),
            HapticFrame::symmetric(0, 70),
        ],
    };
    assert(frames@ =~= spec_demo_frames(demo));
    frames
}

/// Every frame of every canned pattern drives both motors with the same value.
pub proof fn lemma_demo_frames_symmetric(demo: HapticDemo, i: int)
    requires
        0 <= i < spec_demo_frames(demo).len(),
    ensures
        spec_demo_frames(demo)[i].left == spec_demo_frames(demo)[i].right,
{
}

} // verus!
