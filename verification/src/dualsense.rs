//! Device identity and the value types sent to a DualSense.
use vstd::prelude::*;
use crate::text::{push_hex_fixed, spec_hex_fixed, push_decimal, spec_decimal, str_chars, ascii_lower, contains_seq, find_seq};

verus! {

pub const SONY_VENDOR_ID: u32 = 0x054c;
pub const DUALSENSE_PRODUCT_ID: u32 = 0x0ce6;
pub const DUALSENSE_EDGE_PRODUCT_ID: u32 = 0x0df2;

/// Hardware, firmware and feature versions read from the firmware feature report.
#[derive(Clone, Copy, Debug, PartialEq, Eq, Structural)]
pub struct FirmwareInfo {
    pub hardware_version: u32,
    pub firmware_version: u32,
    pub feature_version: u16,
}

impl FirmwareInfo {
    /// The hardware version as `0x` and eight lower-case hex digits.
    pub fn hardware_label(self) -> (s: String)
        ensures
            s@ == seq!['0', 'x'] + spec_hex_fixed(self.hardware_version as nat, 8),
    {
        let mut s = String::new();
        crate::text::push_char(&mut s, '0');
        crate::text::push_char(&mut s, 'x');
        push_hex_fixed(&mut s, self.hardware_version as u64, 8);
        s
    }

    /// The firmware version as `0x` and eight lower-case hex digits.
    pub fn firmware_label(self) -> (s: String)
        ensures
            s@ == seq!['0', 'x'] + spec_hex_fixed(self.firmware_version as nat, 8),
    {
        let mut s = String::new();
        crate::text::push_char(&mut s, '0');
        crate::text::push_char(&mut s, 'x');
        push_hex_fixed(&mut s, self.firmware_version as u64, 8);
        s
    }

    /// The feature version as `major.minor`, the high and the low byte in decimal.
    pub fn feature_label(self) -> (s: String)
        ensures
            s@ == spec_decimal(self.feature_version as nat / 256) + seq!['.'] + spec_decimal(
                self.feature_version as nat % 256,
            ),
    {
        let mut s = String::new();
        push_decimal(&mut s, (self.feature_version / 256) as u64);
        crate::text::push_char(&mut s, '.');
        push_decimal(&mut s, (self.feature_version % 256) as u64);
        s
    }
}

/// One connected controller as the HID layer describes it.
#[derive(Clone, Debug)]
pub struct DeviceInfo {
    pub name: String,
    pub vendor_id: u32,
    pub product_id: u32,
    pub transport: String,
    pub mac_address: Option<String>,
    pub firmware: Option<FirmwareInfo>,
    pub diagnostics_error: Option<String>,
}

impl DeviceInfo {
    /// The transport name mentions Bluetooth, in any letter case.
    pub open spec fn spec_is_bluetooth(&self) -> bool {
        contains_seq(ascii_lower(self.transport@), "bluetooth"@)
    }

    /// Whether the controller is connected over Bluetooth.
    pub fn is_bluetooth(&self) -> (r: bool)
        ensures
            r == self.spec_is_bluetooth(),
    {
        let chars = str_chars(self.transport.as_str());
        let lower = crate::text::lower_ascii_chars(&chars);
        let needle = str_chars("bluetooth");
        proof {
            reveal_strlit("bluetooth");
        }
        find_seq(&lower, &needle)
    }

    /// Whether this is a DualSense Edge.
    pub fn is_edge(&self) -> (r: bool)
        ensures
            r == (self.product_id == DUALSENSE_EDGE_PRODUCT_ID),
    {
        self.product_id == DUALSENSE_EDGE_PRODUCT_ID
    }

    /// USB audio is only offered away from Bluetooth.
    pub fn supports_usb_audio(&self) -> (r: bool)
        ensures
            r == !self.spec_is_bluetooth(),
    {
        !self.is_bluetooth()
    }
}

/// A Sony vendor ID together with the DualSense or DualSense Edge product ID.
pub fn is_supported_dualsense(vendor_id: u32, product_id: u32) -> (r: bool)
    ensures
        r == (vendor_id == SONY_VENDOR_ID && (product_id == DUALSENSE_PRODUCT_ID || product_id
            == DUALSENSE_EDGE_PRODUCT_ID)),
{
    vendor_id == SONY_VENDOR_ID && (product_id == DUALSENSE_PRODUCT_ID || product_id
        == DUALSENSE_EDGE_PRODUCT_ID)
}

/// The one level sent to both motors for a legacy pair of motor values: their
/// average, rounded up.
pub open spec fn shared_level(a: u8, b: u8) -> u8 {
    ((a as int + b as int + 1) / 2) as u8
}

fn average_up(a: u8, b: u8) -> (r: u8)
    ensures
        r == shared_level(a, b),
{
    ((a as u16 + b as u16 + 1) / 2) as u8
}

/// One timed step of a haptic pattern.
#[derive(Clone, Copy, Debug, PartialEq, Eq, Structural)]
pub struct HapticFrame {
    pub left: u8,
    pub right: u8,
    pub duration_ms: u64,
}

impl HapticFrame {
    pub fn new(left: u8, right: u8, duration_ms: u64) -> (f: Self)
        ensures
            f == (HapticFrame { left, right, duration_ms }),
    {
        HapticFrame { left, right, duration_ms }
    }

    /// Both motors at `strength`.
    pub fn symmetric(strength: u8, duration_ms: u64) -> (f: Self)
        ensures
            f == (HapticFrame { left: strength, right: strength, duration_ms }),
    {
        HapticFrame::new(strength, strength, duration_ms)
    }

    pub fn is_symmetric(self) -> (r: bool)
        ensures
            r == (self.left == self.right),
    {
        self.left == self.right
    }

    /// Both motors at the shared level of the two, same duration.
    pub fn symmetrized(self) -> (f: Self)
        ensures
            f == (HapticFrame {
                left: shared_level(self.left, self.right),
                right: shared_level(self.left, self.right),
                duration_ms: self.duration_ms,
            }),
    {
        HapticFrame::symmetric(average_up(self.left, self.right), self.duration_ms)
    }
}

/// One immediate motor command. The fields keep the HID channel names;
/// user-facing output drives both channels with one value.
#[derive(Clone, Copy, Debug, PartialEq, Eq, Structural)]
pub struct HapticOutput {
    pub heavy: u8,
    pub sharp: u8,
}

impl Default for HapticOutput {
    fn default() -> (o: Self)
        ensures
            o == (HapticOutput { heavy: 0, sharp: 0 }),
    {
        HapticOutput::off()
    }
}

impl HapticOutput {
    /// Both motors stopped.
    pub fn off() -> (o: Self)
        ensures
            o == (HapticOutput { heavy: 0, sharp: 0 }),
    {
        HapticOutput { heavy: 0, sharp: 0 }
    }

    pub fn new(heavy: u8, sharp: u8) -> (o: Self)
        ensures
            o == (HapticOutput { heavy, sharp }),
    {
        HapticOutput { heavy, sharp }
    }

    pub fn symmetric(strength: u8) -> (o: Self)
        ensures
            o == (HapticOutput { heavy: strength, sharp: strength }),
    {
        HapticOutput::new(strength, strength)
    }

    pub fn is_symmetric(self) -> (r: bool)
        ensures
            r == (self.heavy == self.sharp),
    {
        self.heavy == self.sharp
    }

    /// Both channels at the shared level of the two.
    pub fn symmetrized(self) -> (o: Self)
        ensures
            o == (HapticOutput {
                heavy: shared_level(self.heavy, self.sharp),
                sharp: shared_level(self.heavy, self.sharp),
            }),
    {
        HapticOutput::symmetric(average_up(self.heavy, self.sharp))
    }
}

/// Symmetrizing gives equal channels, changes nothing that is already
/// symmetric, and so applying it twice is the same as applying it once.
pub proof fn lemma_symmetrized(heavy: u8, sharp: u8)
    ensures
        shared_level(heavy, heavy) == heavy,
        shared_level(shared_level(heavy, sharp), shared_level(heavy, sharp)) == shared_level(
            heavy,
            sharp,
        ),
        heavy <= shared_level(heavy, sharp) <= sharp || sharp <= shared_level(heavy, sharp)
            <= heavy,
{
}

/// The eleven bytes of one adaptive-trigger effect block.
#[derive(Clone, Copy, Debug, PartialEq, Eq)]
pub struct AdaptiveTriggerEffect {
    pub bytes: [u8; 11],
}

impl AdaptiveTriggerEffect {
    /// All zero: the trigger motor is off.
    pub fn off() -> (e: Self)
        ensures
            e.bytes@ == Seq::new(11, |i: int| 0u8),
    {
        let e = AdaptiveTriggerEffect { bytes: [0u8; 11] };
        assert(e.bytes@ =~= Seq::new(11, |i: int| 0u8));
        e
    }

    pub fn from_bytes(bytes: [u8; 11]) -> (e: Self)
        ensures
            e.bytes == bytes,
    {
        AdaptiveTriggerEffect { bytes }
    }
}

} // verus!
