//! The controller and profile model: colours, buttons, input state and the
//! cyclic option lists the configurator offers.
use vstd::prelude::*;

verus! {

/// A lightbar colour.
#[derive(Clone, Copy, Debug, PartialEq, Eq, Structural)]
pub struct Rgb {
    pub r: u8,
    pub g: u8,
    pub b: u8,
}

/// `value + delta`, held to the range of a byte.
pub open spec fn clamp_byte(value: int, delta: int) -> int {
    if value + delta < 0 {
        0
    } else if value + delta > 255 {
        255
    } else {
        value + delta
    }
}

impl Rgb {
    pub fn new(r: u8, g: u8, b: u8) -> (c: Self)
        ensures
            c == (Rgb { r, g, b }),
    {
        Rgb { r, g, b }
    }

    /// Adds `delta` to channel `index` (0 red, 1 green, 2 blue), held to
    /// `0..=255`; any other index leaves the colour unchanged.
    /// The value of channel `index` (red, green, blue), or 0 past them.
    pub open spec fn channel_value(self, index: int) -> int {
        if index == 0 {
            self.r as int
        } else if index == 1 {
            self.g as int
        } else if index == 2 {
            self.b as int
        } else {
            0
        }
    }

    pub fn adjust_channel(&mut self, index: usize, delta: i16)
        requires
            old(self).channel_value(index as int) + delta <= i16::MAX,
        ensures
            index == 0 ==> *final(self) == (Rgb { r: clamp_byte(old(self).r as int, delta as int) as u8, ..*old(self) }),
            index == 1 ==> *final(self) == (Rgb { g: clamp_byte(old(self).g as int, delta as int) as u8, ..*old(self) }),
            index == 2 ==> *final(self) == (Rgb { b: clamp_byte(old(self).b as int, delta as int) as u8, ..*old(self) }),
            index > 2 ==> *final(self) == *old(self),
    {
        if index == 0 {
            self.r = crate::app_state::adjust_u8(self.r, delta);
        } else if index == 1 {
            self.g = crate::app_state::adjust_u8(self.g, delta);
        } else if index == 2 {
            self.b = crate::app_state::adjust_u8(self.b, delta);
        }
    }
}

impl Default for Rgb {
    fn default() -> (c: Self)
        ensures
            c == (Rgb { r: 0, g: 96, b: 255 }),
    {
        Rgb::new(0, 96, 255)
    }
}

/// A DualSense (or DualSense Edge) button.
#[derive(Clone, Copy, Debug, PartialEq, Eq, Hash, Structural)]
pub enum Button {
    Cross,
    Circle,
    Square,
    Triangle,
    L1,
    R1,
    L2,
    R2,
    Create,
    Options,
    L3,
    R3,
    Ps,
    Touchpad,
    Mute,
    DpadUp,
    DpadDown,
    DpadLeft,
    DpadRight,
    Fn1,
    Fn2,
    LeftPaddle,
    RightPaddle,
}

impl Button {
    /// Every variant, in the order used for cycling.
    pub const ALL: [Self; 23] = [
        Self::Cross,
        Self::Circle,
        Self::Square,
        Self::Triangle,
        Self::L1,
        Self::R1,
        Self::L2,
        Self::R2,
        Self::Create,
        Self::Options,
        Self::L3,
        Self::R3,
        Self::Ps,
        Self::Touchpad,
        Self::Mute,
        Self::DpadUp,
        Self::DpadDown,
        Self::DpadLeft,
        Self::DpadRight,
        Self::Fn1,
        Self::Fn2,
        Self::LeftPaddle,
        Self::RightPaddle,
    ];

    /// The position of this variant in `ALL`.
    pub open spec fn spec_index(self) -> int {
        match self {
            Self::Cross => 0,
            Self::Circle => 1,
            Self::Square => 2,
            Self::Triangle => 3,
            Self::L1 => 4,
            Self::R1 => 5,
            Self::L2 => 6,
            Self::R2 => 7,
            Self::Create => 8,
            Self::Options => 9,
            Self::L3 => 10,
            Self::R3 => 11,
            Self::Ps => 12,
            Self::Touchpad => 13,
            Self::Mute => 14,
            Self::DpadUp => 15,
            Self::DpadDown => 16,
            Self::DpadLeft => 17,
            Self::DpadRight => 18,
            Self::Fn1 => 19,
            Self::Fn2 => 20,
            Self::LeftPaddle => 21,
            Self::RightPaddle => 22,
        }
    }

    /// The variant at a position of `ALL`.
    pub open spec fn spec_at(i: int) -> Self {
        if i == 0 {
            Self::Cross
        } else if i == 1 {
            Self::Circle
        } else if i == 2 {
            Self::Square
        } else if i == 3 {
            Self::Triangle
        } else if i == 4 {
            Self::L1
        } else if i == 5 {
            Self::R1
        } else if i == 6 {
            Self::L2
        } else if i == 7 {
            Self::R2
        } else if i == 8 {
            Self::Create
        } else if i == 9 {
            Self::Options
        } else if i == 10 {
            Self::L3
        } else if i == 11 {
            Self::R3
        } else if i == 12 {
            Self::Ps
        } else if i == 13 {
            Self::Touchpad
        } else if i == 14 {
            Self::Mute
        } else if i == 15 {
            Self::DpadUp
        } else if i == 16 {
            Self::DpadDown
        } else if i == 17 {
            Self::DpadLeft
        } else if i == 18 {
            Self::DpadRight
        } else if i == 19 {
            Self::Fn1
        } else if i == 20 {
            Self::Fn2
        } else if i == 21 {
            Self::LeftPaddle
        } else {
            Self::RightPaddle
        }
    }

    pub fn index(self) -> (r: usize)
        ensures
            r as int == self.spec_index(),
            r < 23,
    {
        match self {
            Self::Cross => 0,
            Self::Circle => 1,
            Self::Square => 2,
            Self::Triangle => 3,
            Self::L1 => 4,
            Self::R1 => 5,
            Self::L2 => 6,
            Self::R2 => 7,
            Self::Create => 8,
            Self::Options => 9,
            Self::L3 => 10,
            Self::R3 => 11,
            Self::Ps => 12,
            Self::Touchpad => 13,
            Self::Mute => 14,
            Self::DpadUp => 15,
            Self::DpadDown => 16,
            Self::DpadLeft => 17,
            Self::DpadRight => 18,
            Self::Fn1 => 19,
            Self::Fn2 => 20,
            Self::LeftPaddle => 21,
            Self::RightPaddle => 22,
        }
    }

    /// The variant at `index` of `ALL`, wrapping around.
    pub fn from_index(index: usize) -> (r: Self)
        ensures
            r == Self::spec_at(index as int % 23),
    {
        let i: usize = index % 23;
        if i == 0 {
            Self::Cross
        } else if i == 1 {
            Self::Circle
        } else if i == 2 {
            Self::Square
        } else if i == 3 {
            Self::Triangle
        } else if i == 4 {
            Self::L1
        } else if i == 5 {
            Self::R1
        } else if i == 6 {
            Self::L2
        } else if i == 7 {
            Self::R2
        } else if i == 8 {
            Self::Create
        } else if i == 9 {
            Self::Options
        } else if i == 10 {
            Self::L3
        } else if i == 11 {
            Self::R3
        } else if i == 12 {
            Self::Ps
        } else if i == 13 {
            Self::Touchpad
        } else if i == 14 {
            Self::Mute
        } else if i == 15 {
            Self::DpadUp
        } else if i == 16 {
            Self::DpadDown
        } else if i == 17 {
            Self::DpadLeft
        } else if i == 18 {
            Self::DpadRight
        } else if i == 19 {
            Self::Fn1
        } else if i == 20 {
            Self::Fn2
        } else if i == 21 {
            Self::LeftPaddle
        } else {
            Self::RightPaddle
        }
    }

    pub open spec fn spec_next(self) -> Self {
        Self::spec_at((self.spec_index() + 1) % 23)
    }

    pub open spec fn spec_previous(self) -> Self {
        Self::spec_at((self.spec_index() + 23 - 1) % 23)
    }

    /// The following variant of `ALL`; the last wraps to the first.
    pub fn next(self) -> (r: Self)
        ensures
            r == self.spec_next(),
    {
        Self::from_index(self.index() + 1)
    }

    /// The preceding variant of `ALL`; the first wraps to the last.
    pub fn previous(self) -> (r: Self)
        ensures
            r == self.spec_previous(),
    {
        Self::from_index(self.index() + 23 - 1)
    }

    pub open spec fn spec_label(self) -> Seq<char> {
        match self {
            Self::Cross => "Cross"@,
            Self::Circle => "Circle"@,
            Self::Square => "Square"@,
            Self::Triangle => "Triangle"@,
            Self::L1 => "L1"@,
            Self::R1 => "R1"@,
            Self::L2 => "L2"@,
            Self::R2 => "R2"@,
            Self::Create => "Create"@,
            Self::Options => "Options"@,
            Self::L3 => "L3"@,
            Self::R3 => "R3"@,
            Self::Ps => "PS"@,
            Self::Touchpad => "Touchpad"@,
            Self::Mute => "Mute"@,
            Self::DpadUp => "DPad Up"@,
            Self::DpadDown => "DPad Down"@,
            Self::DpadLeft => "DPad Left"@,
            Self::DpadRight => "DPad Right"@,
            Self::Fn1 => "Fn 1"@,
            Self::Fn2 => "Fn 2"@,
            Self::LeftPaddle => "Left paddle"@,
            Self::RightPaddle => "Right paddle"@,
        }
    }

    /// The name shown to the user.
    pub fn label(self) -> (r: &'static str)
        ensures
            r@ == self.spec_label(),
    {
        match self {
            Self::Cross => "Cross",
            Self::Circle => "Circle",
            Self::Square => "Square",
            Self::Triangle => "Triangle",
            Self::L1 => "L1",
            Self::R1 => "R1",
            Self::L2 => "L2",
            Self::R2 => "R2",
            Self::Create => "Create",
            Self::Options => "Options",
            Self::L3 => "L3",
            Self::R3 => "R3",
            Self::Ps => "PS",
            Self::Touchpad => "Touchpad",
            Self::Mute => "Mute",
            Self::DpadUp => "DPad Up",
            Self::DpadDown => "DPad Down",
            Self::DpadLeft => "DPad Left",
            Self::DpadRight => "DPad Right",
            Self::Fn1 => "Fn 1",
            Self::Fn2 => "Fn 2",
            Self::LeftPaddle => "Left paddle",
            Self::RightPaddle => "Right paddle",
        }
    }

    pub open spec fn spec_short_label(self) -> Seq<char> {
        match self {
            Self::Cross => "X"@,
            Self::Circle => "CIR"@,
            Self::Square => "SQR"@,
            Self::Triangle => "TRI"@,
            Self::L1 => "L1"@,
            Self::R1 => "R1"@,
            Self::L2 => "L2"@,
            Self::R2 => "R2"@,
            Self::Create => "CRT"@,
            Self::Options => "OPT"@,
            Self::L3 => "L3"@,
            Self::R3 => "R3"@,
            Self::Ps => "PS"@,
            Self::Touchpad => "TP"@,
            Self::Mute => "MUT"@,
            Self::DpadUp => "UP"@,
            Self::DpadDown => "DN"@,
            Self::DpadLeft => "LT"@,
            Self::DpadRight => "RT"@,
            Self::Fn1 => "FN1"@,
            Self::Fn2 => "FN2"@,
            Self::LeftPaddle => "LP"@,
            Self::RightPaddle => "RP"@,
        }
    }

    /// A label of at most three letters for compact tables.
    pub fn short_label(self) -> (r: &'static str)
        ensures
            r@ == self.spec_short_label(),
    {
        match self {
            Self::Cross => "X",
            Self::Circle => "CIR",
            Self::Square => "SQR",
            Self::Triangle => "TRI",
            Self::L1 => "L1",
            Self::R1 => "R1",
            Self::L2 => "L2",
            Self::R2 => "R2",
            Self::Create => "CRT",
            Self::Options => "OPT",
            Self::L3 => "L3",
            Self::R3 => "R3",
            Self::Ps => "PS",
            Self::Touchpad => "TP",
            Self::Mute => "MUT",
            Self::DpadUp => "UP",
            Self::DpadDown => "DN",
            Self::DpadLeft => "LT",
            Self::DpadRight => "RT",
            Self::Fn1 => "FN1",
            Self::Fn2 => "FN2",
            Self::LeftPaddle => "LP",
            Self::RightPaddle => "RP",
        }
    }

}

/// Every variant of `Button` sits at one position of the cycle, and that
/// position leads back to it.
pub proof fn lemma_button_index(x: Button)
    ensures
        0 <= x.spec_index() < 23,
        Button::spec_at(x.spec_index()) == x,
{
}

/// Stepping forward and then back, or back and then forward, returns to
/// the same `Button`, and a step always moves to another variant.
pub proof fn lemma_button_cycle(x: Button)
    ensures
        x.spec_next().spec_previous() == x,
        x.spec_previous().spec_next() == x,
        x.spec_next() != x,
{
}

/// One analog stick; each axis runs from 0 to 255 with 128 at rest.
#[derive(Clone, Copy, Debug, PartialEq, Eq, Structural)]
pub struct StickState {
    pub x: u8,
    pub y: u8,
}

impl StickState {
    pub fn new(x: u8, y: u8) -> (s: Self)
        ensures
            s == (StickState { x, y }),
    {
        StickState { x, y }
    }
}

impl Default for StickState {
    fn default() -> (s: Self)
        ensures
            s == (StickState { x: 0, y: 0 }),
    {
        StickState { x: 0, y: 0 }
    }
}

/// One touchpad contact.
#[derive(Clone, Copy, Debug, PartialEq, Eq, Structural)]
pub struct TouchPoint {
    pub contact_id: u8,
    pub x: u16,
    pub y: u16,
}

/// Gyroscope, accelerometer and the sensor clock of one input report.
#[derive(Clone, Copy, Debug, PartialEq, Eq)]
pub struct MotionState {
    pub gyro: [i16; 3],
    pub accel: [i16; 3],
    pub sensor_timestamp: u32,
}

impl Default for MotionState {
    fn default() -> (m: Self)
        ensures
            m.gyro@ == seq![0i16, 0, 0],
            m.accel@ == seq![0i16, 0, 0],
            m.sensor_timestamp == 0,
    {
        MotionState { gyro: [0, 0, 0], accel: [0, 0, 0], sensor_timestamp: 0 }
    }
}

/// The charging state reported by the controller.
#[derive(Clone, Copy, Debug, PartialEq, Eq, Hash, Structural)]
pub enum BatteryStatus {
    Unknown,
    Discharging,
    Charging,
    Full,
    Error,
}

impl Default for BatteryStatus {
    fn default() -> (r: Self)
        ensures
            r == BatteryStatus::Unknown,
    {
        BatteryStatus::Unknown
    }
}

impl BatteryStatus {
    /// The position of this variant in `ALL`.
    pub open spec fn spec_index(self) -> int {
        match self {
            Self::Unknown => 0,
            Self::Discharging => 1,
            Self::Charging => 2,
            Self::Full => 3,
            Self::Error => 4,
        }
    }

    /// The variant at a position of `ALL`.
    pub open spec fn spec_at(i: int) -> Self {
        if i == 0 {
            Self::Unknown
        } else if i == 1 {
            Self::Discharging
        } else if i == 2 {
            Self::Charging
        } else if i == 3 {
            Self::Full
        } else {
            Self::Error
        }
    }

    pub fn index(self) -> (r: usize)
        ensures
            r as int == self.spec_index(),
            r < 5,
    {
        match self {
            Self::Unknown => 0,
            Self::Discharging => 1,
            Self::Charging => 2,
            Self::Full => 3,
            Self::Error => 4,
        }
    }

    /// The variant at `index` of `ALL`, wrapping around.
    pub fn from_index(index: usize) -> (r: Self)
        ensures
            r == Self::spec_at(index as int % 5),
    {
        let i: usize = index % 5;
        if i == 0 {
            Self::Unknown
        } else if i == 1 {
            Self::Discharging
        } else if i == 2 {
            Self::Charging
        } else if i == 3 {
            Self::Full
        } else {
            Self::Error
        }
    }

    pub open spec fn spec_label(self) -> Seq<char> {
        match self {
            Self::Unknown => "unknown"@,
            Self::Discharging => "discharging"@,
            Self::Charging => "charging"@,
            Self::Full => "full"@,
            Self::Error => "error"@,
        }
    }

    /// The name shown to the user.
    pub fn label(self) -> (r: &'static str)
        ensures
            r@ == self.spec_label(),
    {
        match self {
            Self::Unknown => "unknown",
            Self::Discharging => "discharging",
            Self::Charging => "charging",
            Self::Full => "full",
            Self::Error => "error",
        }
    }

}

/// The decoded content of one input report.
#[derive(Clone, Debug, PartialEq, Eq)]
pub struct GamepadState {
    pub left_stick: StickState,
    pub right_stick: StickState,
    pub left_trigger: u8,
    pub right_trigger: u8,
    pub buttons: Vec<Button>,
    pub battery_percent: Option<u8>,
    pub battery_status: BatteryStatus,
    pub headset_connected: bool,
    pub microphone_connected: bool,
    pub microphone_muted: bool,
    pub touch_points: [Option<TouchPoint>; 2],
    pub motion: MotionState,
    pub report_sequence: u8,
    pub bluetooth_crc_valid: Option<bool>,
    pub packet_count: u64,
}

impl Default for GamepadState {
    fn default() -> (s: Self)
        ensures
            s.left_stick == (StickState { x: 0, y: 0 }),
            s.right_stick == (StickState { x: 0, y: 0 }),
            s.left_trigger == 0,
            s.right_trigger == 0,
            s.buttons@ == Seq::<Button>::empty(),
            s.battery_percent is None,
            s.battery_status == BatteryStatus::Unknown,
            !s.headset_connected,
            !s.microphone_connected,
            !s.microphone_muted,
            s.touch_points@ == seq![None::<TouchPoint>, None],
            s.motion.gyro@ == seq![0i16, 0, 0],
            s.motion.accel@ == seq![0i16, 0, 0],
            s.motion.sensor_timestamp == 0,
            s.report_sequence == 0,
            s.bluetooth_crc_valid is None,
            s.packet_count == 0,
    {
        GamepadState {
            left_stick: StickState::default(),
            right_stick: StickState::default(),
            left_trigger: 0,
            right_trigger: 0,
            buttons: Vec::new(),
            battery_percent: None,
            battery_status: BatteryStatus::default(),
            headset_connected: false,
            microphone_connected: false,
            microphone_muted: false,
            touch_points: [None, None],
            motion: MotionState::default(),
            report_sequence: 0,
            bluetooth_crc_valid: None,
            packet_count: 0,
        }
    }
}

impl GamepadState {
    /// Two states hold the same values; the button lists are compared by content.
    pub open spec fn same_as(&self, other: &GamepadState) -> bool {
        &&& self.left_stick == other.left_stick
        &&& self.right_stick == other.right_stick
        &&& self.left_trigger == other.left_trigger
        &&& self.right_trigger == other.right_trigger
        &&& self.buttons@ == other.buttons@
        &&& self.battery_percent == other.battery_percent
        &&& self.battery_status == other.battery_status
        &&& self.headset_connected == other.headset_connected
        &&& self.microphone_connected == other.microphone_connected
        &&& self.microphone_muted == other.microphone_muted
        &&& self.touch_points == other.touch_points
        &&& self.motion == other.motion
        &&& self.report_sequence == other.report_sequence
        &&& self.bluetooth_crc_valid == other.bluetooth_crc_valid
        &&& self.packet_count == other.packet_count
    }

    /// Whether `button` is among the pressed buttons.
    pub fn is_pressed(&self, button: Button) -> (r: bool)
        ensures
            r == self.buttons@.contains(button),
    {
        let mut i: usize = 0;
        while i < self.buttons.len()
            invariant
                i <= self.buttons.len(),
                forall|j: int| 0 <= j < i ==> self.buttons@[j] != button,
            decreases self.buttons.len() - i,
        {
            if self.buttons[i] == button {
                return true;
            }
            i = i + 1;
        }
        false
    }

    /// A copy of this state; every field, the button list included, is the same.
    pub fn duplicate(&self) -> (r: Self)
        ensures
            r.same_as(self),
    {
        let mut buttons: Vec<Button> = Vec::new();
        let mut i: usize = 0;
        while i < self.buttons.len()
            invariant
                i <= self.buttons.len(),
                buttons@ == self.buttons@.subrange(0, i as int),
            decreases self.buttons.len() - i,
        {
            buttons.push(self.buttons[i]);
            i = i + 1;
        }
        assert(buttons@ == self.buttons@);
        GamepadState {
            left_stick: self.left_stick,
            right_stick: self.right_stick,
            left_trigger: self.left_trigger,
            right_trigger: self.right_trigger,
            buttons,
            battery_percent: self.battery_percent,
            battery_status: self.battery_status,
            headset_connected: self.headset_connected,
            microphone_connected: self.microphone_connected,
            microphone_muted: self.microphone_muted,
            touch_points: self.touch_points,
            motion: self.motion,
            report_sequence: self.report_sequence,
            bluetooth_crc_valid: self.bluetooth_crc_valid,
            packet_count: self.packet_count,
        }
    }
}

/// A canned haptic pattern.
#[derive(Clone, Copy, Debug, PartialEq, Eq, Hash, Structural)]
pub enum HapticDemo {
    Click,
    Thump,
    Buzz,
    Heartbeat,
    Sweep,
    Impact,
    Tap,
    PulseTrain,
}

impl HapticDemo {
    /// Every variant, in the order used for cycling.
    pub const ALL: [Self; 8] = [
        Self::Click,
        Self::Thump,
        Self::Buzz,
        Self::Heartbeat,
        Self::Sweep,
        Self::Impact,
        Self::Tap,
        Self::PulseTrain,
    ];

    /// The position of this variant in `ALL`.
    pub open spec fn spec_index(self) -> int {
        match self {
            Self::Click => 0,
            Self::Thump => 1,
            Self::Buzz => 2,
            Self::Heartbeat => 3,
            Self::Sweep => 4,
            Self::Impact => 5,
            Self::Tap => 6,
            Self::PulseTrain => 7,
        }
    }

    /// The variant at a position of `ALL`.
    pub open spec fn spec_at(i: int) -> Self {
        if i == 0 {
            Self::Click
        } else if i == 1 {
            Self::Thump
        } else if i == 2 {
            Self::Buzz
        } else if i == 3 {
            Self::Heartbeat
        } else if i == 4 {
            Self::Sweep
        } else if i == 5 {
            Self::Impact
        } else if i == 6 {
            Self::Tap
        } else {
            Self::PulseTrain
        }
    }

    pub fn index(self) -> (r: usize)
        ensures
            r as int == self.spec_index(),
            r < 8,
    {
        match self {
            Self::Click => 0,
            Self::Thump => 1,
            Self::Buzz => 2,
            Self::Heartbeat => 3,
            Self::Sweep => 4,
            Self::Impact => 5,
            Self::Tap => 6,
            Self::PulseTrain => 7,
        }
    }

    /// The variant at `index` of `ALL`, wrapping around.
    pub fn from_index(index: usize) -> (r: Self)
        ensures
            r == Self::spec_at(index as int % 8),
    {
        let i: usize = index % 8;
        if i == 0 {
            Self::Click
        } else if i == 1 {
            Self::Thump
        } else if i == 2 {
            Self::Buzz
        } else if i == 3 {
            Self::Heartbeat
        } else if i == 4 {
            Self::Sweep
        } else if i == 5 {
            Self::Impact
        } else if i == 6 {
            Self::Tap
        } else {
            Self::PulseTrain
        }
    }

    pub open spec fn spec_next(self) -> Self {
        Self::spec_at((self.spec_index() + 1) % 8)
    }

    pub open spec fn spec_previous(self) -> Self {
        Self::spec_at((self.spec_index() + 8 - 1) % 8)
    }

    /// The following variant of `ALL`; the last wraps to the first.
    pub fn next(self) -> (r: Self)
        ensures
            r == self.spec_next(),
    {
        Self::from_index(self.index() + 1)
    }

    /// The preceding variant of `ALL`; the first wraps to the last.
    pub fn previous(self) -> (r: Self)
        ensures
            r == self.spec_previous(),
    {
        Self::from_index(self.index() + 8 - 1)
    }

    pub open spec fn spec_label(self) -> Seq<char> {
        match self {
            Self::Click => "Click"@,
            Self::Thump => "Thump"@,
            Self::Buzz => "Buzz"@,
            Self::Heartbeat => "Heartbeat"@,
            Self::Sweep => "Sweep"@,
            Self::Impact => "Impact"@,
            Self::Tap => "Tap"@,
            Self::PulseTrain => "Pulse train"@,
        }
    }

    /// The name shown to the user.
    pub fn label(self) -> (r: &'static str)
        ensures
            r@ == self.spec_label(),
    {
        match self {
            Self::Click => "Click",
            Self::Thump => "Thump",
            Self::Buzz => "Buzz",
            Self::Heartbeat => "Heartbeat",
            Self::Sweep => "Sweep",
            Self::Impact => "Impact",
            Self::Tap => "Tap",
            Self::PulseTrain => "Pulse train",
        }
    }

    pub open spec fn spec_expected_effect(self) -> Seq<char> {
        match self {
            Self::Click => "short crisp tap"@,
            Self::Thump => "one strong paired punch"@,
            Self::Buzz => "three short paired pulses"@,
            Self::Heartbeat => "two separated strong beats"@,
            Self::Sweep => "paired strength rises from light to strong"@,
            Self::Impact => "one full-strength paired impact"@,
            Self::Tap => "one strong paired tap"@,
            Self::PulseTrain => "four paired pulses alternating in strength"@,
        }
    }

    /// What the user should feel.
    pub fn expected_effect(self) -> (r: &'static str)
        ensures
            r@ == self.spec_expected_effect(),
    {
        match self {
            Self::Click => "short crisp tap",
            Self::Thump => "one strong paired punch",
            Self::Buzz => "three short paired pulses",
            Self::Heartbeat => "two separated strong beats",
            Self::Sweep => "paired strength rises from light to strong",
            Self::Impact => "one full-strength paired impact",
            Self::Tap => "one strong paired tap",
            Self::PulseTrain => "four paired pulses alternating in strength",
        }
    }

}

/// Every variant of `HapticDemo` sits at one position of the cycle, and that
/// position leads back to it.
pub proof fn lemma_haptic_demo_index(x: HapticDemo)
    ensures
        0 <= x.spec_index() < 8,
        HapticDemo::spec_at(x.spec_index()) == x,
{
}

/// Stepping forward and then back, or back and then forward, returns to
/// the same `HapticDemo`, and a step always moves to another variant.
pub proof fn lemma_haptic_demo_cycle(x: HapticDemo)
    ensures
        x.spec_next().spec_previous() == x,
        x.spec_previous().spec_next() == x,
        x.spec_next() != x,
{
}

/// Which adaptive trigger an effect is sent to.
#[derive(Clone, Copy, Debug, PartialEq, Eq, Hash, Structural)]
pub enum TriggerTarget {
    Both,
    Left,
    Right,
}

impl Default for TriggerTarget {
    fn default() -> (r: Self)
        ensures
            r == TriggerTarget::Both,
    {
        TriggerTarget::Both
    }
}

impl TriggerTarget {
    /// Every variant, in the order used for cycling.
    pub const ALL: [Self; 3] = [
        Self::Both,
        Self::Left,
        Self::Right,
    ];

    /// The position of this variant in `ALL`.
    pub open spec fn spec_index(self) -> int {
        match self {
            Self::Both => 0,
            Self::Left => 1,
            Self::Right => 2,
        }
    }

    /// The variant at a position of `ALL`.
    pub open spec fn spec_at(i: int) -> Self {
        if i == 0 {
            Self::Both
        } else if i == 1 {
            Self::Left
        } else {
            Self::Right
        }
    }

    pub fn index(self) -> (r: usize)
        ensures
            r as int == self.spec_index(),
            r < 3,
    {
        match self {
            Self::Both => 0,
            Self::Left => 1,
            Self::Right => 2,
        }
    }

    /// The variant at `index` of `ALL`, wrapping around.
    pub fn from_index(index: usize) -> (r: Self)
        ensures
            r == Self::spec_at(index as int % 3),
    {
        let i: usize = index % 3;
        if i == 0 {
            Self::Both
        } else if i == 1 {
            Self::Left
        } else {
            Self::Right
        }
    }

    pub open spec fn spec_next(self) -> Self {
        Self::spec_at((self.spec_index() + 1) % 3)
    }

    pub open spec fn spec_previous(self) -> Self {
        Self::spec_at((self.spec_index() + 3 - 1) % 3)
    }

    /// The following variant of `ALL`; the last wraps to the first.
    pub fn next(self) -> (r: Self)
        ensures
            r == self.spec_next(),
    {
        Self::from_index(self.index() + 1)
    }

    /// The preceding variant of `ALL`; the first wraps to the last.
    pub fn previous(self) -> (r: Self)
        ensures
            r == self.spec_previous(),
    {
        Self::from_index(self.index() + 3 - 1)
    }

    pub open spec fn spec_label(self) -> Seq<char> {
        match self {
            Self::Both => "Both"@,
            Self::Left => "L2"@,
            Self::Right => "R2"@,
        }
    }

    /// The name shown to the user.
    pub fn label(self) -> (r: &'static str)
        ensures
            r@ == self.spec_label(),
    {
        match self {
            Self::Both => "Both",
            Self::Left => "L2",
            Self::Right => "R2",
        }
    }

}

/// Every variant of `TriggerTarget` sits at one position of the cycle, and that
/// position leads back to it.
pub proof fn lemma_trigger_target_index(x: TriggerTarget)
    ensures
        0 <= x.spec_index() < 3,
        TriggerTarget::spec_at(x.spec_index()) == x,
{
}

/// Stepping forward and then back, or back and then forward, returns to
/// the same `TriggerTarget`, and a step always moves to another variant.
pub proof fn lemma_trigger_target_cycle(x: TriggerTarget)
    ensures
        x.spec_next().spec_previous() == x,
        x.spec_previous().spec_next() == x,
        x.spec_next() != x,
{
}

/// A named adaptive-trigger effect.
#[derive(Clone, Copy, Debug, PartialEq, Eq, Hash, Structural)]
pub enum AdaptiveTriggerPreset {
    Off,
    Bow,
    MachineGun,
    Pistol,
    Rigid,
    Brake,
    Pulse,
    Click,
}

impl Default for AdaptiveTriggerPreset {
    fn default() -> (r: Self)
        ensures
            r == AdaptiveTriggerPreset::Off,
    {
        AdaptiveTriggerPreset::Off
    }
}

impl AdaptiveTriggerPreset {
    /// Every variant, in the order used for cycling.
    pub const ALL: [Self; 8] = [
        Self::Off,
        Self::Bow,
        Self::MachineGun,
        Self::Pistol,
        Self::Rigid,
        Self::Brake,
        Self::Pulse,
        Self::Click,
    ];

    /// The position of this variant in `ALL`.
    pub open spec fn spec_index(self) -> int {
        match self {
            Self::Off => 0,
            Self::Bow => 1,
            Self::MachineGun => 2,
            Self::Pistol => 3,
            Self::Rigid => 4,
            Self::Brake => 5,
            Self::Pulse => 6,
            Self::Click => 7,
        }
    }

    /// The variant at a position of `ALL`.
    pub open spec fn spec_at(i: int) -> Self {
        if i == 0 {
            Self::Off
        } else if i == 1 {
            Self::Bow
        } else if i == 2 {
            Self::MachineGun
        } else if i == 3 {
            Self::Pistol
        } else if i == 4 {
            Self::Rigid
        } else if i == 5 {
            Self::Brake
        } else if i == 6 {
            Self::Pulse
        } else {
            Self::Click
        }
    }

    pub fn index(self) -> (r: usize)
        ensures
            r as int == self.spec_index(),
            r < 8,
    {
        match self {
            Self::Off => 0,
            Self::Bow => 1,
            Self::MachineGun => 2,
            Self::Pistol => 3,
            Self::Rigid => 4,
            Self::Brake => 5,
            Self::Pulse => 6,
            Self::Click => 7,
        }
    }

    /// The variant at `index` of `ALL`, wrapping around.
    pub fn from_index(index: usize) -> (r: Self)
        ensures
            r == Self::spec_at(index as int % 8),
    {
        let i: usize = index % 8;
        if i == 0 {
            Self::Off
        } else if i == 1 {
            Self::Bow
        } else if i == 2 {
            Self::MachineGun
        } else if i == 3 {
            Self::Pistol
        } else if i == 4 {
            Self::Rigid
        } else if i == 5 {
            Self::Brake
        } else if i == 6 {
            Self::Pulse
        } else {
            Self::Click
        }
    }

    pub open spec fn spec_next(self) -> Self {
        Self::spec_at((self.spec_index() + 1) % 8)
    }

    pub open spec fn spec_previous(self) -> Self {
        Self::spec_at((self.spec_index() + 8 - 1) % 8)
    }

    /// The following variant of `ALL`; the last wraps to the first.
    pub fn next(self) -> (r: Self)
        ensures
            r == self.spec_next(),
    {
        Self::from_index(self.index() + 1)
    }

    /// The preceding variant of `ALL`; the first wraps to the last.
    pub fn previous(self) -> (r: Self)
        ensures
            r == self.spec_previous(),
    {
        Self::from_index(self.index() + 8 - 1)
    }

    pub open spec fn spec_label(self) -> Seq<char> {
        match self {
            Self::Off => "Off"@,
            Self::Bow => "Bow"@,
            Self::MachineGun => "Machine gun"@,
            Self::Pistol => "Pistol"@,
            Self::Rigid => "Rigid"@,
            Self::Brake => "Brake"@,
            Self::Pulse => "Pulse"@,
            Self::Click => "Click"@,
        }
    }

    /// The name shown to the user.
    pub fn label(self) -> (r: &'static str)
        ensures
            r@ == self.spec_label(),
    {
        match self {
            Self::Off => "Off",
            Self::Bow => "Bow",
            Self::MachineGun => "Machine gun",
            Self::Pistol => "Pistol",
            Self::Rigid => "Rigid",
            Self::Brake => "Brake",
            Self::Pulse => "Pulse",
            Self::Click => "Click",
        }
    }

    pub open spec fn spec_expected_effect(self) -> Seq<char> {
        match self {
            Self::Off => "trigger motor disabled"@,
            Self::Bow => "resistance ramps up near the end of travel"@,
            Self::MachineGun => "rapid persistent trigger vibration"@,
            Self::Pistol => "short stiff wall with release after the break"@,
            Self::Rigid => "constant resistance after the start point"@,
            Self::Brake => "heavy late-travel resistance"@,
            Self::Pulse => "slow persistent trigger vibration"@,
            Self::Click => "small tactile bump early in travel"@,
        }
    }

    /// What the user should feel.
    pub fn expected_effect(self) -> (r: &'static str)
        ensures
            r@ == self.spec_expected_effect(),
    {
        match self {
            Self::Off => "trigger motor disabled",
            Self::Bow => "resistance ramps up near the end of travel",
            Self::MachineGun => "rapid persistent trigger vibration",
            Self::Pistol => "short stiff wall with release after the break",
            Self::Rigid => "constant resistance after the start point",
            Self::Brake => "heavy late-travel resistance",
            Self::Pulse => "slow persistent trigger vibration",
            Self::Click => "small tactile bump early in travel",
        }
    }

}

/// Every variant of `AdaptiveTriggerPreset` sits at one position of the cycle, and that
/// position leads back to it.
pub proof fn lemma_adaptive_trigger_preset_index(x: AdaptiveTriggerPreset)
    ensures
        0 <= x.spec_index() < 8,
        AdaptiveTriggerPreset::spec_at(x.spec_index()) == x,
{
}

/// Stepping forward and then back, or back and then forward, returns to
/// the same `AdaptiveTriggerPreset`, and a step always moves to another variant.
pub proof fn lemma_adaptive_trigger_preset_cycle(x: AdaptiveTriggerPreset)
    ensures
        x.spec_next().spec_previous() == x,
        x.spec_previous().spec_next() == x,
        x.spec_next() != x,
{
}

/// How the trigger effect is chosen: a named preset or custom values.
#[derive(Clone, Copy, Debug, PartialEq, Eq, Hash, Structural)]
pub enum AdaptiveTriggerMode {
    Preset,
    Resistance,
    Vibration,
}

impl Default for AdaptiveTriggerMode {
    fn default() -> (r: Self)
        ensures
            r == AdaptiveTriggerMode::Preset,
    {
        AdaptiveTriggerMode::Preset
    }
}

impl AdaptiveTriggerMode {
    /// Every variant, in the order used for cycling.
    pub const ALL: [Self; 3] = [
        Self::Preset,
        Self::Resistance,
        Self::Vibration,
    ];

    /// The position of this variant in `ALL`.
    pub open spec fn spec_index(self) -> int {
        match self {
            Self::Preset => 0,
            Self::Resistance => 1,
            Self::Vibration => 2,
        }
    }

    /// The variant at a position of `ALL`.
    pub open spec fn spec_at(i: int) -> Self {
        if i == 0 {
            Self::Preset
        } else if i == 1 {
            Self::Resistance
        } else {
            Self::Vibration
        }
    }

    pub fn index(self) -> (r: usize)
        ensures
            r as int == self.spec_index(),
            r < 3,
    {
        match self {
            Self::Preset => 0,
            Self::Resistance => 1,
            Self::Vibration => 2,
        }
    }

    /// The variant at `index` of `ALL`, wrapping around.
    pub fn from_index(index: usize) -> (r: Self)
        ensures
            r == Self::spec_at(index as int % 3),
    {
        let i: usize = index % 3;
        if i == 0 {
            Self::Preset
        } else if i == 1 {
            Self::Resistance
        } else {
            Self::Vibration
        }
    }

    pub open spec fn spec_next(self) -> Self {
        Self::spec_at((self.spec_index() + 1) % 3)
    }

    pub open spec fn spec_previous(self) -> Self {
        Self::spec_at((self.spec_index() + 3 - 1) % 3)
    }

    /// The following variant of `ALL`; the last wraps to the first.
    pub fn next(self) -> (r: Self)
        ensures
            r == self.spec_next(),
    {
        Self::from_index(self.index() + 1)
    }

    /// The preceding variant of `ALL`; the first wraps to the last.
    pub fn previous(self) -> (r: Self)
        ensures
            r == self.spec_previous(),
    {
        Self::from_index(self.index() + 3 - 1)
    }

    pub open spec fn spec_label(self) -> Seq<char> {
        match self {
            Self::Preset => "Preset"@,
            Self::Resistance => "Resistance"@,
            Self::Vibration => "Vibration"@,
        }
    }

    /// The name shown to the user.
    pub fn label(self) -> (r: &'static str)
        ensures
            r@ == self.spec_label(),
    {
        match self {
            Self::Preset => "Preset",
            Self::Resistance => "Resistance",
            Self::Vibration => "Vibration",
        }
    }

}

/// Every variant of `AdaptiveTriggerMode` sits at one position of the cycle, and that
/// position leads back to it.
pub proof fn lemma_adaptive_trigger_mode_index(x: AdaptiveTriggerMode)
    ensures
        0 <= x.spec_index() < 3,
        AdaptiveTriggerMode::spec_at(x.spec_index()) == x,
{
}

/// Stepping forward and then back, or back and then forward, returns to
/// the same `AdaptiveTriggerMode`, and a step always moves to another variant.
pub proof fn lemma_adaptive_trigger_mode_cycle(x: AdaptiveTriggerMode)
    ensures
        x.spec_next().spec_previous() == x,
        x.spec_previous().spec_next() == x,
        x.spec_next() != x,
{
}

/// A keyboard key a button can be mapped to.
#[derive(Clone, Copy, Debug, PartialEq, Eq, Hash, Structural)]
pub enum KeyboardKey {
    Disabled,
    Space,
    Return,
    Escape,
    Tab,
    Up,
    Down,
    Left,
    Right,
    W,
    A,
    S,
    D,
    Q,
    E,
    R,
    F,
    Shift,
    Control,
    Option,
    Key1,
    Key2,
    Key3,
    Key4,
}

impl Default for KeyboardKey {
    fn default() -> (r: Self)
        ensures
            r == KeyboardKey::Disabled,
    {
        KeyboardKey::Disabled
    }
}

impl KeyboardKey {
    /// Every variant, in the order used for cycling.
    pub const ALL: [Self; 24] = [
        Self::Disabled,
        Self::Space,
        Self::Return,
        Self::Escape,
        Self::Tab,
        Self::Up,
        Self::Down,
        Self::Left,
        Self::Right,
        Self::W,
        Self::A,
        Self::S,
        Self::D,
        Self::Q,
        Self::E,
        Self::R,
        Self::F,
        Self::Shift,
        Self::Control,
        Self::Option,
        Self::Key1,
        Self::Key2,
        Self::Key3,
        Self::Key4,
    ];

    /// The position of this variant in `ALL`.
    pub open spec fn spec_index(self) -> int {
        match self {
            Self::Disabled => 0,
            Self::Space => 1,
            Self::Return => 2,
            Self::Escape => 3,
            Self::Tab => 4,
            Self::Up => 5,
            Self::Down => 6,
            Self::Left => 7,
            Self::Right => 8,
            Self::W => 9,
            Self::A => 10,
            Self::S => 11,
            Self::D => 12,
            Self::Q => 13,
            Self::E => 14,
            Self::R => 15,
            Self::F => 16,
            Self::Shift => 17,
            Self::Control => 18,
            Self::Option => 19,
            Self::Key1 => 20,
            Self::Key2 => 21,
            Self::Key3 => 22,
            Self::Key4 => 23,
        }
    }

    /// The variant at a position of `ALL`.
    pub open spec fn spec_at(i: int) -> Self {
        if i == 0 {
            Self::Disabled
        } else if i == 1 {
            Self::Space
        } else if i == 2 {
            Self::Return
        } else if i == 3 {
            Self::Escape
        } else if i == 4 {
            Self::Tab
        } else if i == 5 {
            Self::Up
        } else if i == 6 {
            Self::Down
        } else if i == 7 {
            Self::Left
        } else if i == 8 {
            Self::Right
        } else if i == 9 {
            Self::W
        } else if i == 10 {
            Self::A
        } else if i == 11 {
            Self::S
        } else if i == 12 {
            Self::D
        } else if i == 13 {
            Self::Q
        } else if i == 14 {
            Self::E
        } else if i == 15 {
            Self::R
        } else if i == 16 {
            Self::F
        } else if i == 17 {
            Self::Shift
        } else if i == 18 {
            Self::Control
        } else if i == 19 {
            Self::Option
        } else if i == 20 {
            Self::Key1
        } else if i == 21 {
            Self::Key2
        } else if i == 22 {
            Self::Key3
        } else {
            Self::Key4
        }
    }

    pub fn index(self) -> (r: usize)
        ensures
            r as int == self.spec_index(),
            r < 24,
    {
        match self {
            Self::Disabled => 0,
            Self::Space => 1,
            Self::Return => 2,
            Self::Escape => 3,
            Self::Tab => 4,
            Self::Up => 5,
            Self::Down => 6,
            Self::Left => 7,
            Self::Right => 8,
            Self::W => 9,
            Self::A => 10,
            Self::S => 11,
            Self::D => 12,
            Self::Q => 13,
            Self::E => 14,
            Self::R => 15,
            Self::F => 16,
            Self::Shift => 17,
            Self::Control => 18,
            Self::Option => 19,
            Self::Key1 => 20,
            Self::Key2 => 21,
            Self::Key3 => 22,
            Self::Key4 => 23,
        }
    }

    /// The variant at `index` of `ALL`, wrapping around.
    pub fn from_index(index: usize) -> (r: Self)
        ensures
            r == Self::spec_at(index as int % 24),
    {
        let i: usize = index % 24;
        if i == 0 {
            Self::Disabled
        } else if i == 1 {
            Self::Space
        } else if i == 2 {
            Self::Return
        } else if i == 3 {
            Self::Escape
        } else if i == 4 {
            Self::Tab
        } else if i == 5 {
            Self::Up
        } else if i == 6 {
            Self::Down
        } else if i == 7 {
            Self::Left
        } else if i == 8 {
            Self::Right
        } else if i == 9 {
            Self::W
        } else if i == 10 {
            Self::A
        } else if i == 11 {
            Self::S
        } else if i == 12 {
            Self::D
        } else if i == 13 {
            Self::Q
        } else if i == 14 {
            Self::E
        } else if i == 15 {
            Self::R
        } else if i == 16 {
            Self::F
        } else if i == 17 {
            Self::Shift
        } else if i == 18 {
            Self::Control
        } else if i == 19 {
            Self::Option
        } else if i == 20 {
            Self::Key1
        } else if i == 21 {
            Self::Key2
        } else if i == 22 {
            Self::Key3
        } else {
            Self::Key4
        }
    }

    pub open spec fn spec_next(self) -> Self {
        Self::spec_at((self.spec_index() + 1) % 24)
    }

    pub open spec fn spec_previous(self) -> Self {
        Self::spec_at((self.spec_index() + 24 - 1) % 24)
    }

    /// The following variant of `ALL`; the last wraps to the first.
    pub fn next(self) -> (r: Self)
        ensures
            r == self.spec_next(),
    {
        Self::from_index(self.index() + 1)
    }

    /// The preceding variant of `ALL`; the first wraps to the last.
    pub fn previous(self) -> (r: Self)
        ensures
            r == self.spec_previous(),
    {
        Self::from_index(self.index() + 24 - 1)
    }

    pub open spec fn spec_label(self) -> Seq<char> {
        match self {
            Self::Disabled => "Disabled"@,
            Self::Space => "Space"@,
            Self::Return => "Return"@,
            Self::Escape => "Escape"@,
            Self::Tab => "Tab"@,
            Self::Up => "Up arrow"@,
            Self::Down => "Down arrow"@,
            Self::Left => "Left arrow"@,
            Self::Right => "Right arrow"@,
            Self::W => "W"@,
            Self::A => "A"@,
            Self::S => "S"@,
            Self::D => "D"@,
            Self::Q => "Q"@,
            Self::E => "E"@,
            Self::R => "R"@,
            Self::F => "F"@,
            Self::Shift => "Shift"@,
            Self::Control => "Control"@,
            Self::Option => "Option"@,
            Self::Key1 => "1"@,
            Self::Key2 => "2"@,
            Self::Key3 => "3"@,
            Self::Key4 => "4"@,
        }
    }

    /// The name shown to the user.
    pub fn label(self) -> (r: &'static str)
        ensures
            r@ == self.spec_label(),
    {
        match self {
            Self::Disabled => "Disabled",
            Self::Space => "Space",
            Self::Return => "Return",
            Self::Escape => "Escape",
            Self::Tab => "Tab",
            Self::Up => "Up arrow",
            Self::Down => "Down arrow",
            Self::Left => "Left arrow",
            Self::Right => "Right arrow",
            Self::W => "W",
            Self::A => "A",
            Self::S => "S",
            Self::D => "D",
            Self::Q => "Q",
            Self::E => "E",
            Self::R => "R",
            Self::F => "F",
            Self::Shift => "Shift",
            Self::Control => "Control",
            Self::Option => "Option",
            Self::Key1 => "1",
            Self::Key2 => "2",
            Self::Key3 => "3",
            Self::Key4 => "4",
        }
    }

}

/// Every variant of `KeyboardKey` sits at one position of the cycle, and that
/// position leads back to it.
pub proof fn lemma_keyboard_key_index(x: KeyboardKey)
    ensures
        0 <= x.spec_index() < 24,
        KeyboardKey::spec_at(x.spec_index()) == x,
{
}

/// Stepping forward and then back, or back and then forward, returns to
/// the same `KeyboardKey`, and a step always moves to another variant.
pub proof fn lemma_keyboard_key_cycle(x: KeyboardKey)
    ensures
        x.spec_next().spec_previous() == x,
        x.spec_previous().spec_next() == x,
        x.spec_next() != x,
{
}

impl KeyboardKey {
    /// Whether this is the "no key" entry.
    pub fn is_disabled(self) -> (r: bool)
        ensures
            r == (self == KeyboardKey::Disabled),
    {
        match self {
            KeyboardKey::Disabled => true,
            _ => false,
        }
    }
}

/// Where the controller sends its audio output.
#[derive(Clone, Copy, Debug, PartialEq, Eq, Hash, Structural)]
pub enum AudioRoute {
    Unchanged,
    Headphones,
    Speaker,
}

impl Default for AudioRoute {
    fn default() -> (r: Self)
        ensures
            r == AudioRoute::Unchanged,
    {
        AudioRoute::Unchanged
    }
}

impl AudioRoute {
    /// Every variant, in the order used for cycling.
    pub const ALL: [Self; 3] = [
        Self::Unchanged,
        Self::Headphones,
        Self::Speaker,
    ];

    /// The position of this variant in `ALL`.
    pub open spec fn spec_index(self) -> int {
        match self {
            Self::Unchanged => 0,
            Self::Headphones => 1,
            Self::Speaker => 2,
        }
    }

    /// The variant at a position of `ALL`.
    pub open spec fn spec_at(i: int) -> Self {
        if i == 0 {
            Self::Unchanged
        } else if i == 1 {
            Self::Headphones
        } else {
            Self::Speaker
        }
    }

    pub fn index(self) -> (r: usize)
        ensures
            r as int == self.spec_index(),
            r < 3,
    {
        match self {
            Self::Unchanged => 0,
            Self::Headphones => 1,
            Self::Speaker => 2,
        }
    }

    /// The variant at `index` of `ALL`, wrapping around.
    pub fn from_index(index: usize) -> (r: Self)
        ensures
            r == Self::spec_at(index as int % 3),
    {
        let i: usize = index % 3;
        if i == 0 {
            Self::Unchanged
        } else if i == 1 {
            Self::Headphones
        } else {
            Self::Speaker
        }
    }

    pub open spec fn spec_next(self) -> Self {
        Self::spec_at((self.spec_index() + 1) % 3)
    }

    pub open spec fn spec_previous(self) -> Self {
        Self::spec_at((self.spec_index() + 3 - 1) % 3)
    }

    /// The following variant of `ALL`; the last wraps to the first.
    pub fn next(self) -> (r: Self)
        ensures
            r == self.spec_next(),
    {
        Self::from_index(self.index() + 1)
    }

    /// The preceding variant of `ALL`; the first wraps to the last.
    pub fn previous(self) -> (r: Self)
        ensures
            r == self.spec_previous(),
    {
        Self::from_index(self.index() + 3 - 1)
    }

    pub open spec fn spec_label(self) -> Seq<char> {
        match self {
            Self::Unchanged => "Keep current"@,
            Self::Headphones => "Headphones"@,
            Self::Speaker => "Controller speaker"@,
        }
    }

    /// The name shown to the user.
    pub fn label(self) -> (r: &'static str)
        ensures
            r@ == self.spec_label(),
    {
        match self {
            Self::Unchanged => "Keep current",
            Self::Headphones => "Headphones",
            Self::Speaker => "Controller speaker",
        }
    }

}

/// Every variant of `AudioRoute` sits at one position of the cycle, and that
/// position leads back to it.
pub proof fn lemma_audio_route_index(x: AudioRoute)
    ensures
        0 <= x.spec_index() < 3,
        AudioRoute::spec_at(x.spec_index()) == x,
{
}

/// Stepping forward and then back, or back and then forward, returns to
/// the same `AudioRoute`, and a step always moves to another variant.
pub proof fn lemma_audio_route_cycle(x: AudioRoute)
    ensures
        x.spec_next().spec_previous() == x,
        x.spec_previous().spec_next() == x,
        x.spec_next() != x,
{
}

/// The player-number LED pattern.
#[derive(Clone, Copy, Debug, PartialEq, Eq, Hash, Structural)]
pub enum PlayerIndicator {
    Off,
    Player1,
    Player2,
    Player3,
    Player4,
    Player5,
}

impl Default for PlayerIndicator {
    fn default() -> (r: Self)
        ensures
            r == PlayerIndicator::Player1,
    {
        PlayerIndicator::Player1
    }
}

impl PlayerIndicator {
    /// Every variant, in the order used for cycling.
    pub const ALL: [Self; 6] = [
        Self::Off,
        Self::Player1,
        Self::Player2,
        Self::Player3,
        Self::Player4,
        Self::Player5,
    ];

    /// The position of this variant in `ALL`.
    pub open spec fn spec_index(self) -> int {
        match self {
            Self::Off => 0,
            Self::Player1 => 1,
            Self::Player2 => 2,
            Self::Player3 => 3,
            Self::Player4 => 4,
            Self::Player5 => 5,
        }
    }

    /// The variant at a position of `ALL`.
    pub open spec fn spec_at(i: int) -> Self {
        if i == 0 {
            Self::Off
        } else if i == 1 {
            Self::Player1
        } else if i == 2 {
            Self::Player2
        } else if i == 3 {
            Self::Player3
        } else if i == 4 {
            Self::Player4
        } else {
            Self::Player5
        }
    }

    pub fn index(self) -> (r: usize)
        ensures
            r as int == self.spec_index(),
            r < 6,
    {
        match self {
            Self::Off => 0,
            Self::Player1 => 1,
            Self::Player2 => 2,
            Self::Player3 => 3,
            Self::Player4 => 4,
            Self::Player5 => 5,
        }
    }

    /// The variant at `index` of `ALL`, wrapping around.
    pub fn from_index(index: usize) -> (r: Self)
        ensures
            r == Self::spec_at(index as int % 6),
    {
        let i: usize = index % 6;
        if i == 0 {
            Self::Off
        } else if i == 1 {
            Self::Player1
        } else if i == 2 {
            Self::Player2
        } else if i == 3 {
            Self::Player3
        } else if i == 4 {
            Self::Player4
        } else {
            Self::Player5
        }
    }

    pub open spec fn spec_next(self) -> Self {
        Self::spec_at((self.spec_index() + 1) % 6)
    }

    pub open spec fn spec_previous(self) -> Self {
        Self::spec_at((self.spec_index() + 6 - 1) % 6)
    }

    /// The following variant of `ALL`; the last wraps to the first.
    pub fn next(self) -> (r: Self)
        ensures
            r == self.spec_next(),
    {
        Self::from_index(self.index() + 1)
    }

    /// The preceding variant of `ALL`; the first wraps to the last.
    pub fn previous(self) -> (r: Self)
        ensures
            r == self.spec_previous(),
    {
        Self::from_index(self.index() + 6 - 1)
    }

    pub open spec fn spec_label(self) -> Seq<char> {
        match self {
            Self::Off => "Off"@,
            Self::Player1 => "Player 1"@,
            Self::Player2 => "Player 2"@,
            Self::Player3 => "Player 3"@,
            Self::Player4 => "Player 4"@,
            Self::Player5 => "Player 5"@,
        }
    }

    /// The name shown to the user.
    pub fn label(self) -> (r: &'static str)
        ensures
            r@ == self.spec_label(),
    {
        match self {
            Self::Off => "Off",
            Self::Player1 => "Player 1",
            Self::Player2 => "Player 2",
            Self::Player3 => "Player 3",
            Self::Player4 => "Player 4",
            Self::Player5 => "Player 5",
        }
    }

}

/// Every variant of `PlayerIndicator` sits at one position of the cycle, and that
/// position leads back to it.
pub proof fn lemma_player_indicator_index(x: PlayerIndicator)
    ensures
        0 <= x.spec_index() < 6,
        PlayerIndicator::spec_at(x.spec_index()) == x,
{
}

/// Stepping forward and then back, or back and then forward, returns to
/// the same `PlayerIndicator`, and a step always moves to another variant.
pub proof fn lemma_player_indicator_cycle(x: PlayerIndicator)
    ensures
        x.spec_next().spec_previous() == x,
        x.spec_previous().spec_next() == x,
        x.spec_next() != x,
{
}

impl PlayerIndicator {
    pub open spec fn spec_led_mask(self) -> u8 {
        match self {
            PlayerIndicator::Off => 0b00000,
            PlayerIndicator::Player1 => 0b00100,
            PlayerIndicator::Player2 => 0b01010,
            PlayerIndicator::Player3 => 0b10101,
            PlayerIndicator::Player4 => 0b11011,
            PlayerIndicator::Player5 => 0b11111,
        }
    }

    /// The five player LEDs, lowest bit leftmost.
    pub fn led_mask(self) -> (r: u8)
        ensures
            r == self.spec_led_mask(),
            r < 32,
    {
        match self {
            PlayerIndicator::Off => 0b00000,
            PlayerIndicator::Player1 => 0b00100,
            PlayerIndicator::Player2 => 0b01010,
            PlayerIndicator::Player3 => 0b10101,
            PlayerIndicator::Player4 => 0b11011,
            PlayerIndicator::Player5 => 0b11111,
        }
    }
}

} // verus!
