//! The data the panel works on: channel selections, operating modes, fault
//! states, value types, and one channel's status as the device reports it.

use vstd::prelude::*;
use vstd::string::*;
use crate::keys::{
    find_led_key, is_mode_key, is_value_key, key_position, lemma_key_position_bound, CMD_MODES,
    CMD_MODE_OFF, CMD_MODE_ON, CMD_MODE_PWM, CMD_MODE_PWMPLUS, CMD_VALUES_LED,
    CMD_VALUE_CURRENT, CMD_VALUE_PWM,
};

verus! {

/// The selection that names no channel.
pub const NO_LED: i32 = -1;

/// How many channels the device drives.
pub const NUM_LEDS: usize = 24;

/// The selection that names every channel at once. It can be written to,
/// never read from.
pub const GLOBAL_LED: i32 = 24;

/// Whether `led` is the number of a channel.
pub open spec fn is_led(led: int) -> bool {
    0 <= led < NUM_LEDS
}

/// Whether `led` names one single channel.
pub fn valid_led(led: i32) -> (valid: bool)
    ensures
        valid == is_led(led as int),
{
    led >= 0 && led < NUM_LEDS as i32
}

/// A channel selection: one channel, none, or all of them.
#[derive(Clone, Copy, Debug, PartialEq, Eq, Structural)]
pub struct ChannelIndex {
    pub(crate) raw: i32,
}

impl ChannelIndex {
    /// Every selection is `NO_LED`, a channel number, or `GLOBAL_LED`.
    #[verifier::type_invariant]
    pub open spec fn wf(self) -> bool {
        NO_LED <= self.value() <= GLOBAL_LED
    }

    /// The selection as a number.
    pub open(crate) spec fn value(self) -> int {
        self.raw as int
    }

    /// The selection whose number is `value`.
    pub open(crate) spec fn at(value: int) -> ChannelIndex {
        ChannelIndex { raw: value as i32 }
    }

    /// The selection a key stands for: its place in the key table, counted
    /// from `NO_LED`.
    pub open spec fn for_key(ch: i32) -> Option<ChannelIndex> {
        match key_position(ch) {
            Some(p) => Some(Self::at(p - 1)),
            None => None,
        }
    }

    /// No channel.
    pub fn none() -> (ix: Self)
        ensures
            ix == Self::at(NO_LED as int),
    {
        ChannelIndex { raw: NO_LED }
    }

    /// All channels.
    pub fn global() -> (ix: Self)
        ensures
            ix == Self::at(GLOBAL_LED as int),
    {
        ChannelIndex { raw: GLOBAL_LED }
    }

    /// The selection with the given number, if there is one.
    pub fn new(raw: i32) -> (ix: Option<Self>)
        ensures
            ix == if NO_LED <= raw <= GLOBAL_LED {
                Some(Self::at(raw as int))
            } else {
                None
            },
    {
        if NO_LED <= raw && raw <= GLOBAL_LED {
            Some(ChannelIndex { raw })
        } else {
            None
        }
    }

    /// The selection as a number between `NO_LED` and `GLOBAL_LED`.
    pub fn raw(&self) -> (raw: i32)
        ensures
            raw == self.value(),
            NO_LED <= raw <= GLOBAL_LED,
    {
        proof {
            use_type_invariant(self);
        }
        self.raw
    }

    /// The selection that the key `ch` asks for.
    pub fn from_cmd(ch: i32) -> (ix: Option<Self>)
        ensures
            ix == Self::for_key(ch),
    {
        match find_led_key(ch) {
            Some(p) => {
                proof {
                    lemma_key_position_bound(ch);
                }
                Some(ChannelIndex { raw: p as i32 - 1 })
            },
            None => None,
        }
    }
}

/// A channel's operating mode.
#[derive(Clone, Copy, Debug, PartialEq, Eq, Structural)]
pub enum ChannelState {
    Off,
    On,
    Pwm,
    PwmPlus,
}

impl ChannelState {
    /// The mode a key stands for.
    pub open spec fn for_key(ch: i32) -> Option<ChannelState> {
        if ch == CMD_MODE_OFF {
            Some(ChannelState::Off)
        } else if ch == CMD_MODE_ON {
            Some(ChannelState::On)
        } else if ch == CMD_MODE_PWM {
            Some(ChannelState::Pwm)
        } else if ch == CMD_MODE_PWMPLUS {
            Some(ChannelState::PwmPlus)
        } else {
            None
        }
    }

    /// The mode's name as the panel writes it.
    pub open spec fn label(self) -> Seq<char> {
        match self {
            ChannelState::Off => "Off"@,
            ChannelState::On => "On"@,
            ChannelState::Pwm => "PWM"@,
            ChannelState::PwmPlus => "PWMPlus"@,
        }
    }

    /// The character that stands for the mode in the status row.
    pub open spec fn glyph_of(self) -> char {
        match self {
            ChannelState::Off => '.',
            ChannelState::On => 'o',
            ChannelState::Pwm => 'p',
            ChannelState::PwmPlus => '+',
        }
    }

    /// The mode that the key `ch` asks for.
    pub fn from_cmd(ch: i32) -> (mode: Option<Self>)
        ensures
            mode == Self::for_key(ch),
    {
        if ch == CMD_MODE_OFF {
            Some(ChannelState::Off)
        } else if ch == CMD_MODE_ON {
            Some(ChannelState::On)
        } else if ch == CMD_MODE_PWM {
            Some(ChannelState::Pwm)
        } else if ch == CMD_MODE_PWMPLUS {
            Some(ChannelState::PwmPlus)
        } else {
            None
        }
    }

    /// The mode's name.
    pub fn to_string(&self) -> (name: String)
        ensures
            name@ == self.label(),
    {
        match self {
            ChannelState::Off => String::from_str("Off"),
            ChannelState::On => String::from_str("On"),
            ChannelState::Pwm => String::from_str("PWM"),
            ChannelState::PwmPlus => String::from_str("PWMPlus"),
        }
    }

    /// The mode's character in the status row.
    pub fn glyph(&self) -> (c: char)
        ensures
            c == self.glyph_of(),
    {
        match self {
            ChannelState::Off => '.',
            ChannelState::On => 'o',
            ChannelState::Pwm => 'p',
            ChannelState::PwmPlus => '+',
        }
    }
}

/// The keys that stand for a mode are exactly those of the mode table.
pub proof fn lemma_mode_keys(ch: i32)
    ensures
        ChannelState::for_key(ch) is Some <==> is_mode_key(ch),
{
    if is_mode_key(ch) {
        let i = choose|i: int| 0 <= i < CMD_MODES@.len() && CMD_MODES@[i] == ch;
        assert(CMD_MODES@[i] == ch);
    } else {
        assert(CMD_MODES@[0] == CMD_MODE_OFF);
        assert(CMD_MODES@[1] == CMD_MODE_ON);
        assert(CMD_MODES@[2] == CMD_MODE_PWM);
        assert(CMD_MODES@[3] == CMD_MODE_PWMPLUS);
    }
}

/// A channel's fault state.
#[derive(Clone, Copy, Debug, PartialEq, Eq, Structural)]
pub enum ChannelError {
    NoError,
    Open,
    Short,
    DoesNotExist,
}

impl ChannelError {
    /// The character that stands for the fault in the error row.
    pub open spec fn glyph_of(self) -> char {
        match self {
            ChannelError::NoError => '.',
            ChannelError::Open => 'o',
            ChannelError::Short => 's',
            ChannelError::DoesNotExist => 'x',
        }
    }

    /// The fault's character in the error row.
    pub fn glyph(&self) -> (c: char)
        ensures
            c == self.glyph_of(),
    {
        match self {
            ChannelError::NoError => '.',
            ChannelError::Open => 'o',
            ChannelError::Short => 's',
            ChannelError::DoesNotExist => 'x',
        }
    }
}

/// Which of a channel's values is in focus.
#[derive(Clone, Copy, Debug, PartialEq, Eq, Structural)]
pub enum ValueType {
    Current,
    Pwm,
}

impl ValueType {
    /// The value type a key stands for.
    pub open spec fn for_key(ch: i32) -> Option<ValueType> {
        if ch == CMD_VALUE_CURRENT {
            Some(ValueType::Current)
        } else if ch == CMD_VALUE_PWM {
            Some(ValueType::Pwm)
        } else {
            None
        }
    }

    /// The value type's name as the panel writes it.
    pub open spec fn label(self) -> Seq<char> {
        match self {
            ValueType::Current => "Current"@,
            ValueType::Pwm => "PWM"@,
        }
    }

    /// The value type that the key `ch` asks for.
    pub fn from_cmd(ch: i32) -> (ty: Option<Self>)
        ensures
            ty == Self::for_key(ch),
    {
        if ch == CMD_VALUE_CURRENT {
            Some(ValueType::Current)
        } else if ch == CMD_VALUE_PWM {
            Some(ValueType::Pwm)
        } else {
            None
        }
    }

    /// The value type's name.
    pub fn to_string(&self) -> (name: String)
        ensures
            name@ == self.label(),
    {
        match self {
            ValueType::Current => String::from_str("Current"),
            ValueType::Pwm => String::from_str("PWM"),
        }
    }
}

/// The keys that stand for a value type are exactly those of the value-type
/// table.
pub proof fn lemma_value_keys(ch: i32)
    ensures
        ValueType::for_key(ch) is Some <==> is_value_key(ch),
{
    if is_value_key(ch) {
        let i = choose|i: int| 0 <= i < CMD_VALUES_LED@.len() && CMD_VALUES_LED@[i] == ch;
        assert(CMD_VALUES_LED@[i] == ch);
    } else {
        assert(CMD_VALUES_LED@[0] == CMD_VALUE_CURRENT);
        assert(CMD_VALUES_LED@[1] == CMD_VALUE_PWM);
    }
}

/// One channel as the device reports it.
#[derive(Clone, Copy, Debug, PartialEq, Eq, Structural)]
pub struct ChannelStatus {
    /// The channel's number on the device.
    pub index: u8,
    pub state: ChannelState,
    pub error: ChannelError,
    /// The output current setting.
    pub current: u8,
    /// The duty-cycle setting.
    pub pwm: u8,
}

/// What the user has in focus: a selection, a value type, and a value being
/// edited but not yet applied.
#[derive(Clone, Copy, Debug, PartialEq, Eq, Structural)]
pub struct SelectionModel {
    pub selected: ChannelIndex,
    pub value_type: Option<ValueType>,
    pub new_value: Option<u32>,
}

impl SelectionModel {
    /// The focus at start-up: nothing selected, nothing being edited.
    pub fn new() -> (state: Self)
        ensures
            state == (SelectionModel {
                selected: ChannelIndex::at(NO_LED as int),
                value_type: None,
                new_value: None,
            }),
    {
        SelectionModel { selected: ChannelIndex::none(), value_type: None, new_value: None }
    }
}

/// The value of type `ty` that the snapshot `info` holds for the selection
/// `led`: there is one only for a single channel that the snapshot covers.
pub open spec fn value_of(info: Seq<ChannelStatus>, ty: ValueType, led: int) -> Option<u8> {
    if is_led(led) && led < info.len() {
        Some(
            match ty {
                ValueType::Current => info[led].current,
                ValueType::Pwm => info[led].pwm,
            },
        )
    } else {
        None
    }
}

/// Reads the value of type `ty` of the selected channel from the snapshot.
pub fn get_value(last_info: &Vec<ChannelStatus>, ty: ValueType, led: ChannelIndex) -> (value:
    Option<u8>)
    ensures
        value == value_of(last_info@, ty, led.value()),
{
    let led = led.raw();
    if valid_led(led) {
        let led = led as usize;
        if last_info.len() > led {
            Some(
                match ty {
                    ValueType::Current => last_info[led].current,
                    ValueType::Pwm => last_info[led].pwm,
                },
            )
        } else {
            None
        }
    } else {
        None
    }
}

} // verus!
