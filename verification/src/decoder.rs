//! From key codes to commands.
//!
//! A key is one code, except for the cursor keys, which arrive as an escape
//! followed by two more codes. An escape alone means "quit", so after an
//! escape the decoder asks for up to two more codes without waiting for
//! them: it never blocks on a sequence that is not coming.

use vstd::prelude::*;
use crate::channel::{lemma_mode_keys, lemma_value_keys, ChannelIndex, ChannelState, ValueType};
use crate::keys::{
    key_position, lemma_key_position, lemma_key_position_bound, lemma_led_keys_apart,
    CMD_BRACKET, CMD_DOWN, CMD_ENTER, CMD_ESC, CMD_LEDS, CMD_UP, NO_KEY, NUM_LED_KEYS,
};

verus! {

/// What the user asks the panel to do.
#[derive(Clone, Copy, Debug, PartialEq, Eq, Structural)]
pub enum Command {
    /// Fetch the state of all channels again.
    Refresh,
    /// Put the selected channels into this mode.
    SetMode(ChannelState),
    /// Change the selection.
    SelectChannel(ChannelIndex),
    /// Change the value type in focus.
    SelectValueType(ValueType),
    /// Cursor up.
    AdjustUp,
    /// Cursor down.
    AdjustDown,
    /// Reserved for committing an edited value; no key asks for it.
    Apply,
    /// End the session.
    Quit,
    /// A key, given by its code, that asks for nothing.
    Unknown(i32),
}

/// The command of a key that starts no sequence: refresh, a mode, a
/// selection, a value type, or nothing the panel knows.
pub open spec fn key_command(ch: i32) -> Command {
    if ch == CMD_ENTER {
        Command::Refresh
    } else if let Some(mode) = ChannelState::for_key(ch) {
        Command::SetMode(mode)
    } else if let Some(ix) = ChannelIndex::for_key(ch) {
        Command::SelectChannel(ix)
    } else if let Some(ty) = ValueType::for_key(ch) {
        Command::SelectValueType(ty)
    } else {
        Command::Unknown(ch)
    }
}

/// The command of an escape that was followed by the codes `first` and
/// `second`: a bracket and one of two letters make a cursor key, anything
/// else is reported as an unknown escape.
pub open spec fn escape_command(first: i32, second: i32) -> Command {
    if first == CMD_BRACKET && second == CMD_UP {
        Command::AdjustUp
    } else if first == CMD_BRACKET && second == CMD_DOWN {
        Command::AdjustDown
    } else {
        Command::Unknown(CMD_ESC)
    }
}

/// How far the decoder is into a key sequence.
#[derive(Clone, Copy, Debug, PartialEq, Eq, Structural)]
pub enum Decoder {
    /// Between keys.
    Idle,
    /// An escape has arrived.
    Escape,
    /// An escape and one more code have arrived.
    EscapeThen(i32),
}

/// What the decoder makes of one more code.
#[derive(Clone, Copy, Debug, PartialEq, Eq, Structural)]
pub enum Decoded {
    /// The sequence goes on: read again, in the way the new state asks for.
    Pending(Decoder),
    /// The sequence is complete.
    Done(Command),
}

impl Decoder {
    /// Whether the next code is worth waiting for. Only the first code of a
    /// sequence is: what follows an escape is either there already or not
    /// coming.
    pub open spec fn blocking(self) -> bool {
        self is Idle
    }

    /// How many more codes the decoder may ask for before it is done.
    pub open spec fn budget(self) -> nat {
        match self {
            Decoder::Idle => 3,
            Decoder::Escape => 2,
            Decoder::EscapeThen(_) => 1,
        }
    }

    /// The decoder's reaction to the code `ch`, where `NO_KEY` stands for a
    /// read that found nothing.
    pub open spec fn step(self, ch: i32) -> Decoded {
        match self {
            Decoder::Idle => if ch == CMD_ESC {
                Decoded::Pending(Decoder::Escape)
            } else {
                Decoded::Done(key_command(ch))
            },
            Decoder::Escape => if ch == NO_KEY {
                Decoded::Done(Command::Quit)
            } else {
                Decoded::Pending(Decoder::EscapeThen(ch))
            },
            Decoder::EscapeThen(first) => Decoded::Done(escape_command(first, ch)),
        }
    }

    /// A decoder between keys.
    pub fn new() -> (decoder: Self)
        ensures
            decoder == Decoder::Idle,
    {
        Decoder::Idle
    }

    /// Whether to wait for the next code or to take only what is there.
    pub fn wait_for_key(&self) -> (wait: bool)
        ensures
            wait == self.blocking(),
    {
        match self {
            Decoder::Idle => true,
            _ => false,
        }
    }

    /// Takes the next code. A sequence that goes on asks for strictly fewer
    /// codes than before, none of them waited for.
    pub fn feed(self, ch: i32) -> (decoded: Decoded)
        ensures
            decoded == self.step(ch),
            decoded matches Decoded::Pending(next) ==> !next.blocking() && next.budget()
                < self.budget(),
            self.budget() == 1 ==> decoded is Done,
    {
        match self {
            Decoder::Idle => {
                if ch == CMD_ESC {
                    Decoded::Pending(Decoder::Escape)
                } else {
                    Decoded::Done(decode_key(ch))
                }
            },
            Decoder::Escape => {
                if ch == NO_KEY {
                    Decoded::Done(Command::Quit)
                } else {
                    Decoded::Pending(Decoder::EscapeThen(ch))
                }
            },
            Decoder::EscapeThen(first) => {
                if first == CMD_BRACKET && ch == CMD_UP {
                    Decoded::Done(Command::AdjustUp)
                } else if first == CMD_BRACKET && ch == CMD_DOWN {
                    Decoded::Done(Command::AdjustDown)
                } else {
                    Decoded::Done(Command::Unknown(CMD_ESC))
                }
            },
        }
    }
}

/// Looks a single key up in the tables.
pub fn decode_key(ch: i32) -> (command: Command)
    ensures
        command == key_command(ch),
{
    if ch == CMD_ENTER {
        return Command::Refresh;
    }
    if let Some(mode) = ChannelState::from_cmd(ch) {
        return Command::SetMode(mode);
    }
    if let Some(ix) = ChannelIndex::from_cmd(ch) {
        return Command::SelectChannel(ix);
    }
    if let Some(ty) = ValueType::from_cmd(ch) {
        return Command::SelectValueType(ty);
    }
    Command::Unknown(ch)
}

/// The code at place `i` of what was typed, and `NO_KEY` where nothing was
/// typed any more.
pub open spec fn code_at(codes: Seq<i32>, i: int) -> i32 {
    if 0 <= i < codes.len() {
        codes[i]
    } else {
        NO_KEY
    }
}

/// The command that the typed codes begin with. An escape with nothing
/// after it quits; an escape with something after it is a cursor key or
/// unknown; any other code is a command by itself.
pub open spec fn first_command(codes: Seq<i32>) -> Command {
    if code_at(codes, 0) != CMD_ESC {
        key_command(code_at(codes, 0))
    } else if code_at(codes, 1) == NO_KEY {
        Command::Quit
    } else {
        escape_command(code_at(codes, 1), code_at(codes, 2))
    }
}

/// The code at place `i`, or `NO_KEY` beyond the end.
fn code(codes: &[i32], i: usize) -> (ch: i32)
    ensures
        ch == code_at(codes@, i as int),
{
    if i < codes.len() {
        codes[i]
    } else {
        NO_KEY
    }
}

/// Decodes the command at the start of `codes`, the codes that were typed
/// before the terminal fell silent.
pub fn decode(codes: &[i32]) -> (command: Command)
    ensures
        command == first_command(codes@),
{
    match Decoder::new().feed(code(codes, 0)) {
        Decoded::Done(command) => command,
        Decoded::Pending(escape) => match escape.feed(code(codes, 1)) {
            Decoded::Done(command) => command,
            Decoded::Pending(then) => match then.feed(code(codes, 2)) {
                Decoded::Done(command) => command,
                Decoded::Pending(_) => Command::Unknown(CMD_ESC),
            },
        },
    }
}

/// No key is known to two tables, so it does not matter in which order the
/// tables are asked: a key that one of them knows means what that table
/// says.
pub proof fn lemma_one_table_per_key(ch: i32)
    ensures
        ChannelState::for_key(ch) matches Some(mode) ==> ch != CMD_ENTER && ch != CMD_ESC
            && ChannelIndex::for_key(ch) is None && ValueType::for_key(ch) is None
            && key_command(ch) == Command::SetMode(mode),
        ChannelIndex::for_key(ch) matches Some(ix) ==> ch != CMD_ENTER && ch != CMD_ESC
            && ChannelState::for_key(ch) is None && ValueType::for_key(ch) is None
            && key_command(ch) == Command::SelectChannel(ix),
        ValueType::for_key(ch) matches Some(ty) ==> ch != CMD_ENTER && ch != CMD_ESC
            && ChannelState::for_key(ch) is None && ChannelIndex::for_key(ch) is None
            && key_command(ch) == Command::SelectValueType(ty),
{
    lemma_key_position_bound(ch);
    if let Some(p) = key_position(ch) {
        lemma_led_keys_apart(p);
        lemma_mode_keys(ch);
        lemma_value_keys(ch);
    }
}

/// Every key of the selection table selects what its place in the table
/// says: the first key no channel, the last key all channels, and the key
/// at place `p` in between channel `p - 1`.
pub proof fn lemma_led_keys_select(p: int)
    requires
        0 <= p < NUM_LED_KEYS,
    ensures
        key_command(CMD_LEDS@[p]) == Command::SelectChannel(ChannelIndex::at(p - 1)),
        Decoder::Idle.step(CMD_LEDS@[p]) == Decoded::Done(
            Command::SelectChannel(ChannelIndex::at(p - 1)),
        ),
        first_command(seq![CMD_LEDS@[p]]) == Command::SelectChannel(ChannelIndex::at(p - 1)),
{
    lemma_key_position(p);
    lemma_led_keys_apart(p);
    lemma_mode_keys(CMD_LEDS@[p]);
    lemma_value_keys(CMD_LEDS@[p]);
}

} // verus!
