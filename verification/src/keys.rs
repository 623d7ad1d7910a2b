//! Key codes the panel reacts to, and the table that assigns a key to
//! every channel selection.

use vstd::prelude::*;

verus! {

/// What a non-blocking read reports when no key is waiting.
pub const NO_KEY: i32 = -1;

/// Line feed: refresh everything.
pub const CMD_ENTER: i32 = 10;

/// Escape: alone it ends the session; it also introduces the cursor keys.
pub const CMD_ESC: i32 = 27;

/// `1`
pub const CMD_MODE_OFF: i32 = 49;

/// `2`
pub const CMD_MODE_ON: i32 = 50;

/// `3`
pub const CMD_MODE_PWM: i32 = 51;

/// `4`
pub const CMD_MODE_PWMPLUS: i32 = 52;

/// The keys that set an operating mode.
pub const CMD_MODES: [i32; 4] = [CMD_MODE_OFF, CMD_MODE_ON, CMD_MODE_PWM, CMD_MODE_PWMPLUS];

/// `5`
pub const CMD_VALUE_CURRENT: i32 = 53;

/// `6`
pub const CMD_VALUE_PWM: i32 = 54;

/// The keys that pick a per-channel value type.
pub const CMD_VALUES_LED: [i32; 2] = [CMD_VALUE_CURRENT, CMD_VALUE_PWM];

/// `[`, the second byte of a cursor-key sequence.
pub const CMD_BRACKET: i32 = 91;

/// `A`, the last byte of the cursor-up sequence.
pub const CMD_UP: i32 = 65;

/// `B`, the last byte of the cursor-down sequence.
pub const CMD_DOWN: i32 = 66;

/// How many keys select a channel, counting the two for "none" and "all".
pub const NUM_LED_KEYS: usize = 26;

/// The selection keys, three keyboard rows of eight channels each between
/// the key for "none" and the key for "all".
pub const CMD_LEDS: [i32; 26] = [
    112,  // p: no channel
    113,  // q: channel 0
    119,  // w
    101,  // e
    114,  // r
    116,  // t
    121,  // y
    117,  // u
    105,  // i
    97,  // a: channel 8
    115,  // s
    100,  // d
    102,  // f
    103,  // g
    104,  // h
    106,  // j
    107,  // k
    122,  // z: channel 16
    120,  // x
    99,  // c
    118,  // v
    98,  // b
    110,  // n
    109,  // m
    44,  // comma: channel 23
    111,  // o: all channels
];

/// The place of `ch` in the table of selection keys, if it is one of them.
pub open spec fn key_position(ch: i32) -> Option<int> {
    CMD_LEDS@.index_of_first(ch)
}

/// Whether `ch` is one of the mode keys.
pub open spec fn is_mode_key(ch: i32) -> bool {
    CMD_MODES@.contains(ch)
}

/// Whether `ch` is one of the value-type keys.
pub open spec fn is_value_key(ch: i32) -> bool {
    CMD_VALUES_LED@.contains(ch)
}

/// No key appears twice in the table of selection keys.
pub proof fn lemma_led_keys_distinct()
    ensures
        forall|i: int, j: int|
            0 <= i < j < NUM_LED_KEYS ==> #[trigger] CMD_LEDS@[i] != #[trigger] CMD_LEDS@[j],
{
}

/// A key of the selection table sits at exactly the position it was given.
pub proof fn lemma_key_position(p: int)
    requires
        0 <= p < NUM_LED_KEYS,
    ensures
        key_position(CMD_LEDS@[p]) == Some(p),
{
    lemma_led_keys_distinct();
    CMD_LEDS@.index_of_first_ensures(CMD_LEDS@[p]);
    assert(CMD_LEDS@.contains(CMD_LEDS@[p]));
}

/// A position in the table of selection keys is one of its 26 places.
pub proof fn lemma_key_position_bound(ch: i32)
    ensures
        key_position(ch) matches Some(p) ==> 0 <= p < NUM_LED_KEYS && CMD_LEDS@[p] == ch,
{
    CMD_LEDS@.index_of_first_ensures(ch);
}

/// The selection keys are letters and the comma: none of them is a control
/// key, a mode key or a value-type key.
pub proof fn lemma_led_keys_apart(p: int)
    requires
        0 <= p < NUM_LED_KEYS,
    ensures
        CMD_LEDS@[p] != CMD_ENTER,
        CMD_LEDS@[p] != CMD_ESC,
        !is_mode_key(CMD_LEDS@[p]),
        !is_value_key(CMD_LEDS@[p]),
{
}

/// Finds `ch` in the table of selection keys.
pub fn find_led_key(ch: i32) -> (found: Option<usize>)
    ensures
        match found {
            Some(p) => key_position(ch) == Some(p as int),
            None => key_position(ch).is_none(),
        },
{
    let mut p: usize = 0;
    while p < NUM_LED_KEYS
        invariant
            p <= NUM_LED_KEYS,
            forall|q: int| 0 <= q < p ==> CMD_LEDS@[q] != ch,
        decreases NUM_LED_KEYS - p,
    {
        if CMD_LEDS[p] == ch {
            proof {
                CMD_LEDS@.index_of_first_ensures(ch);
                assert(CMD_LEDS@.contains(ch));
            }
            return Some(p);
        }
        p = p + 1;
    }
    proof {
        CMD_LEDS@.index_of_first_ensures(ch);
    }
    None
}

} // verus!
