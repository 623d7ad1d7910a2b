//! The texts of the message line.

use vstd::prelude::*;
use vstd::string::*;
use crate::channel::{ChannelIndex, ChannelState, ValueType, GLOBAL_LED, NO_LED};
use crate::text::{push_signed, signed_decimal};

verus! {

/// `prefix`, a channel number, " to " and a mode name: the shape of every
/// message about setting a channel's mode.
pub open spec fn led_mode_text(prefix: Seq<char>, led: int, mode: ChannelState) -> Seq<char> {
    prefix + signed_decimal(led) + " to "@ + mode.label()
}

/// Shown while a channel's mode is being set.
pub open spec fn setting_text(led: int, mode: ChannelState) -> Seq<char> {
    led_mode_text("Setting LED "@, led, mode)
}

/// Reports how setting a channel's mode went.
pub open spec fn set_result_text(led: int, mode: ChannelState, ok: bool) -> Seq<char> {
    if ok {
        led_mode_text("Set LED "@, led, mode)
    } else {
        led_mode_text("Failed to set LED "@, led, mode)
    }
}

/// Confirms a new selection.
pub open spec fn selection_text(led: int) -> Seq<char> {
    if led == GLOBAL_LED {
        "Selected Global"@
    } else if led == NO_LED {
        "No LED selected"@
    } else {
        "Selected LED "@ + signed_decimal(led)
    }
}

/// Confirms a new value type.
pub open spec fn value_type_text(ty: ValueType) -> Seq<char> {
    "Selected "@ + ty.label() + " Value"@
}

/// Reports a key that asks for nothing.
pub open spec fn unknown_text(code: i32) -> Seq<char> {
    "Unknown key-press "@ + signed_decimal(code as int)
}

/// Reports that the device's state could not be fetched; `detail` is
/// whatever is known about the failure.
pub open spec fn fetch_failure_text(detail: Seq<char>) -> Seq<char> {
    "Failure to get PCA9956B info: "@ + detail + "\n"@
}

fn led_mode_message(prefix: &str, led: i32, mode: ChannelState) -> (message: String)
    ensures
        message@ == led_mode_text(prefix@, led as int, mode),
{
    let mut message = String::from_str(prefix);
    push_signed(&mut message, led);
    message.append(" to ");
    message.append(mode.to_string().as_str());
    message
}

/// The message shown while channel `led` is being put into `mode`.
pub fn setting_message(led: i32, mode: ChannelState) -> (message: String)
    ensures
        message@ == setting_text(led as int, mode),
{
    led_mode_message("Setting LED ", led, mode)
}

/// The message that reports whether channel `led` was put into `mode`.
pub fn set_result_message(led: i32, mode: ChannelState, ok: bool) -> (message: String)
    ensures
        message@ == set_result_text(led as int, mode, ok),
{
    if ok {
        led_mode_message("Set LED ", led, mode)
    } else {
        led_mode_message("Failed to set LED ", led, mode)
    }
}

/// The message that confirms the selection `led`.
pub fn selection_message(led: ChannelIndex) -> (message: String)
    ensures
        message@ == selection_text(led.value()),
{
    let led = led.raw();
    if led == GLOBAL_LED {
        String::from_str("Selected Global")
    } else if led == NO_LED {
        String::from_str("No LED selected")
    } else {
        let mut message = String::from_str("Selected LED ");
        push_signed(&mut message, led);
        message
    }
}

/// The message that confirms the value type `ty`.
pub fn value_type_message(ty: ValueType) -> (message: String)
    ensures
        message@ == value_type_text(ty),
{
    let mut message = String::from_str("Selected ");
    message.append(ty.to_string().as_str());
    message.append(" Value");
    message
}

/// The message that reports the unknown key `code`.
pub fn unknown_message(code: i32) -> (message: String)
    ensures
        message@ == unknown_text(code),
{
    let mut message = String::from_str("Unknown key-press ");
    push_signed(&mut message, code);
    message
}

/// The message that reports a failed fetch.
pub fn fetch_failure_message(detail: &str) -> (message: String)
    ensures
        message@ == fetch_failure_text(detail@),
{
    let mut message = String::from_str("Failure to get PCA9956B info: ");
    message.append(detail);
    message.append("\n");
    message
}

} // verus!
