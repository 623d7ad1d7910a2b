use pca9956b_cli::channel::{ChannelIndex, ChannelState, ValueType};
use pca9956b_cli::messages::{
    fetch_failure_message, selection_message, set_result_message, setting_message,
    unknown_message, value_type_message,
};

#[test]
fn setting_a_mode_is_announced() {
    assert_eq!(setting_message(0, ChannelState::Off), "Setting LED 0 to Off");
    assert_eq!(setting_message(23, ChannelState::PwmPlus), "Setting LED 23 to PWMPlus");
}

#[test]
fn the_outcome_of_setting_a_mode_is_reported() {
    assert_eq!(set_result_message(7, ChannelState::On, true), "Set LED 7 to On");
    assert_eq!(set_result_message(7, ChannelState::On, false), "Failed to set LED 7 to On");
    assert_eq!(set_result_message(12, ChannelState::Pwm, true), "Set LED 12 to PWM");
    assert_eq!(set_result_message(12, ChannelState::Pwm, false), "Failed to set LED 12 to PWM");
}

#[test]
fn a_new_selection_is_confirmed() {
    assert_eq!(selection_message(ChannelIndex::none()), "No LED selected");
    assert_eq!(selection_message(ChannelIndex::global()), "Selected Global");
    assert_eq!(selection_message(ChannelIndex::new(0).unwrap()), "Selected LED 0");
    assert_eq!(selection_message(ChannelIndex::new(23).unwrap()), "Selected LED 23");
}

#[test]
fn a_new_value_type_is_confirmed() {
    assert_eq!(value_type_message(ValueType::Current), "Selected Current Value");
    assert_eq!(value_type_message(ValueType::Pwm), "Selected PWM Value");
}

#[test]
fn an_unknown_key_is_reported_by_its_code() {
    assert_eq!(unknown_message(32), "Unknown key-press 32");
    assert_eq!(unknown_message(27), "Unknown key-press 27");
    assert_eq!(unknown_message(-1), "Unknown key-press -1");
}

#[test]
fn a_failed_fetch_is_reported_with_its_detail() {
    assert_eq!(
        fetch_failure_message("Err(timeout)"),
        "Failure to get PCA9956B info: Err(timeout)\n"
    );
    assert_eq!(fetch_failure_message(""), "Failure to get PCA9956B info: \n");
}
