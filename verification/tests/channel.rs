use pca9956b_cli::channel::{
    get_value, valid_led, ChannelError, ChannelIndex, ChannelState, ChannelStatus,
    SelectionModel, ValueType, GLOBAL_LED, NO_LED, NUM_LEDS,
};

fn status(index: u8, state: ChannelState, current: u8, pwm: u8) -> ChannelStatus {
    ChannelStatus { index, state, error: ChannelError::NoError, current, pwm }
}

fn snapshot() -> Vec<ChannelStatus> {
    (0..24u8).map(|i| status(i, ChannelState::Off, 10 + i, 100 + i)).collect()
}

#[test]
fn only_channel_numbers_are_valid_leds() {
    assert!(!valid_led(-2));
    assert!(!valid_led(NO_LED));
    assert!(valid_led(0));
    assert!(valid_led(23));
    assert!(!valid_led(GLOBAL_LED));
    assert!(!valid_led(25));
    assert!(!valid_led(i32::MAX));
    assert!(!valid_led(i32::MIN));
}

#[test]
fn there_are_24_channels() {
    assert_eq!(NUM_LEDS, 24);
    assert_eq!(NO_LED, -1);
    assert_eq!(GLOBAL_LED, 24);
}

#[test]
fn selections_range_from_none_to_global() {
    assert_eq!(ChannelIndex::new(-2), None);
    assert_eq!(ChannelIndex::new(25), None);
    assert_eq!(ChannelIndex::new(-1), Some(ChannelIndex::none()));
    assert_eq!(ChannelIndex::new(24), Some(ChannelIndex::global()));
    for raw in -1..=24 {
        assert_eq!(ChannelIndex::new(raw).unwrap().raw(), raw);
    }
    assert_eq!(ChannelIndex::none().raw(), NO_LED);
    assert_eq!(ChannelIndex::global().raw(), GLOBAL_LED);
}

#[test]
fn selection_keys_map_to_selections() {
    assert_eq!(ChannelIndex::from_cmd('p' as i32), Some(ChannelIndex::none()));
    assert_eq!(ChannelIndex::from_cmd('q' as i32), ChannelIndex::new(0));
    assert_eq!(ChannelIndex::from_cmd('i' as i32), ChannelIndex::new(7));
    assert_eq!(ChannelIndex::from_cmd('a' as i32), ChannelIndex::new(8));
    assert_eq!(ChannelIndex::from_cmd('k' as i32), ChannelIndex::new(15));
    assert_eq!(ChannelIndex::from_cmd('z' as i32), ChannelIndex::new(16));
    assert_eq!(ChannelIndex::from_cmd(',' as i32), ChannelIndex::new(23));
    assert_eq!(ChannelIndex::from_cmd('o' as i32), Some(ChannelIndex::global()));
    assert_eq!(ChannelIndex::from_cmd('l' as i32), None);
    assert_eq!(ChannelIndex::from_cmd('Q' as i32), None);
    assert_eq!(ChannelIndex::from_cmd(-1), None);
}

#[test]
fn mode_keys_map_to_modes() {
    assert_eq!(ChannelState::from_cmd('1' as i32), Some(ChannelState::Off));
    assert_eq!(ChannelState::from_cmd('2' as i32), Some(ChannelState::On));
    assert_eq!(ChannelState::from_cmd('3' as i32), Some(ChannelState::Pwm));
    assert_eq!(ChannelState::from_cmd('4' as i32), Some(ChannelState::PwmPlus));
    assert_eq!(ChannelState::from_cmd('0' as i32), None);
    assert_eq!(ChannelState::from_cmd('5' as i32), None);
}

#[test]
fn value_keys_map_to_value_types() {
    assert_eq!(ValueType::from_cmd('5' as i32), Some(ValueType::Current));
    assert_eq!(ValueType::from_cmd('6' as i32), Some(ValueType::Pwm));
    assert_eq!(ValueType::from_cmd('4' as i32), None);
    assert_eq!(ValueType::from_cmd('7' as i32), None);
}

#[test]
fn modes_and_value_types_have_names() {
    assert_eq!(ChannelState::Off.to_string(), "Off");
    assert_eq!(ChannelState::On.to_string(), "On");
    assert_eq!(ChannelState::Pwm.to_string(), "PWM");
    assert_eq!(ChannelState::PwmPlus.to_string(), "PWMPlus");
    assert_eq!(ValueType::Current.to_string(), "Current");
    assert_eq!(ValueType::Pwm.to_string(), "PWM");
}

#[test]
fn every_mode_and_fault_has_its_own_glyph() {
    assert_eq!(ChannelState::Off.glyph(), '.');
    assert_eq!(ChannelState::On.glyph(), 'o');
    assert_eq!(ChannelState::Pwm.glyph(), 'p');
    assert_eq!(ChannelState::PwmPlus.glyph(), '+');
    assert_eq!(ChannelError::NoError.glyph(), '.');
    assert_eq!(ChannelError::Open.glyph(), 'o');
    assert_eq!(ChannelError::Short.glyph(), 's');
    assert_eq!(ChannelError::DoesNotExist.glyph(), 'x');
}

#[test]
fn the_focus_starts_empty() {
    let state = SelectionModel::new();
    assert_eq!(state.selected, ChannelIndex::none());
    assert_eq!(state.value_type, None);
    assert_eq!(state.new_value, None);
}

#[test]
fn get_value_reads_the_selected_channel() {
    let info = snapshot();
    let led = ChannelIndex::new(5).unwrap();
    assert_eq!(get_value(&info, ValueType::Current, led), Some(15));
    assert_eq!(get_value(&info, ValueType::Pwm, led), Some(105));
    let last = ChannelIndex::new(23).unwrap();
    assert_eq!(get_value(&info, ValueType::Current, last), Some(33));
    assert_eq!(get_value(&info, ValueType::Pwm, last), Some(123));
}

#[test]
fn get_value_has_nothing_for_none_and_global() {
    let info = snapshot();
    assert_eq!(get_value(&info, ValueType::Current, ChannelIndex::none()), None);
    assert_eq!(get_value(&info, ValueType::Pwm, ChannelIndex::global()), None);
}

#[test]
fn get_value_has_nothing_beyond_the_snapshot() {
    let empty: Vec<ChannelStatus> = Vec::new();
    let led = ChannelIndex::new(0).unwrap();
    assert_eq!(get_value(&empty, ValueType::Current, led), None);
    let short: Vec<ChannelStatus> = snapshot().into_iter().take(5).collect();
    assert_eq!(get_value(&short, ValueType::Pwm, ChannelIndex::new(4).unwrap()), Some(104));
    assert_eq!(get_value(&short, ValueType::Pwm, ChannelIndex::new(5).unwrap()), None);
}
