use pca9956b_cli::channel::{
    ChannelError, ChannelIndex, ChannelState, ChannelStatus, SelectionModel, ValueType,
};
use pca9956b_cli::screen::{
    emit, emit_all, error_chars, output_info, output_selected, output_status, output_template,
    park, print_status_chars, selected_line, status_chars, RenderOp, StatusModel,
    CURSOR_COLUMN, CURSOR_LINE, ERRORS_LINE, INFO_COLUMN, INFO_LINE, LINE_DASHES, SELECTED_LINE,
    START_LINE, STATUS_LINE, SUMMARY_WIDTH,
};

fn channel(index: u8, state: ChannelState, error: ChannelError) -> ChannelStatus {
    ChannelStatus { index, state, error, current: index, pwm: 200 + index }
}

fn all_off() -> Vec<ChannelStatus> {
    (0..24u8).map(|i| channel(i, ChannelState::Off, ChannelError::NoError)).collect()
}

fn mixed() -> Vec<ChannelStatus> {
    let mut info = all_off();
    info[1].state = ChannelState::On;
    info[2].state = ChannelState::Pwm;
    info[3].state = ChannelState::PwmPlus;
    info[5].state = ChannelState::Pwm;
    info[23].state = ChannelState::On;
    info[1].error = ChannelError::Short;
    info[2].error = ChannelError::Open;
    info[3].error = ChannelError::DoesNotExist;
    info
}

fn focus(selected: i32, value_type: Option<ValueType>, new_value: Option<u32>) -> SelectionModel {
    SelectionModel { selected: ChannelIndex::new(selected).unwrap(), value_type, new_value }
}

fn parked() -> Vec<RenderOp> {
    vec![RenderOp::Move { line: 14, column: 78 }, RenderOp::Flush]
}

fn summary(ops: &[RenderOp]) -> String {
    assert_eq!(ops.len(), 3);
    assert_eq!(&ops[1..], &parked()[..]);
    match &ops[0] {
        RenderOp::MovePrint { line, column, text } => {
            assert_eq!((*line, *column), (SELECTED_LINE, 0));
            text.clone()
        },
        other => panic!("the summary starts with {:?}", other),
    }
}

#[test]
fn the_layout_is_fixed() {
    assert_eq!(START_LINE, 0);
    assert_eq!(STATUS_LINE, 9);
    assert_eq!(ERRORS_LINE, 10);
    assert_eq!(SELECTED_LINE, 12);
    assert_eq!((INFO_LINE, INFO_COLUMN), (14, 5));
    assert_eq!((CURSOR_LINE, CURSOR_COLUMN), (14, 78));
    assert_eq!(LINE_DASHES.len(), 80);
    assert_eq!(LINE_DASHES, format!("{}\n", "-".repeat(79)));
}

#[test]
fn a_pwm_channel_without_fault_shows_p_and_dot() {
    let mut info = all_off();
    info[5] = ChannelStatus {
        index: 5,
        state: ChannelState::Pwm,
        error: ChannelError::NoError,
        current: 0,
        pwm: 0,
    };
    let model = StatusModel::project(&focus(-1, None, None), &info);
    assert_eq!(model.glyphs(5), Some(('p', '.')));
    let status = status_chars(&info);
    let errors = error_chars(&info);
    assert_eq!((status[5], errors[5]), ('p', '.'));
    assert_eq!((info[5].state.glyph(), info[5].error.glyph()), ('p', '.'));
}

#[test]
fn the_status_model_holds_both_rows_and_the_summary() {
    let info = mixed();
    let state = focus(2, Some(ValueType::Pwm), None);
    let model = StatusModel::project(&state, &info);
    assert_eq!(model.status, status_chars(&info));
    assert_eq!(model.errors, error_chars(&info));
    assert_eq!(model.summary, selected_line(&state, &info));
    assert_eq!(
        model.summary,
        " Selected:  2  Status: PWM      Val Type: PWM      Cur Val: 202  New Val: ---"
    );
    assert_eq!(model.glyphs(0), Some(('.', '.')));
    assert_eq!(model.glyphs(1), Some(('o', 's')));
    assert_eq!(model.glyphs(2), Some(('p', 'o')));
    assert_eq!(model.glyphs(3), Some(('+', 'x')));
    assert_eq!(model.glyphs(23), Some(('o', '.')));
    assert_eq!(model.glyphs(24), None);
    assert_eq!(model.glyphs(usize::MAX), None);
}

#[test]
fn the_status_model_depends_on_nothing_but_focus_and_snapshot() {
    let state = focus(5, Some(ValueType::Current), None);
    assert_eq!(StatusModel::project(&state, &mixed()), StatusModel::project(&state, &mixed()));
    assert_ne!(StatusModel::project(&state, &mixed()), StatusModel::project(&state, &all_off()));
}

#[test]
fn the_summary_keeps_its_width() {
    assert_eq!(SUMMARY_WIDTH, 77);
    let info = mixed();
    let empty: Vec<ChannelStatus> = Vec::new();
    for led in -1..=24 {
        for value_type in [None, Some(ValueType::Current), Some(ValueType::Pwm)] {
            for new_value in [None, Some(0), Some(9), Some(10), Some(255), Some(999)] {
                let state = focus(led, value_type, new_value);
                assert_eq!(selected_line(&state, &info).chars().count(), SUMMARY_WIDTH);
                assert_eq!(selected_line(&state, &empty).chars().count(), SUMMARY_WIDTH);
            }
        }
    }
    let wide = focus(5, None, Some(1000));
    assert_eq!(selected_line(&wide, &info).chars().count(), SUMMARY_WIDTH + 1);
}

#[test]
fn each_channel_has_its_glyphs_at_its_own_position() {
    let info = mixed();
    let status: String = status_chars(&info).iter().collect();
    let errors: String = error_chars(&info).iter().collect();
    assert_eq!(status, ".op+.p.................o");
    assert_eq!(errors, ".sox....................");
}

#[test]
fn channels_without_an_entry_show_dots() {
    let empty: Vec<ChannelStatus> = Vec::new();
    assert_eq!(status_chars(&empty), ['.'; 24]);
    assert_eq!(error_chars(&empty), ['.'; 24]);
    let mut short = mixed();
    short.truncate(3);
    let status: String = status_chars(&short).iter().collect();
    let errors: String = error_chars(&short).iter().collect();
    assert_eq!(status, ".op.....................");
    assert_eq!(errors, ".so.....................");
}

#[test]
fn entries_beyond_the_last_channel_are_not_shown() {
    let mut long = all_off();
    long.push(channel(24, ChannelState::On, ChannelError::Short));
    long.push(channel(25, ChannelState::On, ChannelError::Short));
    assert_eq!(status_chars(&long), ['.'; 24]);
    assert_eq!(error_chars(&long), ['.'; 24]);
}

#[test]
fn a_row_is_written_in_groups_of_four() {
    let status = status_chars(&mixed());
    assert_eq!(print_status_chars(&status), ".op+ .p.. .... .... .... ...o ");
    assert_eq!(print_status_chars(&['.'; 24]), ".... .... .... .... .... .... ");
    let mut letters = ['a'; 24];
    for (i, c) in ('a'..='x').enumerate() {
        letters[i] = c;
    }
    assert_eq!(print_status_chars(&letters), "abcd efgh ijkl mnop qrst uvwx ");
}

#[test]
fn output_status_draws_both_rows_and_parks_the_cursor() {
    let ops = output_status(&mixed());
    let expected = vec![
        RenderOp::MovePrint { line: 9, column: 0, text: " Status: ".to_string() },
        RenderOp::Print { text: ".op+ .p.. .... .... .... ...o ".to_string() },
        RenderOp::Print { text: "    Key: . Off  p PWM  + PWMPlus o On".to_string() },
        RenderOp::MovePrint { line: 10, column: 0, text: " Errors: ".to_string() },
        RenderOp::Print { text: ".sox .... .... .... .... .... ".to_string() },
        RenderOp::Print { text: "    Key: . None o Open s Short   x DNE".to_string() },
        RenderOp::Move { line: 14, column: 78 },
        RenderOp::Flush,
    ];
    assert_eq!(ops, expected);
}

#[test]
fn output_status_of_an_empty_snapshot_is_all_dots() {
    let ops = output_status(&Vec::new());
    assert_eq!(ops.len(), 8);
    assert_eq!(ops[1], RenderOp::Print { text: ".... .... .... .... .... .... ".to_string() });
    assert_eq!(ops[4], RenderOp::Print { text: ".... .... .... .... .... .... ".to_string() });
}

#[test]
fn the_summary_of_an_empty_focus_is_all_placeholders() {
    let ops = output_selected(&focus(-1, None, None), &mixed());
    assert_eq!(
        summary(&ops),
        " Selected: --  Status: -------  Val Type: -------  Cur Val: ---  New Val: ---"
    );
}

#[test]
fn the_summary_of_a_channel_names_its_mode_and_value() {
    let info = mixed();
    assert_eq!(
        summary(&output_selected(&focus(5, Some(ValueType::Current), None), &info)),
        " Selected:  5  Status: PWM      Val Type: Current  Cur Val: 5    New Val: ---"
    );
    assert_eq!(
        summary(&output_selected(&focus(23, Some(ValueType::Pwm), None), &info)),
        " Selected: 23  Status: On       Val Type: PWM      Cur Val: 223  New Val: ---"
    );
    assert_eq!(
        summary(&output_selected(&focus(3, None, None), &info)),
        " Selected:  3  Status: PWMPlus  Val Type: -------  Cur Val: ---  New Val: ---"
    );
    assert_eq!(
        summary(&output_selected(&focus(0, Some(ValueType::Pwm), None), &info)),
        " Selected:  0  Status: Off      Val Type: PWM      Cur Val: 200  New Val: ---"
    );
}

#[test]
fn the_summary_of_global_never_reads_a_value() {
    let info = mixed();
    assert_eq!(
        summary(&output_selected(&focus(24, Some(ValueType::Pwm), None), &info)),
        " Selected: **  Status: -------  Val Type: PWM      Cur Val: ---  New Val: ---"
    );
    assert_eq!(
        summary(&output_selected(&focus(-1, Some(ValueType::Current), None), &info)),
        " Selected: --  Status: -------  Val Type: Current  Cur Val: ---  New Val: ---"
    );
}

#[test]
fn the_summary_shows_a_value_being_edited() {
    let info = mixed();
    assert_eq!(
        summary(&output_selected(&focus(5, Some(ValueType::Current), Some(42)), &info)),
        " Selected:  5  Status: PWM      Val Type: Current  Cur Val: 5    New Val: 42 "
    );
    assert_eq!(
        summary(&output_selected(&focus(5, None, Some(0)), &info)),
        " Selected:  5  Status: PWM      Val Type: -------  Cur Val: ---  New Val: 0  "
    );
}

#[test]
fn the_summary_of_a_channel_outside_the_snapshot_has_placeholders() {
    let empty: Vec<ChannelStatus> = Vec::new();
    assert_eq!(
        summary(&output_selected(&focus(7, Some(ValueType::Current), None), &empty)),
        " Selected:  7  Status: -------  Val Type: Current  Cur Val: ---  New Val: ---"
    );
}

#[test]
fn the_summary_agrees_with_the_standard_formatter() {
    let info = mixed();
    for led in 0..24 {
        let state = focus(led, Some(ValueType::Pwm), None);
        let expected = format!(
            " Selected: {:>2}  Status: {:<7}  Val Type: {:<7}  Cur Val: {:<3}  New Val: {:<3}",
            led,
            info[led as usize].state.to_string(),
            "PWM",
            info[led as usize].pwm,
            "---",
        );
        assert_eq!(summary(&output_selected(&state, &info)), expected);
    }
}

#[test]
fn output_info_replaces_the_message_line() {
    let ops = output_info("Pressed Up");
    let expected = vec![
        RenderOp::Move { line: 14, column: 5 },
        RenderOp::ClearToEol,
        RenderOp::Print { text: "Pressed Up".to_string() },
        RenderOp::Move { line: 14, column: 78 },
        RenderOp::Flush,
    ];
    assert_eq!(ops, expected);
    assert_eq!(output_info("")[2], RenderOp::Print { text: String::new() });
}

#[test]
fn output_template_draws_the_whole_frame() {
    let ops = output_template();
    let rule = LINE_DASHES.to_string();
    let print = |text: &str| RenderOp::Print { text: text.to_string() };
    let expected = vec![
        RenderOp::MovePrint { line: 0, column: 0, text: rule.clone() },
        print("                         --- PCA9956B Controller ---\n"),
        print(LINE_DASHES),
        print(" Select LED:  0-7 <q-i>  8-15 <a-k>  16-23 <z-,>  o (global)  p (none)\n"),
        print(" Select operation:  Off <1>  On <2>  PWM <3>  PWMPlus <4>\n"),
        print(" Select value:  5 Current  6 PWM  7 Offset  8 GRPFREQ  9 GRPPWM  0 DimBlnk\n"),
        print(" Modify selected value: <up> <down>   Apply selected value: <space>\n"),
        print(" Exit: <Esc>  Refresh All: <Enter>\n"),
        print(LINE_DASHES),
        print(" Status:                                   Key: . Off  p PWM  + PWMPlus o On\n"),
        print(" Errors:                                   Key: . None o Open s Short   x DNE\n"),
        print(LINE_DASHES),
        print("\n"),
        print(LINE_DASHES),
        print(" ... \n"),
        print(LINE_DASHES),
        RenderOp::Move { line: 14, column: 78 },
        RenderOp::Flush,
    ];
    assert_eq!(ops, expected);
}

#[test]
fn the_template_leaves_each_region_on_its_line() {
    let mut lines: Vec<String> = Vec::new();
    for op in output_template() {
        match op {
            RenderOp::MovePrint { text, .. } | RenderOp::Print { text } => {
                assert!(text.ends_with('\n'));
                lines.push(text);
            },
            _ => {},
        }
    }
    assert!(lines[STATUS_LINE as usize].starts_with(" Status:"));
    assert!(lines[ERRORS_LINE as usize].starts_with(" Errors:"));
    assert_eq!(lines[SELECTED_LINE as usize], "\n");
    assert!(lines[INFO_LINE as usize].starts_with(" ... "));
}

#[test]
fn emit_and_park_append() {
    let mut ops = vec![RenderOp::ClearToEol];
    emit(&mut ops, RenderOp::Flush);
    assert_eq!(ops, vec![RenderOp::ClearToEol, RenderOp::Flush]);
    park(&mut ops);
    assert_eq!(
        ops,
        vec![
            RenderOp::ClearToEol,
            RenderOp::Flush,
            RenderOp::Move { line: 14, column: 78 },
            RenderOp::Flush,
        ]
    );
    emit_all(&mut ops, vec![RenderOp::ClearToEol, RenderOp::ClearToEol]);
    assert_eq!(ops.len(), 6);
    assert_eq!(ops[4], RenderOp::ClearToEol);
    assert_eq!(ops[5], RenderOp::ClearToEol);
}

#[test]
fn a_channel_keeps_its_place_in_the_grouped_row() {
    let status = status_chars(&mixed());
    let row: Vec<char> = print_status_chars(&status).chars().collect();
    assert_eq!(row.len(), 30);
    for i in 0..24 {
        assert_eq!(row[i + i / 4], status[i]);
        if i % 4 == 3 {
            assert_eq!(row[i + i / 4 + 1], ' ');
        }
    }
}
