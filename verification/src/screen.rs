//! What the panel draws: the screen layout, the drawing instructions, and
//! the text of every region.

use vstd::prelude::*;
use vstd::string::*;
use crate::channel::{
    get_value, is_led, value_of, ChannelStatus, SelectionModel, ValueType, GLOBAL_LED, NO_LED,
    NUM_LEDS,
};
use crate::text::{
    dashes, decimal, format_i32, format_u32, left_aligned, lemma_decimal_width,
    push_left_aligned, push_right_aligned, repeat, right_aligned, signed_decimal,
};

verus! {

/// Where the template starts.
pub const START_LINE: i32 = 0;

/// The row of mode characters.
pub const STATUS_LINE: i32 = 9;

/// The row of fault characters.
pub const ERRORS_LINE: i32 = 10;

/// The selection summary.
pub const SELECTED_LINE: i32 = 12;

/// The line for passing messages.
pub const INFO_LINE: i32 = 14;

/// The column at which a message starts.
pub const INFO_COLUMN: i32 = 5;

/// Where the cursor rests between updates, so that a key the terminal
/// echoes lands outside every region.
pub const CURSOR_LINE: i32 = 14;

/// See `CURSOR_LINE`.
pub const CURSOR_COLUMN: i32 = 78;

/// One character per channel.
pub type CharStatus = [char; NUM_LEDS];

/// One instruction to the terminal.
#[derive(Clone, Debug, PartialEq, Eq)]
pub enum RenderOp {
    /// Write `text` starting at the given place.
    MovePrint { line: i32, column: i32, text: String },
    /// Write `text` where the cursor is.
    Print { text: String },
    /// Put the cursor at the given place.
    Move { line: i32, column: i32 },
    /// Erase from the cursor to the end of its line.
    ClearToEol,
    /// Bring the terminal up to date with everything drawn so far.
    Flush,
}

/// A drawing instruction with its text as a sequence of characters.
pub enum RenderOpView {
    MovePrint { line: i32, column: i32, text: Seq<char> },
    Print { text: Seq<char> },
    Move { line: i32, column: i32 },
    ClearToEol,
    Flush,
}

impl DeepView for RenderOp {
    type V = RenderOpView;

    open spec fn deep_view(&self) -> RenderOpView {
        match *self {
            RenderOp::MovePrint { line, column, text } => RenderOpView::MovePrint {
                line,
                column,
                text: text@,
            },
            RenderOp::Print { text } => RenderOpView::Print { text: text@ },
            RenderOp::Move { line, column } => RenderOpView::Move { line, column },
            RenderOp::ClearToEol => RenderOpView::ClearToEol,
            RenderOp::Flush => RenderOpView::Flush,
        }
    }
}

/// Adds one instruction to the end of a list.
pub fn emit(ops: &mut Vec<RenderOp>, op: RenderOp)
    ensures
        final(ops).deep_view() == old(ops).deep_view().push(op.deep_view()),
{
    ops.push(op);
    assert(ops.deep_view() =~= old(ops).deep_view().push(op.deep_view()));
}

/// Adds a list of instructions to the end of another.
pub fn emit_all(ops: &mut Vec<RenderOp>, more: Vec<RenderOp>)
    ensures
        final(ops).deep_view() == old(ops).deep_view() + more.deep_view(),
{
    let mut more = more;
    let ghost added = more.deep_view();
    ops.append(&mut more);
    assert(ops.deep_view() =~= old(ops).deep_view() + added);
}

/// The two instructions that end every update: the cursor goes back to its
/// resting place and the terminal is brought up to date.
pub open spec fn park_ops() -> Seq<RenderOpView> {
    seq![
        RenderOpView::Move { line: CURSOR_LINE, column: CURSOR_COLUMN },
        RenderOpView::Flush,
    ]
}

/// Ends an update.
pub fn park(ops: &mut Vec<RenderOp>)
    ensures
        final(ops).deep_view() == old(ops).deep_view() + park_ops(),
{
    emit(ops, RenderOp::Move { line: CURSOR_LINE, column: CURSOR_COLUMN });
    emit(ops, RenderOp::Flush);
    assert(ops.deep_view() =~= old(ops).deep_view() + park_ops());
}

/// The instructions that show `info` on the message line.
pub open spec fn info_ops(info: Seq<char>) -> Seq<RenderOpView> {
    seq![
        RenderOpView::Move { line: INFO_LINE, column: INFO_COLUMN },
        RenderOpView::ClearToEol,
        RenderOpView::Print { text: info },
    ] + park_ops()
}

/// Replaces the text of the message line.
pub fn output_info(info: &str) -> (ops: Vec<RenderOp>)
    ensures
        ops.deep_view() == info_ops(info@),
{
    let mut ops: Vec<RenderOp> = Vec::new();
    emit(&mut ops, RenderOp::Move { line: INFO_LINE, column: INFO_COLUMN });
    emit(&mut ops, RenderOp::ClearToEol);
    emit(&mut ops, RenderOp::Print { text: String::from_str(info) });
    park(&mut ops);
    assert(ops.deep_view() =~= info_ops(info@));
    ops
}

/// The row of mode characters for a snapshot: one for each channel, with
/// the character for "off" wherever the snapshot has no entry.
pub open spec fn status_glyphs(info: Seq<ChannelStatus>) -> Seq<char> {
    Seq::new(
        NUM_LEDS as nat,
        |i: int|
            if i < info.len() {
                info[i].state.glyph_of()
            } else {
                '.'
            },
    )
}

/// The row of fault characters for a snapshot: one for each channel, with
/// the character for "no fault" wherever the snapshot has no entry.
pub open spec fn error_glyphs(info: Seq<ChannelStatus>) -> Seq<char> {
    Seq::new(
        NUM_LEDS as nat,
        |i: int|
            if i < info.len() {
                info[i].error.glyph_of()
            } else {
                '.'
            },
    )
}

/// The mode characters of a snapshot.
pub fn status_chars(info: &Vec<ChannelStatus>) -> (status: CharStatus)
    ensures
        status@ == status_glyphs(info@),
{
    let mut status: CharStatus = ['.'; NUM_LEDS];
    let mut ii: usize = 0;
    while ii < NUM_LEDS && ii < info.len()
        invariant
            ii <= NUM_LEDS,
            ii <= info.len(),
            forall|k: int| 0 <= k < ii ==> status@[k] == info@[k].state.glyph_of(),
            forall|k: int| ii <= k < NUM_LEDS ==> status@[k] == '.',
        decreases NUM_LEDS - ii,
    {
        status[ii] = info[ii].state.glyph();
        ii = ii + 1;
    }
    assert(status@ =~= status_glyphs(info@));
    status
}

/// The fault characters of a snapshot.
pub fn error_chars(info: &Vec<ChannelStatus>) -> (errors: CharStatus)
    ensures
        errors@ == error_glyphs(info@),
{
    let mut errors: CharStatus = ['.'; NUM_LEDS];
    let mut ii: usize = 0;
    while ii < NUM_LEDS && ii < info.len()
        invariant
            ii <= NUM_LEDS,
            ii <= info.len(),
            forall|k: int| 0 <= k < ii ==> errors@[k] == info@[k].error.glyph_of(),
            forall|k: int| ii <= k < NUM_LEDS ==> errors@[k] == '.',
        decreases NUM_LEDS - ii,
    {
        errors[ii] = info[ii].error.glyph();
        ii = ii + 1;
    }
    assert(errors@ =~= error_glyphs(info@));
    errors
}

/// The characters of `arr` in groups of four, a space after each full group.
pub open spec fn grouped(arr: Seq<char>) -> Seq<char> {
    Seq::new(
        (arr.len() + arr.len() / 4) as nat,
        |j: int|
            if j % 5 == 4 {
                ' '
            } else {
                arr[j - j / 5]
            },
    )
}

/// In a grouped row every character keeps its order, moved right by one
/// place for each full group before it, and every fifth place is a space.
pub proof fn lemma_grouped_places(arr: Seq<char>, i: int)
    requires
        0 <= i < arr.len(),
    ensures
        grouped(arr).len() == arr.len() + arr.len() / 4,
        grouped(arr)[i + i / 4] == arr[i],
        i % 4 == 3 ==> grouped(arr)[i + i / 4 + 1] == ' ',
{
}

/// The text of one row of channel characters.
pub fn print_status_chars(arr: &CharStatus) -> (row: String)
    ensures
        row@ == grouped(arr@),
{
    let mut row = String::new();
    let mut ii: usize = 0;
    while ii < NUM_LEDS
        invariant
            ii <= NUM_LEDS,
            arr@.len() == NUM_LEDS,
            row@.len() == ii + ii / 4,
            forall|j: int|
                0 <= j < row@.len() ==> row@[j] == if j % 5 == 4 {
                    ' '
                } else {
                    arr@[j - j / 5]
                },
        decreases NUM_LEDS - ii,
    {
        row.push(arr[ii]);
        if (ii + 1) % 4 == 0 {
            row.push(' ');
        }
        ii = ii + 1;
    }
    assert(row@ =~= grouped(arr@));
    row
}

/// The instructions that redraw the two rows of channel characters.
pub open spec fn status_ops(info: Seq<ChannelStatus>) -> Seq<RenderOpView> {
    seq![
        RenderOpView::MovePrint { line: STATUS_LINE, column: 0, text: " Status: "@ },
        RenderOpView::Print { text: grouped(status_glyphs(info)) },
        RenderOpView::Print { text: "    Key: . Off  p PWM  + PWMPlus o On"@ },
        RenderOpView::MovePrint { line: ERRORS_LINE, column: 0, text: " Errors: "@ },
        RenderOpView::Print { text: grouped(error_glyphs(info)) },
        RenderOpView::Print { text: "    Key: . None o Open s Short   x DNE"@ },
    ] + park_ops()
}

/// Redraws the mode and fault rows from a snapshot.
pub fn output_status(info: &Vec<ChannelStatus>) -> (ops: Vec<RenderOp>)
    ensures
        ops.deep_view() == status_ops(info@),
{
    let status = status_chars(info);
    let errors = error_chars(info);
    let mut ops: Vec<RenderOp> = Vec::new();
    emit(
        &mut ops,
        RenderOp::MovePrint { line: STATUS_LINE, column: 0, text: String::from_str(" Status: ") },
    );
    emit(&mut ops, RenderOp::Print { text: print_status_chars(&status) });
    emit(
        &mut ops,
        RenderOp::Print { text: String::from_str("    Key: . Off  p PWM  + PWMPlus o On") },
    );
    emit(
        &mut ops,
        RenderOp::MovePrint { line: ERRORS_LINE, column: 0, text: String::from_str(" Errors: ") },
    );
    emit(&mut ops, RenderOp::Print { text: print_status_chars(&errors) });
    emit(
        &mut ops,
        RenderOp::Print { text: String::from_str("    Key: . None o Open s Short   x DNE") },
    );
    park(&mut ops);
    assert(ops.deep_view() =~= status_ops(info@));
    ops
}

/// How the summary names the selection: a channel by its number, all
/// channels by two stars, no channel by two dashes.
pub open spec fn selected_label(led: int) -> Seq<char> {
    if led == GLOBAL_LED {
        "**"@
    } else if led == NO_LED {
        repeat('-', 2)
    } else {
        signed_decimal(led)
    }
}

/// The mode of the selected channel as the snapshot has it, or dashes when
/// the selection is not one channel that the snapshot covers.
pub open spec fn state_label(info: Seq<ChannelStatus>, led: int) -> Seq<char> {
    if is_led(led) && led < info.len() {
        info[led].state.label()
    } else {
        repeat('-', 7)
    }
}

/// The name of the value type in focus, or dashes when there is none.
pub open spec fn value_type_label(value_type: Option<ValueType>) -> Seq<char> {
    match value_type {
        Some(ty) => ty.label(),
        None => repeat('-', 7),
    }
}

/// The value in focus as the snapshot has it, or dashes when no value type
/// is in focus or the selection has no value to read.
pub open spec fn value_label(
    info: Seq<ChannelStatus>,
    value_type: Option<ValueType>,
    led: int,
) -> Seq<char> {
    match value_type {
        Some(ty) => match value_of(info, ty, led) {
            Some(value) => decimal(value as nat),
            None => repeat('-', 3),
        },
        None => repeat('-', 3),
    }
}

/// The value being edited, or dashes when there is none.
pub open spec fn new_value_label(new_value: Option<u32>) -> Seq<char> {
    match new_value {
        Some(value) => decimal(value as nat),
        None => repeat('-', 3),
    }
}

/// The summary line: every field has its fixed width whether or not there
/// is something to show in it.
pub open spec fn selected_text(state: SelectionModel, info: Seq<ChannelStatus>) -> Seq<char> {
    " Selected: "@ + right_aligned(selected_label(state.selected.value()), 2) + "  Status: "@
        + left_aligned(state_label(info, state.selected.value()), 7) + "  Val Type: "@
        + left_aligned(value_type_label(state.value_type), 7) + "  Cur Val: "@ + left_aligned(
        value_label(info, state.value_type, state.selected.value()),
        3,
    ) + "  New Val: "@ + left_aligned(new_value_label(state.new_value), 3)
}

/// The instructions that redraw the selection summary.
pub open spec fn selected_ops(state: SelectionModel, info: Seq<ChannelStatus>) -> Seq<
    RenderOpView,
> {
    seq![
        RenderOpView::MovePrint {
            line: SELECTED_LINE,
            column: 0,
            text: selected_text(state, info),
        },
    ] + park_ops()
}

/// Writes the selection summary.
pub fn selected_line(state: &SelectionModel, last_info: &Vec<ChannelStatus>) -> (text: String)
    ensures
        text@ == selected_text(*state, last_info@),
{
    let led = state.selected.raw();
    let val_type = match state.value_type {
        Some(x) => x.to_string(),
        None => dashes(7),
    };
    let value = match state.value_type {
        Some(x) => match get_value(last_info, x, state.selected) {
            Some(x) => format_u32(x as u32),
            None => dashes(3),
        },
        None => dashes(3),
    };
    let selected;
    let status;
    if led == GLOBAL_LED {
        selected = String::from_str("**");
        status = dashes(7);
    } else if led == NO_LED {
        selected = dashes(2);
        status = dashes(7);
    } else if (led as usize) < last_info.len() {
        selected = format_i32(led);
        status = last_info[led as usize].state.to_string();
    } else {
        selected = format_i32(led);
        status = dashes(7);
    }
    let new_val = match state.new_value {
        Some(x) => format_u32(x),
        None => dashes(3),
    };
    let mut text = String::from_str(" Selected: ");
    push_right_aligned(&mut text, selected.as_str(), 2);
    text.append("  Status: ");
    push_left_aligned(&mut text, status.as_str(), 7);
    text.append("  Val Type: ");
    push_left_aligned(&mut text, val_type.as_str(), 7);
    text.append("  Cur Val: ");
    push_left_aligned(&mut text, value.as_str(), 3);
    text.append("  New Val: ");
    push_left_aligned(&mut text, new_val.as_str(), 3);
    assert(text@ =~= selected_text(*state, last_info@));
    text
}

/// Redraws the selection summary.
pub fn output_selected(state: &SelectionModel, last_info: &Vec<ChannelStatus>) -> (ops: Vec<
    RenderOp,
>)
    ensures
        ops.deep_view() == selected_ops(*state, last_info@),
{
    let text = selected_line(state, last_info);
    let mut ops: Vec<RenderOp> = Vec::new();
    emit(&mut ops, RenderOp::MovePrint { line: SELECTED_LINE, column: 0, text });
    park(&mut ops);
    assert(ops.deep_view() =~= selected_ops(*state, last_info@));
    ops
}

/// Everything the screen shows of the device and of the focus: a pair of
/// characters for each channel and the selection summary. It is made from
/// a snapshot and a focus and from nothing else.
#[derive(Clone, Debug, PartialEq, Eq)]
pub struct StatusModel {
    /// The mode character of each channel.
    pub status: CharStatus,
    /// The fault character of each channel.
    pub errors: CharStatus,
    /// The selection summary.
    pub summary: String,
}

/// What the screen shows, as sequences of characters.
pub struct StatusModelView {
    pub status: Seq<char>,
    pub errors: Seq<char>,
    pub summary: Seq<char>,
}

impl View for StatusModel {
    type V = StatusModelView;

    open spec fn view(&self) -> StatusModelView {
        StatusModelView { status: self.status@, errors: self.errors@, summary: self.summary@ }
    }
}

impl StatusModel {
    /// What the screen shows for the focus `state` and the snapshot `info`.
    pub open spec fn of(state: SelectionModel, info: Seq<ChannelStatus>) -> StatusModelView {
        StatusModelView {
            status: status_glyphs(info),
            errors: error_glyphs(info),
            summary: selected_text(state, info),
        }
    }

    /// Projects a focus and a snapshot onto what the screen shows of them.
    pub fn project(state: &SelectionModel, info: &Vec<ChannelStatus>) -> (model: StatusModel)
        ensures
            model@ == Self::of(*state, info@),
    {
        StatusModel {
            status: status_chars(info),
            errors: error_chars(info),
            summary: selected_line(state, info),
        }
    }

    /// The mode and fault characters at one position, if it is a channel's.
    pub fn glyphs(&self, position: usize) -> (pair: Option<(char, char)>)
        ensures
            pair == if position < NUM_LEDS {
                Some((self@.status[position as int], self@.errors[position as int]))
            } else {
                None
            },
    {
        if position < NUM_LEDS {
            Some((self.status[position], self.errors[position]))
        } else {
            None
        }
    }
}

/// The rule that frames the regions of the panel.
pub const LINE_DASHES: &'static str =
    "-------------------------------------------------------------------------------\n";

/// The instructions that draw the fixed part of the panel: the title, the
/// key reference, and an empty frame for every region.
pub open spec fn template_ops() -> Seq<RenderOpView> {
    seq![
        RenderOpView::MovePrint { line: START_LINE, column: 0, text: LINE_DASHES@ },
        RenderOpView::Print {
            text: "                         --- PCA9956B Controller ---\n"@,
        },
        RenderOpView::Print { text: LINE_DASHES@ },
        RenderOpView::Print {
            text: " Select LED:  0-7 <q-i>  8-15 <a-k>  16-23 <z-,>  o (global)  p (none)\n"@,
        },
        RenderOpView::Print {
            text: " Select operation:  Off <1>  On <2>  PWM <3>  PWMPlus <4>\n"@,
        },
        RenderOpView::Print {
            text: " Select value:  5 Current  6 PWM  7 Offset  8 GRPFREQ  9 GRPPWM  0 DimBlnk\n"@,
        },
        RenderOpView::Print {
            text: " Modify selected value: <up> <down>   Apply selected value: <space>\n"@,
        },
        RenderOpView::Print { text: " Exit: <Esc>  Refresh All: <Enter>\n"@ },
        RenderOpView::Print { text: LINE_DASHES@ },
        RenderOpView::Print {
            text: " Status:                                   Key: . Off  p PWM  + PWMPlus o On\n"@,
        },
        RenderOpView::Print {
            text: " Errors:                                   Key: . None o Open s Short   x DNE\n"@,
        },
        RenderOpView::Print { text: LINE_DASHES@ },
        RenderOpView::Print { text: "\n"@ },
        RenderOpView::Print { text: LINE_DASHES@ },
        RenderOpView::Print { text: " ... \n"@ },
        RenderOpView::Print { text: LINE_DASHES@ },
    ] + park_ops()
}

/// Adds the instruction that writes `text` at the cursor.
fn print(ops: &mut Vec<RenderOp>, text: &str)
    ensures
        final(ops).deep_view() == old(ops).deep_view().push(RenderOpView::Print { text: text@ }),
{
    emit(ops, RenderOp::Print { text: String::from_str(text) });
}

/// Draws the fixed part of the panel.
pub fn output_template() -> (ops: Vec<RenderOp>)
    ensures
        ops.deep_view() == template_ops(),
{
    let mut ops: Vec<RenderOp> = Vec::new();
    emit(
        &mut ops,
        RenderOp::MovePrint { line: START_LINE, column: 0, text: String::from_str(LINE_DASHES) },
    );
    print(&mut ops, "                         --- PCA9956B Controller ---\n");
    print(&mut ops, LINE_DASHES);
    print(&mut ops, " Select LED:  0-7 <q-i>  8-15 <a-k>  16-23 <z-,>  o (global)  p (none)\n");
    print(&mut ops, " Select operation:  Off <1>  On <2>  PWM <3>  PWMPlus <4>\n");
    print(
        &mut ops,
        " Select value:  5 Current  6 PWM  7 Offset  8 GRPFREQ  9 GRPPWM  0 DimBlnk\n",
    );
    print(&mut ops, " Modify selected value: <up> <down>   Apply selected value: <space>\n");
    print(&mut ops, " Exit: <Esc>  Refresh All: <Enter>\n");
    print(&mut ops, LINE_DASHES);
    print(
        &mut ops,
        " Status:                                   Key: . Off  p PWM  + PWMPlus o On\n",
    );
    print(
        &mut ops,
        " Errors:                                   Key: . None o Open s Short   x DNE\n",
    );
    print(&mut ops, LINE_DASHES);
    print(&mut ops, "\n");
    print(&mut ops, LINE_DASHES);
    print(&mut ops, " ... \n");
    print(&mut ops, LINE_DASHES);
    park(&mut ops);
    assert(ops.deep_view() =~= template_ops());
    ops
}

/// How many characters the selection summary has.
pub const SUMMARY_WIDTH: usize = 77;

/// The selection summary never changes its width and never shows a blank
/// field: whatever the focus and the snapshot, every field holds some text,
/// and as long as a value being edited has at most three digits, the line
/// is `SUMMARY_WIDTH` characters long.
pub proof fn lemma_summary_has_fixed_width(state: SelectionModel, info: Seq<ChannelStatus>)
    requires
        state.selected.wf(),
    ensures
        selected_label(state.selected.value()).len() == 1 || selected_label(
            state.selected.value(),
        ).len() == 2,
        1 <= state_label(info, state.selected.value()).len() <= 7,
        1 <= value_type_label(state.value_type).len() <= 7,
        1 <= value_label(info, state.value_type, state.selected.value()).len() <= 3,
        1 <= new_value_label(state.new_value).len(),
        (state.new_value matches Some(value) ==> value < 1000) ==> selected_text(
            state,
            info,
        ).len() == SUMMARY_WIDTH,
{
    reveal_strlit("**");
    reveal_strlit("Off");
    reveal_strlit("On");
    reveal_strlit("PWM");
    reveal_strlit("PWMPlus");
    reveal_strlit("Current");
    reveal_strlit(" Selected: ");
    reveal_strlit("  Status: ");
    reveal_strlit("  Val Type: ");
    reveal_strlit("  Cur Val: ");
    reveal_strlit("  New Val: ");
    let led = state.selected.value();
    if is_led(led) {
        lemma_decimal_width(led as nat);
    }
    if let Some(ty) = state.value_type {
        if let Some(value) = value_of(info, ty, led) {
            lemma_decimal_width(value as nat);
        }
    }
    if let Some(value) = state.new_value {
        lemma_decimal_width(value as nat);
    }
}

/// Whether a list of instructions leaves the cursor at its resting place:
/// it moves the cursor there, and after that writes nothing any more.
pub open spec fn leaves_cursor_parked(ops: Seq<RenderOpView>) -> bool {
    exists|k: int|
        0 <= k < ops.len() && #[trigger] ops[k] == (RenderOpView::Move {
            line: CURSOR_LINE,
            column: CURSOR_COLUMN,
        }) && forall|j: int| k < j < ops.len() ==> #[trigger] ops[j] is Flush
}

/// Instructions that leave the cursor parked still do so after whatever
/// was drawn before them.
pub proof fn lemma_parked_after(before: Seq<RenderOpView>, ops: Seq<RenderOpView>)
    requires
        leaves_cursor_parked(ops),
    ensures
        leaves_cursor_parked(before + ops),
{
    let k = choose|k: int|
        0 <= k < ops.len() && #[trigger] ops[k] == (RenderOpView::Move {
            line: CURSOR_LINE,
            column: CURSOR_COLUMN,
        }) && forall|j: int| k < j < ops.len() ==> #[trigger] ops[j] is Flush;
    let joined = before + ops;
    assert(joined[before.len() + k] == ops[k]);
    assert forall|j: int| before.len() + k < j < joined.len() implies #[trigger] joined[j]
        is Flush by {
        assert(joined[j] == ops[j - before.len()]);
    }
}

/// Instructions that leave the cursor parked still do so when the terminal
/// is brought up to date once more after them.
pub proof fn lemma_parked_flushed(ops: Seq<RenderOpView>)
    requires
        leaves_cursor_parked(ops),
    ensures
        leaves_cursor_parked(ops.push(RenderOpView::Flush)),
{
    let k = choose|k: int|
        0 <= k < ops.len() && #[trigger] ops[k] == (RenderOpView::Move {
            line: CURSOR_LINE,
            column: CURSOR_COLUMN,
        }) && forall|j: int| k < j < ops.len() ==> #[trigger] ops[j] is Flush;
    let flushed = ops.push(RenderOpView::Flush);
    assert(flushed[k] == ops[k]);
    assert forall|j: int| k < j < flushed.len() implies #[trigger] flushed[j] is Flush by {
        if j < ops.len() {
            assert(flushed[j] == ops[j]);
        }
    }
}

/// After a message is shown the cursor is parked.
pub proof fn lemma_info_parks(message: Seq<char>)
    ensures
        leaves_cursor_parked(info_ops(message)),
{
    let ops = info_ops(message);
    assert(ops[3] == (RenderOpView::Move { line: CURSOR_LINE, column: CURSOR_COLUMN }));
}

/// After the channel rows are redrawn the cursor is parked.
pub proof fn lemma_status_parks(info: Seq<ChannelStatus>)
    ensures
        leaves_cursor_parked(status_ops(info)),
{
    let ops = status_ops(info);
    assert(ops[6] == (RenderOpView::Move { line: CURSOR_LINE, column: CURSOR_COLUMN }));
}

/// After the summary is redrawn the cursor is parked.
pub proof fn lemma_selected_parks(state: SelectionModel, info: Seq<ChannelStatus>)
    ensures
        leaves_cursor_parked(selected_ops(state, info)),
{
    let ops = selected_ops(state, info);
    assert(ops[1] == (RenderOpView::Move { line: CURSOR_LINE, column: CURSOR_COLUMN }));
}

/// After the template is drawn the cursor is parked.
pub proof fn lemma_template_parks()
    ensures
        leaves_cursor_parked(template_ops()),
{
    let ops = template_ops();
    assert(ops[16] == (RenderOpView::Move { line: CURSOR_LINE, column: CURSOR_COLUMN }));
}

} // verus!
