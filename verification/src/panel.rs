//! The panel's state machine.
//!
//! A panel holds the user's focus and the last snapshot of the device. It
//! takes one command at a time and answers with what to draw and what to do
//! next: read another key, make one call to the device and report back, or
//! leave. The calls a command needs are made one after the other, each
//! finished before the next is asked for, and no key is read before the
//! last of them has been answered.

use vstd::prelude::*;
use vstd::string::*;
use crate::channel::{
    is_led, valid_led, ChannelIndex, ChannelState, ChannelStatus, SelectionModel, ValueType,
    GLOBAL_LED, NO_LED, NUM_LEDS,
};
use crate::decoder::Command;
use crate::messages::{
    fetch_failure_message, fetch_failure_text, selection_message, selection_text,
    set_result_message, set_result_text, setting_message, setting_text, unknown_message,
    unknown_text, value_type_message, value_type_text,
};
use crate::screen::{
    emit, emit_all, info_ops, leaves_cursor_parked, lemma_info_parks, lemma_parked_after,
    lemma_parked_flushed,
    output_info, output_selected, output_status, output_template, selected_ops, status_ops,
    template_ops, RenderOp, RenderOpView, StatusModel,
};

verus! {

/// The reason code of an ordinary exit.
pub const QUIT: i32 = 0;

/// The reason code of an exit forced by a failed fetch.
pub const ABORT: i32 = 1;

/// The process exit code for a reason code or a signal number.
pub open spec fn exit_status(sig: int) -> int {
    128 + sig
}

/// The process exit code for a reason code or a signal number.
pub fn exit_code(sig: i32) -> (code: i32)
    requires
        exit_status(sig as int) <= i32::MAX,
    ensures
        code == exit_status(sig as int),
{
    128 + sig
}

/// The panel between two commands.
#[derive(Clone, Debug, PartialEq, Eq)]
pub struct Panel {
    /// What the user has in focus.
    pub state: SelectionModel,
    /// The last snapshot of the device, empty until the first fetch.
    pub last_info: Vec<ChannelStatus>,
}

/// A panel with its snapshot as a sequence.
pub struct PanelView {
    pub state: SelectionModel,
    pub last_info: Seq<ChannelStatus>,
}

impl View for Panel {
    type V = PanelView;

    open spec fn view(&self) -> PanelView {
        PanelView { state: self.state, last_info: self.last_info@ }
    }
}

/// A run of mode changes in progress: channel `led` is being set now, the
/// channels after it up to `last` are still to come.
#[derive(Debug, PartialEq, Eq)]
pub struct SetBatch {
    panel: Panel,
    led: i32,
    last: i32,
    mode: ChannelState,
}

/// A run of mode changes in progress, as plain values.
pub struct SetBatchView {
    pub panel: PanelView,
    pub led: int,
    pub last: int,
    pub mode: ChannelState,
}

impl SetBatchView {
    /// The channels of a batch are channels of the device, in ascending
    /// order.
    pub open spec fn wf(self) -> bool {
        0 <= self.led <= self.last < NUM_LEDS
    }
}

impl View for SetBatch {
    type V = SetBatchView;

    closed spec fn view(&self) -> SetBatchView {
        SetBatchView {
            panel: self.panel@,
            led: self.led as int,
            last: self.last as int,
            mode: self.mode,
        }
    }
}

/// A fetch of the device's state in progress.
#[derive(Debug, PartialEq, Eq)]
pub struct Fetch {
    pub panel: Panel,
    /// What the message line will say once the fetch has succeeded.
    pub info: String,
}

/// A fetch in progress, as plain values.
pub struct FetchView {
    pub panel: PanelView,
    pub info: Seq<char>,
}

impl View for Fetch {
    type V = FetchView;

    open spec fn view(&self) -> FetchView {
        FetchView { panel: self.panel@, info: self.info@ }
    }
}

/// The device's answer to a fetch.
#[derive(Clone, Debug, PartialEq, Eq)]
pub enum FetchReply {
    /// The state of every channel, in channel order.
    Info(Vec<ChannelStatus>),
    /// No state was delivered; the text says what is known about why.
    Failed(String),
}

/// The device's answer to a fetch, as plain values.
pub enum FetchReplyView {
    Info(Seq<ChannelStatus>),
    Failed(Seq<char>),
}

impl View for FetchReply {
    type V = FetchReplyView;

    open spec fn view(&self) -> FetchReplyView {
        match *self {
            FetchReply::Info(info) => FetchReplyView::Info(info@),
            FetchReply::Failed(detail) => FetchReplyView::Failed(detail@),
        }
    }
}

/// The end of the session.
#[derive(Debug, PartialEq, Eq)]
pub struct Exit {
    /// The process exit code.
    pub code: i32,
    /// Why the session ends.
    pub reason: String,
}

/// The end of the session, as plain values.
pub struct ExitView {
    pub code: int,
    pub reason: Seq<char>,
}

impl View for Exit {
    type V = ExitView;

    open spec fn view(&self) -> ExitView {
        ExitView { code: self.code as int, reason: self.reason@ }
    }
}

/// What has to happen next.
#[derive(Debug, PartialEq, Eq)]
pub enum Next {
    /// Read a key, decode it and hand the command to the panel.
    Input(Panel),
    /// Set one channel's mode and report whether that worked.
    SetChannel(SetBatch),
    /// Fetch the state of all channels and report what came back.
    Fetch(Fetch),
    /// Give the terminal back and leave. There is no panel to go on with.
    Exit(Exit),
}

/// What has to happen next, as plain values.
pub enum NextView {
    Input(PanelView),
    SetChannel(SetBatchView),
    Fetch(FetchView),
    Exit(ExitView),
}

impl View for Next {
    type V = NextView;

    open spec fn view(&self) -> NextView {
        match *self {
            Next::Input(panel) => NextView::Input(panel@),
            Next::SetChannel(batch) => NextView::SetChannel(batch@),
            Next::Fetch(fetch) => NextView::Fetch(fetch@),
            Next::Exit(exit) => NextView::Exit(exit@),
        }
    }
}

/// The panel's answer to a command or to the outcome of a device call.
#[derive(Debug, PartialEq, Eq)]
pub struct Step {
    /// What to draw, in this order, before anything else happens.
    pub render: Vec<RenderOp>,
    pub next: Next,
}

/// A step as plain values.
pub struct StepView {
    pub render: Seq<RenderOpView>,
    pub next: NextView,
}

impl View for Step {
    type V = StepView;

    open spec fn view(&self) -> StepView {
        StepView { render: self.render.deep_view(), next: self.next@ }
    }
}

/// A call to the device.
pub enum DeviceCall {
    /// Put one channel into a mode.
    SetChannelState { channel: int, state: ChannelState },
    /// Ask for the state of all channels.
    FetchAll,
}

/// The device calls that are still to be made before the next key is read,
/// in the order in which they will be made.
pub open spec fn pending_calls(next: NextView) -> Seq<DeviceCall> {
    match next {
        NextView::Input(_) => Seq::empty(),
        NextView::SetChannel(batch) => Seq::new(
            (batch.last - batch.led + 1) as nat,
            |i: int| DeviceCall::SetChannelState { channel: batch.led + i, state: batch.mode },
        ).push(DeviceCall::FetchAll),
        NextView::Fetch(_) => seq![DeviceCall::FetchAll],
        NextView::Exit(_) => Seq::empty(),
    }
}

/// The start of a run of mode changes over the channels `first` to `last`:
/// the first of them is announced and asked for.
pub open spec fn batch_start(
    panel: PanelView,
    first: int,
    last: int,
    mode: ChannelState,
) -> StepView {
    StepView {
        render: info_ops(setting_text(first, mode)),
        next: NextView::SetChannel(SetBatchView { panel, led: first, last, mode }),
    }
}

/// A step that only changes the message line.
pub open spec fn echo(panel: PanelView, info: Seq<char>) -> StepView {
    StepView { render: info_ops(info), next: NextView::Input(panel) }
}

/// A step that changes the focus: the summary is redrawn and the change
/// confirmed on the message line.
pub open spec fn refocus(panel: PanelView, state: SelectionModel, info: Seq<char>) -> StepView {
    StepView {
        render: selected_ops(state, panel.last_info) + info_ops(info),
        next: NextView::Input(PanelView { state, last_info: panel.last_info }),
    }
}

/// The panel's answer to a command.
pub open spec fn command_step(panel: PanelView, command: Command) -> StepView {
    match command {
        Command::Refresh => StepView {
            render: info_ops("Refreshing LED status ... please wait"@).push(RenderOpView::Flush),
            next: NextView::Fetch(FetchView { panel, info: "Refreshed LED status"@ }),
        },
        Command::SetMode(mode) => {
            let led = panel.state.selected.value();
            if is_led(led) {
                batch_start(panel, led, led, mode)
            } else if led == GLOBAL_LED {
                batch_start(panel, 0, NUM_LEDS - 1, mode)
            } else {
                StepView { render: Seq::empty(), next: NextView::Input(panel) }
            }
        },
        Command::SelectChannel(ix) => refocus(
            panel,
            SelectionModel { selected: ix, value_type: panel.state.value_type, new_value: None },
            selection_text(ix.value()),
        ),
        Command::SelectValueType(ty) => refocus(
            panel,
            SelectionModel {
                selected: panel.state.selected,
                value_type: Some(ty),
                new_value: None,
            },
            value_type_text(ty),
        ),
        Command::AdjustUp => echo(panel, "Pressed Up"@),
        Command::AdjustDown => echo(panel, "Pressed Down"@),
        Command::Apply => StepView { render: Seq::empty(), next: NextView::Input(panel) },
        Command::Quit => StepView {
            render: Seq::empty(),
            next: NextView::Exit(
                ExitView { code: exit_status(QUIT as int), reason: "User termination"@ },
            ),
        },
        Command::Unknown(code) => echo(panel, unknown_text(code)),
    }
}

/// The panel's answer to the outcome of setting channel `batch.led`. While
/// channels remain, the next one is announced and asked for, whatever the
/// outcome was. After the last one the device's state is fetched, and the
/// message line will report how the last call went.
pub open spec fn set_step(batch: SetBatchView, ok: bool) -> StepView {
    if batch.led < batch.last {
        batch_start(batch.panel, batch.led + 1, batch.last, batch.mode)
    } else {
        StepView {
            render: Seq::empty(),
            next: NextView::Fetch(
                FetchView {
                    panel: batch.panel,
                    info: set_result_text(batch.led, batch.mode, ok),
                },
            ),
        }
    }
}

/// The panel's answer to the outcome of a fetch. A snapshot replaces the
/// old one whole, and every region is redrawn from it. Without a snapshot
/// nothing on the screen can be trusted: the failure is written out and the
/// session ends.
pub open spec fn fetch_step(fetch: FetchView, reply: FetchReplyView) -> StepView {
    match reply {
        FetchReplyView::Info(info) => StepView {
            render: status_ops(info) + selected_ops(fetch.panel.state, info) + info_ops(
                fetch.info,
            ),
            next: NextView::Input(PanelView { state: fetch.panel.state, last_info: info }),
        },
        FetchReplyView::Failed(detail) => StepView {
            render: seq![RenderOpView::Print { text: fetch_failure_text(detail) }],
            next: NextView::Exit(
                ExitView { code: exit_status(ABORT as int), reason: fetch_failure_text(detail) },
            ),
        },
    }
}

/// The first step of a session: the template is drawn and the device's
/// state asked for, as if the user had started with a refresh.
pub open spec fn first_step() -> StepView {
    let panel = PanelView {
        state: SelectionModel {
            selected: ChannelIndex::at(NO_LED as int),
            value_type: None,
            new_value: None,
        },
        last_info: Seq::empty(),
    };
    let refresh = command_step(panel, Command::Refresh);
    StepView { render: template_ops() + refresh.render, next: refresh.next }
}

/// Starts a run of mode changes.
fn start_batch(panel: Panel, first: i32, last: i32, mode: ChannelState) -> (step: Step)
    requires
        0 <= first <= last < NUM_LEDS,
    ensures
        step@ == batch_start(panel@, first as int, last as int, mode),
{
    let announcement = setting_message(first, mode);
    let render = output_info(announcement.as_str());
    Step { render, next: Next::SetChannel(SetBatch { panel, led: first, last, mode }) }
}

/// Draws nothing.
fn no_ops() -> (ops: Vec<RenderOp>)
    ensures
        ops.deep_view() == Seq::<RenderOpView>::empty(),
{
    let ops: Vec<RenderOp> = Vec::new();
    assert(ops.deep_view() =~= Seq::<RenderOpView>::empty());
    ops
}

/// Changes only the message line.
fn show(panel: Panel, info: &str) -> (step: Step)
    ensures
        step@ == echo(panel@, info@),
{
    Step { render: output_info(info), next: Next::Input(panel) }
}

/// Changes the focus.
fn focus(panel: Panel, state: SelectionModel, info: &str) -> (step: Step)
    ensures
        step@ == refocus(panel@, state, info@),
{
    let mut panel = panel;
    panel.state = state;
    let mut render = output_selected(&panel.state, &panel.last_info);
    emit_all(&mut render, output_info(info));
    Step { render, next: Next::Input(panel) }
}

impl Panel {
    /// The panel at start-up: nothing in focus, no snapshot yet.
    pub fn new() -> (panel: Panel)
        ensures
            panel@ == (PanelView {
                state: SelectionModel {
                    selected: ChannelIndex::at(NO_LED as int),
                    value_type: None,
                    new_value: None,
                },
                last_info: Seq::empty(),
            }),
    {
        Panel { state: SelectionModel::new(), last_info: Vec::new() }
    }

    /// Resolves one command.
    pub fn process_input(self, command: Command) -> (step: Step)
        ensures
            step@ == command_step(self@, command),
    {
        match command {
            Command::Refresh => {
                let mut render = output_info("Refreshing LED status ... please wait");
                emit(&mut render, RenderOp::Flush);
                let info = String::from_str("Refreshed LED status");
                Step { render, next: Next::Fetch(Fetch { panel: self, info }) }
            },
            Command::SetMode(mode) => {
                let led = self.state.selected.raw();
                if valid_led(led) {
                    start_batch(self, led, led, mode)
                } else if led == GLOBAL_LED {
                    start_batch(self, 0, 23, mode)
                } else {
                    Step { render: no_ops(), next: Next::Input(self) }
                }
            },
            Command::SelectChannel(ix) => {
                let state = SelectionModel {
                    selected: ix,
                    value_type: self.state.value_type,
                    new_value: None,
                };
                let info = selection_message(ix);
                focus(self, state, info.as_str())
            },
            Command::SelectValueType(ty) => {
                let state = SelectionModel {
                    selected: self.state.selected,
                    value_type: Some(ty),
                    new_value: None,
                };
                let info = value_type_message(ty);
                focus(self, state, info.as_str())
            },
            Command::AdjustUp => show(self, "Pressed Up"),
            Command::AdjustDown => show(self, "Pressed Down"),
            Command::Apply => Step { render: no_ops(), next: Next::Input(self) },
            Command::Quit => {
                let reason = String::from_str("User termination");
                Step { render: no_ops(), next: Next::Exit(Exit { code: exit_code(QUIT), reason }) }
            },
            Command::Unknown(code) => {
                let info = unknown_message(code);
                show(self, info.as_str())
            },
        }
    }
}

impl SetBatch {
    #[verifier::type_invariant]
    spec fn inv(self) -> bool {
        0 <= self.led <= self.last < NUM_LEDS
    }

    /// The channel to set now.
    pub fn channel(&self) -> (led: i32)
        ensures
            led == self@.led,
            self@.wf(),
    {
        proof {
            use_type_invariant(self);
        }
        self.led
    }

    /// The mode to put it into.
    pub fn mode(&self) -> (mode: ChannelState)
        ensures
            mode == self@.mode,
    {
        self.mode
    }

    /// Takes the outcome of setting the channel and moves on.
    pub fn resume(self, ok: bool) -> (step: Step)
        ensures
            step@ == set_step(self@, ok),
    {
        proof {
            use_type_invariant(&self);
        }
        if self.led < self.last {
            start_batch(self.panel, self.led + 1, self.last, self.mode)
        } else {
            let info = set_result_message(self.led, self.mode, ok);
            Step { render: no_ops(), next: Next::Fetch(Fetch { panel: self.panel, info }) }
        }
    }
}

impl Fetch {
    /// Takes the outcome of the fetch.
    pub fn handle_info(self, reply: FetchReply) -> (step: Step)
        ensures
            step@ == fetch_step(self@, reply@),
    {
        match reply {
            FetchReply::Info(info) => {
                let mut panel = self.panel;
                panel.last_info = info;
                let mut render = output_status(&panel.last_info);
                emit_all(&mut render, output_selected(&panel.state, &panel.last_info));
                emit_all(&mut render, output_info(self.info.as_str()));
                Step { render, next: Next::Input(panel) }
            },
            FetchReply::Failed(detail) => {
                let err = fetch_failure_message(detail.as_str());
                let mut render = no_ops();
                emit(&mut render, RenderOp::Print { text: err.clone() });
                Step { render, next: Next::Exit(Exit { code: exit_code(ABORT), reason: err }) }
            },
        }
    }
}

/// Opens a session.
pub fn run() -> (step: Step)
    ensures
        step@ == first_step(),
{
    let mut render = output_template();
    let refresh = Panel::new().process_input(Command::Refresh);
    emit_all(&mut render, refresh.render);
    Step { render, next: refresh.next }
}

/// The panel that a step carries on with, if the session goes on.
pub open spec fn panel_of(next: NextView) -> Option<PanelView> {
    match next {
        NextView::Input(panel) => Some(panel),
        NextView::SetChannel(batch) => Some(batch.panel),
        NextView::Fetch(fetch) => Some(fetch.panel),
        NextView::Exit(_) => None,
    }
}

/// Selecting a channel replaces the selection and leaves the value type as
/// it was; selecting a value type replaces the value type and leaves the
/// selection as it was. Either drops the value being edited, keeps the
/// snapshot and calls for nothing from the device.
pub proof fn lemma_select_replaces_one_focus(panel: PanelView, ix: ChannelIndex, ty: ValueType)
    ensures
        command_step(panel, Command::SelectChannel(ix)).next == NextView::Input(
            PanelView {
                state: SelectionModel {
                    selected: ix,
                    value_type: panel.state.value_type,
                    new_value: None,
                },
                last_info: panel.last_info,
            },
        ),
        command_step(panel, Command::SelectValueType(ty)).next == NextView::Input(
            PanelView {
                state: SelectionModel {
                    selected: panel.state.selected,
                    value_type: Some(ty),
                    new_value: None,
                },
                last_info: panel.last_info,
            },
        ),
{
}

/// No command but the two that select changes the panel: as long as the
/// session goes on, it goes on with the same focus and the same snapshot.
pub proof fn lemma_other_commands_keep_panel(panel: PanelView, command: Command)
    requires
        !(command is SelectChannel),
        !(command is SelectValueType),
    ensures
        panel_of(command_step(panel, command).next) matches Some(after) ==> after == panel,
{
}

/// Only a refresh and a mode change call the device; a refresh calls it
/// once, to fetch.
pub proof fn lemma_commands_without_calls(panel: PanelView, command: Command)
    ensures
        command is Refresh ==> pending_calls(command_step(panel, command).next) == seq![
            DeviceCall::FetchAll,
        ],
        !(command is Refresh) && !(command is SetMode) ==> pending_calls(
            command_step(panel, command).next,
        ) == Seq::<DeviceCall>::empty(),
{
}

/// With no channel selected, a mode change does nothing at all: nothing is
/// drawn, the device is not called, and the panel waits for the next key as
/// it is.
pub proof fn lemma_set_mode_without_selection(panel: PanelView, mode: ChannelState)
    requires
        panel.state.selected.value() == NO_LED,
    ensures
        command_step(panel, Command::SetMode(mode)) == (StepView {
            render: Seq::empty(),
            next: NextView::Input(panel),
        }),
        pending_calls(command_step(panel, Command::SetMode(mode)).next) == Seq::<
            DeviceCall,
        >::empty(),
{
}

/// With all channels selected, a mode change sets every channel once, from
/// the lowest to the highest, and then fetches once.
pub proof fn lemma_set_mode_global(panel: PanelView, mode: ChannelState)
    requires
        panel.state.selected.value() == GLOBAL_LED,
    ensures
        pending_calls(command_step(panel, Command::SetMode(mode)).next) == Seq::new(
            NUM_LEDS as nat,
            |i: int| DeviceCall::SetChannelState { channel: i, state: mode },
        ).push(DeviceCall::FetchAll),
{
    assert(pending_calls(command_step(panel, Command::SetMode(mode)).next) =~= Seq::new(
        NUM_LEDS as nat,
        |i: int| DeviceCall::SetChannelState { channel: i, state: mode },
    ).push(DeviceCall::FetchAll));
}

/// With one channel selected, a mode change sets that channel once and then
/// fetches once.
pub proof fn lemma_set_mode_single(panel: PanelView, mode: ChannelState)
    requires
        is_led(panel.state.selected.value()),
    ensures
        pending_calls(command_step(panel, Command::SetMode(mode)).next) == seq![
            DeviceCall::SetChannelState { channel: panel.state.selected.value(), state: mode },
            DeviceCall::FetchAll,
        ],
{
    assert(pending_calls(command_step(panel, Command::SetMode(mode)).next) =~= seq![
        DeviceCall::SetChannelState { channel: panel.state.selected.value(), state: mode },
        DeviceCall::FetchAll,
    ]);
}

/// A run of mode changes goes through its calls one by one. The call asked
/// for is the first of those pending, and whether it succeeds or fails, what
/// is pending afterwards is the rest: no call is skipped, repeated or added,
/// and the panel is carried along unchanged.
pub proof fn lemma_set_step_takes_one_call(batch: SetBatchView, ok: bool)
    requires
        batch.wf(),
    ensures
        pending_calls(NextView::SetChannel(batch)).first() == (DeviceCall::SetChannelState {
            channel: batch.led,
            state: batch.mode,
        }),
        pending_calls(set_step(batch, ok).next) == pending_calls(
            NextView::SetChannel(batch),
        ).drop_first(),
        panel_of(set_step(batch, ok).next) == Some(batch.panel),
        set_step(batch, ok).next matches NextView::SetChannel(rest) ==> rest.wf(),
{
    assert(pending_calls(set_step(batch, ok).next) =~= pending_calls(
        NextView::SetChannel(batch),
    ).drop_first());
}

/// The device calls that are made from `next` on until the next key is
/// read or the session ends, when the calls that set a channel have the
/// outcomes `oks`, in this order, and the fetch is answered by `reply`.
/// Where `oks` runs out, the run stops at the call that got no answer.
pub open spec fn calls_made(next: NextView, oks: Seq<bool>, reply: FetchReplyView) -> Seq<
    DeviceCall,
>
    decreases oks.len(),
{
    match next {
        NextView::Input(_) => Seq::empty(),
        NextView::SetChannel(batch) => {
            let call = DeviceCall::SetChannelState { channel: batch.led, state: batch.mode };
            if oks.len() == 0 {
                seq![call]
            } else {
                seq![call] + calls_made(set_step(batch, oks.first()).next, oks.drop_first(), reply)
            }
        },
        NextView::Fetch(fetch) => seq![DeviceCall::FetchAll] + pending_calls(
            fetch_step(fetch, reply).next,
        ),
        NextView::Exit(_) => Seq::empty(),
    }
}

/// Whatever the outcomes of its calls are, a run of mode changes makes
/// exactly the calls that were pending when it started, in their order:
/// one for each of its channels, ascending, and then one fetch.
pub proof fn lemma_batch_makes_pending_calls(
    batch: SetBatchView,
    oks: Seq<bool>,
    reply: FetchReplyView,
)
    requires
        batch.wf(),
        oks.len() >= batch.last - batch.led + 1,
    ensures
        calls_made(NextView::SetChannel(batch), oks, reply) == pending_calls(
            NextView::SetChannel(batch),
        ),
    decreases batch.last - batch.led,
{
    let next = set_step(batch, oks.first()).next;
    lemma_set_step_takes_one_call(batch, oks.first());
    if batch.led < batch.last {
        let rest = SetBatchView {
            panel: batch.panel,
            led: batch.led + 1,
            last: batch.last,
            mode: batch.mode,
        };
        assert(next == NextView::SetChannel(rest));
        lemma_batch_makes_pending_calls(rest, oks.drop_first(), reply);
    } else {
        let fetch = FetchView {
            panel: batch.panel,
            info: set_result_text(batch.led, batch.mode, oks.first()),
        };
        assert(next == NextView::Fetch(fetch));
        lemma_fetch_step_ends_calls(fetch, reply);
        assert(calls_made(next, oks.drop_first(), reply) =~= seq![DeviceCall::FetchAll]);
    }
    assert(calls_made(NextView::SetChannel(batch), oks, reply) =~= pending_calls(
        NextView::SetChannel(batch),
    ));
}

/// Whatever happens to the calls it asks for, a command makes exactly the
/// calls that are pending once it has been taken in.
pub proof fn lemma_command_makes_pending_calls(
    panel: PanelView,
    command: Command,
    oks: Seq<bool>,
    reply: FetchReplyView,
)
    requires
        panel.state.selected.wf(),
        oks.len() >= NUM_LEDS,
    ensures
        calls_made(command_step(panel, command).next, oks, reply) == pending_calls(
            command_step(panel, command).next,
        ),
{
    let next = command_step(panel, command).next;
    match next {
        NextView::SetChannel(batch) => {
            lemma_batch_makes_pending_calls(batch, oks, reply);
        },
        NextView::Fetch(fetch) => {
            lemma_fetch_step_ends_calls(fetch, reply);
            assert(calls_made(next, oks, reply) =~= pending_calls(next));
        },
        _ => {},
    }
}

/// When the last call of a run fails, the message line will say so, and
/// when it succeeds, the message line will say that: the outcomes of the
/// calls before it leave no trace.
pub proof fn lemma_last_outcome_wins(batch: SetBatchView, ok: bool)
    requires
        batch.wf(),
        batch.led == batch.last,
    ensures
        set_step(batch, ok).next == NextView::Fetch(
            FetchView { panel: batch.panel, info: set_result_text(batch.last, batch.mode, ok) },
        ),
{
}

/// A fetch is the last call before the next key. If it delivers a snapshot,
/// the panel goes on with exactly that snapshot and the focus it had; if it
/// fails, the session ends with exit code 129 and no panel is left to read
/// a key for.
pub proof fn lemma_fetch_step_ends_calls(fetch: FetchView, reply: FetchReplyView)
    ensures
        pending_calls(fetch_step(fetch, reply).next) == Seq::<DeviceCall>::empty(),
        reply matches FetchReplyView::Info(info) ==> fetch_step(fetch, reply).next
            == NextView::Input(PanelView { state: fetch.panel.state, last_info: info }),
        reply matches FetchReplyView::Failed(detail) ==> fetch_step(fetch, reply).next
            == NextView::Exit(ExitView { code: 129, reason: fetch_failure_text(detail) }),
        reply is Failed ==> panel_of(fetch_step(fetch, reply).next) is None,
{
}

/// Quitting ends the session with exit code 128.
pub proof fn lemma_quit_exits(panel: PanelView)
    ensures
        command_step(panel, Command::Quit) == (StepView {
            render: Seq::empty(),
            next: NextView::Exit(ExitView { code: 128, reason: "User termination"@ }),
        }),
{
}

/// Refreshing twice with the same answer from the device is the same as
/// refreshing once: the second refresh draws what the first drew and leaves
/// the panel, and with it all that the screen shows, as the first left it.
pub proof fn lemma_refresh_idempotent(panel: PanelView, info: Seq<ChannelStatus>)
    ensures
        ({
            &&& command_step(panel, Command::Refresh).next matches NextView::Fetch(first)
            &&& fetch_step(first, FetchReplyView::Info(info)).next matches NextView::Input(after)
            &&& command_step(after, Command::Refresh).next matches NextView::Fetch(second)
            &&& fetch_step(second, FetchReplyView::Info(info)).next matches NextView::Input(again)
            &&& fetch_step(second, FetchReplyView::Info(info)) == fetch_step(
                first,
                FetchReplyView::Info(info),
            )
            &&& StatusModel::of(again.state, again.last_info) == StatusModel::of(
                after.state,
                after.last_info,
            )
            &&& StatusModel::of(after.state, after.last_info) == StatusModel::of(panel.state, info)
        }),
{
}

/// As long as the session goes on, whatever a step draws leaves the cursor
/// at its resting place, so that a key the terminal echoes cannot spoil a
/// region.
pub proof fn lemma_steps_park_cursor(
    panel: PanelView,
    command: Command,
    batch: SetBatchView,
    ok: bool,
    fetch: FetchView,
    info: Seq<ChannelStatus>,
)
    ensures
        command_step(panel, command).render.len() == 0 || leaves_cursor_parked(
            command_step(panel, command).render,
        ),
        set_step(batch, ok).render.len() == 0 || leaves_cursor_parked(set_step(batch, ok).render),
        leaves_cursor_parked(fetch_step(fetch, FetchReplyView::Info(info)).render),
        leaves_cursor_parked(first_step().render),
{
    let waiting = "Refreshing LED status ... please wait"@;
    lemma_info_parks(waiting);
    lemma_parked_flushed(info_ops(waiting));
    lemma_parked_after(template_ops(), info_ops(waiting).push(RenderOpView::Flush));
    lemma_info_parks(fetch.info);
    lemma_parked_after(
        status_ops(info) + selected_ops(fetch.panel.state, info),
        info_ops(fetch.info),
    );
    lemma_info_parks(setting_text(batch.led + 1, batch.mode));
    match command {
        Command::SetMode(mode) => {
            lemma_info_parks(setting_text(panel.state.selected.value(), mode));
            lemma_info_parks(setting_text(0, mode));
        },
        Command::SelectChannel(ix) => {
            let state = SelectionModel {
                selected: ix,
                value_type: panel.state.value_type,
                new_value: None,
            };
            lemma_info_parks(selection_text(ix.value()));
            lemma_parked_after(
                selected_ops(state, panel.last_info),
                info_ops(selection_text(ix.value())),
            );
        },
        Command::SelectValueType(ty) => {
            let state = SelectionModel {
                selected: panel.state.selected,
                value_type: Some(ty),
                new_value: None,
            };
            lemma_info_parks(value_type_text(ty));
            lemma_parked_after(selected_ops(state, panel.last_info), info_ops(value_type_text(ty)));
        },
        Command::AdjustUp => {
            lemma_info_parks("Pressed Up"@);
        },
        Command::AdjustDown => {
            lemma_info_parks("Pressed Down"@);
        },
        Command::Unknown(code) => {
            lemma_info_parks(unknown_text(code));
        },
        _ => {},
    }
}

} // verus!
