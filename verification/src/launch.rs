//! The launch protocol: what to do on each thing that happens while the
//! process is spawned, its output is relayed line by line, and its exit is
//! awaited. The caller does the spawning, reading and waiting, tells the
//! protocol what happened, and carries out the actions it answers with.

use vstd::prelude::*;

verus! {

/// Something that happened to the launch.
#[derive(Debug, PartialEq, Eq)]
pub enum LaunchEvent {
    /// The process was spawned.
    Spawned,
    /// The process could not be spawned.
    SpawnFailed,
    /// The process wrote a line.
    Line(String),
    /// The process closed its output.
    EndOfOutput,
    /// Reading the output failed.
    ReadFailed,
    /// The process ended, with its exit code where it has one.
    Exited(Option<i32>),
}

/// The mathematical value of a [`LaunchEvent`].
pub enum LaunchEventModel {
    Spawned,
    SpawnFailed,
    Line(Seq<char>),
    EndOfOutput,
    ReadFailed,
    Exited(Option<i32>),
}

impl View for LaunchEvent {
    type V = LaunchEventModel;

    open spec fn view(&self) -> LaunchEventModel {
        match *self {
            LaunchEvent::Spawned => LaunchEventModel::Spawned,
            LaunchEvent::SpawnFailed => LaunchEventModel::SpawnFailed,
            LaunchEvent::Line(line) => LaunchEventModel::Line(line@),
            LaunchEvent::EndOfOutput => LaunchEventModel::EndOfOutput,
            LaunchEvent::ReadFailed => LaunchEventModel::ReadFailed,
            LaunchEvent::Exited(status) => LaunchEventModel::Exited(status),
        }
    }
}

impl LaunchEventModel {
    /// Whether the event ends the output: its regular end, or a failed read,
    /// which counts as the end.
    pub open spec fn ends_output(self) -> bool {
        self is EndOfOutput || self is ReadFailed
    }
}

/// Something for the caller to do.
#[derive(Debug, PartialEq, Eq)]
pub enum LaunchAction {
    /// Hand the line to the consumer.
    Relay(String),
    /// Tell the consumer that no more lines will come.
    EndRelay,
    /// Tell the caller how the process ended. Any exit code is reported alike.
    Report(Option<i32>),
    /// Tell the caller that the launch failed.
    Abort,
}

/// The mathematical value of a [`LaunchAction`].
pub enum LaunchActionModel {
    Relay(Seq<char>),
    EndRelay,
    Report(Option<i32>),
    Abort,
}

impl View for LaunchAction {
    type V = LaunchActionModel;

    open spec fn view(&self) -> LaunchActionModel {
        match *self {
            LaunchAction::Relay(line) => LaunchActionModel::Relay(line@),
            LaunchAction::EndRelay => LaunchActionModel::EndRelay,
            LaunchAction::Report(status) => LaunchActionModel::Report(status),
            LaunchAction::Abort => LaunchActionModel::Abort,
        }
    }
}

/// The values of a sequence of actions.
pub open spec fn action_models(actions: Seq<LaunchAction>) -> Seq<LaunchActionModel> {
    actions.map_values(|action: LaunchAction| action@)
}

/// How far a launch has come.
#[derive(Clone, Copy, Debug, PartialEq, Eq)]
pub enum LaunchState {
    /// Nothing was spawned yet.
    Ready,
    /// The process runs and its output is open.
    Relaying,
    /// The process has ended, but its output is not yet read to the end; the
    /// exit code waits until it is.
    Draining(Option<i32>),
    /// The output has ended; the exit is awaited.
    Awaiting,
    /// The exit was reported.
    Done(Option<i32>),
    /// The process could not be spawned.
    Failed,
}

impl LaunchState {
    /// Whether lines are still relayed in this state.
    pub open spec fn relay_open(self) -> bool {
        self is Relaying || self is Draining
    }

    /// Whether the launch is over in this state.
    pub open spec fn finished(self) -> bool {
        self is Done || self is Failed
    }

    /// The state after an event. An event that has no meaning in a state
    /// leaves it as it is.
    pub open spec fn next(self, event: LaunchEventModel) -> LaunchState {
        match (self, event) {
            (LaunchState::Ready, LaunchEventModel::Spawned) => LaunchState::Relaying,
            (LaunchState::Ready, LaunchEventModel::SpawnFailed) => LaunchState::Failed,
            (LaunchState::Relaying, LaunchEventModel::EndOfOutput) => LaunchState::Awaiting,
            (LaunchState::Relaying, LaunchEventModel::ReadFailed) => LaunchState::Awaiting,
            (LaunchState::Relaying, LaunchEventModel::Exited(status)) => LaunchState::Draining(
                status,
            ),
            (LaunchState::Draining(status), LaunchEventModel::EndOfOutput) => LaunchState::Done(
                status,
            ),
            (LaunchState::Draining(status), LaunchEventModel::ReadFailed) => LaunchState::Done(
                status,
            ),
            (LaunchState::Awaiting, LaunchEventModel::Exited(status)) => LaunchState::Done(status),
            _ => self,
        }
    }

    /// What the caller is to do on an event, in order.
    pub open spec fn actions(self, event: LaunchEventModel) -> Seq<LaunchActionModel> {
        match (self, event) {
            (LaunchState::Ready, LaunchEventModel::SpawnFailed) => seq![LaunchActionModel::Abort],
            (LaunchState::Relaying, LaunchEventModel::Line(line)) => seq![
                LaunchActionModel::Relay(line),
            ],
            (LaunchState::Relaying, LaunchEventModel::EndOfOutput) => seq![
                LaunchActionModel::EndRelay,
            ],
            (LaunchState::Relaying, LaunchEventModel::ReadFailed) => seq![
                LaunchActionModel::EndRelay,
            ],
            (LaunchState::Draining(_), LaunchEventModel::Line(line)) => seq![
                LaunchActionModel::Relay(line),
            ],
            (LaunchState::Draining(status), LaunchEventModel::EndOfOutput) => seq![
                LaunchActionModel::EndRelay,
                LaunchActionModel::Report(status),
            ],
            (LaunchState::Draining(status), LaunchEventModel::ReadFailed) => seq![
                LaunchActionModel::EndRelay,
                LaunchActionModel::Report(status),
            ],
            (LaunchState::Awaiting, LaunchEventModel::Exited(status)) => seq![
                LaunchActionModel::Report(status),
            ],
            _ => Seq::empty(),
        }
    }

    /// The state in which a launch begins.
    pub fn new() -> (state: Self)
        ensures
            state == LaunchState::Ready,
    {
        LaunchState::Ready
    }

    /// Whether lines are still relayed: the caller goes on reading.
    pub fn is_relay_open(&self) -> (open: bool)
        ensures
            open == self.relay_open(),
    {
        match self {
            LaunchState::Relaying => true,
            LaunchState::Draining(_) => true,
            _ => false,
        }
    }

    /// Whether the launch is over: the caller stops.
    pub fn is_finished(&self) -> (over: bool)
        ensures
            over == self.finished(),
    {
        match self {
            LaunchState::Done(_) => true,
            LaunchState::Failed => true,
            _ => false,
        }
    }

    /// Takes an event: the state that follows, and what the caller is to do,
    /// in order.
    pub fn step(self, event: LaunchEvent) -> (outcome: (LaunchState, Vec<LaunchAction>))
        ensures
            outcome.0 == self.next(event@),
            action_models(outcome.1@) == self.actions(event@),
    {
        let mut actions: Vec<LaunchAction> = Vec::new();
        let next = match (self, event) {
            (LaunchState::Ready, LaunchEvent::Spawned) => LaunchState::Relaying,
            (LaunchState::Ready, LaunchEvent::SpawnFailed) => {
                actions.push(LaunchAction::Abort);
                LaunchState::Failed
            },
            (LaunchState::Relaying, LaunchEvent::Line(line)) => {
                actions.push(LaunchAction::Relay(line));
                LaunchState::Relaying
            },
            (LaunchState::Relaying, LaunchEvent::EndOfOutput) => {
                actions.push(LaunchAction::EndRelay);
                LaunchState::Awaiting
            },
            (LaunchState::Relaying, LaunchEvent::ReadFailed) => {
                actions.push(LaunchAction::EndRelay);
                LaunchState::Awaiting
            },
            (LaunchState::Relaying, LaunchEvent::Exited(status)) => LaunchState::Draining(status),
            (LaunchState::Draining(status), LaunchEvent::Line(line)) => {
                actions.push(LaunchAction::Relay(line));
                LaunchState::Draining(status)
            },
            (LaunchState::Draining(status), LaunchEvent::EndOfOutput) => {
                actions.push(LaunchAction::EndRelay);
                actions.push(LaunchAction::Report(status));
                LaunchState::Done(status)
            },
            (LaunchState::Draining(status), LaunchEvent::ReadFailed) => {
                actions.push(LaunchAction::EndRelay);
                actions.push(LaunchAction::Report(status));
                LaunchState::Done(status)
            },
            (LaunchState::Awaiting, LaunchEvent::Exited(status)) => {
                actions.push(LaunchAction::Report(status));
                LaunchState::Done(status)
            },
            (state, _) => state,
        };
        (next, actions)
    }
}

/// The state after a run of events.
pub open spec fn state_after(state: LaunchState, events: Seq<LaunchEventModel>) -> LaunchState
    decreases events.len(),
{
    if events.len() == 0 {
        state
    } else {
        state_after(state, events.drop_last()).next(events.last())
    }
}

/// All that the caller was told to do over a run of events, in order.
pub open spec fn trace(state: LaunchState, events: Seq<LaunchEventModel>) -> Seq<
    LaunchActionModel,
>
    decreases events.len(),
{
    if events.len() == 0 {
        Seq::empty()
    } else {
        trace(state, events.drop_last()) + state_after(state, events.drop_last()).actions(
            events.last(),
        )
    }
}

/// The lines that the actions relay, in order.
pub open spec fn relayed(actions: Seq<LaunchActionModel>) -> Seq<Seq<char>>
    decreases actions.len(),
{
    if actions.len() == 0 {
        Seq::empty()
    } else {
        match actions.last() {
            LaunchActionModel::Relay(line) => relayed(actions.drop_last()).push(line),
            _ => relayed(actions.drop_last()),
        }
    }
}

/// Whether one of the events ends the output.
pub open spec fn output_ended(events: Seq<LaunchEventModel>) -> bool {
    exists|i: int| 0 <= i < events.len() && (#[trigger] events[i]).ends_output()
}

/// The lines that the process wrote before its output ended, in order.
pub open spec fn lines_written(events: Seq<LaunchEventModel>) -> Seq<Seq<char>>
    decreases events.len(),
{
    if events.len() == 0 {
        Seq::empty()
    } else {
        match events.last() {
            LaunchEventModel::Line(line) => if output_ended(events.drop_last()) {
                lines_written(events.drop_last())
            } else {
                lines_written(events.drop_last()).push(line)
            },
            _ => lines_written(events.drop_last()),
        }
    }
}

/// Whether the process ended with the given status in one of the events.
pub open spec fn exited_with(events: Seq<LaunchEventModel>, status: Option<i32>) -> bool {
    exists|i: int| 0 <= i < events.len() && #[trigger] events[i] == LaunchEventModel::Exited(status)
}

/// What the actions of a launch look like in a given state: lines only while
/// the relay is open; then the end of the relay; then the report.
pub open spec fn shaped(state: LaunchState, actions: Seq<LaunchActionModel>) -> bool {
    match state {
        LaunchState::Relaying | LaunchState::Draining(_) => forall|i: int|
            0 <= i < actions.len() ==> #[trigger] actions[i] is Relay,
        LaunchState::Awaiting => {
            &&& actions.len() >= 1
            &&& actions.last() is EndRelay
            &&& forall|i: int| 0 <= i < actions.len() - 1 ==> #[trigger] actions[i] is Relay
        },
        LaunchState::Done(status) => {
            &&& actions.len() >= 2
            &&& actions.last() == LaunchActionModel::Report(status)
            &&& actions[actions.len() - 2] is EndRelay
            &&& forall|i: int| 0 <= i < actions.len() - 2 ==> #[trigger] actions[i] is Relay
        },
        _ => false,
    }
}

/// What `relayed` does to actions that end in `last`.
proof fn lemma_relayed_push(actions: Seq<LaunchActionModel>, last: LaunchActionModel)
    ensures
        relayed(actions.push(last)) == match last {
            LaunchActionModel::Relay(line) => relayed(actions).push(line),
            _ => relayed(actions),
        },
{
    assert(actions.push(last).drop_last() =~= actions);
}

/// What the last event adds to `output_ended` and to `exited_with`.
proof fn lemma_last_event(events: Seq<LaunchEventModel>)
    requires
        events.len() > 0,
    ensures
        output_ended(events) <==> output_ended(events.drop_last()) || events.last().ends_output(),
        forall|status: Option<i32>| #[trigger]
            exited_with(events, status) <==> exited_with(events.drop_last(), status)
                || events.last() == LaunchEventModel::Exited(status),
{
    let front = events.drop_last();
    if output_ended(events) {
        let i = choose|i: int| 0 <= i < events.len() && (#[trigger] events[i]).ends_output();
        if i < front.len() {
            assert(front[i].ends_output());
        }
    }
    if output_ended(front) {
        let i = choose|i: int| 0 <= i < front.len() && (#[trigger] front[i]).ends_output();
        assert(events[i].ends_output());
    }
    if events.last().ends_output() {
        assert(events[events.len() - 1].ends_output());
    }
    assert forall|status: Option<i32>| #[trigger]
        exited_with(events, status) <==> exited_with(front, status) || events.last()
            == LaunchEventModel::Exited(status) by {
        let exit = LaunchEventModel::Exited(status);
        if exited_with(events, status) {
            let i = choose|i: int| 0 <= i < events.len() && #[trigger] events[i] == exit;
            if i < front.len() {
                assert(front[i] == exit);
            }
        }
        if exited_with(front, status) {
            let i = choose|i: int| 0 <= i < front.len() && #[trigger] front[i] == exit;
            assert(events[i] == exit);
        }
        if events.last() == exit {
            assert(events[events.len() - 1] == exit);
        }
    }
}

/// Over a run of events that starts once the process is spawned: the relay is
/// open until the output ends, the actions have the shape of the state, the
/// lines relayed are the lines written, and a status that waits or was
/// reported is one that the process ended with.
proof fn lemma_run(events: Seq<LaunchEventModel>)
    ensures
        state_after(LaunchState::Relaying, events).relay_open() <==> !output_ended(events),
        shaped(
            state_after(LaunchState::Relaying, events),
            trace(LaunchState::Relaying, events),
        ),
        relayed(trace(LaunchState::Relaying, events)) == lines_written(events),
        forall|status: Option<i32>|
            state_after(LaunchState::Relaying, events) == LaunchState::Draining(status)
                || state_after(LaunchState::Relaying, events) == LaunchState::Done(status)
                ==> exited_with(events, status),
    decreases events.len(),
{
    if events.len() > 0 {
        let front = events.drop_last();
        let before = trace(LaunchState::Relaying, front);
        let added = state_after(LaunchState::Relaying, front).actions(events.last());
        lemma_run(front);
        lemma_last_event(events);
        if added.len() == 1 {
            assert(before + added =~= before.push(added[0]));
            lemma_relayed_push(before, added[0]);
        } else if added.len() == 2 {
            assert(before + added =~= before.push(added[0]).push(added[1]));
            lemma_relayed_push(before, added[0]);
            lemma_relayed_push(before.push(added[0]), added[1]);
        }
    }
}

/// Lines reach the consumer in the order in which the process wrote them:
/// from the moment the process is spawned, the lines relayed are exactly the
/// lines written before the output ended, none left out, none twice, none out
/// of place.
pub proof fn law_relay_keeps_order(events: Seq<LaunchEventModel>)
    ensures
        relayed(trace(LaunchState::Relaying, events)) == lines_written(events),
{
    lemma_run(events);
}

/// The end of the relay is signalled once, when the output has ended and not
/// before, and after every line. The exit is reported once, after that
/// signal, with a status that the process ended with, and nothing follows it.
pub proof fn law_end_follows_lines(events: Seq<LaunchEventModel>)
    ensures
        (exists|i: int|
            0 <= i < trace(LaunchState::Relaying, events).len() && #[trigger] trace(
                LaunchState::Relaying,
                events,
            )[i] is EndRelay) <==> output_ended(events),
        forall|i: int, j: int|
            0 <= i < j < trace(LaunchState::Relaying, events).len() ==> {
                ||| #[trigger] trace(LaunchState::Relaying, events)[i] is Relay
                ||| trace(LaunchState::Relaying, events)[i] is EndRelay && #[trigger] trace(
                    LaunchState::Relaying,
                    events,
                )[j] is Report
            },
        forall|j: int|
            0 <= j < trace(LaunchState::Relaying, events).len() && #[trigger] trace(
                LaunchState::Relaying,
                events,
            )[j] is Report ==> {
                &&& j >= 1
                &&& trace(LaunchState::Relaying, events)[j - 1] is EndRelay
                &&& exited_with(events, trace(LaunchState::Relaying, events)[j]->Report_0)
            },
        forall|i: int|
            0 <= i < trace(LaunchState::Relaying, events).len() ==> !(#[trigger] trace(
                LaunchState::Relaying,
                events,
            )[i] is Abort),
{
    lemma_run(events);
    let state = state_after(LaunchState::Relaying, events);
    let actions = trace(LaunchState::Relaying, events);
    if state is Awaiting {
        assert(actions[actions.len() - 1] is EndRelay);
    }
    if state is Done {
        assert(actions[actions.len() - 2] is EndRelay);
    }
}

} // verus!
