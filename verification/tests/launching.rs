use buildtools::{LaunchAction, LaunchEvent, LaunchState};

fn run(start: LaunchState, events: Vec<LaunchEvent>) -> (LaunchState, Vec<LaunchAction>) {
    let mut state = start;
    let mut done = Vec::new();
    for event in events {
        let (next, mut actions) = state.step(event);
        state = next;
        done.append(&mut actions);
    }
    (state, done)
}

fn line(text: &str) -> LaunchEvent {
    LaunchEvent::Line(text.to_string())
}

fn relay(text: &str) -> LaunchAction {
    LaunchAction::Relay(text.to_string())
}

#[test]
fn launch_begins_ready() {
    assert_eq!(LaunchState::new(), LaunchState::Ready);
    assert!(!LaunchState::new().is_relay_open());
    assert!(!LaunchState::new().is_finished());
}

#[test]
fn lines_are_relayed_in_the_order_written() {
    let (state, actions) = run(
        LaunchState::new(),
        vec![
            LaunchEvent::Spawned,
            line("A"),
            line("B"),
            line("C"),
            LaunchEvent::EndOfOutput,
            LaunchEvent::Exited(Some(0)),
        ],
    );
    assert_eq!(
        actions,
        vec![
            relay("A"),
            relay("B"),
            relay("C"),
            LaunchAction::EndRelay,
            LaunchAction::Report(Some(0)),
        ]
    );
    assert_eq!(state, LaunchState::Done(Some(0)));
    assert!(state.is_finished());
}

#[test]
fn each_line_is_relayed_when_it_comes() {
    let (state, first) = LaunchState::Relaying.step(line("A"));
    assert_eq!(first, vec![relay("A")]);
    let (state, second) = state.step(line("B"));
    assert_eq!(second, vec![relay("B")]);
    let (state, third) = state.step(line("C"));
    assert_eq!(third, vec![relay("C")]);
    assert_eq!(state, LaunchState::Relaying);
    assert!(state.is_relay_open());
}

#[test]
fn end_is_signalled_only_when_the_output_has_ended() {
    let (state, actions) = run(
        LaunchState::new(),
        vec![LaunchEvent::Spawned, line("A"), LaunchEvent::Exited(Some(0)), line("B")],
    );
    assert_eq!(actions, vec![relay("A"), relay("B")]);
    assert_eq!(state, LaunchState::Draining(Some(0)));
    assert!(state.is_relay_open());
    let (state, actions) = state.step(LaunchEvent::EndOfOutput);
    assert_eq!(
        actions,
        vec![LaunchAction::EndRelay, LaunchAction::Report(Some(0))]
    );
    assert_eq!(state, LaunchState::Done(Some(0)));
}

#[test]
fn spawn_failure_is_surfaced() {
    let (state, actions) = LaunchState::new().step(LaunchEvent::SpawnFailed);
    assert_eq!(actions, vec![LaunchAction::Abort]);
    assert_eq!(state, LaunchState::Failed);
    assert!(state.is_finished());
    assert!(!state.is_relay_open());
}

#[test]
fn nothing_happens_after_a_failed_spawn() {
    let (state, actions) = run(
        LaunchState::Failed,
        vec![
            LaunchEvent::Spawned,
            line("A"),
            LaunchEvent::EndOfOutput,
            LaunchEvent::Exited(Some(1)),
            LaunchEvent::SpawnFailed,
        ],
    );
    assert_eq!(actions, Vec::new());
    assert_eq!(state, LaunchState::Failed);
}

#[test]
fn read_failure_ends_the_relay_and_the_exit_is_still_awaited() {
    let (state, actions) = run(
        LaunchState::new(),
        vec![LaunchEvent::Spawned, line("A"), LaunchEvent::ReadFailed],
    );
    assert_eq!(actions, vec![relay("A"), LaunchAction::EndRelay]);
    assert_eq!(state, LaunchState::Awaiting);
    assert!(!state.is_relay_open());
    assert!(!state.is_finished());
    let (state, actions) = state.step(LaunchEvent::Exited(Some(0)));
    assert_eq!(actions, vec![LaunchAction::Report(Some(0))]);
    assert_eq!(state, LaunchState::Done(Some(0)));
}

#[test]
fn read_failure_after_exit_reports_the_exit() {
    let (state, actions) = run(
        LaunchState::Relaying,
        vec![LaunchEvent::Exited(Some(2)), LaunchEvent::ReadFailed],
    );
    assert_eq!(
        actions,
        vec![LaunchAction::EndRelay, LaunchAction::Report(Some(2))]
    );
    assert_eq!(state, LaunchState::Done(Some(2)));
}

#[test]
fn lines_after_the_end_are_dropped() {
    let (state, actions) = run(
        LaunchState::Relaying,
        vec![
            line("A"),
            LaunchEvent::EndOfOutput,
            line("B"),
            LaunchEvent::EndOfOutput,
            LaunchEvent::ReadFailed,
        ],
    );
    assert_eq!(actions, vec![relay("A"), LaunchAction::EndRelay]);
    assert_eq!(state, LaunchState::Awaiting);
}

#[test]
fn non_zero_exit_is_reported_like_any_other() {
    let (state, actions) = run(
        LaunchState::Relaying,
        vec![LaunchEvent::EndOfOutput, LaunchEvent::Exited(Some(1))],
    );
    assert_eq!(
        actions,
        vec![LaunchAction::EndRelay, LaunchAction::Report(Some(1))]
    );
    assert_eq!(state, LaunchState::Done(Some(1)));
    let (state, actions) = run(
        LaunchState::Relaying,
        vec![LaunchEvent::EndOfOutput, LaunchEvent::Exited(Some(-7))],
    );
    assert_eq!(
        actions,
        vec![LaunchAction::EndRelay, LaunchAction::Report(Some(-7))]
    );
    assert!(state.is_finished());
}

#[test]
fn exit_without_a_code_is_reported() {
    let (state, actions) = run(
        LaunchState::Relaying,
        vec![LaunchEvent::EndOfOutput, LaunchEvent::Exited(None)],
    );
    assert_eq!(
        actions,
        vec![LaunchAction::EndRelay, LaunchAction::Report(None)]
    );
    assert_eq!(state, LaunchState::Done(None));
}

#[test]
fn the_exit_is_reported_once() {
    let (state, actions) = run(
        LaunchState::Relaying,
        vec![
            LaunchEvent::Exited(Some(0)),
            LaunchEvent::Exited(Some(1)),
            LaunchEvent::EndOfOutput,
            LaunchEvent::Exited(Some(2)),
            line("late"),
            LaunchEvent::EndOfOutput,
        ],
    );
    assert_eq!(
        actions,
        vec![LaunchAction::EndRelay, LaunchAction::Report(Some(0))]
    );
    assert_eq!(state, LaunchState::Done(Some(0)));
}

#[test]
fn nothing_is_relayed_before_the_spawn() {
    let (state, actions) = run(
        LaunchState::new(),
        vec![line("A"), LaunchEvent::EndOfOutput, LaunchEvent::Exited(Some(0))],
    );
    assert_eq!(actions, Vec::new());
    assert_eq!(state, LaunchState::Ready);
}

#[test]
fn a_second_spawn_changes_nothing() {
    let (state, actions) = run(
        LaunchState::new(),
        vec![LaunchEvent::Spawned, LaunchEvent::Spawned, LaunchEvent::SpawnFailed],
    );
    assert_eq!(actions, Vec::new());
    assert_eq!(state, LaunchState::Relaying);
}

#[test]
fn empty_lines_are_relayed_too() {
    let (_, actions) = run(LaunchState::Relaying, vec![line(""), line(" "), line("")]);
    assert_eq!(actions, vec![relay(""), relay(" "), relay("")]);
}
