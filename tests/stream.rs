use new_task_gtk::status::{ExitInfo, StreamStatus};
use new_task_gtk::stream::{PollStep, Received, StreamState};

/// Polls `state` once with the receive `r`, joining a worker that left
/// `worker` where asked to.
fn poll(state: &mut StreamState, r: Received, worker: Option<ExitInfo>) -> StreamStatus {
    match state.on_receive(r) {
        PollStep::Report(s) => s,
        PollStep::Join => state.on_joined(worker),
    }
}

fn line(s: &str) -> Received {
    Received::Line(s.to_owned())
}

#[test]
fn two_lines_then_success() {
    let worker = Some(ExitInfo { code: Some(0) });
    let mut state = StreamState::new();
    let events = vec![
        Received::Empty,
        line("a"),
        Received::Empty,
        line("b"),
        Received::Disconnected,
    ];
    let seen: Vec<StreamStatus> = events
        .into_iter()
        .map(|e| poll(&mut state, e, worker))
        .filter(|s| !matches!(s, StreamStatus::Wait))
        .collect();
    assert_eq!(seen.len(), 3);
    assert!(matches!(&seen[0], StreamStatus::Line(l) if l == "a"));
    assert!(matches!(&seen[1], StreamStatus::Line(l) if l == "b"));
    assert!(matches!(seen[2], StreamStatus::Complete));
}

#[test]
fn silent_exit_three_fails_with_three() {
    let worker = Some(ExitInfo { code: Some(3) });
    let mut state = StreamState::new();
    assert!(matches!(poll(&mut state, Received::Empty, worker), StreamStatus::Wait));
    assert!(matches!(poll(&mut state, Received::Empty, worker), StreamStatus::Wait));
    assert!(matches!(
        poll(&mut state, Received::Disconnected, worker),
        StreamStatus::Failed(3)
    ));
}

#[test]
fn terminal_status_repeats_without_a_second_join() {
    let mut state = StreamState::new();
    let first = poll(&mut state, Received::Disconnected, Some(ExitInfo { code: Some(0) }));
    assert!(matches!(first, StreamStatus::Complete));
    assert!(state.joined);
    match state.on_receive(Received::Disconnected) {
        PollStep::Report(StreamStatus::Complete) => {}
        other => panic!("unexpected step {:?}", other),
    }
    match state.on_receive(Received::Disconnected) {
        PollStep::Report(StreamStatus::Complete) => {}
        other => panic!("unexpected step {:?}", other),
    }
}

#[test]
fn first_closed_receive_asks_for_the_join() {
    let state = StreamState::new();
    assert!(matches!(state.on_receive(Received::Disconnected), PollStep::Join));
    assert!(!state.joined);
}

#[test]
fn unknown_exit_is_an_error() {
    let mut state = StreamState::new();
    match poll(&mut state, Received::Disconnected, None) {
        StreamStatus::Error(m) => assert_eq!(m, "Cannot determine exit status"),
        other => panic!("unexpected status {:?}", other),
    }
    match state.on_receive(Received::Disconnected) {
        PollStep::Report(StreamStatus::Error(m)) => assert_eq!(m, "Cannot determine exit status"),
        other => panic!("unexpected step {:?}", other),
    }
}

#[test]
fn exit_without_code_fails_with_one() {
    let s = StreamStatus::from_status(&ExitInfo { code: None });
    assert!(matches!(s, StreamStatus::Failed(1)));
}

#[test]
fn exit_codes_map_to_statuses() {
    assert!(matches!(StreamStatus::from_status(&ExitInfo { code: Some(0) }), StreamStatus::Complete));
    assert!(matches!(StreamStatus::from_status(&ExitInfo { code: Some(-2) }), StreamStatus::Failed(-2)));
    assert!(ExitInfo { code: Some(0) }.success());
    assert!(!ExitInfo { code: Some(1) }.success());
    assert!(!ExitInfo { code: None }.success());
}

#[test]
fn lines_pass_through_in_order() {
    let mut state = StreamState::new();
    let texts = ["first", "", "third line"];
    for t in texts.iter() {
        match poll(&mut state, line(t), None) {
            StreamStatus::Line(l) => assert_eq!(&l, t),
            other => panic!("unexpected status {:?}", other),
        }
    }
    assert!(!state.joined);
}
