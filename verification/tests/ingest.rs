use masto_vision::config::ManualRefreshConfig;
use masto_vision::ingest::{
    poll_begin, poll_step, ruling, stream_begin, stream_step, PollAction, PollEvent, PollState, Ruling,
    StreamAction, StreamEvent, StreamItem, StreamState, Task, TaskEnd,
};

fn config(enabled: bool) -> ManualRefreshConfig {
    ManualRefreshConfig { enabled, interval: 600, statuses: 5, initial_delay: 30, initial_statuses: 40 }
}

#[test]
fn poll_waits_out_the_start() {
    assert_eq!(poll_begin(), (PollState::Starting, PollAction::Sleep { seconds: 10 }));
}

#[test]
fn disabled_poll_stops_at_once() {
    let (state, action) = poll_step(&config(false), PollState::Starting, PollEvent::Slept);
    assert_eq!((state, action), (PollState::Disabled, PollAction::Stop));
    assert_eq!(poll_step(&config(false), state, PollEvent::Slept), (PollState::Disabled, PollAction::Nothing));
}

#[test]
fn poll_runs_its_cycles() {
    let c = config(true);
    let mut actions = Vec::new();
    let (mut state, _) = poll_begin();
    let events = [
        PollEvent::Slept,
        PollEvent::Slept,
        PollEvent::Fetched { count: 2 },
        PollEvent::Handled,
        PollEvent::Slept,
        PollEvent::Handled,
        PollEvent::Slept,
        PollEvent::Slept,
        PollEvent::Fetched { count: 0 },
        PollEvent::Slept,
    ];
    for e in events {
        let (s, a) = poll_step(&c, state, e);
        state = s;
        actions.push(a);
    }
    assert_eq!(
        actions,
        vec![
            PollAction::Sleep { seconds: 30 },
            PollAction::Fetch { limit: 40, only_media: true },
            PollAction::Forward { index: 0 },
            PollAction::Sleep { seconds: 1 },
            PollAction::Forward { index: 1 },
            PollAction::Sleep { seconds: 1 },
            PollAction::Sleep { seconds: 600 },
            PollAction::Fetch { limit: 5, only_media: true },
            PollAction::Sleep { seconds: 600 },
            PollAction::Fetch { limit: 5, only_media: true },
        ]
    );
    assert_eq!(state, PollState::Fetching { first: false });
}

#[test]
fn failed_fetch_fails_the_poll() {
    let c = config(true);
    assert_eq!(
        poll_step(&c, PollState::Fetching { first: true }, PollEvent::FetchFailed),
        (PollState::Failed, PollAction::Fail)
    );
    assert_eq!(poll_step(&c, PollState::Failed, PollEvent::Slept), (PollState::Failed, PollAction::Nothing));
}

#[test]
fn poll_ignores_events_out_of_place() {
    let c = config(true);
    assert_eq!(poll_step(&c, PollState::Resting, PollEvent::Handled), (PollState::Resting, PollAction::Nothing));
    assert_eq!(
        poll_step(&c, PollState::Forwarding { next: 0, count: 1 }, PollEvent::Slept),
        (PollState::Forwarding { next: 0, count: 1 }, PollAction::Nothing)
    );
    assert_eq!(
        poll_step(&c, PollState::Pacing { next: usize::MAX, count: 0 }, PollEvent::Slept),
        (PollState::Resting, PollAction::Sleep { seconds: 600 })
    );
}

#[test]
fn stream_forwards_only_updates() {
    let (state, action) = stream_begin();
    assert_eq!((state, action), (StreamState::Opening { attempt: 1 }, StreamAction::Open { attempt: 1 }));
    let (state, action) = stream_step(state, StreamEvent::Opened);
    assert_eq!((state, action), (StreamState::Listening { attempt: 1 }, StreamAction::Listen));
    assert_eq!(stream_step(state, StreamEvent::Item(StreamItem::Update)), (state, StreamAction::Forward));
    assert_eq!(stream_step(state, StreamEvent::Item(StreamItem::Notification)), (state, StreamAction::Listen));
    assert_eq!(stream_step(state, StreamEvent::Item(StreamItem::Delete)), (state, StreamAction::Listen));
    assert_eq!(stream_step(state, StreamEvent::Item(StreamItem::FiltersChanged)), (state, StreamAction::Listen));
    assert_eq!(stream_step(state, StreamEvent::Opened), (state, StreamAction::Nothing));
}

#[test]
fn broken_stream_is_reopened_with_the_next_number() {
    let listening = StreamState::Listening { attempt: 1 };
    let (state, action) = stream_step(listening, StreamEvent::Broken);
    assert_eq!((state, action), (StreamState::Opening { attempt: 2 }, StreamAction::Open { attempt: 2 }));
    let (state, action) = stream_step(state, StreamEvent::Broken);
    assert_eq!((state, action), (StreamState::Opening { attempt: 3 }, StreamAction::Open { attempt: 3 }));
    assert_eq!(
        stream_step(StreamState::Opening { attempt: u64::MAX }, StreamEvent::Broken),
        (StreamState::Opening { attempt: u64::MAX }, StreamAction::Open { attempt: u64::MAX })
    );
    assert_eq!(
        stream_step(StreamState::Opening { attempt: 3 }, StreamEvent::Item(StreamItem::Update)),
        (StreamState::Opening { attempt: 3 }, StreamAction::Nothing)
    );
}

#[test]
fn only_a_switched_off_poll_may_end() {
    assert_eq!(ruling(Task::Polling, TaskEnd::Stopped), Ruling::Continue);
    assert_eq!(ruling(Task::Polling, TaskEnd::Failed), Ruling::Terminate);
    assert_eq!(ruling(Task::Streaming, TaskEnd::Stopped), Ruling::Terminate);
    assert_eq!(ruling(Task::Streaming, TaskEnd::Failed), Ruling::Terminate);
}
