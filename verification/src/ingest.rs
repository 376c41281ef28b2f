//! The two sources of updates, a live stream and a periodic poll, and the
//! supervision of both: machines that take what happened and say what to
//! do next.

use crate::config::ManualRefreshConfig;
use vstd::prelude::*;

verus! {

/// Seconds that the poll waits after the start of the service before it
/// looks at its settings.
pub const STARTUP_DELAY_SECS: u64 = 10;

/// Seconds between two posts of one poll, to stay within the server's rate
/// limits.
pub const PACE_SECS: u64 = 1;

/// Where the poll stands.
#[derive(Clone, Copy, Debug, PartialEq, Eq, Structural)]
pub enum PollState {
    /// Waiting out the start of the service.
    Starting,
    /// Waiting out the delay before the first poll.
    WarmingUp,
    /// Asking for recent posts; `first` on the first poll.
    Fetching { first: bool },
    /// Post `next` of `count` is being handled.
    Forwarding { next: usize, count: usize },
    /// Pausing after post `next` of `count`.
    Pacing { next: usize, count: usize },
    /// Waiting for the next poll.
    Resting,
    /// The poll is switched off.
    Disabled,
    /// Asking for recent posts failed.
    Failed,
}

/// What happened to the poll.
#[derive(Clone, Copy, Debug, PartialEq, Eq, Structural)]
pub enum PollEvent {
    /// The wait that was asked for is over.
    Slept,
    /// The server listed `count` posts.
    Fetched { count: usize },
    /// The server did not list the posts.
    FetchFailed,
    /// The post that was handed on has been handled.
    Handled,
}

/// What the poll does next.
#[derive(Clone, Copy, Debug, PartialEq, Eq, Structural)]
pub enum PollAction {
    /// Wait.
    Sleep { seconds: u64 },
    /// Ask for the `limit` most recent posts of the account, those with
    /// media only where `only_media` is set.
    Fetch { limit: usize, only_media: bool },
    /// Hand post `index` of the list to the handler of updates.
    Forward { index: usize },
    /// End quietly.
    Stop,
    /// End with an error.
    Fail,
    /// Nothing.
    Nothing,
}

/// How the poll begins: by waiting out the start of the service.
pub open spec fn poll_begun() -> (PollState, PollAction) {
    (PollState::Starting, PollAction::Sleep { seconds: STARTUP_DELAY_SECS })
}

/// One step of the poll.
///
/// - After the start a poll that is switched off ends; any other waits the
///   initial delay.
/// - The first poll asks for `initial_statuses` posts, every later one for
///   `statuses`.
/// - The posts listed are handed on one by one, with a pause after each.
///   After the last the poll waits `interval` and starts over.
/// - A list that the server does not give ends the poll with an error.
/// - An event that does not belong to where the poll stands changes nothing
///   and asks for nothing.
pub open spec fn poll_next(config: ManualRefreshConfig, state: PollState, event: PollEvent) -> (
    PollState,
    PollAction,
) {
    match (state, event) {
        (PollState::Starting, PollEvent::Slept) => if config.enabled {
            (PollState::WarmingUp, PollAction::Sleep { seconds: config.initial_delay })
        } else {
            (PollState::Disabled, PollAction::Stop)
        },
        (PollState::WarmingUp, PollEvent::Slept) => (
            PollState::Fetching { first: true },
            PollAction::Fetch { limit: config.initial_statuses, only_media: true },
        ),
        (PollState::Fetching { first }, PollEvent::Fetched { count }) => if count == 0 {
            (PollState::Resting, PollAction::Sleep { seconds: config.interval })
        } else {
            (PollState::Forwarding { next: 0, count }, PollAction::Forward { index: 0 })
        },
        (PollState::Fetching { first }, PollEvent::FetchFailed) => (
            PollState::Failed,
            PollAction::Fail,
        ),
        (PollState::Forwarding { next, count }, PollEvent::Handled) => (
            PollState::Pacing { next, count },
            PollAction::Sleep { seconds: PACE_SECS },
        ),
        (PollState::Pacing { next, count }, PollEvent::Slept) => if next + 1 < count {
            (
                PollState::Forwarding { next: (next + 1) as usize, count },
                PollAction::Forward { index: (next + 1) as usize },
            )
        } else {
            (PollState::Resting, PollAction::Sleep { seconds: config.interval })
        },
        (PollState::Resting, PollEvent::Slept) => (
            PollState::Fetching { first: false },
            PollAction::Fetch { limit: config.statuses, only_media: true },
        ),
        _ => (state, PollAction::Nothing),
    }
}

/// How the poll begins.
pub fn poll_begin() -> (r: (PollState, PollAction))
    ensures
        r == poll_begun(),
{
    (PollState::Starting, PollAction::Sleep { seconds: STARTUP_DELAY_SECS })
}

/// Takes what happened to the poll and says where it stands now and what to
/// do next.
pub fn poll_step(config: &ManualRefreshConfig, state: PollState, event: PollEvent) -> (r: (
    PollState,
    PollAction,
))
    ensures
        r == poll_next(*config, state, event),
{
    match state {
        PollState::Starting => match event {
            PollEvent::Slept => if config.enabled {
                (PollState::WarmingUp, PollAction::Sleep { seconds: config.initial_delay })
            } else {
                (PollState::Disabled, PollAction::Stop)
            },
            _ => (state, PollAction::Nothing),
        },
        PollState::WarmingUp => match event {
            PollEvent::Slept => (
                PollState::Fetching { first: true },
                PollAction::Fetch { limit: config.initial_statuses, only_media: true },
            ),
            _ => (state, PollAction::Nothing),
        },
        PollState::Fetching { first } => match event {
            PollEvent::Fetched { count } => if count == 0 {
                (PollState::Resting, PollAction::Sleep { seconds: config.interval })
            } else {
                (PollState::Forwarding { next: 0, count }, PollAction::Forward { index: 0 })
            },
            PollEvent::FetchFailed => (PollState::Failed, PollAction::Fail),
            _ => (state, PollAction::Nothing),
        },
        PollState::Forwarding { next, count } => match event {
            PollEvent::Handled => (
                PollState::Pacing { next, count },
                PollAction::Sleep { seconds: PACE_SECS },
            ),
            _ => (state, PollAction::Nothing),
        },
        PollState::Pacing { next, count } => match event {
            PollEvent::Slept => if count > 0 && next < count - 1 {
                (
                    PollState::Forwarding { next: next + 1, count },
                    PollAction::Forward { index: next + 1 },
                )
            } else {
                (PollState::Resting, PollAction::Sleep { seconds: config.interval })
            },
            _ => (state, PollAction::Nothing),
        },
        PollState::Resting => match event {
            PollEvent::Slept => (
                PollState::Fetching { first: false },
                PollAction::Fetch { limit: config.statuses, only_media: true },
            ),
            _ => (state, PollAction::Nothing),
        },
        _ => (state, PollAction::Nothing),
    }
}

/// What a live stream delivers.
#[derive(Clone, Copy, Debug, PartialEq, Eq, Structural)]
pub enum StreamItem {
    /// A post was written or edited.
    Update,
    /// The account was notified of something.
    Notification,
    /// A post was deleted.
    Delete,
    /// The account's filters changed.
    FiltersChanged,
}

/// Where the stream stands; `attempt` counts the connections made, this one
/// included.
#[derive(Clone, Copy, Debug, PartialEq, Eq, Structural)]
pub enum StreamState {
    /// A connection is being opened.
    Opening { attempt: u64 },
    /// Items are being read.
    Listening { attempt: u64 },
}

/// What happened to the stream.
#[derive(Clone, Copy, Debug, PartialEq, Eq, Structural)]
pub enum StreamEvent {
    /// The connection stands.
    Opened,
    /// An item arrived.
    Item(StreamItem),
    /// The connection could not be opened, broke, or ended.
    Broken,
}

/// What the stream does next.
#[derive(Clone, Copy, Debug, PartialEq, Eq, Structural)]
pub enum StreamAction {
    /// Open a connection; it is connection number `attempt`.
    Open { attempt: u64 },
    /// Read on.
    Listen,
    /// Hand the update to a handler of its own, without waiting for it, and
    /// read on.
    Forward,
    /// Nothing.
    Nothing,
}

/// The number of the connection after connection `attempt`. The count stops
/// at the largest number there is.
pub open spec fn following(attempt: u64) -> u64 {
    if attempt < u64::MAX {
        (attempt + 1) as u64
    } else {
        attempt
    }
}

/// How the stream begins: with its first connection.
pub open spec fn stream_begun() -> (StreamState, StreamAction) {
    (StreamState::Opening { attempt: 1 }, StreamAction::Open { attempt: 1 })
}

/// One step of the stream. Only updates are handed on; every other item is
/// passed over. A connection that fails is followed by the next one:
/// the stream never ends.
pub open spec fn stream_next(state: StreamState, event: StreamEvent) -> (
    StreamState,
    StreamAction,
) {
    match (state, event) {
        (StreamState::Opening { attempt }, StreamEvent::Opened) => (
            StreamState::Listening { attempt },
            StreamAction::Listen,
        ),
        (StreamState::Opening { attempt }, StreamEvent::Broken) => (
            StreamState::Opening { attempt: following(attempt) },
            StreamAction::Open { attempt: following(attempt) },
        ),
        (StreamState::Listening { attempt }, StreamEvent::Item(item)) => (
            state,
            if item == StreamItem::Update {
                StreamAction::Forward
            } else {
                StreamAction::Listen
            },
        ),
        (StreamState::Listening { attempt }, StreamEvent::Broken) => (
            StreamState::Opening { attempt: following(attempt) },
            StreamAction::Open { attempt: following(attempt) },
        ),
        _ => (state, StreamAction::Nothing),
    }
}

/// How the stream begins.
pub fn stream_begin() -> (r: (StreamState, StreamAction))
    ensures
        r == stream_begun(),
{
    (StreamState::Opening { attempt: 1 }, StreamAction::Open { attempt: 1 })
}

/// Takes what happened to the stream and says where it stands now and what
/// to do next.
pub fn stream_step(state: StreamState, event: StreamEvent) -> (r: (StreamState, StreamAction))
    ensures
        r == stream_next(state, event),
{
    match state {
        StreamState::Opening { attempt } => match event {
            StreamEvent::Opened => (StreamState::Listening { attempt }, StreamAction::Listen),
            StreamEvent::Broken => {
                let then = attempt.saturating_add(1);
                (StreamState::Opening { attempt: then }, StreamAction::Open { attempt: then })
            },
            _ => (state, StreamAction::Nothing),
        },
        StreamState::Listening { attempt } => match event {
            StreamEvent::Item(item) => match item {
                StreamItem::Update => (state, StreamAction::Forward),
                _ => (state, StreamAction::Listen),
            },
            StreamEvent::Broken => {
                let then = attempt.saturating_add(1);
                (StreamState::Opening { attempt: then }, StreamAction::Open { attempt: then })
            },
            _ => (state, StreamAction::Nothing),
        },
    }
}

/// One of the two long-lived tasks of the service.
#[derive(Clone, Copy, Debug, PartialEq, Eq, Structural)]
pub enum Task {
    Streaming,
    Polling,
}

/// How a task ended.
#[derive(Clone, Copy, Debug, PartialEq, Eq, Structural)]
pub enum TaskEnd {
    /// Quietly, because its machine said `Stop`.
    Stopped,
    /// With an error, or without being asked to.
    Failed,
}

/// What the end of a task means for the service.
#[derive(Clone, Copy, Debug, PartialEq, Eq, Structural)]
pub enum Ruling {
    /// The service goes on with the other task.
    Continue,
    /// The service ends, loudly.
    Terminate,
}

/// The only end that the service survives is that of a poll that was
/// switched off. The stream is never asked to stop, and a task that fails
/// takes the service with it.
pub open spec fn ruling_on(task: Task, end: TaskEnd) -> Ruling {
    if task == Task::Polling && end == TaskEnd::Stopped {
        Ruling::Continue
    } else {
        Ruling::Terminate
    }
}

/// What the end of a task means for the service.
pub fn ruling(task: Task, end: TaskEnd) -> (r: Ruling)
    ensures
        r == ruling_on(task, end),
{
    match task {
        Task::Polling => match end {
            TaskEnd::Stopped => Ruling::Continue,
            TaskEnd::Failed => Ruling::Terminate,
        },
        Task::Streaming => Ruling::Terminate,
    }
}

/// The stream goes on whatever happens to it: no step leaves it without a
/// state to go on from, and a broken connection is always followed by the
/// opening of the next, whose number is not below the last.
pub proof fn law_stream_reopens(state: StreamState)
    ensures
        stream_next(state, StreamEvent::Broken).1 is Open,
        stream_next(state, StreamEvent::Broken).0 is Opening,
        stream_next(state, StreamEvent::Broken).1->Open_attempt >= match state {
            StreamState::Opening { attempt } => attempt,
            StreamState::Listening { attempt } => attempt,
        },
{
}

/// Of all that a stream delivers only updates reach the handler.
pub proof fn law_only_updates_forwarded(state: StreamState, event: StreamEvent)
    ensures
        stream_next(state, event).1 is Forward <==> (state is Listening && event
            == StreamEvent::Item(StreamItem::Update)),
{
}

/// A poll asks for `initial_statuses` posts exactly when it is the first
/// one, and for `statuses` from then on.
pub proof fn law_poll_limits(config: ManualRefreshConfig, state: PollState, event: PollEvent)
    requires
        poll_next(config, state, event).1 is Fetch,
    ensures
        poll_next(config, state, event).0 is Fetching,
        poll_next(config, state, event).1->Fetch_limit == if poll_next(
            config,
            state,
            event,
        ).0->Fetching_first {
            config.initial_statuses
        } else {
            config.statuses
        },
        poll_next(config, state, event).0->Fetching_first <==> state is WarmingUp,
{
}

/// A poll that is switched off asks the server for nothing.
pub proof fn law_disabled_poll_is_silent(config: ManualRefreshConfig, event: PollEvent)
    requires
        !config.enabled,
    ensures
        poll_next(config, PollState::Starting, PollEvent::Slept) == (
            PollState::Disabled,
            PollAction::Stop,
        ),
        poll_next(config, PollState::Disabled, event) == (PollState::Disabled, PollAction::Nothing),
{
}

} // verus!
