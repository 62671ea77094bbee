//! One iteration of the relayer as a state machine: each answer of the
//! outside world is an event, and each event yields the next thing to ask of
//! the outside world.

use crate::apply::applied;
use crate::config::Config;
use crate::error::RelayerError;
use crate::message::{EthEventLog, EthEventLogView, MessageView, Nonce, event_views};
use crate::ports::raised;
use crate::state::{ConsistencyState, SyncPage, page_last, page_len};
use crate::synced::merged;
use crate::syncing::{GuardStep, SyncingGuard, SyncingStatus, elapsed, observed, remainder};
use vstd::prelude::*;

verus! {

/// Where an iteration stands. Times are in nanoseconds; `started` is the time
/// at which the iteration began.
#[derive(Clone, Copy, Debug, PartialEq, Eq)]
pub enum Phase {
    /// No iteration is under way.
    Idle,
    /// The remote node was asked for its syncing status.
    AwaitingStatus { started: u128, guard: SyncingGuard },
    /// The remote node is syncing, and the relayer waits to ask again.
    Pausing { started: u128, guard: SyncingGuard },
    /// The remote node was asked for its finalized height.
    AwaitingHeight { started: u128 },
    /// The remote node was asked for the events of `page`; `applied` is the
    /// last height of the page before it, which was applied.
    AwaitingLogs { started: u128, page: SyncPage, applied: Option<u64> },
    /// The iteration is over, with `failure` or without, and the relayer
    /// waits before it reports.
    Sleeping { failure: Option<RelayerError> },
}

/// What the outside world answered.
#[derive(Clone, Debug, PartialEq, Eq)]
pub enum Event {
    /// The host asks for an iteration.
    Begin,
    /// The remote node's syncing status.
    Status(SyncingStatus),
    /// The number of the remote node's finalized block, where it has one.
    Finalized(Option<u64>),
    /// The events of the page that was asked for.
    Logs(Vec<EthEventLog>),
    /// The call to the remote node failed.
    Failed,
    /// The stop signal.
    Stop,
    /// The wait that was asked for is over.
    Woke,
}

/// An event as a mathematical value.
pub enum EventView {
    Begin,
    Status(SyncingStatus),
    Finalized(Option<u64>),
    Logs(Seq<EthEventLogView>),
    Failed,
    Stop,
    Woke,
}

impl View for Event {
    type V = EventView;

    open spec fn view(&self) -> EventView {
        match self {
            Event::Begin => EventView::Begin,
            Event::Status(s) => EventView::Status(*s),
            Event::Finalized(h) => EventView::Finalized(*h),
            Event::Logs(events) => EventView::Logs(event_views(events@)),
            Event::Failed => EventView::Failed,
            Event::Stop => EventView::Stop,
            Event::Woke => EventView::Woke,
        }
    }
}

/// What to ask of the outside world next. After each but `Done` and
/// `Ignored` the answer comes back as an event; the stop signal may take the
/// place of any answer.
#[derive(Clone, Copy, Debug, PartialEq, Eq)]
pub enum Action {
    /// Ask the remote node for its syncing status.
    GetStatus,
    /// Log the syncing status where `log` says so, and wait.
    Pause { delay: u128, log: bool },
    /// Ask the remote node for the number of its finalized block.
    GetFinalized,
    /// Ask the remote node for the events of the configured contracts at the
    /// heights `oldest..=latest`.
    GetLogs { oldest: u64, latest: u64 },
    /// Wait before the iteration is reported.
    Sleep { delay: u128 },
    /// The iteration is over: whether to go on, or why it failed.
    Done(Result<bool, RelayerError>),
    /// The event was not expected and changed nothing.
    Ignored,
}

/// The settings that an iteration reads.
pub struct Settings {
    pub page_size: u64,
    pub minimum_duration: u128,
    pub call_frequency: u128,
    pub log_frequency: u128,
}

/// The relayer as a mathematical value: the stored messages, the
/// finalized-height marker, the published height and the phase.
pub struct Model {
    pub messages: Map<Nonce, MessageView>,
    pub finalized: Option<u64>,
    pub synced: Option<u64>,
    pub phase: Phase,
}

impl Config {
    /// The settings that an iteration reads.
    pub open spec fn settings(self) -> Settings {
        Settings {
            page_size: self.log_page_size,
            minimum_duration: self.sync_minimum_duration,
            call_frequency: self.syncing_call_frequency,
            log_frequency: self.syncing_log_frequency,
        }
    }
}

impl Model {
    /// The marker is set, and a page that is awaited is a page of its gap
    /// that follows what was applied.
    pub open spec fn wf(self) -> bool {
        &&& self.finalized is Some
        &&& self.phase matches Phase::AwaitingLogs { page, applied, .. } ==> {
            &&& page.wf()
            &&& applied matches Some(a) ==> a + 1 == page.oldest
        }
    }
}

/// What an iteration that ended reports.
pub open spec fn outcome(failure: Option<RelayerError>) -> Result<bool, RelayerError> {
    match failure {
        Some(e) => Err(e),
        None => Ok(true),
    }
}

/// Whether the relayer waits after an iteration: it was not stopped, and it
/// failed or found the ledger consistent.
pub open spec fn backs_off(failure: Option<RelayerError>, stopped: bool, consistent: bool) -> bool {
    !stopped && (failure is Some || consistent)
}

/// The end of an iteration that began at `started` and ends at `now`. Where
/// the relayer backs off it waits for what is left of the minimum duration;
/// otherwise it reports at once.
pub open spec fn finished(
    m: Model,
    c: Settings,
    started: u128,
    now: u128,
    failure: Option<RelayerError>,
    stopped: bool,
    consistent: bool,
) -> (Model, Action) {
    if backs_off(failure, stopped, consistent) {
        (
            Model { phase: Phase::Sleeping { failure }, ..m },
            Action::Sleep { delay: remainder(c.minimum_duration, elapsed(started, now)) },
        )
    } else {
        (Model { phase: Phase::Idle, ..m }, Action::Done(outcome(failure)))
    }
}

/// The page after `page` in its gap.
pub open spec fn following(page: SyncPage) -> SyncPage {
    SyncPage {
        oldest: (page.latest + 1) as u64,
        latest: page_last(page.latest + 1, page.end as int, page_len(page.size)) as u64,
        size: page.size,
        end: page.end,
    }
}

/// The first page of the gap above `local` that ends at `remote`.
pub open spec fn leading(local: u64, remote: u64, size: u64) -> SyncPage {
    SyncPage {
        oldest: (local + 1) as u64,
        latest: page_last(local + 1, remote as int, page_len(size)) as u64,
        size,
        end: remote,
    }
}

/// The relayer and the next action after an answer to the syncing status
/// arrived.
pub open spec fn after_status(
    m: Model,
    c: Settings,
    now: u128,
    event: EventView,
    started: u128,
    guard: SyncingGuard,
) -> (Model, Action) {
    match event {
        EventView::Stop => finished(m, c, started, now, Some(RelayerError::Stopped), true, false),
        EventView::Failed => finished(m, c, started, now, Some(RelayerError::Remote), false, false),
        EventView::Status(status) => {
            let (next, step) = observed(guard, status, now, c.call_frequency, c.log_frequency);
            match step {
                GuardStep::Ready => (
                    Model { phase: Phase::AwaitingHeight { started }, ..m },
                    Action::GetFinalized,
                ),
                GuardStep::Wait { delay, log } => (
                    Model { phase: Phase::Pausing { started, guard: next }, ..m },
                    Action::Pause { delay, log },
                ),
            }
        },
        _ => (m, Action::Ignored),
    }
}

/// The relayer and the next action after an answer to the finalized height
/// arrived.
pub open spec fn after_height(m: Model, c: Settings, now: u128, event: EventView, started: u128) -> (
    Model,
    Action,
) {
    match event {
        EventView::Stop => finished(m, c, started, now, Some(RelayerError::Stopped), true, false),
        EventView::Failed => finished(m, c, started, now, Some(RelayerError::Remote), false, false),
        EventView::Finalized(None) => finished(
            m,
            c,
            started,
            now,
            Some(RelayerError::BlockPending),
            false,
            false,
        ),
        EventView::Finalized(Some(remote)) => {
            let local = m.finalized->0;
            if local >= remote {
                finished(
                    Model { synced: merged(m.synced, ConsistencyState::ConsistentAsOf(remote)), ..m },
                    c,
                    started,
                    now,
                    None,
                    false,
                    true,
                )
            } else {
                let page = leading(local, remote, c.page_size);
                (
                    Model { phase: Phase::AwaitingLogs { started, page, applied: None }, ..m },
                    Action::GetLogs { oldest: page.oldest, latest: page.latest },
                )
            }
        },
        _ => (m, Action::Ignored),
    }
}

/// The relayer and the next action after an answer to a request for a page
/// arrived.
pub open spec fn after_logs(
    m: Model,
    c: Settings,
    now: u128,
    event: EventView,
    started: u128,
    page: SyncPage,
    done: Option<u64>,
) -> (Model, Action) {
    match event {
        EventView::Stop => finished(
            Model {
                finalized: match done {
                    Some(a) => raised(m.finalized, a),
                    None => m.finalized,
                },
                ..m
            },
            c,
            started,
            now,
            None,
            true,
            false,
        ),
        EventView::Failed => finished(m, c, started, now, Some(RelayerError::Remote), false, false),
        EventView::Logs(events) => {
            if !crate::apply::decodable(events) {
                finished(m, c, started, now, Some(RelayerError::Decode), false, false)
            } else if page.latest < page.end {
                let next = following(page);
                (
                    Model {
                        messages: applied(m.messages, events),
                        phase: Phase::AwaitingLogs { started, page: next, applied: Some(page.latest) },
                        ..m
                    },
                    Action::GetLogs { oldest: next.oldest, latest: next.latest },
                )
            } else {
                finished(
                    Model {
                        messages: applied(m.messages, events),
                        finalized: raised(m.finalized, page.latest),
                        ..m
                    },
                    c,
                    started,
                    now,
                    None,
                    false,
                    false,
                )
            }
        },
        _ => (m, Action::Ignored),
    }
}

/// The relayer and the next action after `event` arrived at `now`.
pub open spec fn step(m: Model, c: Settings, now: u128, event: EventView) -> (Model, Action) {
    match m.phase {
        Phase::Idle => match event {
            EventView::Begin => (
                Model {
                    phase: Phase::AwaitingStatus {
                        started: now,
                        guard: SyncingGuard { logged_at: now, polled_at: now },
                    },
                    ..m
                },
                Action::GetStatus,
            ),
            _ => (m, Action::Ignored),
        },
        Phase::AwaitingStatus { started, guard } => after_status(m, c, now, event, started, guard),
        Phase::Pausing { started, guard } => match event {
            EventView::Stop => finished(
                m,
                c,
                started,
                now,
                Some(RelayerError::Stopped),
                true,
                false,
            ),
            EventView::Woke => (
                Model {
                    phase: Phase::AwaitingStatus {
                        started,
                        guard: SyncingGuard { logged_at: guard.logged_at, polled_at: now },
                    },
                    ..m
                },
                Action::GetStatus,
            ),
            _ => (m, Action::Ignored),
        },
        Phase::AwaitingHeight { started } => after_height(m, c, now, event, started),
        Phase::AwaitingLogs { started, page, applied } => after_logs(
            m,
            c,
            now,
            event,
            started,
            page,
            applied,
        ),
        Phase::Sleeping { failure } => match event {
            EventView::Stop | EventView::Woke => (
                Model { phase: Phase::Idle, ..m },
                Action::Done(outcome(failure)),
            ),
            _ => (m, Action::Ignored),
        },
    }
}

} // verus!
