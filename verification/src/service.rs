//! The relayer's task, the handle through which the rest of the node reads
//! what it has done, and their construction.

use crate::apply::write_page;
use crate::channel::{current, latest, open, publish, published, subscribe};
use crate::config::Config;
use crate::error::RelayerError;
use crate::message::{ContractAddress, Message, MessageView, Nonce};
use crate::ports::{raised, RelayerDb};
use crate::run::{Action, Event, Model, Phase, finished, step};
use crate::state::{ConsistencyState, SyncPage, resolve};
use crate::synced::{is_at_least_synced, merged, reached, update_synced};
use crate::syncing::{GuardStep, SyncingGuard, time_left, time_since};
use tokio::sync::watch::{Receiver, Sender};
use vstd::prelude::*;

verus! {

/// The message that a table shows under `id` to a reader who asks for
/// heights up to `at_most`: the stored one, unless its height is above.
pub open spec fn visible(table: Map<Nonce, MessageView>, id: Nonce, at_most: u64) -> Option<
    MessageView,
> {
    if table.contains_key(id) && table[id].da_height <= at_most {
        Some(table[id])
    } else {
        None
    }
}

/// Whether a wait is over.
#[derive(Clone, Copy, Debug, PartialEq, Eq, Structural)]
pub enum Poll {
    /// What was waited for has happened.
    Ready,
    /// It has not: wait for the published height to change, and ask again.
    Pending,
}

/// What the rest of the node holds of the relayer: a receiver of the
/// published height, and the store.
pub struct SharedState<D> {
    pub synced: Receiver<Option<u64>>,
    pub database: D,
}

/// The relayer before it has touched the store.
pub struct NotInitializedTask<D> {
    /// The sender of the published height, the only one of its channel.
    pub synced: Sender<Option<u64>>,
    pub database: D,
    pub config: Config,
}

/// The relayer at work: the sender of the published height, the store, the
/// settings and the phase of the iteration.
pub struct Task<D> {
    /// The sender of the published height, the only one of its channel.
    pub synced: Sender<Option<u64>>,
    pub database: D,
    pub config: Config,
    pub phase: Phase,
}

/// Whether a wait for the first consistency is over, given the published
/// height as it was last seen.
pub fn poll_synced(seen: Option<u64>) -> (poll: Poll)
    ensures
        poll == (if seen is Some {
            Poll::Ready
        } else {
            Poll::Pending
        }),
{
    if seen.is_some() {
        Poll::Ready
    } else {
        Poll::Pending
    }
}

/// Whether a wait for `height` is over, given the published height as it was
/// last seen.
pub fn poll_at_least_synced(seen: Option<u64>, height: u64) -> (poll: Poll)
    ensures
        poll == (if reached(seen, height) {
            Poll::Ready
        } else {
            Poll::Pending
        }),
{
    if is_at_least_synced(seen, height) {
        Poll::Ready
    } else {
        Poll::Pending
    }
}

impl<D: RelayerDb> NotInitializedTask<D> {
    /// The height that the relayer has published.
    pub open spec fn published(&self) -> Option<u64> {
        published(self.synced)
    }

    /// A relayer that has published nothing yet.
    pub fn new(database: D, config: Config) -> (task: Self)
        ensures
            task.published() is None,
            task.database == database,
            task.config == config,
    {
        NotInitializedTask { synced: open(), database, config }
    }

    /// The published height.
    pub fn synced(&self) -> (height: Option<u64>)
        ensures
            height == self.published(),
    {
        current(&self.synced)
    }

    /// The relayer ready for its first iteration: the finalized-height marker
    /// is raised to at least the configured deploy height.
    pub fn into_task(self) -> (task: Task<D>)
        ensures
            task.model().wf(),
            task.phase is Idle,
            task.published() == self.published(),
            task.config == self.config,
            task.database.finalized() == raised(
                self.database.finalized(),
                self.config.da_deploy_height,
            ),
            task.database.messages() == self.database.messages(),
    {
        let mut task = Task {
            synced: self.synced,
            database: self.database,
            config: self.config,
            phase: Phase::Idle,
        };
        task.set_deploy_height();
        task
    }
}

impl<D: RelayerDb + Clone> NotInitializedTask<D> {
    /// A handle for the rest of the node: a new receiver of the published
    /// height, and a clone of the store.
    pub fn shared_data(&self) -> (shared: SharedState<D>)
        ensures
            cloned(self.database, shared.database),
    {
        SharedState { synced: subscribe(&self.synced), database: self.database.clone() }
    }
}

impl<D: RelayerDb> Task<D> {
    /// The height that the relayer has published.
    pub open spec fn published(&self) -> Option<u64> {
        published(self.synced)
    }

    /// The relayer as a mathematical value.
    pub open spec fn model(&self) -> Model {
        Model {
            messages: self.database.messages(),
            finalized: self.database.finalized(),
            synced: self.published(),
            phase: self.phase,
        }
    }

    /// Raises the finalized-height marker to at least the configured deploy
    /// height.
    pub fn set_deploy_height(&mut self)
        ensures
            final(self).database.finalized() == raised(
                old(self).database.finalized(),
                old(self).config.da_deploy_height,
            ),
            final(self).database.messages() == old(self).database.messages(),
            final(self).published() == old(self).published(),
            final(self).config == old(self).config,
            final(self).phase == old(self).phase,
    {
        self.database.set_finalized_da_height_to_at_least(self.config.da_deploy_height);
    }

    /// The finalized-height marker of the store.
    pub fn observed(&self) -> (height: Option<u64>)
        requires
            self.database.finalized() is Some,
        ensures
            height == self.database.finalized(),
    {
        Some(self.database.get_finalized_da_height())
    }

    /// The published height.
    pub fn synced(&self) -> (height: Option<u64>)
        ensures
            height == self.published(),
    {
        current(&self.synced)
    }

    /// The contracts whose events a request for a page is filtered to.
    pub fn contracts(&self) -> (contracts: &Vec<ContractAddress>)
        ensures
            contracts == self.config.eth_v2_listening_contracts,
    {
        &self.config.eth_v2_listening_contracts
    }

    /// Merges a consistency state into the published height, and sends the
    /// height to the receivers where it changed.
    pub fn update_synced(&mut self, state: &ConsistencyState) -> (changed: bool)
        ensures
            final(self).published() == merged(old(self).published(), *state),
            changed == (final(self).published() != old(self).published()),
            final(self).database == old(self).database,
            final(self).config == old(self).config,
            final(self).phase == old(self).phase,
    {
        let mut height = current(&self.synced);
        let changed = update_synced(&mut height, state);
        if changed {
            publish(&mut self.synced, height);
        }
        changed
    }

    /// Ends the iteration that began at `started`: the relayer waits for what
    /// is left of the minimum duration where it was not stopped and the
    /// iteration failed or found the ledger consistent, and reports at once
    /// otherwise.
    fn finish(
        &mut self,
        started: u128,
        now: u128,
        failure: Option<RelayerError>,
        stopped: bool,
        consistent: bool,
    ) -> (action: Action)
        ensures
            (final(self).model(), action) == finished(
                old(self).model(),
                old(self).config.settings(),
                started,
                now,
                failure,
                stopped,
                consistent,
            ),
            final(self).config == old(self).config,
    {
        if !stopped && (failure.is_some() || consistent) {
            self.phase = Phase::Sleeping { failure };
            Action::Sleep {
                delay: time_left(self.config.sync_minimum_duration, time_since(started, now)),
            }
        } else {
            self.phase = Phase::Idle;
            match failure {
                Some(e) => Action::Done(Err(e)),
                None => Action::Done(Ok(true)),
            }
        }
    }

    /// Takes the answer to a call for the syncing status: a stop or a failed
    /// call ends the iteration, a node that is ready lets it go on, and one
    /// that is syncing is asked again after a pause.
    fn wait_if_eth_syncing(
        &mut self,
        now: u128,
        event: &Event,
        started: u128,
        guard: SyncingGuard,
    ) -> (action: Action)
        requires
            old(self).model().wf(),
            old(self).phase == (Phase::AwaitingStatus { started, guard }),
        ensures
            final(self).model().wf(),
            (final(self).model(), action) == step(
                old(self).model(),
                old(self).config.settings(),
                now,
                event@,
            ),
            final(self).config == old(self).config,
    {
        match event {
            Event::Stop => self.finish(started, now, Some(RelayerError::Stopped), true, false),
            Event::Failed => self.finish(started, now, Some(RelayerError::Remote), false, false),
            Event::Status(status) => {
                let mut guard = guard;
                let step = guard.observe(
                    *status,
                    now,
                    self.config.syncing_call_frequency,
                    self.config.syncing_log_frequency,
                );
                match step {
                    GuardStep::Ready => {
                        self.phase = Phase::AwaitingHeight { started };
                        Action::GetFinalized
                    },
                    GuardStep::Wait { delay, log } => {
                        self.phase = Phase::Pausing { started, guard };
                        Action::Pause { delay, log }
                    },
                }
            },
            _ => Action::Ignored,
        }
    }

    /// Takes the answer to a call for the finalized height: a stop, a failed
    /// call or a pending block ends the iteration. A height that the ledger
    /// has reached is published, and ends the iteration too; one that it has
    /// not reached opens the retrieval of the gap with its first page.
    fn finalized(&mut self, now: u128, event: &Event, started: u128) -> (action: Action)
        requires
            old(self).model().wf(),
            old(self).phase == (Phase::AwaitingHeight { started }),
        ensures
            final(self).model().wf(),
            (final(self).model(), action) == step(
                old(self).model(),
                old(self).config.settings(),
                now,
                event@,
            ),
            final(self).config == old(self).config,
    {
        match event {
            Event::Stop => self.finish(started, now, Some(RelayerError::Stopped), true, false),
            Event::Failed => self.finish(started, now, Some(RelayerError::Remote), false, false),
            Event::Finalized(None) => self.finish(
                started,
                now,
                Some(RelayerError::BlockPending),
                false,
                false,
            ),
            Event::Finalized(Some(remote)) => {
                let local = self.database.get_finalized_da_height();
                let (gap, state) = resolve(*remote, local);
                match gap.page(self.config.log_page_size) {
                    None => {
                        self.update_synced(&state);
                        self.finish(started, now, None, false, true)
                    },
                    Some(page) => {
                        self.phase = Phase::AwaitingLogs { started, page, applied: None };
                        Action::GetLogs { oldest: page.oldest, latest: page.latest }
                    },
                }
            },
            _ => Action::Ignored,
        }
    }

    /// Takes the answer to a request for a page. A stop ends the iteration
    /// and raises the marker to the last page that was applied. A failed call
    /// or an event that cannot be decoded ends it and leaves the marker. A
    /// page that can be decoded is applied; the next page is asked for, or,
    /// after the last, the marker is raised to the end of the gap.
    fn download_logs(
        &mut self,
        now: u128,
        event: &Event,
        started: u128,
        page: SyncPage,
        applied: Option<u64>,
    ) -> (action: Action)
        requires
            old(self).model().wf(),
            old(self).phase == (Phase::AwaitingLogs { started, page, applied }),
        ensures
            final(self).model().wf(),
            (final(self).model(), action) == step(
                old(self).model(),
                old(self).config.settings(),
                now,
                event@,
            ),
            final(self).config == old(self).config,
    {
        match event {
            Event::Stop => {
                match applied {
                    Some(a) => {
                        self.database.set_finalized_da_height_to_at_least(a);
                    },
                    None => {},
                }
                self.finish(started, now, None, true, false)
            },
            Event::Failed => self.finish(started, now, Some(RelayerError::Remote), false, false),
            Event::Logs(events) => {
                match write_page(&mut self.database, events) {
                    Err(failure) => self.finish(started, now, Some(failure), false, false),
                    Ok(()) => {
                        match page.reduce() {
                            Some(next) => {
                                self.phase = Phase::AwaitingLogs {
                                    started,
                                    page: next,
                                    applied: Some(page.latest),
                                };
                                Action::GetLogs { oldest: next.oldest, latest: next.latest }
                            },
                            None => {
                                self.database.set_finalized_da_height_to_at_least(page.latest);
                                self.finish(started, now, None, false, false)
                            },
                        }
                    },
                }
            },
            _ => Action::Ignored,
        }
    }

    /// Takes the event that arrived at `now` and says what to ask of the
    /// outside world next.
    pub fn run(&mut self, now: u128, event: Event) -> (action: Action)
        requires
            old(self).model().wf(),
        ensures
            final(self).model().wf(),
            (final(self).model(), action) == step(
                old(self).model(),
                old(self).config.settings(),
                now,
                event@,
            ),
            final(self).config == old(self).config,
    {
        match self.phase {
            Phase::Idle => match event {
                Event::Begin => {
                    self.phase = Phase::AwaitingStatus {
                        started: now,
                        guard: SyncingGuard::start(now),
                    };
                    Action::GetStatus
                },
                _ => Action::Ignored,
            },
            Phase::AwaitingStatus { started, guard } => self.wait_if_eth_syncing(
                now,
                &event,
                started,
                guard,
            ),
            Phase::Pausing { started, guard } => match event {
                Event::Stop => self.finish(started, now, Some(RelayerError::Stopped), true, false),
                Event::Woke => {
                    self.phase = Phase::AwaitingStatus { started, guard: guard.polling(now) };
                    Action::GetStatus
                },
                _ => Action::Ignored,
            },
            Phase::AwaitingHeight { started } => self.finalized(now, &event, started),
            Phase::AwaitingLogs { started, page, applied } => self.download_logs(
                now,
                &event,
                started,
                page,
                applied,
            ),
            Phase::Sleeping { failure } => match event {
                Event::Stop | Event::Woke => {
                    self.phase = Phase::Idle;
                    match failure {
                        Some(e) => Action::Done(Err(e)),
                        None => Action::Done(Ok(true)),
                    }
                },
                _ => Action::Ignored,
            },
        }
    }

    /// Ends the task. There is nothing to flush and nothing to wait for.
    pub fn shutdown(self) -> (r: Result<(), RelayerError>)
        ensures
            r is Ok,
    {
        Ok(())
    }
}

impl<D: RelayerDb> SharedState<D> {
    /// Whether the relayer has reached consistency with the remote chain at
    /// least once, as far as the receiver sees at the time of the call.
    pub fn await_synced(&self) -> (poll: Poll) {
        poll_synced(latest(&self.synced))
    }

    /// Whether the published height has reached `height`, as far as the
    /// receiver sees at the time of the call.
    pub fn await_at_least_synced(&self, height: &u64) -> (poll: Poll) {
        poll_at_least_synced(latest(&self.synced), *height)
    }

    /// The message stored under `id`, where its height is at most
    /// `da_height`.
    pub fn get_message(&self, id: &Nonce, da_height: &u64) -> (found: Option<Message>)
        ensures
            found is Some <==> visible(self.database.messages(), *id, *da_height) is Some,
            found matches Some(m) ==> Some(m@) == visible(
                self.database.messages(),
                *id,
                *da_height,
            ),
    {
        match self.database.get_message(id) {
            Some(message) => {
                if message.da_height <= *da_height {
                    Some(message)
                } else {
                    None
                }
            },
            None => None,
        }
    }

    /// The finalized-height marker of the store.
    pub fn get_finalized_da_height(&self) -> (height: u64)
        requires
            self.database.finalized() is Some,
        ensures
            self.database.finalized() == Some(height),
    {
        self.database.get_finalized_da_height()
    }
}

/// A relayer for the remote node that the settings name; without one there
/// is no relayer.
pub fn new_service<D: RelayerDb>(database: D, config: Config) -> (r: Result<
    NotInitializedTask<D>,
    RelayerError,
>)
    ensures
        config.relayer is None ==> r == Err::<NotInitializedTask<D>, RelayerError>(
            RelayerError::MissingEthClient,
        ),
        config.relayer is Some ==> r is Ok,
        r matches Ok(task) ==> task.published() is None && task.database == database
            && task.config == config,
{
    if config.relayer.is_none() {
        return Err(RelayerError::MissingEthClient);
    }
    Ok(new_service_internal(database, config))
}

/// A relayer whose remote node the caller supplies.
pub fn new_service_test<D: RelayerDb>(database: D, config: Config) -> (task: NotInitializedTask<D>)
    ensures
        task.published() is None,
        task.database == database,
        task.config == config,
{
    new_service_internal(database, config)
}

fn new_service_internal<D: RelayerDb>(database: D, config: Config) -> (task: NotInitializedTask<D>)
    ensures
        task.published() is None,
        task.database == database,
        task.config == config,
{
    NotInitializedTask::new(database, config)
}

} // verus!
