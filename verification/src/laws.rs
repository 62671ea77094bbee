//! What holds of the relayer over any course of events.

use crate::apply::decodable;
use crate::message::{MessageView, Nonce};
use crate::ports::raised;
use crate::run::{Action, EventView, Model, Phase, Settings, following, step};
use crate::service::visible;
use crate::state::{page_len, pages_of};
use crate::synced::reached;
use crate::syncing::{SyncingStatus, elapsed};
use vstd::prelude::*;

verus! {

/// A course of events: each with the time at which it arrived.
pub type Trace = Seq<(u128, EventView)>;

/// The relayer after a course of events.
pub open spec fn run_trace(m: Model, c: Settings, trace: Trace) -> Model
    decreases trace.len(),
{
    if trace.len() == 0 {
        m
    } else {
        run_trace(step(m, c, trace[0].0, trace[0].1).0, c, trace.skip(1))
    }
}

/// The actions that a course of events yields, one for each event.
pub open spec fn actions_of(m: Model, c: Settings, trace: Trace) -> Seq<Action>
    decreases trace.len(),
{
    if trace.len() == 0 {
        Seq::empty()
    } else {
        seq![step(m, c, trace[0].0, trace[0].1).1] + actions_of(
            step(m, c, trace[0].0, trace[0].1).0,
            c,
            trace.skip(1),
        )
    }
}

/// Whether `bound` is at least every remote height that a course of events
/// reports.
pub open spec fn remote_within(trace: Trace, bound: u64) -> bool {
    forall|i: int|
        0 <= i < trace.len() ==> ((#[trigger] trace[i]).1 matches EventView::Finalized(Some(h))
            ==> h <= bound)
}

/// Whether neither the marker, nor the published height, nor the end of the
/// gap under retrieval is above `bound`.
pub open spec fn within(m: Model, bound: u64) -> bool {
    &&& m.finalized matches Some(f) ==> f <= bound
    &&& m.synced matches Some(s) ==> s <= bound
    &&& m.phase matches Phase::AwaitingLogs { page, .. } ==> page.end <= bound
}

/// Whether the marker and the published height of `after` are at least
/// those of `before`, and neither was cleared.
pub open spec fn not_lowered(before: Model, after: Model) -> bool {
    &&& before.finalized matches Some(f) ==> after.finalized matches Some(g) && g >= f
    &&& before.synced matches Some(s) ==> after.synced matches Some(t) && t >= s
}

/// One event keeps the relayer well formed, lowers neither the marker nor
/// the published height, and lifts neither above a bound that they and
/// the remote heights seen so far respect.
pub proof fn step_is_monotonic(m: Model, c: Settings, now: u128, event: EventView, bound: u64)
    requires
        m.wf(),
    ensures
        step(m, c, now, event).0.wf(),
        not_lowered(m, step(m, c, now, event).0),
        within(m, bound) && (event matches EventView::Finalized(Some(h)) ==> h <= bound) ==> within(
            step(m, c, now, event).0,
            bound,
        ),
{
}

/// Over any course of events the marker and the published height never
/// decrease, and they never exceed the highest remote height observed,
/// where the marker did not exceed it from the start.
pub proof fn trace_is_monotonic(m: Model, c: Settings, trace: Trace, bound: u64)
    requires
        m.wf(),
    ensures
        run_trace(m, c, trace).wf(),
        not_lowered(m, run_trace(m, c, trace)),
        within(m, bound) && remote_within(trace, bound) ==> within(run_trace(m, c, trace), bound),
    decreases trace.len(),
{
    if trace.len() > 0 {
        let next = step(m, c, trace[0].0, trace[0].1).0;
        let rest = trace.skip(1);
        step_is_monotonic(m, c, trace[0].0, trace[0].1, bound);
        trace_is_monotonic(next, c, rest, bound);
        if within(m, bound) && remote_within(trace, bound) {
            assert(trace[0].1 matches EventView::Finalized(Some(h)) ==> h <= bound);
            assert forall|i: int| 0 <= i < rest.len() implies ((#[trigger] rest[i]).1 matches EventView::Finalized(
                Some(h),
            ) ==> h <= bound) by {
                assert(rest[i] == trace[i + 1]);
            }
        }
    }
}

/// Whether the published height, where there is one, is at most the marker:
/// nothing is published that the store does not hold.
pub open spec fn certified(m: Model) -> bool {
    m.synced matches Some(s) ==> m.finalized matches Some(f) && s <= f
}

/// No course of events publishes a height above the marker.
pub proof fn published_trails_marker(m: Model, c: Settings, trace: Trace)
    requires
        m.wf(),
        certified(m),
    ensures
        certified(run_trace(m, c, trace)),
    decreases trace.len(),
{
    if trace.len() > 0 {
        let next = step(m, c, trace[0].0, trace[0].1).0;
        step_is_monotonic(m, c, trace[0].0, trace[0].1, 0);
        published_trails_marker(next, c, trace.skip(1));
    }
}

/// A reader who asks for heights up to the published height, or below, is
/// shown no message from above the published height.
pub proof fn no_premature_visibility(
    table: Map<Nonce, MessageView>,
    synced: Option<u64>,
    id: Nonce,
    at_most: u64,
)
    requires
        reached(synced, at_most),
    ensures
        visible(table, id, at_most) matches Some(m) ==> m.da_height <= synced->0,
{
}

/// The time at which the iteration of a phase began.
pub open spec fn started_at(phase: Phase) -> Option<u128> {
    match phase {
        Phase::AwaitingStatus { started, .. } => Some(started),
        Phase::Pausing { started, .. } => Some(started),
        Phase::AwaitingHeight { started } => Some(started),
        Phase::AwaitingLogs { started, .. } => Some(started),
        _ => None,
    }
}

/// An iteration that fails, or that finds the ledger consistent, is reported
/// only after a wait that ends no earlier than the minimum duration after
/// its start, unless the relayer is stopped. An iteration is reported
/// without a wait only where it was stopped or applied the last page of its
/// gap.
pub proof fn backoff_floor(m: Model, c: Settings, now: u128, event: EventView)
    requires
        m.wf(),
        started_at(m.phase) is Some,
    ensures
        ({
            let (after, action) = step(m, c, now, event);
            let started = started_at(m.phase)->0;
            &&& action matches Action::Sleep { delay } ==> {
                &&& after.phase is Sleeping
                &&& elapsed(started, now) + delay >= c.minimum_duration
                &&& after.phase->failure is None ==> m.phase is AwaitingHeight && reached(
                    after.synced,
                    event->Finalized_0->0,
                )
            }
            &&& action matches Action::Done(result) ==> {
                ||| event is Stop
                ||| result == Ok::<bool, crate::error::RelayerError>(true) && m.phase is AwaitingLogs
                    && event is Logs
            }
            &&& after.phase is Sleeping <==> action is Sleep
        }),
{
}

/// The wait after an iteration ends when it has run its time or the relayer
/// is stopped, and only then is the iteration reported, with its failure or
/// without.
pub proof fn wait_ends_on_wake_or_stop(m: Model, c: Settings, now: u128, event: EventView)
    requires
        m.phase is Sleeping,
    ensures
        step(m, c, now, event).1 is Done <==> event is Woke || event is Stop,
        step(m, c, now, event).1 is Done ==> step(m, c, now, event).1 == Action::Done(
            crate::run::outcome(m.phase->failure),
        ) && step(m, c, now, event).0.phase is Idle,
        !(step(m, c, now, event).1 is Done) ==> step(m, c, now, event) == (m, Action::Ignored),
{
}

/// Whether every event of a course brings a page whose events can all be
/// decoded.
pub open spec fn pages_arrive(trace: Trace) -> bool {
    forall|i: int|
        0 <= i < trace.len() ==> ((#[trigger] trace[i]).1 matches EventView::Logs(events)
            && decodable(events))
}

/// Whether a course of events is that of an iteration without fault: the
/// host begins, the remote node is not syncing and reports the height
/// `remote`, and then `pages` pages arrive.
pub open spec fn faultless(trace: Trace, remote: u64, pages: nat) -> bool {
    &&& trace.len() == 3 + pages
    &&& trace[0].1 is Begin
    &&& trace[1].1 == EventView::Status(SyncingStatus::NotSyncing)
    &&& trace[2].1 == EventView::Finalized(Some(remote))
    &&& pages_arrive(trace.skip(3))
}

/// The request for a page.
pub open spec fn request(page: (int, int)) -> Action {
    Action::GetLogs { oldest: page.0 as u64, latest: page.1 as u64 }
}

/// A course of events is run part by part.
pub proof fn run_trace_in_parts(m: Model, c: Settings, first: Trace, second: Trace)
    ensures
        run_trace(m, c, first + second) == run_trace(run_trace(m, c, first), c, second),
    decreases first.len(),
{
    if first.len() == 0 {
        assert(first + second =~= second);
    } else {
        let whole = first + second;
        assert(whole[0] == first[0]);
        assert(whole.skip(1) =~= first.skip(1) + second);
        run_trace_in_parts(step(m, c, first[0].0, first[0].1).0, c, first.skip(1), second);
    }
}

/// While the pages of a gap arrive one after the other, each is answered
/// with the request for the next, and the last with the report of the
/// iteration; the marker then stands at the end of the gap.
pub proof fn pages_drain(m: Model, c: Settings, trace: Trace)
    requires
        m.wf(),
        m.phase is AwaitingLogs,
        trace.len() == 1 + m.phase->page.rest().len(),
        pages_arrive(trace),
    ensures
        run_trace(m, c, trace).phase is Idle,
        run_trace(m, c, trace).finalized == raised(m.finalized, m.phase->page.end),
        run_trace(m, c, trace).synced == m.synced,
        actions_of(m, c, trace).len() == trace.len(),
        forall|i: int|
            0 <= i < trace.len() - 1 ==> #[trigger] actions_of(m, c, trace)[i] == request(
                m.phase->page.rest()[i],
            ),
        actions_of(m, c, trace).last() == Action::Done(Ok(true)),
    decreases trace.len(),
{
    let page = m.phase->page;
    let (next, action) = step(m, c, trace[0].0, trace[0].1);
    let rest = trace.skip(1);
    let actions = actions_of(m, c, trace);
    assert(trace[0].1 matches EventView::Logs(events) && decodable(events));
    assert(actions == seq![action] + actions_of(next, c, rest));
    if page.latest < page.end {
        let after = following(page);
        assert(page.rest() == seq![(after.oldest as int, after.latest as int)] + after.rest());
        assert forall|i: int| 0 <= i < rest.len() implies ((#[trigger] rest[i]).1 matches EventView::Logs(
            events,
        ) && decodable(events)) by {
            assert(rest[i] == trace[i + 1]);
        }
        pages_drain(next, c, rest);
        let later = actions_of(next, c, rest);
        assert(actions[0] == request(page.rest()[0]));
        assert forall|i: int| 0 <= i < trace.len() - 1 implies #[trigger] actions[i] == request(
            page.rest()[i],
        ) by {
            if i > 0 {
                assert(actions[i] == later[i - 1]);
                assert(page.rest()[i] == after.rest()[i - 1]);
            }
        }
        assert(actions.last() == later.last());
    } else {
        assert(rest.len() == 0);
        assert(actions_of(next, c, rest) =~= Seq::<Action>::empty());
        assert(actions =~= seq![action]);
    }
}

/// An iteration without fault on a ledger that is behind asks for the pages
/// of the gap, each once and in ascending order, and for nothing else of the
/// remote chain's events; it ends with the marker at the remote height and
/// is reported at once.
pub proof fn faultless_iteration_applies_gap(m: Model, c: Settings, trace: Trace, remote: u64)
    requires
        m.wf(),
        m.phase is Idle,
        m.finalized->0 < remote,
        faultless(
            trace,
            remote,
            pages_of(m.finalized->0 + 1, remote as int, page_len(c.page_size)).len(),
        ),
    ensures
        run_trace(m, c, trace).wf(),
        run_trace(m, c, trace).phase is Idle,
        run_trace(m, c, trace).finalized == Some(remote),
        run_trace(m, c, trace).synced == m.synced,
        actions_of(m, c, trace).len() == trace.len(),
        actions_of(m, c, trace)[0] == Action::GetStatus,
        actions_of(m, c, trace)[1] == Action::GetFinalized,
        forall|i: int|
            0 <= i < trace.len() - 3 ==> #[trigger] actions_of(m, c, trace)[2 + i] == request(
                pages_of(m.finalized->0 + 1, remote as int, page_len(c.page_size))[i],
            ),
        actions_of(m, c, trace).last() == Action::Done(Ok(true)),
{
    let pages = pages_of(m.finalized->0 + 1, remote as int, page_len(c.page_size));
    let (m1, a1) = step(m, c, trace[0].0, trace[0].1);
    let t1 = trace.skip(1);
    let (m2, a2) = step(m1, c, t1[0].0, t1[0].1);
    let t2 = t1.skip(1);
    let (m3, a3) = step(m2, c, t2[0].0, t2[0].1);
    let t3 = t2.skip(1);
    assert(t1[0] == trace[1]);
    assert(t2[0] == trace[2]);
    assert(t3 =~= trace.skip(3));
    assert(run_trace(m, c, trace) == run_trace(m1, c, t1));
    assert(run_trace(m1, c, t1) == run_trace(m2, c, t2));
    assert(run_trace(m2, c, t2) == run_trace(m3, c, t3));
    assert(m3.phase is AwaitingLogs);
    let first = m3.phase->page;
    assert(pages == seq![(first.oldest as int, first.latest as int)] + first.rest());
    assert(a3 == request(pages[0]));
    pages_drain(m3, c, t3);
    trace_is_monotonic(m, c, trace, remote);
    let actions = actions_of(m, c, trace);
    let d1 = actions_of(m1, c, t1);
    let d2 = actions_of(m2, c, t2);
    let d3 = actions_of(m3, c, t3);
    assert(actions == seq![a1] + d1);
    assert(d1 == seq![a2] + d2);
    assert(d2 == seq![a3] + d3);
    assert(actions.len() == trace.len());
    assert(actions[1] == d1[0]);
    assert(actions[2] == d2[0]);
    assert forall|i: int| 0 <= i < trace.len() - 3 implies #[trigger] actions[2 + i] == request(
        pages[i],
    ) by {
        assert(actions[2 + i] == d1[1 + i]);
        assert(d1[1 + i] == d2[i]);
        if i > 0 {
            assert(d2[i] == d3[i - 1]);
            assert(pages[i] == first.rest()[i - 1]);
        }
    }
    assert(actions.last() == d3.last());
}

/// An iteration without fault on a ledger that has reached the remote
/// height publishes that height, asks for no events, and waits.
pub proof fn faultless_iteration_publishes(m: Model, c: Settings, trace: Trace, remote: u64)
    requires
        m.wf(),
        m.phase is Idle,
        m.finalized->0 >= remote,
        faultless(trace, remote, 0),
    ensures
        reached(run_trace(m, c, trace).synced, remote),
        run_trace(m, c, trace).finalized == m.finalized,
        run_trace(m, c, trace).messages == m.messages,
        run_trace(m, c, trace).phase == (Phase::Sleeping { failure: None }),
{
    let (m1, a1) = step(m, c, trace[0].0, trace[0].1);
    let t1 = trace.skip(1);
    let (m2, a2) = step(m1, c, t1[0].0, t1[0].1);
    let t2 = t1.skip(1);
    let (m3, a3) = step(m2, c, t2[0].0, t2[0].1);
    let t3 = t2.skip(1);
    assert(t1[0] == trace[1]);
    assert(t2[0] == trace[2]);
    assert(t3.len() == 0);
    assert(run_trace(m, c, trace) == run_trace(m1, c, t1));
    assert(run_trace(m1, c, t1) == run_trace(m2, c, t2));
    assert(run_trace(m2, c, t2) == run_trace(m3, c, t3));
    assert(run_trace(m3, c, t3) == m3);
}

/// Where the remote height stays at `remote` and nothing fails, the
/// published height reaches `remote` within two iterations: the first
/// applies the gap, the second finds the ledger consistent and publishes.
pub proof fn stable_remote_is_reached(
    m: Model,
    c: Settings,
    first: Trace,
    second: Trace,
    remote: u64,
)
    requires
        m.wf(),
        m.phase is Idle,
        m.finalized->0 < remote,
        faultless(
            first,
            remote,
            pages_of(m.finalized->0 + 1, remote as int, page_len(c.page_size)).len(),
        ),
        faultless(second, remote, 0),
    ensures
        reached(run_trace(m, c, first + second).synced, remote),
        run_trace(m, c, first + second).finalized == Some(remote),
{
    faultless_iteration_applies_gap(m, c, first, remote);
    faultless_iteration_publishes(run_trace(m, c, first), c, second, remote);
    run_trace_in_parts(m, c, first, second);
}

} // verus!
