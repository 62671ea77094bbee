//! The published height up to which the ledger is known to be consistent.

use crate::state::ConsistencyState;
use vstd::prelude::*;

verus! {

/// The published height after a consistency state was merged into it. A
/// state that is behind changes nothing; a consistent one sets the height
/// unless a greater one is already published.
pub open spec fn merged(published: Option<u64>, state: ConsistencyState) -> Option<u64> {
    match state {
        ConsistencyState::Behind => published,
        ConsistencyState::ConsistentAsOf(h) => match published {
            Some(p) if p > h => published,
            _ => Some(h),
        },
    }
}

/// Whether a published height has reached `height`.
pub open spec fn reached(published: Option<u64>, height: u64) -> bool {
    published matches Some(p) && p >= height
}

/// Merges a consistency state into the published height, and says whether
/// the published height changed.
pub fn update_synced(synced: &mut Option<u64>, state: &ConsistencyState) -> (changed: bool)
    ensures
        *final(synced) == merged(*old(synced), *state),
        changed == (*final(synced) != *old(synced)),
{
    match state {
        ConsistencyState::Behind => false,
        ConsistencyState::ConsistentAsOf(h) => {
            match *synced {
                Some(p) => {
                    if p >= *h {
                        false
                    } else {
                        *synced = Some(*h);
                        true
                    }
                },
                None => {
                    *synced = Some(*h);
                    true
                },
            }
        },
    }
}

/// Whether the published height has reached `height`.
pub fn is_at_least_synced(synced: Option<u64>, height: u64) -> (b: bool)
    ensures
        b == reached(synced, height),
{
    match synced {
        Some(p) => p >= height,
        None => false,
    }
}

/// A published height is never lowered or cleared by a merge, and a merge
/// sets no height but that of the state.
pub proof fn merge_is_monotonic(published: Option<u64>, state: ConsistencyState)
    ensures
        published is Some ==> merged(published, state) is Some,
        published matches Some(p) ==> merged(published, state)->0 >= p,
        merged(published, state) == published || state == ConsistencyState::ConsistentAsOf(
            merged(published, state)->0,
        ),
        state matches ConsistencyState::ConsistentAsOf(h) ==> reached(merged(published, state), h),
{
}

} // verus!
