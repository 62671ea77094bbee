//! Decoding a page of events and writing its messages to the store.

use crate::error::RelayerError;
use crate::message::{EthEventLog, EthEventLogView, MessageView, Nonce, event_views};
use crate::ports::{put, RelayerDb};
use vstd::prelude::*;

verus! {

/// Whether every event of a page could be decoded.
pub open spec fn decodable(events: Seq<EthEventLogView>) -> bool {
    forall|i: int| 0 <= i < events.len() ==> !(#[trigger] events[i] is Undecodable)
}

/// The messages among the events of a page, in the order of the events.
pub open spec fn messages_of(events: Seq<EthEventLogView>) -> Seq<MessageView>
    decreases events.len(),
{
    if events.len() == 0 {
        Seq::empty()
    } else {
        match events.last() {
            EthEventLogView::Message(m) => messages_of(events.drop_last()).push(m),
            _ => messages_of(events.drop_last()),
        }
    }
}

/// The table after the messages were put into it, one after the other.
pub open spec fn put_all(table: Map<Nonce, MessageView>, messages: Seq<MessageView>) -> Map<
    Nonce,
    MessageView,
>
    decreases messages.len(),
{
    if messages.len() == 0 {
        table
    } else {
        put(put_all(table, messages.drop_last()), messages.last())
    }
}

/// The table after a page of events was applied to it: with one event that
/// cannot be decoded the page leaves the table as it is.
pub open spec fn applied(table: Map<Nonce, MessageView>, events: Seq<EthEventLogView>) -> Map<
    Nonce,
    MessageView,
> {
    if decodable(events) {
        put_all(table, messages_of(events))
    } else {
        table
    }
}

/// Whether every event of a page could be decoded.
pub fn all_decodable(events: &Vec<EthEventLog>) -> (ok: bool)
    ensures
        ok == decodable(event_views(events@)),
{
    let ghost views = event_views(events@);
    let mut i: usize = 0;
    while i < events.len()
        invariant
            i <= events.len(),
            views == event_views(events@),
            forall|j: int| 0 <= j < i ==> !(#[trigger] views[j] is Undecodable),
        decreases events.len() - i,
    {
        match &events[i] {
            EthEventLog::Undecodable => {
                assert(views[i as int] is Undecodable);
                return false;
            },
            _ => {},
        }
        assert(views[i as int] == events@[i as int]@);
        i = i + 1;
    }
    true
}

/// Applies one page of events to the store. Either every event can be decoded
/// and each message among them is stored, in order, or one cannot, and the
/// store stays as it is. The finalized-height marker is not touched.
pub fn write_page<D: RelayerDb>(db: &mut D, events: &Vec<EthEventLog>) -> (r: Result<
    (),
    RelayerError,
>)
    ensures
        final(db).finalized() == old(db).finalized(),
        final(db).messages() == applied(old(db).messages(), event_views(events@)),
        decodable(event_views(events@)) ==> r is Ok,
        !decodable(event_views(events@)) ==> r == Err::<(), RelayerError>(RelayerError::Decode),
{
    if !all_decodable(events) {
        return Err(RelayerError::Decode);
    }
    let ghost views = event_views(events@);
    let mut i: usize = 0;
    while i < events.len()
        invariant
            i <= events.len(),
            views == event_views(events@),
            db.finalized() == old(db).finalized(),
            db.messages() == put_all(old(db).messages(), messages_of(views.subrange(0, i as int))),
        decreases events.len() - i,
    {
        let ghost done = views.subrange(0, i as int);
        let ghost next = views.subrange(0, i + 1);
        proof {
            assert(next.drop_last() =~= done);
            assert(next.last() == views[i as int]);
            assert(views[i as int] == events@[i as int]@);
        }
        match &events[i] {
            EthEventLog::Message(m) => {
                db.insert_message(m);
                proof {
                    let stored = messages_of(done);
                    assert(messages_of(next) == stored.push(m@));
                    assert(stored.push(m@).drop_last() =~= stored);
                    assert(stored.push(m@).last() == m@);
                }
            },
            _ => {
                assert(messages_of(next) == messages_of(done));
            },
        }
        i = i + 1;
    }
    proof {
        assert(views.subrange(0, i as int) =~= views);
    }
    Ok(())
}

/// Putting messages into a table keeps what the table held.
pub proof fn put_all_keeps(table: Map<Nonce, MessageView>, messages: Seq<MessageView>, id: Nonce)
    requires
        table.contains_key(id),
    ensures
        put_all(table, messages).contains_key(id),
        put_all(table, messages)[id] == table[id],
    decreases messages.len(),
{
    if messages.len() > 0 {
        put_all_keeps(table, messages.drop_last(), id);
    }
}

/// After messages were put into a table, the table holds an entry under the
/// identifier of each.
pub proof fn put_all_holds(table: Map<Nonce, MessageView>, messages: Seq<MessageView>, i: int)
    requires
        0 <= i < messages.len(),
    ensures
        put_all(table, messages).contains_key(messages[i].nonce),
    decreases messages.len(),
{
    if i < messages.len() - 1 {
        put_all_holds(table, messages.drop_last(), i);
    }
}

/// Putting into a table messages whose identifiers it all holds changes
/// nothing.
pub proof fn put_all_known(table: Map<Nonce, MessageView>, messages: Seq<MessageView>)
    requires
        forall|i: int| 0 <= i < messages.len() ==> table.contains_key(#[trigger] messages[i].nonce),
    ensures
        put_all(table, messages) == table,
    decreases messages.len(),
{
    if messages.len() > 0 {
        let front = messages.drop_last();
        assert forall|i: int| 0 <= i < front.len() implies table.contains_key(
            #[trigger] front[i].nonce,
        ) by {
            assert(front[i] == messages[i]);
        }
        put_all_known(table, front);
        assert(table.contains_key(messages[messages.len() - 1].nonce));
    }
}

/// Applying the same page twice leaves the table as applying it once does.
pub proof fn applying_twice_is_applying_once(
    table: Map<Nonce, MessageView>,
    events: Seq<EthEventLogView>,
)
    ensures
        applied(applied(table, events), events) == applied(table, events),
{
    if decodable(events) {
        let messages = messages_of(events);
        let once = put_all(table, messages);
        assert forall|i: int| 0 <= i < messages.len() implies once.contains_key(
            #[trigger] messages[i].nonce,
        ) by {
            put_all_holds(table, messages, i);
        }
        put_all_known(once, messages);
    }
}

} // verus!
