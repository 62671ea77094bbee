//! What the relayer asks of the storage that it writes to.

use crate::message::{Message, MessageView, Nonce};
use vstd::prelude::*;

verus! {

/// The finalized-height marker after it was raised to at least `height`.
pub open spec fn raised(marker: Option<u64>, height: u64) -> Option<u64> {
    match marker {
        Some(m) if m >= height => Some(m),
        _ => Some(height),
    }
}

/// The message table after `message` was put into it: a message whose
/// identifier the table already holds leaves the table as it is.
pub open spec fn put(table: Map<Nonce, MessageView>, message: MessageView) -> Map<
    Nonce,
    MessageView,
> {
    if table.contains_key(message.nonce) {
        table
    } else {
        table.insert(message.nonce, message)
    }
}

/// The storage behind the relayer: a table of messages by identifier, and the
/// marker of the last remote height that the ledger has incorporated.
pub trait RelayerDb {
    /// The message table.
    spec fn messages(&self) -> Map<Nonce, MessageView>;

    /// The finalized-height marker, once it was set.
    spec fn finalized(&self) -> Option<u64>;

    /// Reads the finalized-height marker.
    fn get_finalized_da_height(&self) -> (height: u64)
        requires
            self.finalized() is Some,
        ensures
            self.finalized() == Some(height),
    ;

    /// Raises the finalized-height marker to at least `height`.
    fn set_finalized_da_height_to_at_least(&mut self, height: u64)
        ensures
            final(self).finalized() == raised(old(self).finalized(), height),
            final(self).messages() == old(self).messages(),
    ;

    /// Reads the message stored under `id`.
    fn get_message(&self, id: &Nonce) -> (found: Option<Message>)
        ensures
            found is Some <==> self.messages().contains_key(*id),
            found matches Some(m) ==> m@ == self.messages()[*id],
    ;

    /// Stores a message under its identifier, unless one is stored there.
    fn insert_message(&mut self, message: &Message)
        ensures
            final(self).messages() == put(old(self).messages(), message@),
            final(self).finalized() == old(self).finalized(),
    ;
}

} // verus!
