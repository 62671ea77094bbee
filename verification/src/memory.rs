//! A store that keeps everything in memory.

use crate::message::{Message, MessageView, Nonce};
use crate::ports::{put, RelayerDb};
use vstd::prelude::*;

verus! {

/// A store in memory: the messages in the order in which they came, and the
/// finalized-height marker.
#[derive(Clone, Debug)]
pub struct MemoryDb {
    pub entries: Vec<Message>,
    pub marker: Option<u64>,
}

/// The table that results from putting the messages of `entries` into an
/// empty table, one after the other.
pub open spec fn table_of(entries: Seq<Message>) -> Map<Nonce, MessageView>
    decreases entries.len(),
{
    if entries.len() == 0 {
        Map::empty()
    } else {
        put(table_of(entries.drop_last()), entries.last()@)
    }
}

/// The table holds under an identifier the first entry that carries it.
proof fn table_holds_first(entries: Seq<Message>, id: Nonce, i: int)
    requires
        0 <= i < entries.len(),
        entries[i].nonce == id,
        forall|j: int| 0 <= j < i ==> entries[j].nonce != id,
    ensures
        table_of(entries).contains_key(id),
        table_of(entries)[id] == entries[i]@,
    decreases entries.len(),
{
    let front = entries.drop_last();
    if i == entries.len() - 1 {
        table_lacks(front, id);
    } else {
        table_holds_first(front, id, i);
    }
}

/// The table holds nothing under an identifier that no entry carries.
proof fn table_lacks(entries: Seq<Message>, id: Nonce)
    requires
        forall|j: int| 0 <= j < entries.len() ==> entries[j].nonce != id,
    ensures
        !table_of(entries).contains_key(id),
    decreases entries.len(),
{
    if entries.len() > 0 {
        table_lacks(entries.drop_last(), id);
    }
}

impl MemoryDb {
    /// A store without messages and without a marker.
    pub fn new() -> (db: Self)
        ensures
            db.messages() == Map::<Nonce, MessageView>::empty(),
            db.finalized() is None,
    {
        MemoryDb { entries: Vec::new(), marker: None }
    }

    /// The position of the first entry stored under `id`.
    fn position(&self, id: &Nonce) -> (at: Option<usize>)
        ensures
            at matches Some(i) ==> i < self.entries.len() && self.entries[i as int].nonce == *id
                && forall|j: int| 0 <= j < i ==> self.entries[j].nonce != *id,
            at is None ==> forall|j: int|
                0 <= j < self.entries.len() ==> self.entries[j].nonce != *id,
    {
        let mut i: usize = 0;
        while i < self.entries.len()
            invariant
                i <= self.entries.len(),
                forall|j: int| 0 <= j < i ==> self.entries[j].nonce != *id,
            decreases self.entries.len() - i,
        {
            if self.entries[i].nonce == *id {
                return Some(i);
            }
            i = i + 1;
        }
        None
    }

    /// How many messages the store holds.
    pub fn len(&self) -> (n: usize)
        ensures
            n == self.entries.len(),
    {
        self.entries.len()
    }
}

impl RelayerDb for MemoryDb {
    open spec fn messages(&self) -> Map<Nonce, MessageView> {
        table_of(self.entries@)
    }

    open spec fn finalized(&self) -> Option<u64> {
        self.marker
    }

    fn get_finalized_da_height(&self) -> (height: u64) {
        match self.marker {
            Some(h) => h,
            None => 0,
        }
    }

    fn set_finalized_da_height_to_at_least(&mut self, height: u64) {
        let next: u64 = match self.marker {
            Some(m) => if m >= height {
                m
            } else {
                height
            },
            None => height,
        };
        self.marker = Some(next);
    }

    fn get_message(&self, id: &Nonce) -> (found: Option<Message>) {
        match self.position(id) {
            Some(i) => {
                proof {
                    table_holds_first(self.entries@, *id, i as int);
                }
                Some(self.entries[i].duplicate())
            },
            None => {
                proof {
                    table_lacks(self.entries@, *id);
                }
                None
            },
        }
    }

    fn insert_message(&mut self, message: &Message) {
        let id = message.nonce;
        match self.position(&id) {
            Some(i) => {
                proof {
                    table_holds_first(self.entries@, id, i as int);
                }
            },
            None => {
                proof {
                    table_lacks(self.entries@, id);
                }
                let ghost before = self.entries@;
                self.entries.push(message.duplicate());
                proof {
                    assert(self.entries@.drop_last() =~= before);
                    assert(self.entries@.last()@ == message@);
                }
            },
        }
    }
}

} // verus!
