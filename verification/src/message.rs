//! The records that the relayer stores, and the events they are decoded from.

use vstd::prelude::*;

verus! {

/// A value of 32 bytes, held as its upper and its lower half in big-endian
/// order.
#[derive(Clone, Copy, Debug, PartialEq, Eq, Structural)]
pub struct Bytes32 {
    pub hi: u128,
    pub lo: u128,
}

/// The unique identifier of a message.
pub type Nonce = Bytes32;

/// An account on either chain.
pub type Address = Bytes32;

/// The address of a contract on the remote chain: 20 bytes, the upper four
/// and the lower sixteen in big-endian order.
#[derive(Clone, Copy, Debug, PartialEq, Eq, Structural)]
pub struct ContractAddress {
    pub hi: u32,
    pub lo: u128,
}

/// A message sent from the remote chain to the ledger.
#[derive(Clone, Debug, PartialEq, Eq)]
pub struct Message {
    pub sender: Address,
    pub recipient: Address,
    pub nonce: Nonce,
    pub amount: u64,
    pub data: Vec<u8>,
    /// The remote height that produced the message.
    pub da_height: u64,
}

/// A message as a mathematical value.
pub struct MessageView {
    pub sender: Address,
    pub recipient: Address,
    pub nonce: Nonce,
    pub amount: u64,
    pub data: Seq<u8>,
    pub da_height: u64,
}

impl View for Message {
    type V = MessageView;

    open spec fn view(&self) -> MessageView {
        MessageView {
            sender: self.sender,
            recipient: self.recipient,
            nonce: self.nonce,
            amount: self.amount,
            data: self.data@,
            da_height: self.da_height,
        }
    }
}

/// What one raw event of the remote chain turned out to be.
#[derive(Clone, Debug, PartialEq, Eq)]
pub enum EthEventLog {
    /// A message for the ledger.
    Message(Message),
    /// An event that is legal but yields no record.
    Ignored,
    /// An event that could not be decoded.
    Undecodable,
}

/// An event as a mathematical value.
pub enum EthEventLogView {
    Message(MessageView),
    Ignored,
    Undecodable,
}

impl View for EthEventLog {
    type V = EthEventLogView;

    open spec fn view(&self) -> EthEventLogView {
        match self {
            EthEventLog::Message(m) => EthEventLogView::Message(m@),
            EthEventLog::Ignored => EthEventLogView::Ignored,
            EthEventLog::Undecodable => EthEventLogView::Undecodable,
        }
    }
}

/// The views of a sequence of events, in order.
pub open spec fn event_views(events: Seq<EthEventLog>) -> Seq<EthEventLogView> {
    events.map_values(|e: EthEventLog| e@)
}

impl Bytes32 {
    pub fn new(hi: u128, lo: u128) -> (b: Self)
        ensures
            b.hi == hi,
            b.lo == lo,
    {
        Bytes32 { hi, lo }
    }
}

impl ContractAddress {
    pub fn new(hi: u32, lo: u128) -> (c: Self)
        ensures
            c.hi == hi,
            c.lo == lo,
    {
        ContractAddress { hi, lo }
    }
}

impl Message {
    /// The identifier under which the message is stored.
    pub fn id(&self) -> (n: Nonce)
        ensures
            n == self.nonce,
    {
        self.nonce
    }

    /// A copy of the message.
    pub fn duplicate(&self) -> (m: Message)
        ensures
            m@ == self@,
    {
        let mut data: Vec<u8> = Vec::new();
        let mut i: usize = 0;
        while i < self.data.len()
            invariant
                i <= self.data.len(),
                data@ == self.data@.subrange(0, i as int),
            decreases self.data.len() - i,
        {
            data.push(self.data[i]);
            i = i + 1;
            assert(data@ =~= self.data@.subrange(0, i as int));
        }
        assert(data@ =~= self.data@);
        Message {
            sender: self.sender,
            recipient: self.recipient,
            nonce: self.nonce,
            amount: self.amount,
            data,
            da_height: self.da_height,
        }
    }
}

} // verus!
