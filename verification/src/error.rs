//! Why an iteration of the relayer, or its construction, did not succeed.

use vstd::prelude::*;

verus! {

/// Why an iteration ended without success.
#[derive(Clone, Copy, Debug, PartialEq, Eq, Structural)]
pub enum RelayerError {
    /// A stop signal arrived while the relayer was waiting.
    Stopped,
    /// A call to the remote node failed.
    Remote,
    /// The remote node has no finalized block yet.
    BlockPending,
    /// An event of a retrieved page could not be decoded.
    Decode,
    /// The configuration names no remote node.
    MissingEthClient,
}

impl RelayerError {
    /// The text that describes the error.
    pub open spec fn text(self) -> Seq<char> {
        match self {
            RelayerError::Stopped => "The relayer got a stop signal"@,
            RelayerError::Remote => "The remote node failed to answer"@,
            RelayerError::BlockPending => "Block pending"@,
            RelayerError::Decode => "An event could not be decoded"@,
            RelayerError::MissingEthClient =>
                "Tried to start Relayer without setting an eth_client in the config"@,
        }
    }

    /// The text that describes the error.
    pub fn describe(&self) -> (s: &'static str)
        ensures
            s@ == self.text(),
    {
        match self {
            RelayerError::Stopped => "The relayer got a stop signal",
            RelayerError::Remote => "The remote node failed to answer",
            RelayerError::BlockPending => "Block pending",
            RelayerError::Decode => "An event could not be decoded",
            RelayerError::MissingEthClient =>
                "Tried to start Relayer without setting an eth_client in the config",
        }
    }
}

} // verus!
