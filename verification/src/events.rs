//! The event emitter's record types: a structured, append-only log of
//! state-changing actions. Pure side channel; nothing in the ledger reads
//! it back.

use vstd::prelude::*;

verus! {

/// One logged state-changing action.
#[derive(Clone, Copy, Debug, PartialEq, Eq, Structural)]
pub enum Event {
    /// Tokens were created and credited to the owner (including the initial
    /// supply at construction).
    Mint { owner: u64, amount: u128 },
    /// A refund could not return to a vanished sender and was destroyed.
    Burn { account: u64, amount: u128 },
    /// An account gave up its ledger entry.
    AccountClosed { account: u64, balance: u128 },
    MintToggled { enabled: bool },
    FreezeToggled { enabled: bool },
    MetadataUpdateToggled { enabled: bool },
    AccountFrozen { account: u64 },
    AccountUnfrozen { account: u64 },
}

/// A displayable log record: an event name and its details, ready for the
/// process log. The wire format the surrounding process writes it in is out
/// of scope here.
pub struct LogData {
    pub event: String,
    pub details: String,
}

impl LogData {
    pub fn new(event: String, details: String) -> (d: LogData)
        ensures
            d.event == event,
            d.details == details,
    {
        LogData { event, details }
    }
}

} // verus!
