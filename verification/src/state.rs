use vstd::prelude::*;

verus! {

/// The one persisted record: the most recent qualifying transfer, or its
/// zero-initialized value if none has occurred yet. It is overwritten
/// unconditionally each time a qualifying transfer occurs; no history is kept.
#[derive(Clone, Copy, Debug, PartialEq, Eq)]
pub struct WhaleAccount {
    /// The address that initiated the most recent qualifying transfer.
    pub whale_address: [u8; 32],
    /// The amount of that transfer, in the mint's base units.
    pub transfer_amount: u64,
}

/// The notification raised for each qualifying transfer.
#[derive(Clone, Copy, Debug, PartialEq, Eq)]
pub struct WhaleTransferEvent {
    /// The address that initiated the transfer.
    pub whale_address: [u8; 32],
    /// The transferred amount, in the mint's base units.
    pub transfer_amount: u64,
}

impl WhaleAccount {
    /// The initialized zero value the record holds before any qualifying
    /// transfer.
    pub fn zeroed() -> (r: WhaleAccount)
        ensures
            r.whale_address@ == Seq::new(32, |i: int| 0u8),
            r.transfer_amount == 0,
    {
        WhaleAccount { whale_address: [0u8; 32], transfer_amount: 0 }
    }
}

} // verus!
