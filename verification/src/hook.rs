use vstd::prelude::*;

use crate::state::{WhaleAccount, WhaleTransferEvent};

verus! {

/// Ten to the `n`th power.
pub open spec fn pow10(n: nat) -> int
    decreases n,
{
    if n == 0 {
        1
    } else {
        10 * pow10((n - 1) as nat)
    }
}

/// The qualifying threshold for a mint of the given decimal precision: one
/// thousand whole tokens, scaled into base units.
pub open spec fn whale_threshold(decimals: u8) -> int {
    1000 * pow10(decimals as nat)
}

/// The record after a transfer is reported: overwritten with the initiating
/// address and amount if the amount qualifies, unchanged otherwise.
pub open spec fn record_after_transfer(
    record: WhaleAccount,
    owner: [u8; 32],
    amount: u64,
    decimals: u8,
) -> WhaleAccount {
    if amount as int >= whale_threshold(decimals) {
        WhaleAccount { whale_address: owner, transfer_amount: amount }
    } else {
        record
    }
}

/// The notification a reported transfer raises: exactly one if the amount
/// qualifies, none otherwise.
pub open spec fn event_for_transfer(
    owner: [u8; 32],
    amount: u64,
    decimals: u8,
) -> Option<WhaleTransferEvent> {
    if amount as int >= whale_threshold(decimals) {
        Some(WhaleTransferEvent { whale_address: owner, transfer_amount: amount })
    } else {
        None
    }
}

proof fn lemma_pow10_positive(n: nat)
    ensures
        pow10(n) >= 1,
    decreases n,
{
    if n > 0 {
        lemma_pow10_positive((n - 1) as nat);
    }
}

proof fn lemma_pow10_monotone(a: nat, b: nat)
    requires
        a <= b,
    ensures
        pow10(a) <= pow10(b),
    decreases b,
{
    lemma_pow10_positive(a);
    if a < b {
        lemma_pow10_monotone(a, (b - 1) as nat);
        lemma_pow10_positive((b - 1) as nat);
    }
}

/// Whether the amount meets or exceeds the threshold for this precision.
fn is_whale_amount(amount: u64, decimals: u8) -> (r: bool)
    ensures
        r == (amount as int >= whale_threshold(decimals)),
{
    if decimals > 16 {
        proof {
            lemma_pow10_monotone(17, decimals as nat);
            assert(pow10(17) == 100_000_000_000_000_000) by {
                reveal_with_fuel(pow10, 18);
            }
        }
        false
    } else {
        let mut factor: u64 = 1;
        let mut i: u8 = 0;
        proof {
            assert(pow10(16) == 10_000_000_000_000_000) by {
                reveal_with_fuel(pow10, 17);
            }
        }
        while i < decimals
            invariant
                i <= decimals,
                decimals <= 16,
                factor == pow10(i as nat),
                pow10(16) == 10_000_000_000_000_000,
            decreases decimals - i,
        {
            proof {
                lemma_pow10_monotone((i + 1) as nat, 16);
            }
            factor = factor * 10;
            i = i + 1;
        }
        proof {
            lemma_pow10_monotone(decimals as nat, 16);
        }
        let threshold: u64 = 1000 * factor;
        amount >= threshold
    }
}

/// Runs the hook's one operation for a reported transfer: compare the amount
/// against the decimal-scaled threshold; at or above it, overwrite the record
/// with the initiating address and amount and raise exactly one notification;
/// below it, change nothing and raise none.
pub fn transfer_hook(
    record: &mut WhaleAccount,
    owner: [u8; 32],
    amount: u64,
    decimals: u8,
) -> (event: Option<WhaleTransferEvent>)
    ensures
        *final(record) == record_after_transfer(*old(record), owner, amount, decimals),
        event == event_for_transfer(owner, amount, decimals),
{
    if is_whale_amount(amount, decimals) {
        record.whale_address = owner;
        record.transfer_amount = amount;
        Some(WhaleTransferEvent { whale_address: owner, transfer_amount: amount })
    } else {
        None
    }
}

/// Below the decimal-scaled threshold, the persisted record and the event
/// stream are unchanged.
pub proof fn lemma_small_transfer_changes_nothing(
    record: WhaleAccount,
    owner: [u8; 32],
    amount: u64,
    decimals: u8,
)
    requires
        (amount as int) < whale_threshold(decimals),
    ensures
        record_after_transfer(record, owner, amount, decimals) == record,
        event_for_transfer(owner, amount, decimals) is None,
{
}

/// At or above the decimal-scaled threshold, the persisted record's address
/// and amount exactly equal the transfer's initiating address and amount, and
/// exactly one notification is produced, carrying the same two values.
pub proof fn lemma_large_transfer_is_recorded(
    record: WhaleAccount,
    owner: [u8; 32],
    amount: u64,
    decimals: u8,
)
    requires
        amount as int >= whale_threshold(decimals),
    ensures
        record_after_transfer(record, owner, amount, decimals).whale_address == owner,
        record_after_transfer(record, owner, amount, decimals).transfer_amount == amount,
        event_for_transfer(owner, amount, decimals) matches Some(e) && e.whale_address == owner
            && e.transfer_amount == amount,
{
}

} // verus!
