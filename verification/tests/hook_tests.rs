use transfer_hook::hook::transfer_hook;
use transfer_hook::state::{WhaleAccount, WhaleTransferEvent};

#[test]
fn below_threshold_changes_nothing() {
    // decimals 9: threshold is 1000 * 10^9 base units
    let mut record = WhaleAccount { whale_address: [7u8; 32], transfer_amount: 5 };
    let before = record;
    let event = transfer_hook(&mut record, [9u8; 32], 999_999_999_999, 9);
    assert_eq!(event, None);
    assert_eq!(record, before);
}

#[test]
fn at_threshold_records_whale() {
    let mut record = WhaleAccount { whale_address: [7u8; 32], transfer_amount: 5 };
    let owner = [9u8; 32];
    let event = transfer_hook(&mut record, owner, 1_000_000_000_000, 9);
    assert_eq!(record.whale_address, owner);
    assert_eq!(record.transfer_amount, 1_000_000_000_000);
    assert_eq!(
        event,
        Some(WhaleTransferEvent { whale_address: owner, transfer_amount: 1_000_000_000_000 })
    );
}

#[test]
fn above_threshold_records_whale() {
    let mut record = WhaleAccount::zeroed();
    let owner = [3u8; 32];
    let event = transfer_hook(&mut record, owner, u64::MAX, 0);
    assert_eq!(record.whale_address, owner);
    assert_eq!(record.transfer_amount, u64::MAX);
    assert_eq!(
        event,
        Some(WhaleTransferEvent { whale_address: owner, transfer_amount: u64::MAX })
    );
}

#[test]
fn zero_decimals_threshold_is_one_thousand() {
    let mut record = WhaleAccount::zeroed();
    assert_eq!(transfer_hook(&mut record, [1u8; 32], 999, 0), None);
    assert_eq!(record, WhaleAccount::zeroed());
    let event = transfer_hook(&mut record, [1u8; 32], 1000, 0);
    assert!(event.is_some());
    assert_eq!(record.transfer_amount, 1000);
}

#[test]
fn huge_decimals_never_qualify() {
    // with 17 or more decimals the threshold exceeds any u64 amount
    let mut record = WhaleAccount::zeroed();
    let event = transfer_hook(&mut record, [2u8; 32], u64::MAX, 17);
    assert_eq!(event, None);
    assert_eq!(record, WhaleAccount::zeroed());
    let event = transfer_hook(&mut record, [2u8; 32], u64::MAX, u8::MAX);
    assert_eq!(event, None);
    assert_eq!(record, WhaleAccount::zeroed());
}

#[test]
fn sixteen_decimals_threshold_boundary() {
    // the largest precision whose threshold still fits in u64: 10^19
    let mut record = WhaleAccount::zeroed();
    assert_eq!(transfer_hook(&mut record, [4u8; 32], 9_999_999_999_999_999_999, 16), None);
    assert_eq!(record, WhaleAccount::zeroed());
    let event = transfer_hook(&mut record, [4u8; 32], 10_000_000_000_000_000_000, 16);
    assert!(event.is_some());
    assert_eq!(record.transfer_amount, 10_000_000_000_000_000_000);
}

#[test]
fn zeroed_record_is_zero() {
    let record = WhaleAccount::zeroed();
    assert_eq!(record.whale_address, [0u8; 32]);
    assert_eq!(record.transfer_amount, 0);
}

#[test]
fn record_is_overwritten_each_time() {
    let mut record = WhaleAccount::zeroed();
    transfer_hook(&mut record, [1u8; 32], 2000, 0);
    transfer_hook(&mut record, [2u8; 32], 5000, 0);
    assert_eq!(record.whale_address, [2u8; 32]);
    assert_eq!(record.transfer_amount, 5000);
}
