use airdrop::ledger::{ClaimLedger, ClaimStatus, CreateOutcome};

fn record(nft: [u8; 20], id: u16) -> ClaimStatus {
    ClaimStatus { is_claimed: true, nft_eth_address: nft, nft_id: id }
}

#[test]
fn new_ledger_has_no_slot() {
    let ledger = ClaimLedger::new();
    assert_eq!(ledger.len(), 0);
    assert_eq!(ledger.get(&[0x11; 20], 7), None);
}

#[test]
fn first_attempt_creates_and_second_finds() {
    let mut ledger = ClaimLedger::new();
    let nft = [0x11; 20];
    assert_eq!(ledger.create_if_absent(&nft, 7, record(nft, 7)), CreateOutcome::Created);
    assert_eq!(ledger.get(&nft, 7), Some(record(nft, 7)));
    assert_eq!(ledger.create_if_absent(&nft, 7, record(nft, 7)), CreateOutcome::AlreadyExists);
    assert_eq!(ledger.len(), 1);
}

#[test]
fn existing_slot_is_not_overwritten() {
    let mut ledger = ClaimLedger::new();
    let nft = [0x11; 20];
    let first = record(nft, 7);
    let other = ClaimStatus { is_claimed: false, nft_eth_address: [0x22; 20], nft_id: 9 };
    assert_eq!(ledger.create_if_absent(&nft, 7, first), CreateOutcome::Created);
    assert_eq!(ledger.create_if_absent(&nft, 7, other), CreateOutcome::AlreadyExists);
    assert_eq!(ledger.get(&nft, 7), Some(first));
}

#[test]
fn different_pairs_have_different_slots() {
    let mut ledger = ClaimLedger::new();
    let a = [0x11; 20];
    let mut b = [0x11; 20];
    b[19] = 0x12;
    assert_eq!(ledger.create_if_absent(&a, 7, record(a, 7)), CreateOutcome::Created);
    assert_eq!(ledger.create_if_absent(&a, 8, record(a, 8)), CreateOutcome::Created);
    assert_eq!(ledger.create_if_absent(&b, 7, record(b, 7)), CreateOutcome::Created);
    assert_eq!(ledger.len(), 3);
    assert_eq!(ledger.get(&a, 7), Some(record(a, 7)));
    assert_eq!(ledger.get(&a, 8), Some(record(a, 8)));
    assert_eq!(ledger.get(&b, 7), Some(record(b, 7)));
    assert_eq!(ledger.get(&b, 8), None);
}

#[test]
fn of_many_attempts_on_one_pair_one_creates() {
    let mut ledger = ClaimLedger::new();
    let nft = [0x11; 20];
    let mut created = 0;
    let mut found = 0;
    for attempt in 0..50u16 {
        if attempt % 5 == 0 {
            ledger.create_if_absent(&[0x33; 20], attempt, record([0x33; 20], attempt));
        }
        match ledger.create_if_absent(&nft, 7, record(nft, 7)) {
            CreateOutcome::Created => created += 1,
            CreateOutcome::AlreadyExists => found += 1,
        }
    }
    assert_eq!(created, 1);
    assert_eq!(found, 49);
    assert_eq!(ledger.len(), 11);
}

#[test]
fn default_record_is_unclaimed() {
    let record = ClaimStatus::default();
    assert!(!record.is_claimed);
    assert_eq!(record.nft_eth_address, [0u8; 20]);
    assert_eq!(record.nft_id, 0);
}
