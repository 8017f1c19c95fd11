//! The claim ledger: one slot for each pair of collection address and item
//! identifier, created by the first claim of that pair and never changed
//! again.

use vstd::prelude::*;
use crate::bytes::{array_eq, zeros};

verus! {

/// The record of one claim.
#[derive(Clone, Copy, Debug, PartialEq, Eq)]
pub struct ClaimStatus {
    /// If true, the tokens have been claimed.
    pub is_claimed: bool,
    /// Address of the collection on the foreign chain.
    pub nft_eth_address: [u8; 20],
    /// Identifier of the item in the collection.
    pub nft_id: u16,
}

impl Default for ClaimStatus {
    /// The record of an item that nobody claimed.
    fn default() -> (record: ClaimStatus)
        ensures
            !record.is_claimed,
            record.nft_eth_address@ == zeros(20),
            record.nft_id == 0,
    {
        let record = ClaimStatus { is_claimed: false, nft_eth_address: [0u8; 20], nft_id: 0 };
        assert(record.nft_eth_address@ =~= zeros(20));
        record
    }
}

/// What an attempt to create a slot found.
#[derive(Clone, Copy, Debug, PartialEq, Eq, Structural)]
pub enum CreateOutcome {
    /// The slot did not exist and holds the given record now.
    Created,
    /// The slot existed. Nothing was written.
    AlreadyExists,
}

/// A slot of the ledger: the pair that addresses it and the record in it.
#[derive(Clone, Copy, Debug)]
pub struct Slot {
    pub nft: [u8; 20],
    pub id: u16,
    pub record: ClaimStatus,
}

/// The pair that addresses a slot.
pub type SlotKey = (Seq<u8>, u16);

/// The record that `slots` holds for a pair, if any.
pub open spec fn find(slots: Seq<Slot>, key: SlotKey) -> Option<ClaimStatus>
    decreases slots.len(),
{
    if slots.len() == 0 {
        None
    } else if slots.last().nft@ == key.0 && slots.last().id == key.1 {
        Some(slots.last().record)
    } else {
        find(slots.drop_last(), key)
    }
}

/// The ledger after an attempt to create the slot of `key` with `record`.
pub open spec fn after_create(
    ledger: Map<SlotKey, ClaimStatus>,
    key: SlotKey,
    record: ClaimStatus,
) -> Map<SlotKey, ClaimStatus> {
    if ledger.contains_key(key) {
        ledger
    } else {
        ledger.insert(key, record)
    }
}

/// What an attempt to create the slot of `key` finds.
pub open spec fn create_outcome(ledger: Map<SlotKey, ClaimStatus>, key: SlotKey) -> CreateOutcome {
    if ledger.contains_key(key) {
        CreateOutcome::AlreadyExists
    } else {
        CreateOutcome::Created
    }
}

/// How many of `attempts`, made one after another on `ledger`, create the
/// slot of `key`.
pub open spec fn created_count(
    ledger: Map<SlotKey, ClaimStatus>,
    attempts: Seq<(SlotKey, ClaimStatus)>,
    key: SlotKey,
) -> nat
    decreases attempts.len(),
{
    if attempts.len() == 0 {
        0
    } else {
        let first = attempts.first();
        let here: nat = if first.0 == key && create_outcome(ledger, first.0)
            == CreateOutcome::Created {
            1
        } else {
            0
        };
        here + created_count(after_create(ledger, first.0, first.1), attempts.drop_first(), key)
    }
}

/// The slots that were ever created.
pub struct ClaimLedger {
    slots: Vec<Slot>,
}

impl ClaimLedger {
    /// The slots in the order of their creation.
    pub closed spec fn slots(&self) -> Seq<Slot> {
        self.slots@
    }

    /// No pair has two slots.
    pub open spec fn wf(&self) -> bool {
        forall|i: int, j: int|
            0 <= i < j < self.slots().len() ==> !((#[trigger] self.slots()[i]).nft@ == (
            #[trigger] self.slots()[j]).nft@ && self.slots()[i].id == self.slots()[j].id)
    }

    /// The record in the slot of a pair, if the slot exists.
    pub open spec fn record(&self, nft: Seq<u8>, id: u16) -> Option<ClaimStatus> {
        find(self.slots(), (nft, id))
    }

    /// The ledger as a map from pair to record.
    pub open spec fn view(&self) -> Map<SlotKey, ClaimStatus> {
        Map::new(
            |key: SlotKey| find(self.slots(), key) is Some,
            |key: SlotKey| find(self.slots(), key)->Some_0,
        )
    }

    /// The ledger without any slot.
    pub fn new() -> (ledger: ClaimLedger)
        ensures
            ledger.wf(),
            ledger.slots().len() == 0,
            ledger@ == Map::<SlotKey, ClaimStatus>::empty(),
    {
        let ledger = ClaimLedger { slots: Vec::new() };
        assert(ledger@ =~= Map::<SlotKey, ClaimStatus>::empty());
        ledger
    }

    /// The number of slots.
    pub fn len(&self) -> (n: usize)
        ensures
            n == self.slots().len(),
    {
        self.slots.len()
    }

    /// The record in the slot of `(nft, id)`, if the slot exists.
    pub fn get(&self, nft: &[u8; 20], id: u16) -> (r: Option<ClaimStatus>)
        ensures
            r == self.record(nft@, id),
            r == if self@.contains_key((nft@, id)) {
                Some(self@[(nft@, id)])
            } else {
                None
            },
    {
        let mut i: usize = self.slots.len();
        assert(self.slots@.take(i as int) =~= self.slots@);
        while i > 0
            invariant
                i <= self.slots@.len(),
                find(self.slots@, (nft@, id)) == find(self.slots@.take(i as int), (nft@, id)),
            decreases i,
        {
            let slot = self.slots[i - 1];
            proof {
                let head = self.slots@.take(i as int);
                assert(head.last() == self.slots@[i - 1]);
                assert(head.drop_last() =~= self.slots@.take(i - 1));
            }
            if slot.id == id && array_eq(&slot.nft, nft) {
                return Some(slot.record);
            }
            i -= 1;
        }
        None
    }

    /// Creates the slot of `(nft, id)` with `record` in it, unless the slot
    /// exists. The test and the write are one step: whoever holds the ledger
    /// for this call is the only one who can be told `Created` for the pair.
    pub fn create_if_absent(&mut self, nft: &[u8; 20], id: u16, record: ClaimStatus) -> (outcome:
        CreateOutcome)
        requires
            old(self).wf(),
        ensures
            final(self).wf(),
            outcome == create_outcome(old(self)@, (nft@, id)),
            final(self)@ == after_create(old(self)@, (nft@, id), record),
            outcome == CreateOutcome::AlreadyExists ==> *final(self) == *old(self),
            outcome == CreateOutcome::Created ==> final(self).slots() == old(self).slots().push(
                Slot { nft: *nft, id, record },
            ),
            forall|key: SlotKey| old(self)@.contains_key(key) ==> final(self)@.contains_key(key)
                && final(self)@[key] == old(self)@[key],
    {
        if self.get(nft, id).is_some() {
            return CreateOutcome::AlreadyExists;
        }
        let slot = Slot { nft: *nft, id, record };
        proof {
            lemma_find_none(self.slots@, (nft@, id));
        }
        self.slots.push(slot);
        proof {
            assert(self.slots@.drop_last() =~= old(self).slots@);
            assert(self@ =~= old(self)@.insert((nft@, id), record));
        }
        CreateOutcome::Created
    }
}

/// A pair that `find` does not find addresses no slot.
pub proof fn lemma_find_none(slots: Seq<Slot>, key: SlotKey)
    requires
        find(slots, key) is None,
    ensures
        forall|i: int|
            0 <= i < slots.len() ==> !((#[trigger] slots[i]).nft@ == key.0 && slots[i].id == key.1),
    decreases slots.len(),
{
    if slots.len() > 0 {
        lemma_find_none(slots.drop_last(), key);
        assert forall|i: int| 0 <= i < slots.len() implies !((#[trigger] slots[i]).nft@ == key.0
            && slots[i].id == key.1) by {
            if i < slots.len() - 1 {
                assert(slots.drop_last()[i] == slots[i]);
            }
        }
    }
}

/// A slot that exists stays as it is, whatever is attempted on any pair.
pub proof fn lemma_slot_is_permanent(
    ledger: Map<SlotKey, ClaimStatus>,
    existing: SlotKey,
    key: SlotKey,
    record: ClaimStatus,
)
    requires
        ledger.contains_key(existing),
    ensures
        after_create(ledger, key, record).contains_key(existing),
        after_create(ledger, key, record)[existing] == ledger[existing],
{
}

/// Once the slot of a pair exists, every further attempt on that pair finds
/// it: the second of two attempts on one pair is never told `Created`.
pub proof fn lemma_second_attempt_fails(
    ledger: Map<SlotKey, ClaimStatus>,
    key: SlotKey,
    first: ClaimStatus,
)
    ensures
        create_outcome(after_create(ledger, key, first), key) == CreateOutcome::AlreadyExists,
{
}

/// Of any number of attempts, made in any order on any ledger, at most one
/// creates the slot of a given pair, and none does if the slot exists
/// before the first of them.
pub proof fn lemma_created_at_most_once(
    ledger: Map<SlotKey, ClaimStatus>,
    attempts: Seq<(SlotKey, ClaimStatus)>,
    key: SlotKey,
)
    ensures
        created_count(ledger, attempts, key) <= 1,
        ledger.contains_key(key) ==> created_count(ledger, attempts, key) == 0,
    decreases attempts.len(),
{
    if attempts.len() > 0 {
        let first = attempts.first();
        lemma_created_at_most_once(
            after_create(ledger, first.0, first.1),
            attempts.drop_first(),
            key,
        );
    }
}

} // verus!
