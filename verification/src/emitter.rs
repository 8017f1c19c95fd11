//! The registry of trusted emitters, one per foreign chain.

use vstd::prelude::*;
use crate::bytes::{array_eq, is_zero, zeros};

verus! {

/// The identifier of the home chain. No emitter is registered for it.
pub const HOME_CHAIN: u16 = 1;

/// The sender that is trusted to originate messages for one foreign chain.
#[derive(Clone, Copy, Debug, PartialEq, Eq)]
pub struct ForeignEmitter {
    /// Emitter chain. Never the home chain in a registered record.
    pub chain: u16,
    /// Emitter address. Never the zero address in a registered record.
    pub address: [u8; 32],
}

impl Default for ForeignEmitter {
    /// The record of no emitter: chain zero and the zero address. It is not
    /// valid, and no registry holds it.
    fn default() -> (record: ForeignEmitter)
        ensures
            record.chain == 0,
            record.address@ == zeros(32),
            !record.wf(),
    {
        let record = ForeignEmitter { chain: 0, address: [0u8; 32] };
        assert(record.address@ =~= zeros(32));
        record
    }
}

/// Why a record was not registered.
#[derive(Clone, Copy, Debug, PartialEq, Eq, Structural)]
pub enum RegisterError {
    /// The chain is the home chain.
    HomeChain,
    /// The address is the zero address.
    ZeroAddress,
    /// The chain has a record already.
    AlreadyRegistered,
}

impl ForeignEmitter {
    /// A record that may stand in the registry.
    pub open spec fn wf(&self) -> bool {
        self.chain != HOME_CHAIN && self.address@ != zeros(32)
    }

    /// Whether `address` is this record's address, byte for byte.
    pub fn verify(&self, address: &[u8; 32]) -> (r: bool)
        ensures
            r == (address@ == self.address@),
    {
        array_eq(address, &self.address)
    }
}

/// The address that `records` holds for `chain`, if any.
pub open spec fn lookup(records: Seq<ForeignEmitter>, chain: u16) -> Option<Seq<u8>>
    decreases records.len(),
{
    if records.len() == 0 {
        None
    } else if records.last().chain == chain {
        Some(records.last().address@)
    } else {
        lookup(records.drop_last(), chain)
    }
}

/// The error, if any, with which registering `address` for `chain` is
/// refused when `current` is what the registry holds for `chain`.
pub open spec fn register_error(current: Option<Seq<u8>>, chain: u16, address: Seq<u8>) -> Option<
    RegisterError,
> {
    if chain == HOME_CHAIN {
        Some(RegisterError::HomeChain)
    } else if address == zeros(32) {
        Some(RegisterError::ZeroAddress)
    } else if current is Some {
        Some(RegisterError::AlreadyRegistered)
    } else {
        None
    }
}

/// The trusted emitters. A chain gets its record once and keeps it.
pub struct EmitterRegistry {
    records: Vec<ForeignEmitter>,
}

impl EmitterRegistry {
    /// The records in the order of their registration.
    pub closed spec fn records(&self) -> Seq<ForeignEmitter> {
        self.records@
    }

    /// Every record is valid, and no chain has two.
    pub open spec fn wf(&self) -> bool {
        &&& forall|i: int| 0 <= i < self.records().len() ==> (#[trigger] self.records()[i]).wf()
        &&& forall|i: int, j: int|
            0 <= i < j < self.records().len() ==> (#[trigger] self.records()[i]).chain != (
            #[trigger] self.records()[j]).chain
    }

    /// The address registered for `chain`, if any.
    pub open spec fn registered(&self, chain: u16) -> Option<Seq<u8>> {
        lookup(self.records(), chain)
    }

    /// The registry as a map from chain to address.
    pub open spec fn view(&self) -> Map<u16, Seq<u8>> {
        Map::new(
            |chain: u16| self.registered(chain) is Some,
            |chain: u16| self.registered(chain)->Some_0,
        )
    }

    /// The registry without any record.
    pub fn new() -> (registry: EmitterRegistry)
        ensures
            registry.wf(),
            registry.records().len() == 0,
            forall|chain: u16| registry.registered(chain) is None,
            registry@ == Map::<u16, Seq<u8>>::empty(),
    {
        let registry = EmitterRegistry { records: Vec::new() };
        assert(registry@ =~= Map::<u16, Seq<u8>>::empty());
        registry
    }

    /// The record of `chain`, if it has one.
    pub fn get(&self, chain: u16) -> (r: Option<ForeignEmitter>)
        ensures
            match r {
                Some(e) => e.chain == chain && self.registered(chain) == Some(e.address@),
                None => self.registered(chain) is None,
            },
    {
        let mut i: usize = self.records.len();
        assert(self.records@.take(i as int) =~= self.records@);
        while i > 0
            invariant
                i <= self.records@.len(),
                lookup(self.records@, chain) == lookup(self.records@.take(i as int), chain),
            decreases i,
        {
            let record = self.records[i - 1];
            proof {
                let head = self.records@.take(i as int);
                assert(head.last() == self.records@[i - 1]);
                assert(head.drop_last() =~= self.records@.take(i - 1));
            }
            if record.chain == chain {
                return Some(record);
            }
            i -= 1;
        }
        None
    }

    /// Whether `address` is the address registered for `chain`. A chain
    /// without a record matches no address.
    pub fn verify(&self, chain: u16, address: &[u8; 32]) -> (r: bool)
        ensures
            r == (self.registered(chain) == Some(address@)),
    {
        match self.get(chain) {
            Some(record) => record.verify(address),
            None => false,
        }
    }

    /// Registers `address` as the emitter of `chain`, once.
    pub fn register(&mut self, chain: u16, address: [u8; 32]) -> (r: Result<(), RegisterError>)
        requires
            old(self).wf(),
        ensures
            final(self).wf(),
            match r {
                Ok(()) => {
                    &&& register_error(old(self).registered(chain), chain, address@) is None
                    &&& final(self).records() == old(self).records().push(
                        ForeignEmitter { chain, address },
                    )
                    &&& forall|c: u16|
                        #![trigger final(self).registered(c)]
                        final(self).registered(c) == if c == chain {
                            Some(address@)
                        } else {
                            old(self).registered(c)
                        }
                    &&& final(self)@ == old(self)@.insert(chain, address@)
                },
                Err(e) => {
                    &&& register_error(old(self).registered(chain), chain, address@) == Some(e)
                    &&& *final(self) == *old(self)
                },
            },
    {
        if chain == HOME_CHAIN {
            return Err(RegisterError::HomeChain);
        }
        if is_zero(&address) {
            return Err(RegisterError::ZeroAddress);
        }
        if self.get(chain).is_some() {
            return Err(RegisterError::AlreadyRegistered);
        }
        let record = ForeignEmitter { chain, address };
        proof {
            lemma_lookup_none(self.records@, chain);
        }
        self.records.push(record);
        proof {
            assert(self.records@.drop_last() =~= old(self).records@);
            assert forall|c: u16| #![trigger self.registered(c)] self.registered(c) == if c == chain {
                Some(address@)
            } else {
                old(self).registered(c)
            } by {}
            assert(self@ =~= old(self)@.insert(chain, address@));
        }
        Ok(())
    }
}

/// A chain that `lookup` does not find stands in no record.
pub proof fn lemma_lookup_none(records: Seq<ForeignEmitter>, chain: u16)
    requires
        lookup(records, chain) is None,
    ensures
        forall|i: int| 0 <= i < records.len() ==> (#[trigger] records[i]).chain != chain,
    decreases records.len(),
{
    if records.len() > 0 {
        lemma_lookup_none(records.drop_last(), chain);
        assert forall|i: int| 0 <= i < records.len() implies (#[trigger] records[i]).chain
            != chain by {
            if i < records.len() - 1 {
                assert(records.drop_last()[i] == records[i]);
            }
        }
    }
}

/// What `lookup` finds is the address of a record for that chain.
pub proof fn lemma_lookup_some(records: Seq<ForeignEmitter>, chain: u16)
    requires
        lookup(records, chain) is Some,
    ensures
        exists|i: int|
            0 <= i < records.len() && (#[trigger] records[i]).chain == chain && records[i].address@
                == lookup(records, chain)->Some_0,
    decreases records.len(),
{
    if records.last().chain == chain {
        assert(records[records.len() - 1].chain == chain);
    } else {
        lemma_lookup_some(records.drop_last(), chain);
        let i = choose|i: int|
            0 <= i < records.drop_last().len() && (#[trigger] records.drop_last()[i]).chain == chain
                && records.drop_last()[i].address@ == lookup(records.drop_last(), chain)->Some_0;
        assert(records[i] == records.drop_last()[i]);
    }
}

/// No valid registry trusts an emitter on the home chain, and none trusts
/// the zero address.
pub proof fn lemma_registered_is_valid(registry: EmitterRegistry, chain: u16)
    requires
        registry.wf(),
        registry.registered(chain) is Some,
    ensures
        chain != HOME_CHAIN,
        registry.registered(chain)->Some_0 != zeros(32),
        registry.registered(chain)->Some_0.len() == 32,
{
    lemma_lookup_some(registry.records(), chain);
}

} // verus!
