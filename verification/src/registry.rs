//! The registry: the owner's configuration and the records of the assets.

use vstd::prelude::*;
use crate::address::{
    address_mint, is_record_address, lemma_record_address_injective, lemma_record_address_of_mint,
    record_address, RecordAddress,
};
use crate::error::TokenBridgeRelayerError;
use crate::processor::{register_token, registration_refusal, RegisterToken};
use crate::pubkey::Pubkey;
use crate::state::{RegisteredToken, SenderConfig};

verus! {

/// What a registry holds: the owner, and the records by their locations.
pub struct RegistryView {
    /// The only principal that may register assets.
    pub owner: Seq<u8>,
    /// The stored records, each under the location derived from its asset.
    pub records: Map<Seq<u8>, RegisteredToken>,
}

impl RegistryView {
    /// What holds of every registry: each record is kept at the location of an
    /// asset, is registered, has a positive swap rate and, for the native
    /// asset, no native swap amount.
    pub open spec fn wf(self) -> bool {
        &&& self.owner.len() == 32
        &&& forall|address: Seq<u8>| #[trigger]
            self.records.contains_key(address) ==> {
                &&& is_record_address(address)
                &&& self.records[address].is_registered
                &&& self.records[address].is_valid_for(address_mint(address))
            }
    }

    /// The stored record of the asset `mint`, if there is one.
    pub open spec fn record_of(self, mint: Seq<u8>) -> Option<RegisteredToken> {
        if self.records.contains_key(record_address(mint)) {
            Some(self.records[record_address(mint)])
        } else {
            None
        }
    }

    /// Whether the asset `mint` is registered.
    pub open spec fn is_registered(self, mint: Seq<u8>) -> bool {
        self.record_of(mint) matches Some(record) && record.is_registered
    }

    /// The record that a registration of `mint` starts from: the stored one,
    /// or an unregistered one where none is stored.
    pub open spec fn probe(self, mint: Seq<u8>) -> RegisteredToken {
        match self.record_of(mint) {
            Some(record) => record,
            None => RegisteredToken::unregistered(),
        }
    }

    /// The first rule that `caller` breaks by registering `mint` with these
    /// parameters, if it breaks one.
    pub open spec fn refusal(
        self,
        caller: Seq<u8>,
        mint: Seq<u8>,
        swap_rate: u64,
        max_native_swap_amount: u64,
    ) -> Option<TokenBridgeRelayerError> {
        registration_refusal(
            caller,
            self.owner,
            self.probe(mint),
            mint,
            swap_rate,
            max_native_swap_amount,
        )
    }

    /// The registry with the record of `mint` set to these parameters and
    /// marked as registered.
    pub open spec fn with_record(
        self,
        mint: Seq<u8>,
        swap_rate: u64,
        max_native_swap_amount: u64,
    ) -> RegistryView {
        RegistryView {
            owner: self.owner,
            records: self.records.insert(
                record_address(mint),
                RegisteredToken { swap_rate, max_native_swap_amount, is_registered: true },
            ),
        }
    }

    /// The answer to a registration, and the registry after it: a refused
    /// registration changes nothing, an accepted one stores the record.
    pub open spec fn register(
        self,
        caller: Seq<u8>,
        mint: Seq<u8>,
        swap_rate: u64,
        max_native_swap_amount: u64,
    ) -> (Result<(), TokenBridgeRelayerError>, RegistryView) {
        match self.refusal(caller, mint, swap_rate, max_native_swap_amount) {
            Some(e) => (Err(e), self),
            None => (Ok(()), self.with_record(mint, swap_rate, max_native_swap_amount)),
        }
    }
}

/// One stored record and its location.
struct Entry {
    address: RecordAddress,
    token: RegisteredToken,
}

/// Whether entry `i` of `entries` is kept at `address`.
spec fn kept_at(entries: Seq<Entry>, i: int, address: Seq<u8>) -> bool {
    0 <= i < entries.len() && entries[i].address@ == address
}

/// The records of `entries` by their locations.
spec fn records_of(entries: Seq<Entry>) -> Map<Seq<u8>, RegisteredToken> {
    Map::new(
        |address: Seq<u8>| exists|i: int| kept_at(entries, i, address),
        |address: Seq<u8>| entries[choose|i: int| kept_at(entries, i, address)].token,
    )
}

/// The registry of the relayer.
pub struct Registry {
    config: SenderConfig,
    entries: Vec<Entry>,
}

impl View for Registry {
    type V = RegistryView;

    closed spec fn view(&self) -> RegistryView {
        RegistryView { owner: self.config.owner@, records: records_of(self.entries@) }
    }
}

impl Registry {
    #[verifier::type_invariant]
    spec fn inv(self) -> bool {
        &&& forall|i: int, j: int|
            0 <= i < j < self.entries@.len() ==> #[trigger] self.entries@[i].address@
                != #[trigger] self.entries@[j].address@
        &&& forall|i: int|
            0 <= i < self.entries@.len() ==> {
                let entry = #[trigger] self.entries@[i];
                &&& is_record_address(entry.address@)
                &&& entry.token.is_registered
                &&& entry.token.is_valid_for(address_mint(entry.address@))
            }
    }

    /// A registry without records, owned by `owner`.
    pub fn new(owner: Pubkey) -> (registry: Registry)
        ensures
            registry@ == (RegistryView { owner: owner@, records: Map::empty() }),
            registry@.wf(),
    {
        let registry = Registry { config: SenderConfig { owner }, entries: Vec::new() };
        assert(registry@.records =~= Map::empty());
        registry
    }

    /// The owner that the configuration records.
    pub fn owner(&self) -> (owner: Pubkey)
        ensures
            owner@ == self@.owner,
    {
        self.config.owner
    }

    /// The index of the entry kept at `address`, if there is one.
    fn find(&self, address: &RecordAddress) -> (slot: Option<usize>)
        ensures
            match slot {
                Some(i) => kept_at(self.entries@, i as int, address@),
                None => forall|i: int| !kept_at(self.entries@, i, address@),
            },
    {
        let mut i: usize = 0;
        while i < self.entries.len()
            invariant
                i <= self.entries@.len(),
                forall|j: int| 0 <= j < i ==> !kept_at(self.entries@, j, address@),
            decreases self.entries@.len() - i,
        {
            if self.entries[i].address == *address {
                return Some(i);
            }
            i += 1;
        }
        None
    }

    /// The stored record of the asset `mint`, if there is one.
    pub fn get(&self, mint: &Pubkey) -> (record: Option<RegisteredToken>)
        ensures
            record == self@.record_of(mint@),
            self@.wf(),
    {
        proof {
            use_type_invariant(self);
            self.lemma_view_wf();
        }
        let address = RecordAddress::derive(mint);
        match self.find(&address) {
            Some(i) => {
                proof {
                    self.lemma_kept(i as int, address@);
                }
                Some(self.entries[i].token)
            },
            None => None,
        }
    }

    /// Whether the asset `mint` is registered.
    pub fn is_registered(&self, mint: &Pubkey) -> (registered: bool)
        ensures
            registered == self@.is_registered(mint@),
    {
        match self.get(mint) {
            Some(record) => record.is_registered,
            None => false,
        }
    }

    /// Registers the asset `mint` on behalf of `caller`.
    ///
    /// The rules are taken in order: the caller is the owner; the asset is
    /// not yet registered; the swap rate is positive; the native asset gets
    /// no native swap amount. The first broken rule is returned and the
    /// registry is left as it was. Where none is broken, the record of `mint`
    /// becomes exactly the given parameters, marked as registered, and no
    /// other record changes.
    pub fn register(
        &mut self,
        caller: &Pubkey,
        mint: &Pubkey,
        swap_rate: u64,
        max_native_swap_amount: u64,
    ) -> (res: Result<(), TokenBridgeRelayerError>)
        ensures
            old(self)@.wf(),
            res == old(self)@.register(caller@, mint@, swap_rate, max_native_swap_amount).0,
            final(self)@ == old(self)@.register(
                caller@,
                mint@,
                swap_rate,
                max_native_swap_amount,
            ).1,
            forall|other: Seq<u8>|
                other != mint@ ==> #[trigger] final(self)@.record_of(other)
                    == old(self)@.record_of(other),
            final(self)@.wf(),
    {
        proof {
            use_type_invariant(&*self);
            self.lemma_view_wf();
            assert forall|other: Seq<u8>| other != mint@ implies #[trigger] record_address(other)
                != record_address(mint@) by {
                lemma_record_address_injective(other, mint@);
            }
        }
        let address = RecordAddress::derive(mint);
        let slot = self.find(&address);
        let record = match slot {
            Some(i) => {
                proof {
                    self.lemma_kept(i as int, address@);
                }
                self.entries[i].token
            },
            None => RegisteredToken::unregistered(),
        };
        let mut ctx = RegisterToken {
            owner: *caller,
            config: self.config,
            registered_token: record,
            mint: *mint,
        };
        match register_token(&mut ctx, swap_rate, max_native_swap_amount) {
            Err(e) => Err(e),
            Ok(()) => {
                let entry = Entry { address, token: ctx.registered_token };
                let ghost before = self.entries@;
                proof {
                    lemma_record_address_of_mint(mint@);
                    lemma_records_of_push(before, entry);
                }
                // The list is taken out while it grows, so that the registry
                // keeps its invariant at every point.
                let mut entries: Vec<Entry> = Vec::new();
                std::mem::swap(&mut self.entries, &mut entries);
                entries.push(entry);
                proof {
                    assert(entries@ == before.push(entry));
                    assert forall|i: int, j: int| 0 <= i < j < entries@.len() implies #[trigger]
                        entries@[i].address@ != #[trigger] entries@[j].address@ by {
                        if j == before.len() {
                            assert(!kept_at(before, i, entry.address@));
                        }
                    }
                }
                self.entries = entries;
                proof {
                    self.lemma_view_wf();
                }
                Ok(())
            },
        }
    }

    /// In a registry that keeps its invariant, the record found at a location
    /// is the record of the entry kept there.
    proof fn lemma_kept(&self, i: int, address: Seq<u8>)
        requires
            self.inv(),
            kept_at(self.entries@, i, address),
        ensures
            self@.records.contains_key(address),
            self@.records[address] == self.entries@[i].token,
    {
        let chosen = choose|k: int| kept_at(self.entries@, k, address);
        assert(kept_at(self.entries@, chosen, address));
        if chosen < i {
            assert(self.entries@[chosen].address@ != self.entries@[i].address@);
        } else if i < chosen {
            assert(self.entries@[i].address@ != self.entries@[chosen].address@);
        }
    }

    /// A registry that keeps its invariant holds a well-formed view.
    proof fn lemma_view_wf(&self)
        requires
            self.inv(),
        ensures
            self@.wf(),
    {
        assert forall|address: Seq<u8>| #[trigger]
            self@.records.contains_key(address) implies {
            &&& is_record_address(address)
            &&& self@.records[address].is_registered
            &&& self@.records[address].is_valid_for(address_mint(address))
        } by {
            let i = choose|k: int| kept_at(self.entries@, k, address);
            assert(kept_at(self.entries@, i, address));
            let entry = self.entries@[i];
            assert(is_record_address(entry.address@));
        }
    }
}

/// Appending an entry at a location that holds none stores its record there.
proof fn lemma_records_of_push(entries: Seq<Entry>, entry: Entry)
    requires
        forall|i: int, j: int|
            0 <= i < j < entries.len() ==> #[trigger] entries[i].address@
                != #[trigger] entries[j].address@,
        forall|i: int| !kept_at(entries, i, entry.address@),
    ensures
        records_of(entries.push(entry)) == records_of(entries).insert(entry.address@, entry.token),
{
    let after = entries.push(entry);
    let expected = records_of(entries).insert(entry.address@, entry.token);
    assert(kept_at(after, entries.len() as int, entry.address@));
    assert forall|address: Seq<u8>| #[trigger]
        records_of(after).contains_key(address) <==> expected.contains_key(address) by {
        if records_of(after).contains_key(address) {
            let i = choose|k: int| kept_at(after, k, address);
            assert(kept_at(after, i, address));
            if i < entries.len() {
                assert(kept_at(entries, i, address));
            }
        }
        if records_of(entries).contains_key(address) {
            let i = choose|k: int| kept_at(entries, k, address);
            assert(kept_at(after, i, address));
        }
    }
    assert forall|address: Seq<u8>| #[trigger]
        records_of(after).contains_key(address) implies records_of(after)[address]
        == expected[address] by {
        let i = choose|k: int| kept_at(after, k, address);
        assert(kept_at(after, i, address));
        if address == entry.address@ {
            assert(!kept_at(entries, i, address));
            assert(i == entries.len());
        } else {
            assert(i < entries.len());
            assert(kept_at(entries, i, address));
            let j = choose|k: int| kept_at(entries, k, address);
            assert(kept_at(entries, j, address));
            if i < j {
                assert(entries[i].address@ != entries[j].address@);
            } else if j < i {
                assert(entries[j].address@ != entries[i].address@);
            }
        }
    }
    assert(records_of(after) =~= expected);
}

} // verus!
