//! Where the record of an asset is kept.
//!
//! The location of a record is derived from the asset alone: a fixed tag that
//! names the registry, followed by the asset's identity. To look a record up
//! and to create it is to derive the same location, so no index is kept.

use vstd::prelude::*;
use crate::bytes::bytes_equal;
use crate::pubkey::Pubkey;

verus! {

/// The tag that names the registry: the ASCII bytes of `mint`.
pub const SEED_PREFIX: [u8; 4] = [109, 105, 110, 116];

/// The tag that names the registry, as a sequence of bytes.
pub open spec fn seed_prefix() -> Seq<u8> {
    SEED_PREFIX@
}

/// The location of the record of the asset `mint`.
pub open spec fn record_address(mint: Seq<u8>) -> Seq<u8> {
    seed_prefix() + mint
}

/// Whether `address` is the location of some asset's record.
pub open spec fn is_record_address(address: Seq<u8>) -> bool {
    address.len() == 36 && address.subrange(0, 4) == seed_prefix()
}

/// The asset whose record is kept at `address`.
pub open spec fn address_mint(address: Seq<u8>) -> Seq<u8> {
    address.subrange(4, 36)
}

/// The location of an asset's record.
#[derive(Clone, Copy, Debug)]
pub struct RecordAddress {
    seeds: [u8; 36],
}

impl View for RecordAddress {
    type V = Seq<u8>;

    closed spec fn view(&self) -> Seq<u8> {
        self.seeds@
    }
}

impl RecordAddress {
    /// The location of the record of the asset `mint`.
    pub fn derive(mint: &Pubkey) -> (address: RecordAddress)
        ensures
            address@ == record_address(mint@),
    {
        let mut seeds: [u8; 36] = [0; 36];
        let mut i: usize = 0;
        while i < 4
            invariant
                i <= 4,
                forall|j: int| 0 <= j < i ==> seeds@[j] == seed_prefix()[j],
            decreases 4 - i,
        {
            seeds[i] = SEED_PREFIX[i];
            i += 1;
        }
        let mut k: usize = 0;
        while k < 32
            invariant
                k <= 32,
                forall|j: int| 0 <= j < 4 ==> seeds@[j] == seed_prefix()[j],
                forall|j: int| 0 <= j < k ==> seeds@[4 + j] == mint@[j],
            decreases 32 - k,
        {
            seeds[4 + k] = mint.bytes[k];
            k += 1;
        }
        assert(seeds@ =~= record_address(mint@));
        RecordAddress { seeds }
    }

    /// The bytes of this location: the tag, then the asset's identity.
    pub fn to_bytes(&self) -> (bytes: [u8; 36])
        ensures
            bytes@ == self@,
    {
        self.seeds
    }
}

impl PartialEq for RecordAddress {
    fn eq(&self, other: &RecordAddress) -> (equal: bool) {
        bytes_equal(&self.seeds, &other.seeds)
    }
}

impl Eq for RecordAddress {}

impl vstd::std_specs::cmp::PartialEqSpecImpl for RecordAddress {
    open spec fn obeys_eq_spec() -> bool {
        true
    }

    open spec fn eq_spec(&self, other: &RecordAddress) -> bool {
        self@ == other@
    }
}

/// Every asset has a location, and the asset can be read back from it.
pub proof fn lemma_record_address_of_mint(mint: Seq<u8>)
    requires
        mint.len() == 32,
    ensures
        is_record_address(record_address(mint)),
        address_mint(record_address(mint)) == mint,
{
    let address = record_address(mint);
    assert(address.subrange(0, 4) =~= seed_prefix());
    assert(address.subrange(4, 36) =~= mint);
}

/// Every location is the location of the asset read back from it.
pub proof fn lemma_record_address_of_address(address: Seq<u8>)
    requires
        is_record_address(address),
    ensures
        address_mint(address).len() == 32,
        record_address(address_mint(address)) == address,
{
    assert(address =~= address.subrange(0, 4) + address.subrange(4, 36));
}

/// Distinct assets never share a location: two assets with the same location
/// are the same asset.
pub proof fn lemma_record_address_injective(mint_a: Seq<u8>, mint_b: Seq<u8>)
    ensures
        record_address(mint_a) == record_address(mint_b) <==> mint_a == mint_b,
{
    if record_address(mint_a) == record_address(mint_b) {
        let a = record_address(mint_a);
        let b = record_address(mint_b);
        assert(mint_a.len() == a.len() - 4);
        assert(mint_b.len() == b.len() - 4);
        assert forall|i: int| 0 <= i < mint_a.len() implies mint_a[i] == mint_b[i] by {
            assert(a[4 + i] == mint_a[i]);
            assert(b[4 + i] == mint_b[i]);
        }
        assert(mint_a =~= mint_b);
    }
}

} // verus!
