//! Identities: who may change the registry, and which asset a record is for.

use vstd::prelude::*;
use crate::bytes::bytes_equal;

verus! {

/// The identity of a principal or of an asset: 32 bytes, compared byte by byte.
#[derive(Clone, Copy, Debug)]
pub struct Pubkey {
    pub bytes: [u8; 32],
}

impl View for Pubkey {
    type V = Seq<u8>;

    open spec fn view(&self) -> Seq<u8> {
        self.bytes@
    }
}

/// The bytes of the native asset's identity: the mint that stands for the
/// ledger's base currency, `So11111111111111111111111111111111111111112`.
pub const NATIVE_MINT: [u8; 32] = [
    6, 155, 136, 87, 254, 171, 129, 132, 251, 104, 127, 99, 70, 24, 192, 53, 218, 196, 57, 220, 26,
    235, 59, 85, 152, 160, 240, 0, 0, 0, 0, 1,
];

/// The bytes of the native asset's identity, as a sequence.
pub open spec fn native_mint_bytes() -> Seq<u8> {
    NATIVE_MINT@
}

/// Whether `mint` is the identity of the native asset.
pub open spec fn is_native_mint(mint: Seq<u8>) -> bool {
    mint == native_mint_bytes()
}

impl Pubkey {
    /// The identity made of `bytes`.
    pub fn new_from_array(bytes: [u8; 32]) -> (key: Pubkey)
        ensures
            key@ == bytes@,
    {
        Pubkey { bytes }
    }

    /// The 32 bytes of this identity.
    pub fn to_bytes(&self) -> (bytes: [u8; 32])
        ensures
            bytes@ == self@,
    {
        self.bytes
    }

    /// The identity of the native asset.
    pub fn native_mint() -> (key: Pubkey)
        ensures
            key@ == native_mint_bytes(),
    {
        Pubkey { bytes: NATIVE_MINT }
    }

    /// Whether this is the identity of the native asset.
    pub fn is_native_mint(&self) -> (native: bool)
        ensures
            native == is_native_mint(self@),
    {
        let native = Pubkey::native_mint();
        *self == native
    }
}

impl PartialEq for Pubkey {
    fn eq(&self, other: &Pubkey) -> (equal: bool) {
        bytes_equal(&self.bytes, &other.bytes)
    }
}

impl Eq for Pubkey {}

impl vstd::std_specs::cmp::PartialEqSpecImpl for Pubkey {
    open spec fn obeys_eq_spec() -> bool {
        true
    }

    open spec fn eq_spec(&self, other: &Pubkey) -> bool {
        self@ == other@
    }
}

/// Two identities with the same bytes are the same identity.
pub proof fn lemma_pubkey_ext_equal(a: Pubkey, b: Pubkey)
    ensures
        a@ == b@ <==> a == b,
{
    if a@ == b@ {
        assert(a.bytes =~= b.bytes);
    }
}

} // verus!
