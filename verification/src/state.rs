//! What the registry stores: the configuration and the per-asset records.

use vstd::prelude::*;
use crate::error::TokenBridgeRelayerError;
use crate::pubkey::{is_native_mint, Pubkey};

verus! {

/// The configuration of the relayer: who may change the registry.
#[derive(Clone, Copy, Debug)]
pub struct SenderConfig {
    /// The only principal that may register assets.
    pub owner: Pubkey,
}

impl SenderConfig {
    /// Whether `caller` may change the registry: it may if and only if it is
    /// the recorded owner.
    pub fn check_owner(&self, caller: &Pubkey) -> (res: Result<(), TokenBridgeRelayerError>)
        ensures
            caller@ == self.owner@ ==> res == Ok::<(), TokenBridgeRelayerError>(()),
            caller@ != self.owner@ ==> res == Err::<(), TokenBridgeRelayerError>(
                TokenBridgeRelayerError::OwnerOnly,
            ),
    {
        if *caller == self.owner {
            Ok(())
        } else {
            Err(TokenBridgeRelayerError::OwnerOnly)
        }
    }
}

/// The record of one asset: the parameters read when relay fees and
/// permissible swap amounts are computed for it.
#[derive(Clone, Copy, Debug, PartialEq, Eq, Structural)]
pub struct RegisteredToken {
    /// The rate at which the asset is swapped for the native asset.
    pub swap_rate: u64,
    /// The most of the native asset that one transfer may be swapped for.
    pub max_native_swap_amount: u64,
    /// Whether the asset has been registered.
    pub is_registered: bool,
}

impl RegisteredToken {
    /// Whether this record may stand in the registry for the asset `mint`: a
    /// registered record has a positive swap rate, and for the native asset
    /// no native swap amount.
    pub open spec fn is_valid_for(&self, mint: Seq<u8>) -> bool {
        self.is_registered ==> {
            &&& self.swap_rate > 0
            &&& is_native_mint(mint) ==> self.max_native_swap_amount == 0
        }
    }

    /// The record of an asset that was never registered.
    pub open spec fn spec_unregistered() -> RegisteredToken {
        RegisteredToken { swap_rate: 0, max_native_swap_amount: 0, is_registered: false }
    }

    /// The record of an asset that was never registered.
    #[verifier::when_used_as_spec(spec_unregistered)]
    pub fn unregistered() -> (record: RegisteredToken)
        ensures
            record == Self::spec_unregistered(),
    {
        RegisteredToken { swap_rate: 0, max_native_swap_amount: 0, is_registered: false }
    }
}

} // verus!
