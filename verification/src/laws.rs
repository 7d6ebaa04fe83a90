//! What holds of every registration, whatever the registry holds.

use vstd::prelude::*;
use crate::address::{lemma_record_address_injective, lemma_record_address_of_mint};
use crate::error::{ErrorKind, TokenBridgeRelayerError};
use crate::pubkey::is_native_mint;
use crate::registry::RegistryView;
use crate::state::RegisteredToken;

verus! {

/// The owner's first registration of an asset with a positive swap rate, and
/// for the native asset without a native swap amount, is accepted and stores
/// exactly the given parameters, marked as registered. Every registration of
/// that asset after it is refused as a conflict.
pub proof fn law_single_success(
    registry: RegistryView,
    mint: Seq<u8>,
    swap_rate: u64,
    max_native_swap_amount: u64,
    later_swap_rate: u64,
    later_max_native_swap_amount: u64,
)
    requires
        !registry.is_registered(mint),
        swap_rate > 0,
        is_native_mint(mint) ==> max_native_swap_amount == 0,
    ensures
        ({
            let (res, after) = registry.register(
                registry.owner,
                mint,
                swap_rate,
                max_native_swap_amount,
            );
            let (later_res, later) = after.register(
                registry.owner,
                mint,
                later_swap_rate,
                later_max_native_swap_amount,
            );
            &&& res == Ok::<(), TokenBridgeRelayerError>(())
            &&& after.record_of(mint) == Some(
                RegisteredToken { swap_rate, max_native_swap_amount, is_registered: true },
            )
            &&& after.owner == registry.owner
            &&& later_res == Err::<(), TokenBridgeRelayerError>(
                TokenBridgeRelayerError::TokenAlreadyRegistered,
            )
            &&& later == after
        }),
{
}

/// A registration is accepted only from the owner, for an asset that is not
/// yet registered, with a positive swap rate and, for the native asset,
/// without a native swap amount.
pub proof fn law_accepted_only_if_allowed(
    registry: RegistryView,
    caller: Seq<u8>,
    mint: Seq<u8>,
    swap_rate: u64,
    max_native_swap_amount: u64,
)
    ensures
        registry.register(caller, mint, swap_rate, max_native_swap_amount).0 is Ok <==> {
            &&& caller == registry.owner
            &&& !registry.is_registered(mint)
            &&& swap_rate > 0
            &&& is_native_mint(mint) ==> max_native_swap_amount == 0
        },
{
}

/// The owner's registration of an asset that is already registered is refused
/// as a conflict, whatever the parameters, and leaves the registry, and so the
/// stored record, exactly as it was.
pub proof fn law_registered_asset_is_rejected(
    registry: RegistryView,
    mint: Seq<u8>,
    swap_rate: u64,
    max_native_swap_amount: u64,
)
    requires
        registry.is_registered(mint),
    ensures
        ({
            let (res, after) = registry.register(
                registry.owner,
                mint,
                swap_rate,
                max_native_swap_amount,
            );
            &&& res == Err::<(), TokenBridgeRelayerError>(
                TokenBridgeRelayerError::TokenAlreadyRegistered,
            )
            &&& TokenBridgeRelayerError::TokenAlreadyRegistered.kind() == ErrorKind::StateConflict
            &&& after == registry
            &&& after.record_of(mint) == registry.record_of(mint)
        }),
{
}

/// The owner's registration of an asset that is not registered, with a swap
/// rate of zero, is refused as invalid and creates no record.
pub proof fn law_zero_rate_is_rejected(
    registry: RegistryView,
    mint: Seq<u8>,
    max_native_swap_amount: u64,
)
    requires
        !registry.is_registered(mint),
    ensures
        ({
            let (res, after) = registry.register(registry.owner, mint, 0, max_native_swap_amount);
            &&& res == Err::<(), TokenBridgeRelayerError>(TokenBridgeRelayerError::ZeroSwapRate)
            &&& TokenBridgeRelayerError::ZeroSwapRate.kind() == ErrorKind::ValidationError
            &&& after == registry
            &&& after.records.dom() == registry.records.dom()
        }),
{
}

/// The owner's registration of the native asset, not yet registered, with a
/// positive swap rate is accepted if and only if no native swap amount is
/// given. With one it is refused as invalid and nothing changes.
pub proof fn law_native_asset_constraint(
    registry: RegistryView,
    mint: Seq<u8>,
    swap_rate: u64,
    max_native_swap_amount: u64,
)
    requires
        is_native_mint(mint),
        !registry.is_registered(mint),
        swap_rate > 0,
    ensures
        ({
            let (res, after) = registry.register(
                registry.owner,
                mint,
                swap_rate,
                max_native_swap_amount,
            );
            &&& res is Ok <==> max_native_swap_amount == 0
            &&& max_native_swap_amount != 0 ==> {
                &&& res == Err::<(), TokenBridgeRelayerError>(
                    TokenBridgeRelayerError::SwapsNotAllowedForNativeMint,
                )
                &&& after == registry
            }
            &&& TokenBridgeRelayerError::SwapsNotAllowedForNativeMint.kind()
                == ErrorKind::ValidationError
        }),
{
}

/// A registration by anyone but the owner is refused as unauthorized,
/// whatever the asset, its record and the parameters, and changes nothing.
pub proof fn law_authorization_comes_first(
    registry: RegistryView,
    caller: Seq<u8>,
    mint: Seq<u8>,
    swap_rate: u64,
    max_native_swap_amount: u64,
)
    requires
        caller != registry.owner,
    ensures
        ({
            let (res, after) = registry.register(caller, mint, swap_rate, max_native_swap_amount);
            &&& res == Err::<(), TokenBridgeRelayerError>(TokenBridgeRelayerError::OwnerOnly)
            &&& TokenBridgeRelayerError::OwnerOnly.kind() == ErrorKind::AuthorizationError
            &&& after == registry
        }),
{
}

/// A refused registration changes nothing.
pub proof fn law_refusal_changes_nothing(
    registry: RegistryView,
    caller: Seq<u8>,
    mint: Seq<u8>,
    swap_rate: u64,
    max_native_swap_amount: u64,
)
    ensures
        ({
            let (res, after) = registry.register(caller, mint, swap_rate, max_native_swap_amount);
            res is Err ==> after == registry
        }),
{
}

/// A registration keeps the registry well formed: afterwards too, every
/// record is registered, has a positive swap rate and, for the native asset,
/// no native swap amount.
pub proof fn law_registration_keeps_well_formed(
    registry: RegistryView,
    caller: Seq<u8>,
    mint: Seq<u8>,
    swap_rate: u64,
    max_native_swap_amount: u64,
)
    requires
        registry.wf(),
        mint.len() == 32,
    ensures
        registry.register(caller, mint, swap_rate, max_native_swap_amount).1.wf(),
{
    lemma_record_address_of_mint(mint);
}

/// A registered asset stays registered, and its record is never written
/// again: no registration, of that asset or of another, by anyone, changes it.
pub proof fn law_registered_record_is_permanent(
    registry: RegistryView,
    registered: Seq<u8>,
    caller: Seq<u8>,
    mint: Seq<u8>,
    swap_rate: u64,
    max_native_swap_amount: u64,
)
    requires
        registry.is_registered(registered),
    ensures
        ({
            let after = registry.register(caller, mint, swap_rate, max_native_swap_amount).1;
            &&& after.is_registered(registered)
            &&& after.record_of(registered) == registry.record_of(registered)
        }),
{
    lemma_record_address_injective(registered, mint);
}

/// A registration touches the record of its own asset only: the record of
/// every other asset, stored or not, is as it was.
pub proof fn law_other_assets_untouched(
    registry: RegistryView,
    other: Seq<u8>,
    caller: Seq<u8>,
    mint: Seq<u8>,
    swap_rate: u64,
    max_native_swap_amount: u64,
)
    requires
        other != mint,
    ensures
        registry.register(caller, mint, swap_rate, max_native_swap_amount).1.record_of(other)
            == registry.record_of(other),
{
    lemma_record_address_injective(other, mint);
}

} // verus!
