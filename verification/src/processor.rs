//! The registration operation on one record.

use vstd::prelude::*;
use crate::error::TokenBridgeRelayerError;
use crate::pubkey::{is_native_mint, Pubkey};
use crate::state::{RegisteredToken, SenderConfig};

verus! {

/// What one registration works on: the caller, the configuration, the asset
/// and the record kept for that asset.
#[derive(Clone, Copy, Debug)]
pub struct RegisterToken {
    /// The caller. Only the owner recorded in `config` may register.
    pub owner: Pubkey,
    /// The configuration of the relayer. Read only.
    pub config: SenderConfig,
    /// The record of `mint`: as stored, or unregistered where none is stored.
    pub registered_token: RegisteredToken,
    /// The asset to register.
    pub mint: Pubkey,
}

/// The first rule that a registration breaks, if it breaks one. The rules are
/// taken in order: the caller is the owner; the record is not yet registered;
/// the swap rate is positive; the native asset gets no native swap amount.
pub open spec fn registration_refusal(
    caller: Seq<u8>,
    owner: Seq<u8>,
    record: RegisteredToken,
    mint: Seq<u8>,
    swap_rate: u64,
    max_native_swap_amount: u64,
) -> Option<TokenBridgeRelayerError> {
    if caller != owner {
        Some(TokenBridgeRelayerError::OwnerOnly)
    } else if record.is_registered {
        Some(TokenBridgeRelayerError::TokenAlreadyRegistered)
    } else if swap_rate == 0 {
        Some(TokenBridgeRelayerError::ZeroSwapRate)
    } else if is_native_mint(mint) && max_native_swap_amount != 0 {
        Some(TokenBridgeRelayerError::SwapsNotAllowedForNativeMint)
    } else {
        None
    }
}

impl RegisterToken {
    /// The first rule that registering with these parameters breaks here.
    pub open spec fn refusal(&self, swap_rate: u64, max_native_swap_amount: u64) -> Option<
        TokenBridgeRelayerError,
    > {
        registration_refusal(
            self.owner@,
            self.config.owner@,
            self.registered_token,
            self.mint@,
            swap_rate,
            max_native_swap_amount,
        )
    }
}

/// Registers the asset `ctx.mint` with the given parameters.
///
/// Where a rule is broken, the first broken rule is returned and nothing is
/// changed. Otherwise the record becomes exactly the given parameters, marked
/// as registered, and nothing else is changed. So a registered record is
/// never written again, and a record that is valid for its asset stays so.
pub fn register_token(ctx: &mut RegisterToken, swap_rate: u64, max_native_swap_amount: u64) -> (res:
    Result<(), TokenBridgeRelayerError>)
    ensures
        match old(ctx).refusal(swap_rate, max_native_swap_amount) {
            Some(e) => res == Err::<(), TokenBridgeRelayerError>(e) && *final(ctx) == *old(ctx),
            None => res == Ok::<(), TokenBridgeRelayerError>(()) && *final(ctx) == (RegisterToken {
                registered_token: RegisteredToken {
                    swap_rate,
                    max_native_swap_amount,
                    is_registered: true,
                },
                ..*old(ctx)
            }),
        },
        old(ctx).registered_token.is_registered ==> final(ctx).registered_token
            == old(ctx).registered_token,
        old(ctx).registered_token.is_valid_for(old(ctx).mint@)
            ==> final(ctx).registered_token.is_valid_for(final(ctx).mint@),
{
    ctx.config.check_owner(&ctx.owner)?;
    if ctx.registered_token.is_registered {
        return Err(TokenBridgeRelayerError::TokenAlreadyRegistered);
    }
    if swap_rate == 0 {
        return Err(TokenBridgeRelayerError::ZeroSwapRate);
    }
    if ctx.mint.is_native_mint() && max_native_swap_amount != 0 {
        return Err(TokenBridgeRelayerError::SwapsNotAllowedForNativeMint);
    }
    ctx.registered_token = RegisteredToken { swap_rate, max_native_swap_amount, is_registered: true };
    Ok(())
}

} // verus!
