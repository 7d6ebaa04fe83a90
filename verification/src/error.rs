//! Why a registry operation was refused.

use vstd::prelude::*;

verus! {

/// The three kinds of refusal.
#[derive(Clone, Copy, Debug, PartialEq, Eq, Structural)]
pub enum ErrorKind {
    /// The caller is not the recorded owner.
    AuthorizationError,
    /// The target record is already registered.
    StateConflict,
    /// An argument breaks a rule of the registry.
    ValidationError,
}

/// The refusals of the registration operation.
#[derive(Clone, Copy, Debug, PartialEq, Eq, Structural)]
pub enum TokenBridgeRelayerError {
    /// The caller is not the owner that the configuration records.
    OwnerOnly,
    /// The asset already has a registered record.
    TokenAlreadyRegistered,
    /// The swap rate is zero.
    ZeroSwapRate,
    /// A nonzero maximum native swap amount was given for the native asset.
    SwapsNotAllowedForNativeMint,
}

impl TokenBridgeRelayerError {
    /// The kind that this refusal belongs to.
    pub open spec fn spec_kind(&self) -> ErrorKind {
        match *self {
            TokenBridgeRelayerError::OwnerOnly => ErrorKind::AuthorizationError,
            TokenBridgeRelayerError::TokenAlreadyRegistered => ErrorKind::StateConflict,
            TokenBridgeRelayerError::ZeroSwapRate => ErrorKind::ValidationError,
            TokenBridgeRelayerError::SwapsNotAllowedForNativeMint => ErrorKind::ValidationError,
        }
    }

    /// The text that describes this refusal.
    pub open spec fn spec_message(&self) -> Seq<char> {
        match *self {
            TokenBridgeRelayerError::OwnerOnly => "caller is not the owner"@,
            TokenBridgeRelayerError::TokenAlreadyRegistered => "already registered"@,
            TokenBridgeRelayerError::ZeroSwapRate => "zero swap rate"@,
            TokenBridgeRelayerError::SwapsNotAllowedForNativeMint => "swaps not allowed for native asset"@,
        }
    }

    /// The kind that this refusal belongs to.
    #[verifier::when_used_as_spec(spec_kind)]
    pub fn kind(&self) -> (kind: ErrorKind)
        ensures
            kind == self.spec_kind(),
    {
        match self {
            TokenBridgeRelayerError::OwnerOnly => ErrorKind::AuthorizationError,
            TokenBridgeRelayerError::TokenAlreadyRegistered => ErrorKind::StateConflict,
            TokenBridgeRelayerError::ZeroSwapRate => ErrorKind::ValidationError,
            TokenBridgeRelayerError::SwapsNotAllowedForNativeMint => ErrorKind::ValidationError,
        }
    }

    /// The text that describes this refusal.
    pub fn message(&self) -> (text: &'static str)
        ensures
            text@ == self.spec_message(),
    {
        match self {
            TokenBridgeRelayerError::OwnerOnly => "caller is not the owner",
            TokenBridgeRelayerError::TokenAlreadyRegistered => "already registered",
            TokenBridgeRelayerError::ZeroSwapRate => "zero swap rate",
            TokenBridgeRelayerError::SwapsNotAllowedForNativeMint => "swaps not allowed for native asset",
        }
    }
}

} // verus!
