//! The token registry of a cross-chain bridging relayer: one record per asset,
//! written once by the owner and read when relay fees and swap amounts are
//! computed.

pub mod address;
pub mod bytes;
pub mod error;
pub mod laws;
pub mod processor;
pub mod pubkey;
pub mod registry;
pub mod state;

pub use error::{ErrorKind, TokenBridgeRelayerError};
pub use processor::{register_token, RegisterToken};
pub use pubkey::Pubkey;
pub use state::{RegisteredToken, SenderConfig};
