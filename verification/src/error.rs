//! The errors that the library reports.
use crate::word::U256;
use vstd::prelude::*;

verus! {

/// What went wrong in an operation of the library.
#[derive(Debug)]
pub enum SynapseError {
    /// The transport to the chain failed. The caller may try again.
    ProviderError(String),
    /// A contract call returned an error or malformed data.
    ContractError(String),
    /// Signing failed or the key is malformed.
    WalletError(String),
    /// A check before submission found too little balance.
    InsufficientBalance { required: U256, available: U256 },
    /// The account is not a registered agent.
    AgentNotRegistered,
    /// No service has the identifier given.
    ServiceNotFound(String),
    /// No channel of that identifier is known locally.
    ChannelNotFound,
    /// The channel is not open, as the operation needs it to be.
    ChannelNotOpen,
    /// A signature does not recover to the address expected.
    InvalidSignature,
    /// A nonce, conservation or range check on a state failed.
    InvalidStateTransition,
    /// A transaction was submitted but reverted, timed out or has no receipt.
    TransactionFailed(String),
    /// The configuration is malformed.
    ConfigError(String),
}

impl SynapseError {
    /// Whether trying again may help: so it is for a failure of the
    /// transport, and for no other error.
    pub fn retryable(&self) -> (r: bool)
        ensures
            r == (self is ProviderError),
    {
        match self {
            SynapseError::ProviderError(_) => true,
            _ => false,
        }
    }
}

/// The result of an operation of the library.
pub type Result<T> = std::result::Result<T, SynapseError>;

} // verus!
