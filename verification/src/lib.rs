//! Client-side core of a bilateral payment-channel protocol: canonical state
//! encoding, signatures over state digests, and the per-channel state machine.
pub mod channel;
pub mod client;
pub mod codec;
pub mod error;
pub mod signer;
pub mod state;
pub mod text;
pub mod types;
pub mod word;

pub use crate::channel::{Acceptance, Channel, CloseRequest, CloseStep, WatchAction};
pub use crate::client::SynapseClient;
pub use crate::codec::{Address, H256};
pub use crate::error::{Result, SynapseError};
pub use crate::signer::Signer;
pub use crate::state::{ChannelState, Proposal, SignedState};
pub use crate::types::{
    AgentInfo, ChannelInfo, ChannelStatus, Config, ContractAddresses, PaymentEvent, PaymentResult,
    PricingModel, Receipt, ServiceInfo, StreamResult, Tier,
};
pub use crate::word::U256;
