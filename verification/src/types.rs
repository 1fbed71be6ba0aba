//! The typed records that contract calls are decoded into.
use crate::codec::{Address, H256};
use crate::word::U256;
use vstd::prelude::*;

verus! {

/// Reputation tier of an agent.
#[derive(Debug, Clone, Copy, PartialEq, Eq, Structural)]
pub enum Tier {
    Unverified,
    Bronze,
    Silver,
    Gold,
    Platinum,
    Diamond,
}

/// The tier that a code read from the registry stands for. A code that
/// names no tier reads as `Unverified`.
pub open spec fn tier_of(value: u8) -> Tier {
    if value == 1 {
        Tier::Bronze
    } else if value == 2 {
        Tier::Silver
    } else if value == 3 {
        Tier::Gold
    } else if value == 4 {
        Tier::Platinum
    } else if value == 5 {
        Tier::Diamond
    } else {
        Tier::Unverified
    }
}

impl From<u8> for Tier {
    fn from(value: u8) -> (r: Tier) {
        match value {
            0 => Tier::Unverified,
            1 => Tier::Bronze,
            2 => Tier::Silver,
            3 => Tier::Gold,
            4 => Tier::Platinum,
            5 => Tier::Diamond,
            _ => Tier::Unverified,
        }
    }
}

impl vstd::std_specs::convert::FromSpecImpl<u8> for Tier {
    open spec fn obeys_from_spec() -> bool {
        true
    }

    open spec fn from_spec(value: u8) -> Tier {
        tier_of(value)
    }
}

/// How a service is priced.
#[derive(Debug, Clone, Copy, PartialEq, Eq, Structural)]
pub enum PricingModel {
    PerRequest,
    PerToken,
    PerSecond,
    PerByte,
    Subscription,
    Custom,
}

/// The pricing model that a code read from the registry stands for. A code
/// that names no model reads as `Custom`.
pub open spec fn pricing_model_of(value: u8) -> PricingModel {
    if value == 0 {
        PricingModel::PerRequest
    } else if value == 1 {
        PricingModel::PerToken
    } else if value == 2 {
        PricingModel::PerSecond
    } else if value == 3 {
        PricingModel::PerByte
    } else if value == 4 {
        PricingModel::Subscription
    } else {
        PricingModel::Custom
    }
}

impl From<u8> for PricingModel {
    fn from(value: u8) -> (r: PricingModel) {
        match value {
            0 => PricingModel::PerRequest,
            1 => PricingModel::PerToken,
            2 => PricingModel::PerSecond,
            3 => PricingModel::PerByte,
            4 => PricingModel::Subscription,
            5 => PricingModel::Custom,
            _ => PricingModel::Custom,
        }
    }
}

impl vstd::std_specs::convert::FromSpecImpl<u8> for PricingModel {
    open spec fn obeys_from_spec() -> bool {
        true
    }

    open spec fn from_spec(value: u8) -> PricingModel {
        pricing_model_of(value)
    }
}

impl PricingModel {
    /// The code under which the registry stores the model.
    pub fn code(&self) -> (r: u8)
        ensures
            r <= 5,
            pricing_model_of(r) == *self,
    {
        match self {
            PricingModel::PerRequest => 0,
            PricingModel::PerToken => 1,
            PricingModel::PerSecond => 2,
            PricingModel::PerByte => 3,
            PricingModel::Subscription => 4,
            PricingModel::Custom => 5,
        }
    }
}

/// Where a channel stands in its lifecycle.
#[derive(Debug, Clone, Copy, PartialEq, Eq, Structural)]
pub enum ChannelStatus {
    /// No channel exists between the two accounts.
    Absent,
    Open,
    Closing,
    Closed,
}

/// The status that a code read from the channel contract stands for. A
/// code that names no status reads as `Absent`.
pub open spec fn channel_status_of(value: u8) -> ChannelStatus {
    if value == 1 {
        ChannelStatus::Open
    } else if value == 2 {
        ChannelStatus::Closing
    } else if value == 3 {
        ChannelStatus::Closed
    } else {
        ChannelStatus::Absent
    }
}

impl From<u8> for ChannelStatus {
    fn from(value: u8) -> (r: ChannelStatus) {
        match value {
            0 => ChannelStatus::Absent,
            1 => ChannelStatus::Open,
            2 => ChannelStatus::Closing,
            3 => ChannelStatus::Closed,
            _ => ChannelStatus::Absent,
        }
    }
}

impl vstd::std_specs::convert::FromSpecImpl<u8> for ChannelStatus {
    open spec fn obeys_from_spec() -> bool {
        true
    }

    open spec fn from_spec(value: u8) -> ChannelStatus {
        channel_status_of(value)
    }
}

impl ChannelStatus {
    /// How far along the lifecycle a status is: `Absent`, `Open`, `Closing`,
    /// `Closed` in this order.
    pub open spec fn rank(self) -> nat {
        match self {
            ChannelStatus::Absent => 0,
            ChannelStatus::Open => 1,
            ChannelStatus::Closing => 2,
            ChannelStatus::Closed => 3,
        }
    }
}

/// The addresses of the five protocol contracts.
#[derive(Debug, Clone, Copy)]
pub struct ContractAddresses {
    pub token: Address,
    pub payment_router: Address,
    pub reputation: Address,
    pub service_registry: Address,
    pub payment_channel: Address,
}

/// The configuration of a client.
#[derive(Debug)]
pub struct Config {
    pub rpc_url: String,
    pub chain_id: u64,
    pub contracts: ContractAddresses,
}

/// What the reputation registry holds of an agent.
#[derive(Debug)]
pub struct AgentInfo {
    pub registered: bool,
    pub name: String,
    pub stake: U256,
    pub reputation_score: U256,
    pub total_transactions: U256,
    pub successful_transactions: U256,
    pub registered_at: U256,
    pub metadata_uri: String,
    pub tier: Tier,
    /// The success rate in hundredths of a percent point, as the registry
    /// returns it.
    pub success_rate_hundredths: u64,
}

/// What the service registry holds of a service.
#[derive(Debug)]
pub struct ServiceInfo {
    pub provider: Address,
    pub name: String,
    pub category: String,
    pub description: String,
    pub endpoint: String,
    pub base_price: U256,
    pub pricing_model: PricingModel,
    pub active: bool,
    pub total_requests: U256,
    pub total_revenue: U256,
    pub created_at: U256,
}

/// The on-chain record of a channel.
#[derive(Debug, Clone, Copy)]
pub struct ChannelInfo {
    pub participant1: Address,
    pub participant2: Address,
    pub balance1: U256,
    pub balance2: U256,
    pub nonce: U256,
    pub status: ChannelStatus,
    pub challenge_end: U256,
}

/// The outcome of a payment.
#[derive(Debug, Clone, Copy)]
pub struct PaymentResult {
    pub tx_hash: H256,
    pub payment_id: H256,
    pub amount: U256,
    pub fee: U256,
}

/// A `Payment` event of the payment router.
#[derive(Debug, Clone, Copy)]
pub struct PaymentEvent {
    pub sender: Address,
    pub recipient: Address,
    pub amount: U256,
    pub fee: U256,
    pub payment_id: H256,
}

/// What a receipt says of a transaction: its hash and, where the chain
/// reports one, its status, which is 1 for success and 0 for a revert.
#[derive(Debug, Clone, Copy)]
pub struct Receipt {
    pub tx_hash: H256,
    pub status: Option<u64>,
}

impl Receipt {
    /// Whether the receipt reports that the transaction reverted.
    pub open spec fn reverted(self) -> bool {
        self.status == Some(0u64)
    }

    /// Whether the receipt reports that the transaction reverted.
    pub fn is_reverted(&self) -> (r: bool)
        ensures
            r == self.reverted(),
    {
        match self.status {
            Some(code) => code == 0,
            None => false,
        }
    }
}

/// The outcome of opening a payment stream.
#[derive(Debug, Clone, Copy)]
pub struct StreamResult {
    pub tx_hash: H256,
    pub stream_id: H256,
    pub total_amount: U256,
    pub start_time: U256,
    pub end_time: U256,
}

impl AgentInfo {
    /// The record of an agent, from the fields that the registry returns, the
    /// code of its tier and its success rate in hundredths.
    pub fn from_parts(
        registered: bool,
        name: String,
        stake: U256,
        reputation_score: U256,
        total_transactions: U256,
        successful_transactions: U256,
        registered_at: U256,
        metadata_uri: String,
        tier: u8,
        success_rate: U256,
    ) -> (r: AgentInfo)
        requires
            success_rate@ <= u64::MAX,
        ensures
            r.registered == registered,
            r.name == name,
            r.stake == stake,
            r.reputation_score == reputation_score,
            r.total_transactions == total_transactions,
            r.successful_transactions == successful_transactions,
            r.registered_at == registered_at,
            r.metadata_uri == metadata_uri,
            r.tier == tier_of(tier),
            r.success_rate_hundredths == success_rate@,
    {
        let rate: u64 = match success_rate.to_u64() {
            Some(v) => v,
            None => 0,
        };
        AgentInfo {
            registered,
            name,
            stake,
            reputation_score,
            total_transactions,
            successful_transactions,
            registered_at,
            metadata_uri,
            tier: Tier::from(tier),
            success_rate_hundredths: rate,
        }
    }
}

impl ServiceInfo {
    /// The record of a service, from the fields that the registry returns and
    /// the code of its pricing model.
    pub fn from_parts(
        provider: Address,
        name: String,
        category: String,
        description: String,
        endpoint: String,
        base_price: U256,
        pricing_model: u8,
        active: bool,
        total_requests: U256,
        total_revenue: U256,
        created_at: U256,
    ) -> (r: ServiceInfo)
        ensures
            r.provider == provider,
            r.name == name,
            r.category == category,
            r.description == description,
            r.endpoint == endpoint,
            r.base_price == base_price,
            r.pricing_model == pricing_model_of(pricing_model),
            r.active == active,
            r.total_requests == total_requests,
            r.total_revenue == total_revenue,
            r.created_at == created_at,
    {
        ServiceInfo {
            provider,
            name,
            category,
            description,
            endpoint,
            base_price,
            pricing_model: PricingModel::from(pricing_model),
            active,
            total_requests,
            total_revenue,
            created_at,
        }
    }
}

impl ChannelInfo {
    /// The record of a channel, from the fields that the contract returns and
    /// the code of its status.
    pub fn from_parts(
        participant1: Address,
        participant2: Address,
        balance1: U256,
        balance2: U256,
        nonce: U256,
        status: u8,
        challenge_end: U256,
    ) -> (r: ChannelInfo)
        ensures
            r.participant1 == participant1,
            r.participant2 == participant2,
            r.balance1 == balance1,
            r.balance2 == balance2,
            r.nonce == nonce,
            r.status == channel_status_of(status),
            r.challenge_end == challenge_end,
    {
        ChannelInfo {
            participant1,
            participant2,
            balance1,
            balance2,
            nonce,
            status: ChannelStatus::from(status),
            challenge_end,
        }
    }
}

impl PaymentResult {
    /// The outcome of a payment that went through, with the fee that was
    /// charged on it.
    pub fn new(tx_hash: H256, payment_id: H256, amount: U256, fee: U256) -> (r: PaymentResult)
        ensures
            r.tx_hash == tx_hash,
            r.payment_id == payment_id,
            r.amount == amount,
            r.fee == fee,
    {
        PaymentResult { tx_hash, payment_id, amount, fee }
    }

    /// The outcome of a payment that went through, with the fee that the
    /// events of its receipt give for it.
    pub fn from_events(
        tx_hash: H256,
        payment_id: H256,
        amount: U256,
        events: &[PaymentEvent],
    ) -> (r: PaymentResult)
        ensures
            r.tx_hash == tx_hash,
            r.payment_id == payment_id,
            r.amount == amount,
            r.fee@ == fee_from(events@, payment_id@, 0),
    {
        PaymentResult { tx_hash, payment_id, amount, fee: payment_fee(events, &payment_id) }
    }
}

/// The fee that the events from index `i` on give for a payment: that of the
/// first event of the payment, and zero where there is no event of it.
pub open spec fn fee_from(events: Seq<PaymentEvent>, payment_id: Seq<u8>, i: int) -> nat
    decreases events.len() - i,
{
    if i < 0 || i >= events.len() {
        0
    } else if events[i].payment_id@ == payment_id {
        events[i].fee@
    } else {
        fee_from(events, payment_id, i + 1)
    }
}

/// The fee that the events of a receipt give for a payment.
pub fn payment_fee(events: &[PaymentEvent], payment_id: &H256) -> (r: U256)
    ensures
        r@ == fee_from(events@, payment_id@, 0),
{
    let mut i: usize = 0;
    while i < events.len()
        invariant
            i <= events@.len(),
            fee_from(events@, payment_id@, 0) == fee_from(events@, payment_id@, i as int),
        decreases events@.len() - i,
    {
        if events[i].payment_id == *payment_id {
            return events[i].fee;
        }
        i += 1;
    }
    U256::zero()
}

impl StreamResult {
    /// The outcome of a stream that was opened.
    pub fn new(
        tx_hash: H256,
        stream_id: H256,
        total_amount: U256,
        start_time: U256,
        end_time: U256,
    ) -> (r: StreamResult)
        ensures
            r.tx_hash == tx_hash,
            r.stream_id == stream_id,
            r.total_amount == total_amount,
            r.start_time == start_time,
            r.end_time == end_time,
    {
        StreamResult { tx_hash, stream_id, total_amount, start_time, end_time }
    }
}

} // verus!
