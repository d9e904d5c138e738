//! Metered services: data streams, AI agents and storage, each paid for
//! with a fee that shrinks as the user holds more tokens.

use crate::pubkey::Pubkey;
use vstd::prelude::*;

verus! {

/// Holdings from which a user pays nine tenths of a fee.
pub const TIER1_TOKENS: u64 = 1_000;

/// Holdings from which a user pays seven tenths of a fee.
pub const TIER2_TOKENS: u64 = 10_000;

/// Holdings from which a user pays half of a fee.
pub const TIER3_TOKENS: u64 = 100_000;

/// Fee for one stream, before any discount.
pub const BASE_STREAM_FEE: u64 = 100;

/// Fee for the deployment of one AI agent, before any discount.
pub const BASE_AI_FEE: u64 = 500;

/// Fee for one unit of storage, before any discount.
pub const BASE_STORAGE_FEE: u64 = 50;

#[derive(Clone, Copy, Debug, PartialEq, Eq, Structural)]
pub enum UtilityError {
    InvalidServiceConfig,
    StreamLimitExceeded,
    AgentLimitExceeded,
    StorageLimitExceeded,
    InsufficientTokens,
    /// A counter or a fee does not fit in 64 bits.
    Overflow,
}

impl UtilityError {
    /// The text that goes with the error.
    pub open spec fn text(self) -> Seq<char> {
        match self {
            UtilityError::InvalidServiceConfig => "Invalid service configuration"@,
            UtilityError::StreamLimitExceeded => "Stream limit exceeded"@,
            UtilityError::AgentLimitExceeded => "Agent limit exceeded"@,
            UtilityError::StorageLimitExceeded => "Storage limit exceeded"@,
            UtilityError::InsufficientTokens => "Insufficient tokens"@,
            UtilityError::Overflow => "Math overflow"@,
        }
    }

    /// The text that goes with the error.
    pub fn message(&self) -> (s: &'static str)
        ensures
            s@ == self.text(),
    {
        match self {
            UtilityError::InvalidServiceConfig => "Invalid service configuration",
            UtilityError::StreamLimitExceeded => "Stream limit exceeded",
            UtilityError::AgentLimitExceeded => "Agent limit exceeded",
            UtilityError::StorageLimitExceeded => "Storage limit exceeded",
            UtilityError::InsufficientTokens => "Insufficient tokens",
            UtilityError::Overflow => "Math overflow",
        }
    }
}

#[derive(Clone, Copy, Debug, PartialEq, Eq, Structural)]
pub enum StreamType {
    Financial,
    Analytics,
    Custom,
}

#[derive(Clone, Copy, Debug, PartialEq, Eq, Structural)]
pub enum AgentType {
    Pattern,
    Prediction,
    Anomaly,
    Custom,
}

#[derive(Clone, Copy, Debug, PartialEq, Eq, Structural)]
pub enum DataType {
    Raw,
    Processed,
    Model,
    Custom,
}

#[derive(Clone, Copy, Debug, PartialEq, Eq, Structural)]
pub struct ServiceConfig {
    pub max_streams_per_user: u64,
    pub max_agents_per_user: u64,
    pub max_storage_per_user: u64,
}

#[derive(Clone, Copy, Debug, PartialEq, Eq, Structural)]
pub struct StreamConfig {
    pub stream_type: StreamType,
    pub data_rate: u64,
    pub retention_period: i64,
}

#[derive(Clone, Debug, PartialEq, Eq)]
pub struct AgentConfig {
    pub agent_type: AgentType,
    pub model: String,
    pub parameters: Vec<u8>,
}

#[derive(Clone, Copy, Debug, PartialEq, Eq, Structural)]
pub struct DataConfig {
    pub data_type: DataType,
    pub encryption: bool,
    pub compression: bool,
}

#[derive(Clone, Copy, Debug, PartialEq, Eq)]
pub struct ServiceState {
    pub authority: Pubkey,
    pub config: ServiceConfig,
    pub total_streams: u64,
    pub total_agents: u64,
    pub total_storage: u64,
}

#[derive(Clone, Copy, Debug, PartialEq, Eq)]
pub struct StreamAccount {
    pub owner: Pubkey,
    pub config: StreamConfig,
    pub created_at: i64,
    pub active: bool,
}

#[derive(Clone, Debug, PartialEq, Eq)]
pub struct AgentAccount {
    pub owner: Pubkey,
    pub config: AgentConfig,
    pub deployed_at: i64,
    pub active: bool,
}

#[derive(Clone, Copy, Debug, PartialEq, Eq)]
pub struct StorageAccount {
    pub owner: Pubkey,
    pub size: u64,
    pub config: DataConfig,
    pub stored_at: i64,
}

/// What a user who holds `tokens` pays of a fee of `base`: half of it from
/// the third tier on, seven tenths from the second, nine tenths from the
/// first, each rounded down, and all of it below.
pub open spec fn discounted_fee(tokens: u64, base: int) -> int {
    if tokens >= TIER3_TOKENS {
        base / 2
    } else if tokens >= TIER2_TOKENS {
        base * 7 / 10
    } else if tokens >= TIER1_TOKENS {
        base * 9 / 10
    } else {
        base
    }
}

/// A discount never raises a fee, and more tokens never make it dearer.
pub proof fn lemma_discount(tokens: u64, more_tokens: u64, base: int)
    requires
        0 <= base,
        tokens <= more_tokens,
    ensures
        0 <= discounted_fee(more_tokens, base) <= discounted_fee(tokens, base) <= base,
{
}

fn discount(tokens: u64, base: u64) -> (fee: u64)
    ensures
        fee == discounted_fee(tokens, base as int),
{
    let wide: u128 = base as u128;
    if tokens >= TIER3_TOKENS {
        base / 2
    } else if tokens >= TIER2_TOKENS {
        (wide * 7 / 10) as u64
    } else if tokens >= TIER1_TOKENS {
        (wide * 9 / 10) as u64
    } else {
        base
    }
}

/// The fee for a stream, for a user who holds `tokens`.
pub fn calculate_stream_fee(tokens: u64, base_fee: u64) -> (fee: u64)
    ensures
        fee == discounted_fee(tokens, base_fee as int),
{
    discount(tokens, base_fee)
}

/// The fee for the deployment of an AI agent, for a user who holds `tokens`.
pub fn calculate_ai_fee(tokens: u64, base_fee: u64) -> (fee: u64)
    ensures
        fee == discounted_fee(tokens, base_fee as int),
{
    discount(tokens, base_fee)
}

/// The fee for `size` units of storage, for a user who holds `tokens`. The
/// fee before the discount must fit in 64 bits.
pub fn calculate_storage_fee(tokens: u64, base_fee: u64, size: u64) -> (fee: u64)
    requires
        base_fee * size <= u64::MAX,
    ensures
        fee == discounted_fee(tokens, base_fee * size),
{
    discount(tokens, base_fee * size)
}

/// A service without streams, agents or stored data.
pub fn initialize_service(authority: Pubkey, config: ServiceConfig) -> (service: ServiceState)
    ensures
        service.authority == authority,
        service.config == config,
        service.total_streams == 0,
        service.total_agents == 0,
        service.total_storage == 0,
{
    ServiceState { authority, config, total_streams: 0, total_agents: 0, total_storage: 0 }
}

/// Opens a stream for `owner`, who holds `user_tokens`, and counts it. The
/// result holds the stream and the fee, which the caller moves from the
/// owner to the fee account. It fails only where the count of streams is
/// full.
pub fn create_stream(
    service: &mut ServiceState,
    owner: Pubkey,
    user_tokens: u64,
    stream_config: StreamConfig,
    now: i64,
) -> (r: Result<(StreamAccount, u64), UtilityError>)
    ensures
        match r {
            Ok((stream, fee)) => {
                &&& old(service).total_streams < u64::MAX
                &&& fee == discounted_fee(user_tokens, BASE_STREAM_FEE as int)
                &&& stream.owner == owner
                &&& stream.config == stream_config
                &&& stream.created_at == now
                &&& stream.active
                &&& *final(service) == (ServiceState {
                    total_streams: (old(service).total_streams + 1) as u64,
                    ..*old(service)
                })
            },
            Err(e) => {
                &&& e == UtilityError::Overflow
                &&& old(service).total_streams == u64::MAX
                &&& *final(service) == *old(service)
            },
        },
{
    let total_streams = match service.total_streams.checked_add(1) {
        Some(n) => n,
        None => {
            return Err(UtilityError::Overflow);
        },
    };
    let fee = calculate_stream_fee(user_tokens, BASE_STREAM_FEE);
    service.total_streams = total_streams;
    Ok((StreamAccount { owner, config: stream_config, created_at: now, active: true }, fee))
}

/// Deploys an AI agent for `owner`, who holds `user_tokens`, and counts it.
/// The result holds the agent and the fee, which the caller moves from the
/// owner to the fee account. It fails only where the count of agents is
/// full.
pub fn deploy_ai_agent(
    service: &mut ServiceState,
    owner: Pubkey,
    user_tokens: u64,
    agent_config: AgentConfig,
    now: i64,
) -> (r: Result<(AgentAccount, u64), UtilityError>)
    ensures
        match r {
            Ok((agent, fee)) => {
                &&& old(service).total_agents < u64::MAX
                &&& fee == discounted_fee(user_tokens, BASE_AI_FEE as int)
                &&& agent.owner == owner
                &&& agent.config == agent_config
                &&& agent.deployed_at == now
                &&& agent.active
                &&& *final(service) == (ServiceState {
                    total_agents: (old(service).total_agents + 1) as u64,
                    ..*old(service)
                })
            },
            Err(e) => {
                &&& e == UtilityError::Overflow
                &&& old(service).total_agents == u64::MAX
                &&& *final(service) == *old(service)
            },
        },
{
    let total_agents = match service.total_agents.checked_add(1) {
        Some(n) => n,
        None => {
            return Err(UtilityError::Overflow);
        },
    };
    let fee = calculate_ai_fee(user_tokens, BASE_AI_FEE);
    service.total_agents = total_agents;
    Ok((AgentAccount { owner, config: agent_config, deployed_at: now, active: true }, fee))
}

impl ServiceState {
    /// Whether `size` more units can be stored: their fee before the
    /// discount and the new total both fit in 64 bits.
    pub open spec fn can_store(self, size: u64) -> bool {
        &&& BASE_STORAGE_FEE * size <= u64::MAX
        &&& self.total_storage + size <= u64::MAX
    }
}

/// Stores `size` units of data for `owner`, who holds `user_tokens`, and
/// adds them to the total. The result holds the record of the data and the
/// fee, which the caller moves from the owner to the fee account.
pub fn store_data(
    service: &mut ServiceState,
    owner: Pubkey,
    user_tokens: u64,
    size: u64,
    data_config: DataConfig,
    now: i64,
) -> (r: Result<(StorageAccount, u64), UtilityError>)
    ensures
        match r {
            Ok((storage, fee)) => {
                &&& old(service).can_store(size)
                &&& fee == discounted_fee(user_tokens, BASE_STORAGE_FEE * size)
                &&& storage.owner == owner
                &&& storage.size == size
                &&& storage.config == data_config
                &&& storage.stored_at == now
                &&& *final(service) == (ServiceState {
                    total_storage: (old(service).total_storage + size) as u64,
                    ..*old(service)
                })
            },
            Err(e) => {
                &&& e == UtilityError::Overflow
                &&& !old(service).can_store(size)
                &&& *final(service) == *old(service)
            },
        },
{
    if size > u64::MAX / BASE_STORAGE_FEE {
        return Err(UtilityError::Overflow);
    }
    let total_storage = match service.total_storage.checked_add(size) {
        Some(n) => n,
        None => {
            return Err(UtilityError::Overflow);
        },
    };
    let fee = calculate_storage_fee(user_tokens, BASE_STORAGE_FEE, size);
    service.total_storage = total_storage;
    Ok((StorageAccount { owner, size, config: data_config, stored_at: now }, fee))
}

} // verus!
