//! Per-chain configuration: identity, timing, finality margin and direction,
//! and the gas coefficient chosen for a bridge direction.
use vstd::prelude::*;

verus! {

/// The type of EVM chain IDs.
pub type ChainID = u32;

/// The native chain's average block time in seconds.
pub const NATIVE_BLOCK_TIME: u32 = 3u32;

/// Ethereum network's average block time in seconds.
pub const ETHEREUM_BLOCK_TIME: u64 = 12u64;

/// The block range chunk size for getLogs requests.
pub const BOOTSTRAP_BLOCK_CHUNK_SIZE: u64 = 2000;

/// The block offset used to measure the average block time at bootstrap.
pub const BOOTSTRAP_BLOCK_OFFSET: u32 = 100;

/// The bridge direction of an event that names a chain as its destination.
#[derive(Clone, Copy, Debug, PartialEq, Eq, Structural)]
pub enum BridgeDirection {
    /// From an external network to the native network.
    Inbound,
    /// From the native network to an external network.
    Outbound,
}

/// The direction of events whose destination is a chain with this native flag.
pub open spec fn direction_of(is_native: bool) -> BridgeDirection {
    if is_native {
        BridgeDirection::Inbound
    } else {
        BridgeDirection::Outbound
    }
}

/// `a + b`, held at `u64::MAX` when it would exceed it.
pub open spec fn saturating_sum(a: u64, b: u64) -> u64 {
    if a + b > u64::MAX {
        u64::MAX
    } else {
        (a + b) as u64
    }
}

/// The metadata of an EVM chain provider.
pub struct ProviderMetadata {
    pub name: String,
    /// Id of the chain this client interacts with.
    pub id: ChainID,
    /// The total number of confirmations required for a block to be processed
    /// (configured confirmations + eth_getLogs batch size).
    pub block_confirmations: u64,
    /// The batch size used on `eth_getLogs()` requests.
    pub get_logs_batch_size: u64,
    /// The `get_block` request interval in milliseconds.
    pub call_interval: u64,
    /// Bridge direction when a bridge event points to this chain as destination.
    pub if_destination_chain: BridgeDirection,
    /// Whether the chain is the native chain or an external one.
    pub is_native: bool,
}

impl ProviderMetadata {
    /// The finality margin covers the batch width, and the direction follows
    /// the native flag.
    pub open spec fn wf(&self) -> bool {
        &&& self.block_confirmations >= self.get_logs_batch_size
        &&& self.if_destination_chain == direction_of(self.is_native)
    }

    pub fn new(
        name: String,
        id: ChainID,
        block_confirmations: u64,
        call_interval: u64,
        get_logs_batch_size: u64,
        is_native: bool,
    ) -> (r: Self)
        ensures
            r.wf(),
            r.name == name,
            r.id == id,
            r.block_confirmations == saturating_sum(block_confirmations, get_logs_batch_size),
            r.get_logs_batch_size == get_logs_batch_size,
            r.call_interval == call_interval,
            r.is_native == is_native,
            r.if_destination_chain == direction_of(is_native),
    {
        Self {
            name,
            id,
            block_confirmations: block_confirmations.saturating_add(get_logs_batch_size),
            get_logs_batch_size,
            call_interval,
            is_native,
            if_destination_chain: if is_native {
                BridgeDirection::Inbound
            } else {
                BridgeDirection::Outbound
            },
        }
    }
}

/// Coefficients to multiply the estimated gas amount.
#[derive(Clone, Copy, Debug, PartialEq, Eq, Structural)]
pub enum GasCoefficient {
    /// The lowest coefficient. Only used on transaction submissions to external chains.
    Low,
    /// The medium coefficient. Only used on transaction submissions to the native chain.
    Mid,
    /// The high coefficient. Currently not in use.
    High,
}

/// The multiplier of a coefficient in tenths: 1.2, 7.0 and 10.0.
pub open spec fn coefficient_tenths(c: GasCoefficient) -> u64 {
    match c {
        GasCoefficient::Low => 12,
        GasCoefficient::Mid => 70,
        GasCoefficient::High => 100,
    }
}

/// The coefficient for transactions of a direction: `Mid` towards the native
/// chain, `Low` towards an external chain.
pub open spec fn coefficient_spec(direction: BridgeDirection) -> GasCoefficient {
    match direction {
        BridgeDirection::Inbound => GasCoefficient::Mid,
        BridgeDirection::Outbound => GasCoefficient::Low,
    }
}

impl GasCoefficient {
    /// The coefficient applied to gas estimates of transactions in `direction`.
    pub fn coefficient_for(direction: BridgeDirection) -> (r: GasCoefficient)
        ensures
            r == coefficient_spec(direction),
    {
        match direction {
            BridgeDirection::Inbound => GasCoefficient::Mid,
            BridgeDirection::Outbound => GasCoefficient::Low,
        }
    }

    /// The exact multiplier in tenths (12 for 1.2, 70 for 7.0, 100 for 10.0).
    pub fn multiplier_tenths(&self) -> (r: u64)
        ensures
            r == coefficient_tenths(*self),
    {
        match self {
            GasCoefficient::Low => 12,
            GasCoefficient::Mid => 70,
            GasCoefficient::High => 100,
        }
    }
}

/// A chain's finality margin is its confirmation depth plus its batch size
/// whenever that sum fits, and the direction of events destined to it is
/// `Inbound` for the native chain and `Outbound` otherwise.
pub proof fn lemma_finality_margin(depth: u64, batch: u64, is_native: bool)
    ensures
        depth + batch <= u64::MAX ==> saturating_sum(depth, batch) == depth + batch,
        saturating_sum(depth, batch) >= batch,
        saturating_sum(depth, batch) >= depth,
        is_native ==> direction_of(is_native) == BridgeDirection::Inbound,
        !is_native ==> direction_of(is_native) == BridgeDirection::Outbound,
{
}

/// The high coefficient is chosen for no direction.
pub proof fn lemma_high_coefficient_unused(direction: BridgeDirection)
    ensures
        coefficient_spec(direction) != GasCoefficient::High,
{
}

} // verus!
