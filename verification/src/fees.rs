//! Fee policy and transaction descriptors.
//!
//! The benchmark sends zero-value self transfers; what varies is the
//! fee parameterization: a boosted legacy gas price, or EIP-1559 fee
//! caps derived from it.  The signing and encoding of the descriptor
//! are the embedding application's.

use vstd::prelude::*;

verus! {

/// One gwei, in wei.
pub const WEI_PER_GWEI: u128 = 1_000_000_000;

/// Gas consumed by a simple value transfer.
pub const SIMPLE_TRANSFER_GAS: u64 = 21000;

/// Fee parameters of a transaction, in wei.
#[derive(Clone, Copy, PartialEq, Eq, Debug, Structural)]
pub enum FeeParams {
    /// A legacy transaction with one gas price.
    Legacy {
        /// The gas price.
        gas_price_wei: u128,
    },
    /// An EIP-1559 transaction with a fee cap and a priority fee.
    Eip1559 {
        /// Cap on the total fee per gas.
        max_fee_per_gas: u128,
        /// Tip per gas for the block producer.
        max_priority_fee_per_gas: u128,
    },
}

/// The gas price the benchmark bids: three times the node's default,
/// so that inclusion latency is not dominated by underbidding; one
/// gwei when the node reports a zero default; saturating if the
/// tripled price does not fit the fee type.
pub open spec fn boosted_gas_price_spec(default_wei: u128) -> u128 {
    if default_wei == 0 {
        WEI_PER_GWEI
    } else if default_wei * 3 <= u128::MAX {
        (default_wei * 3) as u128
    } else {
        u128::MAX
    }
}

/// Boosts the node's default gas price for the benchmark's bids.
pub fn boosted_gas_price(default_wei: u128) -> (r: u128)
    ensures
        r == boosted_gas_price_spec(default_wei),
{
    if default_wei == 0 {
        WEI_PER_GWEI
    } else if default_wei <= u128::MAX / 3 {
        default_wei * 3
    } else {
        u128::MAX
    }
}

/// Legacy fee parameters at the boosted gas price.
pub fn legacy_fees(default_wei: u128) -> (f: FeeParams)
    ensures
        f == (FeeParams::Legacy { gas_price_wei: boosted_gas_price_spec(default_wei) }),
{
    FeeParams::Legacy { gas_price_wei: boosted_gas_price(default_wei) }
}

/// EIP-1559 fee parameters derived from a legacy gas price: the
/// priority fee is fixed at one gwei, and the fee cap is the gas price
/// when that lies above the priority fee, else twice the priority fee
/// so the cap always covers the tip.
pub open spec fn eip1559_fees_spec(gas_price_wei: u128) -> FeeParams {
    FeeParams::Eip1559 {
        max_fee_per_gas: if gas_price_wei > WEI_PER_GWEI {
            gas_price_wei
        } else {
            (2 * WEI_PER_GWEI) as u128
        },
        max_priority_fee_per_gas: WEI_PER_GWEI,
    }
}

/// EIP-1559 fee parameters derived from a legacy gas price.
pub fn eip1559_fees(gas_price_wei: u128) -> (f: FeeParams)
    ensures
        f == eip1559_fees_spec(gas_price_wei),
{
    let max_fee: u128 = if gas_price_wei > WEI_PER_GWEI {
        gas_price_wei
    } else {
        2 * WEI_PER_GWEI
    };
    FeeParams::Eip1559 { max_fee_per_gas: max_fee, max_priority_fee_per_gas: WEI_PER_GWEI }
}

/// Everything the transport needs to build and sign one transaction,
/// as plain values.  Immutable once constructed; the core never
/// mutates a descriptor it was handed.
#[derive(Clone, PartialEq, Eq, Debug)]
pub struct TransactionDescriptor {
    /// Recipient address bytes.
    pub to: Vec<u8>,
    /// Transferred value in wei.
    pub value_wei: u128,
    /// The transaction's nonce.
    pub nonce: u64,
    /// Gas limit.
    pub gas_limit: u64,
    /// Fee parameters.
    pub fees: FeeParams,
    /// Chain identifier.
    pub chain_id: u64,
}

/// The benchmark's transaction: a zero-value transfer from the wallet
/// to itself, with the simple-transfer gas limit and the given fee
/// parameters.
pub fn self_transfer_descriptor(
    address: Vec<u8>,
    nonce: u64,
    chain_id: u64,
    fees: FeeParams,
) -> (t: TransactionDescriptor)
    ensures
        t.to == address,
        t.value_wei == 0,
        t.nonce == nonce,
        t.gas_limit == SIMPLE_TRANSFER_GAS,
        t.fees == fees,
        t.chain_id == chain_id,
{
    TransactionDescriptor {
        to: address,
        value_wei: 0,
        nonce,
        gas_limit: SIMPLE_TRANSFER_GAS,
        fees,
        chain_id,
    }
}

} // verus!
