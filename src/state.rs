//! The records this engine keeps, and its errors.

use crate::address::Address;
use vstd::prelude::*;

verus! {

/// The condition under which an order may execute.
#[derive(Clone, Copy, Debug, PartialEq, Eq, Structural)]
pub enum OrderType {
    /// Executes once the price falls to the trigger price or below.
    StopLoss,
    /// Executes once the price rises to the trigger price or above.
    TakeProfit,
    /// Executes once the price falls by the trigger price (the trailing
    /// offset) or more below the highest price observed since creation.
    TrailingStop,
}

/// Where an order stands in its lifecycle. Every status but `Active` is final.
#[derive(Clone, Copy, Debug, PartialEq, Eq, Structural)]
pub enum OrderStatus {
    Active,
    Executed,
    Cancelled,
    Expired,
}

/// Why an operation was refused. A refused operation changes nothing.
#[derive(Clone, Copy, Debug, PartialEq, Eq, Structural)]
pub enum SentinelError {
    /// The location a record is to be created at is already occupied.
    AlreadyExists,
    /// The operation needs an active order.
    OrderNotActive,
    /// The order's condition does not hold at the given price.
    TriggerNotMet,
    /// The signer does not own the record, or a record is not at the location
    /// derived for it.
    Unauthorized,
    /// A trigger price of zero.
    InvalidPrice,
    /// The vault's order counter is exhausted.
    Overflow,
    /// The swap that carries out an order failed, with the swap's error code.
    SwapFailed(u32),
}

/// One owner's vault: its identity and the counter that numbers its orders.
#[derive(Clone, Copy, Debug)]
pub struct Vault {
    /// Owner of this vault.
    pub owner: Address,
    /// Bump seed of the vault's derived location.
    pub bump: u8,
    /// Number of orders created so far; the next order's id.
    pub order_count: u64,
    /// Unix timestamp of creation.
    pub created_at: i64,
}

/// One conditional order.
#[derive(Clone, Copy, Debug)]
pub struct Order {
    /// Location of the parent vault.
    pub vault: Address,
    /// Owner of the order, the vault's owner.
    pub owner: Address,
    /// Id of the order within its vault.
    pub order_id: u64,
    /// Condition under which the order executes.
    pub order_type: OrderType,
    /// Price at which the order triggers; for a trailing stop, the offset
    /// below the high-water mark.
    pub trigger_price: u64,
    /// Amount of tokens to swap.
    pub amount: u64,
    /// Mint of the token to swap.
    pub token_mint: Address,
    /// Current status.
    pub status: OrderStatus,
    /// Unix timestamp of creation.
    pub created_at: i64,
    /// Unix timestamp of execution, once executed.
    pub executed_at: Option<i64>,
    /// Bump seed of the order's derived location.
    pub bump: u8,
    /// Highest reference price observed by evaluation since creation.
    pub high_water_mark: u64,
}

} // verus!
