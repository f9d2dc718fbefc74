//! Whether an order's condition holds at a reference price.

use crate::state::{Order, OrderType};
use vstd::prelude::*;

verus! {

/// The high-water mark after observing `price`.
pub open spec fn observed_high(high_water_mark: u64, price: u64) -> u64 {
    if price > high_water_mark {
        price
    } else {
        high_water_mark
    }
}

/// Whether an order of `order_type` with `trigger_price` executes at `price`,
/// `high` being the high-water mark including `price`.
pub open spec fn trigger_satisfied(order_type: OrderType, trigger_price: u64, high: u64, price: u64) -> bool {
    match order_type {
        OrderType::StopLoss => price <= trigger_price,
        OrderType::TakeProfit => price >= trigger_price,
        OrderType::TrailingStop => price <= high - trigger_price,
    }
}

/// Whether `order` executes at `price`, its high-water mark updated by `price`.
pub open spec fn order_triggers(order: Order, price: u64) -> bool {
    trigger_satisfied(order.order_type, order.trigger_price, observed_high(order.high_water_mark, price), price)
}

/// `order` after an evaluation at `price`: a trailing stop takes `price` into
/// its high-water mark; any other order is left as it is.
pub open spec fn observed(order: Order, price: u64) -> Order {
    if order.order_type == OrderType::TrailingStop {
        Order { high_water_mark: observed_high(order.high_water_mark, price), ..order }
    } else {
        order
    }
}

/// Decides whether the condition of an order of `order_type` holds at `price`.
pub fn condition_holds(order_type: OrderType, trigger_price: u64, high: u64, price: u64) -> (r: bool)
    ensures
        r == trigger_satisfied(order_type, trigger_price, high, price),
{
    match order_type {
        OrderType::StopLoss => price <= trigger_price,
        OrderType::TakeProfit => price >= trigger_price,
        OrderType::TrailingStop => high >= trigger_price && price <= high - trigger_price,
    }
}

/// Evaluates `order` at the reference price `price` and says whether the
/// order's condition holds. A trailing stop records the price in its
/// high-water mark, whatever the outcome; any other order is not changed.
pub fn evaluate(order: &mut Order, price: u64) -> (r: bool)
    ensures
        *final(order) == observed(*old(order), price),
        old(order).order_type != OrderType::TrailingStop ==> *final(order) == *old(order),
        r == order_triggers(*old(order), price),
{
    let high: u64 = if price > order.high_water_mark {
        price
    } else {
        order.high_water_mark
    };
    if order.order_type == OrderType::TrailingStop {
        order.high_water_mark = high;
    }
    condition_holds(order.order_type, order.trigger_price, high, price)
}

} // verus!
