//! Properties that hold across calls of the operations.

use crate::address::Address;
use crate::instructions::{
    cancel_order_outcome, create_order_result, execute_order_outcome, location_of,
    order_cancelled, order_evaluated, order_executed, reaches_evaluation, vault_advanced, CancelOrder, CreateOrder, ExecuteOrder,
};
use crate::address::{located_at, vault_location};
use crate::state::{Order, OrderStatus, OrderType, SentinelError, Vault};
use crate::trigger::{observed, order_triggers};
use vstd::prelude::*;

verus! {

/// One request to create an order: the records it was given, the program
/// under which locations are derived, and its trigger price.
pub struct CreateCall {
    pub ctx: CreateOrder,
    pub program_id: Address,
    pub trigger_price: u64,
}

/// Whether the request creates an order.
pub open spec fn call_succeeds(c: CreateCall) -> bool {
    create_order_result(c.ctx, c.program_id@, c.trigger_price) is Ok
}

/// The vault as the request leaves it.
pub open spec fn vault_after(c: CreateCall) -> Vault {
    if call_succeeds(c) {
        vault_advanced(c.ctx.vault)
    } else {
        c.ctx.vault
    }
}

/// The ids of the orders that a run of requests creates, in order.
pub open spec fn created_ids(calls: Seq<CreateCall>) -> Seq<u64>
    decreases calls.len(),
{
    if calls.len() == 0 {
        seq![]
    } else {
        let earlier = created_ids(calls.drop_last());
        if call_succeeds(calls.last()) {
            earlier.push(calls.last().ctx.vault.order_count)
        } else {
            earlier
        }
    }
}

/// Order ids are consecutive: when requests against one new vault are applied
/// one after another, each seeing the vault the previous one left, the orders
/// created get the ids 0, 1, 2, ... with no gap and no repeat, and the vault's
/// counter ends at the number of orders created.
pub proof fn lemma_order_ids_consecutive(calls: Seq<CreateCall>)
    requires
        calls.len() > 0 ==> calls[0].ctx.vault.order_count == 0,
        forall|i: int| 0 <= i < calls.len() - 1 ==> calls[i + 1].ctx.vault == #[trigger] vault_after(calls[i]),
    ensures
        forall|k: int| 0 <= k < created_ids(calls).len() ==> created_ids(calls)[k] == k,
        calls.len() > 0 ==> vault_after(calls.last()).order_count == created_ids(calls).len(),
    decreases calls.len(),
{
    if calls.len() > 0 {
        let earlier = calls.drop_last();
        assert forall|i: int| 0 <= i < earlier.len() - 1 implies earlier[i + 1].ctx.vault == #[trigger] vault_after(earlier[i]) by {
            assert(earlier[i + 1] == calls[i + 1]);
            assert(earlier[i] == calls[i]);
        }
        lemma_order_ids_consecutive(earlier);
        let c = calls.last();
        if earlier.len() > 0 {
            assert(calls[earlier.len() - 1] == earlier.last());
            assert(c.ctx.vault == vault_after(earlier.last()));
        }
        assert(c.ctx.vault.order_count == created_ids(earlier).len());
        let ids = created_ids(calls);
        if call_succeeds(c) {
            assert(c.ctx.vault.order_count != u64::MAX);
            assert(ids == created_ids(earlier).push(c.ctx.vault.order_count));
            assert forall|k: int| 0 <= k < ids.len() implies ids[k] == k by {
                if k < created_ids(earlier).len() {
                    assert(ids[k] == created_ids(earlier)[k]);
                }
            }
        } else {
            assert(ids == created_ids(earlier));
        }
    }
}

/// An executed order stays executed: executing it again fails as not active,
/// whoever asks and at whatever price, and so does its owner's cancellation.
pub proof fn lemma_execute_at_most_once(
    ctx: ExecuteOrder,
    program: Seq<u8>,
    price: u64,
    swap: Result<(), u32>,
    now: i64,
    executor: Address,
    next_price: u64,
    next_swap: Result<(), u32>,
)
    requires
        execute_order_outcome(ctx, location_of(ctx.order, program), price, swap) is Ok,
    ensures
        ({
            let after = order_executed(ctx, price, now);
            &&& after.order.status == OrderStatus::Executed
            &&& execute_order_outcome(
                ExecuteOrder { executor, ..after },
                location_of(after.order, program),
                next_price,
                next_swap,
            ) == Err::<(), SentinelError>(SentinelError::OrderNotActive)
            &&& cancel_order_outcome(
                CancelOrder { owner: after.order.owner, order_address: after.order_address, order: after.order },
                location_of(after.order, program),
            ) == Err::<(), SentinelError>(SentinelError::OrderNotActive)
        }),
{
}

/// A cancelled order stays cancelled: cancelling it again on its owner's
/// request fails as not active, and so does any execution.
pub proof fn lemma_cancel_at_most_once(
    ctx: CancelOrder,
    program: Seq<u8>,
    executor: Address,
    price: u64,
    swap: Result<(), u32>,
)
    requires
        cancel_order_outcome(ctx, location_of(ctx.order, program)) is Ok,
    ensures
        ({
            let after = order_cancelled(ctx);
            &&& after.order.status == OrderStatus::Cancelled
            &&& cancel_order_outcome(after, location_of(after.order, program))
                == Err::<(), SentinelError>(SentinelError::OrderNotActive)
            &&& execute_order_outcome(
                ExecuteOrder { executor, order_address: after.order_address, order: after.order },
                location_of(after.order, program),
                price,
                swap,
            ) == Err::<(), SentinelError>(SentinelError::OrderNotActive)
        }),
{
}

/// Only the owner cancels: a cancellation signed by anyone else fails as
/// unauthorized, whatever the order's status.
pub proof fn lemma_cancel_needs_owner(ctx: CancelOrder, program: Seq<u8>)
    requires
        ctx.owner@ != ctx.order.owner@,
    ensures
        cancel_order_outcome(ctx, location_of(ctx.order, program)) == Err::<(), SentinelError>(SentinelError::Unauthorized),
{
}

/// A zero trigger price never creates an order; once the signer and the vault
/// check out, it fails as an invalid price.
pub proof fn lemma_zero_price_refused(ctx: CreateOrder, program: Seq<u8>)
    ensures
        create_order_result(ctx, program, 0) is Err,
        located_at(vault_location(ctx.owner@, program), ctx.vault_address@, ctx.vault.bump)
            && ctx.vault.owner@ == ctx.owner@
            ==> create_order_result(ctx, program, 0) == Err::<(), SentinelError>(SentinelError::InvalidPrice),
{
}

/// A failed swap leaves the order active (its high-water mark holding the
/// price observed), and a later execution at a price that meets its condition,
/// with a swap that succeeds, executes it.
pub proof fn lemma_swap_failure_retryable(
    ctx: ExecuteOrder,
    program: Seq<u8>,
    price: u64,
    code: u32,
    next_price: u64,
)
    requires
        execute_order_outcome(ctx, location_of(ctx.order, program), price, Err(code))
            == Err::<(), SentinelError>(SentinelError::SwapFailed(code)),
        order_triggers(observed(ctx.order, price), next_price),
    ensures
        ({
            let after = order_evaluated(ctx, price);
            &&& reaches_evaluation(ctx, location_of(ctx.order, program))
            &&& after.order.status == OrderStatus::Active
            &&& execute_order_outcome(after, location_of(after.order, program), next_price, Ok(())) is Ok
        }),
{
}

/// A trailing stop can fire: once an execution at `high` was refused after
/// evaluating the order, an execution at `high` less the trailing offset, with
/// a swap that succeeds, executes it.
pub proof fn lemma_trailing_stop_fires(
    ctx: ExecuteOrder,
    program: Seq<u8>,
    high: u64,
    swap: Result<(), u32>,
)
    requires
        ctx.order.order_type == OrderType::TrailingStop,
        ctx.order.trigger_price <= high,
        reaches_evaluation(ctx, location_of(ctx.order, program)),
        execute_order_outcome(ctx, location_of(ctx.order, program), high, swap) is Err,
    ensures
        ({
            let after = order_evaluated(ctx, high);
            &&& after.order.high_water_mark >= high
            &&& execute_order_outcome(
                after,
                location_of(after.order, program),
                (high - ctx.order.trigger_price) as u64,
                Ok(()),
            ) is Ok
        }),
{
}

/// An order that is no longer active, at its derived location, is refused as
/// not active: by any execution, at any price, and by its owner's cancellation.
pub proof fn lemma_inactive_refused(
    order_address: Address,
    order: Order,
    program: Seq<u8>,
    executor: Address,
    price: u64,
    swap: Result<(), u32>,
)
    requires
        order.status != OrderStatus::Active,
        located_at(location_of(order, program), order_address@, order.bump),
    ensures
        execute_order_outcome(ExecuteOrder { executor, order_address, order }, location_of(order, program), price, swap)
            == Err::<(), SentinelError>(SentinelError::OrderNotActive),
        cancel_order_outcome(CancelOrder { owner: order.owner, order_address, order }, location_of(order, program))
            == Err::<(), SentinelError>(SentinelError::OrderNotActive),
{
}

} // verus!
