//! The four operations: creating a vault, creating, executing and cancelling
//! orders. Each takes the records it touches with the identity that signed
//! the request and checks before it changes anything. A refused operation
//! changes nothing, with one exception: an execution of a trailing stop
//! refused after the order was evaluated keeps the observed price in the
//! order's high-water mark, since recording that price is part of every
//! evaluation of a trailing stop.

use crate::address::{
    find_order_location, find_vault_location, is_located_at, located_at, location_view,
    order_location, vault_location, Address,
};
use crate::state::{Order, OrderStatus, OrderType, SentinelError, Vault};
use crate::trigger::{evaluate, observed, order_triggers};
use vstd::prelude::*;

verus! {

/// Records of a vault creation: the signing owner, the location asked for,
/// and the record found there, if any.
#[derive(Clone, Copy, Debug)]
pub struct InitializeVault {
    pub owner: Address,
    pub vault_address: Address,
    pub vault: Option<Vault>,
}

/// Records of an order creation: the signing owner, the owner's vault, the
/// location asked for the new order, and the record found there, if any.
#[derive(Clone, Copy, Debug)]
pub struct CreateOrder {
    pub owner: Address,
    pub vault_address: Address,
    pub vault: Vault,
    pub order_address: Address,
    pub order: Option<Order>,
}

/// Records of an execution: the signing keeper (anyone) and the order.
#[derive(Clone, Copy, Debug)]
pub struct ExecuteOrder {
    pub executor: Address,
    pub order_address: Address,
    pub order: Order,
}

/// Records of a cancellation: the signer and the order.
#[derive(Clone, Copy, Debug)]
pub struct CancelOrder {
    pub owner: Address,
    pub order_address: Address,
    pub order: Order,
}

/// What the swap collaborator is asked to do once an order executes.
#[derive(Clone, Copy, Debug)]
pub struct SwapRequest {
    pub token_mint: Address,
    pub amount: u64,
}

// ---------------------------------------------------------------- vault creation

/// Outcome of creating a vault, `loc` being the owner's derived vault location.
pub open spec fn initialize_vault_outcome(ctx: InitializeVault, loc: Option<(Seq<u8>, u8)>) -> Result<(), SentinelError> {
    match loc {
        None => Err(SentinelError::Unauthorized),
        Some(p) => if p.0 != ctx.vault_address@ {
            Err(SentinelError::Unauthorized)
        } else if ctx.vault is Some {
            Err(SentinelError::AlreadyExists)
        } else {
            Ok(())
        },
    }
}

/// The vault a successful creation stores.
pub open spec fn new_vault(ctx: InitializeVault, bump: u8, now: i64) -> Vault {
    Vault { owner: ctx.owner, bump, order_count: 0, created_at: now }
}

/// Creates the vault of `ctx.owner` at the location derived in `loc`.
pub fn initialize_vault_at(ctx: &mut InitializeVault, loc: &Option<(Address, u8)>, now: i64) -> (r: Result<(), SentinelError>)
    ensures
        r == initialize_vault_outcome(*old(ctx), location_view(*loc)),
        r is Ok ==> *final(ctx) == (InitializeVault {
            vault: Some(new_vault(*old(ctx), loc.unwrap().1, now)),
            ..*old(ctx)
        }),
        r is Err ==> *final(ctx) == *old(ctx),
{
    let bump: u8 = match loc {
        None => return Err(SentinelError::Unauthorized),
        Some(p) => {
            if !p.0.equals(&ctx.vault_address) {
                return Err(SentinelError::Unauthorized);
            }
            p.1
        },
    };
    if ctx.vault.is_some() {
        return Err(SentinelError::AlreadyExists);
    }
    ctx.vault = Some(Vault { owner: ctx.owner, bump, order_count: 0, created_at: now });
    Ok(())
}

/// Creates the vault of `ctx.owner` at its location derived under `program_id`,
/// created at `now`, with no orders.
pub fn initialize_vault(ctx: &mut InitializeVault, program_id: &Address, now: i64) -> (r: Result<(), SentinelError>)
    ensures
        r == initialize_vault_outcome(*old(ctx), vault_location(old(ctx).owner@, program_id@)),
        r is Ok ==> final(ctx).vault == Some(new_vault(*old(ctx), final(ctx).vault.unwrap().bump, now)),
        r is Ok ==> located_at(vault_location(old(ctx).owner@, program_id@), old(ctx).vault_address@, final(ctx).vault.unwrap().bump),
        r is Ok ==> final(ctx).owner == old(ctx).owner && final(ctx).vault_address == old(ctx).vault_address,
        r is Err ==> *final(ctx) == *old(ctx),
{
    let loc = find_vault_location(&ctx.owner, program_id);
    initialize_vault_at(ctx, &loc, now)
}

// ---------------------------------------------------------------- order creation

/// Outcome of creating an order, `vault_loc` being the signer's derived vault
/// location and `order_loc` the derived location of the vault's next order.
pub open spec fn create_order_outcome(
    ctx: CreateOrder,
    vault_loc: Option<(Seq<u8>, u8)>,
    order_loc: Option<(Seq<u8>, u8)>,
    trigger_price: u64,
) -> Result<(), SentinelError> {
    if !located_at(vault_loc, ctx.vault_address@, ctx.vault.bump) || ctx.vault.owner@ != ctx.owner@ {
        Err(SentinelError::Unauthorized)
    } else if trigger_price == 0 {
        Err(SentinelError::InvalidPrice)
    } else if order_loc is None || order_loc.unwrap().0 != ctx.order_address@ {
        Err(SentinelError::Unauthorized)
    } else if ctx.order is Some {
        Err(SentinelError::AlreadyExists)
    } else if ctx.vault.order_count == u64::MAX {
        Err(SentinelError::Overflow)
    } else {
        Ok(())
    }
}

/// The order a successful creation stores: the vault's next id, active, with
/// no price observed yet.
pub open spec fn new_order(
    ctx: CreateOrder,
    order_type: OrderType,
    trigger_price: u64,
    amount: u64,
    token_mint: Address,
    bump: u8,
    now: i64,
) -> Order {
    Order {
        vault: ctx.vault_address,
        owner: ctx.owner,
        order_id: ctx.vault.order_count,
        order_type,
        trigger_price,
        amount,
        token_mint,
        status: OrderStatus::Active,
        created_at: now,
        executed_at: None,
        bump,
        high_water_mark: 0,
    }
}

/// `vault` with its counter advanced by one.
pub open spec fn vault_advanced(vault: Vault) -> Vault {
    Vault { order_count: (vault.order_count + 1) as u64, ..vault }
}

/// The records after a successful creation: the order stored, the counter
/// advanced by one.
pub open spec fn order_created(
    ctx: CreateOrder,
    order_type: OrderType,
    trigger_price: u64,
    amount: u64,
    token_mint: Address,
    bump: u8,
    now: i64,
) -> CreateOrder {
    CreateOrder {
        vault: vault_advanced(ctx.vault),
        order: Some(new_order(ctx, order_type, trigger_price, amount, token_mint, bump, now)),
        ..ctx
    }
}

/// Creates the vault's next order at the derived locations given.
pub fn create_order_at(
    ctx: &mut CreateOrder,
    vault_loc: &Option<(Address, u8)>,
    order_loc: &Option<(Address, u8)>,
    order_type: OrderType,
    trigger_price: u64,
    amount: u64,
    token_mint: Address,
    now: i64,
) -> (r: Result<(), SentinelError>)
    ensures
        r == create_order_outcome(*old(ctx), location_view(*vault_loc), location_view(*order_loc), trigger_price),
        r is Ok ==> *final(ctx) == order_created(*old(ctx), order_type, trigger_price, amount, token_mint, order_loc.unwrap().1, now),
        r is Err ==> *final(ctx) == *old(ctx),
{
    if !is_located_at(vault_loc, &ctx.vault_address, ctx.vault.bump) || !ctx.vault.owner.equals(&ctx.owner) {
        return Err(SentinelError::Unauthorized);
    }
    if trigger_price == 0 {
        return Err(SentinelError::InvalidPrice);
    }
    let bump: u8 = match order_loc {
        None => return Err(SentinelError::Unauthorized),
        Some(p) => {
            if !p.0.equals(&ctx.order_address) {
                return Err(SentinelError::Unauthorized);
            }
            p.1
        },
    };
    if ctx.order.is_some() {
        return Err(SentinelError::AlreadyExists);
    }
    if ctx.vault.order_count == u64::MAX {
        return Err(SentinelError::Overflow);
    }
    ctx.order = Some(Order {
        vault: ctx.vault_address,
        owner: ctx.owner,
        order_id: ctx.vault.order_count,
        order_type,
        trigger_price,
        amount,
        token_mint,
        status: OrderStatus::Active,
        created_at: now,
        executed_at: None,
        bump,
        high_water_mark: 0,
    });
    ctx.vault.order_count = ctx.vault.order_count + 1;
    Ok(())
}

/// Outcome of creating an order, locations derived under `program`.
pub open spec fn create_order_result(ctx: CreateOrder, program: Seq<u8>, trigger_price: u64) -> Result<(), SentinelError> {
    create_order_outcome(
        ctx,
        vault_location(ctx.owner@, program),
        order_location(ctx.vault_address@, ctx.vault.order_count, program),
        trigger_price,
    )
}

/// Creates the next order of the signer's vault, with the vault's counter as
/// its id, then advances the counter by one. Locations are derived under
/// `program_id`.
pub fn create_order(
    ctx: &mut CreateOrder,
    program_id: &Address,
    order_type: OrderType,
    trigger_price: u64,
    amount: u64,
    token_mint: Address,
    now: i64,
) -> (r: Result<(), SentinelError>)
    ensures
        r == create_order_result(*old(ctx), program_id@, trigger_price),
        r is Ok ==> *final(ctx) == order_created(
            *old(ctx),
            order_type,
            trigger_price,
            amount,
            token_mint,
            final(ctx).order.unwrap().bump,
            now,
        ),
        r is Ok ==> located_at(
            order_location(old(ctx).vault_address@, old(ctx).vault.order_count, program_id@),
            old(ctx).order_address@,
            final(ctx).order.unwrap().bump,
        ),
        r is Err ==> *final(ctx) == *old(ctx),
{
    let vault_loc = find_vault_location(&ctx.owner, program_id);
    let order_loc = find_order_location(&ctx.vault_address, ctx.vault.order_count, program_id);
    create_order_at(ctx, &vault_loc, &order_loc, order_type, trigger_price, amount, token_mint, now)
}

// ---------------------------------------------------------------- execution

/// Outcome of deciding to execute an order at `price`, `loc` being the
/// order's derived location.
pub open spec fn execution_decision(ctx: ExecuteOrder, loc: Option<(Seq<u8>, u8)>, price: u64) -> Result<SwapRequest, SentinelError> {
    if !located_at(loc, ctx.order_address@, ctx.order.bump) {
        Err(SentinelError::Unauthorized)
    } else if ctx.order.status != OrderStatus::Active {
        Err(SentinelError::OrderNotActive)
    } else if !order_triggers(ctx.order, price) {
        Err(SentinelError::TriggerNotMet)
    } else {
        Ok(SwapRequest { token_mint: ctx.order.token_mint, amount: ctx.order.amount })
    }
}

/// Outcome of executing an order at `price`, the swap having reported `swap`.
pub open spec fn execute_order_outcome(
    ctx: ExecuteOrder,
    loc: Option<(Seq<u8>, u8)>,
    price: u64,
    swap: Result<(), u32>,
) -> Result<(), SentinelError> {
    match execution_decision(ctx, loc, price) {
        Err(e) => Err(e),
        Ok(_) => match swap {
            Err(code) => Err(SentinelError::SwapFailed(code)),
            Ok(()) => Ok(()),
        },
    }
}

/// The records after a successful execution at `price` and time `now`.
pub open spec fn order_executed(ctx: ExecuteOrder, price: u64, now: i64) -> ExecuteOrder {
    ExecuteOrder {
        order: Order {
            status: OrderStatus::Executed,
            executed_at: Some(now),
            ..observed(ctx.order, price)
        },
        ..ctx
    }
}

/// The records with the order marked executed at `now`, nothing else changed.
pub open spec fn order_marked_executed(ctx: ExecuteOrder, now: i64) -> ExecuteOrder {
    ExecuteOrder { order: Order { status: OrderStatus::Executed, executed_at: Some(now), ..ctx.order }, ..ctx }
}

/// Whether an execution gets as far as evaluating the order: the order is at
/// its derived location `loc`, and active.
pub open spec fn reaches_evaluation(ctx: ExecuteOrder, loc: Option<(Seq<u8>, u8)>) -> bool {
    located_at(loc, ctx.order_address@, ctx.order.bump) && ctx.order.status == OrderStatus::Active
}

/// The records after an evaluation at `price` that did not execute the order.
pub open spec fn order_evaluated(ctx: ExecuteOrder, price: u64) -> ExecuteOrder {
    ExecuteOrder { order: observed(ctx.order, price), ..ctx }
}

/// Decides whether the order may execute at `price`, and if so what to swap.
/// This is a preview: it changes nothing, and records no price.
pub fn swap_request_at(ctx: &ExecuteOrder, loc: &Option<(Address, u8)>, price: u64) -> (r: Result<SwapRequest, SentinelError>)
    ensures
        r == execution_decision(*ctx, location_view(*loc), price),
{
    if !is_located_at(loc, &ctx.order_address, ctx.order.bump) {
        return Err(SentinelError::Unauthorized);
    }
    if ctx.order.status != OrderStatus::Active {
        return Err(SentinelError::OrderNotActive);
    }
    let mut probe = ctx.order;
    if !evaluate(&mut probe, price) {
        return Err(SentinelError::TriggerNotMet);
    }
    Ok(SwapRequest { token_mint: ctx.order.token_mint, amount: ctx.order.amount })
}

/// Executes the order at `price`, given what the swap reported: on success the
/// order is executed at `now`. Once a trailing stop has been evaluated, `price`
/// stays in its high-water mark whatever the outcome (a failed trigger or swap
/// included); any other refusal changes nothing.
pub fn execute_order_at(
    ctx: &mut ExecuteOrder,
    loc: &Option<(Address, u8)>,
    price: u64,
    swap: Result<(), u32>,
    now: i64,
) -> (r: Result<(), SentinelError>)
    ensures
        r == execute_order_outcome(*old(ctx), location_view(*loc), price, swap),
        r is Ok ==> *final(ctx) == order_executed(*old(ctx), price, now),
        r is Err && reaches_evaluation(*old(ctx), location_view(*loc)) ==> *final(ctx) == order_evaluated(*old(ctx), price),
        r is Err && !reaches_evaluation(*old(ctx), location_view(*loc)) ==> *final(ctx) == *old(ctx),
        old(ctx).order.order_type != OrderType::TrailingStop ==> ({
            &&& r is Err ==> *final(ctx) == *old(ctx)
            &&& r is Ok ==> *final(ctx) == order_marked_executed(*old(ctx), now)
        }),
{
    if !is_located_at(loc, &ctx.order_address, ctx.order.bump) {
        return Err(SentinelError::Unauthorized);
    }
    if ctx.order.status != OrderStatus::Active {
        return Err(SentinelError::OrderNotActive);
    }
    if !evaluate(&mut ctx.order, price) {
        return Err(SentinelError::TriggerNotMet);
    }
    match swap {
        Err(code) => Err(SentinelError::SwapFailed(code)),
        Ok(()) => {
            ctx.order.status = OrderStatus::Executed;
            ctx.order.executed_at = Some(now);
            Ok(())
        },
    }
}

/// Where `order` lives under `program`.
pub open spec fn location_of(order: Order, program: Seq<u8>) -> Option<(Seq<u8>, u8)> {
    order_location(order.vault@, order.order_id, program)
}

/// Decides whether the order may execute at `price`, its location derived
/// under `program_id`, and if so what to swap; changes nothing.
pub fn swap_request(ctx: &ExecuteOrder, program_id: &Address, price: u64) -> (r: Result<SwapRequest, SentinelError>)
    ensures
        r == execution_decision(*ctx, location_of(ctx.order, program_id@), price),
{
    let loc = find_order_location(&ctx.order.vault, ctx.order.order_id, program_id);
    swap_request_at(ctx, &loc, price)
}

/// Executes the order at the reference price `price`, its location derived
/// under `program_id`. Anyone may execute: only the order's condition decides.
/// `swap` is what the swap of `swap_request` reported. An active trailing stop
/// at its location keeps `price` in its high-water mark whatever the outcome.
pub fn execute_order(
    ctx: &mut ExecuteOrder,
    program_id: &Address,
    price: u64,
    swap: Result<(), u32>,
    now: i64,
) -> (r: Result<(), SentinelError>)
    ensures
        r == execute_order_outcome(*old(ctx), location_of(old(ctx).order, program_id@), price, swap),
        r is Ok ==> *final(ctx) == order_executed(*old(ctx), price, now),
        r is Err && reaches_evaluation(*old(ctx), location_of(old(ctx).order, program_id@))
            ==> *final(ctx) == order_evaluated(*old(ctx), price),
        r is Err && !reaches_evaluation(*old(ctx), location_of(old(ctx).order, program_id@))
            ==> *final(ctx) == *old(ctx),
        old(ctx).order.order_type != OrderType::TrailingStop ==> ({
            &&& r is Err ==> *final(ctx) == *old(ctx)
            &&& r is Ok ==> *final(ctx) == order_marked_executed(*old(ctx), now)
        }),
{
    let loc = find_order_location(&ctx.order.vault, ctx.order.order_id, program_id);
    execute_order_at(ctx, &loc, price, swap, now)
}

// ---------------------------------------------------------------- cancellation

/// Outcome of cancelling an order, `loc` being its derived location.
pub open spec fn cancel_order_outcome(ctx: CancelOrder, loc: Option<(Seq<u8>, u8)>) -> Result<(), SentinelError> {
    if !located_at(loc, ctx.order_address@, ctx.order.bump) || ctx.order.owner@ != ctx.owner@ {
        Err(SentinelError::Unauthorized)
    } else if ctx.order.status != OrderStatus::Active {
        Err(SentinelError::OrderNotActive)
    } else {
        Ok(())
    }
}

/// The records after a successful cancellation.
pub open spec fn order_cancelled(ctx: CancelOrder) -> CancelOrder {
    CancelOrder { order: Order { status: OrderStatus::Cancelled, ..ctx.order }, ..ctx }
}

/// Cancels the order at the derived location given.
pub fn cancel_order_at(ctx: &mut CancelOrder, loc: &Option<(Address, u8)>) -> (r: Result<(), SentinelError>)
    ensures
        r == cancel_order_outcome(*old(ctx), location_view(*loc)),
        r is Ok ==> *final(ctx) == order_cancelled(*old(ctx)),
        r is Err ==> *final(ctx) == *old(ctx),
{
    if !is_located_at(loc, &ctx.order_address, ctx.order.bump) || !ctx.order.owner.equals(&ctx.owner) {
        return Err(SentinelError::Unauthorized);
    }
    if ctx.order.status != OrderStatus::Active {
        return Err(SentinelError::OrderNotActive);
    }
    ctx.order.status = OrderStatus::Cancelled;
    Ok(())
}

/// Cancels an active order on its owner's request, its location derived under
/// `program_id`.
pub fn cancel_order(ctx: &mut CancelOrder, program_id: &Address) -> (r: Result<(), SentinelError>)
    ensures
        r == cancel_order_outcome(*old(ctx), location_of(old(ctx).order, program_id@)),
        r is Ok ==> *final(ctx) == order_cancelled(*old(ctx)),
        r is Err ==> *final(ctx) == *old(ctx),
{
    let loc = find_order_location(&ctx.order.vault, ctx.order.order_id, program_id);
    cancel_order_at(ctx, &loc)
}

} // verus!
