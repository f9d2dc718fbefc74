use sentinel_vault::address::{
    find_order_location, find_vault_location, le_bytes_of, Address,
};
use sentinel_vault::instructions::{
    cancel_order, cancel_order_at, create_order, create_order_at, execute_order,
    execute_order_at, initialize_vault, initialize_vault_at, swap_request, swap_request_at,
    CancelOrder, CreateOrder, ExecuteOrder, InitializeVault,
};
use sentinel_vault::state::{Order, OrderStatus, OrderType, SentinelError, Vault};
use sentinel_vault::trigger::{condition_holds, evaluate};

fn addr(b: u8) -> Address {
    Address::new([b; 32])
}

fn program() -> Address {
    addr(200)
}

fn active_order(order_type: OrderType, trigger_price: u64) -> Order {
    Order {
        vault: addr(2),
        owner: addr(1),
        order_id: 0,
        order_type,
        trigger_price,
        amount: 500,
        token_mint: addr(9),
        status: OrderStatus::Active,
        created_at: 10,
        executed_at: None,
        bump: 254,
        high_water_mark: 0,
    }
}

fn exec_ctx(order: Order) -> ExecuteOrder {
    ExecuteOrder { executor: addr(77), order_address: addr(3), order }
}

fn here() -> Option<(Address, u8)> {
    Some((addr(3), 254))
}

fn vault_with_count(n: u64) -> Vault {
    Vault { owner: addr(1), bump: 250, order_count: n, created_at: 5 }
}

fn create_ctx(n: u64) -> CreateOrder {
    CreateOrder {
        owner: addr(1),
        vault_address: addr(2),
        vault: vault_with_count(n),
        order_address: addr(3),
        order: None,
    }
}

fn vault_here() -> Option<(Address, u8)> {
    Some((addr(2), 250))
}

#[test]
fn stop_loss_executes_below_trigger() {
    let mut ctx = exec_ctx(active_order(OrderType::StopLoss, 100));
    assert_eq!(execute_order_at(&mut ctx, &here(), 90, Ok(()), 42), Ok(()));
    assert_eq!(ctx.order.status, OrderStatus::Executed);
    assert_eq!(ctx.order.executed_at, Some(42));
}

#[test]
fn stop_loss_waits_above_trigger() {
    let mut ctx = exec_ctx(active_order(OrderType::StopLoss, 100));
    assert_eq!(execute_order_at(&mut ctx, &here(), 110, Ok(()), 42), Err(SentinelError::TriggerNotMet));
    assert_eq!(ctx.order.status, OrderStatus::Active);
    assert_eq!(ctx.order.executed_at, None);
    assert_eq!(ctx.order.high_water_mark, 0);
}

#[test]
fn take_profit_executes_above_trigger() {
    let mut ctx = exec_ctx(active_order(OrderType::TakeProfit, 100));
    assert_eq!(execute_order_at(&mut ctx, &here(), 110, Ok(()), 43), Ok(()));
    assert_eq!(ctx.order.status, OrderStatus::Executed);
}

#[test]
fn take_profit_waits_below_trigger() {
    let mut ctx = exec_ctx(active_order(OrderType::TakeProfit, 100));
    assert_eq!(execute_order_at(&mut ctx, &here(), 90, Ok(()), 43), Err(SentinelError::TriggerNotMet));
    assert_eq!(ctx.order.status, OrderStatus::Active);
    assert_eq!(ctx.order.high_water_mark, 0);
}

#[test]
fn stop_loss_success_changes_only_status() {
    let mut ctx = exec_ctx(active_order(OrderType::StopLoss, 100));
    assert_eq!(execute_order_at(&mut ctx, &here(), 80, Err(2), 42), Err(SentinelError::SwapFailed(2)));
    assert_eq!(ctx.order.high_water_mark, 0);
    assert_eq!(execute_order_at(&mut ctx, &here(), 80, Ok(()), 43), Ok(()));
    assert_eq!(ctx.order.high_water_mark, 0);
    assert_eq!(ctx.order.status, OrderStatus::Executed);
    assert_eq!(ctx.order.executed_at, Some(43));
    assert_eq!(ctx.order.trigger_price, 100);
    assert_eq!(ctx.order.amount, 500);
}

#[test]
fn evaluation_leaves_other_types_alone() {
    let mut order = active_order(OrderType::TakeProfit, 100);
    assert!(evaluate(&mut order, 150));
    assert_eq!(order.high_water_mark, 0);
    let mut order = active_order(OrderType::StopLoss, 100);
    assert!(!evaluate(&mut order, 150));
    assert_eq!(order.high_water_mark, 0);
}

#[test]
fn trigger_boundaries() {
    assert!(condition_holds(OrderType::StopLoss, 100, 0, 100));
    assert!(condition_holds(OrderType::TakeProfit, 100, 0, 100));
    assert!(!condition_holds(OrderType::StopLoss, 100, 0, 101));
    assert!(!condition_holds(OrderType::TakeProfit, 100, 0, 99));
    assert!(condition_holds(OrderType::TrailingStop, 10, 120, 110));
    assert!(!condition_holds(OrderType::TrailingStop, 10, 120, 111));
    assert!(!condition_holds(OrderType::TrailingStop, 10, 5, 0));
}

#[test]
fn trailing_stop_follows_high_water_mark() {
    let mut order = active_order(OrderType::TrailingStop, 10);
    assert!(!evaluate(&mut order, 100));
    assert_eq!(order.high_water_mark, 100);
    assert!(!evaluate(&mut order, 120));
    assert_eq!(order.high_water_mark, 120);
    assert!(!evaluate(&mut order, 115));
    assert_eq!(order.high_water_mark, 120);
    assert!(evaluate(&mut order, 110));
}

#[test]
fn trailing_stop_executes_through_refused_attempts() {
    let mut ctx = exec_ctx(active_order(OrderType::TrailingStop, 10));
    assert_eq!(execute_order_at(&mut ctx, &here(), 100, Ok(()), 40), Err(SentinelError::TriggerNotMet));
    assert_eq!(ctx.order.high_water_mark, 100);
    assert_eq!(execute_order_at(&mut ctx, &here(), 120, Ok(()), 41), Err(SentinelError::TriggerNotMet));
    assert_eq!(ctx.order.high_water_mark, 120);
    assert_eq!(execute_order_at(&mut ctx, &here(), 115, Ok(()), 42), Err(SentinelError::TriggerNotMet));
    assert_eq!(ctx.order.high_water_mark, 120);
    assert_eq!(ctx.order.status, OrderStatus::Active);
    assert_eq!(execute_order_at(&mut ctx, &here(), 110, Err(3), 43), Err(SentinelError::SwapFailed(3)));
    assert_eq!(ctx.order.status, OrderStatus::Active);
    assert_eq!(ctx.order.high_water_mark, 120);
    assert_eq!(execute_order_at(&mut ctx, &here(), 109, Ok(()), 44), Ok(()));
    assert_eq!(ctx.order.status, OrderStatus::Executed);
    assert_eq!(ctx.order.executed_at, Some(44));
    assert_eq!(ctx.order.high_water_mark, 120);
}

#[test]
fn refusal_before_evaluation_records_nothing() {
    let mut order = active_order(OrderType::TrailingStop, 10);
    order.status = OrderStatus::Cancelled;
    let mut ctx = exec_ctx(order);
    assert_eq!(execute_order_at(&mut ctx, &here(), 300, Ok(()), 40), Err(SentinelError::OrderNotActive));
    assert_eq!(ctx.order.high_water_mark, 0);
    let mut moved = exec_ctx(active_order(OrderType::TrailingStop, 10));
    assert_eq!(execute_order_at(&mut moved, &Some((addr(4), 254)), 300, Ok(()), 40), Err(SentinelError::Unauthorized));
    assert_eq!(moved.order.high_water_mark, 0);
}

#[test]
fn second_execution_refused() {
    let mut ctx = exec_ctx(active_order(OrderType::StopLoss, 100));
    assert_eq!(execute_order_at(&mut ctx, &here(), 90, Ok(()), 42), Ok(()));
    assert_eq!(execute_order_at(&mut ctx, &here(), 80, Ok(()), 44), Err(SentinelError::OrderNotActive));
    assert_eq!(ctx.order.executed_at, Some(42));
    let mut cancel = CancelOrder { owner: addr(1), order_address: addr(3), order: ctx.order };
    assert_eq!(cancel_order_at(&mut cancel, &here()), Err(SentinelError::OrderNotActive));
    assert_eq!(cancel.order.status, OrderStatus::Executed);
}

#[test]
fn second_cancellation_refused() {
    let mut cancel = CancelOrder { owner: addr(1), order_address: addr(3), order: active_order(OrderType::TakeProfit, 100) };
    assert_eq!(cancel_order_at(&mut cancel, &here()), Ok(()));
    assert_eq!(cancel.order.status, OrderStatus::Cancelled);
    assert_eq!(cancel_order_at(&mut cancel, &here()), Err(SentinelError::OrderNotActive));
    let mut ctx = exec_ctx(cancel.order);
    assert_eq!(execute_order_at(&mut ctx, &here(), 200, Ok(()), 44), Err(SentinelError::OrderNotActive));
}

#[test]
fn cancel_by_stranger_unauthorized() {
    for status in [OrderStatus::Active, OrderStatus::Executed, OrderStatus::Cancelled, OrderStatus::Expired] {
        let mut order = active_order(OrderType::StopLoss, 100);
        order.status = status;
        let mut cancel = CancelOrder { owner: addr(66), order_address: addr(3), order };
        assert_eq!(cancel_order_at(&mut cancel, &here()), Err(SentinelError::Unauthorized));
        assert_eq!(cancel.order.status, status);
    }
}

#[test]
fn zero_trigger_price_refused() {
    let mut ctx = create_ctx(0);
    let r = create_order_at(&mut ctx, &vault_here(), &here(), OrderType::StopLoss, 0, 10, addr(9), 7);
    assert_eq!(r, Err(SentinelError::InvalidPrice));
    assert!(ctx.order.is_none());
    assert_eq!(ctx.vault.order_count, 0);
}

#[test]
fn failed_swap_keeps_order_active() {
    let mut ctx = exec_ctx(active_order(OrderType::StopLoss, 100));
    assert_eq!(execute_order_at(&mut ctx, &here(), 90, Err(6), 42), Err(SentinelError::SwapFailed(6)));
    assert_eq!(ctx.order.status, OrderStatus::Active);
    assert_eq!(ctx.order.executed_at, None);
    assert_eq!(execute_order_at(&mut ctx, &here(), 95, Ok(()), 45), Ok(()));
    assert_eq!(ctx.order.status, OrderStatus::Executed);
    assert_eq!(ctx.order.executed_at, Some(45));
}

#[test]
fn swap_request_names_token_and_amount() {
    let ctx = exec_ctx(active_order(OrderType::StopLoss, 100));
    let req = swap_request_at(&ctx, &here(), 90).unwrap();
    assert!(req.token_mint.equals(&addr(9)));
    assert_eq!(req.amount, 500);
    assert_eq!(swap_request_at(&ctx, &here(), 110).err(), Some(SentinelError::TriggerNotMet));
}

#[test]
fn order_ids_count_up_from_zero() {
    let mut ctx = create_ctx(0);
    for expected in 0..5u64 {
        let mut step = CreateOrder { order: None, ..ctx };
        let r = create_order_at(&mut step, &vault_here(), &here(), OrderType::TakeProfit, 100, 1, addr(9), 8);
        assert_eq!(r, Ok(()));
        assert_eq!(step.order.unwrap().order_id, expected);
        assert_eq!(step.vault.order_count, expected + 1);
        ctx = step;
    }
    let mut refused = CreateOrder { order: None, ..ctx };
    let r = create_order_at(&mut refused, &vault_here(), &here(), OrderType::TakeProfit, 0, 1, addr(9), 8);
    assert_eq!(r, Err(SentinelError::InvalidPrice));
    assert_eq!(refused.vault.order_count, 5);
}

#[test]
fn created_order_fields() {
    let mut ctx = create_ctx(3);
    let r = create_order_at(&mut ctx, &vault_here(), &Some((addr(3), 251)), OrderType::TrailingStop, 25, 1000, addr(9), 99);
    assert_eq!(r, Ok(()));
    let o = ctx.order.unwrap();
    assert!(o.vault.equals(&addr(2)));
    assert!(o.owner.equals(&addr(1)));
    assert_eq!(o.order_id, 3);
    assert_eq!(o.order_type, OrderType::TrailingStop);
    assert_eq!(o.trigger_price, 25);
    assert_eq!(o.amount, 1000);
    assert_eq!(o.status, OrderStatus::Active);
    assert_eq!(o.created_at, 99);
    assert_eq!(o.executed_at, None);
    assert_eq!(o.bump, 251);
    assert_eq!(o.high_water_mark, 0);
}

#[test]
fn counter_overflow_refused() {
    let mut ctx = create_ctx(u64::MAX);
    let r = create_order_at(&mut ctx, &vault_here(), &here(), OrderType::StopLoss, 5, 1, addr(9), 7);
    assert_eq!(r, Err(SentinelError::Overflow));
    assert!(ctx.order.is_none());
    assert_eq!(ctx.vault.order_count, u64::MAX);
}

#[test]
fn occupied_order_location_refused() {
    let mut ctx = create_ctx(0);
    ctx.order = Some(active_order(OrderType::StopLoss, 1));
    let r = create_order_at(&mut ctx, &vault_here(), &here(), OrderType::StopLoss, 5, 1, addr(9), 7);
    assert_eq!(r, Err(SentinelError::AlreadyExists));
    assert_eq!(ctx.vault.order_count, 0);
}

#[test]
fn create_by_stranger_unauthorized() {
    let mut ctx = create_ctx(0);
    ctx.owner = addr(66);
    let r = create_order_at(&mut ctx, &vault_here(), &here(), OrderType::StopLoss, 5, 1, addr(9), 7);
    assert_eq!(r, Err(SentinelError::Unauthorized));
    let mut moved = create_ctx(0);
    let r = create_order_at(&mut moved, &Some((addr(4), 250)), &here(), OrderType::StopLoss, 5, 1, addr(9), 7);
    assert_eq!(r, Err(SentinelError::Unauthorized));
    let r = create_order_at(&mut moved, &vault_here(), &Some((addr(4), 254)), OrderType::StopLoss, 5, 1, addr(9), 7);
    assert_eq!(r, Err(SentinelError::Unauthorized));
    assert!(moved.order.is_none());
}

#[test]
fn execute_at_wrong_location_unauthorized() {
    let mut ctx = exec_ctx(active_order(OrderType::StopLoss, 100));
    assert_eq!(execute_order_at(&mut ctx, &Some((addr(3), 253)), 90, Ok(()), 42), Err(SentinelError::Unauthorized));
    assert_eq!(execute_order_at(&mut ctx, &None, 90, Ok(()), 42), Err(SentinelError::Unauthorized));
    assert_eq!(ctx.order.status, OrderStatus::Active);
}

#[test]
fn vault_created_once() {
    let mut ctx = InitializeVault { owner: addr(1), vault_address: addr(2), vault: None };
    assert_eq!(initialize_vault_at(&mut ctx, &vault_here(), 12), Ok(()));
    let v = ctx.vault.unwrap();
    assert!(v.owner.equals(&addr(1)));
    assert_eq!(v.bump, 250);
    assert_eq!(v.order_count, 0);
    assert_eq!(v.created_at, 12);
    assert_eq!(initialize_vault_at(&mut ctx, &vault_here(), 13), Err(SentinelError::AlreadyExists));
    assert_eq!(ctx.vault.unwrap().created_at, 12);
    let mut elsewhere = InitializeVault { owner: addr(1), vault_address: addr(5), vault: None };
    assert_eq!(initialize_vault_at(&mut elsewhere, &vault_here(), 12), Err(SentinelError::Unauthorized));
    assert!(elsewhere.vault.is_none());
}

#[test]
fn le_bytes_little_endian() {
    assert_eq!(le_bytes_of(0x0102_0304_0506_0708), vec![8, 7, 6, 5, 4, 3, 2, 1]);
    assert_eq!(le_bytes_of(0), vec![0; 8]);
    assert_eq!(le_bytes_of(u64::MAX), vec![255; 8]);
}

#[test]
fn derived_locations_are_deterministic_and_distinct() {
    let a = find_vault_location(&addr(1), &program()).unwrap();
    let b = find_vault_location(&addr(1), &program()).unwrap();
    let c = find_vault_location(&addr(2), &program()).unwrap();
    assert!(a.0.equals(&b.0));
    assert_eq!(a.1, b.1);
    assert!(!a.0.equals(&c.0));
    assert!(!a.0.equals(&addr(1)));
    assert!(!a.0.equals(&program()));
    let o0 = find_order_location(&a.0, 0, &program()).unwrap();
    let o1 = find_order_location(&a.0, 1, &program()).unwrap();
    assert!(!o0.0.equals(&o1.0));
    assert!(!o0.0.equals(&a.0));
}

#[test]
fn full_lifecycle_with_derived_locations() {
    let owner = addr(1);
    let (vault_address, _) = find_vault_location(&owner, &program()).unwrap();
    let mut init = InitializeVault { owner, vault_address, vault: None };
    assert_eq!(initialize_vault(&mut init, &program(), 1000), Ok(()));
    assert_eq!(initialize_vault(&mut init, &program(), 1001), Err(SentinelError::AlreadyExists));
    let mut vault = init.vault.unwrap();

    let mut orders = Vec::new();
    for (i, (kind, price)) in [(OrderType::StopLoss, 100u64), (OrderType::TakeProfit, 100u64)].into_iter().enumerate() {
        let (order_address, _) = find_order_location(&vault_address, vault.order_count, &program()).unwrap();
        let mut ctx = CreateOrder { owner, vault_address, vault, order_address, order: None };
        assert_eq!(create_order(&mut ctx, &program(), kind, price, 10, addr(9), 1002), Ok(()));
        assert_eq!(ctx.order.unwrap().order_id, i as u64);
        vault = ctx.vault;
        orders.push((order_address, ctx.order.unwrap()));
    }
    assert_eq!(vault.order_count, 2);

    let (stop_address, stop) = orders[0];
    let mut exec = ExecuteOrder { executor: addr(77), order_address: stop_address, order: stop };
    assert_eq!(swap_request(&exec, &program(), 110).err(), Some(SentinelError::TriggerNotMet));
    assert_eq!(swap_request(&exec, &program(), 90).unwrap().amount, 10);
    assert_eq!(execute_order(&mut exec, &program(), 90, Ok(()), 1003), Ok(()));
    assert_eq!(execute_order(&mut exec, &program(), 90, Ok(()), 1004), Err(SentinelError::OrderNotActive));

    let (take_address, take) = orders[1];
    let mut stranger = CancelOrder { owner: addr(66), order_address: take_address, order: take };
    assert_eq!(cancel_order(&mut stranger, &program()), Err(SentinelError::Unauthorized));
    let mut cancel = CancelOrder { owner, order_address: take_address, order: take };
    assert_eq!(cancel_order(&mut cancel, &program()), Ok(()));
    assert_eq!(cancel.order.status, OrderStatus::Cancelled);
    assert_eq!(cancel_order(&mut cancel, &program()), Err(SentinelError::OrderNotActive));

    let mut forged = CancelOrder { owner, order_address: stop_address, order: take };
    assert_eq!(cancel_order(&mut forged, &program()), Err(SentinelError::Unauthorized));
}
