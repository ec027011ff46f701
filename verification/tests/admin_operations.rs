use flash_perpetuals_token::{
    add_authorized_liquidator, add_authorized_orderbook_updater, adjust_funding_rate,
    adjust_leverage_based_on_reputation, auto_hedge, initialize, AdjustLeverage, AdminOnly,
    AutoHedge, ErrorCode, GlobalState, Initialize, Principal, ReputationLeverage,
};

fn id(tag: u8) -> Principal {
    Principal::new([tag; 32])
}

fn ledger(admin: Principal) -> GlobalState {
    GlobalState {
        admin,
        fee_rate: 1,
        maintenance_margin: 150,
        min_stake_duration: 100,
        execution_fee: 3,
        total_staked: 0,
        total_liquidity: 40,
        orderbook_merkle_root: [0u8; 32],
        authorized_liquidators: Vec::new(),
        authorized_orderbook_updaters: Vec::new(),
        reputation_based_leverage: Vec::new(),
    }
}

#[test]
fn initialize_fills_the_record() {
    let mut stale = ledger(id(7));
    stale.total_staked = 5;
    stale.orderbook_merkle_root = [9u8; 32];
    stale.authorized_liquidators.push(id(1));
    stale.authorized_orderbook_updaters.push(id(2));
    stale.reputation_based_leverage.push(ReputationLeverage { trader: id(3), leverage: 4 });
    let mut ctx = Initialize { global_state: stale, admin: id(1) };
    assert_eq!(initialize(&mut ctx, 2, 150, 3600, 5), Ok(()));
    let expected = GlobalState {
        admin: id(1),
        fee_rate: 2,
        maintenance_margin: 150,
        min_stake_duration: 3600,
        execution_fee: 5,
        total_staked: 0,
        total_liquidity: 0,
        orderbook_merkle_root: [0u8; 32],
        authorized_liquidators: Vec::new(),
        authorized_orderbook_updaters: Vec::new(),
        reputation_based_leverage: Vec::new(),
    };
    assert_eq!(ctx.global_state, expected);
    assert_eq!(ctx.admin, id(1));
}

#[test]
fn admin_adds_liquidators_in_order() {
    let mut ctx = AdminOnly { global_state: ledger(id(1)), admin: id(1) };
    assert_eq!(add_authorized_liquidator(&mut ctx, id(5)), Ok(()));
    assert_eq!(add_authorized_liquidator(&mut ctx, id(6)), Ok(()));
    assert_eq!(ctx.global_state.authorized_liquidators, vec![id(5), id(6)]);
    assert!(ctx.global_state.authorized_orderbook_updaters.is_empty());
    assert_eq!(ctx.global_state.total_liquidity, 40);
}

#[test]
fn stranger_cannot_add_a_liquidator() {
    let mut ctx = AdminOnly { global_state: ledger(id(1)), admin: id(2) };
    assert_eq!(add_authorized_liquidator(&mut ctx, id(5)), Err(ErrorCode::Unauthorized));
    assert_eq!(ctx.global_state, ledger(id(1)));
}

#[test]
fn eleventh_liquidator_is_refused() {
    let mut ctx = AdminOnly { global_state: ledger(id(1)), admin: id(1) };
    for tag in 0..10u8 {
        assert_eq!(add_authorized_liquidator(&mut ctx, id(100 + tag)), Ok(()));
    }
    let before = ctx.global_state.clone();
    assert_eq!(add_authorized_liquidator(&mut ctx, id(200)), Err(ErrorCode::CapacityExceeded));
    assert_eq!(ctx.global_state, before);
    assert_eq!(ctx.global_state.authorized_liquidators.len(), 10);
}

#[test]
fn admin_adds_orderbook_updaters() {
    let mut ctx = AdminOnly { global_state: ledger(id(1)), admin: id(1) };
    assert_eq!(add_authorized_orderbook_updater(&mut ctx, id(8)), Ok(()));
    assert_eq!(ctx.global_state.authorized_orderbook_updaters, vec![id(8)]);
    assert!(ctx.global_state.authorized_liquidators.is_empty());
}

#[test]
fn stranger_cannot_add_an_updater() {
    let mut ctx = AdminOnly { global_state: ledger(id(1)), admin: id(3) };
    assert_eq!(add_authorized_orderbook_updater(&mut ctx, id(8)), Err(ErrorCode::Unauthorized));
    assert_eq!(ctx.global_state, ledger(id(1)));
}

#[test]
fn eleventh_updater_is_refused() {
    let mut ctx = AdminOnly { global_state: ledger(id(1)), admin: id(1) };
    for tag in 0..10u8 {
        assert_eq!(add_authorized_orderbook_updater(&mut ctx, id(100 + tag)), Ok(()));
    }
    assert_eq!(
        add_authorized_orderbook_updater(&mut ctx, id(200)),
        Err(ErrorCode::CapacityExceeded)
    );
    assert_eq!(ctx.global_state.authorized_orderbook_updaters.len(), 10);
}

#[test]
fn admin_sets_any_funding_rate() {
    let mut ctx = AdminOnly { global_state: ledger(id(1)), admin: id(1) };
    assert_eq!(adjust_funding_rate(&mut ctx, 0), Ok(()));
    assert_eq!(ctx.global_state.fee_rate, 0);
    assert_eq!(adjust_funding_rate(&mut ctx, u64::MAX), Ok(()));
    let mut expected = ledger(id(1));
    expected.fee_rate = u64::MAX;
    assert_eq!(ctx.global_state, expected);
}

#[test]
fn stranger_cannot_set_the_funding_rate() {
    let mut ctx = AdminOnly { global_state: ledger(id(1)), admin: id(2) };
    assert_eq!(adjust_funding_rate(&mut ctx, 9), Err(ErrorCode::Unauthorized));
    assert_eq!(ctx.global_state.fee_rate, 1);
}

#[test]
fn hedge_withdraws_liquidity() {
    let mut ctx = AutoHedge { global_state: ledger(id(1)), admin: id(1) };
    assert_eq!(auto_hedge(&mut ctx, 15), Ok(()));
    assert_eq!(ctx.global_state.total_liquidity, 25);
    assert_eq!(auto_hedge(&mut ctx, 25), Ok(()));
    assert_eq!(ctx.global_state.total_liquidity, 0);
}

#[test]
fn hedge_beyond_liquidity_is_refused() {
    let mut ctx = AutoHedge { global_state: ledger(id(1)), admin: id(1) };
    assert_eq!(auto_hedge(&mut ctx, 41), Err(ErrorCode::InsufficientLiquidity));
    assert_eq!(ctx.global_state, ledger(id(1)));
}

#[test]
fn stranger_cannot_hedge() {
    let mut ctx = AutoHedge { global_state: ledger(id(1)), admin: id(2) };
    assert_eq!(auto_hedge(&mut ctx, 1), Err(ErrorCode::Unauthorized));
    assert_eq!(ctx.global_state.total_liquidity, 40);
}

#[test]
fn adjusting_twice_keeps_one_entry() {
    let mut ctx = AdjustLeverage { global_state: ledger(id(1)), admin: id(1) };
    assert_eq!(adjust_leverage_based_on_reputation(&mut ctx, id(4), 5), Ok(()));
    assert_eq!(adjust_leverage_based_on_reputation(&mut ctx, id(6), 2), Ok(()));
    assert_eq!(adjust_leverage_based_on_reputation(&mut ctx, id(4), 20), Ok(()));
    assert_eq!(
        ctx.global_state.reputation_based_leverage,
        vec![
            ReputationLeverage { trader: id(4), leverage: 20 },
            ReputationLeverage { trader: id(6), leverage: 2 },
        ]
    );
}

#[test]
fn eleventh_distinct_trader_is_refused() {
    let mut ctx = AdjustLeverage { global_state: ledger(id(1)), admin: id(1) };
    for tag in 0..10u8 {
        assert_eq!(adjust_leverage_based_on_reputation(&mut ctx, id(50 + tag), 3), Ok(()));
    }
    let before = ctx.global_state.clone();
    assert_eq!(
        adjust_leverage_based_on_reputation(&mut ctx, id(99), 3),
        Err(ErrorCode::CapacityExceeded)
    );
    assert_eq!(ctx.global_state, before);
}

#[test]
fn full_registry_still_takes_updates() {
    let mut ctx = AdjustLeverage { global_state: ledger(id(1)), admin: id(1) };
    for tag in 0..10u8 {
        assert_eq!(adjust_leverage_based_on_reputation(&mut ctx, id(50 + tag), 3), Ok(()));
    }
    assert_eq!(adjust_leverage_based_on_reputation(&mut ctx, id(59), 8), Ok(()));
    assert_eq!(ctx.global_state.reputation_based_leverage.len(), 10);
    assert_eq!(
        ctx.global_state.reputation_based_leverage[9],
        ReputationLeverage { trader: id(59), leverage: 8 }
    );
}

#[test]
fn stranger_cannot_adjust_leverage() {
    let mut ctx = AdjustLeverage { global_state: ledger(id(1)), admin: id(2) };
    assert_eq!(
        adjust_leverage_based_on_reputation(&mut ctx, id(4), 5),
        Err(ErrorCode::Unauthorized)
    );
    assert!(ctx.global_state.reputation_based_leverage.is_empty());
}
