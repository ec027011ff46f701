use flash_perpetuals_token::numeric::{checked_add, checked_div, checked_mul, checked_sub};
use flash_perpetuals_token::state::{is_listed, MAX_ENTRIES};
use flash_perpetuals_token::{ErrorCode, GlobalState, LpState, Principal, TraderState};

fn who(tag: u8) -> Principal {
    Principal::new([tag; 32])
}

#[test]
fn checked_add_gives_exact_sum() {
    assert_eq!(checked_add(2, 3), Ok(5));
    assert_eq!(checked_add(u64::MAX - 1, 1), Ok(u64::MAX));
}

#[test]
fn checked_add_reports_overflow() {
    assert_eq!(checked_add(u64::MAX, 1), Err(ErrorCode::MathOverflow));
}

#[test]
fn checked_sub_gives_exact_difference() {
    assert_eq!(checked_sub(7, 7), Ok(0));
    assert_eq!(checked_sub(10, 4), Ok(6));
}

#[test]
fn checked_sub_reports_underflow() {
    assert_eq!(checked_sub(3, 4), Err(ErrorCode::MathOverflow));
}

#[test]
fn checked_mul_gives_exact_product() {
    assert_eq!(checked_mul(6, 7), Ok(42));
    assert_eq!(checked_mul(0, u64::MAX), Ok(0));
}

#[test]
fn checked_mul_reports_overflow() {
    assert_eq!(checked_mul(1u64 << 32, 1u64 << 32), Err(ErrorCode::MathOverflow));
}

#[test]
fn checked_div_truncates() {
    assert_eq!(checked_div(299, 100), Ok(2));
    assert_eq!(checked_div(5, 2), Ok(2));
}

#[test]
fn checked_div_by_zero_is_overflow() {
    assert_eq!(checked_div(5, 0), Err(ErrorCode::MathOverflow));
}

#[test]
fn principals_compare_by_all_bytes() {
    let a = who(1);
    let mut other = [1u8; 32];
    assert!(a == Principal::new(other));
    other[31] = 2;
    assert!(a != Principal::new(other));
    other[31] = 1;
    other[0] = 0;
    assert!(a != Principal::new(other));
    assert_eq!(a.to_bytes(), [1u8; 32]);
}

#[test]
fn is_listed_finds_members_only() {
    let list = vec![who(1), who(2), who(3)];
    assert!(is_listed(&list, &who(1)));
    assert!(is_listed(&list, &who(3)));
    assert!(!is_listed(&list, &who(4)));
    assert!(!is_listed(&Vec::new(), &who(1)));
}

#[test]
fn new_trader_record_is_empty() {
    let t = TraderState::new(who(9));
    assert_eq!(t.owner, who(9));
    assert_eq!(t.staked_amount, 0);
    assert_eq!(t.open_position, 0);
    assert_eq!(t.stake_timestamp, 0);
}

#[test]
fn record_sizes_follow_the_fixed_layout() {
    assert_eq!(GlobalState::LEN, 1164);
    assert_eq!(TraderState::LEN, 56);
    assert_eq!(LpState::LEN, 56);
    assert_eq!(MAX_ENTRIES, 10);
}

#[test]
fn each_error_has_its_message() {
    assert_eq!(ErrorCode::MathOverflow.message(), "Math operation overflowed");
    assert_eq!(
        ErrorCode::InsufficientFundsForFee.message(),
        "Insufficient staked funds for execution fee"
    );
    assert_eq!(ErrorCode::StakeTimeLock.message(), "Stake duration has not been met");
    assert_eq!(
        ErrorCode::MarginSufficient.message(),
        "Margin is sufficient; liquidation not allowed"
    );
    assert_eq!(ErrorCode::InvalidLiquidationAmount.message(), "Invalid liquidation amount");
    assert_eq!(ErrorCode::Unauthorized.message(), "Unauthorized operation");
    assert_eq!(
        ErrorCode::InsufficientLiquidity.message(),
        "Insufficient liquidity for hedging"
    );
    assert_eq!(ErrorCode::CapacityExceeded.message(), "Bounded collection is at capacity");
}
