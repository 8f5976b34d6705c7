use stormbreaker::{CurveError, Deposit, DepositError, Settlement};

const NOW: i64 = 1_700_000_000;
const LATER: i64 = 1_700_000_600;

fn empty_pool() -> Deposit {
    Deposit { locked: false, reserve_x: 0, reserve_y: 0, lp_supply: 0 }
}

fn seeded_pool() -> Deposit {
    Deposit { locked: false, reserve_x: 1_000_000, reserve_y: 2_000_000, lp_supply: 1_000_000 }
}

#[test]
fn seeded_pool_takes_a_tenth_of_each_reserve_for_a_tenth_of_the_supply() {
    assert_eq!(
        seeded_pool().deposit(100_000, 200_000, 300_000, LATER, NOW),
        Ok(Settlement { required_x: 100_000, required_y: 200_000, lp_amount: 100_000 })
    );
}

#[test]
fn seeded_pool_rejects_a_cap_below_the_second_amount() {
    assert_eq!(
        seeded_pool().deposit(100_000, 200_000, 150_000, LATER, NOW),
        Err(DepositError::SlippageExceeded)
    );
}

#[test]
fn seeded_pool_rejects_a_cap_below_the_first_amount() {
    assert_eq!(
        seeded_pool().deposit(100_000, 99_999, 300_000, LATER, NOW),
        Err(DepositError::SlippageExceeded)
    );
}

#[test]
fn seeded_pool_accepts_caps_that_are_met_exactly() {
    assert_eq!(
        seeded_pool().deposit(100_000, 100_000, 200_000, LATER, NOW),
        Ok(Settlement { required_x: 100_000, required_y: 200_000, lp_amount: 100_000 })
    );
}

#[test]
fn seeded_pool_prices_any_request_up_to_its_supply_within_its_reserves() {
    let pool = Deposit { locked: false, reserve_x: 999_999, reserve_y: 7, lp_supply: 1_000_003 };
    for lp in [1u64, 17, 500_000, 1_000_002, 1_000_003] {
        let settled = pool.deposit(lp, 999_999, 7, LATER, NOW).unwrap();
        assert!(settled.required_x <= 999_999 && settled.required_y <= 7);
        assert_eq!(settled.lp_amount, lp);
    }
    assert_eq!(
        pool.deposit(1_000_003, 999_999, 7, LATER, NOW),
        Ok(Settlement { required_x: 999_999, required_y: 7, lp_amount: 1_000_003 })
    );
}

#[test]
fn empty_pool_takes_the_caps_as_they_are() {
    for lp in [1u64, 7, 100_000, u64::MAX] {
        assert_eq!(
            empty_pool().deposit(lp, 500_000, 1_000_000, LATER, NOW),
            Ok(Settlement { required_x: 500_000, required_y: 1_000_000, lp_amount: lp })
        );
    }
}

#[test]
fn empty_pool_takes_the_largest_caps() {
    assert_eq!(
        empty_pool().deposit(1, u64::MAX, u64::MAX, LATER, NOW),
        Ok(Settlement { required_x: u64::MAX, required_y: u64::MAX, lp_amount: 1 })
    );
}

#[test]
fn empty_pool_still_checks_the_guards() {
    assert_eq!(
        empty_pool().deposit(0, 500_000, 1_000_000, LATER, NOW),
        Err(DepositError::ZeroAmount)
    );
    assert_eq!(
        empty_pool().deposit(1, 500_000, 1_000_000, NOW, NOW),
        Err(DepositError::OfferExpired)
    );
    let locked = Deposit { locked: true, ..empty_pool() };
    assert_eq!(locked.deposit(1, 500_000, 1_000_000, LATER, NOW), Err(DepositError::PoolLocked));
}

#[test]
fn locked_pool_rejects_a_valid_request() {
    let pool = Deposit { locked: true, ..seeded_pool() };
    assert_eq!(
        pool.deposit(100_000, 200_000, 300_000, LATER, NOW),
        Err(DepositError::PoolLocked)
    );
}

#[test]
fn locked_pool_rejects_with_its_lock_whatever_else_is_wrong() {
    let pool = Deposit { locked: true, ..seeded_pool() };
    assert_eq!(pool.deposit(0, 0, 0, NOW - 1, NOW), Err(DepositError::PoolLocked));
    assert_eq!(pool.deposit(100_000, 1, 1, LATER, NOW), Err(DepositError::PoolLocked));
}

#[test]
fn expired_offer_is_rejected_by_an_open_pool() {
    assert_eq!(
        seeded_pool().deposit(100_000, 200_000, 300_000, NOW, NOW),
        Err(DepositError::OfferExpired)
    );
    assert_eq!(
        seeded_pool().deposit(100_000, 200_000, 300_000, NOW - 1, NOW),
        Err(DepositError::OfferExpired)
    );
    assert_eq!(seeded_pool().deposit(0, 0, 0, NOW - 1, NOW), Err(DepositError::OfferExpired));
}

#[test]
fn zero_share_amount_is_rejected() {
    assert_eq!(
        seeded_pool().deposit(0, 200_000, 300_000, LATER, NOW),
        Err(DepositError::ZeroAmount)
    );
}

#[test]
fn zero_cap_on_the_first_asset_is_rejected() {
    assert_eq!(
        seeded_pool().deposit(100_000, 0, 300_000, LATER, NOW),
        Err(DepositError::ZeroAmount)
    );
}

#[test]
fn zero_cap_on_the_second_asset_is_rejected() {
    assert_eq!(
        seeded_pool().deposit(100_000, 200_000, 0, LATER, NOW),
        Err(DepositError::ZeroAmount)
    );
}

#[test]
fn pool_with_supply_but_an_empty_vault_is_not_priced() {
    let inconsistent = Err(DepositError::CurveError(CurveError::InconsistentReserves));
    let no_x = Deposit { reserve_x: 0, ..seeded_pool() };
    let no_y = Deposit { reserve_y: 0, ..seeded_pool() };
    let no_reserves = Deposit { reserve_x: 0, reserve_y: 0, ..seeded_pool() };
    assert_eq!(no_x.deposit(100_000, 200_000, 300_000, LATER, NOW), inconsistent);
    assert_eq!(no_y.deposit(100_000, 200_000, 300_000, LATER, NOW), inconsistent);
    assert_eq!(no_reserves.deposit(100_000, 200_000, 300_000, LATER, NOW), inconsistent);
}

#[test]
fn pool_with_reserves_but_no_supply_is_not_priced() {
    let pool = Deposit { lp_supply: 0, ..seeded_pool() };
    assert_eq!(
        pool.deposit(100_000, u64::MAX, u64::MAX, LATER, NOW),
        Err(DepositError::CurveError(CurveError::InconsistentReserves))
    );
    let half = Deposit { locked: false, reserve_x: 1, reserve_y: 0, lp_supply: 0 };
    assert_eq!(
        half.deposit(100_000, u64::MAX, u64::MAX, LATER, NOW),
        Err(DepositError::CurveError(CurveError::InconsistentReserves))
    );
}

#[test]
fn deposit_of_the_largest_factors_is_too_large_and_does_not_overflow() {
    let pool = Deposit { locked: false, reserve_x: u64::MAX, reserve_y: u64::MAX, lp_supply: 1 };
    assert_eq!(
        pool.deposit(u64::MAX, u64::MAX, u64::MAX, LATER, NOW),
        Err(DepositError::CurveError(CurveError::AmountNotRepresentable))
    );
}

#[test]
fn seeded_pool_settles_the_proportional_amount_where_the_caps_just_fit() {
    let pool = Deposit { locked: false, reserve_x: 3, reserve_y: 3, lp_supply: 3 };
    assert_eq!(
        pool.deposit(1, 1, 1, LATER, NOW),
        Ok(Settlement { required_x: 1, required_y: 1, lp_amount: 1 })
    );
    let lopsided = Deposit { locked: false, reserve_x: 3_000_000, reserve_y: 3, lp_supply: 3 };
    assert_eq!(
        lopsided.deposit(1, 1_000_002, 2, LATER, NOW),
        Ok(Settlement { required_x: 1_000_000, required_y: 1, lp_amount: 1 })
    );
    let large = Deposit {
        locked: false,
        reserve_x: 1_000_000_000,
        reserve_y: 1_000_000_000,
        lp_supply: 1_000_000_000,
    };
    assert_eq!(
        large.deposit(1, 1, 1, LATER, NOW),
        Ok(Settlement { required_x: 1, required_y: 1, lp_amount: 1 })
    );
}

#[test]
fn largest_amount_that_is_a_balance_is_held_against_its_cap() {
    let pool =
        Deposit { locked: false, reserve_x: 13_835_058_055_282_163_711, reserve_y: 1, lp_supply: 3 };
    assert_eq!(pool.deposit(4, 1, 2, LATER, NOW), Err(DepositError::SlippageExceeded));
    assert_eq!(
        pool.deposit(4, u64::MAX, 2, LATER, NOW),
        Ok(Settlement { required_x: u64::MAX, required_y: 2, lp_amount: 4 })
    );
    assert_eq!(pool.deposit(4, u64::MAX, 1, LATER, NOW), Err(DepositError::SlippageExceeded));
}

#[test]
fn deposit_reports_an_amount_that_no_balance_can_hold() {
    let pool = Deposit { locked: false, reserve_x: u64::MAX, reserve_y: 1, lp_supply: 1 };
    assert_eq!(
        pool.deposit(2, u64::MAX, u64::MAX, LATER, NOW),
        Err(DepositError::CurveError(CurveError::AmountNotRepresentable))
    );
}

#[test]
fn deposit_rounds_in_favour_of_the_pool() {
    let pool = Deposit { locked: false, reserve_x: 10, reserve_y: 7, lp_supply: 3 };
    assert_eq!(
        pool.deposit(1, 4, 3, LATER, NOW),
        Ok(Settlement { required_x: 4, required_y: 3, lp_amount: 1 })
    );
    // the amounts rounded down would have fitted these caps
    assert_eq!(pool.deposit(1, 3, 3, LATER, NOW), Err(DepositError::SlippageExceeded));
    assert_eq!(pool.deposit(1, 4, 2, LATER, NOW), Err(DepositError::SlippageExceeded));
}

#[test]
fn deposit_mints_what_was_asked_for() {
    let pool = Deposit { locked: false, reserve_x: 1_000, reserve_y: 3_000, lp_supply: 7 };
    let settled = pool.deposit(2, 1_000, 1_000, LATER, NOW).unwrap();
    assert_eq!(settled.lp_amount, 2);
    assert_eq!((settled.required_x, settled.required_y), (286, 858));
}

#[test]
fn deposit_leaves_the_snapshot_as_it_was() {
    let pool = seeded_pool();
    let before = pool;
    let _ = pool.deposit(100_000, 200_000, 300_000, LATER, NOW);
    assert_eq!(pool, before);
}

#[test]
fn quote_stage_of_an_empty_pool_hands_the_caps_back() {
    assert_eq!(empty_pool().quote(9, 500_000, 1_000_000), Ok((500_000, 1_000_000)));
    assert!(empty_pool().is_empty());
    assert!(!empty_pool().is_seeded());
}

#[test]
fn quote_stage_of_a_seeded_pool_is_proportional() {
    assert_eq!(seeded_pool().quote(100_000, 1, 1), Ok((100_000, 200_000)));
    assert!(seeded_pool().is_seeded());
    assert!(!seeded_pool().is_empty());
}

#[test]
fn pool_that_is_neither_empty_nor_seeded_says_so() {
    let pool = Deposit { locked: false, reserve_x: 5, reserve_y: 0, lp_supply: 5 };
    assert!(!pool.is_empty());
    assert!(!pool.is_seeded());
    assert_eq!(
        pool.quote(1, 10, 10),
        Err(DepositError::CurveError(CurveError::InconsistentReserves))
    );
}
