use amm_pools::account::AccountId;
use amm_pools::events::{
    Burn, CollectProtocol, Mint, PairEvent, SetFeeProtocol, Swap, Sync, Transfer,
};
use amm_pools::pair::PairContract;
use amm_pools::pair_state::{PairError, Phase, Settlement, MINIMUM_LIQUIDITY};
use amm_pools::psp22::PSP22Error;

fn acct(tag: u8) -> AccountId {
    AccountId::from_bytes([tag; 32])
}

const OWNER: u8 = 0xf0;
const POOL: u8 = 0xee;
const ALICE: u8 = 0xa1;
const BOB: u8 = 0xb0;

fn new_pool() -> PairContract {
    let mut pool = PairContract::new(acct(OWNER), acct(POOL));
    assert_eq!(pool.initialize(acct(3), acct(4)), Ok(()));
    pool
}

/// A pool with the given reserves and no liquidity issued.
fn pool_with_reserves(reserve0: u128, reserve1: u128) -> PairContract {
    let mut pool = new_pool();
    assert_eq!(pool.sync(reserve0, reserve1), Ok(()));
    pool
}

/// A pool into which Alice has deposited 4000 and 9000.
fn funded_pool() -> PairContract {
    let mut pool = new_pool();
    assert_eq!(pool.mint(acct(ALICE), acct(ALICE), 4000, 9000), Ok(5000));
    pool
}

#[test]
fn initialize_works() {
    let mut pair = PairContract::new(acct(OWNER), acct(POOL));
    let token_0 = AccountId::from_bytes([0x03; 32]);
    let token_1 = AccountId::from_bytes([0x04; 32]);
    assert_eq!(pair.initialize(token_0, token_1), Ok(()));
    assert_eq!(pair.token_0(), token_0);
    assert_eq!(pair.token_1(), token_1);
}

#[test]
fn a_new_pool_is_empty_and_at_rest() {
    let pool = PairContract::new(acct(OWNER), acct(POOL));
    assert_eq!(pool.owner(), acct(OWNER));
    assert_eq!(pool.factory(), acct(OWNER));
    assert_eq!(pool.account_id(), acct(POOL));
    assert!(pool.token_0().is_zero());
    assert!(pool.token_1().is_zero());
    assert_eq!(pool.get_reserves(), (0, 0));
    assert_eq!(pool.total_supply(), 0);
    assert_eq!(pool.balance_of(acct(ALICE)), 0);
    assert_eq!(pool.allowance(acct(ALICE), acct(BOB)), 0);
    assert_eq!(pool.fee_protocol(), (0, 0));
    assert_eq!(pool.protocol_fees(), (0, 0));
    assert_eq!(pool.phase(), Phase::Idle);
    assert!(!pool.is_locked());
    assert!(pool.events().is_empty());
}

#[test]
fn initialize_works_once() {
    let mut pool = new_pool();
    assert_eq!(pool.initialize(acct(5), acct(6)), Err(PairError::AlreadyInitialized));
    assert_eq!(pool.token_0(), acct(3));
    assert_eq!(pool.token_1(), acct(4));
}

#[test]
fn initialize_is_refused_once_liquidity_exists() {
    let mut pool = PairContract::new(acct(OWNER), acct(POOL));
    assert_eq!(pool.mint(acct(ALICE), acct(ALICE), 4000, 9000), Ok(5000));
    assert_eq!(pool.initialize(acct(5), acct(6)), Err(PairError::AlreadyInitialized));
    assert!(pool.token_0().is_zero());
}

#[test]
fn first_mint_issues_the_root_less_the_locked_minimum() {
    let mut pool = new_pool();
    assert_eq!(pool.mint(acct(BOB), acct(ALICE), 4000, 9000), Ok(5000));
    assert_eq!(pool.total_supply(), 6000);
    assert_eq!(pool.balance_of(acct(ALICE)), 5000);
    assert_eq!(pool.balance_of(AccountId::zero()), MINIMUM_LIQUIDITY);
    assert_eq!(pool.balance_of(acct(BOB)), 0);
    assert_eq!(pool.get_reserves(), (4000, 9000));
    assert_eq!(
        pool.events().as_slice(),
        &[
            PairEvent::Transfer(Transfer {
                from: None,
                to: Some(AccountId::zero()),
                value: 1000
            }),
            PairEvent::Transfer(Transfer { from: None, to: Some(acct(ALICE)), value: 5000 }),
            PairEvent::Sync(Sync { reserve_0: 4000, reserve_1: 9000 }),
            PairEvent::Mint(Mint { sender: acct(BOB), amount_0: 4000, amount_1: 9000 }),
        ]
    );
}

#[test]
fn first_mint_rounds_the_root_down() {
    let mut pool = new_pool();
    assert_eq!(pool.mint(acct(ALICE), acct(ALICE), 1001, 1002), Ok(1));
    assert_eq!(pool.total_supply(), 1001);
}

#[test]
fn first_mint_must_exceed_the_locked_minimum() {
    let mut pool = new_pool();
    assert_eq!(
        pool.mint(acct(ALICE), acct(ALICE), 1000, 1000),
        Err(PairError::InsufficientLiquidityMinted)
    );
    assert_eq!(
        pool.mint(acct(ALICE), acct(ALICE), 0, 0),
        Err(PairError::InsufficientLiquidityMinted)
    );
    assert_eq!(
        pool.mint(acct(ALICE), acct(ALICE), u128::MAX, 0),
        Err(PairError::InsufficientLiquidityMinted)
    );
    assert_eq!(pool.total_supply(), 0);
    assert_eq!(pool.get_reserves(), (0, 0));
    assert!(pool.events().is_empty());
}

#[test]
fn first_mint_of_the_largest_deposit() {
    let mut pool = new_pool();
    assert_eq!(
        pool.mint(acct(ALICE), acct(ALICE), u128::MAX, u128::MAX),
        Ok(u128::MAX - 1000)
    );
    assert_eq!(pool.total_supply(), u128::MAX);
}

#[test]
fn later_mint_issues_the_smaller_share() {
    let mut pool = funded_pool();
    assert_eq!(pool.mint(acct(BOB), acct(BOB), 6000, 13500), Ok(3000));
    assert_eq!(pool.total_supply(), 9000);
    assert_eq!(pool.balance_of(acct(BOB)), 3000);
    assert_eq!(pool.get_reserves(), (6000, 13500));
    assert_eq!(pool.mint(acct(BOB), acct(BOB), 8000, 14400), Ok(600));
    assert_eq!(pool.balance_of(acct(BOB)), 3600);
    assert_eq!(pool.get_reserves(), (8000, 14400));
    assert_eq!(pool.events().len(), 4 + 3 + 3);
    assert_eq!(
        pool.events()[9],
        PairEvent::Mint(Mint { sender: acct(BOB), amount_0: 2000, amount_1: 900 })
    );
}

#[test]
fn later_mint_without_a_deposit_is_refused() {
    let mut pool = funded_pool();
    assert_eq!(
        pool.mint(acct(BOB), acct(BOB), 4000, 9000),
        Err(PairError::InsufficientLiquidityMinted)
    );
    assert_eq!(
        pool.mint(acct(BOB), acct(BOB), 5000, 9000),
        Err(PairError::InsufficientLiquidityMinted)
    );
    assert_eq!(
        pool.mint(acct(BOB), acct(BOB), 3000, 8000),
        Err(PairError::InsufficientLiquidityMinted)
    );
    assert_eq!(pool.total_supply(), 6000);
    assert_eq!(pool.get_reserves(), (4000, 9000));
}

#[test]
fn later_mint_into_an_emptied_reserve_is_refused() {
    let mut pool = funded_pool();
    assert_eq!(pool.sync(0, 9000), Ok(()));
    assert_eq!(
        pool.mint(acct(BOB), acct(BOB), 5000, 10000),
        Err(PairError::InsufficientLiquidityMinted)
    );
}

#[test]
fn mint_that_would_overflow_the_supply_is_refused() {
    let mut pool = new_pool();
    assert_eq!(
        pool.mint(acct(ALICE), acct(ALICE), u128::MAX - 1, u128::MAX - 1),
        Ok(u128::MAX - 1001)
    );
    assert_eq!(pool.sync(1, 1), Ok(()));
    assert_eq!(pool.mint(acct(BOB), acct(BOB), 3, 3), Err(PairError::Overflow));
    assert_eq!(pool.mint(acct(BOB), acct(BOB), 2, 2), Err(PairError::Overflow));
    assert_eq!(pool.total_supply(), u128::MAX - 1);
    assert_eq!(pool.get_reserves(), (1, 1));
}

#[test]
fn burn_pays_the_share_of_each_reserve() {
    let mut pool = funded_pool();
    assert_eq!(pool.transfer(acct(ALICE), acct(POOL), 5000), Ok(()));
    assert_eq!(pool.burn(acct(ALICE), acct(BOB)), Ok((3333, 7500)));
    assert_eq!(
        pool.phase(),
        Phase::Burn {
            sender: acct(ALICE),
            to: acct(BOB),
            liquidity: 5000,
            amount0: 3333,
            amount1: 7500
        }
    );
    assert_eq!(pool.total_supply(), 6000);
    assert_eq!(pool.settle(Settlement::Paid { balance0: 667, balance1: 1500 }), Ok(()));
    assert_eq!(pool.phase(), Phase::Idle);
    assert_eq!(pool.total_supply(), 1000);
    assert_eq!(pool.balance_of(acct(POOL)), 0);
    assert_eq!(pool.get_reserves(), (667, 1500));
    let n = pool.events().len();
    assert_eq!(
        &pool.events()[n - 3..],
        &[
            PairEvent::Transfer(Transfer { from: Some(acct(POOL)), to: None, value: 5000 }),
            PairEvent::Sync(Sync { reserve_0: 667, reserve_1: 1500 }),
            PairEvent::Burn(Burn {
                sender: acct(ALICE),
                amount_0: 3333,
                amount_1: 7500,
                to: acct(BOB)
            }),
        ]
    );
}

#[test]
fn mint_then_burn_returns_no_more_than_the_deposit() {
    let mut pool = new_pool();
    let liquidity = pool.mint(acct(ALICE), acct(ALICE), 123_456, 7_891_011).unwrap();
    assert_eq!(liquidity, 987_011 - 1000);
    assert_eq!(pool.transfer(acct(ALICE), acct(POOL), liquidity), Ok(()));
    let (amount0, amount1) = pool.burn(acct(ALICE), acct(ALICE)).unwrap();
    assert!(amount0 <= 123_456);
    assert!(amount1 <= 7_891_011);
    assert_eq!(amount0, 123330);
    assert_eq!(amount1, 7883016);
}

#[test]
fn burn_of_nothing_is_refused() {
    let mut pool = funded_pool();
    assert_eq!(pool.burn(acct(ALICE), acct(BOB)), Err(PairError::InsufficientLiquidityBurned));
    let mut empty = new_pool();
    assert_eq!(empty.burn(acct(ALICE), acct(BOB)), Err(PairError::InsufficientLiquidityBurned));
    assert!(!pool.is_locked());
}

#[test]
fn burn_that_is_worth_nothing_of_one_token_is_refused() {
    let mut pool = funded_pool();
    assert_eq!(pool.transfer(acct(ALICE), acct(POOL), 1), Ok(()));
    assert_eq!(pool.burn(acct(ALICE), acct(BOB)), Err(PairError::InsufficientLiquidityBurned));
    assert_eq!(pool.transfer(acct(ALICE), acct(POOL), 1), Ok(()));
    assert_eq!(pool.burn(acct(ALICE), acct(BOB)), Ok((1, 3)));
}

#[test]
fn a_burn_whose_payment_fails_is_undone() {
    let mut pool = funded_pool();
    assert_eq!(pool.transfer(acct(ALICE), acct(POOL), 5000), Ok(()));
    let events = pool.events().len();
    assert_eq!(pool.burn(acct(ALICE), acct(BOB)), Ok((3333, 7500)));
    assert_eq!(pool.settle(Settlement::Failed), Err(PairError::TransferFailed));
    assert_eq!(pool.phase(), Phase::Idle);
    assert_eq!(pool.total_supply(), 6000);
    assert_eq!(pool.balance_of(acct(POOL)), 5000);
    assert_eq!(pool.get_reserves(), (4000, 9000));
    assert_eq!(pool.events().len(), events);
}

#[test]
fn a_burn_whose_liquidity_left_the_pool_is_undone() {
    let mut pool = funded_pool();
    assert_eq!(pool.transfer(acct(ALICE), acct(POOL), 5000), Ok(()));
    assert_eq!(pool.burn(acct(ALICE), acct(BOB)), Ok((3333, 7500)));
    assert_eq!(pool.transfer(acct(POOL), acct(ALICE), 1), Ok(()));
    assert_eq!(
        pool.settle(Settlement::Paid { balance0: 667, balance1: 1500 }),
        Err(PairError::PSP22Error(PSP22Error::InsufficientBalance))
    );
    assert_eq!(pool.phase(), Phase::Idle);
    assert_eq!(pool.total_supply(), 6000);
    assert_eq!(pool.get_reserves(), (4000, 9000));
}

#[test]
fn swap_wants_an_output() {
    let mut pool = pool_with_reserves(1000, 1000);
    assert_eq!(pool.swap(acct(ALICE), 0, 0, acct(BOB)), Err(PairError::InsufficientOutputAmount));
    assert!(!pool.is_locked());
}

#[test]
fn swap_cannot_pay_more_than_the_reserve() {
    let mut pool = pool_with_reserves(1000, 1000);
    assert_eq!(pool.swap(acct(ALICE), 1001, 0, acct(BOB)), Err(PairError::InsufficientLiquidity));
    assert_eq!(pool.swap(acct(ALICE), 0, 1001, acct(BOB)), Err(PairError::InsufficientLiquidity));
    assert_eq!(pool.swap(acct(ALICE), 1, 1001, acct(BOB)), Err(PairError::InsufficientLiquidity));
    assert!(!pool.is_locked());
    assert_eq!(pool.swap(acct(ALICE), 1000, 0, acct(BOB)), Ok(()));
}

#[test]
fn swap_cannot_pay_to_a_token_of_the_pool() {
    let mut pool = pool_with_reserves(1000, 1000);
    assert_eq!(pool.swap(acct(ALICE), 0, 90, acct(3)), Err(PairError::InvalidTo));
    assert_eq!(pool.swap(acct(ALICE), 0, 90, acct(4)), Err(PairError::InvalidTo));
    assert_eq!(pool.swap(acct(ALICE), 0, 1001, acct(4)), Err(PairError::InsufficientLiquidity));
    assert!(!pool.is_locked());
}

#[test]
fn swap_wants_an_input() {
    let mut pool = pool_with_reserves(1000, 1000);
    assert_eq!(pool.swap(acct(ALICE), 0, 90, acct(BOB)), Ok(()));
    assert_eq!(
        pool.settle(Settlement::Paid { balance0: 1000, balance1: 910 }),
        Err(PairError::InsufficientInputAmount)
    );
    assert_eq!(pool.phase(), Phase::Idle);
    assert_eq!(pool.get_reserves(), (1000, 1000));
}

#[test]
fn swap_of_110_in_for_90_out_succeeds() {
    let mut pool = pool_with_reserves(1000, 1000);
    assert_eq!(pool.swap(acct(ALICE), 0, 90, acct(BOB)), Ok(()));
    assert_eq!(
        pool.phase(),
        Phase::Swap { sender: acct(ALICE), to: acct(BOB), amount0_out: 0, amount1_out: 90 }
    );
    assert_eq!(pool.get_reserves(), (1000, 1000));
    assert_eq!(pool.settle(Settlement::Paid { balance0: 1110, balance1: 910 }), Ok(()));
    assert_eq!(pool.get_reserves(), (1110, 910));
    assert_eq!(pool.phase(), Phase::Idle);
    let n = pool.events().len();
    assert_eq!(
        &pool.events()[n - 2..],
        &[
            PairEvent::Sync(Sync { reserve_0: 1110, reserve_1: 910 }),
            PairEvent::Swap(Swap {
                sender: acct(ALICE),
                amount_0_in: 110,
                amount_1_in: 0,
                amount_0_out: 0,
                amount_1_out: 90,
                to: acct(BOB)
            }),
        ]
    );
}

#[test]
fn swap_check_counts_the_input_less_its_fee() {
    // 100 in, of which 99.7 count: (1000 + 99.7) * 910 = 1_000_727 is enough,
    // (1000 + 99.7) * 909 = 999_627.3 is not.
    let mut pool = pool_with_reserves(1000, 1000);
    assert_eq!(pool.swap(acct(ALICE), 0, 91, acct(BOB)), Ok(()));
    assert_eq!(
        pool.settle(Settlement::Paid { balance0: 1100, balance1: 909 }),
        Err(PairError::KInvariantViolation)
    );
    assert_eq!(pool.get_reserves(), (1000, 1000));
    assert_eq!(pool.phase(), Phase::Idle);
    assert_eq!(pool.swap(acct(ALICE), 0, 90, acct(BOB)), Ok(()));
    assert_eq!(pool.settle(Settlement::Paid { balance0: 1100, balance1: 910 }), Ok(()));
    assert_eq!(pool.get_reserves(), (1100, 910));
}

#[test]
fn swap_without_the_fee_is_refused() {
    // 1000 * 1000 = 1_000_000 would hold for 1250 * 800, but the fee on 250 is missing.
    let mut pool = pool_with_reserves(1000, 1000);
    assert_eq!(pool.swap(acct(ALICE), 0, 200, acct(BOB)), Ok(()));
    assert_eq!(
        pool.settle(Settlement::Paid { balance0: 1250, balance1: 800 }),
        Err(PairError::KInvariantViolation)
    );
    assert_eq!(pool.swap(acct(ALICE), 0, 200, acct(BOB)), Ok(()));
    assert_eq!(pool.settle(Settlement::Paid { balance0: 1251, balance1: 800 }), Ok(()));
}

#[test]
fn swap_check_is_exact_at_the_largest_balances() {
    let mut pool = pool_with_reserves(u128::MAX, u128::MAX);
    assert_eq!(pool.swap(acct(ALICE), 0, 1, acct(BOB)), Ok(()));
    assert_eq!(
        pool.settle(Settlement::Paid { balance0: u128::MAX, balance1: u128::MAX - 1 }),
        Err(PairError::InsufficientInputAmount)
    );
    assert_eq!(pool.sync(u128::MAX - 10, u128::MAX), Ok(()));
    assert_eq!(pool.swap(acct(ALICE), 0, 1, acct(BOB)), Ok(()));
    assert_eq!(
        pool.settle(Settlement::Paid { balance0: u128::MAX - 9, balance1: u128::MAX - 1 }),
        Err(PairError::KInvariantViolation)
    );
    assert_eq!(pool.swap(acct(ALICE), 0, 1, acct(BOB)), Ok(()));
    assert_eq!(
        pool.settle(Settlement::Paid { balance0: u128::MAX, balance1: u128::MAX - 1 }),
        Ok(())
    );
    assert_eq!(pool.get_reserves(), (u128::MAX, u128::MAX - 1));
}

#[test]
fn swaps_never_lower_the_product_of_the_reserves() {
    let mut pool = pool_with_reserves(1_000_000, 2_000_000);
    let mut k: u128 = 1_000_000 * 2_000_000;
    let steps: [(u128, u128, u128, u128); 4] = [
        (0, 9_000, 1_004_600, 1_991_000),
        (4_000, 0, 1_000_600, 1_999_100),
        (0, 50_000, 1_000_600, 1_949_100),
        (10, 10, 1_000_700, 1_999_200),
    ];
    for (out0, out1, balance0, balance1) in steps {
        if pool.swap(acct(ALICE), out0, out1, acct(BOB)).is_ok() {
            let _ = pool.settle(Settlement::Paid { balance0, balance1 });
        }
        let (reserve0, reserve1) = pool.get_reserves();
        assert!(reserve0 * reserve1 >= k);
        k = reserve0 * reserve1;
        assert!(!pool.is_locked());
    }
    assert_eq!(pool.get_reserves(), (1_000_700, 1_999_200));
}

#[test]
fn a_swap_whose_payment_fails_is_undone() {
    let mut pool = pool_with_reserves(1000, 1000);
    let events = pool.events().len();
    assert_eq!(pool.swap(acct(ALICE), 0, 90, acct(BOB)), Ok(()));
    assert_eq!(pool.settle(Settlement::Failed), Err(PairError::TransferFailed));
    assert_eq!(pool.phase(), Phase::Idle);
    assert_eq!(pool.get_reserves(), (1000, 1000));
    assert_eq!(pool.events().len(), events);
}

#[test]
fn an_open_operation_refuses_every_other() {
    let mut pool = funded_pool();
    assert_eq!(pool.swap(acct(ALICE), 0, 90, acct(BOB)), Ok(()));
    let events = pool.events().len();
    assert!(pool.is_locked());
    assert_eq!(pool.swap(acct(BOB), 10, 0, acct(BOB)), Err(PairError::ReentrancyGuarded));
    assert_eq!(pool.swap(acct(BOB), 0, 0, acct(BOB)), Err(PairError::ReentrancyGuarded));
    assert_eq!(pool.mint(acct(BOB), acct(BOB), 9000, 9000), Err(PairError::ReentrancyGuarded));
    assert_eq!(pool.burn(acct(BOB), acct(BOB)), Err(PairError::ReentrancyGuarded));
    assert_eq!(pool.skim(9000, 9000), Err(PairError::ReentrancyGuarded));
    assert_eq!(pool.sync(1, 1), Err(PairError::ReentrancyGuarded));
    assert_eq!(pool.initialize(acct(7), acct(8)), Err(PairError::ReentrancyGuarded));
    assert_eq!(pool.set_fee_protocol(acct(OWNER), 4, 4), Err(PairError::ReentrancyGuarded));
    assert_eq!(
        pool.collect_protocol(acct(OWNER), acct(BOB)),
        Err(PairError::ReentrancyGuarded)
    );
    assert_eq!(
        pool.phase(),
        Phase::Swap { sender: acct(ALICE), to: acct(BOB), amount0_out: 0, amount1_out: 90 }
    );
    assert_eq!(pool.get_reserves(), (4000, 9000));
    assert_eq!(pool.events().len(), events);
    assert_eq!(pool.settle(Settlement::Paid { balance0: 4050, balance1: 8910 }), Ok(()));
    assert_eq!(pool.get_reserves(), (4050, 8910));

    let mut plain = funded_pool();
    assert_eq!(plain.swap(acct(ALICE), 0, 90, acct(BOB)), Ok(()));
    assert_eq!(plain.settle(Settlement::Paid { balance0: 4050, balance1: 8910 }), Ok(()));
    assert_eq!(plain.get_reserves(), pool.get_reserves());
    assert_eq!(plain.events(), pool.events());
    assert_eq!(plain.total_supply(), pool.total_supply());
}

#[test]
fn settle_without_an_operation_is_refused() {
    let mut pool = funded_pool();
    assert_eq!(
        pool.settle(Settlement::Paid { balance0: 1, balance1: 1 }),
        Err(PairError::NothingPending)
    );
    assert_eq!(pool.settle(Settlement::Failed), Err(PairError::NothingPending));
    assert_eq!(pool.get_reserves(), (4000, 9000));
}

#[test]
fn sync_sets_the_reserves() {
    let mut pool = funded_pool();
    assert_eq!(pool.sync(4100, 8000), Ok(()));
    assert_eq!(pool.get_reserves(), (4100, 8000));
    assert_eq!(
        pool.events()[pool.events().len() - 1],
        PairEvent::Sync(Sync { reserve_0: 4100, reserve_1: 8000 })
    );
    assert_eq!(pool.sync(0, u128::MAX), Ok(()));
    assert_eq!(pool.get_reserves(), (0, u128::MAX));
}

#[test]
fn skim_pays_what_exceeds_the_reserves() {
    let mut pool = funded_pool();
    assert_eq!(pool.skim(4100, 9000), Ok((100, 0)));
    assert_eq!(pool.phase(), Phase::Skim);
    assert_eq!(pool.settle(Settlement::Paid { balance0: 4000, balance1: 9000 }), Ok(()));
    assert_eq!(pool.get_reserves(), (4000, 9000));
    assert_eq!(pool.skim(3000, 9001), Ok((0, 1)));
    assert_eq!(pool.settle(Settlement::Failed), Err(PairError::TransferFailed));
    assert!(!pool.is_locked());
    assert_eq!(pool.skim(4000, 9000), Ok((0, 0)));
}

#[test]
fn set_fee_protocol_is_for_the_owner() {
    let mut pool = funded_pool();
    assert_eq!(pool.set_fee_protocol(acct(ALICE), 4, 5), Err(PairError::Unauthorized));
    assert_eq!(pool.fee_protocol(), (0, 0));
    assert_eq!(pool.set_fee_protocol(acct(OWNER), 4, 5), Ok(()));
    assert_eq!(pool.fee_protocol(), (4, 5));
    assert_eq!(pool.set_fee_protocol(acct(OWNER), 0, 10), Ok(()));
    let n = pool.events().len();
    assert_eq!(
        &pool.events()[n - 2..],
        &[
            PairEvent::SetFeeProtocol(SetFeeProtocol {
                fee_protocol0_old: 0,
                fee_protocol1_old: 0,
                fee_protocol0_new: 4,
                fee_protocol1_new: 5
            }),
            PairEvent::SetFeeProtocol(SetFeeProtocol {
                fee_protocol0_old: 4,
                fee_protocol1_old: 5,
                fee_protocol0_new: 0,
                fee_protocol1_new: 10
            }),
        ]
    );
}

#[test]
fn a_swap_accrues_the_protocol_share_of_the_fee() {
    let mut pool = pool_with_reserves(1_000_000, 1_000_000);
    assert_eq!(pool.set_fee_protocol(acct(OWNER), 4, 1), Ok(()));
    assert_eq!(pool.swap(acct(ALICE), 0, 9_000, acct(BOB)), Ok(()));
    assert_eq!(pool.settle(Settlement::Paid { balance0: 1_010_000, balance1: 991_000 }), Ok(()));
    assert_eq!(pool.protocol_fees(), (7, 0));
    assert_eq!(pool.swap(acct(ALICE), 9_000, 0, acct(BOB)), Ok(()));
    assert_eq!(pool.settle(Settlement::Paid { balance0: 1_001_000, balance1: 1_001_999 }), Ok(()));
    assert_eq!(pool.protocol_fees(), (7, 32));
}

#[test]
fn without_a_protocol_share_nothing_accrues() {
    let mut pool = pool_with_reserves(1_000_000, 1_000_000);
    assert_eq!(pool.swap(acct(ALICE), 0, 9_000, acct(BOB)), Ok(()));
    assert_eq!(pool.settle(Settlement::Paid { balance0: 1_010_000, balance1: 991_000 }), Ok(()));
    assert_eq!(pool.protocol_fees(), (0, 0));
}

#[test]
fn collect_protocol_pays_the_accrued_fees_to_the_recipient() {
    let mut pool = pool_with_reserves(1_000_000, 1_000_000);
    assert_eq!(pool.set_fee_protocol(acct(OWNER), 4, 0), Ok(()));
    assert_eq!(pool.swap(acct(ALICE), 0, 9_000, acct(BOB)), Ok(()));
    assert_eq!(pool.settle(Settlement::Paid { balance0: 1_010_000, balance1: 991_000 }), Ok(()));
    assert_eq!(pool.collect_protocol(acct(ALICE), acct(BOB)), Err(PairError::Unauthorized));
    assert_eq!(pool.collect_protocol(acct(OWNER), acct(BOB)), Ok((7, 0)));
    assert_eq!(
        pool.phase(),
        Phase::Collect { sender: acct(OWNER), recipient: acct(BOB), amount0: 7, amount1: 0 }
    );
    assert_eq!(pool.protocol_fees(), (7, 0));
    assert_eq!(pool.settle(Settlement::Paid { balance0: 1_009_993, balance1: 991_000 }), Ok(()));
    assert_eq!(pool.protocol_fees(), (0, 0));
    assert_eq!(pool.get_reserves(), (1_009_993, 991_000));
    let n = pool.events().len();
    assert_eq!(
        &pool.events()[n - 2..],
        &[
            PairEvent::Sync(Sync { reserve_0: 1_009_993, reserve_1: 991_000 }),
            PairEvent::CollectProtocol(CollectProtocol {
                sender: acct(OWNER),
                recipient: acct(BOB),
                amount0: 7,
                amount1: 0
            }),
        ]
    );
}

#[test]
fn a_collection_whose_payment_fails_is_undone() {
    let mut pool = pool_with_reserves(1_000_000, 1_000_000);
    assert_eq!(pool.set_fee_protocol(acct(OWNER), 1, 0), Ok(()));
    assert_eq!(pool.swap(acct(ALICE), 0, 9_000, acct(BOB)), Ok(()));
    assert_eq!(pool.settle(Settlement::Paid { balance0: 1_010_000, balance1: 991_000 }), Ok(()));
    assert_eq!(pool.collect_protocol(acct(OWNER), acct(BOB)), Ok((30, 0)));
    assert_eq!(pool.settle(Settlement::Failed), Err(PairError::TransferFailed));
    assert_eq!(pool.protocol_fees(), (30, 0));
    assert_eq!(pool.get_reserves(), (1_010_000, 991_000));
}

#[test]
fn collect_protocol_cannot_pay_more_than_the_reserves() {
    let mut pool = pool_with_reserves(1_000_000, 1_000_000);
    assert_eq!(pool.set_fee_protocol(acct(OWNER), 1, 0), Ok(()));
    assert_eq!(pool.swap(acct(ALICE), 0, 9_000, acct(BOB)), Ok(()));
    assert_eq!(pool.settle(Settlement::Paid { balance0: 1_010_000, balance1: 991_000 }), Ok(()));
    assert_eq!(pool.sync(29, 991_000), Ok(()));
    assert_eq!(
        pool.collect_protocol(acct(OWNER), acct(BOB)),
        Err(PairError::InsufficientLiquidity)
    );
    assert!(!pool.is_locked());
    assert_eq!(pool.sync(30, 991_000), Ok(()));
    assert_eq!(pool.collect_protocol(acct(OWNER), acct(BOB)), Ok((30, 0)));
    assert_eq!(pool.settle(Settlement::Paid { balance0: 0, balance1: 991_000 }), Ok(()));
    assert_eq!(pool.get_reserves(), (0, 991_000));
}

#[test]
fn transfer_moves_liquidity() {
    let mut pool = funded_pool();
    assert_eq!(pool.transfer(acct(ALICE), acct(BOB), 1200), Ok(()));
    assert_eq!(pool.balance_of(acct(ALICE)), 3800);
    assert_eq!(pool.balance_of(acct(BOB)), 1200);
    assert_eq!(pool.total_supply(), 6000);
    assert_eq!(
        pool.events()[pool.events().len() - 1],
        PairEvent::Transfer(Transfer {
            from: Some(acct(ALICE)),
            to: Some(acct(BOB)),
            value: 1200
        })
    );
    assert_eq!(pool.transfer(acct(ALICE), acct(BOB), 3801), Err(PSP22Error::InsufficientBalance));
    assert_eq!(pool.balance_of(acct(ALICE)), 3800);
    assert_eq!(pool.transfer(acct(ALICE), acct(ALICE), 3800), Ok(()));
    assert_eq!(pool.balance_of(acct(ALICE)), 3800);
}

#[test]
fn transfer_from_spends_the_allowance() {
    let mut pool = funded_pool();
    assert_eq!(
        pool.transfer_from(acct(BOB), acct(ALICE), acct(BOB), 1),
        Err(PSP22Error::InsufficientAllowance)
    );
    assert_eq!(pool.approve(acct(ALICE), acct(BOB), 1000), Ok(()));
    assert_eq!(pool.allowance(acct(ALICE), acct(BOB)), 1000);
    assert_eq!(pool.allowance(acct(BOB), acct(ALICE)), 0);
    assert_eq!(pool.transfer_from(acct(BOB), acct(ALICE), acct(POOL), 400), Ok(()));
    assert_eq!(pool.allowance(acct(ALICE), acct(BOB)), 600);
    assert_eq!(pool.balance_of(acct(ALICE)), 4600);
    assert_eq!(pool.balance_of(acct(POOL)), 400);
    assert_eq!(
        pool.transfer_from(acct(BOB), acct(ALICE), acct(POOL), 601),
        Err(PSP22Error::InsufficientAllowance)
    );
    assert_eq!(pool.allowance(acct(ALICE), acct(BOB)), 600);
    assert_eq!(pool.approve(acct(ALICE), acct(BOB), 10_000), Ok(()));
    assert_eq!(
        pool.transfer_from(acct(BOB), acct(ALICE), acct(POOL), 4601),
        Err(PSP22Error::InsufficientBalance)
    );
    assert_eq!(pool.allowance(acct(ALICE), acct(BOB)), 10_000);
    assert_eq!(pool.balance_of(acct(ALICE)), 4600);
}

#[test]
fn the_largest_allowance_is_never_reduced() {
    let mut pool = funded_pool();
    assert_eq!(pool.approve(acct(ALICE), acct(BOB), u128::MAX), Ok(()));
    assert_eq!(pool.transfer_from(acct(BOB), acct(ALICE), acct(BOB), 5000), Ok(()));
    assert_eq!(pool.allowance(acct(ALICE), acct(BOB)), u128::MAX);
    assert_eq!(pool.balance_of(acct(BOB)), 5000);
    assert_eq!(pool.balance_of(acct(ALICE)), 0);
    assert_eq!(
        pool.transfer_from(acct(BOB), acct(ALICE), acct(BOB), 1),
        Err(PSP22Error::InsufficientBalance)
    );
}
