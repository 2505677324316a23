use clmm_positions::address::Address;
use clmm_positions::error::PlanError;
use clmm_positions::fee::{
    deposit_max, transfer_fee, transfer_inverse_fee, withdrawal_min, TransferFeeInfo,
};
use clmm_positions::slippage::{amount_with_slippage, Slippage};
use spl_token_2022::extension::transfer_fee::TransferFee;

fn tolerance(numerator: u32, denominator: u32) -> Slippage {
    Slippage::new(numerator, denominator).unwrap()
}

fn fee_info(basis_points: u16, maximum_fee: u64) -> TransferFeeInfo {
    TransferFeeInfo { owner: Address { bytes: [4; 32] }, basis_points, maximum_fee }
}

fn token_fee(basis_points: u16, maximum_fee: u64) -> TransferFee {
    TransferFee {
        epoch: 0.into(),
        maximum_fee: maximum_fee.into(),
        transfer_fee_basis_points: basis_points.into(),
    }
}

#[test]
fn slippage_new_needs_a_denominator() {
    assert_eq!(Slippage::new(1, 100), Some(Slippage { numerator: 1, denominator: 100 }));
    assert_eq!(Slippage::new(0, 1), Some(Slippage { numerator: 0, denominator: 1 }));
    assert_eq!(Slippage::new(1, 0), None);
    assert_eq!(Slippage::new(0, 0), None);
}

#[test]
fn deposit_bound_is_inflated_and_rounded_up() {
    assert_eq!(amount_with_slippage(1000, tolerance(1, 100)), Ok(1010));
    assert_eq!(amount_with_slippage(1011, tolerance(1, 100)), Ok(1022));
    assert_eq!(amount_with_slippage(1, tolerance(1, 100)), Ok(2));
    assert_eq!(amount_with_slippage(3, tolerance(1, 3)), Ok(4));
    assert_eq!(amount_with_slippage(0, tolerance(1, 100)), Ok(0));
    assert_eq!(amount_with_slippage(1000, tolerance(0, 100)), Ok(1000));
    assert_eq!(amount_with_slippage(1000, tolerance(3, 2)), Ok(2500));
    assert_eq!(amount_with_slippage(u64::MAX as i128, tolerance(0, 7)), Ok(u64::MAX));
}

#[test]
fn withdrawal_bound_is_deflated_and_rounded_down() {
    assert_eq!(amount_with_slippage(-1000, tolerance(1, 100)), Ok(990));
    assert_eq!(amount_with_slippage(-1010, tolerance(1, 100)), Ok(999));
    assert_eq!(amount_with_slippage(-1, tolerance(1, 100)), Ok(0));
    assert_eq!(amount_with_slippage(-3, tolerance(1, 3)), Ok(2));
    assert_eq!(amount_with_slippage(-1000, tolerance(0, 100)), Ok(1000));
    assert_eq!(amount_with_slippage(-1000, tolerance(1, 1)), Ok(0));
    assert_eq!(amount_with_slippage(-(u64::MAX as i128), tolerance(0, 7)), Ok(u64::MAX));
    assert_eq!(
        amount_with_slippage(-(u64::MAX as i128), tolerance(1, u32::MAX)),
        Ok(u64::MAX - 4294967297)
    );
}

#[test]
fn slippage_errors() {
    let broken = Slippage { numerator: 1, denominator: 0 };
    assert_eq!(amount_with_slippage(1000, broken), Err(PlanError::InvalidSlippage));
    assert_eq!(amount_with_slippage(-1000, broken), Err(PlanError::InvalidSlippage));
    assert_eq!(amount_with_slippage(u64::MAX as i128 + 1, tolerance(0, 1)), Err(PlanError::Overflow));
    assert_eq!(
        amount_with_slippage(-(u64::MAX as i128) - 1, tolerance(0, 1)),
        Err(PlanError::Overflow)
    );
    assert_eq!(amount_with_slippage(u64::MAX as i128, tolerance(1, 100)), Err(PlanError::Overflow));
    assert_eq!(amount_with_slippage(i128::MAX, tolerance(1, 100)), Err(PlanError::Overflow));
    assert_eq!(amount_with_slippage(i128::MIN, tolerance(1, 100)), Err(PlanError::Overflow));
    assert_eq!(amount_with_slippage(-1000, tolerance(101, 100)), Err(PlanError::NegativeBound));
    assert_eq!(amount_with_slippage(-1, tolerance(2, 1)), Err(PlanError::NegativeBound));
}

#[test]
fn a_greater_slippage_never_narrows_a_bound() {
    let ladder = [
        tolerance(0, 1),
        tolerance(1, 1000),
        tolerance(1, 100),
        tolerance(5, 100),
        tolerance(1, 3),
        tolerance(1, 2),
        tolerance(99, 100),
        tolerance(1, 1),
    ];
    for amount in [0i128, 1, 2, 3, 999, 1000, 123_456_789, 1 << 62] {
        for pair in ladder.windows(2) {
            let upper_small = amount_with_slippage(amount, pair[0]).unwrap();
            let upper_great = amount_with_slippage(amount, pair[1]).unwrap();
            assert!(upper_small <= upper_great);
            assert!(upper_small as i128 >= amount);
            let lower_small = amount_with_slippage(-amount, pair[0]).unwrap();
            let lower_great = amount_with_slippage(-amount, pair[1]).unwrap();
            assert!(lower_great <= lower_small);
            assert!(lower_small as i128 <= amount);
        }
    }
}

#[test]
fn transfer_fee_is_the_capped_rate_rounded_up() {
    assert_eq!(transfer_fee(&fee_info(0, 500), 1_000_000), Ok(0));
    assert_eq!(transfer_fee(&fee_info(100, 500), 0), Ok(0));
    assert_eq!(transfer_fee(&fee_info(100, 5000), 1000), Ok(10));
    assert_eq!(transfer_fee(&fee_info(100, 5000), 1001), Ok(11));
    assert_eq!(transfer_fee(&fee_info(100, 5), 1000), Ok(5));
    assert_eq!(transfer_fee(&fee_info(10_000, u64::MAX), 1234), Ok(1234));
    assert_eq!(transfer_fee(&fee_info(1, u64::MAX), 1), Ok(1));
    assert_eq!(transfer_fee(&fee_info(u16::MAX, u64::MAX), u64::MAX), Err(PlanError::Overflow));
}

#[test]
fn transfer_fee_agrees_with_the_token_library() {
    for basis_points in [0u16, 1, 50, 100, 9_999, 10_000] {
        for maximum_fee in [0u64, 7, 5_000, u64::MAX] {
            for amount in [0u64, 1, 99, 10_000, 1 << 40, u64::MAX] {
                assert_eq!(
                    transfer_fee(&fee_info(basis_points, maximum_fee), amount).ok(),
                    token_fee(basis_points, maximum_fee).calculate_fee(amount)
                );
            }
        }
    }
}

#[test]
fn inverse_fee_covers_the_fee_on_the_way_in() {
    assert_eq!(transfer_inverse_fee(&fee_info(0, 500), 1000), Ok(0));
    assert_eq!(transfer_inverse_fee(&fee_info(100, 5000), 990), Ok(10));
    assert_eq!(transfer_inverse_fee(&fee_info(100, 5000), 0), Ok(0));
    assert_eq!(transfer_inverse_fee(&fee_info(1000, 5000), 9), Ok(1));
    assert_eq!(transfer_inverse_fee(&fee_info(100, 5), 1000), Ok(5));
    assert_eq!(transfer_inverse_fee(&fee_info(10_000, 77), 1000), Ok(77));
    assert_eq!(transfer_inverse_fee(&fee_info(10_000, 77), 0), Ok(77));
    assert_eq!(transfer_inverse_fee(&fee_info(10_001, 77), 1000), Err(PlanError::Overflow));
    assert_eq!(transfer_inverse_fee(&fee_info(100, u64::MAX), u64::MAX), Err(PlanError::Overflow));
}

#[test]
fn inverse_fee_agrees_with_the_token_library_below_full_rate() {
    for basis_points in [0u16, 1, 50, 100, 5_000, 9_999, 10_001, u16::MAX] {
        for maximum_fee in [0u64, 7, 5_000, u64::MAX] {
            for amount in [0u64, 1, 9, 99, 10_000, 1 << 40, u64::MAX - 1, u64::MAX] {
                assert_eq!(
                    transfer_inverse_fee(&fee_info(basis_points, maximum_fee), amount).ok(),
                    token_fee(basis_points, maximum_fee).calculate_inverse_fee(amount)
                );
            }
        }
    }
}

#[test]
fn deposit_max_adds_the_fee() {
    assert_eq!(deposit_max(&fee_info(0, 0), 1010), Ok(1010));
    assert_eq!(deposit_max(&fee_info(100, 5000), 990), Ok(1000));
    assert_eq!(deposit_max(&fee_info(100, 5), 1000), Ok(1005));
    assert_eq!(deposit_max(&fee_info(10_000, 77), 1000), Ok(1077));
    assert_eq!(deposit_max(&fee_info(0, 0), u64::MAX), Ok(u64::MAX));
    assert_eq!(deposit_max(&fee_info(10_000, 1), u64::MAX), Err(PlanError::Overflow));
    assert_eq!(deposit_max(&fee_info(100, 10), u64::MAX - 5), Err(PlanError::Overflow));
    assert_eq!(deposit_max(&fee_info(10_001, 10), 5), Err(PlanError::Overflow));
}

#[test]
fn withdrawal_min_subtracts_the_fee() {
    assert_eq!(withdrawal_min(&fee_info(0, 0), 990), Ok(990));
    assert_eq!(withdrawal_min(&fee_info(100, 5000), 1000), Ok(990));
    assert_eq!(withdrawal_min(&fee_info(100, 5), 1000), Ok(995));
    assert_eq!(withdrawal_min(&fee_info(10_000, u64::MAX), 1000), Ok(0));
    assert_eq!(withdrawal_min(&fee_info(100, 5), 0), Ok(0));
    assert_eq!(withdrawal_min(&fee_info(20_000, u64::MAX), 1000), Err(PlanError::NegativeBound));
    assert_eq!(withdrawal_min(&fee_info(u16::MAX, u64::MAX), u64::MAX), Err(PlanError::Overflow));
}
