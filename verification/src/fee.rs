//! Transfer fees of a mint, and amount bounds that account for them.

use crate::address::Address;
use crate::error::PlanError;
use crate::liquidity::ceil_div;
use spl_token_2022::extension::transfer_fee::TransferFee;
use vstd::prelude::*;

verus! {

/// A fee rate of one hundred percent, in basis points.
pub const MAX_FEE_BASIS_POINTS: u16 = 10_000;

/// The transfer-fee parameters of a mint and the token program that owns
/// it. A mint without a transfer fee has zero basis points.
#[derive(Clone, Copy, Debug, PartialEq, Eq)]
pub struct TransferFeeInfo {
    pub owner: Address,
    pub basis_points: u16,
    pub maximum_fee: u64,
}

/// The fee on a transfer before the cap: `amount * basis_points / 10000`,
/// rounded up.
pub open spec fn raw_fee(basis_points: u16, amount: int) -> int {
    ceil_div(amount * basis_points, 10_000)
}

/// The fee withheld from a transfer of `amount`: the raw fee, capped at
/// the maximum fee. `None` where the raw fee leaves 64 bits.
pub open spec fn fee_spec(basis_points: u16, maximum_fee: u64, amount: u64) -> Option<u64> {
    if basis_points == 0 || amount == 0 {
        Some(0u64)
    } else if raw_fee(basis_points, amount as int) > u64::MAX {
        None
    } else if raw_fee(basis_points, amount as int) <= maximum_fee {
        Some(raw_fee(basis_points, amount as int) as u64)
    } else {
        Some(maximum_fee)
    }
}

/// The least amount to send so that `amount` arrives once the fee is
/// withheld. `None` where none exists in 64 bits or the rate is above one
/// hundred percent; zero at a rate of exactly one hundred percent.
pub open spec fn pre_fee_amount_spec(basis_points: u16, maximum_fee: u64, amount: u64) -> Option<
    u64,
> {
    if basis_points == 0 {
        Some(amount)
    } else if basis_points == 10_000 || amount == 0 {
        Some(0u64)
    } else if basis_points > 10_000 {
        None
    } else {
        let raw = ceil_div(amount * 10_000, 10_000 - basis_points);
        if raw - amount >= maximum_fee {
            if amount + maximum_fee <= u64::MAX {
                Some((amount + maximum_fee) as u64)
            } else {
                None
            }
        } else if raw <= u64::MAX {
            Some(raw as u64)
        } else {
            None
        }
    }
}

/// The fee on the least amount to send so that `amount` arrives.
pub open spec fn inverse_fee_spec(basis_points: u16, maximum_fee: u64, amount: u64) -> Option<u64> {
    match pre_fee_amount_spec(basis_points, maximum_fee, amount) {
        Some(pre) => fee_spec(basis_points, maximum_fee, pre),
        None => None,
    }
}

/// Trusted: `TransferFee::calculate_fee` returns `fee_spec` of the fee's
/// basis points and maximum and of the amount.
#[verifier::external_body]
fn calculate_fee(basis_points: u16, maximum_fee: u64, pre_fee_amount: u64) -> (r: Option<u64>)
    ensures
        r == fee_spec(basis_points, maximum_fee, pre_fee_amount),
{
    let fee = TransferFee {
        epoch: 0.into(),
        maximum_fee: maximum_fee.into(),
        transfer_fee_basis_points: basis_points.into(),
    };
    fee.calculate_fee(pre_fee_amount)
}

/// Trusted: `TransferFee::calculate_inverse_fee` returns `inverse_fee_spec`
/// of the fee's basis points and maximum and of the amount.
#[verifier::external_body]
fn calculate_inverse_fee(basis_points: u16, maximum_fee: u64, post_fee_amount: u64) -> (r: Option<
    u64,
>)
    ensures
        r == inverse_fee_spec(basis_points, maximum_fee, post_fee_amount),
{
    let fee = TransferFee {
        epoch: 0.into(),
        maximum_fee: maximum_fee.into(),
        transfer_fee_basis_points: basis_points.into(),
    };
    fee.calculate_inverse_fee(post_fee_amount)
}

/// The fee to add to a deposit so that `amount` arrives: the whole maximum
/// fee at a rate of one hundred percent, else the fee on the least amount
/// to send.
pub open spec fn deposit_fee_spec(info: TransferFeeInfo, amount: u64) -> Option<u64> {
    if info.basis_points == MAX_FEE_BASIS_POINTS {
        Some(info.maximum_fee)
    } else {
        inverse_fee_spec(info.basis_points, info.maximum_fee, amount)
    }
}

/// The fee withheld from a transfer of `amount` of a mint.
pub fn transfer_fee(info: &TransferFeeInfo, amount: u64) -> (r: Result<u64, PlanError>)
    ensures
        r is Ok <==> fee_spec(info.basis_points, info.maximum_fee, amount) is Some,
        r is Ok ==> Some(r->Ok_0) == fee_spec(info.basis_points, info.maximum_fee, amount),
        r is Err ==> r->Err_0 == PlanError::Overflow,
{
    match calculate_fee(info.basis_points, info.maximum_fee, amount) {
        Some(fee) => Ok(fee),
        None => Err(PlanError::Overflow),
    }
}

/// The fee to add to a deposit of a mint so that `amount` arrives.
pub fn transfer_inverse_fee(info: &TransferFeeInfo, amount: u64) -> (r: Result<u64, PlanError>)
    ensures
        r is Ok <==> deposit_fee_spec(*info, amount) is Some,
        r is Ok ==> Some(r->Ok_0) == deposit_fee_spec(*info, amount),
        r is Err ==> r->Err_0 == PlanError::Overflow,
{
    if info.basis_points == MAX_FEE_BASIS_POINTS {
        return Ok(info.maximum_fee);
    }
    match calculate_inverse_fee(info.basis_points, info.maximum_fee, amount) {
        Some(fee) => Ok(fee),
        None => Err(PlanError::Overflow),
    }
}

/// The most to send of a mint so that a deposit bounded by `amount`
/// arrives: the bound plus the fee on the way in.
pub open spec fn deposit_max_spec(info: TransferFeeInfo, amount: u64) -> Option<u64> {
    match deposit_fee_spec(info, amount) {
        Some(fee) => if amount + fee <= u64::MAX {
            Some((amount + fee) as u64)
        } else {
            None
        },
        None => None,
    }
}

/// The least to receive of a mint from a withdrawal bounded by `amount`:
/// the bound less the fee on the way out. `Err(NegativeBound)` where the
/// fee is above the bound.
pub open spec fn withdrawal_min_spec(info: TransferFeeInfo, amount: u64) -> Result<u64, PlanError> {
    match fee_spec(info.basis_points, info.maximum_fee, amount) {
        Some(fee) => if fee <= amount {
            Ok((amount - fee) as u64)
        } else {
            Err(PlanError::NegativeBound)
        },
        None => Err(PlanError::Overflow),
    }
}

/// The most to send of a mint so that a deposit bounded by `amount`
/// arrives, or the overflow that stands in its way.
pub open spec fn deposit_max_result(info: TransferFeeInfo, amount: u64) -> Result<u64, PlanError> {
    match deposit_max_spec(info, amount) {
        Some(total) => Ok(total),
        None => Err(PlanError::Overflow),
    }
}

/// The most to send of a mint so that a deposit bounded by `amount`
/// arrives.
pub fn deposit_max(info: &TransferFeeInfo, amount: u64) -> (r: Result<u64, PlanError>)
    ensures
        r == deposit_max_result(*info, amount),
        r is Ok <==> deposit_max_spec(*info, amount) is Some,
        r is Ok ==> Some(r->Ok_0) == deposit_max_spec(*info, amount),
        r is Ok ==> r->Ok_0 >= amount,
        r is Err ==> r->Err_0 == PlanError::Overflow,
{
    let fee = transfer_inverse_fee(info, amount)?;
    match amount.checked_add(fee) {
        Some(total) => Ok(total),
        None => Err(PlanError::Overflow),
    }
}

/// The least to receive of a mint from a withdrawal bounded by `amount`.
pub fn withdrawal_min(info: &TransferFeeInfo, amount: u64) -> (r: Result<u64, PlanError>)
    ensures
        r == withdrawal_min_spec(*info, amount),
        r is Ok ==> r->Ok_0 <= amount,
{
    let fee = transfer_fee(info, amount)?;
    match amount.checked_sub(fee) {
        Some(rest) => Ok(rest),
        None => Err(PlanError::NegativeBound),
    }
}

} // verus!
