use clmm_positions::error::{PlanError, ErrorClass};

fn every_error() -> Vec<PlanError> {
    vec![
        PlanError::ZeroTickSpacing,
        PlanError::PriceOutOfRange,
        PlanError::TickOutOfRange,
        PlanError::InvalidTickRange,
        PlanError::PriceTickMismatch,
        PlanError::Overflow,
        PlanError::InvalidSlippage,
        PlanError::NegativeBound,
        PlanError::AddressNotDerivable,
        PlanError::InvalidMint,
        PlanError::InvalidTokenAccount,
        PlanError::InvalidOwner,
        PlanError::InvalidAmount,
        PlanError::InvalidCloseAuthority,
        PlanError::TokenAccountNotFound,
        PlanError::PositionNotFound,
        PlanError::PositionExists,
    ]
}

#[test]
fn every_error_has_its_own_message() {
    let errors = every_error();
    for (i, a) in errors.iter().enumerate() {
        assert!(!a.describe().is_empty());
        for b in errors.iter().skip(i + 1) {
            assert_ne!(a.describe(), b.describe());
        }
    }
    assert_eq!(PlanError::ZeroTickSpacing.describe(), "the pool's tick spacing is zero");
    assert_eq!(
        PlanError::PositionNotFound.describe(),
        "the owner has no position in this pool and tick range"
    );
    assert_eq!(
        PlanError::PositionExists.describe(),
        "the owner already has a position in this pool and tick range"
    );
    assert_eq!(
        PlanError::Overflow.describe(),
        "a liquidity or token amount does not fit its integer type"
    );
}

#[test]
fn errors_fall_into_three_classes() {
    assert_eq!(PlanError::PriceOutOfRange.class(), ErrorClass::InputDomain);
    assert_eq!(PlanError::InvalidTickRange.class(), ErrorClass::InputDomain);
    assert_eq!(PlanError::Overflow.class(), ErrorClass::InputDomain);
    assert_eq!(PlanError::NegativeBound.class(), ErrorClass::InputDomain);
    assert_eq!(PlanError::ZeroTickSpacing.class(), ErrorClass::InputDomain);
    assert_eq!(PlanError::PositionNotFound.class(), ErrorClass::StateMismatch);
    assert_eq!(PlanError::PositionExists.class(), ErrorClass::StateMismatch);
    assert_eq!(PlanError::TokenAccountNotFound.class(), ErrorClass::StateMismatch);
    assert_eq!(PlanError::InvalidMint.class(), ErrorClass::ExternalData);
    assert_eq!(PlanError::InvalidTokenAccount.class(), ErrorClass::ExternalData);
    assert_eq!(PlanError::InvalidOwner.class(), ErrorClass::ExternalData);
    assert_eq!(PlanError::InvalidAmount.class(), ErrorClass::ExternalData);
    assert_eq!(PlanError::InvalidCloseAuthority.class(), ErrorClass::ExternalData);
    let mut counts = [0usize; 3];
    for e in every_error() {
        match e.class() {
            ErrorClass::InputDomain => counts[0] += 1,
            ErrorClass::StateMismatch => counts[1] += 1,
            ErrorClass::ExternalData => counts[2] += 1,
        }
    }
    assert_eq!(counts, [9, 3, 5]);
}
