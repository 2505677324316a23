//! The ways in which planning a transaction can fail.

use vstd::prelude::*;

verus! {

/// Why a computation or an account lookup was given up.
#[derive(Clone, Copy, Debug, PartialEq, Eq, Structural)]
pub enum PlanError {
    /// A pool's tick spacing is zero.
    ZeroTickSpacing,
    /// A square-root price lies outside the representable domain.
    PriceOutOfRange,
    /// A tick index lies outside the protocol's tick range.
    TickOutOfRange,
    /// A tick range is inverted, empty or not aligned to the spacing.
    InvalidTickRange,
    /// The pool's current price does not lie where its current tick says.
    PriceTickMismatch,
    /// A liquidity or token amount does not fit its integer type.
    Overflow,
    /// The slippage tolerance is not a fraction the operation accepts.
    InvalidSlippage,
    /// An amount bound would be negative after fees.
    NegativeBound,
    /// No address can be derived from the seeds of an account.
    AddressNotDerivable,
    /// A token account names a mint that is no address.
    InvalidMint,
    /// A token account's own address is no address.
    InvalidTokenAccount,
    /// A token account's owner is no address.
    InvalidOwner,
    /// A token account's amount is no unsigned decimal number.
    InvalidAmount,
    /// A token account's close authority is no address.
    InvalidCloseAuthority,
    /// An owner holds no token account for the mint of a position.
    TokenAccountNotFound,
    /// The operation needs an existing position and there is none.
    PositionNotFound,
    /// The operation needs the range to be free and a position covers it.
    PositionExists,
}

/// The three classes of failure. Each ends the invocation; none is retried.
#[derive(Clone, Copy, Debug, PartialEq, Eq, Structural)]
pub enum ErrorClass {
    /// The request or the pool's numbers lie outside what can be computed.
    InputDomain,
    /// A position exists where none was expected, or the other way round.
    StateMismatch,
    /// Data read from the chain cannot be understood.
    ExternalData,
}

impl PlanError {
    /// The class of an error.
    pub open spec fn class_of(self) -> ErrorClass {
        match self {
            PlanError::InvalidMint
            | PlanError::InvalidTokenAccount
            | PlanError::InvalidOwner
            | PlanError::InvalidAmount
            | PlanError::InvalidCloseAuthority => ErrorClass::ExternalData,
            PlanError::TokenAccountNotFound
            | PlanError::PositionNotFound
            | PlanError::PositionExists => ErrorClass::StateMismatch,
            _ => ErrorClass::InputDomain,
        }
    }

    /// The class of an error.
    pub fn class(&self) -> (r: ErrorClass)
        ensures
            r == self.class_of(),
    {
        match self {
            PlanError::InvalidMint
            | PlanError::InvalidTokenAccount
            | PlanError::InvalidOwner
            | PlanError::InvalidAmount
            | PlanError::InvalidCloseAuthority => ErrorClass::ExternalData,
            PlanError::TokenAccountNotFound
            | PlanError::PositionNotFound
            | PlanError::PositionExists => ErrorClass::StateMismatch,
            _ => ErrorClass::InputDomain,
        }
    }

    /// The diagnostic of an error, as shown to the user.
    pub open spec fn message(self) -> Seq<char> {
        match self {
            PlanError::ZeroTickSpacing => "the pool's tick spacing is zero"@,
            PlanError::PriceOutOfRange => "a price lies outside the representable square-root-price domain"@,
            PlanError::TickOutOfRange => "a tick index lies outside the protocol's tick range"@,
            PlanError::InvalidTickRange => "the tick range is inverted, empty or not aligned to the tick spacing"@,
            PlanError::PriceTickMismatch => "the pool's current price does not lie where its current tick says"@,
            PlanError::Overflow => "a liquidity or token amount does not fit its integer type"@,
            PlanError::InvalidSlippage => "the slippage tolerance is not a fraction"@,
            PlanError::NegativeBound => "an amount bound would be negative after slippage and fees"@,
            PlanError::AddressNotDerivable => "no address can be derived for an account"@,
            PlanError::InvalidMint => "a token account names a mint that is no address"@,
            PlanError::InvalidTokenAccount => "a token account's own address is no address"@,
            PlanError::InvalidOwner => "a token account's owner is no address"@,
            PlanError::InvalidAmount => "a token account's amount is no unsigned decimal number"@,
            PlanError::InvalidCloseAuthority => "a token account's close authority is no address"@,
            PlanError::TokenAccountNotFound => "the owner holds no token account for the position's mint"@,
            PlanError::PositionNotFound => "the owner has no position in this pool and tick range"@,
            PlanError::PositionExists => "the owner already has a position in this pool and tick range"@,
        }
    }

    /// The diagnostic of an error, as shown to the user.
    pub fn describe(&self) -> (r: String)
        ensures
            r@ == self.message(),
    {
        match self {
            PlanError::ZeroTickSpacing => "the pool's tick spacing is zero".to_owned(),
            PlanError::PriceOutOfRange => "a price lies outside the representable square-root-price domain".to_owned(),
            PlanError::TickOutOfRange => "a tick index lies outside the protocol's tick range".to_owned(),
            PlanError::InvalidTickRange => "the tick range is inverted, empty or not aligned to the tick spacing".to_owned(),
            PlanError::PriceTickMismatch => "the pool's current price does not lie where its current tick says".to_owned(),
            PlanError::Overflow => "a liquidity or token amount does not fit its integer type".to_owned(),
            PlanError::InvalidSlippage => "the slippage tolerance is not a fraction".to_owned(),
            PlanError::NegativeBound => "an amount bound would be negative after slippage and fees".to_owned(),
            PlanError::AddressNotDerivable => "no address can be derived for an account".to_owned(),
            PlanError::InvalidMint => "a token account names a mint that is no address".to_owned(),
            PlanError::InvalidTokenAccount => "a token account's own address is no address".to_owned(),
            PlanError::InvalidOwner => "a token account's owner is no address".to_owned(),
            PlanError::InvalidAmount => "a token account's amount is no unsigned decimal number".to_owned(),
            PlanError::InvalidCloseAuthority => "a token account's close authority is no address".to_owned(),
            PlanError::TokenAccountNotFound => "the owner holds no token account for the position's mint".to_owned(),
            PlanError::PositionNotFound => "the owner has no position in this pool and tick range".to_owned(),
            PlanError::PositionExists => "the owner already has a position in this pool and tick range".to_owned(),
        }
    }
}

} // verus!
