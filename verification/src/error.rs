//! The errors that the contract's entry points return.
use vstd::prelude::*;

verus! {

/// Why an entry point of the contract refused a request.
#[derive(Copy, Clone, Debug, PartialEq, Eq, PartialOrd, Ord, Structural)]
pub enum ContractError {
    InvalidPrecision,
    NegativeAmount,
    Underflow,
    Overflow,
    InsufficientPayment,
    InsufficientBalance,
    PaymentAssetNotFound,
    AdminNotFound,
    EGAccountNotFound,
    PaymasterNotFound,
    ErrandNotFound,
    ErrandAlreadyFunded,
    InvalidErrandState,
    UndisputedErrandState,
    UnCompletedErrandState,
    InvalidPercent,
}

/// The number under which each error is reported to the contract's callers.
pub open spec fn error_code(e: ContractError) -> u32 {
    match e {
        ContractError::InvalidPrecision => 301,
        ContractError::NegativeAmount => 303,
        ContractError::Underflow => 305,
        ContractError::Overflow => 306,
        ContractError::InsufficientPayment => 307,
        ContractError::InsufficientBalance => 309,
        ContractError::PaymentAssetNotFound => 311,
        ContractError::AdminNotFound => 313,
        ContractError::EGAccountNotFound => 315,
        ContractError::PaymasterNotFound => 317,
        ContractError::ErrandNotFound => 319,
        ContractError::ErrandAlreadyFunded => 320,
        ContractError::InvalidErrandState => 321,
        ContractError::UndisputedErrandState => 323,
        ContractError::UnCompletedErrandState => 325,
        ContractError::InvalidPercent => 327,
    }
}

impl ContractError {
    /// The error's number, as the contract reports it.
    pub fn code(&self) -> (c: u32)
        ensures
            c == error_code(*self),
    {
        match self {
            ContractError::InvalidPrecision => 301,
            ContractError::NegativeAmount => 303,
            ContractError::Underflow => 305,
            ContractError::Overflow => 306,
            ContractError::InsufficientPayment => 307,
            ContractError::InsufficientBalance => 309,
            ContractError::PaymentAssetNotFound => 311,
            ContractError::AdminNotFound => 313,
            ContractError::EGAccountNotFound => 315,
            ContractError::PaymasterNotFound => 317,
            ContractError::ErrandNotFound => 319,
            ContractError::ErrandAlreadyFunded => 320,
            ContractError::InvalidErrandState => 321,
            ContractError::UndisputedErrandState => 323,
            ContractError::UnCompletedErrandState => 325,
            ContractError::InvalidPercent => 327,
        }
    }

    /// The error whose number is `c`, if there is one.
    pub fn from_code(c: u32) -> (r: Option<ContractError>)
        ensures
            match r {
                Some(e) => error_code(e) == c,
                None => forall|e: ContractError| error_code(e) != c,
            },
    {
        match c {
            301 => Some(ContractError::InvalidPrecision),
            303 => Some(ContractError::NegativeAmount),
            305 => Some(ContractError::Underflow),
            306 => Some(ContractError::Overflow),
            307 => Some(ContractError::InsufficientPayment),
            309 => Some(ContractError::InsufficientBalance),
            311 => Some(ContractError::PaymentAssetNotFound),
            313 => Some(ContractError::AdminNotFound),
            315 => Some(ContractError::EGAccountNotFound),
            317 => Some(ContractError::PaymasterNotFound),
            319 => Some(ContractError::ErrandNotFound),
            320 => Some(ContractError::ErrandAlreadyFunded),
            321 => Some(ContractError::InvalidErrandState),
            323 => Some(ContractError::UndisputedErrandState),
            325 => Some(ContractError::UnCompletedErrandState),
            327 => Some(ContractError::InvalidPercent),
            _ => None,
        }
    }
}

} // verus!
