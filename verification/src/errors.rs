//! The error taxonomy shared by every component, and the classifier that
//! maps each error kind to a recoverable-or-fatal severity.

use vstd::prelude::*;

verus! {

/// How serious an error is: whether the caller may retry with corrected
/// input, or must treat its own bookkeeping as inconsistent.
#[derive(Debug, Clone, Copy, PartialEq, Eq, Structural)]
pub enum ErrorSeverity {
    Recoverable,
    Fatal,
}

/// Every failure the engine can raise. Validation failures carry the
/// offending value; prices travel in integer cents.
#[derive(Debug, Clone, PartialEq)]
pub enum NyquestroError {
    InvalidOrderID,
    InvalidPrice { value: u64 },
    InvalidQuantity,
    OrderNotFound { id: u64 },
    OrderAlreadyExists,
    OrderCannotBeCancelled,
    MatchingEngineError,
    RecoverableError,
    FatalError,
    ErrorSeverityCannotBeDetermined,
    ErrorSeverity { severity: &'static str },
}

pub type NyquestroResult<T> = Result<T, NyquestroError>;

/// The severity table: bad input is recoverable, state inconsistency is
/// fatal. The `ErrorSeverity` kind is classified recoverable whatever its
/// embedded text says.
pub open spec fn spec_severity(error: NyquestroError) -> ErrorSeverity {
    match error {
        NyquestroError::InvalidOrderID => ErrorSeverity::Recoverable,
        NyquestroError::InvalidPrice { .. } => ErrorSeverity::Recoverable,
        NyquestroError::InvalidQuantity => ErrorSeverity::Recoverable,
        NyquestroError::OrderNotFound { .. } => ErrorSeverity::Fatal,
        NyquestroError::OrderAlreadyExists => ErrorSeverity::Fatal,
        NyquestroError::OrderCannotBeCancelled => ErrorSeverity::Fatal,
        NyquestroError::MatchingEngineError => ErrorSeverity::Fatal,
        NyquestroError::RecoverableError => ErrorSeverity::Recoverable,
        NyquestroError::FatalError => ErrorSeverity::Fatal,
        NyquestroError::ErrorSeverityCannotBeDetermined => ErrorSeverity::Fatal,
        NyquestroError::ErrorSeverity { .. } => ErrorSeverity::Recoverable,
    }
}

/// Classifies an error as recoverable or fatal, exactly as the severity
/// table says.
pub fn severity(error: &NyquestroError) -> (r: ErrorSeverity)
    ensures
        r == spec_severity(*error),
{
    match error {
        NyquestroError::InvalidOrderID => ErrorSeverity::Recoverable,
        NyquestroError::InvalidPrice { .. } => ErrorSeverity::Recoverable,
        NyquestroError::InvalidQuantity => ErrorSeverity::Recoverable,
        NyquestroError::OrderNotFound { .. } => ErrorSeverity::Fatal,
        NyquestroError::OrderAlreadyExists => ErrorSeverity::Fatal,
        NyquestroError::OrderCannotBeCancelled => ErrorSeverity::Fatal,
        NyquestroError::MatchingEngineError => ErrorSeverity::Fatal,
        NyquestroError::RecoverableError => ErrorSeverity::Recoverable,
        NyquestroError::FatalError => ErrorSeverity::Fatal,
        NyquestroError::ErrorSeverityCannotBeDetermined => ErrorSeverity::Fatal,
        NyquestroError::ErrorSeverity { .. } => ErrorSeverity::Recoverable,
    }
}

} // verus!
