use vstd::prelude::*;

verus! {

/// The failures a step of the relay can report.
#[derive(Debug, Clone, Copy, PartialEq, Eq, Structural)]
pub enum AppError {
    /// The backing store could not be reached (fetch or ledger I/O).
    StoreUnavailable,
    /// The payload does not carry the expected fields.
    InvalidPayload,
    /// The destination is not a well-formed address.
    InvalidAddress,
    /// The amount is not a non-negative decimal integer that fits in 256 bits.
    InvalidAmount,
    /// The gateway refused or failed the submission.
    Submission,
}

impl AppError {
    /// True for the errors that come from checking a record's payload.
    pub open spec fn is_validation(self) -> bool {
        self is InvalidPayload || self is InvalidAddress || self is InvalidAmount
    }
}

pub type AppResult<T> = Result<T, AppError>;

} // verus!
