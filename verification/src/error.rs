use vstd::prelude::*;

verus! {

/// Every way an operation of the pool can be refused.
///
/// An operation that returns one of these has changed nothing.
#[derive(Clone, Copy, Debug, PartialEq, Eq, Structural)]
pub enum PoolError {
    /// The round has no winner yet.
    RoundNotFinished,
    /// Every ticket of the round is sold.
    TicketLimitReached,
    /// The ledger holds as many records as it was sized for.
    LedgerFull,
    /// The buffer is shorter than the ledger it should hold.
    BufferTooSmall,
    /// No record has been written at the index asked for.
    IndexOutOfRange,
    /// The operation came before the moment from which it is allowed.
    InvalidTime,
    /// A round must last for some time.
    InvalidPeriod,
    /// A ticket must cost something.
    InvalidPrice,
    /// The caller is not the administrator of the pool.
    InvalidOwner,
    /// The caller is neither the winner of the round nor the pool's fallback winner.
    InvalidWinner,
    /// The amount is more than the round has accrued, or more than it can
    /// still accrue.
    InvalidAmount,
    /// The seed and bump presented do not derive the escrow address.
    UnauthorizedEscrowAccess,
    /// The transfer collaborator did not move the value.
    TransferFailed,
    /// The randomness comes from an account that is not an accepted source.
    IncorrectRandomnessSource,
}

impl PoolError {
    /// The text shown to a caller for this error.
    pub fn message(&self) -> (text: &'static str)
        ensures
            text@ == self.spec_message()@,
    {
        match self {
            PoolError::RoundNotFinished => "Current round is not finished yet",
            PoolError::TicketLimitReached => "All tickets are already sold",
            PoolError::LedgerFull => "Ticket ledger is full",
            PoolError::BufferTooSmall => "Buffer is too small for the ledger",
            PoolError::IndexOutOfRange => "Ticket index is out of range",
            PoolError::InvalidTime => "Invalid time",
            PoolError::InvalidPeriod => "Invalid period",
            PoolError::InvalidPrice => "Invalid price",
            PoolError::InvalidOwner => "Invalid owner",
            PoolError::InvalidWinner => "Invalid winner",
            PoolError::InvalidAmount => "Invalid amount",
            PoolError::UnauthorizedEscrowAccess => "Unauthorized escrow access",
            PoolError::TransferFailed => "Transfer failed",
            PoolError::IncorrectRandomnessSource => "Incorrect randomness source",
        }
    }

    pub open spec fn spec_message(&self) -> &'static str {
        match self {
            PoolError::RoundNotFinished => "Current round is not finished yet",
            PoolError::TicketLimitReached => "All tickets are already sold",
            PoolError::LedgerFull => "Ticket ledger is full",
            PoolError::BufferTooSmall => "Buffer is too small for the ledger",
            PoolError::IndexOutOfRange => "Ticket index is out of range",
            PoolError::InvalidTime => "Invalid time",
            PoolError::InvalidPeriod => "Invalid period",
            PoolError::InvalidPrice => "Invalid price",
            PoolError::InvalidOwner => "Invalid owner",
            PoolError::InvalidWinner => "Invalid winner",
            PoolError::InvalidAmount => "Invalid amount",
            PoolError::UnauthorizedEscrowAccess => "Unauthorized escrow access",
            PoolError::TransferFailed => "Transfer failed",
            PoolError::IncorrectRandomnessSource => "Incorrect randomness source",
        }
    }
}

} // verus!
