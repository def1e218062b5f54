//! Movements of value. The pool never moves value itself: it says which
//! transfers an operation needs, the caller has them made, and the operation
//! takes effect only once they are.

use vstd::prelude::*;
use crate::error::PoolError;
use crate::escrow::EscrowSigner;

verus! {

/// Who gives or receives in a transfer.
#[derive(Clone, Copy, Debug, PartialEq, Eq, Structural)]
pub enum Party {
    /// Whoever called the operation.
    Caller,
    /// The escrow of the pool.
    Escrow,
    /// The pool's fee receiver.
    FeeReceiver,
}

/// What is moved.
#[derive(Clone, Copy, Debug, PartialEq, Eq, Structural)]
pub enum Asset {
    /// The native currency.
    Native,
    /// The currency that tickets are paid in.
    TicketToken,
    /// The currency of the prize.
    PrizeToken,
}

/// One transfer that an operation needs.
#[derive(Clone, Copy, Debug, PartialEq, Eq)]
pub struct TransferRequest {
    /// Who gives.
    pub source: Party,
    /// Who receives.
    pub destination: Party,
    /// How much.
    pub amount: u64,
    /// Of what.
    pub asset: Asset,
    /// The right to sign for the escrow, where the escrow gives; otherwise
    /// the caller signs.
    pub signer: Option<EscrowSigner>,
}

/// Whether the transfers of an operation were made.
#[derive(Clone, Copy, Debug, PartialEq, Eq, Structural)]
pub enum TransferOutcome {
    /// Every transfer was made.
    Completed,
    /// Some transfer was refused, and none took effect.
    Failed,
}

impl TransferRequest {
    /// What the escrow gains by this transfer in the given asset: the amount
    /// if it receives, minus the amount if it gives.
    pub open spec fn escrow_gain(self, asset: Asset) -> int {
        if self.asset != asset {
            0
        } else {
            (if self.destination == Party::Escrow {
                self.amount as int
            } else {
                0
            }) - (if self.source == Party::Escrow {
                self.amount as int
            } else {
                0
            })
        }
    }
}

/// What the escrow gains by all the transfers together.
pub open spec fn escrow_gain_all(transfers: Seq<TransferRequest>, asset: Asset) -> int
    decreases transfers.len(),
{
    if transfers.len() == 0 {
        0
    } else {
        escrow_gain_all(transfers.drop_last(), asset) + transfers.last().escrow_gain(asset)
    }
}

/// A move of native currency between two accounts of which the balances are
/// known.
#[derive(Clone, Copy, Debug, PartialEq, Eq)]
pub struct SolTransferParams {
    /// The balance of the account that gives.
    pub source: u64,
    /// The balance of the account that receives.
    pub destination: u64,
    /// How much is moved.
    pub amount: u64,
}

/// Moves `amount` from one balance to the other and answers the two new
/// balances, source first. Refused when the source holds less than the
/// amount, or the destination cannot hold that much more.
pub fn sol_transfer(params: SolTransferParams) -> (r: Result<(u64, u64), PoolError>)
    ensures
        r is Ok <==> params.amount <= params.source && params.destination + params.amount
            <= u64::MAX,
        r is Err ==> r == Err::<(u64, u64), PoolError>(PoolError::TransferFailed),
        r matches Ok(balances) ==> balances.0 == params.source - params.amount && balances.1
            == params.destination + params.amount,
{
    if params.source < params.amount {
        return Err(PoolError::TransferFailed);
    }
    match params.destination.checked_add(params.amount) {
        Some(credited) => Ok((params.source - params.amount, credited)),
        None => Err(PoolError::TransferFailed),
    }
}

} // verus!
