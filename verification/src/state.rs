//! What the pool remembers: its own configuration, and one record for each
//! round drawn.

use vstd::prelude::*;
use crate::identity::Identity;

verus! {

/// The configuration of a pool. It is written once, when the pool is made.
#[derive(Clone, Copy, Debug, PartialEq, Eq)]
pub struct Pool {
    /// The administrator.
    pub owner: Identity,
    /// The seed of the escrow authority.
    pub rand: Identity,
    /// Who receives the fee on each ticket.
    pub fee_receiver: Identity,
    /// The currency of the prize.
    pub prize_mint: Identity,
    /// The currency that tickets are paid in.
    pub ticket_mint: Identity,
    /// Who may claim in the winner's place.
    pub winner: Identity,
    /// The fee on one ticket.
    pub fee: u64,
    /// The bump of the escrow authority.
    pub bump: u8,
}

/// One round of the draw.
#[derive(Clone, Debug, PartialEq, Eq)]
pub struct Round {
    /// The pool that the round belongs to.
    pub pool: Identity,
    /// The ledger that holds the round's tickets.
    pub ticket_ledger: Identity,
    /// The owner of the winning ticket; meaningful once `finished`.
    pub winner: Identity,
    /// The index drawn; meaningful once `finished`.
    pub winning_index: u64,
    /// The price of one ticket.
    pub ticket_price: u64,
    /// How many tickets the round sells at most.
    pub total_ticket: u64,
    /// When the sale opens.
    pub start_time: u64,
    /// How long the sale lasts.
    pub round_period: u64,
    /// What the round has accrued in escrow.
    pub tvl: u64,
    /// Whether the prize has been paid out.
    pub claimed: bool,
    /// Whether a winner has been drawn.
    pub finished: bool,
    /// The name that the round's address is derived from.
    pub round_name: String,
    /// The bump of the round's address.
    pub bump: u8,
}

/// Where a round stands in its life.
#[derive(Clone, Copy, Debug, PartialEq, Eq, Structural)]
pub enum Phase {
    /// The sale window has not passed.
    Open,
    /// The sale window has passed and no winner is drawn yet.
    Closed,
    /// A winner is drawn and the prize is not paid out yet.
    Resolved,
    /// The prize is paid out.
    Settled,
}

impl Round {
    /// The moment from which the round can be resolved.
    pub open spec fn window_end(self) -> int {
        self.start_time + self.round_period
    }

    /// Where the round stands at time `now`.
    pub open spec fn spec_phase(self, now: u64) -> Phase {
        if self.finished {
            if self.claimed {
                Phase::Settled
            } else {
                Phase::Resolved
            }
        } else if now >= self.window_end() {
            Phase::Closed
        } else {
            Phase::Open
        }
    }

    /// Whether the sale window has passed at time `now`. The end of the
    /// window itself counts as passed.
    pub fn window_elapsed(&self, now: u64) -> (elapsed: bool)
        ensures
            elapsed == (now >= self.window_end()),
    {
        match self.start_time.checked_add(self.round_period) {
            Some(end) => now >= end,
            None => false,
        }
    }

    /// Where the round stands at time `now`.
    pub fn phase(&self, now: u64) -> (phase: Phase)
        ensures
            phase == self.spec_phase(now),
    {
        if self.finished {
            if self.claimed {
                Phase::Settled
            } else {
                Phase::Resolved
            }
        } else if self.window_elapsed(now) {
            Phase::Closed
        } else {
            Phase::Open
        }
    }
}

} // verus!
