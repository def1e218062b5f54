//! The draw as it is run in the native currency: a ticket costs a fixed
//! price and a fixed fee, anyone may draw the winner from the hashes of
//! recent slots, and the winner takes all that the round has accrued.

use vstd::prelude::*;
use crate::engine::{DrawEngine, PricingPolicy, ResolutionPolicy, StartRound, WinningNumber};
use crate::engine::TICKET_PRICE;
use crate::error::PoolError;
use crate::escrow::EscrowSigner;
use crate::identity::Identity;
use crate::ledger::{entries, live_count, tickets_from, RecordLayout, TicketData, TicketView};
use crate::randomness::{accepted_source, entropy_of, is_accepted_source, read_entropy};
use crate::state::{Pool, Round};
use crate::transfer::TransferOutcome;

verus! {

/// The engine of the native draw.
pub open spec fn native() -> DrawEngine {
    DrawEngine {
        pricing: PricingPolicy::FlatFee,
        resolution: ResolutionPolicy::Oracle { reduce: false },
        layout: RecordLayout::Ticket,
    }
}

/// Opens a round of `total_ticket` tickets at the fixed price, for
/// `round_period` from `now` on.
pub fn start_round(
    pool: &Pool,
    accounts: &StartRound,
    ledger: &mut [u8],
    now: u64,
    round_name: String,
    total_ticket: u64,
    round_period: u64,
    bump: u8,
) -> (r: Result<Round, PoolError>)
    ensures
        match native().open_round_outcome(
            *pool,
            *accounts,
            old(ledger)@,
            now,
            round_name,
            total_ticket,
            TICKET_PRICE,
            round_period,
            bump,
        ) {
            Ok(opened) => r == Ok::<Round, PoolError>(opened.0) && final(ledger)@ == opened.1,
            Err(e) => r == Err::<Round, PoolError>(e) && final(ledger)@ == old(ledger)@,
        },
{
    DrawEngine::native_round().open_round(
        pool,
        accounts,
        ledger,
        now,
        round_name,
        total_ticket,
        TICKET_PRICE,
        round_period,
        bump,
    )
}

/// Sells one ticket to `buyer`, once the price and the fee have been paid.
pub fn buy_ticket(
    pool: &Pool,
    round: &mut Round,
    ledger: &mut [u8],
    buyer: &Identity,
    now: u64,
    outcome: TransferOutcome,
) -> (r: Result<TicketData, PoolError>)
    ensures
        match native().purchase_check(*pool, *old(round), old(ledger)@, now, 1) {
            Ok(()) => if outcome == TransferOutcome::Completed {
                &&& r matches Ok(ticket)
                &&& ticket@ == (TicketView {
                    ticket_index: live_count(old(ledger)@) + 1,
                    owner: buyer@,
                })
                &&& *final(round) == DrawEngine::purchased(*old(round), 1)
                &&& final(ledger)@ == native().sold(old(ledger)@, buyer@, 1)
                &&& live_count(final(ledger)@) == live_count(old(ledger)@) + 1
                &&& entries(final(ledger)@, RecordLayout::Ticket) == entries(
                    old(ledger)@,
                    RecordLayout::Ticket,
                ).push(ticket@)
            } else {
                &&& r == Err::<TicketData, PoolError>(PoolError::TransferFailed)
                &&& *final(round) == *old(round)
                &&& final(ledger)@ == old(ledger)@
            },
            Err(e) => {
                &&& r == Err::<TicketData, PoolError>(e)
                &&& *final(round) == *old(round)
                &&& final(ledger)@ == old(ledger)@
            },
        },
{
    let ghost count = live_count(ledger@);
    let ghost before = entries(ledger@, RecordLayout::Ticket);
    match DrawEngine::native_round().buy_ticket(pool, round, ledger, buyer, now, 1, outcome) {
        Ok(tickets) => {
            let ticket = tickets[0];
            proof {
                let owners = Seq::new(1, |i: int| buyer@);
                assert(tickets@.map_values(|t: TicketData| t@)[0] == tickets_from(count, owners)[0]);
                assert(before + tickets_from(count, owners) =~= before.push(ticket@));
            }
            Ok(ticket)
        },
        Err(e) => Err(e),
    }
}

/// What `finish_round` answers: the index drawn and the winning ticket, or
/// why no winner can be drawn.
pub open spec fn finish_round_outcome(
    pool: Pool,
    round: Round,
    ledger: Seq<u8>,
    caller: Identity,
    now: u64,
    source: Identity,
    data: Seq<u8>,
) -> Result<(u64, TicketView), PoolError> {
    if now < round.window_end() {
        Err(PoolError::InvalidTime)
    } else if !accepted_source(source) {
        Err(PoolError::IncorrectRandomnessSource)
    } else {
        match entropy_of(data) {
            None => Err(PoolError::IncorrectRandomnessSource),
            Some(value) => native().resolve_outcome(
                pool,
                round,
                ledger,
                caller,
                now,
                WinningNumber::Entropy { source, value },
            ),
        }
    }
}

/// Draws the winner of the round from `data`, what the account `source`
/// publishes. The source must be an accepted one and publish a value; the
/// value is the winning index as it stands.
pub fn finish_round(
    pool: &Pool,
    round: &mut Round,
    ledger: &[u8],
    caller: &Identity,
    now: u64,
    source: &Identity,
    data: &[u8],
) -> (r: Result<TicketData, PoolError>)
    ensures
        match finish_round_outcome(*pool, *old(round), ledger@, *caller, now, *source, data@) {
            Ok(drawn) => {
                &&& r matches Ok(ticket)
                &&& ticket@ == drawn.1
                &&& *final(round) == DrawEngine::resolved(*old(round), drawn.0, ticket.owner)
            },
            Err(e) => r == Err::<TicketData, PoolError>(e) && *final(round) == *old(round),
        },
{
    if !round.window_elapsed(now) {
        return Err(PoolError::InvalidTime);
    }
    if !is_accepted_source(source) {
        return Err(PoolError::IncorrectRandomnessSource);
    }
    match read_entropy(data) {
        None => Err(PoolError::IncorrectRandomnessSource),
        Some(value) => DrawEngine::native_round().close_and_resolve(
            pool,
            round,
            ledger,
            caller,
            now,
            &WinningNumber::Entropy { source: *source, value },
        ),
    }
}

/// Settles the round once all that it accrued has been paid out to `caller`,
/// its winner.
pub fn claim(
    pool: &Pool,
    round: &mut Round,
    caller: &Identity,
    now: u64,
    signer: &EscrowSigner,
    outcome: TransferOutcome,
) -> (r: Result<(), PoolError>)
    ensures
        match native().claim_check(*pool, *old(round), *caller, now, *signer) {
            Ok(()) => if outcome == TransferOutcome::Completed {
                r is Ok && *final(round) == native().claimed(*old(round))
            } else {
                r == Err::<(), PoolError>(PoolError::TransferFailed) && *final(round) == *old(round)
            },
            Err(e) => r == Err::<(), PoolError>(e) && *final(round) == *old(round),
        },
{
    DrawEngine::native_round().claim_prize(pool, round, caller, now, signer, outcome)
}

/// Takes `amount` off what the round has accrued, once it has been paid out
/// to the administrator.
pub fn withdraw(
    pool: &Pool,
    round: &mut Round,
    caller: &Identity,
    amount: u64,
    signer: &EscrowSigner,
    outcome: TransferOutcome,
) -> (r: Result<(), PoolError>)
    ensures
        match DrawEngine::withdraw_check(*pool, *old(round), *caller, amount, *signer) {
            Ok(()) => if outcome == TransferOutcome::Completed {
                r is Ok && *final(round) == DrawEngine::withdrawn(*old(round), amount)
            } else {
                r == Err::<(), PoolError>(PoolError::TransferFailed) && *final(round) == *old(round)
            },
            Err(e) => r == Err::<(), PoolError>(e) && *final(round) == *old(round),
        },
{
    DrawEngine::native_round().withdraw(pool, round, caller, amount, signer, outcome)
}

/// Adds `amount` to what the round has accrued, once the administrator has
/// paid it into the escrow.
pub fn deposit(
    pool: &Pool,
    round: &mut Round,
    caller: &Identity,
    amount: u64,
    outcome: TransferOutcome,
) -> (r: Result<(), PoolError>)
    ensures
        match DrawEngine::deposit_check(*pool, *old(round), *caller, amount) {
            Ok(()) => if outcome == TransferOutcome::Completed {
                r is Ok && *final(round) == DrawEngine::deposited(*old(round), amount)
            } else {
                r == Err::<(), PoolError>(PoolError::TransferFailed) && *final(round) == *old(round)
            },
            Err(e) => r == Err::<(), PoolError>(e) && *final(round) == *old(round),
        },
{
    DrawEngine::native_round().deposit(pool, round, caller, amount, outcome)
}

} // verus!
