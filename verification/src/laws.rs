//! What holds of the draw as a whole, whatever is asked of it and in
//! whatever order.

use vstd::prelude::*;
use crate::engine::{DrawEngine, PricingPolicy, ResolutionPolicy, WinningNumber};
use crate::error::PoolError;
use crate::escrow::EscrowSigner;
use crate::identity::Identity;
use crate::ledger::{entries, fits, law_append_only, live_count, read_outcome, TicketView};
use crate::randomness::accepted_source;
use crate::state::{Pool, Round};
use crate::transfer::{escrow_gain_all, Party, TransferOutcome, TransferRequest};

verus! {

/// A round with its ledger.
pub struct DrawState {
    pub round: Round,
    pub ledger: Seq<u8>,
}

/// One operation on a round, as it was asked for, with the outcome of its
/// transfers if it moves value, and with the winner it drew if it is a draw.
pub enum Step {
    /// A sale of tickets.
    Buy { buyer: Identity, now: u64, quantity: u32, outcome: TransferOutcome },
    /// A claim of the prize.
    Claim { caller: Identity, now: u64, signer: EscrowSigner, outcome: TransferOutcome },
    /// A withdrawal by the administrator.
    Withdraw { caller: Identity, amount: u64, signer: EscrowSigner, outcome: TransferOutcome },
    /// A deposit by the administrator.
    Deposit { caller: Identity, amount: u64, outcome: TransferOutcome },
    /// A draw of the winner.
    Draw { caller: Identity, now: u64, number: WinningNumber, winner: Identity },
}

impl Step {
    /// Whether the transfers of the step were made.
    pub open spec fn completed(self) -> bool {
        match self {
            Step::Buy { outcome, .. } => outcome == TransferOutcome::Completed,
            Step::Claim { outcome, .. } => outcome == TransferOutcome::Completed,
            Step::Withdraw { outcome, .. } => outcome == TransferOutcome::Completed,
            Step::Deposit { outcome, .. } => outcome == TransferOutcome::Completed,
            Step::Draw { .. } => true,
        }
    }
}

impl DrawEngine {
    /// What the operation answers to its first step: nothing, if it can take
    /// place, or why it cannot.
    pub open spec fn step_check(self, pool: Pool, state: DrawState, step: Step) -> Result<
        (),
        PoolError,
    > {
        match step {
            Step::Buy { now, quantity, .. } => self.purchase_check(
                pool,
                state.round,
                state.ledger,
                now,
                quantity,
            ),
            Step::Claim { caller, now, signer, .. } => self.claim_check(
                pool,
                state.round,
                caller,
                now,
                signer,
            ),
            Step::Withdraw { caller, amount, signer, .. } => Self::withdraw_check(
                pool,
                state.round,
                caller,
                amount,
                signer,
            ),
            Step::Deposit { caller, amount, .. } => Self::deposit_check(
                pool,
                state.round,
                caller,
                amount,
            ),
            Step::Draw { caller, now, number, winner } => match self.resolve_outcome(
                pool,
                state.round,
                state.ledger,
                caller,
                now,
                number,
            ) {
                Ok(_) => Ok(()),
                Err(e) => Err(e),
            },
        }
    }

    /// Whether the step takes effect: it can take place, its transfers were
    /// made, and the winner it names, if it is a draw, is the owner of the
    /// ticket drawn.
    pub open spec fn step_applies(self, pool: Pool, state: DrawState, step: Step) -> bool {
        &&& self.step_check(pool, state, step) is Ok
        &&& step.completed()
        &&& step matches Step::Draw { caller, now, number, winner } ==> self.resolve_outcome(
            pool,
            state.round,
            state.ledger,
            caller,
            now,
            number,
        )->Ok_0.1.owner == winner@
    }

    /// The transfers made for the step: those that the operation asks for
    /// where it takes effect, none where it does not.
    pub open spec fn step_transfers(self, pool: Pool, state: DrawState, step: Step) -> Seq<
        TransferRequest,
    > {
        if !self.step_applies(pool, state, step) {
            Seq::empty()
        } else {
            match step {
                Step::Buy { quantity, .. } => self.purchase_transfers(pool, state.round, quantity),
                Step::Claim { signer, .. } => seq![
                    Self::payout(self.prize(state.round), self.prize_asset(), signer),
                ],
                Step::Withdraw { amount, signer, .. } => seq![
                    Self::payout(amount, self.accrual_asset(), signer),
                ],
                Step::Deposit { amount, .. } => seq![Self::payment(amount, self.accrual_asset())],
                Step::Draw { .. } => Seq::empty(),
            }
        }
    }

    /// The round and its ledger after the step.
    pub open spec fn step(self, pool: Pool, state: DrawState, step: Step) -> DrawState {
        if !self.step_applies(pool, state, step) {
            state
        } else {
            match step {
                Step::Buy { buyer, quantity, .. } => DrawState {
                    round: Self::purchased(state.round, quantity),
                    ledger: self.sold(state.ledger, buyer@, quantity),
                },
                Step::Claim { .. } => DrawState { round: self.claimed(state.round), ..state },
                Step::Withdraw { amount, .. } => DrawState {
                    round: Self::withdrawn(state.round, amount),
                    ..state
                },
                Step::Deposit { amount, .. } => DrawState {
                    round: Self::deposited(state.round, amount),
                    ..state
                },
                Step::Draw { caller, now, number, winner } => DrawState {
                    round: Self::resolved(
                        state.round,
                        self.resolve_outcome(pool, state.round, state.ledger, caller, now, number)
                            ->Ok_0.0,
                        winner,
                    ),
                    ..state
                },
            }
        }
    }

    /// Whether the winner that the round remembers, if it remembers one, is
    /// the owner of the ticket at the index that it remembers.
    pub open spec fn winner_holds_ticket(self, state: DrawState) -> bool {
        state.round.finished ==> {
            &&& state.round.winning_index < live_count(state.ledger)
            &&& entries(state.ledger, self.layout)[state.round.winning_index as int].owner
                == state.round.winner@
        }
    }

    /// The round and its ledger after the steps, taken in order.
    pub open spec fn run(self, pool: Pool, state: DrawState, steps: Seq<Step>) -> DrawState
        decreases steps.len(),
    {
        if steps.len() == 0 {
            state
        } else {
            self.step(pool, self.run(pool, state, steps.drop_last()), steps.last())
        }
    }

    /// What the escrow gains over the steps, in the asset that the round
    /// accrues: all that the transfers moved into it, minus all that they
    /// moved out of it.
    pub open spec fn run_gain(self, pool: Pool, state: DrawState, steps: Seq<Step>) -> int
        decreases steps.len(),
    {
        if steps.len() == 0 {
            0
        } else {
            self.run_gain(pool, state, steps.drop_last()) + escrow_gain_all(
                self.step_transfers(
                    pool,
                    self.run(pool, state, steps.drop_last()),
                    steps.last(),
                ),
                self.accrual_asset(),
            )
        }
    }
}

/// One operation changes what the round has accrued by exactly what its
/// transfers move into the escrow, minus what they move out of it; and it
/// never moves more out of the escrow than the round has accrued.
pub proof fn law_step_conserves(engine: DrawEngine, pool: Pool, state: DrawState, step: Step)
    ensures
        engine.step(pool, state, step).round.tvl == state.round.tvl + escrow_gain_all(
            engine.step_transfers(pool, state, step),
            engine.accrual_asset(),
        ),
        state.round.tvl + escrow_gain_all(
            engine.step_transfers(pool, state, step),
            engine.accrual_asset(),
        ) >= 0,
{
    reveal_with_fuel(escrow_gain_all, 3);
    let transfers = engine.step_transfers(pool, state, step);
    if engine.step_applies(pool, state, step) {
        match step {
            Step::Buy { quantity, .. } => {
                match engine.pricing {
                    PricingPolicy::TokenPrice => {
                        assert(transfers.drop_last() =~= Seq::empty());
                    },
                    PricingPolicy::FlatFee => {
                        assert(transfers.drop_last() =~= seq![transfers[0]]);
                        assert(transfers.drop_last().drop_last() =~= Seq::empty());
                    },
                }
            },
            Step::Claim { .. } => {
                assert(transfers.drop_last() =~= Seq::empty());
            },
            Step::Withdraw { .. } => {
                assert(transfers.drop_last() =~= Seq::empty());
            },
            Step::Deposit { .. } => {
                assert(transfers.drop_last() =~= Seq::empty());
            },
            Step::Draw { .. } => {},
        }
    }
}

/// Accounting is conserved. Over any run of sales, draws, claims, withdrawals
/// and deposits, accepted or refused, what the round has accrued grows by exactly
/// what the escrow gained: the value moved into it minus the value moved out
/// of it. As this holds of every run, it holds after each step of a run.
pub proof fn law_accounting_conservation(
    engine: DrawEngine,
    pool: Pool,
    state: DrawState,
    steps: Seq<Step>,
)
    ensures
        engine.run(pool, state, steps).round.tvl == state.round.tvl + engine.run_gain(
            pool,
            state,
            steps,
        ),
        forall|k: int|
            0 <= k <= steps.len() ==> (#[trigger] engine.run(pool, state, steps.take(k))).round.tvl
                == state.round.tvl + engine.run_gain(pool, state, steps.take(k)),
    decreases steps.len(),
{
    if steps.len() > 0 {
        law_accounting_conservation(engine, pool, state, steps.drop_last());
        law_step_conserves(
            engine,
            pool,
            engine.run(pool, state, steps.drop_last()),
            steps.last(),
        );
    }
    assert forall|k: int| 0 <= k <= steps.len() implies (#[trigger] engine.run(
        pool,
        state,
        steps.take(k),
    )).round.tvl == state.round.tvl + engine.run_gain(pool, state, steps.take(k)) by {
        if k == steps.len() {
            assert(steps.take(k) =~= steps);
        } else {
            assert(steps.take(k) =~= steps.drop_last().take(k));
        }
    }
}

/// What no sale, draw, claim, withdrawal or deposit can undo. Over any run of
/// them the tickets sold stay as they are, in their places, and further
/// tickets come behind them; the round never holds more tickets than it sells
/// at most, unless it did before; a winner once drawn stays drawn and a prize
/// once paid stays paid; and what the round was opened with stays as it was.
pub proof fn law_run_keeps_the_round(
    engine: DrawEngine,
    pool: Pool,
    state: DrawState,
    steps: Seq<Step>,
)
    ensures
        live_count(engine.run(pool, state, steps).ledger) >= live_count(state.ledger),
        entries(engine.run(pool, state, steps).ledger, engine.layout).take(
            live_count(state.ledger) as int,
        ) == entries(state.ledger, engine.layout),
        live_count(state.ledger) <= state.round.total_ticket ==> live_count(
            engine.run(pool, state, steps).ledger,
        ) <= state.round.total_ticket,
        state.round.finished ==> engine.run(pool, state, steps).round.finished,
        state.round.claimed ==> engine.run(pool, state, steps).round.claimed,
        engine.run(pool, state, steps).round == (Round {
            tvl: engine.run(pool, state, steps).round.tvl,
            claimed: engine.run(pool, state, steps).round.claimed,
            finished: engine.run(pool, state, steps).round.finished,
            winner: engine.run(pool, state, steps).round.winner,
            winning_index: engine.run(pool, state, steps).round.winning_index,
            ..state.round
        }),
    decreases steps.len(),
{
    let count = live_count(state.ledger);
    if steps.len() == 0 {
        assert(entries(state.ledger, engine.layout).take(count as int) =~= entries(
            state.ledger,
            engine.layout,
        ));
    } else {
        let before = engine.run(pool, state, steps.drop_last());
        let after = engine.run(pool, state, steps);
        law_run_keeps_the_round(engine, pool, state, steps.drop_last());
        if engine.step_applies(pool, before, steps.last()) {
            match steps.last() {
                Step::Buy { buyer, quantity, .. } => {
                    let owners = Seq::new(quantity as nat, |i: int| buyer@);
                    law_append_only(
                        before.ledger,
                        engine.layout,
                        live_count(before.ledger) + quantity as nat,
                        owners,
                    );
                    assert(entries(after.ledger, engine.layout).take(count as int) =~= entries(
                        before.ledger,
                        engine.layout,
                    ).take(count as int));
                },
                _ => {},
            }
        }
    }
}

/// The winner stays the owner of the winning ticket. If the winner that a
/// round remembers holds the ticket at the index that it remembers, or the
/// round has no winner yet, then the same is true after any run of sales,
/// draws, claims, withdrawals and deposits: no later sale takes the ticket
/// from under the winner, and every draw names the owner of the ticket drawn.
pub proof fn law_winner_stays_the_ticket_owner(
    engine: DrawEngine,
    pool: Pool,
    state: DrawState,
    steps: Seq<Step>,
)
    requires
        engine.winner_holds_ticket(state),
    ensures
        engine.winner_holds_ticket(engine.run(pool, state, steps)),
    decreases steps.len(),
{
    if steps.len() > 0 {
        let before = engine.run(pool, state, steps.drop_last());
        let after = engine.run(pool, state, steps);
        law_winner_stays_the_ticket_owner(engine, pool, state, steps.drop_last());
        if engine.step_applies(pool, before, steps.last()) {
            match steps.last() {
                Step::Buy { buyer, quantity, .. } => {
                    let owners = Seq::new(quantity as nat, |i: int| buyer@);
                    law_append_only(
                        before.ledger,
                        engine.layout,
                        live_count(before.ledger) + quantity as nat,
                        owners,
                    );
                    if before.round.finished {
                        assert(entries(after.ledger, engine.layout)[before.round.winning_index as int]
                            == entries(before.ledger, engine.layout)[before.round.winning_index as int]);
                    }
                },
                _ => {},
            }
        }
    }
}

/// Nothing leaves the escrow unsigned. Every transfer that an operation asks
/// for out of the escrow carries the right to sign for it, held for the seed
/// and bump of the pool; and no sale and no deposit asks for one.
pub proof fn law_escrow_gives_only_when_signed(
    engine: DrawEngine,
    pool: Pool,
    state: DrawState,
    step: Step,
    i: int,
)
    requires
        0 <= i < engine.step_transfers(pool, state, step).len(),
        engine.step_transfers(pool, state, step)[i].source == Party::Escrow,
    ensures
        engine.step_transfers(pool, state, step)[i].signer matches Some(signer)
            && DrawEngine::signs_for(signer, pool),
        step is Claim || step is Withdraw,
{
}

/// The sale is gated by the start of the round: before it every sale is
/// refused as untimely, and from it on, the start itself included, no sale
/// is.
pub proof fn law_sale_gate(
    engine: DrawEngine,
    pool: Pool,
    round: Round,
    ledger: Seq<u8>,
    now: u64,
    quantity: u32,
)
    ensures
        now < round.start_time ==> engine.purchase_check(pool, round, ledger, now, quantity)
            == Err::<(), PoolError>(PoolError::InvalidTime),
        now >= round.start_time ==> engine.purchase_check(pool, round, ledger, now, quantity)
            != Err::<(), PoolError>(PoolError::InvalidTime),
        now >= round.start_time ==> engine.purchase_check(pool, round, ledger, now, quantity)
            == engine.purchase_check(pool, round, ledger, round.start_time, quantity),
{
}

/// From the start of the round on, the start itself included, a sale is
/// accepted whenever the round and its ledger have room for the tickets and
/// their price can be accounted for.
pub proof fn law_sale_opens(
    engine: DrawEngine,
    pool: Pool,
    round: Round,
    ledger: Seq<u8>,
    now: u64,
    quantity: u32,
)
    requires
        now >= round.start_time,
        ledger.len() >= 44,
        live_count(ledger) + quantity <= round.total_ticket,
        live_count(ledger) + quantity <= u32::MAX,
        fits(ledger, engine.layout, live_count(ledger) + quantity as nat),
        round.tvl + round.ticket_price * quantity <= u64::MAX,
        engine.pricing == PricingPolicy::FlatFee ==> pool.fee * quantity <= u64::MAX,
    ensures
        engine.purchase_check(pool, round, ledger, now, quantity) is Ok,
{
}

/// The draw is gated by the end of the sale window: before it every draw is
/// refused as untimely, and from it on, the end itself included, no draw is.
pub proof fn law_draw_gate(
    engine: DrawEngine,
    pool: Pool,
    round: Round,
    ledger: Seq<u8>,
    caller: Identity,
    now: u64,
    number: WinningNumber,
)
    ensures
        now < round.start_time + round.round_period ==> engine.resolve_outcome(
            pool,
            round,
            ledger,
            caller,
            now,
            number,
        ) == Err::<(u64, TicketView), PoolError>(PoolError::InvalidTime),
        now >= round.start_time + round.round_period ==> engine.resolve_outcome(
            pool,
            round,
            ledger,
            caller,
            now,
            number,
        ) != Err::<(u64, TicketView), PoolError>(PoolError::InvalidTime),
{
}

/// From the end of the sale window on, the end itself included, a draw by
/// whom the policy allows succeeds whenever the number drawn is the index of
/// a ticket sold.
pub proof fn law_draw_opens(
    engine: DrawEngine,
    pool: Pool,
    round: Round,
    ledger: Seq<u8>,
    caller: Identity,
    now: u64,
    number: WinningNumber,
)
    requires
        now >= round.start_time + round.round_period,
        engine.resolution == ResolutionPolicy::Supplied ==> caller == pool.owner,
        engine.resolution != ResolutionPolicy::Supplied ==> (number matches WinningNumber::Entropy {
            source,
            ..
        } && accepted_source(source)),
        read_outcome(ledger, engine.layout, engine.drawn_index(ledger, number) as nat) is Ok,
    ensures
        engine.resolve_outcome(pool, round, ledger, caller, now, number) is Ok,
{
}

/// Whoever wins holds a ticket. Where a draw succeeds, the index drawn is the
/// one that the policy makes of the number, it is below the number of tickets
/// sold, and the winning ticket is the record written at that index.
pub proof fn law_winner_holds_a_ticket(
    engine: DrawEngine,
    pool: Pool,
    round: Round,
    ledger: Seq<u8>,
    caller: Identity,
    now: u64,
    number: WinningNumber,
)
    requires
        engine.resolve_outcome(pool, round, ledger, caller, now, number) is Ok,
    ensures
        engine.resolve_outcome(pool, round, ledger, caller, now, number) matches Ok(drawn) && {
            &&& drawn.0 == engine.drawn_index(ledger, number)
            &&& drawn.0 < live_count(ledger)
            &&& drawn.1 == entries(ledger, engine.layout)[drawn.0 as int]
        },
{
}

/// Only the winner claims. Whoever is neither the winner that the round
/// remembers nor the pool's fallback winner is refused as no winner, in
/// whatever state the round is and at whatever time.
pub proof fn law_winner_authorization(
    engine: DrawEngine,
    pool: Pool,
    round: Round,
    ledger: Seq<u8>,
    caller: Identity,
    now: u64,
    signer: EscrowSigner,
    outcome: TransferOutcome,
)
    requires
        caller != round.winner,
        caller != pool.winner,
    ensures
        engine.claim_check(pool, round, caller, now, signer) == Err::<(), PoolError>(
            PoolError::InvalidWinner,
        ),
        engine.step(
            pool,
            DrawState { round, ledger },
            Step::Claim { caller, now, signer, outcome },
        ) == (DrawState { round, ledger }),
        engine.step_transfers(
            pool,
            DrawState { round, ledger },
            Step::Claim { caller, now, signer, outcome },
        ) == Seq::<TransferRequest>::empty(),
{
}

/// A round that has sold all its tickets sells no more, and its ledger stays
/// as it is.
pub proof fn law_sold_out(
    engine: DrawEngine,
    pool: Pool,
    round: Round,
    ledger: Seq<u8>,
    buyer: Identity,
    now: u64,
    quantity: u32,
    outcome: TransferOutcome,
)
    requires
        now >= round.start_time,
        ledger.len() >= 44,
        live_count(ledger) >= round.total_ticket,
        quantity >= 1,
    ensures
        engine.purchase_check(pool, round, ledger, now, quantity) == Err::<(), PoolError>(
            PoolError::TicketLimitReached,
        ),
        engine.step(
            pool,
            DrawState { round, ledger },
            Step::Buy { buyer, now, quantity, outcome },
        ) == (DrawState { round, ledger }),
{
}

/// What is the administrator's is refused to everyone else: opening a round,
/// withdrawing, depositing and the emergency withdrawal answer `InvalidOwner`
/// to any other caller, and move nothing.
pub proof fn law_owner_only(
    engine: DrawEngine,
    pool: Pool,
    round: Round,
    ledger: Seq<u8>,
    caller: Identity,
    amount: u64,
    signer: EscrowSigner,
    outcome: TransferOutcome,
)
    requires
        caller != pool.owner,
    ensures
        DrawEngine::withdraw_check(pool, round, caller, amount, signer) == Err::<(), PoolError>(
            PoolError::InvalidOwner,
        ),
        DrawEngine::deposit_check(pool, round, caller, amount) == Err::<(), PoolError>(
            PoolError::InvalidOwner,
        ),
        DrawEngine::emergency_check(pool, caller, signer) == Err::<(), PoolError>(
            PoolError::InvalidOwner,
        ),
        engine.step(
            pool,
            DrawState { round, ledger },
            Step::Withdraw { caller, amount, signer, outcome },
        ) == (DrawState { round, ledger }),
        engine.step_transfers(
            pool,
            DrawState { round, ledger },
            Step::Withdraw { caller, amount, signer, outcome },
        ) == Seq::<TransferRequest>::empty(),
{
}

} // verus!
