//! The draw: the operations that take a round from its opening through the
//! sale and the drawing of a winner to the payout.
//!
//! An operation that moves value comes in two steps. The first, whose name
//! starts with `plan_`, checks the operation against the state and answers
//! the transfers it needs; it changes nothing. The caller has the transfers
//! made and hands their outcome to the second step, which changes the state
//! if they were made and refuses with `TransferFailed` if they were not. An
//! operation that is refused, for whatever reason, changes nothing.

use vstd::prelude::*;
use crate::error::PoolError;
use crate::escrow::{authorize, escrow_seeds, program_address, EscrowSigner};
use crate::identity::Identity;
use crate::ledger::{append, get_last_number, has_room, initialize, read};
use crate::ledger::{append_all, entries, fits, initialized, live_count, read_outcome};
use crate::ledger::{law_append_only, tickets_from, well_formed};
use crate::ledger::{RecordLayout, TicketData, TicketView};
use crate::randomness::{accepted_source, is_accepted_source};
use crate::state::{Pool, Round};
use crate::transfer::{Asset, Party, TransferOutcome, TransferRequest};

verus! {

/// How tickets are paid for, and what the winner gets.
#[derive(Clone, Copy, Debug, PartialEq, Eq, Structural)]
pub enum PricingPolicy {
    /// A ticket costs the round's price in the ticket currency, all of which
    /// goes to the escrow. The winner gets one unit of the prize currency.
    TokenPrice,
    /// A ticket costs the round's price in the native currency, which goes to
    /// the escrow, and on top of it the pool's fee, which goes to the fee
    /// receiver. The winner gets all that the round has accrued.
    FlatFee,
}

/// Who may draw the winner, and from what number.
#[derive(Clone, Copy, Debug, PartialEq, Eq, Structural)]
pub enum ResolutionPolicy {
    /// The administrator names the winning index.
    Supplied,
    /// Anyone may draw; the number is the latest value of an accepted source
    /// of randomness. With `reduce` the number is taken modulo the number of
    /// tickets sold; without, it is the index as it stands.
    Oracle { reduce: bool },
}

/// The number that a draw is made from.
#[derive(Clone, Copy, Debug, PartialEq, Eq)]
pub enum WinningNumber {
    /// An index named by the caller.
    Index(u64),
    /// A value published by `source`.
    Entropy { source: Identity, value: u64 },
}

impl WinningNumber {
    /// The number itself.
    pub open spec fn spec_value(self) -> u64 {
        match self {
            WinningNumber::Index(index) => index,
            WinningNumber::Entropy { value, .. } => value,
        }
    }

    /// The number itself.
    pub fn value(&self) -> (value: u64)
        ensures
            value == self.spec_value(),
    {
        match self {
            WinningNumber::Index(index) => *index,
            WinningNumber::Entropy { value, .. } => *value,
        }
    }
}

/// The accounts that the making of a pool names.
#[derive(Clone, Copy, Debug, PartialEq, Eq)]
pub struct InitPool {
    /// The administrator to be.
    pub owner: Identity,
    /// The account that will be the pool and hold its escrow.
    pub pool: Identity,
    /// The seed of the escrow authority.
    pub rand: Identity,
    /// Who will receive the fee on each ticket.
    pub fee_receiver: Identity,
    /// Who may claim in a winner's place.
    pub winner: Identity,
    /// The currency of the prize.
    pub prize_mint: Identity,
    /// The currency that tickets are paid in.
    pub ticket_mint: Identity,
}

/// The accounts that the opening of a round names.
#[derive(Clone, Copy, Debug, PartialEq, Eq)]
pub struct StartRound {
    /// The caller.
    pub owner: Identity,
    /// The pool.
    pub pool: Identity,
    /// The account whose buffer will hold the round's ledger.
    pub ticket_ledger: Identity,
    /// The account that will be the round.
    pub round_data: Identity,
}

/// What `init_pool` answers.
pub open spec fn init_pool_outcome(accounts: InitPool, bump: u8, fee: u64, program_id: Identity)
    -> Result<Pool, PoolError> {
    if program_address(escrow_seeds(accounts.rand@, bump), program_id@) != Some(accounts.pool@) {
        Err(PoolError::UnauthorizedEscrowAccess)
    } else {
        Ok(
            Pool {
                owner: accounts.owner,
                rand: accounts.rand,
                fee_receiver: accounts.fee_receiver,
                prize_mint: accounts.prize_mint,
                ticket_mint: accounts.ticket_mint,
                winner: accounts.winner,
                fee,
                bump,
            },
        )
    }
}

/// Makes a pool. The seed and the bump must derive the address of the pool
/// account for the controlling program: that address is the pool's escrow.
pub fn init_pool(accounts: &InitPool, bump: u8, fee: u64, program_id: &Identity) -> (r: Result<
    Pool,
    PoolError,
>)
    ensures
        r == init_pool_outcome(*accounts, bump, fee, *program_id),
{
    match authorize(&accounts.rand, bump, program_id, &accounts.pool) {
        Ok(_) => Ok(
            Pool {
                owner: accounts.owner,
                rand: accounts.rand,
                fee_receiver: accounts.fee_receiver,
                prize_mint: accounts.prize_mint,
                ticket_mint: accounts.ticket_mint,
                winner: accounts.winner,
                fee,
                bump,
            },
        ),
        Err(e) => Err(e),
    }
}

/// The draw engine: one way of pricing tickets, one way of drawing the
/// winner, one layout of the ledger.
#[derive(Clone, Copy, Debug, PartialEq, Eq)]
pub struct DrawEngine {
    pub pricing: PricingPolicy,
    pub resolution: ResolutionPolicy,
    pub layout: RecordLayout,
}

/// The price of one ticket of a round of the native draw.
pub const TICKET_PRICE: u64 = 250_000_000;

/// The fee on one ticket of a round of the native draw.
pub const TICKET_FEE: u64 = 20_000_000;

impl DrawEngine {
    /// The draw in which tickets are paid in tokens, the administrator names
    /// the winning index, and the ledger holds owners.
    pub fn token_lottery() -> (engine: DrawEngine)
        ensures
            engine == (DrawEngine {
                pricing: PricingPolicy::TokenPrice,
                resolution: ResolutionPolicy::Supplied,
                layout: RecordLayout::Owner,
            }),
    {
        DrawEngine {
            pricing: PricingPolicy::TokenPrice,
            resolution: ResolutionPolicy::Supplied,
            layout: RecordLayout::Owner,
        }
    }

    /// The draw in which tickets are paid in the native currency, anyone may
    /// draw the winner from published randomness taken as it stands, and the
    /// ledger holds numbered tickets.
    pub fn native_round() -> (engine: DrawEngine)
        ensures
            engine == (DrawEngine {
                pricing: PricingPolicy::FlatFee,
                resolution: ResolutionPolicy::Oracle { reduce: false },
                layout: RecordLayout::Ticket,
            }),
    {
        DrawEngine {
            pricing: PricingPolicy::FlatFee,
            resolution: ResolutionPolicy::Oracle { reduce: false },
            layout: RecordLayout::Ticket,
        }
    }

    /// The asset that a round accrues.
    pub open spec fn accrual_asset(self) -> Asset {
        match self.pricing {
            PricingPolicy::TokenPrice => Asset::TicketToken,
            PricingPolicy::FlatFee => Asset::Native,
        }
    }

    /// The asset that the winner gets.
    pub open spec fn prize_asset(self) -> Asset {
        match self.pricing {
            PricingPolicy::TokenPrice => Asset::PrizeToken,
            PricingPolicy::FlatFee => Asset::Native,
        }
    }

    /// What `open_round` answers: the new round and the ledger made ready for
    /// it, or why there is none.
    pub open spec fn open_round_outcome(
        self,
        pool: Pool,
        accounts: StartRound,
        ledger: Seq<u8>,
        now: u64,
        round_name: String,
        total_ticket: u64,
        ticket_price: u64,
        round_period: u64,
        bump: u8,
    ) -> Result<(Round, Seq<u8>), PoolError> {
        if accounts.owner != pool.owner {
            Err(PoolError::InvalidOwner)
        } else if round_period == 0 {
            Err(PoolError::InvalidPeriod)
        } else if ticket_price == 0 {
            Err(PoolError::InvalidPrice)
        } else if total_ticket > u32::MAX || !fits(ledger, self.layout, total_ticket as nat) {
            Err(PoolError::BufferTooSmall)
        } else {
            Ok(
                (
                    Round {
                        pool: accounts.pool,
                        ticket_ledger: accounts.ticket_ledger,
                        winner: Identity::spec_none(),
                        winning_index: 0,
                        ticket_price,
                        total_ticket,
                        start_time: now,
                        round_period,
                        tvl: 0,
                        claimed: false,
                        finished: false,
                        round_name,
                        bump,
                    },
                    initialized(ledger, accounts.round_data@),
                ),
            )
        }
    }

    /// Opens a round at time `now`: only the administrator may, the round
    /// must last, a ticket must cost something, and the buffer must have room
    /// for every ticket. The buffer becomes the round's empty ledger.
    pub fn open_round(
        &self,
        pool: &Pool,
        accounts: &StartRound,
        ledger: &mut [u8],
        now: u64,
        round_name: String,
        total_ticket: u64,
        ticket_price: u64,
        round_period: u64,
        bump: u8,
    ) -> (r: Result<Round, PoolError>)
        ensures
            match self.open_round_outcome(
                *pool,
                *accounts,
                old(ledger)@,
                now,
                round_name,
                total_ticket,
                ticket_price,
                round_period,
                bump,
            ) {
                Ok(opened) => r == Ok::<Round, PoolError>(opened.0) && final(ledger)@ == opened.1,
                Err(e) => r == Err::<Round, PoolError>(e) && final(ledger)@ == old(ledger)@,
            },
    {
        if !accounts.owner.equals(&pool.owner) {
            return Err(PoolError::InvalidOwner);
        }
        if round_period == 0 {
            return Err(PoolError::InvalidPeriod);
        }
        if ticket_price == 0 {
            return Err(PoolError::InvalidPrice);
        }
        if total_ticket > u32::MAX as u64 {
            return Err(PoolError::BufferTooSmall);
        }
        match initialize(ledger, self.layout, &accounts.round_data, total_ticket as u32) {
            Ok(()) => Ok(
                Round {
                    pool: accounts.pool,
                    ticket_ledger: accounts.ticket_ledger,
                    winner: Identity::none(),
                    winning_index: 0,
                    ticket_price,
                    total_ticket,
                    start_time: now,
                    round_period,
                    tvl: 0,
                    claimed: false,
                    finished: false,
                    round_name,
                    bump,
                },
            ),
            Err(e) => Err(e),
        }
    }

    /// Whether `quantity` tickets can be sold at time `now`, and if not, why.
    pub open spec fn purchase_check(
        self,
        pool: Pool,
        round: Round,
        ledger: Seq<u8>,
        now: u64,
        quantity: u32,
    ) -> Result<(), PoolError> {
        if now < round.start_time {
            Err(PoolError::InvalidTime)
        } else if ledger.len() < 44 {
            Err(PoolError::BufferTooSmall)
        } else if live_count(ledger) + quantity > round.total_ticket {
            Err(PoolError::TicketLimitReached)
        } else if live_count(ledger) + quantity > u32::MAX || !fits(
            ledger,
            self.layout,
            live_count(ledger) + quantity as nat,
        ) {
            Err(PoolError::LedgerFull)
        } else if round.ticket_price * quantity > u64::MAX || round.tvl + round.ticket_price
            * quantity > u64::MAX {
            Err(PoolError::InvalidPrice)
        } else if self.pricing == PricingPolicy::FlatFee && pool.fee * quantity > u64::MAX {
            Err(PoolError::InvalidPrice)
        } else {
            Ok(())
        }
    }

    /// The transfers that the sale of `quantity` tickets needs.
    pub open spec fn purchase_transfers(self, pool: Pool, round: Round, quantity: u32) -> Seq<
        TransferRequest,
    > {
        match self.pricing {
            PricingPolicy::TokenPrice => seq![
                TransferRequest {
                    source: Party::Caller,
                    destination: Party::Escrow,
                    amount: (round.ticket_price * quantity) as u64,
                    asset: Asset::TicketToken,
                    signer: None,
                },
            ],
            PricingPolicy::FlatFee => seq![
                TransferRequest {
                    source: Party::Caller,
                    destination: Party::Escrow,
                    amount: (round.ticket_price * quantity) as u64,
                    asset: Asset::Native,
                    signer: None,
                },
                TransferRequest {
                    source: Party::Caller,
                    destination: Party::FeeReceiver,
                    amount: (pool.fee * quantity) as u64,
                    asset: Asset::Native,
                    signer: None,
                },
            ],
        }
    }

    /// The round after `quantity` tickets are sold.
    pub open spec fn purchased(round: Round, quantity: u32) -> Round {
        Round { tvl: (round.tvl + round.ticket_price * quantity) as u64, ..round }
    }

    /// The ledger after `quantity` tickets are sold to `buyer`.
    pub open spec fn sold(self, ledger: Seq<u8>, buyer: Seq<u8>, quantity: u32) -> Seq<u8> {
        append_all(
            ledger,
            self.layout,
            live_count(ledger) + quantity as nat,
            Seq::new(quantity as nat, |i: int| buyer),
        )
    }

    /// Checks a sale and answers what the tickets cost, what fee is due on
    /// them, and how many tickets were sold before.
    fn check_purchase(&self, pool: &Pool, round: &Round, ledger: &[u8], now: u64, quantity: u32)
        -> (r: Result<(u64, u64, u32), PoolError>)
        ensures
            match self.purchase_check(*pool, *round, ledger@, now, quantity) {
                Ok(()) => r matches Ok(found) && found.0 == round.ticket_price * quantity
                    && found.1 == (if self.pricing == PricingPolicy::FlatFee {
                    pool.fee * quantity
                } else {
                    0
                }) && found.2 == live_count(ledger@),
                Err(e) => r == Err::<(u64, u64, u32), PoolError>(e),
            },
    {
        if now < round.start_time {
            return Err(PoolError::InvalidTime);
        }
        let count = match get_last_number(ledger) {
            Ok(count) => count,
            Err(e) => {
                return Err(e);
            },
        };
        if count as u64 + quantity as u64 > round.total_ticket {
            return Err(PoolError::TicketLimitReached);
        }
        if count as u64 + quantity as u64 > u32::MAX as u64 {
            return Err(PoolError::LedgerFull);
        }
        if !has_room(ledger, self.layout, count + quantity) {
            return Err(PoolError::LedgerFull);
        }
        let cost = match round.ticket_price.checked_mul(quantity as u64) {
            Some(cost) => cost,
            None => {
                return Err(PoolError::InvalidPrice);
            },
        };
        if round.tvl.checked_add(cost).is_none() {
            return Err(PoolError::InvalidPrice);
        }
        let fee = match self.pricing {
            PricingPolicy::TokenPrice => 0,
            PricingPolicy::FlatFee => match pool.fee.checked_mul(quantity as u64) {
                Some(fee) => fee,
                None => {
                    return Err(PoolError::InvalidPrice);
                },
            },
        };
        Ok((cost, fee, count))
    }

    /// Checks the sale of `quantity` tickets at time `now` and answers the
    /// transfers that the buyer has to make for them.
    pub fn plan_purchase(&self, pool: &Pool, round: &Round, ledger: &[u8], now: u64, quantity: u32)
        -> (r: Result<Vec<TransferRequest>, PoolError>)
        ensures
            match self.purchase_check(*pool, *round, ledger@, now, quantity) {
                Ok(()) => r matches Ok(transfers) && transfers@ == self.purchase_transfers(
                    *pool,
                    *round,
                    quantity,
                ),
                Err(e) => r == Err::<Vec<TransferRequest>, PoolError>(e),
            },
    {
        let (cost, fee, _) = match self.check_purchase(pool, round, ledger, now, quantity) {
            Ok(found) => found,
            Err(e) => {
                return Err(e);
            },
        };
        let mut transfers: Vec<TransferRequest> = Vec::new();
        match self.pricing {
            PricingPolicy::TokenPrice => {
                transfers.push(
                    TransferRequest {
                        source: Party::Caller,
                        destination: Party::Escrow,
                        amount: cost,
                        asset: Asset::TicketToken,
                        signer: None,
                    },
                );
            },
            PricingPolicy::FlatFee => {
                transfers.push(
                    TransferRequest {
                        source: Party::Caller,
                        destination: Party::Escrow,
                        amount: cost,
                        asset: Asset::Native,
                        signer: None,
                    },
                );
                transfers.push(
                    TransferRequest {
                        source: Party::Caller,
                        destination: Party::FeeReceiver,
                        amount: fee,
                        asset: Asset::Native,
                        signer: None,
                    },
                );
            },
        }
        proof {
            assert(transfers@ =~= self.purchase_transfers(*pool, *round, quantity));
        }
        Ok(transfers)
    }

    /// Sells `quantity` tickets to `buyer` at time `now`, once the buyer's
    /// transfers have been made: writes one record for each ticket behind
    /// those in the ledger and adds their price to what the round has
    /// accrued. Answers the tickets.
    pub fn buy_ticket(
        &self,
        pool: &Pool,
        round: &mut Round,
        ledger: &mut [u8],
        buyer: &Identity,
        now: u64,
        quantity: u32,
        outcome: TransferOutcome,
    ) -> (r: Result<Vec<TicketData>, PoolError>)
        ensures
            match self.purchase_check(*pool, *old(round), old(ledger)@, now, quantity) {
                Ok(()) => if outcome == TransferOutcome::Completed {
                    &&& r matches Ok(tickets)
                    &&& tickets@.map_values(|t: TicketData| t@) == tickets_from(
                        live_count(old(ledger)@),
                        Seq::new(quantity as nat, |i: int| buyer@),
                    )
                    &&& *final(round) == Self::purchased(*old(round), quantity)
                    &&& final(ledger)@ == self.sold(old(ledger)@, buyer@, quantity)
                    &&& live_count(final(ledger)@) == live_count(old(ledger)@) + quantity
                    &&& entries(final(ledger)@, self.layout) == entries(old(ledger)@, self.layout)
                        + tickets_from(
                        live_count(old(ledger)@),
                        Seq::new(quantity as nat, |i: int| buyer@),
                    )
                } else {
                    &&& r == Err::<Vec<TicketData>, PoolError>(PoolError::TransferFailed)
                    &&& *final(round) == *old(round)
                    &&& final(ledger)@ == old(ledger)@
                },
                Err(e) => {
                    &&& r == Err::<Vec<TicketData>, PoolError>(e)
                    &&& *final(round) == *old(round)
                    &&& final(ledger)@ == old(ledger)@
                },
            },
    {
        let (cost, _, count) = match self.check_purchase(pool, round, ledger, now, quantity) {
            Ok(found) => found,
            Err(e) => {
                return Err(e);
            },
        };
        match outcome {
            TransferOutcome::Completed => {},
            TransferOutcome::Failed => {
                return Err(PoolError::TransferFailed);
            },
        }
        let capacity: u32 = count + quantity;
        let ghost owners = Seq::new(quantity as nat, |i: int| buyer@);
        let mut tickets: Vec<TicketData> = Vec::new();
        let mut i: u32 = 0;
        while i < quantity
            invariant
                i <= quantity,
                capacity == count + quantity,
                count == live_count(old(ledger)@),
                owners == Seq::new(quantity as nat, |i: int| buyer@),
                well_formed(old(ledger)@, self.layout, capacity as nat),
                well_formed(ledger@, self.layout, capacity as nat),
                live_count(ledger@) == count + i,
                ledger@ == append_all(
                    old(ledger)@,
                    self.layout,
                    capacity as nat,
                    owners.take(i as int),
                ),
                tickets@.len() == i,
                forall|j: int|
                    0 <= j < i ==> (#[trigger] tickets@[j])@ == tickets_from(count as nat, owners)[j],
            decreases quantity - i,
        {
            proof {
                assert(owners.take(i + 1).drop_last() =~= owners.take(i as int));
                assert(owners.take(i + 1).last() == buyer@);
            }
            match append(ledger, self.layout, capacity, buyer) {
                Ok(ticket) => {
                    tickets.push(ticket);
                },
                Err(e) => {
                    return Err(e);
                },
            }
            i = i + 1;
        }
        round.tvl = round.tvl + cost;
        proof {
            assert(owners.take(quantity as int) =~= owners);
            law_append_only(old(ledger)@, self.layout, capacity as nat, owners);
            assert(tickets@.map_values(|t: TicketData| t@) =~= tickets_from(count as nat, owners));
        }
        Ok(tickets)
    }

    /// The record at `index`, with the index, or why there is none.
    pub open spec fn lookup(self, ledger: Seq<u8>, index: u64) -> Result<
        (u64, TicketView),
        PoolError,
    > {
        match read_outcome(ledger, self.layout, index as nat) {
            Ok(ticket) => Ok((index, ticket)),
            Err(e) => Err(e),
        }
    }

    /// The index that the policy makes of `number`.
    pub open spec fn drawn_index(self, ledger: Seq<u8>, number: WinningNumber) -> u64 {
        if self.resolution == (ResolutionPolicy::Oracle { reduce: true }) {
            (number.spec_value() as nat % live_count(ledger)) as u64
        } else {
            number.spec_value()
        }
    }

    /// The index drawn at time `now` from `number` and the ticket that wins
    /// with it, or why no winner can be drawn.
    pub open spec fn resolve_outcome(
        self,
        pool: Pool,
        round: Round,
        ledger: Seq<u8>,
        caller: Identity,
        now: u64,
        number: WinningNumber,
    ) -> Result<(u64, TicketView), PoolError> {
        if now < round.window_end() {
            Err(PoolError::InvalidTime)
        } else {
            match self.resolution {
                ResolutionPolicy::Supplied => if caller != pool.owner {
                    Err(PoolError::InvalidOwner)
                } else {
                    self.lookup(ledger, number.spec_value())
                },
                ResolutionPolicy::Oracle { reduce } => match number {
                    WinningNumber::Index(_) => Err(PoolError::IncorrectRandomnessSource),
                    WinningNumber::Entropy { source, value } => if !accepted_source(source) {
                        Err(PoolError::IncorrectRandomnessSource)
                    } else if !reduce {
                        self.lookup(ledger, value)
                    } else if ledger.len() < 44 {
                        Err(PoolError::BufferTooSmall)
                    } else if live_count(ledger) == 0 {
                        Err(PoolError::IndexOutOfRange)
                    } else {
                        self.lookup(ledger, (value as nat % live_count(ledger)) as u64)
                    },
                },
            }
        }
    }

    /// The round after the ticket at `index`, owned by `winner`, has won.
    pub open spec fn resolved(round: Round, index: u64, winner: Identity) -> Round {
        Round { winner, winning_index: index, finished: true, ..round }
    }

    /// Draws the winner of the round at time `now`, which must not be before
    /// the end of the sale window. The number is used as the policy says; the
    /// ticket at the index it gives wins, and the round remembers its owner.
    /// Answers the winning ticket.
    pub fn close_and_resolve(
        &self,
        pool: &Pool,
        round: &mut Round,
        ledger: &[u8],
        caller: &Identity,
        now: u64,
        number: &WinningNumber,
    ) -> (r: Result<TicketData, PoolError>)
        ensures
            match self.resolve_outcome(*pool, *old(round), ledger@, *caller, now, *number) {
                Ok(drawn) => {
                    &&& r matches Ok(ticket)
                    &&& ticket@ == drawn.1
                    &&& *final(round) == Self::resolved(*old(round), drawn.0, ticket.owner)
                },
                Err(e) => r == Err::<TicketData, PoolError>(e) && *final(round) == *old(round),
            },
    {
        if !round.window_elapsed(now) {
            return Err(PoolError::InvalidTime);
        }
        let index: u64 = match self.resolution {
            ResolutionPolicy::Supplied => {
                if !caller.equals(&pool.owner) {
                    return Err(PoolError::InvalidOwner);
                }
                number.value()
            },
            ResolutionPolicy::Oracle { reduce } => match number {
                WinningNumber::Index(_) => {
                    return Err(PoolError::IncorrectRandomnessSource);
                },
                WinningNumber::Entropy { source, value } => {
                    if !is_accepted_source(source) {
                        return Err(PoolError::IncorrectRandomnessSource);
                    }
                    if reduce {
                        let count = match get_last_number(ledger) {
                            Ok(count) => count,
                            Err(e) => {
                                return Err(e);
                            },
                        };
                        if count == 0 {
                            return Err(PoolError::IndexOutOfRange);
                        }
                        *value % (count as u64)
                    } else {
                        *value
                    }
                },
            },
        };
        match read(ledger, self.layout, index) {
            Ok(ticket) => {
                round.winner = ticket.owner;
                round.winning_index = index;
                round.finished = true;
                Ok(ticket)
            },
            Err(e) => Err(e),
        }
    }

    /// Whether the signer holds the seed and bump of the pool's escrow.
    pub open spec fn signs_for(signer: EscrowSigner, pool: Pool) -> bool {
        signer.spec_seed() == pool.rand && signer.spec_bump() == pool.bump
    }

    /// Whether the signer holds the seed and bump of the pool's escrow.
    pub fn check_signer(signer: &EscrowSigner, pool: &Pool) -> (matches: bool)
        ensures
            matches == Self::signs_for(*signer, *pool),
    {
        signer.seed().equals(&pool.rand) && signer.bump() == pool.bump
    }

    /// Whether `caller` can claim the prize at time `now`, and if not, why.
    pub open spec fn claim_check(
        self,
        pool: Pool,
        round: Round,
        caller: Identity,
        now: u64,
        signer: EscrowSigner,
    ) -> Result<(), PoolError> {
        if caller != round.winner && caller != pool.winner {
            Err(PoolError::InvalidWinner)
        } else if !round.finished {
            Err(PoolError::RoundNotFinished)
        } else if now < round.window_end() {
            Err(PoolError::InvalidTime)
        } else if self.pricing == PricingPolicy::TokenPrice && round.claimed {
            Err(PoolError::InvalidTime)
        } else if !Self::signs_for(signer, pool) {
            Err(PoolError::UnauthorizedEscrowAccess)
        } else {
            Ok(())
        }
    }

    /// What the winner of the round gets.
    pub open spec fn prize(self, round: Round) -> u64 {
        match self.pricing {
            PricingPolicy::TokenPrice => 1,
            PricingPolicy::FlatFee => round.tvl,
        }
    }

    /// The transfer that pays `amount` of `asset` out of the escrow.
    pub open spec fn payout(amount: u64, asset: Asset, signer: EscrowSigner) -> TransferRequest {
        TransferRequest {
            source: Party::Escrow,
            destination: Party::Caller,
            amount,
            asset,
            signer: Some(signer),
        }
    }

    /// The transfer that pays `amount` of `asset` into the escrow.
    pub open spec fn payment(amount: u64, asset: Asset) -> TransferRequest {
        TransferRequest {
            source: Party::Caller,
            destination: Party::Escrow,
            amount,
            asset,
            signer: None,
        }
    }

    /// The round after its prize is paid out.
    pub open spec fn claimed(self, round: Round) -> Round {
        Round {
            claimed: true,
            tvl: match self.pricing {
                PricingPolicy::TokenPrice => round.tvl,
                PricingPolicy::FlatFee => 0,
            },
            ..round
        }
    }

    /// Checks a claim.
    fn check_claim(
        &self,
        pool: &Pool,
        round: &Round,
        caller: &Identity,
        now: u64,
        signer: &EscrowSigner,
    ) -> (r: Result<(), PoolError>)
        ensures
            r == self.claim_check(*pool, *round, *caller, now, *signer),
    {
        if !caller.equals(&round.winner) && !caller.equals(&pool.winner) {
            return Err(PoolError::InvalidWinner);
        }
        if !round.finished {
            return Err(PoolError::RoundNotFinished);
        }
        if !round.window_elapsed(now) {
            return Err(PoolError::InvalidTime);
        }
        match self.pricing {
            PricingPolicy::TokenPrice => {
                if round.claimed {
                    return Err(PoolError::InvalidTime);
                }
            },
            PricingPolicy::FlatFee => {},
        }
        if !Self::check_signer(signer, pool) {
            return Err(PoolError::UnauthorizedEscrowAccess);
        }
        Ok(())
    }

    /// Checks the claim of `caller` at time `now` and answers the transfer
    /// that pays the prize out of the escrow.
    pub fn plan_claim(
        &self,
        pool: &Pool,
        round: &Round,
        caller: &Identity,
        now: u64,
        signer: &EscrowSigner,
    ) -> (r: Result<TransferRequest, PoolError>)
        ensures
            match self.claim_check(*pool, *round, *caller, now, *signer) {
                Ok(()) => r == Ok::<TransferRequest, PoolError>(
                    Self::payout(self.prize(*round), self.prize_asset(), *signer),
                ),
                Err(e) => r == Err::<TransferRequest, PoolError>(e),
            },
    {
        match self.check_claim(pool, round, caller, now, signer) {
            Ok(()) => {},
            Err(e) => {
                return Err(e);
            },
        }
        let (amount, asset) = match self.pricing {
            PricingPolicy::TokenPrice => (1, Asset::PrizeToken),
            PricingPolicy::FlatFee => (round.tvl, Asset::Native),
        };
        Ok(
            TransferRequest {
                source: Party::Escrow,
                destination: Party::Caller,
                amount,
                asset,
                signer: Some(*signer),
            },
        )
    }

    /// Settles the round once the prize has been paid out to `caller`.
    pub fn claim_prize(
        &self,
        pool: &Pool,
        round: &mut Round,
        caller: &Identity,
        now: u64,
        signer: &EscrowSigner,
        outcome: TransferOutcome,
    ) -> (r: Result<(), PoolError>)
        ensures
            match self.claim_check(*pool, *old(round), *caller, now, *signer) {
                Ok(()) => if outcome == TransferOutcome::Completed {
                    r is Ok && *final(round) == self.claimed(*old(round))
                } else {
                    r == Err::<(), PoolError>(PoolError::TransferFailed) && *final(round) == *old(
                        round,
                    )
                },
                Err(e) => r == Err::<(), PoolError>(e) && *final(round) == *old(round),
            },
    {
        match self.check_claim(pool, round, caller, now, signer) {
            Ok(()) => {},
            Err(e) => {
                return Err(e);
            },
        }
        match outcome {
            TransferOutcome::Completed => {},
            TransferOutcome::Failed => {
                return Err(PoolError::TransferFailed);
            },
        }
        round.claimed = true;
        match self.pricing {
            PricingPolicy::TokenPrice => {},
            PricingPolicy::FlatFee => {
                round.tvl = 0;
            },
        }
        Ok(())
    }

    /// Whether `caller` can take `amount` out of what the round has accrued,
    /// and if not, why.
    pub open spec fn withdraw_check(
        pool: Pool,
        round: Round,
        caller: Identity,
        amount: u64,
        signer: EscrowSigner,
    ) -> Result<(), PoolError> {
        if caller != pool.owner {
            Err(PoolError::InvalidOwner)
        } else if amount > round.tvl {
            Err(PoolError::InvalidAmount)
        } else if !Self::signs_for(signer, pool) {
            Err(PoolError::UnauthorizedEscrowAccess)
        } else {
            Ok(())
        }
    }

    /// The round after `amount` is taken out.
    pub open spec fn withdrawn(round: Round, amount: u64) -> Round {
        Round { tvl: (round.tvl - amount) as u64, ..round }
    }

    /// Checks a withdrawal.
    fn check_withdraw(
        pool: &Pool,
        round: &Round,
        caller: &Identity,
        amount: u64,
        signer: &EscrowSigner,
    ) -> (r: Result<(), PoolError>)
        ensures
            r == Self::withdraw_check(*pool, *round, *caller, amount, *signer),
    {
        if !caller.equals(&pool.owner) {
            return Err(PoolError::InvalidOwner);
        }
        if amount > round.tvl {
            return Err(PoolError::InvalidAmount);
        }
        if !Self::check_signer(signer, pool) {
            return Err(PoolError::UnauthorizedEscrowAccess);
        }
        Ok(())
    }

    /// Checks that the administrator may take `amount` out of what the round
    /// has accrued, and answers the transfer that pays it out of the escrow.
    pub fn plan_withdraw(
        &self,
        pool: &Pool,
        round: &Round,
        caller: &Identity,
        amount: u64,
        signer: &EscrowSigner,
    ) -> (r: Result<TransferRequest, PoolError>)
        ensures
            match Self::withdraw_check(*pool, *round, *caller, amount, *signer) {
                Ok(()) => r == Ok::<TransferRequest, PoolError>(
                    Self::payout(amount, self.accrual_asset(), *signer),
                ),
                Err(e) => r == Err::<TransferRequest, PoolError>(e),
            },
    {
        match Self::check_withdraw(pool, round, caller, amount, signer) {
            Ok(()) => {},
            Err(e) => {
                return Err(e);
            },
        }
        let asset = match self.pricing {
            PricingPolicy::TokenPrice => Asset::TicketToken,
            PricingPolicy::FlatFee => Asset::Native,
        };
        Ok(
            TransferRequest {
                source: Party::Escrow,
                destination: Party::Caller,
                amount,
                asset,
                signer: Some(*signer),
            },
        )
    }

    /// Takes `amount` off what the round has accrued, once it has been paid
    /// out to the administrator.
    pub fn withdraw(
        &self,
        pool: &Pool,
        round: &mut Round,
        caller: &Identity,
        amount: u64,
        signer: &EscrowSigner,
        outcome: TransferOutcome,
    ) -> (r: Result<(), PoolError>)
        ensures
            match Self::withdraw_check(*pool, *old(round), *caller, amount, *signer) {
                Ok(()) => if outcome == TransferOutcome::Completed {
                    r is Ok && *final(round) == Self::withdrawn(*old(round), amount)
                } else {
                    r == Err::<(), PoolError>(PoolError::TransferFailed) && *final(round) == *old(
                        round,
                    )
                },
                Err(e) => r == Err::<(), PoolError>(e) && *final(round) == *old(round),
            },
    {
        match Self::check_withdraw(pool, round, caller, amount, signer) {
            Ok(()) => {},
            Err(e) => {
                return Err(e);
            },
        }
        match outcome {
            TransferOutcome::Completed => {},
            TransferOutcome::Failed => {
                return Err(PoolError::TransferFailed);
            },
        }
        round.tvl = round.tvl - amount;
        Ok(())
    }

    /// Whether `caller` can add `amount` to what the round has accrued, and
    /// if not, why.
    pub open spec fn deposit_check(pool: Pool, round: Round, caller: Identity, amount: u64)
        -> Result<(), PoolError> {
        if caller != pool.owner {
            Err(PoolError::InvalidOwner)
        } else if round.tvl + amount > u64::MAX {
            Err(PoolError::InvalidAmount)
        } else {
            Ok(())
        }
    }

    /// The round after `amount` is added.
    pub open spec fn deposited(round: Round, amount: u64) -> Round {
        Round { tvl: (round.tvl + amount) as u64, ..round }
    }

    /// Checks a deposit.
    fn check_deposit(pool: &Pool, round: &Round, caller: &Identity, amount: u64) -> (r: Result<
        (),
        PoolError,
    >)
        ensures
            r == Self::deposit_check(*pool, *round, *caller, amount),
    {
        if !caller.equals(&pool.owner) {
            return Err(PoolError::InvalidOwner);
        }
        if round.tvl.checked_add(amount).is_none() {
            return Err(PoolError::InvalidAmount);
        }
        Ok(())
    }

    /// Checks that the administrator may add `amount` to what the round has
    /// accrued, and answers the transfer that pays it into the escrow.
    pub fn plan_deposit(&self, pool: &Pool, round: &Round, caller: &Identity, amount: u64) -> (r:
        Result<TransferRequest, PoolError>)
        ensures
            match Self::deposit_check(*pool, *round, *caller, amount) {
                Ok(()) => r == Ok::<TransferRequest, PoolError>(
                    Self::payment(amount, self.accrual_asset()),
                ),
                Err(e) => r == Err::<TransferRequest, PoolError>(e),
            },
    {
        match Self::check_deposit(pool, round, caller, amount) {
            Ok(()) => {},
            Err(e) => {
                return Err(e);
            },
        }
        let asset = match self.pricing {
            PricingPolicy::TokenPrice => Asset::TicketToken,
            PricingPolicy::FlatFee => Asset::Native,
        };
        Ok(
            TransferRequest {
                source: Party::Caller,
                destination: Party::Escrow,
                amount,
                asset,
                signer: None,
            },
        )
    }

    /// Adds `amount` to what the round has accrued, once the administrator
    /// has paid it into the escrow.
    pub fn deposit(
        &self,
        pool: &Pool,
        round: &mut Round,
        caller: &Identity,
        amount: u64,
        outcome: TransferOutcome,
    ) -> (r: Result<(), PoolError>)
        ensures
            match Self::deposit_check(*pool, *old(round), *caller, amount) {
                Ok(()) => if outcome == TransferOutcome::Completed {
                    r is Ok && *final(round) == Self::deposited(*old(round), amount)
                } else {
                    r == Err::<(), PoolError>(PoolError::TransferFailed) && *final(round) == *old(
                        round,
                    )
                },
                Err(e) => r == Err::<(), PoolError>(e) && *final(round) == *old(round),
            },
    {
        match Self::check_deposit(pool, round, caller, amount) {
            Ok(()) => {},
            Err(e) => {
                return Err(e);
            },
        }
        match outcome {
            TransferOutcome::Completed => {},
            TransferOutcome::Failed => {
                return Err(PoolError::TransferFailed);
            },
        }
        round.tvl = round.tvl + amount;
        Ok(())
    }

    /// Whether `caller` can drain a unit of the prize, and if not, why.
    pub open spec fn emergency_check(pool: Pool, caller: Identity, signer: EscrowSigner) -> Result<
        (),
        PoolError,
    > {
        if caller != pool.owner {
            Err(PoolError::InvalidOwner)
        } else if !Self::signs_for(signer, pool) {
            Err(PoolError::UnauthorizedEscrowAccess)
        } else {
            Ok(())
        }
    }

    /// Answers the transfer that pays one unit of the prize out of the escrow
    /// to the administrator. No round is asked and none is changed: this is
    /// the operator's way out, whatever state the draw is in.
    pub fn emergency_withdraw(&self, pool: &Pool, caller: &Identity, signer: &EscrowSigner) -> (r:
        Result<TransferRequest, PoolError>)
        ensures
            match Self::emergency_check(*pool, *caller, *signer) {
                Ok(()) => r == Ok::<TransferRequest, PoolError>(
                    Self::payout(1, self.prize_asset(), *signer),
                ),
                Err(e) => r == Err::<TransferRequest, PoolError>(e),
            },
    {
        if !caller.equals(&pool.owner) {
            return Err(PoolError::InvalidOwner);
        }
        if !Self::check_signer(signer, pool) {
            return Err(PoolError::UnauthorizedEscrowAccess);
        }
        let asset = match self.pricing {
            PricingPolicy::TokenPrice => Asset::PrizeToken,
            PricingPolicy::FlatFee => Asset::Native,
        };
        Ok(
            TransferRequest {
                source: Party::Escrow,
                destination: Party::Caller,
                amount: 1,
                asset,
                signer: Some(*signer),
            },
        )
    }
}

} // verus!
