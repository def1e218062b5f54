//! The ticket ledger: a dense array of fixed-size records behind a small
//! header, kept in a byte buffer that the caller lends.
//!
//! ```text
//! offset  0   type tag of a ledger                8 bytes
//! offset  8   identity of the round that owns it 32 bytes
//! offset 40   number of records written           4 bytes, lowest first
//! offset 44   the records, one slot after the other, no padding
//! ```
//!
//! Every operation reads or writes the header and one slot; none walks the
//! array.

use vstd::prelude::*;
use crate::codec::{le_bytes, le_value, splice};
use crate::codec::{lemma_le_bytes_len, lemma_u32_round_trip, lemma_u64_round_trip};
use crate::codec::{read_u32_le, read_u64_le, write_bytes, write_u32_le, write_u64_le};
use crate::error::PoolError;
use crate::identity::Identity;

verus! {

/// Width of the type tag.
pub const TAG_SIZE: usize = 8;

/// Offset of the owning round's identity.
pub const ROUND_OFFSET: usize = 8;

/// Offset of the number of records written.
pub const COUNT_OFFSET: usize = 40;

/// Width of the header; the first slot starts here.
pub const HEADER_SIZE: usize = 44;

/// Width of a slot that holds an owner only.
pub const OWNER_RECORD_SIZE: usize = 32;

/// Width of a slot that holds a ticket number and an owner.
pub const TICKET_DATA_SIZE: usize = 8 + 32;

/// The largest number of tickets a ledger account is allocated for.
pub const MAX_LEN: usize = 10000;

/// Bytes behind the type tag in a ledger account allocated for `MAX_LEN` tickets.
pub const POOL_LEDGER_SIZE: usize = 32 + 4 + TICKET_DATA_SIZE * MAX_LEN;

/// The type tag that opens every ledger.
pub const LEDGER_TAG: [u8; 8] = [199, 68, 200, 187, 58, 64, 242, 212];

/// What a slot of the ledger holds.
#[derive(Clone, Copy, Debug, PartialEq, Eq, Structural)]
pub enum RecordLayout {
    /// The owner of the ticket, 32 bytes. The ticket's number is its position.
    Owner,
    /// The ticket's number in 8 bytes, lowest first, then its owner, 32 bytes.
    Ticket,
}

/// One sold ticket.
#[derive(Clone, Copy, Debug, PartialEq, Eq)]
pub struct TicketData {
    /// The number of the ticket: tickets are numbered from 1 in the order sold.
    pub ticket_index: u64,
    /// Who bought it.
    pub owner: Identity,
}

/// A ticket as the contracts speak of it.
pub struct TicketView {
    pub ticket_index: nat,
    pub owner: Seq<u8>,
}

impl View for TicketData {
    type V = TicketView;

    open spec fn view(&self) -> TicketView {
        TicketView { ticket_index: self.ticket_index as nat, owner: self.owner@ }
    }
}

impl RecordLayout {
    /// Width of one slot.
    pub open spec fn spec_record_size(self) -> nat {
        match self {
            RecordLayout::Owner => 32,
            RecordLayout::Ticket => 40,
        }
    }

    /// Width of one slot.
    pub fn record_size(&self) -> (size: usize)
        ensures
            size == self.spec_record_size(),
    {
        match self {
            RecordLayout::Owner => OWNER_RECORD_SIZE,
            RecordLayout::Ticket => TICKET_DATA_SIZE,
        }
    }
}

/// Offset of slot `index`.
pub open spec fn slot_offset(layout: RecordLayout, index: nat) -> nat {
    44 + layout.spec_record_size() * index
}

/// Length of a buffer that holds the header and `capacity` slots.
pub open spec fn ledger_size(layout: RecordLayout, capacity: nat) -> nat {
    slot_offset(layout, capacity)
}

/// The 44 bytes of a header.
pub open spec fn header_bytes(round: Seq<u8>, count: nat) -> Seq<u8> {
    LEDGER_TAG@ + round + le_bytes(count, 4)
}

/// The owning round recorded in the header.
pub open spec fn round_of(buf: Seq<u8>) -> Seq<u8> {
    buf.subrange(8, 40)
}

/// The number of records written, as the header gives it.
pub open spec fn live_count(buf: Seq<u8>) -> nat {
    le_value(buf.subrange(40, 44))
}

/// The bytes of a record in its slot.
pub open spec fn encode_record(layout: RecordLayout, ticket: TicketView) -> Seq<u8> {
    match layout {
        RecordLayout::Owner => ticket.owner,
        RecordLayout::Ticket => le_bytes(ticket.ticket_index, 8) + ticket.owner,
    }
}

/// The record that the bytes of slot `index` stand for.
pub open spec fn decode_record(layout: RecordLayout, index: nat, bytes: Seq<u8>) -> TicketView {
    match layout {
        RecordLayout::Owner => TicketView { ticket_index: index + 1, owner: bytes },
        RecordLayout::Ticket => TicketView {
            ticket_index: le_value(bytes.subrange(0, 8)),
            owner: bytes.subrange(8, 40),
        },
    }
}

/// The record in slot `index`.
pub open spec fn record_at(buf: Seq<u8>, layout: RecordLayout, index: nat) -> TicketView {
    decode_record(
        layout,
        index,
        buf.subrange(slot_offset(layout, index) as int, slot_offset(layout, index + 1) as int),
    )
}

/// The records written so far, in the order written.
pub open spec fn entries(buf: Seq<u8>, layout: RecordLayout) -> Seq<TicketView> {
    Seq::new(live_count(buf), |i: int| record_at(buf, layout, i as nat))
}

/// The buffer has room for the header and `capacity` slots.
pub open spec fn fits(buf: Seq<u8>, layout: RecordLayout, capacity: nat) -> bool {
    buf.len() >= ledger_size(layout, capacity)
}

/// The buffer holds a ledger of at most `capacity` records.
pub open spec fn well_formed(buf: Seq<u8>, layout: RecordLayout, capacity: nat) -> bool {
    &&& fits(buf, layout, capacity)
    &&& live_count(buf) <= capacity
    &&& capacity <= u32::MAX
}

/// A buffer turned into an empty ledger of `round`.
pub open spec fn initialized(buf: Seq<u8>, round: Seq<u8>) -> Seq<u8> {
    splice(buf, 0, header_bytes(round, 0))
}

/// The record that the next ticket of `owner` gets.
pub open spec fn next_record(buf: Seq<u8>, owner: Seq<u8>) -> TicketView {
    TicketView { ticket_index: live_count(buf) + 1, owner }
}

/// A ledger after one more ticket of `owner` is written.
pub open spec fn appended(buf: Seq<u8>, layout: RecordLayout, owner: Seq<u8>) -> Seq<u8> {
    splice(
        splice(
            buf,
            slot_offset(layout, live_count(buf)) as int,
            encode_record(layout, next_record(buf, owner)),
        ),
        40,
        le_bytes(live_count(buf) + 1, 4),
    )
}

/// What `initialize` answers.
pub open spec fn initialize_outcome(
    buf: Seq<u8>,
    layout: RecordLayout,
    round: Seq<u8>,
    capacity: nat,
) -> Result<Seq<u8>, PoolError> {
    if !fits(buf, layout, capacity) {
        Err(PoolError::BufferTooSmall)
    } else {
        Ok(initialized(buf, round))
    }
}

/// What `append` answers.
pub open spec fn append_outcome(
    buf: Seq<u8>,
    layout: RecordLayout,
    capacity: nat,
    owner: Seq<u8>,
) -> Result<Seq<u8>, PoolError> {
    if !fits(buf, layout, capacity) {
        Err(PoolError::BufferTooSmall)
    } else if live_count(buf) >= capacity {
        Err(PoolError::LedgerFull)
    } else {
        Ok(appended(buf, layout, owner))
    }
}

/// What `read` answers.
pub open spec fn read_outcome(buf: Seq<u8>, layout: RecordLayout, index: nat) -> Result<
    TicketView,
    PoolError,
> {
    if buf.len() < 44 {
        Err(PoolError::BufferTooSmall)
    } else if index >= live_count(buf) {
        Err(PoolError::IndexOutOfRange)
    } else if buf.len() < slot_offset(layout, index + 1) {
        Err(PoolError::BufferTooSmall)
    } else {
        Ok(record_at(buf, layout, index))
    }
}

/// An initialized buffer is an empty, well-formed ledger of its round; what
/// lies behind the header is untouched.
pub proof fn lemma_initialized(buf: Seq<u8>, layout: RecordLayout, round: Seq<u8>, capacity: nat)
    requires
        fits(buf, layout, capacity),
        capacity <= u32::MAX,
        round.len() == 32,
    ensures
        initialized(buf, round).len() == buf.len(),
        initialized(buf, round).subrange(0, 8) == LEDGER_TAG@,
        round_of(initialized(buf, round)) == round,
        live_count(initialized(buf, round)) == 0,
        entries(initialized(buf, round), layout) == Seq::<TicketView>::empty(),
        well_formed(initialized(buf, round), layout, capacity),
        forall|i: int| 44 <= i < buf.len() ==> initialized(buf, round)[i] == buf[i],
{
    let after = initialized(buf, round);
    lemma_le_bytes_len(0, 4);
    lemma_u32_round_trip(0);
    assert(after.subrange(0, 8) =~= LEDGER_TAG@);
    assert(after.subrange(8, 40) =~= round);
    assert(after.subrange(40, 44) =~= le_bytes(0, 4));
    assert(entries(after, layout) =~= Seq::<TicketView>::empty());
}

/// Appending to a ledger that is not full adds the new record behind the
/// others, changes none of them, counts it, and touches nothing but the count
/// and the one slot.
pub proof fn lemma_appended(buf: Seq<u8>, layout: RecordLayout, capacity: nat, owner: Seq<u8>)
    requires
        well_formed(buf, layout, capacity),
        live_count(buf) < capacity,
        owner.len() == 32,
    ensures
        appended(buf, layout, owner).len() == buf.len(),
        appended(buf, layout, owner).subrange(0, 40) == buf.subrange(0, 40),
        live_count(appended(buf, layout, owner)) == live_count(buf) + 1,
        well_formed(appended(buf, layout, owner), layout, capacity),
        entries(appended(buf, layout, owner), layout) == entries(buf, layout).push(
            next_record(buf, owner),
        ),
        forall|i: int|
            0 <= i < buf.len() && !(40 <= i < 44) && !(slot_offset(layout, live_count(buf)) <= i
                < slot_offset(layout, live_count(buf) + 1)) ==> appended(buf, layout, owner)[i]
                == buf[i],
{
    let count = live_count(buf);
    let after = appended(buf, layout, owner);
    let record = next_record(buf, owner);
    let start = slot_offset(layout, count) as int;
    let end = slot_offset(layout, count + 1) as int;
    lemma_le_bytes_len(count + 1, 4);
    lemma_le_bytes_len(count + 1, 8);
    lemma_u32_round_trip((count + 1) as u32);
    lemma_u64_round_trip((count + 1) as u64);
    assert(encode_record(layout, record).len() == layout.spec_record_size());
    assert(end <= buf.len());
    assert(after.subrange(0, 40) =~= buf.subrange(0, 40));
    assert(after.subrange(40, 44) =~= le_bytes(count + 1, 4));
    assert(after.subrange(start, end) =~= encode_record(layout, record));
    assert(record_at(after, layout, count) == record) by {
        let slot = after.subrange(start, end);
        match layout {
            RecordLayout::Owner => {},
            RecordLayout::Ticket => {
                assert(slot.subrange(0, 8) =~= le_bytes(count + 1, 8));
                assert(slot.subrange(8, 40) =~= owner);
            },
        }
    }
    assert forall|i: nat| i < count implies record_at(after, layout, i) == record_at(
        buf,
        layout,
        i,
    ) by {
        let a = slot_offset(layout, i) as int;
        let b = slot_offset(layout, i + 1) as int;
        assert(b <= start);
        assert(after.subrange(a, b) =~= buf.subrange(a, b));
    }
    assert(entries(after, layout) =~= entries(buf, layout).push(record));
}

/// The ledger after a ticket for each of `owners` was offered to `append`, in
/// order. An offer that `append` refuses leaves the ledger as it was.
pub open spec fn append_all(
    buf: Seq<u8>,
    layout: RecordLayout,
    capacity: nat,
    owners: Seq<Seq<u8>>,
) -> Seq<u8>
    decreases owners.len(),
{
    if owners.len() == 0 {
        buf
    } else {
        let before = append_all(buf, layout, capacity, owners.drop_last());
        match append_outcome(before, layout, capacity, owners.last()) {
            Ok(after) => after,
            Err(_) => before,
        }
    }
}

/// The records of tickets sold to `owners`, in order, by a ledger that held
/// `count` records before.
pub open spec fn tickets_from(count: nat, owners: Seq<Seq<u8>>) -> Seq<TicketView> {
    Seq::new(
        owners.len(),
        |i: int| TicketView { ticket_index: (count + i + 1) as nat, owner: owners[i] },
    )
}

/// The ledger only grows at its end. After any run of appends that stays
/// within the capacity, the records are those that were there, unchanged,
/// followed by one record for each append, in the order of the appends; and
/// reading any index below the count gives exactly the record written there.
pub proof fn law_append_only(
    buf: Seq<u8>,
    layout: RecordLayout,
    capacity: nat,
    owners: Seq<Seq<u8>>,
)
    requires
        well_formed(buf, layout, capacity),
        forall|i: int| 0 <= i < owners.len() ==> (#[trigger] owners[i]).len() == 32,
        live_count(buf) + owners.len() <= capacity,
    ensures
        well_formed(append_all(buf, layout, capacity, owners), layout, capacity),
        live_count(append_all(buf, layout, capacity, owners)) == live_count(buf) + owners.len(),
        entries(append_all(buf, layout, capacity, owners), layout) == entries(buf, layout)
            + tickets_from(live_count(buf), owners),
        forall|i: nat|
            i < live_count(buf) ==> #[trigger] read_outcome(
                append_all(buf, layout, capacity, owners),
                layout,
                i,
            ) == read_outcome(buf, layout, i),
        forall|i: int|
            0 <= i < owners.len() ==> #[trigger] read_outcome(
                append_all(buf, layout, capacity, owners),
                layout,
                (live_count(buf) + i) as nat,
            ) == Ok::<TicketView, PoolError>(tickets_from(live_count(buf), owners)[i]),
    decreases owners.len(),
{
    let count = live_count(buf);
    let after = append_all(buf, layout, capacity, owners);
    if owners.len() == 0 {
        assert(entries(buf, layout) + tickets_from(count, owners) =~= entries(buf, layout));
    } else {
        let front = owners.drop_last();
        let before = append_all(buf, layout, capacity, front);
        law_append_only(buf, layout, capacity, front);
        lemma_appended(before, layout, capacity, owners.last());
        assert(after == appended(before, layout, owners.last()));
        assert(tickets_from(count, owners) =~= tickets_from(count, front).push(
            next_record(before, owners.last()),
        ));
        assert(entries(after, layout) =~= entries(buf, layout) + tickets_from(count, owners));
        assert forall|i: nat| i < count implies #[trigger] read_outcome(after, layout, i)
            == read_outcome(buf, layout, i) by {
            lemma_read_written(after, layout, capacity, i);
            lemma_read_written(buf, layout, capacity, i);
            assert(entries(after, layout)[i as int] == entries(buf, layout)[i as int]);
        }
        assert forall|i: int| 0 <= i < owners.len() implies #[trigger] read_outcome(
            after,
            layout,
            (count + i) as nat,
        ) == Ok::<TicketView, PoolError>(tickets_from(count, owners)[i]) by {
            lemma_read_written(after, layout, capacity, (count + i) as nat);
            assert(entries(after, layout)[count + i] == tickets_from(count, owners)[i]);
        }
    }
}

/// A ledger that was just initialized holds exactly what is appended to it:
/// after any run of appends within its capacity, its records are one for each
/// append, numbered from 1 in the order of the appends, and its header still
/// names its round.
pub proof fn law_fresh_ledger(
    buf: Seq<u8>,
    layout: RecordLayout,
    round: Seq<u8>,
    capacity: nat,
    owners: Seq<Seq<u8>>,
)
    requires
        fits(buf, layout, capacity),
        capacity <= u32::MAX,
        round.len() == 32,
        forall|i: int| 0 <= i < owners.len() ==> (#[trigger] owners[i]).len() == 32,
        owners.len() <= capacity,
    ensures
        initialize_outcome(buf, layout, round, capacity) == Ok::<Seq<u8>, PoolError>(
            initialized(buf, round),
        ),
        entries(append_all(initialized(buf, round), layout, capacity, owners), layout)
            == tickets_from(0, owners),
        round_of(append_all(initialized(buf, round), layout, capacity, owners)) == round,
        append_all(initialized(buf, round), layout, capacity, owners).subrange(0, 8)
            == LEDGER_TAG@,
    decreases owners.len(),
{
    let fresh = initialized(buf, round);
    lemma_initialized(buf, layout, round, capacity);
    law_append_only(fresh, layout, capacity, owners);
    assert(entries(fresh, layout) + tickets_from(0, owners) =~= tickets_from(0, owners));
    if owners.len() > 0 {
        let before = append_all(fresh, layout, capacity, owners.drop_last());
        law_fresh_ledger(buf, layout, round, capacity, owners.drop_last());
        law_append_only(fresh, layout, capacity, owners.drop_last());
        lemma_appended(before, layout, capacity, owners.last());
        let after = append_all(fresh, layout, capacity, owners);
        assert(after.subrange(8, 40) =~= after.subrange(0, 40).subrange(8, 40));
        assert(before.subrange(8, 40) =~= before.subrange(0, 40).subrange(8, 40));
        assert(after.subrange(0, 8) =~= after.subrange(0, 40).subrange(0, 8));
        assert(before.subrange(0, 8) =~= before.subrange(0, 40).subrange(0, 8));
    }
}

/// A ledger never holds more records than its capacity, whatever is offered
/// to it, and a full ledger refuses every further ticket.
pub proof fn law_capacity_bound(
    buf: Seq<u8>,
    layout: RecordLayout,
    capacity: nat,
    owners: Seq<Seq<u8>>,
)
    requires
        well_formed(buf, layout, capacity),
        forall|i: int| 0 <= i < owners.len() ==> (#[trigger] owners[i]).len() == 32,
    ensures
        well_formed(append_all(buf, layout, capacity, owners), layout, capacity),
        live_count(append_all(buf, layout, capacity, owners)) <= capacity,
        live_count(append_all(buf, layout, capacity, owners)) == if live_count(buf) + owners.len()
            <= capacity {
            live_count(buf) + owners.len()
        } else {
            capacity
        },
        forall|owner: Seq<u8>|
            live_count(buf) == capacity ==> #[trigger] append_outcome(buf, layout, capacity, owner)
                == Err::<Seq<u8>, PoolError>(PoolError::LedgerFull),
    decreases owners.len(),
{
    if owners.len() > 0 {
        let before = append_all(buf, layout, capacity, owners.drop_last());
        law_capacity_bound(buf, layout, capacity, owners.drop_last());
        if live_count(before) < capacity {
            lemma_appended(before, layout, capacity, owners.last());
        }
    }
}

/// In a well-formed ledger every index below the count can be read, and gives
/// the record of that slot.
pub proof fn lemma_read_written(buf: Seq<u8>, layout: RecordLayout, capacity: nat, index: nat)
    requires
        well_formed(buf, layout, capacity),
        index < live_count(buf),
    ensures
        read_outcome(buf, layout, index) == Ok::<TicketView, PoolError>(
            entries(buf, layout)[index as int],
        ),
{
    assert(slot_offset(layout, index + 1) <= slot_offset(layout, capacity)) by {
        match layout {
            RecordLayout::Owner => {},
            RecordLayout::Ticket => {},
        }
    }
}

/// Whether the buffer has room for the header and `capacity` slots.
pub fn has_room(buf: &[u8], layout: RecordLayout, capacity: u32) -> (room: bool)
    ensures
        room == fits(buf@, layout, capacity as nat),
{
    let need: u64 = match layout {
        RecordLayout::Owner => 44 + 32 * (capacity as u64),
        RecordLayout::Ticket => 44 + 40 * (capacity as u64),
    };
    buf.len() as u64 >= need
}

/// Reads the identity stored at `offset`.
pub fn read_identity(buf: &[u8], offset: usize) -> (id: Identity)
    requires
        offset + 32 <= buf@.len(),
    ensures
        id@ == buf@.subrange(offset as int, offset + 32),
{
    let len = buf.len();
    assert(offset + 32 <= len);
    let mut bytes: [u8; 32] = [0u8; 32];
    let mut i: usize = 0;
    while i < 32
        invariant
            i <= 32,
            offset + 32 <= len,
            len == buf@.len(),
            forall|j: int| 0 <= j < i ==> bytes@[j] == buf@[offset + j],
        decreases 32 - i,
    {
        bytes[i] = buf[offset + i];
        i = i + 1;
    }
    proof {
        assert(bytes@ =~= buf@.subrange(offset as int, offset + 32));
    }
    Identity { bytes }
}

/// Writes `ticket` into the slot that starts at `offset`.
fn write_record(buf: &mut [u8], layout: RecordLayout, offset: usize, ticket: &TicketData)
    requires
        offset + layout.spec_record_size() <= old(buf)@.len(),
    ensures
        final(buf)@ == splice(old(buf)@, offset as int, encode_record(layout, ticket@)),
{
    let len = buf.len();
    assert(offset + layout.spec_record_size() <= len);
    match layout {
        RecordLayout::Owner => {
            write_bytes(buf, offset, &ticket.owner.bytes);
        },
        RecordLayout::Ticket => {
            write_u64_le(buf, offset, ticket.ticket_index);
            write_bytes(buf, offset + 8, &ticket.owner.bytes);
            proof {
                lemma_le_bytes_len(ticket.ticket_index as nat, 8);
                assert(buf@ =~= splice(
                    old(buf)@,
                    offset as int,
                    encode_record(layout, ticket@),
                ));
            }
        },
    }
}

/// Reads the record of slot `index`, which starts at `offset`.
fn read_record(buf: &[u8], layout: RecordLayout, index: u32, offset: usize) -> (ticket: TicketData)
    requires
        offset == slot_offset(layout, index as nat),
        offset + layout.spec_record_size() <= buf@.len(),
    ensures
        ticket@ == record_at(buf@, layout, index as nat),
{
    let len = buf.len();
    assert(offset + layout.spec_record_size() <= len);
    match layout {
        RecordLayout::Owner => {
            let owner = read_identity(buf, offset);
            TicketData { ticket_index: index as u64 + 1, owner }
        },
        RecordLayout::Ticket => {
            let ticket_index = read_u64_le(buf, offset);
            let owner = read_identity(buf, offset + 8);
            proof {
                let slot = buf@.subrange(offset as int, offset + 40);
                assert(slot.subrange(0, 8) =~= buf@.subrange(offset as int, offset + 8));
                assert(slot.subrange(8, 40) =~= buf@.subrange(offset + 8, offset + 40));
            }
            TicketData { ticket_index, owner }
        },
    }
}

/// Turns the buffer into the empty ledger of `round`: writes the type tag, the
/// round and a count of zero. The buffer must have room for `capacity` records.
pub fn initialize(buf: &mut [u8], layout: RecordLayout, round: &Identity, capacity: u32) -> (r:
    Result<(), PoolError>)
    ensures
        match initialize_outcome(old(buf)@, layout, round@, capacity as nat) {
            Ok(after) => r is Ok && final(buf)@ == after,
            Err(e) => r == Err::<(), PoolError>(e) && final(buf)@ == old(buf)@,
        },
        r is Ok ==> {
            &&& well_formed(final(buf)@, layout, capacity as nat)
            &&& live_count(final(buf)@) == 0
            &&& round_of(final(buf)@) == round@
            &&& entries(final(buf)@, layout) == Seq::<TicketView>::empty()
        },
{
    if !has_room(buf, layout, capacity) {
        return Err(PoolError::BufferTooSmall);
    }
    write_bytes(buf, 0, &LEDGER_TAG);
    write_bytes(buf, ROUND_OFFSET, &round.bytes);
    write_u32_le(buf, COUNT_OFFSET, 0);
    proof {
        lemma_le_bytes_len(0, 4);
        assert(buf@ =~= initialized(old(buf)@, round@));
        lemma_initialized(old(buf)@, layout, round@, capacity as nat);
    }
    Ok(())
}

/// Writes the next ticket, owned by `owner`, into the first free slot and
/// counts it. Answers the record written.
pub fn append(buf: &mut [u8], layout: RecordLayout, capacity: u32, owner: &Identity) -> (r: Result<
    TicketData,
    PoolError,
>)
    ensures
        match append_outcome(old(buf)@, layout, capacity as nat, owner@) {
            Ok(after) => r matches Ok(ticket) && ticket@ == next_record(old(buf)@, owner@)
                && final(buf)@ == after,
            Err(e) => r == Err::<TicketData, PoolError>(e) && final(buf)@ == old(buf)@,
        },
        r matches Ok(ticket) ==> {
            &&& well_formed(final(buf)@, layout, capacity as nat)
            &&& live_count(final(buf)@) == live_count(old(buf)@) + 1
            &&& round_of(final(buf)@) == round_of(old(buf)@)
            &&& entries(final(buf)@, layout) == entries(old(buf)@, layout).push(ticket@)
        },
{
    if !has_room(buf, layout, capacity) {
        return Err(PoolError::BufferTooSmall);
    }
    let count = read_u32_le(buf, COUNT_OFFSET);
    if count >= capacity {
        return Err(PoolError::LedgerFull);
    }
    proof {
        let after = appended(buf@, layout, owner@);
        lemma_appended(buf@, layout, capacity as nat, owner@);
        assert(after.subrange(8, 40) =~= after.subrange(0, 40).subrange(8, 40));
        assert(buf@.subrange(8, 40) =~= buf@.subrange(0, 40).subrange(8, 40));
    }
    let len = buf.len();
    assert(ledger_size(layout, capacity as nat) <= len);
    let offset: usize = match layout {
        RecordLayout::Owner => 44 + 32 * (count as usize),
        RecordLayout::Ticket => 44 + 40 * (count as usize),
    };
    let ticket = TicketData { ticket_index: count as u64 + 1, owner: *owner };
    write_record(buf, layout, offset, &ticket);
    write_u32_le(buf, COUNT_OFFSET, count + 1);
    Ok(ticket)
}

/// Reads the record at `index`, if one was written there.
pub fn read(buf: &[u8], layout: RecordLayout, index: u64) -> (r: Result<TicketData, PoolError>)
    ensures
        match read_outcome(buf@, layout, index as nat) {
            Ok(ticket) => r matches Ok(got) && got@ == ticket,
            Err(e) => r == Err::<TicketData, PoolError>(e),
        },
        r matches Ok(got) ==> index < live_count(buf@) && got@ == entries(buf@, layout)[index as int],
{
    let len = buf.len();
    if len < HEADER_SIZE {
        return Err(PoolError::BufferTooSmall);
    }
    let count = read_u32_le(buf, COUNT_OFFSET);
    if index >= count as u64 {
        return Err(PoolError::IndexOutOfRange);
    }
    let end: u64 = match layout {
        RecordLayout::Owner => 44 + 32 * (index + 1),
        RecordLayout::Ticket => 44 + 40 * (index + 1),
    };
    if (len as u64) < end {
        return Err(PoolError::BufferTooSmall);
    }
    let offset: usize = match layout {
        RecordLayout::Owner => (end - 32) as usize,
        RecordLayout::Ticket => (end - 40) as usize,
    };
    Ok(read_record(buf, layout, index as u32, offset))
}

/// The number of tickets sold so far, as the header gives it.
pub fn get_last_number(buf: &[u8]) -> (r: Result<u32, PoolError>)
    ensures
        buf@.len() < 44 ==> r == Err::<u32, PoolError>(PoolError::BufferTooSmall),
        buf@.len() >= 44 ==> (r matches Ok(number) && number == live_count(buf@)),
{
    if buf.len() < HEADER_SIZE {
        return Err(PoolError::BufferTooSmall);
    }
    Ok(read_u32_le(buf, COUNT_OFFSET))
}

/// Sets the number of tickets sold so far. Nothing else in the buffer changes.
pub fn set_last_number(buf: &mut [u8], number: u32)
    requires
        old(buf)@.len() >= 44,
    ensures
        final(buf)@ == splice(old(buf)@, 40, le_bytes(number as nat, 4)),
        live_count(final(buf)@) == number,
{
    write_u32_le(buf, COUNT_OFFSET, number);
    proof {
        lemma_u32_round_trip(number);
        assert(buf@.subrange(40, 44) =~= le_bytes(number as nat, 4));
    }
}

/// Writes `ticket_data` into slot `index` of a ledger of numbered tickets,
/// whatever the count says. Nothing else in the buffer changes.
pub fn set_ticket_owner(buf: &mut [u8], index: usize, ticket_data: TicketData)
    requires
        slot_offset(RecordLayout::Ticket, index as nat + 1) <= old(buf)@.len(),
    ensures
        final(buf)@ == splice(
            old(buf)@,
            slot_offset(RecordLayout::Ticket, index as nat) as int,
            encode_record(RecordLayout::Ticket, ticket_data@),
        ),
        record_at(final(buf)@, RecordLayout::Ticket, index as nat) == ticket_data@,
{
    let len = buf.len();
    assert(44 + 40 * (index + 1) <= len);
    let offset: usize = 44 + 40 * index;
    write_record(buf, RecordLayout::Ticket, offset, &ticket_data);
    proof {
        lemma_le_bytes_len(ticket_data.ticket_index as nat, 8);
        lemma_u64_round_trip(ticket_data.ticket_index);
        let slot = buf@.subrange(offset as int, offset + 40);
        assert(slot =~= encode_record(RecordLayout::Ticket, ticket_data@));
        assert(slot.subrange(0, 8) =~= le_bytes(ticket_data.ticket_index as nat, 8));
        assert(slot.subrange(8, 40) =~= ticket_data.owner@);
    }
}

/// The ticket at `index` of a ledger of numbered tickets, if one was sold
/// there.
pub fn get_winning_ticket(buf: &[u8], index: usize) -> (r: Result<TicketData, PoolError>)
    ensures
        match read_outcome(buf@, RecordLayout::Ticket, index as nat) {
            Ok(ticket) => r matches Ok(got) && got@ == ticket,
            Err(e) => r == Err::<TicketData, PoolError>(e),
        },
        r matches Ok(got) ==> index < live_count(buf@) && got@ == entries(
            buf@,
            RecordLayout::Ticket,
        )[index as int],
{
    read(buf, RecordLayout::Ticket, index as u64)
}

/// A whole ledger taken out of its buffer.
#[derive(Clone, Debug, PartialEq, Eq)]
pub struct TicketList {
    /// The round that owns the ledger.
    pub round: Identity,
    /// The number of tickets sold.
    pub last_number: u32,
    /// The tickets, in the order sold.
    pub ticket_ledger: Vec<TicketData>,
}

impl TicketList {
    /// The tickets as the contracts speak of them.
    pub open spec fn records(&self) -> Seq<TicketView> {
        Seq::new(self.ticket_ledger@.len(), |i: int| self.ticket_ledger@[i]@)
    }

    /// Reads the header and every record written. This walks the array: it is
    /// for a caller that wants them all.
    pub fn load(buf: &[u8], layout: RecordLayout) -> (r: Result<TicketList, PoolError>)
        ensures
            r is Ok <==> buf@.len() >= 44 && fits(buf@, layout, live_count(buf@)),
            r is Err ==> r == Err::<TicketList, PoolError>(PoolError::BufferTooSmall),
            r matches Ok(list) ==> {
                &&& list.round@ == round_of(buf@)
                &&& list.last_number == live_count(buf@)
                &&& list.records() == entries(buf@, layout)
            },
    {
        if buf.len() < HEADER_SIZE {
            return Err(PoolError::BufferTooSmall);
        }
        let count = read_u32_le(buf, COUNT_OFFSET);
        if !has_room(buf, layout, count) {
            return Err(PoolError::BufferTooSmall);
        }
        let round = read_identity(buf, ROUND_OFFSET);
        let mut tickets: Vec<TicketData> = Vec::new();
        let mut i: u32 = 0;
        while i < count
            invariant
                i <= count,
                count == live_count(buf@),
                fits(buf@, layout, count as nat),
                tickets@.len() == i,
                forall|j: int| 0 <= j < i ==> (#[trigger] tickets@[j])@ == record_at(
                    buf@,
                    layout,
                    j as nat,
                ),
            decreases count - i,
        {
            let len = buf.len();
            assert(ledger_size(layout, count as nat) <= len);
            let offset: usize = match layout {
                RecordLayout::Owner => 44 + 32 * (i as usize),
                RecordLayout::Ticket => 44 + 40 * (i as usize),
            };
            let ticket = read_record(buf, layout, i, offset);
            tickets.push(ticket);
            i = i + 1;
        }
        let list = TicketList { round, last_number: count, ticket_ledger: tickets };
        proof {
            assert(list.records() =~= entries(buf@, layout));
        }
        Ok(list)
    }
}

} // verus!
