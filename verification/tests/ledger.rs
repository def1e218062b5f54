use raffle_pool::error::PoolError;
use raffle_pool::identity::Identity;
use raffle_pool::ledger::{
    append, get_last_number, get_winning_ticket, has_room, initialize, read, read_identity,
    set_last_number, set_ticket_owner, RecordLayout, TicketData, TicketList, COUNT_OFFSET,
    HEADER_SIZE, LEDGER_TAG, MAX_LEN, OWNER_RECORD_SIZE, POOL_LEDGER_SIZE, ROUND_OFFSET, TAG_SIZE,
    TICKET_DATA_SIZE,
};

fn id(byte: u8) -> Identity {
    Identity::new([byte; 32])
}

fn ticket_ledger(capacity: u32) -> Vec<u8> {
    let mut buf = vec![0xEEu8; 44 + 40 * capacity as usize];
    initialize(&mut buf, RecordLayout::Ticket, &id(7), capacity).unwrap();
    buf
}

#[test]
fn layout_constants() {
    assert_eq!(TAG_SIZE, 8);
    assert_eq!(ROUND_OFFSET, 8);
    assert_eq!(COUNT_OFFSET, 40);
    assert_eq!(HEADER_SIZE, 44);
    assert_eq!(OWNER_RECORD_SIZE, 32);
    assert_eq!(TICKET_DATA_SIZE, 40);
    assert_eq!(MAX_LEN, 10_000);
    assert_eq!(POOL_LEDGER_SIZE, 400_036);
    assert_eq!(RecordLayout::Owner.record_size(), 32);
    assert_eq!(RecordLayout::Ticket.record_size(), 40);
}

#[test]
fn tag_is_the_hash_of_the_account_name() {
    let hash = solana_program::hash::hash(b"account:TicketList").to_bytes();
    assert_eq!(LEDGER_TAG, hash[..8]);
    assert_eq!(LEDGER_TAG, [199, 68, 200, 187, 58, 64, 242, 212]);
}

#[test]
fn initialize_writes_the_header_only() {
    let mut buf = vec![0xEEu8; 44 + 40 * 3];
    assert_eq!(initialize(&mut buf, RecordLayout::Ticket, &id(7), 3), Ok(()));
    assert_eq!(buf[0..8], LEDGER_TAG);
    assert_eq!(buf[8..40], [7u8; 32]);
    assert_eq!(buf[40..44], [0u8; 4]);
    assert!(buf[44..].iter().all(|b| *b == 0xEE));
    assert_eq!(get_last_number(&buf), Ok(0));
}

#[test]
fn initialize_needs_room_for_every_slot() {
    let mut buf = vec![0xEEu8; 44 + 40 * 3 - 1];
    let before = buf.clone();
    assert_eq!(
        initialize(&mut buf, RecordLayout::Ticket, &id(7), 3),
        Err(PoolError::BufferTooSmall)
    );
    assert_eq!(buf, before);
    assert_eq!(initialize(&mut buf, RecordLayout::Ticket, &id(7), 2), Ok(()));
    let mut short = vec![0u8; 43];
    assert_eq!(
        initialize(&mut short, RecordLayout::Owner, &id(7), 0),
        Err(PoolError::BufferTooSmall)
    );
    let mut header_only = vec![0u8; 44];
    assert_eq!(initialize(&mut header_only, RecordLayout::Owner, &id(7), 0), Ok(()));
}

#[test]
fn has_room_counts_header_and_slots() {
    let buf = vec![0u8; 44 + 32 * 5];
    assert!(has_room(&buf, RecordLayout::Owner, 5));
    assert!(!has_room(&buf, RecordLayout::Owner, 6));
    assert!(has_room(&buf, RecordLayout::Ticket, 4));
    assert!(!has_room(&buf, RecordLayout::Ticket, 5));
    assert!(!has_room(&buf, RecordLayout::Ticket, u32::MAX));
}

#[test]
fn append_writes_one_slot_and_the_count() {
    let mut buf = ticket_ledger(3);
    let ticket = append(&mut buf, RecordLayout::Ticket, 3, &id(0xAA)).unwrap();
    assert_eq!(ticket, TicketData { ticket_index: 1, owner: id(0xAA) });
    assert_eq!(buf[0..8], LEDGER_TAG);
    assert_eq!(buf[8..40], [7u8; 32]);
    assert_eq!(buf[40..44], [1, 0, 0, 0]);
    assert_eq!(buf[44..52], [1, 0, 0, 0, 0, 0, 0, 0]);
    assert_eq!(buf[52..84], [0xAAu8; 32]);
    assert!(buf[84..].iter().all(|b| *b == 0xEE));

    let ticket = append(&mut buf, RecordLayout::Ticket, 3, &id(0xBB)).unwrap();
    assert_eq!(ticket, TicketData { ticket_index: 2, owner: id(0xBB) });
    assert_eq!(buf[40..44], [2, 0, 0, 0]);
    assert_eq!(buf[44..52], [1, 0, 0, 0, 0, 0, 0, 0]);
    assert_eq!(buf[52..84], [0xAAu8; 32]);
    assert_eq!(buf[84..92], [2, 0, 0, 0, 0, 0, 0, 0]);
    assert_eq!(buf[92..124], [0xBBu8; 32]);
    assert!(buf[124..].iter().all(|b| *b == 0xEE));
}

#[test]
fn reads_give_back_what_was_appended_in_order() {
    let mut buf = ticket_ledger(5);
    let owners = [id(1), id(2), id(3), id(2), id(9)];
    for (i, owner) in owners.iter().enumerate() {
        let written = append(&mut buf, RecordLayout::Ticket, 5, owner).unwrap();
        assert_eq!(written.ticket_index, i as u64 + 1);
        for (j, earlier) in owners.iter().enumerate().take(i + 1) {
            assert_eq!(
                read(&buf, RecordLayout::Ticket, j as u64),
                Ok(TicketData { ticket_index: j as u64 + 1, owner: *earlier })
            );
        }
        assert_eq!(
            read(&buf, RecordLayout::Ticket, i as u64 + 1),
            Err(PoolError::IndexOutOfRange)
        );
    }
}

#[test]
fn full_ledger_refuses_and_stays_as_it_is() {
    let mut buf = ticket_ledger(2);
    append(&mut buf, RecordLayout::Ticket, 2, &id(1)).unwrap();
    append(&mut buf, RecordLayout::Ticket, 2, &id(2)).unwrap();
    let before = buf.clone();
    assert_eq!(append(&mut buf, RecordLayout::Ticket, 2, &id(3)), Err(PoolError::LedgerFull));
    assert_eq!(append(&mut buf, RecordLayout::Ticket, 1, &id(3)), Err(PoolError::LedgerFull));
    assert_eq!(buf, before);
    assert_eq!(get_last_number(&buf), Ok(2));
}

#[test]
fn ledger_of_no_capacity_is_full() {
    let mut buf = vec![0u8; 44];
    initialize(&mut buf, RecordLayout::Ticket, &id(7), 0).unwrap();
    assert_eq!(append(&mut buf, RecordLayout::Ticket, 0, &id(1)), Err(PoolError::LedgerFull));
    assert_eq!(read(&buf, RecordLayout::Ticket, 0), Err(PoolError::IndexOutOfRange));
}

#[test]
fn append_needs_room_for_the_capacity_named() {
    let mut buf = ticket_ledger(2);
    let before = buf.clone();
    assert_eq!(append(&mut buf, RecordLayout::Ticket, 3, &id(1)), Err(PoolError::BufferTooSmall));
    assert_eq!(buf, before);
}

#[test]
fn read_refuses_what_was_not_written() {
    let mut buf = ticket_ledger(3);
    assert_eq!(read(&buf, RecordLayout::Ticket, 0), Err(PoolError::IndexOutOfRange));
    append(&mut buf, RecordLayout::Ticket, 3, &id(1)).unwrap();
    assert!(read(&buf, RecordLayout::Ticket, 0).is_ok());
    assert_eq!(read(&buf, RecordLayout::Ticket, 1), Err(PoolError::IndexOutOfRange));
    assert_eq!(read(&buf, RecordLayout::Ticket, u64::MAX), Err(PoolError::IndexOutOfRange));
    assert_eq!(read(&buf[..43], RecordLayout::Ticket, 0), Err(PoolError::BufferTooSmall));
}

#[test]
fn read_refuses_a_slot_that_the_buffer_lacks() {
    let mut buf = vec![0u8; 44 + 40];
    initialize(&mut buf, RecordLayout::Ticket, &id(7), 1).unwrap();
    set_last_number(&mut buf, 2);
    assert!(read(&buf, RecordLayout::Ticket, 0).is_ok());
    assert_eq!(read(&buf, RecordLayout::Ticket, 1), Err(PoolError::BufferTooSmall));
    assert_eq!(read(&buf, RecordLayout::Ticket, 2), Err(PoolError::IndexOutOfRange));
}

#[test]
fn owner_slots_hold_the_owner_alone() {
    let mut buf = vec![0xEEu8; 44 + 32 * 2];
    initialize(&mut buf, RecordLayout::Owner, &id(7), 2).unwrap();
    let first = append(&mut buf, RecordLayout::Owner, 2, &id(0xAA)).unwrap();
    let second = append(&mut buf, RecordLayout::Owner, 2, &id(0xBB)).unwrap();
    assert_eq!(first, TicketData { ticket_index: 1, owner: id(0xAA) });
    assert_eq!(second, TicketData { ticket_index: 2, owner: id(0xBB) });
    assert_eq!(buf[40..44], [2, 0, 0, 0]);
    assert_eq!(buf[44..76], [0xAAu8; 32]);
    assert_eq!(buf[76..108], [0xBBu8; 32]);
    assert_eq!(read(&buf, RecordLayout::Owner, 0), Ok(first));
    assert_eq!(read(&buf, RecordLayout::Owner, 1), Ok(second));
    assert_eq!(append(&mut buf, RecordLayout::Owner, 2, &id(0xCC)), Err(PoolError::LedgerFull));
}

#[test]
fn last_number_is_four_bytes_at_forty() {
    let mut buf = vec![0xEEu8; 50];
    set_last_number(&mut buf, 0x0102_0304);
    assert_eq!(buf[40..44], [4, 3, 2, 1]);
    assert!(buf[..40].iter().all(|b| *b == 0xEE));
    assert!(buf[44..].iter().all(|b| *b == 0xEE));
    assert_eq!(get_last_number(&buf), Ok(0x0102_0304));
    assert_eq!(get_last_number(&buf[..43]), Err(PoolError::BufferTooSmall));
    assert_eq!(get_last_number(&buf[..44]), Ok(0x0102_0304));
}

#[test]
fn ticket_owner_is_written_into_its_slot() {
    let mut buf = vec![0xEEu8; 44 + 40 * 3];
    let ticket = TicketData { ticket_index: 0x0102_0304_0506_0708, owner: id(0x5A) };
    set_ticket_owner(&mut buf, 1, ticket);
    assert!(buf[..84].iter().all(|b| *b == 0xEE));
    assert_eq!(buf[84..92], [8, 7, 6, 5, 4, 3, 2, 1]);
    assert_eq!(buf[92..124], [0x5Au8; 32]);
    assert!(buf[124..].iter().all(|b| *b == 0xEE));
}

#[test]
fn winning_ticket_is_the_record_of_its_slot() {
    let mut buf = ticket_ledger(3);
    let ticket = TicketData { ticket_index: 77, owner: id(0x5A) };
    set_ticket_owner(&mut buf, 2, ticket);
    assert_eq!(get_winning_ticket(&buf, 2), Err(PoolError::IndexOutOfRange));
    set_last_number(&mut buf, 3);
    assert_eq!(get_winning_ticket(&buf, 2), Ok(ticket));
    assert_eq!(get_winning_ticket(&buf, 3), Err(PoolError::IndexOutOfRange));
}

#[test]
fn identity_is_read_where_it_lies() {
    let mut buf = vec![0u8; 40];
    for (i, b) in buf.iter_mut().enumerate() {
        *b = i as u8;
    }
    let got = read_identity(&buf, 5);
    let mut expected = [0u8; 32];
    for (i, b) in expected.iter_mut().enumerate() {
        *b = i as u8 + 5;
    }
    assert_eq!(got, Identity::new(expected));
}

#[test]
fn whole_ledger_is_loaded() {
    let mut buf = ticket_ledger(4);
    append(&mut buf, RecordLayout::Ticket, 4, &id(1)).unwrap();
    append(&mut buf, RecordLayout::Ticket, 4, &id(2)).unwrap();
    let list = TicketList::load(&buf, RecordLayout::Ticket).unwrap();
    assert_eq!(
        list,
        TicketList {
            round: id(7),
            last_number: 2,
            ticket_ledger: vec![
                TicketData { ticket_index: 1, owner: id(1) },
                TicketData { ticket_index: 2, owner: id(2) },
            ],
        }
    );
    assert_eq!(TicketList::load(&buf[..43], RecordLayout::Ticket), Err(PoolError::BufferTooSmall));
    assert_eq!(
        TicketList::load(&buf[..44 + 79], RecordLayout::Ticket),
        Err(PoolError::BufferTooSmall)
    );
    assert!(TicketList::load(&buf[..44 + 80], RecordLayout::Ticket).is_ok());
}
