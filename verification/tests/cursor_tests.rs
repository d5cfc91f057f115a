use streams_core::{next_message_ids, Address, Cursor, CursorTable, APPINST_SIZE, MSGID_SIZE};

fn addr(id: u8) -> Address {
    Address::new(vec![1u8; APPINST_SIZE], vec![id; MSGID_SIZE])
}

fn pk(b: u8) -> Vec<u8> {
    vec![b; 32]
}

#[test]
fn snapshot_reflects_an_advance_and_keeps_old_snapshots() {
    let mut table = CursorTable::new();
    table.insert(pk(5), Cursor::new(addr(10), 3));

    let known = vec![pk(5)];
    let before = next_message_ids(&known, &table);
    assert_eq!(before.len(), 1);
    assert_eq!(before[0].0, pk(5));
    assert_eq!(before[0].1.seq_no, 3);
    assert_eq!(before[0].1.link.msgid, vec![10u8; MSGID_SIZE]);

    let mut c = table.get(&pk(5)).unwrap();
    c.advance(addr(11));
    table.insert(pk(5), c);

    let after = next_message_ids(&known, &table);
    assert_eq!(after.len(), 1);
    assert_eq!(after[0].1.seq_no, 4);
    assert_eq!(after[0].1.link.msgid, vec![11u8; MSGID_SIZE]);

    // The earlier snapshot is isolated from the advance.
    assert_eq!(before[0].1.seq_no, 3);
    assert_eq!(before[0].1.link.msgid, vec![10u8; MSGID_SIZE]);
}

#[test]
fn insert_updates_in_place_and_never_shrinks() {
    let mut table = CursorTable::new();
    table.insert(pk(1), Cursor::new(addr(1), 0));
    assert_eq!(table.len(), 1);
    table.insert(pk(1), Cursor::new(addr(2), 1));
    assert_eq!(table.len(), 1);
    table.insert(pk(2), Cursor::new(addr(3), 0));
    assert_eq!(table.len(), 2);
    assert_eq!(table.get(&pk(1)).unwrap().seq_no, 1);
    assert_eq!(table.get(&pk(2)).unwrap().seq_no, 0);
}

#[test]
fn unknown_publisher_has_no_cursor() {
    let mut table = CursorTable::new();
    table.insert(pk(1), Cursor::new(addr(1), 0));
    assert!(table.get(&pk(9)).is_none());
    let known = vec![pk(9), pk(1)];
    let snapshot = next_message_ids(&known, &table);
    assert_eq!(snapshot.len(), 1);
    assert_eq!(snapshot[0].0, pk(1));
}

#[test]
fn snapshot_keeps_the_callers_order() {
    let mut table = CursorTable::new();
    table.insert(pk(1), Cursor::new(addr(1), 1));
    table.insert(pk(2), Cursor::new(addr(2), 2));
    table.insert(pk(3), Cursor::new(addr(3), 3));
    let known = vec![pk(3), pk(1), pk(2)];
    let snapshot = next_message_ids(&known, &table);
    assert_eq!(snapshot.len(), 3);
    assert_eq!(snapshot[0].1.seq_no, 3);
    assert_eq!(snapshot[1].1.seq_no, 1);
    assert_eq!(snapshot[2].1.seq_no, 2);
}

#[test]
fn table_advance_steps_one_publisher_only() {
    let mut table = CursorTable::new();
    table.insert(pk(1), Cursor::new(addr(1), 3));
    table.insert(pk(2), Cursor::new(addr(2), 9));

    assert!(table.advance(pk(1), addr(4)));
    assert_eq!(table.get(&pk(1)).unwrap().seq_no, 4);
    assert_eq!(table.get(&pk(1)).unwrap().link.msgid, vec![4u8; MSGID_SIZE]);
    assert_eq!(table.get(&pk(2)).unwrap().seq_no, 9);
    assert_eq!(table.len(), 2);

    assert!(!table.advance(pk(7), addr(5)));
    assert_eq!(table.len(), 2);
}

#[test]
fn table_advance_refuses_a_sequence_number_without_successor() {
    let mut table = CursorTable::new();
    table.insert(pk(1), Cursor::new(addr(1), u64::MAX));
    assert!(!table.advance(pk(1), addr(2)));
    assert_eq!(table.get(&pk(1)).unwrap().seq_no, u64::MAX);
}

#[test]
fn cursor_advance_steps_the_sequence_number() {
    let mut c = Cursor::new(addr(1), 7);
    c.advance(addr(2));
    assert_eq!(c.seq_no, 8);
    assert_eq!(c.link.msgid, vec![2u8; MSGID_SIZE]);
}
