use streams_core::{Address, MessageLinks, StreamsError, APPINST_SIZE, MSGID_SIZE};

fn addr(inst: u8, id: u8) -> Address {
    Address::new(vec![inst; APPINST_SIZE], vec![id; MSGID_SIZE])
}

#[test]
fn single_branch_resolves_to_primary() {
    let links = MessageLinks::new(addr(1, 2), None);
    let r = links.into_seq_link(false).unwrap();
    assert_eq!(r.appinst, vec![1u8; APPINST_SIZE]);
    assert_eq!(r.msgid, vec![2u8; MSGID_SIZE]);
}

#[test]
fn single_branch_prefers_primary_even_with_seq_link() {
    let links = MessageLinks::new(addr(1, 2), Some(addr(3, 4)));
    let r = links.into_seq_link(false).unwrap();
    assert_eq!(r.appinst, vec![1u8; APPINST_SIZE]);
    assert_eq!(r.msgid, vec![2u8; MSGID_SIZE]);
}

#[test]
fn branching_without_seq_link_is_a_missing_link_error() {
    let links = MessageLinks::new(addr(1, 2), None);
    match links.into_seq_link(true) {
        Ok(_) => panic!("branching mode without a sequencing link must fail"),
        Err(e) => assert_eq!(e, StreamsError::MissingSequencingLink),
    }
}

#[test]
fn branching_resolves_to_seq_link() {
    let links = MessageLinks::new(addr(1, 2), Some(addr(3, 4)));
    let r = links.into_seq_link(true).unwrap();
    assert_eq!(r.appinst, vec![3u8; APPINST_SIZE]);
    assert_eq!(r.msgid, vec![4u8; MSGID_SIZE]);
}

#[test]
fn address_clone_is_structural() {
    let a = addr(7, 8);
    let b = a.clone();
    assert_eq!(a.appinst, b.appinst);
    assert_eq!(a.msgid, b.msgid);
}
