use streams_core::{
    get_indexed_payload, get_payload, handle_message_contents, MessageContent, PacketPayloads,
    UnwrappedMessage,
};

fn tagged(public: &[u8], masked: &[u8]) -> UnwrappedMessage {
    UnwrappedMessage {
        body: MessageContent::TaggedPacket {
            public_payload: public.to_vec(),
            masked_payload: masked.to_vec(),
        },
    }
}

#[test]
fn tagged_packet_yields_exactly_its_pair() {
    let m = tagged(b"pub", b"masked");
    let p = get_payload(&m);
    assert_eq!(p.public_payload, b"pub".to_vec());
    assert_eq!(p.masked_payload, b"masked".to_vec());
}

#[test]
fn signed_packet_yields_its_pair_without_the_signer() {
    let m = UnwrappedMessage {
        body: MessageContent::SignedPacket {
            pk: vec![9u8; 32],
            public_payload: b"open".to_vec(),
            masked_payload: b"secret".to_vec(),
        },
    };
    let p = handle_message_contents(&m);
    assert_eq!(p.public_payload, b"open".to_vec());
    assert_eq!(p.masked_payload, b"secret".to_vec());
}

#[test]
fn sequence_record_yields_the_empty_pair() {
    let m = UnwrappedMessage { body: MessageContent::Sequence };
    let p = get_payload(&m);
    assert!(p.public_payload.is_empty());
    assert!(p.masked_payload.is_empty());
}

#[test]
fn other_content_yields_the_empty_pair() {
    let m = UnwrappedMessage { body: MessageContent::Other };
    let p = get_payload(&m);
    assert!(p.public_payload.is_empty());
    assert!(p.masked_payload.is_empty());
}

#[test]
fn default_payloads_are_the_empty_pair() {
    let p = PacketPayloads::default();
    assert!(p.public_payload.is_empty());
    assert!(p.masked_payload.is_empty());
}

#[test]
fn indexed_payload_picks_the_right_message() {
    let msgs = vec![
        tagged(b"first", b"one"),
        UnwrappedMessage { body: MessageContent::Sequence },
        tagged(b"third", b"three"),
    ];
    let p0 = get_indexed_payload(&msgs, 0);
    assert_eq!(p0.public_payload, b"first".to_vec());
    let p1 = get_indexed_payload(&msgs, 1);
    assert!(p1.public_payload.is_empty());
    let p2 = get_indexed_payload(&msgs, 2);
    assert_eq!(p2.masked_payload, b"three".to_vec());
}
