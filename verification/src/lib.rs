//! Core of a channel protocol over an append-only ledger: a sponge-based
//! keyed pseudorandom generator, and the addressing, sequencing and payload
//! model for channel messages.

pub mod cursor;
pub mod error;
pub mod link;
pub mod message;
pub mod prng;
pub mod rng;
pub mod spongos;

pub use cursor::{next_message_ids, Cursor, CursorTable, CursorView};
pub use error::StreamsError;
pub use link::{Address, AddressView, MessageLinks, APPINST_SIZE, MSGID_SIZE};
pub use message::{
    get_indexed_payload, get_payload, handle_message_contents, MessageContent, PacketPayloads,
    UnwrappedMessage,
};
pub use prng::{
    dbg_init_str, from_seed, init, random_bytes, random_key, random_nonce, Prng, KEY_SIZE,
    NONCE_SIZE,
};
pub use rng::Rng;
pub use spongos::Spongos;
