//! Core data models of an NFC card system: encrypted authentication tokens,
//! the raw card layout stored on an NTAG tag, card records kept in storage,
//! and the page protocol used to move a raw card to and from a tag.

pub mod auth;
pub mod error;
pub mod raw_card;
pub mod card;
pub mod storage;
pub mod nfc;
