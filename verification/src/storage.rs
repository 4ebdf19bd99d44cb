use crate::card::NfcCard;
use crate::error::Error;
use crate::raw_card::{CardID, RawCard};
use std::borrow::Borrow;
use std::collections::BTreeMap;
use vstd::prelude::*;

verus! {

/// A storage backend for [`RawCard`] NFC cards, which users implement for their own
/// backends.
pub trait RawStorage {
    /// The type of the list of card IDs returned by `list`.
    type List;
    /// The type of the card ID used by this storage: anything that can be borrowed as
    /// a slice of bytes.
    type CardID: ?Sized + Borrow<[u8]>;

    fn get(&self, card_id: &Self::CardID) -> Result<Option<RawCard>, Error>;

    fn put(&mut self, card_id: &Self::CardID, credential: RawCard) -> Result<(), Error>;

    fn update(&mut self, card_id: &Self::CardID, new: RawCard) -> Result<(), Error>;

    fn delete(&mut self, card_id: &Self::CardID) -> Result<(), Error>;

    fn count(&self) -> Result<usize, Error>;

    fn list(&self) -> Result<Self::List, Error>;
}

/// A storage backend for [`NfcCard`] records keyed by membership number, which users
/// implement for their own backends.
pub trait Storage {
    fn get(&self, membership_id: usize) -> Result<NfcCard, Error>;

    fn put(&mut self, membership_id: usize, credential: NfcCard) -> Result<(), Error>;

    fn update(&mut self, membership_id: usize, new: NfcCard) -> Result<(), Error>;

    fn delete(&mut self, membership_id: usize) -> Result<(), Error>;

    fn count(&self) -> Result<usize, Error>;

    fn list(&self) -> Result<Vec<NfcCard>, Error>;
}

/// In-memory storage of cards by UID.
#[derive(Debug)]
pub struct Memory(BTreeMap<CardID, NfcCard>);

impl View for Memory {
    type V = Map<CardID, NfcCard>;

    closed spec fn view(&self) -> Map<CardID, NfcCard> {
        self.0@
    }
}

impl Clone for Memory {
    fn clone(&self) -> (r: Self)
        ensures
            r@ == self@,
    {
        Memory(self.0.clone())
    }
}

impl Default for Memory {
    /// An empty store.
    fn default() -> (r: Self)
        ensures
            r@ == Map::<CardID, NfcCard>::empty(),
    {
        Memory(BTreeMap::new())
    }
}

} // verus!
