//! A stored entry of JSON data under an id, written whether or not the id
//! is taken yet.

use vstd::prelude::*;
use crate::json::Json;

verus! {

/// An entry: an id and its data.
#[derive(Clone, Debug, PartialEq, Eq)]
pub struct DBEntry {
    pub id: String,
    pub data: Json,
}

/// How an entry is written to the store.
#[derive(Clone, Copy, Debug, PartialEq, Eq, Structural)]
pub enum SaveAction {
    /// Replace the data of the stored entry with the same id.
    Update,
    /// Store a new entry.
    Insert,
}

impl DBEntry {
    /// An entry with the given id and data.
    pub fn new(id: String, data: Json) -> (r: DBEntry)
        ensures
            r.id == id,
            r.data == data,
    {
        DBEntry { id, data }
    }

    /// How `update` writes the entry, given whether its id is stored: in
    /// place when it is, as a new entry when it is not.
    pub fn save_action(exists: bool) -> (r: SaveAction)
        ensures
            exists ==> r == SaveAction::Update,
            !exists ==> r == SaveAction::Insert,
    {
        if exists {
            SaveAction::Update
        } else {
            SaveAction::Insert
        }
    }
}

} // verus!
