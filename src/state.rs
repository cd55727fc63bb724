use crate::shopping_list::{keyed_by_id, ShoppingItem, ShoppingList};
use std::collections::HashMap;
use vstd::prelude::*;

verus! {

/// What startup found at the snapshot path.
pub enum SnapshotFile {
    /// No file there.
    Missing,
    /// A file that could not be read or decoded.
    Unreadable,
    /// A file decoded into these records.
    Parsed(HashMap<u128, ShoppingItem>),
}

/// Why startup cannot go on: the store's contents would be a guess.
#[derive(Clone, Copy, Debug, PartialEq, Eq, Structural)]
pub enum StateError {
    /// The snapshot file could not be read or decoded.
    Unreadable,
    /// The snapshot holds a record under a key other than its identity.
    MisplacedRecord,
}

/// The store to start with: empty when there is no snapshot, the snapshot's
/// records when it decoded and each sits under its identity, an error
/// otherwise.
pub fn load_state(file: SnapshotFile) -> (r: Result<ShoppingList, StateError>)
    ensures
        r matches Ok(l) ==> l.wf(),
        file is Missing ==> (r matches Ok(l) && l@ == Map::<u128, ShoppingItem>::empty()),
        file is Unreadable ==> r == Err::<ShoppingList, StateError>(StateError::Unreadable),
        file matches SnapshotFile::Parsed(m) ==> {
            &&& keyed_by_id(m@) ==> (r matches Ok(l) && l@ == m@)
            &&& !keyed_by_id(m@) ==> r == Err::<ShoppingList, StateError>(
                StateError::MisplacedRecord,
            )
        },
{
    match file {
        SnapshotFile::Missing => Ok(ShoppingList::new()),
        SnapshotFile::Unreadable => Err(StateError::Unreadable),
        SnapshotFile::Parsed(m) => {
            let mut list = ShoppingList::new();
            if list.load(m) {
                Ok(list)
            } else {
                Err(StateError::MisplacedRecord)
            }
        },
    }
}

} // verus!
