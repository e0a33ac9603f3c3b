//! One equip position of a roster.

use vstd::prelude::*;
use crate::stream::{Stream, StreamError};

verus! {

/// The item id that marks a slot as holding nothing.
pub const EMPTY_ITEM_ID: i32 = 0;

/// A single equip position: the id of the catalog item it holds, or [`EMPTY_ITEM_ID`].
///
/// The slot does not know the catalog. Whether a non-empty id names a live
/// entry is for the catalog's owner to decide; the slot stores what it is given.
#[derive(Clone, Copy, Debug, PartialEq, Eq, Structural)]
pub struct Slot {
    pub item_id: i32,
}

impl Slot {
    /// A slot that holds nothing.
    pub fn empty() -> (slot: Slot)
        ensures
            slot.item_id == EMPTY_ITEM_ID,
    {
        Slot { item_id: EMPTY_ITEM_ID }
    }

    /// A slot that holds the item `item_id`.
    pub fn holding(item_id: i32) -> (slot: Slot)
        ensures
            slot.item_id == item_id,
    {
        Slot { item_id }
    }

    /// Whether the slot holds nothing, as a specification.
    pub open spec fn spec_is_empty(&self) -> bool {
        self.item_id == EMPTY_ITEM_ID
    }

    /// Whether the slot holds nothing.
    #[verifier::when_used_as_spec(spec_is_empty)]
    pub fn is_empty(&self) -> (empty: bool)
        ensures
            empty == self.spec_is_empty(),
    {
        self.item_id == EMPTY_ITEM_ID
    }

    /// Takes out whatever the slot holds.
    pub fn clear(&mut self)
        ensures
            final(self).item_id == EMPTY_ITEM_ID,
    {
        self.item_id = EMPTY_ITEM_ID;
    }

    /// Writes the slot's binary form, its item id as one integer, to `stream`.
    ///
    /// Fails exactly when the stream has no room, and then writes nothing.
    pub fn serialize(&self, stream: &mut Stream) -> (result: Result<(), StreamError>)
        requires
            old(stream)@.wf(),
        ensures
            old(stream)@.room() > 0 ==> result == Ok::<(), StreamError>(()) && final(stream)@
                == old(stream)@.extended(seq![self.item_id]),
            old(stream)@.room() == 0 ==> result == Err::<(), StreamError>(StreamError::Full)
                && final(stream)@ == old(stream)@,
    {
        stream.write_int(self.item_id)
    }

    /// Replaces the slot's item id with the next integer of `stream`.
    ///
    /// Fails exactly when nothing is left to read, and then changes neither
    /// the slot nor the stream.
    pub fn deserialize(&mut self, stream: &mut Stream) -> (result: Result<(), StreamError>)
        requires
            old(stream)@.wf(),
        ensures
            old(stream)@.unread().len() > 0 ==> result == Ok::<(), StreamError>(())
                && final(self).item_id == old(stream)@.unread()[0] && final(stream)@ == old(
                stream,
            )@.advanced(1),
            old(stream)@.unread().len() == 0 ==> result == Err::<(), StreamError>(
                StreamError::EndOfStream,
            ) && *final(self) == *old(self) && final(stream)@ == old(stream)@,
    {
        match stream.read_int() {
            Ok(item_id) => {
                self.item_id = item_id;
                Ok(())
            },
            Err(error) => Err(error),
        }
    }
}

} // verus!
