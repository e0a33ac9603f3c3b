//! The roster: an ordered list of slots whose length is its capacity.

use vstd::prelude::*;
use crate::slot::{Slot, EMPTY_ITEM_ID};

verus! {

/// The item ids of `count` empty slots.
pub open spec fn vacant(count: nat) -> Seq<i32> {
    Seq::new(count, |i: int| EMPTY_ITEM_ID)
}

/// The item ids `ids`, followed by as many empty slots as it takes to reach `capacity`.
pub open spec fn expanded(ids: Seq<i32>, capacity: nat) -> Seq<i32>
    recommends
        ids.len() <= capacity,
{
    ids + vacant((capacity - ids.len()) as nat)
}

/// An ordered list of slots with a capacity that only grows.
///
/// The list records its capacity beside its slots and always holds exactly
/// that many: what [`SlotList::count`] reports is the recorded capacity, and
/// [`SlotList::wf`] ties it to the slots that are there.
pub struct SlotList {
    slots: Vec<Slot>,
    capacity: usize,
}

impl View for SlotList {
    type V = Seq<i32>;

    /// The item id of each slot, in order.
    closed spec fn view(&self) -> Seq<i32> {
        self.slots@.map_values(|slot: Slot| slot.item_id)
    }
}

impl SlotList {
    /// The list holds exactly as many slots as its capacity says.
    pub closed spec fn wf(&self) -> bool {
        self.slots@.len() == self.capacity
    }

    /// A list of `capacity` empty slots.
    pub fn new(capacity: usize) -> (list: SlotList)
        ensures
            list.wf(),
            list@ == vacant(capacity as nat),
    {
        let mut list = SlotList { slots: Vec::new(), capacity: 0 };
        list.expand_to(capacity);
        list
    }

    /// Grows the list to `capacity` slots by appending empty ones.
    ///
    /// The slots that were there keep their place and their contents.
    pub fn expand_to(&mut self, capacity: usize)
        requires
            old(self).wf(),
            old(self)@.len() <= capacity,
        ensures
            final(self).wf(),
            final(self)@ == expanded(old(self)@, capacity as nat),
    {
        while self.slots.len() < capacity
            invariant
                old(self)@.len() <= self.slots@.len() <= capacity,
                self@ =~= expanded(old(self)@, self.slots@.len()),
            decreases capacity - self.slots@.len(),
        {
            let ghost before = self@;
            self.slots.push(Slot::empty());
            proof {
                assert(self@ =~= before.push(EMPTY_ITEM_ID));
                assert(expanded(old(self)@, self.slots@.len()) =~= expanded(
                    old(self)@,
                    before.len(),
                ).push(EMPTY_ITEM_ID));
            }
        }
        self.capacity = capacity;
    }

    /// Empties every slot. The list keeps its length.
    pub fn reset_all(&mut self)
        requires
            old(self).wf(),
        ensures
            final(self).wf(),
            final(self)@ == vacant(old(self)@.len()),
    {
        let mut index: usize = 0;
        while index < self.slots.len()
            invariant
                self.capacity == old(self).capacity,
                self.slots@.len() == old(self).slots@.len(),
                index <= self.slots@.len(),
                forall|i: int| 0 <= i < index ==> (#[trigger] self.slots@[i]).item_id == EMPTY_ITEM_ID,
            decreases self.slots@.len() - index,
        {
            self.slots[index].clear();
            index = index + 1;
        }
        proof {
            assert(self@ =~= vacant(old(self)@.len()));
        }
    }

    /// The length of the list: its capacity.
    pub fn count(&self) -> (count: usize)
        requires
            self.wf(),
        ensures
            count == self@.len(),
    {
        self.capacity
    }

    /// The slot at `index`.
    pub fn slot(&self, index: usize) -> (slot: Slot)
        requires
            self.wf(),
            index < self@.len(),
        ensures
            slot.item_id == self@[index as int],
    {
        self.slots[index]
    }

    /// Puts `slot` at `index`. Every other slot stays as it was.
    pub fn set_slot(&mut self, index: usize, slot: Slot)
        requires
            old(self).wf(),
            index < old(self)@.len(),
        ensures
            final(self).wf(),
            final(self)@ == old(self)@.update(index as int, slot.item_id),
    {
        self.slots[index] = slot;
    }

    /// The item id of each slot, in order.
    pub fn item_ids(&self) -> (ids: Vec<i32>)
        requires
            self.wf(),
        ensures
            ids@ == self@,
    {
        let mut ids: Vec<i32> = Vec::new();
        let mut index: usize = 0;
        while index < self.slots.len()
            invariant
                index <= self.slots@.len(),
                ids@ =~= self@.take(index as int),
            decreases self.slots@.len() - index,
        {
            ids.push(self.slots[index].item_id);
            index = index + 1;
        }
        ids
    }
}

} // verus!
