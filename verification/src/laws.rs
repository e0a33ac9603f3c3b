//! What holds of the roster and of its saved forms, for every roster and every input.

use vstd::prelude::*;
use crate::format::{
    encoding,
    ints_read,
    load_completes,
    loaded,
    slots_read,
    SaveFormat,
    LEGACY_CAPACITY,
};
use crate::slot::EMPTY_ITEM_ID;
use crate::slot_list::{expanded, vacant};

verus! {

/// Growing a roster to `first` slots and then to `second` gives `second`
/// slots: those below `first` are as the first growth left them, which keeps
/// the slots of the start as they were, and those from `first` on are empty.
pub proof fn law_expand_twice(ids: Seq<i32>, first: nat, second: nat)
    requires
        ids.len() <= first <= second,
    ensures
        expanded(expanded(ids, first), second).len() == second,
        forall|i: int|
            0 <= i < first ==> expanded(expanded(ids, first), second)[i] == expanded(ids, first)[i],
        forall|i: int| 0 <= i < ids.len() ==> expanded(expanded(ids, first), second)[i] == ids[i],
        forall|i: int|
            first <= i < second ==> expanded(expanded(ids, first), second)[i] == EMPTY_ITEM_ID,
        expanded(expanded(ids, first), second) == expanded(ids, second),
{
    assert(expanded(expanded(ids, first), second) =~= expanded(ids, second));
}

/// Growing a roster to the capacity it already has changes nothing.
pub proof fn law_expand_to_same_capacity(ids: Seq<i32>)
    ensures
        expanded(ids, ids.len()) == ids,
{
    assert(expanded(ids, ids.len()) =~= ids);
}

/// A reset roster has the length it had, and every slot of it is empty.
/// Resetting it once more changes nothing.
pub proof fn law_reset_keeps_length(ids: Seq<i32>)
    ensures
        vacant(ids.len()).len() == ids.len(),
        forall|i: int| 0 <= i < ids.len() ==> vacant(ids.len())[i] == EMPTY_ITEM_ID,
        vacant(vacant(ids.len()).len()) == vacant(ids.len()),
{
}

/// A roster made with a capacity has that many slots from the start, all empty.
pub proof fn law_new_roster_has_capacity(capacity: nat)
    ensures
        vacant(capacity).len() == capacity,
        forall|i: int| 0 <= i < capacity ==> vacant(capacity)[i] == EMPTY_ITEM_ID,
{
}

/// The marker of a layout is read back as that layout.
pub proof fn law_marker_names_layout(format: SaveFormat)
    ensures
        SaveFormat::of_marker(format.marker()) == format,
{
}

/// A load never changes the length of the roster, and it leaves empty every
/// slot that it did not read, whatever the roster held before and whether the
/// load completes or not.
pub proof fn law_load_empties_unread_slots(input: Seq<i32>, capacity: nat)
    requires
        capacity >= LEGACY_CAPACITY,
    ensures
        loaded(input, capacity).len() == capacity,
        slots_read(input, capacity) <= capacity,
        forall|i: int|
            slots_read(input, capacity) <= i < capacity ==> loaded(input, capacity)[i]
                == EMPTY_ITEM_ID,
{
}

/// A load of a legacy save reads the marker and the first slots only: they
/// hold what the save holds, and every slot after them is empty.
pub proof fn law_legacy_load(input: Seq<i32>, capacity: nat)
    requires
        capacity >= LEGACY_CAPACITY,
        input.len() > LEGACY_CAPACITY,
        input[0] <= 0,
    ensures
        load_completes(input, capacity),
        ints_read(input, capacity) == 1 + LEGACY_CAPACITY,
        forall|i: int| 0 <= i < LEGACY_CAPACITY ==> loaded(input, capacity)[i] == input[1 + i],
        forall|i: int| LEGACY_CAPACITY <= i < capacity ==> loaded(input, capacity)[i] == EMPTY_ITEM_ID,
{
}

/// A load of an expanded save that is all there reads the marker and every
/// slot, and leaves every slot empty.
pub proof fn law_expanded_load(input: Seq<i32>, capacity: nat)
    requires
        capacity >= LEGACY_CAPACITY,
        input.len() > capacity,
        input[0] > 0,
    ensures
        load_completes(input, capacity),
        ints_read(input, capacity) == 1 + capacity,
        loaded(input, capacity) == vacant(capacity),
{
}

/// A load of an expanded save that ends early does not complete. It has read
/// all there was: the slots it got to hold what the save holds, and every
/// other slot is empty.
pub proof fn law_truncated_expanded_load(input: Seq<i32>, capacity: nat)
    requires
        capacity >= LEGACY_CAPACITY,
        0 < input.len() <= capacity,
        input[0] > 0,
    ensures
        !load_completes(input, capacity),
        ints_read(input, capacity) == input.len(),
        loaded(input, capacity).len() == capacity,
        forall|i: int| 0 <= i < input.len() - 1 ==> loaded(input, capacity)[i] == input[1 + i],
        forall|i: int| input.len() - 1 <= i < capacity ==> loaded(input, capacity)[i] == EMPTY_ITEM_ID,
{
}

/// Saving a roster and loading what was saved completes and reads exactly
/// what was written. From a legacy save the first slots come back as they
/// were and the others empty; from an expanded save every slot comes back empty.
pub proof fn law_save_then_load(ids: Seq<i32>, format: SaveFormat)
    requires
        ids.len() >= LEGACY_CAPACITY,
    ensures
        load_completes(encoding(ids, format), ids.len()),
        ints_read(encoding(ids, format), ids.len()) == encoding(ids, format).len(),
        format == SaveFormat::Legacy ==> loaded(encoding(ids, format), ids.len()) == expanded(
            ids.take(LEGACY_CAPACITY as int),
            ids.len(),
        ),
        format == SaveFormat::Expanded ==> loaded(encoding(ids, format), ids.len()) == vacant(
            ids.len(),
        ),
{
    let saved = encoding(ids, format);
    if format == SaveFormat::Legacy {
        assert(saved.subrange(1, 1 + LEGACY_CAPACITY as int) =~= ids.take(LEGACY_CAPACITY as int));
    }
}

} // verus!
