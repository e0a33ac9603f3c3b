//! The four operations that stand in for the host's own on its accessory list:
//! construction, the reported count, saving and loading.

use vstd::prelude::*;
use crate::format::{
    at_most,
    encoding,
    ints_read,
    load_completes,
    loaded,
    SaveFormat,
    LEGACY_CAPACITY,
};
use crate::slot_list::{expanded, vacant, SlotList};
use crate::stream::{Stream, StreamError};

verus! {

/// The count that the host is told: the roster's capacity.
pub fn unitaccessorylist_get_count(this: &SlotList) -> (count: i32)
    requires
        this.wf(),
        this@.len() <= i32::MAX,
    ensures
        count == this@.len(),
{
    this.count() as i32
}

/// Finishes the construction of a roster: grows it to `capacity` slots and
/// empties every one of them, whatever the host had put there.
pub fn unitaccessorylist_ctor_hook(this: &mut SlotList, capacity: usize)
    requires
        old(this).wf(),
        old(this)@.len() <= capacity,
    ensures
        final(this).wf(),
        final(this)@ == vacant(capacity as nat),
{
    this.expand_to(capacity);
    this.reset_all();
}

/// Saves the roster to `stream` in the layout `format`: the layout's marker,
/// then the slots that the layout holds, in order.
///
/// The save fails exactly when the stream has not the room for all of it. It
/// has then written as much as there was room for.
pub fn unitaccessorylist_serialize_hook(
    this: &SlotList,
    stream: &mut Stream,
    format: SaveFormat,
) -> (result: Result<(), StreamError>)
    requires
        this.wf(),
        this@.len() >= LEGACY_CAPACITY,
        old(stream)@.wf(),
    ensures
        final(stream)@ == old(stream)@.extended(
            encoding(this@, format).take(
                at_most(encoding(this@, format).len(), old(stream)@.room()) as int,
            ),
        ),
        encoding(this@, format).len() <= old(stream)@.room() ==> result == Ok::<(), StreamError>(
            (),
        ),
        encoding(this@, format).len() > old(stream)@.room() ==> result == Err::<(), StreamError>(
            StreamError::Full,
        ),
{
    let ghost start = stream@;
    let ghost whole = encoding(this@, format);
    match stream.write_int(format.marker()) {
        Ok(()) => {},
        Err(error) => {
            return Err(error);
        },
    }
    let stored = format.stored_slots(this.count());
    let mut index: usize = 0;
    proof {
        assert(whole.take(1) =~= seq![format.marker()]);
    }
    while index < stored
        invariant
            this.wf(),
            stored == format.stored(this@.len()),
            index <= stored <= this@.len(),
            this@.len() >= LEGACY_CAPACITY,
            whole == encoding(this@, format),
            whole.len() == 1 + stored,
            start == old(stream)@,
            start.wf(),
            1 + index <= start.room(),
            stream@ == start.extended(whole.take(1 + index)),
        decreases stored - index,
    {
        match this.slot(index).serialize(stream) {
            Ok(()) => {},
            Err(error) => {
                return Err(error);
            },
        }
        proof {
            assert(whole.take(1 + index) + seq![this@[index as int]] =~= whole.take(2 + index));
            assert(stream@.ints =~= start.ints + whole.take(2 + index));
        }
        index = index + 1;
    }
    Ok(())
}

/// Loads the roster from `stream`.
///
/// Every slot is emptied first. The next integer of the stream decides the
/// layout, and as many slots as that layout holds are read, in order. After an
/// expanded save has been read in full, every slot is emptied once more.
///
/// The load fails exactly when the stream ends before all of that has been
/// read. The slots read until then keep what was read, and the others are empty.
pub fn unitaccessorylist_deserialize_hook(this: &mut SlotList, stream: &mut Stream) -> (result:
    Result<(), StreamError>)
    requires
        old(this).wf(),
        old(this)@.len() >= LEGACY_CAPACITY,
        old(stream)@.wf(),
    ensures
        final(this).wf(),
        final(this)@.len() == old(this)@.len(),
        final(this)@ == loaded(old(stream)@.unread(), old(this)@.len()),
        final(stream)@ == old(stream)@.advanced(ints_read(old(stream)@.unread(), old(this)@.len())),
        load_completes(old(stream)@.unread(), old(this)@.len()) ==> result == Ok::<
            (),
            StreamError,
        >(()),
        !load_completes(old(stream)@.unread(), old(this)@.len()) ==> result == Err::<
            (),
            StreamError,
        >(StreamError::EndOfStream),
{
    let ghost start = stream@;
    let ghost input = stream@.unread();
    let ghost capacity = this@.len();
    this.reset_all();
    let version_check = match stream.read_int() {
        Ok(value) => value,
        Err(error) => {
            return Err(error);
        },
    };
    let format = SaveFormat::of_marker(version_check);
    let stored = format.stored_slots(this.count());
    let mut index: usize = 0;
    proof {
        assert(this@ =~= expanded(input.subrange(1, 1), capacity));
    }
    while index < stored
        invariant
            this.wf(),
            this@.len() == capacity,
            capacity == old(this)@.len(),
            capacity >= LEGACY_CAPACITY,
            start == old(stream)@,
            start.wf(),
            input == start.unread(),
            input.len() == start.ints.len() - start.cursor,
            input.len() > 0,
            format == SaveFormat::of_marker(input[0]),
            stored == format.stored(capacity),
            index <= stored <= capacity,
            1 + index <= input.len(),
            stream@ == start.advanced(1 + index as nat),
            this@ == expanded(input.subrange(1, 1 + index), capacity),
        decreases stored - index,
    {
        let mut slot = this.slot(index);
        proof {
            assert(stream@.unread().len() == input.len() - (1 + index));
        }
        match slot.deserialize(stream) {
            Ok(()) => {},
            Err(error) => {
                return Err(error);
            },
        }
        this.set_slot(index, slot);
        proof {
            assert(this@ =~= expanded(input.subrange(1, 2 + index), capacity));
        }
        index = index + 1;
    }
    match format {
        SaveFormat::Expanded => {
            this.reset_all();
        },
        SaveFormat::Legacy => {},
    }
    Ok(())
}

} // verus!
