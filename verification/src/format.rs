//! The two layouts of a saved roster, and what a save or a load of each amounts to.
//!
//! A saved roster is a version marker followed by slots:
//!
//! ```text
//! [marker] [slot 0] [slot 1] [slot 2] [slot 3]      both layouts
//!          [slot 4] ... [slot capacity - 1]         expanded layout only
//! ```
//!
//! A marker above zero announces the expanded layout. Zero and anything below
//! it is read as the legacy layout: files of that layout carry no marker of
//! their own, and their first integer is taken for one.

use vstd::prelude::*;
use crate::slot_list::{expanded, vacant};

verus! {

/// How many slots a roster had before it grew, and how many a legacy save holds.
pub const LEGACY_CAPACITY: usize = 4;

/// How many slots a roster has now.
pub const CURRENT_CAPACITY: usize = 8;

/// The marker that a legacy save starts with.
pub const LEGACY_MARKER: i32 = 0;

/// The marker that an expanded save starts with.
pub const EXPANDED_MARKER: i32 = 1;

/// The layout of a saved roster.
#[derive(Clone, Copy, Debug, PartialEq, Eq, Structural)]
pub enum SaveFormat {
    /// The first [`LEGACY_CAPACITY`] slots only.
    Legacy,
    /// Every slot of the roster.
    Expanded,
}

impl SaveFormat {
    /// The marker written in front of a save of this layout, as a specification.
    pub open spec fn spec_marker(self) -> i32 {
        match self {
            SaveFormat::Legacy => LEGACY_MARKER,
            SaveFormat::Expanded => EXPANDED_MARKER,
        }
    }

    /// The marker written in front of a save of this layout.
    #[verifier::when_used_as_spec(spec_marker)]
    pub fn marker(self) -> (marker: i32)
        ensures
            marker == self.spec_marker(),
    {
        match self {
            SaveFormat::Legacy => LEGACY_MARKER,
            SaveFormat::Expanded => EXPANDED_MARKER,
        }
    }

    /// The layout that a load takes a save to have when its first integer is
    /// `version_check`, as a specification.
    pub open spec fn spec_of_marker(version_check: i32) -> SaveFormat {
        if version_check > 0 {
            SaveFormat::Expanded
        } else {
            SaveFormat::Legacy
        }
    }

    /// The layout that a load takes a save to have when its first integer is
    /// `version_check`: expanded for any value above zero, legacy otherwise.
    #[verifier::when_used_as_spec(spec_of_marker)]
    pub fn of_marker(version_check: i32) -> (format: SaveFormat)
        ensures
            format == SaveFormat::spec_of_marker(version_check),
    {
        if version_check > 0 {
            SaveFormat::Expanded
        } else {
            SaveFormat::Legacy
        }
    }

    /// How many slots a save of this layout holds for a roster of `capacity` slots.
    pub open spec fn stored(self, capacity: nat) -> nat {
        match self {
            SaveFormat::Legacy => LEGACY_CAPACITY as nat,
            SaveFormat::Expanded => capacity,
        }
    }

    /// How many slots a save of this layout holds for a roster of `capacity` slots.
    pub fn stored_slots(self, capacity: usize) -> (count: usize)
        ensures
            count == self.stored(capacity as nat),
    {
        match self {
            SaveFormat::Legacy => LEGACY_CAPACITY,
            SaveFormat::Expanded => capacity,
        }
    }
}

/// The smaller of two counts.
pub open spec fn at_most(count: nat, bound: nat) -> nat {
    if count <= bound {
        count
    } else {
        bound
    }
}

/// The integers that a save of the roster `ids` in the layout `format` consists of.
pub open spec fn encoding(ids: Seq<i32>, format: SaveFormat) -> Seq<i32>
    recommends
        ids.len() >= LEGACY_CAPACITY,
{
    seq![format.marker()] + ids.take(format.stored(ids.len()) as int)
}

/// How many slots a load into a roster of `capacity` slots gets out of `input`:
/// as many as the layout that `input` announces holds, or as many as are there.
pub open spec fn slots_read(input: Seq<i32>, capacity: nat) -> nat {
    if input.len() == 0 {
        0
    } else {
        at_most(SaveFormat::of_marker(input[0]).stored(capacity), (input.len() - 1) as nat)
    }
}

/// How many integers a load into a roster of `capacity` slots takes from `input`.
pub open spec fn ints_read(input: Seq<i32>, capacity: nat) -> nat {
    if input.len() == 0 {
        0
    } else {
        1 + slots_read(input, capacity)
    }
}

/// Whether `input` holds everything that a load into a roster of `capacity`
/// slots asks for: the marker and every slot of the layout it announces.
pub open spec fn load_completes(input: Seq<i32>, capacity: nat) -> bool {
    input.len() > 0 && slots_read(input, capacity) == SaveFormat::of_marker(input[0]).stored(
        capacity,
    )
}

/// The roster that a load of `input` leaves behind, whether it completes or not.
///
/// A load that completes in the expanded layout leaves every slot empty: what
/// it read is dropped again. Any other load leaves the slots it read, followed
/// by empty ones.
pub open spec fn loaded(input: Seq<i32>, capacity: nat) -> Seq<i32>
    recommends
        capacity >= LEGACY_CAPACITY,
{
    if input.len() == 0 {
        vacant(capacity)
    } else if load_completes(input, capacity) && SaveFormat::of_marker(input[0])
        == SaveFormat::Expanded {
        vacant(capacity)
    } else {
        expanded(input.subrange(1, 1 + slots_read(input, capacity) as int), capacity)
    }
}

} // verus!
