//! Versioned save-data codec for a fixed-capacity roster of equip slots.
//!
//! The roster grew from a legacy capacity to a larger current capacity. This
//! crate keeps the in-memory list conformant to its capacity and reads and
//! writes its binary form in both the legacy and the expanded layout.

pub mod format;
pub mod hooks;
pub mod laws;
pub mod slot;
pub mod slot_list;
pub mod stream;
