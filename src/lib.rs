//! A single-slot container that keeps its occupant in storage sized by a
//! caller-chosen `Space` type, with no heap allocation.
//!
//! A `DynBox<T, Space>` starts empty, holding only the `Space` value it was
//! seeded with. It can be occupied by a value of `T` only when `T` fits the
//! storage: its size and its alignment may not exceed those of `Space`.
//! Access to the occupant, shared or exclusive, requires the box to be
//! occupied; the fallible forms report the two misuses as distinct errors.
mod dynbox;

pub use dynbox::{DynBox, DynBoxError};
