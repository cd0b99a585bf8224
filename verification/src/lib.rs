//! An immutable, persistent singly-linked list with structural sharing.
//!
//! Lists are never mutated: every operation that "changes" a list builds a
//! new one, sharing the unchanged suffix of the old list through reference
//! counting. Prepending is O(1); removing the last element or concatenating
//! rebuilds only the prefix that can no longer be shared.

pub mod list;
pub mod render;
