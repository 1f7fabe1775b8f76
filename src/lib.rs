//! Nudges a structured decoder into producing fully owned values.
//!
//! A decode target that can either borrow from its input or own a copy of it
//! (such as `Cow<str>`) is normally free to borrow. Decoding it through the
//! adapters of this crate withholds every zero-copy notification, so the
//! decoder falls back to the copying one at every depth of the value tree and
//! the result no longer depends on the input buffer.
//!
//! This crate holds the adapter types and their verified construction and
//! unwrapping. Each adapter is a transparent proxy: wrapping a value and
//! unwrapping it again gives back the very same value.
//!
//! Targets that can only borrow (plain references) cannot be produced this way
//! and fail with a decode error.

mod adapters;
mod entry;

pub use adapters::{Deserializer, EnumAccess, MapAccess, Seed, SeqAccess, VariantAccess, Visitor};
pub use entry::{detach, Detach};
