//! A heterogeneous value store: one container that holds values of several
//! storable types at once and hands back lightweight, clonable tokens for
//! later retrieval, mutation, or removal.
//!
//! A [`store::Store`] owns every inserted value in a tagged, type-erased
//! representation ([`value::Value`]); a [`store::Token`] is a typed capability
//! for one slot. Removing a value through any clone of its token leaves every
//! clone permanently dead, freed slots are reused lowest-first under a fresh
//! stamp, and each access recovers the value at its inserted type through the
//! checked conversions of [`value::Storable`]. The laws the store obeys —
//! lossless round trips, visible mutation, clone-shared liveness, no double
//! removal, bounded growth under reuse, and independence of a slot's next
//! occupant — are stated and proved in [`laws`].

pub mod laws;
pub mod store;
pub mod value;

pub use store::Slot;
pub use store::Store;
pub use store::Token;
pub use value::Storable;
pub use value::Value;
