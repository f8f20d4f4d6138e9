//! Cheap change detection for values that are expensive to compare.
//!
//! A [`Version`] is a small token made of a random 128-bit lineage identifier and a counter. A
//! [`Versioned`] value holds some data together with such a token and advances the token each time
//! mutable access to the data is handed out, so that two observations of the token tell whether the
//! data may have changed in between.

mod version;
mod versioned;

pub use crate::version::{
    advanced_from, is_fresh, is_random_lineage, next_counter, wrapped_from, Version, MAX_LINEAGE,
};
pub use crate::versioned::Versioned;
