//! A versioned value cell with optimistic (compare-and-set) replacement,
//! its contention backoff policy, and a few small generic helpers.

pub mod backoff;
pub mod cell;
pub mod shared;
pub mod strings;
pub mod generic;
pub mod smart;
