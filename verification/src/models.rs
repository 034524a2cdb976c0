//! The records that are stored.

pub mod account;
pub mod collection;
