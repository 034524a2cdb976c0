//! The goal pages.

pub mod create;
