//! Decision logic of a small personal-finance web application.
//!
//! Authenticated users manage accounts (named balances, optionally marked as
//! debt) and goals (target amounts with a due date). Every request handler is
//! split into the decisions it takes, which live here and are verified, and the
//! outside work between them (database calls, template rendering, HTTP), which
//! the serving binary performs and reports back as plain values.

pub mod amount;
pub mod authenticated;
pub mod date;
pub mod errors;
pub mod models;
pub mod negotiation;
pub mod object_id;
pub mod rendering;
pub mod response;
pub mod validation;
