//! Validation simulation for an account-abstraction bundler: the rules that
//! decide whether a user operation's traced validation is acceptable.

pub mod types;
pub mod tracer;
pub mod storage;
pub mod violation;
pub mod context;
pub mod address_set;
pub mod rules;
pub mod codec;
pub mod simulation;
