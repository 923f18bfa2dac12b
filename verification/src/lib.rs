//! A tokenized energy economy core: a supply-accounting credit ledger, a
//! peer-to-peer marketplace for posted-price energy offers, and a meter
//! oracle that admits readings from registered metering hardware.
//!
//! The host transaction environment (account storage, caller identity,
//! wall-clock time, the token-transfer primitive, and the event sink) is an
//! external collaborator: every operation here takes the caller's identity
//! and the current time as plain values, mutates the records it declares,
//! and returns the event it emits. Each operation either commits all of its
//! effects or returns one error and changes nothing.

pub mod credit;
pub mod market;
pub mod oracle;
