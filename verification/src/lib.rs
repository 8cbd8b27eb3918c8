//! Credential verification and session-token issuance for an administrative
//! dashboard: the token policy, the token codec, and the sign-in exchange
//! with the record store.

pub mod account;
pub mod clock;
pub mod config;
pub mod error;
pub mod exchange;
pub mod page;
pub mod payload;
pub mod policy;
pub mod review;
pub mod store;
pub mod token;
pub mod validation;
