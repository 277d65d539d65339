//! Switching between Kiro accounts: which account is in use, when it is given up, which one
//! takes over, and the requests to the Kiro services that this takes.
pub mod account;
pub mod amount;
pub mod endpoint;
pub mod failure;
pub mod identify;
pub mod json;
pub mod list;
pub mod machine;
pub mod notice;
pub mod region;
pub mod request;
pub mod schedule;
pub mod selection;
pub mod store;
pub mod switching;
pub mod takeover;
pub mod text;
