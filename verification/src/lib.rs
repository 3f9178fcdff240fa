//! Verified core of an account-registration backend.
//!
//! The library models the transactional signup / email-verification flow:
//! it validates requests, hashes credentials, stages the rows that a signup
//! or verification writes, and commits or rolls them back depending on the
//! outcome of the mail dispatch that gates the transaction.

pub mod credentials;
pub mod errors;
pub mod messages;
pub mod models;
pub mod orchestrator;
pub mod store;
pub mod validation;
