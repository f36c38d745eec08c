//! Verified core of a mailing-list service.
//!
//! Untrusted users submit a name/email pair, receive a confirmation link,
//! and - once confirmed - become eligible recipients of authenticated
//! newsletter broadcasts.  The modules below cover the parts with real
//! invariants: validated value objects, confirmation-token issuance, the
//! subscription and confirmation workflows over the relational state, the
//! Basic-Auth credential verifier, a tamper-evident signed redirect
//! message, and the newsletter fan-out decision.  Process bootstrap, HTTP
//! routing and the outbound transports stay outside this library.

pub mod authentication;
pub mod config;
pub mod domain;
pub mod email;
pub mod errors;
pub mod hexcode;
pub mod login;
pub mod newsletters;
pub mod signing;
pub mod store;
pub mod subscriptions;
pub mod subscriptions_confirm;
pub mod token;
