//! The settlement rules of a marketplace on a ledger of token accounts.
//!
//! Sellers publish listings under a charter. A purchase puts the payment in
//! escrow and leaves a receipt; the receipt is settled (`cash`), which
//! divides the payment between the seller and the charter's treasury and
//! mints governance tokens, or it is cancelled (`cancel`), which gives the
//! payment back. Every transition either happens as a whole or leaves the
//! ledger as it was.
//!
//! - `address`, `authority`: addresses, and the derivation of the addresses
//!   that act for a mint or an escrow without a key of their own.
//! - `calculator`: the exact arithmetic of rates, splits and expansion.
//! - `records`, `accounts`, `error`: the records kept on the ledger, the
//!   accounts that each transition names, and the reasons for a rejection.
//! - `ledger`, `operations`: a model of the ledger and of the operations of
//!   its token program.
//! - `purchase`, `cash`, `cancel`, `consume`, `listing`, `charter`: the
//!   transitions.
//! - `laws`: what holds of the transitions taken together.

pub mod accounts;
pub mod address;
pub mod authority;
pub mod calculator;
pub mod cancel;
pub mod cash;
pub mod charter;
pub mod consume;
pub mod error;
pub mod laws;
pub mod ledger;
pub mod listing;
pub mod operations;
pub mod purchase;
pub mod records;
pub mod transition;
