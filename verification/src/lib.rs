//! Delay-and-notify recovery of a self-custodial wallet account.
//!
//! An account that has lost one of its two authentication factors gets a new
//! key set after a delay, during which the holder of the lost factor is told
//! and can contest. The rules are in `current_account_recovery` (the
//! transitions), `destination` (which keys a recovery may propose) and
//! `entities` (who acts on a request). A transition names the effects that the
//! services around it have to carry out; `ledger` and `service` carry them out
//! on records held in memory, and state what holds of the records whatever is
//! handled.
//!
//! The remaining modules hold what the services of the wallet decide besides:
//! the key proof of a request (`key_claims`), addresses of objects
//! (`s3_util`), the client of the signing enclave (`enclave_client`) and the root keys that
//! it works on (`customer_key_store`), the
//! answers of the hardware to fingerprint commands (`fingerprint`), keysets
//! remembered by a client (`cache`), paged reads (`pagination`), rules on
//! social recovery (`social`) and the errors of the wallet utilities
//! (`bdk_error`).

pub mod account;
pub mod bdk_error;
pub mod cache;
pub mod current_account_recovery;
pub mod customer_key_store;
pub mod destination;
pub mod enclave_client;
pub mod entities;
pub mod error;
pub mod fingerprint;
pub mod helpers;
pub mod instant;
pub mod key_claims;
pub mod ledger;
pub mod pagination;
pub mod s3_util;
pub mod service;
pub mod social;
pub mod state_machine;
pub mod text;
