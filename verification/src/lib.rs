//! Lifecycle of projects in a curated fundraising marketplace.
//!
//! A project is proposed by a curator, whitelisted by a validator, given its
//! token and sale contracts, put on sale and finally closed. This crate
//! holds the state of that marketplace and decides every call: who may
//! make it, in which status of a project it is allowed, and what it
//! changes. A call either succeeds as a whole or leaves the state exactly
//! as it found it.
//!
//! The crate performs no call into the outside world. Who is a curator or
//! a validator is known to a separate user registry: the entrypoints that
//! depend on it name the call to make (`registry::RegistryCall`), and take
//! what came of it as an argument. A driver runs a call like this:
//!
//! 1. `contract::lookup_sender` or `contract::lookup_by_admin` names the
//!    `view_user` call; the driver performs it.
//! 2. `transaction::TransactionContext::begin` remembers the state, and the
//!    entrypoint is called with the reply. It names the `curate` or
//!    `validate` call, if one is due; the driver performs it.
//! 3. `TransactionContext::settle` keeps what was written if the registry
//!    recorded the call, and discards it if not.
//!
//! The modules:
//!
//! - `address`: accounts, contracts, senders.
//! - `error`: why a call is rejected, and what "all or nothing" means.
//! - `project`: a project record and the guarded updates of its lifecycle.
//! - `store`: the records under their identifiers.
//! - `registry`: the calls into the user registry and their replies.
//! - `params`: what the entrypoints take.
//! - `state`: the state, and what each operation makes of it.
//! - `contract`: the entrypoints.
//! - `transaction`: a call as a transaction.
//! - `lifecycle`: what holds of every operation and every sequence of them.

pub mod address;
pub mod contract;
pub mod error;
pub mod lifecycle;
pub mod params;
pub mod project;
pub mod registry;
pub mod state;
pub mod store;
pub mod transaction;
