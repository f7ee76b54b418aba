//! A ledger of fungible assets.
//!
//! Each asset class has a registry entry, account records, approvals and
//! metadata. The ledger is a state machine without I/O: an operation takes
//! the caller's resolved origin and what the host answered beforehand,
//! changes the ledger and returns the actions that the host has to carry
//! out: reserving and freeing deposits, taking and giving back the
//! references that keep accounts alive, telling a hook of records that are
//! gone. An operation that is refused leaves the ledger as it was.
//!
//! - [`types`]: identifiers, records, flags, errors, actions.
//! - [`records`]: sequences of records, their totals and lookups.
//! - [`model`], [`steps`], [`ledger`]: the ledger as a mathematical state
//!   machine, which the contracts of the operations speak of.
//! - [`laws`], [`history`]: what holds of every operation and of every
//!   sequence of operations.
//! - [`pallet`], [`genesis`]: the ledger in memory.
//! - [`mock`]: stand-ins for host subsystems.

pub mod types;
pub mod records;
pub mod model;
pub mod steps;
pub mod ledger;
pub mod laws;
pub mod history;
mod class;
pub mod pallet;
pub mod genesis;
pub mod mock;
