//! Escrow-backed commission accounting for merchant pools and their affiliates.
//!
//! A merchant funds the escrow of a pool, registers affiliates under it, and
//! records sales. Each sale pays the affiliate a commission out of escrow, at
//! the pool's rate in basis points. The engine decides and counts; moving
//! funds is left to an outside ledger, which is handed a transfer to carry
//! out. Every operation either goes through as a whole or changes nothing.
//!
//! - `state`, `events`, `errors`, `pubkey`: the records, notifications,
//!   refusals and identities.
//! - `accounts`: what each operation is handed.
//! - `commission`: the commission arithmetic.
//! - `pool_registry`, `affiliate_registry`, `ledger`: the operations.
//! - `address`: the seeds and derived addresses of records and of the escrow
//!   authority.
//! - `laws`: what holds across operations.

pub mod accounts;
pub mod address;
pub mod affiliate_registry;
pub mod commission;
pub mod errors;
pub mod events;
pub mod laws;
pub mod ledger;
pub mod pool_registry;
pub mod pubkey;
pub mod state;
