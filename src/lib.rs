//! Escrow-based, epoch-bounded English auctions of single non-fungible items,
//! a registry that keys many such auctions by the identity of the item under
//! sale, and the small indexes that make auctions and swap pools discoverable.
//!
//! The ledger itself (vaults, accounts, minting, the epoch counter) stays
//! outside this crate: every operation here takes what it needs to know about
//! the ledger as plain values and answers with the custody moves that the
//! caller must carry out.
pub mod auction;
pub mod badge;
pub mod ids;
pub mod index;
pub mod laws;
pub mod marketplace;
pub mod tariswap;
