//! The state engines of a lending-augmented swap market and of a
//! commitment store for governance metadata.
//!
//! * [`state::globalpool`] keeps the ledger of one concentrated-liquidity
//!   pool: price, tick, available and borrowed liquidity, fee growth and owed
//!   protocol fees. [`manager::globalpool_manager`] computes the liquidity
//!   that a change to a position leaves available, and [`math`] holds the
//!   Q64.64 arithmetic both rest on.
//! * [`parallel_tree`] prepares and sequences the replacement of a leaf of a
//!   compressed Merkle tree: who may ask for it, which nodes stand for the
//!   leaf before and after, and in which order the tree service is called.
//! * [`state::pyth`] reads oracle prices and [`tickets`] settles action
//!   tickets. [`state::globalpool_layout`] fixes the bytes in which a pool
//!   is stored.
//!
//! Every function carries a contract that states what it returns or
//! changes. What is taken on trust is the hash function and the oracle's own
//! arithmetic; each such item says so where it is declared.

pub mod bytes;
pub mod errors;
pub mod hash;
pub mod manager;
pub mod math;
pub mod parallel_tree;
pub mod pubkey;
pub mod state;
pub mod tickets;
