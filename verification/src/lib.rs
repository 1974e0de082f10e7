//! Proof-of-work mining client core: the nonce search, the choice of a reward
//! shard, the assembly of transactions and the delivery state machines, each
//! with a machine-checked contract.

pub mod accounts;
pub mod address;
pub mod bootstrap;
pub mod bus;
pub mod delivery;
pub mod encode;
pub mod error;
pub mod instruction;
pub mod mine;
pub mod miner;
pub mod nonce;
pub mod pow;
pub mod records;
pub mod relay;
