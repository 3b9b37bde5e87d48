//! A registry of token metadata records kept in program-owned ledger slots:
//! a doubly linked list of per-mint nodes behind a singleton metadata record,
//! with a binary record codec, deterministic slot addressing, an access gate
//! and the fee/authority protocol that guards every mutation.
pub mod error;
pub mod codec;
pub mod state;
pub mod slot;
pub mod instruction;
pub mod addressing;
pub mod registry;
pub mod list;
pub mod gate;
pub mod outcome;
pub mod processor;
