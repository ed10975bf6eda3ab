//! Registry of blockchain addresses annotated with risk scores and categories,
//! kept by permissioned reporters under a community authority.
//!
//! Every entity lives in a storage slot whose address is derived from its
//! parent and key; the processor validates each instruction against those
//! derived addresses and the reporters' capability levels before it changes
//! any slot.
use vstd::prelude::*;

pub mod capability;
pub mod enums;
pub mod error;
pub mod instruction;
pub mod key;
pub mod laws;
pub mod pda;
pub mod processor;
pub mod slot;
pub mod state;
pub mod tools;

verus! {

} // verus!
