//! A deterministic state-transition processor for an "echo" service: typed
//! instructions are decoded, the accounts they name are checked against
//! addresses derived from seeds, and fixed-layout buffers are rewritten.

pub mod account_info;
pub mod buffer;
pub mod codec;
pub mod error;
pub mod instruction;
pub mod processor;
pub mod program;
pub mod pubkey;
pub mod state;
