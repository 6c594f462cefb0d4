//! Transactional orchestration of EVM executions over a host ledger: every
//! effect of an execution reaches the ledger in full, or not at all.
pub mod errors;
pub mod evm_state;
pub mod frame;
pub mod hexfmt;
pub mod interpreter;
pub mod ledger;
pub mod near_ext;
pub mod types;
pub mod uint;
pub mod utils;
