//! The state-transition logic of an on-ledger voting program: decoding of
//! instructions, fixed-layout codecs for the two persistent records, and the
//! handlers that check authority and update the records.

pub mod chain;
pub mod error;
pub mod instruction;
pub mod le;
pub mod processor;
pub mod state;
