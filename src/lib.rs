//! Fixtures and result reading for running single transactions on revm's
//! in-memory EVM: 256-bit words, a small bytecode builder, the accounts and
//! transaction of a run, and the report drawn from its outcome.

pub mod word;
pub mod program;
pub mod run;
