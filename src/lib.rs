//! Coordination strategies for funnelling many concurrent writes into one
//! sink, and the measurement contract they share.

pub mod errors;
pub mod offset_counter;
pub mod payload;
pub mod run_ledger;
pub mod strategies;
pub mod test_result;
pub mod test_runner;
