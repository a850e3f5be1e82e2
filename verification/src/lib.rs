//! Memory monitoring: snapshots of host memory, threshold warnings and the
//! query commands, with every rule stated as a contract and proved.

pub mod cli;
pub mod monitor;
pub mod text;
