pub mod felt;
pub mod operations;
pub mod memory;
pub mod stack;
pub mod process;
pub mod trace;
pub mod laws;
pub mod label;
pub mod run;
