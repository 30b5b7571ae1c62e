pub mod engine;
pub mod error;
pub mod parse;
pub mod state;
pub mod units;
