//! Settlement core of a two-sided liquidity pool that applies completion
//! messages arriving over a cross-chain bridge exactly once.
pub mod errors;
pub mod payloads;
pub mod state;
pub mod token;
pub mod registry;
pub mod instructions;
pub mod guarantees;
