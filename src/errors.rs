use vstd::prelude::*;

verus! {

/// Every way a pool operation or a settlement request can be rejected.
#[derive(Debug, Clone, Copy, PartialEq, Eq, Structural)]
pub enum ErrorCode {
    PoolPaused,
    SlippageExceeded,
    ZeroLiquidityMinted,
    ZeroLiquidityBurned,
    InsufficientLpTokens,
    PoolEmpty,
    InvalidPoolTokenAccount,
    InvalidMint,
    InvalidOwner,
    InvalidVaaPayload,
    InvalidBridgeOperation,
    VaaAlreadyProcessed,
    Overflow,
    Underflow,
    InvalidAuthority,
    InvalidPoolStatus,
    RecipientMismatch,
    PoolIdMismatch,
}

impl ErrorCode {
    /// The human-readable message of the error.
    pub fn message(&self) -> (r: &'static str) {
        match self {
            ErrorCode::PoolPaused => "The specified pool is paused.",
            ErrorCode::SlippageExceeded => "Slippage tolerance exceeded.",
            ErrorCode::ZeroLiquidityMinted => "Attempted to mint zero liquidity tokens.",
            ErrorCode::ZeroLiquidityBurned => "Attempted to burn zero liquidity tokens.",
            ErrorCode::InsufficientLpTokens => "Insufficient LP tokens.",
            ErrorCode::PoolEmpty => "Cannot remove liquidity from an empty pool.",
            ErrorCode::InvalidPoolTokenAccount => "Invalid pool token account provided.",
            ErrorCode::InvalidMint => "Invalid token mint provided.",
            ErrorCode::InvalidOwner => "Invalid token account owner.",
            ErrorCode::InvalidVaaPayload => "Invalid VAA payload.",
            ErrorCode::InvalidBridgeOperation => "Invalid bridge operation type in VAA.",
            ErrorCode::VaaAlreadyProcessed => "This VAA has already been processed.",
            ErrorCode::Overflow => "Calculation overflow.",
            ErrorCode::Underflow => "Calculation underflow.",
            ErrorCode::InvalidAuthority => "Invalid authority.",
            ErrorCode::InvalidPoolStatus => "Invalid pool status.",
            ErrorCode::RecipientMismatch => "Recipient does not match the message.",
            ErrorCode::PoolIdMismatch => "Pool identifier does not match the message.",
        }
    }
}

} // verus!
