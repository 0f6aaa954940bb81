use vstd::prelude::*;
use crate::state::{Pool, PoolStatus};

verus! {

/// Derivation indices of the pool's program-derived addresses.
#[derive(Debug, Clone, Copy)]
pub struct CreatePoolBumps {
    pub pool: u8,
    pub pool_authority: u8,
    pub lp_mint: u8,
    pub token_a_account: u8,
    pub token_b_account: u8,
}

/// The accounts that pool creation reads: the deterministic authority, the
/// two asset mints, the share mint and the two reserve custody accounts,
/// with their derivation indices and the current time.
#[derive(Debug, Clone, Copy)]
pub struct CreatePool {
    pub creator: [u8; 32],
    pub pool_authority: [u8; 32],
    pub token_a_mint: [u8; 32],
    pub token_b_mint: [u8; 32],
    pub lp_mint: [u8; 32],
    pub token_a_account: [u8; 32],
    pub token_b_account: [u8; 32],
    pub bumps: CreatePoolBumps,
    pub now: i64,
}

/// The freshly created pool: identity and accounts from `ctx`, all
/// accounting at zero, active.
pub open spec fn created_pool(ctx: CreatePool, fee_percentage: u64, pool_id: [u8; 32]) -> Pool {
    Pool {
        authority: ctx.pool_authority,
        token_a_mint: ctx.token_a_mint,
        token_b_mint: ctx.token_b_mint,
        token_a_account: ctx.token_a_account,
        token_b_account: ctx.token_b_account,
        lp_mint: ctx.lp_mint,
        fee_percentage,
        total_liquidity: 0,
        pool_id,
        status: PoolStatus::Active,
        last_updated_at: ctx.now,
        protocol_fee_a: 0,
        protocol_fee_b: 0,
        bump: ctx.bumps.pool,
        lp_mint_bump: ctx.bumps.lp_mint,
        token_a_bump: ctx.bumps.token_a_account,
        token_b_bump: ctx.bumps.token_b_account,
    }
}

/// Initializes the record of a new pool.
pub fn handler(ctx: &CreatePool, fee_percentage: u64, pool_id: [u8; 32]) -> (r: Pool)
    ensures
        r == created_pool(*ctx, fee_percentage, pool_id),
{
    Pool {
        authority: ctx.pool_authority,
        token_a_mint: ctx.token_a_mint,
        token_b_mint: ctx.token_b_mint,
        token_a_account: ctx.token_a_account,
        token_b_account: ctx.token_b_account,
        lp_mint: ctx.lp_mint,
        fee_percentage,
        total_liquidity: 0,
        pool_id,
        status: PoolStatus::Active,
        last_updated_at: ctx.now,
        protocol_fee_a: 0,
        protocol_fee_b: 0,
        bump: ctx.bumps.pool,
        lp_mint_bump: ctx.bumps.lp_mint,
        token_a_bump: ctx.bumps.token_a_account,
        token_b_bump: ctx.bumps.token_b_account,
    }
}

} // verus!
