use vstd::prelude::*;
use crate::errors::ErrorCode;

verus! {

/// Whether a pool accepts reserve and share mutations.
#[derive(Debug, Clone, Copy, PartialEq, Eq, Structural)]
pub enum PoolStatus {
    Active,
    Paused,
}

/// The durable record of one asset pair: identity, custody accounts,
/// share supply, fee accrual and lifecycle. Addresses are 32-byte keys.
#[derive(Debug, Clone, Copy)]
pub struct Pool {
    pub authority: [u8; 32],
    pub token_a_mint: [u8; 32],
    pub token_b_mint: [u8; 32],
    pub token_a_account: [u8; 32],
    pub token_b_account: [u8; 32],
    pub lp_mint: [u8; 32],
    pub fee_percentage: u64,
    pub total_liquidity: u64,
    pub pool_id: [u8; 32],
    pub status: PoolStatus,
    pub last_updated_at: i64,
    pub protocol_fee_a: u64,
    pub protocol_fee_b: u64,
    pub bump: u8,
    pub lp_mint_bump: u8,
    pub token_a_bump: u8,
    pub token_b_bump: u8,
}

/// Byte-for-byte comparison of two keys.
pub fn keys_equal(a: &[u8; 32], b: &[u8; 32]) -> (r: bool)
    ensures
        r == (a@ == b@),
{
    let mut i: usize = 0;
    while i < 32
        invariant
            0 <= i <= 32,
            a@.len() == 32,
            b@.len() == 32,
            forall|j: int| 0 <= j < i ==> a@[j] == b@[j],
        decreases 32 - i,
    {
        if a[i] != b[i] {
            return false;
        }
        i = i + 1;
    }
    assert(a@ =~= b@);
    true
}

impl Pool {
    /// `new` is `self` with the share supply and the update time replaced.
    pub open spec fn with_shares(self, shares: u64, now: i64) -> Pool {
        Pool { total_liquidity: shares, last_updated_at: now, ..self }
    }

    /// Fails with `PoolPaused` unless the pool is active.
    pub fn require_active(&self) -> (r: Result<(), ErrorCode>)
        ensures
            self.status == PoolStatus::Active ==> r is Ok,
            self.status != PoolStatus::Active ==> r == Err::<(), ErrorCode>(ErrorCode::PoolPaused),
    {
        match self.status {
            PoolStatus::Active => Ok(()),
            PoolStatus::Paused => Err(ErrorCode::PoolPaused),
        }
    }

    /// Records the issue of `amount` new liquidity shares at time `now`.
    pub fn apply_share_issue(&mut self, amount: u64, now: i64) -> (r: Result<(), ErrorCode>)
        ensures
            amount == 0 ==> r == Err::<(), ErrorCode>(ErrorCode::ZeroLiquidityMinted),
            amount > 0 && old(self).total_liquidity + amount > u64::MAX ==> r == Err::<(), ErrorCode>(
                ErrorCode::Overflow,
            ),
            amount > 0 && old(self).total_liquidity + amount <= u64::MAX ==> r is Ok,
            r is Ok ==> *final(self) == old(self).with_shares(
                (old(self).total_liquidity + amount) as u64,
                now,
            ),
            r is Err ==> *final(self) == *old(self),
    {
        if amount == 0 {
            return Err(ErrorCode::ZeroLiquidityMinted);
        }
        match self.total_liquidity.checked_add(amount) {
            Some(total) => {
                self.total_liquidity = total;
                self.last_updated_at = now;
                Ok(())
            },
            None => Err(ErrorCode::Overflow),
        }
    }

    /// Records the burn of `amount` liquidity shares at time `now`; the caller
    /// has checked that the burning party holds that many.
    pub fn apply_share_burn(&mut self, amount: u64, now: i64) -> (r: Result<(), ErrorCode>)
        ensures
            amount == 0 ==> r == Err::<(), ErrorCode>(ErrorCode::ZeroLiquidityBurned),
            amount > 0 && amount > old(self).total_liquidity ==> r == Err::<(), ErrorCode>(
                ErrorCode::Underflow,
            ),
            amount > 0 && amount <= old(self).total_liquidity ==> r is Ok,
            r is Ok ==> *final(self) == old(self).with_shares(
                (old(self).total_liquidity - amount) as u64,
                now,
            ),
            r is Err ==> *final(self) == *old(self),
    {
        if amount == 0 {
            return Err(ErrorCode::ZeroLiquidityBurned);
        }
        match self.total_liquidity.checked_sub(amount) {
            Some(total) => {
                self.total_liquidity = total;
                self.last_updated_at = now;
                Ok(())
            },
            None => Err(ErrorCode::Underflow),
        }
    }
}

} // verus!
