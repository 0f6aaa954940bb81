use vstd::prelude::*;
use crate::errors::ErrorCode;
use crate::payloads::{
    CompletionPayload, OP_ADD_LIQUIDITY, decode_error, decode_payload, first_amount_of,
    pool_id_of, recipient_of, second_amount_of,
};
use crate::registry::{MessageId, Registry, same_id};
use crate::state::{Pool, PoolStatus, keys_equal};
use crate::token::{Mint, TokenAccount, issue_shares, release_reserve, with_amount};

verus! {

/// A cross-chain message whose authenticity the bridge has already
/// established: its identity and its opaque payload.
#[derive(Debug, Clone)]
pub struct PostedVaa {
    pub emitter_chain: u16,
    pub emitter_address: [u8; 32],
    pub sequence: u64,
    pub payload: Vec<u8>,
}

impl PostedVaa {
    /// The identity of the message.
    pub open spec fn id(&self) -> MessageId {
        MessageId {
            emitter_chain: self.emitter_chain,
            emitter_address: self.emitter_address,
            sequence: self.sequence,
        }
    }

    /// The identity of the message.
    pub fn message_id(&self) -> (r: MessageId)
        ensures
            r == self.id(),
    {
        MessageId {
            emitter_chain: self.emitter_chain,
            emitter_address: self.emitter_address,
            sequence: self.sequence,
        }
    }
}

/// Everything one settlement request touches: the message, the registry of
/// applied messages, the pool with its authority, reserves and share mint,
/// the recipient named by the caller with its three token accounts, and the
/// current time.
#[derive(Debug, Clone)]
pub struct ProcessVAA {
    pub posted_vaa: PostedVaa,
    pub registry: Registry,
    pub pool: Pool,
    pub pool_authority: [u8; 32],
    pub token_a_account: TokenAccount,
    pub token_b_account: TokenAccount,
    pub lp_mint: Mint,
    pub recipient: [u8; 32],
    pub recipient_lp_token_account: TokenAccount,
    pub recipient_token_a_account: TokenAccount,
    pub recipient_token_b_account: TokenAccount,
    pub now: i64,
}

/// The first way in which the supplied accounts fail to belong to the pool
/// or to the recipient, if any.
pub open spec fn account_error(c: ProcessVAA) -> Option<ErrorCode> {
    if c.pool_authority@ != c.pool.authority@ {
        Some(ErrorCode::InvalidAuthority)
    } else if c.token_a_account.key@ != c.pool.token_a_account@ || c.token_b_account.key@
        != c.pool.token_b_account@ {
        Some(ErrorCode::InvalidPoolTokenAccount)
    } else if c.lp_mint.key@ != c.pool.lp_mint@ || c.token_a_account.mint@ != c.pool.token_a_mint@
        || c.token_b_account.mint@ != c.pool.token_b_mint@ {
        Some(ErrorCode::InvalidMint)
    } else if c.recipient_lp_token_account.mint@ != c.pool.lp_mint@
        || c.recipient_token_a_account.mint@ != c.pool.token_a_mint@
        || c.recipient_token_b_account.mint@ != c.pool.token_b_mint@ {
        Some(ErrorCode::InvalidMint)
    } else if c.recipient_lp_token_account.owner@ != c.recipient@
        || c.recipient_token_a_account.owner@ != c.recipient@
        || c.recipient_token_b_account.owner@ != c.recipient@ {
        Some(ErrorCode::InvalidOwner)
    } else if c.recipient_token_a_account.key@ == c.token_a_account.key@
        || c.recipient_token_b_account.key@ == c.token_b_account.key@ {
        Some(ErrorCode::InvalidPoolTokenAccount)
    } else {
        None
    }
}

/// The result of applying an add-liquidity completion of `n` shares.
pub open spec fn add_outcome(c: ProcessVAA, n: nat) -> Result<(), ErrorCode> {
    if n == 0 {
        Err(ErrorCode::ZeroLiquidityMinted)
    } else if c.lp_mint.supply + n > u64::MAX || c.recipient_lp_token_account.amount + n
        > u64::MAX || c.pool.total_liquidity + n > u64::MAX {
        Err(ErrorCode::Overflow)
    } else {
        Ok(())
    }
}

/// The result of releasing `a` of token A and then `b` of token B.
pub open spec fn remove_outcome(c: ProcessVAA, a: nat, b: nat) -> Result<(), ErrorCode> {
    if a > c.token_a_account.amount {
        Err(ErrorCode::Underflow)
    } else if c.recipient_token_a_account.amount + a > u64::MAX {
        Err(ErrorCode::Overflow)
    } else if b > c.token_b_account.amount {
        Err(ErrorCode::Underflow)
    } else if c.recipient_token_b_account.amount + b > u64::MAX {
        Err(ErrorCode::Overflow)
    } else {
        Ok(())
    }
}

/// What a settlement request on `c` returns: the account checks, admission,
/// replay check, decoding, binding to pool and recipient, then application.
pub open spec fn outcome(c: ProcessVAA) -> Result<(), ErrorCode> {
    let p = c.posted_vaa.payload@;
    if account_error(c) is Some {
        Err(account_error(c)->0)
    } else if p.len() == 0 {
        Err(ErrorCode::InvalidVaaPayload)
    } else if c.registry.completed(c.posted_vaa.id()) {
        Err(ErrorCode::VaaAlreadyProcessed)
    } else if decode_error(p) is Some {
        Err(decode_error(p)->0)
    } else if pool_id_of(p) != c.pool.pool_id@ {
        Err(ErrorCode::PoolIdMismatch)
    } else if recipient_of(p) != c.recipient@ {
        Err(ErrorCode::RecipientMismatch)
    } else if c.pool.status != PoolStatus::Active {
        Err(ErrorCode::PoolPaused)
    } else if p[0] == OP_ADD_LIQUIDITY {
        add_outcome(c, first_amount_of(p))
    } else {
        remove_outcome(c, first_amount_of(p), second_amount_of(p))
    }
}

/// `n.registry` is `c.registry` with the message of `c` committed as applied
/// and every other message as it was.
pub open spec fn committed(c: ProcessVAA, n: ProcessVAA) -> bool {
    &&& n.registry.completed(c.posted_vaa.id())
    &&& forall|other: MessageId|
        !same_id(other, c.posted_vaa.id()) ==> (#[trigger] n.registry.completed(other)
            == c.registry.completed(other))
}

/// `n` is the state after the message of `c` was applied successfully.
pub open spec fn settled(c: ProcessVAA, n: ProcessVAA) -> bool {
    let p = c.posted_vaa.payload@;
    &&& committed(c, n)
    &&& n.posted_vaa == c.posted_vaa
    &&& n.pool_authority == c.pool_authority
    &&& n.recipient == c.recipient
    &&& n.now == c.now
    &&& if p[0] == OP_ADD_LIQUIDITY {
        let m = first_amount_of(p);
        &&& n.pool == c.pool.with_shares((c.pool.total_liquidity + m) as u64, c.now)
        &&& n.lp_mint == Mint { supply: (c.lp_mint.supply + m) as u64, ..c.lp_mint }
        &&& n.recipient_lp_token_account == with_amount(
            c.recipient_lp_token_account,
            c.recipient_lp_token_account.amount + m,
        )
        &&& n.token_a_account == c.token_a_account
        &&& n.token_b_account == c.token_b_account
        &&& n.recipient_token_a_account == c.recipient_token_a_account
        &&& n.recipient_token_b_account == c.recipient_token_b_account
    } else {
        let a = first_amount_of(p);
        let b = second_amount_of(p);
        &&& n.pool == Pool { last_updated_at: c.now, ..c.pool }
        &&& n.lp_mint == c.lp_mint
        &&& n.recipient_lp_token_account == c.recipient_lp_token_account
        &&& n.token_a_account == with_amount(c.token_a_account, c.token_a_account.amount - a)
        &&& n.token_b_account == with_amount(c.token_b_account, c.token_b_account.amount - b)
        &&& n.recipient_token_a_account == with_amount(
            c.recipient_token_a_account,
            c.recipient_token_a_account.amount + a,
        )
        &&& n.recipient_token_b_account == with_amount(
            c.recipient_token_b_account,
            c.recipient_token_b_account.amount + b,
        )
    }
}

impl ProcessVAA {
    /// Checks that the supplied accounts belong to the pool and to the
    /// recipient.
    pub fn check_accounts(&self) -> (r: Result<(), ErrorCode>)
        ensures
            account_error(*self) matches Some(e) ==> r == Err::<(), ErrorCode>(e),
            account_error(*self) is None ==> r is Ok,
    {
        let pool = &self.pool;
        if !keys_equal(&self.pool_authority, &pool.authority) {
            return Err(ErrorCode::InvalidAuthority);
        }
        if !keys_equal(&self.token_a_account.key, &pool.token_a_account) || !keys_equal(
            &self.token_b_account.key,
            &pool.token_b_account,
        ) {
            return Err(ErrorCode::InvalidPoolTokenAccount);
        }
        if !keys_equal(&self.lp_mint.key, &pool.lp_mint) || !keys_equal(
            &self.token_a_account.mint,
            &pool.token_a_mint,
        ) || !keys_equal(&self.token_b_account.mint, &pool.token_b_mint) {
            return Err(ErrorCode::InvalidMint);
        }
        if !keys_equal(&self.recipient_lp_token_account.mint, &pool.lp_mint) || !keys_equal(
            &self.recipient_token_a_account.mint,
            &pool.token_a_mint,
        ) || !keys_equal(&self.recipient_token_b_account.mint, &pool.token_b_mint) {
            return Err(ErrorCode::InvalidMint);
        }
        if !keys_equal(&self.recipient_lp_token_account.owner, &self.recipient) || !keys_equal(
            &self.recipient_token_a_account.owner,
            &self.recipient,
        ) || !keys_equal(&self.recipient_token_b_account.owner, &self.recipient) {
            return Err(ErrorCode::InvalidOwner);
        }
        if keys_equal(&self.recipient_token_a_account.key, &self.token_a_account.key) || keys_equal(
            &self.recipient_token_b_account.key,
            &self.token_b_account.key,
        ) {
            return Err(ErrorCode::InvalidPoolTokenAccount);
        }
        Ok(())
    }
}

/// Applies a bridge-verified completion message to the pool exactly once.
/// On any failure nothing changes, and the message stays applicable.
pub fn handler(ctx: &mut ProcessVAA) -> (r: Result<(), ErrorCode>)
    ensures
        r == outcome(*old(ctx)),
        r is Ok ==> settled(*old(ctx), *final(ctx)),
        r is Err ==> *final(ctx) == *old(ctx),
{
    match ctx.check_accounts() {
        Ok(()) => {},
        Err(e) => return Err(e),
    }
    if ctx.posted_vaa.payload.len() == 0 {
        return Err(ErrorCode::InvalidVaaPayload);
    }
    let id = ctx.posted_vaa.message_id();
    if ctx.registry.is_processed(&id) {
        return Err(ErrorCode::VaaAlreadyProcessed);
    }
    let decoded = match decode_payload(ctx.posted_vaa.payload.as_slice()) {
        Ok(d) => d,
        Err(e) => return Err(e),
    };
    match decoded {
        CompletionPayload::AddLiquidity(add) => {
            if !keys_equal(&add.original_pool_id, &ctx.pool.pool_id) {
                return Err(ErrorCode::PoolIdMismatch);
            }
            if !keys_equal(&add.recipient_address, &ctx.recipient) {
                return Err(ErrorCode::RecipientMismatch);
            }
            match ctx.pool.require_active() {
                Ok(()) => {},
                Err(e) => return Err(e),
            }
            let amount = add.lp_amount_to_mint;
            if amount == 0 {
                return Err(ErrorCode::ZeroLiquidityMinted);
            }
            let mut mint = ctx.lp_mint;
            let mut shares = ctx.recipient_lp_token_account;
            let mut pool = ctx.pool;
            match issue_shares(&mut mint, &mut shares, amount) {
                Ok(()) => {},
                Err(e) => return Err(e),
            }
            match pool.apply_share_issue(amount, ctx.now) {
                Ok(()) => {},
                Err(e) => return Err(e),
            }
            ctx.lp_mint = mint;
            ctx.recipient_lp_token_account = shares;
            ctx.pool = pool;
        },
        CompletionPayload::RemoveLiquidity(rem) => {
            if !keys_equal(&rem.original_pool_id, &ctx.pool.pool_id) {
                return Err(ErrorCode::PoolIdMismatch);
            }
            if !keys_equal(&rem.recipient_address, &ctx.recipient) {
                return Err(ErrorCode::RecipientMismatch);
            }
            match ctx.pool.require_active() {
                Ok(()) => {},
                Err(e) => return Err(e),
            }
            let mut reserve_a = ctx.token_a_account;
            let mut reserve_b = ctx.token_b_account;
            let mut dest_a = ctx.recipient_token_a_account;
            let mut dest_b = ctx.recipient_token_b_account;
            match release_reserve(&ctx.pool, &mut reserve_a, &mut dest_a, rem.amount_a_to_transfer) {
                Ok(()) => {},
                Err(e) => return Err(e),
            }
            match release_reserve(&ctx.pool, &mut reserve_b, &mut dest_b, rem.amount_b_to_transfer) {
                Ok(()) => {},
                Err(e) => return Err(e),
            }
            ctx.token_a_account = reserve_a;
            ctx.token_b_account = reserve_b;
            ctx.recipient_token_a_account = dest_a;
            ctx.recipient_token_b_account = dest_b;
            ctx.pool.last_updated_at = ctx.now;
        },
    }
    let record = ctx.posted_vaa.payload.clone();
    ctx.registry.commit(id, record);
    Ok(())
}

} // verus!
