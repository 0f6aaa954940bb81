use vstd::prelude::*;
use crate::errors::ErrorCode;
use crate::instructions::process_vaa::{ProcessVAA, account_error, outcome, settled};
use crate::payloads::{
    OP_ADD_LIQUIDITY, OP_REMOVE_LIQUIDITY, decode_error, first_amount_of, pool_id_of,
    recipient_of, second_amount_of,
};
use crate::registry::{MessageId, lemma_completed_same_id, same_id};
use crate::state::PoolStatus;

verus! {

/// Every check that precedes the application of the message of `c` passes:
/// the accounts, admission, the replay check, decoding, binding to pool and
/// recipient, and the pool being active.
pub open spec fn reaches_apply(c: ProcessVAA) -> bool {
    let p = c.posted_vaa.payload@;
    &&& account_error(c) is None
    &&& p.len() > 0
    &&& !c.registry.completed(c.posted_vaa.id())
    &&& decode_error(p) is None
    &&& pool_id_of(p) == c.pool.pool_id@
    &&& recipient_of(p) == c.recipient@
    &&& c.pool.status == PoolStatus::Active
}

/// A successful settlement never forgets a message that was already applied.
pub proof fn lemma_registry_only_grows(c: ProcessVAA, n: ProcessVAA, m: MessageId)
    requires
        settled(c, n),
        c.registry.completed(m),
    ensures
        n.registry.completed(m),
{
    if !same_id(m, c.posted_vaa.id()) {
        assert(n.registry.completed(m) == c.registry.completed(m));
    } else {
        lemma_completed_same_id(n.registry.entries@, c.posted_vaa.id(), m);
    }
}

/// Replay protection: once a message has been applied, every later request
/// for the same message identity fails, whatever payload it carries, as long
/// as the registry keeps what was committed. Where the accounts are in order
/// and the payload is not empty, the failure is `VaaAlreadyProcessed`.
pub proof fn lemma_replay_rejected(first: ProcessVAA, after: ProcessVAA, later: ProcessVAA)
    requires
        outcome(first) is Ok,
        settled(first, after),
        same_id(later.posted_vaa.id(), first.posted_vaa.id()),
        forall|m: MessageId| after.registry.completed(m) ==> later.registry.completed(m),
    ensures
        outcome(later) is Err,
        account_error(later) is None && later.posted_vaa.payload@.len() > 0 ==> outcome(later)
            == Err::<(), ErrorCode>(ErrorCode::VaaAlreadyProcessed),
{
    assert(after.registry.completed(first.posted_vaa.id()));
    assert(later.registry.completed(first.posted_vaa.id()));
    lemma_completed_same_id(
        later.registry.entries@,
        first.posted_vaa.id(),
        later.posted_vaa.id(),
    );
    assert(later.registry.completed(later.posted_vaa.id()));
}

/// Binding: a settlement succeeds only for the pool and the recipient that
/// the message names; once the earlier checks pass, a mismatch of either is
/// reported as `PoolIdMismatch` or `RecipientMismatch`.
pub proof fn lemma_binding(c: ProcessVAA)
    ensures
        outcome(c) is Ok ==> {
            &&& pool_id_of(c.posted_vaa.payload@) == c.pool.pool_id@
            &&& recipient_of(c.posted_vaa.payload@) == c.recipient@
        },
        ({
            let p = c.posted_vaa.payload@;
            &&& account_error(c) is None
            &&& p.len() > 0
            &&& !c.registry.completed(c.posted_vaa.id())
            &&& decode_error(p) is None
            &&& (pool_id_of(p) != c.pool.pool_id@ || recipient_of(p) != c.recipient@)
        }) ==> (outcome(c) == Err::<(), ErrorCode>(ErrorCode::PoolIdMismatch) || outcome(c)
            == Err::<(), ErrorCode>(ErrorCode::RecipientMismatch)),
{
}

/// Conservation: an add-liquidity completion raises the share supply, the
/// share mint's supply and the recipient's share balance by exactly the
/// amount minted; a remove-liquidity completion lowers each reserve by
/// exactly the amount released and raises the recipient's balance of that
/// token by the same amount, leaving the share supply as it was.
pub proof fn lemma_conservation(c: ProcessVAA, n: ProcessVAA)
    requires
        outcome(c) is Ok,
        settled(c, n),
    ensures
        ({
            let p = c.posted_vaa.payload@;
            p[0] == OP_ADD_LIQUIDITY ==> {
                &&& n.pool.total_liquidity == c.pool.total_liquidity + first_amount_of(p)
                &&& n.lp_mint.supply == c.lp_mint.supply + first_amount_of(p)
                &&& n.recipient_lp_token_account.amount == c.recipient_lp_token_account.amount
                    + first_amount_of(p)
                &&& n.token_a_account.amount == c.token_a_account.amount
                &&& n.token_b_account.amount == c.token_b_account.amount
            }
        }),
        ({
            let p = c.posted_vaa.payload@;
            p[0] == OP_REMOVE_LIQUIDITY ==> {
                &&& n.token_a_account.amount == c.token_a_account.amount - first_amount_of(p)
                &&& n.recipient_token_a_account.amount == c.recipient_token_a_account.amount
                    + first_amount_of(p)
                &&& n.token_b_account.amount == c.token_b_account.amount - second_amount_of(p)
                &&& n.recipient_token_b_account.amount == c.recipient_token_b_account.amount
                    + second_amount_of(p)
                &&& n.pool.total_liquidity == c.pool.total_liquidity
                &&& n.lp_mint.supply == c.lp_mint.supply
            }
        }),
{
}

/// Atomicity: when the second release of a remove-liquidity completion
/// cannot be made, the request fails as a whole; the handler then leaves
/// every account and the registry as they were, so the first release is not
/// observable either and the message can be submitted again.
pub proof fn lemma_failed_second_release_rejects(c: ProcessVAA)
    requires
        decode_error(c.posted_vaa.payload@) is None,
        c.posted_vaa.payload@[0] == OP_REMOVE_LIQUIDITY,
        second_amount_of(c.posted_vaa.payload@) > c.token_b_account.amount
            || c.recipient_token_b_account.amount + second_amount_of(c.posted_vaa.payload@)
            > u64::MAX,
    ensures
        outcome(c) is Err,
{
}

/// Zero amounts: an add-liquidity completion of zero shares that passes every
/// earlier check is rejected with `ZeroLiquidityMinted`, so no successful one
/// mints nothing.
pub proof fn lemma_zero_mint_rejected(c: ProcessVAA)
    ensures
        reaches_apply(c) && c.posted_vaa.payload@[0] == OP_ADD_LIQUIDITY && first_amount_of(
            c.posted_vaa.payload@,
        ) == 0 ==> outcome(c) == Err::<(), ErrorCode>(ErrorCode::ZeroLiquidityMinted),
        outcome(c) is Ok && c.posted_vaa.payload@[0] == OP_ADD_LIQUIDITY ==> first_amount_of(
            c.posted_vaa.payload@,
        ) > 0,
{
}

/// Zero amounts: a remove-liquidity completion releasing zero of both tokens
/// is accepted once every earlier check passes, moves no tokens, and still
/// consumes the message.
pub proof fn lemma_zero_release_is_noop(c: ProcessVAA, n: ProcessVAA)
    requires
        reaches_apply(c),
        c.posted_vaa.payload@[0] == OP_REMOVE_LIQUIDITY,
        first_amount_of(c.posted_vaa.payload@) == 0,
        second_amount_of(c.posted_vaa.payload@) == 0,
    ensures
        outcome(c) is Ok,
        settled(c, n) ==> {
            &&& n.token_a_account == c.token_a_account
            &&& n.token_b_account == c.token_b_account
            &&& n.recipient_token_a_account == c.recipient_token_a_account
            &&& n.recipient_token_b_account == c.recipient_token_b_account
            &&& n.registry.completed(c.posted_vaa.id())
        },
{
}

} // verus!
