use vstd::prelude::*;
use vstd::slice::slice_subrange;
use crate::errors::ErrorCode;

verus! {

/// Selector byte of a message that completes a deposit made on the origin chain.
pub const OP_ADD_LIQUIDITY: u8 = 0;

/// Selector byte of a message that completes a withdrawal made on the origin chain.
pub const OP_REMOVE_LIQUIDITY: u8 = 1;

/// Encoded length of the body of an add-liquidity completion:
/// pool id, recipient, one little-endian `u64`.
pub const ADD_BODY_LEN: usize = 72;

/// Encoded length of the body of a remove-liquidity completion:
/// pool id, recipient, two little-endian `u64`s.
pub const REMOVE_BODY_LEN: usize = 80;

/// The unsigned number that the bytes `s` encode, least significant byte first.
pub open spec fn le_value(s: Seq<u8>) -> nat
    decreases s.len(),
{
    if s.len() == 0 {
        0
    } else {
        s[0] as nat + 256 * le_value(s.drop_first())
    }
}

/// Mint liquidity shares to `recipient_address` for a deposit that already
/// happened on the origin chain.
#[derive(Debug, Clone, Copy)]
pub struct AddLiquidityCompletionPayload {
    pub original_pool_id: [u8; 32],
    pub recipient_address: [u8; 32],
    pub lp_amount_to_mint: u64,
}

/// Release reserve tokens to `recipient_address` for a withdrawal that was
/// settled on the origin chain.
#[derive(Debug, Clone, Copy)]
pub struct RemoveLiquidityCompletionPayload {
    pub original_pool_id: [u8; 32],
    pub recipient_address: [u8; 32],
    pub amount_a_to_transfer: u64,
    pub amount_b_to_transfer: u64,
}

/// A decoded completion instruction.
#[derive(Debug, Clone, Copy)]
pub enum CompletionPayload {
    AddLiquidity(AddLiquidityCompletionPayload),
    RemoveLiquidity(RemoveLiquidityCompletionPayload),
}

/// The body length that the selector `op` asks for.
pub open spec fn body_len(op: u8) -> int {
    if op == OP_ADD_LIQUIDITY {
        ADD_BODY_LEN as int
    } else {
        REMOVE_BODY_LEN as int
    }
}

/// The selector byte names a known operation.
pub open spec fn known_op(op: u8) -> bool {
    op == OP_ADD_LIQUIDITY || op == OP_REMOVE_LIQUIDITY
}

/// The error that decoding `p` gives, if any.
pub open spec fn decode_error(p: Seq<u8>) -> Option<ErrorCode> {
    if p.len() == 0 {
        Some(ErrorCode::InvalidVaaPayload)
    } else if !known_op(p[0]) {
        Some(ErrorCode::InvalidBridgeOperation)
    } else if p.len() != 1 + body_len(p[0]) {
        Some(ErrorCode::InvalidVaaPayload)
    } else {
        None
    }
}

/// The pool id that a well-formed payload names.
pub open spec fn pool_id_of(p: Seq<u8>) -> Seq<u8> {
    p.subrange(1, 33)
}

/// The recipient that a well-formed payload names.
pub open spec fn recipient_of(p: Seq<u8>) -> Seq<u8> {
    p.subrange(33, 65)
}

/// The first amount of a well-formed payload: the shares to mint, or the
/// amount of token A to release.
pub open spec fn first_amount_of(p: Seq<u8>) -> nat {
    le_value(p.subrange(65, 73))
}

/// The amount of token B that a well-formed remove-liquidity payload releases.
pub open spec fn second_amount_of(p: Seq<u8>) -> nat {
    le_value(p.subrange(73, 81))
}

/// `d` is what the well-formed payload `p` encodes.
pub open spec fn decodes_to(p: Seq<u8>, d: CompletionPayload) -> bool {
    match d {
        CompletionPayload::AddLiquidity(a) => {
            &&& p[0] == OP_ADD_LIQUIDITY
            &&& a.original_pool_id@ == pool_id_of(p)
            &&& a.recipient_address@ == recipient_of(p)
            &&& a.lp_amount_to_mint as nat == first_amount_of(p)
        },
        CompletionPayload::RemoveLiquidity(r) => {
            &&& p[0] == OP_REMOVE_LIQUIDITY
            &&& r.original_pool_id@ == pool_id_of(p)
            &&& r.recipient_address@ == recipient_of(p)
            &&& r.amount_a_to_transfer as nat == first_amount_of(p)
            &&& r.amount_b_to_transfer as nat == second_amount_of(p)
        },
    }
}

/// Relies on borsh::from_slice for `([u8; 32], [u8; 32], u64)`: it succeeds
/// exactly when the input is 72 bytes long, reads the two arrays byte for byte
/// and the integer little-endian.
#[verifier::external_body]
fn borsh_decode_add(body: &[u8]) -> (r: Option<([u8; 32], [u8; 32], u64)>)
    ensures
        r.is_some() <==> body@.len() == ADD_BODY_LEN,
        r matches Some((pool, who, n)) ==> {
            &&& pool@ == body@.subrange(0, 32)
            &&& who@ == body@.subrange(32, 64)
            &&& n as nat == le_value(body@.subrange(64, 72))
        },
{
    borsh::from_slice::<([u8; 32], [u8; 32], u64)>(body).ok()
}

/// Relies on borsh::from_slice for `([u8; 32], [u8; 32], u64, u64)`: it
/// succeeds exactly when the input is 80 bytes long, reads the two arrays byte
/// for byte and each integer little-endian.
#[verifier::external_body]
fn borsh_decode_remove(body: &[u8]) -> (r: Option<([u8; 32], [u8; 32], u64, u64)>)
    ensures
        r.is_some() <==> body@.len() == REMOVE_BODY_LEN,
        r matches Some((pool, who, a, b)) ==> {
            &&& pool@ == body@.subrange(0, 32)
            &&& who@ == body@.subrange(32, 64)
            &&& a as nat == le_value(body@.subrange(64, 72))
            &&& b as nat == le_value(body@.subrange(72, 80))
        },
{
    borsh::from_slice::<([u8; 32], [u8; 32], u64, u64)>(body).ok()
}

/// Decodes a completion payload: a selector byte followed by the
/// borsh-encoded body of that operation.
pub fn decode_payload(payload: &[u8]) -> (r: Result<CompletionPayload, ErrorCode>)
    ensures
        decode_error(payload@) matches Some(e) ==> r == Err::<CompletionPayload, ErrorCode>(e),
        decode_error(payload@) is None ==> (r matches Ok(d) && decodes_to(payload@, d)),
{
    if payload.len() == 0 {
        return Err(ErrorCode::InvalidVaaPayload);
    }
    let op = payload[0];
    let body = slice_subrange(payload, 1, payload.len());
    assert(body@ =~= payload@.subrange(1, payload@.len() as int));
    if op == OP_ADD_LIQUIDITY {
        match borsh_decode_add(body) {
            Some((pool, who, n)) => {
                assert(pool@ =~= pool_id_of(payload@));
                assert(who@ =~= recipient_of(payload@));
                assert(body@.subrange(64, 72) =~= payload@.subrange(65, 73));
                Ok(
                    CompletionPayload::AddLiquidity(
                        AddLiquidityCompletionPayload {
                            original_pool_id: pool,
                            recipient_address: who,
                            lp_amount_to_mint: n,
                        },
                    ),
                )
            },
            None => Err(ErrorCode::InvalidVaaPayload),
        }
    } else if op == OP_REMOVE_LIQUIDITY {
        match borsh_decode_remove(body) {
            Some((pool, who, a, b)) => {
                assert(pool@ =~= pool_id_of(payload@));
                assert(who@ =~= recipient_of(payload@));
                assert(body@.subrange(64, 72) =~= payload@.subrange(65, 73));
                assert(body@.subrange(72, 80) =~= payload@.subrange(73, 81));
                Ok(
                    CompletionPayload::RemoveLiquidity(
                        RemoveLiquidityCompletionPayload {
                            original_pool_id: pool,
                            recipient_address: who,
                            amount_a_to_transfer: a,
                            amount_b_to_transfer: b,
                        },
                    ),
                )
            },
            None => Err(ErrorCode::InvalidVaaPayload),
        }
    } else {
        Err(ErrorCode::InvalidBridgeOperation)
    }
}

} // verus!
