use liquidity_pool::errors::ErrorCode;
use liquidity_pool::instructions::create_pool::{self, CreatePool, CreatePoolBumps};
use liquidity_pool::instructions::process_vaa::{self, PostedVaa, ProcessVAA};
use liquidity_pool::payloads::{decode_payload, CompletionPayload};
use liquidity_pool::registry::{BridgeStatus, MessageId, Registry};
use liquidity_pool::state::{keys_equal, Pool, PoolStatus};
use liquidity_pool::token::{issue_shares, release_reserve, Mint, TokenAccount};

const POOL_ID: [u8; 32] = [0xAA; 32];
const EMITTER: [u8; 32] = [0xBB; 32];
const RECIPIENT: [u8; 32] = [0x52; 32];
const AUTHORITY: [u8; 32] = [0x01; 32];
const MINT_A: [u8; 32] = [0x02; 32];
const MINT_B: [u8; 32] = [0x03; 32];
const LP_MINT: [u8; 32] = [0x04; 32];
const RESERVE_A: [u8; 32] = [0x05; 32];
const RESERVE_B: [u8; 32] = [0x06; 32];

fn new_pool() -> Pool {
    let ctx = CreatePool {
        creator: [0x09; 32],
        pool_authority: AUTHORITY,
        token_a_mint: MINT_A,
        token_b_mint: MINT_B,
        lp_mint: LP_MINT,
        token_a_account: RESERVE_A,
        token_b_account: RESERVE_B,
        bumps: CreatePoolBumps {
            pool: 255,
            pool_authority: 254,
            lp_mint: 253,
            token_a_account: 252,
            token_b_account: 251,
        },
        now: 100,
    };
    create_pool::handler(&ctx, 30, POOL_ID)
}

fn account(key: u8, mint: [u8; 32], owner: [u8; 32], amount: u64) -> TokenAccount {
    TokenAccount { key: [key; 32], mint, owner, amount }
}

fn add_payload(pool_id: [u8; 32], recipient: [u8; 32], amount: u64) -> Vec<u8> {
    let mut p = vec![0u8];
    p.extend_from_slice(&pool_id);
    p.extend_from_slice(&recipient);
    p.extend_from_slice(&amount.to_le_bytes());
    p
}

fn remove_payload(pool_id: [u8; 32], recipient: [u8; 32], a: u64, b: u64) -> Vec<u8> {
    let mut p = vec![1u8];
    p.extend_from_slice(&pool_id);
    p.extend_from_slice(&recipient);
    p.extend_from_slice(&a.to_le_bytes());
    p.extend_from_slice(&b.to_le_bytes());
    p
}

fn context(sequence: u64, payload: Vec<u8>) -> ProcessVAA {
    ProcessVAA {
        posted_vaa: PostedVaa { emitter_chain: 21, emitter_address: EMITTER, sequence, payload },
        registry: Registry::new(),
        pool: new_pool(),
        pool_authority: AUTHORITY,
        token_a_account: account(0x05, MINT_A, AUTHORITY, 5_000),
        token_b_account: account(0x06, MINT_B, AUTHORITY, 7_000),
        lp_mint: Mint { key: LP_MINT, supply: 0 },
        recipient: RECIPIENT,
        recipient_lp_token_account: account(0x11, LP_MINT, RECIPIENT, 0),
        recipient_token_a_account: account(0x12, MINT_A, RECIPIENT, 0),
        recipient_token_b_account: account(0x13, MINT_B, RECIPIENT, 0),
        now: 200,
    }
}

fn id_of(ctx: &ProcessVAA) -> MessageId {
    ctx.posted_vaa.message_id()
}

#[test]
fn create_pool_initializes_empty_active_pool() {
    let pool = new_pool();
    assert_eq!(pool.pool_id, POOL_ID);
    assert_eq!(pool.authority, AUTHORITY);
    assert_eq!(pool.token_a_mint, MINT_A);
    assert_eq!(pool.token_b_mint, MINT_B);
    assert_eq!(pool.token_a_account, RESERVE_A);
    assert_eq!(pool.token_b_account, RESERVE_B);
    assert_eq!(pool.lp_mint, LP_MINT);
    assert_eq!(pool.fee_percentage, 30);
    assert_eq!(pool.total_liquidity, 0);
    assert_eq!(pool.protocol_fee_a, 0);
    assert_eq!(pool.protocol_fee_b, 0);
    assert_eq!(pool.status, PoolStatus::Active);
    assert_eq!(pool.last_updated_at, 100);
    assert_eq!(pool.bump, 255);
    assert_eq!(pool.lp_mint_bump, 253);
    assert_eq!(pool.token_a_bump, 252);
    assert_eq!(pool.token_b_bump, 251);
}

#[test]
fn add_completion_scenario_and_replay() {
    let mut ctx = context(1, add_payload(POOL_ID, RECIPIENT, 1000));
    assert_eq!(process_vaa::handler(&mut ctx), Ok(()));
    assert_eq!(ctx.pool.total_liquidity, 1000);
    assert_eq!(ctx.recipient_lp_token_account.amount, 1000);
    assert_eq!(ctx.lp_mint.supply, 1000);
    assert_eq!(ctx.pool.last_updated_at, 200);
    assert!(ctx.registry.is_processed(&id_of(&ctx)));
    assert_eq!(ctx.registry.entries.len(), 1);
    assert_eq!(ctx.registry.entries[0].status, BridgeStatus::Completed);
    assert_eq!(ctx.registry.entries[0].id.sequence, 1);
    assert_eq!(process_vaa::handler(&mut ctx), Err(ErrorCode::VaaAlreadyProcessed));
    assert_eq!(ctx.pool.total_liquidity, 1000);
    assert_eq!(ctx.recipient_lp_token_account.amount, 1000);
}

#[test]
fn replay_rejected_with_changed_payload() {
    let mut ctx = context(3, add_payload(POOL_ID, RECIPIENT, 10));
    assert_eq!(process_vaa::handler(&mut ctx), Ok(()));
    ctx.posted_vaa.payload = remove_payload(POOL_ID, RECIPIENT, 1, 1);
    assert_eq!(process_vaa::handler(&mut ctx), Err(ErrorCode::VaaAlreadyProcessed));
    assert_eq!(ctx.token_a_account.amount, 5_000);
}

#[test]
fn next_sequence_is_applied() {
    let mut ctx = context(1, add_payload(POOL_ID, RECIPIENT, 10));
    assert_eq!(process_vaa::handler(&mut ctx), Ok(()));
    ctx.posted_vaa.sequence = 2;
    assert_eq!(process_vaa::handler(&mut ctx), Ok(()));
    assert_eq!(ctx.pool.total_liquidity, 20);
    assert_eq!(ctx.registry.entries.len(), 2);
}

#[test]
fn remove_completion_moves_both_reserves() {
    let mut ctx = context(4, remove_payload(POOL_ID, RECIPIENT, 1_200, 3_400));
    assert_eq!(process_vaa::handler(&mut ctx), Ok(()));
    assert_eq!(ctx.token_a_account.amount, 3_800);
    assert_eq!(ctx.token_b_account.amount, 3_600);
    assert_eq!(ctx.recipient_token_a_account.amount, 1_200);
    assert_eq!(ctx.recipient_token_b_account.amount, 3_400);
    assert_eq!(ctx.pool.total_liquidity, 0);
    assert!(ctx.registry.is_processed(&id_of(&ctx)));
}

#[test]
fn failed_second_release_leaves_everything_unchanged() {
    let mut ctx = context(5, remove_payload(POOL_ID, RECIPIENT, 1_000, 7_001));
    assert_eq!(process_vaa::handler(&mut ctx), Err(ErrorCode::Underflow));
    assert_eq!(ctx.token_a_account.amount, 5_000);
    assert_eq!(ctx.recipient_token_a_account.amount, 0);
    assert_eq!(ctx.token_b_account.amount, 7_000);
    assert!(!ctx.registry.is_processed(&id_of(&ctx)));
    ctx.posted_vaa.payload = remove_payload(POOL_ID, RECIPIENT, 1_000, 7_000);
    assert_eq!(process_vaa::handler(&mut ctx), Ok(()));
    assert_eq!(ctx.token_b_account.amount, 0);
}

#[test]
fn zero_mint_rejected() {
    let mut ctx = context(6, add_payload(POOL_ID, RECIPIENT, 0));
    assert_eq!(process_vaa::handler(&mut ctx), Err(ErrorCode::ZeroLiquidityMinted));
    assert!(!ctx.registry.is_processed(&id_of(&ctx)));
}

#[test]
fn zero_release_consumes_message_only() {
    let mut ctx = context(7, remove_payload(POOL_ID, RECIPIENT, 0, 0));
    assert_eq!(process_vaa::handler(&mut ctx), Ok(()));
    assert_eq!(ctx.token_a_account.amount, 5_000);
    assert_eq!(ctx.token_b_account.amount, 7_000);
    assert!(ctx.registry.is_processed(&id_of(&ctx)));
}

#[test]
fn pool_id_mismatch_rejected() {
    let mut ctx = context(8, add_payload([0xAB; 32], RECIPIENT, 5));
    assert_eq!(process_vaa::handler(&mut ctx), Err(ErrorCode::PoolIdMismatch));
    assert_eq!(ctx.pool.total_liquidity, 0);
    assert!(!ctx.registry.is_processed(&id_of(&ctx)));
}

#[test]
fn recipient_mismatch_rejected() {
    let mut ctx = context(9, remove_payload(POOL_ID, [0x77; 32], 5, 5));
    assert_eq!(process_vaa::handler(&mut ctx), Err(ErrorCode::RecipientMismatch));
    assert_eq!(ctx.token_a_account.amount, 5_000);
    assert!(!ctx.registry.is_processed(&id_of(&ctx)));
}

#[test]
fn empty_payload_rejected() {
    let mut ctx = context(10, Vec::new());
    assert_eq!(process_vaa::handler(&mut ctx), Err(ErrorCode::InvalidVaaPayload));
}

#[test]
fn unknown_selector_rejected() {
    let mut payload = add_payload(POOL_ID, RECIPIENT, 5);
    payload[0] = 2;
    let mut ctx = context(11, payload);
    assert_eq!(process_vaa::handler(&mut ctx), Err(ErrorCode::InvalidBridgeOperation));
}

#[test]
fn truncated_and_trailing_payloads_rejected() {
    let mut short = add_payload(POOL_ID, RECIPIENT, 5);
    short.pop();
    let mut ctx = context(12, short);
    assert_eq!(process_vaa::handler(&mut ctx), Err(ErrorCode::InvalidVaaPayload));
    let mut long = remove_payload(POOL_ID, RECIPIENT, 5, 5);
    long.push(0);
    let mut ctx = context(13, long);
    assert_eq!(process_vaa::handler(&mut ctx), Err(ErrorCode::InvalidVaaPayload));
}

#[test]
fn paused_pool_rejected() {
    let mut ctx = context(14, add_payload(POOL_ID, RECIPIENT, 5));
    ctx.pool.status = PoolStatus::Paused;
    assert_eq!(process_vaa::handler(&mut ctx), Err(ErrorCode::PoolPaused));
    assert_eq!(ctx.lp_mint.supply, 0);
}

#[test]
fn share_supply_overflow_rejected() {
    let mut ctx = context(15, add_payload(POOL_ID, RECIPIENT, 2));
    ctx.pool.total_liquidity = u64::MAX - 1;
    assert_eq!(process_vaa::handler(&mut ctx), Err(ErrorCode::Overflow));
    assert_eq!(ctx.lp_mint.supply, 0);
    assert_eq!(ctx.recipient_lp_token_account.amount, 0);
}

#[test]
fn recipient_balance_overflow_rejected() {
    let mut ctx = context(16, remove_payload(POOL_ID, RECIPIENT, 1, 0));
    ctx.recipient_token_a_account.amount = u64::MAX;
    assert_eq!(process_vaa::handler(&mut ctx), Err(ErrorCode::Overflow));
}

#[test]
fn account_checks() {
    let mut ctx = context(17, add_payload(POOL_ID, RECIPIENT, 5));
    ctx.pool_authority = [0x99; 32];
    assert_eq!(process_vaa::handler(&mut ctx), Err(ErrorCode::InvalidAuthority));

    let mut ctx = context(17, add_payload(POOL_ID, RECIPIENT, 5));
    ctx.token_b_account.key = [0x99; 32];
    assert_eq!(process_vaa::handler(&mut ctx), Err(ErrorCode::InvalidPoolTokenAccount));

    let mut ctx = context(17, add_payload(POOL_ID, RECIPIENT, 5));
    ctx.lp_mint.key = [0x99; 32];
    assert_eq!(process_vaa::handler(&mut ctx), Err(ErrorCode::InvalidMint));

    let mut ctx = context(17, add_payload(POOL_ID, RECIPIENT, 5));
    ctx.recipient_token_a_account.mint = MINT_B;
    assert_eq!(process_vaa::handler(&mut ctx), Err(ErrorCode::InvalidMint));

    let mut ctx = context(17, add_payload(POOL_ID, RECIPIENT, 5));
    ctx.recipient_lp_token_account.owner = [0x99; 32];
    assert_eq!(process_vaa::handler(&mut ctx), Err(ErrorCode::InvalidOwner));

    let mut ctx = context(17, add_payload(POOL_ID, RECIPIENT, 5));
    ctx.recipient_token_a_account.key = RESERVE_A;
    assert_eq!(process_vaa::handler(&mut ctx), Err(ErrorCode::InvalidPoolTokenAccount));
}

#[test]
fn decode_reads_fields_little_endian() {
    let payload = remove_payload([0x10; 32], [0x20; 32], 0x0102_0304_0506_0708, 9);
    match decode_payload(&payload) {
        Ok(CompletionPayload::RemoveLiquidity(r)) => {
            assert_eq!(r.original_pool_id, [0x10; 32]);
            assert_eq!(r.recipient_address, [0x20; 32]);
            assert_eq!(r.amount_a_to_transfer, 0x0102_0304_0506_0708);
            assert_eq!(r.amount_b_to_transfer, 9);
        }
        _ => panic!("expected a remove-liquidity completion"),
    }
    match decode_payload(&add_payload([0x10; 32], [0x20; 32], 1000)) {
        Ok(CompletionPayload::AddLiquidity(a)) => {
            assert_eq!(a.original_pool_id, [0x10; 32]);
            assert_eq!(a.recipient_address, [0x20; 32]);
            assert_eq!(a.lp_amount_to_mint, 1000);
        }
        _ => panic!("expected an add-liquidity completion"),
    }
    assert_eq!(decode_payload(&[0u8]).err(), Some(ErrorCode::InvalidVaaPayload));
}

#[test]
fn pool_share_operations() {
    let mut pool = new_pool();
    assert_eq!(pool.require_active(), Ok(()));
    assert_eq!(pool.apply_share_issue(0, 300), Err(ErrorCode::ZeroLiquidityMinted));
    assert_eq!(pool.apply_share_issue(50, 300), Ok(()));
    assert_eq!(pool.total_liquidity, 50);
    assert_eq!(pool.last_updated_at, 300);
    assert_eq!(pool.apply_share_burn(0, 400), Err(ErrorCode::ZeroLiquidityBurned));
    assert_eq!(pool.apply_share_burn(51, 400), Err(ErrorCode::Underflow));
    assert_eq!(pool.last_updated_at, 300);
    assert_eq!(pool.apply_share_burn(20, 400), Ok(()));
    assert_eq!(pool.total_liquidity, 30);
    assert_eq!(pool.last_updated_at, 400);
    pool.total_liquidity = u64::MAX;
    assert_eq!(pool.apply_share_issue(1, 500), Err(ErrorCode::Overflow));
    pool.status = PoolStatus::Paused;
    assert_eq!(pool.require_active(), Err(ErrorCode::PoolPaused));
}

#[test]
fn token_primitives() {
    let pool = new_pool();
    let mut mint = Mint { key: LP_MINT, supply: 10 };
    let mut dest = account(0x11, LP_MINT, RECIPIENT, 1);
    assert_eq!(issue_shares(&mut mint, &mut dest, 5), Ok(()));
    assert_eq!(mint.supply, 15);
    assert_eq!(dest.amount, 6);
    let mut wrong = account(0x12, MINT_A, RECIPIENT, 0);
    assert_eq!(issue_shares(&mut mint, &mut wrong, 5), Err(ErrorCode::InvalidMint));

    let mut reserve = account(0x05, MINT_A, AUTHORITY, 100);
    let mut to = account(0x12, MINT_A, RECIPIENT, 0);
    assert_eq!(release_reserve(&pool, &mut reserve, &mut to, 40), Ok(()));
    assert_eq!(reserve.amount, 60);
    assert_eq!(to.amount, 40);
    let mut stranger = account(0x44, MINT_A, AUTHORITY, 100);
    assert_eq!(
        release_reserve(&pool, &mut stranger, &mut to, 1),
        Err(ErrorCode::InvalidPoolTokenAccount)
    );
}

#[test]
fn registry_commit_and_lookup() {
    let mut registry = Registry::new();
    let id = MessageId { emitter_chain: 21, emitter_address: EMITTER, sequence: 1 };
    let other = MessageId { emitter_chain: 21, emitter_address: EMITTER, sequence: 2 };
    assert!(!registry.is_processed(&id));
    registry.commit(id, vec![1, 2, 3]);
    assert!(registry.is_processed(&id));
    assert!(!registry.is_processed(&other));
    assert_eq!(registry.entries[0].payload, vec![1, 2, 3]);
    assert!(keys_equal(&EMITTER, &[0xBB; 32]));
    assert!(!keys_equal(&EMITTER, &POOL_ID));
}

#[test]
fn error_messages() {
    assert_eq!(ErrorCode::VaaAlreadyProcessed.message(), "This VAA has already been processed.");
    assert_eq!(ErrorCode::PoolPaused.message(), "The specified pool is paused.");
}

#[test]
fn scenario_fresh_pool_mints_once() {
    let mut ctx = context(1, add_payload([0xAA; 32], RECIPIENT, 1000));
    ctx.token_a_account.amount = 0;
    ctx.token_b_account.amount = 0;
    ctx.posted_vaa.emitter_chain = 21;
    ctx.posted_vaa.emitter_address = [0xBB; 32];
    assert_eq!(ctx.pool.pool_id, [0xAA; 32]);
    assert_eq!(ctx.pool.total_liquidity, 0);
    assert_eq!(process_vaa::handler(&mut ctx), Ok(()));
    assert_eq!(ctx.pool.total_liquidity, 1000);
    assert_eq!(ctx.recipient_lp_token_account.amount, 1000);
    let id = MessageId { emitter_chain: 21, emitter_address: [0xBB; 32], sequence: 1 };
    assert!(ctx.registry.is_processed(&id));
    assert_eq!(ctx.registry.entries[0].status, BridgeStatus::Completed);
    assert_eq!(process_vaa::handler(&mut ctx), Err(ErrorCode::VaaAlreadyProcessed));
    assert_eq!(ctx.pool.total_liquidity, 1000);
    assert_eq!(ctx.recipient_lp_token_account.amount, 1000);
}
