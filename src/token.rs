use vstd::prelude::*;
use crate::errors::ErrorCode;
use crate::state::{Pool, keys_equal};

verus! {

/// A token custody account: its address, the mint of the tokens it holds,
/// the key allowed to move them, and its balance.
#[derive(Debug, Clone, Copy)]
pub struct TokenAccount {
    pub key: [u8; 32],
    pub mint: [u8; 32],
    pub owner: [u8; 32],
    pub amount: u64,
}

/// A token mint: its address and the number of tokens in circulation.
#[derive(Debug, Clone, Copy)]
pub struct Mint {
    pub key: [u8; 32],
    pub supply: u64,
}

/// `a` with its balance replaced by `amount`.
pub open spec fn with_amount(a: TokenAccount, amount: int) -> TokenAccount {
    TokenAccount { amount: amount as u64, ..a }
}

/// Issues `amount` new tokens of `mint` into `destination`, under the pool's
/// signing authority. Both balances change together or not at all.
pub fn issue_shares(mint: &mut Mint, destination: &mut TokenAccount, amount: u64) -> (r: Result<
    (),
    ErrorCode,
>)
    ensures
        r == Err::<(), ErrorCode>(ErrorCode::InvalidMint) <==> old(destination).mint@
            != old(mint).key@,
        r == Err::<(), ErrorCode>(ErrorCode::Overflow) <==> (old(destination).mint@
            == old(mint).key@ && (old(mint).supply + amount > u64::MAX || old(destination).amount
            + amount > u64::MAX)),
        r is Ok <==> (old(destination).mint@ == old(mint).key@ && old(mint).supply + amount
            <= u64::MAX && old(destination).amount + amount <= u64::MAX),
        r is Ok ==> {
            &&& *final(mint) == Mint { supply: (old(mint).supply + amount) as u64, ..*old(mint) }
            &&& *final(destination) == with_amount(*old(destination), old(destination).amount + amount)
        },
        r is Err ==> *final(mint) == *old(mint) && *final(destination) == *old(destination),
{
    if !keys_equal(&destination.mint, &mint.key) {
        return Err(ErrorCode::InvalidMint);
    }
    let supply = match mint.supply.checked_add(amount) {
        Some(s) => s,
        None => return Err(ErrorCode::Overflow),
    };
    let balance = match destination.amount.checked_add(amount) {
        Some(b) => b,
        None => return Err(ErrorCode::Overflow),
    };
    mint.supply = supply;
    destination.amount = balance;
    Ok(())
}

/// The error that releasing `amount` from `reserve` into `destination` gives,
/// if any.
pub open spec fn release_error(
    pool: Pool,
    reserve: TokenAccount,
    destination: TokenAccount,
    amount: u64,
) -> Option<ErrorCode> {
    if reserve.key@ != pool.token_a_account@ && reserve.key@ != pool.token_b_account@ {
        Some(ErrorCode::InvalidPoolTokenAccount)
    } else if destination.mint@ != reserve.mint@ {
        Some(ErrorCode::InvalidMint)
    } else if amount > reserve.amount {
        Some(ErrorCode::Underflow)
    } else if destination.amount + amount > u64::MAX {
        Some(ErrorCode::Overflow)
    } else {
        None
    }
}

/// Moves `amount` tokens from one of the pool's two reserve accounts into
/// `destination`, under the pool's signing authority.
pub fn release_reserve(
    pool: &Pool,
    reserve: &mut TokenAccount,
    destination: &mut TokenAccount,
    amount: u64,
) -> (r: Result<(), ErrorCode>)
    ensures
        release_error(*pool, *old(reserve), *old(destination), amount) matches Some(e) ==> r == Err::<
            (),
            ErrorCode,
        >(e),
        release_error(*pool, *old(reserve), *old(destination), amount) is None ==> r is Ok,
        r is Ok ==> {
            &&& *final(reserve) == with_amount(*old(reserve), old(reserve).amount - amount)
            &&& *final(destination) == with_amount(*old(destination), old(destination).amount + amount)
        },
        r is Err ==> *final(reserve) == *old(reserve) && *final(destination) == *old(destination),
{
    if !keys_equal(&reserve.key, &pool.token_a_account) && !keys_equal(
        &reserve.key,
        &pool.token_b_account,
    ) {
        return Err(ErrorCode::InvalidPoolTokenAccount);
    }
    if !keys_equal(&destination.mint, &reserve.mint) {
        return Err(ErrorCode::InvalidMint);
    }
    let left = match reserve.amount.checked_sub(amount) {
        Some(v) => v,
        None => return Err(ErrorCode::Underflow),
    };
    let balance = match destination.amount.checked_add(amount) {
        Some(v) => v,
        None => return Err(ErrorCode::Overflow),
    };
    reserve.amount = left;
    destination.amount = balance;
    Ok(())
}

} // verus!
