//! Init pool: the chief opens the pool of a mint and sets its policy.

use crate::accounts::Mint;
use crate::address::Address;
use crate::errors::ErrorCode;
use crate::pda::pool_seeds;
use crate::pda::seed_bytes;
use crate::pda::stake_pool_seeds;
use crate::state::StakePool;
use vstd::prelude::*;

verus! {

/// The accounts of the opening of a pool.
#[derive(Clone, Copy, Debug, PartialEq, Eq)]
pub struct InitPoolCtx {
    /// The pool to fill in.
    pub stake_pool: StakePool,
    /// The bump of the pool's address.
    pub stake_pool_bump: u8,
    pub original_mint: Mint,
    /// Who signed.
    pub authority: Address,
}

/// The policy of the pool to open.
#[derive(Clone, Debug, PartialEq, Eq)]
pub struct InitPoolIx {
    pub requires_collections: Vec<Address>,
    pub requires_authorization: bool,
    pub authority: Address,
    pub reset_on_stake: bool,
    pub cooldown_seconds: Option<u32>,
    pub min_stake_seconds: Option<u32>,
    pub end_date: Option<i64>,
}

impl InitPoolIx {
    /// The pool that this policy opens at an address with bump `bump`: it
    /// holds no stake.
    pub open spec fn pool(self, bump: u8) -> StakePool {
        StakePool {
            bump,
            authority: self.authority,
            requires_authorization: self.requires_authorization,
            reset_on_stake: self.reset_on_stake,
            total_staked: 0,
            cooldown_seconds: self.cooldown_seconds,
            min_stake_seconds: self.min_stake_seconds,
            end_date: self.end_date,
        }
    }
}

/// What the opening of a pool does to accounts that were `before`, where
/// `chief` alone may open pools: unless both the signer and the authority
/// to be are the chief it is refused and changes nothing; else the pool is
/// as the policy says, and the seeds of its address are handed out.
pub open spec fn init_pool_result(
    before: InitPoolCtx,
    after: InitPoolCtx,
    outcome: Result<Vec<Vec<u8>>, ErrorCode>,
    ix: InitPoolIx,
    chief: Address,
) -> bool {
    match outcome {
        Ok(seeds) => {
            &&& before.authority == chief
            &&& ix.authority == chief
            &&& after == (InitPoolCtx { stake_pool: ix.pool(before.stake_pool_bump), ..before })
            &&& seed_bytes(seeds@) == stake_pool_seeds(before.original_mint.key)
        },
        Err(code) => {
            &&& !(before.authority == chief && ix.authority == chief)
            &&& code == ErrorCode::InvalidAuthority
            &&& after == before
        },
    }
}

/// Opens the pool.
pub fn handler(ctx: &mut InitPoolCtx, ix: InitPoolIx, chief: &Address) -> (outcome: Result<
    Vec<Vec<u8>>,
    ErrorCode,
>)
    ensures
        init_pool_result(*old(ctx), *final(ctx), outcome, ix, *chief),
{
    if ctx.authority != *chief {
        return Err(ErrorCode::InvalidAuthority);
    }
    if ix.authority != *chief {
        return Err(ErrorCode::InvalidAuthority);
    }
    let seeds = pool_seeds(&ctx.original_mint.key);
    ctx.stake_pool.bump = ctx.stake_pool_bump;
    ctx.stake_pool.requires_authorization = ix.requires_authorization;
    ctx.stake_pool.authority = ix.authority;
    ctx.stake_pool.reset_on_stake = ix.reset_on_stake;
    ctx.stake_pool.cooldown_seconds = ix.cooldown_seconds;
    ctx.stake_pool.min_stake_seconds = ix.min_stake_seconds;
    ctx.stake_pool.end_date = ix.end_date;
    ctx.stake_pool.total_staked = 0;
    Ok(seeds)
}

} // verus!
