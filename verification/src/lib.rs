//! Staking of one-of-one tokens that stay, frozen, in their owner's wallet.
//!
//! A pool sets the policy for the tokens of one mint. A token has an entry
//! in the pool, which counts for how long it has been staked; its holder
//! has a state, which says what that tenure has earned. The instructions
//! below work on plain copies of those records and of the accounts around
//! them: each says whether it accepts, leaves the records as they are to be
//! stored, and lists the calls into the token and the metadata program that
//! have to follow.

pub mod accounts;
pub mod address;
pub mod custody;
pub mod errors;
pub mod instructions;
pub mod lifecycle;
pub mod pda;
pub mod state;
pub mod token_metadata;

use crate::address::Address;
use crate::custody::Action;
use crate::errors::ErrorCode;
use crate::instructions::calculate_reward::reward_result;
use crate::instructions::calculate_reward::RewardCtx;
use crate::instructions::init_entry::init_entry_result;
use crate::instructions::init_entry::EntrySeeds;
use crate::instructions::init_entry::InitEntryCtx;
use crate::instructions::init_identifier::init_identifier_result;
use crate::instructions::init_identifier::InitIdentifierCtx;
use crate::instructions::init_pool::init_pool_result;
use crate::instructions::init_pool::InitPoolCtx;
use crate::instructions::init_pool::InitPoolIx;
use crate::instructions::stake::stake_result;
use crate::instructions::stake::StakeCtx;
use crate::instructions::unstake::unstake_result;
use crate::instructions::unstake::UnstakeCtx;
use crate::state::RestThresholds;
use vstd::prelude::*;

verus! {

/// Opens the counter of pools at zero.
pub fn init_identifier(ctx: &mut InitIdentifierCtx) -> (outcome: Result<Vec<Vec<u8>>, ErrorCode>)
    ensures
        init_identifier_result(*old(ctx), *final(ctx), outcome),
{
    instructions::init_identifier::handler(ctx)
}

/// Opens a pool with the policy `ix`, for `chief` and nobody else.
pub fn init_pool(ctx: &mut InitPoolCtx, ix: InitPoolIx, chief: &Address) -> (outcome: Result<
    Vec<Vec<u8>>,
    ErrorCode,
>)
    ensures
        init_pool_result(*old(ctx), *final(ctx), outcome, ix, *chief),
{
    instructions::init_pool::handler(ctx, ix, chief)
}

/// Opens the entry of a token for `user` at `now`, and the user's state.
pub fn init_entry(ctx: &mut InitEntryCtx, user: Address, now: i64) -> (outcome: Result<
    EntrySeeds,
    ErrorCode,
>)
    ensures
        init_entry_result(*old(ctx), *final(ctx), outcome, user, now),
        outcome is Ok ==> final(ctx).stake_state.consistent(),
{
    instructions::init_entry::handler(ctx, user, now)
}

/// Stakes `amount` at `now`.
pub fn stake(ctx: &mut StakeCtx, amount: u64, now: i64) -> (outcome: Result<Vec<Action>, ErrorCode>)
    ensures
        stake_result(*old(ctx), *final(ctx), outcome, amount, now, old(ctx).edition_verdict()),
        outcome is Ok ==> old(ctx).original_mint.decimals == 0 && old(ctx).original_mint.supply
            == 1,
{
    instructions::stake::handler(ctx, amount, now)
}

/// Unstakes at `now`, or starts the cooldown.
pub fn unstake(ctx: &mut UnstakeCtx, now: i64) -> (outcome: Result<Vec<Action>, ErrorCode>)
    ensures
        unstake_result(*old(ctx), *final(ctx), outcome, now, old(ctx).edition_verdict()),
{
    instructions::unstake::handler(ctx, now)
}

/// Brings a user's resting level and achievement up to `now`.
pub fn calculate_reward(ctx: &mut RewardCtx, now: i64, levels: &RestThresholds) -> (outcome: Result<
    (),
    ErrorCode,
>)
    ensures
        reward_result(*old(ctx), *final(ctx), outcome, now, levels@),
        outcome is Ok ==> final(ctx).stake_state.consistent(),
{
    instructions::calculate_reward::handler(ctx, now, levels)
}

} // verus!
