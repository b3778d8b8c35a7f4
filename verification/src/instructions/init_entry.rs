//! Init entry: the entry of a token in a pool is opened, and with it the
//! state of the user, whose tenure counts from `now`.

use crate::accounts::Mint;
use crate::accounts::TokenAccount;
use crate::address::Address;
use crate::errors::ErrorCode;
use crate::pda::entry_seeds;
use crate::pda::seed_bytes;
use crate::pda::stake_entry_seeds;
use crate::pda::stake_state_seeds;
use crate::pda::state_seeds;
use crate::state::Achievement;
use crate::state::StakeEntry;
use crate::state::StakeEntryKind;
use crate::state::StakePool;
use crate::state::StakeState;
use vstd::prelude::*;

verus! {

/// The accounts of the opening of an entry.
#[derive(Clone, Copy, Debug, PartialEq, Eq)]
pub struct InitEntryCtx {
    /// The entry to fill in.
    pub stake_entry: StakeEntry,
    /// The bump of the entry's address.
    pub stake_entry_bump: u8,
    pub stake_pool: StakePool,
    /// The address of `stake_pool`.
    pub stake_pool_key: Address,
    pub original_mint: Mint,
    /// The user's account for the tokens of the mint.
    pub user_original_mint_token_account: TokenAccount,
    /// The state of the user to fill in.
    pub stake_state: StakeState,
    /// The bump of the state's address.
    pub stake_state_bump: u8,
}

/// The seeds of the addresses at which an entry and the state of its user
/// are opened.
#[derive(Clone, Debug, PartialEq, Eq)]
pub struct EntrySeeds {
    pub stake_entry: Vec<Vec<u8>>,
    pub stake_state: Vec<Vec<u8>>,
}

impl InitEntryCtx {
    /// The entry as it is opened: of this pool and this mint, with nothing
    /// staked and no time counted.
    pub open spec fn fresh_entry(self) -> StakeEntry {
        StakeEntry {
            bump: self.stake_entry_bump,
            pool: self.stake_pool_key,
            amount: 0,
            original_mint: self.original_mint.key,
            original_mint_claimed: false,
            last_staker: Address::zero(),
            last_staked_at: 0,
            total_stake_seconds: 0,
            stake_mint_claimed: false,
            kind: StakeEntryKind::Permissionless.spec_code(),
            stake_mint: None,
            cooldown_start_seconds: None,
        }
    }

    /// The state of the user as it is opened at `now`: at the lowest level.
    pub open spec fn fresh_state(self, now: i64) -> StakeState {
        StakeState {
            bump: self.stake_state_bump,
            stake_start: now,
            resting_level: 0,
            token_account: self.user_original_mint_token_account.key,
            original_mint: self.original_mint.key,
            pool: self.stake_pool_key,
            achievement_level: Achievement::DoughBoy,
        }
    }

    /// The accounts once the entry is opened at `now`.
    pub open spec fn opened(self, now: i64) -> InitEntryCtx {
        InitEntryCtx {
            stake_entry: self.fresh_entry(),
            stake_state: self.fresh_state(now),
            ..self
        }
    }
}

/// What the opening of an entry for `user` at `now` does to accounts that
/// were `before`: in a pool that has ended it is refused and changes
/// nothing; else entry and state are fresh, and the seeds of their
/// addresses are handed out.
pub open spec fn init_entry_result(
    before: InitEntryCtx,
    after: InitEntryCtx,
    outcome: Result<EntrySeeds, ErrorCode>,
    user: Address,
    now: i64,
) -> bool {
    match outcome {
        Ok(seeds) => {
            &&& !before.stake_pool.has_ended(now)
            &&& after == before.opened(now)
            &&& seed_bytes(seeds.stake_entry@) == stake_entry_seeds(
                before.stake_pool_key,
                before.original_mint.key,
                before.original_mint.supply,
                user,
            )
            &&& seed_bytes(seeds.stake_state@) == stake_state_seeds(user, before.original_mint.key)
        },
        Err(code) => {
            &&& before.stake_pool.has_ended(now)
            &&& code == ErrorCode::StakePoolHasEnded
            &&& after == before
        },
    }
}

/// Opens the entry for `user` at `now`.
pub fn handler(ctx: &mut InitEntryCtx, user: Address, now: i64) -> (outcome: Result<
    EntrySeeds,
    ErrorCode,
>)
    ensures
        init_entry_result(*old(ctx), *final(ctx), outcome, user, now),
        outcome is Ok ==> final(ctx).stake_state.consistent(),
{
    if let Some(end) = ctx.stake_pool.end_date {
        if now > end {
            return Err(ErrorCode::StakePoolHasEnded);
        }
    }
    let seeds = EntrySeeds {
        stake_entry: entry_seeds(
            &ctx.stake_pool_key,
            &ctx.original_mint.key,
            ctx.original_mint.supply,
            &user,
        ),
        stake_state: state_seeds(&user, &ctx.original_mint.key),
    };
    ctx.stake_entry = StakeEntry {
        bump: ctx.stake_entry_bump,
        pool: ctx.stake_pool_key,
        amount: 0,
        original_mint: ctx.original_mint.key,
        original_mint_claimed: false,
        last_staker: Address::default(),
        last_staked_at: 0,
        total_stake_seconds: 0,
        stake_mint_claimed: false,
        kind: StakeEntryKind::Permissionless.code(),
        stake_mint: None,
        cooldown_start_seconds: None,
    };
    ctx.stake_state = StakeState {
        bump: ctx.stake_state_bump,
        stake_start: now,
        resting_level: 0,
        token_account: ctx.user_original_mint_token_account.key,
        original_mint: ctx.original_mint.key,
        pool: ctx.stake_pool_key,
        achievement_level: Achievement::DoughBoy,
    };
    Ok(seeds)
}

} // verus!
