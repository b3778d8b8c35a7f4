//! Calculate reward: the user's resting level and achievement are brought
//! up to `now`.

use crate::accounts::Mint;
use crate::accounts::TokenAccount;
use crate::address::Address;
use crate::errors::ErrorCode;
use crate::state::achievement_for_level;
use crate::state::achievement_of;
use crate::state::derive_resting_level;
use crate::state::resting_level;
use crate::state::RestThresholds;
use crate::state::StakeEntry;
use crate::state::StakeState;
use vstd::prelude::*;

verus! {

/// The accounts of a reward calculation.
#[derive(Clone, Copy, Debug, PartialEq, Eq)]
pub struct RewardCtx {
    pub stake_entry: StakeEntry,
    /// Who signed.
    pub user: Address,
    pub user_original_mint_token_account: TokenAccount,
    pub original_mint: Mint,
    pub stake_state: StakeState,
}

impl StakeState {
    /// The state with level and achievement as they are at `now`: the
    /// level of the tenure since the entry was opened, and the tag of that
    /// level.
    pub open spec fn rewarded(self, now: i64, levels: Seq<i64>) -> StakeState {
        let level = resting_level(now - self.stake_start, levels);
        StakeState { resting_level: level, achievement_level: achievement_of(level), ..self }
    }
}

impl RewardCtx {
    /// Why the calculation is refused, if it is: the first of the reasons
    /// in this order.
    pub open spec fn rejection(self) -> Option<ErrorCode> {
        if !self.user_original_mint_token_account.holds_token_of(
            self.stake_entry.original_mint,
            self.user,
        ) {
            Some(ErrorCode::InvalidUserOriginalMintTokenAccount)
        } else if self.stake_state.token_account != self.user_original_mint_token_account.key {
            Some(ErrorCode::InvalidStakeEntryOriginalMintTokenAccount)
        } else {
            None
        }
    }

    /// The accounts once the calculation is done at `now`.
    pub open spec fn rewarded(self, now: i64, levels: Seq<i64>) -> RewardCtx {
        RewardCtx { stake_state: self.stake_state.rewarded(now, levels), ..self }
    }
}

/// What a reward calculation at `now` does to accounts that were `before`:
/// it is refused and changes nothing, or it leaves the user's state
/// rewarded.
pub open spec fn reward_result(
    before: RewardCtx,
    after: RewardCtx,
    outcome: Result<(), ErrorCode>,
    now: i64,
    levels: Seq<i64>,
) -> bool {
    match outcome {
        Ok(_) => before.rejection() is None && after == before.rewarded(now, levels),
        Err(code) => before.rejection() == Some(code) && after == before,
    }
}

/// After a reward calculation the level is one of the six and the
/// achievement is the tag of the level.
pub proof fn lemma_rewarded_is_consistent(state: StakeState, now: i64, levels: Seq<i64>)
    ensures
        state.rewarded(now, levels).consistent(),
        state.rewarded(now, levels).resting_level <= 5,
{
}

/// A second reward calculation at the same time is accepted as the first
/// was and changes nothing.
pub proof fn lemma_reward_is_idempotent(ctx: RewardCtx, now: i64, levels: Seq<i64>)
    ensures
        ctx.rewarded(now, levels).rejection() == ctx.rejection(),
        ctx.rewarded(now, levels).rewarded(now, levels) == ctx.rewarded(now, levels),
{
}

/// Brings the user's resting level and achievement up to `now`.
pub fn handler(ctx: &mut RewardCtx, now: i64, levels: &RestThresholds) -> (outcome: Result<
    (),
    ErrorCode,
>)
    ensures
        reward_result(*old(ctx), *final(ctx), outcome, now, levels@),
        outcome is Ok ==> final(ctx).stake_state.consistent(),
{
    if !ctx.user_original_mint_token_account.holds(&ctx.stake_entry.original_mint, &ctx.user) {
        return Err(ErrorCode::InvalidUserOriginalMintTokenAccount);
    }
    if ctx.stake_state.token_account != ctx.user_original_mint_token_account.key {
        return Err(ErrorCode::InvalidStakeEntryOriginalMintTokenAccount);
    }
    let level: u8 = derive_resting_level(ctx.stake_state.stake_start, now, levels);
    match achievement_for_level(level) {
        Ok(tag) => {
            ctx.stake_state.resting_level = level;
            ctx.stake_state.achievement_level = tag;
            Ok(())
        },
        Err(code) => Err(code),
    }
}

} // verus!
