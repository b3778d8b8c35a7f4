//! Unstake: in a pool with a cooldown the first call starts the cooldown
//! and the token stays frozen; the call that finds the cooldown over, or a
//! pool without one, thaws the token account, takes the delegation back and
//! closes the user's state.

use crate::accounts::CpiContext;
use crate::accounts::EditionAccount;
use crate::accounts::Mint;
use crate::accounts::Revoke;
use crate::accounts::TokenAccount;
use crate::address::Address;
use crate::custody::action_views;
use crate::custody::Action;
use crate::custody::ActionView;
use crate::errors::ErrorCode;
use crate::pda::authority_signer_seeds;
use crate::pda::program_authority_signer_seeds;
use crate::state::accumulate;
use crate::state::StakeEntry;
use crate::state::StakeEntryKind;
use crate::state::StakePool;
use crate::state::StakeState;
use crate::token_metadata::delegated_account_instruction;
use crate::token_metadata::is_master_edition;
use crate::token_metadata::master_edition_verdict;
use crate::token_metadata::metadata_program;
use crate::token_metadata::metadata_program_id;
use crate::token_metadata::thaw_delegated_account;
use crate::token_metadata::THAW_DELEGATED_ACCOUNT;
use vstd::prelude::*;

verus! {

/// The accounts of an unstake.
#[derive(Clone, Debug, PartialEq, Eq)]
pub struct UnstakeCtx {
    pub stake_pool: StakePool,
    /// The address of `stake_pool`.
    pub stake_pool_key: Address,
    pub stake_entry: StakeEntry,
    /// The principal in whose name the program freezes and thaws.
    pub program_authority: Address,
    /// The bump of that principal's address.
    pub program_authority_bump: u8,
    pub original_mint: Mint,
    pub master_edition: EditionAccount,
    /// Who signed.
    pub user: Address,
    pub user_original_mint_token_account: TokenAccount,
    pub stake_state: StakeState,
    pub token_program: Address,
    pub metadata_program: Address,
}

/// What an unstake comes to.
pub enum UnstakeStep {
    /// It is refused.
    Refused(ErrorCode),
    /// It starts the cooldown and leaves the token frozen.
    BeginCooldown,
    /// It takes the stake out.
    Finalize,
}

impl UnstakeCtx {
    /// What the metadata program says of the edition account and the mint.
    pub open spec fn edition_verdict(self) -> bool {
        master_edition_verdict(
            self.master_edition.owner@,
            self.master_edition.data@,
            self.original_mint.decimals,
            self.original_mint.supply,
        )
    }

    /// The accounts are the ones that an unstake is to be given: the entry
    /// is of the pool, the edition is the master edition of the mint, the
    /// signer is the last staker and holds the token, and the metadata
    /// program is the canonical one.
    pub open spec fn accounts_in_order(self, master_edition: bool) -> bool {
        &&& self.stake_entry.pool == self.stake_pool_key
        &&& master_edition
        &&& self.user == self.stake_entry.last_staker
        &&& self.user_original_mint_token_account.holds_token_of(
            self.stake_entry.original_mint,
            self.user,
        )
        &&& self.metadata_program == metadata_program_id()
    }

    /// The pool asks for a minimum stake time, and the stake is younger
    /// than that at `now`.
    pub open spec fn too_early(self, now: i64) -> bool {
        self.stake_pool.min_stake() > 0 && now - self.stake_entry.last_staked_at
            < self.stake_pool.min_stake()
    }

    /// A cooldown is running and is not over at `now`.
    pub open spec fn still_cooling(self, now: i64) -> bool {
        self.stake_entry.cooldown_start_seconds matches Some(start) && now - start
            < self.stake_pool.cooldown()
    }

    /// What an unstake at `now` comes to: refused for the first of the
    /// reasons in this order, else the start of the cooldown where the pool
    /// has one and none is running, else the end of the stake.
    /// `master_edition` is the metadata program's verdict on the edition
    /// account.
    pub open spec fn step(self, now: i64, master_edition: bool) -> UnstakeStep {
        if self.stake_entry.pool != self.stake_pool_key {
            UnstakeStep::Refused(ErrorCode::InvalidStakePool)
        } else if !master_edition {
            UnstakeStep::Refused(ErrorCode::InvalidMasterEdition)
        } else if self.user != self.stake_entry.last_staker {
            UnstakeStep::Refused(ErrorCode::InvalidUnstakeUser)
        } else if !self.user_original_mint_token_account.holds_token_of(
            self.stake_entry.original_mint,
            self.user,
        ) {
            UnstakeStep::Refused(ErrorCode::InvalidUserOriginalMintTokenAccount)
        } else if self.metadata_program != metadata_program_id() {
            UnstakeStep::Refused(ErrorCode::InvalidMetadataProgram)
        } else if self.too_early(now) {
            UnstakeStep::Refused(ErrorCode::MinStakeSecondsNotSatisfied)
        } else if self.stake_pool.cooldown() > 0 && self.stake_entry.cooldown_start_seconds
            is None {
            UnstakeStep::BeginCooldown
        } else if self.stake_pool.cooldown() > 0 && self.still_cooling(now) {
            UnstakeStep::Refused(ErrorCode::CooldownSecondRemaining)
        } else if self.stake_pool.total_staked == 0 {
            UnstakeStep::Refused(ErrorCode::ArithmeticOverflow)
        } else {
            UnstakeStep::Finalize
        }
    }

    /// The call by which the user takes the delegation back.
    pub open spec fn revocation(self) -> CpiContext<Revoke> {
        CpiContext {
            program: self.token_program,
            accounts: Revoke {
                source: self.user_original_mint_token_account.key,
                authority: self.user,
            },
        }
    }

    /// What the end of a stake asks for: the thaw first, which only the
    /// delegate can ask for and which the program signs in the name of its
    /// authority, then the end of the delegation, and last the
    /// closing of the user's state, whose holdings go to the user.
    pub open spec fn actions(self) -> Seq<ActionView> {
        seq![
            ActionView::ThawDelegatedAccount {
                instruction: delegated_account_instruction(
                    THAW_DELEGATED_ACCOUNT,
                    self.metadata_program,
                    self.program_authority,
                    self.user_original_mint_token_account.key,
                    self.master_edition.key,
                    self.original_mint.key,
                ),
                signer_seeds: program_authority_signer_seeds(self.program_authority_bump),
            },
            ActionView::Revoke { revoke: self.revocation() },
            ActionView::CloseStakeState { destination: self.user },
        ]
    }

    /// The accounts once the cooldown has begun at `now`.
    pub open spec fn cooling(self, now: i64) -> UnstakeCtx {
        UnstakeCtx { stake_entry: self.stake_entry.cooling(now), ..self }
    }

    /// The accounts once the stake has been taken out at `now`: the entry
    /// is empty and the pool holds one stake less.
    pub open spec fn unstaked(self, now: i64) -> UnstakeCtx {
        UnstakeCtx {
            stake_entry: self.stake_entry.unstaked(now),
            stake_pool: StakePool {
                total_staked: (self.stake_pool.total_staked - 1) as u64,
                ..self.stake_pool
            },
            ..self
        }
    }

    /// Computes [`UnstakeCtx::revocation`].
    pub fn revoke_ctx(&self) -> (cpi: CpiContext<Revoke>)
        ensures
            cpi == self.revocation(),
    {
        let accounts = Revoke {
            source: self.user_original_mint_token_account.key,
            authority: self.user,
        };
        CpiContext::new(self.token_program, accounts)
    }
}

/// What an unstake at `now` does to accounts that were `before`, given the
/// metadata program's verdict on the edition account: it is refused and
/// changes nothing; or it starts the cooldown and asks for nothing; or it
/// leaves the accounts unstaked and asks for the thaw, the end of the
/// delegation and the closing of the user's state.
pub open spec fn unstake_result(
    before: UnstakeCtx,
    after: UnstakeCtx,
    outcome: Result<Vec<Action>, ErrorCode>,
    now: i64,
    master_edition: bool,
) -> bool {
    match outcome {
        Ok(actions) => match before.step(now, master_edition) {
            UnstakeStep::BeginCooldown => {
                &&& after == before.cooling(now)
                &&& action_views(actions@) == Seq::<ActionView>::empty()
            },
            UnstakeStep::Finalize => {
                &&& after == before.unstaked(now)
                &&& action_views(actions@) == before.actions()
            },
            UnstakeStep::Refused(_) => false,
        },
        Err(code) => {
            &&& before.step(now, master_edition) == UnstakeStep::Refused(code)
            &&& after == before
        },
    }
}

/// A pool whose minimum stake time is zero or not set refuses no unstake
/// for being early.
pub proof fn lemma_no_min_stake_no_gate(ctx: UnstakeCtx, now: i64, master_edition: bool)
    requires
        ctx.stake_pool.min_stake_seconds is None || ctx.stake_pool.min_stake_seconds == Some(0u32),
    ensures
        !ctx.too_early(now),
        ctx.step(now, master_edition) != UnstakeStep::Refused(
            ErrorCode::MinStakeSecondsNotSatisfied,
        ),
{
}

/// In a pool whose cooldown is zero or not set an unstake never starts a
/// cooldown and never waits for one: with accounts in order and the
/// minimum stake time over, it takes the stake out at once.
pub proof fn lemma_no_cooldown_finalizes_at_once(ctx: UnstakeCtx, now: i64, master_edition: bool)
    requires
        ctx.stake_pool.cooldown_seconds is None || ctx.stake_pool.cooldown_seconds == Some(0u32),
    ensures
        ctx.step(now, master_edition) != UnstakeStep::BeginCooldown,
        ctx.step(now, master_edition) != UnstakeStep::Refused(ErrorCode::CooldownSecondRemaining),
        ctx.accounts_in_order(master_edition) && !ctx.too_early(now) && ctx.stake_pool.total_staked
            > 0 ==> ctx.step(now, master_edition) == UnstakeStep::Finalize,
{
}

/// In a pool with a cooldown, with accounts in order and the minimum stake
/// time over, the first unstake starts the cooldown; a later one is
/// refused while less than the cooldown has passed since, and takes the
/// stake out from then on.
pub proof fn lemma_cooldown_has_two_phases(ctx: UnstakeCtx, now: i64, master_edition: bool)
    requires
        ctx.stake_pool.cooldown() > 0,
        ctx.accounts_in_order(master_edition),
        !ctx.too_early(now),
        ctx.stake_pool.total_staked > 0,
    ensures
        ctx.stake_entry.cooldown_start_seconds is None ==> ctx.step(now, master_edition)
            == UnstakeStep::BeginCooldown,
        ctx.stake_entry.cooldown_start_seconds matches Some(start) ==> ctx.step(
            now,
            master_edition,
        ) == if now - start < ctx.stake_pool.cooldown() {
            UnstakeStep::Refused(ErrorCode::CooldownSecondRemaining)
        } else {
            UnstakeStep::Finalize
        },
{
}

/// Unstakes at `now`, where `master_edition` is the metadata program's
/// verdict on the edition account.
pub fn process(ctx: &mut UnstakeCtx, now: i64, master_edition: bool) -> (outcome: Result<
    Vec<Action>,
    ErrorCode,
>)
    ensures
        unstake_result(*old(ctx), *final(ctx), outcome, now, master_edition),
{
    if ctx.stake_entry.pool != ctx.stake_pool_key {
        return Err(ErrorCode::InvalidStakePool);
    }
    if !master_edition {
        return Err(ErrorCode::InvalidMasterEdition);
    }
    if ctx.user != ctx.stake_entry.last_staker {
        return Err(ErrorCode::InvalidUnstakeUser);
    }
    if !ctx.user_original_mint_token_account.holds(&ctx.stake_entry.original_mint, &ctx.user) {
        return Err(ErrorCode::InvalidUserOriginalMintTokenAccount);
    }
    if ctx.metadata_program != metadata_program() {
        return Err(ErrorCode::InvalidMetadataProgram);
    }
    if let Some(min_stake) = ctx.stake_pool.min_stake_seconds {
        if min_stake > 0 && (now as i128 - ctx.stake_entry.last_staked_at as i128)
            < min_stake as i128 {
            return Err(ErrorCode::MinStakeSecondsNotSatisfied);
        }
    }
    let mut actions: Vec<Action> = Vec::new();
    if let Some(cooldown) = ctx.stake_pool.cooldown_seconds {
        if cooldown > 0 {
            match ctx.stake_entry.cooldown_start_seconds {
                None => {
                    ctx.stake_entry.cooldown_start_seconds = Some(now);
                    assert(action_views(actions@) =~= Seq::<ActionView>::empty());
                    return Ok(actions);
                },
                Some(start) => {
                    if (now as i128 - start as i128) < cooldown as i128 {
                        return Err(ErrorCode::CooldownSecondRemaining);
                    }
                },
            }
        }
    }
    let total_staked: u64 = match ctx.stake_pool.total_staked.checked_sub(1) {
        Some(rest) => rest,
        None => {
            return Err(ErrorCode::ArithmeticOverflow);
        },
    };

    let thaw = thaw_delegated_account(
        ctx.metadata_program,
        ctx.program_authority,
        ctx.user_original_mint_token_account.key,
        ctx.master_edition.key,
        ctx.original_mint.key,
    );
    actions.push(
        Action::ThawDelegatedAccount {
            instruction: thaw,
            signer_seeds: authority_signer_seeds(ctx.program_authority_bump),
        },
    );
    actions.push(Action::Revoke { revoke: ctx.revoke_ctx() });

    ctx.stake_entry.total_stake_seconds = accumulate(&ctx.stake_entry, now);
    ctx.stake_entry.last_staker = Address::default();
    ctx.stake_entry.original_mint_claimed = false;
    ctx.stake_entry.stake_mint_claimed = false;
    ctx.stake_entry.amount = 0;
    ctx.stake_entry.cooldown_start_seconds = None;
    ctx.stake_pool.total_staked = total_staked;
    ctx.stake_entry.kind = StakeEntryKind::Permissionless.code();

    actions.push(Action::CloseStakeState { destination: ctx.user });
    assert(action_views(actions@) =~= old(ctx).actions());
    Ok(actions)
}

/// Unstakes at `now`. Whether the edition account is the master edition of
/// the mint is the metadata program's to say.
pub fn handler(ctx: &mut UnstakeCtx, now: i64) -> (outcome: Result<Vec<Action>, ErrorCode>)
    ensures
        unstake_result(*old(ctx), *final(ctx), outcome, now, old(ctx).edition_verdict()),
{
    let master_edition = is_master_edition(
        &ctx.master_edition,
        ctx.original_mint.decimals,
        ctx.original_mint.supply,
    );
    process(ctx, now, master_edition)
}

} // verus!
