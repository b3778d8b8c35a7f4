//! Stake: the token account is delegated to the program and frozen, and the
//! entry counts from `now`.

use crate::accounts::Approve;
use crate::accounts::CpiContext;
use crate::accounts::EditionAccount;
use crate::accounts::Mint;
use crate::accounts::TokenAccount;
use crate::address::Address;
use crate::custody::action_views;
use crate::custody::Action;
use crate::custody::ActionView;
use crate::errors::ErrorCode;
use crate::pda::authority_signer_seeds;
use crate::pda::program_authority_signer_seeds;
use crate::state::accumulate;
use crate::state::StakeEntry;
use crate::state::StakePool;
use crate::token_metadata::delegated_account_instruction;
use crate::token_metadata::freeze_delegated_account;
use crate::token_metadata::is_master_edition;
use crate::token_metadata::master_edition_verdict;
use crate::token_metadata::metadata_program;
use crate::token_metadata::metadata_program_id;
use crate::token_metadata::FREEZE_DELEGATED_ACCOUNT;
use vstd::prelude::*;

verus! {

/// The accounts of a stake.
#[derive(Clone, Debug, PartialEq, Eq)]
pub struct StakeCtx {
    pub stake_entry: StakeEntry,
    pub stake_pool: StakePool,
    /// The address of `stake_pool`.
    pub stake_pool_key: Address,
    /// The principal in whose name the program freezes and thaws.
    pub program_authority: Address,
    /// The bump of that principal's address.
    pub program_authority_bump: u8,
    pub original_mint: Mint,
    pub master_edition: EditionAccount,
    /// Who signed.
    pub user: Address,
    pub user_original_mint_token_account: TokenAccount,
    pub token_program: Address,
    pub metadata_program: Address,
}

impl StakeCtx {
    /// What the metadata program says of the edition account and the mint.
    pub open spec fn edition_verdict(self) -> bool {
        master_edition_verdict(
            self.master_edition.owner@,
            self.master_edition.data@,
            self.original_mint.decimals,
            self.original_mint.supply,
        )
    }

    /// Why a stake of `amount` at `now` is refused, if it is: the first of
    /// the reasons in this order. `master_edition` is the metadata
    /// program's verdict on the edition account.
    pub open spec fn rejection(self, amount: u64, now: i64, master_edition: bool) -> Option<
        ErrorCode,
    > {
        if self.stake_entry.pool != self.stake_pool_key {
            Some(ErrorCode::InvalidStakePool)
        } else if !master_edition {
            Some(ErrorCode::InvalidMasterEdition)
        } else if !self.user_original_mint_token_account.holds_token_of(
            self.stake_entry.original_mint,
            self.user,
        ) {
            Some(ErrorCode::InvalidUserOriginalMintTokenAccount)
        } else if self.metadata_program != metadata_program_id() {
            Some(ErrorCode::InvalidMetadataProgram)
        } else if self.stake_pool.has_ended(now) {
            Some(ErrorCode::StakePoolHasEnded)
        } else if self.stake_entry.amount + amount > u64::MAX || self.stake_pool.total_staked + 1
            > u64::MAX {
            Some(ErrorCode::ArithmeticOverflow)
        } else {
            None
        }
    }

    /// The accounts are the ones that a stake is to be given: the entry is
    /// of the pool, the edition is the master edition of the mint, the user
    /// holds the token, and the metadata program is the canonical one.
    pub open spec fn accounts_in_order(self, master_edition: bool) -> bool {
        &&& self.stake_entry.pool == self.stake_pool_key
        &&& master_edition
        &&& self.user_original_mint_token_account.holds_token_of(
            self.stake_entry.original_mint,
            self.user,
        )
        &&& self.metadata_program == metadata_program_id()
    }

    /// The call by which the user makes the program's authority the
    /// delegate of the token account.
    pub open spec fn approval(self) -> CpiContext<Approve> {
        CpiContext {
            program: self.token_program,
            accounts: Approve {
                to: self.user_original_mint_token_account.key,
                delegate: self.program_authority,
                authority: self.user,
            },
        }
    }

    /// What a stake asks for: the delegation of one token first, then the
    /// freeze, which only the delegate can ask for and which the program
    /// signs in the name of its authority.
    pub open spec fn actions(self) -> Seq<ActionView> {
        seq![
            ActionView::Approve { approve: self.approval(), amount: 1 },
            ActionView::FreezeDelegatedAccount {
                instruction: delegated_account_instruction(
                    FREEZE_DELEGATED_ACCOUNT,
                    self.metadata_program,
                    self.program_authority,
                    self.user_original_mint_token_account.key,
                    self.master_edition.key,
                    self.original_mint.key,
                ),
                signer_seeds: program_authority_signer_seeds(self.program_authority_bump),
            },
        ]
    }

    /// The accounts once `amount` has been staked at `now`: the entry has
    /// moved on and the pool holds one stake more.
    pub open spec fn staked(self, amount: u64, now: i64) -> StakeCtx {
        StakeCtx {
            stake_entry: self.stake_entry.staked(
                self.stake_pool.reset_on_stake,
                self.user,
                amount,
                now,
            ),
            stake_pool: StakePool {
                total_staked: (self.stake_pool.total_staked + 1) as u64,
                ..self.stake_pool
            },
            ..self
        }
    }

    /// Computes [`StakeCtx::approval`].
    pub fn approve_ctx(&self) -> (cpi: CpiContext<Approve>)
        ensures
            cpi == self.approval(),
    {
        let accounts = Approve {
            to: self.user_original_mint_token_account.key,
            delegate: self.program_authority,
            authority: self.user,
        };
        CpiContext::new(self.token_program, accounts)
    }
}

/// What a stake of `amount` at `now` does to accounts that were `before`,
/// given the metadata program's verdict on the edition account: it is
/// refused and changes nothing, or it leaves the accounts staked and asks
/// for the delegation and the freeze.
pub open spec fn stake_result(
    before: StakeCtx,
    after: StakeCtx,
    outcome: Result<Vec<Action>, ErrorCode>,
    amount: u64,
    now: i64,
    master_edition: bool,
) -> bool {
    match outcome {
        Ok(actions) => {
            &&& before.rejection(amount, now, master_edition) is None
            &&& after == before.staked(amount, now)
            &&& action_views(actions@) == before.actions()
        },
        Err(code) => {
            &&& before.rejection(amount, now, master_edition) == Some(code)
            &&& after == before
        },
    }
}

/// A pool with an end date takes stakes up to and at that date, and none
/// after it: with accounts in order, a stake at the end date is refused
/// only where a counter would overflow, and a stake at any later time is
/// refused because the pool has ended.
pub proof fn lemma_end_date_is_inclusive(
    ctx: StakeCtx,
    amount: u64,
    now: i64,
    end: i64,
    master_edition: bool,
)
    requires
        ctx.stake_pool.end_date == Some(end),
        ctx.accounts_in_order(master_edition),
    ensures
        now <= end ==> ctx.rejection(amount, now, master_edition) != Some(
            ErrorCode::StakePoolHasEnded,
        ),
        now <= end && ctx.stake_entry.amount + amount <= u64::MAX && ctx.stake_pool.total_staked
            < u64::MAX ==> ctx.rejection(amount, now, master_edition) is None,
        now > end ==> ctx.rejection(amount, now, master_edition) == Some(
            ErrorCode::StakePoolHasEnded,
        ),
{
}

/// A pool without an end date never refuses a stake for having ended.
pub proof fn lemma_no_end_date_never_ends(ctx: StakeCtx, amount: u64, now: i64, master_edition: bool)
    requires
        ctx.stake_pool.end_date is None,
    ensures
        ctx.rejection(amount, now, master_edition) != Some(ErrorCode::StakePoolHasEnded),
{
}

/// Stakes `amount` at `now`, where `master_edition` is the metadata
/// program's verdict on the edition account.
pub fn process(ctx: &mut StakeCtx, amount: u64, now: i64, master_edition: bool) -> (outcome: Result<
    Vec<Action>,
    ErrorCode,
>)
    ensures
        stake_result(*old(ctx), *final(ctx), outcome, amount, now, master_edition),
{
    if ctx.stake_entry.pool != ctx.stake_pool_key {
        return Err(ErrorCode::InvalidStakePool);
    }
    if !master_edition {
        return Err(ErrorCode::InvalidMasterEdition);
    }
    if !ctx.user_original_mint_token_account.holds(&ctx.stake_entry.original_mint, &ctx.user) {
        return Err(ErrorCode::InvalidUserOriginalMintTokenAccount);
    }
    if ctx.metadata_program != metadata_program() {
        return Err(ErrorCode::InvalidMetadataProgram);
    }
    if let Some(end) = ctx.stake_pool.end_date {
        if now > end {
            return Err(ErrorCode::StakePoolHasEnded);
        }
    }
    let amount_staked: u64 = match ctx.stake_entry.amount.checked_add(amount) {
        Some(sum) => sum,
        None => {
            return Err(ErrorCode::ArithmeticOverflow);
        },
    };
    let total_staked: u64 = match ctx.stake_pool.total_staked.checked_add(1) {
        Some(sum) => sum,
        None => {
            return Err(ErrorCode::ArithmeticOverflow);
        },
    };

    if ctx.stake_entry.amount != 0 {
        ctx.stake_entry.total_stake_seconds = accumulate(&ctx.stake_entry, now);
        ctx.stake_entry.cooldown_start_seconds = None;
    }
    let mut actions: Vec<Action> = Vec::new();
    actions.push(Action::Approve { approve: ctx.approve_ctx(), amount: 1 });
    let freeze = freeze_delegated_account(
        ctx.metadata_program,
        ctx.program_authority,
        ctx.user_original_mint_token_account.key,
        ctx.master_edition.key,
        ctx.original_mint.key,
    );
    actions.push(
        Action::FreezeDelegatedAccount {
            instruction: freeze,
            signer_seeds: authority_signer_seeds(ctx.program_authority_bump),
        },
    );

    if ctx.stake_pool.reset_on_stake && ctx.stake_entry.amount == 0 {
        ctx.stake_entry.total_stake_seconds = 0;
    }
    ctx.stake_entry.last_staked_at = now;
    ctx.stake_entry.last_staker = ctx.user;
    ctx.stake_entry.amount = amount_staked;
    ctx.stake_pool.total_staked = total_staked;
    assert(action_views(actions@) =~= old(ctx).actions());
    Ok(actions)
}

/// Stakes `amount` at `now`. Whether the edition account is the master
/// edition of the mint is the metadata program's to say; a stake that is
/// accepted is of a mint without decimals that has one token.
pub fn handler(ctx: &mut StakeCtx, amount: u64, now: i64) -> (outcome: Result<Vec<Action>, ErrorCode>)
    ensures
        stake_result(*old(ctx), *final(ctx), outcome, amount, now, old(ctx).edition_verdict()),
        outcome is Ok ==> old(ctx).original_mint.decimals == 0 && old(ctx).original_mint.supply
            == 1,
{
    let master_edition = is_master_edition(
        &ctx.master_edition,
        ctx.original_mint.decimals,
        ctx.original_mint.supply,
    );
    process(ctx, amount, now, master_edition)
}

} // verus!
