//! What holds of an entry, its pool and its token account over a run of
//! instructions.

use crate::address::Address;
use crate::custody::custody_after;
use crate::custody::ActionView;
use crate::custody::Custody;
use crate::instructions::init_entry::InitEntryCtx;
use crate::instructions::stake::StakeCtx;
use crate::instructions::unstake::UnstakeCtx;
use crate::instructions::unstake::UnstakeStep;
use crate::state::StakeEntry;
use crate::state::StakePool;
use vstd::prelude::*;

verus! {

/// A stake never lowers the stake time of an entry, but where it starts an
/// empty entry afresh in a pool that resets on stake.
pub proof fn lemma_stake_keeps_stake_time(before: StakeCtx, amount: u64, now: i64)
    requires
        !(before.stake_pool.reset_on_stake && before.stake_entry.amount == 0),
    ensures
        before.staked(amount, now).stake_entry.total_stake_seconds
            >= before.stake_entry.total_stake_seconds,
{
}

/// An unstake never lowers the stake time of an entry, whether it starts
/// the cooldown or takes the stake out.
pub proof fn lemma_unstake_keeps_stake_time(before: UnstakeCtx, now: i64)
    ensures
        before.cooling(now).stake_entry.total_stake_seconds
            == before.stake_entry.total_stake_seconds,
        before.unstaked(now).stake_entry.total_stake_seconds
            >= before.stake_entry.total_stake_seconds,
{
}

/// Whatever the hold on the user's token account was, once the calls of a
/// stake are done the account is frozen and the program's authority is its
/// delegate; and where something is staked, the entry is not empty.
pub proof fn lemma_stake_takes_hold(before: StakeCtx, amount: u64, now: i64, custody: Custody)
    ensures
        custody_after(
            before.actions(),
            before.user_original_mint_token_account.key,
            custody,
        ) == Some(Custody { delegate: Some(before.program_authority), frozen: true }),
        amount > 0 && before.stake_entry.amount + amount <= u64::MAX ==> before.staked(
            amount,
            now,
        ).stake_entry.amount != 0,
{
    let account = before.user_original_mint_token_account.key;
    let actions = before.actions();
    let delegated = Custody { delegate: Some(before.program_authority), frozen: custody.frozen };
    let held = Custody { delegate: Some(before.program_authority), frozen: true };
    assert(actions[0].applied(account, custody) == Some(delegated));
    let rest = actions.drop_first();
    assert(rest[0] == actions[1]);
    assert(rest[0].applied(account, delegated) == Some(held));
    assert(rest.drop_first().len() == 0);
    assert(custody_after(rest.drop_first(), account, held) == Some(held));
    assert(custody_after(rest, account, delegated) == Some(held));
}

/// Where the user's token account is frozen with the program's authority
/// as its delegate, once the calls of the end of a stake are done the
/// account is thawed and has no delegate; and the entry is empty.
pub proof fn lemma_unstake_lets_go(before: UnstakeCtx, now: i64, custody: Custody)
    requires
        custody.held_by(before.program_authority),
    ensures
        custody_after(
            before.actions(),
            before.user_original_mint_token_account.key,
            custody,
        ) == Some(Custody { delegate: None, frozen: false }),
        before.unstaked(now).stake_entry.amount == 0,
{
    let account = before.user_original_mint_token_account.key;
    let actions = before.actions();
    let thawed = Custody { delegate: custody.delegate, frozen: false };
    let free = Custody { delegate: None, frozen: false };
    assert(actions[0].applied(account, custody) == Some(thawed));
    let rest = actions.drop_first();
    assert(rest[0] == actions[1]);
    assert(rest[0].applied(account, thawed) == Some(free));
    let last = rest.drop_first();
    assert(last[0] == actions[2]);
    assert(last[0].applied(account, free) == Some(free));
    assert(last.drop_first().len() == 0);
    assert(custody_after(last.drop_first(), account, free) == Some(free));
    assert(custody_after(last, account, free) == Some(free));
    assert(custody_after(rest, account, thawed) == Some(free));
}

/// The start of a cooldown asks for no call: the hold on the token account
/// stays as it is, and so does what is staked.
pub proof fn lemma_cooldown_keeps_hold(before: UnstakeCtx, now: i64, account: Address, custody: Custody)
    ensures
        custody_after(Seq::<ActionView>::empty(), account, custody) == Some(custody),
        before.cooling(now).stake_entry.amount == before.stake_entry.amount,
{
}

/// A cooldown never starts before the stake it ends, as long as the clock
/// does not run backwards: a stake on an entry without a cooldown, or on
/// one that holds something, leaves none running; a cooldown that starts
/// no earlier than the stake began follows it; and an entry that was
/// unstaked has none.
pub proof fn lemma_cooldown_follows_stake(
    staking: StakeCtx,
    amount: u64,
    unstaking: UnstakeCtx,
    now: i64,
)
    requires
        staking.stake_entry.amount != 0 || staking.stake_entry.cooldown_start_seconds is None,
    ensures
        staking.staked(amount, now).stake_entry.cooldown_follows_stake(),
        now >= unstaking.stake_entry.last_staked_at ==> unstaking.cooling(
            now,
        ).stake_entry.cooldown_follows_stake(),
        unstaking.unstaked(now).stake_entry.cooldown_follows_stake(),
{
}

/// Doing one list of actions and then another is doing the two in a row.
pub proof fn lemma_custody_after_both(
    first: Seq<ActionView>,
    second: Seq<ActionView>,
    account: Address,
    custody: Custody,
)
    ensures
        custody_after(first + second, account, custody) == match custody_after(
            first,
            account,
            custody,
        ) {
            Some(between) => custody_after(second, account, between),
            None => None,
        },
    decreases first.len(),
{
    if first.len() == 0 {
        assert(first + second =~= second);
    } else {
        let both = first + second;
        assert(both[0] == first[0]);
        assert(both.drop_first() =~= first.drop_first() + second);
        match first[0].applied(account, custody) {
            Some(next) => {
                lemma_custody_after_both(first.drop_first(), second, account, next);
            },
            None => {},
        }
    }
}

/// One stake or unstake, with the accounts it was given and the metadata
/// program's verdict on the edition account.
pub enum Step {
    Stake { before: StakeCtx, amount: u64, now: i64, master_edition: bool },
    Unstake { taken: UnstakeCtx, now: i64, master_edition: bool },
}

impl Step {
    /// The instruction was not refused.
    pub open spec fn accepted(self) -> bool {
        match self {
            Step::Stake { before, amount, now, master_edition } => before.rejection(
                amount,
                now,
                master_edition,
            ) is None,
            Step::Unstake { taken, now, master_edition } => !(taken.step(now, master_edition)
                is Refused),
        }
    }

    /// The pool as the instruction found it.
    pub open spec fn pool_before(self) -> StakePool {
        match self {
            Step::Stake { before, amount, now, master_edition } => before.stake_pool,
            Step::Unstake { taken, now, master_edition } => taken.stake_pool,
        }
    }

    /// The pool as the instruction left it.
    pub open spec fn pool_after(self) -> StakePool {
        match self {
            Step::Stake { before, amount, now, master_edition } => before.staked(
                amount,
                now,
            ).stake_pool,
            Step::Unstake { taken, now, master_edition } => match taken.step(
                now,
                master_edition,
            ) {
                UnstakeStep::Finalize => taken.unstaked(now).stake_pool,
                UnstakeStep::BeginCooldown => taken.cooling(now).stake_pool,
                UnstakeStep::Refused(_) => taken.stake_pool,
            },
        }
    }

    /// The instruction is a stake that took an entry from nothing staked
    /// to something staked.
    pub open spec fn opens(self) -> bool {
        self matches Step::Stake { before, amount, now, master_edition }
            && before.stake_entry.amount == 0 && before.staked(amount, now).stake_entry.amount > 0
    }

    /// The instruction is an unstake that took the stake out.
    pub open spec fn closes(self) -> bool {
        self matches Step::Unstake { taken, now, master_edition } && taken.step(
            now,
            master_edition,
        ) is Finalize
    }

    /// The entry as the instruction found it.
    pub open spec fn entry_before(self) -> StakeEntry {
        match self {
            Step::Stake { before, amount, now, master_edition } => before.stake_entry,
            Step::Unstake { taken, now, master_edition } => taken.stake_entry,
        }
    }

    /// The entry as the instruction left it.
    pub open spec fn entry_after(self) -> StakeEntry {
        match self {
            Step::Stake { before, amount, now, master_edition } => before.staked(
                amount,
                now,
            ).stake_entry,
            Step::Unstake { taken, now, master_edition } => match taken.step(
                now,
                master_edition,
            ) {
                UnstakeStep::Finalize => taken.unstaked(now).stake_entry,
                UnstakeStep::BeginCooldown => taken.cooling(now).stake_entry,
                UnstakeStep::Refused(_) => taken.stake_entry,
            },
        }
    }

    /// The calls that the instruction asked for.
    pub open spec fn actions(self) -> Seq<ActionView> {
        match self {
            Step::Stake { before, amount, now, master_edition } => before.actions(),
            Step::Unstake { taken, now, master_edition } => match taken.step(
                now,
                master_edition,
            ) {
                UnstakeStep::Finalize => taken.actions(),
                _ => Seq::<ActionView>::empty(),
            },
        }
    }

    /// The token account that the instruction was given.
    pub open spec fn token_account(self) -> Address {
        match self {
            Step::Stake { before, amount, now, master_edition } =>
                before.user_original_mint_token_account.key,
            Step::Unstake { taken, now, master_edition } =>
                taken.user_original_mint_token_account.key,
        }
    }

    /// The principal in whose name the instruction had the program act.
    pub open spec fn authority(self) -> Address {
        match self {
            Step::Stake { before, amount, now, master_edition } => before.program_authority,
            Step::Unstake { taken, now, master_edition } => taken.program_authority,
        }
    }

    /// The instruction is a stake of something, or an unstake of an entry
    /// that holds something.
    pub open spec fn moves_a_stake(self) -> bool {
        match self {
            Step::Stake { before, amount, now, master_edition } => amount > 0,
            Step::Unstake { taken, now, master_edition } => taken.stake_entry.amount != 0,
        }
    }

    /// The instruction is a stake that starts an empty entry afresh,
    /// because the pool resets on stake.
    pub open spec fn resets(self) -> bool {
        self matches Step::Stake { before, amount, now, master_edition }
            && before.stake_pool.reset_on_stake && before.stake_entry.amount == 0
    }
}

/// A run of instructions on one pool: each was accepted, and each found
/// the pool as the one before left it.
pub open spec fn is_pool_run(steps: Seq<Step>) -> bool {
    &&& forall|i: int| 0 <= i < steps.len() ==> (#[trigger] steps[i]).accepted()
    &&& forall|i: int|
        0 < i < steps.len() ==> (#[trigger] steps[i]).pool_before() == steps[i - 1].pool_after()
}

/// How many steps of a run took an entry from nothing staked to something
/// staked.
pub open spec fn opened(steps: Seq<Step>) -> nat
    decreases steps.len(),
{
    if steps.len() == 0 {
        0
    } else {
        opened(steps.drop_last()) + if steps.last().opens() {
            1nat
        } else {
            0nat
        }
    }
}

/// How many steps of a run took a stake out.
pub open spec fn closed(steps: Seq<Step>) -> nat
    decreases steps.len(),
{
    if steps.len() == 0 {
        0
    } else {
        closed(steps.drop_last()) + if steps.last().closes() {
            1nat
        } else {
            0nat
        }
    }
}

/// Over a run in which each stake is the first on an empty entry, a pool
/// holds as many stakes more than at the start as entries were taken from
/// nothing to something staked, less the stakes that were taken out; and
/// its policy is what it was. A pool that was opened with no stake
/// therefore holds the difference of the two counts, which is not
/// negative.
pub proof fn lemma_total_staked_counts_open_stakes(steps: Seq<Step>)
    requires
        steps.len() > 0,
        is_pool_run(steps),
        forall|i: int| 0 <= i < steps.len() && (#[trigger] steps[i]) is Stake ==> steps[i].opens(),
    ensures
        steps.last().pool_after().total_staked == steps[0].pool_before().total_staked + opened(
            steps,
        ) - closed(steps),
        steps.last().pool_after() == (StakePool {
            total_staked: steps.last().pool_after().total_staked,
            ..steps[0].pool_before()
        }),
        steps[0].pool_before().total_staked == 0 ==> opened(steps) >= closed(steps),
    decreases steps.len(),
{
    let last = steps.last();
    let earlier = steps.drop_last();
    assert(last == steps[steps.len() - 1]);
    assert(last.accepted());
    if earlier.len() == 0 {
        assert(opened(earlier) == 0);
        assert(closed(earlier) == 0);
        assert(steps[0] == last);
    } else {
        assert forall|i: int| 0 <= i < earlier.len() implies (#[trigger] earlier[i]).accepted() by {
            assert(earlier[i] == steps[i]);
        }
        assert forall|i: int| 0 < i < earlier.len() implies (#[trigger] earlier[i]).pool_before()
            == earlier[i - 1].pool_after() by {
            assert(earlier[i] == steps[i]);
            assert(earlier[i - 1] == steps[i - 1]);
        }
        assert forall|i: int| 0 <= i < earlier.len() && (#[trigger] earlier[i]) is Stake implies
            earlier[i].opens() by {
            assert(earlier[i] == steps[i]);
        }
        lemma_total_staked_counts_open_stakes(earlier);
        assert(earlier.last() == steps[steps.len() - 2]);
        assert(earlier[0] == steps[0]);
        assert(last.pool_before() == earlier.last().pool_after());
    }
}

/// Stake, then unstake into the cooldown, then unstake once the cooldown
/// is over: the entry is empty again with no cooldown running, its stake
/// time has grown by the time from the stake to the start of the cooldown
/// for each unit staked, and the pool holds what it held before the stake.
pub proof fn lemma_cooldown_round_trip(
    staking: StakeCtx,
    amount: u64,
    staked_at: i64,
    cooling: UnstakeCtx,
    cooled_at: i64,
    unstaking: UnstakeCtx,
    unstaked_at: i64,
    verdicts: (bool, bool, bool),
)
    requires
        staking.stake_entry.amount == 0,
        staking.rejection(amount, staked_at, verdicts.0) is None,
        cooling.stake_entry == staking.staked(amount, staked_at).stake_entry,
        cooling.stake_pool == staking.staked(amount, staked_at).stake_pool,
        cooling.step(cooled_at, verdicts.1) is BeginCooldown,
        unstaking.stake_entry == cooling.cooling(cooled_at).stake_entry,
        unstaking.stake_pool == cooling.cooling(cooled_at).stake_pool,
        unstaking.step(unstaked_at, verdicts.2) is Finalize,
    ensures
        unstaking.unstaked(unstaked_at).stake_entry.amount == 0,
        unstaking.unstaked(unstaked_at).stake_entry.cooldown_start_seconds is None,
        unstaking.unstaked(unstaked_at).stake_pool == staking.stake_pool,
        unstaked_at - cooled_at >= cooling.stake_pool.cooldown(),
        unstaking.unstaked(unstaked_at).stake_entry.total_stake_seconds == cooling.stake_entry.accumulated(
            cooled_at,
        ),
{
    let staked = staking.staked(amount, staked_at).stake_entry;
    let cooled = cooling.cooling(cooled_at).stake_entry;
    assert(cooled.interval(unstaked_at) == staked.interval(cooled_at));
}

/// Open an entry, stake one token, and unstake with any cooldown run out:
/// nothing is staked, the entry is as it was opened but for the time it
/// has counted and the time of the stake, the last call closes the user's
/// state in favour of the user who staked, and the token account, which
/// the stake froze, belongs to that user as before, is thawed and has no
/// delegate.
pub proof fn lemma_entry_round_trip(
    opening: InitEntryCtx,
    opened_at: i64,
    staking: StakeCtx,
    staked_at: i64,
    cooldown_began: Option<i64>,
    unstaking: UnstakeCtx,
    unstaked_at: i64,
    verdicts: (bool, bool),
    custody: Custody,
)
    requires
        staking.stake_entry == opening.opened(opened_at).stake_entry,
        staking.rejection(1, staked_at, verdicts.0) is None,
        unstaking.stake_entry == match cooldown_began {
            Some(began) => staking.staked(1, staked_at).stake_entry.cooling(began),
            None => staking.staked(1, staked_at).stake_entry,
        },
        unstaking.program_authority == staking.program_authority,
        unstaking.user_original_mint_token_account.key
            == staking.user_original_mint_token_account.key,
        unstaking.step(unstaked_at, verdicts.1) is Finalize,
    ensures
        staking.staked(1, staked_at).stake_entry.amount == 1,
        unstaking.unstaked(unstaked_at).stake_entry.amount == 0,
        unstaking.unstaked(unstaked_at).stake_entry == (StakeEntry {
            total_stake_seconds: unstaking.unstaked(unstaked_at).stake_entry.total_stake_seconds,
            last_staked_at: staked_at,
            ..opening.opened(opened_at).stake_entry
        }),
        unstaking.user == staking.user,
        staking.staked(1, staked_at).user_original_mint_token_account
            == staking.user_original_mint_token_account,
        unstaking.unstaked(unstaked_at).user_original_mint_token_account
            == unstaking.user_original_mint_token_account,
        unstaking.user_original_mint_token_account.owner == staking.user,
        unstaking.actions().last() == (ActionView::CloseStakeState { destination: staking.user }),
        custody_after(
            staking.actions() + unstaking.actions(),
            staking.user_original_mint_token_account.key,
            custody,
        ) == Some(Custody { delegate: None, frozen: false }),
{
    let account = staking.user_original_mint_token_account.key;
    let held = Custody { delegate: Some(staking.program_authority), frozen: true };
    lemma_stake_takes_hold(staking, 1, staked_at, custody);
    lemma_unstake_lets_go(unstaking, unstaked_at, held);
    lemma_custody_after_both(staking.actions(), unstaking.actions(), account, custody);
}

/// A run of instructions on one entry and the token account `account`, in
/// the name of `authority`: each was accepted, and each found the entry as
/// the one before left it.
pub open spec fn is_entry_run(steps: Seq<Step>, account: Address, authority: Address) -> bool {
    &&& forall|i: int|
        0 <= i < steps.len() ==> {
            &&& (#[trigger] steps[i]).accepted()
            &&& steps[i].token_account() == account
            &&& steps[i].authority() == authority
        }
    &&& forall|i: int|
        0 < i < steps.len() ==> (#[trigger] steps[i]).entry_before() == steps[i - 1].entry_after()
}

/// The calls that the steps of a run asked for, in order.
pub open spec fn actions_of(steps: Seq<Step>) -> Seq<ActionView>
    decreases steps.len(),
{
    if steps.len() == 0 {
        Seq::<ActionView>::empty()
    } else {
        actions_of(steps.drop_last()) + steps.last().actions()
    }
}

/// The hold on a token account is the one that goes with its entry: the
/// account is frozen with `authority` as its delegate where the entry
/// holds something, and thawed and not delegated to `authority` where it
/// holds nothing.
pub open spec fn hold_matches(entry: StakeEntry, custody: Custody, authority: Address) -> bool {
    if entry.amount != 0 {
        custody.held_by(authority)
    } else {
        custody.free_of(authority)
    }
}

/// One accepted instruction that moves a stake keeps the hold on the token
/// account in step with the entry, and none of its calls is refused.
pub proof fn lemma_step_keeps_hold(step: Step, custody: Custody)
    requires
        step.accepted(),
        step.moves_a_stake(),
        hold_matches(step.entry_before(), custody, step.authority()),
    ensures
        custody_after(step.actions(), step.token_account(), custody) matches Some(after)
            && hold_matches(step.entry_after(), after, step.authority()),
{
    match step {
        Step::Stake { before, amount, now, master_edition } => {
            lemma_stake_takes_hold(before, amount, now, custody);
        },
        Step::Unstake { taken, now, master_edition } => {
            if taken.step(now, master_edition) is Finalize {
                lemma_unstake_lets_go(taken, now, custody);
            }
        },
    }
}

/// Over any run of stakes and unstakes on one entry, each moving a stake,
/// the token account is frozen with the program's authority as delegate
/// just while the entry holds something: from the stake that fills the
/// entry, through any cooldown, up to the unstake that empties it; and no
/// call that the run asks for is refused.
pub proof fn lemma_hold_follows_stake(
    steps: Seq<Step>,
    account: Address,
    authority: Address,
    custody: Custody,
)
    requires
        steps.len() > 0,
        is_entry_run(steps, account, authority),
        forall|i: int| 0 <= i < steps.len() ==> (#[trigger] steps[i]).moves_a_stake(),
        hold_matches(steps[0].entry_before(), custody, authority),
    ensures
        custody_after(actions_of(steps), account, custody) matches Some(after) && hold_matches(
            steps.last().entry_after(),
            after,
            authority,
        ),
    decreases steps.len(),
{
    let last = steps.last();
    let earlier = steps.drop_last();
    assert(last == steps[steps.len() - 1]);
    assert(last.accepted() && last.moves_a_stake());
    if earlier.len() == 0 {
        assert(actions_of(earlier) =~= Seq::<ActionView>::empty());
        assert(actions_of(steps) =~= last.actions());
        assert(steps[0] == last);
        lemma_step_keeps_hold(last, custody);
    } else {
        assert forall|i: int| 0 <= i < earlier.len() implies {
            &&& (#[trigger] earlier[i]).accepted()
            &&& earlier[i].token_account() == account
            &&& earlier[i].authority() == authority
        } by {
            assert(earlier[i] == steps[i]);
        }
        assert forall|i: int| 0 < i < earlier.len() implies (#[trigger] earlier[i]).entry_before()
            == earlier[i - 1].entry_after() by {
            assert(earlier[i] == steps[i]);
            assert(earlier[i - 1] == steps[i - 1]);
        }
        assert forall|i: int| 0 <= i < earlier.len() implies (#[trigger] earlier[i]).moves_a_stake() by {
            assert(earlier[i] == steps[i]);
        }
        assert(earlier[0] == steps[0]);
        lemma_hold_follows_stake(earlier, account, authority, custody);
        let between = custody_after(actions_of(earlier), account, custody).unwrap();
        assert(earlier.last() == steps[steps.len() - 2]);
        assert(last.entry_before() == earlier.last().entry_after());
        lemma_step_keeps_hold(last, between);
        lemma_custody_after_both(actions_of(earlier), last.actions(), account, custody);
    }
}

/// Over any run of stakes and unstakes on one entry, the stake time of the
/// entry never falls, as long as no stake starts the empty entry afresh in
/// a pool that resets on stake.
pub proof fn lemma_stake_time_never_falls(steps: Seq<Step>, account: Address, authority: Address)
    requires
        steps.len() > 0,
        is_entry_run(steps, account, authority),
        forall|i: int| 0 <= i < steps.len() ==> !(#[trigger] steps[i]).resets(),
    ensures
        steps.last().entry_after().total_stake_seconds
            >= steps[0].entry_before().total_stake_seconds,
    decreases steps.len(),
{
    let last = steps.last();
    let earlier = steps.drop_last();
    assert(last == steps[steps.len() - 1]);
    assert(!last.resets());
    assert(last.entry_after().total_stake_seconds >= last.entry_before().total_stake_seconds);
    if earlier.len() == 0 {
        assert(steps[0] == last);
    } else {
        assert forall|i: int| 0 <= i < earlier.len() implies {
            &&& (#[trigger] earlier[i]).accepted()
            &&& earlier[i].token_account() == account
            &&& earlier[i].authority() == authority
        } by {
            assert(earlier[i] == steps[i]);
        }
        assert forall|i: int| 0 < i < earlier.len() implies (#[trigger] earlier[i]).entry_before()
            == earlier[i - 1].entry_after() by {
            assert(earlier[i] == steps[i]);
            assert(earlier[i - 1] == steps[i - 1]);
        }
        assert forall|i: int| 0 <= i < earlier.len() implies !(#[trigger] earlier[i]).resets() by {
            assert(earlier[i] == steps[i]);
        }
        assert(earlier[0] == steps[0]);
        lemma_stake_time_never_falls(earlier, account, authority);
        assert(earlier.last() == steps[steps.len() - 2]);
        assert(last.entry_before() == earlier.last().entry_after());
    }
}

} // verus!
