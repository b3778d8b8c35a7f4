//! The persistent records, and what is computed from them alone: the stake
//! time that an entry has accrued and the resting level of a user.

use crate::address::Address;
use crate::errors::ErrorCode;
use vstd::prelude::*;

verus! {

/// The first seed of an entry's address.
pub const STAKE_ENTRY_PREFIX: &'static str = "stake-entry";

/// The first seed of a pool's address.
pub const STAKE_POOL_PREFIX: &'static str = "stake-pool";

/// The seed of the address of the counter of pools.
pub const IDENTIFIER_PREFIX: &'static str = "identifier";

/// The first seed of the address of an authorization record.
pub const STAKE_AUTHORIZATION_PREFIX: &'static str = "stake-authorization";

/// The seed of the address of the principal in whose name the program
/// freezes and thaws.
pub const PROGRAM_AUTHORITY_SEED: &'static str = "authority";

/// The last seed of the address of a user's state.
pub const STAKE_STATE_SEED: &'static str = "state";

/// The tenures, in seconds, at which a user reaches the next resting level:
/// 20, 40, 60, 100 and 150 days.
pub const REST_LEVELS: [i64; 5] = [1728000, 3456000, 5184000, 8640000, 12960000];

/// Who may mark an entry's stake time as claimed.
#[derive(Clone, Copy, Debug, PartialEq, Eq, Structural)]
pub enum StakeEntryKind {
    /// Whoever holds the token.
    Permissionless,
    /// Only a signer that the pool's authority has named.
    Permissioned,
}

impl StakeEntryKind {
    /// The number under which the kind is stored in an entry.
    pub open spec fn spec_code(self) -> u8 {
        match self {
            StakeEntryKind::Permissionless => 0,
            StakeEntryKind::Permissioned => 1,
        }
    }

    /// Computes [`StakeEntryKind::spec_code`].
    #[verifier::when_used_as_spec(spec_code)]
    pub fn code(self) -> (c: u8)
        ensures
            c == self.spec_code(),
    {
        match self {
            StakeEntryKind::Permissionless => 0,
            StakeEntryKind::Permissioned => 1,
        }
    }

    /// The kind that is stored under `code`, if there is one.
    pub fn from_code(code: u8) -> (kind: Option<StakeEntryKind>)
        ensures
            code == 0 ==> kind == Some(StakeEntryKind::Permissionless),
            code == 1 ==> kind == Some(StakeEntryKind::Permissioned),
            code > 1 ==> kind is None,
    {
        if code == 0 {
            Some(StakeEntryKind::Permissionless)
        } else if code == 1 {
            Some(StakeEntryKind::Permissioned)
        } else {
            None
        }
    }
}

/// The record of one token in one pool.
#[derive(Clone, Copy, Debug, PartialEq, Eq)]
pub struct StakeEntry {
    pub bump: u8,
    pub pool: Address,
    /// How much is staked; zero when the token is not staked.
    pub amount: u64,
    pub original_mint: Address,
    pub original_mint_claimed: bool,
    pub last_staker: Address,
    pub last_staked_at: i64,
    /// Seconds staked, times the amount staked, over all closed intervals.
    pub total_stake_seconds: u128,
    pub stake_mint_claimed: bool,
    pub kind: u8,
    pub stake_mint: Option<Address>,
    /// When the running cooldown began, if one is running.
    pub cooldown_start_seconds: Option<i64>,
}

/// The policy of a pool, and how many stakes it holds.
#[derive(Clone, Copy, Debug, PartialEq, Eq)]
pub struct StakePool {
    pub bump: u8,
    pub authority: Address,
    pub requires_authorization: bool,
    pub reset_on_stake: bool,
    pub total_staked: u64,
    pub cooldown_seconds: Option<u32>,
    pub min_stake_seconds: Option<u32>,
    pub end_date: Option<i64>,
}

/// The six achievement tags, lowest tier first.
#[derive(Clone, Copy, Debug, PartialEq, Eq, Structural)]
pub enum Achievement {
    DoughBoy,
    SixtyNineBadge,
    BagHolder,
    MoonShot,
    Loaf,
    BreadGetter,
}

/// What is kept of one user and one mint while an entry is in use.
#[derive(Clone, Copy, Debug, PartialEq, Eq)]
pub struct StakeState {
    pub bump: u8,
    /// When the entry was opened: tenure counts from here.
    pub stake_start: i64,
    pub resting_level: u8,
    pub token_account: Address,
    pub original_mint: Address,
    pub pool: Address,
    pub achievement_level: Achievement,
}

/// The leave of a pool's authority for one mint to be staked.
#[derive(Clone, Copy, Debug, PartialEq, Eq)]
pub struct StakeAuthorizationRecord {
    pub bump: u8,
    pub pool: Address,
    pub mint: Address,
}

/// The counter of pools.
#[derive(Clone, Copy, Debug, PartialEq, Eq)]
pub struct Identifier {
    pub bump: u8,
    pub count: u64,
}

impl StakePool {
    /// The pool takes no stake after `now`.
    pub open spec fn has_ended(self, now: i64) -> bool {
        self.end_date matches Some(end) && now > end
    }

    /// The least time that a stake must last, zero where the pool sets none.
    pub open spec fn min_stake(self) -> nat {
        match self.min_stake_seconds {
            Some(seconds) => seconds as nat,
            None => 0,
        }
    }

    /// The length of the cooldown, zero where the pool sets none.
    pub open spec fn cooldown(self) -> nat {
        match self.cooldown_seconds {
            Some(seconds) => seconds as nat,
            None => 0,
        }
    }
}

impl StakeEntry {
    /// The end of the interval that is open now: the start of the cooldown
    /// where one is running, for its time does not count, else `now`.
    pub open spec fn interval_end(self, now: i64) -> i64 {
        match self.cooldown_start_seconds {
            Some(start) => start,
            None => now,
        }
    }

    /// The length of the open interval. An interval that would end before it
    /// began has length zero.
    pub open spec fn interval(self, now: i64) -> nat {
        let end = self.interval_end(now);
        if end > self.last_staked_at {
            (end - self.last_staked_at) as nat
        } else {
            0
        }
    }

    /// The stake time of the entry with the open interval counted in: what
    /// it had, and the interval once for each unit staked, at most what the
    /// counter can hold.
    pub open spec fn accumulated(self, now: i64) -> nat {
        let sum = self.total_stake_seconds as nat + self.interval(now) * (self.amount as nat);
        if sum > u128::MAX {
            u128::MAX as nat
        } else {
            sum
        }
    }

    /// A cooldown, where one is running, began no earlier than the stake.
    pub open spec fn cooldown_follows_stake(self) -> bool {
        self.cooldown_start_seconds matches Some(start) ==> start >= self.last_staked_at
    }

    /// The entry once `user` has staked `amount` more at `now`. Where
    /// something was staked already, the interval that was open is counted
    /// in and a running cooldown ends; where nothing was, and the pool
    /// resets on stake, the stake time starts again from zero.
    pub open spec fn staked(self, reset_on_stake: bool, user: Address, amount: u64, now: i64)
        -> StakeEntry {
        StakeEntry {
            total_stake_seconds: if self.amount != 0 {
                self.accumulated(now) as u128
            } else if reset_on_stake {
                0
            } else {
                self.total_stake_seconds
            },
            cooldown_start_seconds: if self.amount != 0 {
                None
            } else {
                self.cooldown_start_seconds
            },
            last_staked_at: now,
            last_staker: user,
            amount: (self.amount + amount) as u64,
            ..self
        }
    }

    /// The entry once its cooldown has begun at `now`.
    pub open spec fn cooling(self, now: i64) -> StakeEntry {
        StakeEntry { cooldown_start_seconds: Some(now), ..self }
    }

    /// The entry once the stake has been taken out at `now`: the interval
    /// that was open is counted in, and nothing is staked by nobody.
    pub open spec fn unstaked(self, now: i64) -> StakeEntry {
        StakeEntry {
            total_stake_seconds: self.accumulated(now) as u128,
            last_staker: Address::zero(),
            original_mint_claimed: false,
            stake_mint_claimed: false,
            amount: 0,
            cooldown_start_seconds: None,
            kind: StakeEntryKind::Permissionless.spec_code(),
            ..self
        }
    }
}

/// The stake time of `entry` at `now`, the open interval counted in. The
/// interval is shorter than 2^64 seconds and the amount is less than 2^64,
/// so their product always fits the counter's 128 bits; only the sum can
/// reach the top, and stops there.
pub fn accumulate(entry: &StakeEntry, now: i64) -> (total: u128)
    ensures
        total == entry.accumulated(now),
        total >= entry.total_stake_seconds,
{
    let end: i64 = match entry.cooldown_start_seconds {
        Some(start) => start,
        None => now,
    };
    let interval: u128 = if end > entry.last_staked_at {
        (end as i128 - entry.last_staked_at as i128) as u128
    } else {
        0
    };
    let amount: u128 = entry.amount as u128;
    assert(interval * amount <= 0xffff_ffff_ffff_ffff * 0xffff_ffff_ffff_ffff) by (nonlinear_arith)
        requires
            0 <= interval <= 0xffff_ffff_ffff_ffff,
            0 <= amount <= 0xffff_ffff_ffff_ffff,
    ;
    let bump: u128 = interval * amount;
    entry.total_stake_seconds.saturating_add(bump)
}

/// The principal under whose name a stake of `user` is entered: `user`
/// where the mint has more than one token, else the zero address, so that a
/// one-of-one token has the same entry whoever holds it.
pub open spec fn stake_seed(supply: u64, user: Address) -> Address {
    if supply > 1 {
        user
    } else {
        Address::zero()
    }
}

/// Computes [`stake_seed`].
pub fn get_stake_seed(supply: u64, user: Address) -> (seed: Address)
    ensures
        seed == stake_seed(supply, user),
{
    if supply > 1 {
        user
    } else {
        Address::default()
    }
}

/// Five tenures in seconds, each longer than the one before.
#[derive(Clone, Copy, Debug, PartialEq, Eq)]
pub struct RestThresholds {
    levels: [i64; 5],
}

/// Each of the five tenures is longer than the one before.
pub open spec fn strictly_increasing(levels: Seq<i64>) -> bool {
    &&& levels.len() == 5
    &&& forall|i: int, j: int| 0 <= i < j < 5 ==> levels[i] < levels[j]
}

impl View for RestThresholds {
    type V = Seq<i64>;

    closed spec fn view(&self) -> Seq<i64> {
        self.levels@
    }
}

impl RestThresholds {
    #[verifier::type_invariant]
    spec fn ordered(self) -> bool {
        strictly_increasing(self.levels@)
    }

    /// The thresholds `levels`, where each is longer than the one before.
    pub fn new(levels: [i64; 5]) -> (made: Option<RestThresholds>)
        ensures
            made is Some <==> strictly_increasing(levels@),
            made matches Some(thresholds) ==> thresholds@ == levels@,
    {
        if levels[0] < levels[1] && levels[1] < levels[2] && levels[2] < levels[3] && levels[3]
            < levels[4] {
            Some(RestThresholds { levels })
        } else {
            None
        }
    }

    /// The thresholds of [`REST_LEVELS`].
    pub fn standard() -> (thresholds: RestThresholds)
        ensures
            thresholds@ == REST_LEVELS@,
    {
        RestThresholds { levels: REST_LEVELS }
    }

    /// The tenure at which level `index + 1` is reached.
    pub fn get(&self, index: usize) -> (tenure: i64)
        requires
            index < 5,
        ensures
            tenure == self@[index as int],
    {
        self.levels[index]
    }

    /// The five tenures, shortest first.
    pub fn levels(&self) -> (levels: [i64; 5])
        ensures
            levels@ == self@,
            strictly_increasing(levels@),
    {
        proof {
            use_type_invariant(self);
        }
        self.levels
    }
}

/// The resting level of a tenure of `duration` seconds: the number of the
/// first threshold that the tenure is short of, and five where it is short
/// of none.
pub open spec fn resting_level(duration: int, levels: Seq<i64>) -> u8
    recommends
        levels.len() == 5,
{
    if duration < levels[0] {
        0
    } else if duration < levels[1] {
        1
    } else if duration < levels[2] {
        2
    } else if duration < levels[3] {
        3
    } else if duration < levels[4] {
        4
    } else {
        5
    }
}

/// The resting level at `now` of a user whose entry was opened at
/// `stake_start_time`.
pub fn derive_resting_level(stake_start_time: i64, now: i64, levels: &RestThresholds) -> (level: u8)
    ensures
        level == resting_level(now - stake_start_time, levels@),
        level <= 5,
{
    proof {
        use_type_invariant(levels);
    }
    let duration: i128 = now as i128 - stake_start_time as i128;
    let mut index: usize = 0;
    while index < 5
        invariant
            index <= 5,
            duration == now - stake_start_time,
            levels@.len() == 5,
            forall|j: int| 0 <= j < index ==> duration >= levels@[j],
        decreases 5 - index,
    {
        if duration < levels.get(index) as i128 {
            return index as u8;
        }
        index += 1;
    }
    5
}

/// The tag of a resting level.
pub open spec fn achievement_of(level: u8) -> Achievement
    recommends
        level <= 5,
{
    if level == 0 {
        Achievement::DoughBoy
    } else if level == 1 {
        Achievement::SixtyNineBadge
    } else if level == 2 {
        Achievement::BagHolder
    } else if level == 3 {
        Achievement::MoonShot
    } else if level == 4 {
        Achievement::Loaf
    } else {
        Achievement::BreadGetter
    }
}

/// The tag of resting level `level`; there is none above five.
pub fn achievement_for_level(level: u8) -> (tag: Result<Achievement, ErrorCode>)
    ensures
        level <= 5 ==> tag == Ok::<Achievement, ErrorCode>(achievement_of(level)),
        level > 5 ==> tag == Err::<Achievement, ErrorCode>(ErrorCode::InvalidRestingLevel),
{
    match level {
        0 => Ok(Achievement::DoughBoy),
        1 => Ok(Achievement::SixtyNineBadge),
        2 => Ok(Achievement::BagHolder),
        3 => Ok(Achievement::MoonShot),
        4 => Ok(Achievement::Loaf),
        5 => Ok(Achievement::BreadGetter),
        _ => Err(ErrorCode::InvalidRestingLevel),
    }
}

impl StakeState {
    /// The level is one of the six, and the tag is that of the level.
    pub open spec fn consistent(self) -> bool {
        &&& self.resting_level <= 5
        &&& self.achievement_level == achievement_of(self.resting_level)
    }
}

/// A tenure that is just one of the thresholds has reached the level behind
/// that threshold: each threshold is compared with strict less-than.
pub proof fn lemma_level_at_threshold(levels: Seq<i64>, index: int)
    requires
        strictly_increasing(levels),
        0 <= index < 5,
    ensures
        resting_level(levels[index] as int, levels) == index + 1,
{
}

/// A tenure of the last threshold or more has the highest level.
pub proof fn lemma_level_past_last_threshold(levels: Seq<i64>, duration: int)
    requires
        strictly_increasing(levels),
        duration >= levels[4],
    ensures
        resting_level(duration, levels) == 5,
{
}

/// The level of a tenure is the least number of a threshold that the tenure
/// is short of.
pub proof fn lemma_level_is_first_threshold_missed(levels: Seq<i64>, duration: int)
    requires
        strictly_increasing(levels),
    ensures
        resting_level(duration, levels) <= 5,
        forall|i: int| 0 <= i < resting_level(duration, levels) ==> duration >= levels[i],
        resting_level(duration, levels) < 5 ==> duration < levels[resting_level(
            duration,
            levels,
        ) as int],
{
}

} // verus!
