use breadhead_staking::address::Address;
use breadhead_staking::state::accumulate;
use breadhead_staking::state::get_stake_seed;
use breadhead_staking::state::StakeEntry;
use breadhead_staking::state::StakeEntryKind;

fn entry(amount: u64, last_staked_at: i64, cooldown: Option<i64>, total: u128) -> StakeEntry {
    StakeEntry {
        bump: 1,
        pool: Address::new([1; 32]),
        amount,
        original_mint: Address::new([2; 32]),
        original_mint_claimed: false,
        last_staker: Address::new([3; 32]),
        last_staked_at,
        total_stake_seconds: total,
        stake_mint_claimed: false,
        kind: 0,
        stake_mint: None,
        cooldown_start_seconds: cooldown,
    }
}

#[test]
fn open_interval_counts_once_per_unit() {
    assert_eq!(accumulate(&entry(1, 10, None, 0), 60), 50);
    assert_eq!(accumulate(&entry(3, 10, None, 7), 60), 157);
    assert_eq!(accumulate(&entry(0, 10, None, 7), 60), 7);
}

#[test]
fn cooldown_stops_the_clock() {
    assert_eq!(accumulate(&entry(1, 0, Some(100), 0), 130), 100);
    assert_eq!(accumulate(&entry(2, 40, Some(100), 5), 1_000_000), 125);
}

#[test]
fn interval_that_ends_before_it_began_counts_nothing() {
    assert_eq!(accumulate(&entry(1, 100, None, 9), 50), 9);
    assert_eq!(accumulate(&entry(1, 100, Some(20), 9), 500), 9);
    assert_eq!(accumulate(&entry(1, 100, None, 9), 100), 9);
}

#[test]
fn stake_time_stops_at_the_top_of_the_counter() {
    assert_eq!(accumulate(&entry(1, 0, None, u128::MAX), 10), u128::MAX);
    assert_eq!(accumulate(&entry(1, 0, None, u128::MAX - 5), 10), u128::MAX);
    assert_eq!(accumulate(&entry(1, 0, None, u128::MAX - 10), 10), u128::MAX);
    assert_eq!(accumulate(&entry(1, 0, None, u128::MAX - 11), 10), u128::MAX - 1);
}

#[test]
fn longest_interval_of_largest_amount_fits() {
    let longest = u64::MAX as u128;
    assert_eq!(
        accumulate(&entry(u64::MAX, i64::MIN, None, 0), i64::MAX),
        longest * longest
    );
    assert_eq!(
        accumulate(&entry(u64::MAX, 0, None, 0), i64::MAX),
        (i64::MAX as u128) * longest
    );
}

#[test]
fn times_before_the_epoch_count_by_their_difference() {
    assert_eq!(accumulate(&entry(1, -100, None, 0), -40), 60);
    assert_eq!(accumulate(&entry(2, -100, Some(50), 0), 0), 300);
}

#[test]
fn stake_seed_is_the_user_only_for_fungible_mints() {
    let user = Address::new([7; 32]);
    assert_eq!(get_stake_seed(0, user), Address::default());
    assert_eq!(get_stake_seed(1, user), Address::default());
    assert_eq!(get_stake_seed(2, user), user);
    assert_eq!(get_stake_seed(u64::MAX, user), user);
}

#[test]
fn zero_address_is_all_zero_bytes() {
    assert_eq!(Address::default().bytes, [0u8; 32]);
    assert_eq!(Address::default().to_vec(), vec![0u8; 32]);
    assert_ne!(Address::default(), Address::new([1; 32]));
}

#[test]
fn addresses_compare_byte_by_byte() {
    let mut bytes = [5u8; 32];
    let a = Address::new(bytes);
    assert_eq!(a, Address::new([5u8; 32]));
    bytes[31] = 6;
    assert_ne!(a, Address::new(bytes));
    assert_eq!(Address::new(bytes).to_vec()[31], 6);
    assert_eq!(Address::new(bytes).to_vec().len(), 32);
}

#[test]
fn entry_kinds_have_stable_codes() {
    assert_eq!(StakeEntryKind::Permissionless.code(), 0);
    assert_eq!(StakeEntryKind::Permissioned.code(), 1);
    assert_eq!(StakeEntryKind::from_code(0), Some(StakeEntryKind::Permissionless));
    assert_eq!(StakeEntryKind::from_code(1), Some(StakeEntryKind::Permissioned));
    assert_eq!(StakeEntryKind::from_code(2), None);
}
