use breadhead_staking::address::Address;
use breadhead_staking::init_entry;
use breadhead_staking::instructions::init_entry::InitEntryCtx;
use breadhead_staking::accounts::Mint;
use breadhead_staking::accounts::TokenAccount;
use breadhead_staking::pda::authority_seeds;
use breadhead_staking::pda::authority_signer_seeds;
use breadhead_staking::pda::counter_seeds;
use breadhead_staking::pda::entry_seeds;
use breadhead_staking::pda::find_identifier_address;
use breadhead_staking::pda::find_program_authority;
use breadhead_staking::pda::find_stake_entry_address;
use breadhead_staking::pda::find_stake_pool_address;
use breadhead_staking::pda::find_stake_state_address;
use breadhead_staking::pda::pool_seeds;
use breadhead_staking::pda::state_seeds;
use breadhead_staking::state::Achievement;
use breadhead_staking::state::StakeEntry;
use breadhead_staking::state::StakePool;
use breadhead_staking::state::StakeState;
use breadhead_staking::state::IDENTIFIER_PREFIX;
use breadhead_staking::state::PROGRAM_AUTHORITY_SEED;
use breadhead_staking::state::STAKE_AUTHORIZATION_PREFIX;
use breadhead_staking::state::STAKE_ENTRY_PREFIX;
use breadhead_staking::state::STAKE_POOL_PREFIX;
use breadhead_staking::state::STAKE_STATE_SEED;
use solana_program::pubkey::Pubkey;

fn address(byte: u8) -> Address {
    Address::new([byte; 32])
}

fn pubkey(address: Address) -> Pubkey {
    Pubkey::new_from_array(address.bytes)
}

fn program() -> Address {
    Address::new([
        45, 100, 30, 114, 167, 159, 46, 26, 224, 228, 198, 48, 137, 114, 45, 28, 194, 93, 120,
        198, 190, 207, 229, 251, 221, 59, 206, 189, 145, 152, 134, 221,
    ])
}

fn found(derived: (Pubkey, u8)) -> Option<(Address, u8)> {
    Some((Address::new(derived.0.to_bytes()), derived.1))
}

#[test]
fn seed_prefixes_are_the_documented_texts() {
    assert_eq!(STAKE_ENTRY_PREFIX, "stake-entry");
    assert_eq!(STAKE_POOL_PREFIX, "stake-pool");
    assert_eq!(IDENTIFIER_PREFIX, "identifier");
    assert_eq!(STAKE_AUTHORIZATION_PREFIX, "stake-authorization");
    assert_eq!(PROGRAM_AUTHORITY_SEED, "authority");
    assert_eq!(STAKE_STATE_SEED, "state");
}

#[test]
fn pool_seeds_are_prefix_then_mint() {
    assert_eq!(pool_seeds(&address(2)), vec![b"stake-pool".to_vec(), vec![2u8; 32]]);
}

#[test]
fn entry_seeds_name_the_user_only_for_fungible_mints() {
    assert_eq!(
        entry_seeds(&address(1), &address(2), 1, &address(3)),
        vec![b"stake-entry".to_vec(), vec![1u8; 32], vec![2u8; 32], vec![0u8; 32]]
    );
    assert_eq!(
        entry_seeds(&address(1), &address(2), 5, &address(3)),
        vec![b"stake-entry".to_vec(), vec![1u8; 32], vec![2u8; 32], vec![3u8; 32]]
    );
}

#[test]
fn state_seeds_are_user_mint_suffix() {
    assert_eq!(
        state_seeds(&address(3), &address(2)),
        vec![vec![3u8; 32], vec![2u8; 32], b"state".to_vec()]
    );
}

#[test]
fn single_seed_lists() {
    assert_eq!(authority_seeds(), vec![b"authority".to_vec()]);
    assert_eq!(counter_seeds(), vec![b"identifier".to_vec()]);
}

#[test]
fn signer_seeds_lead_to_the_authority() {
    let (authority, bump) = find_program_authority(&program()).unwrap();
    let seeds = authority_signer_seeds(bump);
    assert_eq!(seeds, vec![b"authority".to_vec(), vec![bump]]);
    let parts: Vec<&[u8]> = seeds.iter().map(|seed| seed.as_slice()).collect();
    let signed_for = Pubkey::create_program_address(&parts, &pubkey(program())).unwrap();
    assert_eq!(Address::new(signed_for.to_bytes()), authority);
}

#[test]
fn pool_address_is_the_derived_address_of_its_seeds() {
    let mint = address(2);
    let expected =
        Pubkey::find_program_address(&[b"stake-pool", &mint.bytes], &pubkey(program()));
    assert_eq!(find_stake_pool_address(&program(), &mint), found(expected));
    assert_ne!(find_stake_pool_address(&program(), &address(3)), found(expected));
}

#[test]
fn entry_address_of_a_one_of_one_does_not_depend_on_the_holder() {
    let (pool, mint) = (address(1), address(2));
    let expected = Pubkey::find_program_address(
        &[b"stake-entry", &pool.bytes, &mint.bytes, &[0u8; 32]],
        &pubkey(program()),
    );
    assert_eq!(
        find_stake_entry_address(&program(), &pool, &mint, 1, &address(3)),
        found(expected)
    );
    assert_eq!(
        find_stake_entry_address(&program(), &pool, &mint, 1, &address(8)),
        found(expected)
    );
}

#[test]
fn entry_address_of_a_fungible_mint_depends_on_the_holder() {
    let (pool, mint, user) = (address(1), address(2), address(3));
    let expected = Pubkey::find_program_address(
        &[b"stake-entry", &pool.bytes, &mint.bytes, &user.bytes],
        &pubkey(program()),
    );
    assert_eq!(find_stake_entry_address(&program(), &pool, &mint, 2, &user), found(expected));
    assert_ne!(
        find_stake_entry_address(&program(), &pool, &mint, 2, &address(8)),
        found(expected)
    );
}

#[test]
fn state_address_is_the_derived_address_of_its_seeds() {
    let (user, mint) = (address(3), address(2));
    let expected =
        Pubkey::find_program_address(&[&user.bytes, &mint.bytes, b"state"], &pubkey(program()));
    assert_eq!(find_stake_state_address(&program(), &user, &mint), found(expected));
}

#[test]
fn authority_and_counter_addresses_are_derived_from_their_seed() {
    let authority = Pubkey::find_program_address(&[b"authority"], &pubkey(program()));
    assert_eq!(find_program_authority(&program()), found(authority));
    let counter = Pubkey::find_program_address(&[b"identifier"], &pubkey(program()));
    assert_eq!(find_identifier_address(&program()), found(counter));
    assert_ne!(find_program_authority(&program()), find_identifier_address(&program()));
    assert_ne!(find_program_authority(&address(1)), found(authority));
}

#[test]
fn derived_address_is_not_the_program_itself() {
    let (derived, _bump) = find_program_authority(&program()).unwrap();
    assert_ne!(derived, program());
}

#[test]
fn init_entry_hands_out_the_seeds_of_both_records() {
    let blank_entry = StakeEntry {
        bump: 0,
        pool: Address::default(),
        amount: 0,
        original_mint: Address::default(),
        original_mint_claimed: false,
        last_staker: Address::default(),
        last_staked_at: 0,
        total_stake_seconds: 0,
        stake_mint_claimed: false,
        kind: 0,
        stake_mint: None,
        cooldown_start_seconds: None,
    };
    let mut ctx = InitEntryCtx {
        stake_entry: blank_entry,
        stake_entry_bump: 251,
        stake_pool: StakePool {
            bump: 250,
            authority: address(9),
            requires_authorization: false,
            reset_on_stake: false,
            total_staked: 0,
            cooldown_seconds: None,
            min_stake_seconds: None,
            end_date: None,
        },
        stake_pool_key: address(1),
        original_mint: Mint { key: address(2), decimals: 0, supply: 1 },
        user_original_mint_token_account: TokenAccount {
            key: address(4),
            mint: address(2),
            owner: address(3),
            amount: 1,
        },
        stake_state: StakeState {
            bump: 0,
            stake_start: 0,
            resting_level: 3,
            token_account: Address::default(),
            original_mint: Address::default(),
            pool: Address::default(),
            achievement_level: Achievement::MoonShot,
        },
        stake_state_bump: 252,
    };
    let seeds = init_entry(&mut ctx, address(3), 77).unwrap();
    assert_eq!(seeds.stake_entry, entry_seeds(&address(1), &address(2), 1, &address(3)));
    assert_eq!(seeds.stake_state, state_seeds(&address(3), &address(2)));
    assert_eq!(
        ctx.stake_entry,
        StakeEntry {
            bump: 251,
            pool: address(1),
            original_mint: address(2),
            ..blank_entry
        }
    );
    assert_eq!(
        ctx.stake_state,
        StakeState {
            bump: 252,
            stake_start: 77,
            resting_level: 0,
            token_account: address(4),
            original_mint: address(2),
            pool: address(1),
            achievement_level: Achievement::DoughBoy,
        }
    );
}
