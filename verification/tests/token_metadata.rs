use breadhead_staking::accounts::EditionAccount;
use breadhead_staking::accounts::Mint;
use breadhead_staking::accounts::TokenAccount;
use breadhead_staking::address::Address;
use breadhead_staking::custody::Action;
use breadhead_staking::errors::ErrorCode;
use breadhead_staking::instructions::stake::StakeCtx;
use breadhead_staking::instructions::unstake::UnstakeCtx;
use breadhead_staking::stake;
use breadhead_staking::state::Achievement;
use breadhead_staking::state::StakeEntry;
use breadhead_staking::state::StakePool;
use breadhead_staking::state::StakeState;
use breadhead_staking::token_metadata::AccountMeta;
use breadhead_staking::token_metadata::Instruction;
use breadhead_staking::token_metadata::FREEZE_DELEGATED_ACCOUNT;
use breadhead_staking::token_metadata::THAW_DELEGATED_ACCOUNT;
use breadhead_staking::unstake;
use solana_program::pubkey::Pubkey;

fn address(byte: u8) -> Address {
    Address::new([byte; 32])
}

fn pubkey(address: Address) -> Pubkey {
    Pubkey::new_from_array(address.bytes)
}

fn canonical_metadata_program() -> Address {
    Address::new(mpl_token_metadata::ID.to_bytes())
}

fn master_edition_data() -> Vec<u8> {
    let mut data = vec![0u8; 282];
    data[0] = 6;
    data
}

fn pool() -> StakePool {
    StakePool {
        bump: 250,
        authority: address(9),
        requires_authorization: false,
        reset_on_stake: false,
        total_staked: 0,
        cooldown_seconds: None,
        min_stake_seconds: None,
        end_date: None,
    }
}

fn entry(amount: u64, last_staker: Address) -> StakeEntry {
    StakeEntry {
        bump: 251,
        pool: address(1),
        amount,
        original_mint: address(2),
        original_mint_claimed: false,
        last_staker,
        last_staked_at: 0,
        total_stake_seconds: 0,
        stake_mint_claimed: false,
        kind: 0,
        stake_mint: None,
        cooldown_start_seconds: None,
    }
}

fn stake_ctx() -> StakeCtx {
    StakeCtx {
        stake_entry: entry(0, Address::default()),
        stake_pool: pool(),
        stake_pool_key: address(1),
        program_authority: address(5),
        program_authority_bump: 253,
        original_mint: Mint { key: address(2), decimals: 0, supply: 1 },
        master_edition: EditionAccount {
            key: address(6),
            owner: canonical_metadata_program(),
            data: master_edition_data(),
        },
        user: address(3),
        user_original_mint_token_account: TokenAccount {
            key: address(4),
            mint: address(2),
            owner: address(3),
            amount: 1,
        },
        token_program: address(7),
        metadata_program: canonical_metadata_program(),
    }
}

fn unstake_ctx() -> UnstakeCtx {
    let staking = stake_ctx();
    UnstakeCtx {
        stake_pool: StakePool { total_staked: 1, ..pool() },
        stake_pool_key: staking.stake_pool_key,
        stake_entry: entry(1, staking.user),
        program_authority: staking.program_authority,
        program_authority_bump: staking.program_authority_bump,
        original_mint: staking.original_mint,
        master_edition: staking.master_edition,
        user: staking.user,
        user_original_mint_token_account: staking.user_original_mint_token_account,
        stake_state: StakeState {
            bump: 252,
            stake_start: 0,
            resting_level: 0,
            token_account: address(4),
            original_mint: address(2),
            pool: address(1),
            achievement_level: Achievement::DoughBoy,
        },
        token_program: staking.token_program,
        metadata_program: staking.metadata_program,
    }
}

fn as_library_instruction(built: solana_program::instruction::Instruction) -> Instruction {
    Instruction {
        program_id: Address::new(built.program_id.to_bytes()),
        accounts: built
            .accounts
            .iter()
            .map(|meta| AccountMeta {
                pubkey: Address::new(meta.pubkey.to_bytes()),
                is_signer: meta.is_signer,
                is_writable: meta.is_writable,
            })
            .collect(),
        data: built.data,
    }
}

#[test]
fn stake_asks_for_the_freeze_that_the_metadata_program_builds() {
    let mut ctx = stake_ctx();
    let asked = stake(&mut ctx, 1, 10).unwrap();
    let built = mpl_token_metadata::instruction::freeze_delegated_account(
        mpl_token_metadata::ID,
        pubkey(address(5)),
        pubkey(address(4)),
        pubkey(address(6)),
        pubkey(address(2)),
    );
    assert_eq!(
        asked[1],
        Action::FreezeDelegatedAccount {
            instruction: as_library_instruction(built),
            signer_seeds: vec![b"authority".to_vec(), vec![253]],
        }
    );
}

#[test]
fn freeze_instruction_is_spelled_out() {
    let mut ctx = stake_ctx();
    let asked = stake(&mut ctx, 1, 10).unwrap();
    let token_program = Address::new(spl_token::ID.to_bytes());
    let expected = Instruction {
        program_id: canonical_metadata_program(),
        accounts: vec![
            AccountMeta { pubkey: address(5), is_signer: true, is_writable: true },
            AccountMeta { pubkey: address(4), is_signer: false, is_writable: true },
            AccountMeta { pubkey: address(6), is_signer: false, is_writable: false },
            AccountMeta { pubkey: address(2), is_signer: false, is_writable: false },
            AccountMeta { pubkey: token_program, is_signer: false, is_writable: false },
        ],
        data: vec![26],
    };
    assert_eq!(FREEZE_DELEGATED_ACCOUNT, 26);
    assert_eq!(
        asked[1],
        Action::FreezeDelegatedAccount {
            instruction: expected,
            signer_seeds: vec![b"authority".to_vec(), vec![253]],
        }
    );
}

#[test]
fn unstake_asks_for_the_thaw_that_the_metadata_program_builds() {
    let mut ctx = unstake_ctx();
    let asked = unstake(&mut ctx, 10).unwrap();
    let built = mpl_token_metadata::instruction::thaw_delegated_account(
        mpl_token_metadata::ID,
        pubkey(address(5)),
        pubkey(address(4)),
        pubkey(address(6)),
        pubkey(address(2)),
    );
    assert_eq!(built.data, vec![27]);
    assert_eq!(THAW_DELEGATED_ACCOUNT, 27);
    assert_eq!(
        asked[0],
        Action::ThawDelegatedAccount {
            instruction: as_library_instruction(built),
            signer_seeds: vec![b"authority".to_vec(), vec![253]],
        }
    );
}

#[test]
fn token_program_address_is_the_one_in_the_freeze() {
    let mut ctx = stake_ctx();
    let asked = stake(&mut ctx, 1, 10).unwrap();
    match &asked[1] {
        Action::FreezeDelegatedAccount { instruction, .. } => {
            assert_eq!(
                instruction.accounts[4].pubkey.bytes,
                [
                    6, 221, 246, 225, 215, 101, 161, 147, 217, 203, 225, 70, 206, 235, 121,
                    172, 28, 180, 133, 237, 95, 91, 55, 145, 58, 140, 245, 133, 126, 255, 0,
                    169
                ]
            );
        }
        other => panic!("not a freeze: {:?}", other),
    }
}

#[test]
fn canonical_metadata_program_is_accepted_and_no_other() {
    let mut ctx = stake_ctx();
    ctx.metadata_program = Address::new([
        11, 112, 101, 177, 227, 209, 124, 69, 56, 157, 82, 127, 107, 4, 195, 205, 88, 184,
        108, 115, 26, 160, 253, 181, 73, 182, 209, 188, 3, 248, 41, 70,
    ]);
    assert!(stake(&mut ctx, 1, 10).is_ok());

    let mut ctx = stake_ctx();
    ctx.metadata_program = Address::default();
    assert_eq!(stake(&mut ctx, 1, 10), Err(ErrorCode::InvalidMetadataProgram));

    let mut ctx = stake_ctx();
    ctx.metadata_program = Address::new(spl_token::ID.to_bytes());
    assert_eq!(stake(&mut ctx, 1, 10), Err(ErrorCode::InvalidMetadataProgram));
}

#[test]
fn master_edition_must_be_owned_by_the_metadata_program() {
    let mut ctx = stake_ctx();
    ctx.master_edition.owner = address(8);
    assert_eq!(stake(&mut ctx, 1, 10), Err(ErrorCode::InvalidMasterEdition));
}

#[test]
fn master_edition_must_hold_a_master_edition_record() {
    let mut ctx = stake_ctx();
    ctx.master_edition.data[0] = 1;
    assert_eq!(stake(&mut ctx, 1, 10), Err(ErrorCode::InvalidMasterEdition));

    let mut ctx = stake_ctx();
    ctx.master_edition.data = vec![6u8; 10];
    assert_eq!(stake(&mut ctx, 1, 10), Err(ErrorCode::InvalidMasterEdition));

    let mut ctx = stake_ctx();
    ctx.master_edition.data = Vec::new();
    assert_eq!(stake(&mut ctx, 1, 10), Err(ErrorCode::InvalidMasterEdition));
}

#[test]
fn master_edition_is_of_a_mint_with_one_token_and_no_decimals() {
    let mut ctx = stake_ctx();
    ctx.original_mint.supply = 2;
    assert_eq!(stake(&mut ctx, 1, 10), Err(ErrorCode::InvalidMasterEdition));

    let mut ctx = stake_ctx();
    ctx.original_mint.supply = 0;
    assert_eq!(stake(&mut ctx, 1, 10), Err(ErrorCode::InvalidMasterEdition));

    let mut ctx = stake_ctx();
    ctx.original_mint.decimals = 1;
    assert_eq!(stake(&mut ctx, 1, 10), Err(ErrorCode::InvalidMasterEdition));
}

#[test]
fn unstake_checks_the_master_edition_too() {
    let mut ctx = unstake_ctx();
    ctx.master_edition.owner = address(8);
    assert_eq!(unstake(&mut ctx, 10), Err(ErrorCode::InvalidMasterEdition));

    let mut ctx = unstake_ctx();
    ctx.original_mint.supply = 2;
    assert_eq!(unstake(&mut ctx, 10), Err(ErrorCode::InvalidMasterEdition));
}
