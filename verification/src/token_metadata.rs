//! The metadata program as this library uses it: its address, its test for
//! a master edition, and the two instructions that freeze and thaw a token
//! account in the name of its delegate.

use crate::accounts::EditionAccount;
use crate::address::Address;
use solana_program::account_info::AccountInfo;
use solana_program::pubkey::Pubkey;
use vstd::prelude::*;

verus! {

/// One account of an instruction, and how the instruction uses it.
#[derive(Clone, Copy, Debug, PartialEq, Eq)]
pub struct AccountMeta {
    pub pubkey: Address,
    pub is_signer: bool,
    pub is_writable: bool,
}

impl AccountMeta {
    pub fn new(pubkey: Address, is_signer: bool, is_writable: bool) -> (meta: AccountMeta)
        ensures
            meta == (AccountMeta { pubkey, is_signer, is_writable }),
    {
        AccountMeta { pubkey, is_signer, is_writable }
    }
}

/// An instruction for another program.
#[derive(Clone, Debug, PartialEq, Eq)]
pub struct Instruction {
    pub program_id: Address,
    pub accounts: Vec<AccountMeta>,
    pub data: Vec<u8>,
}

/// An [`Instruction`] as a value.
pub struct InstructionView {
    pub program_id: Address,
    pub accounts: Seq<AccountMeta>,
    pub data: Seq<u8>,
}

impl View for Instruction {
    type V = InstructionView;

    open spec fn view(&self) -> InstructionView {
        InstructionView {
            program_id: self.program_id,
            accounts: self.accounts@,
            data: self.data@,
        }
    }
}

/// The address of the token program, `TokenkegQfeZyiNwAJbNbGKPFXCWuBvf9Ss623VQ5DA`.
pub open spec fn token_program_id() -> Address {
    Address {
        bytes: [
            6u8, 221, 246, 225, 215, 101, 161, 147, 217, 203, 225, 70, 206, 235, 121, 172,
            28, 180, 133, 237, 95, 91, 55, 145, 58, 140, 245, 133, 126, 255, 0, 169,
        ],
    }
}

/// The address of the metadata program, `metaqbxxUerdq28cj1RbAWkYQm3ybzjb6a8bt518x1s`.
pub open spec fn metadata_program_id() -> Address {
    Address {
        bytes: [
            11u8, 112, 101, 177, 227, 209, 124, 69, 56, 157, 82, 127, 107, 4, 195, 205,
            88, 184, 108, 115, 26, 160, 253, 181, 73, 182, 209, 188, 3, 248, 41, 70,
        ],
    }
}

/// The number of the instruction that freezes a delegated account.
pub const FREEZE_DELEGATED_ACCOUNT: u8 = 26;

/// The number of the instruction that thaws a delegated account.
pub const THAW_DELEGATED_ACCOUNT: u8 = 27;

/// The instruction numbered `tag` by which `delegate` freezes or thaws
/// `token_account`: the delegate signs, the token account is written, the
/// edition, the mint and the token program are read, and the data is the
/// number alone.
pub open spec fn delegated_account_instruction(
    tag: u8,
    program_id: Address,
    delegate: Address,
    token_account: Address,
    edition: Address,
    mint: Address,
) -> InstructionView {
    InstructionView {
        program_id,
        accounts: seq![
            AccountMeta { pubkey: delegate, is_signer: true, is_writable: true },
            AccountMeta { pubkey: token_account, is_signer: false, is_writable: true },
            AccountMeta { pubkey: edition, is_signer: false, is_writable: false },
            AccountMeta { pubkey: mint, is_signer: false, is_writable: false },
            AccountMeta { pubkey: token_program_id(), is_signer: false, is_writable: false },
        ],
        data: seq![tag],
    }
}

/// What `mpl_token_metadata::utils::is_master_edition` answers for an
/// account owned by `owner` that holds `data`, and a mint of `decimals`
/// decimals and `supply` tokens.
pub uninterp spec fn master_edition_verdict(
    owner: Seq<u8>,
    data: Seq<u8>,
    decimals: u8,
    supply: u64,
) -> bool;

/// `mpl_token_metadata::ID`, the address at which the metadata program is
/// deployed. The contract gives its thirty-two bytes.
#[verifier::external_body]
pub(crate) fn metadata_program() -> (id: Address)
    ensures
        id == metadata_program_id(),
{
    Address::new(mpl_token_metadata::ID.to_bytes())
}

/// `mpl_token_metadata::utils::is_master_edition` on an account with the
/// owner and content of `edition`. It reads the owner, the content and the
/// two numbers and nothing else, so its answer is named after them; and it
/// answers yes only for a mint without decimals that has one token.
#[verifier::external_body]
pub(crate) fn is_master_edition(
    edition: &EditionAccount,
    mint_decimals: u8,
    mint_supply: u64,
) -> (verdict: bool)
    ensures
        verdict == master_edition_verdict(
            edition.owner@,
            edition.data@,
            mint_decimals,
            mint_supply,
        ),
        verdict ==> mint_decimals == 0 && mint_supply == 1,
{
    let key = Pubkey::new_from_array(edition.key.bytes);
    let owner = Pubkey::new_from_array(edition.owner.bytes);
    let mut lamports = 0u64;
    let mut data = edition.data.clone();
    let info = AccountInfo::new(&key, false, false, &mut lamports, &mut data, &owner, false, 0);
    mpl_token_metadata::utils::is_master_edition(&info, mint_decimals, mint_supply)
}

/// `mpl_token_metadata::instruction::freeze_delegated_account`. It builds
/// the instruction from its five arguments as
/// [`delegated_account_instruction`] says, with the number 26.
#[verifier::external_body]
pub(crate) fn freeze_delegated_account(
    program_id: Address,
    delegate: Address,
    token_account: Address,
    edition: Address,
    mint: Address,
) -> (instruction: Instruction)
    ensures
        instruction@ == delegated_account_instruction(
            FREEZE_DELEGATED_ACCOUNT,
            program_id,
            delegate,
            token_account,
            edition,
            mint,
        ),
{
    let built = mpl_token_metadata::instruction::freeze_delegated_account(
        Pubkey::new_from_array(program_id.bytes),
        Pubkey::new_from_array(delegate.bytes),
        Pubkey::new_from_array(token_account.bytes),
        Pubkey::new_from_array(edition.bytes),
        Pubkey::new_from_array(mint.bytes),
    );
    let accounts = built.accounts.iter().map(
        |m| AccountMeta::new(Address::new(m.pubkey.to_bytes()), m.is_signer, m.is_writable),
    ).collect();
    Instruction { program_id: Address::new(built.program_id.to_bytes()), accounts, data: built.data }
}

/// `mpl_token_metadata::instruction::thaw_delegated_account`. It builds
/// the instruction from its five arguments as
/// [`delegated_account_instruction`] says, with the number 27.
#[verifier::external_body]
pub(crate) fn thaw_delegated_account(
    program_id: Address,
    delegate: Address,
    token_account: Address,
    edition: Address,
    mint: Address,
) -> (instruction: Instruction)
    ensures
        instruction@ == delegated_account_instruction(
            THAW_DELEGATED_ACCOUNT,
            program_id,
            delegate,
            token_account,
            edition,
            mint,
        ),
{
    let built = mpl_token_metadata::instruction::thaw_delegated_account(
        Pubkey::new_from_array(program_id.bytes),
        Pubkey::new_from_array(delegate.bytes),
        Pubkey::new_from_array(token_account.bytes),
        Pubkey::new_from_array(edition.bytes),
        Pubkey::new_from_array(mint.bytes),
    );
    let accounts = built.accounts.iter().map(
        |m| AccountMeta::new(Address::new(m.pubkey.to_bytes()), m.is_signer, m.is_writable),
    ).collect();
    Instruction { program_id: Address::new(built.program_id.to_bytes()), accounts, data: built.data }
}

} // verus!
