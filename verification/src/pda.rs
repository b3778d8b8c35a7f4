//! Where the records live: the seeds of each record's address, and the
//! address that the runtime derives from seeds for a program.

use crate::address::Address;
use crate::state::get_stake_seed;
use crate::state::stake_seed;
use crate::state::IDENTIFIER_PREFIX;
use crate::state::PROGRAM_AUTHORITY_SEED;
use crate::state::STAKE_ENTRY_PREFIX;
use crate::state::STAKE_POOL_PREFIX;
use crate::state::STAKE_STATE_SEED;
use solana_program::pubkey::Pubkey;
use vstd::prelude::*;
use vstd::string::StrSliceExecFns;
use vstd::string::StringSliceAdditionalSpecFns;

verus! {

/// What `Pubkey::try_find_program_address` gives for `seeds` and the
/// program at `program_id`: the derived address and its bump, if any bump
/// leads to an address.
pub uninterp spec fn program_address(seeds: Seq<Seq<u8>>, program_id: Seq<u8>) -> Option<
    (Seq<u8>, u8),
>;

/// The bytes of each seed of a list.
pub open spec fn seed_bytes(seeds: Seq<Vec<u8>>) -> Seq<Seq<u8>> {
    seeds.map_values(|seed: Vec<u8>| seed@)
}

/// The seeds of a pool: the pool prefix, then the mint.
pub open spec fn stake_pool_seeds(mint: Address) -> Seq<Seq<u8>> {
    seq![STAKE_POOL_PREFIX.spec_bytes(), mint@]
}

/// The seeds of an entry: the entry prefix, the pool, the mint, and the
/// principal that [`stake_seed`] names.
pub open spec fn stake_entry_seeds(pool: Address, mint: Address, supply: u64, user: Address) -> Seq<
    Seq<u8>,
> {
    seq![STAKE_ENTRY_PREFIX.spec_bytes(), pool@, mint@, stake_seed(supply, user)@]
}

/// The seeds of a user state: the user, the mint, then the state suffix.
pub open spec fn stake_state_seeds(user: Address, mint: Address) -> Seq<Seq<u8>> {
    seq![user@, mint@, STAKE_STATE_SEED.spec_bytes()]
}

/// The seeds of the principal in whose name the program freezes and thaws.
pub open spec fn program_authority_seeds() -> Seq<Seq<u8>> {
    seq![PROGRAM_AUTHORITY_SEED.spec_bytes()]
}

/// The seeds of the counter of pools.
pub open spec fn identifier_seeds() -> Seq<Seq<u8>> {
    seq![IDENTIFIER_PREFIX.spec_bytes()]
}

/// The seeds with which the program signs in the name of its authority:
/// the seed of the authority, then the bump of the authority's address.
pub open spec fn program_authority_signer_seeds(bump: u8) -> Seq<Seq<u8>> {
    seq![PROGRAM_AUTHORITY_SEED.spec_bytes(), seq![bump]]
}

/// The seed prefixes are the ASCII bytes of their text.
pub proof fn lemma_prefix_bytes()
    ensures
        STAKE_POOL_PREFIX.spec_bytes() == seq![115u8, 116, 97, 107, 101, 45, 112, 111, 111, 108],
        STAKE_ENTRY_PREFIX.spec_bytes() == seq![
            115u8,
            116,
            97,
            107,
            101,
            45,
            101,
            110,
            116,
            114,
            121,
        ],
        STAKE_STATE_SEED.spec_bytes() == seq![115u8, 116, 97, 116, 101],
        PROGRAM_AUTHORITY_SEED.spec_bytes() == seq![97u8, 117, 116, 104, 111, 114, 105, 116, 121],
        IDENTIFIER_PREFIX.spec_bytes() == seq![
            105u8,
            100,
            101,
            110,
            116,
            105,
            102,
            105,
            101,
            114,
        ],
{
    broadcast use vstd::string::is_ascii_spec_bytes;

    reveal_strlit("stake-pool");
    reveal_strlit("stake-entry");
    reveal_strlit("state");
    reveal_strlit("authority");
    reveal_strlit("identifier");
    assert(vstd::string::is_ascii(STAKE_POOL_PREFIX));
    assert(vstd::string::is_ascii(STAKE_ENTRY_PREFIX));
    assert(vstd::string::is_ascii(STAKE_STATE_SEED));
    assert(vstd::string::is_ascii(PROGRAM_AUTHORITY_SEED));
    assert(vstd::string::is_ascii(IDENTIFIER_PREFIX));
    assert(STAKE_POOL_PREFIX.spec_bytes() =~= seq![
        115u8,
        116,
        97,
        107,
        101,
        45,
        112,
        111,
        111,
        108,
    ]);
    assert(STAKE_ENTRY_PREFIX.spec_bytes() =~= seq![
        115u8,
        116,
        97,
        107,
        101,
        45,
        101,
        110,
        116,
        114,
        121,
    ]);
    assert(STAKE_STATE_SEED.spec_bytes() =~= seq![115u8, 116, 97, 116, 101]);
    assert(PROGRAM_AUTHORITY_SEED.spec_bytes() =~= seq![
        97u8,
        117,
        116,
        104,
        111,
        114,
        105,
        116,
        121,
    ]);
    assert(IDENTIFIER_PREFIX.spec_bytes() =~= seq![
        105u8,
        100,
        101,
        110,
        116,
        105,
        102,
        105,
        101,
        114,
    ]);
}

/// Computes [`stake_pool_seeds`].
pub fn pool_seeds(mint: &Address) -> (seeds: Vec<Vec<u8>>)
    ensures
        seed_bytes(seeds@) == stake_pool_seeds(*mint),
{
    let mut seeds: Vec<Vec<u8>> = Vec::new();
    seeds.push(STAKE_POOL_PREFIX.as_bytes_vec());
    seeds.push(mint.to_vec());
    assert(seed_bytes(seeds@) =~= stake_pool_seeds(*mint));
    seeds
}

/// Computes [`stake_entry_seeds`].
pub fn entry_seeds(pool: &Address, mint: &Address, supply: u64, user: &Address) -> (seeds: Vec<
    Vec<u8>,
>)
    ensures
        seed_bytes(seeds@) == stake_entry_seeds(*pool, *mint, supply, *user),
{
    let mut seeds: Vec<Vec<u8>> = Vec::new();
    seeds.push(STAKE_ENTRY_PREFIX.as_bytes_vec());
    seeds.push(pool.to_vec());
    seeds.push(mint.to_vec());
    seeds.push(get_stake_seed(supply, *user).to_vec());
    assert(seed_bytes(seeds@) =~= stake_entry_seeds(*pool, *mint, supply, *user));
    seeds
}

/// Computes [`stake_state_seeds`].
pub fn state_seeds(user: &Address, mint: &Address) -> (seeds: Vec<Vec<u8>>)
    ensures
        seed_bytes(seeds@) == stake_state_seeds(*user, *mint),
{
    let mut seeds: Vec<Vec<u8>> = Vec::new();
    seeds.push(user.to_vec());
    seeds.push(mint.to_vec());
    seeds.push(STAKE_STATE_SEED.as_bytes_vec());
    assert(seed_bytes(seeds@) =~= stake_state_seeds(*user, *mint));
    seeds
}

/// Computes [`program_authority_seeds`].
pub fn authority_seeds() -> (seeds: Vec<Vec<u8>>)
    ensures
        seed_bytes(seeds@) == program_authority_seeds(),
{
    let mut seeds: Vec<Vec<u8>> = Vec::new();
    seeds.push(PROGRAM_AUTHORITY_SEED.as_bytes_vec());
    assert(seed_bytes(seeds@) =~= program_authority_seeds());
    seeds
}

/// Computes [`program_authority_signer_seeds`].
pub fn authority_signer_seeds(bump: u8) -> (seeds: Vec<Vec<u8>>)
    ensures
        seed_bytes(seeds@) == program_authority_signer_seeds(bump),
{
    let mut last: Vec<u8> = Vec::new();
    last.push(bump);
    let mut seeds: Vec<Vec<u8>> = Vec::new();
    seeds.push(PROGRAM_AUTHORITY_SEED.as_bytes_vec());
    seeds.push(last);
    assert(seeds@[1]@ =~= seq![bump]);
    assert(seed_bytes(seeds@) =~= program_authority_signer_seeds(bump));
    seeds
}

/// Computes [`identifier_seeds`].
pub fn counter_seeds() -> (seeds: Vec<Vec<u8>>)
    ensures
        seed_bytes(seeds@) == identifier_seeds(),
{
    let mut seeds: Vec<Vec<u8>> = Vec::new();
    seeds.push(IDENTIFIER_PREFIX.as_bytes_vec());
    assert(seed_bytes(seeds@) =~= identifier_seeds());
    seeds
}

/// What `derived` says of an address and its bump, as plain values.
pub open spec fn derived_view(derived: Option<(Address, u8)>) -> Option<(Seq<u8>, u8)> {
    match derived {
        Some((address, bump)) => Some((address@, bump)),
        None => None,
    }
}

/// `Pubkey::try_find_program_address`: the address that the runtime derives
/// from `seeds` for the program at `program_id`, with the bump that led to
/// it. The outcome depends on the seeds and the program alone, so it is
/// named after them.
#[verifier::external_body]
pub(crate) fn try_find_program_address(seeds: &Vec<Vec<u8>>, program_id: &Address) -> (derived:
    Option<(Address, u8)>)
    ensures
        derived_view(derived) == program_address(seed_bytes(seeds@), program_id@),
{
    let parts: Vec<&[u8]> = seeds.iter().map(|seed| seed.as_slice()).collect();
    let found = Pubkey::try_find_program_address(&parts, &Pubkey::new_from_array(program_id.bytes));
    found.map(|(address, bump)| (Address::new(address.to_bytes()), bump))
}

/// The address of the pool of `mint`, with its bump.
pub fn find_stake_pool_address(program_id: &Address, mint: &Address) -> (derived: Option<
    (Address, u8),
>)
    ensures
        derived_view(derived) == program_address(stake_pool_seeds(*mint), program_id@),
{
    let seeds = pool_seeds(mint);
    try_find_program_address(&seeds, program_id)
}

/// The address of the entry of `mint` in `pool` for `user`, with its bump.
pub fn find_stake_entry_address(
    program_id: &Address,
    pool: &Address,
    mint: &Address,
    supply: u64,
    user: &Address,
) -> (derived: Option<(Address, u8)>)
    ensures
        derived_view(derived) == program_address(
            stake_entry_seeds(*pool, *mint, supply, *user),
            program_id@,
        ),
{
    let seeds = entry_seeds(pool, mint, supply, user);
    try_find_program_address(&seeds, program_id)
}

/// The address of the state of `user` for `mint`, with its bump.
pub fn find_stake_state_address(program_id: &Address, user: &Address, mint: &Address) -> (derived:
    Option<(Address, u8)>)
    ensures
        derived_view(derived) == program_address(stake_state_seeds(*user, *mint), program_id@),
{
    let seeds = state_seeds(user, mint);
    try_find_program_address(&seeds, program_id)
}

/// The address of the principal in whose name the program freezes and
/// thaws, with its bump.
pub fn find_program_authority(program_id: &Address) -> (derived: Option<(Address, u8)>)
    ensures
        derived_view(derived) == program_address(program_authority_seeds(), program_id@),
{
    let seeds = authority_seeds();
    try_find_program_address(&seeds, program_id)
}

/// The address of the counter of pools, with its bump.
pub fn find_identifier_address(program_id: &Address) -> (derived: Option<(Address, u8)>)
    ensures
        derived_view(derived) == program_address(identifier_seeds(), program_id@),
{
    let seeds = counter_seeds();
    try_find_program_address(&seeds, program_id)
}

} // verus!
