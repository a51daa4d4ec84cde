//! The addresses that are derived from seeds.
//!
//! A vault has three accounts at derived addresses: the one that holds its books,
//! the authority over its tokens, and the one that holds the tokens. A last seed of
//! one byte, the bump, is added to the seeds proper so that the address derives.

use crate::pubkey::Pubkey;
use vstd::prelude::*;

verus! {

/// The error of `anchor_lang::solana_program`'s address derivation, carried from the
/// call to the place where it is dropped.
#[verifier::external_type_specification]
#[verifier::external_body]
pub struct ExPubkeyError(anchor_lang::solana_program::pubkey::PubkeyError);

/// The address that `Pubkey::create_program_address` derives for a program from a
/// list of seeds, or `None` where the seeds derive none: there are too many, one is
/// too long, or their hash is a point of the curve that key pairs live on.
pub uninterp spec fn program_address(seeds: Seq<Seq<u8>>, program_id: Seq<u8>) -> Option<Seq<u8>>;

/// The bytes of each of a list of seeds.
pub open spec fn seed_bytes(seeds: Seq<&[u8]>) -> Seq<Seq<u8>> {
    seeds.map_values(|seed: &[u8]| seed@)
}

/// The seeds with a bump behind them.
pub open spec fn with_bump(seeds: Seq<Seq<u8>>, bump: u8) -> Seq<Seq<u8>> {
    seeds.push(seq![bump])
}

/// Calls `anchor_lang::solana_program`'s `Pubkey::create_program_address`. Claimed of
/// it: whether it derives an address, and which, depends on the seeds and the program
/// alone. Which of its errors comes back is left unsaid.
#[verifier::external_body]
fn create_program_address(seeds: &[&[u8]], program_id: &[u8; 32]) -> (r: Result<
    [u8; 32],
    anchor_lang::solana_program::pubkey::PubkeyError,
>)
    ensures
        match r {
            Ok(address) => program_address(seed_bytes(seeds@), program_id@) == Some(address@),
            Err(_) => program_address(seed_bytes(seeds@), program_id@) is None,
        },
{
    let program_id = anchor_lang::prelude::Pubkey::new_from_array(*program_id);
    anchor_lang::prelude::Pubkey::create_program_address(seeds, &program_id).map(
        |address| address.to_bytes(),
    )
}

/// Calls `anchor_lang::solana_program`'s `Pubkey::try_find_program_address`. Claimed of
/// it: it tries the bumps from 255 down to 1 and stops at the first with which the
/// seeds derive an address; it finds nothing only where none of them does.
#[verifier::external_body]
fn try_find_program_address(seeds: &[&[u8]], program_id: &[u8; 32]) -> (r: Option<([u8; 32], u8)>)
    ensures
        match r {
            Some((address, bump)) => {
                &&& bump >= 1
                &&& program_address(with_bump(seed_bytes(seeds@), bump), program_id@) == Some(
                    address@,
                )
                &&& forall|higher: u8|
                    higher > bump ==> #[trigger] program_address(
                        with_bump(seed_bytes(seeds@), higher),
                        program_id@,
                    ) is None
            },
            None => forall|bump: u8|
                bump >= 1 ==> #[trigger] program_address(
                    with_bump(seed_bytes(seeds@), bump),
                    program_id@,
                ) is None,
        },
{
    let program_id = anchor_lang::prelude::Pubkey::new_from_array(*program_id);
    anchor_lang::prelude::Pubkey::try_find_program_address(seeds, &program_id).map(
        |found| (found.0.to_bytes(), found.1),
    )
}

/// The bytes of `vault`.
pub const VAULT_PREFIX: [u8; 5] = [0x76, 0x61, 0x75, 0x6c, 0x74];

/// The bytes of `authority`.
pub const AUTHORITY_PREFIX: [u8; 9] = [0x61, 0x75, 0x74, 0x68, 0x6f, 0x72, 0x69, 0x74, 0x79];

/// The bytes of `tokens`.
pub const TOKENS_PREFIX: [u8; 6] = [0x74, 0x6f, 0x6b, 0x65, 0x6e, 0x73];

/// `vault`, then the owner and the mint: the seeds of the account with the books.
pub open spec fn vault_seeds(owner: Seq<u8>, mint: Seq<u8>) -> Seq<Seq<u8>> {
    seq![VAULT_PREFIX@, owner, mint]
}

/// `authority`, then the vault: the seeds of the authority over the tokens.
pub open spec fn authority_seeds(vault: Seq<u8>) -> Seq<Seq<u8>> {
    seq![AUTHORITY_PREFIX@, vault]
}

/// `tokens`, then the vault: the seeds of the account with the tokens.
pub open spec fn token_account_seeds(vault: Seq<u8>) -> Seq<Seq<u8>> {
    seq![TOKENS_PREFIX@, vault]
}

/// An address that may be missing, as bytes.
pub open spec fn address_bytes(address: Option<Pubkey>) -> Option<Seq<u8>> {
    match address {
        Some(key) => Some(key@),
        None => None,
    }
}

/// An address found for a list of seeds, and the bump it was found with.
#[derive(Clone, Copy, Debug, PartialEq, Eq)]
pub struct FoundAddress {
    pub key: Pubkey,
    pub bump: u8,
}

/// Whether an address is the one that the seeds derive with the highest bump that
/// derives any.
pub open spec fn is_canonical(
    found: FoundAddress,
    seeds: Seq<Seq<u8>>,
    program_id: Seq<u8>,
) -> bool {
    &&& found.bump >= 1
    &&& program_address(with_bump(seeds, found.bump), program_id) == Some(found.key@)
    &&& forall|higher: u8|
        higher > found.bump ==> #[trigger] program_address(
            with_bump(seeds, higher),
            program_id,
        ) is None
}

/// Whether the seeds derive no address with any bump but zero, which is never tried.
pub open spec fn has_no_address(seeds: Seq<Seq<u8>>, program_id: Seq<u8>) -> bool {
    forall|bump: u8|
        bump >= 1 ==> #[trigger] program_address(with_bump(seeds, bump), program_id) is None
}

/// Seeds have at most one canonical address: whoever looks for it finds the same
/// address and the same bump.
pub proof fn law_one_canonical_address(
    a: FoundAddress,
    b: FoundAddress,
    seeds: Seq<Seq<u8>>,
    program_id: Seq<u8>,
)
    requires
        is_canonical(a, seeds, program_id),
        is_canonical(b, seeds, program_id),
    ensures
        a == b,
{
    if a.bump < b.bump {
        assert(program_address(with_bump(seeds, b.bump), program_id) is None);
    }
    if b.bump < a.bump {
        assert(program_address(with_bump(seeds, a.bump), program_id) is None);
    }
    crate::pubkey::lemma_pubkey_is_its_bytes(a.key, b.key);
}

/// Whether a key is the canonical address of the seeds.
pub open spec fn is_canonical_key(key: Pubkey, seeds: Seq<Seq<u8>>, program_id: Seq<u8>) -> bool {
    exists|bump: u8| #[trigger] is_canonical(FoundAddress { key, bump }, seeds, program_id)
}

/// The bump with which a key is the canonical address of the seeds.
pub open spec fn canonical_bump(key: Pubkey, seeds: Seq<Seq<u8>>, program_id: Seq<u8>) -> u8 {
    choose|bump: u8| #[trigger] is_canonical(FoundAddress { key, bump }, seeds, program_id)
}

/// An address that was found is the one canonical key of its seeds.
pub proof fn lemma_canonical_key(found: FoundAddress, seeds: Seq<Seq<u8>>, program_id: Seq<u8>)
    requires
        is_canonical(found, seeds, program_id),
    ensures
        !has_no_address(seeds, program_id),
        forall|key: Pubkey|
            #[trigger] is_canonical_key(key, seeds, program_id) <==> key == found.key,
        canonical_bump(found.key, seeds, program_id) == found.bump,
{
    assert(program_address(with_bump(seeds, found.bump), program_id) is Some);
    assert(is_canonical(
        FoundAddress { key: found.key, bump: found.bump },
        seeds,
        program_id,
    ));
    assert forall|key: Pubkey| #[trigger] is_canonical_key(key, seeds, program_id) implies key
        == found.key by {
        let bump = canonical_bump(key, seeds, program_id);
        law_one_canonical_address(FoundAddress { key, bump }, found, seeds, program_id);
    }
    let bump = canonical_bump(found.key, seeds, program_id);
    law_one_canonical_address(FoundAddress { key: found.key, bump }, found, seeds, program_id);
}

/// The address that the seeds derive with a bump.
fn derive(seeds: &[&[u8]], bump: u8, program_id: &Pubkey) -> (address: Option<Pubkey>)
    ensures
        address_bytes(address) == program_address(
            with_bump(seed_bytes(seeds@), bump),
            program_id@,
        ),
{
    let last: [u8; 1] = [bump];
    let mut all: Vec<&[u8]> = Vec::new();
    let mut i: usize = 0;
    while i < seeds.len()
        invariant
            i <= seeds@.len(),
            all@ == seeds@.take(i as int),
        decreases seeds@.len() - i,
    {
        all.push(seeds[i]);
        i = i + 1;
    }
    all.push(last.as_slice());
    assert(last@ =~= seq![bump]);
    assert(seed_bytes(all@) =~= with_bump(seed_bytes(seeds@), bump));
    match create_program_address(all.as_slice(), &program_id.bytes) {
        Ok(bytes) => Some(Pubkey { bytes }),
        Err(_) => None,
    }
}

/// The address that the seeds derive with the highest bump that derives any.
fn find(seeds: &[&[u8]], program_id: &Pubkey) -> (found: Option<FoundAddress>)
    ensures
        match found {
            Some(found) => is_canonical(found, seed_bytes(seeds@), program_id@),
            None => has_no_address(seed_bytes(seeds@), program_id@),
        },
{
    match try_find_program_address(seeds, &program_id.bytes) {
        Some((bytes, bump)) => Some(FoundAddress { key: Pubkey { bytes }, bump }),
        None => None,
    }
}

/// The address of the books of the vault that an owner has for a mint.
pub fn vault_address(owner: &Pubkey, mint: &Pubkey, bump: u8, program_id: &Pubkey) -> (address:
    Option<Pubkey>)
    ensures
        address_bytes(address) == program_address(
            with_bump(vault_seeds(owner@, mint@), bump),
            program_id@,
        ),
{
    let prefix: [u8; 5] = VAULT_PREFIX;
    let seeds: [&[u8]; 3] = [prefix.as_slice(), owner.bytes.as_slice(), mint.bytes.as_slice()];
    assert(seed_bytes(seeds@) =~= vault_seeds(owner@, mint@));
    derive(seeds.as_slice(), bump, program_id)
}

/// The address of the authority over a vault's tokens.
pub fn authority_address(vault: &Pubkey, bump: u8, program_id: &Pubkey) -> (address: Option<Pubkey>)
    ensures
        address_bytes(address) == program_address(
            with_bump(authority_seeds(vault@), bump),
            program_id@,
        ),
{
    let prefix: [u8; 9] = AUTHORITY_PREFIX;
    let seeds: [&[u8]; 2] = [prefix.as_slice(), vault.bytes.as_slice()];
    assert(seed_bytes(seeds@) =~= authority_seeds(vault@));
    derive(seeds.as_slice(), bump, program_id)
}

/// The address of the account with a vault's tokens.
pub fn token_account_address(vault: &Pubkey, bump: u8, program_id: &Pubkey) -> (address: Option<
    Pubkey,
>)
    ensures
        address_bytes(address) == program_address(
            with_bump(token_account_seeds(vault@), bump),
            program_id@,
        ),
{
    let prefix: [u8; 6] = TOKENS_PREFIX;
    let seeds: [&[u8]; 2] = [prefix.as_slice(), vault.bytes.as_slice()];
    assert(seed_bytes(seeds@) =~= token_account_seeds(vault@));
    derive(seeds.as_slice(), bump, program_id)
}

/// The address at which the books of the vault that an owner opens for a mint go.
pub fn find_vault_address(owner: &Pubkey, mint: &Pubkey, program_id: &Pubkey) -> (found: Option<
    FoundAddress,
>)
    ensures
        match found {
            Some(found) => is_canonical(found, vault_seeds(owner@, mint@), program_id@),
            None => has_no_address(vault_seeds(owner@, mint@), program_id@),
        },
{
    let prefix: [u8; 5] = VAULT_PREFIX;
    let seeds: [&[u8]; 3] = [prefix.as_slice(), owner.bytes.as_slice(), mint.bytes.as_slice()];
    assert(seed_bytes(seeds@) =~= vault_seeds(owner@, mint@));
    find(seeds.as_slice(), program_id)
}

/// The address of the authority over the tokens of a vault that is opened.
pub fn find_authority_address(vault: &Pubkey, program_id: &Pubkey) -> (found: Option<FoundAddress>)
    ensures
        match found {
            Some(found) => is_canonical(found, authority_seeds(vault@), program_id@),
            None => has_no_address(authority_seeds(vault@), program_id@),
        },
{
    let prefix: [u8; 9] = AUTHORITY_PREFIX;
    let seeds: [&[u8]; 2] = [prefix.as_slice(), vault.bytes.as_slice()];
    assert(seed_bytes(seeds@) =~= authority_seeds(vault@));
    find(seeds.as_slice(), program_id)
}

/// The address at which the tokens of a vault that is opened go.
pub fn find_token_account_address(vault: &Pubkey, program_id: &Pubkey) -> (found: Option<
    FoundAddress,
>)
    ensures
        match found {
            Some(found) => is_canonical(found, token_account_seeds(vault@), program_id@),
            None => has_no_address(token_account_seeds(vault@), program_id@),
        },
{
    let prefix: [u8; 6] = TOKENS_PREFIX;
    let seeds: [&[u8]; 2] = [prefix.as_slice(), vault.bytes.as_slice()];
    assert(seed_bytes(seeds@) =~= token_account_seeds(vault@));
    find(seeds.as_slice(), program_id)
}

/// The seeds with which the authority over a vault's tokens signs a call.
pub fn authority_signer_seeds(vault: &Pubkey, bump: u8) -> (signer_seeds: Vec<Vec<Vec<u8>>>)
    ensures
        signer_seeds.deep_view() == seq![with_bump(authority_seeds(vault@), bump)],
{
    let prefix: [u8; 9] = AUTHORITY_PREFIX;
    let last: [u8; 1] = [bump];
    let mut seeds: Vec<Vec<u8>> = Vec::new();
    seeds.push(vstd::slice::slice_to_vec(prefix.as_slice()));
    seeds.push(vstd::slice::slice_to_vec(vault.bytes.as_slice()));
    seeds.push(vstd::slice::slice_to_vec(last.as_slice()));
    assert(seeds@[0].deep_view() =~= AUTHORITY_PREFIX@);
    assert(seeds@[1].deep_view() =~= vault@);
    assert(seeds@[2].deep_view() =~= seq![bump]);
    assert(seeds.deep_view() =~= with_bump(authority_seeds(vault@), bump));
    let mut signer_seeds: Vec<Vec<Vec<u8>>> = Vec::new();
    signer_seeds.push(seeds);
    assert(signer_seeds.deep_view() =~= seq![with_bump(authority_seeds(vault@), bump)]);
    signer_seeds
}

} // verus!
