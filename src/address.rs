use anchor_lang::solana_program::pubkey::{Pubkey, PubkeyError};
use vstd::prelude::*;
use crate::error::VaultError;

verus! {

/// A 32-byte account address or principal identity.
#[derive(Clone, Copy, Debug, PartialEq, Eq)]
pub struct Key {
    pub bytes: [u8; 32],
}

impl View for Key {
    type V = Seq<u8>;

    open spec fn view(&self) -> Seq<u8> {
        self.bytes@
    }
}

/// Compares two keys byte by byte.
pub fn same_key(a: &Key, b: &Key) -> (r: bool)
    ensures
        r == (a@ == b@),
{
    let mut i: usize = 0;
    while i < 32
        invariant
            0 <= i <= 32,
            a@.len() == 32,
            b@.len() == 32,
            forall|j: int| 0 <= j < i ==> a@[j] == b@[j],
        decreases 32 - i,
    {
        if a.bytes[i] != b.bytes[i] {
            return false;
        }
        i = i + 1;
    }
    proof {
        assert(a@ =~= b@);
    }
    true
}

/// The bytes of a key, as a seed.
pub fn key_seed(k: &Key) -> (r: Vec<u8>)
    ensures
        r@ == k@,
{
    let mut r: Vec<u8> = Vec::new();
    let mut i: usize = 0;
    while i < 32
        invariant
            0 <= i <= 32,
            k@.len() == 32,
            r@ == k@.subrange(0, i as int),
        decreases 32 - i,
    {
        r.push(k.bytes[i]);
        i = i + 1;
        proof {
            assert(r@ =~= k@.subrange(0, i as int));
        }
    }
    proof {
        assert(r@ =~= k@);
    }
    r
}

/// The namespace tag `"vault"`.
pub open spec fn vault_tag() -> Seq<u8> {
    seq![118u8, 97u8, 117u8, 108u8, 116u8]
}

/// The namespace tag `"customer"`.
pub open spec fn customer_tag() -> Seq<u8> {
    seq![99u8, 117u8, 115u8, 116u8, 111u8, 109u8, 101u8, 114u8]
}

/// Seeds of the vault record of a manager.
pub open spec fn vault_seeds(manager: Seq<u8>) -> Seq<Seq<u8>> {
    seq![vault_tag(), manager]
}

/// Seeds of a customer's custody record, whose address is also the authority
/// over the customer's custody token account.
pub open spec fn record_seeds(vault: Seq<u8>, customer: Seq<u8>) -> Seq<Seq<u8>> {
    seq![vault_tag(), customer_tag(), vault, customer]
}

/// Seeds of a customer's custody token account.
pub open spec fn custody_seeds(vault: Seq<u8>, customer: Seq<u8>) -> Seq<Seq<u8>> {
    seq![vault_tag(), vault, customer]
}

/// Seeds followed by the one-byte disambiguator.
pub open spec fn with_bump(seeds: Seq<Seq<u8>>, bump: u8) -> Seq<Seq<u8>> {
    seeds.push(seq![bump])
}

/// The byte strings held by a list of seeds.
pub open spec fn seeds_view(seeds: Seq<Vec<u8>>) -> Seq<Seq<u8>> {
    seeds.map_values(|s: Vec<u8>| s@)
}

/// The address and disambiguation byte found for seeds under a program, if any.
pub uninterp spec fn found_program_address(seeds: Seq<Seq<u8>>, program: Seq<u8>) -> Option<(Seq<u8>, u8)>;

/// The address that seeds (disambiguator included) give under a program, if valid.
pub uninterp spec fn created_program_address(seeds: Seq<Seq<u8>>, program: Seq<u8>) -> Option<Seq<u8>>;

/// The error of `Pubkey::create_program_address`, carried through unread.
#[verifier::external_type_specification]
#[verifier::external_body]
pub struct ExPubkeyError(PubkeyError);

/// Relies on `Pubkey::try_find_program_address`: it tries the disambiguation
/// bytes from 255 down and returns the first one for which
/// `Pubkey::create_program_address` accepts the seeds followed by that byte,
/// together with the address it gave.
#[verifier::external_body]
fn try_find_program_address(seeds: &Vec<Vec<u8>>, program: &Key) -> (r: Option<(Key, u8)>)
    ensures
        r is None <==> found_program_address(seeds_view(seeds@), program@) is None,
        r matches Some(p) ==> found_program_address(seeds_view(seeds@), program@) == Some(
            (p.0@, p.1),
        ),
        r matches Some(p) ==> created_program_address(
            with_bump(seeds_view(seeds@), p.1),
            program@,
        ) == Some(p.0@),
{
    let refs: Vec<&[u8]> = seeds.iter().map(|s| s.as_slice()).collect();
    Pubkey::try_find_program_address(&refs, &Pubkey::new_from_array(program.bytes)).map(
        |(a, b)| (Key { bytes: a.to_bytes() }, b),
    )
}

/// Relies on `Pubkey::create_program_address`: the address that the seeds give
/// under the program, or an error when they give none.
#[verifier::external_body]
fn create_program_address(seeds: &Vec<Vec<u8>>, program: &Key) -> (r: Result<Key, PubkeyError>)
    ensures
        r is Ok <==> created_program_address(seeds_view(seeds@), program@) is Some,
        r matches Ok(k) ==> created_program_address(seeds_view(seeds@), program@) == Some(k@),
{
    let refs: Vec<&[u8]> = seeds.iter().map(|s| s.as_slice()).collect();
    Pubkey::create_program_address(&refs, &Pubkey::new_from_array(program.bytes)).map(
        |a| Key { bytes: a.to_bytes() },
    )
}

fn vault_tag_bytes() -> (r: Vec<u8>)
    ensures
        r@ == vault_tag(),
{
    let r: Vec<u8> = vec![118u8, 97u8, 117u8, 108u8, 116u8];
    proof {
        assert(r@ =~= vault_tag());
    }
    r
}

fn customer_tag_bytes() -> (r: Vec<u8>)
    ensures
        r@ == customer_tag(),
{
    let r: Vec<u8> = vec![99u8, 117u8, 115u8, 116u8, 111u8, 109u8, 101u8, 114u8];
    proof {
        assert(r@ =~= customer_tag());
    }
    r
}

/// The seeds of the vault record of `manager`.
pub fn vault_seed_list(manager: &Key) -> (r: Vec<Vec<u8>>)
    ensures
        seeds_view(r@) == vault_seeds(manager@),
{
    let mut r: Vec<Vec<u8>> = Vec::new();
    r.push(vault_tag_bytes());
    r.push(key_seed(manager));
    proof {
        assert(seeds_view(r@) =~= vault_seeds(manager@));
    }
    r
}

/// The seeds of the custody record of `customer` in the vault at `vault`.
pub fn record_seed_list(vault: &Key, customer: &Key) -> (r: Vec<Vec<u8>>)
    ensures
        seeds_view(r@) == record_seeds(vault@, customer@),
{
    let mut r: Vec<Vec<u8>> = Vec::new();
    r.push(vault_tag_bytes());
    r.push(customer_tag_bytes());
    r.push(key_seed(vault));
    r.push(key_seed(customer));
    proof {
        assert(seeds_view(r@) =~= record_seeds(vault@, customer@));
    }
    r
}

/// The seeds of the custody token account of `customer` in the vault at `vault`.
pub fn custody_seed_list(vault: &Key, customer: &Key) -> (r: Vec<Vec<u8>>)
    ensures
        seeds_view(r@) == custody_seeds(vault@, customer@),
{
    let mut r: Vec<Vec<u8>> = Vec::new();
    r.push(vault_tag_bytes());
    r.push(key_seed(vault));
    r.push(key_seed(customer));
    proof {
        assert(seeds_view(r@) =~= custody_seeds(vault@, customer@));
    }
    r
}

/// Derives the address of `seeds` under `program`, with the disambiguation
/// byte that was used; the same seeds always give the same pair.
pub fn derive_address(seeds: &Vec<Vec<u8>>, program: &Key) -> (r: Result<(Key, u8), VaultError>)
    ensures
        r is Err <==> found_program_address(seeds_view(seeds@), program@) is None,
        r matches Err(e) ==> e == VaultError::AddressSpaceExhausted,
        r matches Ok(p) ==> found_program_address(seeds_view(seeds@), program@) == Some(
            (p.0@, p.1),
        ),
        r matches Ok(p) ==> created_program_address(with_bump(seeds_view(seeds@), p.1), program@)
            == Some(p.0@),
{
    match try_find_program_address(seeds, program) {
        Some(p) => Ok(p),
        None => Err(VaultError::AddressSpaceExhausted),
    }
}

/// Whether the custody record of `customer` in the vault at `vault`, with the
/// stored disambiguation byte `bump`, reconstructs the address `authority`.
pub open spec fn authority_reconstructs(
    program: Seq<u8>,
    vault: Seq<u8>,
    customer: Seq<u8>,
    bump: u8,
    authority: Seq<u8>,
) -> bool {
    created_program_address(with_bump(record_seeds(vault, customer), bump), program) == Some(
        authority,
    )
}

/// Reconstructs the signer seeds that let the program act as `authority`, the
/// custody record of `customer` in the vault at `vault`, from the stored
/// disambiguation byte. Any mismatch of the seeds is refused.
pub fn sign_as(program: &Key, vault: &Key, customer: &Key, bump: u8, authority: &Key) -> (r: Result<
    Vec<Vec<u8>>,
    VaultError,
>)
    ensures
        r is Ok <==> authority_reconstructs(program@, vault@, customer@, bump, authority@),
        r matches Err(e) ==> e == VaultError::AuthorityMismatch,
        r matches Ok(s) ==> seeds_view(s@) == with_bump(record_seeds(vault@, customer@), bump),
{
    let mut seeds = record_seed_list(vault, customer);
    let ghost before = seeds_view(seeds@);
    let b: Vec<u8> = vec![bump];
    proof {
        assert(b@ =~= seq![bump]);
    }
    seeds.push(b);
    proof {
        assert(seeds_view(seeds@) =~= with_bump(before, bump));
    }
    match create_program_address(&seeds, program) {
        Ok(k) => {
            if same_key(&k, authority) {
                Ok(seeds)
            } else {
                Err(VaultError::AuthorityMismatch)
            }
        },
        Err(_) => Err(VaultError::AuthorityMismatch),
    }
}

} // verus!
