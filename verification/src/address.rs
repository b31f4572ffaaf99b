//! Account identities and their deterministic derivation from seeds.
//!
//! Every account of the vesting program lives at an address that is derived
//! from what the account stands for: a vesting account from the company
//! name, its treasury from a fixed tag and the company name, an employee
//! account from a fixed tag, the beneficiary and the vesting account. The
//! derivation also yields a bump seed, which is recorded so that the address
//! can be confirmed later from the seeds and the bump alone.

use anchor_lang::prelude::Pubkey;
use vstd::prelude::*;
use vstd::slice::slice_to_vec;
use vstd::std_specs::cmp::PartialEqSpecImpl;
use vstd::string::StringSliceAdditionalSpecFns;

verus! {

/// The identity of an account, a token type or a signer: 32 bytes.
#[derive(Clone, Copy, Debug, Eq, Hash)]
pub struct Address {
    pub bytes: [u8; 32],
}

impl View for Address {
    type V = Seq<u8>;

    open spec fn view(&self) -> Seq<u8> {
        self.bytes@
    }
}

impl PartialEq for Address {
    fn eq(&self, other: &Self) -> (equal: bool) {
        let mut i: usize = 0;
        while i < 32
            invariant
                i <= 32,
                forall|j: int| 0 <= j < i ==> self.bytes[j] == other.bytes[j],
            decreases 32 - i,
        {
            if self.bytes[i] != other.bytes[i] {
                return false;
            }
            i += 1;
        }
        assert(self.bytes =~= other.bytes);
        true
    }
}

impl PartialEqSpecImpl for Address {
    open spec fn obeys_eq_spec() -> bool {
        true
    }

    open spec fn eq_spec(&self, other: &Self) -> bool {
        *self == *other
    }
}

impl Address {
    /// The address with the given bytes.
    pub fn new(bytes: [u8; 32]) -> (address: Address)
        ensures
            address.bytes == bytes,
    {
        Address { bytes }
    }

    /// The bytes of the address, as a seed for a derivation.
    pub fn to_seed(&self) -> (seed: Vec<u8>)
        ensures
            seed@ == self@,
    {
        slice_to_vec(self.bytes.as_slice())
    }
}

/// The seeds of a vesting account: the company name.
pub open spec fn vesting_account_seeds(company_name: Seq<char>) -> Seq<Seq<u8>> {
    seq![vstd::utf8::encode_utf8(company_name)]
}

/// The seeds of the treasury of a company: a fixed tag and the company name.
pub open spec fn treasury_seeds(company_name: Seq<char>) -> Seq<Seq<u8>> {
    seq!["vesting_treasury".spec_bytes(), vstd::utf8::encode_utf8(company_name)]
}

/// The seeds of an employee account: a fixed tag, the beneficiary and the
/// vesting account that the allocation comes from.
pub open spec fn employee_seeds(beneficiary: Address, vesting_account: Address) -> Seq<Seq<u8>> {
    seq!["employee_vesting".spec_bytes(), beneficiary@, vesting_account@]
}

/// The seeds followed by a bump seed of one byte.
pub open spec fn with_bump(seeds: Seq<Seq<u8>>, bump: u8) -> Seq<Seq<u8>> {
    seeds.push(seq![bump])
}

/// The address of a derivation, where it found one.
pub open spec fn address_of(pda: Option<(Address, u8)>) -> Option<Address> {
    match pda {
        Some((address, _)) => Some(address),
        None => None,
    }
}

/// The bump seed of a derivation, where it found one.
pub open spec fn bump_of(pda: Option<(Address, u8)>) -> u8 {
    match pda {
        Some((_, bump)) => bump,
        None => 0,
    }
}

/// The address and bump seed that `Pubkey::try_find_program_address` yields
/// for the given seeds under the given program, or `None` where it finds none.
pub uninterp spec fn found_program_address(seeds: Seq<Seq<u8>>, program_id: Address) -> Option<
    (Address, u8),
>;

/// The address that `Pubkey::create_program_address` yields for the given
/// seeds, the bump seed among them, under the given program, or `None` where
/// it yields an error.
pub uninterp spec fn created_program_address(seeds: Seq<Seq<u8>>, program_id: Address) -> Option<
    Address,
>;

/// Searches for a program-derived address by `Pubkey::try_find_program_address`.
///
/// Trusted: the result is a function of the seeds and the program identity
/// alone, which `found_program_address` names; and an address that is found
/// is the one that `Pubkey::create_program_address` yields for the seeds
/// followed by the bump seed found with it, since the search consists of
/// such derivations and returns the first that succeeds. Nothing else is
/// claimed of it.
#[verifier::external_body]
fn find_program_address(seeds: &Vec<Vec<u8>>, program_id: &Address) -> (found: Option<
    (Address, u8),
>)
    ensures
        found == found_program_address(seeds.deep_view(), *program_id),
        found matches Some((address, bump)) ==> created_program_address(
            with_bump(seeds.deep_view(), bump),
            *program_id,
        ) == Some(address),
{
    let parts: Vec<&[u8]> = seeds.iter().map(|seed| seed.as_slice()).collect();
    match Pubkey::try_find_program_address(&parts, &Pubkey::new_from_array(program_id.bytes)) {
        Some((key, bump)) => Some((Address { bytes: key.to_bytes() }, bump)),
        None => None,
    }
}

/// Derives a program address from seeds that hold their bump seed, by
/// `Pubkey::create_program_address`.
///
/// Trusted: the result is a function of the seeds and the program identity
/// alone, which `created_program_address` names; every error of the
/// derivation is `None`. Nothing else is claimed of it.
#[verifier::external_body]
fn create_program_address(seeds: &Vec<Vec<u8>>, program_id: &Address) -> (created: Option<Address>)
    ensures
        created == created_program_address(seeds.deep_view(), *program_id),
{
    let parts: Vec<&[u8]> = seeds.iter().map(|seed| seed.as_slice()).collect();
    match Pubkey::create_program_address(&parts, &Pubkey::new_from_array(program_id.bytes)) {
        Ok(key) => Some(Address { bytes: key.to_bytes() }),
        Err(_) => None,
    }
}

/// The seeds of the vesting account of a company, with the bump seed where
/// one is given.
pub fn vesting_account_seed_list(company_name: &str, bump: Option<u8>) -> (seeds: Vec<Vec<u8>>)
    ensures
        seeds.deep_view() == match bump {
            Some(bump) => with_bump(vesting_account_seeds(company_name@), bump),
            None => vesting_account_seeds(company_name@),
        },
{
    let mut seeds: Vec<Vec<u8>> = Vec::new();
    seeds.push(slice_to_vec(company_name.as_bytes()));
    assert(seeds.deep_view() =~~= vesting_account_seeds(company_name@));
    push_bump(&mut seeds, bump);
    seeds
}

/// The seeds of the treasury of a company, with the bump seed where one is
/// given. With the bump seed they are the seeds by which the program signs
/// for the treasury.
pub fn treasury_seed_list(company_name: &str, bump: Option<u8>) -> (seeds: Vec<Vec<u8>>)
    ensures
        seeds.deep_view() == match bump {
            Some(bump) => with_bump(treasury_seeds(company_name@), bump),
            None => treasury_seeds(company_name@),
        },
{
    let mut seeds: Vec<Vec<u8>> = Vec::new();
    seeds.push(slice_to_vec("vesting_treasury".as_bytes()));
    seeds.push(slice_to_vec(company_name.as_bytes()));
    assert(seeds.deep_view() =~~= treasury_seeds(company_name@));
    push_bump(&mut seeds, bump);
    seeds
}

/// The seeds of the employee account of a beneficiary under a vesting
/// account, with the bump seed where one is given.
pub fn employee_seed_list(beneficiary: &Address, vesting_account: &Address, bump: Option<u8>) -> (seeds:
    Vec<Vec<u8>>)
    ensures
        seeds.deep_view() == match bump {
            Some(bump) => with_bump(employee_seeds(*beneficiary, *vesting_account), bump),
            None => employee_seeds(*beneficiary, *vesting_account),
        },
{
    let mut seeds: Vec<Vec<u8>> = Vec::new();
    seeds.push(slice_to_vec("employee_vesting".as_bytes()));
    seeds.push(beneficiary.to_seed());
    seeds.push(vesting_account.to_seed());
    assert(seeds.deep_view() =~~= employee_seeds(*beneficiary, *vesting_account));
    push_bump(&mut seeds, bump);
    seeds
}

fn push_bump(seeds: &mut Vec<Vec<u8>>, bump: Option<u8>)
    ensures
        final(seeds).deep_view() == match bump {
            Some(bump) => with_bump(old(seeds).deep_view(), bump),
            None => old(seeds).deep_view(),
        },
{
    if let Some(bump) = bump {
        let mut last: Vec<u8> = Vec::new();
        last.push(bump);
        seeds.push(last);
        assert(seeds.deep_view() =~~= with_bump(old(seeds).deep_view(), bump));
    }
}

/// The address of the vesting account of a company, and its bump seed. The
/// bump seed confirms the address: see `vesting_account_address`.
pub fn find_vesting_account_address(company_name: &str, program_id: &Address) -> (found: Option<
    (Address, u8),
>)
    ensures
        found == found_program_address(vesting_account_seeds(company_name@), *program_id),
        found matches Some((address, bump)) ==> created_program_address(
            with_bump(vesting_account_seeds(company_name@), bump),
            *program_id,
        ) == Some(address),
{
    find_program_address(&vesting_account_seed_list(company_name, None), program_id)
}

/// The address of the treasury of a company, and its bump seed. The bump
/// seed confirms the address: see `treasury_address`.
pub fn find_treasury_address(company_name: &str, program_id: &Address) -> (found: Option<
    (Address, u8),
>)
    ensures
        found == found_program_address(treasury_seeds(company_name@), *program_id),
        found matches Some((address, bump)) ==> created_program_address(
            with_bump(treasury_seeds(company_name@), bump),
            *program_id,
        ) == Some(address),
{
    find_program_address(&treasury_seed_list(company_name, None), program_id)
}

/// The address of the employee account of a beneficiary under a vesting
/// account, and its bump seed. The bump seed confirms the address: see
/// `employee_address`.
pub fn find_employee_address(
    beneficiary: &Address,
    vesting_account: &Address,
    program_id: &Address,
) -> (found: Option<(Address, u8)>)
    ensures
        found == found_program_address(employee_seeds(*beneficiary, *vesting_account), *program_id),
        found matches Some((address, bump)) ==> created_program_address(
            with_bump(employee_seeds(*beneficiary, *vesting_account), bump),
            *program_id,
        ) == Some(address),
{
    find_program_address(&employee_seed_list(beneficiary, vesting_account, None), program_id)
}

/// The address that the company name and a recorded bump seed derive for a
/// vesting account.
pub fn vesting_account_address(company_name: &str, bump: u8, program_id: &Address) -> (created:
    Option<Address>)
    ensures
        created == created_program_address(
            with_bump(vesting_account_seeds(company_name@), bump),
            *program_id,
        ),
{
    create_program_address(&vesting_account_seed_list(company_name, Some(bump)), program_id)
}

/// The address that the company name and a recorded bump seed derive for a
/// treasury.
pub fn treasury_address(company_name: &str, bump: u8, program_id: &Address) -> (created: Option<
    Address,
>)
    ensures
        created == created_program_address(
            with_bump(treasury_seeds(company_name@), bump),
            *program_id,
        ),
{
    create_program_address(&treasury_seed_list(company_name, Some(bump)), program_id)
}

/// The address that a beneficiary, a vesting account and a recorded bump
/// seed derive for an employee account.
pub fn employee_address(
    beneficiary: &Address,
    vesting_account: &Address,
    bump: u8,
    program_id: &Address,
) -> (created: Option<Address>)
    ensures
        created == created_program_address(
            with_bump(employee_seeds(*beneficiary, *vesting_account), bump),
            *program_id,
        ),
{
    create_program_address(&employee_seed_list(beneficiary, vesting_account, Some(bump)), program_id)
}

} // verus!
