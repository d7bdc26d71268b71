//! Identities of records and vaults, and their derivation from public seeds:
//! a namespace tag, then the encoded slug and the participant where the
//! record belongs to one.

use crate::slug::SLUG_LENGTH;
use anchor_lang::prelude::Pubkey;
use vstd::prelude::*;
use vstd::string::*;

verus! {

/// Namespace tag of the administrator record.
pub const STATE: &'static str = "state";

/// Namespace tag of pool records.
pub const POOL: &'static str = "pool";

/// Namespace tag of the positions of participants in pools.
pub const USER_POOL: &'static str = "user_pool";

/// Namespace tag of the deposit vaults of pools.
pub const VAULT: &'static str = "vault";

/// Namespace tag of the fee vaults of pools.
pub const FEE_VAULT: &'static str = "fee-vault";

/// The identity of this program: every address is derived under it.
pub const ID: [u8; 32] = [
    220, 245, 20, 2, 50, 143, 156, 82, 122, 202, 50, 110, 83, 206, 124, 186,
    125, 225, 108, 227, 111, 67, 28, 215, 254, 161, 212, 93, 54, 71, 194, 38,
];

/// The identity of a participant, a record, a vault or an asset.
#[derive(Clone, Copy, Debug)]
pub struct Address {
    pub bytes: [u8; 32],
}

impl PartialEq for Address {
    fn eq(&self, other: &Address) -> (r: bool) {
        let mut i: usize = 0;
        while i < 32
            invariant
                i <= 32,
                forall|j: int| 0 <= j < i ==> self.bytes[j] == other.bytes[j],
            decreases 32 - i,
        {
            if self.bytes[i] != other.bytes[i] {
                return false;
            }
            i += 1;
        }
        assert(self.bytes =~= other.bytes);
        true
    }
}

impl Eq for Address {

}

impl vstd::std_specs::cmp::PartialEqSpecImpl for Address {
    open spec fn obeys_eq_spec() -> bool {
        true
    }

    open spec fn eq_spec(&self, other: &Address) -> bool {
        *self == *other
    }
}

/// The greatest length of a seed, in bytes.
pub const MAX_SEED_LEN: usize = 32;

/// The number of seeds of a derivation is less than this.
pub const MAX_SEEDS: usize = 16;

/// The seeds are few enough and short enough for a derivation.
pub open spec fn within_limits(seeds: Seq<Seq<u8>>) -> bool {
    &&& seeds.len() < MAX_SEEDS
    &&& forall|i: int| 0 <= i < seeds.len() ==> (#[trigger] seeds[i]).len() <= MAX_SEED_LEN
}

/// The address and bump seed that `Pubkey::try_find_program_address` derives
/// from `seeds` under the program `program`, if it finds one.
pub uninterp spec fn program_address(seeds: Seq<Seq<u8>>, program: Seq<u8>) -> Option<(Seq<u8>, u8)>;

/// Calls `Pubkey::try_find_program_address`. The contract claims that the
/// outcome is a function of the seeds and the program's identity, to which
/// it gives the name [`program_address`], and that nothing is found for
/// sixteen seeds or more, or for a seed of more than 32 bytes.
#[verifier::external_body]
fn find_program_address(seeds: &Vec<Vec<u8>>, program: &[u8; 32]) -> (found: Option<([u8; 32], u8)>)
    ensures
        match found {
            Some((key, bump)) => program_address(seeds.deep_view(), program@) == Some((key@, bump)),
            None => program_address(seeds.deep_view(), program@) is None,
        },
        !within_limits(seeds.deep_view()) ==> found is None,
{
    let parts: Vec<&[u8]> = seeds.iter().map(|seed| seed.as_slice()).collect();
    match Pubkey::try_find_program_address(&parts, &Pubkey::new_from_array(*program)) {
        Some((key, bump)) => Some((key.to_bytes(), bump)),
        None => None,
    }
}

/// `address` is what is derived under this program from `seeds`, with the
/// bump seed `bump`.
pub open spec fn derives(seeds: Seq<Seq<u8>>, address: Address, bump: u8) -> bool {
    program_address(seeds, ID@) == Some((address.bytes@, bump))
}

/// `address` is what is derived under this program from `seeds`.
pub open spec fn derives_address(seeds: Seq<Seq<u8>>, address: Address) -> bool {
    exists|bump: u8| derives(seeds, address, bump)
}

/// An address can be derived under this program from `seeds`.
pub open spec fn derivable(seeds: Seq<Seq<u8>>) -> bool {
    program_address(seeds, ID@) is Some
}

/// The seeds of the authority record.
pub open spec fn state_seeds() -> Seq<Seq<u8>> {
    seq![STATE.spec_bytes()]
}

/// The seeds of the pool whose encoded slug is `slug`.
pub open spec fn pool_seeds(slug: Seq<u8>) -> Seq<Seq<u8>> {
    seq![POOL.spec_bytes(), slug]
}

/// The seeds of the deposit vault of the pool whose encoded slug is `slug`.
pub open spec fn vault_seeds(slug: Seq<u8>) -> Seq<Seq<u8>> {
    seq![VAULT.spec_bytes(), slug]
}

/// The seeds of the fee vault of the pool whose encoded slug is `slug`.
pub open spec fn fee_vault_seeds(slug: Seq<u8>) -> Seq<Seq<u8>> {
    seq![FEE_VAULT.spec_bytes(), slug]
}

/// The seeds of the position of `authority` in the pool whose encoded slug
/// is `slug`.
pub open spec fn user_pool_seeds(slug: Seq<u8>, authority: Address) -> Seq<Seq<u8>> {
    seq![USER_POOL.spec_bytes(), slug, authority.bytes@]
}

/// Two addresses derived from the same seeds are one address.
pub proof fn derivation_is_a_function(seeds: Seq<Seq<u8>>, a: Address, b: Address)
    requires
        derives_address(seeds, a),
        derives_address(seeds, b),
    ensures
        a == b,
{
    assert(a.bytes =~= b.bytes);
}

fn seed(bytes: &[u8]) -> (owned: Vec<u8>)
    ensures
        owned@ == bytes@,
{
    let mut owned: Vec<u8> = Vec::new();
    owned.extend_from_slice(bytes);
    owned
}

/// Derives the address that belongs to `seeds` under this program, and its
/// bump seed. There is none where a seed is too long or there are too many; for
/// other seeds there is none only in the improbable case that no bump seed
/// gives an address.
pub fn derive_address(seeds: &Vec<Vec<u8>>) -> (found: Option<(Address, u8)>)
    ensures
        match found {
            Some((address, bump)) => derives(seeds.deep_view(), address, bump),
            None => !derivable(seeds.deep_view()),
        },
        !within_limits(seeds.deep_view()) ==> found is None,
{
    match find_program_address(seeds, &ID) {
        Some((bytes, bump)) => Some((Address { bytes }, bump)),
        None => None,
    }
}

/// Derives an address from a namespace tag alone.
pub fn derive_tagged(tag: &str) -> (found: Option<(Address, u8)>)
    ensures
        match found {
            Some((address, bump)) => derives(seq![tag.spec_bytes()], address, bump),
            None => !derivable(seq![tag.spec_bytes()]),
        },
        tag.spec_bytes().len() > MAX_SEED_LEN ==> found is None,
{
    let mut seeds: Vec<Vec<u8>> = Vec::new();
    seeds.push(seed(tag.as_bytes()));
    assert(seeds.deep_view() =~~= seq![tag.spec_bytes()]);
    assert(seeds.deep_view()[0] == tag.spec_bytes());
    derive_address(&seeds)
}

/// Derives an address from a namespace tag and an encoded slug.
pub fn derive_for_slug(tag: &str, slug: &[u8; SLUG_LENGTH]) -> (found: Option<(Address, u8)>)
    ensures
        match found {
            Some((address, bump)) => derives(seq![tag.spec_bytes(), slug@], address, bump),
            None => !derivable(seq![tag.spec_bytes(), slug@]),
        },
        tag.spec_bytes().len() > MAX_SEED_LEN ==> found is None,
{
    let mut seeds: Vec<Vec<u8>> = Vec::new();
    seeds.push(seed(tag.as_bytes()));
    seeds.push(seed(slug.as_slice()));
    assert(seeds.deep_view() =~~= seq![tag.spec_bytes(), slug@]);
    assert(seeds.deep_view()[0] == tag.spec_bytes());
    derive_address(&seeds)
}

/// Derives an address from a namespace tag, an encoded slug and a
/// participant.
pub fn derive_for_participant(tag: &str, slug: &[u8; SLUG_LENGTH], authority: &Address) -> (found:
    Option<(Address, u8)>)
    ensures
        match found {
            Some((address, bump)) => derives(
                seq![tag.spec_bytes(), slug@, authority.bytes@],
                address,
                bump,
            ),
            None => !derivable(seq![tag.spec_bytes(), slug@, authority.bytes@]),
        },
        tag.spec_bytes().len() > MAX_SEED_LEN ==> found is None,
{
    let mut seeds: Vec<Vec<u8>> = Vec::new();
    seeds.push(seed(tag.as_bytes()));
    seeds.push(seed(slug.as_slice()));
    seeds.push(seed(authority.bytes.as_slice()));
    assert(seeds.deep_view() =~~= seq![tag.spec_bytes(), slug@, authority.bytes@]);
    assert(seeds.deep_view()[0] == tag.spec_bytes());
    derive_address(&seeds)
}

} // verus!
