//! Account addresses, and the derivation of program addresses from seeds.
//!
//! A program address is derived from a list of seeds and the address of the
//! program that owns it. The derivation itself (a digest, and a test that the
//! digest is no point of the curve) is the work of `solana_program`; this
//! module gives its result a name and states the search for a bump seed over
//! that name.

use crate::error::PubkeyError;
use vstd::prelude::*;

verus! {

/// The greatest length of one seed.
pub const MAX_SEED_LEN: usize = 32;

/// The greatest number of seeds of one address, the bump seed included.
pub const MAX_SEEDS: usize = 16;

/// The address of an account: 32 bytes.
#[derive(Clone, Copy, Debug, PartialEq, Eq)]
pub struct Pubkey {
    pub bytes: [u8; 32],
}

impl View for Pubkey {
    type V = Seq<u8>;

    open spec fn view(&self) -> Seq<u8> {
        self.bytes@
    }
}

/// The byte sequences that a list of seeds holds.
pub open spec fn seeds_view(seeds: Seq<Vec<u8>>) -> Seq<Seq<u8>> {
    Seq::new(seeds.len(), |i: int| seeds[i]@)
}

/// The seeds are few enough and short enough to derive an address from.
pub open spec fn seeds_in_bounds(seeds: Seq<Seq<u8>>) -> bool {
    &&& seeds.len() <= MAX_SEEDS
    &&& forall|i: int| 0 <= i < seeds.len() ==> (#[trigger] seeds[i]).len() <= MAX_SEED_LEN
}

/// What `solana_program::pubkey::Pubkey::create_program_address` computes
/// from seeds within bounds and the program's address: the derived address,
/// or `None` where the digest of the seeds is a point of the curve, which is
/// no program address.
pub uninterp spec fn program_address(seeds: Seq<Seq<u8>>, program_id: Seq<u8>) -> Option<Seq<u8>>;

/// The address derived from the seeds as they stand.
pub open spec fn derived_address(seeds: Seq<Seq<u8>>, program_id: Seq<u8>) -> Result<
    Seq<u8>,
    PubkeyError,
> {
    if !seeds_in_bounds(seeds) {
        Err(PubkeyError::MaxSeedLengthExceeded)
    } else {
        match program_address(seeds, program_id) {
            Some(address) => Ok(address),
            None => Err(PubkeyError::InvalidSeeds),
        }
    }
}

/// The seeds with a bump seed of one byte behind them.
pub open spec fn with_bump(seeds: Seq<Seq<u8>>, bump: u8) -> Seq<Seq<u8>> {
    seeds.push(seq![bump])
}

/// The search for a bump seed, from `bump` downwards to 1: the first bump
/// seed that yields an address, with that address. The search ends without
/// one where the seeds are out of bounds.
pub open spec fn found_from(seeds: Seq<Seq<u8>>, program_id: Seq<u8>, bump: u8) -> Option<
    (Seq<u8>, u8),
>
    decreases bump,
{
    if bump == 0 {
        None
    } else {
        match derived_address(with_bump(seeds, bump), program_id) {
            Ok(address) => Some((address, bump)),
            Err(PubkeyError::InvalidSeeds) => found_from(seeds, program_id, (bump - 1) as u8),
            Err(_) => None,
        }
    }
}

/// The address found for the seeds and the bump seed found with it: the
/// search starts at 255.
pub open spec fn found_address(seeds: Seq<Seq<u8>>, program_id: Seq<u8>) -> Option<(Seq<u8>, u8)> {
    found_from(seeds, program_id, 255)
}

/// The result of a derivation, with the address as its bytes.
pub open spec fn derived_view(derived: Result<Pubkey, PubkeyError>) -> Result<Seq<u8>, PubkeyError> {
    match derived {
        Ok(address) => Ok(address@),
        Err(e) => Err(e),
    }
}

/// The result of a search, with the address as its bytes.
pub open spec fn found_view(found: Option<(Pubkey, u8)>) -> Option<(Seq<u8>, u8)> {
    match found {
        Some((address, bump)) => Some((address@, bump)),
        None => None,
    }
}

/// `solana_program::pubkey::Pubkey::create_program_address`: fails with
/// `MaxSeedLengthExceeded` on more than 16 seeds or a seed of more than 32
/// bytes, with `InvalidSeeds` where the digest is a point of the curve, and
/// else returns the address, which depends on the seeds and the program's
/// address alone.
#[verifier::external_body]
fn outside_create_program_address(seeds: &Vec<Vec<u8>>, program_id: &Pubkey) -> (r: Result<Pubkey, PubkeyError>)
    ensures
        !seeds_in_bounds(seeds_view(seeds@)) ==> r matches Err(
            PubkeyError::MaxSeedLengthExceeded,
        ),
        seeds_in_bounds(seeds_view(seeds@)) ==> match program_address(
            seeds_view(seeds@),
            program_id@,
        ) {
            Some(address) => r matches Ok(p) && p@ == address,
            None => r matches Err(PubkeyError::InvalidSeeds),
        },
{
    let slices: Vec<&[u8]> = seeds.iter().map(|s| s.as_slice()).collect();
    let id = solana_program::pubkey::Pubkey::new_from_array(program_id.bytes);
    match solana_program::pubkey::Pubkey::create_program_address(&slices, &id) {
        Ok(p) => Ok(Pubkey { bytes: p.to_bytes() }),
        Err(solana_program::pubkey::PubkeyError::MaxSeedLengthExceeded) => Err(
            PubkeyError::MaxSeedLengthExceeded,
        ),
        Err(solana_program::pubkey::PubkeyError::InvalidSeeds) => Err(PubkeyError::InvalidSeeds),
        Err(solana_program::pubkey::PubkeyError::IllegalOwner) => Err(PubkeyError::IllegalOwner),
    }
}

/// `solana_program::pubkey::Pubkey::try_find_program_address`: tries the bump
/// seeds 255, 254, ..., 1 behind the seeds, in that order, and returns the
/// first address that `create_program_address` yields, with its bump seed;
/// it goes on to the next bump seed after `InvalidSeeds` only, and returns
/// `None` after any other failure or when bump seed 1 has failed too.
#[verifier::external_body]
fn outside_try_find_program_address(seeds: &Vec<Vec<u8>>, program_id: &Pubkey) -> (r: Option<(Pubkey, u8)>)
    ensures
        match found_address(seeds_view(seeds@), program_id@) {
            Some((address, bump)) => r matches Some((p, b)) && p@ == address && b == bump,
            None => r is None,
        },
{
    let slices: Vec<&[u8]> = seeds.iter().map(|s| s.as_slice()).collect();
    let id = solana_program::pubkey::Pubkey::new_from_array(program_id.bytes);
    match solana_program::pubkey::Pubkey::try_find_program_address(&slices, &id) {
        Some((p, bump)) => Some((Pubkey { bytes: p.to_bytes() }, bump)),
        None => None,
    }
}

impl Pubkey {
    /// The address made of the given bytes.
    pub fn new_from_array(bytes: [u8; 32]) -> (r: Pubkey)
        ensures
            r.bytes == bytes,
    {
        Pubkey { bytes }
    }

    /// The bytes of the address.
    pub fn to_bytes(&self) -> (r: [u8; 32])
        ensures
            r == self.bytes,
    {
        self.bytes
    }

    /// The address whose bytes are those of `bytes`.
    pub(crate) fn from_slice(bytes: &[u8]) -> (r: Pubkey)
        requires
            bytes@.len() == 32,
        ensures
            r@ == bytes@,
    {
        let mut array: [u8; 32] = [0u8; 32];
        let mut i: usize = 0;
        while i < 32
            invariant
                i <= 32,
                bytes@.len() == 32,
                forall|j: int| 0 <= j < i ==> array@[j] == bytes@[j],
            decreases 32 - i,
        {
            array[i] = bytes[i];
            i += 1;
        }
        assert(array@ =~= bytes@);
        Pubkey { bytes: array }
    }

    /// The bytes of the address, as a seed.
    pub fn to_vec(&self) -> (r: Vec<u8>)
        ensures
            r@ == self@,
    {
        let mut out: Vec<u8> = Vec::new();
        let mut i: usize = 0;
        while i < 32
            invariant
                i <= 32,
                out@ == self@.take(i as int),
            decreases 32 - i,
        {
            out.push(self.bytes[i]);
            i += 1;
        }
        out
    }

    /// Whether two addresses hold the same bytes.
    pub fn same_as(&self, other: &Pubkey) -> (r: bool)
        ensures
            r == (self@ == other@),
    {
        let mut i: usize = 0;
        while i < 32
            invariant
                i <= 32,
                forall|j: int| 0 <= j < i ==> self.bytes[j] == other.bytes[j],
            decreases 32 - i,
        {
            if self.bytes[i] != other.bytes[i] {
                return false;
            }
            i += 1;
        }
        assert(self@ =~= other@);
        true
    }

    /// Addresses with the same bytes are the same address.
    pub proof fn lemma_view_injective(a: Pubkey, b: Pubkey)
        requires
            a@ == b@,
        ensures
            a == b,
    {
        assert(a.bytes@ =~= b.bytes@);
        assert(a.bytes == b.bytes);
    }

    /// Derives the address that belongs to the seeds as they stand, the bump
    /// seed among them.
    pub fn create_program_address(seeds: &Vec<Vec<u8>>, program_id: &Pubkey) -> (r: Result<Pubkey, PubkeyError>)
        ensures
            derived_view(r) == derived_address(seeds_view(seeds@), program_id@),
    {
        outside_create_program_address(seeds, program_id)
    }

    /// Finds the address that belongs to the seeds, and the bump seed that
    /// makes it one: the greatest bump seed that yields an address. `None`
    /// where no bump seed from 255 down to 1 does.
    pub fn try_find_program_address(seeds: &Vec<Vec<u8>>, program_id: &Pubkey) -> (r: Option<(Pubkey, u8)>)
        ensures
            found_view(r) == found_address(seeds_view(seeds@), program_id@),
    {
        outside_try_find_program_address(seeds, program_id)
    }

    /// Whether `claimed` is the address that the seeds and the bump seed
    /// derive: the derivation is made again and its result compared.
    pub fn verify_program_address(
        seeds: &Vec<Vec<u8>>,
        bump: u8,
        program_id: &Pubkey,
        claimed: &Pubkey,
    ) -> (r: bool)
        ensures
            r == (derived_address(with_bump(seeds_view(seeds@), bump), program_id@) matches Ok(a)
                && a == claimed@),
    {
        let mut all: Vec<Vec<u8>> = Vec::new();
        let mut i: usize = 0;
        while i < seeds.len()
            invariant
                i <= seeds.len(),
                all@.len() == i,
                forall|j: int| 0 <= j < i ==> all@[j]@ == seeds@[j]@,
            decreases seeds.len() - i,
        {
            all.push(seeds[i].clone());
            i += 1;
        }
        let mut last: Vec<u8> = Vec::new();
        last.push(bump);
        all.push(last);
        assert(seeds_view(all@) =~= with_bump(seeds_view(seeds@), bump));
        match outside_create_program_address(&all, program_id) {
            Ok(p) => p.same_as(claimed),
            Err(_) => false,
        }
    }
}

/// A bump seed that the search finds yields the found address when the
/// derivation is made again with it, and no greater bump seed yields one.
pub proof fn lemma_found_is_derived(seeds: Seq<Seq<u8>>, program_id: Seq<u8>)
    ensures
        found_address(seeds, program_id) matches Some((address, bump)) ==> {
            &&& bump >= 1
            &&& derived_address(with_bump(seeds, bump), program_id) matches Ok(a) && a == address
            &&& forall|b: u8| bump < b ==> derived_address(with_bump(seeds, b), program_id) is Err
        },
{
    lemma_found_from(seeds, program_id, 255);
}

proof fn lemma_found_from(seeds: Seq<Seq<u8>>, program_id: Seq<u8>, start: u8)
    ensures
        found_from(seeds, program_id, start) matches Some((address, bump)) ==> {
            &&& 1 <= bump <= start
            &&& derived_address(with_bump(seeds, bump), program_id) matches Ok(a) && a == address
            &&& forall|b: u8|
                bump < b <= start ==> derived_address(with_bump(seeds, b), program_id) is Err
        },
    decreases start,
{
    if start != 0 {
        match derived_address(with_bump(seeds, start), program_id) {
            Err(PubkeyError::InvalidSeeds) => {
                lemma_found_from(seeds, program_id, (start - 1) as u8);
            },
            _ => {},
        }
    }
}

} // verus!
