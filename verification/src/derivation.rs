//! Derived addresses.
//!
//! A derived address is computed from seed byte strings and the identity of
//! the program that owns the derivation. A one-byte bump is appended to the
//! seeds so that the result is no valid curve point, and hence has no private
//! key. The search for the bump starts at [`MAX_BUMP`] and walks down to
//! [`MIN_BUMP`]; the first bump that yields an address is the canonical one.
//! This is the convention of the ledger's client tooling, so addresses
//! computed off-chain agree with the ones verified here.

use vstd::prelude::*;
use anchor_lang::prelude::Pubkey;
use crate::address::{lemma_address_bytes, Address};
use crate::error::EngineError;

verus! {

/// The bump at which the search starts.
pub const MAX_BUMP: u8 = 255;

/// The last bump that the search tries.
pub const MIN_BUMP: u8 = 1;

/// One component of a seed specification.
#[derive(Clone, Debug, PartialEq, Eq)]
pub enum Seed {
    /// Literal bytes.
    Literal(Vec<u8>),
    /// The bytes of an address.
    Key(Address),
}

impl View for Seed {
    type V = Seq<u8>;

    open spec fn view(&self) -> Seq<u8> {
        match self {
            Seed::Literal(bytes) => bytes@,
            Seed::Key(address) => address.bytes@,
        }
    }
}

impl Seed {
    /// The bytes that this component contributes to a derivation.
    pub fn to_vec(&self) -> (v: Vec<u8>)
        ensures
            v@ == self@,
    {
        match self {
            Seed::Literal(bytes) => bytes.clone(),
            Seed::Key(address) => address.to_vec(),
        }
    }
}

/// An ordered list of seed components and, optionally, the bump that the
/// holder claims to be the canonical one.
#[derive(Clone, Debug, PartialEq, Eq)]
pub struct SeedSpec {
    pub components: Vec<Seed>,
    pub bump: Option<u8>,
}

/// The mathematical content of a [`SeedSpec`].
pub ghost struct SeedSpecView {
    pub components: Seq<Seq<u8>>,
    pub bump: Option<u8>,
}

impl View for SeedSpec {
    type V = SeedSpecView;

    open spec fn view(&self) -> SeedSpecView {
        SeedSpecView {
            components: Seq::new(self.components@.len(), |i: int| self.components@[i]@),
            bump: self.bump,
        }
    }
}

/// The byte strings held by a vector of byte vectors.
pub open spec fn byte_strings(v: Seq<Vec<u8>>) -> Seq<Seq<u8>> {
    Seq::new(v.len(), |i: int| v[i]@)
}

impl SeedSpec {
    /// The byte strings of the components, in order.
    pub fn material(&self) -> (m: Vec<Vec<u8>>)
        ensures
            byte_strings(m@) == self@.components,
    {
        let mut m: Vec<Vec<u8>> = Vec::new();
        let mut i: usize = 0;
        while i < self.components.len()
            invariant
                i <= self.components.len(),
                m@.len() == i,
                forall|j: int| 0 <= j < i ==> m@[j]@ == self.components@[j]@,
            decreases self.components.len() - i,
        {
            m.push(self.components[i].to_vec());
            i = i + 1;
        }
        assert(byte_strings(m@) =~= self@.components);
        m
    }
}

/// A derived address with the bump that produced it.
#[derive(Clone, Copy, Debug, PartialEq, Eq)]
pub struct Derivation {
    pub address: Address,
    pub bump: u8,
}

/// The mathematical content of a [`Derivation`].
pub ghost struct DerivationView {
    pub address: Seq<u8>,
    pub bump: u8,
}

impl View for Derivation {
    type V = DerivationView;

    open spec fn view(&self) -> DerivationView {
        DerivationView { address: self.address.bytes@, bump: self.bump }
    }
}

/// The address that the ledger's addressing scheme assigns to the given seed
/// byte strings under the given program, or `None` where it assigns none
/// (the hash of the inputs is a valid curve point, or the seeds exceed the
/// scheme's limits).
pub uninterp spec fn program_address(seeds: Seq<Seq<u8>>, program_id: Seq<u8>) -> Option<Seq<u8>>;

/// Calls `Pubkey::create_program_address` of the ledger's SDK on the seeds as
/// given (no bump is added here). The result is a function of the seeds and
/// the program id alone, named [`program_address`]: the 32-byte address on
/// success, `None` on either of the SDK's errors.
#[verifier::external_body]
fn create_program_address(seeds: &Vec<Vec<u8>>, program_id: &[u8; 32]) -> (r: Option<[u8; 32]>)
    ensures
        match r {
            Some(a) => program_address(byte_strings(seeds@), program_id@) == Some(a@),
            None => program_address(byte_strings(seeds@), program_id@) is None,
        },
{
    let mut slices: Vec<&[u8]> = Vec::with_capacity(seeds.len());
    for seed in seeds.iter() {
        slices.push(seed.as_slice());
    }
    let owner = Pubkey::new_from_array(*program_id);
    match Pubkey::create_program_address(&slices, &owner) {
        Ok(key) => Some(key.to_bytes()),
        Err(_) => None,
    }
}

/// The address derived from the components with the given bump appended.
pub open spec fn candidate(components: Seq<Seq<u8>>, bump: u8, program_id: Address) -> Option<
    Seq<u8>,
> {
    program_address(components.push(seq![bump]), program_id.bytes@)
}

/// `bump` is the canonical bump: it lies in the search range, yields an
/// address, and no greater bump does.
pub open spec fn is_canonical(components: Seq<Seq<u8>>, program_id: Address, bump: u8) -> bool {
    &&& MIN_BUMP <= bump
    &&& candidate(components, bump, program_id) is Some
    &&& forall|b: u8| bump < b ==> candidate(components, b, program_id) is None
}

/// What [`derive`] yields: the canonical bump with its address, or `None`
/// where no bump in the range yields an address.
pub open spec fn derive_spec(components: Seq<Seq<u8>>, program_id: Address) -> Option<
    DerivationView,
> {
    if exists|b: u8| is_canonical(components, program_id, b) {
        let bump = choose|b: u8| is_canonical(components, program_id, b);
        Some(DerivationView { address: candidate(components, bump, program_id)->0, bump })
    } else {
        None
    }
}

/// At most one bump is canonical.
pub proof fn lemma_canonical_unique(components: Seq<Seq<u8>>, program_id: Address, a: u8, b: u8)
    requires
        is_canonical(components, program_id, a),
        is_canonical(components, program_id, b),
    ensures
        a == b,
{
}

/// Above any bump in the range that yields an address stands the canonical
/// one, or it is the canonical one itself.
pub proof fn lemma_canonical_exists(components: Seq<Seq<u8>>, program_id: Address, b: u8) -> (top:
    u8)
    requires
        MIN_BUMP <= b,
        candidate(components, b, program_id) is Some,
    ensures
        b <= top,
        is_canonical(components, program_id, top),
    decreases 255 - b,
{
    if exists|c: u8| b < c && candidate(components, c, program_id) is Some {
        let c = choose|c: u8| b < c && candidate(components, c, program_id) is Some;
        lemma_canonical_exists(components, program_id, c)
    } else {
        b
    }
}

/// A derivation succeeds exactly when some bump in the range yields an
/// address. It then returns the greatest such bump and the address that
/// this bump yields.
pub proof fn law_derive_finds_the_greatest_bump(components: Seq<Seq<u8>>, program_id: Address)
    ensures
        derive_spec(components, program_id) is Some <==> exists|b: u8|
            MIN_BUMP <= b && candidate(components, b, program_id) is Some,
        derive_spec(components, program_id) matches Some(d) ==> {
            &&& MIN_BUMP <= d.bump <= MAX_BUMP
            &&& candidate(components, d.bump, program_id) == Some(d.address)
            &&& forall|b: u8| d.bump < b ==> candidate(components, b, program_id) is None
        },
{
    if exists|b: u8| MIN_BUMP <= b && candidate(components, b, program_id) is Some {
        let b = choose|b: u8| MIN_BUMP <= b && candidate(components, b, program_id) is Some;
        let top = lemma_canonical_exists(components, program_id, b);
    }
}

/// What a result of [`derive`] stands for: the derivation, or `None` for a
/// failure.
pub open spec fn outcome_view(outcome: Result<Derivation, EngineError>) -> Option<DerivationView> {
    match outcome {
        Ok(d) => Some(d@),
        Err(_) => None,
    }
}

/// Searches the bump range from [`MAX_BUMP`] down to [`MIN_BUMP`], asking
/// `try_bump` for the address that each bump yields, and settles on the
/// first bump for which there is one. Bumps below it are not asked for.
/// Fails with `NoValidBump` where `try_bump` has an address for no bump in
/// the range.
pub fn search<F: Fn(u8) -> Option<Address>>(try_bump: F) -> (r: Result<Derivation, EngineError>)
    requires
        forall|bump: u8| call_requires(try_bump, (bump,)),
    ensures
        match r {
            Ok(d) => {
                &&& MIN_BUMP <= d.bump
                &&& call_ensures(try_bump, (d.bump,), Some(d.address))
                &&& forall|b: u8| d.bump < b ==> call_ensures(try_bump, (b,), None::<Address>)
            },
            Err(e) => {
                &&& e == EngineError::NoValidBump
                &&& forall|b: u8| MIN_BUMP <= b ==> call_ensures(try_bump, (b,), None::<Address>)
            },
        },
{
    let mut bump: u8 = MAX_BUMP;
    while bump >= MIN_BUMP
        invariant
            forall|b: u8| call_requires(try_bump, (b,)),
            forall|b: u8| bump < b ==> call_ensures(try_bump, (b,), None::<Address>),
        decreases bump,
    {
        match try_bump(bump) {
            Some(address) => {
                return Ok(Derivation { address, bump });
            },
            None => {},
        }
        bump = bump - 1;
    }
    Err(EngineError::NoValidBump)
}

/// The address that the seed material yields with the bump appended.
pub fn bump_address(material: &Vec<Vec<u8>>, bump: u8, program_id: &Address) -> (found: Option<
    Address,
>)
    ensures
        match found {
            Some(address) => candidate(byte_strings(material@), bump, *program_id) == Some(
                address.bytes@,
            ),
            None => candidate(byte_strings(material@), bump, *program_id) is None,
        },
{
    let mut seeds: Vec<Vec<u8>> = Vec::new();
    let mut i: usize = 0;
    while i < material.len()
        invariant
            i <= material.len(),
            seeds@.len() == i,
            forall|j: int| 0 <= j < i ==> seeds@[j]@ == material@[j]@,
        decreases material.len() - i,
    {
        seeds.push(material[i].clone());
        i = i + 1;
    }
    let mut last: Vec<u8> = Vec::new();
    last.push(bump);
    seeds.push(last);
    assert(byte_strings(seeds@) =~= byte_strings(material@).push(seq![bump]));
    match create_program_address(&seeds, &program_id.bytes) {
        Some(bytes) => Some(Address { bytes }),
        None => None,
    }
}

/// Derives the address for the seed components under `program_id`.
///
/// Tries the bumps from [`MAX_BUMP`] down to [`MIN_BUMP`] and returns the
/// first that yields an address, with that address. A bump that `seeds`
/// claims plays no part. Fails with `NoValidBump` where no bump in the range
/// yields an address.
pub fn derive(seeds: &SeedSpec, program_id: &Address) -> (r: Result<Derivation, EngineError>)
    ensures
        outcome_view(r) == derive_spec(seeds@.components, *program_id),
        r matches Err(e) ==> e == EngineError::NoValidBump,
{
    let material = seeds.material();
    let ghost components = seeds@.components;
    let try_bump = |bump: u8| -> (found: Option<Address>)
        ensures
            match found {
                Some(address) => candidate(byte_strings(material@), bump, *program_id) == Some(
                    address.bytes@,
                ),
                None => candidate(byte_strings(material@), bump, *program_id) is None,
            },
        { bump_address(&material, bump, program_id) };
    let r = search(try_bump);
    proof {
        match r {
            Ok(d) => {
                assert(call_ensures(try_bump, (d.bump,), Some(d.address)));
                assert forall|b: u8| d.bump < b implies candidate(
                    components,
                    b,
                    *program_id,
                ) is None by {
                    assert(call_ensures(try_bump, (b,), None::<Address>));
                }
                assert(is_canonical(components, *program_id, d.bump));
                let chosen = choose|b: u8| is_canonical(components, *program_id, b);
                lemma_canonical_unique(components, *program_id, chosen, d.bump);
            },
            Err(_) => {
                assert forall|b: u8| !is_canonical(components, *program_id, b) by {
                    if MIN_BUMP <= b {
                        assert(call_ensures(try_bump, (b,), None::<Address>));
                    }
                }
            },
        }
    }
    r
}

/// Whether a derivation outcome confirms `candidate`: the derivation
/// succeeded, its address is the candidate, and a claimed bump, if there is
/// one, is the bump that the derivation found.
pub open spec fn accepts(
    candidate: Address,
    claimed: Option<u8>,
    outcome: Option<DerivationView>,
) -> bool {
    match outcome {
        Some(d) => d.address == candidate.bytes@ && (claimed matches Some(b) ==> b == d.bump),
        None => false,
    }
}

/// Whether `candidate` is the address derived from `seeds` under
/// `program_id`, with no other bump claimed than the canonical one.
pub open spec fn verifies(candidate: Address, seeds: SeedSpecView, program_id: Address) -> bool {
    accepts(candidate, seeds.bump, derive_spec(seeds.components, program_id))
}

/// Compares a candidate address and a claimed bump with the outcome of a
/// derivation.
pub fn check_derivation(
    candidate: &Address,
    claimed_bump: Option<u8>,
    outcome: &Result<Derivation, EngineError>,
) -> (ok: bool)
    ensures
        ok == accepts(*candidate, claimed_bump, outcome_view(*outcome)),
{
    match outcome {
        Ok(d) => {
            proof {
                lemma_address_bytes(d.address, *candidate);
            }
            let same_bump = match claimed_bump {
                Some(b) => b == d.bump,
                None => true,
            };
            d.address == *candidate && same_bump
        },
        Err(_) => false,
    }
}

/// Recomputes the derivation for `seeds` under `program_id` and compares it
/// with `candidate`. Only the canonical bump is accepted: where `seeds`
/// claims a bump, it has to be the one that [`derive`] finds.
pub fn verify(candidate: &Address, seeds: &SeedSpec, program_id: &Address) -> (ok: bool)
    ensures
        ok == verifies(*candidate, seeds@, *program_id),
{
    let outcome = crate::derivation::derive(seeds, program_id);
    check_derivation(candidate, seeds.bump, &outcome)
}

/// Deriving is a function of the seed components and the program id: any two
/// results for the same inputs are the same.
pub proof fn law_derive_deterministic(
    first: Result<Derivation, EngineError>,
    second: Result<Derivation, EngineError>,
    components: Seq<Seq<u8>>,
    program_id: Address,
)
    requires
        outcome_view(first) == derive_spec(components, program_id),
        outcome_view(second) == derive_spec(components, program_id),
        first matches Err(e) ==> e == EngineError::NoValidBump,
        second matches Err(e) ==> e == EngineError::NoValidBump,
    ensures
        first == second,
{
    if let Ok(a) = first {
        let b = second->Ok_0;
        lemma_address_bytes(a.address, b.address);
    }
}

/// The address that a derivation yields verifies against the same seeds and
/// program, as long as the seeds claim no bump or the canonical one.
pub proof fn law_derived_address_verifies(
    seeds: SeedSpecView,
    program_id: Address,
    derived: Address,
)
    requires
        derive_spec(seeds.components, program_id) matches Some(d) && d.address == derived.bytes@
            && (seeds.bump matches Some(b) ==> b == d.bump),
    ensures
        verifies(derived, seeds, program_id),
{
}

/// An address that differs from the derived one in any byte does not verify.
pub proof fn law_other_address_rejected(
    seeds: SeedSpecView,
    program_id: Address,
    other: Address,
    i: int,
)
    requires
        0 <= i < 32,
        derive_spec(seeds.components, program_id) matches Some(d) && d.address[i]
            != other.bytes@[i],
    ensures
        !verifies(other, seeds, program_id),
{
}

/// Where the seeds claim a bump other than the canonical one, no address
/// verifies, whether or not the claimed bump yields an address of its own.
pub proof fn law_noncanonical_bump_rejected(
    seeds: SeedSpecView,
    program_id: Address,
    claimed: u8,
    address: Address,
)
    requires
        seeds.bump == Some(claimed),
        !is_canonical(seeds.components, program_id, claimed),
    ensures
        !verifies(address, seeds, program_id),
{
    if exists|b: u8| is_canonical(seeds.components, program_id, b) {
        let chosen = choose|b: u8| is_canonical(seeds.components, program_id, b);
        assert(chosen != claimed);
    }
}

} // verus!
