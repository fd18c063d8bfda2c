use crate::address::Address;
use anchor_lang::solana_program::pubkey::Pubkey;
use vstd::prelude::*;

verus! {

/// The address that the ledger derives from a list of seeds for a program, or
/// `None` where the seeds derive none.
pub uninterp spec fn derived_address(seeds: Seq<Seq<u8>>, program: Seq<u8>) -> Option<Seq<u8>>;

/// The seeds followed by a one-byte bump seed.
pub open spec fn with_bump(seeds: Seq<Seq<u8>>, bump: u8) -> Seq<Seq<u8>> {
    seeds.push(seq![bump])
}

/// Whether `bump` is the canonical bump seed, the one that a search from 255
/// downwards to 1 settles on: it derives an address and no larger one does.
pub open spec fn is_canonical_bump(seeds: Seq<Seq<u8>>, program: Seq<u8>, bump: u8) -> bool {
    &&& 1 <= bump
    &&& derived_address(with_bump(seeds, bump), program) is Some
    &&& forall|b: u8| bump < b ==> (#[trigger] derived_address(with_bump(seeds, b), program)) is None
}

/// Calls `Pubkey::create_program_address`. The contract claims only that the
/// outcome is a function of the seeds and the program's address: `Ok` is
/// handed on as `Some` of the key's bytes, every error as `None`.
#[verifier::external_body]
fn create_program_address(seeds: &Vec<Vec<u8>>, program: &Address) -> (r: Option<Address>)
    ensures
        match r {
            Some(a) => derived_address(seeds.deep_view(), program@) == Some(a@),
            None => derived_address(seeds.deep_view(), program@) is None,
        },
{
    let parts: Vec<&[u8]> = seeds.iter().map(|s| s.as_slice()).collect();
    match Pubkey::create_program_address(&parts, &Pubkey::new_from_array(program.bytes)) {
        Ok(key) => Some(Address { bytes: key.to_bytes() }),
        Err(_) => None,
    }
}

/// What a derivation is for: each domain has its own tag among the seeds, so
/// that the addresses derived for one domain are of no use in another.
#[derive(Clone, Copy, Debug, PartialEq, Eq, Structural)]
pub enum Domain {
    /// Authority over a token mint: minting, freezing and burning.
    Mint,
    /// Authority over an escrow account: transfers out of it and its closing.
    Escrow,
    /// Address of the listing record of a claim-token mint.
    Listing,
    /// Address of the receipt record of a purchase.
    Receipt,
    /// Address of the charter record of a governance mint.
    Charter,
    /// Address of the treasury record of a charter and a currency.
    Treasury,
}

impl Domain {
    /// The tag of the domain: its name in lower-case ASCII.
    pub open spec fn spec_tag(self) -> Seq<u8> {
        match self {
            Domain::Mint => seq![0x6du8, 0x69u8, 0x6eu8, 0x74u8],
            Domain::Escrow => seq![0x65u8, 0x73u8, 0x63u8, 0x72u8, 0x6fu8, 0x77u8],
            Domain::Listing => seq![0x6cu8, 0x69u8, 0x73u8, 0x74u8, 0x69u8, 0x6eu8, 0x67u8],
            Domain::Receipt => seq![0x72u8, 0x65u8, 0x63u8, 0x65u8, 0x69u8, 0x70u8, 0x74u8],
            Domain::Charter => seq![0x63u8, 0x68u8, 0x61u8, 0x72u8, 0x74u8, 0x65u8, 0x72u8],
            Domain::Treasury => seq![
                0x74u8,
                0x72u8,
                0x65u8,
                0x61u8,
                0x73u8,
                0x75u8,
                0x72u8,
                0x79u8,
            ],
        }
    }

    /// The tag of the domain.
    pub fn tag(&self) -> (t: Vec<u8>)
        ensures
            t@ == self.spec_tag(),
    {
        let t = match self {
            Domain::Mint => vec![0x6du8, 0x69u8, 0x6eu8, 0x74u8],
            Domain::Escrow => vec![0x65u8, 0x73u8, 0x63u8, 0x72u8, 0x6fu8, 0x77u8],
            Domain::Listing => vec![0x6cu8, 0x69u8, 0x73u8, 0x74u8, 0x69u8, 0x6eu8, 0x67u8],
            Domain::Receipt => vec![0x72u8, 0x65u8, 0x63u8, 0x65u8, 0x69u8, 0x70u8, 0x74u8],
            Domain::Charter => vec![0x63u8, 0x68u8, 0x61u8, 0x72u8, 0x74u8, 0x65u8, 0x72u8],
            Domain::Treasury => vec![
                0x74u8,
                0x72u8,
                0x65u8,
                0x61u8,
                0x73u8,
                0x75u8,
                0x72u8,
                0x79u8,
            ],
        };
        assert(t@ =~= self.spec_tag());
        t
    }
}

/// The bytes of this program's own address, under which every derivation is made.
pub open spec fn spec_program_id() -> Seq<u8> {
    seq![
        0x93u8, 0x56u8, 0x2bu8, 0x3eu8, 0x9eu8, 0x15u8, 0x9cu8, 0x50u8,
        0x65u8, 0xaau8, 0x94u8, 0xbcu8, 0x25u8, 0x76u8, 0xf7u8, 0xcdu8,
        0x35u8, 0xacu8, 0xc8u8, 0xf2u8, 0x00u8, 0x70u8, 0x42u8, 0x75u8,
        0x84u8, 0xb4u8, 0x05u8, 0xbcu8, 0x90u8, 0x26u8, 0x01u8, 0x2du8,
    ]
}

/// This program's own address.
pub fn program_id() -> (p: Address)
    ensures
        p@ == spec_program_id(),
{
    let p = Address {
        bytes: [
            0x93u8, 0x56u8, 0x2bu8, 0x3eu8, 0x9eu8, 0x15u8, 0x9cu8, 0x50u8,
            0x65u8, 0xaau8, 0x94u8, 0xbcu8, 0x25u8, 0x76u8, 0xf7u8, 0xcdu8,
            0x35u8, 0xacu8, 0xc8u8, 0xf2u8, 0x00u8, 0x70u8, 0x42u8, 0x75u8,
            0x84u8, 0xb4u8, 0x05u8, 0xbcu8, 0x90u8, 0x26u8, 0x01u8, 0x2du8,
        ],
    };
    assert(p@ =~= spec_program_id());
    p
}

/// An optional byte sequence as an optional address.
pub open spec fn lift(d: Option<Seq<u8>>) -> Option<Address> {
    match d {
        Some(bytes) => Some(Address::from_seq(bytes)),
        None => None,
    }
}

/// The seeds of a derivation for an owner: the domain's tag, then the owner's bytes.
pub open spec fn owner_seeds(domain: Domain, owner: Address) -> Seq<Seq<u8>> {
    seq![domain.spec_tag(), owner@]
}

/// The address derived in a domain for an owner with a bump seed.
pub open spec fn spec_resolve(domain: Domain, owner: Address, bump: u8) -> Option<Address> {
    lift(derived_address(with_bump(owner_seeds(domain, owner), bump), spec_program_id()))
}

/// The seeds of `owner_seeds` as vectors.
fn seeds_for(domain: Domain, owner: &Address) -> (seeds: Vec<Vec<u8>>)
    ensures
        seeds.deep_view() == owner_seeds(domain, *owner),
{
    let mut seeds: Vec<Vec<u8>> = Vec::new();
    seeds.push(domain.tag());
    seeds.push(owner.to_vec());
    assert(seeds.deep_view() =~= owner_seeds(domain, *owner)) by {
        assert(seeds@[0].deep_view() =~= domain.spec_tag());
        assert(seeds@[1].deep_view() =~= owner@);
    }
    seeds
}

/// Adds the bump seed to the seeds.
fn push_bump(seeds: &mut Vec<Vec<u8>>, bump: u8)
    ensures
        final(seeds).deep_view() == with_bump(old(seeds).deep_view(), bump),
{
    let ghost before = seeds.deep_view();
    seeds.push(vec![bump]);
    assert(seeds.deep_view() =~= with_bump(before, bump)) by {
        let n = before.len() as int;
        assert(seeds@[n].deep_view() =~= seq![bump]);
        assert forall|i: int| 0 <= i < n implies seeds.deep_view()[i] == before[i] by {
            assert(seeds@[i] == old(seeds)@[i]);
        }
    }
}

/// Derived Authority Resolver: the address that the ledger recognises as
/// acting for `owner` in `domain`, for the given bump seed; `None` where that
/// bump seed derives no address.
pub fn resolve(domain: Domain, owner: &Address, bump: u8) -> (r: Option<Address>)
    ensures
        r == spec_resolve(domain, *owner, bump),
{
    let mut seeds = seeds_for(domain, owner);
    push_bump(&mut seeds, bump);
    let program = program_id();
    let r = create_program_address(&seeds, &program);
    proof {
        if let Some(a) = r {
            crate::address::lemma_from_seq_view(a);
        }
    }
    r
}

/// The bump seed that a search settles on for the seeds, if there is one.
pub open spec fn canonical_bump(seeds: Seq<Seq<u8>>, program: Seq<u8>) -> Option<u8> {
    if exists|b: u8| is_canonical_bump(seeds, program, b) {
        Some(choose|b: u8| is_canonical_bump(seeds, program, b))
    } else {
        None
    }
}

/// The canonical address of the seeds under this program, with its bump seed.
pub open spec fn spec_find(seeds: Seq<Seq<u8>>) -> Option<(Address, u8)> {
    match canonical_bump(seeds, spec_program_id()) {
        Some(bump) => match lift(
            derived_address(with_bump(seeds, bump), spec_program_id()),
        ) {
            Some(a) => Some((a, bump)),
            None => None,
        },
        None => None,
    }
}

/// At most one bump seed is canonical.
pub proof fn lemma_canonical_bump_unique(seeds: Seq<Seq<u8>>, program: Seq<u8>, b1: u8, b2: u8)
    requires
        is_canonical_bump(seeds, program, b1),
        is_canonical_bump(seeds, program, b2),
    ensures
        b1 == b2,
{
    if b1 < b2 {
        assert(derived_address(with_bump(seeds, b2), program) is None);
    } else if b2 < b1 {
        assert(derived_address(with_bump(seeds, b1), program) is None);
    }
}

/// Takes the last seed off again.
fn pop_bump(seeds: &mut Vec<Vec<u8>>, Ghost(before): Ghost<Seq<Seq<u8>>>, Ghost(bump): Ghost<u8>)
    requires
        old(seeds).deep_view() == with_bump(before, bump),
    ensures
        final(seeds).deep_view() == before,
{
    assert(old(seeds)@.len() == old(seeds).deep_view().len());
    let _ = seeds.pop();
    assert(seeds.deep_view() =~= before) by {
        assert(seeds@.len() == seeds.deep_view().len());
        assert forall|i: int| 0 <= i < before.len() implies seeds.deep_view()[i] == before[i] by {
            assert(seeds@[i] == old(seeds)@[i]);
            assert(old(seeds).deep_view()[i] == with_bump(before, bump)[i]);
        }
    }
}

/// The canonical address of the seeds under this program and its bump seed:
/// the bump seeds are tried from 255 down to 1, and the first that derives
/// an address is the one.
fn find(seeds: Vec<Vec<u8>>) -> (r: Option<(Address, u8)>)
    ensures
        r == spec_find(seeds.deep_view()),
{
    let program = program_id();
    let mut tried = seeds;
    let ghost sv = seeds.deep_view();
    let ghost pv = spec_program_id();
    let mut bump: u8 = 255;
    while bump >= 1
        invariant
            sv == seeds.deep_view(),
            pv == spec_program_id(),
            tried.deep_view() == sv,
            program@ == pv,
            forall|b: u8| bump < b ==> (#[trigger] derived_address(with_bump(sv, b), pv)) is None,
        decreases bump,
    {
        push_bump(&mut tried, bump);
        let derived = create_program_address(&tried, &program);
        pop_bump(&mut tried, Ghost(sv), Ghost(bump));
        match derived {
            Some(a) => {
                proof {
                    assert(is_canonical_bump(sv, pv, bump));
                    let c = choose|b: u8| is_canonical_bump(sv, pv, b);
                    lemma_canonical_bump_unique(sv, pv, c, bump);
                    crate::address::lemma_from_seq_view(a);
                }
                return Some((a, bump));
            },
            None => {},
        }
        bump -= 1;
    }
    proof {
        assert forall|b: u8| !is_canonical_bump(sv, pv, b) by {
            if 1 <= b {
                assert(derived_address(with_bump(sv, b), pv) is None);
            }
        }
    }
    None
}

/// The canonical address derived in a domain for an owner, with its bump seed.
pub open spec fn spec_find_for(domain: Domain, owner: Address) -> Option<(Address, u8)> {
    spec_find(owner_seeds(domain, owner))
}

/// The canonical address derived in a domain for an owner, with its bump
/// seed; `None` where no bump seed derives an address.
pub fn find_for(domain: Domain, owner: &Address) -> (r: Option<(Address, u8)>)
    ensures
        r == spec_find_for(domain, *owner),
{
    find(seeds_for(domain, owner))
}

/// The seeds of a receipt's address: the tag, then the nonce in little-endian bytes.
pub open spec fn receipt_seeds(nonce: u128) -> Seq<Seq<u8>> {
    seq![Domain::Receipt.spec_tag(), vstd::bytes::spec_u128_to_le_bytes(nonce)]
}

/// The canonical address of the receipt with the given nonce, with its bump seed.
pub fn receipt_address(nonce: u128) -> (r: Option<(Address, u8)>)
    ensures
        r == spec_find(receipt_seeds(nonce)),
{
    let mut seeds: Vec<Vec<u8>> = Vec::new();
    seeds.push(Domain::Receipt.tag());
    seeds.push(vstd::bytes::u128_to_le_bytes(nonce));
    assert(seeds.deep_view() =~= receipt_seeds(nonce)) by {
        assert(seeds@[0].deep_view() =~= Domain::Receipt.spec_tag());
        assert(seeds@[1].deep_view() =~= vstd::bytes::spec_u128_to_le_bytes(nonce));
    }
    find(seeds)
}

/// The seeds of a treasury's address: the tag, the charter, the currency's mint.
pub open spec fn treasury_seeds(charter: Address, mint: Address) -> Seq<Seq<u8>> {
    seq![Domain::Treasury.spec_tag(), charter@, mint@]
}

/// The canonical address of the treasury of a charter for a currency, with
/// its bump seed.
pub fn treasury_address(charter: &Address, mint: &Address) -> (r: Option<(Address, u8)>)
    ensures
        r == spec_find(treasury_seeds(*charter, *mint)),
{
    let mut seeds: Vec<Vec<u8>> = Vec::new();
    seeds.push(Domain::Treasury.tag());
    seeds.push(charter.to_vec());
    seeds.push(mint.to_vec());
    assert(seeds.deep_view() =~= treasury_seeds(*charter, *mint)) by {
        assert(seeds@[0].deep_view() =~= Domain::Treasury.spec_tag());
        assert(seeds@[1].deep_view() =~= charter@);
        assert(seeds@[2].deep_view() =~= mint@);
    }
    find(seeds)
}

/// Whether `candidate` is the address that a derivation gave.
pub fn is_derived(candidate: &Address, derived: &Option<Address>) -> (b: bool)
    ensures
        b == (*derived == Some(*candidate)),
{
    match derived {
        Some(a) => a == candidate,
        None => false,
    }
}

/// Whether `candidate` is the address that a search gave.
pub fn is_found(candidate: &Address, found: &Option<(Address, u8)>) -> (b: bool)
    ensures
        b == (found matches Some((a, _)) && a == *candidate),
{
    match found {
        Some((a, _)) => a == candidate,
        None => false,
    }
}

/// Whether `candidate` is the canonical address derived in `domain` for `owner`.
pub open spec fn spec_verify(candidate: Address, domain: Domain, owner: Address) -> bool {
    spec_find_for(domain, owner) matches Some((a, _)) && a == candidate
}

/// Derived Authority Resolver, the check: whether `candidate` is the address
/// that the ledger recognises as acting for `owner` in `domain`.
pub fn verify(candidate: &Address, domain: Domain, owner: &Address) -> (b: bool)
    ensures
        b == spec_verify(*candidate, domain, *owner),
{
    let found = find_for(domain, owner);
    is_found(candidate, &found)
}

} // verus!
