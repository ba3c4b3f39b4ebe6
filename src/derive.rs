use anchor_lang::solana_program::pubkey::Pubkey;
use vstd::prelude::*;

verus! {

/// A 32-byte account address.
pub type Address = [u8; 32];

/// The address and canonical bump that the ledger derives from a list of
/// seeds and a program address, or `None` when no bump yields an address
/// off the key curve (or the seeds exceed the ledger's limits).
pub uninterp spec fn program_address(seeds: Seq<Seq<u8>>, program: Seq<u8>) -> Option<(Seq<u8>, u8)>;

/// The view of a derivation result: address bytes and bump.
pub open spec fn derivation_view(d: Option<(Address, u8)>) -> Option<(Seq<u8>, u8)> {
    match d {
        Some(p) => Some((p.0@, p.1)),
        None => None,
    }
}

/// The tag that starts the seed list of every escrow record: the bytes of "escrow".
pub open spec fn escrow_tag() -> Seq<u8> {
    seq![101u8, 115u8, 99u8, 114u8, 111u8, 119u8]
}

/// The seed list that designates the escrow record of `maker` selling `mint`.
pub open spec fn escrow_seeds(maker: Seq<u8>, mint: Seq<u8>) -> Seq<Seq<u8>> {
    seq![escrow_tag(), maker, mint]
}

/// Where the escrow record of `maker` selling `mint` lives under `program`.
pub open spec fn escrow_derivation(program: Seq<u8>, maker: Seq<u8>, mint: Seq<u8>) -> Option<(Seq<u8>, u8)> {
    program_address(escrow_seeds(maker, mint), program)
}

/// Relies on `Pubkey::try_find_program_address` of solana-program (re-exported
/// by anchor-lang): a search over bumps from 255 down whose outcome depends on
/// the seeds and the program address alone.
#[verifier::external_body]
fn try_find_program_address(seeds: &Vec<Vec<u8>>, program_id: &Address) -> (r: Option<(Address, u8)>)
    ensures
        derivation_view(r) == program_address(seeds.deep_view(), program_id@),
{
    let s: Vec<&[u8]> = seeds.iter().map(|v| v.as_slice()).collect();
    Pubkey::try_find_program_address(&s, &Pubkey::new_from_array(*program_id))
        .map(|(k, b)| (k.to_bytes(), b))
}

/// Compares two addresses byte by byte.
pub fn cmp_pubkeys(a: &Address, b: &Address) -> (r: bool)
    ensures
        r == (a@ == b@),
{
    let mut i: usize = 0;
    while i < 32
        invariant
            0 <= i <= 32,
            a@.len() == 32,
            b@.len() == 32,
            forall|j: int| 0 <= j < i ==> a@[j] == b@[j],
        decreases 32 - i,
    {
        if a[i] != b[i] {
            return false;
        }
        i = i + 1;
    }
    assert(a@ =~= b@);
    true
}

/// The bytes of an address as a vector.
fn address_bytes(a: &Address) -> (r: Vec<u8>)
    ensures
        r@ == a@,
{
    let mut r: Vec<u8> = Vec::new();
    let mut i: usize = 0;
    while i < 32
        invariant
            0 <= i <= 32,
            a@.len() == 32,
            r@ == a@.subrange(0, i as int),
        decreases 32 - i,
    {
        r.push(a[i]);
        i = i + 1;
        assert(r@ =~= a@.subrange(0, i as int));
    }
    assert(a@.subrange(0, 32) =~= a@);
    r
}

/// Builds the seed list of the escrow record of `maker` selling `mint`.
pub fn make_escrow_seeds(maker: &Address, mint: &Address) -> (r: Vec<Vec<u8>>)
    ensures
        r.deep_view() == escrow_seeds(maker@, mint@),
{
    let tag: Vec<u8> = vec![101u8, 115u8, 99u8, 114u8, 111u8, 119u8];
    let m = address_bytes(maker);
    let a = address_bytes(mint);
    assert(tag@ =~= escrow_tag());
    let mut r: Vec<Vec<u8>> = Vec::new();
    r.push(tag);
    r.push(m);
    r.push(a);
    assert(r.deep_view()[0] == escrow_tag());
    assert(r.deep_view()[1] == maker@);
    assert(r.deep_view()[2] == mint@);
    assert(r.deep_view() =~= escrow_seeds(maker@, mint@));
    r
}

/// Derives the address and bump of the escrow record of `maker` selling
/// `mint` under `program_id`; the same inputs always give the same result.
pub fn derive_escrow(program_id: &Address, maker: &Address, mint: &Address) -> (r: Option<(Address, u8)>)
    ensures
        derivation_view(r) == escrow_derivation(program_id@, maker@, mint@),
{
    let seeds = make_escrow_seeds(maker, mint);
    try_find_program_address(&seeds, program_id)
}

/// Distinct (maker, asset) pairs give distinct escrow seed lists, so the
/// derivation is asked about distinct inputs.
pub proof fn lemma_escrow_seeds_injective(maker1: Seq<u8>, mint1: Seq<u8>, maker2: Seq<u8>, mint2: Seq<u8>)
    requires
        maker1 != maker2 || mint1 != mint2,
    ensures
        escrow_seeds(maker1, mint1) != escrow_seeds(maker2, mint2),
{
    if escrow_seeds(maker1, mint1) == escrow_seeds(maker2, mint2) {
        assert(escrow_seeds(maker1, mint1)[1] == maker1);
        assert(escrow_seeds(maker2, mint2)[1] == maker2);
        assert(escrow_seeds(maker1, mint1)[2] == mint1);
        assert(escrow_seeds(maker2, mint2)[2] == mint2);
    }
}

/// Deriving twice from the same seeds yields the same address and bump.
pub proof fn lemma_derivation_deterministic(program: Seq<u8>, maker: Seq<u8>, mint: Seq<u8>, r1: Option<(Seq<u8>, u8)>, r2: Option<(Seq<u8>, u8)>)
    requires
        r1 == escrow_derivation(program, maker, mint),
        r2 == escrow_derivation(program, maker, mint),
    ensures
        r1 == r2,
{
}

} // verus!
