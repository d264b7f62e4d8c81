use vstd::prelude::*;

use crate::account::Pubkey;
use crate::consts::{MAX_SEEDS, PDA_MARKER};
use crate::error::ProgramError;

verus! {

/// The SHA-256 digest of a byte string.
pub uninterp spec fn sha256_of(data: Seq<u8>) -> Seq<u8>;

/// Whether 32 bytes decode to a point on the edwards25519 curve. An address
/// derived for a program must not be such a point, so that no private key can
/// ever sign for it.
pub uninterp spec fn on_curve(point: Seq<u8>) -> bool;

/// Relies on `sha2::Sha256::digest`: the SHA-256 digest of `data`, 32 bytes
/// long and a function of the input bytes alone.
#[verifier::external_body]
fn sha256(data: &[u8]) -> (r: [u8; 32])
    ensures
        r@ == sha256_of(data@),
{
    let digest = <sha2::Sha256 as sha2::Digest>::digest(data);
    digest.into()
}

/// Relies on `curve25519_dalek::edwards::CompressedEdwardsY::decompress`:
/// whether the 32 bytes decode to an edwards25519 curve point, a function of
/// the bytes alone.
#[verifier::external_body]
fn is_on_curve(point: &[u8; 32]) -> (r: bool)
    ensures
        r == on_curve(point@),
{
    curve25519_dalek::edwards::CompressedEdwardsY(*point).decompress().is_some()
}

/// Whether a seed list leaves room for the bump, the program identity and the
/// domain marker among the bounded hash-input slots.
pub open spec fn seed_arity_ok(seeds: Seq<Seq<u8>>) -> bool {
    seeds.len() + 3 <= MAX_SEEDS
}

/// The hash input of a derivation: the seeds in order, then the bump byte,
/// the program identity, and the domain-separation marker.
pub open spec fn pda_preimage(seeds: Seq<Seq<u8>>, program_id: Seq<u8>, bump: u8) -> Seq<u8> {
    seeds.flatten() + seq![bump] + program_id + PDA_MARKER@
}

/// The address derived from a seed list, a program identity and a bump byte.
pub open spec fn spec_derive_pda(seeds: Seq<Seq<u8>>, program_id: Seq<u8>, bump: u8) -> Seq<u8> {
    sha256_of(pda_preimage(seeds, program_id, bump))
}

/// Whether `bump` is the canonical bump of `(seeds, program_id)`: its
/// derivation leaves the curve, and every greater bump's derivation does not.
pub open spec fn spec_bump_found(seeds: Seq<Seq<u8>>, program_id: Seq<u8>, bump: u8) -> bool {
    &&& !on_curve(spec_derive_pda(seeds, program_id, bump))
    &&& forall|b: u8| b > bump ==> on_curve(spec_derive_pda(seeds, program_id, b))
}

/// Derive the address of `(seeds, program_id, bump)`: the one-way hash of the
/// seeds followed by the bump byte, the program identity and the domain
/// marker. Fails only when the seed list overflows the hash-input arity.
pub fn derive_pda(seeds: &Vec<Vec<u8>>, program_id: &Pubkey, bump: u8) -> (r: Result<
    Pubkey,
    ProgramError,
>)
    ensures
        match r {
            Ok(pda) => seed_arity_ok(seeds.deep_view()) && pda@ == spec_derive_pda(
                seeds.deep_view(),
                program_id@,
                bump,
            ),
            Err(e) => e == ProgramError::InvalidSeeds && !seed_arity_ok(seeds.deep_view()),
        },
{
    if seeds.len() > MAX_SEEDS - 3 {
        return Err(ProgramError::InvalidSeeds);
    }
    let ghost dv: Seq<Seq<u8>> = seeds.deep_view();
    let mut preimage: Vec<u8> = Vec::new();
    let mut i: usize = 0;
    while i < seeds.len()
        invariant
            i <= seeds.len(),
            dv == seeds.deep_view(),
            preimage@ == dv.take(i as int).flatten(),
        decreases seeds.len() - i,
    {
        let seed: &Vec<u8> = &seeds[i];
        let ghost entered: Seq<u8> = preimage@;
        let mut j: usize = 0;
        while j < seed.len()
            invariant
                j <= seed.len(),
                seed == &seeds@[i as int],
                preimage@ == entered + seed@.take(j as int),
            decreases seed.len() - j,
        {
            preimage.push(seed[j]);
            proof {
                assert(preimage@ =~= entered + seed@.take(j + 1));
            }
            j = j + 1;
        }
        proof {
            assert(seed@.take(seed@.len() as int) =~= seed@);
            assert(dv[i as int] == seed@);
            assert(dv.take(i + 1) =~= dv.take(i as int).push(dv[i as int]));
            broadcast use Seq::lemma_flatten_push;

            assert(preimage@ =~= dv.take(i + 1).flatten());
        }
        i = i + 1;
    }
    proof {
        assert(dv.take(dv.len() as int) =~= dv);
    }
    preimage.push(bump);
    let ghost with_bump: Seq<u8> = preimage@;
    proof {
        assert(with_bump =~= dv.flatten() + seq![bump]);
    }
    let mut k: usize = 0;
    while k < 32
        invariant
            k <= 32,
            preimage@ == with_bump + program_id@.take(k as int),
        decreases 32 - k,
    {
        preimage.push(program_id[k]);
        proof {
            assert(preimage@ =~= with_bump + program_id@.take(k + 1));
        }
        k = k + 1;
    }
    let ghost with_program: Seq<u8> = preimage@;
    proof {
        assert(program_id@.take(32) =~= program_id@);
    }
    let mut m: usize = 0;
    while m < 21
        invariant
            m <= 21,
            preimage@ == with_program + PDA_MARKER@.take(m as int),
        decreases 21 - m,
    {
        preimage.push(PDA_MARKER[m]);
        proof {
            assert(preimage@ =~= with_program + PDA_MARKER@.take(m + 1));
        }
        m = m + 1;
    }
    proof {
        assert(PDA_MARKER@.take(21) =~= PDA_MARKER@);
        assert(preimage@ =~= pda_preimage(dv, program_id@, bump));
    }
    let pda = sha256(preimage.as_slice());
    Ok(pda)
}

/// Search for the canonical bump of `(seeds, program_id)`: the greatest bump
/// whose derivation is not a curve point, together with the derived address.
/// Fails when the seed list overflows the hash-input arity or every bump's
/// derivation lies on the curve.
pub fn find_program_address(seeds: &Vec<Vec<u8>>, program_id: &Pubkey) -> (r: Result<
    (Pubkey, u8),
    ProgramError,
>)
    ensures
        match r {
            Ok(found) => seed_arity_ok(seeds.deep_view()) && spec_bump_found(
                seeds.deep_view(),
                program_id@,
                found.1,
            ) && found.0@ == spec_derive_pda(seeds.deep_view(), program_id@, found.1),
            Err(e) => e == ProgramError::InvalidSeeds && (!seed_arity_ok(seeds.deep_view())
                || forall|b: u8| on_curve(spec_derive_pda(seeds.deep_view(), program_id@, b))),
        },
{
    if seeds.len() > MAX_SEEDS - 3 {
        return Err(ProgramError::InvalidSeeds);
    }
    let mut bump: u8 = 255;
    loop
        invariant
            seed_arity_ok(seeds.deep_view()),
            forall|b: u8| b > bump ==> on_curve(spec_derive_pda(seeds.deep_view(), program_id@, b)),
        decreases bump as int,
    {
        let candidate = match derive_pda(seeds, program_id, bump) {
            Ok(pda) => pda,
            Err(e) => {
                // derivation only fails on arity, which was ruled out above
                proof {
                    assert(false);
                }
                return Err(e);
            },
        };
        if !is_on_curve(&candidate) {
            return Ok((candidate, bump));
        }
        if bump == 0 {
            return Err(ProgramError::InvalidSeeds);
        }
        bump = bump - 1;
    }
}

/// Derivation is a pure function: equal seed lists, program identities and
/// bump bytes always yield one and the same address.
pub proof fn lemma_derive_deterministic(
    seeds1: Seq<Seq<u8>>,
    program1: Seq<u8>,
    bump1: u8,
    seeds2: Seq<Seq<u8>>,
    program2: Seq<u8>,
    bump2: u8,
)
    requires
        seeds1 == seeds2,
        program1 == program2,
        bump1 == bump2,
    ensures
        spec_derive_pda(seeds1, program1, bump1) == spec_derive_pda(seeds2, program2, bump2),
{
}

/// The canonical bump of a seed list and program identity is unique.
pub proof fn lemma_canonical_bump_unique(
    seeds: Seq<Seq<u8>>,
    program_id: Seq<u8>,
    bump1: u8,
    bump2: u8,
)
    requires
        spec_bump_found(seeds, program_id, bump1),
        spec_bump_found(seeds, program_id, bump2),
    ensures
        bump1 == bump2,
{
}

} // verus!
