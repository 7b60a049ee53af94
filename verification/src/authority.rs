//! The delegated-authority model: a deterministic owner address derived from
//! a fixed label plus the user's identity, and the seed material that proves
//! the right to sign as that address, reconstructed on every call — no
//! persisted secret exists.
use vstd::prelude::*;

use crate::identity::{identity_bytes, Identity};
use crate::state::{user_pda_prefix, user_pda_prefix_bytes};

verus! {

/// What program-derived-address derivation returns for a seed sequence and a
/// program identity: a pure function of its arguments, or `None` in the
/// statistically improbable case that no bump discriminator yields a valid
/// address (or a seed is over the derivation's length limit).
pub uninterp spec fn pda_of(seeds: Seq<Seq<u8>>, program: Identity) -> Option<(Identity, u8)>;

/// Relies on solana_program's `Pubkey::try_find_program_address`: the derived
/// address and bump are computed by hashing exactly the given seed byte
/// strings and program id, so the result depends on the arguments alone; the
/// off-chain path never panics and returns `None` when no bump works or a
/// seed is too long. Identities convert to 32 bytes big-endian (high half
/// first), matching `identity_bytes`.
#[verifier::external_body]
fn try_find_pda(seeds: &Vec<Vec<u8>>, program: &Identity) -> (r: Option<(Identity, u8)>)
    ensures
        r == pda_of(seeds@.map_values(|s: Vec<u8>| s@), *program),
{
    let mut seed_refs: Vec<&[u8]> = Vec::new();
    for s in seeds.iter() {
        seed_refs.push(s.as_slice());
    }
    let mut pb = [0u8; 32];
    pb[..16].copy_from_slice(&program.hi.to_be_bytes());
    pb[16..].copy_from_slice(&program.lo.to_be_bytes());
    let pid = solana_program::pubkey::Pubkey::new_from_array(pb);
    solana_program::pubkey::Pubkey::try_find_program_address(&seed_refs, &pid).map(|(a, bump)| {
        let ab = a.to_bytes();
        let hi = u128::from_be_bytes(ab[..16].try_into().unwrap());
        let lo = u128::from_be_bytes(ab[16..].try_into().unwrap());
        (Identity { hi, lo }, bump)
    })
}

/// The seed sequence under which a user's delegated authority lives: the
/// fixed label, then the owner's identity bytes.
pub open spec fn user_authority_seeds(owner: Identity) -> Seq<Seq<u8>> {
    seq![user_pda_prefix(), identity_bytes(owner)]
}

/// The delegated authority derived for `owner` under `program`, with its
/// bump discriminator.
pub open spec fn user_authority_of(program: Identity, owner: Identity) -> Option<(Identity, u8)> {
    pda_of(user_authority_seeds(owner), program)
}

/// Derives the delegated authority address and bump for `owner`: pure and
/// deterministic in `(program, owner)`. Callers never trust a supplied
/// authority address; they re-derive it here and compare.
pub fn derive_authority(program: &Identity, owner: &Identity) -> (r: Option<(Identity, u8)>)
    ensures
        r == user_authority_of(*program, *owner),
{
    let mut seeds: Vec<Vec<u8>> = Vec::new();
    seeds.push(user_pda_prefix_bytes());
    seeds.push(owner.to_bytes());
    proof {
        assert(seeds@.map_values(|s: Vec<u8>| s@) =~= user_authority_seeds(*owner));
    }
    try_find_pda(&seeds, program)
}

/// The exact seed material that authorizes one call as the derived
/// authority: the label, the owner's identity bytes, and the bump. It is
/// recomputed per call and never persisted.
pub open spec fn signer_seed_seq(owner: Identity, bump: u8) -> Seq<Seq<u8>> {
    seq![user_pda_prefix(), identity_bytes(owner), seq![bump]]
}

/// Reconstructs the seed material for signing as the delegated authority of
/// `owner` with discriminator `bump`.
pub fn sign_as(owner: &Identity, bump: u8) -> (r: Vec<Vec<u8>>)
    ensures
        r@.map_values(|s: Vec<u8>| s@) == signer_seed_seq(*owner, bump),
{
    let mut seeds: Vec<Vec<u8>> = Vec::new();
    seeds.push(user_pda_prefix_bytes());
    seeds.push(owner.to_bytes());
    let mut bump_seed: Vec<u8> = Vec::new();
    bump_seed.push(bump);
    seeds.push(bump_seed);
    proof {
        assert(seeds@.map_values(|s: Vec<u8>| s@) =~= signer_seed_seq(*owner, bump));
    }
    seeds
}

/// Law: derivation is deterministic. Any two derivations for the same owner
/// under the same program agree, address and bump both.
pub proof fn lemma_derive_deterministic(
    program: Identity,
    owner: Identity,
    r1: Option<(Identity, u8)>,
    r2: Option<(Identity, u8)>,
)
    requires
        r1 == user_authority_of(program, owner),
        r2 == user_authority_of(program, owner),
    ensures
        r1 == r2,
{
}

} // verus!
