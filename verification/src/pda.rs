//! Deterministic derivation of a buffer account's address.
//!
//! An authorized buffer's address is a program-derived address computed from
//! the program's identity, a fixed domain tag, the authority's address and
//! the caller-chosen seed, together with a one-byte bump value. The search
//! over bump values stops at the first address that is provably off the
//! Ed25519 curve, so no party can hold a private key for it: the system
//! program will create storage there against a derivation proof instead of a
//! real signature.

use crate::error::EchoError;
use vstd::bytes::{spec_u64_to_le_bytes, u64_to_le_bytes};
use vstd::prelude::*;

verus! {

/// The number of bytes in an account address.
pub const ADDRESS_BYTES: usize = 32;

/// What `Pubkey::try_find_program_address` returns for the given seeds under
/// the given program identity: the derived address and its bump value, or
/// nothing when the search is exhausted. The result is a pure function of
/// the seeds and the program identity alone.
pub uninterp spec fn pda_of(seeds: Seq<Seq<u8>>, program_id: Seq<u8>) -> Option<(Seq<u8>, u8)>;

/// Whether a 32-byte address is a valid Ed25519 curve point, i.e. a possible
/// public key for some private key. An address that is not is safe to
/// control through a derivation proof alone.
pub uninterp spec fn on_curve(address: Seq<u8>) -> bool;

/// The fixed domain tag that keeps authorized-buffer addresses apart from
/// other kinds of derived addresses under the same authority and seed: the
/// bytes of the string "authority".
pub open spec fn authority_tag() -> Seq<u8> {
    seq![97u8, 117u8, 116u8, 104u8, 111u8, 114u8, 105u8, 116u8, 121u8]
}

/// The seed list an authorized buffer's address is derived from: the domain
/// tag, the authority's address, and the seed's 8-byte little-endian form.
pub open spec fn auth_buffer_seeds(authority: Seq<u8>, buffer_seed: u64) -> Seq<Seq<u8>> {
    seq![authority_tag(), authority, spec_u64_to_le_bytes(buffer_seed)]
}

/// The derived address and bump value of the authorized buffer for the given
/// program identity, authority and seed.
pub open spec fn derived_auth_buffer(
    program_id: Seq<u8>,
    authority: Seq<u8>,
    buffer_seed: u64,
) -> Option<(Seq<u8>, u8)> {
    pda_of(auth_buffer_seeds(authority, buffer_seed), program_id)
}

/// Relies on `Pubkey::try_find_program_address` of `solana_program`: its
/// result is a pure function of the seeds and the program identity, and an
/// address it returns never lies on the Ed25519 curve (the search skips
/// every on-curve candidate).
#[verifier::external_body]
fn try_find_pda(seeds: &Vec<Vec<u8>>, program_id: &[u8; 32]) -> (r: Option<([u8; 32], u8)>)
    ensures
        (match r {
            Some(p) => Some((p.0@, p.1)),
            None => None,
        }) == pda_of(seeds@.map_values(|s: Vec<u8>| s@), program_id@),
        match r {
            Some(p) => !on_curve(p.0@),
            None => true,
        },
{
    let program_key = solana_program::pubkey::Pubkey::new_from_array(*program_id);
    let seed_slices: Vec<&[u8]> = seeds.iter().map(|s| s.as_slice()).collect();
    let found = solana_program::pubkey::Pubkey::try_find_program_address(
        &seed_slices,
        &program_key,
    );
    found.map(|(address, bump)| (address.to_bytes(), bump))
}

/// Relies on `Pubkey::is_on_curve` of `solana_program`: whether an address
/// is a valid Ed25519 curve point depends on its 32 bytes alone.
#[verifier::external_body]
fn query_on_curve(address: &[u8; 32]) -> (r: bool)
    ensures
        r == on_curve(address@),
{
    solana_program::pubkey::Pubkey::new_from_array(*address).is_on_curve()
}

/// The well-known identity of the system program, the external service that
/// allocates account storage: 32 zero bytes.
pub open spec fn system_program_id() -> Seq<u8> {
    Seq::new(32, |i: int| 0u8)
}

/// Relies on `solana_system_interface::program::ID`, the system program's
/// declared address: the base58 string of 32 ones, which decodes to 32 zero
/// bytes.
#[verifier::external_body]
pub(crate) fn system_program_id_bytes() -> (r: [u8; 32])
    ensures
        r@ == system_program_id(),
{
    solana_system_interface::program::ID.to_bytes()
}

/// The domain tag as bytes.
fn authority_tag_bytes() -> (v: Vec<u8>)
    ensures
        v@ == authority_tag(),
{
    let mut v: Vec<u8> = Vec::new();
    v.push(97);
    v.push(117);
    v.push(116);
    v.push(104);
    v.push(111);
    v.push(114);
    v.push(105);
    v.push(116);
    v.push(121);
    proof {
        assert(v@ =~= authority_tag());
    }
    v
}

/// The seed list for deriving an authorized buffer's address.
pub fn auth_buffer_seed_vecs(authority: &[u8; 32], buffer_seed: u64) -> (v: Vec<Vec<u8>>)
    ensures
        v@.map_values(|s: Vec<u8>| s@) == auth_buffer_seeds(authority@, buffer_seed),
{
    let mut v: Vec<Vec<u8>> = Vec::new();
    v.push(authority_tag_bytes());
    v.push(vstd::slice::slice_to_vec(authority.as_slice()));
    v.push(u64_to_le_bytes(buffer_seed));
    proof {
        assert(v@.map_values(|s: Vec<u8>| s@) =~= auth_buffer_seeds(authority@, buffer_seed));
    }
    v
}

/// The derivation proof handed to the system program in place of a real
/// signature: the derivation seeds followed by the bump value as a one-byte
/// seed.
pub fn signer_seed_vecs(authority: &[u8; 32], buffer_seed: u64, bump_seed: u8) -> (v: Vec<Vec<u8>>)
    ensures
        v@.map_values(|s: Vec<u8>| s@) == auth_buffer_seeds(authority@, buffer_seed).push(
            seq![bump_seed],
        ),
{
    let mut v = auth_buffer_seed_vecs(authority, buffer_seed);
    let mut bump: Vec<u8> = Vec::new();
    bump.push(bump_seed);
    v.push(bump);
    proof {
        assert(bump@ =~= seq![bump_seed]);
        assert(v@.map_values(|s: Vec<u8>| s@) =~= auth_buffer_seeds(authority@, buffer_seed).push(
            seq![bump_seed],
        ));
    }
    v
}

/// Derive the authorized buffer's address and bump value for the given
/// program identity, authority and seed.
///
/// The same three inputs always yield the same address and bump, and the
/// address is never a valid signing address. The search fails only when
/// every bump value yields an on-curve address, an effectively unreachable
/// internal failure reported as `DefaultError`.
pub fn derive(
    program_id: &[u8; 32],
    authority: &[u8; 32],
    buffer_seed: u64,
) -> (r: Result<([u8; 32], u8), EchoError>)
    ensures
        match r {
            Ok(p) => {
                &&& derived_auth_buffer(program_id@, authority@, buffer_seed) == Some((p.0@, p.1))
                &&& !on_curve(p.0@)
            },
            Err(e) => {
                &&& derived_auth_buffer(program_id@, authority@, buffer_seed) is None
                &&& e == EchoError::DefaultError
            },
        },
{
    let seeds = auth_buffer_seed_vecs(authority, buffer_seed);
    match try_find_pda(&seeds, program_id) {
        Some(p) => Ok(p),
        None => Err(EchoError::DefaultError),
    }
}

/// Derivation is deterministic: any two derivations from the same program
/// identity, authority and seed yield the same outcome, address and bump
/// value included. Every result of `derive` equals
/// `derived_auth_buffer(program_id, authority, buffer_seed)`, so any later
/// party re-running the derivation reconstructs the same address without
/// reading stored state.
pub proof fn lemma_derivation_deterministic(
    program_id: Seq<u8>,
    authority: Seq<u8>,
    buffer_seed: u64,
    r1: Option<(Seq<u8>, u8)>,
    r2: Option<(Seq<u8>, u8)>,
)
    requires
        r1 == derived_auth_buffer(program_id, authority, buffer_seed),
        r2 == derived_auth_buffer(program_id, authority, buffer_seed),
    ensures
        r1 == r2,
{
}

/// Report whether an address is off the Ed25519 curve, i.e. provably lacks
/// a corresponding private key.
pub fn is_off_curve(address: &[u8; 32]) -> (r: bool)
    ensures
        r == !on_curve(address@),
{
    !query_on_curve(address)
}

} // verus!
