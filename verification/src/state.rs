//! Persistent buffer headers and their fixed binary layout.
//!
//! Every buffer account stores a 9-byte header at offset 0 of its storage:
//! byte 0 holds the bump value found during address derivation, bytes 1..9
//! hold a variant-specific 8-byte value (the derivation seed for authorized
//! buffers, the price for vending-machine buffers) in little-endian order.
//! There is no padding, no version tag and no checksum: the layout is fixed
//! and closed, and all readers and writers must agree on it byte for byte.

use vstd::bytes::{
    lemma_auto_spec_u64_to_from_le_bytes, spec_u64_from_le_bytes, spec_u64_to_le_bytes,
    u64_from_le_bytes, u64_to_le_bytes,
};
use vstd::prelude::*;
use vstd::slice::slice_subrange;

verus! {

/// The size in bytes of an authorized buffer's header.
pub const AUTH_BUFF_HEADER_SIZE: usize = 9;

/// The size in bytes of a vending-machine buffer's header.
pub const VENDING_MACHINE_BUFF_HEADER_SIZE: usize = 9;

/// The header written once at the start of an authorized buffer's storage.
#[derive(Clone, Copy, Debug, PartialEq, Eq, Structural)]
pub struct AuthorizedBufferHeader {
    /// The disambiguation value found during address derivation; persisted so
    /// the buffer's address can be re-verified later without a fresh search.
    pub bump_seed: u8,
    /// The caller-chosen seed used in the address derivation.
    pub buffer_seed: u64,
}

/// The header written at the start of a vending-machine buffer's storage.
/// It shares the authorized header's 9-byte layout, with the price in place
/// of the derivation seed.
#[derive(Clone, Copy, Debug, PartialEq, Eq, Structural)]
pub struct VendingMachineBufferHeader {
    /// The disambiguation value found during address derivation.
    pub bump_seed: u8,
    /// The price of a write into the buffer.
    pub price: u64,
}

/// The 9-byte wire form of an authorized buffer's header: the bump value,
/// then the seed in little-endian order.
pub open spec fn spec_encode_auth_header(h: AuthorizedBufferHeader) -> Seq<u8> {
    seq![h.bump_seed] + spec_u64_to_le_bytes(h.buffer_seed)
}

/// The header read back from a 9-byte wire form.
pub open spec fn spec_decode_auth_header(s: Seq<u8>) -> AuthorizedBufferHeader
    recommends
        s.len() == AUTH_BUFF_HEADER_SIZE,
{
    AuthorizedBufferHeader {
        bump_seed: s[0],
        buffer_seed: spec_u64_from_le_bytes(s.subrange(1, 9)),
    }
}

/// Decoding inverts encoding: every header survives a round trip through its
/// 9-byte wire form, and the wire form is exactly 9 bytes long.
pub proof fn lemma_auth_header_roundtrip(h: AuthorizedBufferHeader)
    ensures
        spec_encode_auth_header(h).len() == AUTH_BUFF_HEADER_SIZE,
        spec_decode_auth_header(spec_encode_auth_header(h)) == h,
{
    lemma_auto_spec_u64_to_from_le_bytes();
    assert(spec_encode_auth_header(h).subrange(1, 9) =~= spec_u64_to_le_bytes(h.buffer_seed));
}

impl AuthorizedBufferHeader {
    /// Serialize the header into its 9-byte wire form.
    pub fn encode(&self) -> (out: Vec<u8>)
        ensures
            out@ == spec_encode_auth_header(*self),
            out@.len() == AUTH_BUFF_HEADER_SIZE,
    {
        let mut out: Vec<u8> = Vec::new();
        out.push(self.bump_seed);
        let mut tail = u64_to_le_bytes(self.buffer_seed);
        out.append(&mut tail);
        proof {
            lemma_auto_spec_u64_to_from_le_bytes();
            assert(out@ =~= spec_encode_auth_header(*self));
        }
        out
    }

    /// Deserialize a header from the first 9 bytes of `bytes`.
    ///
    /// Handing over fewer than 9 bytes is a caller error: the provisioning
    /// path guarantees that a buffer's storage is larger than its header
    /// before any decode runs.
    pub fn decode(bytes: &[u8]) -> (h: AuthorizedBufferHeader)
        requires
            bytes@.len() >= AUTH_BUFF_HEADER_SIZE,
        ensures
            h == spec_decode_auth_header(bytes@.subrange(0, AUTH_BUFF_HEADER_SIZE as int)),
    {
        let bump_seed = bytes[0];
        let buffer_seed = u64_from_le_bytes(slice_subrange(bytes, 1, 9));
        proof {
            let prefix = bytes@.subrange(0, AUTH_BUFF_HEADER_SIZE as int);
            assert(prefix.subrange(1, 9) =~= bytes@.subrange(1, 9));
            assert(prefix[0] == bytes@[0]);
        }
        AuthorizedBufferHeader { bump_seed, buffer_seed }
    }
}

} // verus!
