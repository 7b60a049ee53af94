//! Public identities and the statically configured role identities.
//!
//! An identity is a 32-byte public key, held as two 128-bit halves so that
//! equality and byte decomposition are plain arithmetic. The byte view is
//! big-endian: the high half first, then the low half.
use vstd::prelude::*;

verus! {

/// A 32-byte public identity, split into a high and a low 128-bit half.
#[derive(Clone, Copy, Debug, PartialEq, Eq, Structural)]
pub struct Identity {
    pub hi: u128,
    pub lo: u128,
}

/// The big-endian bytes of one 128-bit half, most significant first.
pub open spec fn be_bytes_u128(x: u128) -> Seq<u8> {
    seq![
        ((x >> 120) & 0xff) as u8,
        ((x >> 112) & 0xff) as u8,
        ((x >> 104) & 0xff) as u8,
        ((x >> 96) & 0xff) as u8,
        ((x >> 88) & 0xff) as u8,
        ((x >> 80) & 0xff) as u8,
        ((x >> 72) & 0xff) as u8,
        ((x >> 64) & 0xff) as u8,
        ((x >> 56) & 0xff) as u8,
        ((x >> 48) & 0xff) as u8,
        ((x >> 40) & 0xff) as u8,
        ((x >> 32) & 0xff) as u8,
        ((x >> 24) & 0xff) as u8,
        ((x >> 16) & 0xff) as u8,
        ((x >> 8) & 0xff) as u8,
        (x & 0xff) as u8,
    ]
}

/// The 32-byte big-endian view of an identity: high half, then low half.
pub open spec fn identity_bytes(id: Identity) -> Seq<u8> {
    be_bytes_u128(id.hi) + be_bytes_u128(id.lo)
}

impl Identity {
    /// The 32 big-endian bytes of this identity.
    pub fn to_bytes(&self) -> (r: Vec<u8>)
        ensures r@ == identity_bytes(*self),
    {
        let mut out: Vec<u8> = Vec::new();
        push_be_bytes_u128(&mut out, self.hi);
        push_be_bytes_u128(&mut out, self.lo);
        proof {
            assert(out@ =~= identity_bytes(*self));
        }
        out
    }
}

/// Appends the 16 big-endian bytes of `x`, most significant first.
fn push_be_bytes_u128(out: &mut Vec<u8>, x: u128)
    ensures final(out)@ == old(out)@ + be_bytes_u128(x),
{
    let ghost base = out@;
    out.push(((x >> 120) & 0xff) as u8);
    out.push(((x >> 112) & 0xff) as u8);
    out.push(((x >> 104) & 0xff) as u8);
    out.push(((x >> 96) & 0xff) as u8);
    out.push(((x >> 88) & 0xff) as u8);
    out.push(((x >> 80) & 0xff) as u8);
    out.push(((x >> 72) & 0xff) as u8);
    out.push(((x >> 64) & 0xff) as u8);
    out.push(((x >> 56) & 0xff) as u8);
    out.push(((x >> 48) & 0xff) as u8);
    out.push(((x >> 40) & 0xff) as u8);
    out.push(((x >> 32) & 0xff) as u8);
    out.push(((x >> 24) & 0xff) as u8);
    out.push(((x >> 16) & 0xff) as u8);
    out.push(((x >> 8) & 0xff) as u8);
    out.push((x & 0xff) as u8);
    proof {
        assert(out@ =~= base + be_bytes_u128(x));
    }
}

/// The statically configured role identities and the program's own identity,
/// supplied by the embedding process at start, never baked into the library.
#[derive(Clone, Copy, Debug, PartialEq, Eq, Structural)]
pub struct Config {
    /// The single admin identity: may register pool configurations.
    pub admin: Identity,
    /// The single relay-service identity: may drive the position lifecycle.
    pub service: Identity,
    /// The program identity under which delegated authorities are derived.
    pub program: Identity,
}

} // verus!
