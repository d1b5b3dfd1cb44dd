//! Identities: the 32-byte addresses records, tokens and callers go by.

use vstd::prelude::*;
use vstd::bytes::{spec_u64_from_le_bytes, spec_u64_to_le_bytes, u64_from_le_bytes, u64_to_le_bytes,
    lemma_auto_spec_u64_to_from_le_bytes};
use vstd::slice::slice_subrange;

verus! {

/// A 32-byte identity, held as four 64-bit words in little-endian order.
/// Word `w0` covers the first eight bytes of the address, `w3` the last.
#[derive(Clone, Copy, Debug, PartialEq, Eq, Structural)]
pub struct Identity {
    pub w0: u64,
    pub w1: u64,
    pub w2: u64,
    pub w3: u64,
}

/// The number of bytes an identity occupies in a packed record.
pub const IDENTITY_LEN: usize = 32;

/// The byte image of an identity: the four words, each little-endian.
pub open spec fn spec_identity_bytes(id: Identity) -> Seq<u8> {
    spec_u64_to_le_bytes(id.w0) + spec_u64_to_le_bytes(id.w1) + spec_u64_to_le_bytes(id.w2)
        + spec_u64_to_le_bytes(id.w3)
}

/// The identity a 32-byte image denotes.
pub open spec fn spec_identity_from_bytes(b: Seq<u8>) -> Identity {
    Identity {
        w0: spec_u64_from_le_bytes(b.subrange(0, 8)),
        w1: spec_u64_from_le_bytes(b.subrange(8, 16)),
        w2: spec_u64_from_le_bytes(b.subrange(16, 24)),
        w3: spec_u64_from_le_bytes(b.subrange(24, 32)),
    }
}

/// Reading back the byte image of an identity yields the identity itself.
pub proof fn lemma_identity_bytes_roundtrip(id: Identity)
    ensures
        spec_identity_bytes(id).len() == 32,
        spec_identity_from_bytes(spec_identity_bytes(id)) == id,
{
    lemma_auto_spec_u64_to_from_le_bytes();
    let b = spec_identity_bytes(id);
    assert(b.subrange(0, 8) =~= spec_u64_to_le_bytes(id.w0));
    assert(b.subrange(8, 16) =~= spec_u64_to_le_bytes(id.w1));
    assert(b.subrange(16, 24) =~= spec_u64_to_le_bytes(id.w2));
    assert(b.subrange(24, 32) =~= spec_u64_to_le_bytes(id.w3));
}

impl Identity {
    /// The identity whose 32 bytes are all zero.
    pub fn zero() -> (r: Identity)
        ensures
            r == (Identity { w0: 0u64, w1: 0u64, w2: 0u64, w3: 0u64 }),
    {
        Identity { w0: 0, w1: 0, w2: 0, w3: 0 }
    }

    /// Appends the 32-byte image of this identity to `out`.
    pub fn pack_into(&self, out: &mut Vec<u8>)
        ensures
            final(out)@ == old(out)@ + spec_identity_bytes(*self),
    {
        proof {
            lemma_auto_spec_u64_to_from_le_bytes();
        }
        let mut piece = u64_to_le_bytes(self.w0);
        out.append(&mut piece);
        let mut piece = u64_to_le_bytes(self.w1);
        out.append(&mut piece);
        let mut piece = u64_to_le_bytes(self.w2);
        out.append(&mut piece);
        let mut piece = u64_to_le_bytes(self.w3);
        out.append(&mut piece);
        proof {
            assert(out@ =~= old(out)@ + spec_identity_bytes(*self));
        }
    }

    /// Reads an identity from a 32-byte slice.
    pub fn unpack_from(src: &[u8]) -> (r: Identity)
        requires
            src@.len() == 32,
        ensures
            r == spec_identity_from_bytes(src@),
    {
        proof {
            lemma_auto_spec_u64_to_from_le_bytes();
        }
        let w0 = u64_from_le_bytes(slice_subrange(src, 0, 8));
        let w1 = u64_from_le_bytes(slice_subrange(src, 8, 16));
        let w2 = u64_from_le_bytes(slice_subrange(src, 16, 24));
        let w3 = u64_from_le_bytes(slice_subrange(src, 24, 32));
        Identity { w0, w1, w2, w3 }
    }
}

} // verus!
