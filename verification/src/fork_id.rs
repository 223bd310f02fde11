use vstd::prelude::*;
use vstd::bytes::{
    lemma_auto_spec_u64_to_from_le_bytes, spec_u64_from_le_bytes, spec_u64_to_le_bytes,
    u64_from_le_bytes, u64_to_le_bytes,
};
use vstd::slice::slice_subrange;
use crate::DecodeError;

verus! {

broadcast use vstd::array::group_array_axioms;

/// The identity of the protocol fork a node follows: the digest of the fork
/// that is currently active, the version of the next scheduled fork, and the
/// epoch at which that next fork activates.  `next_fork_epoch == u64::MAX` is
/// the sentinel for "no scheduled fork".
#[derive(Clone, Copy, Debug)]
pub struct EnrForkId {
    pub fork_digest: [u8; 4],
    pub next_fork_version: [u8; 4],
    pub next_fork_epoch: u64,
}

/// Element-wise comparison of two 4-byte values.
fn bytes4_eq(a: &[u8; 4], b: &[u8; 4]) -> (r: bool)
    ensures
        r <==> *a == *b,
{
    let r = a[0] == b[0] && a[1] == b[1] && a[2] == b[2] && a[3] == b[3];
    proof {
        if r {
            assert(*a =~= *b);
        } else {
            assert(!(*a =~= *b));
        }
    }
    r
}

impl PartialEq for EnrForkId {
    fn eq(&self, o: &EnrForkId) -> (r: bool) {
        bytes4_eq(&self.fork_digest, &o.fork_digest) && bytes4_eq(
            &self.next_fork_version,
            &o.next_fork_version,
        ) && self.next_fork_epoch == o.next_fork_epoch
    }
}

impl vstd::std_specs::cmp::PartialEqSpecImpl for EnrForkId {
    open spec fn obeys_eq_spec() -> bool {
        true
    }

    open spec fn eq_spec(&self, o: &EnrForkId) -> bool {
        self.fork_digest == o.fork_digest && self.next_fork_version == o.next_fork_version
            && self.next_fork_epoch == o.next_fork_epoch
    }
}

impl Eq for EnrForkId {}

/// The 16-byte wire form: the three fields concatenated in order, the epoch in
/// little-endian byte order, no padding.
pub open spec fn spec_encode_fork_id(f: EnrForkId) -> Seq<u8> {
    f.fork_digest@ + f.next_fork_version@ + spec_u64_to_le_bytes(f.next_fork_epoch)
}

/// Encodes a fork identity to its fixed 16-byte wire form.
pub fn encode_fork_identity(f: &EnrForkId) -> (r: Vec<u8>)
    ensures
        r@ == spec_encode_fork_id(*f),
        r@.len() == 16,
{
    proof {
        lemma_auto_spec_u64_to_from_le_bytes();
    }
    let mut out: Vec<u8> = Vec::new();
    out.extend_from_slice(f.fork_digest.as_slice());
    out.extend_from_slice(f.next_fork_version.as_slice());
    let mut epoch_bytes = u64_to_le_bytes(f.next_fork_epoch);
    out.append(&mut epoch_bytes);
    proof {
        assert(out@ =~= spec_encode_fork_id(*f));
    }
    out
}

/// Decodes the fixed 16-byte wire form back into a fork identity.  Any input
/// of exactly 16 bytes decodes successfully; every other length is rejected
/// with `WrongLength`.  (`Malformed` is reserved for content that cannot be
/// parsed; no such content exists for this fixed-width layout.)
pub fn decode_fork_identity(bytes: &[u8]) -> (r: Result<EnrForkId, DecodeError>)
    ensures
        r is Ok <==> bytes@.len() == 16,
        bytes@.len() != 16 ==> r == Err::<EnrForkId, DecodeError>(DecodeError::WrongLength),
        r matches Ok(f) ==> {
            &&& f.fork_digest@ == bytes@.subrange(0, 4)
            &&& f.next_fork_version@ == bytes@.subrange(4, 8)
            &&& f.next_fork_epoch == spec_u64_from_le_bytes(bytes@.subrange(8, 16))
        },
{
    if bytes.len() != 16 {
        return Err(DecodeError::WrongLength);
    }
    let fork_digest: [u8; 4] = [bytes[0], bytes[1], bytes[2], bytes[3]];
    let next_fork_version: [u8; 4] = [bytes[4], bytes[5], bytes[6], bytes[7]];
    let next_fork_epoch = u64_from_le_bytes(slice_subrange(bytes, 8, 16));
    proof {
        assert(fork_digest@ =~= bytes@.subrange(0, 4));
        assert(next_fork_version@ =~= bytes@.subrange(4, 8));
    }
    Ok(EnrForkId { fork_digest, next_fork_version, next_fork_epoch })
}

/// The baseline fork identity used when no record or genesis context is
/// available: all-zero digest, all-zero next version, and the sentinel
/// maximum epoch.
pub fn get_default_fork_id() -> (r: EnrForkId)
    ensures
        r.fork_digest@ == seq![0u8, 0u8, 0u8, 0u8],
        r.next_fork_version@ == seq![0u8, 0u8, 0u8, 0u8],
        r.next_fork_epoch == u64::MAX,
{
    let r = EnrForkId {
        fork_digest: [0; 4],
        next_fork_version: [0; 4],
        next_fork_epoch: u64::MAX,
    };
    proof {
        assert(r.fork_digest@ =~= seq![0u8, 0u8, 0u8, 0u8]);
        assert(r.next_fork_version@ =~= seq![0u8, 0u8, 0u8, 0u8]);
    }
    r
}

/// Builds a fork identity from the first four bytes of each of the two
/// version fields and the given epoch.
pub fn get_fork_id(fork_digest: Vec<u8>, next_fork_version: Vec<u8>, next_fork_epoch: u64) -> (r:
    EnrForkId)
    requires
        fork_digest@.len() >= 4,
        next_fork_version@.len() >= 4,
    ensures
        r.fork_digest@ == fork_digest@.subrange(0, 4),
        r.next_fork_version@ == next_fork_version@.subrange(0, 4),
        r.next_fork_epoch == next_fork_epoch,
{
    let digest: [u8; 4] = [fork_digest[0], fork_digest[1], fork_digest[2], fork_digest[3]];
    let version: [u8; 4] = [
        next_fork_version[0],
        next_fork_version[1],
        next_fork_version[2],
        next_fork_version[3],
    ];
    proof {
        assert(digest@ =~= fork_digest@.subrange(0, 4));
        assert(version@ =~= next_fork_version@.subrange(0, 4));
    }
    EnrForkId { fork_digest: digest, next_fork_version: version, next_fork_epoch }
}

/// Encoding a fork identity to its 16-byte form and reading the three fields
/// back yields the original values, for every representable digest, version
/// and epoch, the sentinel maximum included.
pub proof fn lemma_fork_id_round_trip(f: EnrForkId)
    ensures
        spec_encode_fork_id(f).len() == 16,
        spec_encode_fork_id(f).subrange(0, 4) == f.fork_digest@,
        spec_encode_fork_id(f).subrange(4, 8) == f.next_fork_version@,
        spec_u64_from_le_bytes(spec_encode_fork_id(f).subrange(8, 16)) == f.next_fork_epoch,
{
    lemma_auto_spec_u64_to_from_le_bytes();
    let enc = spec_encode_fork_id(f);
    assert(enc.subrange(0, 4) =~= f.fork_digest@);
    assert(enc.subrange(4, 8) =~= f.next_fork_version@);
    assert(enc.subrange(8, 16) =~= spec_u64_to_le_bytes(f.next_fork_epoch));
}

} // verus!
