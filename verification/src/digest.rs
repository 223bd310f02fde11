use vstd::prelude::*;

verus! {

broadcast use vstd::array::group_array_axioms;

/// The SHA-256 hash of a byte sequence, as computed by the hashing backend.
pub uninterp spec fn sha256_of(data: Seq<u8>) -> Seq<u8>;

/// The hashed fork-data block: the 4-byte fork version padded to a 32-byte
/// chunk, followed by the 32-byte genesis validators root.
pub open spec fn spec_fork_data(version: Seq<u8>, root: Seq<u8>) -> Seq<u8> {
    version + Seq::new(28, |i: int| 0u8) + root
}

/// The fork digest: the first four bytes of the hash of the fork-data block.
pub open spec fn spec_fork_digest(version: Seq<u8>, root: Seq<u8>) -> Seq<u8> {
    sha256_of(spec_fork_data(version, root)).take(4)
}

/// Relies on sha2::Sha256::digest: the 32-byte SHA-256 hash, a function of
/// the input bytes alone.
#[verifier::external_body]
fn sha256(data: &[u8]) -> (r: Vec<u8>)
    ensures
        r@ == sha256_of(data@),
        r@.len() == 32,
{
    <sha2::Sha256 as sha2::Digest>::digest(data).to_vec()
}

/// Derives the 4-byte fork digest for a fork version evaluated against a
/// genesis validators root.
pub fn compute_fork_digest(
    current_version: &[u8; 4],
    genesis_validators_root: &[u8; 32],
) -> (r: [u8; 4])
    ensures
        r@ == spec_fork_digest(current_version@, genesis_validators_root@),
{
    let mut data: Vec<u8> = Vec::new();
    data.extend_from_slice(current_version.as_slice());
    let padding: [u8; 28] = [0; 28];
    data.extend_from_slice(padding.as_slice());
    data.extend_from_slice(genesis_validators_root.as_slice());
    proof {
        assert(data@ =~= spec_fork_data(current_version@, genesis_validators_root@));
    }
    let h = sha256(&data);
    let digest: [u8; 4] = [h[0], h[1], h[2], h[3]];
    proof {
        assert(digest@ =~= sha256_of(data@).take(4));
    }
    digest
}

} // verus!
