use vstd::prelude::*;

/// Fixed-length bit vectors and subnet enumeration.
pub mod bitfield;
/// Chain and network constants, and fork-identity resolution from genesis.
pub mod chain;
/// Fork-digest derivation over the hashing backend.
pub mod digest;
/// The fixed 16-byte fork-identity codec.
pub mod fork_id;
/// Peer-identifier derivation from tagged public keys.
pub mod peer_id;
/// Reading fork identity, subnets and peer identifier out of a discovery
/// record.
pub mod record;
/// Canonical gossip topic strings.
pub mod topic;

verus! {

/// Failure modes of the fixed-layout decoders.
#[derive(Clone, Copy, Debug, PartialEq, Eq, Structural)]
pub enum DecodeError {
    /// A fixed-width field's byte length does not match its required size.
    WrongLength,
    /// A named record field is missing.
    FieldAbsent,
    /// Structurally present but logically invalid content.
    Malformed,
}

} // verus!
