use vstd::prelude::*;

verus! {

/// A node's public key, tagged by its algorithm.  The tag fixes both the
/// expected encoding of the bytes (a 33-byte compressed point for
/// `Secp256k1`, a raw 32-byte key for `Ed25519`) and the derivation path of
/// the peer identifier.
pub enum PublicKey {
    Secp256k1(Vec<u8>),
    Ed25519(Vec<u8>),
}

/// The peer identifier derived from a compressed secp256k1 public key, or
/// nothing when the bytes are not a valid compressed point.
pub uninterp spec fn secp256k1_peer_id(key: Seq<u8>) -> Option<Seq<u8>>;

/// The peer identifier derived from a raw ed25519 public key, or nothing
/// when the bytes are not a valid key.
pub uninterp spec fn ed25519_peer_id(key: Seq<u8>) -> Option<Seq<u8>>;

/// Relies on libp2p_identity::secp256k1::PublicKey::try_from_bytes and
/// libp2p_identity::PeerId::from_public_key: decoding, the protobuf
/// encoding and the multihash construction are functions of the compressed
/// key bytes alone.
#[verifier::external_body]
fn secp256k1_peer_id_bytes(key: &[u8]) -> (r: Option<Vec<u8>>)
    ensures
        r.deep_view() == secp256k1_peer_id(key@),
{
    match libp2p_identity::secp256k1::PublicKey::try_from_bytes(key) {
        Ok(pk) => Some(libp2p_identity::PeerId::from_public_key(&pk.into()).to_bytes()),
        Err(_) => None,
    }
}

/// Relies on libp2p_identity::ed25519::PublicKey::try_from_bytes and
/// libp2p_identity::PeerId::from_public_key: decoding accepts exactly 32
/// bytes forming a valid key, and the identifier is a function of those
/// bytes alone.
#[verifier::external_body]
fn ed25519_peer_id_bytes(key: &[u8]) -> (r: Option<Vec<u8>>)
    ensures
        r.deep_view() == ed25519_peer_id(key@),
        key@.len() != 32 ==> r is None,
{
    match libp2p_identity::ed25519::PublicKey::try_from_bytes(key) {
        Ok(pk) => Some(libp2p_identity::PeerId::from_public_key(&pk.into()).to_bytes()),
        Err(_) => None,
    }
}

/// The key bytes, whatever the algorithm tag.
pub open spec fn spec_key_bytes(k: PublicKey) -> Seq<u8> {
    match k {
        PublicKey::Secp256k1(b) => b@,
        PublicKey::Ed25519(b) => b@,
    }
}

/// The peer identifier a key derives to: each algorithm tag selects its own
/// derivation of the key bytes, and an invalid encoding derives to nothing.
pub open spec fn spec_derive_peer_id(k: PublicKey) -> Option<Seq<u8>> {
    match k {
        PublicKey::Secp256k1(b) => secp256k1_peer_id(b@),
        PublicKey::Ed25519(b) => ed25519_peer_id(b@),
    }
}

/// Whether byte content is a compressed point the secp256k1 decoder
/// accepts: exactly the content whose derivation yields an identifier.
pub open spec fn spec_secp256k1_valid(key: Seq<u8>) -> bool {
    secp256k1_peer_id(key) is Some
}

/// Derives the canonical peer identifier byte sequence for a public key.
/// Succeeds for every key whose bytes are a valid encoding under its tag;
/// an upstream decoding failure surfaces as `None` rather than a panic.
pub fn derive_peer_id(key: &PublicKey) -> (r: Option<Vec<u8>>)
    ensures
        r.deep_view() == spec_derive_peer_id(*key),
        key matches PublicKey::Secp256k1(b) ==> (r is Some <==> spec_secp256k1_valid(b@)),
        (key matches PublicKey::Ed25519(b) && b@.len() != 32) ==> r is None,
{
    match key {
        PublicKey::Secp256k1(b) => secp256k1_peer_id_bytes(b.as_slice()),
        PublicKey::Ed25519(b) => ed25519_peer_id_bytes(b.as_slice()),
    }
}

/// Peer-identifier derivation is deterministic: two keys of the same
/// algorithm holding the same bytes derive the same identifier.
pub proof fn lemma_peer_id_deterministic(a: PublicKey, b: PublicKey)
    requires
        a is Secp256k1 <==> b is Secp256k1,
        spec_key_bytes(a) == spec_key_bytes(b),
    ensures
        spec_derive_peer_id(a) == spec_derive_peer_id(b),
{
}

/// Derivation dispatches on the algorithm tag alone: a key tagged
/// `Ed25519` derives only through the ed25519 path and a key tagged
/// `Secp256k1` only through the secp256k1 path.
pub proof fn lemma_algorithm_dispatch(k: PublicKey)
    ensures
        k matches PublicKey::Secp256k1(b) ==> spec_derive_peer_id(k) == secp256k1_peer_id(b@),
        k matches PublicKey::Ed25519(b) ==> spec_derive_peer_id(k) == ed25519_peer_id(b@),
{
}

} // verus!
