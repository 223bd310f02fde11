use enr::{CombinedKey, EnrKey, EnrPublicKey};
use eth2_utils::peer_id::{derive_peer_id, PublicKey};

// The compressed base point of the secp256k1 curve: a valid public key with
// a well-known encoding.
fn base_point() -> Vec<u8> {
    vec![
        0x02, 0x79, 0xbe, 0x66, 0x7e, 0xf9, 0xdc, 0xbb, 0xac, 0x55, 0xa0, 0x62, 0x95, 0xce, 0x87,
        0x0b, 0x07, 0x02, 0x9b, 0xfc, 0xdb, 0x2d, 0xce, 0x28, 0xd9, 0x59, 0xf2, 0x81, 0x5b, 0x16,
        0xf8, 0x17, 0x98,
    ]
}

#[test]
fn secp256k1_derivation_is_deterministic() {
    let a = derive_peer_id(&PublicKey::Secp256k1(base_point())).unwrap();
    let b = derive_peer_id(&PublicKey::Secp256k1(base_point())).unwrap();
    assert_eq!(a, b);
}

#[test]
fn distinct_keys_derive_distinct_identifiers() {
    let k1 = CombinedKey::generate_secp256k1().public().encode();
    let k2 = CombinedKey::generate_secp256k1().public().encode();
    assert_ne!(k1, k2);
    let p1 = derive_peer_id(&PublicKey::Secp256k1(k1)).unwrap();
    let p2 = derive_peer_id(&PublicKey::Secp256k1(k2)).unwrap();
    assert_ne!(p1, p2);
}

#[test]
fn compressed_point_succeeds_through_the_secp256k1_path() {
    let derived = derive_peer_id(&PublicKey::Secp256k1(base_point()));
    assert!(derived.is_some());
}

#[test]
fn the_same_bytes_mistagged_as_ed25519_fail_at_decode() {
    let derived = derive_peer_id(&PublicKey::Ed25519(base_point()));
    assert!(derived.is_none());
}

#[test]
fn ed25519_derivation_succeeds_and_is_deterministic() {
    let key = CombinedKey::generate_ed25519().public().encode();
    assert_eq!(key.len(), 32);
    let a = derive_peer_id(&PublicKey::Ed25519(key.clone())).unwrap();
    let b = derive_peer_id(&PublicKey::Ed25519(key.clone())).unwrap();
    assert_eq!(a, b);
    assert_ne!(a, key);
}

#[test]
fn derivation_matches_the_multihash_construction() {
    let key_bytes = base_point();
    let derived = derive_peer_id(&PublicKey::Secp256k1(key_bytes.clone())).unwrap();
    let lp_key = libp2p_identity::secp256k1::PublicKey::try_from_bytes(&key_bytes).unwrap();
    let expected =
        libp2p_identity::PeerId::from_public_key(&lp_key.into()).to_bytes();
    assert_eq!(derived, expected);
    assert_ne!(derived, key_bytes);
}

#[test]
fn invalid_secp256k1_bytes_fail_at_decode() {
    // The right length, but not a point on the curve (an invalid prefix).
    let mut bad = base_point();
    bad[0] = 0x07;
    assert!(derive_peer_id(&PublicKey::Secp256k1(bad)).is_none());
}
