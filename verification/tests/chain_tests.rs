use eth2_utils::chain::{get_chain_spec, get_eth2_config};
use sha2::Digest;

#[test]
fn mainnet_constants_are_as_configured() {
    let spec = get_chain_spec();
    assert_eq!(spec.genesis_fork_version, [0u8; 4]);
    assert_eq!(spec.next_fork_version, [0u8; 4]);
    assert_eq!(spec.next_fork_epoch, u64::MAX);
    assert_eq!(spec.far_future_epoch, u64::MAX);
    assert_eq!(spec.attestation_subnet_count, 64);
    assert_eq!(spec.slots_per_epoch, 32);

    let config = get_eth2_config();
    assert_eq!(config.spec.attestation_subnet_count, 64);
    assert_eq!(config.spec.slots_per_epoch, 32);
}

#[test]
fn genesis_fork_identity_hashes_version_and_root() {
    let spec = get_chain_spec();
    let root = [0x11u8; 32];
    let fork_id = spec.enr_fork_id(0, &root);

    let mut data = Vec::new();
    data.extend_from_slice(&[0u8; 4]);
    data.extend_from_slice(&[0u8; 28]);
    data.extend_from_slice(&root);
    let hash = sha2::Sha256::digest(&data);
    assert_eq!(fork_id.fork_digest, [hash[0], hash[1], hash[2], hash[3]]);
    assert_eq!(fork_id.next_fork_version, [0u8; 4]);
    assert_eq!(fork_id.next_fork_epoch, u64::MAX);
}

#[test]
fn the_digest_depends_on_the_genesis_validators_root() {
    let spec = get_chain_spec();
    let a = spec.enr_fork_id(0, &[0u8; 32]);
    let b = spec.enr_fork_id(0, &[1u8; 32]);
    assert_ne!(a.fork_digest, b.fork_digest);
    // The all-zero root hashes the all-zero block, whose hash is a known
    // constant.
    assert_eq!(a.fork_digest, [0xf5, 0xa5, 0xfd, 0x42]);
}

#[test]
fn slots_resolve_to_epochs() {
    let spec = get_chain_spec();
    assert_eq!(spec.slot_to_epoch(0), 0);
    assert_eq!(spec.slot_to_epoch(31), 0);
    assert_eq!(spec.slot_to_epoch(32), 1);
    assert_eq!(spec.slot_to_epoch(1000), 31);
}
