use enr::{CombinedKey, Enr, EnrKey, EnrPublicKey};
use eth2_utils::fork_id::{encode_fork_identity, EnrForkId};
use eth2_utils::record::{
    get_attnets_from_enr, get_bitfield_from_enr, get_enr_from_string, get_fork_id_from_enr,
    get_fork_id_from_string, into_peer_id, peer_id, Record,
};
use eth2_utils::DecodeError;

fn record_with(fields: &[(&str, Vec<u8>)]) -> (Record, CombinedKey) {
    let key = CombinedKey::generate_secp256k1();
    let mut builder = Enr::builder();
    for (name, value) in fields {
        builder.add_value(*name, &value.as_slice());
    }
    let enr = builder.build(&key).expect("a fresh record builds");
    let record = get_enr_from_string(enr.to_base64()).expect("a fresh record reparses");
    (record, key)
}

#[test]
fn fork_id_field_round_trips_through_a_record() {
    let fork_id = EnrForkId {
        fork_digest: [0xb5, 0x30, 0x3f, 0x2a],
        next_fork_version: [1, 0, 0, 0],
        next_fork_epoch: 12345,
    };
    let (record, _) = record_with(&[("eth2", encode_fork_identity(&fork_id))]);
    assert_eq!(get_fork_id_from_enr(&record), Some(fork_id));
}

#[test]
fn missing_fork_id_field_yields_none() {
    let (record, _) = record_with(&[]);
    assert_eq!(get_fork_id_from_enr(&record), None);
}

#[test]
fn undersized_fork_id_field_yields_none() {
    let (record, _) = record_with(&[("eth2", vec![1, 2, 3])]);
    assert_eq!(get_fork_id_from_enr(&record), None);
}

#[test]
fn attnets_bits_become_ascending_subnet_indices() {
    let (record, _) = record_with(&[("attnets", vec![0x21, 0, 0, 0, 0, 0, 0, 0x80])]);
    assert_eq!(get_attnets_from_enr(&record), vec![0, 5, 63]);
}

#[test]
fn absent_attnets_field_yields_an_empty_list_not_an_error() {
    let (record, _) = record_with(&[]);
    assert_eq!(get_attnets_from_enr(&record), Vec::<u64>::new());
    assert_eq!(get_bitfield_from_enr(&record).err(), Some(DecodeError::FieldAbsent));
}

#[test]
fn undersized_attnets_field_is_a_length_error_and_an_empty_list() {
    let (record, _) = record_with(&[("attnets", vec![0xff, 0xff])]);
    assert_eq!(get_bitfield_from_enr(&record).err(), Some(DecodeError::WrongLength));
    assert_eq!(get_attnets_from_enr(&record), Vec::<u64>::new());
}

#[test]
fn unparseable_text_yields_none() {
    assert!(get_enr_from_string("not a record".to_string()).is_none());
    assert_eq!(get_fork_id_from_string("not a record".to_string()), None);
}

#[test]
fn fork_id_resolves_from_the_textual_form() {
    let fork_id = EnrForkId {
        fork_digest: [9, 9, 9, 9],
        next_fork_version: [0, 0, 0, 1],
        next_fork_epoch: u64::MAX,
    };
    let key = CombinedKey::generate_secp256k1();
    let mut builder = Enr::builder();
    let encoded = encode_fork_identity(&fork_id);
    builder.add_value("eth2", &encoded.as_slice());
    let enr = builder.build(&key).expect("a fresh record builds");
    assert_eq!(get_fork_id_from_string(enr.to_base64()), Some(fork_id));
}

#[test]
fn record_peer_id_matches_the_key_derivation() {
    let (record, key) = record_with(&[]);
    let from_record = peer_id(&record).expect("a valid record key derives");
    let from_key = into_peer_id(&key.public()).expect("a valid key derives");
    assert_eq!(from_record, from_key);

    let lp_key =
        libp2p_identity::secp256k1::PublicKey::try_from_bytes(&key.public().encode()).unwrap();
    let expected = libp2p_identity::PeerId::from_public_key(&lp_key.into()).to_bytes();
    assert_eq!(from_record, expected);
}

#[test]
fn records_with_the_same_key_identify_the_same_peer() {
    let key = CombinedKey::generate_secp256k1();
    let plain: Enr<CombinedKey> = Enr::builder().build(&key).expect("a fresh record builds");
    let mut builder = Enr::builder();
    builder.add_value("attnets", &[0xffu8; 8].as_slice());
    let decorated = builder.build(&key).expect("a fresh record builds");

    let a = get_enr_from_string(plain.to_base64()).expect("a fresh record reparses");
    let b = get_enr_from_string(decorated.to_base64()).expect("a fresh record reparses");
    assert_eq!(peer_id(&a), peer_id(&b));
    assert!(peer_id(&a).is_some());
}

#[test]
fn ed25519_record_peer_id_derives_through_the_ed25519_path() {
    let key = CombinedKey::generate_ed25519();
    let enr: Enr<CombinedKey> = Enr::builder().build(&key).expect("a fresh record builds");
    let record = get_enr_from_string(enr.to_base64()).expect("a fresh record reparses");
    let from_record = peer_id(&record).expect("a valid record key derives");

    let mut pk = key.public().encode();
    let lp_key = libp2p_identity::ed25519::PublicKey::try_from_bytes(&mut pk).unwrap();
    let expected = libp2p_identity::PeerId::from_public_key(&lp_key.into()).to_bytes();
    assert_eq!(from_record, expected);
}
