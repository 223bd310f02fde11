use eth2_utils::bitfield::{decode_bitfield, enumerate_subnets};
use eth2_utils::DecodeError;

#[test]
fn enumeration_is_ascending_and_exact() {
    // Bits 0 and 5 live in the first byte, bit 63 is the top bit of the
    // eighth byte.
    let bytes = [0x21u8, 0, 0, 0, 0, 0, 0, 0x80];
    let bitfield = decode_bitfield(&bytes, 64).unwrap();
    assert_eq!(enumerate_subnets(&bitfield, 64), vec![0, 5, 63]);
}

#[test]
fn empty_bitfield_yields_no_subnets() {
    let bytes = [0u8; 8];
    let bitfield = decode_bitfield(&bytes, 64).unwrap();
    assert_eq!(enumerate_subnets(&bitfield, 64), Vec::<u64>::new());
}

#[test]
fn full_bitfield_yields_every_subnet() {
    let bytes = [0xffu8; 8];
    let bitfield = decode_bitfield(&bytes, 64).unwrap();
    let all: Vec<u64> = (0..64).collect();
    assert_eq!(enumerate_subnets(&bitfield, 64), all);
}

#[test]
fn length_must_match_exactly() {
    // For each representative subnet count, the required byte length is
    // ceil(count / 8); every other length must fail.
    let cases: [(usize, usize); 5] = [(0, 0), (1, 1), (8, 1), (9, 2), (64, 8)];
    for (count, required) in cases {
        let good = vec![0u8; required];
        assert!(decode_bitfield(&good, count).is_ok());
        if required > 0 {
            let short = vec![0u8; required - 1];
            assert_eq!(decode_bitfield(&short, count).err(), Some(DecodeError::WrongLength));
        }
        let long = vec![0u8; required + 1];
        assert_eq!(decode_bitfield(&long, count).err(), Some(DecodeError::WrongLength));
    }
}

#[test]
fn bit_positions_follow_least_significant_bit_first_order() {
    // 0x01 sets bit 0 of its byte; 0x80 sets bit 7.
    let bytes = [0x01u8, 0x80];
    let bitfield = decode_bitfield(&bytes, 9).unwrap();
    // Bit 15 lies beyond the 9 declared bits, so only bit 0 is reported.
    assert_eq!(enumerate_subnets(&bitfield, 9), vec![0]);
}

#[test]
fn out_of_range_positions_read_as_absent() {
    let bytes = [0xffu8];
    let bitfield = decode_bitfield(&bytes, 3).unwrap();
    assert_eq!(bitfield.len(), 3);
    assert_eq!(bitfield.get(0), Some(true));
    assert_eq!(bitfield.get(2), Some(true));
    assert_eq!(bitfield.get(3), None);
    // The scan bound is inclusive, yet the one-past position reads as
    // absent, so only the declared bits appear.
    assert_eq!(enumerate_subnets(&bitfield, 3), vec![0, 1, 2]);
}
