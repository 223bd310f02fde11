use vstd::prelude::*;
use vstd::bytes::spec_u64_from_le_bytes;
use crate::DecodeError;
use crate::bitfield::{
    decode_bitfield, enumerate_subnets, spec_bitfield_byte_len, spec_subnet_list, BitSequence,
};
use crate::chain::get_chain_spec;
use crate::fork_id::{decode_fork_identity, EnrForkId};
use crate::peer_id::{derive_peer_id, spec_derive_peer_id, PublicKey};
use enr::EnrPublicKey;

verus! {

/// A parsed discovery record: a signed key-value store of named binary
/// fields.  Held opaquely; its contents are read through `enr_contents`.
#[verifier::external_body]
pub struct Record {
    inner: enr::Enr<enr::CombinedKey>,
}

#[verifier::external_type_specification]
#[verifier::external_body]
pub struct ExCombinedPublicKey(enr::CombinedPublicKey);

/// The key-value contents of a discovery record: each named field's decoded
/// payload bytes.
pub uninterp spec fn enr_contents(e: Record) -> Map<Seq<char>, Seq<u8>>;

/// The public key a discovery record carries; every record holds one.
pub uninterp spec fn spec_enr_key(e: Record) -> enr::CombinedPublicKey;

/// The encoded form of a record public key: the algorithm tag with the
/// canonical key bytes, a function of the key alone.
pub uninterp spec fn spec_combined_key(k: enr::CombinedPublicKey) -> PublicKey;

/// The record a text parses to, or nothing when the parser rejects it; a
/// function of the text alone.
pub uninterp spec fn spec_parse_enr(s: Seq<char>) -> Option<Record>;

/// Relies on enr::Enr::get: looks the key up in the record's content map and
/// returns the stored payload with its length header stripped.
#[allow(deprecated)]
#[verifier::external_body]
fn enr_field(e: &Record, key: &str) -> (r: Option<Vec<u8>>)
    ensures
        r matches Some(v) ==> enr_contents(*e).contains_key(key@) && v@ == enr_contents(*e)[key@],
        r is None ==> !enr_contents(*e).contains_key(key@),
{
    e.inner.get(key).map(|b| b.to_vec())
}

/// Relies on enr::Enr::public_key: decodes the record's own public key,
/// whose presence every record guarantees; a function of the record's
/// contents alone.
#[verifier::external_body]
fn enr_public_key(e: &Record) -> (r: enr::CombinedPublicKey)
    ensures
        r == spec_enr_key(*e),
{
    e.inner.public_key()
}

/// Relies on enr::EnrPublicKey::encode for the two key types: a 33-byte
/// compressed point for secp256k1, the raw 32 bytes for ed25519, each a
/// function of the key alone.
#[verifier::external_body]
fn combined_public_key_bytes(k: &enr::CombinedPublicKey) -> (r: PublicKey)
    ensures
        r == spec_combined_key(*k),
        r matches PublicKey::Secp256k1(b) ==> b@.len() == 33,
        r matches PublicKey::Ed25519(b) ==> b@.len() == 32,
{
    match k {
        enr::CombinedPublicKey::Secp256k1(pk) => PublicKey::Secp256k1(pk.encode().to_vec()),
        enr::CombinedPublicKey::Ed25519(pk) => PublicKey::Ed25519(pk.encode().to_vec()),
    }
}

/// Relies on str::parse for enr::Enr: decodes and signature-checks the
/// textual record representation, a function of the text alone.  Which
/// strings parse is the collaborator's own affair; a failure propagates as
/// `None`.
#[verifier::external_body]
pub fn get_enr_from_string(text: String) -> (r: Option<Record>)
    ensures
        r == spec_parse_enr(text@),
{
    match text.parse::<enr::Enr<enr::CombinedKey>>() {
        Ok(inner) => Some(Record { inner }),
        Err(_) => None,
    }
}

/// The fork identity a record advertises: the decoded 16-byte `"eth2"`
/// field.  `None` when the field is absent or its length is wrong.
pub fn get_fork_id_from_enr(record: &Record) -> (r: Option<EnrForkId>)
    ensures
        r is Some <==> (enr_contents(*record).contains_key("eth2"@) && enr_contents(
            *record,
        )["eth2"@].len() == 16),
        r matches Some(f) ==> {
            let bytes = enr_contents(*record)["eth2"@];
            &&& f.fork_digest@ == bytes.subrange(0, 4)
            &&& f.next_fork_version@ == bytes.subrange(4, 8)
            &&& f.next_fork_epoch == spec_u64_from_le_bytes(bytes.subrange(8, 16))
        },
{
    match enr_field(record, "eth2") {
        Some(bytes) => match decode_fork_identity(bytes.as_slice()) {
            Ok(fork_id) => Some(fork_id),
            Err(_) => None,
        },
        None => None,
    }
}

/// The subnet bitfield a record advertises under `"attnets"`, sized for the
/// chain's subnet count.  A missing field is `FieldAbsent`; a present field
/// of any other length than the required one is `WrongLength`.
pub fn get_bitfield_from_enr(record: &Record) -> (r: Result<BitSequence, DecodeError>)
    ensures
        !enr_contents(*record).contains_key("attnets"@) ==> r == Err::<BitSequence, DecodeError>(
            DecodeError::FieldAbsent,
        ),
        enr_contents(*record).contains_key("attnets"@) ==> {
            let bytes = enr_contents(*record)["attnets"@];
            if bytes.len() == spec_bitfield_byte_len(64) {
                r matches Ok(b) && b.well_formed() && b.spec_bits() == bytes && b.spec_nbits()
                    == 64
            } else {
                r == Err::<BitSequence, DecodeError>(DecodeError::WrongLength)
            }
        },
{
    let subnet_count_u64 = get_chain_spec().attestation_subnet_count;
    let subnet_count: usize = subnet_count_u64 as usize;
    match enr_field(record, "attnets") {
        Some(bytes) => decode_bitfield(bytes.as_slice(), subnet_count),
        None => Err(DecodeError::FieldAbsent),
    }
}

/// The subnet list a record's contents yield: the ascending set bits of a
/// well-sized `"attnets"` field, and the empty list otherwise.
pub open spec fn spec_attnets_of(contents: Map<Seq<char>, Seq<u8>>) -> Seq<u64> {
    if contents.contains_key("attnets"@) && contents["attnets"@].len() == spec_bitfield_byte_len(
        64,
    ) {
        spec_subnet_list(contents["attnets"@], 64, 65)
    } else {
        Seq::empty()
    }
}

/// The subnet indices a record has declared interest in.  A record without
/// the field, or with an undecodable field, yields the empty list, never an
/// error.
pub fn get_attnets_from_enr(record: &Record) -> (r: Vec<u64>)
    ensures
        r@ == spec_attnets_of(enr_contents(*record)),
        !enr_contents(*record).contains_key("attnets"@) ==> r@ == Seq::<u64>::empty(),
{
    match get_bitfield_from_enr(record) {
        Ok(bitfield) => {
            if bitfield.len() > 0 {
                enumerate_subnets(&bitfield, 64)
            } else {
                Vec::new()
            }
        },
        Err(_) => Vec::new(),
    }
}

/// The fork identity advertised by a textual record representation.  `None`
/// when the text does not parse as a record, as well as when the parsed
/// record carries no well-formed `"eth2"` field.
pub fn get_fork_id_from_string(text: String) -> (r: Option<EnrForkId>)
    ensures
        spec_parse_enr(text@) is None ==> r is None,
        spec_parse_enr(text@) matches Some(rec) ==> {
            &&& r is Some <==> (enr_contents(rec).contains_key("eth2"@) && enr_contents(
                rec,
            )["eth2"@].len() == 16)
            &&& r matches Some(f) ==> {
                let bytes = enr_contents(rec)["eth2"@];
                &&& f.fork_digest@ == bytes.subrange(0, 4)
                &&& f.next_fork_version@ == bytes.subrange(4, 8)
                &&& f.next_fork_epoch == spec_u64_from_le_bytes(bytes.subrange(8, 16))
            }
        },
{
    match get_enr_from_string(text) {
        Some(record) => get_fork_id_from_enr(&record),
        None => None,
    }
}

/// Converts a record public key into its canonical peer identifier, without
/// consuming the key: the derivation of the key's encoded form, so a
/// function of the key alone.  `None` only when the encoded key bytes fail
/// to re-decode, which a key taken from a valid record never does.
pub fn into_peer_id(key: &enr::CombinedPublicKey) -> (r: Option<Vec<u8>>)
    ensures
        r.deep_view() == spec_derive_peer_id(spec_combined_key(*key)),
{
    let bytes = combined_public_key_bytes(key);
    derive_peer_id(&bytes)
}

/// The peer identifier for a record: derived from the record's own public
/// key and from nothing else, so records carrying equal keys identify the
/// same peer.
pub fn peer_id(record: &Record) -> (r: Option<Vec<u8>>)
    ensures
        r.deep_view() == spec_derive_peer_id(spec_combined_key(spec_enr_key(*record))),
{
    let key = enr_public_key(record);
    into_peer_id(&key)
}

} // verus!
