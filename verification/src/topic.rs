use vstd::prelude::*;
use vstd::string::StringExecFns;
use crate::fork_id::EnrForkId;

verus! {

/// The message categories carried over gossip that the default network
/// configuration subscribes to.
#[derive(Clone, Copy, Debug, PartialEq, Eq, Structural)]
pub enum GossipKind {
    BeaconBlock,
    BeaconAggregateAndProof,
    VoluntaryExit,
    ProposerSlashing,
    AttesterSlashing,
}

/// The wire serialization and compression scheme named in a topic.
#[derive(Clone, Copy, Debug, PartialEq, Eq, Structural)]
pub enum GossipEncoding {
    SSZSnappy,
}

impl Default for GossipEncoding {
    /// The default encoding tag of the network configuration.
    fn default() -> (r: GossipEncoding)
        ensures
            r == GossipEncoding::SSZSnappy,
    {
        GossipEncoding::SSZSnappy
    }
}

/// The canonical name of a topic kind.
pub open spec fn spec_kind_str(k: GossipKind) -> Seq<char> {
    match k {
        GossipKind::BeaconBlock => "beacon_block"@,
        GossipKind::BeaconAggregateAndProof => "beacon_aggregate_and_proof"@,
        GossipKind::VoluntaryExit => "voluntary_exit"@,
        GossipKind::ProposerSlashing => "proposer_slashing"@,
        GossipKind::AttesterSlashing => "attester_slashing"@,
    }
}

/// The canonical suffix of an encoding tag.
pub open spec fn spec_encoding_str(e: GossipEncoding) -> Seq<char> {
    "ssz_snappy"@
}

/// The lower-case hexadecimal digit for a value below 16.
pub open spec fn spec_hex_char(n: u8) -> char
    recommends
        n < 16,
{
    if n == 0 {
        '0'
    } else if n == 1 {
        '1'
    } else if n == 2 {
        '2'
    } else if n == 3 {
        '3'
    } else if n == 4 {
        '4'
    } else if n == 5 {
        '5'
    } else if n == 6 {
        '6'
    } else if n == 7 {
        '7'
    } else if n == 8 {
        '8'
    } else if n == 9 {
        '9'
    } else if n == 10 {
        'a'
    } else if n == 11 {
        'b'
    } else if n == 12 {
        'c'
    } else if n == 13 {
        'd'
    } else if n == 14 {
        'e'
    } else {
        'f'
    }
}

/// Two lower-case hexadecimal digits, high nibble first.
pub open spec fn spec_hex_of_byte(b: u8) -> Seq<char> {
    seq![spec_hex_char(b / 16), spec_hex_char(b % 16)]
}

/// The lower-case hexadecimal rendering of a byte sequence.
pub open spec fn spec_hex(bytes: Seq<u8>) -> Seq<char>
    decreases bytes.len(),
{
    if bytes.len() == 0 {
        Seq::empty()
    } else {
        spec_hex_of_byte(bytes[0]) + spec_hex(bytes.drop_first())
    }
}

/// The canonical topic string: a fixed prefix, the hexadecimal rendering of
/// the fork digest, the kind's name and the encoding's suffix, separated by
/// slashes.
pub open spec fn spec_topic(kind: GossipKind, encoding: GossipEncoding, digest: Seq<u8>) -> Seq<
    char,
> {
    "/eth2/"@ + spec_hex(digest) + "/"@ + spec_kind_str(kind) + "/"@ + spec_encoding_str(encoding)
}

/// The one-character string for a hexadecimal digit.
fn hex_str(n: u8) -> (r: &'static str)
    requires
        n < 16,
    ensures
        r@ == seq![spec_hex_char(n)],
{
    let r: &'static str = match n {
        0 => "0",
        1 => "1",
        2 => "2",
        3 => "3",
        4 => "4",
        5 => "5",
        6 => "6",
        7 => "7",
        8 => "8",
        9 => "9",
        10 => "a",
        11 => "b",
        12 => "c",
        13 => "d",
        14 => "e",
        _ => "f",
    };
    proof {
        reveal_strlit("0");
        reveal_strlit("1");
        reveal_strlit("2");
        reveal_strlit("3");
        reveal_strlit("4");
        reveal_strlit("5");
        reveal_strlit("6");
        reveal_strlit("7");
        reveal_strlit("8");
        reveal_strlit("9");
        reveal_strlit("a");
        reveal_strlit("b");
        reveal_strlit("c");
        reveal_strlit("d");
        reveal_strlit("e");
        reveal_strlit("f");
        assert(r@ =~= seq![spec_hex_char(n)]);
    }
    r
}

/// The canonical name of a topic kind.
pub fn kind_str(k: &GossipKind) -> (r: &'static str)
    ensures
        r@ == spec_kind_str(*k),
{
    match k {
        GossipKind::BeaconBlock => "beacon_block",
        GossipKind::BeaconAggregateAndProof => "beacon_aggregate_and_proof",
        GossipKind::VoluntaryExit => "voluntary_exit",
        GossipKind::ProposerSlashing => "proposer_slashing",
        GossipKind::AttesterSlashing => "attester_slashing",
    }
}

/// The canonical suffix of an encoding tag.
pub fn encoding_str(e: &GossipEncoding) -> (r: &'static str)
    ensures
        r@ == spec_encoding_str(*e),
{
    match e {
        GossipEncoding::SSZSnappy => "ssz_snappy",
    }
}

/// Builds the canonical topic string for a kind, an encoding and a fork
/// digest.
#[verifier::rlimit(50)]
pub fn build_topic(kind: &GossipKind, encoding: &GossipEncoding, fork_digest: &[u8; 4]) -> (r:
    String)
    ensures
        r@ == spec_topic(*kind, *encoding, fork_digest@),
{
    let ghost d = fork_digest@;
    let mut s = String::from_str("/eth2/");
    s.append(hex_str(fork_digest[0] / 16));
    s.append(hex_str(fork_digest[0] % 16));
    s.append(hex_str(fork_digest[1] / 16));
    s.append(hex_str(fork_digest[1] % 16));
    s.append(hex_str(fork_digest[2] / 16));
    s.append(hex_str(fork_digest[2] % 16));
    s.append(hex_str(fork_digest[3] / 16));
    s.append(hex_str(fork_digest[3] % 16));
    s.append("/");
    s.append(kind_str(kind));
    s.append("/");
    s.append(encoding_str(encoding));
    proof {
        let d1 = d.drop_first();
        let d2 = d1.drop_first();
        let d3 = d2.drop_first();
        let d4 = d3.drop_first();
        assert(d1[0] == d[1] && d2[0] == d[2] && d3[0] == d[3]);
        assert(d4 =~= Seq::<u8>::empty());
        assert(spec_hex(d4) =~= Seq::<char>::empty());
        assert(spec_hex(d3) =~= spec_hex_of_byte(d[3]));
        assert(spec_hex(d2) =~= spec_hex_of_byte(d[2]) + spec_hex_of_byte(d[3]));
        assert(spec_hex(d1) =~= spec_hex_of_byte(d[1]) + spec_hex_of_byte(d[2])
            + spec_hex_of_byte(d[3]));
        assert(spec_hex(d) =~= spec_hex_of_byte(d[0]) + spec_hex_of_byte(d[1]) + spec_hex_of_byte(
            d[2],
        ) + spec_hex_of_byte(d[3]));
        assert(s@ =~= spec_topic(*kind, *encoding, d));
    }
    s
}

/// Builds the topic string for a kind under the default encoding.
pub fn get_gossip_topic_id(kind: GossipKind, enr_fork_id: EnrForkId) -> (r: String)
    ensures
        r@ == spec_topic(kind, GossipEncoding::SSZSnappy, enr_fork_id.fork_digest@),
{
    build_topic(&kind, &GossipEncoding::default(), &enr_fork_id.fork_digest)
}

/// The ordered list of topic kinds the default network configuration
/// subscribes to.
pub fn default_topic_kinds() -> (r: Vec<GossipKind>)
    ensures
        r@ == seq![
            GossipKind::BeaconBlock,
            GossipKind::BeaconAggregateAndProof,
            GossipKind::VoluntaryExit,
            GossipKind::ProposerSlashing,
            GossipKind::AttesterSlashing,
        ],
{
    let mut v: Vec<GossipKind> = Vec::new();
    v.push(GossipKind::BeaconBlock);
    v.push(GossipKind::BeaconAggregateAndProof);
    v.push(GossipKind::VoluntaryExit);
    v.push(GossipKind::ProposerSlashing);
    v.push(GossipKind::AttesterSlashing);
    proof {
        assert(v@ =~= seq![
            GossipKind::BeaconBlock,
            GossipKind::BeaconAggregateAndProof,
            GossipKind::VoluntaryExit,
            GossipKind::ProposerSlashing,
            GossipKind::AttesterSlashing,
        ]);
    }
    v
}

/// Maps the topic builder over the supplied kinds under the default
/// encoding, one string per kind, preserving input order.  An empty kind
/// list yields an empty result.
pub fn topics_for_fork(enr_fork_id: EnrForkId, topic_kinds: &Vec<GossipKind>) -> (r: Vec<String>)
    ensures
        r@.len() == topic_kinds@.len(),
        forall|i: int|
            0 <= i < r@.len() ==> #[trigger] r@[i]@ == spec_topic(
                topic_kinds@[i],
                GossipEncoding::SSZSnappy,
                enr_fork_id.fork_digest@,
            ),
{
    let mut out: Vec<String> = Vec::new();
    let mut i: usize = 0;
    while i < topic_kinds.len()
        invariant
            i <= topic_kinds@.len(),
            out@.len() == i,
            forall|j: int|
                0 <= j < i ==> #[trigger] out@[j]@ == spec_topic(
                    topic_kinds@[j],
                    GossipEncoding::SSZSnappy,
                    enr_fork_id.fork_digest@,
                ),
        decreases topic_kinds@.len() - i,
    {
        out.push(get_gossip_topic_id(topic_kinds[i], enr_fork_id));
        i = i + 1;
    }
    out
}

/// Builds the topic strings for the default network configuration's kind
/// list, in its order.
pub fn create_topic_ids(enr_fork_id: EnrForkId) -> (r: Vec<String>)
    ensures
        r@.len() == 5,
        forall|i: int|
            0 <= i < r@.len() ==> #[trigger] r@[i]@ == spec_topic(
                default_kind_list()[i],
                GossipEncoding::SSZSnappy,
                enr_fork_id.fork_digest@,
            ),
{
    let kinds = default_topic_kinds();
    topics_for_fork(enr_fork_id, &kinds)
}

/// Topics built for the same fork digest under the same encoding share the
/// prefix up to the kind segment and the suffix after it: they differ only
/// in the kind's canonical name.
pub proof fn lemma_topics_differ_only_in_kind(
    k1: GossipKind,
    k2: GossipKind,
    e: GossipEncoding,
    d: Seq<u8>,
)
    ensures
        spec_topic(k1, e, d) == "/eth2/"@ + spec_hex(d) + "/"@ + spec_kind_str(k1) + "/"@
            + spec_encoding_str(e),
        spec_topic(k2, e, d) == "/eth2/"@ + spec_hex(d) + "/"@ + spec_kind_str(k2) + "/"@
            + spec_encoding_str(e),
{
}

/// The default kind list, as a specification value.
pub open spec fn default_kind_list() -> Seq<GossipKind> {
    seq![
        GossipKind::BeaconBlock,
        GossipKind::BeaconAggregateAndProof,
        GossipKind::VoluntaryExit,
        GossipKind::ProposerSlashing,
        GossipKind::AttesterSlashing,
    ]
}

} // verus!
