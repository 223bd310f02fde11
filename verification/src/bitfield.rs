use vstd::prelude::*;
use crate::DecodeError;

verus! {

/// True when bit `i` of the bit vector encoded in `bytes` is set.  Bit `i`
/// lives in byte `i / 8`, least-significant-bit first within each byte.
pub open spec fn spec_bit_set(bytes: Seq<u8>, i: int) -> bool {
    &&& 0 <= i
    &&& i / 8 < bytes.len()
    &&& (bytes[i / 8] >> ((i % 8) as u8)) & 1 == 1
}

/// The byte length required to encode `nbits` bits: `ceil(nbits / 8)`.
pub open spec fn spec_bitfield_byte_len(nbits: int) -> int {
    (nbits + 7) / 8
}

/// A fixed-length sequence of bits decoded from a record field.  The byte
/// length always matches the declared bit length exactly.
pub struct BitSequence {
    bytes: Vec<u8>,
    nbits: usize,
}

impl BitSequence {
    /// The underlying bytes, least-significant-bit-first within each byte.
    pub closed spec fn spec_bits(&self) -> Seq<u8> {
        self.bytes@
    }

    /// The number of bits the sequence holds.
    pub closed spec fn spec_nbits(&self) -> int {
        self.nbits as int
    }

    pub open spec fn well_formed(&self) -> bool {
        &&& self.spec_bits().len() == spec_bitfield_byte_len(self.spec_nbits())
        &&& 0 <= self.spec_nbits()
    }

    /// The number of bits in the sequence.
    pub fn len(&self) -> (r: usize)
        ensures
            r == self.spec_nbits(),
    {
        self.nbits
    }

    /// Reads bit `i`; an index at or past the bit length is absent (`None`),
    /// never an error.
    pub fn get(&self, i: usize) -> (r: Option<bool>)
        requires
            self.well_formed(),
        ensures
            r is Some <==> i < self.spec_nbits(),
            r matches Some(b) ==> b == spec_bit_set(self.spec_bits(), i as int),
    {
        if i >= self.nbits {
            return None;
        }
        proof {
            assert(i / 8 < (self.nbits + 7) / 8) by (nonlinear_arith)
                requires
                    i < self.nbits,
            ;
        }
        let byte = self.bytes[i / 8];
        let shift: u8 = (i % 8) as u8;
        Some((byte >> shift) & 1 == 1)
    }
}

/// Decodes a fixed-length bit vector of `subnet_count` bits.  The byte length
/// must be exactly `ceil(subnet_count / 8)`: no truncation and no padding is
/// tolerated, every other length fails with `WrongLength`.
pub fn decode_bitfield(bytes: &[u8], subnet_count: usize) -> (r: Result<BitSequence, DecodeError>)
    ensures
        r is Ok <==> bytes@.len() == spec_bitfield_byte_len(subnet_count as int),
        r is Err ==> r == Err::<BitSequence, DecodeError>(DecodeError::WrongLength),
        r matches Ok(b) ==> {
            &&& b.well_formed()
            &&& b.spec_bits() == bytes@
            &&& b.spec_nbits() == subnet_count
        },
{
    let whole: usize = subnet_count / 8;
    let needed: usize = if subnet_count % 8 == 0 {
        whole
    } else {
        whole + 1
    };
    proof {
        assert(needed == spec_bitfield_byte_len(subnet_count as int)) by (nonlinear_arith)
            requires
                whole == subnet_count / 8,
                subnet_count % 8 == 0 ==> needed == whole,
                subnet_count % 8 != 0 ==> needed == whole + 1,
        ;
    }
    if bytes.len() != needed {
        return Err(DecodeError::WrongLength);
    }
    let mut copy: Vec<u8> = Vec::new();
    copy.extend_from_slice(bytes);
    proof {
        assert(copy@ =~= bytes@);
    }
    Ok(BitSequence { bytes: copy, nbits: subnet_count })
}

/// The subnet indices among `0 <= i < upto` whose bit is both within the
/// first `nbits` bits and set, in ascending order.
pub open spec fn spec_subnet_list(bits: Seq<u8>, nbits: int, upto: int) -> Seq<u64>
    decreases upto,
{
    if upto <= 0 {
        Seq::empty()
    } else if upto - 1 < nbits && spec_bit_set(bits, upto - 1) {
        spec_subnet_list(bits, nbits, upto - 1).push((upto - 1) as u64)
    } else {
        spec_subnet_list(bits, nbits, upto - 1)
    }
}

/// Enumerates the set bits of `bitfield` as subnet indices.  The scan runs
/// over `0..=subnet_count` inclusive, one position past the last nominal
/// index: a deliberate boundary choice, harmless because a position at or
/// past the bit length reads as absent rather than failing.
pub fn enumerate_subnets(bitfield: &BitSequence, subnet_count: usize) -> (r: Vec<u64>)
    requires
        bitfield.well_formed(),
        subnet_count < usize::MAX,
    ensures
        r@ == spec_subnet_list(bitfield.spec_bits(), bitfield.spec_nbits(), subnet_count + 1),
{
    let mut out: Vec<u64> = Vec::new();
    let mut i: usize = 0;
    while i <= subnet_count
        invariant
            bitfield.well_formed(),
            subnet_count < usize::MAX,
            i <= subnet_count + 1,
            out@ == spec_subnet_list(bitfield.spec_bits(), bitfield.spec_nbits(), i as int),
        decreases subnet_count + 1 - i,
    {
        match bitfield.get(i) {
            Some(true) => out.push(i as u64),
            _ => (),
        }
        i = i + 1;
    }
    out
}

/// The enumeration is ascending (hence order-preserving and duplicate-free),
/// and an index appears in it exactly when it is below the scan bound, within
/// the bit length, and its bit is set.
pub proof fn lemma_subnet_list_ascending_complete(bits: Seq<u8>, nbits: int, upto: int)
    requires
        upto <= u64::MAX,
    ensures
        forall|j: int| 0 <= j < spec_subnet_list(bits, nbits, upto).len()
            ==> #[trigger] spec_subnet_list(bits, nbits, upto)[j] < upto,
        forall|j: int, k: int|
            0 <= j < k < spec_subnet_list(bits, nbits, upto).len()
                ==> spec_subnet_list(bits, nbits, upto)[j] < spec_subnet_list(
                bits,
                nbits,
                upto,
            )[k],
        forall|x: u64|
            #[trigger] spec_subnet_list(bits, nbits, upto).contains(x)
                <==> (x < upto && x < nbits && spec_bit_set(bits, x as int)),
    decreases upto,
{
    if upto <= 0 {
        assert forall|x: u64| !spec_subnet_list(bits, nbits, upto).contains(x) by {
            assert(spec_subnet_list(bits, nbits, upto).len() == 0);
        }
    } else {
        lemma_subnet_list_ascending_complete(bits, nbits, upto - 1);
        let prev = spec_subnet_list(bits, nbits, upto - 1);
        let cur = spec_subnet_list(bits, nbits, upto);
        if upto - 1 < nbits && spec_bit_set(bits, upto - 1) {
            let last: u64 = (upto - 1) as u64;
            assert(cur == prev.push(last));
            assert(last == upto - 1);
            assert forall|j: int| 0 <= j < cur.len() implies #[trigger] cur[j] < upto by {
                if j < prev.len() {
                    assert(prev[j] < upto - 1);
                }
            }
            assert forall|j: int, k: int| 0 <= j < k < cur.len() implies cur[j] < cur[k] by {
                if k < prev.len() {
                    assert(prev[j] < prev[k]);
                } else {
                    assert(cur[j] == prev[j] && prev[j] < upto - 1);
                }
            }
            assert forall|x: u64| #[trigger] cur.contains(x)
                implies (x < upto && x < nbits && spec_bit_set(bits, x as int)) by {
                let j = choose|j: int| 0 <= j < cur.len() && cur[j] == x;
                if j < prev.len() {
                    assert(prev.contains(x));
                } else {
                    assert(x == last);
                }
            }
            assert forall|x: u64| (x < upto && x < nbits && spec_bit_set(bits, x as int))
                implies #[trigger] cur.contains(x) by {
                if x < upto - 1 {
                    assert(prev.contains(x));
                    let j = choose|j: int| 0 <= j < prev.len() && prev[j] == x;
                    assert(cur[j] == x);
                } else {
                    assert(cur[cur.len() - 1] == x);
                }
            }
        } else {
            assert(cur == prev);
        }
    }
}

} // verus!
