//! Decoding a packed id from the big-endian wire form used by database
//! drivers.

use vstd::prelude::*;
use vstd::arithmetic::power2::pow2;

verus! {

/// The value of a byte string read as a big-endian unsigned integer.
pub open spec fn be_bytes_val(s: Seq<u8>) -> nat
    decreases s.len(),
{
    if s.len() == 0 {
        0
    } else {
        (be_bytes_val(s.drop_last()) * 256 + s.last()) as nat
    }
}

/// Reads an `i64` from exactly eight big-endian bytes; any other length
/// yields `None`. The top bit of the first byte lands in the sign bit.
pub fn read_i64(bytes: &[u8]) -> (r: Option<i64>)
    ensures
        bytes@.len() != 8 ==> r is None,
        bytes@.len() == 8 ==> r == Some((be_bytes_val(bytes@) as u64) as i64),
{
    if bytes.len() != 8 {
        return None;
    }
    let mut acc: u64 = 0;
    let mut i: usize = 0;
    proof {
        vstd::arithmetic::power2::lemma2_to64();
    }
    while i < 8
        invariant
            bytes@.len() == 8,
            i <= 8,
            acc == be_bytes_val(bytes@.subrange(0, i as int)),
            acc < pow2((8 * i) as nat),
        decreases 8 - i,
    {
        proof {
            vstd::arithmetic::power2::lemma_pow2_adds((8 * i) as nat, 8);
            vstd::arithmetic::power2::lemma2_to64();
            vstd::arithmetic::power2::lemma2_to64_rest();
            if 8 * i < 56 {
                vstd::arithmetic::power2::lemma_pow2_strictly_increases((8 * i) as nat, 56);
            }
            assert(bytes@.subrange(0, i + 1).drop_last() =~= bytes@.subrange(0, i as int));
            assert(bytes@.subrange(0, i + 1).last() == bytes@[i as int]);
        }
        acc = acc * 256 + (bytes[i] as u64);
        i = i + 1;
    }
    proof {
        assert(bytes@.subrange(0, 8) =~= bytes@);
    }
    Some(#[verifier::truncate] (acc as i64))
}

} // verus!
