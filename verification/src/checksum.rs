//! Adler-32 rolling checksum, used as a secondary cross-check value
//! between backends: two running sums modulo 65521, combined into one
//! 32-bit word as in the zlib trailer.

use vstd::prelude::*;

verus! {

/// The low running sum after `s`: starts at 1, adds each byte modulo 65521.
pub open spec fn adler_s1(s: Seq<u8>) -> int
    decreases s.len(),
{
    if s.len() == 0 {
        1
    } else {
        (adler_s1(s.drop_last()) + s.last()) % 65521
    }
}

/// The high running sum after `s`: adds each prefix's low sum modulo 65521.
pub open spec fn adler_s2(s: Seq<u8>) -> int
    decreases s.len(),
{
    if s.len() == 0 {
        0
    } else {
        (adler_s2(s.drop_last()) + adler_s1(s)) % 65521
    }
}

/// The Adler-32 checksum of `s`: high sum in the upper 16 bits, low sum below.
pub open spec fn spec_adler32(s: Seq<u8>) -> int {
    adler_s2(s) * 65536 + adler_s1(s)
}

/// Computes the Adler-32 checksum of `data`.
pub fn adler32(data: &[u8]) -> (r: u32)
    ensures
        r == spec_adler32(data@),
{
    let mut s1: u32 = 1;
    let mut s2: u32 = 0;
    let mut i: usize = 0;
    while i < data.len()
        invariant
            i <= data@.len(),
            s1 == adler_s1(data@.take(i as int)),
            s2 == adler_s2(data@.take(i as int)),
        decreases data@.len() - i,
    {
        proof {
            assert(data@.take(i + 1).drop_last() =~= data@.take(i as int));
            assert(data@.take(i + 1).last() == data@[i as int]);
        }
        s1 = (s1 + data[i] as u32) % 65521;
        s2 = (s2 + s1) % 65521;
        i = i + 1;
    }
    proof {
        assert(data@.take(i as int) =~= data@);
    }
    s2 * 65536 + s1
}

} // verus!
