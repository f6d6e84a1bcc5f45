//! Correctness validator for the compression path: round-trips a freshly
//! compressed stream through the reference decoder, locates the first
//! divergence from the original bytes, and reports the Adler-32 checksum
//! of the compressed stream as a secondary signal.

use vstd::prelude::*;

use crate::checksum;
use crate::decompress;
use crate::shared::{CodecError, Wrapper};

verus! {

/// What the validator found for one compression run.
#[derive(Debug, PartialEq)]
pub struct ValidationOutcome {
    pub matches_original: bool,
    pub first_divergence_offset: Option<usize>,
    pub checksum: u32,
}

/// `off` localises how `dec` diverges from `orig`: no offset means the
/// buffers are equal; an offset is the first differing position, or the
/// shorter length where one buffer is a strict prefix of the other.
pub open spec fn divergence_ok(orig: Seq<u8>, dec: Seq<u8>, off: Option<usize>) -> bool {
    match off {
        None => dec == orig,
        Some(i) => {
            &&& forall|k: int| 0 <= k < i ==> orig[k] == dec[k]
            &&& i <= orig.len()
            &&& i <= dec.len()
            &&& if i < vstd::math::min(orig.len() as int, dec.len() as int) {
                orig[i as int] != dec[i as int]
            } else {
                orig.len() != dec.len()
            }
        },
    }
}

/// Compares two buffers byte for byte, reporting the first divergence.
pub fn compare_bytes(original: &[u8], decoded: &[u8]) -> (off: Option<usize>)
    ensures
        divergence_ok(original@, decoded@, off),
        off is None <==> decoded@ == original@,
{
    let n = if original.len() < decoded.len() {
        original.len()
    } else {
        decoded.len()
    };
    let mut i: usize = 0;
    while i < n
        invariant
            i <= n,
            n == vstd::math::min(original@.len() as int, decoded@.len() as int),
            forall|k: int| 0 <= k < i ==> original@[k] == decoded@[k],
        decreases n - i,
    {
        if original[i] != decoded[i] {
            return Some(i);
        }
        i = i + 1;
    }
    if original.len() != decoded.len() {
        Some(n)
    } else {
        proof {
            assert(decoded@ =~= original@);
        }
        None
    }
}

/// Judges a reference decode against the original input: whether the bytes
/// match, where they first diverge, and the compressed stream's checksum.
/// A decode that failed outright matches nothing and has no offset.
pub fn assess(original: &[u8], decoded: &Option<Vec<u8>>, compressed: &[u8]) -> (o:
    ValidationOutcome)
    ensures
        o.checksum == checksum::spec_adler32(compressed@),
        o.matches_original <==> (decoded matches Some(d) && d@ == original@),
        match decoded {
            Some(d) => divergence_ok(original@, d@, o.first_divergence_offset),
            None => o.first_divergence_offset is None,
        },
{
    let checksum = checksum::adler32(compressed);
    match decoded {
        Some(d) => {
            let off = compare_bytes(original, d.as_slice());
            ValidationOutcome {
                matches_original: off.is_none(),
                first_divergence_offset: off,
                checksum,
            }
        },
        None => ValidationOutcome {
            matches_original: false,
            first_divergence_offset: None,
            checksum,
        },
    }
}

/// The taxonomy error a validation outcome amounts to: a round trip that
/// did not reproduce the original bytes is a defect in the harness or the
/// backend, not a performance data point.
pub fn validation_error(o: &ValidationOutcome) -> (r: Option<CodecError>)
    ensures
        r is Some <==> !o.matches_original,
        r matches Some(e) ==> e == CodecError::ValidationMismatch,
{
    if o.matches_original {
        None
    } else {
        Some(CodecError::ValidationMismatch)
    }
}

/// Validates one compression run: decodes `compressed` with the reference
/// backend and judges the result against `original`.
pub fn validate(original: &[u8], compressed: &[u8], wrapper: Wrapper) -> (o: ValidationOutcome)
    ensures
        o.checksum == checksum::spec_adler32(compressed@),
        o.matches_original <==> decompress::reference_decoded(wrapper, compressed@) == Some(
            original@,
        ),
        match decompress::reference_decoded(wrapper, compressed@) {
            Some(d) => divergence_ok(original@, d, o.first_divergence_offset),
            None => o.first_divergence_offset is None,
        },
{
    let decoded = decompress::reference_decompress(compressed, wrapper);
    assess(original, &decoded, compressed)
}

} // verus!
