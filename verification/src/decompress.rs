//! Decompression adapters: one per backend, each normalising its library's
//! native API into `(data, wrapper) -> Result<byte count, error>`, plus the
//! timed runner over them. Backends that cannot frame-detect a wrapper
//! report a typed `Unsupported` failure instead of guessing. Each backend's
//! decode is a pure function of the input bytes; the trusted wrappers name
//! those decodes so the adapters' outcomes are pinned exactly.

use vstd::prelude::*;
use std::io::Read;

use crate::shared::{BenchResult, CodecError, UsedCrate, Wrapper};
use crate::timing::{elapsed_nanos, instant_now, mean_nanos};

verus! {

/// What flate2's raw-DEFLATE decoder yields for a given input: the decoded
/// bytes, or nothing where the input does not parse.
pub uninterp spec fn flate2_raw_decoded(data: Seq<u8>) -> Option<Seq<u8>>;

/// What flate2's zlib decoder yields for a given input.
pub uninterp spec fn flate2_zlib_decoded(data: Seq<u8>) -> Option<Seq<u8>>;

/// What flate2's gzip decoder yields for a given input.
pub uninterp spec fn flate2_gzip_decoded(data: Seq<u8>) -> Option<Seq<u8>>;

/// What the inflate backend's raw-DEFLATE decode yields for a given input.
pub uninterp spec fn inflate_raw_decoded(data: Seq<u8>) -> Option<Seq<u8>>;

/// What the inflate backend's zlib decode yields for a given input.
pub uninterp spec fn inflate_zlib_decoded(data: Seq<u8>) -> Option<Seq<u8>>;

/// What libflate's raw-DEFLATE decoder yields for a given input.
pub uninterp spec fn libflate_raw_decoded(data: Seq<u8>) -> Option<Seq<u8>>;

/// What libflate's zlib decoder yields for a given input.
pub uninterp spec fn libflate_zlib_decoded(data: Seq<u8>) -> Option<Seq<u8>>;

/// What libflate's gzip decoder yields for a given input.
pub uninterp spec fn libflate_gzip_decoded(data: Seq<u8>) -> Option<Seq<u8>>;

/// What miniz_oxide's raw-DEFLATE decode yields for a given input.
pub uninterp spec fn miniz_raw_decoded(data: Seq<u8>) -> Option<Seq<u8>>;

/// What miniz_oxide's zlib decode yields for a given input.
pub uninterp spec fn miniz_zlib_decoded(data: Seq<u8>) -> Option<Seq<u8>>;

/// Relies on flate2::read::DeflateDecoder::read_to_end: decodes a raw
/// DEFLATE stream, failing on malformed input; the outcome depends on the
/// input bytes alone.
#[verifier::external_body]
fn flate2_inflate_raw(data: &[u8]) -> (r: Option<Vec<u8>>)
    ensures
        r is Some <==> flate2_raw_decoded(data@) is Some,
        r matches Some(v) ==> flate2_raw_decoded(data@) == Some(v@),
{
    let mut out = Vec::new();
    let mut d = flate2::read::DeflateDecoder::new(data);
    d.read_to_end(&mut out).ok()?;
    Some(out)
}

/// Relies on flate2::read::ZlibDecoder::read_to_end: decodes a zlib-framed
/// stream, checking its framing and trailer; the outcome depends on the
/// input bytes alone.
#[verifier::external_body]
fn flate2_inflate_zlib(data: &[u8]) -> (r: Option<Vec<u8>>)
    ensures
        r is Some <==> flate2_zlib_decoded(data@) is Some,
        r matches Some(v) ==> flate2_zlib_decoded(data@) == Some(v@),
{
    let mut out = Vec::new();
    let mut d = flate2::read::ZlibDecoder::new(data);
    d.read_to_end(&mut out).ok()?;
    Some(out)
}

/// Relies on flate2::read::GzDecoder::read_to_end: decodes a gzip-framed
/// stream, checking its framing and trailer; the outcome depends on the
/// input bytes alone.
#[verifier::external_body]
fn flate2_inflate_gzip(data: &[u8]) -> (r: Option<Vec<u8>>)
    ensures
        r is Some <==> flate2_gzip_decoded(data@) is Some,
        r matches Some(v) ==> flate2_gzip_decoded(data@) == Some(v@),
{
    let mut out = Vec::new();
    let mut d = flate2::read::GzDecoder::new(data);
    d.read_to_end(&mut out).ok()?;
    Some(out)
}

/// Relies on inflate::inflate_bytes: decodes a raw DEFLATE stream, or None
/// on malformed input; the outcome depends on the input bytes alone.
#[verifier::external_body]
fn inflate_raw(data: &[u8]) -> (r: Option<Vec<u8>>)
    ensures
        r is Some <==> inflate_raw_decoded(data@) is Some,
        r matches Some(v) ==> inflate_raw_decoded(data@) == Some(v@),
{
    inflate::inflate_bytes(data).ok()
}

/// Relies on inflate::inflate_bytes_zlib: decodes a zlib-framed stream,
/// checking its checksum, or None on malformed input; the outcome depends
/// on the input bytes alone.
#[verifier::external_body]
fn inflate_zlib(data: &[u8]) -> (r: Option<Vec<u8>>)
    ensures
        r is Some <==> inflate_zlib_decoded(data@) is Some,
        r matches Some(v) ==> inflate_zlib_decoded(data@) == Some(v@),
{
    inflate::inflate_bytes_zlib(data).ok()
}

/// Relies on libflate::deflate::Decoder::read_to_end: decodes a raw DEFLATE
/// stream, or None on malformed input; the outcome depends on the input
/// bytes alone.
#[verifier::external_body]
fn libflate_inflate_raw(data: &[u8]) -> (r: Option<Vec<u8>>)
    ensures
        r is Some <==> libflate_raw_decoded(data@) is Some,
        r matches Some(v) ==> libflate_raw_decoded(data@) == Some(v@),
{
    let mut out = Vec::new();
    let mut d = libflate::deflate::Decoder::new(data);
    d.read_to_end(&mut out).ok()?;
    Some(out)
}

/// Relies on libflate::zlib::Decoder::read_to_end: decodes a zlib-framed
/// stream, or None where the header or the body is malformed; the outcome
/// depends on the input bytes alone.
#[verifier::external_body]
fn libflate_inflate_zlib(data: &[u8]) -> (r: Option<Vec<u8>>)
    ensures
        r is Some <==> libflate_zlib_decoded(data@) is Some,
        r matches Some(v) ==> libflate_zlib_decoded(data@) == Some(v@),
{
    let mut out = Vec::new();
    let mut d = libflate::zlib::Decoder::new(data).ok()?;
    d.read_to_end(&mut out).ok()?;
    Some(out)
}

/// Relies on libflate::gzip::Decoder::read_to_end: decodes a gzip-framed
/// stream, or None where the header or the body is malformed; the outcome
/// depends on the input bytes alone.
#[verifier::external_body]
fn libflate_inflate_gzip(data: &[u8]) -> (r: Option<Vec<u8>>)
    ensures
        r is Some <==> libflate_gzip_decoded(data@) is Some,
        r matches Some(v) ==> libflate_gzip_decoded(data@) == Some(v@),
{
    let mut out = Vec::new();
    let mut d = libflate::gzip::Decoder::new(data).ok()?;
    d.read_to_end(&mut out).ok()?;
    Some(out)
}

/// Relies on miniz_oxide::inflate::decompress_to_vec: decodes a raw DEFLATE
/// stream, or None on malformed input; the outcome depends on the input
/// bytes alone.
#[verifier::external_body]
fn miniz_inflate_raw(data: &[u8]) -> (r: Option<Vec<u8>>)
    ensures
        r is Some <==> miniz_raw_decoded(data@) is Some,
        r matches Some(v) ==> miniz_raw_decoded(data@) == Some(v@),
{
    miniz_oxide::inflate::decompress_to_vec(data).ok()
}

/// Relies on miniz_oxide::inflate::decompress_to_vec_zlib: decodes a
/// zlib-framed stream, checking its checksum, or None on malformed input;
/// the outcome depends on the input bytes alone.
#[verifier::external_body]
fn miniz_inflate_zlib(data: &[u8]) -> (r: Option<Vec<u8>>)
    ensures
        r is Some <==> miniz_zlib_decoded(data@) is Some,
        r matches Some(v) ==> miniz_zlib_decoded(data@) == Some(v@),
{
    miniz_oxide::inflate::decompress_to_vec_zlib(data).ok()
}

/// What the reference backend (flate2) decodes a stream of the given
/// wrapper to; the correctness validator is specified against this.
pub open spec fn reference_decoded(wrapper: Wrapper, data: Seq<u8>) -> Option<Seq<u8>> {
    match wrapper {
        Wrapper::Raw => flate2_raw_decoded(data),
        Wrapper::Zlib => flate2_zlib_decoded(data),
        Wrapper::Gzip => flate2_gzip_decoded(data),
    }
}

/// Decodes `data` with the reference backend, returning the bytes.
pub fn reference_decompress(data: &[u8], wrapper: Wrapper) -> (r: Option<Vec<u8>>)
    ensures
        r is Some <==> reference_decoded(wrapper, data@) is Some,
        r matches Some(v) ==> reference_decoded(wrapper, data@) == Some(v@),
{
    match wrapper {
        Wrapper::Raw => flate2_inflate_raw(data),
        Wrapper::Zlib => flate2_inflate_zlib(data),
        Wrapper::Gzip => flate2_inflate_gzip(data),
    }
}

/// Whether a backend's decompression adapter implements a wrapper: the
/// raw-inflate backends cannot frame-detect gzip.
pub open spec fn decompress_supported(codec: UsedCrate, wrapper: Wrapper) -> bool {
    match codec {
        UsedCrate::DeflateInflate | UsedCrate::MinizOxide => wrapper != Wrapper::Gzip,
        UsedCrate::Flate2 | UsedCrate::LibFlate => true,
    }
}

/// What a backend decodes a stream of the given wrapper to, on the
/// wrappers it supports.
pub open spec fn backend_decoded(codec: UsedCrate, wrapper: Wrapper, data: Seq<u8>) -> Option<
    Seq<u8>,
> {
    match codec {
        UsedCrate::DeflateInflate => match wrapper {
            Wrapper::Raw => inflate_raw_decoded(data),
            Wrapper::Zlib => inflate_zlib_decoded(data),
            Wrapper::Gzip => None,
        },
        UsedCrate::Flate2 => reference_decoded(wrapper, data),
        UsedCrate::LibFlate => match wrapper {
            Wrapper::Raw => libflate_raw_decoded(data),
            Wrapper::Zlib => libflate_zlib_decoded(data),
            Wrapper::Gzip => libflate_gzip_decoded(data),
        },
        UsedCrate::MinizOxide => match wrapper {
            Wrapper::Raw => miniz_raw_decoded(data),
            Wrapper::Zlib => miniz_zlib_decoded(data),
            Wrapper::Gzip => None,
        },
    }
}

/// What a decompression adapter reports: an unsupported wrapper is answered
/// with `Unsupported` and never attempted; on a supported wrapper the
/// adapter succeeds exactly when the backend's decode does, reports exactly
/// the decoded length, and otherwise fails with `Malformed`.
pub open spec fn decompress_outcome_ok(
    codec: UsedCrate,
    wrapper: Wrapper,
    data: Seq<u8>,
    r: Result<usize, CodecError>,
) -> bool {
    if decompress_supported(codec, wrapper) {
        &&& r is Ok <==> backend_decoded(codec, wrapper, data) is Some
        &&& r matches Ok(n) ==> n == backend_decoded(codec, wrapper, data).unwrap().len()
        &&& r matches Err(e) ==> e == CodecError::Malformed
    } else {
        r matches Err(e) && e == CodecError::Unsupported
    }
}

/// Turns a backend's raw decode result into the adapter outcome.
fn decoded_len(out: Option<Vec<u8>>) -> (r: Result<usize, CodecError>)
    ensures
        r matches Ok(n) ==> out matches Some(v) && n == v@.len(),
        r is Err <==> out is None,
        r matches Err(e) ==> e == CodecError::Malformed,
{
    match out {
        Some(v) => Ok(v.len()),
        None => Err(CodecError::Malformed),
    }
}

/// Decompression adapter for the inflate backend.
pub fn decompress_inflate(data: &[u8], wrapper: Wrapper) -> (r: Result<usize, CodecError>)
    ensures
        decompress_outcome_ok(UsedCrate::DeflateInflate, wrapper, data@, r),
{
    match wrapper {
        Wrapper::Raw => decoded_len(inflate_raw(data)),
        Wrapper::Zlib => decoded_len(inflate_zlib(data)),
        Wrapper::Gzip => Err(CodecError::Unsupported),
    }
}

/// Decompression adapter for the flate2 backend; it is also the reference
/// decoder, so its outcome mirrors the named reference decode.
pub fn decompress_flate2(data: &[u8], wrapper: Wrapper) -> (r: Result<usize, CodecError>)
    ensures
        decompress_outcome_ok(UsedCrate::Flate2, wrapper, data@, r),
{
    let out = match wrapper {
        Wrapper::Raw => flate2_inflate_raw(data),
        Wrapper::Zlib => flate2_inflate_zlib(data),
        Wrapper::Gzip => flate2_inflate_gzip(data),
    };
    decoded_len(out)
}

/// Decompression adapter for the libflate backend.
pub fn decompress_libflate(data: &[u8], wrapper: Wrapper) -> (r: Result<usize, CodecError>)
    ensures
        decompress_outcome_ok(UsedCrate::LibFlate, wrapper, data@, r),
{
    let out = match wrapper {
        Wrapper::Raw => libflate_inflate_raw(data),
        Wrapper::Zlib => libflate_inflate_zlib(data),
        Wrapper::Gzip => libflate_inflate_gzip(data),
    };
    decoded_len(out)
}

/// Decompression adapter for the miniz_oxide backend.
pub fn decompress_miniz_oxide(data: &[u8], wrapper: Wrapper) -> (r: Result<usize, CodecError>)
    ensures
        decompress_outcome_ok(UsedCrate::MinizOxide, wrapper, data@, r),
{
    match wrapper {
        Wrapper::Raw => decoded_len(miniz_inflate_raw(data)),
        Wrapper::Zlib => decoded_len(miniz_inflate_zlib(data)),
        Wrapper::Gzip => Err(CodecError::Unsupported),
    }
}

/// Runs the decompression adapter registered for `codec`.
pub fn run_decompress(codec: UsedCrate, data: &[u8], wrapper: Wrapper) -> (r: Result<
    usize,
    CodecError,
>)
    ensures
        decompress_outcome_ok(codec, wrapper, data@, r),
{
    match codec {
        UsedCrate::DeflateInflate => decompress_inflate(data, wrapper),
        UsedCrate::Flate2 => decompress_flate2(data, wrapper),
        UsedCrate::LibFlate => decompress_libflate(data, wrapper),
        UsedCrate::MinizOxide => decompress_miniz_oxide(data, wrapper),
    }
}

/// The display name of a backend's decompression adapter.
pub open spec fn spec_decompress_label(codec: UsedCrate) -> Seq<char> {
    match codec {
        UsedCrate::DeflateInflate => "Inflate"@,
        UsedCrate::Flate2 => "flate2"@,
        UsedCrate::LibFlate => "libflate"@,
        UsedCrate::MinizOxide => "miniz_oxide"@,
    }
}

/// The display name of a backend's decompression adapter.
pub fn decompress_label(codec: UsedCrate) -> (r: &'static str)
    ensures
        r@ == spec_decompress_label(codec),
{
    match codec {
        UsedCrate::DeflateInflate => "Inflate",
        UsedCrate::Flate2 => "flate2",
        UsedCrate::LibFlate => "libflate",
        UsedCrate::MinizOxide => "miniz_oxide",
    }
}

/// Times the decompression adapter for `codec` over `data`, repeating the
/// call `repetitions` times: the reported duration is the mean of all
/// repetitions, while the reported outcome is the first repetition's —
/// which, the outcome being a function of the arguments, every repetition
/// shares.
pub fn time_func(data: &[u8], codec: UsedCrate, wrapper: Wrapper, repetitions: usize) -> (r:
    BenchResult)
    requires
        repetitions >= 1,
    ensures
        r.library@ == spec_decompress_label(codec),
        r.time_used is Some,
        r.init_time is None,
        decompress_outcome_ok(codec, wrapper, data@, r.size),
{
    let mut durations: Vec<u64> = Vec::new();
    let start = instant_now();
    let first = run_decompress(codec, data, wrapper);
    durations.push(elapsed_nanos(&start));
    let mut k: usize = 1;
    while k < repetitions
        invariant
            1 <= k,
            durations@.len() == k as int,
            decompress_outcome_ok(codec, wrapper, data@, first),
        decreases repetitions - k,
    {
        let again = instant_now();
        let _ = run_decompress(codec, data, wrapper);
        durations.push(elapsed_nanos(&again));
        k = k + 1;
    }
    let time = mean_nanos(&durations);
    BenchResult::from_result(decompress_label(codec), first, time)
}

} // verus!
