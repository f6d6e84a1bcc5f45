//! Compression adapters: one per backend, each normalising its library's
//! native API into `(data, wrapper, level) -> Result<byte count, error>`,
//! plus the timed runner over them. Each backend's encoded stream is a pure
//! function of the input bytes and its effort setting; the trusted wrappers
//! name those streams so the adapters' outcomes are pinned exactly.

use vstd::prelude::*;
use std::io::Write;

use crate::shared::{spec_level_code, BenchResult, CodecError, Level, UsedCrate, Wrapper};
use crate::timing::{elapsed_nanos, instant_now, mean_nanos};

verus! {

/// The raw DEFLATE stream the deflate backend encodes `data` to at the
/// 1..=9 effort code.
pub uninterp spec fn deflate_raw_stream(data: Seq<u8>, code: u32) -> Seq<u8>;

/// The zlib-framed stream the deflate backend encodes `data` to.
pub uninterp spec fn deflate_zlib_stream(data: Seq<u8>, code: u32) -> Seq<u8>;

/// The gzip-framed stream the deflate backend encodes `data` to.
pub uninterp spec fn deflate_gzip_stream(data: Seq<u8>, code: u32) -> Seq<u8>;

/// The raw DEFLATE stream the flate2 backend encodes `data` to at the
/// 0..=9 effort level.
pub uninterp spec fn flate2_raw_stream(data: Seq<u8>, level: u32) -> Seq<u8>;

/// The zlib-framed stream the flate2 backend encodes `data` to.
pub uninterp spec fn flate2_zlib_stream(data: Seq<u8>, level: u32) -> Seq<u8>;

/// The gzip-framed stream the flate2 backend encodes `data` to.
pub uninterp spec fn flate2_gzip_stream(data: Seq<u8>, level: u32) -> Seq<u8>;

/// The raw DEFLATE stream the libflate backend encodes `data` to with the
/// given block size (libflate exposes no effort tiers).
pub uninterp spec fn libflate_raw_stream(data: Seq<u8>, block_size: usize) -> Seq<u8>;

/// The zlib-framed stream the libflate backend encodes `data` to.
pub uninterp spec fn libflate_zlib_stream(data: Seq<u8>, block_size: usize) -> Seq<u8>;

/// The gzip-framed stream the libflate backend encodes `data` to.
pub uninterp spec fn libflate_gzip_stream(data: Seq<u8>, block_size: usize) -> Seq<u8>;

/// Relies on deflate::write::DeflateEncoder: a raw DEFLATE stream of `data`,
/// a function of the input and the effort tier alone. An encoder writing
/// into a Vec cannot hit a writer error, and a DEFLATE stream always holds
/// at least one block header, so it is never empty.
#[verifier::external_body]
fn deflate_raw(data: &[u8], capacity: usize, level: Level) -> (r: Option<Vec<u8>>)
    ensures
        r is Some,
        r matches Some(v) ==> v@ == deflate_raw_stream(data@, spec_level_code(level)),
        r matches Some(v) ==> v@.len() > 0,
{
    let opts = match level {
        Level::Fast => deflate::CompressionOptions::fast(),
        Level::Default => deflate::CompressionOptions::default(),
        Level::Best => deflate::CompressionOptions::high(),
    };
    let mut e = deflate::write::DeflateEncoder::new(Vec::with_capacity(capacity), opts);
    e.write_all(data).ok()?;
    e.finish().ok()
}

/// Relies on deflate::write::ZlibEncoder: a zlib-framed stream of `data`,
/// a function of the input and the effort tier alone; never empty, and a
/// Vec sink cannot fail.
#[verifier::external_body]
fn deflate_zlib(data: &[u8], capacity: usize, level: Level) -> (r: Option<Vec<u8>>)
    ensures
        r is Some,
        r matches Some(v) ==> v@ == deflate_zlib_stream(data@, spec_level_code(level)),
        r matches Some(v) ==> v@.len() > 0,
{
    let opts = match level {
        Level::Fast => deflate::CompressionOptions::fast(),
        Level::Default => deflate::CompressionOptions::default(),
        Level::Best => deflate::CompressionOptions::high(),
    };
    let mut e = deflate::write::ZlibEncoder::new(Vec::with_capacity(capacity), opts);
    e.write_all(data).ok()?;
    e.finish().ok()
}

/// Relies on deflate::write::GzEncoder::from_builder: a gzip-framed stream
/// of `data`, with the header pinned to its no-timestamp, unknown-OS form
/// so the stream is a function of the input and the effort tier alone;
/// never empty, and a Vec sink cannot fail.
#[verifier::external_body]
fn deflate_gzip(data: &[u8], capacity: usize, level: Level) -> (r: Option<Vec<u8>>)
    ensures
        r is Some,
        r matches Some(v) ==> v@ == deflate_gzip_stream(data@, spec_level_code(level)),
        r matches Some(v) ==> v@.len() > 0,
{
    let opts = match level {
        Level::Fast => deflate::CompressionOptions::fast(),
        Level::Default => deflate::CompressionOptions::default(),
        Level::Best => deflate::CompressionOptions::high(),
    };
    let builder = gzip_header::GzBuilder::new().os(gzip_header::FileSystemType::Unknown);
    let mut e = deflate::write::GzEncoder::from_builder(builder, Vec::with_capacity(capacity), opts);
    e.write_all(data).ok()?;
    e.finish().ok()
}

/// Relies on flate2::write::DeflateEncoder with its pure-Rust backend: a raw
/// DEFLATE stream of `data`, a function of the input and the 0-9 level
/// alone; never empty, and a Vec sink cannot fail.
#[verifier::external_body]
fn flate2_raw(data: &[u8], capacity: usize, level: u32) -> (r: Option<Vec<u8>>)
    ensures
        r is Some,
        r matches Some(v) ==> v@ == flate2_raw_stream(data@, level),
        r matches Some(v) ==> v@.len() > 0,
{
    let vec = Vec::with_capacity(capacity);
    let mut e = flate2::write::DeflateEncoder::new(vec, flate2::Compression::new(level));
    e.write_all(data).ok()?;
    e.finish().ok()
}

/// Relies on flate2::write::ZlibEncoder with its pure-Rust backend: a
/// zlib-framed stream of `data`, a function of the input and the 0-9 level
/// alone; never empty, and a Vec sink cannot fail.
#[verifier::external_body]
fn flate2_zlib(data: &[u8], capacity: usize, level: u32) -> (r: Option<Vec<u8>>)
    ensures
        r is Some,
        r matches Some(v) ==> v@ == flate2_zlib_stream(data@, level),
        r matches Some(v) ==> v@.len() > 0,
{
    let vec = Vec::with_capacity(capacity);
    let mut e = flate2::write::ZlibEncoder::new(vec, flate2::Compression::new(level));
    e.write_all(data).ok()?;
    e.finish().ok()
}

/// Relies on flate2::write::GzEncoder with its pure-Rust backend: a
/// gzip-framed stream of `data`, a function of the input and the 0-9 level
/// alone; never empty, and a Vec sink cannot fail.
#[verifier::external_body]
fn flate2_gzip(data: &[u8], capacity: usize, level: u32) -> (r: Option<Vec<u8>>)
    ensures
        r is Some,
        r matches Some(v) ==> v@ == flate2_gzip_stream(data@, level),
        r matches Some(v) ==> v@.len() > 0,
{
    let vec = Vec::with_capacity(capacity);
    let mut e = flate2::write::GzEncoder::new(vec, flate2::Compression::new(level));
    e.write_all(data).ok()?;
    e.finish().ok()
}

/// Relies on libflate::deflate::Encoder: a raw DEFLATE stream of `data` cut
/// into blocks of `block_size`, a function of those two alone; never empty,
/// and a Vec sink cannot fail.
#[verifier::external_body]
fn libflate_raw(data: &[u8], capacity: usize, block_size: usize) -> (r: Option<Vec<u8>>)
    ensures
        r is Some,
        r matches Some(v) ==> v@ == libflate_raw_stream(data@, block_size),
        r matches Some(v) ==> v@.len() > 0,
{
    let opts = libflate::deflate::EncodeOptions::new().block_size(block_size);
    let mut e = libflate::deflate::Encoder::with_options(Vec::with_capacity(capacity), opts);
    e.write_all(data).ok()?;
    e.finish().into_result().ok()
}

/// Relies on libflate::zlib::Encoder: a zlib-framed stream of `data` cut
/// into blocks of `block_size`, a function of those two alone; never empty,
/// and a Vec sink cannot fail (the header write goes to the Vec too).
#[verifier::external_body]
fn libflate_zlib(data: &[u8], capacity: usize, block_size: usize) -> (r: Option<Vec<u8>>)
    ensures
        r is Some,
        r matches Some(v) ==> v@ == libflate_zlib_stream(data@, block_size),
        r matches Some(v) ==> v@.len() > 0,
{
    let opts = libflate::zlib::EncodeOptions::new().block_size(block_size);
    let mut e = libflate::zlib::Encoder::with_options(Vec::with_capacity(capacity), opts).ok()?;
    e.write_all(data).ok()?;
    e.finish().into_result().ok()
}

/// Relies on libflate::gzip::Encoder: a gzip-framed stream of `data` cut
/// into blocks of `block_size`, with the header pinned to its no-timestamp
/// form so the stream is a function of those two alone; never empty, and a
/// Vec sink cannot fail (the header write goes to the Vec too).
#[verifier::external_body]
fn libflate_gzip(data: &[u8], capacity: usize, block_size: usize) -> (r: Option<Vec<u8>>)
    ensures
        r is Some,
        r matches Some(v) ==> v@ == libflate_gzip_stream(data@, block_size),
        r matches Some(v) ==> v@.len() > 0,
{
    let header = libflate::gzip::HeaderBuilder::new().modification_time(0).finish();
    let opts = libflate::gzip::EncodeOptions::new().block_size(block_size).header(header);
    let mut e = libflate::gzip::Encoder::with_options(Vec::with_capacity(capacity), opts).ok()?;
    e.write_all(data).ok()?;
    e.finish().into_result().ok()
}

/// Block length handed to libflate, close to the other backends' defaults;
/// its own default is much larger and would skew the comparison.
pub const LIBFLATE_BLOCK_LENGTH: usize = 1024 * 31;

/// The stream the deflate backend produces for a wrapper.
pub open spec fn deflate_stream(wrapper: Wrapper, data: Seq<u8>, code: u32) -> Seq<u8> {
    match wrapper {
        Wrapper::Raw => deflate_raw_stream(data, code),
        Wrapper::Zlib => deflate_zlib_stream(data, code),
        Wrapper::Gzip => deflate_gzip_stream(data, code),
    }
}

/// The stream the flate2 backend produces for a wrapper.
pub open spec fn flate2_stream(wrapper: Wrapper, data: Seq<u8>, level: u32) -> Seq<u8> {
    match wrapper {
        Wrapper::Raw => flate2_raw_stream(data, level),
        Wrapper::Zlib => flate2_zlib_stream(data, level),
        Wrapper::Gzip => flate2_gzip_stream(data, level),
    }
}

/// The stream the libflate backend produces for a wrapper.
pub open spec fn libflate_stream(wrapper: Wrapper, data: Seq<u8>, block_size: usize) -> Seq<u8> {
    match wrapper {
        Wrapper::Raw => libflate_raw_stream(data, block_size),
        Wrapper::Zlib => libflate_zlib_stream(data, block_size),
        Wrapper::Gzip => libflate_gzip_stream(data, block_size),
    }
}

/// The stream a registered compression backend produces for a wrapper at
/// the given effort code; the miniz_oxide backend has no compression
/// adapter and produces nothing.
pub open spec fn backend_stream(codec: UsedCrate, wrapper: Wrapper, data: Seq<u8>, code: u32) -> Seq<
    u8,
> {
    match codec {
        UsedCrate::DeflateInflate => deflate_stream(wrapper, data, code),
        UsedCrate::Flate2 => flate2_stream(wrapper, data, code),
        UsedCrate::LibFlate => libflate_stream(wrapper, data, LIBFLATE_BLOCK_LENGTH),
        UsedCrate::MinizOxide => Seq::empty(),
    }
}

/// What a compression adapter reports: the miniz_oxide backend is not
/// registered for compression and answers `Unsupported`; every other
/// backend succeeds (the encoders cannot fail in memory) with exactly the
/// length of its stream for the input, which is never zero.
pub open spec fn compress_outcome_ok(
    codec: UsedCrate,
    wrapper: Wrapper,
    data: Seq<u8>,
    code: u32,
    r: Result<usize, CodecError>,
) -> bool {
    match codec {
        UsedCrate::MinizOxide => r matches Err(e) && e == CodecError::Unsupported,
        _ => r matches Ok(n) && n == backend_stream(codec, wrapper, data, code).len() && n > 0,
    }
}

/// Compresses `data` with the deflate backend, returning the whole stream.
pub fn compress_deflate_buffer(data: &[u8], wrapper: Wrapper, level: Level) -> (r: Result<
    Vec<u8>,
    CodecError,
>)
    ensures
        r is Ok,
        r matches Ok(v) ==> v@ == deflate_stream(wrapper, data@, spec_level_code(level)),
        r matches Ok(v) ==> v@.len() > 0,
{
    let capacity = data.len() / 3;
    let out = match wrapper {
        Wrapper::Raw => deflate_raw(data, capacity, level),
        Wrapper::Zlib => deflate_zlib(data, capacity, level),
        Wrapper::Gzip => deflate_gzip(data, capacity, level),
    };
    Ok(out.unwrap())
}

/// Compresses `data` with the flate2 backend, returning the whole stream.
pub fn compress_flate2_buffer(data: &[u8], wrapper: Wrapper, level: Level) -> (r: Result<
    Vec<u8>,
    CodecError,
>)
    ensures
        r is Ok,
        r matches Ok(v) ==> v@ == flate2_stream(wrapper, data@, spec_level_code(level)),
        r matches Ok(v) ==> v@.len() > 0,
{
    let capacity = data.len() / 3;
    let code = crate::shared::level_code(level);
    let out = match wrapper {
        Wrapper::Raw => flate2_raw(data, capacity, code),
        Wrapper::Zlib => flate2_zlib(data, capacity, code),
        Wrapper::Gzip => flate2_gzip(data, capacity, code),
    };
    Ok(out.unwrap())
}

/// Compresses `data` with the libflate backend, returning the whole stream.
/// The effort tier is accepted but has no native equivalent in libflate, so
/// the stream does not depend on it.
pub fn compress_libflate_buffer(data: &[u8], wrapper: Wrapper, _level: Level) -> (r: Result<
    Vec<u8>,
    CodecError,
>)
    ensures
        r is Ok,
        r matches Ok(v) ==> v@ == libflate_stream(wrapper, data@, LIBFLATE_BLOCK_LENGTH),
        r matches Ok(v) ==> v@.len() > 0,
{
    let capacity = data.len() / 3;
    let out = match wrapper {
        Wrapper::Raw => libflate_raw(data, capacity, LIBFLATE_BLOCK_LENGTH),
        Wrapper::Zlib => libflate_zlib(data, capacity, LIBFLATE_BLOCK_LENGTH),
        Wrapper::Gzip => libflate_gzip(data, capacity, LIBFLATE_BLOCK_LENGTH),
    };
    Ok(out.unwrap())
}

/// Compression adapter for the deflate backend: the produced byte count.
pub fn compress_deflate(data: &[u8], wrapper: Wrapper, level: Level) -> (r: Result<
    usize,
    CodecError,
>)
    ensures
        r is Ok,
        r matches Ok(n) ==> n == deflate_stream(wrapper, data@, spec_level_code(level)).len(),
        r matches Ok(n) ==> n > 0,
{
    match compress_deflate_buffer(data, wrapper, level) {
        Ok(v) => Ok(v.len()),
        Err(e) => Err(e),
    }
}

/// Compression adapter for the flate2 backend: the produced byte count.
pub fn compress_flate2(data: &[u8], wrapper: Wrapper, level: Level) -> (r: Result<
    usize,
    CodecError,
>)
    ensures
        r is Ok,
        r matches Ok(n) ==> n == flate2_stream(wrapper, data@, spec_level_code(level)).len(),
        r matches Ok(n) ==> n > 0,
{
    match compress_flate2_buffer(data, wrapper, level) {
        Ok(v) => Ok(v.len()),
        Err(e) => Err(e),
    }
}

/// Compression adapter for the libflate backend: the produced byte count.
pub fn compress_libflate(data: &[u8], wrapper: Wrapper, level: Level) -> (r: Result<
    usize,
    CodecError,
>)
    ensures
        r is Ok,
        r matches Ok(n) ==> n == libflate_stream(wrapper, data@, LIBFLATE_BLOCK_LENGTH).len(),
        r matches Ok(n) ==> n > 0,
{
    match compress_libflate_buffer(data, wrapper, level) {
        Ok(v) => Ok(v.len()),
        Err(e) => Err(e),
    }
}

/// Runs the compression adapter registered for `codec`. A backend with no
/// compression adapter reports a typed `Unsupported` failure.
pub fn run_compress(codec: UsedCrate, data: &[u8], wrapper: Wrapper, level: Level) -> (r: Result<
    usize,
    CodecError,
>)
    ensures
        compress_outcome_ok(codec, wrapper, data@, spec_level_code(level), r),
{
    match codec {
        UsedCrate::DeflateInflate => compress_deflate(data, wrapper, level),
        UsedCrate::Flate2 => compress_flate2(data, wrapper, level),
        UsedCrate::LibFlate => compress_libflate(data, wrapper, level),
        UsedCrate::MinizOxide => Err(CodecError::Unsupported),
    }
}

/// Compresses `data` with the deflate backend at default effort; used to
/// produce the streams a decompression benchmark is fed.
pub fn compress(data: &[u8], wrapper: Wrapper) -> (r: Result<Vec<u8>, CodecError>)
    ensures
        r is Ok,
        r matches Ok(v) ==> v@ == deflate_stream(wrapper, data@, spec_level_code(Level::Default)),
        r matches Ok(v) ==> v@.len() > 0,
{
    compress_deflate_buffer(data, wrapper, Level::Default)
}

/// The display name of a backend's compression adapter.
pub open spec fn spec_compress_label(codec: UsedCrate) -> Seq<char> {
    match codec {
        UsedCrate::DeflateInflate => "deflate"@,
        UsedCrate::Flate2 => "flate2"@,
        UsedCrate::LibFlate => "libflate"@,
        UsedCrate::MinizOxide => "miniz_oxide"@,
    }
}

/// The display name of a backend's compression adapter.
pub fn compress_label(codec: UsedCrate) -> (r: &'static str)
    ensures
        r@ == spec_compress_label(codec),
{
    match codec {
        UsedCrate::DeflateInflate => "deflate",
        UsedCrate::Flate2 => "flate2",
        UsedCrate::LibFlate => "libflate",
        UsedCrate::MinizOxide => "miniz_oxide",
    }
}

/// Times the compression adapter for `codec` over `data`, repeating the call
/// `repetitions` times: the reported duration is the mean of all repetitions,
/// while the reported outcome is the first repetition's — which, the outcome
/// being a function of the arguments, every repetition shares.
pub fn time_func(data: &[u8], codec: UsedCrate, wrapper: Wrapper, level: Level, repetitions: usize)
    -> (r: BenchResult)
    requires
        repetitions >= 1,
    ensures
        r.library@ == spec_compress_label(codec),
        r.time_used is Some,
        r.init_time is None,
        compress_outcome_ok(codec, wrapper, data@, spec_level_code(level), r.size),
{
    let mut durations: Vec<u64> = Vec::new();
    let start = instant_now();
    let first = run_compress(codec, data, wrapper, level);
    durations.push(elapsed_nanos(&start));
    let mut k: usize = 1;
    while k < repetitions
        invariant
            1 <= k,
            durations@.len() == k as int,
            compress_outcome_ok(codec, wrapper, data@, spec_level_code(level), first),
        decreases repetitions - k,
    {
        let again = instant_now();
        let _ = run_compress(codec, data, wrapper, level);
        durations.push(elapsed_nanos(&again));
        k = k + 1;
    }
    let time = mean_nanos(&durations);
    BenchResult::from_result(compress_label(codec), first, time)
}

} // verus!
