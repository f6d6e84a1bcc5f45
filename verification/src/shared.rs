//! Core data model of the benchmark engine: container formats, effort
//! levels, backend identifiers, error kinds, and per-backend results.

use vstd::prelude::*;

verus! {

/// Container framing around the raw DEFLATE bit stream.
#[derive(Debug, Copy, Clone, PartialEq, Eq, Structural)]
pub enum Wrapper {
    Raw,
    Zlib,
    Gzip,
}

/// Identifies one codec backend under comparison.
#[derive(Debug, Copy, Clone, PartialEq, Eq, PartialOrd, Ord, Structural)]
pub enum UsedCrate {
    Flate2,
    LibFlate,
    DeflateInflate,
    MinizOxide,
}

/// Compression-effort tier, translated per backend to its native setting.
#[derive(Debug, Copy, Clone, PartialEq, Eq, Structural)]
pub enum Level {
    Best,
    Default,
    Fast,
}

/// Whether a benchmark run drives the encoders or the decoders.
#[derive(Copy, Clone, PartialEq, Eq, Structural, Debug)]
pub enum Mode {
    Compress,
    Decompress,
}

/// Settings for one benchmark invocation, as assembled by the caller.
#[derive(Copy, Clone, Debug)]
pub struct Settings {
    pub mode: Mode,
    pub write: bool,
    pub compare: bool,
    pub level: Level,
    pub wrapper: Wrapper,
}

/// How an adapter invocation failed.
#[derive(Debug, Copy, Clone, PartialEq, Eq, Structural)]
pub enum CodecError {
    /// The backend does not implement the requested wrapper.
    Unsupported,
    /// The input did not parse as the declared wrapper's framing.
    Malformed,
    /// Underlying buffer allocation or, in file-driven runs, file access
    /// failed; fatal to the single run, never to a whole batch.
    IoFailure,
    /// A compression round trip did not reproduce the original bytes.
    ValidationMismatch,
}

/// The numeric effort setting a level stands for, on the common 1..=9 scale.
pub open spec fn spec_level_code(level: Level) -> u32 {
    match level {
        Level::Fast => 1,
        Level::Default => 6,
        Level::Best => 9,
    }
}

/// Translates an effort tier to its numeric setting.
pub fn level_code(level: Level) -> (code: u32)
    ensures
        code == spec_level_code(level),
{
    match level {
        Level::Fast => 1,
        Level::Default => 6,
        Level::Best => 9,
    }
}

/// Outcome of timing one adapter over one input: the measured duration in
/// nanoseconds, the byte count or error the adapter reported, an optional
/// initialisation-only duration, and the backend's display name. Records
/// from the timed runner leave `init_time` unset: each adapter encodes or
/// decodes in one opaque call, with no separable setup phase to measure.
#[derive(Debug, PartialEq)]
pub struct BenchResult {
    pub time_used: Option<u64>,
    pub size: Result<usize, CodecError>,
    pub init_time: Option<u64>,
    pub library: String,
}

impl BenchResult {
    /// Packs an adapter outcome and a measured duration into a result record.
    pub fn from_result(library: &str, size: Result<usize, CodecError>, time_used: u64) -> (r:
        BenchResult)
        ensures
            r.library@ == library@,
            r.size == size,
            r.time_used == Some(time_used),
            r.init_time is None,
    {
        BenchResult { library: library.to_owned(), size, time_used: Some(time_used), init_time: None }
    }
}

} // verus!
