//! Comparative benchmark engine for interchangeable DEFLATE/zlib/gzip codec
//! backends. Given an input buffer, a container wrapper and an effort level,
//! it drives every registered backend adapter over the same input under a
//! monotonic clock, collects one result record per adapter, orders the
//! report deterministically (successes first, faster first, ties in
//! registration order), and validates compression output by round-tripping
//! it through a reference decoder.

pub mod bench;
pub mod checksum;
pub mod compress;
pub mod decompress;
pub mod ranking;
pub mod shared;
pub mod timing;
pub mod validate;
