use codec_bench::bench::{run_benchmark, BenchmarkRequest};
use codec_bench::compress;
use codec_bench::decompress;
use codec_bench::shared::{CodecError, Level, Mode, UsedCrate, Wrapper};
use codec_bench::validate::validate;

const WRAPPERS: [Wrapper; 3] = [Wrapper::Raw, Wrapper::Zlib, Wrapper::Gzip];
const LEVELS: [Level; 3] = [Level::Fast, Level::Default, Level::Best];

fn sample_text() -> Vec<u8> {
    let mut data = Vec::new();
    for i in 0..200 {
        data.extend_from_slice(format!("line {} of some mildly repetitive text\n", i).as_bytes());
    }
    data
}

#[test]
fn round_trip_deflate_backend_all_wrappers_and_levels() {
    let data = sample_text();
    for &w in &WRAPPERS {
        for &l in &LEVELS {
            let compressed = compress::compress_deflate_buffer(&data, w, l).unwrap();
            let o = validate(&data, &compressed, w);
            assert!(o.matches_original, "deflate {:?} {:?}", w, l);
        }
    }
}

#[test]
fn round_trip_flate2_backend_all_wrappers_and_levels() {
    let data = sample_text();
    for &w in &WRAPPERS {
        for &l in &LEVELS {
            let compressed = compress::compress_flate2_buffer(&data, w, l).unwrap();
            let o = validate(&data, &compressed, w);
            assert!(o.matches_original, "flate2 {:?} {:?}", w, l);
        }
    }
}

#[test]
fn round_trip_libflate_backend_all_wrappers() {
    let data = sample_text();
    for &w in &WRAPPERS {
        let compressed = compress::compress_libflate_buffer(&data, w, Level::Default).unwrap();
        let o = validate(&data, &compressed, w);
        assert!(o.matches_original, "libflate {:?}", w);
    }
}

#[test]
fn round_trip_through_every_decompression_adapter() {
    let data = sample_text();
    for &w in &WRAPPERS {
        let compressed = compress::compress(&data, w).unwrap();
        for codec in [
            UsedCrate::DeflateInflate,
            UsedCrate::Flate2,
            UsedCrate::LibFlate,
            UsedCrate::MinizOxide,
        ] {
            let r = decompress::run_decompress(codec, &compressed, w);
            if w == Wrapper::Gzip
                && (codec == UsedCrate::DeflateInflate || codec == UsedCrate::MinizOxide)
            {
                assert_eq!(r, Err(CodecError::Unsupported));
            } else {
                assert_eq!(r, Ok(data.len()), "{:?} {:?}", codec, w);
            }
        }
    }
}

#[test]
fn unsupported_wrappers_report_unsupported_not_ok() {
    let compressed = compress::compress(b"payload", Wrapper::Gzip).unwrap();
    assert_eq!(
        decompress::decompress_inflate(&compressed, Wrapper::Gzip),
        Err(CodecError::Unsupported)
    );
    assert_eq!(
        decompress::decompress_miniz_oxide(&compressed, Wrapper::Gzip),
        Err(CodecError::Unsupported)
    );
    // The timed runner records the same typed failure.
    let r = decompress::time_func(&compressed, UsedCrate::MinizOxide, Wrapper::Gzip, 1);
    assert_eq!(r.size, Err(CodecError::Unsupported));
}

#[test]
fn miniz_oxide_has_no_compression_adapter() {
    assert_eq!(
        compress::run_compress(UsedCrate::MinizOxide, b"abc", Wrapper::Zlib, Level::Default),
        Err(CodecError::Unsupported)
    );
}

#[test]
fn repetition_count_does_not_change_reported_size() {
    let data = sample_text();
    let once = compress::time_func(&data, UsedCrate::DeflateInflate, Wrapper::Zlib, Level::Best, 1);
    let five = compress::time_func(&data, UsedCrate::DeflateInflate, Wrapper::Zlib, Level::Best, 5);
    assert_eq!(once.size, five.size);
    assert!(once.time_used.is_some());
    assert!(five.time_used.is_some());
}

#[test]
fn highly_redundant_input_compresses_far_smaller() {
    // 100,000 repetitions of byte 0x41 under the zlib wrapper at best effort.
    let data = vec![0x41u8; 100_000];
    for codec in [UsedCrate::DeflateInflate, UsedCrate::Flate2, UsedCrate::LibFlate] {
        let size = compress::run_compress(codec, &data, Wrapper::Zlib, Level::Best).unwrap();
        assert!(size < 10_000, "{:?} produced {} bytes", codec, size);
    }
    let compressed = compress::compress_flate2_buffer(&data, Wrapper::Zlib, Level::Best).unwrap();
    let o = validate(&data, &compressed, Wrapper::Zlib);
    assert!(o.matches_original);
}

#[test]
fn empty_input_produces_nonempty_container() {
    // An empty payload still gets a valid gzip container from every adapter.
    let empty: Vec<u8> = Vec::new();
    for codec in [UsedCrate::DeflateInflate, UsedCrate::Flate2, UsedCrate::LibFlate] {
        let size = compress::run_compress(codec, &empty, Wrapper::Gzip, Level::Default).unwrap();
        assert!(size > 0, "{:?} produced an empty container", codec);
    }
    let compressed = compress::compress_deflate_buffer(&empty, Wrapper::Gzip, Level::Default).unwrap();
    let o = validate(&empty, &compressed, Wrapper::Gzip);
    assert!(o.matches_original);
    let recovered = decompress::reference_decompress(&compressed, Wrapper::Gzip).unwrap();
    assert_eq!(recovered.len(), 0);
}

#[test]
fn corrupted_stream_is_malformed_for_every_supporting_adapter() {
    let data = sample_text();
    let mut compressed = compress::compress(&data, Wrapper::Zlib).unwrap();
    let mid = compressed.len() / 2;
    compressed[mid] ^= 0xff;
    for codec in [
        UsedCrate::DeflateInflate,
        UsedCrate::Flate2,
        UsedCrate::LibFlate,
        UsedCrate::MinizOxide,
    ] {
        let r = decompress::run_decompress(codec, &compressed, Wrapper::Zlib);
        assert_eq!(r, Err(CodecError::Malformed), "{:?}", codec);
    }
}

#[test]
fn benchmark_report_is_sorted_with_failures_last() {
    let data = sample_text();
    let compressed = compress::compress(&data, Wrapper::Gzip).unwrap();
    let req = BenchmarkRequest {
        data: compressed,
        wrapper: Wrapper::Gzip,
        level: Level::Default,
        mode: Mode::Decompress,
        repetitions: 2,
    };
    let report = run_benchmark(&req);
    assert_eq!(report.len(), 4);
    // The two raw-inflate backends cannot take gzip and must trail the rest.
    assert!(report[0].size.is_ok());
    assert!(report[1].size.is_ok());
    assert_eq!(report[2].size, Err(CodecError::Unsupported));
    assert_eq!(report[3].size, Err(CodecError::Unsupported));
    let mut names: Vec<&str> = report.iter().map(|r| r.library.as_str()).collect();
    names.sort();
    assert_eq!(names, vec!["Inflate", "flate2", "libflate", "miniz_oxide"]);
    // Successes are ordered by elapsed time.
    assert!(report[0].time_used.unwrap() <= report[1].time_used.unwrap());
    assert!(report[2].time_used.unwrap() <= report[3].time_used.unwrap());
}

#[test]
fn compression_benchmark_reports_every_backend_ok() {
    let data = sample_text();
    let req = BenchmarkRequest {
        data,
        wrapper: Wrapper::Zlib,
        level: Level::Fast,
        mode: Mode::Compress,
        repetitions: 1,
    };
    let report = run_benchmark(&req);
    assert_eq!(report.len(), 3);
    for r in &report {
        assert!(r.size.is_ok(), "{} failed: {:?}", r.library, r.size);
        assert!(r.size.unwrap() > 0);
    }
}

#[test]
fn compressed_streams_are_reproducible() {
    // Each backend's stream is a function of input and effort alone; the
    // gzip headers carry no timestamp, so repeated calls agree bytewise.
    let data = sample_text();
    let a = compress::compress_deflate_buffer(&data, Wrapper::Gzip, Level::Default).unwrap();
    let b = compress::compress_deflate_buffer(&data, Wrapper::Gzip, Level::Default).unwrap();
    assert_eq!(a, b);
    let c = compress::compress_libflate_buffer(&data, Wrapper::Gzip, Level::Default).unwrap();
    let d = compress::compress_libflate_buffer(&data, Wrapper::Gzip, Level::Default).unwrap();
    assert_eq!(c, d);
    let e = compress::compress_flate2_buffer(&data, Wrapper::Gzip, Level::Best).unwrap();
    let f = compress::compress_flate2_buffer(&data, Wrapper::Gzip, Level::Best).unwrap();
    assert_eq!(e, f);
}
