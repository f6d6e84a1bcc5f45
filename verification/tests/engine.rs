use codec_bench::ranking::sort_results;
use codec_bench::shared::{BenchResult, CodecError};
use codec_bench::timing::mean_nanos;
use codec_bench::validate::assess;

fn ok(library: &str, size: usize, time: u64) -> BenchResult {
    BenchResult::from_result(library, Ok(size), time)
}

fn failed(library: &str, kind: CodecError, time: u64) -> BenchResult {
    BenchResult::from_result(library, Err(kind), time)
}

#[test]
fn from_result_fields() {
    let r = BenchResult::from_result("deflate", Ok(42), 1000);
    assert_eq!(r.library, "deflate");
    assert_eq!(r.size, Ok(42));
    assert_eq!(r.time_used, Some(1000));
    assert_eq!(r.init_time, None);
}

#[test]
fn mean_of_one() {
    assert_eq!(mean_nanos(&vec![7]), 7);
}

#[test]
fn mean_of_several_rounds_down() {
    assert_eq!(mean_nanos(&vec![2, 4, 9]), 5);
    assert_eq!(mean_nanos(&vec![10, 20, 30, 40, 50]), 30);
}

#[test]
fn sort_orders_by_elapsed_time() {
    let report = sort_results(vec![ok("a", 1, 300), ok("b", 2, 100), ok("c", 3, 200)]);
    let names: Vec<&str> = report.iter().map(|r| r.library.as_str()).collect();
    assert_eq!(names, vec!["b", "c", "a"]);
}

#[test]
fn sort_puts_failures_after_all_successes() {
    // The failure is the fastest record, yet must sort last.
    let report = sort_results(vec![
        failed("x", CodecError::Malformed, 1),
        ok("a", 1, 900),
        ok("b", 2, 400),
    ]);
    let names: Vec<&str> = report.iter().map(|r| r.library.as_str()).collect();
    assert_eq!(names, vec!["b", "a", "x"]);
    assert!(report[2].size.is_err());
}

#[test]
fn sort_breaks_ties_by_registration_order() {
    let report = sort_results(vec![ok("first", 1, 500), ok("second", 2, 500), ok("third", 3, 500)]);
    let names: Vec<&str> = report.iter().map(|r| r.library.as_str()).collect();
    assert_eq!(names, vec!["first", "second", "third"]);
}

#[test]
fn sort_is_idempotent() {
    let input = vec![
        ok("a", 1, 500),
        failed("x", CodecError::Unsupported, 10),
        ok("b", 2, 500),
        ok("c", 3, 100),
        failed("y", CodecError::Malformed, 5),
    ];
    let once = sort_results(input);
    let copy: Vec<BenchResult> = once
        .iter()
        .map(|r| BenchResult {
            time_used: r.time_used,
            size: r.size,
            init_time: r.init_time,
            library: r.library.clone(),
        })
        .collect();
    let twice = sort_results(copy);
    assert_eq!(once, twice);
}

#[test]
fn assess_equal_buffers_match() {
    let original = b"the quick brown fox";
    let decoded = Some(original.to_vec());
    let o = assess(original, &decoded, b"whatever");
    assert!(o.matches_original);
    assert_eq!(o.first_divergence_offset, None);
}

#[test]
fn assess_reports_first_differing_offset() {
    let original = b"abcdef";
    let decoded = Some(b"abXdeY".to_vec());
    let o = assess(original, &decoded, b"");
    assert!(!o.matches_original);
    assert_eq!(o.first_divergence_offset, Some(2));
}

#[test]
fn assess_reports_prefix_divergence_at_shorter_length() {
    let original = b"abcdef";
    let decoded = Some(b"abc".to_vec());
    let o = assess(original, &decoded, b"");
    assert!(!o.matches_original);
    assert_eq!(o.first_divergence_offset, Some(3));
}

#[test]
fn assess_failed_decode_matches_nothing() {
    let o = assess(b"abc", &None, b"stream");
    assert!(!o.matches_original);
    assert_eq!(o.first_divergence_offset, None);
}

#[test]
fn assess_checksum_is_of_compressed_stream() {
    let o = assess(b"", &None, b"Wikipedia");
    assert_eq!(o.checksum, 0x11E60398);
}

#[test]
fn validation_mismatch_is_surfaced_as_its_own_error_kind() {
    let o = assess(b"abc", &Some(b"abd".to_vec()), b"");
    assert_eq!(
        codec_bench::validate::validation_error(&o),
        Some(CodecError::ValidationMismatch)
    );
    let good = assess(b"abc", &Some(b"abc".to_vec()), b"");
    assert_eq!(codec_bench::validate::validation_error(&good), None);
}
