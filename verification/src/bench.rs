//! Benchmark orchestrator: drives every registered adapter for one request
//! through the timed runner, then orders the collected report
//! deterministically.

use vstd::prelude::*;

use crate::compress;
use crate::decompress;
use crate::ranking;
use crate::shared::{spec_level_code, BenchResult, CodecError, Level, Mode, UsedCrate, Wrapper};

verus! {

/// One benchmark run over one input buffer.
pub struct BenchmarkRequest {
    pub data: Vec<u8>,
    pub wrapper: Wrapper,
    pub level: Level,
    pub mode: Mode,
    pub repetitions: usize,
}

impl BenchmarkRequest {
    /// A request must ask for at least one repetition.
    pub open spec fn wf(self) -> bool {
        self.repetitions >= 1
    }
}

/// The adapters registered for a mode, in registration order.
pub open spec fn registry(mode: Mode) -> Seq<UsedCrate> {
    match mode {
        Mode::Compress => seq![UsedCrate::DeflateInflate, UsedCrate::Flate2, UsedCrate::LibFlate],
        Mode::Decompress => seq![
            UsedCrate::DeflateInflate,
            UsedCrate::Flate2,
            UsedCrate::LibFlate,
            UsedCrate::MinizOxide,
        ],
    }
}

/// The display name an adapter reports under, per mode.
pub open spec fn mode_label(mode: Mode, codec: UsedCrate) -> Seq<char> {
    match mode {
        Mode::Compress => compress::spec_compress_label(codec),
        Mode::Decompress => decompress::spec_decompress_label(codec),
    }
}

/// The one outcome the adapter for `codec` reports in the given mode for
/// this input, wrapper and effort code.
pub open spec fn outcome_obeys(
    mode: Mode,
    codec: UsedCrate,
    wrapper: Wrapper,
    data: Seq<u8>,
    code: u32,
    r: Result<usize, CodecError>,
) -> bool {
    match mode {
        Mode::Compress => compress::compress_outcome_ok(codec, wrapper, data, code, r),
        Mode::Decompress => decompress::decompress_outcome_ok(codec, wrapper, data, r),
    }
}

/// The adapter contracts admit exactly one outcome per (mode, backend,
/// wrapper, input, effort code), so repeated runs — and in particular the
/// repetitions of the timed runner — cannot change the reported byte count
/// or error.
pub proof fn lemma_outcome_deterministic(
    mode: Mode,
    codec: UsedCrate,
    wrapper: Wrapper,
    data: Seq<u8>,
    code: u32,
    a: Result<usize, CodecError>,
    b: Result<usize, CodecError>,
)
    requires
        outcome_obeys(mode, codec, wrapper, data, code, a),
        outcome_obeys(mode, codec, wrapper, data, code, b),
    ensures
        a == b,
{
}

/// The record of one timed adapter run, tied to the adapter that produced it.
pub open spec fn result_from(
    mode: Mode,
    wrapper: Wrapper,
    data: Seq<u8>,
    code: u32,
    codec: UsedCrate,
    r: BenchResult,
) -> bool {
    &&& r.library@ == mode_label(mode, codec)
    &&& outcome_obeys(mode, codec, wrapper, data, code, r.size)
    &&& r.time_used is Some
    &&& r.init_time is None
}

/// A record produced by some registered adapter of the mode.
pub open spec fn result_wf(
    mode: Mode,
    wrapper: Wrapper,
    data: Seq<u8>,
    code: u32,
    r: BenchResult,
) -> bool {
    exists|c: UsedCrate|
        #[trigger] registry(mode).contains(c) && result_from(mode, wrapper, data, code, c, r)
}

/// A collected record sequence: one record per registered adapter, in
/// registration order.
pub open spec fn collected_ok(
    mode: Mode,
    wrapper: Wrapper,
    data: Seq<u8>,
    code: u32,
    cs: Seq<BenchResult>,
) -> bool {
    &&& cs.len() == registry(mode).len()
    &&& forall|i: int|
        0 <= i < cs.len() ==> result_from(mode, wrapper, data, code, registry(mode)[i], #[trigger] cs[i])
}

/// The report is the stable sort of some registration-ordered collected
/// record sequence, so ties stand in registration order.
pub open spec fn report_of(
    mode: Mode,
    wrapper: Wrapper,
    data: Seq<u8>,
    code: u32,
    report: Seq<BenchResult>,
) -> bool {
    exists|cs: Seq<BenchResult>|
        #[trigger] collected_ok(mode, wrapper, data, code, cs) && report == ranking::spec_sort(cs)
}

/// Runs the timed runner over every adapter registered for the request's
/// mode, one record per adapter, in registration order.
pub fn collect_results(req: &BenchmarkRequest) -> (rs: Vec<BenchResult>)
    requires
        req.wf(),
    ensures
        collected_ok(req.mode, req.wrapper, req.data@, spec_level_code(req.level), rs@),
{
    let mut rs: Vec<BenchResult> = Vec::new();
    let data = req.data.as_slice();
    match req.mode {
        Mode::Compress => {
            rs.push(
                compress::time_func(
                    data,
                    UsedCrate::DeflateInflate,
                    req.wrapper,
                    req.level,
                    req.repetitions,
                ),
            );
            rs.push(
                compress::time_func(data, UsedCrate::Flate2, req.wrapper, req.level, req.repetitions),
            );
            rs.push(
                compress::time_func(
                    data,
                    UsedCrate::LibFlate,
                    req.wrapper,
                    req.level,
                    req.repetitions,
                ),
            );
        }
        Mode::Decompress => {
            rs.push(
                decompress::time_func(data, UsedCrate::DeflateInflate, req.wrapper, req.repetitions),
            );
            rs.push(decompress::time_func(data, UsedCrate::Flate2, req.wrapper, req.repetitions));
            rs.push(decompress::time_func(data, UsedCrate::LibFlate, req.wrapper, req.repetitions));
            rs.push(decompress::time_func(data, UsedCrate::MinizOxide, req.wrapper, req.repetitions));
        }
    }
    rs
}

/// Runs one full benchmark: every registered adapter is timed over the
/// request, and the report is the stable sort of the registration-ordered
/// records — successes first, faster runs first among them, every failure
/// after every success, ties in registration order — with each record's
/// outcome exactly the adapter's outcome for the request.
pub fn run_benchmark(req: &BenchmarkRequest) -> (report: Vec<BenchResult>)
    requires
        req.wf(),
    ensures
        report_of(req.mode, req.wrapper, req.data@, spec_level_code(req.level), report@),
        ranking::sorted_by_le(report@),
        report@.len() == registry(req.mode).len(),
        forall|i: int|
            0 <= i < report@.len() ==> result_wf(
                req.mode,
                req.wrapper,
                req.data@,
                spec_level_code(req.level),
                #[trigger] report@[i],
            ),
        forall|i: int, j: int|
            0 <= i < j < report@.len() && (#[trigger] report@[i]).size is Err ==> (
            #[trigger] report@[j]).size is Err,
        forall|c: UsedCrate|
            #[trigger] registry(req.mode).contains(c) ==> exists|i: int|
                0 <= i < report@.len() && (#[trigger] report@[i]).library@ == mode_label(req.mode, c),
{
    let ghost code = spec_level_code(req.level);
    let collected = collect_results(req);
    let ghost cseq = collected@;
    let report = ranking::sort_results(collected);
    proof {
        ranking::lemma_sort_ensures(cseq);
        assert(collected_ok(req.mode, req.wrapper, req.data@, code, cseq) && report@
            == ranking::spec_sort(cseq));
        assert forall|i: int| 0 <= i < report@.len() implies result_wf(
            req.mode,
            req.wrapper,
            req.data@,
            code,
            #[trigger] report@[i],
        ) by {
            let x = report@[i];
            assert(report@.contains(x));
            ranking::lemma_sort_preserves_membership(cseq, x);
            let j = choose|j: int| 0 <= j < cseq.len() && cseq[j] == x;
            assert(result_from(req.mode, req.wrapper, req.data@, code, registry(req.mode)[j], x));
            assert(registry(req.mode).contains(registry(req.mode)[j]));
        }
        assert forall|i: int, j: int|
            0 <= i < j < report@.len() && (#[trigger] report@[i]).size is Err implies (
        #[trigger] report@[j]).size is Err by {
            ranking::lemma_failures_sort_last(report@, i, j);
        }
        assert forall|c: UsedCrate| #[trigger] registry(req.mode).contains(c) implies exists|i: int|
            0 <= i < report@.len() && (#[trigger] report@[i]).library@ == mode_label(req.mode, c) by {
            let j = choose|j: int| 0 <= j < registry(req.mode).len() && registry(req.mode)[j] == c;
            assert(cseq.contains(cseq[j]));
            ranking::lemma_sort_preserves_membership(cseq, cseq[j]);
            let i = choose|i: int| 0 <= i < report@.len() && report@[i] == cseq[j];
            assert(report@[i].library@ == mode_label(req.mode, c));
        }
    }
    report
}

} // verus!
