//! Resource metrics and the decoder for the entry point's raw return value.
//!
//! The entry point returns exactly two fixed-layout records — consumed cost,
//! then total budget — each a pair of little-endian 64-bit dimensions
//! (computation, then footprint). Anything shorter or longer is a decode
//! error. Utilization per dimension is `consumed / max(total, 1) * 100`,
//! reported in hundredths of a percent.

use vstd::prelude::*;

use crate::error::PipelineError;

verus! {

/// A two-dimensional resource cost or budget: computation time and
/// state-proof footprint.
#[derive(Clone, Copy, Debug, PartialEq, Eq, Structural)]
pub struct ResourceMetric {
    pub computation: u64,
    pub footprint: u64,
}

/// Number of bytes of one encoded `ResourceMetric` record.
pub const METRIC_BYTES: usize = 16;

/// Number of bytes of a well-formed raw return: exactly two records.
pub const RETURN_BYTES: usize = 32;

/// The denominator used for utilization: a zero budget is floored to 1 so
/// the ratio is always defined.
pub open spec fn spec_denominator(total: u64) -> int {
    if total == 0 {
        1
    } else {
        total as int
    }
}

/// Utilization of one dimension in hundredths of a percent, rounded down.
pub open spec fn spec_ratio_hundredths(consumed: u64, total: u64) -> int {
    consumed * 10000 / spec_denominator(total)
}

/// One record decoded from 16 bytes: computation in the first 8 little-endian
/// bytes, footprint in the next 8.
pub open spec fn spec_decode_metric(s: Seq<u8>) -> ResourceMetric
    recommends
        s.len() == METRIC_BYTES,
{
    ResourceMetric {
        computation: vstd::bytes::spec_u64_from_le_bytes(s.subrange(0, 8)),
        footprint: vstd::bytes::spec_u64_from_le_bytes(s.subrange(8, 16)),
    }
}

/// Computes `consumed / max(total, 1)`, expressed in hundredths of a percent.
pub fn ratio_hundredths(consumed: u64, total: u64) -> (r: u128)
    ensures
        r == spec_ratio_hundredths(consumed, total),
{
    let c: u128 = consumed as u128;
    let d: u128 = if total == 0 {
        1
    } else {
        total as u128
    };
    (c * 10000) / d
}

/// Decodes the raw return value as exactly two consecutive records:
/// consumed, then total. A raw return of any other length is a decode
/// error; partial decodes are not tolerated.
pub fn decode_metrics(raw: &[u8]) -> (r: Result<(ResourceMetric, ResourceMetric), PipelineError>)
    ensures
        raw@.len() == RETURN_BYTES ==> r == Ok::<_, PipelineError>(
            (spec_decode_metric(raw@.subrange(0, 16)), spec_decode_metric(raw@.subrange(16, 32))),
        ),
        raw@.len() != RETURN_BYTES ==> r == Err::<(ResourceMetric, ResourceMetric), _>(
            PipelineError::Decode,
        ),
{
    if raw.len() != RETURN_BYTES {
        return Err(PipelineError::Decode);
    }
    let consumed = ResourceMetric {
        computation: vstd::bytes::u64_from_le_bytes(vstd::slice::slice_subrange(raw, 0, 8)),
        footprint: vstd::bytes::u64_from_le_bytes(vstd::slice::slice_subrange(raw, 8, 16)),
    };
    let total = ResourceMetric {
        computation: vstd::bytes::u64_from_le_bytes(vstd::slice::slice_subrange(raw, 16, 24)),
        footprint: vstd::bytes::u64_from_le_bytes(vstd::slice::slice_subrange(raw, 24, 32)),
    };
    proof {
        assert(raw@.subrange(0, 16).subrange(0, 8) =~= raw@.subrange(0, 8));
        assert(raw@.subrange(0, 16).subrange(8, 16) =~= raw@.subrange(8, 16));
        assert(raw@.subrange(16, 32).subrange(0, 8) =~= raw@.subrange(16, 24));
        assert(raw@.subrange(16, 32).subrange(8, 16) =~= raw@.subrange(24, 32));
    }
    Ok((consumed, total))
}

/// The decoded outcome of a run: raw consumed and total metrics, and the
/// utilization of each dimension in hundredths of a percent.
#[derive(Clone, Copy, Debug, PartialEq, Eq, Structural)]
pub struct Report {
    pub consumed: ResourceMetric,
    pub total: ResourceMetric,
    /// Computation utilization, hundredths of a percent.
    pub ratio_computation: u128,
    /// Footprint utilization, hundredths of a percent.
    pub ratio_footprint: u128,
}

/// The report owed for a given consumed/total pair.
pub open spec fn spec_report(consumed: ResourceMetric, total: ResourceMetric) -> Report {
    Report {
        consumed,
        total,
        ratio_computation: spec_ratio_hundredths(consumed.computation, total.computation) as u128,
        ratio_footprint: spec_ratio_hundredths(consumed.footprint, total.footprint) as u128,
    }
}

/// Decodes a raw return value and computes both utilization ratios.
pub fn decode_and_report(raw: &[u8]) -> (r: Result<Report, PipelineError>)
    ensures
        raw@.len() == RETURN_BYTES ==> r == Ok::<_, PipelineError>(
            spec_report(
                spec_decode_metric(raw@.subrange(0, 16)),
                spec_decode_metric(raw@.subrange(16, 32)),
            ),
        ),
        raw@.len() != RETURN_BYTES ==> r == Err::<Report, _>(PipelineError::Decode),
{
    match decode_metrics(raw) {
        Ok((consumed, total)) => Ok(
            Report {
                consumed,
                total,
                ratio_computation: ratio_hundredths(consumed.computation, total.computation),
                ratio_footprint: ratio_hundredths(consumed.footprint, total.footprint),
            },
        ),
        Err(e) => Err(e),
    }
}

} // verus!
