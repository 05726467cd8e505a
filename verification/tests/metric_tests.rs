use upgrade_dryrun::error::PipelineError;
use upgrade_dryrun::metric::{decode_and_report, decode_metrics, ratio_hundredths, ResourceMetric};

fn encode(consumed: (u64, u64), total: (u64, u64)) -> Vec<u8> {
    let mut raw = Vec::new();
    raw.extend_from_slice(&consumed.0.to_le_bytes());
    raw.extend_from_slice(&consumed.1.to_le_bytes());
    raw.extend_from_slice(&total.0.to_le_bytes());
    raw.extend_from_slice(&total.1.to_le_bytes());
    raw
}

#[test]
fn ratios_are_exact_percentages() {
    let raw = encode((100, 50), (1000, 1000));
    let report = decode_and_report(&raw).unwrap();
    assert_eq!(report.consumed, ResourceMetric { computation: 100, footprint: 50 });
    assert_eq!(report.total, ResourceMetric { computation: 1000, footprint: 1000 });
    // 10.00 % and 5.00 %, in hundredths of a percent
    assert_eq!(report.ratio_computation, 1000);
    assert_eq!(report.ratio_footprint, 500);
}

#[test]
fn zero_total_uses_denominator_floor_of_one() {
    let raw = encode((7, 3), (0, 0));
    let report = decode_and_report(&raw).unwrap();
    // consumed / 1 * 100: 700.00 % and 300.00 %
    assert_eq!(report.ratio_computation, 70000);
    assert_eq!(report.ratio_footprint, 30000);
}

#[test]
fn short_raw_return_is_a_decode_error() {
    let mut raw = encode((100, 50), (1000, 1000));
    raw.pop();
    assert_eq!(decode_and_report(&raw), Err(PipelineError::Decode));
    assert_eq!(decode_metrics(&[]), Err(PipelineError::Decode));
}

#[test]
fn long_raw_return_is_a_decode_error() {
    let mut raw = encode((100, 50), (1000, 1000));
    raw.push(0);
    assert_eq!(decode_and_report(&raw), Err(PipelineError::Decode));
}

#[test]
fn decode_reads_little_endian_dimensions() {
    let raw = encode((1, 2), (3, 4));
    let (consumed, total) = decode_metrics(&raw).unwrap();
    assert_eq!(consumed, ResourceMetric { computation: 1, footprint: 2 });
    assert_eq!(total, ResourceMetric { computation: 3, footprint: 4 });
}

#[test]
fn ratio_rounds_down_to_hundredths() {
    // 1 / 3 * 100 = 33.33.. % -> 3333 hundredths
    assert_eq!(ratio_hundredths(1, 3), 3333);
    // full budget: 100.00 %
    assert_eq!(ratio_hundredths(1000, 1000), 10000);
    // the largest consumed value against a floored denominator
    assert_eq!(ratio_hundredths(u64::MAX, 0), u64::MAX as u128 * 10000);
}
