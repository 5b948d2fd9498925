use clip_pipeline::subtitle::{generate_srt, TranscriptSegment};
use clip_pipeline::timestamp::format_timestamp;

/// Rounds a seconds value to its millisecond bucket, as callers do
/// before rendering.
fn millis_of_seconds(seconds: f64) -> u64 {
    (seconds * 1000.0).round() as u64
}

#[test]
fn timestamp_rounds_to_nearest_millisecond() {
    assert_eq!(format_timestamp(millis_of_seconds(1.0005)), "00:00:01,001");
}

#[test]
fn timestamp_decomposes_hours_minutes_seconds() {
    assert_eq!(format_timestamp(millis_of_seconds(3661.0)), "01:01:01,000");
}

#[test]
fn timestamp_zero_is_all_zeros() {
    assert_eq!(format_timestamp(0), "00:00:00,000");
}

#[test]
fn timestamp_rounds_up_across_a_second_boundary() {
    assert_eq!(format_timestamp(millis_of_seconds(0.9995)), "00:00:01,000");
}

#[test]
fn timestamp_hours_grow_past_two_digits() {
    assert_eq!(format_timestamp(100 * 3600000), "100:00:00,000");
}

#[test]
fn timestamp_component_boundaries() {
    assert_eq!(format_timestamp(59999), "00:00:59,999");
    assert_eq!(format_timestamp(60000), "00:01:00,000");
    assert_eq!(format_timestamp(3599999), "00:59:59,999");
    assert_eq!(format_timestamp(3600000), "01:00:00,000");
}

#[test]
fn srt_renders_two_indexed_blocks() {
    let segs = vec![
        TranscriptSegment {
            start_ms: millis_of_seconds(0.0),
            end_ms: millis_of_seconds(1.2),
            text: "hello".to_string(),
        },
        TranscriptSegment {
            start_ms: millis_of_seconds(1.2),
            end_ms: millis_of_seconds(2.5),
            text: "world".to_string(),
        },
    ];
    let doc = generate_srt(&segs);
    assert_eq!(
        doc,
        "1\n00:00:00,000 --> 00:00:01,200\nhello\n\n2\n00:00:01,200 --> 00:00:02,500\nworld\n\n"
    );
}

#[test]
fn srt_of_no_segments_is_empty() {
    assert_eq!(generate_srt(&Vec::new()), "");
}
