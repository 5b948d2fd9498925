use clip_pipeline::errors::StageError;
use clip_pipeline::subtitle::TranscriptSegment;
use clip_pipeline::transcript::{
    chunk_audio, check_transcript_nonempty, fold_results, StreamEvent, TranscriptResult, CHUNK_SIZE,
};

#[test]
fn fold_keeps_only_final_results_with_alternatives() {
    let events = vec![
        StreamEvent::Transcript(vec![
            TranscriptResult {
                is_partial: true,
                alternatives: vec!["he".to_string()],
                start_ms: 0,
                end_ms: 400,
            },
            TranscriptResult {
                is_partial: false,
                alternatives: vec!["hello".to_string(), "hallo".to_string()],
                start_ms: 0,
                end_ms: 1200,
            },
        ]),
        StreamEvent::Transcript(vec![
            TranscriptResult {
                is_partial: false,
                alternatives: Vec::new(),
                start_ms: 1200,
                end_ms: 1300,
            },
            TranscriptResult {
                is_partial: false,
                alternatives: vec!["world".to_string()],
                start_ms: 1200,
                end_ms: 2500,
            },
        ]),
    ];
    let segs = fold_results(&events).unwrap();
    assert_eq!(segs.len(), 2);
    assert_eq!(segs[0].text, "hello");
    assert_eq!(segs[0].start_ms, 0);
    assert_eq!(segs[0].end_ms, 1200);
    assert_eq!(segs[1].text, "world");
    assert_eq!(segs[1].start_ms, 1200);
    assert_eq!(segs[1].end_ms, 2500);
}

#[test]
fn unexpected_event_is_a_typed_stage_error() {
    let events = vec![StreamEvent::Transcript(Vec::new()), StreamEvent::Unexpected];
    assert!(matches!(fold_results(&events), Err(StageError::ProtocolViolation)));
}

#[test]
fn empty_stream_folds_to_no_segments() {
    let segs = fold_results(&Vec::new()).unwrap();
    assert!(segs.is_empty());
}

#[test]
fn empty_transcript_aborts_the_job() {
    assert!(matches!(check_transcript_nonempty(&Vec::new()), Err(StageError::EmptyTranscript)));
    let one = vec![TranscriptSegment { start_ms: 0, end_ms: 100, text: "hi".to_string() }];
    assert!(check_transcript_nonempty(&one).is_ok());
}

#[test]
fn chunking_splits_into_full_chunks_and_remainder() {
    let pcm: Vec<u8> = (0..20000u32).map(|i| (i % 251) as u8).collect();
    let chunks = chunk_audio(&pcm, CHUNK_SIZE);
    assert_eq!(chunks.len(), 3);
    assert_eq!(chunks[0].len(), CHUNK_SIZE);
    assert_eq!(chunks[1].len(), CHUNK_SIZE);
    assert_eq!(chunks[2].len(), 20000 - 2 * CHUNK_SIZE);
    let rejoined: Vec<u8> = chunks.concat();
    assert_eq!(rejoined, pcm);
}

#[test]
fn chunking_exact_multiple_has_no_short_chunk() {
    let pcm = vec![7u8; 3 * 4];
    let chunks = chunk_audio(&pcm, 4);
    assert_eq!(chunks.len(), 3);
    assert!(chunks.iter().all(|c| c.len() == 4));
}

#[test]
fn chunking_empty_audio_sends_nothing() {
    assert!(chunk_audio(&Vec::new(), CHUNK_SIZE).is_empty());
}
