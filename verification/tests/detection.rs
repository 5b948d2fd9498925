use clip_pipeline::engine::{engine_step, CaptureEvent, EngineAction, EngineState};
use clip_pipeline::errors::ConfigError;
use clip_pipeline::matcher::{is_match, load_templates, DecodedImage, DEFAULT_THRESHOLD, SCORE_SCALE};

#[test]
fn load_keeps_only_decodable_templates() {
    let images = vec![
        DecodedImage { source: "templates/star.png".to_string(), rows: 64, cols: 64 },
        DecodedImage { source: "templates/corrupt.png".to_string(), rows: 0, cols: 0 },
    ];
    let templates = load_templates(&images).unwrap();
    assert_eq!(templates.len(), 1);
    assert_eq!(templates[0].source, "templates/star.png");
    assert_eq!(templates[0].rows, 64);
}

#[test]
fn load_with_no_valid_template_is_fatal() {
    let images = vec![DecodedImage { source: "templates/bad.png".to_string(), rows: 0, cols: 3 }];
    assert!(matches!(load_templates(&images), Err(ConfigError::NoTemplates)));
    assert!(matches!(load_templates(&Vec::new()), Err(ConfigError::NoTemplates)));
}

#[test]
fn match_fires_iff_any_score_reaches_threshold() {
    assert!(!is_match(&vec![300, 499], DEFAULT_THRESHOLD));
    assert!(is_match(&vec![300, 500], DEFAULT_THRESHOLD));
    assert!(is_match(&vec![900, 0], DEFAULT_THRESHOLD));
    assert!(!is_match(&Vec::new(), DEFAULT_THRESHOLD));
}

#[test]
fn threshold_above_score_range_never_matches() {
    let scores = vec![SCORE_SCALE, -SCORE_SCALE, 0];
    assert!(!is_match(&scores, SCORE_SCALE + 100));
}

#[test]
fn threshold_below_score_range_always_matches() {
    let scores = vec![-SCORE_SCALE];
    assert!(is_match(&scores, -SCORE_SCALE - 100));
}

#[test]
fn engine_opens_then_captures() {
    let (state, action) = engine_step(EngineState::Opening, &CaptureEvent::Opened, DEFAULT_THRESHOLD);
    assert_eq!(state, EngineState::Capturing);
    assert_eq!(action, EngineAction::Proceed);
}

#[test]
fn engine_failed_open_is_fatal() {
    let (state, action) =
        engine_step(EngineState::Opening, &CaptureEvent::OpenFailed, DEFAULT_THRESHOLD);
    assert_eq!(state, EngineState::Closed);
    assert_eq!(action, EngineAction::Fail(ConfigError::SourceUnopenable));
}

#[test]
fn engine_backs_off_on_empty_frame() {
    let (state, action) =
        engine_step(EngineState::Capturing, &CaptureEvent::EmptyFrame, DEFAULT_THRESHOLD);
    assert_eq!(state, EngineState::Capturing);
    assert_eq!(action, EngineAction::Backoff);
}

#[test]
fn engine_publishes_on_match_and_delays_otherwise() {
    let (state, action) = engine_step(
        EngineState::Capturing,
        &CaptureEvent::FrameScores(vec![200, 700]),
        DEFAULT_THRESHOLD,
    );
    assert_eq!(state, EngineState::Capturing);
    assert_eq!(action, EngineAction::PublishEvent);

    let (state, action) = engine_step(
        EngineState::Capturing,
        &CaptureEvent::FrameScores(vec![200, 499]),
        DEFAULT_THRESHOLD,
    );
    assert_eq!(state, EngineState::Capturing);
    assert_eq!(action, EngineAction::Delay);
}
