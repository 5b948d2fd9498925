use clip_pipeline::channel::EventChannel;
use clip_pipeline::errors::StageError;
use clip_pipeline::pipeline::{
    check_artifact, job_step, new_clip_job, new_job, next_stage, process_next_event, run_job,
    stage_index, tool_outcome, JobState, Stage,
};

#[test]
fn clip_job_carries_the_window() {
    let job = new_clip_job("https://h/s.m3u8".to_string(), ".".to_string(), 0, 30);
    assert_eq!(job.source_url, "https://h/s.m3u8");
    assert_eq!(job.working_dir, ".");
    assert_eq!(job.start_secs, 0);
    assert_eq!(job.duration_secs, 30);
}

#[test]
fn publish_into_full_channel_drops_silently() {
    let mut ch = EventChannel::new(2);
    assert!(ch.try_publish());
    assert!(ch.try_publish());
    // the channel is full: the publish returns at once, with no error
    assert!(!ch.try_publish());
    assert_eq!(ch.len(), 2);
    assert_eq!(ch.dropped(), 1);
    // the consumer sees exactly the queued events, nothing of the drop
    assert!(ch.try_recv().is_some());
    assert!(ch.try_recv().is_some());
    assert!(ch.try_recv().is_none());
}

#[test]
fn stage_order_is_fixed() {
    let (stages, state) = run_job(&vec![true; 6]);
    assert_eq!(
        stages,
        vec![
            Stage::Extract,
            Stage::Transcribe,
            Stage::RenderSubtitles,
            Stage::MuxSubtitles,
            Stage::MuxAudio,
            Stage::Publish,
        ]
    );
    assert_eq!(state, JobState::Completed);
}

#[test]
fn failure_at_any_stage_stops_later_stages_only() {
    for k in 0..6 {
        let mut outcomes = vec![true; 6];
        outcomes[k] = false;
        let (stages, state) = run_job(&outcomes);
        assert_eq!(stages.len(), k + 1);
        for (i, stage) in stages.iter().enumerate() {
            assert_eq!(stage_index(*stage), i);
        }
        assert_eq!(state, JobState::Aborted(stages[k]));
    }
}

#[test]
fn job_steps_through_the_canonical_order() {
    let mut state = new_job();
    assert_eq!(state, JobState::Running(Stage::Extract));
    for _ in 0..6 {
        state = job_step(state, true);
    }
    assert_eq!(state, JobState::Completed);
    // a finished job does not move again
    assert_eq!(job_step(state, false), JobState::Completed);
}

#[test]
fn job_aborts_at_the_failing_stage() {
    let state = job_step(JobState::Running(Stage::Transcribe), false);
    assert_eq!(state, JobState::Aborted(Stage::Transcribe));
    assert_eq!(job_step(state, true), JobState::Aborted(Stage::Transcribe));
}

#[test]
fn next_stage_walks_the_order() {
    assert_eq!(next_stage(Stage::Extract), Some(Stage::Transcribe));
    assert_eq!(next_stage(Stage::MuxAudio), Some(Stage::Publish));
    assert_eq!(next_stage(Stage::Publish), None);
}

#[test]
fn burst_during_inflight_job_keeps_exactly_one_event() {
    // capacity 1; one job is already in flight (its event was dequeued)
    let mut ch = EventChannel::new(1);
    // three detections arrive while the 30-second job (simulated) runs
    assert!(ch.try_publish());
    assert!(!ch.try_publish());
    assert!(!ch.try_publish());
    assert_eq!(ch.dropped(), 2);
    // the in-flight job completes; the pipeline takes the one retained
    // event and processes one additional job
    let outcomes = vec![true; 6];
    let follow_up = process_next_event(&mut ch, &outcomes);
    assert!(matches!(follow_up, Some((_, JobState::Completed))));
    // nothing else was retained
    assert!(process_next_event(&mut ch, &outcomes).is_none());
}

#[test]
fn aborted_job_leaves_the_loop_accepting_events() {
    let mut ch = EventChannel::new(4);
    assert!(ch.try_publish());
    assert!(ch.try_publish());
    let mut failing = vec![true; 6];
    failing[3] = false;
    let first = process_next_event(&mut ch, &failing);
    assert!(matches!(first, Some((_, JobState::Aborted(Stage::MuxSubtitles)))));
    // the failure aborted the job only: the next event still processes
    let second = process_next_event(&mut ch, &vec![true; 6]);
    assert!(matches!(second, Some((_, JobState::Completed))));
}

#[test]
fn artifact_and_tool_checks_give_typed_errors() {
    assert!(check_artifact(1).is_ok());
    assert!(matches!(check_artifact(0), Err(StageError::EmptyArtifact)));
    assert!(tool_outcome(true).is_ok());
    assert!(matches!(tool_outcome(false), Err(StageError::ToolFailed)));
}
