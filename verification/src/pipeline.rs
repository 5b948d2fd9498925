//! The clip pipeline's control skeleton: the fixed five-stage sequence
//! (plus publish), the per-job state machine, and the rule that a stage
//! failure aborts the job — never the loop around it.

use vstd::prelude::*;
use crate::channel::EventChannel;
use crate::errors::StageError;

verus! {

/// The number of stages a job runs through.
pub const STAGE_COUNT: usize = 6;

/// One stage of clip assembly, in the only order they ever run.
#[derive(Clone, Copy, Debug, PartialEq, Eq, Structural)]
pub enum Stage {
    Extract,
    Transcribe,
    RenderSubtitles,
    MuxSubtitles,
    MuxAudio,
    Publish,
}

/// The canonical stage order.
pub open spec fn stage_order() -> Seq<Stage> {
    seq![
        Stage::Extract,
        Stage::Transcribe,
        Stage::RenderSubtitles,
        Stage::MuxSubtitles,
        Stage::MuxAudio,
        Stage::Publish,
    ]
}

/// A stage's position in the canonical order.
pub open spec fn spec_stage_index(s: Stage) -> int {
    match s {
        Stage::Extract => 0,
        Stage::Transcribe => 1,
        Stage::RenderSubtitles => 2,
        Stage::MuxSubtitles => 3,
        Stage::MuxAudio => 4,
        Stage::Publish => 5,
    }
}

/// The stage that runs after `s` when `s` succeeds.
pub open spec fn spec_next_stage(s: Stage) -> Option<Stage> {
    match s {
        Stage::Extract => Some(Stage::Transcribe),
        Stage::Transcribe => Some(Stage::RenderSubtitles),
        Stage::RenderSubtitles => Some(Stage::MuxSubtitles),
        Stage::MuxSubtitles => Some(Stage::MuxAudio),
        Stage::MuxAudio => Some(Stage::Publish),
        Stage::Publish => None,
    }
}

/// A stage's position in the canonical order.
pub fn stage_index(s: Stage) -> (r: usize)
    ensures
        r == spec_stage_index(s),
        stage_order()[r as int] == s,
{
    match s {
        Stage::Extract => 0,
        Stage::Transcribe => 1,
        Stage::RenderSubtitles => 2,
        Stage::MuxSubtitles => 3,
        Stage::MuxAudio => 4,
        Stage::Publish => 5,
    }
}

/// The stage at a position in the canonical order.
pub fn stage_at(i: usize) -> (r: Stage)
    requires
        i < 6,
    ensures
        r == stage_order()[i as int],
{
    if i == 0 {
        Stage::Extract
    } else if i == 1 {
        Stage::Transcribe
    } else if i == 2 {
        Stage::RenderSubtitles
    } else if i == 3 {
        Stage::MuxSubtitles
    } else if i == 4 {
        Stage::MuxAudio
    } else {
        Stage::Publish
    }
}

/// The stage that runs after `s` when `s` succeeds; `None` after the
/// last one.
pub fn next_stage(s: Stage) -> (r: Option<Stage>)
    ensures
        r == spec_next_stage(s),
{
    match s {
        Stage::Extract => Some(Stage::Transcribe),
        Stage::Transcribe => Some(Stage::RenderSubtitles),
        Stage::RenderSubtitles => Some(Stage::MuxSubtitles),
        Stage::MuxSubtitles => Some(Stage::MuxAudio),
        Stage::MuxAudio => Some(Stage::Publish),
        Stage::Publish => None,
    }
}

/// The unit of work one consumed event turns into: where to cut from,
/// where the job's files live, and the fixed extraction window. The
/// job lives until its stages complete or one fails; its artifacts
/// outlive it, the record does not.
pub struct ClipJob {
    pub source_url: String,
    pub working_dir: String,
    pub start_secs: u64,
    pub duration_secs: u64,
}

/// Builds the job for one consumed event: the configured window over
/// the configured source. The window's placement ignores the event's
/// own time; a deployment chooses the offset and duration.
pub fn new_clip_job(
    source_url: String,
    working_dir: String,
    start_secs: u64,
    duration_secs: u64,
) -> (r: ClipJob)
    ensures
        r.source_url == source_url,
        r.working_dir == working_dir,
        r.start_secs == start_secs,
        r.duration_secs == duration_secs,
{
    ClipJob { source_url, working_dir, start_secs, duration_secs }
}

/// Where one clip job stands.
#[derive(Clone, Copy, Debug, PartialEq, Eq, Structural)]
pub enum JobState {
    /// The named stage is the next to run.
    Running(Stage),
    /// All stages succeeded.
    Completed,
    /// The named stage failed; no later stage ran.
    Aborted(Stage),
}

/// How a job's state moves on one stage outcome.
pub open spec fn spec_job_step(st: JobState, ok: bool) -> JobState {
    match st {
        JobState::Running(stage) => if !ok {
            JobState::Aborted(stage)
        } else {
            match spec_next_stage(stage) {
                Some(n) => JobState::Running(n),
                None => JobState::Completed,
            }
        },
        JobState::Completed => JobState::Completed,
        JobState::Aborted(stage) => JobState::Aborted(stage),
    }
}

/// A fresh job, about to run its first stage.
pub fn new_job() -> (r: JobState)
    ensures
        r == JobState::Running(Stage::Extract),
{
    JobState::Running(Stage::Extract)
}

/// Advances a job's state by one stage outcome: success moves to the
/// next stage in the canonical order (or completes the job after the
/// last), failure aborts the job at the stage that failed. A finished
/// job does not move again.
pub fn job_step(st: JobState, ok: bool) -> (r: JobState)
    ensures
        r == spec_job_step(st, ok),
{
    match st {
        JobState::Running(stage) => {
            if !ok {
                JobState::Aborted(stage)
            } else {
                match next_stage(stage) {
                    Some(n) => JobState::Running(n),
                    None => JobState::Completed,
                }
            }
        },
        JobState::Completed => JobState::Completed,
        JobState::Aborted(stage) => JobState::Aborted(stage),
    }
}

/// All six outcomes are successes.
pub open spec fn all_succeed(outcomes: Seq<bool>) -> bool {
    forall|j: int| 0 <= j < 6 ==> #[trigger] outcomes[j]
}

/// `k` is the first failed outcome.
pub open spec fn first_failure_at(outcomes: Seq<bool>, k: int) -> bool {
    &&& 0 <= k < 6
    &&& !outcomes[k]
    &&& forall|j: int| 0 <= j < k ==> #[trigger] outcomes[j]
}

/// Runs one synthetic job whose stage outcomes are given, returning the
/// stages that executed, in execution order, and the final job state.
/// Stages always execute as a prefix of Extract → Transcribe →
/// RenderSubtitles → MuxSubtitles → MuxAudio → Publish: a failure at
/// stage `k` runs stages up to and including `k` and nothing after.
pub fn run_job(outcomes: &Vec<bool>) -> (r: (Vec<Stage>, JobState))
    requires
        outcomes@.len() == 6,
    ensures
        all_succeed(outcomes@) ==> r.0@ == stage_order() && r.1 == JobState::Completed,
        forall|k: int|
            first_failure_at(outcomes@, k) ==> r.0@ == stage_order().take(k + 1) && r.1
                == JobState::Aborted(stage_order()[k]),
        r.1 == JobState::Completed <==> all_succeed(outcomes@),
{
    let mut executed: Vec<Stage> = Vec::new();
    let mut i: usize = 0;
    let mut ok = true;
    while i < 6 && ok
        invariant
            i <= 6,
            outcomes@.len() == 6,
            executed@ == stage_order().take(i as int),
            ok ==> forall|j: int| 0 <= j < i ==> #[trigger] outcomes@[j],
            !ok ==> i >= 1 && !outcomes@[i - 1] && forall|j: int|
                0 <= j < i - 1 ==> #[trigger] outcomes@[j],
        decreases 6 - i,
    {
        let stage = stage_at(i);
        executed.push(stage);
        proof {
            assert(executed@ =~= stage_order().take(i + 1));
        }
        if !outcomes[i] {
            ok = false;
        }
        i = i + 1;
    }
    let state = if ok {
        proof {
            assert(executed@ =~= stage_order());
        }
        JobState::Completed
    } else {
        JobState::Aborted(executed[executed.len() - 1])
    };
    (executed, state)
}

/// One turn of the pipeline loop over synthetic outcomes: take the next
/// queued event, if any, and run one job for it. A job's failure is
/// returned, never propagated into the loop: the channel is left ready
/// to deliver the next event either way.
pub fn process_next_event(ch: &mut EventChannel, outcomes: &Vec<bool>) -> (r: Option<
    (Vec<Stage>, JobState),
>)
    requires
        old(ch).wf(),
        outcomes@.len() == 6,
    ensures
        final(ch).wf(),
        final(ch).cap() == old(ch).cap(),
        final(ch).drop_count() == old(ch).drop_count(),
        r is Some <==> old(ch).queued() > 0,
        r is Some ==> final(ch).queued() == old(ch).queued() - 1,
        r is None ==> final(ch).queued() == old(ch).queued(),
        r matches Some(job) ==> {
            &&& (all_succeed(outcomes@) ==> job.0@ == stage_order() && job.1
                == JobState::Completed)
            &&& forall|k: int|
                first_failure_at(outcomes@, k) ==> job.0@ == stage_order().take(k + 1) && job.1
                    == JobState::Aborted(stage_order()[k])
        },
{
    match ch.try_recv() {
        Some(_event) => Some(run_job(outcomes)),
        None => None,
    }
}

/// Checks one stage's output artifact: a stage may proceed only past a
/// file that exists and is non-empty.
pub fn check_artifact(len: u64) -> (r: Result<(), StageError>)
    ensures
        r is Ok <==> len > 0,
        r matches Err(e) ==> e == StageError::EmptyArtifact,
{
    if len > 0 {
        Ok(())
    } else {
        Err(StageError::EmptyArtifact)
    }
}

/// Maps the external tool's exit status to a stage outcome: any failed
/// status is fatal for the job.
pub fn tool_outcome(success: bool) -> (r: Result<(), StageError>)
    ensures
        r is Ok <==> success,
        r matches Err(e) ==> e == StageError::ToolFailed,
{
    if success {
        Ok(())
    } else {
        Err(StageError::ToolFailed)
    }
}

} // verus!
