//! The streaming transcriber's pure half: splitting raw audio into the
//! fixed-size chunks that are paced out to the speech-to-text service,
//! and folding the service's result stream into transcript segments.

use vstd::prelude::*;
use crate::errors::StageError;
use crate::subtitle::{seg_views, SegmentModel, TranscriptSegment};

verus! {

/// How many bytes of raw audio go into one streamed chunk.
pub const CHUNK_SIZE: usize = 8192;

/// The wait before each chunk is delivered, approximating real-time
/// playback, in milliseconds.
pub const PACING_DELAY_MS: u64 = 100;

/// The sample rate the service is configured for, in hertz.
pub const SAMPLE_RATE_HZ: u32 = 16000;

/// One result carried by a transcript event: possibly still partial,
/// with candidate texts and service-reported times.
pub struct TranscriptResult {
    pub is_partial: bool,
    pub alternatives: Vec<String>,
    pub start_ms: u64,
    pub end_ms: u64,
}

/// One message of the service's result stream, as the network layer
/// hands it in: either a transcript event or something of an
/// unexpected kind.
pub enum StreamEvent {
    Transcript(Vec<TranscriptResult>),
    Unexpected,
}

/// A result contributes a segment: it is final and offers at least one
/// alternative.
pub open spec fn result_emits(r: TranscriptResult) -> bool {
    !r.is_partial && r.alternatives.len() > 0
}

/// The segment a contributing result produces: its first alternative's
/// text between the service-reported times.
pub open spec fn segment_model_of(r: TranscriptResult) -> SegmentModel {
    SegmentModel { start_ms: r.start_ms as nat, end_ms: r.end_ms as nat, text: r.alternatives[0]@ }
}

/// The segments contributed by the first `k` results, in order.
pub open spec fn result_segments_upto(rs: Seq<TranscriptResult>, k: int) -> Seq<SegmentModel>
    decreases k,
{
    if k <= 0 {
        Seq::empty()
    } else {
        result_segments_upto(rs, k - 1) + if result_emits(rs[k - 1]) {
            seq![segment_model_of(rs[k - 1])]
        } else {
            Seq::empty()
        }
    }
}

/// The segments one stream event contributes.
pub open spec fn event_segments(ev: StreamEvent) -> Seq<SegmentModel> {
    match ev {
        StreamEvent::Transcript(rs) => result_segments_upto(rs@, rs@.len() as int),
        StreamEvent::Unexpected => Seq::empty(),
    }
}

/// The segments contributed by the first `i` events, in order.
pub open spec fn event_segments_upto(evs: Seq<StreamEvent>, i: int) -> Seq<SegmentModel>
    decreases i,
{
    if i <= 0 {
        Seq::empty()
    } else {
        event_segments_upto(evs, i - 1) + event_segments(evs[i - 1])
    }
}

/// All segments a well-formed result stream folds to.
pub open spec fn folded_segments(evs: Seq<StreamEvent>) -> Seq<SegmentModel> {
    event_segments_upto(evs, evs.len() as int)
}

/// Some event of the stream is of an unexpected kind.
pub open spec fn has_unexpected(evs: Seq<StreamEvent>) -> bool {
    exists|i: int| 0 <= i < evs.len() && (#[trigger] evs[i]) is Unexpected
}

/// Folds the service's result stream into segments: partial results are
/// discarded (they may still change); each final result with at least
/// one alternative contributes exactly one segment, in stream order; an
/// event of an unexpected kind is a protocol violation and fails the
/// stage with a typed error — it never ends the process.
pub fn fold_results(events: &Vec<StreamEvent>) -> (r: Result<Vec<TranscriptSegment>, StageError>)
    ensures
        r is Ok <==> !has_unexpected(events@),
        r matches Err(e) ==> e == StageError::ProtocolViolation,
        r matches Ok(segs) ==> seg_views(segs@) == folded_segments(events@),
{
    let mut segs: Vec<TranscriptSegment> = Vec::new();
    let n = events.len();
    let mut i: usize = 0;
    while i < n
        invariant
            i <= n,
            n == events@.len(),
            forall|j: int| 0 <= j < i ==> !((#[trigger] events@[j]) is Unexpected),
            seg_views(segs@) == event_segments_upto(events@, i as int),
        decreases n - i,
    {
        match &events[i] {
            StreamEvent::Transcript(results) => {
                let m = results.len();
                let mut k: usize = 0;
                while k < m
                    invariant
                        k <= m,
                        m == results@.len(),
                        i < n,
                        n == events@.len(),
                        events@[i as int] == StreamEvent::Transcript(*results),
                        seg_views(segs@) == event_segments_upto(events@, i as int)
                            + result_segments_upto(results@, k as int),
                    decreases m - k,
                {
                    let res = &results[k];
                    if !res.is_partial && res.alternatives.len() > 0 {
                        let text = res.alternatives[0].clone();
                        segs.push(
                            TranscriptSegment { start_ms: res.start_ms, end_ms: res.end_ms, text },
                        );
                        proof {
                            assert(seg_views(segs@) =~= event_segments_upto(events@, i as int)
                                + result_segments_upto(results@, k as int) + seq![
                                segment_model_of(results@[k as int]),
                            ]);
                            assert(seg_views(segs@) =~= event_segments_upto(events@, i as int)
                                + result_segments_upto(results@, k + 1));
                        }
                    } else {
                        proof {
                            assert(result_segments_upto(results@, k + 1) =~= result_segments_upto(
                                results@,
                                k as int,
                            ));
                        }
                    }
                    k = k + 1;
                }
                proof {
                    assert(event_segments_upto(events@, i + 1) =~= seg_views(segs@));
                }
            },
            StreamEvent::Unexpected => {
                proof {
                    assert((events@[i as int]) is Unexpected);
                }
                return Err(StageError::ProtocolViolation);
            },
        }
        i = i + 1;
    }
    Ok(segs)
}

/// A transcription that produced no segments aborts the job: the
/// streamer was silent or inactive, and there is nothing to subtitle.
pub fn check_transcript_nonempty(segs: &Vec<TranscriptSegment>) -> (r: Result<(), StageError>)
    ensures
        r is Ok <==> segs@.len() > 0,
        r matches Err(e) ==> e == StageError::EmptyTranscript,
{
    if segs.len() > 0 {
        Ok(())
    } else {
        Err(StageError::EmptyTranscript)
    }
}

/// The chunking of `data` into pieces of `cs` bytes: every chunk full
/// except a shorter final one; concatenated, exactly `data`.
pub open spec fn spec_chunks(data: Seq<u8>, cs: int) -> Seq<Seq<u8>>
    decreases data.len(),
    when cs >= 1
{
    if data.len() == 0 {
        Seq::empty()
    } else if data.len() <= cs {
        seq![data]
    } else {
        seq![data.take(cs)] + spec_chunks(data.skip(cs), cs)
    }
}

/// Splits raw audio into the fixed-size chunks that are delivered to
/// the service one pacing delay apart. Chunks keep the byte order: the
/// `j`th chunk holds bytes `j*chunk_size..` of the input, each chunk
/// full except possibly the last.
pub fn chunk_audio(pcm: &Vec<u8>, chunk_size: usize) -> (r: Vec<Vec<u8>>)
    requires
        chunk_size >= 1,
    ensures
        r@.map_values(|c: Vec<u8>| c@) == spec_chunks(pcm@, chunk_size as int),
{
    let mut out: Vec<Vec<u8>> = Vec::new();
    let n = pcm.len();
    let mut offset: usize = 0;
    proof {
        assert(pcm@.skip(0) =~= pcm@);
        assert(out@.map_values(|c: Vec<u8>| c@) + spec_chunks(pcm@.skip(0), chunk_size as int)
            =~= spec_chunks(pcm@, chunk_size as int));
    }
    while offset < n
        invariant
            offset <= n,
            n == pcm@.len(),
            chunk_size >= 1,
            out@.map_values(|c: Vec<u8>| c@) + spec_chunks(pcm@.skip(offset as int), chunk_size as int)
                == spec_chunks(pcm@, chunk_size as int),
        decreases n - offset,
    {
        let end = if n - offset < chunk_size {
            n
        } else {
            offset + chunk_size
        };
        let mut chunk: Vec<u8> = Vec::new();
        let mut j: usize = offset;
        while j < end
            invariant
                offset <= j <= end <= n,
                n == pcm@.len(),
                chunk@ == pcm@.subrange(offset as int, j as int),
            decreases end - j,
        {
            chunk.push(pcm[j]);
            proof {
                assert(chunk@ =~= pcm@.subrange(offset as int, j + 1));
            }
            j = j + 1;
        }
        proof {
            let rest = pcm@.skip(offset as int);
            let cs = chunk_size as int;
            if rest.len() <= cs {
                assert(chunk@ =~= rest);
                assert(spec_chunks(rest, cs) =~= seq![chunk@] + spec_chunks(
                    pcm@.skip(end as int),
                    cs,
                ));
            } else {
                assert(chunk@ =~= rest.take(cs));
                assert(pcm@.skip(end as int) =~= rest.skip(cs));
                assert(spec_chunks(rest, cs) =~= seq![chunk@] + spec_chunks(
                    pcm@.skip(end as int),
                    cs,
                ));
            }
        }
        out.push(chunk);
        proof {
            assert(out@.map_values(|c: Vec<u8>| c@) + spec_chunks(pcm@.skip(end as int), chunk_size as int)
                =~= spec_chunks(pcm@, chunk_size as int));
        }
        offset = end;
    }
    proof {
        assert(spec_chunks(pcm@.skip(offset as int), chunk_size as int) =~= Seq::<Seq<u8>>::empty());
        assert(out@.map_values(|c: Vec<u8>| c@) =~= spec_chunks(pcm@, chunk_size as int));
    }
    out
}

} // verus!
