//! Subtitle rendering: time-stamped transcript segments become a SubRip
//! document of sequentially indexed blocks.

use vstd::prelude::*;
use vstd::string::StringExecFns;
use crate::text::dec_seq;
use crate::timestamp::{format_timestamp, timestamp_seq};

verus! {

/// One committed piece of transcript: what was said between `start_ms`
/// and `end_ms`.
pub struct TranscriptSegment {
    pub start_ms: u64,
    pub end_ms: u64,
    pub text: String,
}

/// The mathematical value of a segment.
pub struct SegmentModel {
    pub start_ms: nat,
    pub end_ms: nat,
    pub text: Seq<char>,
}

impl View for TranscriptSegment {
    type V = SegmentModel;

    open spec fn view(&self) -> SegmentModel {
        SegmentModel { start_ms: self.start_ms as nat, end_ms: self.end_ms as nat, text: self.text@ }
    }
}

/// The models of a sequence of segments.
pub open spec fn seg_views(s: Seq<TranscriptSegment>) -> Seq<SegmentModel> {
    s.map_values(|x: TranscriptSegment| x@)
}

/// One rendered subtitle block: `index\nSTART --> END\ntext\n\n`.
pub open spec fn srt_block_seq(index: nat, seg: TranscriptSegment) -> Seq<char> {
    dec_seq(index) + seq!['\n'] + timestamp_seq(seg.start_ms as nat) + seq![' ', '-', '-', '>', ' ']
        + timestamp_seq(seg.end_ms as nat) + seq!['\n'] + seg.text@ + seq!['\n', '\n']
}

/// The document made of the first `i` segments, blocks indexed from 1.
pub open spec fn srt_upto(segs: Seq<TranscriptSegment>, i: int) -> Seq<char>
    decreases i,
{
    if i <= 0 {
        Seq::empty()
    } else {
        srt_upto(segs, i - 1) + srt_block_seq(i as nat, segs[i - 1])
    }
}

/// The full SubRip document for a sequence of segments.
pub open spec fn srt_seq(segs: Seq<TranscriptSegment>) -> Seq<char> {
    srt_upto(segs, segs.len() as int)
}

/// Renders one block of a SubRip document.
fn render_block(index: u64, seg: &TranscriptSegment) -> (r: String)
    ensures
        r@ == srt_block_seq(index as nat, *seg),
{
    let mut s = crate::text::u64_to_string(index);
    s.append("\n");
    s.append(format_timestamp(seg.start_ms).as_str());
    s.append(" --> ");
    s.append(format_timestamp(seg.end_ms).as_str());
    s.append("\n");
    s.append(seg.text.as_str());
    s.append("\n\n");
    proof {
        reveal_strlit("\n");
        reveal_strlit(" --> ");
        reveal_strlit("\n\n");
        assert("\n"@ =~= seq!['\n']);
        assert(" --> "@ =~= seq![' ', '-', '-', '>', ' ']);
        assert("\n\n"@ =~= seq!['\n', '\n']);
        assert(s@ =~= srt_block_seq(index as nat, *seg));
    }
    s
}

/// Renders segments as a SubRip document: block `k` (1-based) holds the
/// `k`th segment, its start and end as `HH:MM:SS,mmm`, its text, and a
/// blank separating line. Segments are rendered in the order given; the
/// writer does not re-sort.
pub fn generate_srt(segments: &Vec<TranscriptSegment>) -> (r: String)
    ensures
        r@ == srt_seq(segments@),
{
    let mut s = String::new();
    let n = segments.len();
    let mut i: usize = 0;
    while i < n
        invariant
            i <= n,
            n == segments@.len(),
            s@ == srt_upto(segments@, i as int),
        decreases n - i,
    {
        let block = render_block((i + 1) as u64, &segments[i]);
        s.append(block.as_str());
        i = i + 1;
    }
    s
}

} // verus!
