//! The template store and the frame matcher.
//!
//! Match scores are normalized cross-correlation values; a score of 1.0
//! is carried here as `SCORE_SCALE` so that the matching rule is exact
//! integer arithmetic. The capture side converts each raw score `v` to
//! `round(v * SCORE_SCALE)` before calling in.

use vstd::prelude::*;
use crate::errors::ConfigError;

verus! {

/// The scaled representation of a correlation score of 1.0.
pub const SCORE_SCALE: i64 = 1000;

/// The design-default match threshold, 0.5 in scaled form.
pub const DEFAULT_THRESHOLD: i64 = 500;

/// A decoded reference image as the load step sees it: its source
/// identifier and its pixel dimensions. A decode failure or an empty
/// result arrives as zero dimensions.
pub struct DecodedImage {
    pub source: String,
    pub rows: u64,
    pub cols: u64,
}

/// A reference image retained for matching.
pub struct Template {
    pub source: String,
    pub rows: u64,
    pub cols: u64,
}

/// An image with actual pixel data.
pub open spec fn image_nonempty(img: DecodedImage) -> bool {
    img.rows > 0 && img.cols > 0
}

/// Every retained template has pixel data.
pub open spec fn template_wf(t: Template) -> bool {
    t.rows > 0 && t.cols > 0
}

/// The images of the first `i` that are kept: the non-empty ones, in
/// load order.
pub open spec fn kept_upto(imgs: Seq<DecodedImage>, i: int) -> Seq<DecodedImage>
    decreases i,
{
    if i <= 0 {
        Seq::empty()
    } else {
        kept_upto(imgs, i - 1) + if image_nonempty(imgs[i - 1]) {
            seq![imgs[i - 1]]
        } else {
            Seq::empty()
        }
    }
}

/// The images kept by a load: the non-empty ones, in load order.
pub open spec fn kept_images(imgs: Seq<DecodedImage>) -> Seq<DecodedImage> {
    kept_upto(imgs, imgs.len() as int)
}

/// Some image decoded with actual data.
pub open spec fn any_nonempty(imgs: Seq<DecodedImage>) -> bool {
    exists|i: int| 0 <= i < imgs.len() && image_nonempty(#[trigger] imgs[i])
}

/// Builds the template store from the decode results of a directory's
/// files. Empty or undecodable images are skipped, never fatal on their
/// own; a load that keeps nothing is a fatal configuration error, since
/// the detector cannot match against nothing.
pub fn load_templates(images: &Vec<DecodedImage>) -> (r: Result<Vec<Template>, ConfigError>)
    ensures
        r is Ok <==> any_nonempty(images@),
        r matches Err(e) ==> e == ConfigError::NoTemplates,
        r matches Ok(ts) ==> {
            &&& ts@.len() == kept_images(images@).len()
            &&& ts@.len() > 0
            &&& forall|j: int|
                0 <= j < ts@.len() ==> {
                    &&& (#[trigger] ts@[j]).source@ == kept_images(images@)[j].source@
                    &&& ts@[j].rows == kept_images(images@)[j].rows
                    &&& ts@[j].cols == kept_images(images@)[j].cols
                    &&& template_wf(ts@[j])
                }
        },
{
    let mut out: Vec<Template> = Vec::new();
    let n = images.len();
    let mut i: usize = 0;
    while i < n
        invariant
            i <= n,
            n == images@.len(),
            out@.len() == kept_upto(images@, i as int).len(),
            forall|j: int|
                0 <= j < out@.len() ==> {
                    &&& (#[trigger] out@[j]).source@ == kept_upto(images@, i as int)[j].source@
                    &&& out@[j].rows == kept_upto(images@, i as int)[j].rows
                    &&& out@[j].cols == kept_upto(images@, i as int)[j].cols
                    &&& template_wf(out@[j])
                },
            (out@.len() > 0) <==> (exists|j: int|
                0 <= j < i && image_nonempty(#[trigger] images@[j])),
        decreases n - i,
    {
        let img = &images[i];
        if img.rows > 0 && img.cols > 0 {
            out.push(Template { source: img.source.clone(), rows: img.rows, cols: img.cols });
        }
        proof {
            assert(kept_upto(images@, i + 1) == kept_upto(images@, i as int) + (
            if image_nonempty(images@[i as int]) {
                seq![images@[i as int]]
            } else {
                Seq::<DecodedImage>::empty()
            }));
        }
        i = i + 1;
    }
    if out.len() == 0 {
        Err(ConfigError::NoTemplates)
    } else {
        Ok(out)
    }
}

/// At least one score reaches the threshold.
pub open spec fn spec_is_match(scores: Seq<i64>, threshold: i64) -> bool {
    exists|i: int| 0 <= i < scores.len() && #[trigger] scores[i] >= threshold
}

/// All scores lie in the normalized range, scaled.
pub open spec fn scores_bounded(scores: Seq<i64>) -> bool {
    forall|i: int| 0 <= i < scores.len() ==> -SCORE_SCALE <= #[trigger] scores[i] <= SCORE_SCALE
}

/// True iff at least one template's score reaches the threshold.
/// Templates are tried in load order and matching stops at the first
/// hit; that short-circuit never changes the answer, because the
/// predicate is an OR over all scores.
pub fn is_match(scores: &Vec<i64>, threshold: i64) -> (r: bool)
    ensures
        r == spec_is_match(scores@, threshold),
{
    let n = scores.len();
    let mut i: usize = 0;
    while i < n
        invariant
            i <= n,
            n == scores@.len(),
            forall|j: int| 0 <= j < i ==> #[trigger] scores@[j] < threshold,
        decreases n - i,
    {
        if scores[i] >= threshold {
            return true;
        }
        i = i + 1;
    }
    false
}

/// A threshold above the top of the score range never matches.
pub proof fn lemma_threshold_above_range_never_matches(scores: Seq<i64>, threshold: i64)
    requires
        scores_bounded(scores),
        threshold > SCORE_SCALE,
    ensures
        !spec_is_match(scores, threshold),
{
}

/// A threshold at or below the bottom of the score range matches any
/// non-empty score list.
pub proof fn lemma_threshold_below_range_always_matches(scores: Seq<i64>, threshold: i64)
    requires
        scores_bounded(scores),
        threshold <= -SCORE_SCALE,
        scores.len() > 0,
    ensures
        spec_is_match(scores, threshold),
{
    assert(scores[0] >= threshold);
}

} // verus!
