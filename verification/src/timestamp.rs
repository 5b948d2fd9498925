//! Subtitle timestamps: total milliseconds rendered as `HH:MM:SS,mmm`.
//!
//! The caller rounds a seconds value to the nearest millisecond before
//! calling in; everything from the millisecond on is exact integer
//! arithmetic, so captions are never shifted by truncation.

use vstd::prelude::*;
use vstd::string::StringExecFns;
use vstd::arithmetic::div_mod::{lemma_fundamental_div_mod, lemma_mod_mod};
use crate::text::{pad2_seq, pad3_seq, u64_to_string_pad2, u64_to_string_pad3};

verus! {

pub const MILLIS_PER_HOUR: u64 = 3600000;

pub const MILLIS_PER_MINUTE: u64 = 60000;

pub const MILLIS_PER_SECOND: u64 = 1000;

/// The hour component of a millisecond count.
pub open spec fn ts_hours(ms: nat) -> nat {
    ms / 3600000
}

/// The minute component (0..59) of a millisecond count.
pub open spec fn ts_minutes(ms: nat) -> nat {
    (ms % 3600000) / 60000
}

/// The second component (0..59) of a millisecond count.
pub open spec fn ts_seconds(ms: nat) -> nat {
    (ms % 60000) / 1000
}

/// The millisecond component (0..999) of a millisecond count.
pub open spec fn ts_millis(ms: nat) -> nat {
    ms % 1000
}

/// The rendered `HH:MM:SS,mmm` form of a millisecond count; hours grow
/// past two digits when needed.
pub open spec fn timestamp_seq(ms: nat) -> Seq<char> {
    pad2_seq(ts_hours(ms)) + seq![':'] + pad2_seq(ts_minutes(ms)) + seq![':'] + pad2_seq(
        ts_seconds(ms),
    ) + seq![','] + pad3_seq(ts_millis(ms))
}

/// The components of a timestamp recombine exactly to the original
/// millisecond count, so rendering loses nothing: each count falls in
/// exactly one millisecond bucket.
pub proof fn lemma_timestamp_components(ms: u64)
    ensures
        ms == 3600000 * ts_hours(ms as nat) + 60000 * ts_minutes(ms as nat) + 1000 * ts_seconds(
            ms as nat,
        ) + ts_millis(ms as nat),
        ts_minutes(ms as nat) < 60,
        ts_seconds(ms as nat) < 60,
        ts_millis(ms as nat) < 1000,
{
    let x = ms as int;
    lemma_fundamental_div_mod(x, 3600000);
    lemma_fundamental_div_mod(x % 3600000, 60000);
    lemma_fundamental_div_mod(x % 60000, 1000);
    assert((x % (60000int * 60)) % 60000 == x % 60000) by {
        lemma_mod_mod(x, 60000, 60);
    }
    assert((x % (1000int * 60)) % 1000 == x % 1000) by {
        lemma_mod_mod(x, 1000, 60);
    }
}

/// Rendering round-trips: two millisecond counts that render the same
/// are the same, so each rendered timestamp names exactly one
/// millisecond bucket — rounding a seconds value to its bucket and
/// rendering it loses nothing further.
pub proof fn lemma_timestamp_injective(a: u64, b: u64)
    requires
        timestamp_seq(a as nat) == timestamp_seq(b as nat),
    ensures
        a == b,
{
    let an = a as nat;
    let bn = b as nat;
    let ha = ts_hours(an);
    let ma = ts_minutes(an);
    let sa = ts_seconds(an);
    let ra = ts_millis(an);
    let hb = ts_hours(bn);
    let mb = ts_minutes(bn);
    let sb = ts_seconds(bn);
    let rb = ts_millis(bn);
    lemma_timestamp_components(a);
    lemma_timestamp_components(b);
    crate::text::lemma_pad_len(ma);
    crate::text::lemma_pad_len(sa);
    crate::text::lemma_pad_len(ra);
    crate::text::lemma_pad_len(mb);
    crate::text::lemma_pad_len(sb);
    crate::text::lemma_pad_len(rb);
    crate::text::lemma_pad_len(ha);
    crate::text::lemma_pad_len(hb);
    let ts_a = timestamp_seq(an);
    let ts_b = timestamp_seq(bn);
    let la = pad2_seq(ha).len() as int;
    let lb = pad2_seq(hb).len() as int;
    assert(ts_a.len() == la + 10);
    assert(ts_b.len() == lb + 10);
    assert(la == lb);
    assert(pad2_seq(ha) =~= ts_a.take(la));
    assert(pad2_seq(hb) =~= ts_b.take(lb));
    crate::text::lemma_pad2_injective(ha, hb);
    assert(pad2_seq(ma) =~= ts_a.subrange(la + 1, la + 3));
    assert(pad2_seq(mb) =~= ts_b.subrange(lb + 1, lb + 3));
    crate::text::lemma_pad2_injective(ma, mb);
    assert(pad2_seq(sa) =~= ts_a.subrange(la + 4, la + 6));
    assert(pad2_seq(sb) =~= ts_b.subrange(lb + 4, lb + 6));
    crate::text::lemma_pad2_injective(sa, sb);
    assert(pad3_seq(ra) =~= ts_a.subrange(la + 7, la + 10));
    assert(pad3_seq(rb) =~= ts_b.subrange(lb + 7, lb + 10));
    crate::text::lemma_pad3_injective(ra, rb);
}

/// Renders a total-millisecond count as `HH:MM:SS,mmm`, each component
/// zero-padded (hours to 2 digits, growing as needed; milliseconds to 3).
pub fn format_timestamp(millis: u64) -> (r: String)
    ensures
        r@ == timestamp_seq(millis as nat),
{
    let hours = millis / MILLIS_PER_HOUR;
    let minutes = (millis % MILLIS_PER_HOUR) / MILLIS_PER_MINUTE;
    let secs = (millis % MILLIS_PER_MINUTE) / MILLIS_PER_SECOND;
    let ms = millis % MILLIS_PER_SECOND;
    let mut s = u64_to_string_pad2(hours);
    s.append(":");
    s.append(u64_to_string_pad2(minutes).as_str());
    s.append(":");
    s.append(u64_to_string_pad2(secs).as_str());
    s.append(",");
    s.append(u64_to_string_pad3(ms).as_str());
    proof {
        reveal_strlit(":");
        reveal_strlit(",");
        assert(":"@ =~= seq![':']);
        assert(","@ =~= seq![',']);
        assert(s@ =~= timestamp_seq(millis as nat));
    }
    s
}

} // verus!
