//! Storage-facing naming: object keys, upload URLs, the
//! timestamp-derived prefix that groups one clip's artifacts, and the
//! key dissection the clip listing is built from. The storage calls
//! themselves (upload, list, fetch) are network work and live outside
//! this library.

use vstd::prelude::*;
use vstd::string::StringExecFns;
use vstd::string::StrSliceExecFns;
use chrono::Datelike;
use chrono::Timelike;
use crate::text::{pad2_seq, pad4_seq, u64_to_string_pad2, u64_to_string_pad4};

verus! {

/// One clip as the query API reports it.
pub struct Clip {
    pub id: String,
    pub s3_url: String,
}

/// What kind of artifact an object key names, by its suffix.
#[derive(Clone, Copy, Debug, PartialEq, Eq, Structural)]
pub enum ArtifactKind {
    Video,
    Subtitles,
    Audio,
    Other,
}

/// The key under which an artifact is stored: the clip group's prefix,
/// a separator, and the artifact's file name.
pub fn object_key(prefix: &str, name: &str) -> (r: String)
    ensures
        r@ == prefix@ + seq!['/'] + name@,
{
    let mut s = String::from_str(prefix);
    s.append("/");
    s.append(name);
    proof {
        reveal_strlit("/");
        assert("/"@ =~= seq!['/']);
        assert(s@ =~= prefix@ + seq!['/'] + name@);
    }
    s
}

/// `s` with every trailing `/` removed.
pub open spec fn trimmed_slashes(s: Seq<char>) -> Seq<char>
    decreases s.len(),
{
    if s.len() > 0 && s[s.len() - 1] == '/' {
        trimmed_slashes(s.drop_last())
    } else {
        s
    }
}

/// A cut that leaves only trailing slashes behind it, and none before
/// it at its very end, is exactly where the trim lands.
proof fn lemma_trimmed_slashes_at(s: Seq<char>, end: int)
    requires
        0 <= end <= s.len(),
        forall|j: int| end <= j < s.len() ==> s[j] == '/',
        end > 0 ==> s[end - 1] != '/',
    ensures
        trimmed_slashes(s) == s.take(end),
    decreases s.len(),
{
    if end == s.len() {
        assert(s.take(end) =~= s);
    } else {
        let shorter = s.drop_last();
        assert(forall|j: int| end <= j < shorter.len() ==> shorter[j] == '/');
        lemma_trimmed_slashes_at(shorter, end);
        assert(s.take(end) =~= shorter.take(end));
    }
}

/// Removes every trailing `/` from `s`.
pub fn trim_trailing_slashes(s: &str) -> (r: String)
    ensures
        r@ == trimmed_slashes(s@),
{
    let len = s.unicode_len();
    let mut end = len;
    while end > 0 && s.get_char(end - 1) == '/'
        invariant
            end <= len,
            len == s@.len(),
            forall|j: int| end <= j < len ==> s@[j] == '/',
        decreases end,
    {
        end = end - 1;
    }
    proof {
        lemma_trimmed_slashes_at(s@, end as int);
    }
    let cut = s.substring_char(0, end);
    String::from_str(cut)
}

/// The character is one the stream resolver may leave after the URL.
pub open spec fn is_trailing_space(c: char) -> bool {
    c == ' ' || c == '\n' || c == '\r' || c == '\t'
}

/// `s` with every trailing whitespace character removed.
pub open spec fn trimmed_spaces(s: Seq<char>) -> Seq<char>
    decreases s.len(),
{
    if s.len() > 0 && is_trailing_space(s[s.len() - 1]) {
        trimmed_spaces(s.drop_last())
    } else {
        s
    }
}

proof fn lemma_trimmed_spaces_at(s: Seq<char>, end: int)
    requires
        0 <= end <= s.len(),
        forall|j: int| end <= j < s.len() ==> is_trailing_space(s[j]),
        end > 0 ==> !is_trailing_space(s[end - 1]),
    ensures
        trimmed_spaces(s) == s.take(end),
    decreases s.len(),
{
    if end == s.len() {
        assert(s.take(end) =~= s);
    } else {
        let shorter = s.drop_last();
        assert(forall|j: int| end <= j < shorter.len() ==> is_trailing_space(shorter[j]));
        lemma_trimmed_spaces_at(shorter, end);
        assert(s.take(end) =~= shorter.take(end));
    }
}

/// Decides `is_trailing_space` for one character.
fn is_space_char(c: char) -> (r: bool)
    ensures
        r == is_trailing_space(c),
{
    c == ' ' || c == '\n' || c == '\r' || c == '\t'
}

/// Trims the trailing whitespace (including the newline) that the
/// stream-URL resolver leaves on its output before the URL is used.
pub fn trim_resolved_url(s: &str) -> (r: String)
    ensures
        r@ == trimmed_spaces(s@),
{
    let len = s.unicode_len();
    let mut end = len;
    while end > 0 && is_space_char(s.get_char(end - 1))
        invariant
            end <= len,
            len == s@.len(),
            forall|j: int| end <= j < len ==> is_trailing_space(s@[j]),
        decreases end,
    {
        end = end - 1;
    }
    proof {
        lemma_trimmed_spaces_at(s@, end as int);
    }
    let cut = s.substring_char(0, end);
    String::from_str(cut)
}

/// The URL an uploaded object is available at: under an explicit
/// endpoint (trailing slashes trimmed) when one is configured, else
/// under the bucket's canonical public host.
pub fn upload_url(endpoint: &Option<String>, bucket: &str, key: &str) -> (r: String)
    ensures
        endpoint matches Some(ep) ==> r@ == trimmed_slashes(ep@) + seq!['/'] + bucket@ + seq!['/']
            + key@,
        endpoint is None ==> r@ == "https://"@ + bucket@ + ".s3.amazonaws.com/"@ + key@,
{
    match endpoint {
        Some(ep) => {
            let mut s = trim_trailing_slashes(ep.as_str());
            s.append("/");
            s.append(bucket);
            s.append("/");
            s.append(key);
            proof {
                reveal_strlit("/");
                assert("/"@ =~= seq!['/']);
                assert(s@ =~= trimmed_slashes(ep@) + seq!['/'] + bucket@ + seq!['/'] + key@);
            }
            s
        },
        None => {
            let mut s = String::from_str("https://");
            s.append(bucket);
            s.append(".s3.amazonaws.com/");
            s.append(key);
            s
        },
    }
}

/// The URL the listing serves an object under: the configured endpoint
/// when there is one, else the canonical public host, then the bucket
/// and the object's name.
pub fn listing_url(endpoint: &Option<String>, bucket: &str, name: &str) -> (r: String)
    ensures
        endpoint matches Some(ep) ==> r@ == ep@ + seq!['/'] + bucket@ + seq!['/'] + name@,
        endpoint is None ==> r@ == "https://s3.amazonaws.com"@ + seq!['/'] + bucket@ + seq!['/']
            + name@,
{
    let mut s = match endpoint {
        Some(ep) => ep.clone(),
        None => String::from_str("https://s3.amazonaws.com"),
    };
    s.append("/");
    s.append(bucket);
    s.append("/");
    s.append(name);
    proof {
        reveal_strlit("/");
        assert("/"@ =~= seq!['/']);
        match endpoint {
            Some(ep) => {
                assert(s@ =~= ep@ + seq!['/'] + bucket@ + seq!['/'] + name@);
            },
            None => {
                assert(s@ =~= "https://s3.amazonaws.com"@ + seq!['/'] + bucket@ + seq!['/']
                    + name@);
            },
        }
    }
    s
}

/// The clip group a key belongs to: its longest slash-free prefix,
/// which is the leading path component for a grouped key and the whole
/// key for a flat one.
pub fn key_group(key: &str) -> (r: String)
    ensures
        r@.len() <= key@.len(),
        r@ == key@.take(r@.len() as int),
        forall|j: int| 0 <= j < r@.len() ==> key@[j] != '/',
        r@.len() < key@.len() ==> key@[r@.len() as int] == '/',
{
    let len = key.unicode_len();
    let mut i: usize = 0;
    while i < len && key.get_char(i) != '/'
        invariant
            i <= len,
            len == key@.len(),
            forall|j: int| 0 <= j < i ==> key@[j] != '/',
        decreases len - i,
    {
        i = i + 1;
    }
    let cut = key.substring_char(0, i);
    String::from_str(cut)
}

/// The artifact's own file name: the part of the key after its last
/// slash, the whole key when it has none.
pub fn key_name(key: &str) -> (r: String)
    ensures
        r@.len() <= key@.len(),
        r@ == key@.skip(key@.len() - r@.len()),
        forall|j: int| key@.len() - r@.len() <= j < key@.len() ==> key@[j] != '/',
        r@.len() < key@.len() ==> key@[key@.len() - r@.len() - 1] == '/',
{
    let len = key.unicode_len();
    let mut start = len;
    while start > 0 && key.get_char(start - 1) != '/'
        invariant
            start <= len,
            len == key@.len(),
            forall|j: int| start <= j < len ==> key@[j] != '/',
        decreases start,
    {
        start = start - 1;
    }
    let cut = key.substring_char(start, len);
    String::from_str(cut)
}

/// The kind of artifact a key names, by its last three characters.
pub open spec fn spec_artifact_kind(key: Seq<char>) -> ArtifactKind {
    if key.len() >= 3 {
        if key.skip(key.len() - 3) == seq!['m', 'p', '4'] {
            ArtifactKind::Video
        } else if key.skip(key.len() - 3) == seq!['s', 'r', 't'] {
            ArtifactKind::Subtitles
        } else if key.skip(key.len() - 3) == seq!['w', 'a', 'v'] {
            ArtifactKind::Audio
        } else {
            ArtifactKind::Other
        }
    } else {
        ArtifactKind::Other
    }
}

/// Classifies an object key by its last three characters; a key too
/// short to have them is no known artifact.
pub fn artifact_kind(key: &str) -> (r: ArtifactKind)
    ensures
        r == spec_artifact_kind(key@),
{
    let len = key.unicode_len();
    if len < 3 {
        return ArtifactKind::Other;
    }
    let c0 = key.get_char(len - 3);
    let c1 = key.get_char(len - 2);
    let c2 = key.get_char(len - 1);
    proof {
        assert(key@.skip(key@.len() - 3) =~= seq![c0, c1, c2]);
    }
    if c0 == 'm' && c1 == 'p' && c2 == '4' {
        ArtifactKind::Video
    } else if c0 == 's' && c1 == 'r' && c2 == 't' {
        ArtifactKind::Subtitles
    } else if c0 == 'w' && c1 == 'a' && c2 == 'v' {
        ArtifactKind::Audio
    } else {
        ArtifactKind::Other
    }
}

/// Judges the publish stage from the per-artifact upload results: one
/// artifact's failed upload never prevents attempting the others, so
/// every result is in by now; the job reports a failure when any
/// upload failed.
pub fn publish_outcome(uploads: &Vec<bool>) -> (r: Result<(), crate::errors::StageError>)
    ensures
        r is Ok <==> (forall|i: int| 0 <= i < uploads@.len() ==> #[trigger] uploads@[i]),
        r matches Err(e) ==> e == crate::errors::StageError::UploadFailed,
{
    let n = uploads.len();
    let mut i: usize = 0;
    while i < n
        invariant
            i <= n,
            n == uploads@.len(),
            forall|j: int| 0 <= j < i ==> #[trigger] uploads@[j],
        decreases n - i,
    {
        if !uploads[i] {
            return Err(crate::errors::StageError::UploadFailed);
        }
        i = i + 1;
    }
    Ok(())
}

/// A calendar year rendered as the prefix needs it: at least four
/// digits, a leading minus for a year before the common era.
pub open spec fn year_seq(y: int) -> Seq<char> {
    if y < 0 {
        seq!['-'] + pad4_seq((-y) as nat)
    } else {
        pad4_seq(y as nat)
    }
}

/// The `YYYY-MM-DD_HH-MM-SS` prefix for given wall-clock fields.
pub open spec fn prefix_seq(year: int, month: nat, day: nat, hour: nat, minute: nat, second: nat) -> Seq<char> {
    year_seq(year) + seq!['-'] + pad2_seq(month) + seq!['-'] + pad2_seq(day) + seq!['_'] + pad2_seq(
        hour,
    ) + seq!['-'] + pad2_seq(minute) + seq!['-'] + pad2_seq(second)
}

/// Relies on chrono::Local::now and chrono's Datelike / Timelike
/// accessors for the wall-clock fields of the current local time:
/// month runs 1 to 12, day of month 1 to 31, hour 0 to 23, minute and
/// second 0 to 59. Nothing more is promised: the clock may read
/// anything.
#[verifier::external_body]
fn local_now_fields() -> (r: (i64, u64, u64, u64, u64, u64))
    ensures
        1 <= r.1 <= 12,
        1 <= r.2 <= 31,
        r.3 <= 23,
        r.4 <= 59,
        r.5 <= 59,
        -2147483648 <= r.0 <= 2147483647,
{
    let now = chrono::Local::now();
    (
        now.year() as i64,
        now.month() as u64,
        now.day() as u64,
        now.hour() as u64,
        now.minute() as u64,
        now.second() as u64,
    )
}

/// Renders wall-clock fields as the `YYYY-MM-DD_HH-MM-SS` prefix, each
/// field zero-padded to its width.
pub fn format_prefix(year: i64, month: u64, day: u64, hour: u64, minute: u64, second: u64) -> (r:
    String)
    requires
        year > i64::MIN,
    ensures
        r@ == prefix_seq(year as int, month as nat, day as nat, hour as nat, minute as nat, second as nat),
{
    let mut s = if year < 0 {
        let mut t = String::from_str("-");
        t.append(u64_to_string_pad4((-year) as u64).as_str());
        proof {
            reveal_strlit("-");
            assert("-"@ =~= seq!['-']);
            assert(t@ =~= year_seq(year as int));
        }
        t
    } else {
        u64_to_string_pad4(year as u64)
    };
    s.append("-");
    s.append(u64_to_string_pad2(month).as_str());
    s.append("-");
    s.append(u64_to_string_pad2(day).as_str());
    s.append("_");
    s.append(u64_to_string_pad2(hour).as_str());
    s.append("-");
    s.append(u64_to_string_pad2(minute).as_str());
    s.append("-");
    s.append(u64_to_string_pad2(second).as_str());
    proof {
        reveal_strlit("-");
        reveal_strlit("_");
        assert("-"@ =~= seq!['-']);
        assert("_"@ =~= seq!['_']);
        assert(s@ =~= prefix_seq(
            year as int,
            month as nat,
            day as nat,
            hour as nat,
            minute as nat,
            second as nat,
        ));
    }
    s
}

/// The timestamp-derived prefix under which one clip's artifacts
/// group: the local wall-clock time as `YYYY-MM-DD_HH-MM-SS`. Two runs
/// may of course read different clocks; whatever was read, the result
/// is that reading, rendered exactly.
pub fn clip_prefix() -> (r: String)
    ensures
        exists|y: int, mo: nat, d: nat, h: nat, mi: nat, s: nat|
            {
                &&& 1 <= mo <= 12
                &&& 1 <= d <= 31
                &&& h <= 23
                &&& mi <= 59
                &&& s <= 59
                &&& r@ == #[trigger] prefix_seq(y, mo, d, h, mi, s)
            },
{
    let (year, month, day, hour, minute, second) = local_now_fields();
    let r = format_prefix(year, month, day, hour, minute, second);
    proof {
        assert(r@ == prefix_seq(
            year as int,
            month as nat,
            day as nat,
            hour as nat,
            minute as nat,
            second as nat,
        ));
    }
    r
}

} // verus!
