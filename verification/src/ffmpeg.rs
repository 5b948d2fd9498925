//! Argument lists for the external transcoding tool, one builder per
//! invocation the pipeline makes. The tool itself runs outside this
//! library; success or failure comes back as an exit status and is
//! judged by `crate::pipeline::tool_outcome`.

use vstd::prelude::*;
use vstd::string::StringExecFns;
use crate::text::dec_seq;
use crate::text::u64_to_string;

verus! {

/// The arguments of the combined first pass over a fresh segment:
/// re-encode the audio track to raw mono 16 kHz PCM for transcription
/// while passing the video through untouched.
pub open spec fn initial_args_ok(args: Seq<&str>, url: Seq<char>) -> bool {
    &&& args.len() == 22
    &&& args[0]@ == "-i"@
    &&& args[1]@ == url
    &&& args[2]@ == "-t"@
    &&& args[3]@ == "5"@
    &&& args[4]@ == "-map"@
    &&& args[5]@ == "0:a"@
    &&& args[6]@ == "-c:a"@
    &&& args[7]@ == "pcm_s16le"@
    &&& args[8]@ == "-ar"@
    &&& args[9]@ == "16000"@
    &&& args[10]@ == "-ac"@
    &&& args[11]@ == "1"@
    &&& args[12]@ == "-f"@
    &&& args[13]@ == "s16le"@
    &&& args[14]@ == "output.raw"@
    &&& args[15]@ == "-map"@
    &&& args[16]@ == "0:v"@
    &&& args[17]@ == "-c:v"@
    &&& args[18]@ == "copy"@
    &&& args[19]@ == "-t"@
    &&& args[20]@ == "5"@
    &&& args[21]@ == "output.mp4"@
}

/// Builds the first-pass arguments for a source URL: raw PCM audio to
/// `output.raw` for the transcriber, video copied to `output.mp4`.
pub fn get_initial_args<'a>(hls_url: &'a str) -> (r: Vec<&'a str>)
    ensures
        initial_args_ok(r@, hls_url@),
{
    let mut v: Vec<&str> = Vec::new();
    v.push("-i");
    v.push(hls_url);
    v.push("-t");
    v.push("5");
    v.push("-map");
    v.push("0:a");
    v.push("-c:a");
    v.push("pcm_s16le");
    v.push("-ar");
    v.push("16000");
    v.push("-ac");
    v.push("1");
    v.push("-f");
    v.push("s16le");
    v.push("output.raw");
    v.push("-map");
    v.push("0:v");
    v.push("-c:v");
    v.push("copy");
    v.push("-t");
    v.push("5");
    v.push("output.mp4");
    v
}

/// The arguments of a stream-copy extraction of one clip window.
pub open spec fn extract_args_ok(
    args: Seq<String>,
    url: Seq<char>,
    output: Seq<char>,
    start: nat,
    duration: nat,
) -> bool {
    &&& args.len() == 10
    &&& args[0]@ == "-y"@
    &&& args[1]@ == "-i"@
    &&& args[2]@ == url
    &&& args[3]@ == "-ss"@
    &&& args[4]@ == dec_seq(start)
    &&& args[5]@ == "-t"@
    &&& args[6]@ == dec_seq(duration)
    &&& args[7]@ == "-c"@
    &&& args[8]@ == "copy"@
    &&& args[9]@ == output
}

/// Builds the extraction arguments: cut `duration` seconds starting at
/// `start` from the live source into `output_path`, copying codecs so
/// no re-encode slows the cut.
pub fn extract_args(video_url: &str, output_path: &str, start: u64, duration: u64) -> (r: Vec<
    String,
>)
    ensures
        extract_args_ok(r@, video_url@, output_path@, start as nat, duration as nat),
{
    let mut v: Vec<String> = Vec::new();
    v.push(String::from_str("-y"));
    v.push(String::from_str("-i"));
    v.push(String::from_str(video_url));
    v.push(String::from_str("-ss"));
    v.push(u64_to_string(start));
    v.push(String::from_str("-t"));
    v.push(u64_to_string(duration));
    v.push(String::from_str("-c"));
    v.push(String::from_str("copy"));
    v.push(String::from_str(output_path));
    v
}

/// The arguments of the raw-PCM-to-WAV conversion.
pub open spec fn wav_args_ok(args: Seq<&str>) -> bool {
    &&& args.len() == 11
    &&& args[0]@ == "-f"@
    &&& args[1]@ == "s16le"@
    &&& args[2]@ == "-ar"@
    &&& args[3]@ == "16000"@
    &&& args[4]@ == "-ac"@
    &&& args[5]@ == "1"@
    &&& args[6]@ == "-t"@
    &&& args[7]@ == "5"@
    &&& args[8]@ == "-i"@
    &&& args[9]@ == "output.raw"@
    &&& args[10]@ == "output.wav"@
}

/// Builds the arguments that turn the transcription pass's raw PCM
/// audio into `output.wav`.
pub fn wav_args() -> (r: Vec<&'static str>)
    ensures
        wav_args_ok(r@),
{
    let mut v: Vec<&str> = Vec::new();
    v.push("-f");
    v.push("s16le");
    v.push("-ar");
    v.push("16000");
    v.push("-ac");
    v.push("1");
    v.push("-t");
    v.push("5");
    v.push("-i");
    v.push("output.raw");
    v.push("output.wav");
    v
}

/// The arguments of the subtitle burn-in pass.
pub open spec fn subtitle_mux_args_ok(args: Seq<String>, video: Seq<char>, subs: Seq<char>) -> bool {
    &&& args.len() == 8
    &&& args[0]@ == "-y"@
    &&& args[1]@ == "-i"@
    &&& args[2]@ == video
    &&& args[3]@ == "-vf"@
    &&& args[4]@ == "subtitles='"@ + subs + "'"@
    &&& args[5]@ == "-t"@
    &&& args[6]@ == "5"@
    &&& args[7]@ == "output_with_subtitles.mp4"@
}

/// Builds the arguments that burn the subtitle file onto the extracted
/// video, producing `output_with_subtitles.mp4`.
pub fn subtitle_mux_args(video_path: &str, subtitle_path: &str) -> (r: Vec<String>)
    ensures
        subtitle_mux_args_ok(r@, video_path@, subtitle_path@),
{
    let mut filter = String::from_str("subtitles='");
    filter.append(subtitle_path);
    filter.append("'");
    let mut v: Vec<String> = Vec::new();
    v.push(String::from_str("-y"));
    v.push(String::from_str("-i"));
    v.push(String::from_str(video_path));
    v.push(String::from_str("-vf"));
    v.push(filter);
    v.push(String::from_str("-t"));
    v.push(String::from_str("5"));
    v.push(String::from_str("output_with_subtitles.mp4"));
    v
}

/// The arguments of the audio-replacement pass.
pub open spec fn audio_mux_args_ok(args: Seq<&str>, video: Seq<char>, audio: Seq<char>) -> bool {
    &&& args.len() == 11
    &&& args[0]@ == "-y"@
    &&& args[1]@ == "-i"@
    &&& args[2]@ == video
    &&& args[3]@ == "-i"@
    &&& args[4]@ == audio
    &&& args[5]@ == "-c"@
    &&& args[6]@ == "copy"@
    &&& args[7]@ == "-map"@
    &&& args[8]@ == "0:v:0"@
    &&& args[9]@ == "-map"@
    &&& args[10]@ == "1:a:0"@
}

/// Builds the arguments that attach the re-encoded audio track onto the
/// subtitle-muxed video, copying codecs; the output path comes last.
pub fn audio_mux_args<'a>(video_path: &'a str, audio_path: &'a str) -> (r: Vec<&'a str>)
    ensures
        r@.len() == 12,
        audio_mux_args_ok(r@.take(11), video_path@, audio_path@),
        r@[11]@ == "output_with_audio.mp4"@,
{
    let mut v: Vec<&str> = Vec::new();
    v.push("-y");
    v.push("-i");
    v.push(video_path);
    v.push("-i");
    v.push(audio_path);
    v.push("-c");
    v.push("copy");
    v.push("-map");
    v.push("0:v:0");
    v.push("-map");
    v.push("1:a:0");
    v.push("output_with_audio.mp4");
    v
}

} // verus!
