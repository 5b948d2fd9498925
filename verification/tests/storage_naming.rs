use clip_pipeline::errors::StageError;
use clip_pipeline::ffmpeg::{
    audio_mux_args, extract_args, get_initial_args, subtitle_mux_args, wav_args,
};
use clip_pipeline::storage::{
    artifact_kind, clip_prefix, key_group, key_name, listing_url, object_key, publish_outcome,
    trim_resolved_url, trim_trailing_slashes, upload_url, ArtifactKind, Clip,
};

#[test]
fn object_keys_group_under_a_prefix() {
    assert_eq!(object_key("2024-05-01_10-00-00", "output.wav"), "2024-05-01_10-00-00/output.wav");
}

#[test]
fn upload_url_trims_the_endpoint() {
    assert_eq!(
        upload_url(&Some("http://127.0.0.1:9000///".to_string()), "clips", "a/b.mp4"),
        "http://127.0.0.1:9000/clips/a/b.mp4"
    );
}

#[test]
fn upload_url_defaults_to_the_bucket_host() {
    assert_eq!(upload_url(&None, "clips", "a.mp4"), "https://clips.s3.amazonaws.com/a.mp4");
}

#[test]
fn listing_url_uses_endpoint_or_public_host() {
    assert_eq!(
        listing_url(&Some("http://127.0.0.1:9000".to_string()), "clips", "clip1.mp4"),
        "http://127.0.0.1:9000/clips/clip1.mp4"
    );
    assert_eq!(
        listing_url(&None, "clips", "clip1.mp4"),
        "https://s3.amazonaws.com/clips/clip1.mp4"
    );
}

#[test]
fn keys_dissect_into_group_name_and_kind() {
    assert_eq!(key_group("2024-05-01_10-00-00/clip.mp4"), "2024-05-01_10-00-00");
    assert_eq!(key_group("flat.mp4"), "flat.mp4");
    assert_eq!(key_name("2024/a/clip.mp4"), "clip.mp4");
    assert_eq!(key_name("clip.mp4"), "clip.mp4");
    assert_eq!(artifact_kind("x/output_with_audio.mp4"), ArtifactKind::Video);
    assert_eq!(artifact_kind("x/transcribed_message.srt"), ArtifactKind::Subtitles);
    assert_eq!(artifact_kind("x/output.wav"), ArtifactKind::Audio);
    assert_eq!(artifact_kind("notes.txt"), ArtifactKind::Other);
    assert_eq!(artifact_kind("ab"), ArtifactKind::Other);
}

#[test]
fn clip_entries_carry_group_and_url() {
    let key = "2024-05-01_10-00-00/output_with_audio.mp4";
    let clip = Clip {
        id: key_group(key),
        s3_url: listing_url(&Some("http://127.0.0.1:9000".to_string()), "clips", &key_name(key)),
    };
    assert_eq!(clip.id, "2024-05-01_10-00-00");
    assert_eq!(clip.s3_url, "http://127.0.0.1:9000/clips/output_with_audio.mp4");
}

#[test]
fn resolver_output_is_trimmed_before_use() {
    assert_eq!(trim_resolved_url("https://example/stream.m3u8\r\n"), "https://example/stream.m3u8");
    assert_eq!(trim_resolved_url("plain"), "plain");
    assert_eq!(trim_trailing_slashes("http://h//"), "http://h");
    assert_eq!(trim_trailing_slashes("http://h"), "http://h");
}

#[test]
fn clip_prefix_reads_like_a_wall_clock() {
    let p = clip_prefix();
    let chars: Vec<char> = p.chars().collect();
    assert_eq!(chars.len(), 19);
    for (i, c) in chars.iter().enumerate() {
        match i {
            4 | 7 | 13 | 16 => assert_eq!(*c, '-'),
            10 => assert_eq!(*c, '_'),
            _ => assert!(c.is_ascii_digit()),
        }
    }
    // month and day fields are in calendar range
    let month: u32 = p[5..7].parse().unwrap();
    let day: u32 = p[8..10].parse().unwrap();
    assert!((1..=12).contains(&month));
    assert!((1..=31).contains(&day));
}

#[test]
fn one_failed_upload_fails_the_publish_stage() {
    assert!(publish_outcome(&vec![true, true, true]).is_ok());
    assert!(matches!(
        publish_outcome(&vec![true, false, true]),
        Err(StageError::UploadFailed)
    ));
    assert!(publish_outcome(&Vec::new()).is_ok());
}

#[test]
fn initial_args_are_exact() {
    let args = get_initial_args("https://h/stream.m3u8");
    let expected = vec![
        "-i",
        "https://h/stream.m3u8",
        "-t",
        "5",
        "-map",
        "0:a",
        "-c:a",
        "pcm_s16le",
        "-ar",
        "16000",
        "-ac",
        "1",
        "-f",
        "s16le",
        "output.raw",
        "-map",
        "0:v",
        "-c:v",
        "copy",
        "-t",
        "5",
        "output.mp4",
    ];
    assert_eq!(args, expected);
}

#[test]
fn extract_args_format_the_window() {
    let args = extract_args("url", "highlight_clip.mp4", 0, 30);
    let expected =
        vec!["-y", "-i", "url", "-ss", "0", "-t", "30", "-c", "copy", "highlight_clip.mp4"];
    assert_eq!(args, expected);
}

#[test]
fn wav_args_are_exact() {
    let expected = vec![
        "-f", "s16le", "-ar", "16000", "-ac", "1", "-t", "5", "-i", "output.raw", "output.wav",
    ];
    assert_eq!(wav_args(), expected);
}

#[test]
fn subtitle_mux_args_quote_the_filter() {
    let args = subtitle_mux_args("output.mp4", "transcribed_message.srt");
    let expected = vec![
        "-y",
        "-i",
        "output.mp4",
        "-vf",
        "subtitles='transcribed_message.srt'",
        "-t",
        "5",
        "output_with_subtitles.mp4",
    ];
    assert_eq!(args, expected);
}

#[test]
fn audio_mux_args_map_both_streams() {
    let args = audio_mux_args("output_with_subtitles.mp4", "output.wav");
    let expected = vec![
        "-y",
        "-i",
        "output_with_subtitles.mp4",
        "-i",
        "output.wav",
        "-c",
        "copy",
        "-map",
        "0:v:0",
        "-map",
        "1:a:0",
        "output_with_audio.mp4",
    ];
    assert_eq!(args, expected);
}
