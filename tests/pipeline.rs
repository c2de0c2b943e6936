use cantdrown::{
    get_playlist_videos, metadata_from_resolver, metadata_resolver_args, parse_metadata,
    playlist_resolver_args, resolver_program, seek_text, stream_resolver_args, transcoder_args,
    transcoder_program, first_record, Metadata, SeekOffset, SourceError,
};

fn strings(v: &[&str]) -> Vec<String> {
    v.iter().map(|s| s.to_string()).collect()
}

#[test]
fn seek_restart_uses_three_decimal_offset() {
    let o = SeekOffset { secs: 12, nanos: 345_000_000 };
    let args = transcoder_args(Some(o));
    assert_eq!(args[0], "-ss");
    assert_eq!(args[1], "12.345");
    assert_eq!(args[2], "-i");
    assert_eq!(args[3], "-");
}

#[test]
fn seek_text_rounds_to_millis() {
    assert_eq!(seek_text(SeekOffset { secs: 0, nanos: 0 }), "0.000");
    assert_eq!(seek_text(SeekOffset { secs: 1, nanos: 500_000 }), "1.001");
    assert_eq!(seek_text(SeekOffset { secs: 1, nanos: 499_999 }), "1.000");
    assert_eq!(seek_text(SeekOffset { secs: 59, nanos: 999_600_000 }), "60.000");
    assert_eq!(seek_text(SeekOffset { secs: 3600, nanos: 50_000_000 }), "3600.050");
}

#[test]
fn seek_text_carries_overfull_nanos() {
    assert_eq!(seek_text(SeekOffset { secs: 1, nanos: 1_500_000_000 }), "2.500");
    assert_eq!(seek_text(SeekOffset { secs: 0, nanos: u32::MAX }), "4.295");
}

#[test]
fn transcoder_args_without_seek() {
    let expected = strings(&[
        "-i", "-", "-f", "s16le", "-ac", "2", "-ar", "48000", "-acodec", "pcm_f32le", "-af",
        "loudnorm=I=-16:LRA=11:TP=-1.5", "-",
    ]);
    assert_eq!(transcoder_args(None), expected);
}

#[test]
fn resolver_args_for_each_mode() {
    let sel = [
        "-f", "webm[abr>0]/bestaudio/best", "-R", "infinite", "--no-playlist", "--ignore-config",
        "--no-warnings",
    ];
    let mut stream = vec!["--print-json"];
    stream.extend_from_slice(&sel);
    stream.extend_from_slice(&["https://x/y", "-o", "-"]);
    assert_eq!(stream_resolver_args("https://x/y"), strings(&stream));

    let mut meta = vec!["-j"];
    meta.extend_from_slice(&sel);
    meta.extend_from_slice(&["https://x/y", "-o", "-"]);
    assert_eq!(metadata_resolver_args("https://x/y"), strings(&meta));

    assert_eq!(
        playlist_resolver_args("https://x/list"),
        strings(&["-J", "--flat-playlist", "https://x/list", "-o", "-"])
    );
    assert_eq!(resolver_program(), "youtube-dl");
    assert_eq!(transcoder_program(), "ffmpeg");
}

#[test]
fn first_record_stops_at_newline() {
    assert_eq!(first_record(b"{\"a\":1}\nrest"), b"{\"a\":1}");
    assert_eq!(first_record(b"no newline"), b"no newline");
    assert_eq!(first_record(b""), b"");
    assert_eq!(first_record(b"\nx"), b"");
}

#[test]
fn metadata_from_record_line() {
    let diag = b"{\"title\":\"Song\",\"webpage_url\":\"https://v/1\",\"duration\":212}\nDOWNLOADING";
    let m: Metadata = parse_metadata(diag).unwrap();
    assert_eq!(m.title.as_deref(), Some("Song"));
    assert_eq!(m.source_url.as_deref(), Some("https://v/1"));
    assert_eq!(m.duration.as_deref(), Some("212"));
    assert_eq!(m.record, b"{\"title\":\"Song\",\"webpage_url\":\"https://v/1\",\"duration\":212}".to_vec());
}

#[test]
fn metadata_missing_fields_are_none() {
    let m = parse_metadata(b"{\"title\":5,\"duration\":\"long\"}").unwrap();
    assert_eq!(m.title, None);
    assert_eq!(m.source_url, None);
    assert_eq!(m.duration, None);
}

#[test]
fn metadata_fractional_duration_kept_as_written() {
    let m = parse_metadata(b"{\"duration\":12.5}\n").unwrap();
    assert_eq!(m.duration.as_deref(), Some("12.5"));
}

#[test]
fn truncated_record_is_parse_failure_with_raw_bytes() {
    let diag = b"{\"title\":\"So";
    assert_eq!(
        parse_metadata(diag),
        Err(SourceError::MetadataParseFailure { raw: diag.to_vec() })
    );
}

#[test]
fn non_json_record_is_parse_failure_with_raw_bytes() {
    let diag: &[u8] = &[0xff, 0xfe, b'x', b'\n', b'{', b'}'];
    assert_eq!(
        parse_metadata(diag),
        Err(SourceError::MetadataParseFailure { raw: diag.to_vec() })
    );
}

#[test]
fn empty_or_non_object_record_is_parse_failure() {
    assert_eq!(parse_metadata(b""), Err(SourceError::NoDiagnosticOutput));
    assert_eq!(metadata_from_resolver(true, b""), Err(SourceError::NoDiagnosticOutput));
    assert_eq!(metadata_from_resolver(false, b""), Err(SourceError::UpstreamResolutionFailure));
    assert_eq!(
        parse_metadata(b"[1,2]\n"),
        Err(SourceError::MetadataParseFailure { raw: b"[1,2]\n".to_vec() })
    );
}

#[test]
fn failed_resolver_without_record_is_upstream_failure() {
    assert_eq!(
        metadata_from_resolver(false, b"ERROR: Unsupported URL\n"),
        Err(SourceError::UpstreamResolutionFailure)
    );
    assert_eq!(
        metadata_from_resolver(true, b"ERROR: Unsupported URL\n"),
        Err(SourceError::MetadataParseFailure { raw: b"ERROR: Unsupported URL\n".to_vec() })
    );
    let m = metadata_from_resolver(false, b"{\"title\":\"T\"}\n").unwrap();
    assert_eq!(m.title.as_deref(), Some("T"));
}

#[test]
fn playlist_skips_entries_without_url() {
    let listing = br#"{"entries":[{"url":"A"}, {}, {"url":"B"}]}"#;
    assert_eq!(
        get_playlist_videos(listing).unwrap(),
        vec![Some("A".to_string()), None, Some("B".to_string())]
    );
}

#[test]
fn playlist_with_no_entries_is_empty() {
    assert_eq!(get_playlist_videos(br#"{"entries":[]}"#).unwrap(), Vec::<Option<String>>::new());
}

#[test]
fn playlist_without_entries_array_is_error() {
    for listing in [&br#"{"title":"x"}"#[..], br#"{"entries":3}"#, b"[1]", b"{}"] {
        assert_eq!(
            get_playlist_videos(listing),
            Err(SourceError::MetadataParseFailure { raw: listing.to_vec() })
        );
    }
}

#[test]
fn playlist_non_text_url_is_none() {
    let listing = br#"{"entries":[{"url":7}, 3, {"url":"C","id":"c"}]}"#;
    assert_eq!(
        get_playlist_videos(listing).unwrap(),
        vec![None, None, Some("C".to_string())]
    );
}

#[test]
fn unparseable_listing_is_error() {
    let listing = b"ERROR: not a playlist";
    assert_eq!(
        get_playlist_videos(listing),
        Err(SourceError::MetadataParseFailure { raw: listing.to_vec() })
    );
}
