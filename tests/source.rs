use cantdrown::{
    parse_metadata, RestartableSource, SeekOffset, SourceError, SourceState,
};

fn meta(title: &str) -> cantdrown::Metadata {
    let rec = format!("{{\"title\":\"{}\"}}", title);
    parse_metadata(rec.as_bytes()).unwrap()
}

#[test]
fn new_source_is_uninitialized_and_not_readable() {
    let s = RestartableSource::new("https://v/1".to_string());
    assert_eq!(s.state, SourceState::Uninitialized);
    assert_eq!(s.audio_pipeline(), Err(SourceError::NotLive));
    assert_eq!(s.metadata(), Err(SourceError::NoMetadata));
    assert_eq!(s.held_pipeline(), None);
}

#[test]
fn metadata_only_source_is_not_readable() {
    let s = RestartableSource::construct_lazy("u".to_string(), Ok(meta("A")));
    assert_eq!(s.metadata().unwrap().title.as_deref(), Some("A"));
    assert_eq!(s.audio_pipeline(), Err(SourceError::NotLive));
}

#[test]
fn lazy_construction_failure_is_failed() {
    let s = RestartableSource::construct_lazy("u".to_string(), Err(SourceError::ProcessSpawnFailure));
    assert_eq!(s.state, SourceState::Failed(SourceError::ProcessSpawnFailure));
    assert_eq!(s.metadata(), Err(SourceError::NoMetadata));
}

#[test]
fn restart_then_seek_keeps_one_pipeline() {
    let mut s = RestartableSource::new("https://v/1".to_string());
    let first = s.restart(None);
    assert_eq!(first.retire, None);
    assert_eq!(s.held_pipeline(), Some(first.pipeline));
    assert!(s.is_spawn_pending());
    assert_eq!(first.transcoder_args[0], "-i");
    s.finish_restart(Ok(meta("one")));
    assert_eq!(s.audio_pipeline(), Ok(first.pipeline));

    let second = s.restart(Some(SeekOffset { secs: 12, nanos: 345_000_000 }));
    assert_eq!(second.retire, Some(first.pipeline));
    assert_ne!(second.pipeline, first.pipeline);
    assert_eq!(second.transcoder_args[0], "-ss");
    assert_eq!(second.transcoder_args[1], "12.345");
    assert_eq!(second.resolver_args[8], "https://v/1");
    assert_eq!(s.held_pipeline(), Some(second.pipeline));
    assert_eq!(s.audio_pipeline(), Err(SourceError::NotLive));
}

#[test]
fn back_to_back_restarts_retire_the_pending_one() {
    let mut s = RestartableSource::new("u".to_string());
    let first = s.restart(None);
    let second = s.restart(Some(SeekOffset { secs: 1, nanos: 0 }));
    assert_eq!(second.retire, Some(first.pipeline));
    assert_ne!(second.pipeline, first.pipeline);
}

#[test]
fn metadata_follows_latest_spawn() {
    let mut s = RestartableSource::construct_lazy("u".to_string(), Ok(meta("lazy")));
    s.restart(None);
    assert_eq!(s.metadata(), Err(SourceError::NoMetadata));
    s.finish_restart(Ok(meta("first")));
    assert_eq!(s.metadata().unwrap().title.as_deref(), Some("first"));
    s.restart(Some(SeekOffset { secs: 30, nanos: 0 }));
    s.finish_restart(Ok(meta("second")));
    assert_eq!(s.metadata().unwrap().title.as_deref(), Some("second"));
}

#[test]
fn failed_restart_drops_previous_pipeline() {
    let mut s = RestartableSource::new("u".to_string());
    let first = s.restart(None);
    s.finish_restart(Ok(meta("x")));
    let second = s.restart(None);
    assert_eq!(second.retire, Some(first.pipeline));
    s.finish_restart(Err(SourceError::PipeUnavailable));
    assert_eq!(s.state, SourceState::Failed(SourceError::PipeUnavailable));
    assert_eq!(s.held_pipeline(), None);
    assert_eq!(s.audio_pipeline(), Err(SourceError::NotLive));
    let third = s.restart(None);
    assert_eq!(third.retire, None);
}

#[test]
fn pipeline_numbers_wrap_without_repeating_the_held_one() {
    let mut s = RestartableSource::new("u".to_string());
    s.generation = u64::MAX;
    let order = s.restart(None);
    assert_eq!(order.pipeline, 0);
}
