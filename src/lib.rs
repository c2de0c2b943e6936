//! Managed transcoding pipeline: the decisions behind turning a media locator
//! into a restartable, loudness-normalised raw audio stream, with the rate
//! limiting, playlist expansion and chat-side helpers around it.

pub mod command_line;
pub mod doom;
pub mod error;
pub mod json;
pub mod metadata;
pub mod playlist;
pub mod rate_gate;
pub mod replies;
pub mod source;
pub mod text;

pub use command_line::{
    SeekOffset, metadata_resolver_args, playlist_resolver_args, push_decimal, resolver_program,
    seek_text, stream_resolver_args, transcoder_args, transcoder_program,
};
pub use doom::{
    DoomConfig, DoomConfigInit, IWads, download_url, extract_dir, extract_dir_for,
    get_dropbox_download_url, get_google_drive_download_url, get_idgames_download_url, server_name,
};
pub use error::SourceError;
pub use metadata::{Metadata, first_record, metadata_from_resolver, parse_metadata};
pub use playlist::get_playlist_videos;
pub use rate_gate::{
    Bucket, GateStep, MAX_WINDOW_SECS, RESOLVER_GRANTS, RESOLVER_WINDOW_SECS, RateGate,
    RateLimiterInit, Wait, lemma_burst_bound, lemma_grants_per_span, lemma_window_bound,
};
pub use replies::{RoleChange, drown, queued_message, role_change, role_change_message};
pub use source::{
    OrderModel, RestartableSource, SourceState, SpawnOrder, lemma_metadata_from_latest_spawn,
    lemma_restart_retires_previous,
};
pub use text::{contains_text, find_text, same_text};
