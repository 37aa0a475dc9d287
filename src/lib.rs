//! Playback engine of a streaming music player: the tracklist with its
//! cursor, the command state machine that drives the audio sink and the
//! downloader, the sink's position accounting, the time-stretch block
//! arithmetic, the persisted settings and the small caches around them.

pub mod models;
pub mod tracklist;
pub mod stretch;
pub mod sink;
pub mod player;
pub mod downloader;
pub mod cache;
pub mod playlist_edit;
pub mod store;
pub mod format;
pub mod device_monitor;
