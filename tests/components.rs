use qobuz_player::device_monitor::{DeviceMonitor, MonitorAction};
use qobuz_player::models::AudioDevice;
use qobuz_player::cache::LibraryCache;
use qobuz_player::downloader::{DownloadAction, Downloader};
use qobuz_player::format::{format_duration, mseconds_to_mm_ss};
use qobuz_player::models::{Album, AlbumSimple, QueryTrackResult, Track, TrackStatus};
use qobuz_player::player::reload_start_position;
use qobuz_player::sink::{chain_decision, device_to_use, is_device_error, volume_curve, SinkClock};
use qobuz_player::store::{
    audio_quality_display, link_request_from_row, password_hash, reference_row, AudioQuality,
    DatabaseConfiguration, LinkRequest, ReferenceType,
};
use qobuz_player::stretch::{
    clamp_cents, clamp_semitones, current_span_len, display_duration_ms, normalize_ratio, output_frames,
    plan_block, source_position_ms, BlockPlan,
};
use qobuz_player::tracklist::{check_permutation, Tracklist, TracklistType};

#[test]
fn one_fetch_per_track() {
    let mut downloader = Downloader::new();
    assert_eq!(downloader.request(7, false), DownloadAction::Start);
    assert_eq!(downloader.request(7, false), DownloadAction::Join);
    assert_eq!(downloader.request(8, false), DownloadAction::Start);
    assert_eq!(downloader.request(9, true), DownloadAction::Ready);
    downloader.finished(7);
    assert!(!downloader.is_in_flight(7));
    assert!(downloader.is_in_flight(8));
    assert_eq!(downloader.request(7, false), DownloadAction::Start);
}

#[test]
fn library_cache_expires() {
    let mut cache: LibraryCache<u32> = LibraryCache::new();
    assert_eq!(cache.get(1000, 0), None);
    cache.set(42, 5000);
    assert_eq!(cache.get(1000, 5999), Some(&42));
    assert_eq!(cache.get(1000, 6000), None);
    assert_eq!(cache.get(1000, 4000), Some(&42));
    cache.clear();
    assert_eq!(cache.get(1000, 5000), None);
}

#[test]
fn sink_position_accounts_for_chained_tracks() {
    let mut clock = SinkClock::new();
    assert_eq!(clock.position(3000), 3000);
    clock.track_completed(180_000);
    assert_eq!(clock.position(180_000), 0);
    assert_eq!(clock.position(181_500), 1500);
    assert_eq!(clock.position(100), 0);
    clock.adjust_position_offset_ms(-500);
    assert_eq!(clock.position(180_200), 0);
    assert_eq!(clock.position(181_500), 1000);
    clock.adjust_position_offset_ms(i64::MIN);
    assert_eq!(clock.position_offset_ms, i64::MIN);
    clock.restart();
    assert_eq!(clock.position(2500), 2500);
}

#[test]
fn chaining_follows_sample_rate() {
    assert_eq!(chain_decision(None, 44_100), QueryTrackResult::Queued);
    assert_eq!(chain_decision(Some(44_100), 44_100), QueryTrackResult::Queued);
    assert_eq!(chain_decision(Some(44_100), 96_000), QueryTrackResult::RecreateStreamRequired);
}

#[test]
fn stream_device_choice() {
    assert_eq!(device_to_use(Some("X".to_string()), Some("Default".to_string())), Some("X".to_string()));
    assert_eq!(device_to_use(None, Some("Default".to_string())), Some("Default".to_string()));
    assert_eq!(device_to_use(None, None), None);
}

#[test]
fn device_errors_are_recognised() {
    assert!(is_device_error("The requested device is no longer available"));
    assert!(is_device_error("Failed to open device Speakers: busy"));
    assert!(is_device_error("stream no longer available"));
    assert!(!is_device_error("Failed to read file"));
    assert!(!is_device_error(""));
}

#[test]
fn volume_is_cubed() {
    assert_eq!(volume_curve(0), 0);
    assert_eq!(volume_curve(500), 125_000_000);
    assert_eq!(volume_curve(1000), 1_000_000_000);
    assert_eq!(volume_curve(1500), 1_000_000_000);
}

#[test]
fn stretch_settings_are_clamped() {
    assert_eq!(normalize_ratio(100), 500);
    assert_eq!(normalize_ratio(1500), 1500);
    assert_eq!(normalize_ratio(9000), 2000);
    assert_eq!(clamp_semitones(-40), -12);
    assert_eq!(clamp_semitones(5), 5);
    assert_eq!(clamp_cents(101), 100);
}

#[test]
fn stretch_block_arithmetic() {
    assert_eq!(output_frames(2048, 1000), 2048);
    assert_eq!(output_frames(2048, 500), 4096);
    assert_eq!(output_frames(2048, 2000), 1024);
    assert_eq!(output_frames(2048, 1500), 1365);
    assert_eq!(output_frames(3, 2000), 2);
    assert_eq!(output_frames(0, 2000), 1);
    assert_eq!(plan_block(4096, false, 100, 1000), BlockPlan::Process { input_frames: 2048, output_frames: 2048 });
    assert_eq!(plan_block(0, true, 100, 1000), BlockPlan::Flush { frames: 100 });
    assert_eq!(plan_block(0, true, 9000, 1000), BlockPlan::Flush { frames: 4096 });
    assert_eq!(plan_block(0, true, 0, 1000), BlockPlan::Finished);
    assert_eq!(plan_block(1, false, 0, 1000), BlockPlan::Idle);
    assert_eq!(current_span_len(5, 5, true), Some(0));
    assert_eq!(current_span_len(2, 10, false), Some(8));
    assert_eq!(current_span_len(10, 10, false), None);
}

#[test]
fn stretched_durations_and_positions() {
    assert_eq!(display_duration_ms(60_000, 1500), 40_000);
    assert_eq!(display_duration_ms(10_000, 1000), 10_000);
    assert_eq!(source_position_ms(40_000, 1500), 60_000);
    assert_eq!(reload_start_position(10_000, Some(1000), 1500), Some(6666));
    assert_eq!(reload_start_position(10_000, None, 1500), Some(10_000));
    assert_eq!(reload_start_position(0, Some(1000), 1500), None);
}

#[test]
fn clock_renderings() {
    assert_eq!(mseconds_to_mm_ss(0), "00:00");
    assert_eq!(mseconds_to_mm_ss(65_999), "01:05");
    assert_eq!(mseconds_to_mm_ss(6_000_000), "100:00");
    assert_eq!(format_duration(59), "00:59");
    assert_eq!(format_duration(754), "12:34");
    assert_eq!(format_duration(3661), "1:01:01");
}

#[test]
fn audio_quality_ids_and_display() {
    assert_eq!(AudioQuality::HIFI192.id(), 27);
    assert_eq!(AudioQuality::from_id(6), Some(AudioQuality::CD));
    assert_eq!(AudioQuality::from_id(3), None);
    assert!(AudioQuality::Mp3 < AudioQuality::HIFI96);
    let display = audio_quality_display(AudioQuality::CD);
    assert_eq!(display.icon, "/assets/svg/cd.svg");
    assert_eq!(display.line1, "CD 16 bit");
    assert_eq!(display.line2, "44.1kHz");
    assert_eq!(audio_quality_display(AudioQuality::Mp3).line2, "");
}

#[test]
fn rfid_bindings_round_trip_through_rows() {
    let row = reference_row(ReferenceType::Playlist(12));
    assert_eq!(row.reference_type, 2);
    assert_eq!(link_request_from_row(row.reference_type, row.album_id, row.playlist_id.map(|p| p as i64)), Some(LinkRequest::Playlist(12)));
    let row = reference_row(ReferenceType::Album("abc".to_string()));
    assert_eq!(row.reference_type, 1);
    assert_eq!(link_request_from_row(1, row.album_id, None), Some(LinkRequest::Album("abc".to_string())));
    assert_eq!(link_request_from_row(3, Some("abc".to_string()), None), None);
    assert_eq!(link_request_from_row(2, None, Some(-1)), None);
}

#[test]
fn configuration_defaults_and_ranges() {
    let config = DatabaseConfiguration::from_row(6, None, Some(3), None, None, Some(250));
    assert_eq!(config.time_stretch_ratio, 1000);
    assert_eq!(config.pitch_semitones, 0);
    assert_eq!(config.pitch_cents, 100);
    assert_eq!(config.preferred_genre_id, Some(3));
    let config = DatabaseConfiguration::from_row(6, Some("X".to_string()), None, Some(300), Some(-20), None);
    assert_eq!(config.time_stretch_ratio, 500);
    assert_eq!(config.pitch_semitones, -12);
    assert_eq!(config.audio_device_name, Some("X".to_string()));
}

#[test]
fn password_is_stored_as_md5_hex() {
    assert_eq!(password_hash("password"), "5f4dcc3b5aa765d61d8327deb882cf99");
    assert_eq!(password_hash(""), "d41d8cd98f00b204e9800998ecf8427e");
}

#[test]
fn permutation_check() {
    assert!(check_permutation(&vec![2, 0, 1], 3));
    assert!(!check_permutation(&vec![0, 0, 1], 3));
    assert!(!check_permutation(&vec![0, 1, 3], 3));
    assert!(!check_permutation(&vec![0, 1], 3));
}

#[test]
fn tracklist_cursor_moves_and_resets() {
    let tracks: Vec<Track> = (1..=3).map(|id| Track { id, ..Default::default() }).collect();
    let mut tracklist = Tracklist { queue: tracks, list_type: TracklistType::Queue };
    assert_eq!(tracklist.current_position(), 0);
    assert!(tracklist.current_track().is_none());
    assert_eq!(tracklist.skip_to_track(1), Some(1));
    let statuses: Vec<TrackStatus> = tracklist.queue.iter().map(|t| t.status).collect();
    assert_eq!(statuses, vec![TrackStatus::Played, TrackStatus::Playing, TrackStatus::Unplayed]);
    assert_eq!(tracklist.next_track().unwrap().id, 3);
    assert!(tracklist.is_single_cursor());
    assert_eq!(tracklist.skip_to_track(-1), None);
    assert!(tracklist.queue.iter().all(|t| t.status == TrackStatus::Unplayed));
    tracklist.queue[0].status = TrackStatus::Playing;
    tracklist.queue[2].status = TrackStatus::Playing;
    assert!(!tracklist.is_single_cursor());
}

#[test]
fn album_simplifies() {
    let album = Album { id: "x".to_string(), title: "T".to_string(), release_year: 1999, ..Default::default() };
    let simple = AlbumSimple::from(album);
    assert_eq!(simple.id, "x");
    assert_eq!(simple.release_year, 1999);
}

#[test]
fn device_monitor_reacts_to_removed_and_default_devices() {
    let mut monitor = DeviceMonitor::new();
    let two = vec![AudioDevice { name: "A".to_string() }, AudioDevice { name: "B".to_string() }];
    let one = vec![AudioDevice { name: "A".to_string() }];

    assert_eq!(
        monitor.observe(&two, &None, Some("A".to_string())),
        vec![
            MonitorAction::DeviceListUpdated,
            MonitorAction::DefaultDeviceAppeared("A".to_string()),
            MonitorAction::FollowDefault,
        ]
    );
    assert_eq!(monitor.observe(&two, &None, Some("A".to_string())), vec![]);
    assert_eq!(
        monitor.observe(&one, &Some("B".to_string()), Some("B".to_string())),
        vec![MonitorAction::DeviceListUpdated, MonitorAction::SavedDeviceRemoved("B".to_string())]
    );
    assert_eq!(
        monitor.observe(&one, &None, None),
        vec![MonitorAction::DefaultDeviceRemoved, MonitorAction::FollowDefault]
    );
    assert_eq!(monitor.observe(&one, &None, Some("A".to_string())).len(), 2);
    assert_eq!(
        monitor.observe(&one, &None, Some("C".to_string())),
        vec![MonitorAction::DefaultDeviceChanged("C".to_string()), MonitorAction::FollowDefault]
    );
}

#[test]
fn stretch_config_defaults_to_neutral() {
    let config = qobuz_player::stretch::PlaybackStretchConfig::default();
    assert_eq!(config.time_stretch_ratio, 1000);
    assert_eq!(config.pitch_semitones, 0);
    assert_eq!(config.pitch_cents, 0);
}
