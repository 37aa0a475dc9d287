use qobuz_player::models::{Album, Playlist, QueryTrackResult, Status, Track, TrackStatus};
use qobuz_player::player::{DeviceSwitch, Effect, Notice, Player, SinkOutcome};
use qobuz_player::tracklist::{Tracklist, TracklistType};
use qobuz_player::models::AudioDevice;

fn track(id: u32, seconds: u32) -> Track {
    Track {
        id,
        title: format!("track {id}"),
        duration_seconds: seconds,
        available: true,
        ..Default::default()
    }
}

fn queue(tracks: Vec<Track>) -> Tracklist {
    Tracklist { queue: tracks, list_type: TracklistType::Queue }
}

fn playing_count(t: &Tracklist) -> usize {
    t.queue.iter().filter(|t| t.status == TrackStatus::Playing).count()
}

/// A player on [A(10 s), B(10 s)] with B current and playing.
fn player_on_b() -> Player {
    let mut player = Player::new(queue(vec![track(1, 10), track(2, 10)]), 500);
    player.skip_to_position(1, true);
    player.track_queried(false, SinkOutcome::Accepted(QueryTrackResult::Queued));
    player
}

#[test]
fn previous_after_two_seconds_restarts_track() {
    let mut player = player_on_b();
    player.position_published(2000);

    let effects = player.previous();

    assert_eq!(effects, vec![Effect::Seek(0)]);
    assert_eq!(player.tracklist().current_track().unwrap().id, 2);
    assert_eq!(player.position_ms(), 0);
}

#[test]
fn previous_within_first_second_moves_back() {
    let mut player = player_on_b();
    player.position_published(500);

    let effects = player.previous();

    assert_eq!(
        effects,
        vec![
            Effect::PublishPosition(0),
            Effect::ClearSink,
            Effect::QueryTrack { track_id: 1, next: false },
            Effect::PublishTracklist,
        ]
    );
    assert_eq!(player.tracklist().current_track().unwrap().id, 1);
    assert_eq!(player.position_ms(), 0);

    player.track_queried(false, SinkOutcome::Accepted(QueryTrackResult::Queued));
    assert_eq!(player.status(), Status::Playing);
}

#[test]
fn jump_forward_past_end_stops_at_end() {
    let mut player = Player::new(queue(vec![track(1, 10)]), 500);
    player.skip_to_position(0, true);

    let effects = player.jump_forward(9000);

    assert_eq!(effects, vec![Effect::Seek(10_000)]);
    assert_eq!(player.position_ms(), 10_000);
}

#[test]
fn jump_forward_within_track_moves_ten_seconds() {
    let mut player = Player::new(queue(vec![track(1, 60)]), 500);
    player.skip_to_position(0, true);

    assert_eq!(player.jump_forward(5000), vec![Effect::Seek(15_000)]);
}

#[test]
fn jump_backward_near_start_goes_to_start() {
    let mut player = Player::new(queue(vec![track(1, 60)]), 500);
    assert_eq!(player.jump_backward(9999), vec![Effect::Seek(0)]);
    assert_eq!(player.jump_backward(25_000), vec![Effect::Seek(15_000)]);
}

#[test]
fn sample_rate_change_is_not_chained() {
    let mut player = Player::new(queue(vec![track(1, 200), track(2, 200)]), 500);
    player.skip_to_position(0, true);
    player.track_queried(false, SinkOutcome::Accepted(QueryTrackResult::Queued));

    let effects = player.tick(150_000);
    assert_eq!(
        effects,
        vec![Effect::PublishPosition(150_000), Effect::QueryTrack { track_id: 2, next: true }]
    );
    player.track_queried(true, SinkOutcome::Accepted(QueryTrackResult::RecreateStreamRequired));

    let effects = player.track_finished();
    assert_eq!(
        effects,
        vec![
            Effect::ClearSink,
            Effect::QueryTrack { track_id: 2, next: false },
            Effect::PublishTracklist,
        ]
    );
    assert_eq!(player.tracklist().current_position(), 1);
}

#[test]
fn same_sample_rate_is_chained_gaplessly() {
    let mut player = Player::new(queue(vec![track(1, 200), track(2, 200)]), 500);
    player.skip_to_position(0, true);
    player.track_queried(false, SinkOutcome::Accepted(QueryTrackResult::Queued));
    player.tick(150_000);
    player.track_queried(true, SinkOutcome::Accepted(QueryTrackResult::Queued));

    assert_eq!(player.track_finished(), vec![Effect::PublishTracklist]);
    assert_eq!(player.tracklist().current_position(), 1);
}

#[test]
fn tick_asks_for_next_track_once() {
    let mut player = Player::new(queue(vec![track(1, 100), track(2, 100)]), 500);
    player.skip_to_position(0, true);
    player.track_queried(false, SinkOutcome::Accepted(QueryTrackResult::Queued));

    assert_eq!(player.tick(30_000), vec![Effect::PublishPosition(30_000)]);
    assert_eq!(
        player.tick(41_000),
        vec![Effect::PublishPosition(41_000), Effect::QueryTrack { track_id: 2, next: true }]
    );
    assert_eq!(player.tick(41_500), vec![Effect::PublishPosition(41_500)]);
}

#[test]
fn tick_while_paused_publishes_nothing() {
    let mut player = Player::new(queue(vec![track(1, 100)]), 500);
    assert!(player.tick(1000).is_empty());
}

#[test]
fn stretch_ratio_live_change_rescales_position() {
    let mut player = Player::new(queue(vec![track(1, 60)]), 500);
    player.skip_to_position(0, true);
    player.track_queried(false, SinkOutcome::Accepted(QueryTrackResult::Queued));

    let effects = player.set_time_stretch(1500, 10_000, true);

    assert_eq!(
        effects,
        vec![
            Effect::Notify(Notice::TimeStretchSet(1500)),
            Effect::AdjustPositionOffset(6666 - 10_000),
            Effect::PublishPosition(6666),
        ]
    );
    assert_eq!(player.position_ms(), 6666);
    assert_eq!(player.current_display_duration(), Some(40_000));
}

#[test]
fn stretch_change_without_live_support_reloads() {
    let mut player = Player::new(queue(vec![track(7, 60)]), 500);
    player.skip_to_position(0, true);
    player.track_queried(false, SinkOutcome::Accepted(QueryTrackResult::Queued));

    let effects = player.set_time_stretch(3000, 10_000, false);

    assert_eq!(
        effects,
        vec![
            Effect::Notify(Notice::TimeStretchSet(2000)),
            Effect::ReloadTrack { track_id: 7, old_ratio: Some(1000) },
        ]
    );
    assert_eq!(player.stretch().time_stretch_ratio, 2000);
}

#[test]
fn pitch_settings_are_clamped() {
    let mut player = Player::new(queue(vec![]), 500);
    assert_eq!(player.set_pitch(30, true), vec![Effect::Notify(Notice::PitchSet(12))]);
    assert_eq!(player.set_pitch_cents(-250, true), vec![Effect::Notify(Notice::PitchCentsSet(-100))]);
    assert_eq!(player.stretch().pitch_semitones, 12);
    assert_eq!(player.stretch().pitch_cents, -100);
    assert_eq!(player.stretch().pitch_in_cents(), 1100);
}

#[test]
fn device_removed_mid_play_falls_back_to_default() {
    let mut player = Player::new(queue(vec![track(1, 60)]), 500);
    player.restore_settings(1000, 0, 0, Some("X".to_string()));
    player.skip_to_position(0, true);

    let effects = player.track_queried(false, SinkOutcome::Failed("The requested device is no longer available".to_string()));

    assert_eq!(
        effects,
        vec![
            Effect::PublishStatus(Status::Paused),
            Effect::SetSinkDevice(None),
            Effect::SaveAudioDevice(None),
            Effect::Notify(Notice::DeviceError),
        ]
    );
    assert_eq!(player.status(), Status::Paused);
    assert_eq!(player.selected_device(), &None);
}

#[test]
fn other_sink_failure_is_reported() {
    let mut player = Player::new(queue(vec![track(1, 60)]), 500);
    let effects = player.track_queried(false, SinkOutcome::Failed("decoder error".to_string()));
    assert_eq!(effects, vec![Effect::Notify(Notice::Error("decoder error".to_string()))]);
}

#[test]
fn unknown_device_name_is_not_selected() {
    let mut player = Player::new(queue(vec![track(1, 60)]), 500);
    let devices = vec![AudioDevice { name: "Speakers".to_string() }];

    let effects = player.set_audio_device(Some("Gone".to_string()), &devices, 0);

    assert_eq!(
        effects,
        vec![
            Effect::Notify(Notice::DeviceNotFound("Gone".to_string())),
            Effect::SetSinkDevice(None),
            Effect::Notify(Notice::OutputChanged(Some("Gone".to_string()))),
        ]
    );
    assert_eq!(player.selected_device(), &None);
}

#[test]
fn device_change_while_playing_reopens_track() {
    let mut player = Player::new(queue(vec![track(4, 60)]), 500);
    player.skip_to_position(0, true);
    player.track_queried(false, SinkOutcome::Accepted(QueryTrackResult::Queued));
    let devices = vec![AudioDevice { name: "Speakers".to_string() }];

    let effects = player.set_audio_device(Some("Speakers".to_string()), &devices, 12_000);
    assert_eq!(
        effects,
        vec![
            Effect::SetSinkDevice(Some("Speakers".to_string())),
            Effect::SwitchDevicePlayback { track_id: 4, resume_at_ms: 12_000 },
            Effect::Notify(Notice::OutputChanged(Some("Speakers".to_string()))),
        ]
    );

    let effects = player.device_switch_finished(DeviceSwitch::Restarted, 12_000);
    assert_eq!(
        effects,
        vec![
            Effect::SinkPlay,
            Effect::PublishStatus(Status::Playing),
            Effect::Wait(200),
            Effect::Seek(12_000),
        ]
    );
    assert_eq!(player.device_switch_finished(DeviceSwitch::Failed, 0).len(), 2);
    assert_eq!(player.status(), Status::Paused);
}

#[test]
fn play_pause_twice_returns_to_playing() {
    let mut player = Player::new(queue(vec![track(1, 60)]), 500);
    player.skip_to_position(0, true);
    player.track_queried(false, SinkOutcome::Accepted(QueryTrackResult::Queued));
    player.position_published(4000);

    assert_eq!(player.play_pause(false), vec![Effect::PublishStatus(Status::Paused), Effect::SinkPause]);
    assert_eq!(player.play_pause(false), vec![Effect::PublishStatus(Status::Playing), Effect::SinkPlay]);
    assert_eq!(player.status(), Status::Playing);
    assert_eq!(player.position_ms(), 4000);
}

#[test]
fn play_with_empty_sink_buffers_current_track() {
    let mut player = Player::new(queue(vec![track(3, 60)]), 500);
    player.skip_to_position(0, true);
    player.pause();
    assert_eq!(
        player.play(true),
        vec![Effect::PublishStatus(Status::Buffering), Effect::QueryTrack { track_id: 3, next: false }]
    );
    assert_eq!(player.status(), Status::Buffering);
}

#[test]
fn identity_reorder_changes_nothing() {
    let mut player = player_on_b();
    let before = player.tracklist().clone();

    assert!(player.reorder_queue(&vec![0, 1]).is_empty());
    assert_eq!(player.tracklist(), &before);
}

#[test]
fn reorder_keeps_playing_track_playing() {
    let mut player = Player::new(queue(vec![track(1, 10), track(2, 10), track(3, 10)]), 500);
    player.skip_to_position(0, true);

    let effects = player.reorder_queue(&vec![2, 0, 1]);

    assert_eq!(
        effects,
        vec![Effect::ClearSinkQueue, Effect::PublishTracklist, Effect::Notify(Notice::QueueUpdated)]
    );
    let ids: Vec<u32> = player.tracklist().queue.iter().map(|t| t.id).collect();
    assert_eq!(ids, vec![3, 1, 2]);
    assert_eq!(player.tracklist().current_position(), 1);
    assert_eq!(player.tracklist().current_track().unwrap().id, 1);
}

#[test]
fn reorder_that_is_not_a_permutation_is_refused() {
    let mut player = player_on_b();
    assert_eq!(player.reorder_queue(&vec![1, 1]), vec![Effect::Notify(Notice::InvalidQueueEdit)]);
    assert_eq!(player.tracklist().queue.len(), 2);
}

#[test]
fn finishing_last_track_stops_playback() {
    let mut player = player_on_b();

    let effects = player.track_finished();

    assert_eq!(
        effects,
        vec![
            Effect::PublishStatus(Status::Paused),
            Effect::SinkPause,
            Effect::ClearSink,
            Effect::PublishPosition(0),
            Effect::PublishTracklist,
        ]
    );
    assert_eq!(playing_count(player.tracklist()), 0);
    assert!(player.tracklist().current_track().is_none());
    assert_eq!(player.status(), Status::Paused);
}

#[test]
fn single_playing_track_after_commands() {
    let mut player = Player::new(queue(vec![track(1, 10), track(2, 10), track(3, 10)]), 500);
    player.skip_to_position(0, true);
    assert_eq!(playing_count(player.tracklist()), 1);
    player.next();
    player.play_track_next(track(9, 10));
    player.add_track_to_queue(Track { status: TrackStatus::Playing, ..track(10, 10) });
    assert_eq!(playing_count(player.tracklist()), 1);
    let ids: Vec<u32> = player.tracklist().queue.iter().map(|t| t.id).collect();
    assert_eq!(ids, vec![1, 2, 9, 3, 10]);
    player.remove_index_from_queue(0);
    assert_eq!(playing_count(player.tracklist()), 1);
    assert_eq!(player.tracklist().current_track().unwrap().id, 2);
    player.skip_to_position(99, true);
    assert_eq!(playing_count(player.tracklist()), 0);
}

#[test]
fn removing_current_track_skips_to_next() {
    let mut player = Player::new(queue(vec![track(1, 10), track(2, 10), track(3, 10)]), 500);
    player.skip_to_position(1, true);

    let effects = player.remove_index_from_queue(1);

    assert_eq!(
        effects,
        vec![
            Effect::PublishPosition(0),
            Effect::ClearSink,
            Effect::QueryTrack { track_id: 3, next: false },
            Effect::PublishTracklist,
            Effect::ClearSinkQueue,
            Effect::PublishTracklist,
            Effect::Notify(Notice::QueueUpdated),
        ]
    );
    let ids: Vec<u32> = player.tracklist().queue.iter().map(|t| t.id).collect();
    assert_eq!(ids, vec![1, 3]);
    assert_eq!(player.tracklist().current_track().unwrap().id, 3);
}

#[test]
fn removing_outside_queue_is_refused() {
    let mut player = player_on_b();
    assert_eq!(player.remove_index_from_queue(5), vec![Effect::Notify(Notice::InvalidQueueEdit)]);
}

#[test]
fn play_album_leaves_out_unavailable_tracks() {
    let mut player = Player::new(queue(vec![]), 500);
    let mut tracks = vec![track(1, 10), track(2, 10), track(3, 10), track(4, 10)];
    tracks[1].available = false;
    let album = Album { id: "a1".to_string(), title: "Album".to_string(), tracks, image: "cover".to_string(), ..Default::default() };

    let effects = player.play_album(album, 2);

    let ids: Vec<u32> = player.tracklist().queue.iter().map(|t| t.id).collect();
    assert_eq!(ids, vec![1, 3, 4]);
    assert_eq!(player.tracklist().current_track().unwrap().id, 3);
    assert_eq!(
        effects,
        vec![Effect::ClearSink, Effect::QueryTrack { track_id: 3, next: false }, Effect::PublishTracklist]
    );
    match player.tracklist().list_type() {
        TracklistType::Album(a) => {
            assert_eq!(a.id, "a1");
            assert_eq!(a.image, Some("cover".to_string()));
        }
        _ => panic!("album tracklist expected"),
    }
}

#[test]
fn play_shuffled_playlist_keeps_tracks() {
    let mut player = Player::new(queue(vec![]), 500);
    let playlist = Playlist { id: 8, tracks: vec![track(1, 10), track(2, 10), track(3, 10)], ..Default::default() };

    player.play_playlist(playlist, 0, true);

    let mut ids: Vec<u32> = player.tracklist().queue.iter().map(|t| t.id).collect();
    ids.sort();
    assert_eq!(ids, vec![1, 2, 3]);
    assert_eq!(playing_count(player.tracklist()), 1);
    assert_eq!(player.tracklist().current_position(), 0);
}

#[test]
fn play_track_makes_single_tracklist() {
    let mut player = Player::new(queue(vec![]), 500);
    let effects = player.play_track(track(5, 10));
    assert_eq!(player.tracklist().queue.len(), 1);
    assert_eq!(player.tracklist().current_track().unwrap().id, 5);
    assert_eq!(
        effects,
        vec![Effect::ClearSink, Effect::QueryTrack { track_id: 5, next: false }, Effect::PublishTracklist]
    );
}

#[test]
fn done_buffering_starts_playback() {
    let mut player = Player::new(queue(vec![track(1, 10)]), 500);
    player.track_buffering();
    let effects = player.done_buffering(SinkOutcome::Accepted(QueryTrackResult::Queued));
    assert_eq!(effects, vec![Effect::PublishStatus(Status::Playing)]);
    assert_eq!(player.status(), Status::Playing);
}

#[test]
fn set_volume_publishes_volume() {
    let mut player = Player::new(queue(vec![]), 500);
    assert_eq!(player.set_volume(800), vec![Effect::PublishVolume(800)]);
    assert_eq!(player.volume(), 800);
}

#[test]
fn shuffled_playlist_comes_in_another_order() {
    let tracks: Vec<Track> = (1..=8).map(|id| track(id, 10)).collect();
    let mut reordered = false;
    for _ in 0..5 {
        let mut player = Player::new(queue(vec![]), 500);
        let playlist = Playlist { id: 8, tracks: tracks.clone(), ..Default::default() };
        player.play_playlist(playlist, 0, true);
        let ids: Vec<u32> = player.tracklist().queue.iter().map(|t| t.id).collect();
        if ids != (1..=8).collect::<Vec<u32>>() {
            reordered = true;
        }
    }
    assert!(reordered);
}
