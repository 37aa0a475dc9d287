//! Catalogue records and the small value types shared by the engine and its
//! front-ends.

use vstd::prelude::*;

verus! {

/// Where a track stands relative to the tracklist's cursor.
#[derive(Debug, Clone, Copy, PartialEq, Eq, Structural, Default)]
pub enum TrackStatus {
    Played,
    Playing,
    #[default]
    Unplayed,
    Unplayable,
}

#[derive(Debug, Clone, Default, PartialEq)]
pub struct Track {
    pub id: u32,
    pub title: String,
    pub number: u32,
    pub explicit: bool,
    pub hires_available: bool,
    pub available: bool,
    pub status: TrackStatus,
    pub image: Option<String>,
    pub image_thumbnail: Option<String>,
    pub duration_seconds: u32,
    pub artist_name: Option<String>,
    pub artist_id: Option<u32>,
    pub album_title: Option<String>,
    pub album_id: Option<String>,
    pub playlist_track_id: Option<u64>,
}

/// A copy of an optional text.
pub fn copy_text(s: &Option<String>) -> (r: Option<String>)
    ensures
        r == *s,
{
    match s {
        Some(v) => Some(v.clone()),
        None => None,
    }
}

impl Track {
    /// A field-by-field copy of the track.
    pub fn duplicate(&self) -> (r: Track)
        ensures
            r == *self,
    {
        Track {
            id: self.id,
            title: self.title.clone(),
            number: self.number,
            explicit: self.explicit,
            hires_available: self.hires_available,
            available: self.available,
            status: self.status,
            image: copy_text(&self.image),
            image_thumbnail: copy_text(&self.image_thumbnail),
            duration_seconds: self.duration_seconds,
            artist_name: copy_text(&self.artist_name),
            artist_id: self.artist_id,
            album_title: copy_text(&self.album_title),
            album_id: copy_text(&self.album_id),
            playlist_track_id: self.playlist_track_id,
        }
    }
}

#[derive(Debug, Clone, Default)]
pub struct Artist {
    pub id: u32,
    pub name: String,
    pub image: Option<String>,
}

#[derive(Debug, Clone, Default)]
pub struct Album {
    pub id: String,
    pub title: String,
    pub artist: Artist,
    pub release_year: u32,
    pub hires_available: bool,
    pub explicit: bool,
    pub total_tracks: u32,
    pub tracks: Vec<Track>,
    pub available: bool,
    pub image: String,
    pub image_thumbnail: String,
    pub duration_seconds: u32,
    pub description: Option<String>,
}

#[derive(Debug, Clone, Default)]
pub struct AlbumSimple {
    pub id: String,
    pub title: String,
    pub artist: Artist,
    pub image: String,
    pub available: bool,
    pub hires_available: bool,
    pub release_year: u32,
    pub explicit: bool,
    pub duration_seconds: u32,
}

impl From<Album> for AlbumSimple {
    fn from(value: Album) -> (r: Self) {
        AlbumSimple {
            id: value.id,
            title: value.title,
            artist: value.artist,
            image: value.image,
            available: value.available,
            hires_available: value.hires_available,
            explicit: value.explicit,
            duration_seconds: value.duration_seconds,
            release_year: value.release_year,
        }
    }
}

impl vstd::std_specs::convert::FromSpecImpl<Album> for AlbumSimple {
    open spec fn obeys_from_spec() -> bool {
        true
    }

    open spec fn from_spec(value: Album) -> AlbumSimple {
        AlbumSimple {
            id: value.id,
            title: value.title,
            artist: value.artist,
            image: value.image,
            available: value.available,
            hires_available: value.hires_available,
            explicit: value.explicit,
            duration_seconds: value.duration_seconds,
            release_year: value.release_year,
        }
    }
}

#[derive(Debug, Clone, Default)]
pub struct SearchResults {
    pub query: String,
    pub albums: Vec<Album>,
    pub artists: Vec<Artist>,
    pub playlists: Vec<Playlist>,
    pub tracks: Vec<Track>,
}

#[derive(Debug, Clone, Default)]
pub struct Favorites {
    pub albums: Vec<AlbumSimple>,
    pub artists: Vec<Artist>,
    pub playlists: Vec<Playlist>,
    pub tracks: Vec<Track>,
}

#[derive(Debug, Clone, Default)]
pub struct ArtistPage {
    pub id: u32,
    pub name: String,
    pub image: Option<String>,
    pub top_tracks: Vec<Track>,
    pub description: Option<String>,
}

#[derive(Debug, Clone, Default)]
pub struct Playlist {
    pub is_owned: bool,
    pub title: String,
    pub duration_seconds: u32,
    pub tracks_count: u32,
    pub id: u32,
    pub image: Option<String>,
    pub tracks: Vec<Track>,
}

#[derive(Debug, Clone)]
pub struct Genre {
    pub id: u32,
    pub name: String,
    pub slug: String,
    pub color: String,
}

#[derive(Debug, Clone)]
pub struct GenreResponseInner {
    pub items: Vec<Genre>,
}

#[derive(Debug, Clone)]
pub struct GenreResponse {
    pub genres: GenreResponseInner,
}

/// An album page: the album and the albums suggested beside it.
#[derive(Clone)]
pub struct AlbumData {
    pub album: Album,
    pub suggested_albums: Vec<AlbumSimple>,
}

/// The discover page: featured albums and playlists, each under a heading.
#[derive(Clone)]
pub struct Discover {
    pub albums: Vec<(String, Vec<AlbumSimple>)>,
    pub playlists: Vec<(String, Vec<Playlist>)>,
}

/// A named event pushed to the web front-end.
#[derive(Clone)]
pub struct ServerSentEvent {
    event_name: String,
    event_data: String,
}

impl ServerSentEvent {
    pub fn new(event_name: String, event_data: String) -> (r: ServerSentEvent)
        ensures
            r.name() == event_name,
            r.data() == event_data,
    {
        ServerSentEvent { event_name, event_data }
    }

    pub closed spec fn name(self) -> String {
        self.event_name
    }

    pub closed spec fn data(self) -> String {
        self.event_data
    }

    pub fn event_name(&self) -> (r: &String)
        ensures
            *r == self.name(),
    {
        &self.event_name
    }

    pub fn event_data(&self) -> (r: &String)
        ensures
            *r == self.data(),
    {
        &self.event_data
    }
}

/// What a row of the track list widget asks to open.
pub enum TrackListEvent {
    Track,
    Album(String),
    Playlist(u32, bool),
    Artist(u32),
}

/// Observable playback status.
#[derive(Debug, Clone, Copy, PartialEq, Eq, Structural, Default)]
pub enum Status {
    Playing,
    Buffering,
    #[default]
    Paused,
}

/// A user-visible message.
#[derive(Debug, Clone, PartialEq)]
pub enum Notification {
    Error(String),
    Warning(String),
    Success(String),
    Info(String),
}

/// An output device, by the name the audio host gives it.
#[derive(Debug, Clone)]
pub struct AudioDevice {
    pub name: String,
}

/// What the sink did with a track it was asked to play.
#[derive(Debug, Clone, Copy, PartialEq, Eq, Structural)]
pub enum QueryTrackResult {
    /// Chained after the current source on the live stream.
    Queued,
    /// The sample rate differs from the live stream's: the stream must be rebuilt.
    RecreateStreamRequired,
}

} // verus!
