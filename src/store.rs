//! What the persistent store holds and how its rows map to the engine's
//! values: audio quality ids, the configuration row with its defaults, RFID
//! bindings, and the hashed password.

use vstd::prelude::*;
use crate::stretch::clamp_int;

verus! {

/// Maximum streaming quality, in increasing order.
#[derive(Debug, Clone, Copy, PartialEq, Eq, Structural, PartialOrd, Ord, Hash)]
pub enum AudioQuality {
    Mp3,
    CD,
    HIFI96,
    HIFI192,
}

/// The catalogue's format id of each quality, as stored.
pub open spec fn quality_id(q: AudioQuality) -> i64 {
    match q {
        AudioQuality::Mp3 => 5,
        AudioQuality::CD => 6,
        AudioQuality::HIFI96 => 7,
        AudioQuality::HIFI192 => 27,
    }
}

impl AudioQuality {
    pub fn id(&self) -> (r: i64)
        ensures
            r == quality_id(*self),
    {
        match self {
            AudioQuality::Mp3 => 5,
            AudioQuality::CD => 6,
            AudioQuality::HIFI96 => 7,
            AudioQuality::HIFI192 => 27,
        }
    }

    /// The quality stored as `id`, if `id` is one.
    pub fn from_id(id: i64) -> (r: Option<AudioQuality>)
        ensures
            r matches Some(q) ==> quality_id(q) == id,
            r is None ==> forall|q: AudioQuality| quality_id(q) != id,
    {
        if id == 5 {
            Some(AudioQuality::Mp3)
        } else if id == 6 {
            Some(AudioQuality::CD)
        } else if id == 7 {
            Some(AudioQuality::HIFI96)
        } else if id == 27 {
            Some(AudioQuality::HIFI192)
        } else {
            None
        }
    }
}

/// How the web front-end shows a quality: an icon and two lines.
#[derive(Debug, Clone)]
pub struct AudioQualityDisplay {
    pub icon: String,
    pub line1: String,
    pub line2: String,
}

pub fn audio_quality_display(quality: AudioQuality) -> (r: AudioQualityDisplay)
    ensures
        quality == AudioQuality::Mp3 ==> r.icon@ == "/assets/svg/mp3.svg"@ && r.line1@ == "MP3 320 kbps"@ && r.line2@ == ""@,
        quality == AudioQuality::CD ==> r.icon@ == "/assets/svg/cd.svg"@ && r.line1@ == "CD 16 bit"@ && r.line2@ == "44.1kHz"@,
        quality == AudioQuality::HIFI96 ==> r.icon@ == "/assets/logo-hires.png"@ && r.line1@ == "Hi-Res 24-Bit"@ && r.line2@ == "96kHz"@,
        quality == AudioQuality::HIFI192 ==> r.icon@ == "/assets/logo-hires.png"@ && r.line1@ == "Hi-Res 24-Bit"@ && r.line2@ == "192kHz"@,
{
    match quality {
        AudioQuality::Mp3 => AudioQualityDisplay {
            icon: "/assets/svg/mp3.svg".to_owned(),
            line1: "MP3 320 kbps".to_owned(),
            line2: "".to_owned(),
        },
        AudioQuality::CD => AudioQualityDisplay {
            icon: "/assets/svg/cd.svg".to_owned(),
            line1: "CD 16 bit".to_owned(),
            line2: "44.1kHz".to_owned(),
        },
        AudioQuality::HIFI96 => AudioQualityDisplay {
            icon: "/assets/logo-hires.png".to_owned(),
            line1: "Hi-Res 24-Bit".to_owned(),
            line2: "96kHz".to_owned(),
        },
        AudioQuality::HIFI192 => AudioQualityDisplay {
            icon: "/assets/logo-hires.png".to_owned(),
            line1: "Hi-Res 24-Bit".to_owned(),
            line2: "192kHz".to_owned(),
        },
    }
}

/// The stored credentials; the password only ever as its MD5 digest.
pub struct DatabaseCredentials {
    pub username: Option<String>,
    pub password: Option<String>,
}

/// The configuration row, with the stretch ratio in thousandths.
pub struct DatabaseConfiguration {
    pub max_audio_quality: i64,
    pub audio_device_name: Option<String>,
    pub preferred_genre_id: Option<i64>,
    pub time_stretch_ratio: u32,
    pub pitch_semitones: i16,
    pub pitch_cents: i16,
}

impl DatabaseConfiguration {
    /// The configuration from its row: a missing stretch setting reads as
    /// normal speed and no shift, and every setting is held to its range.
    pub fn from_row(
        max_audio_quality: i64,
        audio_device_name: Option<String>,
        preferred_genre_id: Option<i64>,
        time_stretch_ratio: Option<u32>,
        pitch_semitones: Option<i32>,
        pitch_cents: Option<i32>,
    ) -> (r: DatabaseConfiguration)
        ensures
            r.max_audio_quality == max_audio_quality,
            r.audio_device_name == audio_device_name,
            r.preferred_genre_id == preferred_genre_id,
            r.time_stretch_ratio == match time_stretch_ratio {
                Some(v) => clamp_int(v as int, 500, 2000),
                None => 1000,
            },
            r.pitch_semitones == match pitch_semitones {
                Some(v) => clamp_int(v as int, -12, 12),
                None => 0,
            },
            r.pitch_cents == match pitch_cents {
                Some(v) => clamp_int(v as int, -100, 100),
                None => 0,
            },
    {
        let ratio = match time_stretch_ratio {
            Some(v) => crate::stretch::normalize_ratio(v),
            None => crate::stretch::RATIO_ONE,
        };
        let semitones: i16 = match pitch_semitones {
            Some(v) => if v < -12 { -12 } else if v > 12 { 12 } else { v as i16 },
            None => 0,
        };
        let cents: i16 = match pitch_cents {
            Some(v) => if v < -100 { -100 } else if v > 100 { 100 } else { v as i16 },
            None => 0,
        };
        DatabaseConfiguration {
            max_audio_quality,
            audio_device_name,
            preferred_genre_id,
            time_stretch_ratio: ratio,
            pitch_semitones: semitones,
            pitch_cents: cents,
        }
    }
}

/// What an RFID tag starts when it is read.
#[derive(Debug, Clone, PartialEq)]
pub enum LinkRequest {
    Album(String),
    Playlist(u32),
}

/// What a tag is bound to, as the caller states it.
pub enum ReferenceType {
    Album(String),
    Playlist(u32),
}

/// The stored kind of a binding.
#[derive(Debug, Clone, Copy, PartialEq, Eq, Structural)]
pub enum ReferenceTypeDatabase {
    Album,
    Playlist,
}

impl ReferenceTypeDatabase {
    /// The kind stored as `id`: `1` an album, `2` a playlist.
    pub fn from_id(id: i64) -> (r: Option<ReferenceTypeDatabase>)
        ensures
            id == 1 ==> r == Some(ReferenceTypeDatabase::Album),
            id == 2 ==> r == Some(ReferenceTypeDatabase::Playlist),
            id != 1 && id != 2 ==> r is None,
    {
        if id == 1 {
            Some(ReferenceTypeDatabase::Album)
        } else if id == 2 {
            Some(ReferenceTypeDatabase::Playlist)
        } else {
            None
        }
    }
}

/// The stored row of a binding: its kind id, album id and playlist id.
pub struct ReferenceRow {
    pub reference_type: i64,
    pub album_id: Option<String>,
    pub playlist_id: Option<u32>,
}

pub fn reference_row(reference: ReferenceType) -> (r: ReferenceRow)
    ensures
        reference matches ReferenceType::Album(id) ==> r.reference_type == 1 && r.album_id == Some(id) && r.playlist_id is None,
        reference matches ReferenceType::Playlist(id) ==> r.reference_type == 2 && r.album_id is None && r.playlist_id == Some(id),
{
    match reference {
        ReferenceType::Album(id) => ReferenceRow { reference_type: 1, album_id: Some(id), playlist_id: None },
        ReferenceType::Playlist(id) => ReferenceRow { reference_type: 2, album_id: None, playlist_id: Some(id) },
    }
}

pub open spec fn linked(reference_type: i64, album_id: Option<String>, playlist_id: Option<i64>) -> Option<LinkRequest> {
    if reference_type == 1 {
        match album_id {
            Some(a) => Some(LinkRequest::Album(a)),
            None => None,
        }
    } else if reference_type == 2 {
        match playlist_id {
            Some(p) => if 0 <= p <= u32::MAX {
                Some(LinkRequest::Playlist(p as u32))
            } else {
                None
            },
            None => None,
        }
    } else {
        None
    }
}

/// The request a stored binding makes: an album binding needs its album id,
/// a playlist binding a playlist id that fits a `u32`; anything else makes none.
pub fn link_request_from_row(reference_type: i64, album_id: Option<String>, playlist_id: Option<i64>) -> (r: Option<LinkRequest>)
    ensures
        r == linked(reference_type, album_id, playlist_id),
{
    match ReferenceTypeDatabase::from_id(reference_type) {
        Some(ReferenceTypeDatabase::Album) => match album_id {
            Some(a) => Some(LinkRequest::Album(a)),
            None => None,
        },
        Some(ReferenceTypeDatabase::Playlist) => match playlist_id {
            Some(p) => if 0 <= p && p <= u32::MAX as i64 {
                Some(LinkRequest::Playlist(p as u32))
            } else {
                None
            },
            None => None,
        },
        None => None,
    }
}

/// The MD5 digest of a text's UTF-8 bytes in lower-case hex.
pub uninterp spec fn md5_hex_of(text: Seq<char>) -> Seq<char>;

/// A lower-case hexadecimal digit.
pub open spec fn is_hex_digit(c: char) -> bool {
    ('0' <= c && c <= '9') || ('a' <= c && c <= 'f')
}

/// Relies on `md5::compute` over the text's bytes and on the digest's
/// `LowerHex` format, two lower-case digits for each of its 16 bytes.
#[verifier::external_body]
fn md5_hex(text: &str) -> (r: String)
    ensures
        r@ == md5_hex_of(text@),
        r@.len() == 32,
        forall|i: int| 0 <= i < 32 ==> is_hex_digit(#[trigger] r@[i]),
{
    format!("{:x}", md5::compute(text))
}

/// The form in which a password is stored: the hex MD5 digest the catalogue
/// expects, never the password itself.
pub fn password_hash(password: &str) -> (r: String)
    ensures
        r@ == md5_hex_of(password@),
        r@.len() == 32,
        forall|i: int| 0 <= i < 32 ==> is_hex_digit(#[trigger] r@[i]),
{
    md5_hex(password)
}

} // verus!
