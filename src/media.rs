use vstd::prelude::*;
use crate::artwork::{base64_of, data_url_prefix, encode_image_to_base64, extract_accent_color_hue};
use crate::diff::TrackKey;

verus! {

/// Number of provider time units (100 ns ticks) in one millisecond.
pub const TICKS_PER_MS: u64 = 10000;

/// Largest millisecond position whose tick count still fits in an `i64`.
pub const MAX_SEEK_MS: u64 = 922337203685477;

/// Playback position and length of the current track, in milliseconds.
#[derive(Debug, Clone, Copy, PartialEq, Eq)]
pub struct TrackProgress {
    pub position: u64,
    pub duration: u64,
}

/// Metadata of the current track.
#[derive(Debug, Clone)]
pub struct TrackInfo {
    pub title: String,
    pub artist: String,
    /// Artwork as a data URL, when the provider has one.
    pub thumbnail: Option<String>,
    pub album: Option<String>,
    /// Track length in milliseconds.
    pub duration: u64,
    /// Dominant hue of the artwork, in degrees.
    pub accent_color: Option<u16>,
}

/// Repeat mode of the session.
#[derive(Debug, Clone, Copy, PartialEq, Eq, Structural)]
pub enum AutoRepeatMode {
    Off,
    Track,
    List,
}

/// Capability flags and transport state of the session.
#[derive(Debug, Clone, Copy, PartialEq, Eq, Structural)]
pub struct TrackControls {
    pub shuffle_enabled: bool,
    pub auto_repeat_mode_enabled: bool,
    pub next_enabled: bool,
    pub prev_enabled: bool,
    pub play_pause_enabled: bool,
    pub shuffle: bool,
    pub auto_repeat_mode: AutoRepeatMode,
    pub playing: bool,
}

/// Playback position of the current track, in milliseconds.
#[derive(Debug, Clone, Copy, PartialEq, Eq, Structural)]
pub struct TrackTimeline {
    pub progress: u64,
}

/// Payload of an inbound `seek` message.
#[derive(Debug, Clone, Copy, PartialEq, Eq, Structural)]
pub struct SeekPosition {
    /// Position in milliseconds.
    pub position: u64,
}

/// Where a browser front end finds the socket endpoint.
#[derive(Debug, Clone)]
pub struct ServerInfo {
    pub socketio_url: String,
}

/// The text that names a repeat mode on the wire.
pub open spec fn repeat_mode_name(m: AutoRepeatMode) -> Seq<char> {
    match m {
        AutoRepeatMode::Off => "none"@,
        AutoRepeatMode::Track => "track"@,
        AutoRepeatMode::List => "list"@,
    }
}

/// Whether `s` names one of the three repeat modes.
pub open spec fn is_repeat_mode_name(s: Seq<char>) -> bool {
    s == "none"@ || s == "track"@ || s == "list"@
}

/// The repeat mode that `s` names; meaningful only under `is_repeat_mode_name(s)`.
pub open spec fn repeat_mode_of(s: Seq<char>) -> AutoRepeatMode {
    if s == "track"@ {
        AutoRepeatMode::Track
    } else if s == "list"@ {
        AutoRepeatMode::List
    } else {
        AutoRepeatMode::Off
    }
}

/// A repeat-mode name that is not one of "none", "track" and "list".
#[derive(Debug, Clone, Copy, PartialEq, Eq, Structural)]
pub struct InvalidRepeatMode;

/// Repeat modes as the provider numbers them.
pub const PROVIDER_REPEAT_NONE: i32 = 0;
pub const PROVIDER_REPEAT_TRACK: i32 = 1;
pub const PROVIDER_REPEAT_LIST: i32 = 2;

/// The library's repeat mode for a provider code; unknown codes mean no repeat.
pub open spec fn repeat_mode_from_code(code: i32) -> AutoRepeatMode {
    if code == PROVIDER_REPEAT_TRACK {
        AutoRepeatMode::Track
    } else if code == PROVIDER_REPEAT_LIST {
        AutoRepeatMode::List
    } else {
        AutoRepeatMode::Off
    }
}

pub open spec fn repeat_mode_code(m: AutoRepeatMode) -> i32 {
    match m {
        AutoRepeatMode::Off => PROVIDER_REPEAT_NONE,
        AutoRepeatMode::Track => PROVIDER_REPEAT_TRACK,
        AutoRepeatMode::List => PROVIDER_REPEAT_LIST,
    }
}

fn str_is(s: &str, lit: &str) -> (r: bool)
    ensures
        r == (s@ == lit@),
{
    let a = String::from_str(s);
    let b = String::from_str(lit);
    a == b
}

impl AutoRepeatMode {
    /// Parses a wire name; anything but "none", "track" and "list" is refused.
    pub fn from_str(s: &str) -> (r: Result<AutoRepeatMode, InvalidRepeatMode>)
        ensures
            r is Ok <==> is_repeat_mode_name(s@),
            r is Ok ==> r->Ok_0 == repeat_mode_of(s@),
    {
        proof {
            reveal_strlit("none");
            reveal_strlit("track");
            reveal_strlit("list");
            assert("none"@ != "track"@ && "none"@ != "list"@ && "track"@ != "list"@) by {
                assert("none"@[0] != "list"@[0]);
                assert("none"@.len() != "track"@.len());
                assert("track"@.len() != "list"@.len());
            }
        }
        if str_is(s, "none") {
            Ok(AutoRepeatMode::Off)
        } else if str_is(s, "track") {
            Ok(AutoRepeatMode::Track)
        } else if str_is(s, "list") {
            Ok(AutoRepeatMode::List)
        } else {
            Err(InvalidRepeatMode)
        }
    }

    /// The wire name of this mode.
    pub fn to_string(&self) -> (r: String)
        ensures
            r@ == repeat_mode_name(*self),
    {
        match self {
            AutoRepeatMode::Off => String::from_str("none"),
            AutoRepeatMode::Track => String::from_str("track"),
            AutoRepeatMode::List => String::from_str("list"),
        }
    }

    /// The mode for a provider repeat code.
    pub fn from_code(code: i32) -> (r: AutoRepeatMode)
        ensures
            r == repeat_mode_from_code(code),
    {
        if code == PROVIDER_REPEAT_TRACK {
            AutoRepeatMode::Track
        } else if code == PROVIDER_REPEAT_LIST {
            AutoRepeatMode::List
        } else {
            AutoRepeatMode::Off
        }
    }

    /// The provider repeat code for this mode.
    pub fn code(&self) -> (r: i32)
        ensures
            r == repeat_mode_code(*self),
    {
        match self {
            AutoRepeatMode::Off => PROVIDER_REPEAT_NONE,
            AutoRepeatMode::Track => PROVIDER_REPEAT_TRACK,
            AutoRepeatMode::List => PROVIDER_REPEAT_LIST,
        }
    }
}

/// Milliseconds in a provider reading of `ticks` 100 ns units; a negative
/// reading counts as the start of the track.
pub open spec fn ticks_to_ms_spec(ticks: i64) -> u64 {
    if ticks <= 0 {
        0
    } else {
        (ticks as int / TICKS_PER_MS as int) as u64
    }
}

/// Converts a provider reading in 100 ns units to whole milliseconds.
pub fn ticks_to_ms(ticks: i64) -> (r: u64)
    ensures
        r == ticks_to_ms_spec(ticks),
{
    if ticks <= 0 {
        0
    } else {
        (ticks as u64) / TICKS_PER_MS
    }
}

/// Converts milliseconds to the provider's 100 ns units, when they fit in an `i64`.
pub fn ms_to_ticks(ms: u64) -> (r: Option<i64>)
    ensures
        r is Some <==> ms <= MAX_SEEK_MS,
        r is Some ==> r->Some_0 == ms * TICKS_PER_MS,
{
    if ms <= MAX_SEEK_MS {
        Some((ms * TICKS_PER_MS) as i64)
    } else {
        None
    }
}

impl TrackControls {
    /// Assembles the controls snapshot from the provider's readings. The shuffle
    /// state and the repeat mode count only where the session enables them.
    pub fn from_readings(
        shuffle_enabled: bool,
        auto_repeat_mode_enabled: bool,
        next_enabled: bool,
        prev_enabled: bool,
        play_pause_enabled: bool,
        playing: bool,
        shuffle_state: bool,
        repeat_code: i32,
    ) -> (r: TrackControls)
        ensures
            r.shuffle_enabled == shuffle_enabled,
            r.auto_repeat_mode_enabled == auto_repeat_mode_enabled,
            r.next_enabled == next_enabled,
            r.prev_enabled == prev_enabled,
            r.play_pause_enabled == play_pause_enabled,
            r.playing == playing,
            r.shuffle == (shuffle_enabled && shuffle_state),
            r.auto_repeat_mode == (if auto_repeat_mode_enabled {
                repeat_mode_from_code(repeat_code)
            } else {
                AutoRepeatMode::Off
            }),
    {
        let shuffle = if shuffle_enabled {
            shuffle_state
        } else {
            false
        };
        let auto_repeat_mode = if auto_repeat_mode_enabled {
            AutoRepeatMode::from_code(repeat_code)
        } else {
            AutoRepeatMode::Off
        };
        TrackControls {
            shuffle_enabled,
            auto_repeat_mode_enabled,
            next_enabled,
            prev_enabled,
            play_pause_enabled,
            shuffle,
            auto_repeat_mode,
            playing,
        }
    }
}

impl TrackTimeline {
    /// The timeline snapshot for a provider position in 100 ns units.
    pub fn from_ticks(position_ticks: i64) -> (r: TrackTimeline)
        ensures
            r.progress == ticks_to_ms_spec(position_ticks),
    {
        TrackTimeline { progress: ticks_to_ms(position_ticks) }
    }
}

impl TrackInfo {
    /// Assembles the track snapshot from the provider's readings. Artwork, when
    /// there is some, becomes a data URL and, when it can be decoded, yields
    /// the accent hue; artwork that cannot be decoded gives the data URL alone.
    pub fn from_readings(
        title: String,
        artist: String,
        album: Option<String>,
        duration_ticks: i64,
        artwork: Option<Vec<u8>>,
    ) -> (r: TrackInfo)
        ensures
            r.title == title,
            r.artist == artist,
            r.album == album,
            r.duration == ticks_to_ms_spec(duration_ticks),
            r.thumbnail is Some <==> (artwork is Some && artwork->Some_0@.len() <= usize::MAX / 2),
            r.thumbnail is Some ==> r.thumbnail->Some_0@ == data_url_prefix() + base64_of(
                artwork->Some_0@,
            ),
            r.accent_color is Some ==> r.thumbnail is Some,
            r.accent_color is Some ==> r.accent_color->Some_0 <= 360,
    {
        let mut thumbnail: Option<String> = None;
        let mut accent_color: Option<u16> = None;
        if let Some(bytes) = &artwork {
            if bytes.len() <= usize::MAX / 2 {
                thumbnail = Some(encode_image_to_base64(bytes.as_slice()));
                if let Ok(hue) = extract_accent_color_hue(bytes.as_slice()) {
                    accent_color = Some(hue);
                }
            }
        }
        TrackInfo {
            title,
            artist,
            thumbnail,
            album,
            duration: ticks_to_ms(duration_ticks),
            accent_color,
        }
    }

    /// The key by which the diff policy compares this snapshot, with the
    /// session's playing state.
    pub fn key(&self, playing: bool) -> (k: TrackKey)
        ensures
            k.title == self.title,
            k.artist == self.artist,
            k.playing == playing,
    {
        TrackKey { title: self.title.clone(), artist: self.artist.clone(), playing }
    }
}

} // verus!
