//! The player snapshot of the `spotify-control` service.
//!
//! Reading spotifyd over D-Bus is I/O and stays outside the library.
use vstd::prelude::*;
use crate::text::{has_prefix, push_str, str_eq, string_of};

verus! {

/// Current player snapshot returned by `GET /api/spotify/status`.
#[derive(Debug)]
pub struct Status {
    /// spotifyd is on the bus.
    pub available: bool,
    /// spotifyd is the active playback device.
    pub active: bool,
    /// MPRIS `PlaybackStatus`, if active.
    pub playback_status: Option<String>,
    /// "Artist - Title", if active and known.
    pub track: Option<String>,
    /// Volume in percent, if active.
    pub volume: Option<u8>,
}

impl Status {
    /// The snapshot when spotifyd is not running.
    pub fn unavailable() -> (s: Self)
        ensures
            !s.available && !s.active && s.playback_status is None && s.track is None && s.volume is None,
    {
        Status { available: false, active: false, playback_status: None, track: None, volume: None }
    }

    /// The snapshot when spotifyd runs but is not the active device.
    pub fn inactive() -> (s: Self)
        ensures
            s.available && !s.active && s.playback_status is None && s.track is None && s.volume is None,
    {
        Status { available: true, active: false, playback_status: None, track: None, volume: None }
    }
}

/// "Artist - Title" from the metadata's artist and title: the title alone
/// without an artist, nothing without a title.
pub fn track_label(artist: Option<String>, title: Option<String>) -> (r: Option<String>)
    ensures
        match (artist, title) {
            (Some(a), Some(t)) => r matches Some(l) && l@ == a@ + " - "@ + t@,
            (None, Some(t)) => r matches Some(l) && l@ == t@,
            _ => r is None,
        },
{
    match (artist, title) {
        (Some(a), Some(t)) => {
            let mut s = string_of(a.as_str());
            push_str(&mut s, " - ");
            push_str(&mut s, t.as_str());
            Some(s)
        },
        (None, Some(t)) => Some(t),
        _ => None,
    }
}

/// Prefix of spotifyd's control bus name (`rs.spotifyd.instance$PID`),
/// present whenever spotifyd is connected.
pub const CONTROLS_PREFIX: &'static str = "rs.spotifyd.";

/// Prefix of spotifyd's MPRIS bus name, present only while spotifyd is the
/// active playback device.
pub const MPRIS_SPOTIFYD_PREFIX: &'static str = "org.mpris.MediaPlayer2.spotifyd";

/// `s` begins with `prefix`.
pub open spec fn starts_with(s: Seq<char>, prefix: Seq<char>) -> bool {
    prefix.len() <= s.len() && s.subrange(0, prefix.len() as int) == prefix
}

/// The first of the bus names that begins with `prefix`.
pub fn first_name_with_prefix(names: &[String], prefix: &str) -> (r: Option<usize>)
    ensures
        match r {
            Some(i) => i < names@.len() && starts_with(names@[i as int]@, prefix@) && forall|j: int|
                0 <= j < i ==> !starts_with(#[trigger] names@[j]@, prefix@),
            None => forall|j: int| 0 <= j < names@.len() ==> !starts_with(#[trigger] names@[j]@, prefix@),
        },
{
    let mut i: usize = 0;
    while i < names.len()
        invariant
            i <= names@.len(),
            forall|j: int| 0 <= j < i ==> !starts_with(#[trigger] names@[j]@, prefix@),
        decreases names@.len() - i,
    {
        if has_prefix(names[i].as_str(), prefix) {
            return Some(i);
        }
        i += 1;
    }
    None
}

/// Whether a pause is to be issued for the MPRIS `PlaybackStatus`: only
/// while playing, so that the caller learns whether music was audibly
/// paused.
pub fn pause_needed(playback_status: &str) -> (b: bool)
    ensures
        b == (playback_status@ == "Playing"@),
{
    str_eq(playback_status, "Playing")
}

/// The strings of a metadata array joined with `", "`; nothing for an
/// empty array.
pub open spec fn joined(parts: Seq<Seq<char>>) -> Seq<char>
    decreases parts.len(),
{
    if parts.len() <= 1 {
        if parts.len() == 1 {
            parts[0]
        } else {
            Seq::empty()
        }
    } else {
        joined(parts.drop_last()) + ", "@ + parts.last()
    }
}

/// The text of a metadata value made of several strings (such as the
/// artists of a track): joined with `", "`, or nothing when there is none.
pub fn join_metadata_strings(parts: &[String]) -> (r: Option<String>)
    ensures
        parts@.len() == 0 ==> r is None,
        parts@.len() > 0 ==> (r matches Some(s) && s@ == joined(parts@.map_values(|p: String| p@))),
{
    if parts.len() == 0 {
        return None;
    }
    let mut s = string_of(parts[0].as_str());
    let mut i: usize = 1;
    while i < parts.len()
        invariant
            1 <= i <= parts@.len(),
            s@ == joined(parts@.take(i as int).map_values(|p: String| p@)),
        decreases parts@.len() - i,
    {
        let ghost before = parts@.take(i as int).map_values(|p: String| p@);
        push_str(&mut s, ", ");
        push_str(&mut s, parts[i].as_str());
        let ghost after = parts@.take(i + 1).map_values(|p: String| p@);
        assert(after.drop_last() =~= before);
        assert(s@ =~= joined(after));
        i += 1;
    }
    assert(parts@.take(parts@.len() as int) =~= parts@);
    Some(s)
}

} // verus!
