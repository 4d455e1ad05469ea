//! What is playing.

use vstd::prelude::*;

use crate::ids::TrackId;
use crate::model::Episode;
use crate::model::Track;
use crate::span::Span;

verus! {

/// A track that is playing. A local track has no id, and a track that cannot be played from the
/// library has no entry in it.
#[derive(Debug)]
pub struct PlayingTrack {
    pub id: Option<TrackId>,
    pub name: String,
    pub artist_names: Vec<String>,
    pub duration: Span,
    pub track: Option<Track>,
}

/// An episode that is playing.
#[derive(Debug)]
pub struct PlayingEpisode {
    pub episode: Episode,
    pub duration: Span,
}

/// What is playing.
#[derive(Debug)]
pub enum PlayingItem {
    Track(PlayingTrack),
    Episode(PlayingEpisode),
    Unknown,
}

/// The playback as far as it has been changed ahead of the client's answer.
#[derive(Debug, Clone, Copy, PartialEq, Eq, Structural)]
pub struct BufferedPlayback {
    /// The volume in percent.
    pub volume: Option<u32>,
    pub fake_track_repeat_state: bool,
}

/// The state of the player.
#[derive(Debug, Clone, Copy)]
pub struct PlayerState {
    pub buffered_playback: Option<BufferedPlayback>,
    /// How far into the item the playback is.
    pub progress: Option<Span>,
}

/// The duration of what is playing.
pub open spec fn playing_duration(playing: Option<PlayingItem>) -> Option<Span> {
    match playing {
        Some(PlayingItem::Track(track)) => Some(track.duration),
        Some(PlayingItem::Episode(episode)) => Some(episode.duration),
        Some(PlayingItem::Unknown) => None,
        None => None,
    }
}

/// The duration of what is playing.
pub fn duration_of(playing: &Option<PlayingItem>) -> (r: Option<Span>)
    ensures
        r == playing_duration(*playing),
{
    match playing {
        Some(PlayingItem::Track(track)) => Some(track.duration),
        Some(PlayingItem::Episode(episode)) => Some(episode.duration),
        Some(PlayingItem::Unknown) => None,
        None => None,
    }
}

} // verus!
