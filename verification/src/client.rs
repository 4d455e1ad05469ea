//! The requests that the handlers send to the client.

use vstd::prelude::*;
use vstd::string::*;

use crate::error::HandlerError;
use crate::ids::AlbumId;
use crate::ids::ItemId;
use crate::ids::PlayableId;
use crate::ids::PlayableIdView;
use crate::ids::PlaylistId;
use crate::ids::TrackId;
use crate::model::Item;
use crate::model::SearchResultCategory;
use crate::span::Span;

verus! {

/// What to play.
#[derive(Debug)]
pub enum Playback {
    /// The given items, from the one at the given place on.
    URIs(Vec<PlayableId>, Option<usize>),
}

/// A request that is about the playback.
#[derive(Debug)]
pub enum PlayerRequest {
    NextTrack,
    PreviousTrack,
    ResumePause,
    Repeat,
    Shuffle,
    ToggleMute,
    Volume(u8),
    SeekTrack(Span),
    /// Starts a playback, with the given shuffle mode where there is one.
    StartPlayback(Playback, Option<bool>),
}

/// A request to the client.
#[derive(Debug)]
pub enum ClientRequest {
    GetCurrentPlayback,
    GetDevices,
    GetBrowseCategories,
    GetUserPlaylists,
    GetUserSavedAlbums,
    GetUserFollowedArtists,
    GetUserSavedShows,
    GetUserSavedTracks,
    GetUserTopTracks,
    GetUserRecentlyPlayedTracks,
    GetCurrentUserQueue,
    GetRadioTracks { seed_uri: String, seed_name: String },
    GetLyrics { track_id: TrackId },
    SearchMore { query: String, category: SearchResultCategory, offset: usize },
    AddPlayableToQueue(PlayableId),
    AddAlbumToQueue(AlbumId),
    AddToLibrary(Item),
    DeleteFromLibrary(ItemId),
    DeleteTrackFromPlaylist(PlaylistId, TrackId),
    RestartIntegratedClient,
    Player(PlayerRequest),
}

/// What a request asks for. Requests that carry no text, span or list of their own making stand
/// for themselves.
pub enum RequestView {
    RadioTracks { seed_uri: Seq<char>, seed_name: Seq<char> },
    SearchMore { query: Seq<char>, category: SearchResultCategory, offset: usize },
    DeleteTrackFromPlaylist { playlist: Seq<char>, track: TrackId },
    /// Go to the position that many nanoseconds into the track.
    Seek(int),
    /// Play these items from the first on.
    Play(Seq<PlayableIdView>),
    Plain(ClientRequest),
}

impl View for ClientRequest {
    type V = RequestView;

    open spec fn view(&self) -> RequestView {
        match *self {
            ClientRequest::GetRadioTracks { seed_uri, seed_name } => RequestView::RadioTracks {
                seed_uri: seed_uri@,
                seed_name: seed_name@,
            },
            ClientRequest::SearchMore { query, category, offset } => RequestView::SearchMore {
                query: query@,
                category,
                offset,
            },
            ClientRequest::DeleteTrackFromPlaylist(playlist, track) =>
                RequestView::DeleteTrackFromPlaylist { playlist: playlist@, track },
            ClientRequest::Player(PlayerRequest::SeekTrack(position)) => RequestView::Seek(
                position@,
            ),
            ClientRequest::Player(
                PlayerRequest::StartPlayback(Playback::URIs(ids, None), None),
            ) => RequestView::Play(ids@.map_values(|id: PlayableId| id@)),
            _ => RequestView::Plain(*self),
        }
    }
}

/// The handlers' end of the channel to the client: how many more requests the client takes before
/// it stops listening, and what has been handed over, in order. The client can stop at any time, so
/// the handlers are stated for every such number.
#[derive(Debug)]
pub struct Outbox {
    pub room: usize,
    pub sent: Vec<ClientRequest>,
}

/// What an `Outbox` holds.
pub struct OutboxView {
    pub room: nat,
    pub sent: Seq<RequestView>,
}

impl View for Outbox {
    type V = OutboxView;

    open spec fn view(&self) -> OutboxView {
        OutboxView { room: self.room as nat, sent: self.sent@.map_values(|r: ClientRequest| r@) }
    }
}

impl OutboxView {
    /// The outbox with one more request handed over.
    pub open spec fn with(self, request: RequestView) -> OutboxView {
        OutboxView { room: (self.room - 1) as nat, sent: self.sent.push(request) }
    }

    /// The outbox after requests have been handed over in order, as far as the client takes them.
    pub open spec fn with_all(self, requests: Seq<RequestView>) -> OutboxView {
        if requests.len() <= self.room {
            OutboxView {
                room: (self.room - requests.len()) as nat,
                sent: self.sent + requests,
            }
        } else {
            OutboxView { room: 0, sent: self.sent + requests.take(self.room as int) }
        }
    }
}

impl Outbox {
    /// An outbox with nothing handed over, of a client that takes `room` requests.
    pub fn new(room: usize) -> (r: Outbox)
        ensures
            r@ == (OutboxView { room: room as nat, sent: Seq::empty() }),
    {
        let r = Outbox { room, sent: Vec::new() };
        assert(r@.sent =~= Seq::<RequestView>::empty());
        r
    }

    /// Hands a request over, which fails once the client has stopped listening.
    pub fn send(&mut self, request: ClientRequest) -> (r: Result<(), HandlerError>)
        ensures
            old(self)@.room > 0 ==> r is Ok && final(self)@ == old(self)@.with(request@),
            old(self)@.room == 0 ==> r == Err::<(), HandlerError>(HandlerError::ClientClosed)
                && *final(self) == *old(self),
    {
        if self.room > 0 {
            self.room = self.room - 1;
            self.sent.push(request);
            assert(self@.sent =~= old(self)@.sent.push(request@));
            Ok(())
        } else {
            Err(HandlerError::ClientClosed)
        }
    }
}

} // verus!
