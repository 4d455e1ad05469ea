//! The items of a music library and what is known of the user's own.

use vstd::prelude::*;
use vstd::string::*;

use crate::cache::ExpiringCache;
use crate::cache::Cached;
use crate::ids::AlbumId;
use crate::ids::ArtistId;
use crate::ids::ContextId;
use crate::ids::EpisodeId;
use crate::ids::PlayableId;
use crate::ids::PlaylistId;
use crate::ids::ShowId;
use crate::ids::TrackId;
use crate::text::same_text;

verus! {

#[derive(Debug)]
pub struct Artist {
    pub id: ArtistId,
    pub name: String,
}

impl Clone for Artist {
    fn clone(&self) -> (r: Artist)
        ensures
            r == *self,
    {
        Artist { id: self.id.clone(), name: self.name.clone() }
    }
}

#[derive(Debug)]
pub struct Album {
    pub id: AlbumId,
    pub name: String,
    pub artists: Vec<Artist>,
}

#[derive(Debug)]
pub struct Track {
    pub id: TrackId,
    pub name: String,
    pub artists: Vec<Artist>,
    pub album: Option<Album>,
}

#[derive(Debug)]
pub struct Playlist {
    pub id: PlaylistId,
    pub name: String,
    /// The folder in which the playlist is shown.
    pub current_folder_id: usize,
}

/// A folder of the user's playlists.
#[derive(Debug)]
pub struct PlaylistFolder {
    pub name: String,
    /// The folder in which this one is shown.
    pub current_id: usize,
    /// The folder that it opens.
    pub target_id: usize,
}

/// A playlist or a folder of playlists.
#[derive(Debug)]
pub enum PlaylistFolderItem {
    Playlist(Playlist),
    Folder(PlaylistFolder),
}

#[derive(Debug)]
pub struct Show {
    pub id: ShowId,
    pub name: String,
}

#[derive(Debug)]
pub struct Episode {
    pub id: EpisodeId,
    pub name: String,
    pub show: Option<Show>,
}

/// An item that can be added to a library.
#[derive(Debug)]
pub enum Item {
    Track(Track),
    Album(Album),
    Artist(Artist),
    Playlist(Playlist),
    Show(Show),
}

/// The kinds of results of a search.
#[derive(Debug, Clone, Copy, PartialEq, Eq, Structural)]
pub enum SearchResultCategory {
    Tracks,
    Albums,
    Artists,
    Playlists,
    Shows,
    Episodes,
}

/// The results of a search that have been fetched.
#[derive(Debug)]
pub struct SearchResults {
    pub tracks: Vec<Track>,
    pub albums: Vec<Album>,
    pub artists: Vec<Artist>,
    pub playlists: Vec<Playlist>,
    pub shows: Vec<Show>,
    pub episodes: Vec<Episode>,
}

impl SearchResults {
    /// How many results of a kind there are.
    pub open spec fn count(self, category: SearchResultCategory) -> nat {
        match category {
            SearchResultCategory::Tracks => self.tracks@.len(),
            SearchResultCategory::Albums => self.albums@.len(),
            SearchResultCategory::Artists => self.artists@.len(),
            SearchResultCategory::Playlists => self.playlists@.len(),
            SearchResultCategory::Shows => self.shows@.len(),
            SearchResultCategory::Episodes => self.episodes@.len(),
        }
    }

    /// How many results of a kind there are.
    pub fn len_for_category(&self, category: SearchResultCategory) -> (r: usize)
        ensures
            r == self.count(category),
    {
        match category {
            SearchResultCategory::Tracks => self.tracks.len(),
            SearchResultCategory::Albums => self.albums.len(),
            SearchResultCategory::Artists => self.artists.len(),
            SearchResultCategory::Playlists => self.playlists.len(),
            SearchResultCategory::Shows => self.shows.len(),
            SearchResultCategory::Episodes => self.episodes.len(),
        }
    }
}

/// How far the results of one kind have been fetched.
#[derive(Debug, Clone, Copy, PartialEq, Eq, Structural)]
pub struct PaginationInfo {
    pub is_exhausted: bool,
    pub is_fetching: bool,
}

/// How far the results of each kind have been fetched.
#[derive(Debug, Clone, Copy, PartialEq, Eq, Structural)]
pub struct SearchPagination {
    pub tracks: PaginationInfo,
    pub albums: PaginationInfo,
    pub artists: PaginationInfo,
    pub playlists: PaginationInfo,
    pub shows: PaginationInfo,
    pub episodes: PaginationInfo,
}

impl SearchPagination {
    /// How far the results of a kind have been fetched.
    pub open spec fn of(self, category: SearchResultCategory) -> PaginationInfo {
        match category {
            SearchResultCategory::Tracks => self.tracks,
            SearchResultCategory::Albums => self.albums,
            SearchResultCategory::Artists => self.artists,
            SearchResultCategory::Playlists => self.playlists,
            SearchResultCategory::Shows => self.shows,
            SearchResultCategory::Episodes => self.episodes,
        }
    }

    /// The same with the results of one kind replaced.
    pub open spec fn with(
        self,
        category: SearchResultCategory,
        info: PaginationInfo,
    ) -> SearchPagination {
        match category {
            SearchResultCategory::Tracks => SearchPagination { tracks: info, ..self },
            SearchResultCategory::Albums => SearchPagination { albums: info, ..self },
            SearchResultCategory::Artists => SearchPagination { artists: info, ..self },
            SearchResultCategory::Playlists => SearchPagination { playlists: info, ..self },
            SearchResultCategory::Shows => SearchPagination { shows: info, ..self },
            SearchResultCategory::Episodes => SearchPagination { episodes: info, ..self },
        }
    }

    pub fn info(&self, category: SearchResultCategory) -> (r: PaginationInfo)
        ensures
            r == self.of(category),
    {
        match category {
            SearchResultCategory::Tracks => self.tracks,
            SearchResultCategory::Albums => self.albums,
            SearchResultCategory::Artists => self.artists,
            SearchResultCategory::Playlists => self.playlists,
            SearchResultCategory::Shows => self.shows,
            SearchResultCategory::Episodes => self.episodes,
        }
    }

    pub fn info_mut(&mut self, category: SearchResultCategory) -> (r: &mut PaginationInfo)
        ensures
            *r == old(self).of(category),
            *final(self) == old(self).with(category, *final(r)),
    {
        match category {
            SearchResultCategory::Tracks => &mut self.tracks,
            SearchResultCategory::Albums => &mut self.albums,
            SearchResultCategory::Artists => &mut self.artists,
            SearchResultCategory::Playlists => &mut self.playlists,
            SearchResultCategory::Shows => &mut self.shows,
            SearchResultCategory::Episodes => &mut self.episodes,
        }
    }
}

/// The results of one search and how far they have been fetched.
#[derive(Debug)]
pub struct SearchEntry {
    pub results: SearchResults,
    pub pagination: SearchPagination,
}

/// The tracks or episodes of a context.
#[derive(Debug)]
pub enum Context {
    Playlist { tracks: Vec<Track> },
    Album { tracks: Vec<Track> },
    Artist { top_tracks: Vec<Track> },
    Tracks { tracks: Vec<Track> },
    Show { episodes: Vec<Episode> },
}

impl Context {
    /// The tracks of the context; a show has none.
    pub open spec fn track_list(self) -> Option<Seq<Track>> {
        match self {
            Context::Playlist { tracks } => Some(tracks@),
            Context::Album { tracks } => Some(tracks@),
            Context::Artist { top_tracks } => Some(top_tracks@),
            Context::Tracks { tracks } => Some(tracks@),
            Context::Show { .. } => None,
        }
    }
}

/// What is known of the user's library. Times are readings of one monotonic clock, in nanoseconds.
#[derive(Debug)]
pub struct UserData {
    pub playlists: Vec<PlaylistFolderItem>,
    pub saved_albums: Vec<Album>,
    pub followed_artists: Vec<Artist>,
    pub saved_shows: Vec<Show>,
    pub saved_tracks: Vec<Track>,
    pub playlists_last_sync: Option<u64>,
    pub saved_albums_last_sync: Option<u64>,
    pub followed_artists_last_sync: Option<u64>,
    pub saved_shows_last_sync: Option<u64>,
}

impl PlaylistFolderItem {
    /// Whether the item is shown in the folder `folder_id`.
    pub open spec fn in_folder(self, folder_id: usize) -> bool {
        match self {
            PlaylistFolderItem::Playlist(p) => p.current_folder_id == folder_id,
            PlaylistFolderItem::Folder(f) => f.current_id == folder_id,
        }
    }
}

impl UserData {
    /// Whether the user has liked the track with the given id.
    pub open spec fn likes(self, id: Seq<char>) -> bool {
        exists|i: int| 0 <= i < self.saved_tracks@.len() && (#[trigger] self.saved_tracks@[i]).id@ == id
    }

    /// Whether the user has saved the album with the given id.
    pub open spec fn saves_album(self, id: Seq<char>) -> bool {
        exists|i: int| 0 <= i < self.saved_albums@.len() && (#[trigger] self.saved_albums@[i]).id@ == id
    }

    /// Whether the user follows the artist with the given id.
    pub open spec fn follows(self, id: Seq<char>) -> bool {
        exists|i: int|
            0 <= i < self.followed_artists@.len() && (#[trigger] self.followed_artists@[i]).id@ == id
    }

    /// Whether the user has saved the show with the given id.
    pub open spec fn saves_show(self, id: Seq<char>) -> bool {
        exists|i: int| 0 <= i < self.saved_shows@.len() && (#[trigger] self.saved_shows@[i]).id@ == id
    }

    /// Whether the user has saved the playlist with the given id.
    pub open spec fn saves_playlist(self, id: Seq<char>) -> bool {
        exists|i: int|
            0 <= i < self.playlists@.len() && ((#[trigger] self.playlists@[i]) matches
                PlaylistFolderItem::Playlist(p) && p.id@ == id)
    }

    /// The items that are shown in the folder `folder_id`.
    pub open spec fn folder(self, folder_id: usize) -> Seq<PlaylistFolderItem> {
        self.playlists@.filter(|item: PlaylistFolderItem| item.in_folder(folder_id))
    }

    pub fn is_liked_track(&self, track: &Track) -> (r: bool)
        ensures
            r == self.likes(track.id@),
    {
        let mut i: usize = 0;
        while i < self.saved_tracks.len()
            invariant
                i <= self.saved_tracks@.len(),
                forall|j: int| 0 <= j < i ==> (#[trigger] self.saved_tracks@[j]).id@ != track.id@,
            decreases self.saved_tracks.len() - i,
        {
            if self.saved_tracks[i].id == track.id {
                return true;
            }
            i = i + 1;
        }
        false
    }

    pub fn has_saved_album(&self, id: &AlbumId) -> (r: bool)
        ensures
            r == self.saves_album(id@),
    {
        let mut i: usize = 0;
        while i < self.saved_albums.len()
            invariant
                i <= self.saved_albums@.len(),
                forall|j: int| 0 <= j < i ==> (#[trigger] self.saved_albums@[j]).id@ != id@,
            decreases self.saved_albums.len() - i,
        {
            if self.saved_albums[i].id == *id {
                return true;
            }
            i = i + 1;
        }
        false
    }

    pub fn has_followed_artist(&self, id: &ArtistId) -> (r: bool)
        ensures
            r == self.follows(id@),
    {
        let mut i: usize = 0;
        while i < self.followed_artists.len()
            invariant
                i <= self.followed_artists@.len(),
                forall|j: int| 0 <= j < i ==> (#[trigger] self.followed_artists@[j]).id@ != id@,
            decreases self.followed_artists.len() - i,
        {
            if self.followed_artists[i].id == *id {
                return true;
            }
            i = i + 1;
        }
        false
    }

    pub fn has_saved_show(&self, id: &ShowId) -> (r: bool)
        ensures
            r == self.saves_show(id@),
    {
        let mut i: usize = 0;
        while i < self.saved_shows.len()
            invariant
                i <= self.saved_shows@.len(),
                forall|j: int| 0 <= j < i ==> (#[trigger] self.saved_shows@[j]).id@ != id@,
            decreases self.saved_shows.len() - i,
        {
            if self.saved_shows[i].id == *id {
                return true;
            }
            i = i + 1;
        }
        false
    }

    pub fn has_saved_playlist(&self, id: &PlaylistId) -> (r: bool)
        ensures
            r == self.saves_playlist(id@),
    {
        let mut i: usize = 0;
        while i < self.playlists.len()
            invariant
                i <= self.playlists@.len(),
                forall|j: int|
                    0 <= j < i ==> !((#[trigger] self.playlists@[j]) matches
                        PlaylistFolderItem::Playlist(p) && p.id@ == id@),
            decreases self.playlists.len() - i,
        {
            if let PlaylistFolderItem::Playlist(p) = &self.playlists[i] {
                if p.id == *id {
                    return true;
                }
            }
            i = i + 1;
        }
        false
    }

    /// The items that are shown in the folder `folder_id`, in the order of the library.
    pub fn folder_playlists_items(&self, folder_id: usize) -> (r: Vec<&PlaylistFolderItem>)
        ensures
            r@.len() == self.folder(folder_id).len(),
            forall|i: int| 0 <= i < r@.len() ==> *(#[trigger] r@[i]) == self.folder(folder_id)[i],
    {
        let ghost shown = |item: PlaylistFolderItem| item.in_folder(folder_id);
        let mut out: Vec<&PlaylistFolderItem> = Vec::new();
        let mut i: usize = 0;
        proof {
            reveal(Seq::filter);
            assert(self.playlists@.take(0) =~= Seq::<PlaylistFolderItem>::empty());
        }
        while i < self.playlists.len()
            invariant
                i <= self.playlists@.len(),
                shown == (|item: PlaylistFolderItem| item.in_folder(folder_id)),
                out@.len() == self.playlists@.take(i as int).filter(shown).len(),
                forall|k: int|
                    0 <= k < out@.len() ==> *(#[trigger] out@[k]) == self.playlists@.take(
                        i as int,
                    ).filter(shown)[k],
            decreases self.playlists.len() - i,
        {
            let item = &self.playlists[i];
            let here: bool = match item {
                PlaylistFolderItem::Playlist(p) => p.current_folder_id == folder_id,
                PlaylistFolderItem::Folder(f) => f.current_id == folder_id,
            };
            proof {
                reveal(Seq::filter);
                assert(self.playlists@.take(i + 1).drop_last() =~= self.playlists@.take(i as int));
            }
            if here {
                out.push(item);
            }
            i = i + 1;
        }
        assert(self.playlists@.take(self.playlists@.len() as int) =~= self.playlists@);
        out
    }
}

/// What has been fetched so far.
#[derive(Debug)]
pub struct AppData {
    pub user_data: UserData,
    /// The results of searches, by query.
    pub search: ExpiringCache<SearchEntry>,
    /// The contexts, by URI.
    pub contexts: ExpiringCache<Context>,
}

/// The tracks of the context with the URI `uri`, where it is known.
pub open spec fn known_tracks(
    contexts: Map<Seq<char>, Cached<Context>>,
    uri: Seq<char>,
    now: u64,
) -> Option<Seq<Track>> {
    match crate::cache::live(contexts, uri, now) {
        Some(context) => context.track_list(),
        None => None,
    }
}

/// The place of the first track with the URI `uri`.
pub open spec fn first_track(tracks: Seq<Track>, uri: Seq<char>) -> Option<usize>
    decreases tracks.len(),
{
    if tracks.len() == 0 {
        None
    } else {
        match first_track(tracks.drop_last(), uri) {
            Some(i) => Some(i),
            None => if crate::ids::track_uri(tracks.last().id@) == uri {
                Some((tracks.len() - 1) as usize)
            } else {
                None
            },
        }
    }
}

impl AppData {
    /// The tracks of a context, where it is known and has tracks.
    pub fn context_tracks(&self, id: &ContextId, now: u64) -> (r: Option<&Vec<Track>>)
        ensures
            r is Some <==> known_tracks(self.contexts@, id@.uri(), now) is Some,
            r matches Some(tracks) ==> known_tracks(self.contexts@, id@.uri(), now) == Some(
                tracks@,
            ),
    {
        let uri = id.uri();
        match self.contexts.get(uri.as_str(), now) {
            Some(context) => match context {
                Context::Playlist { tracks } => Some(tracks),
                Context::Album { tracks } => Some(tracks),
                Context::Artist { top_tracks } => Some(top_tracks),
                Context::Tracks { tracks } => Some(tracks),
                Context::Show { .. } => None,
            },
            None => None,
        }
    }
}

/// Finds the first track with the URI of `id`.
pub fn position_of(tracks: &Vec<Track>, id: &PlayableId) -> (r: Option<usize>)
    ensures
        r == first_track(tracks@, id@.uri()),
{
    let uri = id.uri();
    let mut i: usize = 0;
    assert(tracks@.take(0) =~= Seq::<Track>::empty());
    while i < tracks.len()
        invariant
            i <= tracks@.len(),
            uri@ == id@.uri(),
            first_track(tracks@.take(i as int), uri@) is None,
        decreases tracks.len() - i,
    {
        assert(tracks@.take(i + 1).drop_last() =~= tracks@.take(i as int));
        let here = tracks[i].id.uri();
        if same_text(here.as_str(), uri.as_str()) {
            assert(first_track(tracks@.take(i + 1), uri@) == Some(i));
            proof {
                lemma_first_track_stays(tracks@, i + 1, uri@);
            }
            return Some(i);
        }
        i = i + 1;
    }
    assert(tracks@.take(tracks@.len() as int) =~= tracks@);
    None
}

/// What is found in a part of the tracks is found in the whole.
proof fn lemma_first_track_stays(tracks: Seq<Track>, n: int, uri: Seq<char>)
    requires
        0 <= n <= tracks.len(),
        first_track(tracks.take(n), uri) is Some,
    ensures
        first_track(tracks, uri) == first_track(tracks.take(n), uri),
    decreases tracks.len() - n,
{
    if n < tracks.len() {
        assert(tracks.take(n + 1).drop_last() =~= tracks.take(n));
        lemma_first_track_stays(tracks, n + 1, uri);
    } else {
        assert(tracks.take(n) =~= tracks);
    }
}

} // verus!
