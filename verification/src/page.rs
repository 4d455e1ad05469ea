//! The pages of the interface.

use vstd::prelude::*;
use vstd::string::*;

use crate::ids::ContextId;
use crate::ids::ContextIdView;
use crate::layout::fresh_list;
use crate::layout::ListState;
use crate::layout::TableState;

verus! {

/// A line of text that is being typed, with the place of the cursor in it.
#[derive(Debug)]
pub struct LineInput {
    pub line: String,
    pub cursor: usize,
}

/// What a `LineInput` holds.
pub struct LineInputView {
    pub line: Seq<char>,
    pub cursor: usize,
}

impl View for LineInput {
    type V = LineInputView;

    open spec fn view(&self) -> LineInputView {
        LineInputView { line: self.line@, cursor: self.cursor }
    }
}

/// A line in which nothing has been typed.
pub open spec fn empty_line() -> LineInputView {
    LineInputView { line: Seq::empty(), cursor: 0 }
}

impl Default for LineInput {
    fn default() -> (r: LineInput)
        ensures
            r@ == empty_line(),
    {
        LineInput { line: String::new(), cursor: 0 }
    }
}

/// The windows of the library page.
#[derive(Debug, Clone, Copy, PartialEq, Eq, Structural)]
pub enum LibraryFocusState {
    Playlists,
    SavedAlbums,
    FollowedArtists,
}

impl LibraryFocusState {
    /// The window after this one.
    pub open spec fn after(self) -> LibraryFocusState {
        match self {
            LibraryFocusState::Playlists => LibraryFocusState::SavedAlbums,
            LibraryFocusState::SavedAlbums => LibraryFocusState::FollowedArtists,
            LibraryFocusState::FollowedArtists => LibraryFocusState::Playlists,
        }
    }

    /// The window before this one.
    pub open spec fn before(self) -> LibraryFocusState {
        match self {
            LibraryFocusState::Playlists => LibraryFocusState::FollowedArtists,
            LibraryFocusState::SavedAlbums => LibraryFocusState::Playlists,
            LibraryFocusState::FollowedArtists => LibraryFocusState::SavedAlbums,
        }
    }

    pub fn next(&mut self)
        ensures
            *final(self) == old(self).after(),
    {
        *self = match *self {
            LibraryFocusState::Playlists => LibraryFocusState::SavedAlbums,
            LibraryFocusState::SavedAlbums => LibraryFocusState::FollowedArtists,
            LibraryFocusState::FollowedArtists => LibraryFocusState::Playlists,
        };
    }

    pub fn previous(&mut self)
        ensures
            *final(self) == old(self).before(),
    {
        *self = match *self {
            LibraryFocusState::Playlists => LibraryFocusState::FollowedArtists,
            LibraryFocusState::SavedAlbums => LibraryFocusState::Playlists,
            LibraryFocusState::FollowedArtists => LibraryFocusState::SavedAlbums,
        };
    }
}

/// The windows of the search page.
#[derive(Debug, Clone, Copy, PartialEq, Eq, Structural)]
pub enum SearchFocusState {
    Input,
    Tracks,
    Albums,
    Artists,
    Playlists,
    Shows,
    Episodes,
}

impl SearchFocusState {
    /// The window after this one.
    pub open spec fn after(self) -> SearchFocusState {
        match self {
            SearchFocusState::Input => SearchFocusState::Tracks,
            SearchFocusState::Tracks => SearchFocusState::Albums,
            SearchFocusState::Albums => SearchFocusState::Artists,
            SearchFocusState::Artists => SearchFocusState::Playlists,
            SearchFocusState::Playlists => SearchFocusState::Shows,
            SearchFocusState::Shows => SearchFocusState::Episodes,
            SearchFocusState::Episodes => SearchFocusState::Input,
        }
    }

    /// The window before this one.
    pub open spec fn before(self) -> SearchFocusState {
        match self {
            SearchFocusState::Input => SearchFocusState::Episodes,
            SearchFocusState::Tracks => SearchFocusState::Input,
            SearchFocusState::Albums => SearchFocusState::Tracks,
            SearchFocusState::Artists => SearchFocusState::Albums,
            SearchFocusState::Playlists => SearchFocusState::Artists,
            SearchFocusState::Shows => SearchFocusState::Playlists,
            SearchFocusState::Episodes => SearchFocusState::Shows,
        }
    }

    pub fn next(&mut self)
        ensures
            *final(self) == old(self).after(),
    {
        *self = match *self {
            SearchFocusState::Input => SearchFocusState::Tracks,
            SearchFocusState::Tracks => SearchFocusState::Albums,
            SearchFocusState::Albums => SearchFocusState::Artists,
            SearchFocusState::Artists => SearchFocusState::Playlists,
            SearchFocusState::Playlists => SearchFocusState::Shows,
            SearchFocusState::Shows => SearchFocusState::Episodes,
            SearchFocusState::Episodes => SearchFocusState::Input,
        };
    }

    pub fn previous(&mut self)
        ensures
            *final(self) == old(self).before(),
    {
        *self = match *self {
            SearchFocusState::Input => SearchFocusState::Episodes,
            SearchFocusState::Tracks => SearchFocusState::Input,
            SearchFocusState::Albums => SearchFocusState::Tracks,
            SearchFocusState::Artists => SearchFocusState::Albums,
            SearchFocusState::Playlists => SearchFocusState::Artists,
            SearchFocusState::Shows => SearchFocusState::Playlists,
            SearchFocusState::Episodes => SearchFocusState::Shows,
        };
    }
}

/// The windows of an artist's page.
#[derive(Debug, Clone, Copy, PartialEq, Eq, Structural)]
pub enum ArtistFocusState {
    TopTracks,
    Albums,
    RelatedArtists,
}

impl ArtistFocusState {
    /// The window after this one.
    pub open spec fn after(self) -> ArtistFocusState {
        match self {
            ArtistFocusState::TopTracks => ArtistFocusState::Albums,
            ArtistFocusState::Albums => ArtistFocusState::RelatedArtists,
            ArtistFocusState::RelatedArtists => ArtistFocusState::TopTracks,
        }
    }

    /// The window before this one.
    pub open spec fn before(self) -> ArtistFocusState {
        match self {
            ArtistFocusState::TopTracks => ArtistFocusState::RelatedArtists,
            ArtistFocusState::Albums => ArtistFocusState::TopTracks,
            ArtistFocusState::RelatedArtists => ArtistFocusState::Albums,
        }
    }

    pub fn next(&mut self)
        ensures
            *final(self) == old(self).after(),
    {
        *self = match *self {
            ArtistFocusState::TopTracks => ArtistFocusState::Albums,
            ArtistFocusState::Albums => ArtistFocusState::RelatedArtists,
            ArtistFocusState::RelatedArtists => ArtistFocusState::TopTracks,
        };
    }

    pub fn previous(&mut self)
        ensures
            *final(self) == old(self).before(),
    {
        *self = match *self {
            ArtistFocusState::TopTracks => ArtistFocusState::RelatedArtists,
            ArtistFocusState::Albums => ArtistFocusState::TopTracks,
            ArtistFocusState::RelatedArtists => ArtistFocusState::Albums,
        };
    }
}

/// The state of the library page.
#[derive(Debug, Clone, Copy, PartialEq, Eq, Structural)]
pub struct LibraryPageUIState {
    pub playlist_list: ListState,
    pub saved_album_list: ListState,
    pub followed_artist_list: ListState,
    pub focus: LibraryFocusState,
    /// The folder whose playlists are shown.
    pub playlist_folder_id: usize,
}

/// The library page as it opens.
pub open spec fn fresh_library() -> LibraryPageUIState {
    LibraryPageUIState {
        playlist_list: fresh_list(),
        saved_album_list: fresh_list(),
        followed_artist_list: fresh_list(),
        focus: LibraryFocusState::Playlists,
        playlist_folder_id: 0,
    }
}

impl LibraryPageUIState {
    pub fn new() -> (r: LibraryPageUIState)
        ensures
            r == fresh_library(),
    {
        LibraryPageUIState {
            playlist_list: ListState::default(),
            saved_album_list: ListState::default(),
            followed_artist_list: ListState::default(),
            focus: LibraryFocusState::Playlists,
            playlist_folder_id: 0,
        }
    }
}

/// The state of the search page.
#[derive(Debug, Clone, Copy, PartialEq, Eq, Structural)]
pub struct SearchPageUIState {
    pub track_list: ListState,
    pub album_list: ListState,
    pub artist_list: ListState,
    pub playlist_list: ListState,
    pub show_list: ListState,
    pub episode_list: ListState,
    pub focus: SearchFocusState,
}

/// The search page as it opens.
pub open spec fn fresh_search() -> SearchPageUIState {
    SearchPageUIState {
        track_list: fresh_list(),
        album_list: fresh_list(),
        artist_list: fresh_list(),
        playlist_list: fresh_list(),
        show_list: fresh_list(),
        episode_list: fresh_list(),
        focus: SearchFocusState::Input,
    }
}

impl SearchPageUIState {
    pub fn new() -> (r: SearchPageUIState)
        ensures
            r == fresh_search(),
    {
        SearchPageUIState {
            track_list: ListState::default(),
            album_list: ListState::default(),
            artist_list: ListState::default(),
            playlist_list: ListState::default(),
            show_list: ListState::default(),
            episode_list: ListState::default(),
            focus: SearchFocusState::Input,
        }
    }
}

/// The state of a page that shows a context.
#[derive(Debug, Clone, Copy, PartialEq, Eq, Structural)]
pub enum ContextPageUIState {
    Playlist { track_table: TableState },
    Album { track_table: TableState },
    Artist {
        top_track_table: TableState,
        album_table: TableState,
        related_artist_list: ListState,
        focus: ArtistFocusState,
    },
    Tracks { track_table: TableState },
    Show { episode_table: TableState },
}

/// Which context a page shows.
#[derive(Debug)]
pub enum ContextPageType {
    CurrentPlaying,
    Browsing(ContextId),
}

/// Which context a page shows.
pub enum ContextPageTypeView {
    CurrentPlaying,
    Browsing(ContextIdView),
}

impl View for ContextPageType {
    type V = ContextPageTypeView;

    open spec fn view(&self) -> ContextPageTypeView {
        match *self {
            ContextPageType::CurrentPlaying => ContextPageTypeView::CurrentPlaying,
            ContextPageType::Browsing(id) => ContextPageTypeView::Browsing(id@),
        }
    }
}

/// A category of the browse page.
#[derive(Debug)]
pub struct Category {
    pub id: String,
    pub name: String,
}

/// The state of the browse page.
#[derive(Debug)]
pub enum BrowsePageUIState {
    CategoryList { state: ListState },
    CategoryPlaylistList { category: Category, state: ListState },
}

/// A page with its state.
#[derive(Debug)]
pub enum PageState {
    Library { state: LibraryPageUIState },
    Context {
        id: Option<ContextId>,
        context_page_type: ContextPageType,
        state: Option<ContextPageUIState>,
    },
    Search { line_input: LineInput, current_query: String, state: SearchPageUIState },
    Lyrics { track_uri: String, track: String, artists: String },
    Browse { state: BrowsePageUIState },
    Queue { scroll_offset: usize },
    CommandHelp { scroll_offset: usize },
}

/// What a page shows.
pub enum PageView {
    Library { state: LibraryPageUIState },
    Context {
        id: Option<ContextIdView>,
        context_page_type: ContextPageTypeView,
        state: Option<ContextPageUIState>,
    },
    Search { line_input: LineInputView, current_query: Seq<char>, state: SearchPageUIState },
    Lyrics { track_uri: Seq<char>, track: Seq<char>, artists: Seq<char> },
    Browse { state: BrowsePageUIState },
    Queue { scroll_offset: usize },
    CommandHelp { scroll_offset: usize },
}

impl View for PageState {
    type V = PageView;

    open spec fn view(&self) -> PageView {
        match *self {
            PageState::Library { state } => PageView::Library { state },
            PageState::Context { id, context_page_type, state } => PageView::Context {
                id: match id {
                    Some(id) => Some(id@),
                    None => None,
                },
                context_page_type: context_page_type@,
                state,
            },
            PageState::Search { line_input, current_query, state } => PageView::Search {
                line_input: line_input@,
                current_query: current_query@,
                state,
            },
            PageState::Lyrics { track_uri, track, artists } => PageView::Lyrics {
                track_uri: track_uri@,
                track: track@,
                artists: artists@,
            },
            PageState::Browse { state } => PageView::Browse { state },
            PageState::Queue { scroll_offset } => PageView::Queue { scroll_offset },
            PageState::CommandHelp { scroll_offset } => PageView::CommandHelp { scroll_offset },
        }
    }
}

impl LibraryPageUIState {
    /// The selection of the window in focus.
    pub open spec fn selection(self) -> Option<usize> {
        match self.focus {
            LibraryFocusState::Playlists => self.playlist_list.selected,
            LibraryFocusState::SavedAlbums => self.saved_album_list.selected,
            LibraryFocusState::FollowedArtists => self.followed_artist_list.selected,
        }
    }

    /// The page with `i` selected in the window in focus.
    pub open spec fn selecting(self, i: usize) -> LibraryPageUIState {
        match self.focus {
            LibraryFocusState::Playlists => LibraryPageUIState {
                playlist_list: self.playlist_list.selecting(i),
                ..self
            },
            LibraryFocusState::SavedAlbums => LibraryPageUIState {
                saved_album_list: self.saved_album_list.selecting(i),
                ..self
            },
            LibraryFocusState::FollowedArtists => LibraryPageUIState {
                followed_artist_list: self.followed_artist_list.selecting(i),
                ..self
            },
        }
    }

    fn selected(&self) -> (r: Option<usize>)
        ensures
            r == self.selection(),
    {
        match self.focus {
            LibraryFocusState::Playlists => self.playlist_list.selected,
            LibraryFocusState::SavedAlbums => self.saved_album_list.selected,
            LibraryFocusState::FollowedArtists => self.followed_artist_list.selected,
        }
    }

    fn select(&mut self, i: usize)
        ensures
            *final(self) == old(self).selecting(i),
    {
        match self.focus {
            LibraryFocusState::Playlists => self.playlist_list.select(Some(i)),
            LibraryFocusState::SavedAlbums => self.saved_album_list.select(Some(i)),
            LibraryFocusState::FollowedArtists => self.followed_artist_list.select(Some(i)),
        }
    }
}

impl SearchPageUIState {
    /// The selection of the window in focus.
    pub open spec fn selection(self) -> Option<usize> {
        match self.focus {
            SearchFocusState::Input => None,
            SearchFocusState::Tracks => self.track_list.selected,
            SearchFocusState::Albums => self.album_list.selected,
            SearchFocusState::Artists => self.artist_list.selected,
            SearchFocusState::Playlists => self.playlist_list.selected,
            SearchFocusState::Shows => self.show_list.selected,
            SearchFocusState::Episodes => self.episode_list.selected,
        }
    }

    /// The page with `i` selected in the window in focus.
    pub open spec fn selecting(self, i: usize) -> SearchPageUIState {
        match self.focus {
            SearchFocusState::Input => self,
            SearchFocusState::Tracks => SearchPageUIState {
                track_list: self.track_list.selecting(i),
                ..self
            },
            SearchFocusState::Albums => SearchPageUIState {
                album_list: self.album_list.selecting(i),
                ..self
            },
            SearchFocusState::Artists => SearchPageUIState {
                artist_list: self.artist_list.selecting(i),
                ..self
            },
            SearchFocusState::Playlists => SearchPageUIState {
                playlist_list: self.playlist_list.selecting(i),
                ..self
            },
            SearchFocusState::Shows => SearchPageUIState {
                show_list: self.show_list.selecting(i),
                ..self
            },
            SearchFocusState::Episodes => SearchPageUIState {
                episode_list: self.episode_list.selecting(i),
                ..self
            },
        }
    }

    fn selected(&self) -> (r: Option<usize>)
        ensures
            r == self.selection(),
    {
        match self.focus {
            SearchFocusState::Input => None,
            SearchFocusState::Tracks => self.track_list.selected,
            SearchFocusState::Albums => self.album_list.selected,
            SearchFocusState::Artists => self.artist_list.selected,
            SearchFocusState::Playlists => self.playlist_list.selected,
            SearchFocusState::Shows => self.show_list.selected,
            SearchFocusState::Episodes => self.episode_list.selected,
        }
    }

    fn select(&mut self, i: usize)
        ensures
            *final(self) == old(self).selecting(i),
    {
        match self.focus {
            SearchFocusState::Input => {},
            SearchFocusState::Tracks => self.track_list.select(Some(i)),
            SearchFocusState::Albums => self.album_list.select(Some(i)),
            SearchFocusState::Artists => self.artist_list.select(Some(i)),
            SearchFocusState::Playlists => self.playlist_list.select(Some(i)),
            SearchFocusState::Shows => self.show_list.select(Some(i)),
            SearchFocusState::Episodes => self.episode_list.select(Some(i)),
        }
    }
}

impl ContextPageUIState {
    /// The selection of the window in focus.
    pub open spec fn selection(self) -> Option<usize> {
        match self {
            ContextPageUIState::Playlist { track_table } => track_table.selected,
            ContextPageUIState::Album { track_table } => track_table.selected,
            ContextPageUIState::Artist {
                top_track_table,
                album_table,
                related_artist_list,
                focus,
            } => match focus {
                ArtistFocusState::TopTracks => top_track_table.selected,
                ArtistFocusState::Albums => album_table.selected,
                ArtistFocusState::RelatedArtists => related_artist_list.selected,
            },
            ContextPageUIState::Tracks { track_table } => track_table.selected,
            ContextPageUIState::Show { episode_table } => episode_table.selected,
        }
    }

    /// The page with `i` selected in the window in focus.
    pub open spec fn selecting(self, i: usize) -> ContextPageUIState {
        match self {
            ContextPageUIState::Playlist { track_table } => ContextPageUIState::Playlist {
                track_table: track_table.selecting(i),
            },
            ContextPageUIState::Album { track_table } => ContextPageUIState::Album {
                track_table: track_table.selecting(i),
            },
            ContextPageUIState::Artist {
                top_track_table,
                album_table,
                related_artist_list,
                focus,
            } => match focus {
                ArtistFocusState::TopTracks => ContextPageUIState::Artist {
                    top_track_table: top_track_table.selecting(i),
                    album_table,
                    related_artist_list,
                    focus,
                },
                ArtistFocusState::Albums => ContextPageUIState::Artist {
                    top_track_table,
                    album_table: album_table.selecting(i),
                    related_artist_list,
                    focus,
                },
                ArtistFocusState::RelatedArtists => ContextPageUIState::Artist {
                    top_track_table,
                    album_table,
                    related_artist_list: related_artist_list.selecting(i),
                    focus,
                },
            },
            ContextPageUIState::Tracks { track_table } => ContextPageUIState::Tracks {
                track_table: track_table.selecting(i),
            },
            ContextPageUIState::Show { episode_table } => ContextPageUIState::Show {
                episode_table: episode_table.selecting(i),
            },
        }
    }

    /// The page with another window in focus, which only an artist's page has.
    pub open spec fn focusing(self, focus: ArtistFocusState) -> ContextPageUIState {
        match self {
            ContextPageUIState::Artist { top_track_table, album_table, related_artist_list, .. } =>
                ContextPageUIState::Artist {
                top_track_table,
                album_table,
                related_artist_list,
                focus,
            },
            _ => self,
        }
    }

    /// The page with the focus on the next window.
    pub open spec fn after(self) -> ContextPageUIState {
        match self {
            ContextPageUIState::Artist { focus, .. } => self.focusing(focus.after()),
            _ => self,
        }
    }

    /// The page with the focus on the window before.
    pub open spec fn before(self) -> ContextPageUIState {
        match self {
            ContextPageUIState::Artist { focus, .. } => self.focusing(focus.before()),
            _ => self,
        }
    }

    fn selected(&self) -> (r: Option<usize>)
        ensures
            r == self.selection(),
    {
        match self {
            ContextPageUIState::Playlist { track_table } => track_table.selected,
            ContextPageUIState::Album { track_table } => track_table.selected,
            ContextPageUIState::Artist {
                top_track_table,
                album_table,
                related_artist_list,
                focus,
            } => match focus {
                ArtistFocusState::TopTracks => top_track_table.selected,
                ArtistFocusState::Albums => album_table.selected,
                ArtistFocusState::RelatedArtists => related_artist_list.selected,
            },
            ContextPageUIState::Tracks { track_table } => track_table.selected,
            ContextPageUIState::Show { episode_table } => episode_table.selected,
        }
    }

    fn select(&mut self, i: usize)
        ensures
            *final(self) == old(self).selecting(i),
    {
        match self {
            ContextPageUIState::Playlist { track_table } => track_table.select(Some(i)),
            ContextPageUIState::Album { track_table } => track_table.select(Some(i)),
            ContextPageUIState::Artist {
                top_track_table,
                album_table,
                related_artist_list,
                focus,
            } => match focus {
                ArtistFocusState::TopTracks => top_track_table.select(Some(i)),
                ArtistFocusState::Albums => album_table.select(Some(i)),
                ArtistFocusState::RelatedArtists => related_artist_list.select(Some(i)),
            },
            ContextPageUIState::Tracks { track_table } => track_table.select(Some(i)),
            ContextPageUIState::Show { episode_table } => episode_table.select(Some(i)),
        }
    }
}

impl BrowsePageUIState {
    /// The list that the page shows.
    pub open spec fn list(self) -> ListState {
        match self {
            BrowsePageUIState::CategoryList { state } => state,
            BrowsePageUIState::CategoryPlaylistList { state, .. } => state,
        }
    }

    /// The page with `i` selected.
    pub open spec fn selecting(self, i: usize) -> BrowsePageUIState {
        match self {
            BrowsePageUIState::CategoryList { state } => BrowsePageUIState::CategoryList {
                state: state.selecting(i),
            },
            BrowsePageUIState::CategoryPlaylistList { category, state } =>
                BrowsePageUIState::CategoryPlaylistList { category, state: state.selecting(i) },
        }
    }
}

impl PageView {
    /// The selection of the window in focus. A page of text has its place in the text for one.
    pub open spec fn selection(self) -> Option<usize> {
        match self {
            PageView::Library { state } => state.selection(),
            PageView::Context { state: Some(state), .. } => state.selection(),
            PageView::Context { state: None, .. } => None,
            PageView::Search { state, .. } => state.selection(),
            PageView::Lyrics { .. } => None,
            PageView::Browse { state } => state.list().selected,
            PageView::Queue { scroll_offset } => Some(scroll_offset),
            PageView::CommandHelp { scroll_offset } => Some(scroll_offset),
        }
    }

    /// The page with `i` selected in the window in focus.
    pub open spec fn selecting(self, i: usize) -> PageView {
        match self {
            PageView::Library { state } => PageView::Library { state: state.selecting(i) },
            PageView::Context { id, context_page_type, state: Some(state) } => PageView::Context {
                id,
                context_page_type,
                state: Some(state.selecting(i)),
            },
            PageView::Context { state: None, .. } => self,
            PageView::Search { line_input, current_query, state } => PageView::Search {
                line_input,
                current_query,
                state: state.selecting(i),
            },
            PageView::Lyrics { .. } => self,
            PageView::Browse { state } => PageView::Browse { state: state.selecting(i) },
            PageView::Queue { .. } => PageView::Queue { scroll_offset: i },
            PageView::CommandHelp { .. } => PageView::CommandHelp { scroll_offset: i },
        }
    }

    /// The page with the focus on the next window.
    pub open spec fn after(self) -> PageView {
        match self {
            PageView::Library { state } => PageView::Library {
                state: LibraryPageUIState { focus: state.focus.after(), ..state },
            },
            PageView::Context { id, context_page_type, state: Some(state) } => PageView::Context {
                id,
                context_page_type,
                state: Some(state.after()),
            },
            PageView::Search { line_input, current_query, state } => PageView::Search {
                line_input,
                current_query,
                state: SearchPageUIState { focus: state.focus.after(), ..state },
            },
            _ => self,
        }
    }

    /// The page with the focus on the window before.
    pub open spec fn before(self) -> PageView {
        match self {
            PageView::Library { state } => PageView::Library {
                state: LibraryPageUIState { focus: state.focus.before(), ..state },
            },
            PageView::Context { id, context_page_type, state: Some(state) } => PageView::Context {
                id,
                context_page_type,
                state: Some(state.before()),
            },
            PageView::Search { line_input, current_query, state } => PageView::Search {
                line_input,
                current_query,
                state: SearchPageUIState { focus: state.focus.before(), ..state },
            },
            _ => self,
        }
    }
}

impl PageState {
    /// The selection of the window in focus.
    pub fn selected(&self) -> (r: Option<usize>)
        ensures
            r == self@.selection(),
    {
        match self {
            PageState::Library { state } => state.selected(),
            PageState::Context { state, .. } => match state {
                Some(state) => state.selected(),
                None => None,
            },
            PageState::Search { state, .. } => state.selected(),
            PageState::Lyrics { .. } => None,
            PageState::Browse { state } => match state {
                BrowsePageUIState::CategoryList { state } => state.selected,
                BrowsePageUIState::CategoryPlaylistList { state, .. } => state.selected,
            },
            PageState::Queue { scroll_offset } => Some(*scroll_offset),
            PageState::CommandHelp { scroll_offset } => Some(*scroll_offset),
        }
    }

    /// Selects the item `i` of the window in focus.
    pub fn select(&mut self, i: usize)
        ensures
            final(self)@ == old(self)@.selecting(i),
    {
        match self {
            PageState::Library { state } => state.select(i),
            PageState::Context { state, .. } => match state {
                Some(state) => state.select(i),
                None => {},
            },
            PageState::Search { state, .. } => state.select(i),
            PageState::Lyrics { .. } => {},
            PageState::Browse { state } => match state {
                BrowsePageUIState::CategoryList { state } => state.select(Some(i)),
                BrowsePageUIState::CategoryPlaylistList { state, .. } => state.select(Some(i)),
            },
            PageState::Queue { scroll_offset } => {
                *scroll_offset = i;
            },
            PageState::CommandHelp { scroll_offset } => {
                *scroll_offset = i;
            },
        }
    }

    /// Moves the focus to the next window of the page.
    pub fn next(&mut self)
        ensures
            final(self)@ == old(self)@.after(),
    {
        match self {
            PageState::Library { state } => state.focus.next(),
            PageState::Search { state, .. } => state.focus.next(),
            PageState::Context { state, .. } => match state {
                Some(ContextPageUIState::Artist { focus, .. }) => focus.next(),
                _ => {},
            },
            _ => {},
        }
    }

    /// Moves the focus to the window before.
    pub fn previous(&mut self)
        ensures
            final(self)@ == old(self)@.before(),
    {
        match self {
            PageState::Library { state } => state.focus.previous(),
            PageState::Search { state, .. } => state.focus.previous(),
            PageState::Context { state, .. } => match state {
                Some(ContextPageUIState::Artist { focus, .. }) => focus.previous(),
                _ => {},
            },
            _ => {},
        }
    }
}

/// Moving the focus on and back again, in either order, leaves a page as it was.
pub proof fn law_focus_cycles(page: PageView)
    ensures
        page.after().before() == page,
        page.before().after() == page,
{
}

/// What has been selected in the window in focus is what is read back, on every page that has
/// something to select.
pub proof fn law_select_then_selected(page: PageView, i: usize)
    ensures
        page.selecting(i).selection() == (match page {
            PageView::Lyrics { .. } => None,
            PageView::Context { state: None, .. } => None,
            PageView::Search { state, .. } => if state.focus == SearchFocusState::Input {
                None
            } else {
                Some(i)
            },
            _ => Some(i),
        }),
{
}

} // verus!
