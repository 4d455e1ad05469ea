//! The popups of the interface.

use vstd::prelude::*;
use vstd::string::*;

use crate::command::ActionListItem;
use crate::ids::EpisodeId;
use crate::ids::TrackId;
use crate::layout::ListState;
use crate::model::Artist;
use crate::page::LineInput;
use crate::page::LineInputView;

verus! {

/// A color theme. `index` is its place in the configuration, by which its colors are found.
#[derive(Debug)]
pub struct Theme {
    pub name: String,
    pub index: usize,
}

impl Clone for Theme {
    fn clone(&self) -> (r: Theme)
        ensures
            r == *self,
    {
        Theme { name: self.name.clone(), index: self.index }
    }
}

/// What choosing one of the user's playlists does.
#[derive(Debug)]
pub enum PlaylistPopupAction {
    Browse { folder_id: usize, search_query: String },
    AddTrack { folder_id: usize, track_id: TrackId, search_query: String },
    AddEpisode { folder_id: usize, episode_id: EpisodeId, search_query: String },
}

/// What choosing one of the user's playlists does.
pub enum PlaylistPopupView {
    Browse { folder_id: usize, search_query: Seq<char> },
    AddTrack { folder_id: usize, track_id: TrackId, search_query: Seq<char> },
    AddEpisode { folder_id: usize, episode_id: EpisodeId, search_query: Seq<char> },
}

impl View for PlaylistPopupAction {
    type V = PlaylistPopupView;

    open spec fn view(&self) -> PlaylistPopupView {
        match *self {
            PlaylistPopupAction::Browse { folder_id, search_query } => PlaylistPopupView::Browse {
                folder_id,
                search_query: search_query@,
            },
            PlaylistPopupAction::AddTrack { folder_id, track_id, search_query } =>
                PlaylistPopupView::AddTrack { folder_id, track_id, search_query: search_query@ },
            PlaylistPopupAction::AddEpisode { folder_id, episode_id, search_query } =>
                PlaylistPopupView::AddEpisode { folder_id, episode_id, search_query: search_query@ },
        }
    }
}

/// What choosing one of several artists does.
#[derive(Debug, Clone, Copy, PartialEq, Eq, Structural)]
pub enum ArtistPopupAction {
    Browse,
    ShowActions,
}

/// The field of a new playlist that is being typed.
#[derive(Debug, Clone, Copy, PartialEq, Eq, Structural)]
pub enum PlaylistCreateCurrentField {
    Name,
    Desc,
}

/// A popup with its state.
#[derive(Debug)]
pub enum PopupState {
    Search { query: String },
    UserPlaylistList(PlaylistPopupAction, ListState),
    UserFollowedArtistList(ListState),
    UserSavedAlbumList(ListState),
    DeviceList(ListState),
    ArtistList(ArtistPopupAction, Vec<Artist>, ListState),
    ThemeList(Vec<Theme>, ListState),
    ActionList(Box<ActionListItem>, ListState),
    PlaylistCreate {
        name: LineInput,
        desc: LineInput,
        current_field: PlaylistCreateCurrentField,
    },
}

/// What a popup shows.
pub enum PopupView {
    Search { query: Seq<char> },
    UserPlaylistList(PlaylistPopupView, ListState),
    UserFollowedArtistList(ListState),
    UserSavedAlbumList(ListState),
    DeviceList(ListState),
    ArtistList(ArtistPopupAction, Seq<Artist>, ListState),
    ThemeList(Seq<Theme>, ListState),
    ActionList(ActionListItem, ListState),
    PlaylistCreate {
        name: LineInputView,
        desc: LineInputView,
        current_field: PlaylistCreateCurrentField,
    },
}

impl View for PopupState {
    type V = PopupView;

    open spec fn view(&self) -> PopupView {
        match *self {
            PopupState::Search { query } => PopupView::Search { query: query@ },
            PopupState::UserPlaylistList(action, list) => PopupView::UserPlaylistList(
                action@,
                list,
            ),
            PopupState::UserFollowedArtistList(list) => PopupView::UserFollowedArtistList(list),
            PopupState::UserSavedAlbumList(list) => PopupView::UserSavedAlbumList(list),
            PopupState::DeviceList(list) => PopupView::DeviceList(list),
            PopupState::ArtistList(action, artists, list) => PopupView::ArtistList(
                action,
                artists@,
                list,
            ),
            PopupState::ThemeList(themes, list) => PopupView::ThemeList(themes@, list),
            PopupState::ActionList(item, list) => PopupView::ActionList(*item, list),
            PopupState::PlaylistCreate { name, desc, current_field } => PopupView::PlaylistCreate {
                name: name@,
                desc: desc@,
                current_field,
            },
        }
    }
}

} // verus!
