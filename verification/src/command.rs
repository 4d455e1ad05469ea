//! The commands and actions that keys are bound to.

use vstd::prelude::*;

use crate::model::Album;
use crate::model::Artist;
use crate::model::Episode;
use crate::model::Playlist;
use crate::model::PlaylistFolder;
use crate::model::Show;
use crate::model::Track;

verus! {

/// What a key sequence can ask for.
#[derive(Debug, Clone, Copy, PartialEq, Eq, Structural)]
pub enum Command {
    NextTrack,
    PreviousTrack,
    ResumePause,
    Repeat,
    ToggleFakeTrackRepeatMode,
    Shuffle,
    VolumeChange { offset: i32 },
    Mute,
    SeekForward { duration: Option<u16> },
    SeekBackward { duration: Option<u16> },
    Quit,
    ClosePopup,
    SelectNextOrScrollDown,
    SelectPreviousOrScrollUp,
    PageSelectNextOrScrollDown,
    PageSelectPreviousOrScrollUp,
    SelectFirstOrScrollToTop,
    SelectLastOrScrollToBottom,
    ChooseSelected,
    JumpToCurrentTrackInContext,
    RefreshPlayback,
    RestartIntegratedClient,
    ShowActionsOnSelectedItem,
    ShowActionsOnCurrentTrack,
    AddSelectedItemToQueue,
    FocusNextWindow,
    FocusPreviousWindow,
    SwitchTheme,
    SwitchDevice,
    Search,
    BrowseUserPlaylists,
    BrowseUserFollowedArtists,
    BrowseUserSavedAlbums,
    CurrentlyPlayingContextPage,
    TopTrackPage,
    RecentlyPlayedTrackPage,
    LikedTrackPage,
    LyricsPage,
    LibraryPage,
    SearchPage,
    BrowsePage,
    Queue,
    OpenCommandHelp,
    PreviousPage,
    OpenSpotifyLinkFromClipboard,
    CreatePlaylist,
}

/// What can be done with an item.
#[derive(Debug, Clone, Copy, PartialEq, Eq, Structural)]
pub enum Action {
    GoToArtist,
    GoToAlbum,
    GoToRadio,
    GoToShow,
    AddToLibrary,
    AddToPlaylist,
    AddToQueue,
    AddToLiked,
    DeleteFromLiked,
    DeleteFromLibrary,
    DeleteFromPlaylist,
    ShowActionsOnAlbum,
    ShowActionsOnArtist,
    ShowActionsOnShow,
    ToggleLiked,
    CopyLink,
    Follow,
    Unfollow,
}

/// Which item an action is meant for.
#[derive(Debug, Clone, Copy, PartialEq, Eq, Structural)]
pub enum ActionTarget {
    PlayingTrack,
    SelectedItem,
}

/// What a key sequence is bound to.
#[derive(Debug, Clone, Copy, PartialEq, Eq, Structural)]
pub enum CommandOrAction {
    Command(Command),
    Action(Action, ActionTarget),
}

/// The item that an action is done with.
#[derive(Debug)]
pub enum ActionContext {
    Track(Track),
    Album(Album),
    Artist(Artist),
    Playlist(Playlist),
    PlaylistFolder(PlaylistFolder),
    Show(Show),
    Episode(Episode),
}

/// An item whose actions are to be listed.
#[derive(Debug)]
pub enum ActionSubject {
    Track(Track),
    Album(Album),
    Artist(Artist),
    Show(Show),
    Episode(Episode),
}

/// An item with the actions that can be done with it.
#[derive(Debug)]
pub enum ActionListItem {
    Track(Track, Vec<Action>),
    Album(Album, Vec<Action>),
    Artist(Artist, Vec<Action>),
    Show(Show, Vec<Action>),
    Episode(Episode, Vec<Action>),
}

} // verus!
