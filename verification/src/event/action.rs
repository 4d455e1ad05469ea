//! The actions on an item.

use vstd::prelude::*;
use vstd::string::*;

use crate::client::ClientRequest;
use crate::client::Outbox;
use crate::client::OutboxView;
use crate::client::RequestView;
use crate::command::Action;
use crate::command::ActionContext;
use crate::command::ActionListItem;
use crate::command::ActionSubject;
use crate::command::ActionTarget;
use crate::error::ErrorView;
use crate::error::HandlerError;
use crate::event::step::applied;
use crate::event::step::asks;
use crate::event::step::ignored;
use crate::event::step::Outcome;
use crate::event::step::result_view;
use crate::event::step::sends;
use crate::event::step::Step;
use crate::event::step::StepView;
use crate::ids::AlbumId;
use crate::ids::album_uri;
use crate::ids::artist_uri;
use crate::ids::ContextId;
use crate::ids::ContextIdView;
use crate::ids::is_plain_id;
use crate::ids::ItemId;
use crate::ids::PlayableId;
use crate::ids::playlist_uri;
use crate::ids::ShowId;
use crate::ids::show_uri;
use crate::ids::track_uri;
use crate::ids::uri_names;
use crate::ids::uri_with;
use crate::layout::fresh_list;
use crate::layout::ListState;
use crate::model::Album;
use crate::model::Artist;
use crate::model::Episode;
use crate::model::Item;
use crate::model::Playlist;
use crate::model::Show;
use crate::model::Track;
use crate::model::UserData;
use crate::page::ContextPageType;
use crate::page::PageState;
use crate::page::PageView;
use crate::player::PlayingItem;
use crate::popup::ArtistPopupAction;
use crate::popup::PlaylistPopupAction;
use crate::popup::PlaylistPopupView;
use crate::popup::PopupState;
use crate::popup::PopupView;
use crate::text::concat;
use crate::text::lemma_split_on_append;
use crate::text::parse_uri;
use crate::text::short_uri;
use crate::text::split_on;
use crate::ui::browsing;
use crate::ui::radio_of;
use crate::ui::UIState;
use crate::ui::UIView;

verus! {

/// The interface after going to one of `artists`: to the page of the only one, or else to the
/// choice between them.
pub open spec fn going_to_artist(ui: UIView, artists: Seq<Artist>) -> UIView {
    if artists.len() == 1 {
        ui.opening(browsing(ContextIdView::Artist(artists[0].id@)))
    } else {
        ui.with_popup(
            Some(PopupView::ArtistList(ArtistPopupAction::Browse, artists, fresh_list())),
        )
    }
}

/// Goes to the page of the only artist, or lets the user choose.
pub fn handle_go_to_artist(artists: Vec<Artist>, ui: &mut UIState)
    ensures
        final(ui)@ == going_to_artist(old(ui)@, artists@),
{
    if artists.len() == 1 {
        let context_id = ContextId::Artist(artists[0].id.clone());
        ui.new_page(
            PageState::Context {
                id: None,
                context_page_type: ContextPageType::Browsing(context_id),
                state: None,
            },
        );
    } else {
        ui.popup = Some(
            PopupState::ArtistList(ArtistPopupAction::Browse, artists, ListState::default()),
        );
    }
}

/// What listing the actions on one of `artists` comes to: on the only one, or else on the one that
/// is chosen from the popup.
pub open spec fn showing_artist_actions(
    ui: UIView,
    client: OutboxView,
    artists: Seq<Artist>,
) -> Outcome {
    if artists.len() == 1 {
        asks(StepView::ShowActions(ActionSubject::Artist(artists[0])), ui, client)
    } else {
        applied(
            ui.with_popup(
                Some(PopupView::ArtistList(ArtistPopupAction::ShowActions, artists, fresh_list())),
            ),
            client,
        )
    }
}

/// Lists the actions on the only artist, or lets the user choose.
pub fn handle_show_actions_on_artist(artists: Vec<Artist>, ui: &mut UIState) -> (r: Step)
    ensures
        artists@.len() == 1 ==> r@ == StepView::ShowActions(ActionSubject::Artist(artists@[0]))
            && *final(ui) == *old(ui),
        artists@.len() != 1 ==> r@ == StepView::Handled(true) && final(ui)@ == old(ui)@.with_popup(
            Some(PopupView::ArtistList(ArtistPopupAction::ShowActions, artists@, fresh_list())),
        ),
{
    if artists.len() == 1 {
        Step::ShowActions(ActionSubject::Artist(artists[0].clone()))
    } else {
        ui.popup = Some(
            PopupState::ArtistList(ArtistPopupAction::ShowActions, artists, ListState::default()),
        );
        Step::Handled(true)
    }
}

/// The popup that lists `actions` for `subject`.
pub open spec fn action_popup(subject: ActionSubject, actions: Vec<Action>) -> PopupView {
    PopupView::ActionList(
        match subject {
            ActionSubject::Track(track) => ActionListItem::Track(track, actions),
            ActionSubject::Album(album) => ActionListItem::Album(album, actions),
            ActionSubject::Artist(artist) => ActionListItem::Artist(artist, actions),
            ActionSubject::Show(show) => ActionListItem::Show(show, actions),
            ActionSubject::Episode(episode) => ActionListItem::Episode(episode, actions),
        },
        fresh_list(),
    )
}

/// Lists the actions that were found for an item.
pub fn open_action_list(subject: ActionSubject, actions: Vec<Action>, ui: &mut UIState) -> (r: Step)
    ensures
        r == Step::Handled(true),
        final(ui)@ == old(ui)@.with_popup(Some(action_popup(subject, actions))),
{
    let item = match subject {
        ActionSubject::Track(track) => ActionListItem::Track(track, actions),
        ActionSubject::Album(album) => ActionListItem::Album(album, actions),
        ActionSubject::Artist(artist) => ActionListItem::Artist(artist, actions),
        ActionSubject::Show(show) => ActionListItem::Show(show, actions),
        ActionSubject::Episode(episode) => ActionListItem::Episode(episode, actions),
    };
    ui.popup = Some(PopupState::ActionList(Box::new(item), ListState::default()));
    Step::Handled(true)
}

/// What the end of the copying of a link comes to.
pub open spec fn link_copied(copied: Result<(), String>, ui: UIView) -> (
    Result<StepView, ErrorView>,
    UIView,
) {
    match copied {
        Ok(()) => (Ok(StepView::Handled(true)), ui.with_popup(None)),
        Err(reason) => (Err(ErrorView::Copy(reason@)), ui),
    }
}

/// Ends the copying of a link: the popup closes if the link is in the clipboard. Otherwise the reason
/// why it is not is handed on.
pub fn finish_copy_link(copied: Result<(), String>, ui: &mut UIState) -> (r: Result<
    Step,
    HandlerError,
>)
    ensures
        (result_view(r), final(ui)@) == link_copied(copied, old(ui)@),
        copied is Ok ==> r == Ok::<Step, HandlerError>(Step::Handled(true)) && final(ui)@ == old(
            ui,
        )@.with_popup(None),
        copied matches Err(reason) ==> r == Err::<Step, HandlerError>(HandlerError::Copy(reason))
            && *final(ui) == *old(ui),
{
    match copied {
        Ok(()) => {
            ui.popup = None;
            Ok(Step::Handled(true))
        },
        Err(reason) => Err(HandlerError::Copy(reason)),
    }
}

/// The popup in which a playlist is chosen that `track` is added to.
pub open spec fn adding_track(track: Track) -> PopupView {
    PopupView::UserPlaylistList(
        PlaylistPopupView::AddTrack { folder_id: 0, track_id: track.id, search_query: Seq::empty() },
        fresh_list(),
    )
}

/// The popup in which a playlist is chosen that `episode` is added to.
pub open spec fn adding_episode(episode: Episode) -> PopupView {
    PopupView::UserPlaylistList(
        PlaylistPopupView::AddEpisode {
            folder_id: 0,
            episode_id: episode.id,
            search_query: Seq::empty(),
        },
        fresh_list(),
    )
}

/// What starting the radio of an item comes to: its page opens, then the tracks are requested.
pub open spec fn going_to_radio(
    ui: UIView,
    client: OutboxView,
    uri: Seq<char>,
    name: Seq<char>,
) -> Outcome {
    let opened = ui.opening(browsing(radio_of(uri)));
    sends(opened, client, RequestView::RadioTracks { seed_uri: uri, seed_name: name }, opened)
}

/// What an action on a track comes to.
pub open spec fn track_outcome(
    action: Action,
    track: Track,
    data: UserData,
    ui: UIView,
    client: OutboxView,
) -> Outcome {
    let closed = ui.with_popup(None);
    match action {
        Action::GoToAlbum => match track.album {
            Some(album) => applied(
                ui.opening(browsing(ContextIdView::Album(album.id@))),
                client,
            ),
            None => ignored(ui, client),
        },
        Action::GoToArtist => applied(going_to_artist(ui, track.artists@), client),
        Action::AddToQueue => sends(
            ui,
            client,
            RequestView::Plain(ClientRequest::AddPlayableToQueue(PlayableId::Track(track.id))),
            closed,
        ),
        Action::CopyLink => asks(
            StepView::CopyLink("https://open.spotify.com/track/"@ + track.id@),
            ui,
            client,
        ),
        Action::AddToPlaylist => sends(
            ui,
            client,
            RequestView::Plain(ClientRequest::GetUserPlaylists),
            ui.with_popup(Some(adding_track(track))),
        ),
        Action::ToggleLiked => sends(
            ui,
            client,
            RequestView::Plain(
                if data.likes(track.id@) {
                    ClientRequest::DeleteFromLibrary(ItemId::Track(track.id))
                } else {
                    ClientRequest::AddToLibrary(Item::Track(track))
                },
            ),
            closed,
        ),
        Action::AddToLiked => sends(
            ui,
            client,
            RequestView::Plain(ClientRequest::AddToLibrary(Item::Track(track))),
            closed,
        ),
        Action::DeleteFromLiked => sends(
            ui,
            client,
            RequestView::Plain(ClientRequest::DeleteFromLibrary(ItemId::Track(track.id))),
            closed,
        ),
        Action::GoToRadio => going_to_radio(ui, client, track_uri(track.id@), track.name@),
        Action::ShowActionsOnArtist => showing_artist_actions(ui, client, track.artists@),
        Action::ShowActionsOnAlbum => match track.album {
            Some(album) => asks(StepView::ShowActions(ActionSubject::Album(album)), ui, client),
            None => ignored(ui, client),
        },
        Action::DeleteFromPlaylist => match ui.page() {
            PageView::Context { id: Some(ContextIdView::Playlist(playlist)), .. } => sends(
                ui,
                client,
                RequestView::DeleteTrackFromPlaylist { playlist, track: track.id },
                closed,
            ),
            _ => applied(closed, client),
        },
        _ => ignored(ui, client),
    }
}

/// What an action on an album comes to.
pub open spec fn album_outcome(
    action: Action,
    album: Album,
    data: UserData,
    ui: UIView,
    client: OutboxView,
) -> Outcome {
    let closed = ui.with_popup(None);
    match action {
        Action::GoToArtist => applied(going_to_artist(ui, album.artists@), client),
        Action::GoToRadio => going_to_radio(ui, client, album_uri(album.id@), album.name@),
        Action::ShowActionsOnArtist => showing_artist_actions(ui, client, album.artists@),
        Action::AddToLibrary => sends(
            ui,
            client,
            RequestView::Plain(ClientRequest::AddToLibrary(Item::Album(album))),
            closed,
        ),
        Action::DeleteFromLibrary => if data.saves_album(album.id@) {
            sends(
                ui,
                client,
                RequestView::Plain(ClientRequest::DeleteFromLibrary(ItemId::Album(album.id))),
                closed,
            )
        } else {
            applied(ui, client)
        },
        Action::CopyLink => asks(
            StepView::CopyLink("https://open.spotify.com/album/"@ + album.id@),
            ui,
            client,
        ),
        Action::AddToQueue => sends(
            ui,
            client,
            RequestView::Plain(ClientRequest::AddAlbumToQueue(album.id)),
            closed,
        ),
        _ => ignored(ui, client),
    }
}

/// What an action on an artist comes to.
pub open spec fn artist_outcome(
    action: Action,
    artist: Artist,
    data: UserData,
    ui: UIView,
    client: OutboxView,
) -> Outcome {
    let closed = ui.with_popup(None);
    match action {
        Action::Follow => sends(
            ui,
            client,
            RequestView::Plain(ClientRequest::AddToLibrary(Item::Artist(artist))),
            closed,
        ),
        Action::Unfollow => if data.follows(artist.id@) {
            sends(
                ui,
                client,
                RequestView::Plain(ClientRequest::DeleteFromLibrary(ItemId::Artist(artist.id))),
                closed,
            )
        } else {
            applied(ui, client)
        },
        Action::CopyLink => asks(
            StepView::CopyLink("https://open.spotify.com/artist/"@ + artist.id@),
            ui,
            client,
        ),
        Action::GoToRadio => going_to_radio(ui, client, artist_uri(artist.id@), artist.name@),
        _ => ignored(ui, client),
    }
}

/// What an action on a playlist comes to.
pub open spec fn playlist_outcome(
    action: Action,
    playlist: Playlist,
    data: UserData,
    ui: UIView,
    client: OutboxView,
) -> Outcome {
    let closed = ui.with_popup(None);
    match action {
        Action::AddToLibrary => sends(
            ui,
            client,
            RequestView::Plain(ClientRequest::AddToLibrary(Item::Playlist(playlist))),
            closed,
        ),
        Action::GoToRadio => going_to_radio(ui, client, playlist_uri(playlist.id@), playlist.name@),
        Action::CopyLink => asks(
            StepView::CopyLink("https://open.spotify.com/playlist/"@ + playlist.id@),
            ui,
            client,
        ),
        Action::DeleteFromLibrary => if data.saves_playlist(playlist.id@) {
            sends(
                ui,
                client,
                RequestView::Plain(ClientRequest::DeleteFromLibrary(ItemId::Playlist(playlist.id))),
                closed,
            )
        } else {
            applied(ui, client)
        },
        _ => ignored(ui, client),
    }
}

/// What an action on a show comes to.
pub open spec fn show_outcome(
    action: Action,
    show: Show,
    data: UserData,
    ui: UIView,
    client: OutboxView,
) -> Outcome {
    let closed = ui.with_popup(None);
    match action {
        Action::CopyLink => asks(
            StepView::CopyLink("https://open.spotify.com/show/"@ + show.id@),
            ui,
            client,
        ),
        Action::AddToLibrary => sends(
            ui,
            client,
            RequestView::Plain(ClientRequest::AddToLibrary(Item::Show(show))),
            closed,
        ),
        Action::DeleteFromLibrary => if data.saves_show(show.id@) {
            sends(
                ui,
                client,
                RequestView::Plain(ClientRequest::DeleteFromLibrary(ItemId::Show(show.id))),
                closed,
            )
        } else {
            applied(ui, client)
        },
        _ => ignored(ui, client),
    }
}

/// What an action on an episode comes to.
pub open spec fn episode_outcome(
    action: Action,
    episode: Episode,
    ui: UIView,
    client: OutboxView,
) -> Outcome {
    match action {
        Action::GoToShow => match episode.show {
            Some(show) => applied(ui.opening(browsing(ContextIdView::Show(show.id@))), client),
            None => ignored(ui, client),
        },
        Action::AddToQueue => sends(
            ui,
            client,
            RequestView::Plain(ClientRequest::AddPlayableToQueue(PlayableId::Episode(episode.id))),
            ui.with_popup(None),
        ),
        Action::CopyLink => asks(
            StepView::CopyLink("https://open.spotify.com/episode/"@ + episode.id@),
            ui,
            client,
        ),
        Action::AddToPlaylist => sends(
            ui,
            client,
            RequestView::Plain(ClientRequest::GetUserPlaylists),
            ui.with_popup(Some(adding_episode(episode))),
        ),
        Action::ShowActionsOnShow => match episode.show {
            Some(show) => asks(StepView::ShowActions(ActionSubject::Show(show)), ui, client),
            None => ignored(ui, client),
        },
        _ => ignored(ui, client),
    }
}

/// What an action on an item comes to.
pub open spec fn action_outcome(
    action: Action,
    context: ActionContext,
    data: UserData,
    ui: UIView,
    client: OutboxView,
) -> Outcome {
    match context {
        ActionContext::Track(track) => track_outcome(action, track, data, ui, client),
        ActionContext::Album(album) => album_outcome(action, album, data, ui, client),
        ActionContext::Artist(artist) => artist_outcome(action, artist, data, ui, client),
        ActionContext::Playlist(playlist) => playlist_outcome(action, playlist, data, ui, client),
        ActionContext::Show(show) => show_outcome(action, show, data, ui, client),
        ActionContext::Episode(episode) => episode_outcome(action, episode, ui, client),
        ActionContext::PlaylistFolder(_) => ignored(ui, client),
    }
}

/// The URI of an item is already short, and names the item by its id.
proof fn lemma_own_uri(prefix: Seq<char>, kind: Seq<char>, id: Seq<char>)
    requires
        is_plain_id(id),
        split_on(prefix, ':').len() == 3,
        prefix == "spotify"@.push(':') + kind.push(':'),
    ensures
        short_uri(prefix + id) == prefix + id,
        uri_names(prefix + id, kind, id),
{
    assert(!id.contains(':'));
    lemma_split_on_append(prefix, id, ':');
    assert(prefix + id == uri_with(':', kind, id));
}

/// The album's own URI leads back to the album.
proof fn lemma_album_uri(id: Seq<char>)
    requires
        is_plain_id(id),
    ensures
        short_uri(album_uri(id)) == album_uri(id),
        uri_names(album_uri(id), "album"@, id),
{
    reveal_strlit("spotify:album:");
    reveal_strlit("spotify");
    reveal_strlit("album");
    let prefix = "spotify:album:"@;
    assert(prefix =~= "spotify"@.push(':') + "album"@.push(':'));
    reveal_with_fuel(split_on, 16);
    assert(split_on(prefix, ':').len() == 3);
    lemma_own_uri(prefix, "album"@, id);
}

/// The show's own URI leads back to the show.
proof fn lemma_show_uri(id: Seq<char>)
    requires
        is_plain_id(id),
    ensures
        short_uri(show_uri(id)) == show_uri(id),
        uri_names(show_uri(id), "show"@, id),
{
    reveal_strlit("spotify:show:");
    reveal_strlit("spotify");
    reveal_strlit("show");
    let prefix = "spotify:show:"@;
    assert(prefix =~= "spotify"@.push(':') + "show"@.push(':'));
    reveal_with_fuel(split_on, 16);
    assert(split_on(prefix, ':').len() == 3);
    lemma_own_uri(prefix, "show"@, id);
}

/// Opens the page of an album.
fn open_album(album: &Album, ui: &mut UIState) -> (r: Result<(), HandlerError>)
    ensures
        r is Ok,
        final(ui)@ == old(ui)@.opening(browsing(ContextIdView::Album(album.id@))),
{
    let uri = album.id.uri();
    proof {
        lemma_album_uri(album.id@);
    }
    let short = parse_uri(uri.as_str());
    match AlbumId::from_uri(short.as_str()) {
        Ok(id) => {
            proof {
                crate::ids::lemma_uri_names_one(short@, "album"@, id@, album.id@);
            }
            ui.new_page(
                PageState::Context {
                    id: None,
                    context_page_type: ContextPageType::Browsing(ContextId::Album(id)),
                    state: None,
                },
            );
            Ok(())
        },
        Err(_) => Err(HandlerError::InvalidId),
    }
}

/// Opens the page of a show.
fn open_show(show: &Show, ui: &mut UIState) -> (r: Result<(), HandlerError>)
    ensures
        r is Ok,
        final(ui)@ == old(ui)@.opening(browsing(ContextIdView::Show(show.id@))),
{
    let uri = show.id.uri();
    proof {
        lemma_show_uri(show.id@);
    }
    let short = parse_uri(uri.as_str());
    match ShowId::from_uri(short.as_str()) {
        Ok(id) => {
            proof {
                crate::ids::lemma_uri_names_one(short@, "show"@, id@, show.id@);
            }
            ui.new_page(
                PageState::Context {
                    id: None,
                    context_page_type: ContextPageType::Browsing(ContextId::Show(id)),
                    state: None,
                },
            );
            Ok(())
        },
        Err(_) => Err(HandlerError::InvalidId),
    }
}

/// Does an action on an item. `data` is what is known of the user's library.
pub fn handle_action_in_context(
    action: Action,
    context: ActionContext,
    client_pub: &mut Outbox,
    data: &UserData,
    ui: &mut UIState,
) -> (r: Result<Step, HandlerError>)
    requires
        old(ui)@.has_page(),
    ensures
        ({
            let o = action_outcome(action, context, *data, old(ui)@, old(client_pub)@);
            result_view(r) == o.result && final(ui)@ == o.ui && final(client_pub)@ == o.client
        }),
        final(ui)@.has_page(),
{
    match context {
        ActionContext::Track(track) => handle_track_action(action, track, client_pub, data, ui),
        ActionContext::Album(album) => handle_album_action(action, album, client_pub, data, ui),
        ActionContext::Artist(artist) => handle_artist_action(action, artist, client_pub, data, ui),
        ActionContext::Playlist(playlist) => {
            handle_playlist_action(action, playlist, client_pub, data, ui)
        },
        ActionContext::Show(show) => handle_show_action(action, show, client_pub, data, ui),
        ActionContext::Episode(episode) => handle_episode_action(action, episode, client_pub, ui),
        ActionContext::PlaylistFolder(_) => Ok(Step::Handled(false)),
    }
}

/// Opens the radio of an item, and requests its tracks.
fn start_radio(uri: String, name: String, client_pub: &mut Outbox, ui: &mut UIState) -> (r: Result<
    Step,
    HandlerError,
>)
    ensures
        ({
            let o = going_to_radio(old(ui)@, old(client_pub)@, uri@, name@);
            result_view(r) == o.result && final(ui)@ == o.ui && final(client_pub)@ == o.client
        }),
{
    ui.new_radio_page(uri.as_str());
    client_pub.send(ClientRequest::GetRadioTracks { seed_uri: uri, seed_name: name })?;
    Ok(Step::Handled(true))
}

/// Sends a request and closes the popup.
fn send_and_close(request: ClientRequest, client_pub: &mut Outbox, ui: &mut UIState) -> (r: Result<
    Step,
    HandlerError,
>)
    ensures
        ({
            let o = sends(old(ui)@, old(client_pub)@, request@, old(ui)@.with_popup(None));
            result_view(r) == o.result && final(ui)@ == o.ui && final(client_pub)@ == o.client
        }),
{
    client_pub.send(request)?;
    ui.popup = None;
    Ok(Step::Handled(true))
}

/// Does an action on a track.
fn handle_track_action(
    action: Action,
    track: Track,
    client_pub: &mut Outbox,
    data: &UserData,
    ui: &mut UIState,
) -> (r: Result<Step, HandlerError>)
    requires
        old(ui)@.has_page(),
    ensures
        ({
            let o = track_outcome(action, track, *data, old(ui)@, old(client_pub)@);
            result_view(r) == o.result && final(ui)@ == o.ui && final(client_pub)@ == o.client
        }),
{
    match action {
        Action::GoToAlbum => {
            if let Some(album) = &track.album {
                open_album(album, ui)?;
                return Ok(Step::Handled(true));
            }
            Ok(Step::Handled(false))
        },
        Action::GoToArtist => {
            handle_go_to_artist(track.artists, ui);
            Ok(Step::Handled(true))
        },
        Action::AddToQueue => send_and_close(
            ClientRequest::AddPlayableToQueue(PlayableId::Track(track.id)),
            client_pub,
            ui,
        ),
        Action::CopyLink => Ok(
            Step::CopyLink(concat("https://open.spotify.com/track/", track.id.id())),
        ),
        Action::AddToPlaylist => {
            client_pub.send(ClientRequest::GetUserPlaylists)?;
            ui.popup = Some(
                PopupState::UserPlaylistList(
                    PlaylistPopupAction::AddTrack {
                        folder_id: 0,
                        track_id: track.id,
                        search_query: String::new(),
                    },
                    ListState::default(),
                ),
            );
            Ok(Step::Handled(true))
        },
        Action::ToggleLiked => {
            if data.is_liked_track(&track) {
                send_and_close(
                    ClientRequest::DeleteFromLibrary(ItemId::Track(track.id)),
                    client_pub,
                    ui,
                )
            } else {
                send_and_close(ClientRequest::AddToLibrary(Item::Track(track)), client_pub, ui)
            }
        },
        Action::AddToLiked => send_and_close(
            ClientRequest::AddToLibrary(Item::Track(track)),
            client_pub,
            ui,
        ),
        Action::DeleteFromLiked => send_and_close(
            ClientRequest::DeleteFromLibrary(ItemId::Track(track.id)),
            client_pub,
            ui,
        ),
        Action::GoToRadio => start_radio(track.id.uri(), track.name, client_pub, ui),
        Action::ShowActionsOnArtist => Ok(handle_show_actions_on_artist(track.artists, ui)),
        Action::ShowActionsOnAlbum => {
            if let Some(album) = track.album {
                return Ok(Step::ShowActions(ActionSubject::Album(album)));
            }
            Ok(Step::Handled(false))
        },
        Action::DeleteFromPlaylist => {
            if let PageState::Context { id: Some(ContextId::Playlist(playlist_id)), .. } =
                ui.current_page() {
                client_pub.send(
                    ClientRequest::DeleteTrackFromPlaylist(playlist_id.clone(), track.id),
                )?;
            }
            ui.popup = None;
            Ok(Step::Handled(true))
        },
        _ => Ok(Step::Handled(false)),
    }
}

/// Does an action on an album.
fn handle_album_action(
    action: Action,
    album: Album,
    client_pub: &mut Outbox,
    data: &UserData,
    ui: &mut UIState,
) -> (r: Result<Step, HandlerError>)
    ensures
        ({
            let o = album_outcome(action, album, *data, old(ui)@, old(client_pub)@);
            result_view(r) == o.result && final(ui)@ == o.ui && final(client_pub)@ == o.client
        }),
{
    match action {
        Action::GoToArtist => {
            handle_go_to_artist(album.artists, ui);
            Ok(Step::Handled(true))
        },
        Action::GoToRadio => start_radio(album.id.uri(), album.name, client_pub, ui),
        Action::ShowActionsOnArtist => Ok(handle_show_actions_on_artist(album.artists, ui)),
        Action::AddToLibrary => send_and_close(
            ClientRequest::AddToLibrary(Item::Album(album)),
            client_pub,
            ui,
        ),
        Action::DeleteFromLibrary => {
            if !data.has_saved_album(&album.id) {
                return Ok(Step::Handled(true));
            }
            send_and_close(
                ClientRequest::DeleteFromLibrary(ItemId::Album(album.id)),
                client_pub,
                ui,
            )
        },
        Action::CopyLink => Ok(
            Step::CopyLink(concat("https://open.spotify.com/album/", album.id.id())),
        ),
        Action::AddToQueue => send_and_close(
            ClientRequest::AddAlbumToQueue(album.id),
            client_pub,
            ui,
        ),
        _ => Ok(Step::Handled(false)),
    }
}

/// Does an action on an artist.
fn handle_artist_action(
    action: Action,
    artist: Artist,
    client_pub: &mut Outbox,
    data: &UserData,
    ui: &mut UIState,
) -> (r: Result<Step, HandlerError>)
    ensures
        ({
            let o = artist_outcome(action, artist, *data, old(ui)@, old(client_pub)@);
            result_view(r) == o.result && final(ui)@ == o.ui && final(client_pub)@ == o.client
        }),
{
    match action {
        Action::Follow => send_and_close(
            ClientRequest::AddToLibrary(Item::Artist(artist)),
            client_pub,
            ui,
        ),
        Action::Unfollow => {
            if !data.has_followed_artist(&artist.id) {
                return Ok(Step::Handled(true));
            }
            send_and_close(
                ClientRequest::DeleteFromLibrary(ItemId::Artist(artist.id)),
                client_pub,
                ui,
            )
        },
        Action::CopyLink => Ok(
            Step::CopyLink(concat("https://open.spotify.com/artist/", artist.id.id())),
        ),
        Action::GoToRadio => start_radio(artist.id.uri(), artist.name, client_pub, ui),
        _ => Ok(Step::Handled(false)),
    }
}

/// Does an action on a playlist.
fn handle_playlist_action(
    action: Action,
    playlist: Playlist,
    client_pub: &mut Outbox,
    data: &UserData,
    ui: &mut UIState,
) -> (r: Result<Step, HandlerError>)
    ensures
        ({
            let o = playlist_outcome(action, playlist, *data, old(ui)@, old(client_pub)@);
            result_view(r) == o.result && final(ui)@ == o.ui && final(client_pub)@ == o.client
        }),
{
    match action {
        Action::AddToLibrary => send_and_close(
            ClientRequest::AddToLibrary(Item::Playlist(playlist)),
            client_pub,
            ui,
        ),
        Action::GoToRadio => start_radio(playlist.id.uri(), playlist.name, client_pub, ui),
        Action::CopyLink => Ok(
            Step::CopyLink(concat("https://open.spotify.com/playlist/", playlist.id.id())),
        ),
        Action::DeleteFromLibrary => {
            if !data.has_saved_playlist(&playlist.id) {
                return Ok(Step::Handled(true));
            }
            send_and_close(
                ClientRequest::DeleteFromLibrary(ItemId::Playlist(playlist.id)),
                client_pub,
                ui,
            )
        },
        _ => Ok(Step::Handled(false)),
    }
}

/// Does an action on a show.
fn handle_show_action(
    action: Action,
    show: Show,
    client_pub: &mut Outbox,
    data: &UserData,
    ui: &mut UIState,
) -> (r: Result<Step, HandlerError>)
    ensures
        ({
            let o = show_outcome(action, show, *data, old(ui)@, old(client_pub)@);
            result_view(r) == o.result && final(ui)@ == o.ui && final(client_pub)@ == o.client
        }),
{
    match action {
        Action::CopyLink => Ok(
            Step::CopyLink(concat("https://open.spotify.com/show/", show.id.id())),
        ),
        Action::AddToLibrary => send_and_close(
            ClientRequest::AddToLibrary(Item::Show(show)),
            client_pub,
            ui,
        ),
        Action::DeleteFromLibrary => {
            if !data.has_saved_show(&show.id) {
                return Ok(Step::Handled(true));
            }
            send_and_close(
                ClientRequest::DeleteFromLibrary(ItemId::Show(show.id)),
                client_pub,
                ui,
            )
        },
        _ => Ok(Step::Handled(false)),
    }
}

/// Does an action on an episode.
fn handle_episode_action(
    action: Action,
    episode: Episode,
    client_pub: &mut Outbox,
    ui: &mut UIState,
) -> (r: Result<Step, HandlerError>)
    ensures
        ({
            let o = episode_outcome(action, episode, old(ui)@, old(client_pub)@);
            result_view(r) == o.result && final(ui)@ == o.ui && final(client_pub)@ == o.client
        }),
{
    match action {
        Action::GoToShow => {
            if let Some(show) = &episode.show {
                open_show(show, ui)?;
                return Ok(Step::Handled(true));
            }
            Ok(Step::Handled(false))
        },
        Action::AddToQueue => send_and_close(
            ClientRequest::AddPlayableToQueue(PlayableId::Episode(episode.id)),
            client_pub,
            ui,
        ),
        Action::CopyLink => Ok(
            Step::CopyLink(concat("https://open.spotify.com/episode/", episode.id.id())),
        ),
        Action::AddToPlaylist => {
            client_pub.send(ClientRequest::GetUserPlaylists)?;
            ui.popup = Some(
                PopupState::UserPlaylistList(
                    PlaylistPopupAction::AddEpisode {
                        folder_id: 0,
                        episode_id: episode.id,
                        search_query: String::new(),
                    },
                    ListState::default(),
                ),
            );
            Ok(Step::Handled(true))
        },
        Action::ShowActionsOnShow => {
            if let Some(show) = episode.show {
                return Ok(Step::ShowActions(ActionSubject::Show(show)));
            }
            Ok(Step::Handled(false))
        },
        _ => Ok(Step::Handled(false)),
    }
}

/// What a bound action comes to: only actions on the item that is playing are bound globally.
pub open spec fn global_action_outcome(
    action: Action,
    target: ActionTarget,
    playing: Option<PlayingItem>,
    data: UserData,
    ui: UIView,
    client: OutboxView,
) -> Outcome {
    match (target, playing) {
        (ActionTarget::PlayingTrack, Some(PlayingItem::Track(playing))) => match playing.track {
            Some(track) => action_outcome(action, ActionContext::Track(track), data, ui, client),
            None => ignored(ui, client),
        },
        (ActionTarget::PlayingTrack, Some(PlayingItem::Episode(playing))) => action_outcome(
            action,
            ActionContext::Episode(playing.episode),
            data,
            ui,
            client,
        ),
        _ => ignored(ui, client),
    }
}

/// Does a bound action on the item that is playing, in place of the selection.
pub fn handle_global_action(
    action: Action,
    target: ActionTarget,
    playing: Option<PlayingItem>,
    client_pub: &mut Outbox,
    data: &UserData,
    ui: &mut UIState,
) -> (r: Result<Step, HandlerError>)
    requires
        old(ui)@.has_page(),
    ensures
        ({
            let o = global_action_outcome(
                action,
                target,
                playing,
                *data,
                old(ui)@,
                old(client_pub)@,
            );
            result_view(r) == o.result && final(ui)@ == o.ui && final(client_pub)@ == o.client
        }),
        final(ui)@.has_page(),
{
    if target == ActionTarget::PlayingTrack {
        if let Some(playing) = playing {
            match playing {
                PlayingItem::Track(playing) => {
                    if let Some(track) = playing.track {
                        return handle_action_in_context(
                            action,
                            ActionContext::Track(track),
                            client_pub,
                            data,
                            ui,
                        );
                    }
                },
                PlayingItem::Episode(playing) => {
                    return handle_action_in_context(
                        action,
                        ActionContext::Episode(playing.episode),
                        client_pub,
                        data,
                        ui,
                    );
                },
                PlayingItem::Unknown => {
                    return Ok(Step::Handled(false));
                },
            }
        }
    }
    Ok(Step::Handled(false))
}

/// Toggling whether a track is liked removes it from the liked tracks if it is one of them, and adds
/// it to them otherwise.
pub proof fn law_toggle_liked(track: Track, data: UserData, ui: UIView, client: OutboxView)
    ensures
        track_outcome(Action::ToggleLiked, track, data, ui, client) == track_outcome(
            if data.likes(track.id@) {
                Action::DeleteFromLiked
            } else {
                Action::AddToLiked
            },
            track,
            data,
            ui,
            client,
        ),
{
}

/// What is not in the user's library is never deleted from it: the action applies and nothing is
/// sent or changed.
pub proof fn law_only_saved_items_are_deleted(
    album: Album,
    artist: Artist,
    playlist: Playlist,
    show: Show,
    data: UserData,
    ui: UIView,
    client: OutboxView,
)
    ensures
        !data.saves_album(album.id@) ==> album_outcome(
            Action::DeleteFromLibrary,
            album,
            data,
            ui,
            client,
        ) == applied(ui, client),
        !data.follows(artist.id@) ==> artist_outcome(Action::Unfollow, artist, data, ui, client)
            == applied(ui, client),
        !data.saves_playlist(playlist.id@) ==> playlist_outcome(
            Action::DeleteFromLibrary,
            playlist,
            data,
            ui,
            client,
        ) == applied(ui, client),
        !data.saves_show(show.id@) ==> show_outcome(
            Action::DeleteFromLibrary,
            show,
            data,
            ui,
            client,
        ) == applied(ui, client),
{
}

/// An action fails only where the client no longer listens, and then it has sent nothing. It sends
/// one request at most, after those that were sent before.
pub proof fn law_action_fails_only_when_closed(
    action: Action,
    context: ActionContext,
    data: UserData,
    ui: UIView,
    client: OutboxView,
)
    ensures
        ({
            let o = action_outcome(action, context, data, ui, client);
            &&& o.result matches Err(e) ==> e == ErrorView::ClientClosed && client.room == 0
            &&& client.room == 0 ==> o.client == client
            &&& o.client == client || exists|request: RequestView|
                o.client == #[trigger] client.with(request)
        }),
{
}

/// An action that does not apply to an item changes and sends nothing.
pub proof fn law_ignored_action_changes_nothing(
    action: Action,
    context: ActionContext,
    data: UserData,
    ui: UIView,
    client: OutboxView,
)
    ensures
        action_outcome(action, context, data, ui, client).result == Ok::<StepView, ErrorView>(
            StepView::Handled(false),
        ) ==> action_outcome(action, context, data, ui, client) == ignored(ui, client),
{
}

/// An action closes no page, and opens one at most.
pub proof fn law_actions_keep_pages(
    action: Action,
    context: ActionContext,
    data: UserData,
    ui: UIView,
    client: OutboxView,
)
    ensures
        ({
            let o = action_outcome(action, context, data, ui, client);
            o.ui.history == ui.history || exists|page: PageView|
                o.ui == #[trigger] ui.opening(page)
        }),
{
}

/// An action on the selection is not for the item that is playing, and without an item playing there
/// is nothing to do.
pub proof fn law_global_action_needs_playing_item(
    action: Action,
    playing: Option<PlayingItem>,
    data: UserData,
    ui: UIView,
    client: OutboxView,
)
    ensures
        global_action_outcome(action, ActionTarget::SelectedItem, playing, data, ui, client)
            == ignored(ui, client),
        global_action_outcome(action, ActionTarget::PlayingTrack, None, data, ui, client)
            == ignored(ui, client),
{
}

} // verus!
