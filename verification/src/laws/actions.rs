//! What the actions on an item promise.

use vstd::prelude::*;

use crate::client::ClientRequest;
use crate::client::OutboxView;
use crate::client::RequestView;
use crate::command::Action;
use crate::command::ActionContext;
use crate::command::ActionListItem;
use crate::command::ActionSubject;
use crate::command::ActionTarget;
use crate::error::ErrorView;
use crate::event::action::action_outcome;
use crate::event::action::action_popup;
use crate::event::action::global_action_outcome;
use crate::event::action::link_copied;
use crate::event::step::StepView;
use crate::ids::ContextIdView;
use crate::ids::ItemId;
use crate::ids::PlayableId;
use crate::ids::TracksIdView;
use crate::laws::change::adds_context;
use crate::laws::change::hands_over;
use crate::laws::change::is_done;
use crate::laws::change::is_not_for;
use crate::laws::change::is_refused;
use crate::laws::change::is_unchanged;
use crate::laws::change::sets_popup;
use crate::layout::ListState;
use crate::model::Album;
use crate::model::Artist;
use crate::model::Episode;
use crate::model::Item;
use crate::model::PlaylistFolderItem;
use crate::model::Show;
use crate::model::Track;
use crate::model::UserData;
use crate::page::PageView;
use crate::player::PlayingEpisode;
use crate::player::PlayingItem;
use crate::player::PlayingTrack;
use crate::popup::ArtistPopupAction;
use crate::popup::PlaylistPopupView;
use crate::popup::PopupView;
use crate::ui::UIView;

verus! {

/// The artists of an item that has some.
pub open spec fn artists_of(context: ActionContext) -> Option<Seq<Artist>> {
    match context {
        ActionContext::Track(track) => Some(track.artists@),
        ActionContext::Album(album) => Some(album.artists@),
        _ => None,
    }
}

/// Going to the artist of a track or of an album with one artist opens one page, that of the artist,
/// and nothing else. With any other number of artists the user is asked which one to browse.
pub proof fn law_going_to_the_artist(
    context: ActionContext,
    data: UserData,
    ui: UIView,
    client: OutboxView,
)
    requires
        artists_of(context) is Some,
    ensures
        ({
            let artists = artists_of(context)->0;
            let o = action_outcome(Action::GoToArtist, context, data, ui, client);
            &&& is_done(o)
            &&& o.client == client
            &&& artists.len() == 1 ==> adds_context(
                ui,
                o.ui,
                ContextIdView::Artist(artists[0].id@),
            )
            &&& artists.len() != 1 ==> (o.ui.popup matches Some(
                PopupView::ArtistList(chosen, shown, list),
            ) && chosen == ArtistPopupAction::Browse && shown == artists && list.offset == 0
                && list.selected is None && sets_popup(ui, o.ui, o.ui.popup))
        }),
{
}

/// Asking for the actions on the artist of a track or of an album with one artist asks for those of
/// that artist and changes nothing. With any other number of artists the user is asked whose.
pub proof fn law_showing_actions_on_the_artist(
    context: ActionContext,
    data: UserData,
    ui: UIView,
    client: OutboxView,
)
    requires
        artists_of(context) is Some,
    ensures
        ({
            let artists = artists_of(context)->0;
            let o = action_outcome(Action::ShowActionsOnArtist, context, data, ui, client);
            &&& o.client == client
            &&& artists.len() == 1 ==> o.ui == ui && o.result == Ok::<StepView, ErrorView>(
                StepView::ShowActions(ActionSubject::Artist(artists[0])),
            )
            &&& artists.len() != 1 ==> is_done(o) && (o.ui.popup matches Some(
                PopupView::ArtistList(chosen, shown, list),
            ) && chosen == ArtistPopupAction::ShowActions && shown == artists && list.offset == 0
                && list.selected is None && sets_popup(ui, o.ui, o.ui.popup))
        }),
{
}

/// Going to the album of a track, or to the show of an episode, opens the page of that album or show,
/// and asking for the actions on it asks for those of the same. Where there is none, the action is
/// not for the item.
pub proof fn law_going_to_what_holds_the_item(
    track: Track,
    episode: Episode,
    data: UserData,
    ui: UIView,
    client: OutboxView,
)
    ensures
        ({
            let go = action_outcome(
                Action::GoToAlbum,
                ActionContext::Track(track),
                data,
                ui,
                client,
            );
            let ask = action_outcome(
                Action::ShowActionsOnAlbum,
                ActionContext::Track(track),
                data,
                ui,
                client,
            );
            &&& go.client == client
            &&& is_unchanged(ask, ui, client)
            &&& match track.album {
                Some(album) => {
                    &&& is_done(go)
                    &&& adds_context(ui, go.ui, ContextIdView::Album(album.id@))
                    &&& ask.result == Ok::<StepView, ErrorView>(
                        StepView::ShowActions(ActionSubject::Album(album)),
                    )
                },
                None => is_not_for(go) && go.ui == ui && is_not_for(ask),
            }
        }),
        ({
            let go = action_outcome(
                Action::GoToShow,
                ActionContext::Episode(episode),
                data,
                ui,
                client,
            );
            let ask = action_outcome(
                Action::ShowActionsOnShow,
                ActionContext::Episode(episode),
                data,
                ui,
                client,
            );
            &&& go.client == client
            &&& is_unchanged(ask, ui, client)
            &&& match episode.show {
                Some(show) => {
                    &&& is_done(go)
                    &&& adds_context(ui, go.ui, ContextIdView::Show(show.id@))
                    &&& ask.result == Ok::<StepView, ErrorView>(
                        StepView::ShowActions(ActionSubject::Show(show)),
                    )
                },
                None => is_not_for(go) && go.ui == ui && is_not_for(ask),
            }
        }),
{
}

/// The request that puts an item into the queue, for an item that can be queued: it names the item
/// itself.
pub open spec fn queueing(context: ActionContext) -> Option<ClientRequest> {
    match context {
        ActionContext::Track(track) => Some(
            ClientRequest::AddPlayableToQueue(PlayableId::Track(track.id)),
        ),
        ActionContext::Episode(episode) => Some(
            ClientRequest::AddPlayableToQueue(PlayableId::Episode(episode.id)),
        ),
        ActionContext::Album(album) => Some(ClientRequest::AddAlbumToQueue(album.id)),
        _ => None,
    }
}

/// Adding an item to the queue sends one request, which names that item, and closes the popup. Only
/// tracks, episodes and albums can be queued.
pub proof fn law_queueing_names_the_item(
    context: ActionContext,
    data: UserData,
    ui: UIView,
    client: OutboxView,
)
    requires
        client.room > 0,
    ensures
        ({
            let o = action_outcome(Action::AddToQueue, context, data, ui, client);
            match queueing(context) {
                Some(request) => {
                    &&& is_done(o)
                    &&& hands_over(client, o.client, RequestView::Plain(request))
                    &&& sets_popup(ui, o.ui, None)
                },
                None => is_not_for(o) && is_unchanged(o, ui, client),
            }
        }),
{
}

/// The URI and the name of an item that has a radio.
pub open spec fn radio_seed(context: ActionContext) -> Option<(Seq<char>, Seq<char>)> {
    match context {
        ActionContext::Track(track) => Some(("spotify:track:"@ + track.id@, track.name@)),
        ActionContext::Album(album) => Some(("spotify:album:"@ + album.id@, album.name@)),
        ActionContext::Artist(artist) => Some(("spotify:artist:"@ + artist.id@, artist.name@)),
        ActionContext::Playlist(playlist) => Some(
            ("spotify:playlist:"@ + playlist.id@, playlist.name@),
        ),
        _ => None,
    }
}

/// The radio of an item opens the page of its recommendations, whose URI is made from the very URI
/// that the tracks are requested for, and the request carries the item's own URI and name.
pub proof fn law_radio_is_that_of_the_item(
    context: ActionContext,
    data: UserData,
    ui: UIView,
    client: OutboxView,
)
    requires
        client.room > 0,
    ensures
        ({
            let o = action_outcome(Action::GoToRadio, context, data, ui, client);
            match radio_seed(context) {
                Some((uri, name)) => {
                    &&& is_done(o)
                    &&& hands_over(
                        client,
                        o.client,
                        RequestView::RadioTracks { seed_uri: uri, seed_name: name },
                    )
                    &&& adds_context(
                        ui,
                        o.ui,
                        ContextIdView::Tracks(
                            TracksIdView { uri: "radio:"@ + uri, kind: "Recommendations"@ },
                        ),
                    )
                },
                None => is_not_for(o) && is_unchanged(o, ui, client),
            }
        }),
{
}

/// Adding a track or an episode to a playlist has the playlists fetched, and then asks for one of the
/// outermost folder, on behalf of that track or episode.
pub proof fn law_adding_to_a_playlist(
    track: Track,
    episode: Episode,
    data: UserData,
    ui: UIView,
    client: OutboxView,
)
    requires
        client.room > 0,
    ensures
        ({
            let o = action_outcome(
                Action::AddToPlaylist,
                ActionContext::Track(track),
                data,
                ui,
                client,
            );
            &&& is_done(o)
            &&& hands_over(client, o.client, RequestView::Plain(ClientRequest::GetUserPlaylists))
            &&& sets_popup(ui, o.ui, o.ui.popup)
            &&& o.ui.popup matches Some(
                PopupView::UserPlaylistList(
                    PlaylistPopupView::AddTrack { folder_id, track_id, search_query },
                    list,
                ),
            ) && folder_id == 0 && track_id == track.id && search_query.len() == 0 && list
                == (ListState { offset: 0, selected: None })
        }),
        ({
            let o = action_outcome(
                Action::AddToPlaylist,
                ActionContext::Episode(episode),
                data,
                ui,
                client,
            );
            &&& is_done(o)
            &&& hands_over(client, o.client, RequestView::Plain(ClientRequest::GetUserPlaylists))
            &&& sets_popup(ui, o.ui, o.ui.popup)
            &&& o.ui.popup matches Some(
                PopupView::UserPlaylistList(
                    PlaylistPopupView::AddEpisode { folder_id, episode_id, search_query },
                    list,
                ),
            ) && folder_id == 0 && episode_id == episode.id && search_query.len() == 0 && list
                == (ListState { offset: 0, selected: None })
        }),
{
}

/// The action that puts an item into the library, with the item; and the one that takes it out, with
/// its id.
pub open spec fn library_actions(context: ActionContext) -> Option<((Action, Item), (Action, ItemId))> {
    match context {
        ActionContext::Track(track) => Some(
            (
                (Action::AddToLiked, Item::Track(track)),
                (Action::DeleteFromLiked, ItemId::Track(track.id)),
            ),
        ),
        ActionContext::Album(album) => Some(
            (
                (Action::AddToLibrary, Item::Album(album)),
                (Action::DeleteFromLibrary, ItemId::Album(album.id)),
            ),
        ),
        ActionContext::Artist(artist) => Some(
            ((Action::Follow, Item::Artist(artist)), (Action::Unfollow, ItemId::Artist(artist.id))),
        ),
        ActionContext::Playlist(playlist) => Some(
            (
                (Action::AddToLibrary, Item::Playlist(playlist)),
                (Action::DeleteFromLibrary, ItemId::Playlist(playlist.id)),
            ),
        ),
        ActionContext::Show(show) => Some(
            (
                (Action::AddToLibrary, Item::Show(show)),
                (Action::DeleteFromLibrary, ItemId::Show(show.id)),
            ),
        ),
        _ => None,
    }
}

/// Whether what is known of the library has an item of the same kind and the same id.
pub open spec fn is_in_library(context: ActionContext, data: UserData) -> bool {
    match context {
        ActionContext::Track(track) => exists|i: int|
            0 <= i < data.saved_tracks@.len() && (#[trigger] data.saved_tracks@[i]).id@
                == track.id@,
        ActionContext::Album(album) => exists|i: int|
            0 <= i < data.saved_albums@.len() && (#[trigger] data.saved_albums@[i]).id@
                == album.id@,
        ActionContext::Artist(artist) => exists|i: int|
            0 <= i < data.followed_artists@.len() && (#[trigger] data.followed_artists@[i]).id@
                == artist.id@,
        ActionContext::Playlist(playlist) => exists|i: int|
            0 <= i < data.playlists@.len() && ((
            #[trigger] data.playlists@[i]) matches PlaylistFolderItem::Playlist(p) && p.id@
                == playlist.id@),
        ActionContext::Show(show) => exists|i: int|
            0 <= i < data.saved_shows@.len() && (#[trigger] data.saved_shows@[i]).id@ == show.id@,
        _ => false,
    }
}

/// Adding an item to the library sends that item, whether it is there already or not, and closes the
/// popup. Taking it out sends its id and closes the popup; but an album, an artist, a playlist or a
/// show that is not in the library is left alone.
pub proof fn law_library_actions_name_the_item(
    context: ActionContext,
    data: UserData,
    ui: UIView,
    client: OutboxView,
)
    requires
        client.room > 0,
        library_actions(context) is Some,
    ensures
        ({
            let (adding, taking) = library_actions(context)->0;
            let add = action_outcome(adding.0, context, data, ui, client);
            let take = action_outcome(taking.0, context, data, ui, client);
            &&& is_done(add)
            &&& hands_over(
                client,
                add.client,
                RequestView::Plain(ClientRequest::AddToLibrary(adding.1)),
            )
            &&& sets_popup(ui, add.ui, None)
            &&& is_done(take)
            &&& if context is Track || is_in_library(context, data) {
                &&& hands_over(
                    client,
                    take.client,
                    RequestView::Plain(ClientRequest::DeleteFromLibrary(taking.1)),
                )
                &&& sets_popup(ui, take.ui, None)
            } else {
                is_unchanged(take, ui, client)
            }
        }),
{
}

/// Toggling whether a track is liked sends the track where no liked track has its id, and takes it
/// out by its id where one has.
pub proof fn law_toggling_follows_the_library(
    track: Track,
    data: UserData,
    ui: UIView,
    client: OutboxView,
)
    requires
        client.room > 0,
    ensures
        ({
            let context = ActionContext::Track(track);
            let o = action_outcome(Action::ToggleLiked, context, data, ui, client);
            &&& is_done(o)
            &&& sets_popup(ui, o.ui, None)
            &&& is_in_library(context, data) ==> hands_over(
                client,
                o.client,
                RequestView::Plain(ClientRequest::DeleteFromLibrary(ItemId::Track(track.id))),
            )
            &&& !is_in_library(context, data) ==> hands_over(
                client,
                o.client,
                RequestView::Plain(ClientRequest::AddToLibrary(Item::Track(track))),
            )
        }),
{
}

/// A track is deleted from the playlist that the current page shows, by the ids of both. On any other
/// page nothing is sent. Either way the popup closes.
pub proof fn law_deleting_from_the_shown_playlist(
    track: Track,
    data: UserData,
    ui: UIView,
    client: OutboxView,
)
    requires
        client.room > 0,
        ui.history.len() > 0,
    ensures
        ({
            let o = action_outcome(
                Action::DeleteFromPlaylist,
                ActionContext::Track(track),
                data,
                ui,
                client,
            );
            &&& is_done(o)
            &&& sets_popup(ui, o.ui, None)
            &&& match ui.history[ui.history.len() - 1] {
                PageView::Context { id: Some(ContextIdView::Playlist(playlist)), .. } => hands_over(
                    client,
                    o.client,
                    RequestView::DeleteTrackFromPlaylist { playlist, track: track.id },
                ),
                _ => o.client == client,
            }
        }),
{
}

/// The address of an item that has one.
pub open spec fn address_of(context: ActionContext) -> Option<Seq<char>> {
    match context {
        ActionContext::Track(x) => Some("https://open.spotify.com/track/"@ + x.id@),
        ActionContext::Album(x) => Some("https://open.spotify.com/album/"@ + x.id@),
        ActionContext::Artist(x) => Some("https://open.spotify.com/artist/"@ + x.id@),
        ActionContext::Playlist(x) => Some("https://open.spotify.com/playlist/"@ + x.id@),
        ActionContext::Show(x) => Some("https://open.spotify.com/show/"@ + x.id@),
        ActionContext::Episode(x) => Some("https://open.spotify.com/episode/"@ + x.id@),
        ActionContext::PlaylistFolder(_) => None,
    }
}

/// Copying the link of an item asks for its own address to be copied, and changes nothing.
pub proof fn law_copied_link_is_the_address(
    context: ActionContext,
    data: UserData,
    ui: UIView,
    client: OutboxView,
)
    ensures
        ({
            let o = action_outcome(Action::CopyLink, context, data, ui, client);
            &&& is_unchanged(o, ui, client)
            &&& match address_of(context) {
                Some(address) => o.result == Ok::<StepView, ErrorView>(
                    StepView::CopyLink(address),
                ),
                None => is_not_for(o),
            }
        }),
{
}

/// Once a link has been copied the popup closes and nothing else changes; where it could not be, the
/// reason is reported and nothing changes.
pub proof fn law_copying_closes_the_popup(reason: String, ui: UIView)
    ensures
        link_copied(Ok(()), ui).0 == Ok::<StepView, ErrorView>(StepView::Handled(true)),
        sets_popup(ui, link_copied(Ok(()), ui).1, None),
        link_copied(Err(reason), ui).0 == Err::<StepView, ErrorView>(ErrorView::Copy(reason@)),
        link_copied(Err(reason), ui).1 == ui,
{
}

/// Whether an action is one for an item.
pub open spec fn is_for(action: Action, context: ActionContext) -> bool {
    match action {
        Action::GoToArtist => artists_of(context) is Some,
        Action::ShowActionsOnArtist => artists_of(context) is Some,
        Action::GoToAlbum => context matches ActionContext::Track(track) && track.album is Some,
        Action::ShowActionsOnAlbum => context matches ActionContext::Track(track)
            && track.album is Some,
        Action::GoToShow => context matches ActionContext::Episode(episode) && episode.show is Some,
        Action::ShowActionsOnShow => context matches ActionContext::Episode(episode)
            && episode.show is Some,
        Action::GoToRadio => radio_seed(context) is Some,
        Action::AddToQueue => queueing(context) is Some,
        Action::AddToPlaylist => context is Track || context is Episode,
        Action::AddToLiked => context is Track,
        Action::DeleteFromLiked => context is Track,
        Action::ToggleLiked => context is Track,
        Action::DeleteFromPlaylist => context is Track,
        Action::AddToLibrary => context is Album || context is Playlist || context is Show,
        Action::DeleteFromLibrary => context is Album || context is Playlist || context is Show,
        Action::CopyLink => !(context is PlaylistFolder),
        Action::Follow => context is Artist,
        Action::Unfollow => context is Artist,
    }
}

/// An action that is not one for the item is passed over and changes nothing; every other one is
/// taken, unless the client does not listen.
pub proof fn law_actions_are_for_their_items(
    action: Action,
    context: ActionContext,
    data: UserData,
    ui: UIView,
    client: OutboxView,
)
    ensures
        ({
            let o = action_outcome(action, context, data, ui, client);
            &&& is_not_for(o) <==> !is_for(action, context)
            &&& !is_for(action, context) ==> is_unchanged(o, ui, client)
        }),
{
}

/// An action that sends a request to a client that listens is refused by one that does not, and sends
/// nothing; the interface stays as it was, but for the page of a radio, which opens first. An action
/// that sends nothing does not care.
pub proof fn law_refused_actions_leave_the_interface(
    action: Action,
    context: ActionContext,
    data: UserData,
    ui: UIView,
    client: OutboxView,
    closed: OutboxView,
)
    requires
        client.room > 0,
        closed.room == 0,
    ensures
        ({
            let heard = action_outcome(action, context, data, ui, client);
            let unheard = action_outcome(action, context, data, ui, closed);
            &&& unheard.client == closed
            &&& heard.client != client ==> is_refused(unheard)
            &&& heard.client != client ==> unheard.ui == (if action == Action::GoToRadio {
                heard.ui
            } else {
                ui
            })
            &&& heard.client == client ==> unheard.result == heard.result && unheard.ui == heard.ui
        }),
{
    let heard = action_outcome(action, context, data, ui, client);
    if heard.client.room + 1 == client.room {
        assert(heard.client != client);
    }
}

/// A bound action is done with the track or the episode that is playing, as if it had been picked. A
/// track that is not in the catalog, and an item of another kind, leave nothing to do.
pub proof fn law_bound_actions_mean_the_playing_item(
    action: Action,
    target: ActionTarget,
    playing: Option<PlayingItem>,
    data: UserData,
    ui: UIView,
    client: OutboxView,
)
    ensures
        ({
            let o = global_action_outcome(action, target, playing, data, ui, client);
            match (target, playing) {
                (
                    ActionTarget::PlayingTrack,
                    Some(PlayingItem::Track(PlayingTrack { track: Some(track), .. })),
                ) => o == action_outcome(action, ActionContext::Track(track), data, ui, client),
                (
                    ActionTarget::PlayingTrack,
                    Some(PlayingItem::Episode(PlayingEpisode { episode, .. })),
                ) => o == action_outcome(action, ActionContext::Episode(episode), data, ui, client),
                _ => is_not_for(o) && is_unchanged(o, ui, client),
            }
        }),
{
}

/// The popup that lists actions is about the item that was asked for, and lists the actions that were
/// found for it.
pub proof fn law_listed_actions_are_those_found(
    track: Track,
    album: Album,
    artist: Artist,
    show: Show,
    episode: Episode,
    actions: Vec<Action>,
)
    ensures
        ({
            let list = ListState { offset: 0, selected: None };
            &&& action_popup(ActionSubject::Track(track), actions) == PopupView::ActionList(
                ActionListItem::Track(track, actions),
                list,
            )
            &&& action_popup(ActionSubject::Album(album), actions) == PopupView::ActionList(
                ActionListItem::Album(album, actions),
                list,
            )
            &&& action_popup(ActionSubject::Artist(artist), actions) == PopupView::ActionList(
                ActionListItem::Artist(artist, actions),
                list,
            )
            &&& action_popup(ActionSubject::Show(show), actions) == PopupView::ActionList(
                ActionListItem::Show(show, actions),
                list,
            )
            &&& action_popup(ActionSubject::Episode(episode), actions) == PopupView::ActionList(
                ActionListItem::Episode(episode, actions),
                list,
            )
        }),
{
}

} // verus!
