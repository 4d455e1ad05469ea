//! What the commands that belong to no page or popup promise.

use vstd::prelude::*;

use crate::cache::live;
use crate::client::ClientRequest;
use crate::client::OutboxView;
use crate::client::PlayerRequest;
use crate::client::RequestView;
use crate::command::ActionSubject;
use crate::command::Command;
use crate::error::ErrorView;
use crate::event::global::can_handle;
use crate::event::global::command_outcome;
use crate::event::global::CommandConfig;
use crate::event::global::library_refresh;
use crate::event::global::player_after;
use crate::event::global::search_refresh;
use crate::event::global::volume_after;
use crate::event::global::with_theme_first;
use crate::event::step::StepView;
use crate::ids::ContextIdView;
use crate::ids::TracksId;
use crate::laws::change::adds_context;
use crate::laws::change::adds_page;
use crate::laws::change::hands_over;
use crate::laws::change::is_done;
use crate::laws::change::is_not_for;
use crate::laws::change::is_refused;
use crate::laws::change::is_unchanged;
use crate::laws::change::lemma_vec_fits;
use crate::laws::change::sets_popup;
use crate::layout::ListState;
use crate::model::AppData;
use crate::model::Context;
use crate::model::Track;
use crate::page::BrowsePageUIState;
use crate::page::ContextPageTypeView;
use crate::page::LibraryFocusState;
use crate::page::LibraryPageUIState;
use crate::page::PageView;
use crate::page::SearchFocusState;
use crate::page::SearchPageUIState;
use crate::player::BufferedPlayback;
use crate::player::PlayerState;
use crate::player::PlayingItem;
use crate::popup::PlaylistCreateCurrentField;
use crate::popup::PlaylistPopupView;
use crate::popup::PopupView;
use crate::span::in_range;
use crate::ui::UIView;

verus! {

/// A seek that names no duration goes as far as the configuration says, and so is the same as one
/// that names that duration.
pub proof fn law_seek_goes_as_far_as_configured(
    playing: Option<PlayingItem>,
    player: PlayerState,
    config: CommandConfig,
    data: AppData,
    now: u64,
    ui: UIView,
    client: OutboxView,
)
    ensures
        ({
            let secs = config.seek_duration_secs;
            &&& command_outcome(
                Command::SeekForward { duration: None },
                playing,
                player,
                config,
                data,
                now,
                ui,
                client,
            ) == command_outcome(
                Command::SeekForward { duration: Some(secs) },
                playing,
                player,
                config,
                data,
                now,
                ui,
                client,
            )
            &&& command_outcome(
                Command::SeekBackward { duration: None },
                playing,
                player,
                config,
                data,
                now,
                ui,
                client,
            ) == command_outcome(
                Command::SeekBackward { duration: Some(secs) },
                playing,
                player,
                config,
                data,
                now,
                ui,
                client,
            )
        }),
{
}

/// A seek of so many seconds, each of a thousand million nanoseconds, asks for the place that lies so
/// far on in the playback, or so far back but not before its start. Without a playback it asks for
/// nothing.
pub proof fn law_seek_target(
    secs: u16,
    playing: Option<PlayingItem>,
    player: PlayerState,
    config: CommandConfig,
    data: AppData,
    now: u64,
    ui: UIView,
    client: OutboxView,
)
    requires
        client.room > 0,
    ensures
        ({
            let on = command_outcome(
                Command::SeekForward { duration: Some(secs) },
                playing,
                player,
                config,
                data,
                now,
                ui,
                client,
            );
            let back = command_outcome(
                Command::SeekBackward { duration: Some(secs) },
                playing,
                player,
                config,
                data,
                now,
                ui,
                client,
            );
            &&& is_done(on) && on.ui == ui
            &&& is_done(back) && back.ui == ui
            &&& match player.progress {
                Some(at) => {
                    &&& hands_over(client, on.client, RequestView::Seek(at@ + secs * 1_000_000_000))
                    &&& at@ >= secs * 1_000_000_000 ==> hands_over(
                        client,
                        back.client,
                        RequestView::Seek(at@ - secs * 1_000_000_000),
                    )
                    &&& at@ < secs * 1_000_000_000 ==> hands_over(
                        client,
                        back.client,
                        RequestView::Seek(0),
                    )
                },
                None => on.client == client && back.client == client,
            }
        }),
{
}

/// The request that a command of the playback alone stands for.
pub open spec fn player_request(command: Command) -> Option<PlayerRequest> {
    match command {
        Command::NextTrack => Some(PlayerRequest::NextTrack),
        Command::PreviousTrack => Some(PlayerRequest::PreviousTrack),
        Command::ResumePause => Some(PlayerRequest::ResumePause),
        Command::Repeat => Some(PlayerRequest::Repeat),
        Command::Shuffle => Some(PlayerRequest::Shuffle),
        Command::Mute => Some(PlayerRequest::ToggleMute),
        _ => None,
    }
}

/// A command of the player sends the request of that name, whatever is shown or playing, and leaves
/// the interface as it is.
pub proof fn law_player_commands_send_their_request(
    command: Command,
    playing: Option<PlayingItem>,
    player: PlayerState,
    config: CommandConfig,
    data: AppData,
    now: u64,
    ui: UIView,
    client: OutboxView,
)
    requires
        client.room > 0,
        player_request(command) is Some,
    ensures
        ({
            let o = command_outcome(command, playing, player, config, data, now, ui, client);
            &&& is_done(o)
            &&& o.ui == ui
            &&& hands_over(
                client,
                o.client,
                RequestView::Plain(ClientRequest::Player(player_request(command)->0)),
            )
        }),
{
}

/// A change of the volume asks for the sum of the volume and the change, for 100 where that is more,
/// and counts on from 256 where it is less than nothing. Without a known volume nothing is sent.
pub proof fn law_volume_is_changed_by_the_offset(
    offset: i32,
    playing: Option<PlayingItem>,
    player: PlayerState,
    config: CommandConfig,
    data: AppData,
    now: u64,
    ui: UIView,
    client: OutboxView,
)
    requires
        client.room > 0,
    ensures
        ({
            let o = command_outcome(
                Command::VolumeChange { offset },
                playing,
                player,
                config,
                data,
                now,
                ui,
                client,
            );
            &&& is_done(o)
            &&& o.ui == ui
            &&& match player.buffered_playback {
                Some(BufferedPlayback { volume: Some(volume), .. }) => {
                    &&& o.client.sent.len() == client.sent.len() + 1
                    &&& o.client.sent.last() matches RequestView::Plain(
                        ClientRequest::Player(PlayerRequest::Volume(set)),
                    ) && hands_over(
                        client,
                        o.client,
                        RequestView::Plain(ClientRequest::Player(PlayerRequest::Volume(set))),
                    ) && (volume <= i32::MAX && i32::MIN <= volume + offset <= i32::MAX ==> {
                        &&& volume + offset > 100 ==> set == 100
                        &&& 0 <= volume + offset <= 100 ==> set == volume + offset
                        &&& volume + offset < 0 ==> set == (volume + offset) % 256
                    })
                },
                _ => o.client == client,
            }
        }),
{
    if let Some(BufferedPlayback { volume: Some(volume), .. }) = player.buffered_playback {
        if volume <= i32::MAX && i32::MIN <= volume + offset < 0 {
            let sum: i32 = (volume + offset) as i32;
            assert(volume as i32 == volume);
            let low: u8 = sum as u8;
            lemma_low_byte(sum);
            assert(volume_after(volume, offset) == low);
        }
    }
}

/// The low byte of a number that is negative.
proof fn lemma_low_byte(sum: i32)
    requires
        sum < 0,
    ensures
        (sum as u8) as int == (sum as int) % 256,
{
    let bits: u32 = sum as u32;
    assert(sum as u8 == bits as u8) by (bit_vector)
        requires
            bits == sum as u32,
    ;
    assert(bits as u8 == bits % 256) by (bit_vector);
    assert(bits as int == sum + 0x1_0000_0000) by (bit_vector)
        requires
            bits == sum as u32,
            sum < 0,
    ;
}

/// What a command needs to be carried out: the changed volume is a number of the machine, the target of a
/// seek is a span of time, and a track to jump to has an id. Nothing else is needed.
pub proof fn law_what_commands_need(
    command: Command,
    playing: Option<PlayingItem>,
    player: PlayerState,
    config: CommandConfig,
)
    ensures
        can_handle(command, playing, player, config) <==> match command {
            Command::VolumeChange { offset } => match player.buffered_playback {
                Some(BufferedPlayback { volume: Some(volume), .. }) => -0x8000_0000 <= (
                volume as i32) + offset < 0x8000_0000,
                _ => true,
            },
            Command::SeekForward { duration } => match (player.progress, duration) {
                (Some(at), Some(secs)) => in_range(at@ + secs * 1_000_000_000),
                (Some(at), None) => in_range(at@ + config.seek_duration_secs * 1_000_000_000),
                (None, _) => true,
            },
            Command::SeekBackward { duration } => match (player.progress, duration) {
                (Some(at), Some(secs)) => in_range(at@ - secs * 1_000_000_000),
                (Some(at), None) => in_range(at@ - config.seek_duration_secs * 1_000_000_000),
                (None, _) => true,
            },
            Command::JumpToCurrentTrackInContext => match playing {
                Some(PlayingItem::Track(track)) => track.id is Some,
                _ => true,
            },
            _ => true,
        },
{
}

/// The toggle of the fake repeat mode turns that mode over and keeps the volume and the progress; no
/// other command changes the player, and this one sends nothing.
pub proof fn law_only_the_repeat_mode_is_kept_here(
    command: Command,
    playing: Option<PlayingItem>,
    player: PlayerState,
    config: CommandConfig,
    data: AppData,
    now: u64,
    ui: UIView,
    client: OutboxView,
)
    ensures
        command != Command::ToggleFakeTrackRepeatMode ==> player_after(command, player) == player,
        ({
            let after = player_after(Command::ToggleFakeTrackRepeatMode, player);
            &&& after.progress == player.progress
            &&& match (player.buffered_playback, after.buffered_playback) {
                (Some(before), Some(kept)) => {
                    &&& kept.volume == before.volume
                    &&& kept.fake_track_repeat_state != before.fake_track_repeat_state
                },
                (None, None) => true,
                _ => false,
            }
        }),
        ({
            let o = command_outcome(
                Command::ToggleFakeTrackRepeatMode,
                playing,
                player,
                config,
                data,
                now,
                ui,
                client,
            );
            is_done(o) && is_unchanged(o, ui, client)
        }),
{
}

/// The list of tracks that a command opens, and the request for it.
pub open spec fn opened_tracks(command: Command, config: CommandConfig) -> Option<
    (TracksId, ClientRequest),
> {
    match command {
        Command::TopTrackPage => Some((config.top_tracks_id, ClientRequest::GetUserTopTracks)),
        Command::RecentlyPlayedTrackPage => Some(
            (config.recently_played_tracks_id, ClientRequest::GetUserRecentlyPlayedTracks),
        ),
        Command::LikedTrackPage => Some(
            (config.liked_tracks_id, ClientRequest::GetUserSavedTracks),
        ),
        _ => None,
    }
}

/// A command for a list of the user's tracks opens the page of the list that the configuration names,
/// and requests the tracks of that very list. The page opens even where the client does not listen.
pub proof fn law_track_pages_open_with_their_request(
    command: Command,
    playing: Option<PlayingItem>,
    player: PlayerState,
    config: CommandConfig,
    data: AppData,
    now: u64,
    ui: UIView,
    client: OutboxView,
)
    requires
        opened_tracks(command, config) is Some,
    ensures
        ({
            let (id, request) = opened_tracks(command, config)->0;
            let o = command_outcome(command, playing, player, config, data, now, ui, client);
            &&& adds_context(ui, o.ui, ContextIdView::Tracks(id@))
            &&& client.room > 0 ==> is_done(o) && hands_over(
                client,
                o.client,
                RequestView::Plain(request),
            )
            &&& client.room == 0 ==> is_refused(o) && o.client == client
        }),
{
}

/// The queue and the categories open at their start, with the request for what they show; the page
/// opens even where the client does not listen.
pub proof fn law_list_pages_open_with_their_request(
    playing: Option<PlayingItem>,
    player: PlayerState,
    config: CommandConfig,
    data: AppData,
    now: u64,
    ui: UIView,
    client: OutboxView,
)
    ensures
        ({
            let o = command_outcome(
                Command::Queue,
                playing,
                player,
                config,
                data,
                now,
                ui,
                client,
            );
            &&& adds_page(ui, o.ui, PageView::Queue { scroll_offset: 0 })
            &&& client.room > 0 ==> is_done(o) && hands_over(
                client,
                o.client,
                RequestView::Plain(ClientRequest::GetCurrentUserQueue),
            )
            &&& client.room == 0 ==> is_refused(o) && o.client == client
        }),
        ({
            let o = command_outcome(
                Command::BrowsePage,
                playing,
                player,
                config,
                data,
                now,
                ui,
                client,
            );
            &&& adds_page(
                ui,
                o.ui,
                PageView::Browse {
                    state: BrowsePageUIState::CategoryList {
                        state: ListState { offset: 0, selected: None },
                    },
                },
            )
            &&& client.room > 0 ==> is_done(o) && hands_over(
                client,
                o.client,
                RequestView::Plain(ClientRequest::GetBrowseCategories),
            )
            &&& client.room == 0 ==> is_refused(o) && o.client == client
        }),
{
}

/// The help and the page of what is playing open without a request.
pub proof fn law_plain_pages_open(
    playing: Option<PlayingItem>,
    player: PlayerState,
    config: CommandConfig,
    data: AppData,
    now: u64,
    ui: UIView,
    client: OutboxView,
)
    ensures
        ({
            let o = command_outcome(
                Command::OpenCommandHelp,
                playing,
                player,
                config,
                data,
                now,
                ui,
                client,
            );
            &&& is_done(o) && o.client == client
            &&& adds_page(ui, o.ui, PageView::CommandHelp { scroll_offset: 0 })
        }),
        ({
            let o = command_outcome(
                Command::CurrentlyPlayingContextPage,
                playing,
                player,
                config,
                data,
                now,
                ui,
                client,
            );
            &&& is_done(o) && o.client == client
            &&& adds_page(
                ui,
                o.ui,
                PageView::Context {
                    id: None,
                    context_page_type: ContextPageTypeView::CurrentPlaying,
                    state: None,
                },
            )
        }),
{
}

/// The lyrics are those of the track that is playing: the page names it by URI, name and artists, and
/// the request by its id. Where no track with an id is playing nothing happens.
pub proof fn law_lyrics_are_those_of_the_playing_track(
    playing: Option<PlayingItem>,
    player: PlayerState,
    config: CommandConfig,
    data: AppData,
    now: u64,
    ui: UIView,
    client: OutboxView,
)
    ensures
        ({
            let o = command_outcome(
                Command::LyricsPage,
                playing,
                player,
                config,
                data,
                now,
                ui,
                client,
            );
            match playing {
                Some(PlayingItem::Track(track)) if track.id is Some => {
                    let id = track.id->0;
                    &&& o.ui.history.len() == ui.history.len() + 1
                    &&& adds_page(ui, o.ui, o.ui.history.last())
                    &&& o.ui.history.last() matches PageView::Lyrics {
                        track_uri,
                        track: name,
                        artists,
                    } && track_uri == "spotify:track:"@ + id@ && name == track.name@ && artists
                        == crate::text::joined(track.artist_names@, ", "@)
                    &&& client.room > 0 ==> is_done(o) && hands_over(
                        client,
                        o.client,
                        RequestView::Plain(ClientRequest::GetLyrics { track_id: id }),
                    )
                    &&& client.room == 0 ==> is_refused(o) && o.client == client
                },
                _ => is_done(o) && is_unchanged(o, ui, client),
            }
        }),
{
}

/// Whether a list that was last fetched at the time `last` is due at the time `now`: it has never been
/// fetched, or so long ago that its time to live is over.
pub open spec fn is_due(last: Option<u64>, now: u64, ttl: u64) -> bool {
    match last {
        Some(at) => now >= at + ttl || ttl == 0,
        None => true,
    }
}

/// The request alone where the list is due, and none otherwise.
pub open spec fn one_if_due(
    last: Option<u64>,
    now: u64,
    ttl: u64,
    request: ClientRequest,
) -> Seq<RequestView> {
    if is_due(last, now, ttl) {
        seq![RequestView::Plain(request)]
    } else {
        Seq::empty()
    }
}

/// The library page opens on the outermost folder with nothing selected, and has the lists fetched
/// that are due: playlists, albums, artists and shows, in this order. The search page opens empty,
/// with the input in focus, and has the same lists fetched, the shows before the artists. Each list is
/// due by its own time alone.
pub proof fn law_library_and_search_pages_fetch_what_is_due(
    playing: Option<PlayingItem>,
    player: PlayerState,
    config: CommandConfig,
    data: AppData,
    now: u64,
    ui: UIView,
    client: OutboxView,
)
    requires
        client.room >= 4,
    ensures
        ({
            let user = data.user_data;
            let ttl = config.library_refresh_ttl;
            let none = ListState { offset: 0, selected: None };
            let playlists = one_if_due(
                user.playlists_last_sync,
                now,
                ttl,
                ClientRequest::GetUserPlaylists,
            );
            let albums = one_if_due(
                user.saved_albums_last_sync,
                now,
                ttl,
                ClientRequest::GetUserSavedAlbums,
            );
            let artists = one_if_due(
                user.followed_artists_last_sync,
                now,
                ttl,
                ClientRequest::GetUserFollowedArtists,
            );
            let shows = one_if_due(
                user.saved_shows_last_sync,
                now,
                ttl,
                ClientRequest::GetUserSavedShows,
            );
            let library = command_outcome(
                Command::LibraryPage,
                playing,
                player,
                config,
                data,
                now,
                ui,
                client,
            );
            let search = command_outcome(
                Command::SearchPage,
                playing,
                player,
                config,
                data,
                now,
                ui,
                client,
            );
            &&& is_done(library)
            &&& library.client.sent =~= client.sent + playlists + albums + artists + shows
            &&& adds_page(
                ui,
                library.ui,
                PageView::Library {
                    state: LibraryPageUIState {
                        playlist_list: none,
                        saved_album_list: none,
                        followed_artist_list: none,
                        focus: LibraryFocusState::Playlists,
                        playlist_folder_id: 0,
                    },
                },
            )
            &&& is_done(search)
            &&& search.client.sent =~= client.sent + playlists + albums + shows + artists
            &&& search.ui.history.len() == ui.history.len() + 1
            &&& adds_page(ui, search.ui, search.ui.history.last())
            &&& search.ui.history.last() matches PageView::Search {
                line_input,
                current_query,
                state,
            } && line_input.line.len() == 0 && line_input.cursor == 0 && current_query.len() == 0
                && state == (SearchPageUIState {
                track_list: none,
                album_list: none,
                artist_list: none,
                playlist_list: none,
                show_list: none,
                episode_list: none,
                focus: SearchFocusState::Input,
            })
        }),
{
    let user = data.user_data;
    let ttl = config.library_refresh_ttl;
    let playlists = one_if_due(
        user.playlists_last_sync,
        now,
        ttl,
        ClientRequest::GetUserPlaylists,
    );
    let albums = one_if_due(
        user.saved_albums_last_sync,
        now,
        ttl,
        ClientRequest::GetUserSavedAlbums,
    );
    let artists = one_if_due(
        user.followed_artists_last_sync,
        now,
        ttl,
        ClientRequest::GetUserFollowedArtists,
    );
    let shows = one_if_due(user.saved_shows_last_sync, now, ttl, ClientRequest::GetUserSavedShows);
    assert(library_refresh(user, now, ttl) =~= playlists + albums + artists + shows);
    assert(search_refresh(user, now, ttl) =~= playlists + albums + shows + artists);
}

/// Where the client stops listening while a page has lists fetched, the page is open all the same, the
/// requests that the client took are the first ones, and that it stopped is reported.
pub proof fn law_pages_open_though_the_client_stops(
    command: Command,
    listening: OutboxView,
    playing: Option<PlayingItem>,
    player: PlayerState,
    config: CommandConfig,
    data: AppData,
    now: u64,
    ui: UIView,
    client: OutboxView,
)
    requires
        command == Command::LibraryPage || command == Command::SearchPage,
        listening.room >= 4,
        listening.sent == client.sent,
    ensures
        ({
            let all = command_outcome(command, playing, player, config, data, now, ui, listening);
            let some = command_outcome(command, playing, player, config, data, now, ui, client);
            &&& some.ui == all.ui
            &&& if all.client.sent.len() <= client.sent.len() + client.room {
                some.client.sent == all.client.sent && is_done(some)
            } else {
                &&& some.client.sent =~= all.client.sent.take(
                    (client.sent.len() + client.room) as int,
                )
                &&& is_refused(some)
            }
        }),
{
    let requests = if command == Command::LibraryPage {
        library_refresh(data.user_data, now, config.library_refresh_ttl)
    } else {
        search_refresh(data.user_data, now, config.library_refresh_ttl)
    };
    let all = command_outcome(command, playing, player, config, data, now, ui, listening);
    assert(requests.len() <= 4);
    assert(all.client.sent == client.sent + requests);
}

/// The popup that a command opens once its contents have been requested, and the request.
pub open spec fn requested_popup(command: Command) -> Option<(PopupView, ClientRequest)> {
    let list = ListState { offset: 0, selected: None };
    match command {
        Command::BrowseUserPlaylists => Some(
            (
                PopupView::UserPlaylistList(
                    PlaylistPopupView::Browse { folder_id: 0, search_query: Seq::empty() },
                    list,
                ),
                ClientRequest::GetUserPlaylists,
            ),
        ),
        Command::BrowseUserFollowedArtists => Some(
            (PopupView::UserFollowedArtistList(list), ClientRequest::GetUserFollowedArtists),
        ),
        Command::BrowseUserSavedAlbums => Some(
            (PopupView::UserSavedAlbumList(list), ClientRequest::GetUserSavedAlbums),
        ),
        Command::SwitchDevice => Some((PopupView::DeviceList(list), ClientRequest::GetDevices)),
        _ => None,
    }
}

/// A list of the library or of the devices pops up with the request for what it lists. Where the
/// client does not listen, only the list of devices is shown.
pub proof fn law_popups_open_with_their_request(
    command: Command,
    playing: Option<PlayingItem>,
    player: PlayerState,
    config: CommandConfig,
    data: AppData,
    now: u64,
    ui: UIView,
    client: OutboxView,
)
    requires
        requested_popup(command) is Some,
    ensures
        ({
            let (popup, request) = requested_popup(command)->0;
            let o = command_outcome(command, playing, player, config, data, now, ui, client);
            if client.room > 0 {
                &&& is_done(o)
                &&& hands_over(client, o.client, RequestView::Plain(request))
                &&& sets_popup(ui, o.ui, Some(popup))
            } else {
                &&& is_refused(o)
                &&& o.client == client
                &&& command == Command::SwitchDevice ==> sets_popup(ui, o.ui, Some(popup))
                &&& command != Command::SwitchDevice ==> o.ui == ui
            }
        }),
{
}

/// A new playlist is asked for with an empty name and an empty description, the name first. Closing
/// the popup closes it and nothing else, and quitting ends the program and nothing else.
pub proof fn law_popups_open_and_close(
    playing: Option<PlayingItem>,
    player: PlayerState,
    config: CommandConfig,
    data: AppData,
    now: u64,
    ui: UIView,
    client: OutboxView,
)
    ensures
        ({
            let o = command_outcome(
                Command::CreatePlaylist,
                playing,
                player,
                config,
                data,
                now,
                ui,
                client,
            );
            &&& is_done(o) && o.client == client
            &&& sets_popup(ui, o.ui, o.ui.popup)
            &&& o.ui.popup matches Some(PopupView::PlaylistCreate { name, desc, current_field })
                && name.line.len() == 0 && name.cursor == 0 && desc.line.len() == 0 && desc.cursor
                == 0 && current_field == PlaylistCreateCurrentField::Name
        }),
        ({
            let o = command_outcome(
                Command::ClosePopup,
                playing,
                player,
                config,
                data,
                now,
                ui,
                client,
            );
            is_done(o) && o.client == client && sets_popup(ui, o.ui, None)
        }),
        ({
            let o = command_outcome(
                Command::Quit,
                playing,
                player,
                config,
                data,
                now,
                ui,
                client,
            );
            &&& is_done(o) && o.client == client
            &&& !o.ui.is_running
            &&& o.ui == (UIView { is_running: o.ui.is_running, ..ui })
        }),
{
}

/// The list of themes begins with the one in use, wherever the configuration has it first, and has the
/// others in their order behind it. A theme that is not configured moves nothing.
pub proof fn law_theme_in_use_comes_first(
    i: int,
    playing: Option<PlayingItem>,
    player: PlayerState,
    config: CommandConfig,
    data: AppData,
    now: u64,
    ui: UIView,
    client: OutboxView,
)
    ensures
        ({
            let themes = config.themes@;
            let name = ui.theme.name@;
            let o = command_outcome(
                Command::SwitchTheme,
                playing,
                player,
                config,
                data,
                now,
                ui,
                client,
            );
            &&& is_done(o) && o.client == client
            &&& sets_popup(ui, o.ui, o.ui.popup)
            &&& o.ui.popup matches Some(PopupView::ThemeList(shown, list)) && list == (ListState {
                offset: 0,
                selected: None,
            }) && {
                &&& 0 <= i < themes.len() && themes[i].name@ == name && (forall|j: int|
                    0 <= j < i ==> (#[trigger] themes[j]).name@ != name) ==> shown =~= seq![
                    themes[i],
                ] + themes.take(i) + themes.skip(i + 1)
                &&& (forall|j: int|
                    0 <= j < themes.len() ==> (#[trigger] themes[j]).name@ != name) ==> shown
                    == themes
            }
        }),
{
    let themes = config.themes@;
    let name = ui.theme.name@;
    if 0 <= i < themes.len() && themes[i].name@ == name && (forall|j: int|
        0 <= j < i ==> (#[trigger] themes[j]).name@ != name) {
        assert(crate::event::global::theme_place(themes, name, i));
        let k = choose|k: int| crate::event::global::theme_place(themes, name, k);
        assert(crate::event::global::theme_place(themes, name, k));
        assert(k == i) by {
            if k < i {
                assert(themes[k].name@ == name);
            }
            if i < k {
                assert(themes[i].name@ == name);
            }
        }
        assert(with_theme_first(themes, name) =~= seq![themes[i]] + themes.take(i) + themes.skip(
            i + 1,
        ));
    }
}

/// The playback is refreshed, and the player restarted, by the request of that name, and the interface
/// is left as it is. The link in the clipboard is asked for, with nothing sent or changed.
pub proof fn law_requests_without_a_page(
    playing: Option<PlayingItem>,
    player: PlayerState,
    config: CommandConfig,
    data: AppData,
    now: u64,
    ui: UIView,
    client: OutboxView,
)
    requires
        client.room > 0,
    ensures
        ({
            let o = command_outcome(
                Command::RefreshPlayback,
                playing,
                player,
                config,
                data,
                now,
                ui,
                client,
            );
            is_done(o) && o.ui == ui && hands_over(
                client,
                o.client,
                RequestView::Plain(ClientRequest::GetCurrentPlayback),
            )
        }),
        ({
            let o = command_outcome(
                Command::RestartIntegratedClient,
                playing,
                player,
                config,
                data,
                now,
                ui,
                client,
            );
            is_done(o) && o.ui == ui && hands_over(
                client,
                o.client,
                RequestView::Plain(ClientRequest::RestartIntegratedClient),
            )
        }),
        ({
            let o = command_outcome(
                Command::OpenSpotifyLinkFromClipboard,
                playing,
                player,
                config,
                data,
                now,
                ui,
                client,
            );
            o.result == Ok::<StepView, ErrorView>(StepView::ReadClipboard) && is_unchanged(
                o,
                ui,
                client,
            )
        }),
{
}

/// The actions on what is playing are those of the very track or episode, and asking for them changes
/// nothing. Without one there is nothing to ask for.
pub proof fn law_actions_on_what_is_playing(
    playing: Option<PlayingItem>,
    player: PlayerState,
    config: CommandConfig,
    data: AppData,
    now: u64,
    ui: UIView,
    client: OutboxView,
)
    ensures
        ({
            let o = command_outcome(
                Command::ShowActionsOnCurrentTrack,
                playing,
                player,
                config,
                data,
                now,
                ui,
                client,
            );
            &&& is_unchanged(o, ui, client)
            &&& match playing {
                Some(PlayingItem::Track(track)) if track.track is Some => o.result == Ok::<
                    StepView,
                    ErrorView,
                >(StepView::ShowActions(ActionSubject::Track(track.track->0))),
                Some(PlayingItem::Episode(episode)) => o.result == Ok::<StepView, ErrorView>(
                    StepView::ShowActions(ActionSubject::Episode(episode.episode)),
                ),
                _ => is_done(o),
            }
        }),
{
}

/// Going back closes the current page and the popup, and leaves the pages behind it in their order.
/// The only page stays, with its popup.
pub proof fn law_previous_page_closes_the_current_one(
    playing: Option<PlayingItem>,
    player: PlayerState,
    config: CommandConfig,
    data: AppData,
    now: u64,
    ui: UIView,
    client: OutboxView,
)
    requires
        ui.history.len() > 0,
    ensures
        ({
            let o = command_outcome(
                Command::PreviousPage,
                playing,
                player,
                config,
                data,
                now,
                ui,
                client,
            );
            &&& is_done(o) && o.client == client
            &&& ui.history.len() == 1 ==> o.ui == ui
            &&& ui.history.len() > 1 ==> {
                &&& o.ui.popup is None
                &&& o.ui.history.len() == ui.history.len() - 1
                &&& forall|i: int|
                    0 <= i < o.ui.history.len() ==> #[trigger] o.ui.history[i] == ui.history[i]
                &&& o.ui == (UIView { history: o.ui.history, popup: None, ..ui })
            }
        }),
{
}

/// The commands of lists and popups are not carried out here, and change nothing.
pub proof fn law_list_commands_are_left_to_the_windows(
    command: Command,
    playing: Option<PlayingItem>,
    player: PlayerState,
    config: CommandConfig,
    data: AppData,
    now: u64,
    ui: UIView,
    client: OutboxView,
)
    ensures
        ({
            let o = command_outcome(command, playing, player, config, data, now, ui, client);
            let no_id = match playing {
                Some(PlayingItem::Track(track)) => track.id is None,
                Some(PlayingItem::Episode(_)) => false,
                _ => true,
            };
            &&& is_not_for(o) <==> match command {
                Command::SelectNextOrScrollDown => true,
                Command::SelectPreviousOrScrollUp => true,
                Command::PageSelectNextOrScrollDown => true,
                Command::PageSelectPreviousOrScrollUp => true,
                Command::SelectFirstOrScrollToTop => true,
                Command::SelectLastOrScrollToBottom => true,
                Command::ChooseSelected => true,
                Command::ShowActionsOnSelectedItem => true,
                Command::AddSelectedItemToQueue => true,
                Command::Search => true,
                Command::JumpToCurrentTrackInContext => no_id,
                _ => false,
            }
            &&& is_not_for(o) ==> is_unchanged(o, ui, client)
        }),
{
}

/// The tracks of a context, whatever its kind; a show has none.
pub open spec fn tracks_in(context: Context) -> Option<Seq<Track>> {
    match context {
        Context::Playlist { tracks } => Some(tracks@),
        Context::Album { tracks } => Some(tracks@),
        Context::Artist { top_tracks } => Some(top_tracks@),
        Context::Tracks { tracks } => Some(tracks@),
        Context::Show { .. } => None,
    }
}

/// The URI of what is playing, where it has one.
pub open spec fn playing_uri(playing: Option<PlayingItem>) -> Option<Seq<char>> {
    match playing {
        Some(PlayingItem::Track(track)) => match track.id {
            Some(id) => Some("spotify:track:"@ + id@),
            None => None,
        },
        Some(PlayingItem::Episode(episode)) => Some("spotify:episode:"@ + episode.episode.id@),
        _ => None,
    }
}

/// The first track that is searched for is found at its place.
proof fn lemma_first_track(tracks: Seq<Track>, uri: Seq<char>, n: int)
    requires
        0 <= n < tracks.len() <= usize::MAX,
        "spotify:track:"@ + tracks[n].id@ == uri,
        forall|j: int| 0 <= j < n ==> "spotify:track:"@ + (#[trigger] tracks[j]).id@ != uri,
    ensures
        crate::model::first_track(tracks, uri) == Some(n as usize),
    decreases tracks.len(),
{
    let front = tracks.drop_last();
    if n < front.len() {
        lemma_first_track(front, uri, n);
    } else {
        lemma_no_track(front, uri);
    }
}

/// A track that is not there is not found.
proof fn lemma_no_track(tracks: Seq<Track>, uri: Seq<char>)
    requires
        forall|j: int|
            0 <= j < tracks.len() ==> "spotify:track:"@ + (#[trigger] tracks[j]).id@ != uri,
    ensures
        crate::model::first_track(tracks, uri) is None,
    decreases tracks.len(),
{
    if tracks.len() > 0 {
        lemma_no_track(tracks.drop_last(), uri);
    }
}

/// The tracks of a context are counted by a number of the machine.
proof fn lemma_tracks_fit(context: Context)
    ensures
        tracks_in(context) matches Some(tracks) ==> tracks.len() <= usize::MAX,
{
    match context {
        Context::Playlist { tracks } => lemma_vec_fits(tracks),
        Context::Album { tracks } => lemma_vec_fits(tracks),
        Context::Artist { top_tracks } => lemma_vec_fits(top_tracks),
        Context::Tracks { tracks } => lemma_vec_fits(tracks),
        Context::Show { .. } => {},
    }
}

/// Jumping to what is playing selects it on a page whose context has it: the first track with the URI
/// of what is playing is the one that is selected afterwards, and nothing but the current page
/// differs. Where the context is not known, or does not have it, nothing changes.
pub proof fn law_jump_selects_what_is_playing(
    n: int,
    playing: Option<PlayingItem>,
    player: PlayerState,
    config: CommandConfig,
    data: AppData,
    now: u64,
    ui: UIView,
    client: OutboxView,
)
    requires
        ui.history.len() > 0,
        playing_uri(playing) is Some,
    ensures
        ({
            let uri = playing_uri(playing)->0;
            let shown = ui.history[ui.history.len() - 1];
            let o = command_outcome(
                Command::JumpToCurrentTrackInContext,
                playing,
                player,
                config,
                data,
                now,
                ui,
                client,
            );
            &&& is_done(o) && o.client == client
            &&& match shown {
                PageView::Context { id: Some(id), context_page_type, state } => match live(
                    data.contexts@,
                    id.uri(),
                    now,
                ) {
                    Some(context) => match tracks_in(context) {
                        Some(tracks) => {
                            &&& 0 <= n < tracks.len() && "spotify:track:"@
                                + tracks[n].id@ == uri && (forall|j: int|
                                0 <= j < n ==> "spotify:track:"@ + (#[trigger] tracks[j]).id@
                                    != uri) ==> {
                                &&& state is Some ==> o.ui.history.last().selection() == Some(
                                    n as usize,
                                )
                                &&& o.ui.history.last() matches PageView::Context {
                                    id: kept,
                                    context_page_type: still,
                                    ..
                                } && kept == Some(id) && still == context_page_type
                                &&& o.ui.history.drop_last() =~= ui.history.drop_last()
                                &&& o.ui == (UIView { history: o.ui.history, ..ui })
                            }
                            &&& (forall|j: int|
                                0 <= j < tracks.len() ==> "spotify:track:"@ + (
                                #[trigger] tracks[j]).id@ != uri) ==> o.ui == ui
                        },
                        None => o.ui == ui,
                    },
                    None => o.ui == ui,
                },
                _ => o.ui == ui,
            }
        }),
{
    let uri = playing_uri(playing)->0;
    let shown = ui.history[ui.history.len() - 1];
    if let PageView::Context { id: Some(id), .. } = shown {
        if let Some(context) = live(data.contexts@, id.uri(), now) {
            lemma_tracks_fit(context);
            if let Some(tracks) = tracks_in(context) {
                if 0 <= n < tracks.len() && "spotify:track:"@ + tracks[n].id@ == uri
                    && (forall|j: int|
                    0 <= j < n ==> "spotify:track:"@ + (#[trigger] tracks[j]).id@ != uri) {
                    lemma_first_track(tracks, uri, n);
                }
                if forall|j: int|
                    0 <= j < tracks.len() ==> "spotify:track:"@ + (#[trigger] tracks[j]).id@
                        != uri {
                    lemma_no_track(tracks, uri);
                }
            }
        }
    }
}

} // verus!
