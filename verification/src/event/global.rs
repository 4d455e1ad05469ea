//! The commands that belong to no page or popup.

use vstd::prelude::*;
use vstd::string::*;

use crate::client::ClientRequest;
use crate::client::Outbox;
use crate::client::OutboxView;
use crate::client::PlayerRequest;
use crate::client::RequestView;
use crate::command::ActionSubject;
use crate::command::Command;
use crate::error::ErrorView;
use crate::error::HandlerError;
use crate::event::step::applied;
use crate::event::step::asks;
use crate::event::step::ignored;
use crate::event::step::Outcome;
use crate::event::step::result_view;
use crate::event::step::sends;
use crate::event::step::Step;
use crate::event::step::StepView;
use crate::ids::ContextId;
use crate::ids::ContextIdView;
use crate::ids::PlayableId;
use crate::ids::PlayableIdView;
use crate::ids::track_uri;
use crate::ids::TracksId;
use crate::layout::fresh_list;
use crate::layout::ListState;
use crate::model::AppData;
use crate::model::first_track;
use crate::model::known_tracks;
use crate::model::position_of;
use crate::model::UserData;
use crate::page::BrowsePageUIState;
use crate::page::ContextPageType;
use crate::page::ContextPageTypeView;
use crate::page::empty_line;
use crate::page::fresh_library;
use crate::page::fresh_search;
use crate::page::LibraryPageUIState;
use crate::page::LineInput;
use crate::page::PageState;
use crate::page::PageView;
use crate::page::SearchPageUIState;
use crate::player::BufferedPlayback;
use crate::player::PlayerState;
use crate::player::PlayingItem;
use crate::popup::PlaylistCreateCurrentField;
use crate::popup::PlaylistPopupAction;
use crate::popup::PlaylistPopupView;
use crate::popup::PopupState;
use crate::popup::PopupView;
use crate::popup::Theme;
use crate::span::in_range;
use crate::span::seconds;
use crate::span::Span;
use crate::text::joined;
use crate::text::map_join;
use crate::ui::browsing;
use crate::ui::UIState;
use crate::ui::UIView;

verus! {

/// What the commands take from the configuration. Times are in nanoseconds.
#[derive(Debug)]
pub struct CommandConfig {
    /// How far a seek goes that names no duration, in seconds.
    pub seek_duration_secs: u16,
    pub themes: Vec<Theme>,
    /// The age at which a list of the user's library is fetched again.
    pub library_refresh_ttl: u64,
    /// How the lists of the user's tracks are named.
    pub top_tracks_id: TracksId,
    pub recently_played_tracks_id: TracksId,
    pub liked_tracks_id: TracksId,
}

/// Whether a list that was last fetched at `last_sync` is to be fetched again.
pub open spec fn is_stale(last_sync: Option<u64>, now: u64, ttl: u64) -> bool {
    match last_sync {
        Some(t) => (if t <= now {
            now - t
        } else {
            0
        }) >= ttl,
        None => true,
    }
}

/// Whether a list that was last fetched at `last_sync` is to be fetched again.
pub fn needs_refresh(last_sync: Option<u64>, now: u64, ttl: u64) -> (r: bool)
    ensures
        r == is_stale(last_sync, now, ttl),
{
    match last_sync {
        Some(t) => now.saturating_sub(t) >= ttl,
        None => true,
    }
}

/// The request alone, or none.
pub open spec fn if_wanted(wanted: bool, request: ClientRequest) -> Seq<RequestView> {
    if wanted {
        seq![RequestView::Plain(request)]
    } else {
        Seq::empty()
    }
}

/// Those of the requests that are wanted, in order.
pub open spec fn wanted_of(requests: Seq<(bool, ClientRequest)>) -> Seq<RequestView>
    decreases requests.len(),
{
    if requests.len() == 0 {
        Seq::empty()
    } else {
        let before = wanted_of(requests.drop_last());
        if requests.last().0 {
            before.push(RequestView::Plain(requests.last().1))
        } else {
            before
        }
    }
}

/// The requests for the stale lists, in the order of the library page.
pub open spec fn library_refresh(data: UserData, now: u64, ttl: u64) -> Seq<RequestView> {
    if_wanted(is_stale(data.playlists_last_sync, now, ttl), ClientRequest::GetUserPlaylists) + if_wanted(
        is_stale(data.saved_albums_last_sync, now, ttl),
        ClientRequest::GetUserSavedAlbums,
    ) + if_wanted(
        is_stale(data.followed_artists_last_sync, now, ttl),
        ClientRequest::GetUserFollowedArtists,
    ) + if_wanted(is_stale(data.saved_shows_last_sync, now, ttl), ClientRequest::GetUserSavedShows)
}

/// The requests for the stale lists, in the order of the search page.
pub open spec fn search_refresh(data: UserData, now: u64, ttl: u64) -> Seq<RequestView> {
    if_wanted(is_stale(data.playlists_last_sync, now, ttl), ClientRequest::GetUserPlaylists) + if_wanted(
        is_stale(data.saved_albums_last_sync, now, ttl),
        ClientRequest::GetUserSavedAlbums,
    ) + if_wanted(
        is_stale(data.saved_shows_last_sync, now, ttl),
        ClientRequest::GetUserSavedShows,
    ) + if_wanted(
        is_stale(data.followed_artists_last_sync, now, ttl),
        ClientRequest::GetUserFollowedArtists,
    )
}

/// The requests go out in order; where the client stops listening before the last one, that is
/// reported, and the later ones are not sent.
pub open spec fn sends_all(ui: UIView, client: OutboxView, requests: Seq<RequestView>) -> Outcome {
    Outcome {
        result: if requests.len() <= client.room {
            Ok(StepView::Handled(true))
        } else {
            Err(ErrorView::ClientClosed)
        },
        ui,
        client: client.with_all(requests),
    }
}

/// The volume that is set when the volume `volume` is changed by `offset`: at most 100, and taken
/// modulo 256 where it falls below zero.
pub open spec fn volume_after(volume: u32, offset: i32) -> u8 {
    let sum = (volume as i32) + offset;
    (if sum < 100 {
        sum
    } else {
        100
    }) as u8
}

/// How far a seek goes.
pub open spec fn seek_secs(duration: Option<u16>, config: CommandConfig) -> u16 {
    match duration {
        Some(secs) => secs,
        None => config.seek_duration_secs,
    }
}

/// The place of the first theme called `name`.
pub open spec fn theme_place(themes: Seq<Theme>, name: Seq<char>, i: int) -> bool {
    &&& 0 <= i < themes.len()
    &&& themes[i].name@ == name
    &&& forall|j: int| 0 <= j < i ==> (#[trigger] themes[j]).name@ != name
}

/// The themes with the one called `name` first and the others in their order.
pub open spec fn with_theme_first(themes: Seq<Theme>, name: Seq<char>) -> Seq<Theme> {
    if exists|i: int| theme_place(themes, name, i) {
        let i = choose|i: int| theme_place(themes, name, i);
        seq![themes[i]] + themes.remove(i)
    } else {
        themes
    }
}

/// The id of what is playing, where it has one.
pub open spec fn playing_id(playing: Option<PlayingItem>) -> Option<PlayableIdView> {
    match playing {
        Some(PlayingItem::Track(track)) => match track.id {
            Some(id) => Some(PlayableIdView::Track(id@)),
            None => None,
        },
        Some(PlayingItem::Episode(episode)) => Some(PlayableIdView::Episode(episode.episode.id@)),
        _ => None,
    }
}

/// The interface with the track that is playing selected, where the current page shows it.
pub open spec fn jumping_to(ui: UIView, id: PlayableIdView, data: AppData, now: u64) -> UIView {
    match ui.page() {
        PageView::Context { id: Some(context), .. } => match known_tracks(
            data.contexts@,
            context.uri(),
            now,
        ) {
            Some(tracks) => match first_track(tracks, id.uri()) {
                Some(place) => ui.with_page(ui.page().selecting(place)),
                None => ui,
            },
            None => ui,
        },
        _ => ui,
    }
}

/// Whether a command can be carried out without overflow: the sum of a volume and its change fits,
/// the target of a seek is a span, and the track to jump to is not a local one.
pub open spec fn can_handle(
    command: Command,
    playing: Option<PlayingItem>,
    player: PlayerState,
    config: CommandConfig,
) -> bool {
    match command {
        Command::VolumeChange { offset } => match player.buffered_playback {
            Some(BufferedPlayback { volume: Some(volume), .. }) => i32::MIN <= (volume as i32)
                + offset <= i32::MAX,
            _ => true,
        },
        Command::SeekForward { duration } => player.progress matches Some(progress) ==> in_range(
            progress@ + seconds(seek_secs(duration, config) as int),
        ),
        Command::SeekBackward { duration } => player.progress matches Some(progress) ==> in_range(
            progress@ - seconds(seek_secs(duration, config) as int),
        ),
        Command::JumpToCurrentTrackInContext => playing matches Some(PlayingItem::Track(track))
            ==> track.id is Some,
        _ => true,
    }
}

/// Whether a command can be carried out without overflow.
pub fn is_possible(
    command: Command,
    playing: &Option<PlayingItem>,
    player: &PlayerState,
    config: &CommandConfig,
) -> (r: bool)
    ensures
        r == can_handle(command, *playing, *player, *config),
{
    match command {
        Command::VolumeChange { offset } => {
            if let Some(playback) = &player.buffered_playback {
                if let Some(volume) = playback.volume {
                    return (volume as i32).checked_add(offset).is_some();
                }
            }
            true
        },
        Command::SeekForward { duration } => {
            if let Some(progress) = player.progress {
                return progress.checked_add(seek_span(duration, config)).is_some();
            }
            true
        },
        Command::SeekBackward { duration } => {
            if let Some(progress) = player.progress {
                return progress.checked_sub(seek_span(duration, config)).is_some();
            }
            true
        },
        Command::JumpToCurrentTrackInContext => match playing {
            Some(PlayingItem::Track(track)) => track.id.is_some(),
            _ => true,
        },
        _ => true,
    }
}

/// How far a seek goes.
fn seek_span(duration: Option<u16>, config: &CommandConfig) -> (r: Span)
    ensures
        r@ == seconds(seek_secs(duration, *config) as int),
{
    let secs: u16 = match duration {
        Some(secs) => secs,
        None => config.seek_duration_secs,
    };
    Span::from_secs(secs as i64).unwrap()
}

/// A request without contents of its own.
pub open spec fn plain(request: PlayerRequest) -> RequestView {
    RequestView::Plain(ClientRequest::Player(request))
}

/// What a command that is about the playback comes to.
pub open spec fn playback_outcome(
    command: Command,
    player: PlayerState,
    config: CommandConfig,
    ui: UIView,
    client: OutboxView,
) -> Outcome {
    match command {
        Command::NextTrack => sends(ui, client, plain(PlayerRequest::NextTrack), ui),
        Command::PreviousTrack => sends(ui, client, plain(PlayerRequest::PreviousTrack), ui),
        Command::ResumePause => sends(ui, client, plain(PlayerRequest::ResumePause), ui),
        Command::Repeat => sends(ui, client, plain(PlayerRequest::Repeat), ui),
        Command::Shuffle => sends(ui, client, plain(PlayerRequest::Shuffle), ui),
        Command::Mute => sends(ui, client, plain(PlayerRequest::ToggleMute), ui),
        Command::VolumeChange { offset } => match player.buffered_playback {
            Some(BufferedPlayback { volume: Some(volume), .. }) => sends(
                ui,
                client,
                plain(PlayerRequest::Volume(volume_after(volume, offset))),
                ui,
            ),
            _ => applied(ui, client),
        },
        Command::SeekForward { duration } => match player.progress {
            Some(progress) => sends(
                ui,
                client,
                RequestView::Seek(progress@ + seconds(seek_secs(duration, config) as int)),
                ui,
            ),
            None => applied(ui, client),
        },
        Command::SeekBackward { duration } => match player.progress {
            Some(progress) => {
                let target = progress@ - seconds(seek_secs(duration, config) as int);
                sends(
                    ui,
                    client,
                    RequestView::Seek(
                        if target > 0 {
                            target
                        } else {
                            0
                        },
                    ),
                    ui,
                )
            },
            None => applied(ui, client),
        },
        _ => applied(ui, client),
    }
}

/// Whether a command is about the playback alone.
pub open spec fn is_playback_command(command: Command) -> bool {
    match command {
        Command::NextTrack => true,
        Command::PreviousTrack => true,
        Command::ResumePause => true,
        Command::Repeat => true,
        Command::ToggleFakeTrackRepeatMode => true,
        Command::Shuffle => true,
        Command::Mute => true,
        Command::VolumeChange { .. } => true,
        Command::SeekForward { .. } => true,
        Command::SeekBackward { .. } => true,
        _ => false,
    }
}

/// The player after a command: only the fake repeat mode is kept here.
pub open spec fn player_after(command: Command, player: PlayerState) -> PlayerState {
    match (command, player.buffered_playback) {
        (Command::ToggleFakeTrackRepeatMode, Some(playback)) => PlayerState {
            buffered_playback: Some(
                BufferedPlayback {
                    fake_track_repeat_state: !playback.fake_track_repeat_state,
                    ..playback
                },
            ),
            ..player
        },
        _ => player,
    }
}

/// A page that opens, with the request for what it shows.
pub open spec fn opens(
    page: PageView,
    request: ClientRequest,
    ui: UIView,
    client: OutboxView,
) -> Outcome {
    sends(ui.opening(page), client, RequestView::Plain(request), ui.opening(page))
}

/// A popup that opens once its contents have been requested.
pub open spec fn pops_up(
    popup: PopupView,
    request: ClientRequest,
    ui: UIView,
    client: OutboxView,
) -> Outcome {
    sends(ui, client, RequestView::Plain(request), ui.with_popup(Some(popup)))
}

/// What a command that is not about the playback comes to.
pub open spec fn interface_outcome(
    command: Command,
    playing: Option<PlayingItem>,
    config: CommandConfig,
    data: AppData,
    now: u64,
    ui: UIView,
    client: OutboxView,
) -> Outcome {
    match command {
        Command::Quit => applied(UIView { is_running: false, ..ui }, client),
        Command::OpenCommandHelp => applied(
            ui.opening(PageView::CommandHelp { scroll_offset: 0 }),
            client,
        ),
        Command::RefreshPlayback => sends(
            ui,
            client,
            RequestView::Plain(ClientRequest::GetCurrentPlayback),
            ui,
        ),
        Command::ShowActionsOnCurrentTrack => match playing {
            Some(PlayingItem::Track(playing)) => match playing.track {
                Some(track) => asks(
                    StepView::ShowActions(ActionSubject::Track(track)),
                    ui,
                    client,
                ),
                None => applied(ui, client),
            },
            Some(PlayingItem::Episode(playing)) => asks(
                StepView::ShowActions(ActionSubject::Episode(playing.episode)),
                ui,
                client,
            ),
            _ => applied(ui, client),
        },
        Command::CurrentlyPlayingContextPage => applied(
            ui.opening(
                PageView::Context {
                    id: None,
                    context_page_type: ContextPageTypeView::CurrentPlaying,
                    state: None,
                },
            ),
            client,
        ),
        Command::BrowseUserPlaylists => pops_up(
            PopupView::UserPlaylistList(
                PlaylistPopupView::Browse { folder_id: 0, search_query: Seq::empty() },
                fresh_list(),
            ),
            ClientRequest::GetUserPlaylists,
            ui,
            client,
        ),
        Command::BrowseUserFollowedArtists => pops_up(
            PopupView::UserFollowedArtistList(fresh_list()),
            ClientRequest::GetUserFollowedArtists,
            ui,
            client,
        ),
        Command::BrowseUserSavedAlbums => pops_up(
            PopupView::UserSavedAlbumList(fresh_list()),
            ClientRequest::GetUserSavedAlbums,
            ui,
            client,
        ),
        Command::TopTrackPage => opens(
            browsing(ContextIdView::Tracks(config.top_tracks_id@)),
            ClientRequest::GetUserTopTracks,
            ui,
            client,
        ),
        Command::RecentlyPlayedTrackPage => opens(
            browsing(ContextIdView::Tracks(config.recently_played_tracks_id@)),
            ClientRequest::GetUserRecentlyPlayedTracks,
            ui,
            client,
        ),
        Command::LikedTrackPage => opens(
            browsing(ContextIdView::Tracks(config.liked_tracks_id@)),
            ClientRequest::GetUserSavedTracks,
            ui,
            client,
        ),
        Command::LibraryPage => sends_all(
            ui.opening(PageView::Library { state: fresh_library() }),
            client,
            library_refresh(data.user_data, now, config.library_refresh_ttl),
        ),
        Command::SearchPage => sends_all(
            ui.opening(
                PageView::Search {
                    line_input: empty_line(),
                    current_query: Seq::empty(),
                    state: fresh_search(),
                },
            ),
            client,
            search_refresh(data.user_data, now, config.library_refresh_ttl),
        ),
        Command::BrowsePage => opens(
            PageView::Browse { state: BrowsePageUIState::CategoryList { state: fresh_list() } },
            ClientRequest::GetBrowseCategories,
            ui,
            client,
        ),
        Command::PreviousPage => applied(
            if ui.history.len() > 1 {
                ui.going_back()
            } else {
                ui
            },
            client,
        ),
        Command::OpenSpotifyLinkFromClipboard => asks(StepView::ReadClipboard, ui, client),
        Command::LyricsPage => match playing {
            Some(PlayingItem::Track(track)) => match track.id {
                Some(id) => opens(
                    PageView::Lyrics {
                        track_uri: track_uri(id@),
                        track: track.name@,
                        artists: joined(track.artist_names@, ", "@),
                    },
                    ClientRequest::GetLyrics { track_id: id },
                    ui,
                    client,
                ),
                None => applied(ui, client),
            },
            _ => applied(ui, client),
        },
        Command::SwitchDevice => {
            let shown = ui.with_popup(Some(PopupView::DeviceList(fresh_list())));
            sends(shown, client, RequestView::Plain(ClientRequest::GetDevices), shown)
        },
        Command::SwitchTheme => applied(
            ui.with_popup(
                Some(
                    PopupView::ThemeList(
                        with_theme_first(config.themes@, ui.theme.name@),
                        fresh_list(),
                    ),
                ),
            ),
            client,
        ),
        Command::RestartIntegratedClient => sends(
            ui,
            client,
            RequestView::Plain(ClientRequest::RestartIntegratedClient),
            ui,
        ),
        Command::FocusNextWindow => applied(
            if ui.focused_popup() {
                ui
            } else {
                ui.with_page(ui.page().after())
            },
            client,
        ),
        Command::FocusPreviousWindow => applied(
            if ui.focused_popup() {
                ui
            } else {
                ui.with_page(ui.page().before())
            },
            client,
        ),
        Command::Queue => opens(
            PageView::Queue { scroll_offset: 0 },
            ClientRequest::GetCurrentUserQueue,
            ui,
            client,
        ),
        Command::CreatePlaylist => applied(
            ui.with_popup(
                Some(
                    PopupView::PlaylistCreate {
                        name: empty_line(),
                        desc: empty_line(),
                        current_field: PlaylistCreateCurrentField::Name,
                    },
                ),
            ),
            client,
        ),
        Command::JumpToCurrentTrackInContext => match playing_id(playing) {
            Some(id) => applied(jumping_to(ui, id, data, now), client),
            None => ignored(ui, client),
        },
        Command::ClosePopup => applied(ui.with_popup(None), client),
        _ => ignored(ui, client),
    }
}

/// What a command comes to.
pub open spec fn command_outcome(
    command: Command,
    playing: Option<PlayingItem>,
    player: PlayerState,
    config: CommandConfig,
    data: AppData,
    now: u64,
    ui: UIView,
    client: OutboxView,
) -> Outcome {
    if is_playback_command(command) {
        playback_outcome(command, player, config, ui, client)
    } else {
        interface_outcome(command, playing, config, data, now, ui, client)
    }
}

/// Carries out a command that belongs to no page or popup. `playing` is what is playing, `now` the
/// reading of the clock.
pub fn handle_global_command(
    command: Command,
    playing: Option<PlayingItem>,
    player: &mut PlayerState,
    config: &CommandConfig,
    data: &AppData,
    now: u64,
    client_pub: &mut Outbox,
    ui: &mut UIState,
) -> (r: Result<Step, HandlerError>)
    requires
        old(ui)@.has_page(),
        can_handle(command, playing, *old(player), *config),
    ensures
        ({
            let o = command_outcome(
                command,
                playing,
                *old(player),
                *config,
                *data,
                now,
                old(ui)@,
                old(client_pub)@,
            );
            result_view(r) == o.result && final(ui)@ == o.ui && final(client_pub)@ == o.client
        }),
        *final(player) == player_after(command, *old(player)),
        final(ui)@.has_page(),
{
    match command {
        Command::NextTrack => send(
            ClientRequest::Player(PlayerRequest::NextTrack),
            client_pub,
            ui,
        ),
        Command::PreviousTrack => send(
            ClientRequest::Player(PlayerRequest::PreviousTrack),
            client_pub,
            ui,
        ),
        Command::ResumePause => send(
            ClientRequest::Player(PlayerRequest::ResumePause),
            client_pub,
            ui,
        ),
        Command::Repeat => send(ClientRequest::Player(PlayerRequest::Repeat), client_pub, ui),
        Command::ToggleFakeTrackRepeatMode => {
            if let Some(playback) = &mut player.buffered_playback {
                playback.fake_track_repeat_state = !playback.fake_track_repeat_state;
            }
            Ok(Step::Handled(true))
        },
        Command::Shuffle => send(ClientRequest::Player(PlayerRequest::Shuffle), client_pub, ui),
        Command::VolumeChange { offset } => {
            if let Some(playback) = &player.buffered_playback {
                if let Some(volume) = playback.volume {
                    return change_volume(volume, offset, client_pub, ui);
                }
            }
            Ok(Step::Handled(true))
        },
        Command::Mute => send(ClientRequest::Player(PlayerRequest::ToggleMute), client_pub, ui),
        Command::SeekForward { duration } => {
            if let Some(progress) = player.progress {
                let secs: u16 = match duration {
                    Some(secs) => secs,
                    None => config.seek_duration_secs,
                };
                return seek_forward(progress, secs, client_pub, ui);
            }
            Ok(Step::Handled(true))
        },
        Command::SeekBackward { duration } => {
            if let Some(progress) = player.progress {
                let secs: u16 = match duration {
                    Some(secs) => secs,
                    None => config.seek_duration_secs,
                };
                return seek_backward(progress, secs, client_pub, ui);
            }
            Ok(Step::Handled(true))
        },
        _ => handle_interface_command(command, playing, config, data, now, client_pub, ui),
    }
}

/// Sends a request that leaves the interface as it is.
fn send(request: ClientRequest, client_pub: &mut Outbox, ui: &UIState) -> (r: Result<
    Step,
    HandlerError,
>)
    ensures
        ({
            let o = sends(ui@, old(client_pub)@, request@, ui@);
            result_view(r) == o.result && final(client_pub)@ == o.client
        }),
{
    client_pub.send(request)?;
    Ok(Step::Handled(true))
}

/// Requests a change of the volume.
fn change_volume(volume: u32, offset: i32, client_pub: &mut Outbox, ui: &UIState) -> (r: Result<
    Step,
    HandlerError,
>)
    requires
        i32::MIN <= (volume as i32) + offset <= i32::MAX,
    ensures
        ({
            let request = plain(PlayerRequest::Volume(volume_after(volume, offset)));
            let o = sends(ui@, old(client_pub)@, request, ui@);
            result_view(r) == o.result && final(client_pub)@ == o.client
        }),
{
    let sum: i32 = volume as i32 + offset;
    let volume: i32 = if sum < 100 {
        sum
    } else {
        100
    };
    send(ClientRequest::Player(PlayerRequest::Volume(volume as u8)), client_pub, ui)
}

/// Requests a jump forward.
fn seek_forward(progress: Span, secs: u16, client_pub: &mut Outbox, ui: &UIState) -> (r: Result<
    Step,
    HandlerError,
>)
    requires
        in_range(progress@ + seconds(secs as int)),
    ensures
        ({
            let o = sends(
                ui@,
                old(client_pub)@,
                RequestView::Seek(progress@ + seconds(secs as int)),
                ui@,
            );
            result_view(r) == o.result && final(client_pub)@ == o.client
        }),
{
    let step = Span::from_secs(secs as i64).unwrap();
    let target = progress.checked_add(step).unwrap();
    send(ClientRequest::Player(PlayerRequest::SeekTrack(target)), client_pub, ui)
}

/// Requests a jump backward, to the start of the track at most.
fn seek_backward(progress: Span, secs: u16, client_pub: &mut Outbox, ui: &UIState) -> (r: Result<
    Step,
    HandlerError,
>)
    requires
        in_range(progress@ - seconds(secs as int)),
    ensures
        ({
            let target = progress@ - seconds(secs as int);
            let o = sends(
                ui@,
                old(client_pub)@,
                RequestView::Seek(
                    if target > 0 {
                        target
                    } else {
                        0
                    },
                ),
                ui@,
            );
            result_view(r) == o.result && final(client_pub)@ == o.client
        }),
{
    let step = Span::from_secs(secs as i64).unwrap();
    let target = progress.checked_sub(step).unwrap().or_zero();
    send(ClientRequest::Player(PlayerRequest::SeekTrack(target)), client_pub, ui)
}

/// The page of a list of the user's tracks.
fn tracks_page(id: &TracksId) -> (r: PageState)
    ensures
        r@ == browsing(ContextIdView::Tracks(id@)),
{
    PageState::Context {
        id: None,
        context_page_type: ContextPageType::Browsing(ContextId::Tracks(id.clone())),
        state: None,
    }
}

/// Opens a page and requests what it shows.
fn open_with(page: PageState, request: ClientRequest, client_pub: &mut Outbox, ui: &mut UIState) -> (r:
    Result<Step, HandlerError>)
    ensures
        ({
            let opened = old(ui)@.opening(page@);
            let o = sends(opened, old(client_pub)@, request@, opened);
            result_view(r) == o.result && final(ui)@ == o.ui && final(client_pub)@ == o.client
        }),
{
    ui.new_page(page);
    client_pub.send(request)?;
    Ok(Step::Handled(true))
}

/// Requests the contents of a popup and opens it.
fn pop_up_with(
    popup: PopupState,
    request: ClientRequest,
    client_pub: &mut Outbox,
    ui: &mut UIState,
) -> (r: Result<Step, HandlerError>)
    ensures
        ({
            let o = sends(
                old(ui)@,
                old(client_pub)@,
                request@,
                old(ui)@.with_popup(Some(popup@)),
            );
            result_view(r) == o.result && final(ui)@ == o.ui && final(client_pub)@ == o.client
        }),
{
    client_pub.send(request)?;
    ui.popup = Some(popup);
    Ok(Step::Handled(true))
}

/// Sends those of the requests that are wanted, in order, up to the first that fails.
fn send_wanted(requests: Vec<(bool, ClientRequest)>, client_pub: &mut Outbox) -> (r: Result<
    (),
    HandlerError,
>)
    requires
        forall|i: int|
            0 <= i < requests@.len() ==> (#[trigger] requests@[i]).1@ == RequestView::Plain(
                requests@[i].1,
            ),
    ensures
        final(client_pub)@ == old(client_pub)@.with_all(wanted_of(requests@)),
        r is Ok <==> wanted_of(requests@).len() <= old(client_pub)@.room,
        r matches Err(e) ==> e@ == ErrorView::ClientClosed,
{
    let ghost all = requests@;
    let ghost start = client_pub@;
    let mut left = requests;
    assert(all.skip(0) =~= all);
    assert(client_pub@.sent =~= start.sent + wanted_of(all.take(0)));
    let mut done: Ghost<int> = Ghost(0);
    while left.len() > 0
        invariant
            all == requests@,
            start == old(client_pub)@,
            0 <= done@ <= all.len(),
            left@ == all.skip(done@),
            forall|i: int|
                0 <= i < all.len() ==> (#[trigger] all[i]).1@ == RequestView::Plain(all[i].1),
            wanted_of(all.take(done@)).len() <= start.room,
            client_pub@ == start.with_all(wanted_of(all.take(done@))),
        decreases left.len(),
    {
        let (wanted, request) = left.remove(0);
        proof {
            let n = done@;
            assert((wanted, request) == all[n]);
            assert(left@ =~= all.skip(n + 1));
            assert(all.take(n + 1).drop_last() =~= all.take(n));
            assert(all.take(n + 1).last() == all[n]);
        }
        if wanted {
            let ghost before = wanted_of(all.take(done@));
            let ghost now = before.push(RequestView::Plain(request));
            assert(wanted_of(all.take(done@ + 1)) == now);
            proof {
                lemma_wanted_prefix(all, done@ + 1);
            }
            let ghost whole = wanted_of(all);
            match client_pub.send(request) {
                Ok(()) => {
                    assert(start.sent + now =~= (start.sent + before).push(now.last()));
                },
                Err(e) => {
                    assert(before.len() == start.room);
                    assert(whole.take(start.room as int) =~= before) by {
                        assert(now =~= whole.take(now.len() as int));
                    }
                    return Err(e);
                },
            }
        }
        proof {
            done@ = done@ + 1;
        }
    }
    assert(all.take(done@) =~= all);
    Ok(())
}

/// What has been wanted so far is the beginning of all that is wanted.
proof fn lemma_wanted_prefix(all: Seq<(bool, ClientRequest)>, n: int)
    requires
        0 <= n <= all.len(),
    ensures
        wanted_of(all.take(n)).is_prefix_of(wanted_of(all)),
        wanted_of(all.take(n)).len() <= wanted_of(all).len(),
    decreases all.len(),
{
    if n == all.len() {
        assert(all.take(n) =~= all);
        assert(wanted_of(all) =~= wanted_of(all).subrange(0, wanted_of(all).len() as int));
    } else {
        let front = all.drop_last();
        lemma_wanted_prefix(front, n);
        assert(front.take(n) =~= all.take(n));
        let a = wanted_of(all.take(n));
        assert(a =~= wanted_of(front).subrange(0, a.len() as int));
        assert(a =~= wanted_of(all).subrange(0, a.len() as int));
    }
}

/// Opens the library page and requests the stale lists.
fn open_library(
    data: &UserData,
    now: u64,
    ttl: u64,
    client_pub: &mut Outbox,
    ui: &mut UIState,
) -> (r: Result<Step, HandlerError>)
    ensures
        ({
            let o = sends_all(
                old(ui)@.opening(PageView::Library { state: fresh_library() }),
                old(client_pub)@,
                library_refresh(*data, now, ttl),
            );
            result_view(r) == o.result && final(ui)@ == o.ui && final(client_pub)@ == o.client
        }),
{
    ui.new_page(PageState::Library { state: LibraryPageUIState::new() });
    let playlists: bool = needs_refresh(data.playlists_last_sync, now, ttl);
    let albums: bool = needs_refresh(data.saved_albums_last_sync, now, ttl);
    let artists: bool = needs_refresh(data.followed_artists_last_sync, now, ttl);
    let shows: bool = needs_refresh(data.saved_shows_last_sync, now, ttl);
    let requests: Vec<(bool, ClientRequest)> = vec![
        (playlists, ClientRequest::GetUserPlaylists),
        (albums, ClientRequest::GetUserSavedAlbums),
        (artists, ClientRequest::GetUserFollowedArtists),
        (shows, ClientRequest::GetUserSavedShows),
    ];
    proof {
        lemma_wanted_of_four(requests@);
    }
    send_wanted(requests, client_pub)?;
    Ok(Step::Handled(true))
}

/// Opens the search page and requests the stale lists.
fn open_search(
    data: &UserData,
    now: u64,
    ttl: u64,
    client_pub: &mut Outbox,
    ui: &mut UIState,
) -> (r: Result<Step, HandlerError>)
    ensures
        ({
            let page = PageView::Search {
                line_input: empty_line(),
                current_query: Seq::empty(),
                state: fresh_search(),
            };
            let o = sends_all(
                old(ui)@.opening(page),
                old(client_pub)@,
                search_refresh(*data, now, ttl),
            );
            result_view(r) == o.result && final(ui)@ == o.ui && final(client_pub)@ == o.client
        }),
{
    ui.new_page(
        PageState::Search {
            line_input: LineInput::default(),
            current_query: String::new(),
            state: SearchPageUIState::new(),
        },
    );
    let playlists: bool = needs_refresh(data.playlists_last_sync, now, ttl);
    let albums: bool = needs_refresh(data.saved_albums_last_sync, now, ttl);
    let shows: bool = needs_refresh(data.saved_shows_last_sync, now, ttl);
    let artists: bool = needs_refresh(data.followed_artists_last_sync, now, ttl);
    let requests: Vec<(bool, ClientRequest)> = vec![
        (playlists, ClientRequest::GetUserPlaylists),
        (albums, ClientRequest::GetUserSavedAlbums),
        (shows, ClientRequest::GetUserSavedShows),
        (artists, ClientRequest::GetUserFollowedArtists),
    ];
    proof {
        lemma_wanted_of_four(requests@);
    }
    send_wanted(requests, client_pub)?;
    Ok(Step::Handled(true))
}

/// What is wanted of four requests.
proof fn lemma_wanted_of_four(requests: Seq<(bool, ClientRequest)>)
    requires
        requests.len() == 4,
    ensures
        wanted_of(requests) == if_wanted(requests[0].0, requests[0].1) + if_wanted(
            requests[1].0,
            requests[1].1,
        ) + if_wanted(requests[2].0, requests[2].1) + if_wanted(requests[3].0, requests[3].1),
{
    reveal_with_fuel(wanted_of, 5);
    assert(wanted_of(requests) =~= if_wanted(requests[0].0, requests[0].1) + if_wanted(
        requests[1].0,
        requests[1].1,
    ) + if_wanted(requests[2].0, requests[2].1) + if_wanted(requests[3].0, requests[3].1));
}

/// The themes with the one called `name` first and the others in their order.
pub fn themes_from(themes: &Vec<Theme>, name: &String) -> (r: Vec<Theme>)
    ensures
        r@ == with_theme_first(themes@, name@),
{
    let mut out = themes.clone();
    assert(out@ =~= themes@);
    let mut i: usize = 0;
    while i < themes.len()
        invariant
            i <= themes@.len(),
            out@ == themes@,
            forall|j: int| 0 <= j < i ==> (#[trigger] themes@[j]).name@ != name@,
        decreases themes.len() - i,
    {
        if themes[i].name == *name {
            proof {
                assert(theme_place(themes@, name@, i as int));
                let k = choose|k: int| theme_place(themes@, name@, k);
                assert(theme_place(themes@, name@, k));
                assert(k == i);
            }
            let theme = out.remove(i);
            out.insert(0, theme);
            assert(out@ =~= seq![themes@[i as int]] + themes@.remove(i as int));
            return out;
        }
        i = i + 1;
    }
    out
}

/// Opens the page of lyrics for the track that is playing.
fn open_lyrics(playing: Option<PlayingItem>, client_pub: &mut Outbox, ui: &mut UIState) -> (r: Result<
    Step,
    HandlerError,
>)
    ensures
        ({
            let o = match playing {
                Some(PlayingItem::Track(track)) => match track.id {
                    Some(id) => opens(
                        PageView::Lyrics {
                            track_uri: track_uri(id@),
                            track: track.name@,
                            artists: joined(track.artist_names@, ", "@),
                        },
                        ClientRequest::GetLyrics { track_id: id },
                        old(ui)@,
                        old(client_pub)@,
                    ),
                    None => applied(old(ui)@, old(client_pub)@),
                },
                _ => applied(old(ui)@, old(client_pub)@),
            };
            result_view(r) == o.result && final(ui)@ == o.ui && final(client_pub)@ == o.client
        }),
{
    if let Some(PlayingItem::Track(track)) = playing {
        if let Some(id) = track.id {
            let artists = map_join(&track.artist_names, ", ");
            let page = PageState::Lyrics { track_uri: id.uri(), track: track.name, artists };
            return open_with(page, ClientRequest::GetLyrics { track_id: id }, client_pub, ui);
        }
    }
    Ok(Step::Handled(true))
}

/// Selects the track that is playing, where the current page shows it.
fn jump_to_current_track(
    playing: Option<PlayingItem>,
    data: &AppData,
    now: u64,
    ui: &mut UIState,
) -> (r: Step)
    requires
        old(ui)@.has_page(),
        playing matches Some(PlayingItem::Track(track)) ==> track.id is Some,
    ensures
        match playing_id(playing) {
            Some(id) => r@ == StepView::Handled(true) && final(ui)@ == jumping_to(
                old(ui)@,
                id,
                *data,
                now,
            ),
            None => r@ == StepView::Handled(false) && *final(ui) == *old(ui),
        },
        final(ui)@.has_page(),
{
    let id: PlayableId = match playing {
        Some(PlayingItem::Track(track)) => PlayableId::Track(track.id.unwrap()),
        Some(PlayingItem::Episode(episode)) => PlayableId::Episode(episode.episode.id),
        _ => {
            return Step::Handled(false);
        },
    };
    let mut place: Option<usize> = None;
    if let PageState::Context { id: Some(context_id), .. } = ui.current_page() {
        if let Some(tracks) = data.context_tracks(context_id, now) {
            place = position_of(tracks, &id);
        }
    }
    if let Some(p) = place {
        ui.current_page_mut().select(p);
    }
    Step::Handled(true)
}

/// Whether a command opens or closes a page.
spec fn is_page_command(command: Command) -> bool {
    match command {
        Command::OpenCommandHelp => true,
        Command::CurrentlyPlayingContextPage => true,
        Command::TopTrackPage => true,
        Command::RecentlyPlayedTrackPage => true,
        Command::LikedTrackPage => true,
        Command::LibraryPage => true,
        Command::SearchPage => true,
        Command::BrowsePage => true,
        Command::PreviousPage => true,
        Command::LyricsPage => true,
        Command::Queue => true,
        _ => false,
    }
}

/// Carries out a command that is not about the playback.
fn handle_interface_command(
    command: Command,
    playing: Option<PlayingItem>,
    config: &CommandConfig,
    data: &AppData,
    now: u64,
    client_pub: &mut Outbox,
    ui: &mut UIState,
) -> (r: Result<Step, HandlerError>)
    requires
        old(ui)@.has_page(),
        command is JumpToCurrentTrackInContext ==> (playing matches Some(PlayingItem::Track(track))
            ==> track.id is Some),
        !is_playback_command(command),
    ensures
        ({
            let o = interface_outcome(
                command,
                playing,
                *config,
                *data,
                now,
                old(ui)@,
                old(client_pub)@,
            );
            result_view(r) == o.result && final(ui)@ == o.ui && final(client_pub)@ == o.client
        }),
        final(ui)@.has_page(),
{
    match command {
        Command::OpenCommandHelp => {
            ui.new_page(PageState::CommandHelp { scroll_offset: 0 });
            Ok(Step::Handled(true))
        },
        Command::CurrentlyPlayingContextPage => {
            ui.new_page(
                PageState::Context {
                    id: None,
                    context_page_type: ContextPageType::CurrentPlaying,
                    state: None,
                },
            );
            Ok(Step::Handled(true))
        },
        Command::TopTrackPage => open_with(
            tracks_page(&config.top_tracks_id),
            ClientRequest::GetUserTopTracks,
            client_pub,
            ui,
        ),
        Command::RecentlyPlayedTrackPage => open_with(
            tracks_page(&config.recently_played_tracks_id),
            ClientRequest::GetUserRecentlyPlayedTracks,
            client_pub,
            ui,
        ),
        Command::LikedTrackPage => open_with(
            tracks_page(&config.liked_tracks_id),
            ClientRequest::GetUserSavedTracks,
            client_pub,
            ui,
        ),
        Command::LibraryPage => open_library(
            &data.user_data,
            now,
            config.library_refresh_ttl,
            client_pub,
            ui,
        ),
        Command::SearchPage => open_search(
            &data.user_data,
            now,
            config.library_refresh_ttl,
            client_pub,
            ui,
        ),
        Command::BrowsePage => open_with(
            PageState::Browse {
                state: BrowsePageUIState::CategoryList { state: ListState::default() },
            },
            ClientRequest::GetBrowseCategories,
            client_pub,
            ui,
        ),
        Command::PreviousPage => {
            if ui.history.len() > 1 {
                ui.go_back();
            }
            Ok(Step::Handled(true))
        },
        Command::LyricsPage => open_lyrics(playing, client_pub, ui),
        Command::Queue => open_with(
            PageState::Queue { scroll_offset: 0 },
            ClientRequest::GetCurrentUserQueue,
            client_pub,
            ui,
        ),
        _ => handle_popup_command(command, playing, config, data, now, client_pub, ui),
    }
}

/// Carries out a command that is neither about the playback nor about which page is open.
fn handle_popup_command(
    command: Command,
    playing: Option<PlayingItem>,
    config: &CommandConfig,
    data: &AppData,
    now: u64,
    client_pub: &mut Outbox,
    ui: &mut UIState,
) -> (r: Result<Step, HandlerError>)
    requires
        old(ui)@.has_page(),
        command is JumpToCurrentTrackInContext ==> (playing matches Some(PlayingItem::Track(track))
            ==> track.id is Some),
        !is_playback_command(command),
        !is_page_command(command),
    ensures
        ({
            let o = interface_outcome(
                command,
                playing,
                *config,
                *data,
                now,
                old(ui)@,
                old(client_pub)@,
            );
            result_view(r) == o.result && final(ui)@ == o.ui && final(client_pub)@ == o.client
        }),
        final(ui)@.has_page(),
{
    match command {
        Command::Quit => {
            ui.is_running = false;
            Ok(Step::Handled(true))
        },
        Command::RefreshPlayback => send(ClientRequest::GetCurrentPlayback, client_pub, ui),
        Command::ShowActionsOnCurrentTrack => {
            if let Some(playing) = playing {
                match playing {
                    PlayingItem::Track(playing) => {
                        if let Some(track) = playing.track {
                            return Ok(Step::ShowActions(ActionSubject::Track(track)));
                        }
                    },
                    PlayingItem::Episode(playing) => {
                        return Ok(Step::ShowActions(ActionSubject::Episode(playing.episode)));
                    },
                    PlayingItem::Unknown => {},
                }
            }
            Ok(Step::Handled(true))
        },
        Command::BrowseUserPlaylists => pop_up_with(
            PopupState::UserPlaylistList(
                PlaylistPopupAction::Browse { folder_id: 0, search_query: String::new() },
                ListState::default(),
            ),
            ClientRequest::GetUserPlaylists,
            client_pub,
            ui,
        ),
        Command::BrowseUserFollowedArtists => pop_up_with(
            PopupState::UserFollowedArtistList(ListState::default()),
            ClientRequest::GetUserFollowedArtists,
            client_pub,
            ui,
        ),
        Command::BrowseUserSavedAlbums => pop_up_with(
            PopupState::UserSavedAlbumList(ListState::default()),
            ClientRequest::GetUserSavedAlbums,
            client_pub,
            ui,
        ),
        Command::OpenSpotifyLinkFromClipboard => Ok(Step::ReadClipboard),
        Command::SwitchDevice => {
            ui.popup = Some(PopupState::DeviceList(ListState::default()));
            send(ClientRequest::GetDevices, client_pub, ui)
        },
        Command::SwitchTheme => {
            let themes = themes_from(&config.themes, &ui.theme.name);
            ui.popup = Some(PopupState::ThemeList(themes, ListState::default()));
            Ok(Step::Handled(true))
        },
        Command::RestartIntegratedClient => send(
            ClientRequest::RestartIntegratedClient,
            client_pub,
            ui,
        ),
        Command::FocusNextWindow => {
            if !ui.has_focused_popup() {
                ui.current_page_mut().next();
            }
            Ok(Step::Handled(true))
        },
        Command::FocusPreviousWindow => {
            if !ui.has_focused_popup() {
                ui.current_page_mut().previous();
            }
            Ok(Step::Handled(true))
        },
        Command::CreatePlaylist => {
            ui.popup = Some(
                PopupState::PlaylistCreate {
                    name: LineInput::default(),
                    desc: LineInput::default(),
                    current_field: PlaylistCreateCurrentField::Name,
                },
            );
            Ok(Step::Handled(true))
        },
        Command::JumpToCurrentTrackInContext => Ok(jump_to_current_track(playing, data, now, ui)),
        Command::ClosePopup => {
            ui.popup = None;
            Ok(Step::Handled(true))
        },
        _ => Ok(Step::Handled(false)),
    }
}

/// Seeking backward never goes before the start, nor forward.
pub proof fn law_seek_backward_stays_in_track(
    duration: Option<u16>,
    player: PlayerState,
    config: CommandConfig,
    ui: UIView,
    client: OutboxView,
)
    requires
        client.room > 0,
        player.progress is Some,
    ensures
        exists|target: int|
            {
                &&& playback_outcome(
                    Command::SeekBackward { duration },
                    player,
                    config,
                    ui,
                    client,
                ).client == client.with(RequestView::Seek(target))
                &&& 0 <= target
                &&& player.progress->0@ >= 0 ==> target <= player.progress->0@
            },
{
    let target = player.progress->0@ - seconds(seek_secs(duration, config) as int);
    let clamped = if target > 0 {
        target
    } else {
        0
    };
    assert(playback_outcome(
        Command::SeekBackward { duration },
        player,
        config,
        ui,
        client,
    ).client == client.with(RequestView::Seek(clamped)));
}

/// Seeking backward as far as forward leads back to where the playback was.
pub proof fn law_seek_backward_undoes_forward(
    duration: Option<u16>,
    before: PlayerState,
    after: PlayerState,
    config: CommandConfig,
    ui: UIView,
    client: OutboxView,
)
    requires
        client.room > 0,
        before.progress is Some,
        before.progress->0@ >= 0,
        after.progress is Some,
        playback_outcome(
            Command::SeekForward { duration },
            before,
            config,
            ui,
            client,
        ).client == client.with(RequestView::Seek(after.progress->0@)),
    ensures
        playback_outcome(
            Command::SeekBackward { duration },
            after,
            config,
            ui,
            client,
        ).client == client.with(RequestView::Seek(before.progress->0@)),
{
    let sent = client.with(RequestView::Seek(after.progress->0@)).sent;
    let forward = client.with(
        RequestView::Seek(before.progress->0@ + seconds(seek_secs(duration, config) as int)),
    ).sent;
    assert(sent.last() == forward.last());
}

/// The volume that is set is the sum of the volume and its change, and 100 where that is more, as
/// long as the sum does not fall below zero.
pub proof fn law_volume_is_clamped(volume: u32, offset: i32)
    requires
        volume <= i32::MAX,
        volume + offset >= 0,
    ensures
        volume_after(volume, offset) <= 100,
        volume + offset <= 100 ==> volume_after(volume, offset) == volume + offset,
        volume + offset > 100 ==> volume_after(volume, offset) == 100,
{
}

/// Toggling the fake repeat mode twice leaves the player as it was.
pub proof fn law_toggle_repeat_twice(player: PlayerState)
    ensures
        player_after(
            Command::ToggleFakeTrackRepeatMode,
            player_after(Command::ToggleFakeTrackRepeatMode, player),
        ) == player,
{
}

/// The list of themes has each theme as often as the configuration has it, the current one comes
/// first if it is configured, and putting it first again changes nothing.
pub proof fn law_theme_list_is_complete(themes: Seq<Theme>, name: Seq<char>)
    ensures
        with_theme_first(themes, name).to_multiset() == themes.to_multiset(),
        (exists|i: int| 0 <= i < themes.len() && (#[trigger] themes[i]).name@ == name)
            ==> with_theme_first(themes, name).len() > 0 && with_theme_first(themes, name)[0].name@
            == name,
        with_theme_first(with_theme_first(themes, name), name) == with_theme_first(themes, name),
{
    broadcast use vstd::seq_lib::group_to_multiset_ensures;

    if exists|i: int| 0 <= i < themes.len() && (#[trigger] themes[i]).name@ == name {
        let k = choose|i: int| 0 <= i < themes.len() && (#[trigger] themes[i]).name@ == name;
        lemma_first_theme(themes, name, k);
    }
    if exists|i: int| theme_place(themes, name, i) {
        let i = choose|i: int| theme_place(themes, name, i);
        assert(theme_place(themes, name, i));
        let first = seq![themes[i]];
        let sorted = first + themes.remove(i);
        assert(with_theme_first(themes, name) == sorted);
        vstd::seq_lib::lemma_multiset_commutative(first, themes.remove(i));
        assert(first.to_multiset() =~= vstd::multiset::Multiset::empty().insert(themes[i])) by {
            assert(first =~= Seq::<Theme>::empty().push(themes[i]));
        }
        assert(sorted.to_multiset() =~= themes.to_multiset());
        assert(theme_place(sorted, name, 0));
        let j = choose|j: int| theme_place(sorted, name, j);
        assert(theme_place(sorted, name, j));
        assert(j == 0) by {
            if j > 0 {
                assert(sorted[0].name@ == name);
            }
        }
        assert(seq![sorted[0]] + sorted.remove(0) =~= sorted);
    }
}

/// Where a theme of the name is there, one of them comes first.
proof fn lemma_first_theme(themes: Seq<Theme>, name: Seq<char>, k: int)
    requires
        0 <= k < themes.len(),
        themes[k].name@ == name,
    ensures
        exists|i: int| theme_place(themes, name, i),
    decreases k,
{
    if forall|j: int| 0 <= j < k ==> (#[trigger] themes[j]).name@ != name {
        assert(theme_place(themes, name, k));
    } else {
        let j = choose|j: int| 0 <= j < k && (#[trigger] themes[j]).name@ == name;
        lemma_first_theme(themes, name, j);
    }
}

/// A command fails only where the client stops listening, and then it has sent all that the client
/// took. What was sent before stays, whatever the command.
pub proof fn law_command_fails_only_when_closed(
    command: Command,
    playing: Option<PlayingItem>,
    player: PlayerState,
    config: CommandConfig,
    data: AppData,
    now: u64,
    ui: UIView,
    client: OutboxView,
)
    ensures
        ({
            let o = command_outcome(command, playing, player, config, data, now, ui, client);
            &&& o.result matches Err(e) ==> e == ErrorView::ClientClosed && o.client.room == 0
            &&& client.room == 0 ==> o.client == client
            &&& o.client.sent.len() + o.client.room == client.sent.len() + client.room
            &&& client.sent.is_prefix_of(o.client.sent)
        }),
{
    let o = command_outcome(command, playing, player, config, data, now, ui, client);
    assert(client.sent =~= o.client.sent.subrange(0, client.sent.len() as int));
}

/// A command that does not apply changes and sends nothing.
pub proof fn law_ignored_command_changes_nothing(
    command: Command,
    playing: Option<PlayingItem>,
    player: PlayerState,
    config: CommandConfig,
    data: AppData,
    now: u64,
    ui: UIView,
    client: OutboxView,
)
    ensures
        ({
            let o = command_outcome(command, playing, player, config, data, now, ui, client);
            o.result == Ok::<StepView, ErrorView>(StepView::Handled(false)) ==> o.ui == ui
                && o.client == client && player_after(command, player) == player
        }),
{
}

/// Commands about the playback leave the interface as it is.
pub proof fn law_playback_commands_leave_interface(
    command: Command,
    playing: Option<PlayingItem>,
    player: PlayerState,
    config: CommandConfig,
    data: AppData,
    now: u64,
    ui: UIView,
    client: OutboxView,
)
    requires
        is_playback_command(command),
    ensures
        command_outcome(command, playing, player, config, data, now, ui, client).ui == ui,
{
}

/// Opening the library page or the search page asks for a list of the user's library if and only if
/// it is stale, for each list once at most, and both pages ask for the same lists.
pub proof fn law_refresh_fetches_what_is_stale(data: UserData, now: u64, ttl: u64)
    ensures
        forall|request: RequestView| #[trigger]
            library_refresh(data, now, ttl).contains(request) <==> search_refresh(
                data,
                now,
                ttl,
            ).contains(request),
        library_refresh(data, now, ttl).contains(RequestView::Plain(ClientRequest::GetUserPlaylists))
            <==> is_stale(data.playlists_last_sync, now, ttl),
        library_refresh(data, now, ttl).contains(
            RequestView::Plain(ClientRequest::GetUserSavedAlbums),
        ) <==> is_stale(data.saved_albums_last_sync, now, ttl),
        library_refresh(data, now, ttl).contains(
            RequestView::Plain(ClientRequest::GetUserFollowedArtists),
        ) <==> is_stale(data.followed_artists_last_sync, now, ttl),
        library_refresh(data, now, ttl).contains(
            RequestView::Plain(ClientRequest::GetUserSavedShows),
        ) <==> is_stale(data.saved_shows_last_sync, now, ttl),
        library_refresh(data, now, ttl).no_duplicates(),
        search_refresh(data, now, ttl).no_duplicates(),
{
    lemma_library_refresh(data, now, ttl);
    lemma_search_refresh(data, now, ttl);
}

/// Whether a request asks for a list that is stale.
spec fn asks_for_stale(request: RequestView, data: UserData, now: u64, ttl: u64) -> bool {
    ||| request == RequestView::Plain(ClientRequest::GetUserPlaylists) && is_stale(
        data.playlists_last_sync,
        now,
        ttl,
    )
    ||| request == RequestView::Plain(ClientRequest::GetUserSavedAlbums) && is_stale(
        data.saved_albums_last_sync,
        now,
        ttl,
    )
    ||| request == RequestView::Plain(ClientRequest::GetUserFollowedArtists) && is_stale(
        data.followed_artists_last_sync,
        now,
        ttl,
    )
    ||| request == RequestView::Plain(ClientRequest::GetUserSavedShows) && is_stale(
        data.saved_shows_last_sync,
        now,
        ttl,
    )
}

/// What four optional requests in a row hold.
proof fn lemma_four(
    a: Seq<RequestView>,
    b: Seq<RequestView>,
    c: Seq<RequestView>,
    d: Seq<RequestView>,
)
    requires
        a.len() <= 1,
        b.len() <= 1,
        c.len() <= 1,
        d.len() <= 1,
    ensures
        forall|r: RequestView| #[trigger]
            (a + b + c + d).contains(r) <==> (a.contains(r) || b.contains(r) || c.contains(r)
                || d.contains(r)),
{
    let all = a + b + c + d;
    assert forall|r: RequestView| #[trigger] all.contains(r) <==> (a.contains(r) || b.contains(r)
        || c.contains(r) || d.contains(r)) by {
        if a.contains(r) {
            assert(all[0] == r);
        }
        if b.contains(r) {
            assert(all[a.len() as int] == r);
        }
        if c.contains(r) {
            assert(all[(a.len() + b.len()) as int] == r);
        }
        if d.contains(r) {
            assert(all[(a.len() + b.len() + c.len()) as int] == r);
        }
    }
}

/// What one optional request holds.
proof fn lemma_if_wanted(wanted: bool, request: ClientRequest)
    ensures
        if_wanted(wanted, request).len() <= 1,
        forall|r: RequestView| #[trigger]
            if_wanted(wanted, request).contains(r) <==> wanted && r == RequestView::Plain(request),
{
    if wanted {
        assert(if_wanted(wanted, request)[0] == RequestView::Plain(request));
    }
}

proof fn lemma_library_refresh(data: UserData, now: u64, ttl: u64)
    ensures
        forall|r: RequestView| #[trigger]
            library_refresh(data, now, ttl).contains(r) <==> asks_for_stale(r, data, now, ttl),
        library_refresh(data, now, ttl).no_duplicates(),
{
    let (p, a, f, s) = (
        is_stale(data.playlists_last_sync, now, ttl),
        is_stale(data.saved_albums_last_sync, now, ttl),
        is_stale(data.followed_artists_last_sync, now, ttl),
        is_stale(data.saved_shows_last_sync, now, ttl),
    );
    lemma_if_wanted(p, ClientRequest::GetUserPlaylists);
    lemma_if_wanted(a, ClientRequest::GetUserSavedAlbums);
    lemma_if_wanted(f, ClientRequest::GetUserFollowedArtists);
    lemma_if_wanted(s, ClientRequest::GetUserSavedShows);
    lemma_four(
        if_wanted(p, ClientRequest::GetUserPlaylists),
        if_wanted(a, ClientRequest::GetUserSavedAlbums),
        if_wanted(f, ClientRequest::GetUserFollowedArtists),
        if_wanted(s, ClientRequest::GetUserSavedShows),
    );
}

proof fn lemma_search_refresh(data: UserData, now: u64, ttl: u64)
    ensures
        forall|r: RequestView| #[trigger]
            search_refresh(data, now, ttl).contains(r) <==> asks_for_stale(r, data, now, ttl),
        search_refresh(data, now, ttl).no_duplicates(),
{
    let (p, a, f, s) = (
        is_stale(data.playlists_last_sync, now, ttl),
        is_stale(data.saved_albums_last_sync, now, ttl),
        is_stale(data.followed_artists_last_sync, now, ttl),
        is_stale(data.saved_shows_last_sync, now, ttl),
    );
    lemma_if_wanted(p, ClientRequest::GetUserPlaylists);
    lemma_if_wanted(a, ClientRequest::GetUserSavedAlbums);
    lemma_if_wanted(s, ClientRequest::GetUserSavedShows);
    lemma_if_wanted(f, ClientRequest::GetUserFollowedArtists);
    lemma_four(
        if_wanted(p, ClientRequest::GetUserPlaylists),
        if_wanted(a, ClientRequest::GetUserSavedAlbums),
        if_wanted(s, ClientRequest::GetUserSavedShows),
        if_wanted(f, ClientRequest::GetUserFollowedArtists),
    );
}

/// The command to go back undoes the opening of a page; the only page stays open.
pub proof fn law_previous_page_undoes_opening(
    playing: Option<PlayingItem>,
    config: CommandConfig,
    data: AppData,
    now: u64,
    ui: UIView,
    page: PageView,
    client: OutboxView,
)
    requires
        ui.has_page(),
    ensures
        interface_outcome(
            Command::PreviousPage,
            playing,
            config,
            data,
            now,
            ui.opening(page),
            client,
        ).ui == ui.with_popup(None),
        ui.history.len() == 1 ==> interface_outcome(
            Command::PreviousPage,
            playing,
            config,
            data,
            now,
            ui,
            client,
        ).ui == ui,
{
    assert(ui.opening(page).going_back().history =~= ui.history);
}

/// Focusing the next window and then the previous one leaves the interface as it was, and so does
/// the other order.
pub proof fn law_focus_next_then_previous(
    playing: Option<PlayingItem>,
    config: CommandConfig,
    data: AppData,
    now: u64,
    ui: UIView,
    client: OutboxView,
)
    requires
        ui.has_page(),
    ensures
        ({
            let next = interface_outcome(
                Command::FocusNextWindow,
                playing,
                config,
                data,
                now,
                ui,
                client,
            ).ui;
            interface_outcome(
                Command::FocusPreviousWindow,
                playing,
                config,
                data,
                now,
                next,
                client,
            ).ui == ui
        }),
        ({
            let previous = interface_outcome(
                Command::FocusPreviousWindow,
                playing,
                config,
                data,
                now,
                ui,
                client,
            ).ui;
            interface_outcome(
                Command::FocusNextWindow,
                playing,
                config,
                data,
                now,
                previous,
                client,
            ).ui == ui
        }),
{
    crate::page::law_focus_cycles(ui.page());
    let last = ui.history.len() - 1;
    assert(ui.history.update(last, ui.page().after()).update(last, ui.page()) =~= ui.history);
    assert(ui.history.update(last, ui.page().before()).update(last, ui.page()) =~= ui.history);
}

/// Whatever command is given, pages are opened or closed one at a time, and those behind the current
/// one stay as they are.
pub proof fn law_commands_keep_pages(
    command: Command,
    playing: Option<PlayingItem>,
    player: PlayerState,
    config: CommandConfig,
    data: AppData,
    now: u64,
    ui: UIView,
    client: OutboxView,
)
    requires
        ui.has_page(),
    ensures
        ({
            let o = command_outcome(command, playing, player, config, data, now, ui, client);
            &&& o.ui.has_page()
            &&& ui.history.len() - 1 <= o.ui.history.len() <= ui.history.len() + 1
            &&& ui.history.drop_last().is_prefix_of(o.ui.history)
        }),
{
    let o = command_outcome(command, playing, player, config, data, now, ui, client);
    let behind = ui.history.drop_last();
    assert(behind =~= o.ui.history.subrange(0, behind.len() as int));
}

} // verus!
