//! Commands.

use spotify_player::cache::ExpiringCache;
use spotify_player::client::ClientRequest;
use spotify_player::client::Outbox;
use spotify_player::client::PlayerRequest;
use spotify_player::command::Action;
use spotify_player::command::ActionSubject;
use spotify_player::command::ActionTarget;
use spotify_player::command::Command;
use spotify_player::command::CommandOrAction;
use spotify_player::error::HandlerError;
use spotify_player::event::global::handle_global_command;
use spotify_player::event::global::is_possible;
use spotify_player::event::global::needs_refresh;
use spotify_player::event::global::CommandConfig;
use spotify_player::event::keys::run_global_binding;
use spotify_player::event::mouse::WindowOutcome;
use spotify_player::event::step::Step;
use spotify_player::ids::AlbumId;
use spotify_player::ids::ContextId;
use spotify_player::ids::EpisodeId;
use spotify_player::ids::TrackId;
use spotify_player::ids::TracksId;
use spotify_player::key::Key;
use spotify_player::key::KeyBinding;
use spotify_player::key::KeyCode;
use spotify_player::key::KeySequence;
use spotify_player::key::KeymapConfig;
use spotify_player::layout::ListState;
use spotify_player::layout::Orientation;
use spotify_player::model::AppData;
use spotify_player::model::Context;
use spotify_player::model::Episode;
use spotify_player::model::Track;
use spotify_player::model::UserData;
use spotify_player::page::BrowsePageUIState;
use spotify_player::page::ContextPageType;
use spotify_player::page::ContextPageUIState;
use spotify_player::page::LibraryFocusState;
use spotify_player::page::PageState;
use spotify_player::page::SearchFocusState;
use spotify_player::player::BufferedPlayback;
use spotify_player::player::PlayerState;
use spotify_player::player::PlayingEpisode;
use spotify_player::player::PlayingItem;
use spotify_player::player::PlayingTrack;
use spotify_player::popup::PlaylistCreateCurrentField;
use spotify_player::popup::PlaylistPopupAction;
use spotify_player::popup::PopupState;
use spotify_player::popup::Theme;
use spotify_player::span::Span;
use spotify_player::ui::UIState;

const HOUR: u64 = 3_600_000_000_000;

fn theme(name: &str, index: usize) -> Theme {
    Theme { name: name.to_string(), index }
}

fn fresh() -> UIState {
    UIState::new(theme("dark", 0), Orientation::Horizontal)
}

fn config() -> CommandConfig {
    CommandConfig {
        seek_duration_secs: 5,
        themes: vec![theme("light", 0), theme("dark", 1), theme("blue", 2)],
        library_refresh_ttl: HOUR,
        top_tracks_id: TracksId::new("tracks:top".to_string(), "Top Tracks"),
        recently_played_tracks_id: TracksId::new("tracks:recent".to_string(), "Recent Tracks"),
        liked_tracks_id: TracksId::new("tracks:liked".to_string(), "Liked Tracks"),
    }
}

fn data() -> AppData {
    AppData {
        user_data: UserData {
            playlists: Vec::new(),
            saved_albums: Vec::new(),
            followed_artists: Vec::new(),
            saved_shows: Vec::new(),
            saved_tracks: Vec::new(),
            playlists_last_sync: None,
            saved_albums_last_sync: None,
            followed_artists_last_sync: None,
            saved_shows_last_sync: None,
        },
        search: ExpiringCache::new(),
        contexts: ExpiringCache::new(),
    }
}

fn track(id: &str) -> Track {
    Track {
        id: TrackId::from_id(id).unwrap(),
        name: format!("track {id}"),
        artists: Vec::new(),
        album: None,
    }
}

fn playing(id: Option<&str>) -> Option<PlayingItem> {
    Some(PlayingItem::Track(PlayingTrack {
        id: id.map(|id| TrackId::from_id(id).unwrap()),
        name: "Song".to_string(),
        artist_names: vec!["Ann".to_string(), "Bob".to_string()],
        duration: Span::from_secs(200).unwrap(),
        track: id.map(track),
    }))
}

fn talk(id: &str) -> Option<PlayingItem> {
    Some(PlayingItem::Episode(PlayingEpisode {
        episode: Episode {
            id: EpisodeId::from_id(id).unwrap(),
            name: "Talk".to_string(),
            show: None,
        },
        duration: Span::from_secs(2_000).unwrap(),
    }))
}

fn player(volume: Option<u32>, progress_ms: Option<i64>) -> PlayerState {
    PlayerState {
        buffered_playback: Some(BufferedPlayback { volume, fake_track_repeat_state: false }),
        progress: progress_ms.map(|ms| Span::from_millis(ms).unwrap()),
    }
}

fn idle() -> PlayerState {
    PlayerState { buffered_playback: None, progress: None }
}

struct Run {
    applied: bool,
    sent: String,
}

fn run_at(
    command: Command,
    playing: Option<PlayingItem>,
    mut player: PlayerState,
    data: &AppData,
    now: u64,
    ui: &mut UIState,
) -> Run {
    let mut client = Outbox::new(usize::MAX);
    match handle_global_command(
        command,
        playing,
        &mut player,
        &config(),
        data,
        now,
        &mut client,
        ui,
    ) {
        Ok(Step::Handled(applied)) => Run { applied, sent: format!("{:?}", client.sent) },
        other => panic!("{other:?}"),
    }
}

fn run(command: Command, ui: &mut UIState) -> String {
    let run = run_at(command, None, idle(), &data(), 0, ui);
    assert!(run.applied);
    run.sent
}

fn one(request: ClientRequest) -> String {
    format!("{:?}", vec![request])
}

fn with_player(command: Command, player: PlayerState) -> String {
    let run = run_at(command, None, player, &data(), 0, &mut fresh());
    assert!(run.applied);
    run.sent
}

fn seek(ms: i64) -> String {
    one(ClientRequest::Player(PlayerRequest::SeekTrack(Span::from_millis(ms).unwrap())))
}

fn browsed(ui: &UIState) -> String {
    match ui.current_page() {
        PageState::Context {
            id: None,
            context_page_type: ContextPageType::Browsing(id),
            state: None,
        } => id.uri(),
        other => panic!("{other:?}"),
    }
}

#[test]
fn plain_playback_commands() {
    for (command, request) in [
        (Command::NextTrack, PlayerRequest::NextTrack),
        (Command::PreviousTrack, PlayerRequest::PreviousTrack),
        (Command::ResumePause, PlayerRequest::ResumePause),
        (Command::Repeat, PlayerRequest::Repeat),
        (Command::Shuffle, PlayerRequest::Shuffle),
        (Command::Mute, PlayerRequest::ToggleMute),
    ] {
        assert_eq!(run(command, &mut fresh()), one(ClientRequest::Player(request)));
    }
    assert_eq!(run(Command::RefreshPlayback, &mut fresh()), one(ClientRequest::GetCurrentPlayback));
    assert_eq!(
        run(Command::RestartIntegratedClient, &mut fresh()),
        one(ClientRequest::RestartIntegratedClient)
    );
}

#[test]
fn volume_changes_up_to_hundred() {
    for (volume, offset, set) in
        [(50, 5, 55), (50, -5, 45), (98, 5, 100), (100, 0, 100), (3, -3, 0), (3, -5, 254)]
    {
        assert_eq!(
            with_player(Command::VolumeChange { offset }, player(Some(volume), None)),
            one(ClientRequest::Player(PlayerRequest::Volume(set)))
        );
    }
    assert_eq!(with_player(Command::VolumeChange { offset: 5 }, player(None, None)), "[]");
    assert_eq!(with_player(Command::VolumeChange { offset: 5 }, idle()), "[]");
}

#[test]
fn seek_forward_and_backward() {
    let forward = |duration| Command::SeekForward { duration };
    let backward = |duration| Command::SeekBackward { duration };
    let at = |ms| player(None, Some(ms));
    assert_eq!(with_player(forward(None), at(1_500)), seek(6_500));
    assert_eq!(with_player(forward(Some(60)), at(1_500)), seek(61_500));
    assert_eq!(with_player(backward(None), at(6_500)), seek(1_500));
    assert_eq!(with_player(backward(Some(60)), at(61_500)), seek(1_500));
    assert_eq!(with_player(backward(None), at(1_500)), seek(0));
    assert_eq!(with_player(forward(None), idle()), "[]");
    assert_eq!(with_player(backward(None), idle()), "[]");
}

#[test]
fn fake_repeat_mode_is_toggled() {
    let mut state = player(Some(1), None);
    for expected in [true, false] {
        let mut client = Outbox::new(0);
        let step = handle_global_command(
            Command::ToggleFakeTrackRepeatMode,
            None,
            &mut state,
            &config(),
            &data(),
            0,
            &mut client,
            &mut fresh(),
        );
        assert!(matches!(step, Ok(Step::Handled(true))));
        assert_eq!(
            state.buffered_playback,
            Some(BufferedPlayback { volume: Some(1), fake_track_repeat_state: expected })
        );
    }
}

#[test]
fn quit_stops_running() {
    let mut ui = fresh();
    assert_eq!(run(Command::Quit, &mut ui), "[]");
    assert!(!ui.is_running);
}

#[test]
fn pages_open_with_their_requests() {
    let mut ui = fresh();
    ui.popup = Some(PopupState::DeviceList(ListState::default()));
    assert_eq!(run(Command::TopTrackPage, &mut ui), one(ClientRequest::GetUserTopTracks));
    assert_eq!(browsed(&ui), "tracks:top");
    assert!(ui.popup.is_none());
    assert_eq!(
        run(Command::RecentlyPlayedTrackPage, &mut ui),
        one(ClientRequest::GetUserRecentlyPlayedTracks)
    );
    assert_eq!(browsed(&ui), "tracks:recent");
    assert_eq!(run(Command::LikedTrackPage, &mut ui), one(ClientRequest::GetUserSavedTracks));
    assert_eq!(browsed(&ui), "tracks:liked");
    assert_eq!(run(Command::BrowsePage, &mut ui), one(ClientRequest::GetBrowseCategories));
    assert!(matches!(
        ui.current_page(),
        PageState::Browse { state: BrowsePageUIState::CategoryList { .. } }
    ));
    assert_eq!(run(Command::Queue, &mut ui), one(ClientRequest::GetCurrentUserQueue));
    assert!(matches!(ui.current_page(), PageState::Queue { scroll_offset: 0 }));
    assert_eq!(run(Command::OpenCommandHelp, &mut ui), "[]");
    assert!(matches!(ui.current_page(), PageState::CommandHelp { scroll_offset: 0 }));
    assert_eq!(run(Command::CurrentlyPlayingContextPage, &mut ui), "[]");
    assert!(matches!(
        ui.current_page(),
        PageState::Context { context_page_type: ContextPageType::CurrentPlaying, .. }
    ));
    assert_eq!(ui.history.len(), 8);
}

#[test]
fn previous_page_undoes_opening() {
    let mut ui = fresh();
    run(Command::Queue, &mut ui);
    ui.popup = Some(PopupState::DeviceList(ListState::default()));
    run(Command::PreviousPage, &mut ui);
    assert_eq!(ui.history.len(), 1);
    assert!(ui.popup.is_none());
    ui.popup = Some(PopupState::DeviceList(ListState::default()));
    run(Command::PreviousPage, &mut ui);
    assert_eq!(ui.history.len(), 1);
    assert!(ui.popup.is_some());
}

#[test]
fn popups_open_with_their_requests() {
    let mut ui = fresh();
    assert_eq!(run(Command::BrowseUserPlaylists, &mut ui), one(ClientRequest::GetUserPlaylists));
    assert!(matches!(
        &ui.popup,
        Some(PopupState::UserPlaylistList(PlaylistPopupAction::Browse { folder_id: 0, .. }, _))
    ));
    assert_eq!(
        run(Command::BrowseUserFollowedArtists, &mut ui),
        one(ClientRequest::GetUserFollowedArtists)
    );
    assert!(matches!(&ui.popup, Some(PopupState::UserFollowedArtistList(_))));
    assert_eq!(run(Command::BrowseUserSavedAlbums, &mut ui), one(ClientRequest::GetUserSavedAlbums));
    assert!(matches!(&ui.popup, Some(PopupState::UserSavedAlbumList(_))));
    assert_eq!(run(Command::SwitchDevice, &mut ui), one(ClientRequest::GetDevices));
    assert!(matches!(&ui.popup, Some(PopupState::DeviceList(_))));
    assert_eq!(run(Command::CreatePlaylist, &mut ui), "[]");
    assert!(matches!(
        &ui.popup,
        Some(PopupState::PlaylistCreate { current_field: PlaylistCreateCurrentField::Name, .. })
    ));
    run(Command::ClosePopup, &mut ui);
    assert!(ui.popup.is_none());
}

#[test]
fn current_theme_comes_first() {
    let mut ui = fresh();
    run(Command::SwitchTheme, &mut ui);
    match &ui.popup {
        Some(PopupState::ThemeList(themes, list)) => {
            let order: Vec<usize> = themes.iter().map(|t| t.index).collect();
            assert_eq!(order, vec![1, 0, 2]);
            assert_eq!(*list, ListState::default());
        }
        other => panic!("{other:?}"),
    }
    ui.theme = theme("none", 9);
    run(Command::SwitchTheme, &mut ui);
    assert!(matches!(&ui.popup, Some(PopupState::ThemeList(themes, _)) if themes[0].index == 0));
}

#[test]
fn lists_are_stale_at_their_age() {
    assert!(needs_refresh(None, 0, HOUR));
    assert!(needs_refresh(Some(5), HOUR + 5, HOUR));
    assert!(!needs_refresh(Some(5), HOUR + 4, HOUR));
    assert!(!needs_refresh(Some(5), 0, HOUR));
    assert!(needs_refresh(Some(5), 0, 0));
}

#[test]
fn stale_lists_are_fetched() {
    let mut data = data();
    data.user_data.saved_albums_last_sync = Some(10);
    let mut ui = fresh();
    let library = run_at(Command::LibraryPage, None, idle(), &data, HOUR, &mut ui);
    assert_eq!(
        library.sent,
        format!(
            "{:?}",
            vec![
                ClientRequest::GetUserPlaylists,
                ClientRequest::GetUserFollowedArtists,
                ClientRequest::GetUserSavedShows
            ]
        )
    );
    assert!(matches!(ui.current_page(), PageState::Library { .. }));
    let search = run_at(Command::SearchPage, None, idle(), &data, HOUR + 10, &mut ui);
    assert_eq!(
        search.sent,
        format!(
            "{:?}",
            vec![
                ClientRequest::GetUserPlaylists,
                ClientRequest::GetUserSavedAlbums,
                ClientRequest::GetUserSavedShows,
                ClientRequest::GetUserFollowedArtists
            ]
        )
    );
    match ui.current_page() {
        PageState::Search { current_query, state, .. } => {
            assert_eq!(current_query, "");
            assert_eq!(state.focus, SearchFocusState::Input);
        }
        other => panic!("{other:?}"),
    }
}

#[test]
fn fresh_lists_are_not_fetched() {
    let mut data = data();
    data.user_data.playlists_last_sync = Some(1);
    data.user_data.saved_albums_last_sync = Some(1);
    data.user_data.followed_artists_last_sync = Some(1);
    data.user_data.saved_shows_last_sync = Some(1);
    let mut player = idle();
    let mut client = Outbox::new(0);
    let mut ui = fresh();
    let step = handle_global_command(
        Command::LibraryPage,
        None,
        &mut player,
        &config(),
        &data,
        HOUR,
        &mut client,
        &mut ui,
    );
    assert!(matches!(step, Ok(Step::Handled(true))));
    assert_eq!(ui.history.len(), 2);
}

#[test]
fn lyrics_of_playing_track() {
    let mut ui = fresh();
    let lyrics = run_at(Command::LyricsPage, playing(Some("t1")), idle(), &data(), 0, &mut ui);
    assert_eq!(
        lyrics.sent,
        one(ClientRequest::GetLyrics { track_id: TrackId::from_id("t1").unwrap() })
    );
    match ui.current_page() {
        PageState::Lyrics { track_uri, track, artists } => {
            assert_eq!(track_uri, "spotify:track:t1");
            assert_eq!(track, "Song");
            assert_eq!(artists, "Ann, Bob");
        }
        other => panic!("{other:?}"),
    }
    for item in [playing(None), talk("e1"), Some(PlayingItem::Unknown), None] {
        let mut ui = fresh();
        let none = run_at(Command::LyricsPage, item, idle(), &data(), 0, &mut ui);
        assert!(none.applied);
        assert_eq!(none.sent, "[]");
        assert_eq!(ui.history.len(), 1);
    }
}

#[test]
fn actions_on_current_track_are_asked_for() {
    let step = |item| {
        handle_global_command(
            Command::ShowActionsOnCurrentTrack,
            item,
            &mut idle(),
            &config(),
            &data(),
            0,
            &mut Outbox::new(usize::MAX),
            &mut fresh(),
        )
    };
    assert!(matches!(
        step(playing(Some("t1"))),
        Ok(Step::ShowActions(ActionSubject::Track(track))) if track.id.id() == "t1"
    ));
    assert!(matches!(
        step(talk("e1")),
        Ok(Step::ShowActions(ActionSubject::Episode(episode))) if episode.id.id() == "e1"
    ));
    for item in [playing(None), Some(PlayingItem::Unknown), None] {
        assert!(matches!(step(item), Ok(Step::Handled(true))));
    }
}

#[test]
fn clipboard_is_asked_for() {
    let step = handle_global_command(
        Command::OpenSpotifyLinkFromClipboard,
        None,
        &mut idle(),
        &config(),
        &data(),
        0,
        &mut Outbox::new(usize::MAX),
        &mut fresh(),
    );
    assert!(matches!(step, Ok(Step::ReadClipboard)));
}

#[test]
fn focus_moves_unless_popup_has_it() {
    let focus = |ui: &UIState| match ui.current_page() {
        PageState::Library { state } => state.focus,
        other => panic!("{other:?}"),
    };
    let mut ui = fresh();
    run(Command::FocusNextWindow, &mut ui);
    assert_eq!(focus(&ui), LibraryFocusState::SavedAlbums);
    ui.popup = Some(PopupState::Search { query: String::new() });
    run(Command::FocusPreviousWindow, &mut ui);
    assert_eq!(focus(&ui), LibraryFocusState::Playlists);
    ui.popup = Some(PopupState::DeviceList(ListState::default()));
    run(Command::FocusNextWindow, &mut ui);
    run(Command::FocusPreviousWindow, &mut ui);
    run(Command::FocusPreviousWindow, &mut ui);
    assert_eq!(focus(&ui), LibraryFocusState::Playlists);
}

fn album_page() -> UIState {
    let mut ui = fresh();
    ui.new_page(PageState::Context {
        id: Some(ContextId::Album(AlbumId::from_id("a1").unwrap())),
        context_page_type: ContextPageType::CurrentPlaying,
        state: Some(ContextPageUIState::Album { track_table: ListState::default() }),
    });
    ui
}

#[test]
fn jump_selects_playing_track() {
    let mut data = data();
    data.contexts.insert(
        "spotify:album:a1".to_string(),
        Context::Album { tracks: vec![track("t1"), track("t2"), track("t2")] },
        100,
        0,
    );
    let jump = |item, now, ui: &mut UIState| {
        run_at(Command::JumpToCurrentTrackInContext, item, idle(), &data, now, ui).applied
    };
    let mut ui = album_page();
    assert!(jump(playing(Some("t2")), 100, &mut ui));
    assert_eq!(ui.current_page().selected(), Some(1));
    let mut ui = album_page();
    assert!(jump(playing(Some("t2")), 101, &mut ui));
    assert!(jump(playing(Some("t9")), 0, &mut ui));
    assert!(jump(talk("t2"), 0, &mut ui));
    assert_eq!(ui.current_page().selected(), album_page().current_page().selected());
    assert!(!jump(None, 0, &mut ui));
    assert!(!jump(Some(PlayingItem::Unknown), 0, &mut ui));
    assert!(jump(playing(Some("t2")), 0, &mut fresh()));
}

#[test]
fn other_commands_are_left_to_pages() {
    for command in [Command::ChooseSelected, Command::Search, Command::SelectNextOrScrollDown] {
        let left = run_at(command, None, idle(), &data(), 0, &mut fresh());
        assert!(!left.applied);
        assert_eq!(left.sent, "[]");
    }
}

#[test]
fn commands_fail_when_client_is_gone() {
    for (command, opened) in [
        (Command::NextTrack, false),
        (Command::Queue, true),
        (Command::LibraryPage, true),
        (Command::BrowseUserPlaylists, false),
    ] {
        let mut client = Outbox::new(0);
        let mut ui = fresh();
        let step = handle_global_command(
            command,
            None,
            &mut idle(),
            &config(),
            &data(),
            0,
            &mut client,
            &mut ui,
        );
        assert!(matches!(step, Err(HandlerError::ClientClosed)));
        assert!(client.sent.is_empty());
        assert_eq!(ui.history.len(), if opened { 2 } else { 1 });
        assert!(ui.popup.is_none());
    }
}

fn keys(c: char) -> KeySequence {
    KeySequence { keys: vec![Key::Plain(KeyCode::Char(c))] }
}

fn bound(c: char, outcome: WindowOutcome, ui: &mut UIState) -> Result<Step, HandlerError> {
    let keymap = KeymapConfig {
        bindings: vec![
            KeyBinding { keys: keys('q'), target: CommandOrAction::Command(Command::Quit) },
            KeyBinding {
                keys: keys('a'),
                target: CommandOrAction::Action(Action::CopyLink, ActionTarget::PlayingTrack),
            },
        ],
    };
    run_global_binding(
        &keys(c),
        &keymap,
        outcome,
        playing(Some("t1")),
        &mut idle(),
        &config(),
        &data(),
        0,
        &mut Outbox::new(usize::MAX),
        ui,
    )
}

#[test]
fn keys_go_to_what_they_are_bound_to() {
    let mut ui = fresh();
    assert!(matches!(bound('q', WindowOutcome::Handled, &mut ui), Ok(Step::Handled(true))));
    assert!(ui.is_running);
    let failed = WindowOutcome::Failed("no such row".to_string());
    assert_eq!(bound('q', failed, &mut ui).unwrap_err().message(), "no such row");
    assert!(ui.is_running);
    assert!(matches!(bound('x', WindowOutcome::NotHandled, &mut ui), Ok(Step::Handled(false))));
    assert!(matches!(
        bound('a', WindowOutcome::NotHandled, &mut ui),
        Ok(Step::CopyLink(link)) if link == "https://open.spotify.com/track/t1"
    ));
    assert!(matches!(bound('q', WindowOutcome::NotHandled, &mut ui), Ok(Step::Handled(true))));
    assert!(!ui.is_running);
}

#[test]
fn commands_that_leave_the_range_are_told_apart() {
    let possible = |command, item, player| is_possible(command, &item, &player, &config());
    let up = Command::VolumeChange { offset: i32::MAX };
    assert!(possible(up, None, player(Some(0), None)));
    assert!(!possible(up, None, player(Some(1), None)));
    assert!(possible(up, None, idle()));
    let forward = Command::SeekForward { duration: Some(1) };
    let backward = Command::SeekBackward { duration: Some(1) };
    assert!(possible(forward, None, player(None, Some(i64::MAX - 1_000))));
    assert!(!possible(forward, None, player(None, Some(i64::MAX))));
    assert!(possible(backward, None, player(None, Some(i64::MAX))));
    assert!(!possible(backward, None, player(None, Some(-i64::MAX))));
    let jump = Command::JumpToCurrentTrackInContext;
    assert!(!possible(jump, playing(None), idle()));
    assert!(possible(jump, playing(Some("t1")), idle()));
    assert!(possible(jump, None, idle()));
}

#[test]
fn lists_are_fetched_until_client_stops() {
    let mut client = Outbox::new(2);
    let mut ui = fresh();
    let step = handle_global_command(
        Command::LibraryPage,
        None,
        &mut idle(),
        &config(),
        &data(),
        0,
        &mut client,
        &mut ui,
    );
    assert!(matches!(step, Err(HandlerError::ClientClosed)));
    assert_eq!(
        format!("{:?}", client.sent),
        format!(
            "{:?}",
            vec![ClientRequest::GetUserPlaylists, ClientRequest::GetUserSavedAlbums]
        )
    );
    assert_eq!(ui.history.len(), 2);
}
