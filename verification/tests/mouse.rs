//! Mouse events.

use spotify_player::cache::ExpiringCache;
use spotify_player::client::ClientRequest;
use spotify_player::client::Outbox;
use spotify_player::client::PlayerRequest;
use spotify_player::command::Command;
use spotify_player::error::HandlerError;
use spotify_player::event::filter::count_matches;
use spotify_player::event::filter::Filters;
use spotify_player::event::mouse::double_clicked;
use spotify_player::event::mouse::handle_mouse_event;
use spotify_player::event::mouse::is_seekable;
use spotify_player::event::mouse::resume_mouse_event;
use spotify_player::event::mouse::AfterWindow;
use spotify_player::event::mouse::ContextTrackSource;
use spotify_player::event::mouse::MouseEvent;
use spotify_player::event::mouse::MouseEventKind;
use spotify_player::event::mouse::MouseStep;
use spotify_player::event::mouse::QueryMatches;
use spotify_player::event::mouse::Window;
use spotify_player::event::mouse::WindowOutcome;
use spotify_player::ids::ContextId;
use spotify_player::ids::AlbumId;
use spotify_player::ids::ArtistId;
use spotify_player::ids::EpisodeId;
use spotify_player::ids::PlaylistId;
use spotify_player::ids::TrackId;
use spotify_player::layout::ListState;
use spotify_player::layout::Orientation;
use spotify_player::layout::Rect;
use spotify_player::model::Album;
use spotify_player::model::AppData;
use spotify_player::model::Artist;
use spotify_player::model::Context;
use spotify_player::model::Episode;
use spotify_player::model::PaginationInfo;
use spotify_player::model::Playlist;
use spotify_player::model::PlaylistFolderItem;
use spotify_player::model::SearchEntry;
use spotify_player::model::SearchPagination;
use spotify_player::model::SearchResultCategory;
use spotify_player::model::SearchResults;
use spotify_player::model::Show;
use spotify_player::model::Track;
use spotify_player::model::UserData;
use spotify_player::page::ArtistFocusState;
use spotify_player::page::ContextPageType;
use spotify_player::page::ContextPageUIState;
use spotify_player::page::LibraryFocusState;
use spotify_player::page::LineInput;
use spotify_player::page::PageState;
use spotify_player::page::SearchFocusState;
use spotify_player::page::SearchPageUIState;
use spotify_player::player::PlayingEpisode;
use spotify_player::player::PlayingItem;
use spotify_player::player::PlayingTrack;
use spotify_player::popup::PopupState;
use spotify_player::popup::Theme;
use spotify_player::span::Span;
use spotify_player::ui::LibraryLayout;
use spotify_player::ui::PendingClientRequest;
use spotify_player::ui::SearchLayout;
use spotify_player::ui::UIState;

const SECOND: u64 = 1_000_000_000;

fn fresh() -> UIState {
    let mut ui =
        UIState::new(Theme { name: "default".to_string(), index: 0 }, Orientation::Horizontal);
    ui.playback_progress_bar_rect = Rect { x: 0, y: 50, width: 100, height: 1 };
    ui
}

fn column_of(n: u16) -> Rect {
    Rect { x: 10 * n, y: 5, width: 10, height: 10 }
}

fn search_layout() -> SearchLayout {
    SearchLayout {
        valid: true,
        input: Rect { x: 0, y: 0, width: 60, height: 3 },
        tracks: column_of(0),
        albums: column_of(1),
        artists: column_of(2),
        playlists: column_of(3),
        shows: column_of(4),
        episodes: column_of(5),
    }
}

fn library_layout() -> LibraryLayout {
    LibraryLayout {
        valid: true,
        playlists: column_of(0),
        albums: column_of(1),
        artists: column_of(2),
    }
}

fn search_ui() -> UIState {
    let mut ui = fresh();
    ui.search_layout = search_layout();
    ui.new_page(PageState::Search {
        line_input: LineInput::default(),
        current_query: "jazz".to_string(),
        state: SearchPageUIState::new(),
    });
    ui
}

fn context_ui(id: ContextId, state: ContextPageUIState) -> UIState {
    let mut ui = fresh();
    ui.context_track_table_rect = Some(Rect { x: 0, y: 5, width: 40, height: 20 });
    ui.new_page(PageState::Context {
        id: Some(id),
        context_page_type: ContextPageType::CurrentPlaying,
        state: Some(state),
    });
    ui
}

fn track(n: usize) -> Track {
    Track {
        id: TrackId::from_id(&format!("t{n}")).unwrap(),
        name: format!("track {n}"),
        artists: Vec::new(),
        album: None,
    }
}

fn tracks(n: usize) -> Vec<Track> {
    (0..n).map(track).collect()
}

fn user_data() -> UserData {
    UserData {
        playlists: Vec::new(),
        saved_albums: Vec::new(),
        followed_artists: Vec::new(),
        saved_shows: Vec::new(),
        saved_tracks: Vec::new(),
        playlists_last_sync: None,
        saved_albums_last_sync: None,
        followed_artists_last_sync: None,
        saved_shows_last_sync: None,
    }
}

fn data() -> AppData {
    AppData { user_data: user_data(), search: ExpiringCache::new(), contexts: ExpiringCache::new() }
}

fn searched(n: usize) -> AppData {
    let mut data = data();
    let ready = PaginationInfo { is_exhausted: false, is_fetching: false };
    data.search.insert(
        "jazz".to_string(),
        SearchEntry {
            results: SearchResults {
                tracks: tracks(n),
                albums: Vec::new(),
                artists: Vec::new(),
                playlists: Vec::new(),
                shows: Vec::new(),
                episodes: Vec::new(),
            },
            pagination: SearchPagination {
                tracks: ready,
                albums: ready,
                artists: ready,
                playlists: ready,
                shows: ready,
                episodes: ready,
            },
        },
        1_000 * SECOND,
        0,
    );
    data
}

fn no_matches() -> QueryMatches {
    QueryMatches {
        tracks: 0,
        albums: 0,
        artists: 0,
        playlists: 0,
        shows: 0,
        episodes: 0,
        folder_items: 0,
        saved_albums: 0,
        followed_artists: 0,
        context_tracks: 0,
    }
}

fn failed() -> WindowOutcome {
    WindowOutcome::Failed("no such row".to_string())
}

fn click(column: u16, row: u16) -> MouseEvent {
    MouseEvent { kind: MouseEventKind::LeftDown, column, row }
}

fn scroll(down: bool, column: u16, row: u16) -> MouseEvent {
    let kind = if down { MouseEventKind::ScrollDown } else { MouseEventKind::ScrollUp };
    MouseEvent { kind, column, row }
}

fn handle(event: MouseEvent, now: u64, data: &AppData, ui: &mut UIState) -> MouseStep {
    let mut client = Outbox::new(usize::MAX);
    let step =
        handle_mouse_event(event, now, &None, data, &no_matches(), &mut client, ui).unwrap();
    assert!(client.sent.is_empty());
    step
}

fn search_state(ui: &UIState) -> SearchPageUIState {
    match ui.current_page() {
        PageState::Search { state, .. } => *state,
        other => panic!("{other:?}"),
    }
}

fn context_state(ui: &UIState) -> ContextPageUIState {
    match ui.current_page() {
        PageState::Context { state: Some(state), .. } => *state,
        other => panic!("{other:?}"),
    }
}

fn playing_track(ms: i64) -> Option<PlayingItem> {
    Some(PlayingItem::Track(PlayingTrack {
        id: None,
        name: "x".to_string(),
        artist_names: Vec::new(),
        duration: Span::from_millis(ms).unwrap(),
        track: None,
    }))
}

fn sought(playing: Option<PlayingItem>, column: u16) -> Vec<i64> {
    let mut client = Outbox::new(usize::MAX);
    let mut ui = fresh();
    let step = handle_mouse_event(
        click(column, 50),
        0,
        &playing,
        &data(),
        &no_matches(),
        &mut client,
        &mut ui,
    );
    assert!(matches!(step, Ok(MouseStep::Done)));
    assert_eq!(ui.last_mouse_click, Some((0, column, 50)));
    client
        .sent
        .iter()
        .map(|request| match request {
            ClientRequest::Player(PlayerRequest::SeekTrack(position)) => {
                position.num_milliseconds()
            }
            other => panic!("{other:?}"),
        })
        .collect()
}

#[test]
fn click_on_progress_bar_seeks() {
    assert_eq!(sought(playing_track(200_000), 0), vec![0]);
    assert_eq!(sought(playing_track(200_000), 25), vec![50_000]);
    assert_eq!(sought(playing_track(200_000), 100), vec![200_000]);
    assert_eq!(sought(playing_track(999), 33), vec![329]);
    assert_eq!(sought(playing_track(-999), 33), vec![-329]);
    let episode = Some(PlayingItem::Episode(PlayingEpisode {
        episode: Episode {
            id: EpisodeId::from_id("e").unwrap(),
            name: "e".to_string(),
            show: None,
        },
        duration: Span::from_secs(10).unwrap(),
    }));
    assert_eq!(sought(episode, 50), vec![5_000]);
    assert!(sought(Some(PlayingItem::Unknown), 50).is_empty());
    assert!(sought(None, 50).is_empty());
}

#[test]
fn click_off_the_bar_does_not_seek() {
    let mut client = Outbox::new(usize::MAX);
    let mut ui = fresh();
    let step = handle_mouse_event(
        click(3, 49),
        0,
        &playing_track(1_000),
        &data(),
        &no_matches(),
        &mut client,
        &mut ui,
    );
    assert!(matches!(step, Ok(MouseStep::Done)));
    assert!(client.sent.is_empty());
}

#[test]
fn click_on_bar_fails_without_client() {
    let mut client = Outbox::new(0);
    let mut ui = fresh();
    let step = handle_mouse_event(
        click(3, 50),
        7,
        &playing_track(1_000),
        &data(),
        &no_matches(),
        &mut client,
        &mut ui,
    );
    assert!(matches!(step, Err(HandlerError::ClientClosed)));
    assert_eq!(ui.last_mouse_click, None);
}

#[test]
fn double_click_is_quick_and_on_one_row() {
    let first = Some((SECOND, 4, 9));
    assert!(double_clicked(first, SECOND + 500_000_000, 9));
    assert!(!double_clicked(first, SECOND + 500_000_001, 9));
    assert!(!double_clicked(first, SECOND + 1, 8));
    assert!(double_clicked(first, 0, 9));
    assert!(!double_clicked(None, SECOND, 9));
}

#[test]
fn click_on_search_input_focuses_it() {
    let mut ui = search_ui();
    if let PageState::Search { state, .. } = ui.current_page_mut() {
        state.focus = SearchFocusState::Albums;
    }
    ui.count_prefix = Some(3);
    ui.last_mouse_click = Some((0, 1, 1));
    assert_eq!(handle(click(1, 1), 1, &searched(50), &mut ui), MouseStep::Done);
    assert_eq!(search_state(&ui).focus, SearchFocusState::Input);
    assert_eq!(ui.count_prefix, None);
    assert_eq!(ui.last_mouse_click, Some((1, 1, 1)));
}

#[test]
fn click_on_search_results_selects() {
    let mut ui = search_ui();
    ui.count_prefix = Some(3);
    assert_eq!(handle(click(4, 8), 0, &searched(50), &mut ui), MouseStep::Done);
    let state = search_state(&ui);
    assert_eq!(state.focus, SearchFocusState::Tracks);
    assert_eq!(state.track_list, ListState { offset: 0, selected: Some(3) });
    assert_eq!(ui.count_prefix, None);
    assert!(ui.pending_client_requests.is_empty());
}

#[test]
fn click_near_end_of_results_asks_for_more() {
    let mut ui = search_ui();
    handle(click(4, 8), 0, &searched(8), &mut ui);
    assert_eq!(ui.pending_client_requests.len(), 1);
    assert!(matches!(
        &ui.pending_client_requests[0],
        PendingClientRequest::SearchMore { query, category: SearchResultCategory::Tracks }
            if query == "jazz"
    ));
    handle(click(4, 9), SECOND, &searched(8), &mut ui);
    assert_eq!(ui.pending_client_requests.len(), 1);
}

#[test]
fn click_on_empty_results_only_focuses() {
    let mut ui = search_ui();
    handle(click(55, 8), 0, &data(), &mut ui);
    let state = search_state(&ui);
    assert_eq!(state.focus, SearchFocusState::Episodes);
    assert_eq!(state.episode_list, ListState::default());
}

#[test]
fn search_popup_narrows_what_is_clicked() {
    let mut ui = search_ui();
    ui.popup = Some(PopupState::Search { query: "x".to_string() });
    let mut client = Outbox::new(usize::MAX);
    let matches = QueryMatches { tracks: 2, ..no_matches() };
    let step = handle_mouse_event(
        click(4, 9),
        0,
        &None,
        &searched(50),
        &matches,
        &mut client,
        &mut ui,
    );
    assert!(matches!(step, Ok(MouseStep::Done)));
    assert_eq!(search_state(&ui).track_list.selected, Some(1));
    assert!(ui.popup.is_some());
}

#[test]
fn double_click_on_search_results_chooses() {
    let mut ui = search_ui();
    ui.count_prefix = Some(3);
    handle(click(4, 8), 0, &searched(50), &mut ui);
    ui.count_prefix = Some(3);
    let event = click(5, 8);
    assert_eq!(
        handle(event, 1, &searched(50), &mut ui),
        MouseStep::RunWindow {
            window: Window::Search(SearchResultCategory::Tracks),
            command: Command::ChooseSelected,
            after: AfterWindow::ListClicked,
        }
    );
    assert_eq!(ui.count_prefix, Some(3));
    let step = resume_mouse_event(event, AfterWindow::ListClicked, failed(), &mut ui);
    assert!(matches!(step, Ok(MouseStep::Done)));
    assert_eq!(ui.count_prefix, None);
}

#[test]
fn invalid_layout_is_not_clicked() {
    let mut ui = search_ui();
    ui.search_layout.valid = false;
    ui.count_prefix = Some(3);
    assert_eq!(handle(click(4, 8), 0, &searched(50), &mut ui), MouseStep::Done);
    assert_eq!(search_state(&ui), SearchPageUIState::new());
    assert_eq!(ui.count_prefix, Some(3));
}

#[test]
fn click_on_library_list_selects() {
    let mut data = data();
    for (id, folder) in [("a", 0), ("b", 1), ("c", 0)] {
        data.user_data.playlists.push(PlaylistFolderItem::Playlist(Playlist {
            id: PlaylistId::from_id(id).unwrap(),
            name: id.to_string(),
            current_folder_id: folder,
        }));
    }
    data.user_data.followed_artists.push(Artist {
        id: ArtistId::from_id("r").unwrap(),
        name: "r".to_string(),
    });
    let mut ui = fresh();
    ui.library_layout = library_layout();
    assert_eq!(handle(click(3, 9), 0, &data, &mut ui), MouseStep::Done);
    assert_eq!(handle(click(25, 5), SECOND, &data, &mut ui), MouseStep::Done);
    match ui.current_page() {
        PageState::Library { state } => {
            assert_eq!(state.playlist_list.selected, Some(1));
            assert_eq!(state.followed_artist_list.selected, Some(0));
            assert_eq!(state.focus, LibraryFocusState::FollowedArtists);
        }
        other => panic!("{other:?}"),
    }
    assert_eq!(
        handle(click(25, 5), SECOND + 1, &data, &mut ui),
        MouseStep::RunWindow {
            window: Window::Library(LibraryFocusState::FollowedArtists),
            command: Command::ChooseSelected,
            after: AfterWindow::ListClicked,
        }
    );
}

#[test]
fn click_on_context_track_selects_below_header() {
    let id = || ContextId::Album(AlbumId::from_id("a").unwrap());
    let table = ListState { offset: 2, selected: None };
    let mut data = data();
    data.contexts.insert(id().uri(), Context::Album { tracks: tracks(6) }, SECOND, 0);
    let mut ui = context_ui(id(), ContextPageUIState::Album { track_table: table });
    ui.count_prefix = Some(1);
    handle(click(3, 5), 0, &data, &mut ui);
    assert_eq!(context_state(&ui), ContextPageUIState::Album { track_table: table });
    assert_eq!(ui.count_prefix, Some(1));
    handle(click(3, 9), 0, &data, &mut ui);
    let selected = ListState { offset: 2, selected: Some(5) };
    assert_eq!(context_state(&ui), ContextPageUIState::Album { track_table: selected });
    assert_eq!(ui.count_prefix, None);
    handle(click(3, 10), 0, &data, &mut ui);
    assert_eq!(context_state(&ui), ContextPageUIState::Album { track_table: selected });
    assert_eq!(
        handle(click(3, 8), SECOND + 1, &data, &mut ui),
        MouseStep::Done
    );
    assert_eq!(context_state(&ui), ContextPageUIState::Album { track_table: selected });
}

#[test]
fn double_click_on_context_track_chooses() {
    let id = || ContextId::Artist(ArtistId::from_id("r").unwrap());
    let page = |selected, focus| ContextPageUIState::Artist {
        top_track_table: ListState { offset: 0, selected },
        album_table: ListState::default(),
        related_artist_list: ListState::default(),
        focus,
    };
    let mut data = data();
    data.contexts.insert(id().uri(), Context::Artist { top_tracks: tracks(6) }, SECOND, 0);
    let mut ui = context_ui(id(), page(None, ArtistFocusState::RelatedArtists));
    handle(click(3, 8), 0, &data, &mut ui);
    assert_eq!(context_state(&ui), page(Some(2), ArtistFocusState::TopTracks));
    ui.count_prefix = Some(9);
    let event = click(4, 8);
    assert_eq!(
        handle(event, 1, &data, &mut ui),
        MouseStep::RunWindow {
            window: Window::Context,
            command: Command::ChooseSelected,
            after: AfterWindow::TrackClicked,
        }
    );
    assert_eq!(ui.count_prefix, None);
    for outcome in [WindowOutcome::Handled, WindowOutcome::NotHandled, failed()] {
        let step = resume_mouse_event(event, AfterWindow::TrackClicked, outcome, &mut ui);
        assert!(matches!(step, Ok(MouseStep::Done)));
    }
}

#[test]
fn click_on_context_of_other_kind_selects_nothing() {
    let id = || ContextId::Playlist(PlaylistId::from_id("p").unwrap());
    let page = ContextPageUIState::Playlist { track_table: ListState::default() };
    let mut data = data();
    data.contexts.insert(id().uri(), Context::Album { tracks: tracks(6) }, SECOND, 0);
    let mut ui = context_ui(id(), page);
    handle(click(3, 8), 0, &data, &mut ui);
    assert_eq!(context_state(&ui), page);
}

#[test]
fn focus_that_tracks_need() {
    assert_eq!(
        ContextTrackSource::ArtistTopTracks.required_focus(),
        Some(ArtistFocusState::TopTracks)
    );
    for source in
        [ContextTrackSource::Album, ContextTrackSource::Playlist, ContextTrackSource::Tracks]
    {
        assert_eq!(source.required_focus(), None);
    }
}

#[test]
fn scroll_on_search_page_goes_to_list_under_mouse() {
    let mut ui = search_ui();
    for (down, command) in [
        (true, Command::PageSelectNextOrScrollDown),
        (false, Command::PageSelectPreviousOrScrollUp),
    ] {
        assert_eq!(
            handle(scroll(down, 45, 8), 0, &data(), &mut ui),
            MouseStep::RunWindow {
                window: Window::Search(SearchResultCategory::Shows),
                command,
                after: AfterWindow::SearchScrolled,
            }
        );
        assert_eq!(search_state(&ui).focus, SearchFocusState::Shows);
    }
    assert_eq!(handle(scroll(true, 45, 1), 0, &data(), &mut ui), MouseStep::Done);
    assert_eq!(ui.last_mouse_click, None);
}

#[test]
fn scroll_on_library_page_goes_to_list_under_mouse() {
    let mut ui = fresh();
    ui.library_layout = library_layout();
    assert_eq!(
        handle(scroll(true, 15, 8), 0, &data(), &mut ui),
        MouseStep::RunWindow {
            window: Window::Library(LibraryFocusState::SavedAlbums),
            command: Command::PageSelectNextOrScrollDown,
            after: AfterWindow::LibraryScrolled,
        }
    );
    ui.count_prefix = Some(2);
    let event = scroll(true, 15, 8);
    let step = resume_mouse_event(
        event,
        AfterWindow::LibraryScrolled,
        WindowOutcome::NotHandled,
        &mut ui,
    );
    assert!(matches!(step, Ok(MouseStep::Done)));
    assert_eq!(ui.count_prefix, Some(2));
    let step =
        resume_mouse_event(event, AfterWindow::LibraryScrolled, WindowOutcome::Handled, &mut ui);
    assert!(matches!(step, Ok(MouseStep::Done)));
    assert_eq!(ui.count_prefix, None);
    let step =
        resume_mouse_event(event, AfterWindow::LibraryScrolled, failed(), &mut ui);
    assert_eq!(step.unwrap_err().message(), "no such row");
}

#[test]
fn scroll_on_artist_page_focuses_top_tracks() {
    let id = ContextId::Artist(ArtistId::from_id("r").unwrap());
    let page = |focus| ContextPageUIState::Artist {
        top_track_table: ListState::default(),
        album_table: ListState::default(),
        related_artist_list: ListState::default(),
        focus,
    };
    let mut ui = context_ui(id, page(ArtistFocusState::Albums));
    let event = scroll(false, 3, 8);
    assert_eq!(
        handle(event, 0, &data(), &mut ui),
        MouseStep::RunWindow {
            window: Window::Context,
            command: Command::PageSelectPreviousOrScrollUp,
            after: AfterWindow::ContextScrolled,
        }
    );
    assert_eq!(context_state(&ui), page(ArtistFocusState::TopTracks));
    let step =
        resume_mouse_event(event, AfterWindow::ContextScrolled, WindowOutcome::NotHandled, &mut ui);
    assert!(matches!(step, Ok(MouseStep::Done)));
}

#[test]
fn scroll_on_show_page_does_nothing() {
    let id = ContextId::Album(AlbumId::from_id("a").unwrap());
    let page = ContextPageUIState::Show { episode_table: ListState::default() };
    let mut ui = context_ui(id, page);
    assert_eq!(handle(scroll(true, 3, 8), 0, &data(), &mut ui), MouseStep::Done);
    assert_eq!(context_state(&ui), page);
}

#[test]
fn other_mouse_events_do_nothing() {
    let mut ui = fresh();
    let event = MouseEvent { kind: MouseEventKind::Other, column: 3, row: 50 };
    let mut client = Outbox::new(0);
    let step = handle_mouse_event(
        event,
        0,
        &playing_track(5),
        &data(),
        &no_matches(),
        &mut client,
        &mut ui,
    );
    assert!(matches!(step, Ok(MouseStep::Done)));
    assert_eq!(ui.last_mouse_click, None);
}

#[test]
fn positions_that_leave_the_range_are_told_apart() {
    let bar = Rect { x: 0, y: 50, width: 100, height: 1 };
    let long = Some(Span::from_millis(i64::MAX / 2 + 1).unwrap());
    assert!(is_seekable(long, 1, 50, bar));
    assert!(!is_seekable(long, 2, 50, bar));
    assert!(is_seekable(long, 2, 49, bar));
    assert!(is_seekable(None, 2, 50, bar));
    assert!(!is_seekable(long, 1, 50, Rect { width: 0, ..bar }));
}

#[test]
fn smallest_product_can_be_sought() {
    let bar = Rect { x: 0, y: 50, width: 100, height: 1 };
    let far = Some(Span::from_millis(i64::MIN / 2).unwrap());
    assert!(is_seekable(far, 2, 50, bar));
    assert!(!is_seekable(far, 3, 50, bar));
    assert!(!is_seekable(far, 2, 50, Rect { width: 1, ..bar }));
    assert_eq!(sought(playing_track(i64::MIN / 2), 2), vec![i64::MIN / 100]);
}

/// A filter for items that live for any time.
fn filter<T, F: for<'a> Fn(&str, &'a [T]) -> Vec<&'a T>>(filter: F) -> F {
    filter
}

/// Counts with filters that leave the first items, as many as the query has letters.
fn counted(data: &AppData, ui: &UIState) -> QueryMatches {
    count_matches(
        ui,
        data,
        0,
        Filters {
            tracks: filter(|q, items: &[Track]| items.iter().take(q.len()).collect()),
            albums: filter(|q, items: &[Album]| items.iter().take(q.len()).collect()),
            artists: filter(|q, items: &[Artist]| items.iter().take(q.len()).collect()),
            playlists: filter(|q, items: &[Playlist]| items.iter().take(q.len()).collect()),
            shows: filter(|q, items: &[Show]| items.iter().take(q.len()).collect()),
            episodes: filter(|q, items: &[Episode]| items.iter().take(q.len()).collect()),
            folder_items: filter(|q, items: &[&PlaylistFolderItem]| {
                items.iter().take(q.len()).collect()
            }),
        },
    )
}

#[test]
fn matches_of_search_results_are_counted() {
    let mut ui = search_ui();
    assert_eq!(counted(&searched(50), &ui), QueryMatches { tracks: 50, ..no_matches() });
    ui.popup = Some(PopupState::Search { query: "abc".to_string() });
    assert_eq!(counted(&searched(50), &ui), QueryMatches { tracks: 3, ..no_matches() });
    assert_eq!(counted(&data(), &ui), no_matches());
}

#[test]
fn matches_of_library_are_counted() {
    let mut data = data();
    for (id, folder) in [("a", 0), ("b", 1), ("c", 0)] {
        data.user_data.playlists.push(PlaylistFolderItem::Playlist(Playlist {
            id: PlaylistId::from_id(id).unwrap(),
            name: id.to_string(),
            current_folder_id: folder,
        }));
    }
    let mut ui = fresh();
    assert_eq!(counted(&data, &ui), QueryMatches { folder_items: 2, ..no_matches() });
    ui.popup = Some(PopupState::Search { query: "x".to_string() });
    assert_eq!(counted(&data, &ui), QueryMatches { folder_items: 1, ..no_matches() });
}

#[test]
fn matches_of_context_are_counted() {
    let id = || ContextId::Album(AlbumId::from_id("a").unwrap());
    let page = ContextPageUIState::Album { track_table: ListState::default() };
    let mut data = data();
    data.contexts.insert(id().uri(), Context::Album { tracks: tracks(6) }, SECOND, 0);
    let mut ui = context_ui(id(), page);
    assert_eq!(counted(&data, &ui), QueryMatches { context_tracks: 6, ..no_matches() });
    ui.popup = Some(PopupState::Search { query: "xy".to_string() });
    assert_eq!(counted(&data, &ui), QueryMatches { context_tracks: 2, ..no_matches() });
}
