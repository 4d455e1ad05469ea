//! Actions, links and searches.

use spotify_player::cache::ExpiringCache;
use spotify_player::client::ClientRequest;
use spotify_player::client::Outbox;
use spotify_player::client::Playback;
use spotify_player::client::PlayerRequest;
use spotify_player::command::Action;
use spotify_player::command::ActionContext;
use spotify_player::command::ActionListItem;
use spotify_player::command::ActionSubject;
use spotify_player::command::ActionTarget;
use spotify_player::error::HandlerError;
use spotify_player::event::action::finish_copy_link;
use spotify_player::event::action::handle_action_in_context;
use spotify_player::event::action::handle_global_action;
use spotify_player::event::action::handle_go_to_artist;
use spotify_player::event::action::handle_show_actions_on_artist;
use spotify_player::event::action::open_action_list;
use spotify_player::event::link::find_link;
use spotify_player::event::link::open_link;
use spotify_player::event::link::open_spotify_link;
use spotify_player::event::search::maybe_queue_search_prefetch;
use spotify_player::event::search::process_pending_client_requests;
use spotify_player::event::step::Step;
use spotify_player::ids::AlbumId;
use spotify_player::ids::ArtistId;
use spotify_player::ids::ContextId;
use spotify_player::ids::EpisodeId;
use spotify_player::ids::ItemId;
use spotify_player::ids::PlayableId;
use spotify_player::ids::PlaylistId;
use spotify_player::ids::ShowId;
use spotify_player::ids::TrackId;
use spotify_player::layout::ListState;
use spotify_player::layout::Orientation;
use spotify_player::model::Album;
use spotify_player::model::Artist;
use spotify_player::model::Episode;
use spotify_player::model::Item;
use spotify_player::model::PaginationInfo;
use spotify_player::model::Playlist;
use spotify_player::model::PlaylistFolder;
use spotify_player::model::PlaylistFolderItem;
use spotify_player::model::SearchEntry;
use spotify_player::model::SearchPagination;
use spotify_player::model::SearchResultCategory;
use spotify_player::model::SearchResults;
use spotify_player::model::Show;
use spotify_player::model::Track;
use spotify_player::model::UserData;
use spotify_player::page::ContextPageType;
use spotify_player::page::LineInput;
use spotify_player::page::PageState;
use spotify_player::page::SearchFocusState;
use spotify_player::page::SearchPageUIState;
use spotify_player::player::PlayingEpisode;
use spotify_player::player::PlayingItem;
use spotify_player::player::PlayingTrack;
use spotify_player::popup::ArtistPopupAction;
use spotify_player::popup::PlaylistPopupAction;
use spotify_player::popup::PopupState;
use spotify_player::popup::Theme;
use spotify_player::span::Span;
use spotify_player::ui::PendingClientRequest;
use spotify_player::ui::UIState;

fn fresh() -> UIState {
    let mut ui =
        UIState::new(Theme { name: "default".to_string(), index: 0 }, Orientation::Horizontal);
    ui.popup = Some(PopupState::DeviceList(ListState::default()));
    ui
}

fn artist(id: &str) -> Artist {
    Artist { id: ArtistId::from_id(id).unwrap(), name: format!("artist {id}") }
}

fn album(id: &str) -> Album {
    Album {
        id: AlbumId::from_id(id).unwrap(),
        name: format!("album {id}"),
        artists: vec![artist("r1"), artist("r2")],
    }
}

fn track(id: &str) -> Track {
    Track {
        id: TrackId::from_id(id).unwrap(),
        name: format!("track {id}"),
        artists: vec![artist("r1")],
        album: Some(album("a1")),
    }
}

fn playlist(id: &str) -> Playlist {
    Playlist {
        id: PlaylistId::from_id(id).unwrap(),
        name: format!("playlist {id}"),
        current_folder_id: 0,
    }
}

fn show(id: &str) -> Show {
    Show { id: ShowId::from_id(id).unwrap(), name: format!("show {id}") }
}

fn episode(id: &str) -> Episode {
    Episode {
        id: EpisodeId::from_id(id).unwrap(),
        name: format!("episode {id}"),
        show: Some(show("s1")),
    }
}

fn library() -> UserData {
    UserData {
        playlists: vec![
            PlaylistFolderItem::Folder(PlaylistFolder {
                name: "folder".to_string(),
                current_id: 0,
                target_id: 1,
            }),
            PlaylistFolderItem::Playlist(playlist("p1")),
        ],
        saved_albums: vec![album("a1")],
        followed_artists: vec![artist("r1")],
        saved_shows: vec![show("s1")],
        saved_tracks: vec![track("t1")],
        playlists_last_sync: None,
        saved_albums_last_sync: None,
        followed_artists_last_sync: None,
        saved_shows_last_sync: None,
    }
}

/// Does the action, which must apply or not as said, and gives back what was sent.
fn act(action: Action, context: ActionContext, applies: bool, ui: &mut UIState) -> Vec<ClientRequest> {
    let mut client = Outbox::new(usize::MAX);
    match handle_action_in_context(action, context, &mut client, &library(), ui) {
        Ok(Step::Handled(applied)) => assert_eq!(applied, applies),
        other => panic!("{other:?}"),
    }
    client.sent
}

fn sent(action: Action, context: ActionContext) -> String {
    let mut ui = fresh();
    let sent = act(action, context, true, &mut ui);
    assert!(ui.popup.is_none());
    format!("{sent:?}")
}

fn browsed(ui: &UIState) -> String {
    match ui.current_page() {
        PageState::Context {
            id: None,
            context_page_type: ContextPageType::Browsing(id),
            state: None,
        } => id.uri(),
        other => panic!("{other:?}"),
    }
}

fn requests(requests: Vec<ClientRequest>) -> String {
    format!("{requests:?}")
}

#[test]
fn going_to_album_and_show_opens_their_pages() {
    let mut ui = fresh();
    assert!(act(Action::GoToAlbum, ActionContext::Track(track("t1")), true, &mut ui).is_empty());
    assert_eq!(browsed(&ui), "spotify:album:a1");
    assert!(ui.popup.is_none());
    act(Action::GoToShow, ActionContext::Episode(episode("e1")), true, &mut ui);
    assert_eq!(browsed(&ui), "spotify:show:s1");
    let mut single = track("t1");
    single.album = None;
    act(Action::GoToAlbum, ActionContext::Track(single), false, &mut ui);
    let mut lone = episode("e1");
    lone.show = None;
    act(Action::GoToShow, ActionContext::Episode(lone), false, &mut ui);
    assert_eq!(ui.history.len(), 3);
}

#[test]
fn going_to_artist_asks_where_there_are_several() {
    let mut ui = fresh();
    handle_go_to_artist(vec![artist("r7")], &mut ui);
    assert_eq!(browsed(&ui), "spotify:artist:r7");
    act(Action::GoToArtist, ActionContext::Album(album("a1")), true, &mut ui);
    match &ui.popup {
        Some(PopupState::ArtistList(ArtistPopupAction::Browse, artists, list)) => {
            assert_eq!(artists.len(), 2);
            assert_eq!(*list, ListState::default());
        }
        other => panic!("{other:?}"),
    }
    handle_go_to_artist(Vec::new(), &mut ui);
    assert!(matches!(&ui.popup, Some(PopupState::ArtistList(_, artists, _)) if artists.is_empty()));
}

#[test]
fn actions_on_artist_are_shown_or_asked_for() {
    let mut ui = fresh();
    match handle_show_actions_on_artist(vec![artist("r7")], &mut ui) {
        Step::ShowActions(ActionSubject::Artist(artist)) => assert_eq!(artist.id.id(), "r7"),
        other => panic!("{other:?}"),
    }
    let step = handle_show_actions_on_artist(vec![artist("r7"), artist("r8")], &mut ui);
    assert!(matches!(step, Step::Handled(true)));
    assert!(matches!(
        &ui.popup,
        Some(PopupState::ArtistList(ArtistPopupAction::ShowActions, artists, _))
            if artists.len() == 2
    ));
}

#[test]
fn found_actions_are_listed() {
    let mut ui = fresh();
    let step = open_action_list(
        ActionSubject::Show(show("s1")),
        vec![Action::CopyLink, Action::AddToLibrary],
        &mut ui,
    );
    assert!(matches!(step, Step::Handled(true)));
    match &ui.popup {
        Some(PopupState::ActionList(item, list)) => {
            assert!(matches!(&**item, ActionListItem::Show(show, actions)
                if show.id.id() == "s1" && *actions == vec![Action::CopyLink, Action::AddToLibrary]));
            assert_eq!(*list, ListState::default());
        }
        other => panic!("{other:?}"),
    }
}

#[test]
fn queue_and_library_requests() {
    assert_eq!(
        sent(Action::AddToQueue, ActionContext::Track(track("t1"))),
        requests(vec![ClientRequest::AddPlayableToQueue(PlayableId::Track(
            TrackId::from_id("t1").unwrap()
        ))])
    );
    assert_eq!(
        sent(Action::AddToQueue, ActionContext::Episode(episode("e1"))),
        requests(vec![ClientRequest::AddPlayableToQueue(PlayableId::Episode(
            EpisodeId::from_id("e1").unwrap()
        ))])
    );
    assert_eq!(
        sent(Action::AddToQueue, ActionContext::Album(album("a9"))),
        requests(vec![ClientRequest::AddAlbumToQueue(AlbumId::from_id("a9").unwrap())])
    );
    assert_eq!(
        sent(Action::AddToLibrary, ActionContext::Album(album("a9"))),
        requests(vec![ClientRequest::AddToLibrary(Item::Album(album("a9")))])
    );
    assert_eq!(
        sent(Action::AddToLibrary, ActionContext::Playlist(playlist("p9"))),
        requests(vec![ClientRequest::AddToLibrary(Item::Playlist(playlist("p9")))])
    );
    assert_eq!(
        sent(Action::AddToLibrary, ActionContext::Show(show("s9"))),
        requests(vec![ClientRequest::AddToLibrary(Item::Show(show("s9")))])
    );
    assert_eq!(
        sent(Action::Follow, ActionContext::Artist(artist("r9"))),
        requests(vec![ClientRequest::AddToLibrary(Item::Artist(artist("r9")))])
    );
}

#[test]
fn toggle_liked_deletes_or_adds() {
    let delete = requests(vec![ClientRequest::DeleteFromLibrary(ItemId::Track(
        TrackId::from_id("t1").unwrap(),
    ))]);
    let add = requests(vec![ClientRequest::AddToLibrary(Item::Track(track("t2")))]);
    assert_eq!(sent(Action::ToggleLiked, ActionContext::Track(track("t1"))), delete);
    assert_eq!(sent(Action::DeleteFromLiked, ActionContext::Track(track("t1"))), delete);
    assert_eq!(sent(Action::ToggleLiked, ActionContext::Track(track("t2"))), add);
    assert_eq!(sent(Action::AddToLiked, ActionContext::Track(track("t2"))), add);
}

#[test]
fn only_saved_items_are_deleted() {
    assert_eq!(
        sent(Action::DeleteFromLibrary, ActionContext::Album(album("a1"))),
        requests(vec![ClientRequest::DeleteFromLibrary(ItemId::Album(
            AlbumId::from_id("a1").unwrap()
        ))])
    );
    assert_eq!(
        sent(Action::Unfollow, ActionContext::Artist(artist("r1"))),
        requests(vec![ClientRequest::DeleteFromLibrary(ItemId::Artist(
            ArtistId::from_id("r1").unwrap()
        ))])
    );
    assert_eq!(
        sent(Action::DeleteFromLibrary, ActionContext::Playlist(playlist("p1"))),
        requests(vec![ClientRequest::DeleteFromLibrary(ItemId::Playlist(
            PlaylistId::from_id("p1").unwrap()
        ))])
    );
    assert_eq!(
        sent(Action::DeleteFromLibrary, ActionContext::Show(show("s1"))),
        requests(vec![ClientRequest::DeleteFromLibrary(ItemId::Show(
            ShowId::from_id("s1").unwrap()
        ))])
    );
    for (action, context) in [
        (Action::DeleteFromLibrary, ActionContext::Album(album("a9"))),
        (Action::Unfollow, ActionContext::Artist(artist("r9"))),
        (Action::DeleteFromLibrary, ActionContext::Playlist(playlist("p9"))),
        (Action::DeleteFromLibrary, ActionContext::Show(show("s9"))),
    ] {
        let mut ui = fresh();
        assert!(act(action, context, true, &mut ui).is_empty());
        assert!(ui.popup.is_some());
    }
}

#[test]
fn radio_opens_and_is_requested() {
    for (context, uri, name) in [
        (ActionContext::Track(track("t1")), "spotify:track:t1", "track t1"),
        (ActionContext::Album(album("a1")), "spotify:album:a1", "album a1"),
        (ActionContext::Artist(artist("r1")), "spotify:artist:r1", "artist r1"),
        (ActionContext::Playlist(playlist("p1")), "spotify:playlist:p1", "playlist p1"),
    ] {
        let mut ui = fresh();
        assert_eq!(
            requests(act(Action::GoToRadio, context, true, &mut ui)),
            requests(vec![ClientRequest::GetRadioTracks {
                seed_uri: uri.to_string(),
                seed_name: name.to_string(),
            }])
        );
        assert_eq!(browsed(&ui), format!("radio:{uri}"));
    }
}

#[test]
fn adding_to_playlist_lets_choose() {
    let mut ui = fresh();
    assert_eq!(
        requests(act(Action::AddToPlaylist, ActionContext::Track(track("t1")), true, &mut ui)),
        requests(vec![ClientRequest::GetUserPlaylists])
    );
    assert!(matches!(
        &ui.popup,
        Some(PopupState::UserPlaylistList(
            PlaylistPopupAction::AddTrack { folder_id: 0, track_id, search_query },
            _
        )) if track_id.id() == "t1" && search_query.is_empty()
    ));
    act(Action::AddToPlaylist, ActionContext::Episode(episode("e1")), true, &mut ui);
    assert!(matches!(
        &ui.popup,
        Some(PopupState::UserPlaylistList(
            PlaylistPopupAction::AddEpisode { folder_id: 0, episode_id, .. },
            _
        )) if episode_id.id() == "e1"
    ));
}

#[test]
fn track_is_deleted_from_shown_playlist() {
    let mut ui = fresh();
    ui.new_page(PageState::Context {
        id: Some(ContextId::Playlist(PlaylistId::from_id("p1").unwrap())),
        context_page_type: ContextPageType::CurrentPlaying,
        state: None,
    });
    ui.popup = Some(PopupState::DeviceList(ListState::default()));
    assert_eq!(
        requests(act(Action::DeleteFromPlaylist, ActionContext::Track(track("t1")), true, &mut ui)),
        requests(vec![ClientRequest::DeleteTrackFromPlaylist(
            PlaylistId::from_id("p1").unwrap(),
            TrackId::from_id("t1").unwrap()
        )])
    );
    assert!(ui.popup.is_none());
    assert_eq!(sent(Action::DeleteFromPlaylist, ActionContext::Track(track("t1"))), "[]");
}

#[test]
fn links_are_copied() {
    for (context, link) in [
        (ActionContext::Track(track("x1")), "https://open.spotify.com/track/x1"),
        (ActionContext::Album(album("x1")), "https://open.spotify.com/album/x1"),
        (ActionContext::Artist(artist("x1")), "https://open.spotify.com/artist/x1"),
        (ActionContext::Playlist(playlist("x1")), "https://open.spotify.com/playlist/x1"),
        (ActionContext::Show(show("x1")), "https://open.spotify.com/show/x1"),
        (ActionContext::Episode(episode("x1")), "https://open.spotify.com/episode/x1"),
    ] {
        let mut ui = fresh();
        let mut client = Outbox::new(0);
        let step =
            handle_action_in_context(Action::CopyLink, context, &mut client, &library(), &mut ui);
        assert!(matches!(step, Ok(Step::CopyLink(text)) if text == link));
        assert!(ui.popup.is_some());
        let refused = finish_copy_link(Err("no such command".to_string()), &mut ui);
        assert!(matches!(&refused, Err(HandlerError::Copy(_))));
        assert_eq!(refused.unwrap_err().message(), "no such command");
        assert!(ui.popup.is_some());
        assert!(matches!(finish_copy_link(Ok(()), &mut ui), Ok(Step::Handled(true))));
        assert!(ui.popup.is_none());
    }
}

#[test]
fn actions_of_related_items_are_asked_for() {
    let mut client = Outbox::new(usize::MAX);
    let mut ui = fresh();
    let step = handle_action_in_context(
        Action::ShowActionsOnAlbum,
        ActionContext::Track(track("t1")),
        &mut client,
        &library(),
        &mut ui,
    );
    assert!(matches!(step, Ok(Step::ShowActions(ActionSubject::Album(a))) if a.id.id() == "a1"));
    let step = handle_action_in_context(
        Action::ShowActionsOnShow,
        ActionContext::Episode(episode("e1")),
        &mut client,
        &library(),
        &mut ui,
    );
    assert!(matches!(step, Ok(Step::ShowActions(ActionSubject::Show(s))) if s.id.id() == "s1"));
}

#[test]
fn actions_that_do_not_apply_change_nothing() {
    let folder =
        PlaylistFolder { name: "folder".to_string(), current_id: 0, target_id: 1 };
    for (action, context) in [
        (Action::GoToShow, ActionContext::Track(track("t1"))),
        (Action::AddToLiked, ActionContext::Album(album("a1"))),
        (Action::AddToQueue, ActionContext::Artist(artist("r1"))),
        (Action::AddToQueue, ActionContext::Playlist(playlist("p1"))),
        (Action::GoToRadio, ActionContext::Show(show("s1"))),
        (Action::GoToRadio, ActionContext::Episode(episode("e1"))),
        (Action::CopyLink, ActionContext::PlaylistFolder(folder)),
    ] {
        let mut ui = fresh();
        assert!(act(action, context, false, &mut ui).is_empty());
        assert!(ui.popup.is_some());
        assert_eq!(ui.history.len(), 1);
    }
}

#[test]
fn action_fails_when_client_is_gone() {
    let mut ui = fresh();
    let mut client = Outbox::new(0);
    let step = handle_action_in_context(
        Action::AddToQueue,
        ActionContext::Track(track("t1")),
        &mut client,
        &library(),
        &mut ui,
    );
    assert!(matches!(step, Err(HandlerError::ClientClosed)));
    assert!(client.sent.is_empty());
    assert!(ui.popup.is_some());
}

#[test]
fn global_action_takes_playing_item() {
    let playing = |track: Option<Track>| {
        Some(PlayingItem::Track(PlayingTrack {
            id: None,
            name: "x".to_string(),
            artist_names: Vec::new(),
            duration: Span::zero(),
            track,
        }))
    };
    let run = |target, playing| {
        let mut ui = fresh();
        let mut client = Outbox::new(usize::MAX);
        match handle_global_action(
            Action::AddToQueue,
            target,
            playing,
            &mut client,
            &library(),
            &mut ui,
        ) {
            Ok(Step::Handled(applied)) => (applied, client.sent.len()),
            other => panic!("{other:?}"),
        }
    };
    assert_eq!(run(ActionTarget::PlayingTrack, playing(Some(track("t1")))), (true, 1));
    assert_eq!(run(ActionTarget::PlayingTrack, playing(None)), (false, 0));
    assert_eq!(run(ActionTarget::SelectedItem, playing(Some(track("t1")))), (false, 0));
    let talk = PlayingEpisode { episode: episode("e1"), duration: Span::zero() };
    assert_eq!(run(ActionTarget::PlayingTrack, Some(PlayingItem::Episode(talk))), (true, 1));
    assert_eq!(run(ActionTarget::PlayingTrack, Some(PlayingItem::Unknown)), (false, 0));
    assert_eq!(run(ActionTarget::PlayingTrack, None), (false, 0));
}

fn link(text: &str) -> Option<(String, String)> {
    find_link(text)
}

fn pair(kind: &str, id: &str) -> Option<(String, String)> {
    Some((kind.to_string(), id.to_string()))
}

#[test]
fn links_are_found_in_text() {
    assert_eq!(link("https://open.spotify.com/track/4y4VO05k?si=1"), pair("track", "4y4VO05k"));
    assert_eq!(link("see https://open.spotify.com/album/a1, ok"), pair("album", "a1"));
    assert_eq!(link("https://openXspotifyYcom/track/t1"), pair("track", "t1"));
    assert_eq!(link("https://open.spotify.com/intl-de/track/t1"), pair("intl-de", "track"));
    assert_eq!(link("https://open.spotify.com//t1"), pair("", "t1"));
    assert_eq!(link("https://open.spotify.com/track/-"), pair("track", ""));
    assert_eq!(link("https://open.spotify.com/track"), None);
    assert_eq!(link("https://open.spotify.com/tra\nck/t1"), None);
    assert_eq!(link("http://open.spotify.com/track/t1"), None);
    assert_eq!(
        link("https://open.spotify.com/x\nhttps://open.spotify.com/show/s1"),
        pair("show", "s1")
    );
    assert_eq!(link(""), None);
}

fn open(text: &str, ui: &mut UIState) -> Vec<ClientRequest> {
    let mut client = Outbox::new(usize::MAX);
    assert!(matches!(open_spotify_link(Ok(text), &mut client, ui), Ok(Step::Handled(true))));
    client.sent
}

#[test]
fn track_link_is_played() {
    let mut ui = fresh();
    let sent = open("https://open.spotify.com/track/t1?si=x", &mut ui);
    assert_eq!(
        requests(sent),
        requests(vec![ClientRequest::Player(PlayerRequest::StartPlayback(
            Playback::URIs(vec![PlayableId::Track(TrackId::from_id("t1").unwrap())], None),
            None
        ))])
    );
    assert_eq!(ui.history.len(), 1);
}

#[test]
fn context_links_open_pages() {
    for kind in ["playlist", "artist", "album"] {
        let mut ui = fresh();
        let sent = open(&format!("https://open.spotify.com/{kind}/x1"), &mut ui);
        assert!(sent.is_empty());
        assert_eq!(browsed(&ui), format!("spotify:{kind}:x1"));
    }
}

#[test]
fn text_without_link_does_nothing() {
    let mut ui = fresh();
    assert!(open("hello", &mut ui).is_empty());
    assert!(ui.popup.is_some());
    assert_eq!(ui.history.len(), 1);
}

#[test]
fn bad_links_are_errors() {
    let mut ui = fresh();
    let mut client = Outbox::new(usize::MAX);
    let step = open_spotify_link(Ok("https://open.spotify.com/show/s1"), &mut client, &mut ui);
    assert_eq!(step.unwrap_err().message(), "unsupported Spotify type show!");
    let step = open_spotify_link(Err("no display".to_string()), &mut client, &mut ui);
    assert!(matches!(&step, Err(HandlerError::Clipboard(_))));
    assert_eq!(step.unwrap_err().message(), "get clipboard's content: no display");
    for kind in ["track", "playlist", "artist", "album"] {
        let step = open_link(pair(kind, "a-b"), &mut client, &mut ui);
        assert!(matches!(step, Err(HandlerError::InvalidId)));
    }
    let mut gone = Outbox::new(0);
    let step = open_link(pair("track", "t1"), &mut gone, &mut ui);
    assert!(matches!(step, Err(HandlerError::ClientClosed)));
    assert!(client.sent.is_empty() && gone.sent.is_empty());
}

#[test]
fn copied_link_leads_back() {
    let mut ui = fresh();
    let mut client = Outbox::new(usize::MAX);
    let step = handle_action_in_context(
        Action::CopyLink,
        ActionContext::Album(album("a77")),
        &mut client,
        &library(),
        &mut ui,
    );
    match step {
        Ok(Step::CopyLink(text)) => {
            open(&text, &mut ui);
            assert_eq!(browsed(&ui), "spotify:album:a77");
        }
        other => panic!("{other:?}"),
    }
}

fn info(is_exhausted: bool, is_fetching: bool) -> PaginationInfo {
    PaginationInfo { is_exhausted, is_fetching }
}

fn searches(tracks: PaginationInfo) -> ExpiringCache<SearchEntry> {
    let ready = info(false, false);
    let mut search = ExpiringCache::new();
    search.insert(
        "jazz".to_string(),
        SearchEntry {
            results: SearchResults {
                tracks: vec![track("t1"), track("t2")],
                albums: vec![album("a1")],
                artists: Vec::new(),
                playlists: Vec::new(),
                shows: Vec::new(),
                episodes: Vec::new(),
            },
            pagination: SearchPagination {
                tracks,
                albums: ready,
                artists: ready,
                playlists: ready,
                shows: ready,
                episodes: ready,
            },
        },
        1_000,
        0,
    );
    search
}

fn searching(selected: Option<usize>) -> UIState {
    let mut ui = fresh();
    let mut state = SearchPageUIState::new();
    state.focus = SearchFocusState::Tracks;
    state.track_list.selected = selected;
    ui.new_page(PageState::Search {
        line_input: LineInput::default(),
        current_query: "jazz".to_string(),
        state,
    });
    ui
}

fn queued(selected: Option<usize>, len: usize, now: u64, tracks: PaginationInfo) -> usize {
    let mut ui = searching(selected);
    for _ in 0..2 {
        maybe_queue_search_prefetch(
            &mut ui,
            &searches(tracks),
            now,
            "jazz",
            SearchResultCategory::Tracks,
            len,
        );
    }
    ui.pending_client_requests.len()
}

#[test]
fn more_results_are_queued_near_the_end() {
    let ready = info(false, false);
    assert_eq!(queued(Some(15), 20, 0, ready), 1);
    assert_eq!(queued(Some(14), 20, 0, ready), 0);
    assert_eq!(queued(Some(0), 5, 0, ready), 1);
    assert_eq!(queued(Some(0), 0, 0, ready), 0);
    assert_eq!(queued(None, 5, 0, ready), 0);
    assert_eq!(queued(Some(19), 20, 0, info(true, false)), 0);
    assert_eq!(queued(Some(19), 20, 0, info(false, true)), 0);
    assert_eq!(queued(Some(19), 20, 1_001, ready), 0);
}

fn more(category: SearchResultCategory) -> PendingClientRequest {
    PendingClientRequest::SearchMore { query: "jazz".to_string(), category }
}

#[test]
fn queued_requests_are_sent_once() {
    let mut search = searches(info(false, false));
    let mut client = Outbox::new(usize::MAX);
    let batch = || {
        vec![
            more(SearchResultCategory::Tracks),
            more(SearchResultCategory::Tracks),
            more(SearchResultCategory::Albums),
            PendingClientRequest::SearchMore {
                query: "rock".to_string(),
                category: SearchResultCategory::Tracks,
            },
        ]
    };
    for _ in 0..2 {
        assert!(
            process_pending_client_requests(batch(), &mut search, 10, 500, &mut client).is_ok()
        );
    }
    assert_eq!(
        requests(client.sent),
        requests(vec![
            ClientRequest::SearchMore {
                query: "jazz".to_string(),
                category: SearchResultCategory::Tracks,
                offset: 2,
            },
            ClientRequest::SearchMore {
                query: "jazz".to_string(),
                category: SearchResultCategory::Albums,
                offset: 1,
            },
        ])
    );
    let entry = search.get("jazz", 510).unwrap();
    assert!(entry.pagination.info(SearchResultCategory::Tracks).is_fetching);
    assert!(entry.pagination.info(SearchResultCategory::Albums).is_fetching);
    assert!(!entry.pagination.info(SearchResultCategory::Shows).is_fetching);
    assert!(search.get("jazz", 511).is_none());
    assert!(search.get("rock", 10).is_none());
}

#[test]
fn exhausted_results_are_not_requested() {
    let mut search = searches(info(true, false));
    let mut client = Outbox::new(usize::MAX);
    let result = process_pending_client_requests(
        vec![more(SearchResultCategory::Tracks)],
        &mut search,
        10,
        500,
        &mut client,
    );
    assert!(result.is_ok());
    assert!(client.sent.is_empty());
}

#[test]
fn processing_stops_when_client_is_gone() {
    let mut search = searches(info(false, false));
    let mut client = Outbox::new(0);
    let result = process_pending_client_requests(
        vec![more(SearchResultCategory::Tracks), more(SearchResultCategory::Albums)],
        &mut search,
        10,
        500,
        &mut client,
    );
    assert!(matches!(result, Err(HandlerError::ClientClosed)));
    let entry = search.get("jazz", 10).unwrap();
    assert!(entry.pagination.info(SearchResultCategory::Tracks).is_fetching);
    assert!(!entry.pagination.info(SearchResultCategory::Albums).is_fetching);
}

#[test]
fn client_that_stops_midway_takes_the_first_request() {
    let mut search = searches(info(false, false));
    let mut client = Outbox::new(1);
    let result = process_pending_client_requests(
        vec![more(SearchResultCategory::Tracks), more(SearchResultCategory::Albums)],
        &mut search,
        10,
        500,
        &mut client,
    );
    assert!(matches!(result, Err(HandlerError::ClientClosed)));
    assert_eq!(client.sent.len(), 1);
    let entry = search.get("jazz", 10).unwrap();
    assert!(entry.pagination.info(SearchResultCategory::Albums).is_fetching);
    assert_eq!(entry.results.tracks.len(), 2);
}

#[test]
fn second_call_later_changes_nothing() {
    let mut search = searches(info(false, false));
    let mut client = Outbox::new(usize::MAX);
    for now in [10, 400] {
        let requests = vec![more(SearchResultCategory::Tracks), more(SearchResultCategory::Tracks)];
        assert!(process_pending_client_requests(requests, &mut search, now, 500, &mut client)
            .is_ok());
        assert_eq!(client.sent.len(), 1);
        let entry = search.get("jazz", now).unwrap();
        assert_eq!(
            entry.pagination.info(SearchResultCategory::Tracks),
            info(false, true)
        );
        assert_eq!(
            entry.pagination.info(SearchResultCategory::Albums),
            info(false, false)
        );
        assert_eq!(entry.results.tracks.len(), 2);
    }
}
