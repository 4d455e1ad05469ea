//! Pages, popups and keys.

use spotify_player::command::Command;
use spotify_player::command::CommandOrAction;
use spotify_player::error::HandlerError;
use spotify_player::event::after_handled;
use spotify_player::event::after_read;
use spotify_player::event::begin_event;
use spotify_player::event::is_downward_command;
use spotify_player::event::keys::begin_key_event;
use spotify_player::event::keys::finish_key_event;
use spotify_player::event::keys::has_room_for;
use spotify_player::event::keys::KeyStep;
use spotify_player::event::mouse::MouseEvent;
use spotify_player::event::mouse::MouseEventKind;
use spotify_player::event::EventStep;
use spotify_player::event::TerminalEvent;
use spotify_player::key::Key;
use spotify_player::key::KeyBinding;
use spotify_player::key::KeyCode;
use spotify_player::key::KeyEvent;
use spotify_player::key::KeySequence;
use spotify_player::key::KeymapConfig;
use spotify_player::layout::ListState;
use spotify_player::layout::Orientation;
use spotify_player::model::SearchResultCategory;
use spotify_player::page::ArtistFocusState;
use spotify_player::page::ContextPageType;
use spotify_player::page::LibraryFocusState;
use spotify_player::page::PageState;
use spotify_player::page::SearchFocusState;
use spotify_player::popup::PopupState;
use spotify_player::popup::Theme;
use spotify_player::ui::PendingClientRequest;
use spotify_player::ui::UIState;

fn fresh() -> UIState {
    UIState::new(Theme { name: "default".to_string(), index: 0 }, Orientation::Horizontal)
}

fn press(c: char) -> KeyEvent {
    KeyEvent { code: KeyCode::Char(c), plain: true, key: Key::Plain(KeyCode::Char(c)) }
}

fn escape() -> KeyEvent {
    KeyEvent { code: KeyCode::Esc, plain: true, key: Key::Plain(KeyCode::Esc) }
}

fn keys(text: &str) -> KeySequence {
    KeySequence { keys: text.chars().map(|c| Key::Plain(KeyCode::Char(c))).collect() }
}

fn keymap() -> KeymapConfig {
    KeymapConfig {
        bindings: vec![
            KeyBinding { keys: keys("gg"), target: CommandOrAction::Command(Command::LibraryPage) },
            KeyBinding { keys: keys("q"), target: CommandOrAction::Command(Command::Quit) },
            KeyBinding { keys: keys("q"), target: CommandOrAction::Command(Command::Shuffle) },
        ],
    }
}

fn offered(step: KeyStep) -> (Vec<Key>, bool) {
    match step {
        KeyStep::Offer { keys, to_popup } => (keys.keys, to_popup),
        KeyStep::Consumed => panic!("consumed"),
    }
}

/// Presses the key and lets nobody take it.
fn type_key(c: char, ui: &mut UIState) -> Vec<Key> {
    let event = press(c);
    let (offered, _) = offered(begin_key_event(event, &keymap(), ui));
    let _ = finish_key_event(event.key, KeySequence { keys: offered.clone() }, false, ui);
    offered
}

#[test]
fn starts_on_library_page() {
    let ui = fresh();
    assert!(ui.is_running);
    assert_eq!(ui.history.len(), 1);
    assert!(matches!(ui.current_page(), PageState::Library { .. }));
    assert!(ui.popup.is_none());
    assert!(!ui.search_layout.valid && !ui.library_layout.valid && !ui.browse_layout.valid);
    assert_eq!(ui.last_cover_image_render_info.url, "");
}

#[test]
fn search_popup_selects_first_item() {
    let mut ui = fresh();
    if let PageState::Library { state } = ui.current_page_mut() {
        state.playlist_list = ListState { offset: 3, selected: Some(8) };
    }
    ui.new_search_popup();
    assert_eq!(ui.current_page().selected(), Some(0));
    assert!(matches!(&ui.popup, Some(PopupState::Search { query }) if query.is_empty()));
    assert!(!ui.has_focused_popup());
    ui.popup = Some(PopupState::DeviceList(ListState::default()));
    assert!(ui.has_focused_popup());
}

#[test]
fn radio_page_is_named_by_its_seed() {
    let mut ui = fresh();
    ui.popup = Some(PopupState::DeviceList(ListState::default()));
    ui.new_radio_page("spotify:track:t1");
    assert!(ui.popup.is_none());
    match ui.current_page() {
        PageState::Context { id: None, context_page_type, state: None } => {
            match context_page_type {
                ContextPageType::Browsing(id) => assert_eq!(id.uri(), "radio:spotify:track:t1"),
                other => panic!("{other:?}"),
            }
        }
        other => panic!("{other:?}"),
    }
}

#[test]
fn items_are_filtered_by_search_popup_only() {
    let mut ui = fresh();
    let items = [1u8, 2, 3, 4];
    let odd = |query: &str, items: &'static [u8]| -> Vec<&'static u8> {
        assert_eq!(query, "odd");
        items.iter().filter(|i| **i % 2 == 1).collect()
    };
    let fixed: &'static [u8] = Box::leak(Box::new(items));
    assert_eq!(ui.search_filtered_items(fixed, odd), vec![&1, &2, &3, &4]);
    ui.popup = Some(PopupState::Search { query: "odd".to_string() });
    assert_eq!(ui.search_filtered_items(fixed, odd), vec![&1, &3]);
}

#[test]
fn focus_goes_round() {
    let mut library = LibraryFocusState::Playlists;
    let mut search = SearchFocusState::Input;
    let mut artist = ArtistFocusState::TopTracks;
    library.next();
    search.previous();
    artist.next();
    assert_eq!(library, LibraryFocusState::SavedAlbums);
    assert_eq!(search, SearchFocusState::Episodes);
    assert_eq!(artist, ArtistFocusState::Albums);
    library.previous();
    search.next();
    artist.previous();
    assert_eq!(library, LibraryFocusState::Playlists);
    assert_eq!(search, SearchFocusState::Input);
    assert_eq!(artist, ArtistFocusState::TopTracks);
}

#[test]
fn downward_commands() {
    assert!(is_downward_command(&Command::SelectNextOrScrollDown));
    assert!(is_downward_command(&Command::PageSelectNextOrScrollDown));
    assert!(is_downward_command(&Command::SelectLastOrScrollToBottom));
    assert!(!is_downward_command(&Command::SelectPreviousOrScrollUp));
    assert!(!is_downward_command(&Command::SelectFirstOrScrollToTop));
}

#[test]
fn events_are_routed() {
    let mut ui = fresh();
    let mouse = MouseEvent { kind: MouseEventKind::Other, column: 1, row: 2 };
    assert_eq!(begin_event(TerminalEvent::Mouse(mouse), &mut ui), EventStep::Mouse(mouse));
    let key = press('x');
    assert_eq!(
        begin_event(TerminalEvent::Key { event: key, press: true }, &mut ui),
        EventStep::Key(key)
    );
    assert_eq!(
        begin_event(TerminalEvent::Key { event: key, press: false }, &mut ui),
        EventStep::Done
    );
    assert_eq!(begin_event(TerminalEvent::Other, &mut ui), EventStep::Done);
    assert_eq!(ui.orientation, Orientation::Horizontal);
    assert_eq!(
        begin_event(TerminalEvent::Resize(Orientation::Vertical), &mut ui),
        EventStep::Done
    );
    assert_eq!(ui.orientation, Orientation::Vertical);
}

#[test]
fn escape_closes_popup_then_page() {
    let mut ui = fresh();
    ui.new_page(PageState::Queue { scroll_offset: 0 });
    ui.popup = Some(PopupState::DeviceList(ListState::default()));
    ui.count_prefix = Some(4);
    ui.input_key_sequence = keys("g");
    assert!(matches!(begin_key_event(escape(), &keymap(), &mut ui), KeyStep::Consumed));
    assert!(ui.popup.is_none());
    assert_eq!(ui.history.len(), 2);
    assert_eq!(ui.count_prefix, None);
    assert!(ui.input_key_sequence.keys.is_empty());
    assert!(matches!(begin_key_event(escape(), &keymap(), &mut ui), KeyStep::Consumed));
    assert_eq!(ui.history.len(), 1);
    assert!(matches!(ui.current_page(), PageState::Library { .. }));
}

#[test]
fn escape_on_only_page_is_a_key() {
    let mut ui = fresh();
    let (keys, to_popup) = offered(begin_key_event(escape(), &keymap(), &mut ui));
    assert_eq!(keys, vec![Key::Plain(KeyCode::Esc)]);
    assert!(!to_popup);
    assert_eq!(ui.history.len(), 1);
}

#[test]
fn escape_with_modifier_is_a_key() {
    let mut ui = fresh();
    ui.popup = Some(PopupState::DeviceList(ListState::default()));
    let event = KeyEvent { code: KeyCode::Esc, plain: false, key: Key::Alt(KeyCode::Esc) };
    let (keys, to_popup) = offered(begin_key_event(event, &keymap(), &mut ui));
    assert_eq!(keys, vec![Key::Alt(KeyCode::Esc)]);
    assert!(to_popup);
    assert!(ui.popup.is_some());
}

#[test]
fn keys_wait_for_the_rest_of_a_binding() {
    let mut ui = fresh();
    assert_eq!(type_key('g', &mut ui), keys("g").keys);
    assert_eq!(ui.input_key_sequence.keys, keys("g").keys);
    assert_eq!(type_key('g', &mut ui), keys("gg").keys);
    assert_eq!(type_key('x', &mut ui), keys("x").keys);
    assert_eq!(ui.input_key_sequence.keys, keys("x").keys);
}

#[test]
fn first_binding_counts() {
    let keymap = keymap();
    assert_eq!(
        keymap.find_command_or_action_from_key_sequence(&keys("q")),
        Some(CommandOrAction::Command(Command::Quit))
    );
    assert_eq!(keymap.find_command_or_action_from_key_sequence(&keys("g")), None);
    assert!(keymap.has_matched_prefix(&keys("g")));
    assert!(keymap.has_matched_prefix(&keys("")));
    assert!(!keymap.has_matched_prefix(&keys("ggg")));
}

#[test]
fn digits_make_a_count() {
    let mut ui = fresh();
    type_key('0', &mut ui);
    assert_eq!(ui.count_prefix, None);
    for (c, count) in [('1', 1), ('0', 10), ('7', 107)] {
        type_key(c, &mut ui);
        assert_eq!(ui.count_prefix, Some(count));
        assert!(ui.input_key_sequence.keys.is_empty());
    }
    type_key('x', &mut ui);
    assert_eq!(ui.count_prefix, None);
}

#[test]
fn handled_keys_are_forgotten() {
    let mut ui = fresh();
    ui.count_prefix = Some(3);
    ui.input_key_sequence = keys("g");
    ui.pending_client_requests = vec![PendingClientRequest::SearchMore {
        query: "x".to_string(),
        category: SearchResultCategory::Albums,
    }];
    let pending = finish_key_event(press('5').key, keys("g5"), true, &mut ui);
    assert_eq!(ui.count_prefix, None);
    assert!(ui.input_key_sequence.keys.is_empty());
    assert_eq!(pending.len(), 1);
    assert!(ui.pending_client_requests.is_empty());
}

#[test]
fn only_plain_digits_count() {
    let mut ui = fresh();
    let _ = finish_key_event(Key::Ctrl(KeyCode::Char('5')), keys("5"), false, &mut ui);
    assert_eq!(ui.count_prefix, None);
    let _ = finish_key_event(Key::Plain(KeyCode::Char('\u{0665}')), keys("5"), false, &mut ui);
    assert_eq!(ui.count_prefix, None);
}

#[test]
fn count_has_room_up_to_the_largest_number() {
    let digit = |c| Key::Plain(KeyCode::Char(c));
    let tens = usize::MAX / 10;
    let last = char::from_digit((usize::MAX % 10) as u32, 10).unwrap();
    assert!(has_room_for(Some(tens), digit(last)));
    assert!(!has_room_for(Some(tens), digit('9')));
    assert!(!has_room_for(Some(tens + 1), digit('0')));
    assert!(has_room_for(Some(tens + 1), digit('x')));
    assert!(has_room_for(None, digit('9')));
}

#[test]
fn loop_ends_at_read_error_only() {
    let mut ui = fresh();
    let key = press('x');
    let read = Some(TerminalEvent::Key { event: key, press: true });
    assert_eq!(after_read(read, &mut ui), EventStep::Key(key));
    assert_eq!(after_read(Some(TerminalEvent::Other), &mut ui), EventStep::Done);
    assert_eq!(after_handled(true), EventStep::Done);
    assert_eq!(after_handled(false), EventStep::Done);
    assert_eq!(after_read(None, &mut ui), EventStep::Stop);
}

#[test]
fn errors_have_messages() {
    assert_eq!(
        HandlerError::UnsupportedLinkType("show".to_string()).message(),
        "unsupported Spotify type show!"
    );
    assert_eq!(HandlerError::ClientClosed.message(), "sending on a closed channel");
    assert_eq!(
        HandlerError::ClientClosed.message(),
        flume::SendError(()).to_string()
    );
    assert_eq!(
        HandlerError::InvalidId.message(),
        rspotify::model::IdError::InvalidId.to_string()
    );
    let reason = || "why".to_string();
    assert_eq!(HandlerError::Clipboard(reason()).message(), "get clipboard's content: why");
    assert_eq!(HandlerError::Copy(reason()).message(), "why");
    assert_eq!(HandlerError::Window(reason()).message(), "why");
}
