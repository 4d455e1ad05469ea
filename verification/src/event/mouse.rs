//! The handling of mouse events.

use vstd::prelude::*;
use vstd::string::*;

use crate::cache::live;
use crate::client::ClientRequest;
use crate::client::Outbox;
use crate::client::OutboxView;
use crate::client::PlayerRequest;
use crate::client::RequestView;
use crate::command::Command;
use crate::error::ErrorView;
use crate::error::HandlerError;
use crate::event::search::maybe_queue_search_prefetch;
use crate::event::search::prefetching;
use crate::layout::Rect;
use crate::model::AppData;
use crate::model::Context;
use crate::model::SearchEntry;
use crate::model::SearchResultCategory;
use crate::model::Track;
use crate::page::ArtistFocusState;
use crate::page::ContextPageUIState;
use crate::page::LibraryFocusState;
use crate::page::LibraryPageUIState;
use crate::page::PageState;
use crate::page::PageView;
use crate::page::SearchFocusState;
use crate::page::SearchPageUIState;
use crate::player::duration_of;
use crate::player::playing_duration;
use crate::player::PlayingItem;
use crate::span::millis;
use crate::span::Span;
use crate::span::whole_millis;
use crate::ui::LibraryLayout;
use crate::ui::SearchLayout;
use crate::ui::UIState;
use crate::ui::UIView;

verus! {

/// What the mouse did.
#[derive(Debug, Clone, Copy, PartialEq, Eq, Structural)]
pub enum MouseEventKind {
    LeftDown,
    ScrollDown,
    ScrollUp,
    Other,
}

/// What the mouse did, and where.
#[derive(Debug, Clone, Copy, PartialEq, Eq, Structural)]
pub struct MouseEvent {
    pub kind: MouseEventKind,
    pub column: u16,
    pub row: u16,
}

/// A window that a command is handed to.
#[derive(Debug, Clone, Copy, PartialEq, Eq, Structural)]
pub enum Window {
    /// The list of one kind of results on the search page.
    Search(SearchResultCategory),
    /// A list of the library page.
    Library(LibraryFocusState),
    /// The window in focus on the page of a context.
    Context,
}

/// How the handling of the event goes on once the window has had its command.
#[derive(Debug, Clone, Copy, PartialEq, Eq, Structural)]
pub enum AfterWindow {
    /// The click was on a list of the search or the library page.
    ListClicked,
    /// The click was on a track of a context.
    TrackClicked,
    /// The scrolling was offered to the page of a context.
    ContextScrolled,
    /// The scrolling was offered to the search page.
    SearchScrolled,
    /// The scrolling was offered to the library page.
    LibraryScrolled,
}

/// What is left to do for a mouse event.
#[derive(Debug, Clone, Copy, PartialEq, Eq, Structural)]
pub enum MouseStep {
    Done,
    /// Hand the command to the window, then go on with `resume_mouse_event`.
    RunWindow { window: Window, command: Command, after: AfterWindow },
}

/// What a window made of a command.
#[derive(Debug)]
pub enum WindowOutcome {
    Handled,
    NotHandled,
    /// The window failed, for the reason given.
    Failed(String),
}

/// How many items the query of the search popup leaves of each list, as `count_matches` counts them.
#[derive(Debug, Clone, Copy, PartialEq, Eq, Structural)]
pub struct QueryMatches {
    pub tracks: usize,
    pub albums: usize,
    pub artists: usize,
    pub playlists: usize,
    pub shows: usize,
    pub episodes: usize,
    /// Of the playlists in the folder that the library page shows.
    pub folder_items: usize,
    pub saved_albums: usize,
    pub followed_artists: usize,
    /// Of the tracks of the context that the page shows.
    pub context_tracks: usize,
}

/// What a mouse event comes to.
pub struct MouseOutcome {
    pub result: Result<MouseStep, ErrorView>,
    pub ui: UIView,
    pub client: OutboxView,
}

/// What a result says.
pub open spec fn mouse_result_view(r: Result<MouseStep, HandlerError>) -> Result<
    MouseStep,
    ErrorView,
> {
    match r {
        Ok(step) => Ok(step),
        Err(e) => Err(e@),
    }
}

/// Where the tracks of a context come from.
#[derive(Debug, Clone, Copy, PartialEq, Eq, Structural)]
pub enum ContextTrackSource {
    Album,
    Playlist,
    Tracks,
    ArtistTopTracks,
}

impl ContextTrackSource {
    /// The window of an artist's page that the tracks are shown in.
    pub open spec fn focus(self) -> Option<ArtistFocusState> {
        match self {
            ContextTrackSource::ArtistTopTracks => Some(ArtistFocusState::TopTracks),
            _ => None,
        }
    }

    /// The window of an artist's page that the tracks are shown in.
    pub fn required_focus(self) -> (r: Option<ArtistFocusState>)
        ensures
            r == self.focus(),
    {
        match self {
            ContextTrackSource::ArtistTopTracks => Some(ArtistFocusState::TopTracks),
            _ => None,
        }
    }
}

/// The longest time between the clicks of a double click, in nanoseconds.
pub const DOUBLE_CLICK_NANOS: u64 = 500_000_000;

/// Whether a click on `row` at the time `now` is the second one of a double click: half a second
/// after the last click at most, and on the same row.
pub open spec fn is_double_click(last: Option<(u64, u16, u16)>, now: u64, row: u16) -> bool {
    last matches Some((at, _, last_row)) && now <= at + DOUBLE_CLICK_NANOS && last_row == row
}

/// Whether a click on `row` at the time `now` is the second one of a double click.
pub fn double_clicked(last: Option<(u64, u16, u16)>, now: u64, row: u16) -> (r: bool)
    ensures
        r == is_double_click(last, now, row),
{
    match last {
        Some((at, _, last_row)) => now.saturating_sub(at) <= DOUBLE_CLICK_NANOS && last_row == row,
        None => false,
    }
}

/// The quotient of `a` and `b`, rounded toward zero.
pub open spec fn quotient(a: int, b: int) -> int {
    if a >= 0 {
        a / b
    } else {
        -((-a) / b)
    }
}

/// The position in milliseconds that a click on `column` of a progress bar of `width` cells stands
/// for, in a track of `duration` milliseconds.
pub open spec fn seek_position(duration: int, column: u16, width: u16) -> int {
    quotient(duration * column, width as int)
}

/// Whether a click on the progress bar can be turned into a position: the bar has a width, the
/// product of the duration and the column is a number of the machine, and the position is one of
/// milliseconds, which the smallest number of the machine is not.
pub open spec fn can_seek(duration: Option<Span>, column: u16, row: u16, bar: Rect) -> bool {
    row == bar.y && duration is Some ==> {
        let product = whole_millis(duration->0@) * column;
        &&& bar.width > 0
        &&& i64::MIN <= product <= i64::MAX
        &&& quotient(product, bar.width as int) != i64::MIN
    }
}

/// The quotient of a product and a width is a number of the machine where the product is one.
proof fn lemma_quotient_in_range(product: int, width: int)
    requires
        i64::MIN <= product <= i64::MAX,
        width > 0,
    ensures
        i64::MIN <= quotient(product, width) <= i64::MAX,
{
    let a: int = if product >= 0 {
        product
    } else {
        -product
    };
    assert(0 <= a / width <= a) by (nonlinear_arith)
        requires
            a >= 0,
            width > 0,
    ;
}

/// The product of a number of the machine and a column.
fn product_of(ms: i64, column: u16) -> (r: i128)
    ensures
        r == ms * column,
{
    assert(-0x8000_0000_0000_0000 * 0xffff <= ms * column <= 0x8000_0000_0000_0000 * 0xffff)
        by (nonlinear_arith)
        requires
            -0x8000_0000_0000_0000 <= ms <= 0x8000_0000_0000_0000,
            0 <= column <= 0xffff,
    ;
    ms as i128 * column as i128
}

/// The quotient of a product and a width, rounded toward zero.
fn quotient_of(product: i128, width: u16) -> (r: i64)
    requires
        i64::MIN <= product <= i64::MAX,
        width > 0,
    ensures
        r == quotient(product as int, width as int),
{
    proof {
        lemma_quotient_in_range(product as int, width as int);
    }
    let width: i128 = width as i128;
    if product >= 0 {
        (product / width) as i64
    } else {
        (-((-product) / width)) as i64
    }
}

/// Whether a click on the progress bar can be turned into a position.
pub fn is_seekable(duration: Option<Span>, column: u16, row: u16, bar: Rect) -> (r: bool)
    ensures
        r == can_seek(duration, column, row, bar),
{
    if row == bar.y {
        if let Some(duration) = duration {
            let product: i128 = product_of(duration.num_milliseconds(), column);
            if bar.width == 0 || product < i64::MIN as i128 || product > i64::MAX as i128 {
                return false;
            }
            return quotient_of(product, bar.width) != i64::MIN;
        }
    }
    true
}

/// Sends the request to seek, where the click is on the progress bar and something is playing.
fn seek_to_click(
    duration: Option<Span>,
    column: u16,
    row: u16,
    bar: Rect,
    client_pub: &mut Outbox,
) -> (r: Result<(), HandlerError>)
    requires
        can_seek(duration, column, row, bar),
    ensures
        ({
            let c = old(client_pub)@;
            if row == bar.y && duration is Some {
                let position = seek_position(whole_millis(duration->0@), column, bar.width);
                if c.room > 0 {
                    r is Ok && final(client_pub)@ == c.with(RequestView::Seek(millis(position)))
                } else {
                    r == Err::<(), HandlerError>(HandlerError::ClientClosed) && final(client_pub)@
                        == c
                }
            } else {
                r is Ok && final(client_pub)@ == c
            }
        }),
{
    if row == bar.y {
        if let Some(duration) = duration {
            let product: i128 = product_of(duration.num_milliseconds(), column);
            let position: i64 = quotient_of(product, bar.width);
            let target = Span::from_millis(position).unwrap();
            client_pub.send(ClientRequest::Player(PlayerRequest::SeekTrack(target)))?;
        }
    }
    Ok(())
}

/// The number of items in each list of the search page.
#[derive(Debug, Clone, Copy, PartialEq, Eq, Structural)]
pub struct SearchLens {
    pub tracks: usize,
    pub albums: usize,
    pub artists: usize,
    pub playlists: usize,
    pub shows: usize,
    pub episodes: usize,
}

/// How many items a list of the search page shows: none before the results are there, and those
/// that match where the search popup is open.
pub open spec fn shown_results(
    ui: UIView,
    entry: Option<SearchEntry>,
    category: SearchResultCategory,
    matching: usize,
) -> usize {
    match entry {
        None => 0,
        Some(entry) => if ui.searching() {
            matching
        } else {
            entry.results.count(category) as usize
        },
    }
}

/// How many items the lists of the search page show.
pub open spec fn search_lens(
    ui: UIView,
    entry: Option<SearchEntry>,
    matches: QueryMatches,
) -> SearchLens {
    SearchLens {
        tracks: shown_results(ui, entry, SearchResultCategory::Tracks, matches.tracks),
        albums: shown_results(ui, entry, SearchResultCategory::Albums, matches.albums),
        artists: shown_results(ui, entry, SearchResultCategory::Artists, matches.artists),
        playlists: shown_results(ui, entry, SearchResultCategory::Playlists, matches.playlists),
        shows: shown_results(ui, entry, SearchResultCategory::Shows, matches.shows),
        episodes: shown_results(ui, entry, SearchResultCategory::Episodes, matches.episodes),
    }
}

impl SearchLens {
    /// How many items the list of one kind of results shows.
    pub open spec fn of(self, category: SearchResultCategory) -> usize {
        match category {
            SearchResultCategory::Tracks => self.tracks,
            SearchResultCategory::Albums => self.albums,
            SearchResultCategory::Artists => self.artists,
            SearchResultCategory::Playlists => self.playlists,
            SearchResultCategory::Shows => self.shows,
            SearchResultCategory::Episodes => self.episodes,
        }
    }

    fn get(&self, category: SearchResultCategory) -> (r: usize)
        ensures
            r == self.of(category),
    {
        match category {
            SearchResultCategory::Tracks => self.tracks,
            SearchResultCategory::Albums => self.albums,
            SearchResultCategory::Artists => self.artists,
            SearchResultCategory::Playlists => self.playlists,
            SearchResultCategory::Shows => self.shows,
            SearchResultCategory::Episodes => self.episodes,
        }
    }
}

/// How many items the lists of the search page show.
fn count_results(ui: &UIState, entry: Option<&SearchEntry>, matches: &QueryMatches) -> (r:
    SearchLens)
    ensures
        entry is None ==> r == search_lens(ui@, None, *matches),
        entry matches Some(entry) ==> r == search_lens(ui@, Some(*entry), *matches),
{
    match entry {
        Some(entry) => SearchLens {
            tracks: ui.shown(entry.results.tracks.len(), matches.tracks),
            albums: ui.shown(entry.results.albums.len(), matches.albums),
            artists: ui.shown(entry.results.artists.len(), matches.artists),
            playlists: ui.shown(entry.results.playlists.len(), matches.playlists),
            shows: ui.shown(entry.results.shows.len(), matches.shows),
            episodes: ui.shown(entry.results.episodes.len(), matches.episodes),
        },
        None => SearchLens {
            tracks: 0,
            albums: 0,
            artists: 0,
            playlists: 0,
            shows: 0,
            episodes: 0,
        },
    }
}

/// The window that shows one kind of results.
pub open spec fn search_focus(category: SearchResultCategory) -> SearchFocusState {
    match category {
        SearchResultCategory::Tracks => SearchFocusState::Tracks,
        SearchResultCategory::Albums => SearchFocusState::Albums,
        SearchResultCategory::Artists => SearchFocusState::Artists,
        SearchResultCategory::Playlists => SearchFocusState::Playlists,
        SearchResultCategory::Shows => SearchFocusState::Shows,
        SearchResultCategory::Episodes => SearchFocusState::Episodes,
    }
}

fn focus_of(category: SearchResultCategory) -> (r: SearchFocusState)
    ensures
        r == search_focus(category),
{
    match category {
        SearchResultCategory::Tracks => SearchFocusState::Tracks,
        SearchResultCategory::Albums => SearchFocusState::Albums,
        SearchResultCategory::Artists => SearchFocusState::Artists,
        SearchResultCategory::Playlists => SearchFocusState::Playlists,
        SearchResultCategory::Shows => SearchFocusState::Shows,
        SearchResultCategory::Episodes => SearchFocusState::Episodes,
    }
}

impl SearchLayout {
    /// The list at a cell. Where areas overlap, the later one counts.
    pub open spec fn clicked_list(self, column: u16, row: u16) -> Option<SearchResultCategory> {
        if self.episodes.holds(column, row) {
            Some(SearchResultCategory::Episodes)
        } else if self.shows.holds(column, row) {
            Some(SearchResultCategory::Shows)
        } else if self.playlists.holds(column, row) {
            Some(SearchResultCategory::Playlists)
        } else if self.artists.holds(column, row) {
            Some(SearchResultCategory::Artists)
        } else if self.albums.holds(column, row) {
            Some(SearchResultCategory::Albums)
        } else if self.tracks.holds(column, row) {
            Some(SearchResultCategory::Tracks)
        } else {
            None
        }
    }

    /// The list at a cell that scrolling goes to. Where areas overlap, the earlier one counts.
    pub open spec fn scrolled_list(self, column: u16, row: u16) -> Option<SearchResultCategory> {
        if self.tracks.holds(column, row) {
            Some(SearchResultCategory::Tracks)
        } else if self.albums.holds(column, row) {
            Some(SearchResultCategory::Albums)
        } else if self.artists.holds(column, row) {
            Some(SearchResultCategory::Artists)
        } else if self.playlists.holds(column, row) {
            Some(SearchResultCategory::Playlists)
        } else if self.shows.holds(column, row) {
            Some(SearchResultCategory::Shows)
        } else if self.episodes.holds(column, row) {
            Some(SearchResultCategory::Episodes)
        } else {
            None
        }
    }
}

impl SearchPageUIState {
    /// The page after a click: each list whose area holds the cell is clicked, and the focus goes
    /// to the window that was hit.
    pub open spec fn clicked(
        self,
        layout: SearchLayout,
        column: u16,
        row: u16,
        lens: SearchLens,
    ) -> SearchPageUIState {
        SearchPageUIState {
            track_list: self.track_list.clicked(layout.tracks, column, row, lens.tracks),
            album_list: self.album_list.clicked(layout.albums, column, row, lens.albums),
            artist_list: self.artist_list.clicked(layout.artists, column, row, lens.artists),
            playlist_list: self.playlist_list.clicked(
                layout.playlists,
                column,
                row,
                lens.playlists,
            ),
            show_list: self.show_list.clicked(layout.shows, column, row, lens.shows),
            episode_list: self.episode_list.clicked(layout.episodes, column, row, lens.episodes),
            focus: match layout.clicked_list(column, row) {
                Some(category) => search_focus(category),
                None => if layout.input.holds(column, row) {
                    SearchFocusState::Input
                } else {
                    self.focus
                },
            },
        }
    }

    /// Clicks on the page. Says whether a window was hit, and which list.
    fn click(&mut self, layout: SearchLayout, column: u16, row: u16, lens: SearchLens) -> (r: (
        bool,
        Option<SearchResultCategory>,
    ))
        ensures
            *final(self) == old(self).clicked(layout, column, row, lens),
            r.1 == layout.clicked_list(column, row),
            r.0 == (layout.input.holds(column, row) || r.1 is Some),
    {
        let mut handled: bool = false;
        let mut clicked: Option<SearchResultCategory> = None;
        if layout.input.contains(column, row) {
            self.focus = SearchFocusState::Input;
            handled = true;
        }
        self.track_list.click(layout.tracks, column, row, lens.tracks);
        if layout.tracks.contains(column, row) {
            clicked = Some(SearchResultCategory::Tracks);
        }
        self.album_list.click(layout.albums, column, row, lens.albums);
        if layout.albums.contains(column, row) {
            clicked = Some(SearchResultCategory::Albums);
        }
        self.artist_list.click(layout.artists, column, row, lens.artists);
        if layout.artists.contains(column, row) {
            clicked = Some(SearchResultCategory::Artists);
        }
        self.playlist_list.click(layout.playlists, column, row, lens.playlists);
        if layout.playlists.contains(column, row) {
            clicked = Some(SearchResultCategory::Playlists);
        }
        self.show_list.click(layout.shows, column, row, lens.shows);
        if layout.shows.contains(column, row) {
            clicked = Some(SearchResultCategory::Shows);
        }
        self.episode_list.click(layout.episodes, column, row, lens.episodes);
        if layout.episodes.contains(column, row) {
            clicked = Some(SearchResultCategory::Episodes);
        }
        if let Some(category) = clicked {
            self.focus = focus_of(category);
            handled = true;
        }
        (handled, clicked)
    }
}

/// The interface after a click that hit a window of the search page: the page is clicked, and more
/// results are queued where the click was near the end of a list.
pub open spec fn search_page_clicked(
    event: MouseEvent,
    now: u64,
    data: AppData,
    matches: QueryMatches,
    ui: UIView,
) -> UIView {
    match ui.page() {
        PageView::Search { line_input, current_query, state } => {
            let lens = search_lens(ui, live(data.search@, current_query, now), matches);
            let clicked = ui.with_page(
                PageView::Search {
                    line_input,
                    current_query,
                    state: state.clicked(ui.search_layout, event.column, event.row, lens),
                },
            );
            match ui.search_layout.clicked_list(event.column, event.row) {
                Some(category) => prefetching(
                    clicked,
                    data.search@,
                    now,
                    current_query,
                    category,
                    lens.of(category),
                ),
                None => clicked,
            }
        },
        _ => ui,
    }
}

/// Whether a click hits a window of the search page.
pub open spec fn hits_search_page(event: MouseEvent, ui: UIView) -> bool {
    &&& ui.page() is Search
    &&& ui.search_layout.valid
    &&& ui.search_layout.input.holds(event.column, event.row) || ui.search_layout.clicked_list(
        event.column,
        event.row,
    ) is Some
}

/// What is left after a click on a list, with the window that the item is chosen in on a double
/// click.
pub open spec fn after_list_click(
    ui: UIView,
    client: OutboxView,
    double: bool,
    window: Option<Window>,
) -> MouseOutcome {
    match window {
        Some(window) if double => MouseOutcome {
            result: Ok(
                MouseStep::RunWindow {
                    window,
                    command: Command::ChooseSelected,
                    after: AfterWindow::ListClicked,
                },
            ),
            ui,
            client,
        },
        _ => MouseOutcome { result: Ok(MouseStep::Done), ui: ui.with_count(None), client },
    }
}

/// What a click on the search page comes to.
pub open spec fn search_click_outcome(
    event: MouseEvent,
    now: u64,
    double: bool,
    data: AppData,
    matches: QueryMatches,
    ui: UIView,
    client: OutboxView,
) -> MouseOutcome {
    after_list_click(
        search_page_clicked(event, now, data, matches, ui),
        client,
        double,
        match ui.search_layout.clicked_list(event.column, event.row) {
            Some(category) => Some(Window::Search(category)),
            None => None,
        },
    )
}

/// Clicks on the search page, if it is shown and the click hits a window of it.
fn click_search_page(
    event: MouseEvent,
    now: u64,
    double: bool,
    data: &AppData,
    matches: &QueryMatches,
    ui: &mut UIState,
) -> (r: Option<MouseStep>)
    requires
        old(ui)@.has_page(),
    ensures
        final(ui)@.has_page(),
        r is Some <==> hits_search_page(event, old(ui)@),
        r is None ==> final(ui)@ == old(ui)@,
        r matches Some(step) ==> forall|client: OutboxView|
            #[trigger] search_click_outcome(event, now, double, *data, *matches, old(ui)@, client)
                == (MouseOutcome { result: Ok(step), ui: final(ui)@, client }),
{
    let query: String = match ui.current_page() {
        PageState::Search { current_query, .. } => current_query.clone(),
        _ => {
            return None;
        },
    };
    let layout = ui.search_layout;
    if !layout.valid {
        return None;
    }
    if !layout.input.contains(event.column, event.row) && !layout.tracks.contains(
        event.column,
        event.row,
    ) && !layout.albums.contains(event.column, event.row) && !layout.artists.contains(
        event.column,
        event.row,
    ) && !layout.playlists.contains(event.column, event.row) && !layout.shows.contains(
        event.column,
        event.row,
    ) && !layout.episodes.contains(event.column, event.row) {
        return None;
    }
    let lens = count_results(ui, data.search.get(query.as_str(), now), matches);
    let mut clicked: Option<SearchResultCategory> = None;
    if let PageState::Search { state, .. } = ui.current_page_mut() {
        let hit = state.click(layout, event.column, event.row, lens);
        clicked = hit.1;
    }
    if let Some(category) = clicked {
        maybe_queue_search_prefetch(
            ui,
            &data.search,
            now,
            query.as_str(),
            category,
            lens.get(category),
        );
        if double {
            return Some(
                MouseStep::RunWindow {
                    window: Window::Search(category),
                    command: Command::ChooseSelected,
                    after: AfterWindow::ListClicked,
                },
            );
        }
    }
    ui.count_prefix = None;
    Some(MouseStep::Done)
}

/// How many playlists and folders, albums and artists the lists of the library page show.
#[derive(Debug, Clone, Copy, PartialEq, Eq, Structural)]
pub struct LibraryLens {
    pub playlists: usize,
    pub albums: usize,
    pub artists: usize,
}

/// How many items are shown of `total`, where the query of the search popup leaves `matching`.
pub open spec fn shown_of(ui: UIView, total: nat, matching: usize) -> usize {
    if ui.searching() {
        matching
    } else {
        total as usize
    }
}

/// How many items the lists of the library page show while `folder_id` is the open folder.
pub open spec fn library_lens(
    ui: UIView,
    data: AppData,
    folder_id: usize,
    matches: QueryMatches,
) -> LibraryLens {
    LibraryLens {
        playlists: shown_of(ui, data.user_data.folder(folder_id).len(), matches.folder_items),
        albums: shown_of(ui, data.user_data.saved_albums@.len(), matches.saved_albums),
        artists: shown_of(ui, data.user_data.followed_artists@.len(), matches.followed_artists),
    }
}

/// How many items the lists of the library page show while `folder_id` is the open folder.
fn count_library(ui: &UIState, data: &AppData, folder_id: usize, matches: &QueryMatches) -> (r:
    LibraryLens)
    ensures
        r == library_lens(ui@, *data, folder_id, *matches),
{
    let items = data.user_data.folder_playlists_items(folder_id);
    LibraryLens {
        playlists: ui.shown(items.len(), matches.folder_items),
        albums: ui.shown(data.user_data.saved_albums.len(), matches.saved_albums),
        artists: ui.shown(data.user_data.followed_artists.len(), matches.followed_artists),
    }
}

impl LibraryLayout {
    /// The list at a cell. Where areas overlap, the later one counts.
    pub open spec fn clicked_list(self, column: u16, row: u16) -> Option<LibraryFocusState> {
        if self.artists.holds(column, row) {
            Some(LibraryFocusState::FollowedArtists)
        } else if self.albums.holds(column, row) {
            Some(LibraryFocusState::SavedAlbums)
        } else if self.playlists.holds(column, row) {
            Some(LibraryFocusState::Playlists)
        } else {
            None
        }
    }

    /// The list at a cell that scrolling goes to. Where areas overlap, the earlier one counts.
    pub open spec fn scrolled_list(self, column: u16, row: u16) -> Option<LibraryFocusState> {
        if self.playlists.holds(column, row) {
            Some(LibraryFocusState::Playlists)
        } else if self.albums.holds(column, row) {
            Some(LibraryFocusState::SavedAlbums)
        } else if self.artists.holds(column, row) {
            Some(LibraryFocusState::FollowedArtists)
        } else {
            None
        }
    }
}

impl LibraryPageUIState {
    /// The page after a click: each list whose area holds the cell is clicked, and the focus goes
    /// to the list that was hit.
    pub open spec fn clicked(
        self,
        layout: LibraryLayout,
        column: u16,
        row: u16,
        lens: LibraryLens,
    ) -> LibraryPageUIState {
        LibraryPageUIState {
            playlist_list: self.playlist_list.clicked(
                layout.playlists,
                column,
                row,
                lens.playlists,
            ),
            saved_album_list: self.saved_album_list.clicked(
                layout.albums,
                column,
                row,
                lens.albums,
            ),
            followed_artist_list: self.followed_artist_list.clicked(
                layout.artists,
                column,
                row,
                lens.artists,
            ),
            focus: match layout.clicked_list(column, row) {
                Some(focus) => focus,
                None => self.focus,
            },
            playlist_folder_id: self.playlist_folder_id,
        }
    }

    /// Clicks on the page and says which list was hit.
    fn click(&mut self, layout: LibraryLayout, column: u16, row: u16, lens: LibraryLens) -> (r:
        Option<LibraryFocusState>)
        ensures
            *final(self) == old(self).clicked(layout, column, row, lens),
            r == layout.clicked_list(column, row),
    {
        let mut clicked: Option<LibraryFocusState> = None;
        self.playlist_list.click(layout.playlists, column, row, lens.playlists);
        if layout.playlists.contains(column, row) {
            clicked = Some(LibraryFocusState::Playlists);
        }
        self.saved_album_list.click(layout.albums, column, row, lens.albums);
        if layout.albums.contains(column, row) {
            clicked = Some(LibraryFocusState::SavedAlbums);
        }
        self.followed_artist_list.click(layout.artists, column, row, lens.artists);
        if layout.artists.contains(column, row) {
            clicked = Some(LibraryFocusState::FollowedArtists);
        }
        if let Some(focus) = clicked {
            self.focus = focus;
        }
        clicked
    }
}

/// Whether a click hits a list of the library page.
pub open spec fn hits_library_page(event: MouseEvent, ui: UIView) -> bool {
    &&& ui.page() is Library
    &&& ui.library_layout.valid
    &&& ui.library_layout.clicked_list(event.column, event.row) is Some
}

/// The interface after a click that hit a list of the library page.
pub open spec fn library_page_clicked(
    event: MouseEvent,
    data: AppData,
    matches: QueryMatches,
    ui: UIView,
) -> UIView {
    match ui.page() {
        PageView::Library { state } => {
            let lens = library_lens(ui, data, state.playlist_folder_id, matches);
            ui.with_page(
                PageView::Library {
                    state: state.clicked(ui.library_layout, event.column, event.row, lens),
                },
            )
        },
        _ => ui,
    }
}

/// What a click on the library page comes to.
pub open spec fn library_click_outcome(
    event: MouseEvent,
    double: bool,
    data: AppData,
    matches: QueryMatches,
    ui: UIView,
    client: OutboxView,
) -> MouseOutcome {
    after_list_click(
        library_page_clicked(event, data, matches, ui),
        client,
        double,
        match ui.library_layout.clicked_list(event.column, event.row) {
            Some(focus) => Some(Window::Library(focus)),
            None => None,
        },
    )
}

/// Clicks on the library page, if it is shown and the click hits a list of it.
fn click_library_page(
    event: MouseEvent,
    double: bool,
    data: &AppData,
    matches: &QueryMatches,
    ui: &mut UIState,
) -> (r: Option<MouseStep>)
    requires
        old(ui)@.has_page(),
    ensures
        final(ui)@.has_page(),
        r is Some <==> hits_library_page(event, old(ui)@),
        r is None ==> final(ui)@ == old(ui)@,
        r matches Some(step) ==> forall|client: OutboxView|
            #[trigger] library_click_outcome(event, double, *data, *matches, old(ui)@, client) == (
            MouseOutcome { result: Ok(step), ui: final(ui)@, client }),
{
    let folder_id: usize = match ui.current_page() {
        PageState::Library { state } => state.playlist_folder_id,
        _ => {
            return None;
        },
    };
    let layout = ui.library_layout;
    if !layout.valid {
        return None;
    }
    if !layout.playlists.contains(event.column, event.row) && !layout.albums.contains(
        event.column,
        event.row,
    ) && !layout.artists.contains(event.column, event.row) {
        return None;
    }
    let lens = count_library(ui, data, folder_id, matches);
    let mut clicked: Option<LibraryFocusState> = None;
    if let PageState::Library { state } = ui.current_page_mut() {
        clicked = state.click(layout, event.column, event.row, lens);
    }
    if let Some(focus) = clicked {
        if double {
            return Some(
                MouseStep::RunWindow {
                    window: Window::Library(focus),
                    command: Command::ChooseSelected,
                    after: AfterWindow::ListClicked,
                },
            );
        }
    }
    ui.count_prefix = None;
    Some(MouseStep::Done)
}

impl ContextPageUIState {
    /// Where the tracks of the page come from, and the first track in view. The page of a show has
    /// no tracks.
    pub open spec fn source(self) -> Option<(ContextTrackSource, usize)> {
        match self {
            ContextPageUIState::Album { track_table } => Some(
                (ContextTrackSource::Album, track_table.offset),
            ),
            ContextPageUIState::Playlist { track_table } => Some(
                (ContextTrackSource::Playlist, track_table.offset),
            ),
            ContextPageUIState::Tracks { track_table } => Some(
                (ContextTrackSource::Tracks, track_table.offset),
            ),
            ContextPageUIState::Artist { top_track_table, .. } => Some(
                (ContextTrackSource::ArtistTopTracks, top_track_table.offset),
            ),
            ContextPageUIState::Show { .. } => None,
        }
    }

    /// The page with the track `i` selected, in the window that shows the tracks.
    pub open spec fn selecting_track(self, i: usize) -> ContextPageUIState {
        match self {
            ContextPageUIState::Album { track_table } => ContextPageUIState::Album {
                track_table: track_table.selecting(i),
            },
            ContextPageUIState::Playlist { track_table } => ContextPageUIState::Playlist {
                track_table: track_table.selecting(i),
            },
            ContextPageUIState::Tracks { track_table } => ContextPageUIState::Tracks {
                track_table: track_table.selecting(i),
            },
            ContextPageUIState::Artist {
                top_track_table,
                album_table,
                related_artist_list,
                focus,
            } => ContextPageUIState::Artist {
                top_track_table: top_track_table.selecting(i),
                album_table,
                related_artist_list,
                focus: ArtistFocusState::TopTracks,
            },
            ContextPageUIState::Show { .. } => self,
        }
    }

    /// The page with the window in focus that shows the tracks.
    pub open spec fn focusing_tracks(self) -> ContextPageUIState {
        match self {
            ContextPageUIState::Artist {
                top_track_table,
                album_table,
                related_artist_list,
                focus,
            } => ContextPageUIState::Artist {
                top_track_table,
                album_table,
                related_artist_list,
                focus: ArtistFocusState::TopTracks,
            },
            _ => self,
        }
    }

    pub(crate) fn track_source(&self) -> (r: Option<(ContextTrackSource, usize)>)
        ensures
            r == self.source(),
    {
        match self {
            ContextPageUIState::Album { track_table } => Some(
                (ContextTrackSource::Album, track_table.offset),
            ),
            ContextPageUIState::Playlist { track_table } => Some(
                (ContextTrackSource::Playlist, track_table.offset),
            ),
            ContextPageUIState::Tracks { track_table } => Some(
                (ContextTrackSource::Tracks, track_table.offset),
            ),
            ContextPageUIState::Artist { top_track_table, .. } => Some(
                (ContextTrackSource::ArtistTopTracks, top_track_table.offset),
            ),
            ContextPageUIState::Show { .. } => None,
        }
    }

    fn select_track(&mut self, i: usize)
        ensures
            *final(self) == old(self).selecting_track(i),
    {
        match self {
            ContextPageUIState::Album { track_table } => track_table.select(Some(i)),
            ContextPageUIState::Playlist { track_table } => track_table.select(Some(i)),
            ContextPageUIState::Tracks { track_table } => track_table.select(Some(i)),
            ContextPageUIState::Artist { top_track_table, focus, .. } => {
                *focus = ArtistFocusState::TopTracks;
                top_track_table.select(Some(i));
            },
            ContextPageUIState::Show { .. } => {},
        }
    }
}

impl Context {
    /// The tracks of the context, if it is of the kind that the page shows.
    pub open spec fn tracks_from(self, source: ContextTrackSource) -> Option<Seq<Track>> {
        match (source, self) {
            (ContextTrackSource::Album, Context::Album { tracks, .. }) => Some(tracks@),
            (ContextTrackSource::Playlist, Context::Playlist { tracks, .. }) => Some(tracks@),
            (ContextTrackSource::Tracks, Context::Tracks { tracks, .. }) => Some(tracks@),
            (ContextTrackSource::ArtistTopTracks, Context::Artist { top_tracks, .. }) => Some(
                top_tracks@,
            ),
            _ => None,
        }
    }

    /// The tracks of the context, if it is of the kind that the page shows.
    pub fn tracks_for(&self, source: ContextTrackSource) -> (r: Option<&Vec<Track>>)
        ensures
            self.tracks_from(source) is None ==> r is None,
            self.tracks_from(source) matches Some(tracks) ==> (r matches Some(found) && found@
                == tracks),
    {
        match (source, self) {
            (ContextTrackSource::Album, Context::Album { tracks, .. }) => Some(tracks),
            (ContextTrackSource::Playlist, Context::Playlist { tracks, .. }) => Some(tracks),
            (ContextTrackSource::Tracks, Context::Tracks { tracks, .. }) => Some(tracks),
            (ContextTrackSource::ArtistTopTracks, Context::Artist { top_tracks, .. }) => Some(
                top_tracks,
            ),
            _ => None,
        }
    }
}

/// The track that a click hits on the page of a context. The first row of the table is its header.
pub open spec fn clicked_track(
    event: MouseEvent,
    now: u64,
    data: AppData,
    matches: QueryMatches,
    ui: UIView,
) -> Option<usize> {
    match (ui.context_track_table_rect, ui.page()) {
        (Some(rect), PageView::Context { id: Some(id), state: Some(state), .. }) => {
            if rect.holds(event.column, event.row) && event.row > rect.y {
                match (state.source(), live(data.contexts@, id.uri(), now)) {
                    (Some((source, offset)), Some(context)) => {
                        let target = offset + (event.row - rect.y - 1);
                        match context.tracks_from(source) {
                            Some(tracks) if target < shown_of(
                                ui,
                                tracks.len(),
                                matches.context_tracks,
                            ) => Some(target as usize),
                            _ => None,
                        }
                    },
                    _ => None,
                }
            } else {
                None
            }
        },
        _ => None,
    }
}

/// The interface with the track `i` selected on the page of a context.
pub open spec fn selecting_context_track(ui: UIView, i: usize) -> UIView {
    match ui.page() {
        PageView::Context { id, context_page_type, state: Some(state) } => ui.with_page(
            PageView::Context {
                id,
                context_page_type,
                state: Some(state.selecting_track(i)),
            },
        ).with_count(None),
        _ => ui,
    }
}

/// What a click on the page of a context comes to.
pub open spec fn context_click_outcome(
    event: MouseEvent,
    now: u64,
    double: bool,
    data: AppData,
    matches: QueryMatches,
    ui: UIView,
    client: OutboxView,
) -> MouseOutcome {
    match clicked_track(event, now, data, matches, ui) {
        Some(i) => MouseOutcome {
            result: Ok(
                if double {
                    MouseStep::RunWindow {
                        window: Window::Context,
                        command: Command::ChooseSelected,
                        after: AfterWindow::TrackClicked,
                    }
                } else {
                    MouseStep::Done
                },
            ),
            ui: selecting_context_track(ui, i),
            client,
        },
        None => MouseOutcome { result: Ok(MouseStep::Done), ui, client },
    }
}

/// The track that a click hits on the page of a context.
fn find_clicked_track(
    event: MouseEvent,
    now: u64,
    data: &AppData,
    matches: &QueryMatches,
    ui: &UIState,
) -> (r: Option<usize>)
    requires
        ui@.has_page(),
    ensures
        r == clicked_track(event, now, *data, *matches, ui@),
{
    if let Some(rect) = ui.context_track_table_rect {
        if rect.contains(event.column, event.row) && event.row > rect.y {
            let row_in_view: usize = (event.row - rect.y - 1) as usize;
            if let PageState::Context { id: Some(id), state: Some(state), .. } = ui.current_page() {
                if let Some((source, offset)) = state.track_source() {
                    let uri = id.uri();
                    if let Some(context) = data.contexts.get(uri.as_str(), now) {
                        if let Some(tracks) = context.tracks_for(source) {
                            let target: usize = offset.saturating_add(row_in_view);
                            if target < ui.shown(tracks.len(), matches.context_tracks) {
                                return Some(target);
                            }
                        }
                    }
                }
            }
        }
    }
    None
}

/// Clicks on the page of a context, if it is shown and the click hits a track.
fn click_context_page(
    event: MouseEvent,
    now: u64,
    double: bool,
    data: &AppData,
    matches: &QueryMatches,
    ui: &mut UIState,
) -> (r: MouseStep)
    requires
        old(ui)@.has_page(),
    ensures
        final(ui)@.has_page(),
        forall|client: OutboxView|
            #[trigger] context_click_outcome(event, now, double, *data, *matches, old(ui)@, client)
                == (MouseOutcome { result: Ok(r), ui: final(ui)@, client }),
{
    if let Some(i) = find_clicked_track(event, now, data, matches, ui) {
        if let PageState::Context { state: Some(state), .. } = ui.current_page_mut() {
            state.select_track(i);
        }
        ui.count_prefix = None;
        if double {
            return MouseStep::RunWindow {
                window: Window::Context,
                command: Command::ChooseSelected,
                after: AfterWindow::TrackClicked,
            };
        }
    }
    MouseStep::Done
}

/// What a left click comes to: a click on the progress bar seeks first, then the click goes to the
/// page.
pub open spec fn left_click_outcome(
    event: MouseEvent,
    now: u64,
    duration: Option<Span>,
    data: AppData,
    matches: QueryMatches,
    ui: UIView,
    client: OutboxView,
) -> MouseOutcome {
    let bar = ui.playback_progress_bar_rect;
    let seeks = event.row == bar.y && duration is Some;
    if seeks && client.room == 0 {
        MouseOutcome { result: Err(ErrorView::ClientClosed), ui, client }
    } else {
        let sent = if seeks {
            client.with(
                RequestView::Seek(
                    millis(seek_position(whole_millis(duration->0@), event.column, bar.width)),
                ),
            )
        } else {
            client
        };
        let double = is_double_click(ui.last_mouse_click, now, event.row);
        page_click_outcome(
            event,
            now,
            double,
            data,
            matches,
            UIView { last_mouse_click: Some((now, event.column, event.row)), ..ui },
            sent,
        )
    }
}

/// What a left click on the page comes to.
pub open spec fn page_click_outcome(
    event: MouseEvent,
    now: u64,
    double: bool,
    data: AppData,
    matches: QueryMatches,
    ui: UIView,
    client: OutboxView,
) -> MouseOutcome {
    if hits_search_page(event, ui) {
        search_click_outcome(event, now, double, data, matches, ui, client)
    } else if hits_library_page(event, ui) {
        library_click_outcome(event, double, data, matches, ui, client)
    } else {
        context_click_outcome(event, now, double, data, matches, ui, client)
    }
}

/// The command that scrolling stands for.
pub open spec fn scroll_command(kind: MouseEventKind) -> Command {
    if kind == MouseEventKind::ScrollDown {
        Command::PageSelectNextOrScrollDown
    } else {
        Command::PageSelectPreviousOrScrollUp
    }
}

/// What scrolling on the library page comes to: the list under the mouse gets the focus and the
/// command.
pub open spec fn library_scroll(event: MouseEvent, ui: UIView) -> (MouseStep, UIView) {
    match ui.page() {
        PageView::Library { state } if ui.library_layout.valid => match ui.library_layout.scrolled_list(
            event.column,
            event.row,
        ) {
            Some(focus) => (
                MouseStep::RunWindow {
                    window: Window::Library(focus),
                    command: scroll_command(event.kind),
                    after: AfterWindow::LibraryScrolled,
                },
                ui.with_page(PageView::Library { state: LibraryPageUIState { focus, ..state } }),
            ),
            None => (MouseStep::Done, ui),
        },
        _ => (MouseStep::Done, ui),
    }
}

/// What scrolling on the search page comes to: the list under the mouse gets the focus and the
/// command. On another page the scrolling goes to the library page.
pub open spec fn search_scroll(event: MouseEvent, ui: UIView) -> (MouseStep, UIView) {
    match ui.page() {
        PageView::Search { line_input, current_query, state } if ui.search_layout.valid => {
            match ui.search_layout.scrolled_list(event.column, event.row) {
                Some(category) => (
                    MouseStep::RunWindow {
                        window: Window::Search(category),
                        command: scroll_command(event.kind),
                        after: AfterWindow::SearchScrolled,
                    },
                    ui.with_page(
                        PageView::Search {
                            line_input,
                            current_query,
                            state: SearchPageUIState { focus: search_focus(category), ..state },
                        },
                    ),
                ),
                None => library_scroll(event, ui),
            }
        },
        _ => library_scroll(event, ui),
    }
}

/// What scrolling comes to: over the tracks of a context their window gets the focus and the
/// command; elsewhere the scrolling goes to the search page.
pub open spec fn context_scroll(event: MouseEvent, ui: UIView) -> (MouseStep, UIView) {
    match (ui.context_track_table_rect, ui.page()) {
        (Some(rect), PageView::Context { id, context_page_type, state: Some(state) }) => {
            if rect.holds(event.column, event.row) && state.source() is Some {
                (
                    MouseStep::RunWindow {
                        window: Window::Context,
                        command: scroll_command(event.kind),
                        after: AfterWindow::ContextScrolled,
                    },
                    ui.with_page(
                        PageView::Context {
                            id,
                            context_page_type,
                            state: Some(state.focusing_tracks()),
                        },
                    ),
                )
            } else {
                search_scroll(event, ui)
            }
        },
        _ => search_scroll(event, ui),
    }
}

fn command_of_scroll(kind: MouseEventKind) -> (r: Command)
    ensures
        r == scroll_command(kind),
{
    if kind == MouseEventKind::ScrollDown {
        Command::PageSelectNextOrScrollDown
    } else {
        Command::PageSelectPreviousOrScrollUp
    }
}

fn scroll_library(event: MouseEvent, ui: &mut UIState) -> (r: MouseStep)
    requires
        old(ui)@.has_page(),
    ensures
        (r, final(ui)@) == library_scroll(event, old(ui)@),
{
    let layout = ui.library_layout;
    if layout.valid {
        let target: Option<LibraryFocusState> = if layout.playlists.contains(
            event.column,
            event.row,
        ) {
            Some(LibraryFocusState::Playlists)
        } else if layout.albums.contains(event.column, event.row) {
            Some(LibraryFocusState::SavedAlbums)
        } else if layout.artists.contains(event.column, event.row) {
            Some(LibraryFocusState::FollowedArtists)
        } else {
            None
        };
        if let Some(focus) = target {
            if let PageState::Library { state } = ui.current_page_mut() {
                state.focus = focus;
                return MouseStep::RunWindow {
                    window: Window::Library(focus),
                    command: command_of_scroll(event.kind),
                    after: AfterWindow::LibraryScrolled,
                };
            }
            assert(ui@.history =~= old(ui)@.history);
        }
    }
    MouseStep::Done
}

fn scroll_search(event: MouseEvent, ui: &mut UIState) -> (r: MouseStep)
    requires
        old(ui)@.has_page(),
    ensures
        (r, final(ui)@) == search_scroll(event, old(ui)@),
{
    let layout = ui.search_layout;
    if layout.valid {
        let target: Option<SearchResultCategory> = if layout.tracks.contains(
            event.column,
            event.row,
        ) {
            Some(SearchResultCategory::Tracks)
        } else if layout.albums.contains(event.column, event.row) {
            Some(SearchResultCategory::Albums)
        } else if layout.artists.contains(event.column, event.row) {
            Some(SearchResultCategory::Artists)
        } else if layout.playlists.contains(event.column, event.row) {
            Some(SearchResultCategory::Playlists)
        } else if layout.shows.contains(event.column, event.row) {
            Some(SearchResultCategory::Shows)
        } else if layout.episodes.contains(event.column, event.row) {
            Some(SearchResultCategory::Episodes)
        } else {
            None
        };
        if let Some(category) = target {
            if let PageState::Search { state, .. } = ui.current_page_mut() {
                state.focus = focus_of(category);
                return MouseStep::RunWindow {
                    window: Window::Search(category),
                    command: command_of_scroll(event.kind),
                    after: AfterWindow::SearchScrolled,
                };
            }
            assert(ui@.history =~= old(ui)@.history);
        }
    }
    scroll_library(event, ui)
}

fn scroll_context(event: MouseEvent, ui: &mut UIState) -> (r: MouseStep)
    requires
        old(ui)@.has_page(),
    ensures
        (r, final(ui)@) == context_scroll(event, old(ui)@),
{
    if let Some(rect) = ui.context_track_table_rect {
        if rect.contains(event.column, event.row) {
            if let PageState::Context { state: Some(state), .. } = ui.current_page_mut() {
                if let Some((source, _)) = state.track_source() {
                    if let Some(required) = source.required_focus() {
                        if let ContextPageUIState::Artist { focus, .. } = state {
                            *focus = required;
                        }
                    }
                    return MouseStep::RunWindow {
                        window: Window::Context,
                        command: command_of_scroll(event.kind),
                        after: AfterWindow::ContextScrolled,
                    };
                }
            }
            assert(ui@.history =~= old(ui)@.history);
        }
    }
    scroll_search(event, ui)
}

/// What a mouse event comes to, up to the first command for a window.
pub open spec fn mouse_outcome(
    event: MouseEvent,
    now: u64,
    playing: Option<PlayingItem>,
    data: AppData,
    matches: QueryMatches,
    ui: UIView,
    client: OutboxView,
) -> MouseOutcome {
    match event.kind {
        MouseEventKind::LeftDown => left_click_outcome(
            event,
            now,
            playing_duration(playing),
            data,
            matches,
            ui,
            client,
        ),
        MouseEventKind::ScrollDown | MouseEventKind::ScrollUp => {
            let (step, scrolled) = context_scroll(event, ui);
            MouseOutcome { result: Ok(step), ui: scrolled, client }
        },
        MouseEventKind::Other => MouseOutcome { result: Ok(MouseStep::Done), ui, client },
    }
}

/// Handles a mouse event up to the first command for a window. `now` is the reading of the
/// clock, `playing` what is playing.
pub fn handle_mouse_event(
    event: MouseEvent,
    now: u64,
    playing: &Option<PlayingItem>,
    data: &AppData,
    matches: &QueryMatches,
    client_pub: &mut Outbox,
    ui: &mut UIState,
) -> (r: Result<MouseStep, HandlerError>)
    requires
        old(ui)@.has_page(),
        event.kind == MouseEventKind::LeftDown ==> can_seek(
            playing_duration(*playing),
            event.column,
            event.row,
            old(ui)@.playback_progress_bar_rect,
        ),
    ensures
        ({
            let o = mouse_outcome(
                event,
                now,
                *playing,
                *data,
                *matches,
                old(ui)@,
                old(client_pub)@,
            );
            &&& mouse_result_view(r) == o.result
            &&& final(ui)@ == o.ui
            &&& final(client_pub)@ == o.client
        }),
{
    match event.kind {
        MouseEventKind::LeftDown => {
            let bar = ui.playback_progress_bar_rect;
            seek_to_click(duration_of(playing), event.column, event.row, bar, client_pub)?;
            let double = double_clicked(ui.last_mouse_click, now, event.row);
            ui.last_mouse_click = Some((now, event.column, event.row));
            if let Some(step) = click_search_page(event, now, double, data, matches, ui) {
                return Ok(step);
            }
            if let Some(step) = click_library_page(event, double, data, matches, ui) {
                return Ok(step);
            }
            Ok(click_context_page(event, now, double, data, matches, ui))
        },
        MouseEventKind::ScrollDown | MouseEventKind::ScrollUp => Ok(scroll_context(event, ui)),
        MouseEventKind::Other => Ok(MouseStep::Done),
    }
}

/// How the handling of a mouse event goes on once a window has had its command: a click is done,
/// and scrolling that the window did not take goes on to the next page.
pub open spec fn resumed(
    event: MouseEvent,
    after: AfterWindow,
    outcome: WindowOutcome,
    ui: UIView,
) -> (Result<MouseStep, ErrorView>, UIView) {
    match (after, outcome) {
        (AfterWindow::ListClicked, _) => (Ok(MouseStep::Done), ui.with_count(None)),
        (AfterWindow::TrackClicked, _) => (Ok(MouseStep::Done), ui),
        (_, WindowOutcome::Failed(reason)) => (Err(ErrorView::Window(reason@)), ui),
        (_, WindowOutcome::Handled) => (Ok(MouseStep::Done), ui.with_count(None)),
        (AfterWindow::ContextScrolled, WindowOutcome::NotHandled) => {
            let (step, scrolled) = search_scroll(event, ui);
            (Ok(step), scrolled)
        },
        (AfterWindow::SearchScrolled, WindowOutcome::NotHandled) => {
            let (step, scrolled) = library_scroll(event, ui);
            (Ok(step), scrolled)
        },
        (AfterWindow::LibraryScrolled, WindowOutcome::NotHandled) => (Ok(MouseStep::Done), ui),
    }
}

/// Goes on with a mouse event once a window has had its command.
pub fn resume_mouse_event(
    event: MouseEvent,
    after: AfterWindow,
    outcome: WindowOutcome,
    ui: &mut UIState,
) -> (r: Result<MouseStep, HandlerError>)
    requires
        old(ui)@.has_page(),
    ensures
        (mouse_result_view(r), final(ui)@) == resumed(event, after, outcome, old(ui)@),
{
    match after {
        AfterWindow::ListClicked => {
            ui.count_prefix = None;
            Ok(MouseStep::Done)
        },
        AfterWindow::TrackClicked => Ok(MouseStep::Done),
        _ => match outcome {
            WindowOutcome::Failed(reason) => Err(HandlerError::Window(reason)),
            WindowOutcome::Handled => {
                ui.count_prefix = None;
                Ok(MouseStep::Done)
            },
            WindowOutcome::NotHandled => match after {
                AfterWindow::ContextScrolled => Ok(scroll_search(event, ui)),
                AfterWindow::SearchScrolled => Ok(scroll_library(event, ui)),
                _ => Ok(MouseStep::Done),
            },
        },
    }
}

/// A click on the progress bar of what is playing seeks to a place in it: to its start at the
/// first column, to its end at most, and never back as the mouse moves right.
pub proof fn law_seek_stays_in_track(duration: int, column: u16, further: u16, width: u16)
    requires
        duration >= 0,
        column <= further <= width,
        width > 0,
    ensures
        seek_position(duration, 0, width) == 0,
        seek_position(duration, width, width) == duration,
        0 <= seek_position(duration, column, width) <= seek_position(duration, further, width)
            <= duration,
{
    let w = width as int;
    let c = column as int;
    let f = further as int;
    assert(duration * 0 == 0);
    assert(0int / w == 0) by (nonlinear_arith)
        requires
            w > 0,
    ;
    assert((duration * w) / w == duration) by (nonlinear_arith)
        requires
            w > 0,
    ;
    assert(0 <= duration * c <= duration * f <= duration * w) by (nonlinear_arith)
        requires
            duration >= 0,
            0 <= c <= f <= w,
    ;
    vstd::arithmetic::div_mod::lemma_div_is_ordered(0, duration * c, w);
    vstd::arithmetic::div_mod::lemma_div_is_ordered(duration * c, duration * f, w);
    vstd::arithmetic::div_mod::lemma_div_is_ordered(duration * f, duration * w, w);
}

/// Until a window gets a command, the mouse opens and closes no page, and leaves the pages behind
/// the current one, the popup and the keys as they are.
pub proof fn law_mouse_keeps_pages(
    event: MouseEvent,
    now: u64,
    playing: Option<PlayingItem>,
    data: AppData,
    matches: QueryMatches,
    ui: UIView,
    client: OutboxView,
)
    requires
        ui.has_page(),
    ensures
        ({
            let o = mouse_outcome(event, now, playing, data, matches, ui, client);
            &&& o.ui.history.len() == ui.history.len()
            &&& o.ui.history.drop_last() == ui.history.drop_last()
            &&& o.ui.popup == ui.popup
            &&& o.ui.keys == ui.keys
        }),
{
    let o = mouse_outcome(event, now, playing, data, matches, ui, client);
    assert(o.ui.history.drop_last() =~= ui.history.drop_last());
}

/// How many more windows a scroll can still be offered to.
pub open spec fn windows_left(step: MouseStep) -> nat {
    match step {
        MouseStep::Done => 0,
        MouseStep::RunWindow { after: AfterWindow::ContextScrolled, .. } => 3,
        MouseStep::RunWindow { after: AfterWindow::SearchScrolled, .. } => 2,
        MouseStep::RunWindow { .. } => 1,
    }
}

/// The handling of a mouse event comes to an end: each time that a window has had a command, fewer
/// windows are left.
pub proof fn law_mouse_event_ends(
    event: MouseEvent,
    window: Window,
    command: Command,
    after: AfterWindow,
    outcome: WindowOutcome,
    ui: UIView,
)
    ensures
        match resumed(event, after, outcome, ui).0 {
            Ok(next) => windows_left(next) < windows_left(
                MouseStep::RunWindow { window, command, after },
            ),
            Err(_) => true,
        },
{
}

/// The command that a window gets for a click chooses the selected item, and a click asks for that
/// only when it is a double click; the window gets its command at most once.
pub proof fn law_only_double_click_chooses(
    event: MouseEvent,
    now: u64,
    playing: Option<PlayingItem>,
    data: AppData,
    matches: QueryMatches,
    ui: UIView,
    client: OutboxView,
)
    requires
        event.kind == MouseEventKind::LeftDown,
    ensures
        mouse_outcome(event, now, playing, data, matches, ui, client).result matches Ok(
            MouseStep::RunWindow { command, after, .. },
        ) ==> {
            &&& is_double_click(ui.last_mouse_click, now, event.row)
            &&& command == Command::ChooseSelected
            &&& forall|outcome: WindowOutcome, later: UIView|
                (#[trigger] resumed(event, after, outcome, later)).0
                    == Ok::<MouseStep, ErrorView>(MouseStep::Done)
        },
{
}

/// Scrolling up and scrolling down go to the same window and focus it; only the command differs.
pub proof fn law_scroll_directions_share_target(column: u16, row: u16, ui: UIView)
    ensures
        ({
            let down = context_scroll(MouseEvent { kind: MouseEventKind::ScrollDown, column, row }, ui);
            let up = context_scroll(MouseEvent { kind: MouseEventKind::ScrollUp, column, row }, ui);
            &&& down.1 == up.1
            &&& match (down.0, up.0) {
                (
                    MouseStep::RunWindow { window: w1, command: c1, after: a1 },
                    MouseStep::RunWindow { window: w2, command: c2, after: a2 },
                ) => w1 == w2 && a1 == a2 && c1 == Command::PageSelectNextOrScrollDown && c2
                    == Command::PageSelectPreviousOrScrollUp,
                (MouseStep::Done, MouseStep::Done) => true,
                _ => false,
            }
        }),
{
}

} // verus!
