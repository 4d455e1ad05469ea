//! What the handling of the mouse promises.

use vstd::prelude::*;

use crate::cache::live;
use crate::client::OutboxView;
use crate::client::RequestView;
use crate::command::Command;
use crate::error::ErrorView;
use crate::event::mouse::AfterWindow;
use crate::event::mouse::can_seek;
use crate::event::mouse::is_double_click;
use crate::event::mouse::mouse_outcome;
use crate::event::mouse::MouseEvent;
use crate::event::mouse::MouseEventKind;
use crate::event::mouse::MouseStep;
use crate::event::mouse::QueryMatches;
use crate::event::mouse::resumed;
use crate::event::mouse::search_lens;
use crate::event::mouse::seek_position;
use crate::event::mouse::Window;
use crate::event::mouse::WindowOutcome;
use crate::laws::change::hands_over;
use crate::laws::change::lemma_vec_fits;
use crate::laws::search::has_more;
use crate::layout::ListState;
use crate::layout::Rect;
use crate::model::AppData;
use crate::model::Context;
use crate::model::PlaylistFolderItem;
use crate::model::SearchEntry;
use crate::model::SearchResultCategory;
use crate::model::Track;
use crate::page::ArtistFocusState;
use crate::page::ContextPageUIState;
use crate::page::LibraryFocusState;
use crate::page::LibraryPageUIState;
use crate::page::PageView;
use crate::page::SearchFocusState;
use crate::page::SearchPageUIState;
use crate::player::PlayingItem;
use crate::popup::PopupView;
use crate::span::Span;
use crate::span::whole_millis;
use crate::ui::LibraryLayout;
use crate::ui::PendingView;
use crate::ui::SearchLayout;
use crate::ui::UIView;

verus! {

/// A cell lies in an area where its column and its row lie between the first and the end of those of
/// the area. The last column and the last row that can be numbered lie in no area.
pub proof fn law_area_holds_its_cells(area: Rect, column: u16, row: u16)
    ensures
        area.holds(column, row) <==> {
            &&& area.x <= column < area.x + area.width && column < 65535
            &&& area.y <= row < area.y + area.height && row < 65535
        },
{
}

/// Whether a list is as a click leaves it: an item under the mouse is selected, and the last one where
/// the mouse is below it. Elsewhere, or in an empty list, nothing is selected or moved. The first item
/// in view changes only to bring the selected one into view from above.
pub open spec fn is_hit(
    before: ListState,
    after: ListState,
    area: Rect,
    event: MouseEvent,
    len: nat,
) -> bool {
    if area.holds(event.column, event.row) && len > 0 {
        let under = before.offset + (event.row - area.y);
        &&& under < len ==> after.selected == Some(under as usize)
        &&& under >= len ==> after.selected == Some((len - 1) as usize)
        &&& after.selected->0 >= before.offset ==> after.offset == before.offset
        &&& after.selected->0 < before.offset ==> after.offset == after.selected->0
    } else {
        after == before
    }
}

/// The area in which the search page shows one kind of results.
pub open spec fn search_area(layout: SearchLayout, category: SearchResultCategory) -> Rect {
    match category {
        SearchResultCategory::Tracks => layout.tracks,
        SearchResultCategory::Albums => layout.albums,
        SearchResultCategory::Artists => layout.artists,
        SearchResultCategory::Playlists => layout.playlists,
        SearchResultCategory::Shows => layout.shows,
        SearchResultCategory::Episodes => layout.episodes,
    }
}

/// The list in which the search page shows one kind of results.
pub open spec fn search_list(state: SearchPageUIState, category: SearchResultCategory) -> ListState {
    match category {
        SearchResultCategory::Tracks => state.track_list,
        SearchResultCategory::Albums => state.album_list,
        SearchResultCategory::Artists => state.artist_list,
        SearchResultCategory::Playlists => state.playlist_list,
        SearchResultCategory::Shows => state.show_list,
        SearchResultCategory::Episodes => state.episode_list,
    }
}

/// The window in which the search page shows one kind of results.
pub open spec fn search_window(category: SearchResultCategory) -> SearchFocusState {
    match category {
        SearchResultCategory::Tracks => SearchFocusState::Tracks,
        SearchResultCategory::Albums => SearchFocusState::Albums,
        SearchResultCategory::Artists => SearchFocusState::Artists,
        SearchResultCategory::Playlists => SearchFocusState::Playlists,
        SearchResultCategory::Shows => SearchFocusState::Shows,
        SearchResultCategory::Episodes => SearchFocusState::Episodes,
    }
}

/// The place of one kind of results among the windows of the search page.
pub open spec fn search_place(category: SearchResultCategory) -> int {
    match category {
        SearchResultCategory::Tracks => 0,
        SearchResultCategory::Albums => 1,
        SearchResultCategory::Artists => 2,
        SearchResultCategory::Playlists => 3,
        SearchResultCategory::Shows => 4,
        SearchResultCategory::Episodes => 5,
    }
}

/// Whether the search popup is open.
pub open spec fn is_narrowed(ui: UIView) -> bool {
    ui.popup matches Some(PopupView::Search { .. })
}

/// How many results of one kind the search page shows: those that are known, or those of them that
/// match where the search popup is open.
pub open spec fn search_shown(
    ui: UIView,
    entry: Option<SearchEntry>,
    matches: QueryMatches,
    category: SearchResultCategory,
) -> nat {
    match entry {
        None => 0,
        Some(entry) => match category {
            SearchResultCategory::Tracks => if is_narrowed(ui) {
                matches.tracks as nat
            } else {
                entry.results.tracks@.len()
            },
            SearchResultCategory::Albums => if is_narrowed(ui) {
                matches.albums as nat
            } else {
                entry.results.albums@.len()
            },
            SearchResultCategory::Artists => if is_narrowed(ui) {
                matches.artists as nat
            } else {
                entry.results.artists@.len()
            },
            SearchResultCategory::Playlists => if is_narrowed(ui) {
                matches.playlists as nat
            } else {
                entry.results.playlists@.len()
            },
            SearchResultCategory::Shows => if is_narrowed(ui) {
                matches.shows as nat
            } else {
                entry.results.shows@.len()
            },
            SearchResultCategory::Episodes => if is_narrowed(ui) {
                matches.episodes as nat
            } else {
                entry.results.episodes@.len()
            },
        },
    }
}

/// Whether the area of one kind of results holds the cell under the mouse, and no area behind it in
/// the order of the windows does.
pub open spec fn is_top_search_area(
    layout: SearchLayout,
    event: MouseEvent,
    category: SearchResultCategory,
) -> bool {
    &&& search_area(layout, category).holds(event.column, event.row)
    &&& forall|other: SearchResultCategory|
        search_place(other) > search_place(category) ==> !(#[trigger] search_area(
            layout,
            other,
        )).holds(event.column, event.row)
}

/// Whether the area of one kind of results holds the cell under the mouse, and no area before it in
/// the order of the windows does.
pub open spec fn is_first_search_area(
    layout: SearchLayout,
    event: MouseEvent,
    category: SearchResultCategory,
) -> bool {
    &&& search_area(layout, category).holds(event.column, event.row)
    &&& forall|other: SearchResultCategory|
        search_place(other) < search_place(category) ==> !(#[trigger] search_area(
            layout,
            other,
        )).holds(event.column, event.row)
}

/// Whether the areas of all kinds of results leave the cell under the mouse out.
pub open spec fn no_search_area(layout: SearchLayout, event: MouseEvent) -> bool {
    forall|category: SearchResultCategory|
        !(#[trigger] search_area(layout, category)).holds(event.column, event.row)
}

/// Whether a click gets as far as the page: it is not on the row of the progress bar, nothing with a
/// duration is playing, or the client takes the request to seek.
pub open spec fn reaches_page(
    event: MouseEvent,
    playing: Option<PlayingItem>,
    ui: UIView,
    client: OutboxView,
) -> bool {
    &&& event.kind == MouseEventKind::LeftDown
    &&& ui.history.len() > 0
    &&& event.row != ui.playback_progress_bar_rect.y || length_of(playing) is None || client.room > 0
}

/// How long the item that is playing lasts.
pub open spec fn length_of(playing: Option<PlayingItem>) -> Option<Span> {
    match playing {
        Some(PlayingItem::Track(track)) => Some(track.duration),
        Some(PlayingItem::Episode(episode)) => Some(episode.duration),
        _ => None,
    }
}

/// The results of a search are counted by numbers of the machine.
proof fn lemma_results_fit(entry: Option<SearchEntry>)
    ensures
        entry matches Some(entry) ==> {
            &&& entry.results.tracks@.len() <= usize::MAX
            &&& entry.results.albums@.len() <= usize::MAX
            &&& entry.results.artists@.len() <= usize::MAX
            &&& entry.results.playlists@.len() <= usize::MAX
            &&& entry.results.shows@.len() <= usize::MAX
            &&& entry.results.episodes@.len() <= usize::MAX
        },
{
    if let Some(entry) = entry {
        lemma_vec_fits(entry.results.tracks);
        lemma_vec_fits(entry.results.albums);
        lemma_vec_fits(entry.results.artists);
        lemma_vec_fits(entry.results.playlists);
        lemma_vec_fits(entry.results.shows);
        lemma_vec_fits(entry.results.episodes);
    }
}

/// The six areas of the search page are those of the six kinds of results.
proof fn lemma_search_areas(layout: SearchLayout)
    ensures
        search_area(layout, SearchResultCategory::Tracks) == layout.tracks,
        search_area(layout, SearchResultCategory::Albums) == layout.albums,
        search_area(layout, SearchResultCategory::Artists) == layout.artists,
        search_area(layout, SearchResultCategory::Playlists) == layout.playlists,
        search_area(layout, SearchResultCategory::Shows) == layout.shows,
        search_area(layout, SearchResultCategory::Episodes) == layout.episodes,
{
}

/// The three areas of the library page are those of its three lists.
proof fn lemma_library_areas(layout: LibraryLayout)
    ensures
        library_area(layout, LibraryFocusState::Playlists) == layout.playlists,
        library_area(layout, LibraryFocusState::SavedAlbums) == layout.albums,
        library_area(layout, LibraryFocusState::FollowedArtists) == layout.artists,
{
}

/// A click is the second one of a double click where it follows the last one by half a second at most
/// and is on the same row, in whatever column.
pub proof fn law_double_click(last: Option<(u64, u16, u16)>, now: u64, row: u16)
    ensures
        is_double_click(last, now, row) <==> match last {
            Some((at, _, last_row)) => last_row == row && now <= at + 500_000_000,
            None => false,
        },
{
}

/// A click on the row of the progress bar asks for the place in what is playing that has the same
/// share of its length as the column has of the width of the bar, in whole milliseconds rounded down.
/// Anywhere else, and where nothing with a length is playing, a click sends nothing.
pub proof fn law_click_on_the_bar_seeks_in_proportion(
    event: MouseEvent,
    now: u64,
    playing: Option<PlayingItem>,
    data: AppData,
    matches: QueryMatches,
    ui: UIView,
    client: OutboxView,
)
    requires
        reaches_page(event, playing, ui, client),
        ui.playback_progress_bar_rect.width > 0,
        length_of(playing) matches Some(length) ==> length@ >= 0,
    ensures
        ({
            let o = mouse_outcome(event, now, playing, data, matches, ui, client);
            let bar = ui.playback_progress_bar_rect;
            if event.row == bar.y && length_of(playing) is Some {
                let ms = length_of(playing)->0@ / 1_000_000;
                &&& o.client.sent.len() == client.sent.len() + 1
                &&& o.client.sent.last() matches RequestView::Seek(nanos) && hands_over(
                    client,
                    o.client,
                    RequestView::Seek(nanos),
                ) && {
                    let at = nanos / 1_000_000;
                    &&& nanos == at * 1_000_000
                    &&& at * bar.width <= ms * event.column
                    &&& ms * event.column < (at + 1) * bar.width
                }
            } else {
                o.client == client
            }
        }),
{
    if let Some(length) = length_of(playing) {
        let bar = ui.playback_progress_bar_rect;
        let ms = length@ / 1_000_000;
        let w = bar.width as int;
        let product = ms * event.column;
        assert(product >= 0) by (nonlinear_arith)
            requires
                ms >= 0,
                event.column >= 0,
                product == ms * event.column,
        ;
        let at = seek_position(ms, event.column, bar.width);
        assert(at == product / w);
        assert(at * w <= product && product < (at + 1) * w) by (nonlinear_arith)
            requires
                w > 0,
                at == product / w,
        ;
    }
}

/// A click on the row of the bar while something with a length is playing can be turned into a position
/// where the bar has a width and the product of the milliseconds and the column is a number of the
/// machine; only the smallest such number over a bar of one cell is no position. Any other click needs
/// nothing.
pub proof fn law_clicks_that_can_seek(duration: Option<Span>, column: u16, row: u16, bar: Rect)
    ensures
        can_seek(duration, column, row, bar) <==> match duration {
            Some(length) => row != bar.y || {
                let product = whole_millis(length@) * column;
                &&& bar.width > 0
                &&& -0x8000_0000_0000_0000 <= product < 0x8000_0000_0000_0000
                &&& product != -0x8000_0000_0000_0000 || bar.width != 1
            },
            None => true,
        },
{
    if let Some(length) = duration {
        let product = whole_millis(length@) * column;
        let w = bar.width as int;
        if w > 0 && product < 0 {
            let a = -product;
            assert(a / w <= a && (w > 1 ==> a / w < a) && (w == 1 ==> a / w == a))
                by (nonlinear_arith)
                requires
                    a > 0,
                    w > 0,
            ;
        } else if w > 0 {
            assert(product / w >= 0) by (nonlinear_arith)
                requires
                    product >= 0,
                    w > 0,
            ;
        }
    }
}

/// Where the client does not take the request to seek, the click does nothing at all but say so.
pub proof fn law_refused_seek_stops_the_click(
    event: MouseEvent,
    now: u64,
    playing: Option<PlayingItem>,
    data: AppData,
    matches: QueryMatches,
    ui: UIView,
    client: OutboxView,
)
    requires
        event.kind == MouseEventKind::LeftDown,
        event.row == ui.playback_progress_bar_rect.y,
        length_of(playing) is Some,
        client.room == 0,
    ensures
        ({
            let o = mouse_outcome(event, now, playing, data, matches, ui, client);
            &&& o.result == Err::<MouseStep, ErrorView>(ErrorView::ClientClosed)
            &&& o.ui == ui
            &&& o.client == client
        }),
{
}

/// What a click makes of one list of the search page and of the focus.
proof fn lemma_search_lists(
    state: SearchPageUIState,
    ui: UIView,
    entry: Option<SearchEntry>,
    matches: QueryMatches,
    event: MouseEvent,
    category: SearchResultCategory,
)
    ensures
        ({
            let layout = ui.search_layout;
            let after = state.clicked(
                layout,
                event.column,
                event.row,
                search_lens(ui, entry, matches),
            );
            &&& is_hit(
                search_list(state, category),
                search_list(after, category),
                search_area(layout, category),
                event,
                search_shown(ui, entry, matches, category),
            )
            &&& is_top_search_area(layout, event, category) ==> after.focus == search_window(
                category,
            )
            &&& no_search_area(layout, event) && layout.input.holds(event.column, event.row)
                ==> after.focus == SearchFocusState::Input
        }),
{
    lemma_results_fit(entry);
    lemma_search_areas(ui.search_layout);
}

/// What a click makes of the search page.
proof fn lemma_search_page(
    event: MouseEvent,
    now: u64,
    playing: Option<PlayingItem>,
    data: AppData,
    matches: QueryMatches,
    ui: UIView,
    client: OutboxView,
)
    requires
        reaches_page(event, playing, ui, client),
        ui.history.last() is Search,
        ui.search_layout.valid,
        ui.search_layout.input.holds(event.column, event.row) || !no_search_area(
            ui.search_layout,
            event,
        ),
    ensures
        ({
            let o = mouse_outcome(event, now, playing, data, matches, ui, client);
            let query = ui.history.last()->Search_current_query;
            let entry = live(data.search@, query, now);
            &&& o.ui.history.len() == ui.history.len()
            &&& o.ui.history.drop_last() =~= ui.history.drop_last()
            &&& o.ui.history.last() == (PageView::Search {
                line_input: ui.history.last()->line_input,
                current_query: query,
                state: ui.history.last()->Search_state.clicked(
                    ui.search_layout,
                    event.column,
                    event.row,
                    search_lens(ui, entry, matches),
                ),
            })
        }),
{
    lemma_search_areas(ui.search_layout);
    let layout = ui.search_layout;
    if layout.clicked_list(event.column, event.row) is None {
        assert(no_search_area(layout, event));
    }
    let query = ui.history.last()->Search_current_query;
    let entry = live(data.search@, query, now);
    let clicked = UIView { last_mouse_click: Some((now, event.column, event.row)), ..ui };
    assert(search_lens(clicked, entry, matches) == search_lens(ui, entry, matches));
}

/// The lists of the search page after a click: in each list whose area holds the cell the item under
/// the mouse is selected, and the other lists stay as they are. The focus goes to the window of the
/// topmost area that holds the cell, or to the input where its area alone does. The query and what is
/// typed stay.
pub proof fn law_click_on_the_search_page(
    category: SearchResultCategory,
    event: MouseEvent,
    now: u64,
    playing: Option<PlayingItem>,
    data: AppData,
    matches: QueryMatches,
    ui: UIView,
    client: OutboxView,
)
    requires
        reaches_page(event, playing, ui, client),
        ui.history.last() is Search,
        ui.search_layout.valid,
        ui.search_layout.input.holds(event.column, event.row) || !no_search_area(
            ui.search_layout,
            event,
        ),
    ensures
        ({
            let o = mouse_outcome(event, now, playing, data, matches, ui, client);
            let layout = ui.search_layout;
            let state = ui.history.last()->Search_state;
            let query = ui.history.last()->Search_current_query;
            let entry = live(data.search@, query, now);
            &&& o.ui.history.drop_last() =~= ui.history.drop_last()
            &&& o.ui.history.last() matches PageView::Search {
                line_input,
                current_query,
                state: after,
            } && line_input == ui.history.last()->line_input && current_query == query && {
                &&& is_hit(
                    search_list(state, category),
                    search_list(after, category),
                    search_area(layout, category),
                    event,
                    search_shown(ui, entry, matches, category),
                )
                &&& is_top_search_area(layout, event, category) ==> after.focus == search_window(
                    category,
                )
                &&& no_search_area(layout, event) ==> after.focus == SearchFocusState::Input
            }
        }),
{
    let query = ui.history.last()->Search_current_query;
    let state = ui.history.last()->Search_state;
    lemma_search_page(event, now, playing, data, matches, ui, client);
    lemma_search_lists(state, ui, live(data.search@, query, now), matches, event, category);
}

/// What is left to do after a click on the search page: a double click on a list has the selected item
/// chosen in the window of that list; a single click, and any on the input alone, is done and takes
/// the count away.
pub proof fn law_double_click_on_the_search_page(
    category: SearchResultCategory,
    event: MouseEvent,
    now: u64,
    playing: Option<PlayingItem>,
    data: AppData,
    matches: QueryMatches,
    ui: UIView,
    client: OutboxView,
)
    requires
        reaches_page(event, playing, ui, client),
        ui.history.last() is Search,
        ui.search_layout.valid,
        ui.search_layout.input.holds(event.column, event.row) || !no_search_area(
            ui.search_layout,
            event,
        ),
    ensures
        ({
            let o = mouse_outcome(event, now, playing, data, matches, ui, client);
            let layout = ui.search_layout;
            let double = is_double_click(ui.last_mouse_click, now, event.row);
            &&& o.ui.last_mouse_click == Some((now, event.column, event.row))
            &&& double && is_top_search_area(layout, event, category) ==> o.result == Ok::<
                MouseStep,
                ErrorView,
            >(
                MouseStep::RunWindow {
                    window: Window::Search(category),
                    command: Command::ChooseSelected,
                    after: AfterWindow::ListClicked,
                },
            ) && o.ui.count_prefix == ui.count_prefix
            &&& !double || no_search_area(layout, event) ==> o.result == Ok::<MouseStep, ErrorView>(
                MouseStep::Done,
            ) && o.ui.count_prefix is None
        }),
{
    let layout = ui.search_layout;
    lemma_search_areas(layout);
}

/// A click on the search page queues at most one request for more results: of the list that was hit,
/// for the query of the page, and only where the item that was hit is one of the last five or the list
/// is not longer than that. There it does so if the search has more and they are not queued already.
pub proof fn law_click_near_the_end_asks_for_more(
    category: SearchResultCategory,
    event: MouseEvent,
    now: u64,
    playing: Option<PlayingItem>,
    data: AppData,
    matches: QueryMatches,
    ui: UIView,
    client: OutboxView,
)
    requires
        reaches_page(event, playing, ui, client),
        ui.history.last() is Search,
        ui.search_layout.valid,
        is_top_search_area(ui.search_layout, event, category),
    ensures
        ({
            let o = mouse_outcome(event, now, playing, data, matches, ui, client);
            let state = ui.history.last()->Search_state;
            let query = ui.history.last()->Search_current_query;
            let len = search_shown(ui, live(data.search@, query, now), matches, category);
            let under = search_list(state, category).offset + (event.row - search_area(
                ui.search_layout,
                category,
            ).y);
            let request = PendingView::SearchMore { query, category };
            &&& o.ui.pending == ui.pending || o.ui.pending == ui.pending.push(request)
            &&& o.ui.pending != ui.pending ==> len > 0 && under + 5 >= len && !ui.pending.contains(
                request,
            )
            &&& len == 0 || under + 5 < len ==> o.ui.pending == ui.pending
            &&& len > 0 && under + 5 >= len && has_more(data.search@, query, category, now)
                && !ui.pending.contains(request) ==> o.ui.pending == ui.pending.push(request)
        }),
{
    let layout = ui.search_layout;
    lemma_results_fit(live(data.search@, ui.history.last()->Search_current_query, now));
    lemma_search_areas(layout);
    let o = mouse_outcome(event, now, playing, data, matches, ui, client);
    if o.ui.pending.len() == ui.pending.len() + 1 {
        assert(o.ui.pending != ui.pending);
    }
}

/// Scrolling on the search page hands the command to a list whose area holds the cell under the mouse,
/// and puts the focus on the window of that list. Of several such areas the first one counts, so that
/// where areas do not overlap each of them leads to its own list. Nothing else changes.
pub proof fn law_scrolling_on_the_search_page(
    category: SearchResultCategory,
    event: MouseEvent,
    now: u64,
    playing: Option<PlayingItem>,
    data: AppData,
    matches: QueryMatches,
    ui: UIView,
    client: OutboxView,
)
    requires
        event.kind == MouseEventKind::ScrollDown || event.kind == MouseEventKind::ScrollUp,
        ui.history.len() > 0,
        ui.history.last() is Search,
    ensures
        ({
            let o = mouse_outcome(event, now, playing, data, matches, ui, client);
            let layout = ui.search_layout;
            let command = if event.kind == MouseEventKind::ScrollDown {
                Command::PageSelectNextOrScrollDown
            } else {
                Command::PageSelectPreviousOrScrollUp
            };
            &&& o.client == client
            &&& o.result matches Ok(MouseStep::RunWindow { window, command: given, after })
                ==> layout.valid && given == command && after == AfterWindow::SearchScrolled && (
            window matches Window::Search(hit) && search_area(layout, hit).holds(
                event.column,
                event.row,
            ) && (o.ui.history.last() matches PageView::Search { state, .. } && state.focus
                == search_window(hit)))
            &&& layout.valid && is_first_search_area(layout, event, category) ==> o.result == Ok::<
                MouseStep,
                ErrorView,
            >(
                MouseStep::RunWindow {
                    window: Window::Search(category),
                    command,
                    after: AfterWindow::SearchScrolled,
                },
            ) && o.ui == (UIView {
                history: ui.history.drop_last().push(
                    PageView::Search {
                        line_input: ui.history.last()->line_input,
                        current_query: ui.history.last()->Search_current_query,
                        state: SearchPageUIState {
                            focus: search_window(category),
                            ..ui.history.last()->Search_state
                        },
                    },
                ),
                ..ui
            })
            &&& !layout.valid || no_search_area(layout, event) ==> o.result == Ok::<
                MouseStep,
                ErrorView,
            >(MouseStep::Done) && o.ui == ui
        }),
{
    let layout = ui.search_layout;
    lemma_search_areas(layout);
    let o = mouse_outcome(event, now, playing, data, matches, ui, client);
    if let Ok(MouseStep::RunWindow { window: Window::Search(hit), .. }) = o.result {
        assert(o.ui.history =~= ui.history.drop_last().push(
            PageView::Search {
                line_input: ui.history.last()->line_input,
                current_query: ui.history.last()->Search_current_query,
                state: SearchPageUIState {
                    focus: search_window(hit),
                    ..ui.history.last()->Search_state
                },
            },
        ));
    }
}

/// The area in which the library page shows one of its lists.
pub open spec fn library_area(layout: LibraryLayout, window: LibraryFocusState) -> Rect {
    match window {
        LibraryFocusState::Playlists => layout.playlists,
        LibraryFocusState::SavedAlbums => layout.albums,
        LibraryFocusState::FollowedArtists => layout.artists,
    }
}

/// One of the lists of the library page.
pub open spec fn library_list(state: LibraryPageUIState, window: LibraryFocusState) -> ListState {
    match window {
        LibraryFocusState::Playlists => state.playlist_list,
        LibraryFocusState::SavedAlbums => state.saved_album_list,
        LibraryFocusState::FollowedArtists => state.followed_artist_list,
    }
}

/// The place of a list among the windows of the library page.
pub open spec fn library_place(window: LibraryFocusState) -> int {
    match window {
        LibraryFocusState::Playlists => 0,
        LibraryFocusState::SavedAlbums => 1,
        LibraryFocusState::FollowedArtists => 2,
    }
}

/// Whether a playlist or a folder belongs to the folder `folder_id`.
pub open spec fn belongs_to(item: PlaylistFolderItem, folder_id: usize) -> bool {
    match item {
        PlaylistFolderItem::Playlist(playlist) => playlist.current_folder_id == folder_id,
        PlaylistFolderItem::Folder(folder) => folder.current_id == folder_id,
    }
}

/// How many items a list of the library page shows: those of the user's library, the playlists of the
/// open folder alone, or those of them that match where the search popup is open.
pub open spec fn library_shown(
    ui: UIView,
    data: AppData,
    folder_id: usize,
    matches: QueryMatches,
    window: LibraryFocusState,
) -> nat {
    match window {
        LibraryFocusState::Playlists => if is_narrowed(ui) {
            matches.folder_items as nat
        } else {
            data.user_data.playlists@.filter(
                |item: PlaylistFolderItem| belongs_to(item, folder_id),
            ).len()
        },
        LibraryFocusState::SavedAlbums => if is_narrowed(ui) {
            matches.saved_albums as nat
        } else {
            data.user_data.saved_albums@.len()
        },
        LibraryFocusState::FollowedArtists => if is_narrowed(ui) {
            matches.followed_artists as nat
        } else {
            data.user_data.followed_artists@.len()
        },
    }
}

/// Whether the area of a list holds the cell under the mouse, and no area behind it in the order of
/// the windows does.
pub open spec fn is_top_library_area(
    layout: LibraryLayout,
    event: MouseEvent,
    window: LibraryFocusState,
) -> bool {
    &&& library_area(layout, window).holds(event.column, event.row)
    &&& forall|other: LibraryFocusState|
        library_place(other) > library_place(window) ==> !(#[trigger] library_area(
            layout,
            other,
        )).holds(event.column, event.row)
}

/// Whether the area of a list holds the cell under the mouse, and no area before it in the order of
/// the windows does.
pub open spec fn is_first_library_area(
    layout: LibraryLayout,
    event: MouseEvent,
    window: LibraryFocusState,
) -> bool {
    &&& library_area(layout, window).holds(event.column, event.row)
    &&& forall|other: LibraryFocusState|
        library_place(other) < library_place(window) ==> !(#[trigger] library_area(
            layout,
            other,
        )).holds(event.column, event.row)
}

/// Whether the areas of all the lists leave the cell under the mouse out.
pub open spec fn no_library_area(layout: LibraryLayout, event: MouseEvent) -> bool {
    forall|window: LibraryFocusState|
        !(#[trigger] library_area(layout, window)).holds(event.column, event.row)
}

/// The library page after a click: in each list whose area holds the cell the item under the mouse is
/// selected, and the other lists stay as they are. The focus goes to the topmost of them, and the
/// folder stays. A double click has the selected item chosen there; a single one is done and takes the
/// count away.
pub proof fn law_click_on_the_library_page(
    top: LibraryFocusState,
    window: LibraryFocusState,
    event: MouseEvent,
    now: u64,
    playing: Option<PlayingItem>,
    data: AppData,
    matches: QueryMatches,
    ui: UIView,
    client: OutboxView,
)
    requires
        reaches_page(event, playing, ui, client),
        ui.history.last() is Library,
        ui.library_layout.valid,
        is_top_library_area(ui.library_layout, event, top),
    ensures
        ({
            let o = mouse_outcome(event, now, playing, data, matches, ui, client);
            let layout = ui.library_layout;
            let state = ui.history.last()->Library_state;
            let double = is_double_click(ui.last_mouse_click, now, event.row);
            &&& o.ui.history.drop_last() =~= ui.history.drop_last()
            &&& o.ui.history.last() matches PageView::Library { state: after } && {
                &&& is_hit(
                    library_list(state, window),
                    library_list(after, window),
                    library_area(layout, window),
                    event,
                    library_shown(ui, data, state.playlist_folder_id, matches, window),
                )
                &&& after.focus == top
                &&& after.playlist_folder_id == state.playlist_folder_id
            }
            &&& o.ui.last_mouse_click == Some((now, event.column, event.row))
            &&& o.ui.pending == ui.pending
            &&& double ==> o.result == Ok::<MouseStep, ErrorView>(
                MouseStep::RunWindow {
                    window: Window::Library(top),
                    command: Command::ChooseSelected,
                    after: AfterWindow::ListClicked,
                },
            ) && o.ui.count_prefix == ui.count_prefix
            &&& !double ==> o.result == Ok::<MouseStep, ErrorView>(MouseStep::Done)
                && o.ui.count_prefix is None
        }),
{
    let layout = ui.library_layout;
    lemma_library_areas(layout);
    let folder_id = ui.history.last()->Library_state.playlist_folder_id;
    lemma_vec_fits(data.user_data.playlists);
    lemma_vec_fits(data.user_data.saved_albums);
    lemma_vec_fits(data.user_data.followed_artists);
    data.user_data.playlists@.lemma_filter_len(
        |item: PlaylistFolderItem| belongs_to(item, folder_id),
    );
    assert((|item: PlaylistFolderItem| item.in_folder(folder_id)) =~= (|item: PlaylistFolderItem|
        belongs_to(item, folder_id)));
}

/// Scrolling on the library page hands the command to a list whose area holds the cell under the mouse
/// and puts the focus there. Of several such areas the first one counts. Nothing else changes.
pub proof fn law_scrolling_on_the_library_page(
    window: LibraryFocusState,
    event: MouseEvent,
    now: u64,
    playing: Option<PlayingItem>,
    data: AppData,
    matches: QueryMatches,
    ui: UIView,
    client: OutboxView,
)
    requires
        event.kind == MouseEventKind::ScrollDown || event.kind == MouseEventKind::ScrollUp,
        ui.history.len() > 0,
        ui.history.last() is Library,
    ensures
        ({
            let o = mouse_outcome(event, now, playing, data, matches, ui, client);
            let layout = ui.library_layout;
            let command = if event.kind == MouseEventKind::ScrollDown {
                Command::PageSelectNextOrScrollDown
            } else {
                Command::PageSelectPreviousOrScrollUp
            };
            &&& o.client == client
            &&& layout.valid && is_first_library_area(layout, event, window) ==> o.result == Ok::<
                MouseStep,
                ErrorView,
            >(
                MouseStep::RunWindow {
                    window: Window::Library(window),
                    command,
                    after: AfterWindow::LibraryScrolled,
                },
            ) && o.ui == (UIView {
                history: ui.history.drop_last().push(
                    PageView::Library {
                        state: LibraryPageUIState {
                            focus: window,
                            ..ui.history.last()->Library_state
                        },
                    },
                ),
                ..ui
            })
            &&& !layout.valid || no_library_area(layout, event) ==> o.result == Ok::<
                MouseStep,
                ErrorView,
            >(MouseStep::Done) && o.ui == ui
        }),
{
    let layout = ui.library_layout;
    lemma_library_areas(layout);
    let o = mouse_outcome(event, now, playing, data, matches, ui, client);
    if let Ok(MouseStep::RunWindow { window: Window::Library(hit), .. }) = o.result {
        assert(o.ui.history =~= ui.history.drop_last().push(
            PageView::Library {
                state: LibraryPageUIState { focus: hit, ..ui.history.last()->Library_state },
            },
        ));
    }
}

/// The table in which a page shows the tracks of its context; the page of a show has none.
pub open spec fn track_table(state: ContextPageUIState) -> Option<ListState> {
    match state {
        ContextPageUIState::Playlist { track_table } => Some(track_table),
        ContextPageUIState::Album { track_table } => Some(track_table),
        ContextPageUIState::Artist { top_track_table, .. } => Some(top_track_table),
        ContextPageUIState::Tracks { track_table } => Some(track_table),
        ContextPageUIState::Show { .. } => None,
    }
}

/// The tracks that a page shows of a context, which is of the same kind as the page.
pub open spec fn tracks_on(state: ContextPageUIState, context: Context) -> Option<Seq<Track>> {
    match (state, context) {
        (ContextPageUIState::Playlist { .. }, Context::Playlist { tracks }) => Some(tracks@),
        (ContextPageUIState::Album { .. }, Context::Album { tracks }) => Some(tracks@),
        (ContextPageUIState::Artist { .. }, Context::Artist { top_tracks }) => Some(top_tracks@),
        (ContextPageUIState::Tracks { .. }, Context::Tracks { tracks }) => Some(tracks@),
        _ => None,
    }
}

/// The tracks that a page shows are counted by a number of the machine.
proof fn lemma_tracks_fit(state: ContextPageUIState, context: Option<Context>)
    ensures
        context matches Some(context) ==> (tracks_on(state, context) matches Some(tracks)
            ==> tracks.len() <= usize::MAX),
{
    match context {
        Some(Context::Playlist { tracks }) => lemma_vec_fits(tracks),
        Some(Context::Album { tracks }) => lemma_vec_fits(tracks),
        Some(Context::Artist { top_tracks }) => lemma_vec_fits(top_tracks),
        Some(Context::Tracks { tracks }) => lemma_vec_fits(tracks),
        _ => {},
    }
}

/// Whether one state of a context page differs from another at most in what is selected among the
/// tracks, and in the focus of an artist's page.
pub open spec fn same_but_for_tracks(a: ContextPageUIState, b: ContextPageUIState) -> bool {
    match (a, b) {
        (
            ContextPageUIState::Playlist { track_table: x },
            ContextPageUIState::Playlist { track_table: y },
        ) => x.offset == y.offset,
        (
            ContextPageUIState::Album { track_table: x },
            ContextPageUIState::Album { track_table: y },
        ) => x.offset == y.offset,
        (
            ContextPageUIState::Tracks { track_table: x },
            ContextPageUIState::Tracks { track_table: y },
        ) => x.offset == y.offset,
        (
            ContextPageUIState::Artist {
                top_track_table: x,
                album_table: albums_x,
                related_artist_list: artists_x,
                ..
            },
            ContextPageUIState::Artist {
                top_track_table: y,
                album_table: albums_y,
                related_artist_list: artists_y,
                focus,
            },
        ) => x.offset == y.offset && albums_x == albums_y && artists_x == artists_y && focus
            == ArtistFocusState::TopTracks,
        _ => false,
    }
}

/// A click on a row of the table of tracks, on the page of an album, a playlist, an artist or a list of
/// tracks, selects the track of that row: it is the selection of the page afterwards, counted from the
/// first track in view and the row below the header. On an artist's page the tracks get the focus. The
/// rest of the page stays, the count is taken away, and a double click has the track chosen.
pub proof fn law_click_selects_the_track_under_the_mouse(
    event: MouseEvent,
    now: u64,
    playing: Option<PlayingItem>,
    data: AppData,
    matches: QueryMatches,
    ui: UIView,
    client: OutboxView,
)
    requires
        reaches_page(event, playing, ui, client),
        ui.history.last() matches PageView::Context { id: Some(_), state: Some(_), .. },
        ui.context_track_table_rect is Some,
    ensures
        ({
            let o = mouse_outcome(event, now, playing, data, matches, ui, client);
            let table = ui.context_track_table_rect->0;
            let id = ui.history.last()->Context_id->0;
            let state = ui.history.last()->Context_state->0;
            let double = is_double_click(ui.last_mouse_click, now, event.row);
            let hit = match live(data.contexts@, id.uri(), now) {
                Some(context) => match tracks_on(state, context) {
                    Some(tracks) => {
                        let track = track_table(state)->0.offset + event.row - table.y - 1;
                        &&& table.holds(event.column, event.row)
                        &&& event.row > table.y
                        &&& track < (if is_narrowed(ui) {
                            matches.context_tracks as nat
                        } else {
                            tracks.len()
                        })
                    },
                    None => false,
                },
                None => false,
            };
            &&& o.ui.last_mouse_click == Some((now, event.column, event.row))
            &&& hit ==> {
                let track = track_table(state)->0.offset + event.row - table.y - 1;
                &&& o.ui.history.last().selection() == Some(track as usize)
                &&& o.ui.history.last() matches PageView::Context {
                    id: kept,
                    context_page_type,
                    state: Some(after),
                } && kept == Some(id) && context_page_type
                    == ui.history.last()->context_page_type && same_but_for_tracks(state, after)
                    && track_table(after)->0.selected == Some(track as usize)
                &&& o.ui.history.drop_last() =~= ui.history.drop_last()
                &&& o.ui.count_prefix is None
                &&& o.result == Ok::<MouseStep, ErrorView>(
                    if double {
                        MouseStep::RunWindow {
                            window: Window::Context,
                            command: Command::ChooseSelected,
                            after: AfterWindow::TrackClicked,
                        }
                    } else {
                        MouseStep::Done
                    },
                )
            }
            &&& !table.holds(event.column, event.row) || event.row == table.y || state is Show || live(
                data.contexts@,
                id.uri(),
                now,
            ) is None ==> {
                &&& o.result == Ok::<MouseStep, ErrorView>(MouseStep::Done)
                &&& o.ui == (UIView { last_mouse_click: o.ui.last_mouse_click, ..ui })
            }
        }),
{
    lemma_tracks_fit(
        ui.history.last()->Context_state->0,
        live(data.contexts@, ui.history.last()->Context_id->0.uri(), now),
    );
}

/// A click below the last track, or on a page of another kind than its context, changes nothing but the
/// time and the place of the last click.
pub proof fn law_click_beside_the_tracks(
    event: MouseEvent,
    now: u64,
    playing: Option<PlayingItem>,
    data: AppData,
    matches: QueryMatches,
    ui: UIView,
    client: OutboxView,
)
    requires
        reaches_page(event, playing, ui, client),
        ui.history.last() matches PageView::Context { id: Some(_), state: Some(_), .. },
        ui.context_track_table_rect is Some,
        event.row > ui.context_track_table_rect->0.y,
        ({
            let id = ui.history.last()->Context_id->0;
            let state = ui.history.last()->Context_state->0;
            let context = live(data.contexts@, id.uri(), now);
            context is Some && match tracks_on(state, context->0) {
                Some(tracks) => track_table(state)->0.offset + event.row
                    - ui.context_track_table_rect->0.y - 1 >= (if is_narrowed(ui) {
                    matches.context_tracks as nat
                } else {
                    tracks.len()
                }),
                None => true,
            }
        }),
    ensures
        ({
            let o = mouse_outcome(event, now, playing, data, matches, ui, client);
            &&& o.result == Ok::<MouseStep, ErrorView>(MouseStep::Done)
            &&& o.ui == (UIView {
                last_mouse_click: Some((now, event.column, event.row)),
                ..ui
            })
        }),
{
    lemma_tracks_fit(
        ui.history.last()->Context_state->0,
        live(data.contexts@, ui.history.last()->Context_id->0.uri(), now),
    );
}

/// A click on a page that shows neither lists nor tracks, or whose windows are not where the mouse is,
/// changes nothing but the time and the place of the last click.
pub proof fn law_click_on_nothing(
    event: MouseEvent,
    now: u64,
    playing: Option<PlayingItem>,
    data: AppData,
    matches: QueryMatches,
    ui: UIView,
    client: OutboxView,
)
    requires
        reaches_page(event, playing, ui, client),
        match ui.history.last() {
            PageView::Search { .. } => !ui.search_layout.valid || (!ui.search_layout.input.holds(
                event.column,
                event.row,
            ) && no_search_area(ui.search_layout, event)),
            PageView::Library { .. } => !ui.library_layout.valid || no_library_area(
                ui.library_layout,
                event,
            ),
            PageView::Context { id, state, .. } => id is None || state is None
                || ui.context_track_table_rect is None,
            _ => true,
        },
    ensures
        ({
            let o = mouse_outcome(event, now, playing, data, matches, ui, client);
            &&& o.result == Ok::<MouseStep, ErrorView>(MouseStep::Done)
            &&& o.ui == (UIView {
                last_mouse_click: Some((now, event.column, event.row)),
                ..ui
            })
        }),
{
    let search = ui.search_layout;
    let library = ui.library_layout;
    lemma_search_areas(search);
    lemma_library_areas(library);
}

/// Scrolling over the table of tracks of a context hands the command to the page of the context, and on
/// an artist's page puts the focus on the tracks first. Off the table, and on the page of a show, it
/// does nothing.
pub proof fn law_scrolling_over_the_tracks(
    event: MouseEvent,
    now: u64,
    playing: Option<PlayingItem>,
    data: AppData,
    matches: QueryMatches,
    ui: UIView,
    client: OutboxView,
)
    requires
        event.kind == MouseEventKind::ScrollDown || event.kind == MouseEventKind::ScrollUp,
        ui.history.len() > 0,
        ui.history.last() is Context,
    ensures
        ({
            let o = mouse_outcome(event, now, playing, data, matches, ui, client);
            let page = ui.history.last();
            let command = if event.kind == MouseEventKind::ScrollDown {
                Command::PageSelectNextOrScrollDown
            } else {
                Command::PageSelectPreviousOrScrollUp
            };
            let over = ui.context_track_table_rect matches Some(table) && table.holds(
                event.column,
                event.row,
            ) && (page->Context_state matches Some(state) && !(state is Show));
            &&& o.client == client
            &&& over ==> o.result == Ok::<MouseStep, ErrorView>(
                MouseStep::RunWindow {
                    window: Window::Context,
                    command,
                    after: AfterWindow::ContextScrolled,
                },
            )
            &&& over ==> o.ui == (UIView { history: o.ui.history, ..ui })
            &&& over ==> o.ui.history.drop_last() =~= ui.history.drop_last()
            &&& over ==> (o.ui.history.last() matches PageView::Context {
                id,
                context_page_type,
                state: Some(after),
            } && id == page->Context_id && context_page_type == page->context_page_type && (
            match page->Context_state->0 {
                ContextPageUIState::Artist {
                    top_track_table,
                    album_table,
                    related_artist_list,
                    focus,
                } => after == (ContextPageUIState::Artist {
                    top_track_table,
                    album_table,
                    related_artist_list,
                    focus: ArtistFocusState::TopTracks,
                }),
                state => after == state,
            }))
            &&& !over ==> o.result == Ok::<MouseStep, ErrorView>(MouseStep::Done) && o.ui == ui
        }),
{
}

/// What the mouse does otherwise changes nothing, and on pages without lists scrolling does not either.
pub proof fn law_other_mouse_events_change_nothing(
    event: MouseEvent,
    now: u64,
    playing: Option<PlayingItem>,
    data: AppData,
    matches: QueryMatches,
    ui: UIView,
    client: OutboxView,
)
    requires
        ui.history.len() > 0,
        event.kind == MouseEventKind::Other || (event.kind != MouseEventKind::LeftDown && !(
        ui.history.last() is Search) && !(ui.history.last() is Library) && !(
        ui.history.last() is Context)),
    ensures
        ({
            let o = mouse_outcome(event, now, playing, data, matches, ui, client);
            &&& o.result == Ok::<MouseStep, ErrorView>(MouseStep::Done)
            &&& o.ui == ui
            &&& o.client == client
        }),
{
}

/// Once a window has had its command, the event is done. The choice of a list takes the count away,
/// whatever came of it; that of a track changes nothing more. Scrolling that the window took takes the
/// count away, and one that failed is reported with its reason and changes nothing.
pub proof fn law_windows_end_the_event(
    event: MouseEvent,
    reason: String,
    outcome: WindowOutcome,
    after: AfterWindow,
    ui: UIView,
)
    ensures
        resumed(event, AfterWindow::ListClicked, outcome, ui) == (
            Ok::<MouseStep, ErrorView>(MouseStep::Done),
            UIView { count_prefix: None, ..ui },
        ),
        resumed(event, AfterWindow::TrackClicked, outcome, ui) == (
            Ok::<MouseStep, ErrorView>(MouseStep::Done),
            ui,
        ),
        after != AfterWindow::ListClicked && after != AfterWindow::TrackClicked ==> resumed(
            event,
            after,
            WindowOutcome::Handled,
            ui,
        ) == (Ok::<MouseStep, ErrorView>(MouseStep::Done), UIView { count_prefix: None, ..ui }),
        after != AfterWindow::ListClicked && after != AfterWindow::TrackClicked ==> resumed(
            event,
            after,
            WindowOutcome::Failed(reason),
            ui,
        ) == (Err::<MouseStep, ErrorView>(ErrorView::Window(reason@)), ui),
{
}

/// Scrolling that no window takes comes to nothing: where the current page is the one that it was
/// offered to, no other window gets it, and nothing changes.
pub proof fn law_untaken_scrolling_is_dropped(event: MouseEvent, after: AfterWindow, ui: UIView)
    requires
        ui.history.len() > 0,
        match after {
            AfterWindow::ContextScrolled => ui.history.last() is Context,
            AfterWindow::SearchScrolled => ui.history.last() is Search,
            AfterWindow::LibraryScrolled => true,
            _ => false,
        },
    ensures
        resumed(event, after, WindowOutcome::NotHandled, ui) == (
            Ok::<MouseStep, ErrorView>(MouseStep::Done),
            ui,
        ),
{
}

} // verus!
