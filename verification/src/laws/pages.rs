//! What the pages of the interface promise.

use vstd::prelude::*;

use crate::client::OutboxView;
use crate::command::Command;
use crate::event::global::command_outcome;
use crate::event::global::CommandConfig;
use crate::ids::ContextIdView;
use crate::laws::change::is_done;
use crate::laws::mouse::library_list;
use crate::laws::mouse::search_list;
use crate::laws::mouse::search_window;
use crate::layout::ListState;
use crate::model::AppData;
use crate::model::SearchResultCategory;
use crate::page::ArtistFocusState;
use crate::page::BrowsePageUIState;
use crate::page::Category;
use crate::page::ContextPageTypeView;
use crate::page::ContextPageUIState;
use crate::page::LibraryFocusState;
use crate::page::LibraryPageUIState;
use crate::page::LineInputView;
use crate::page::PageView;
use crate::page::SearchFocusState;
use crate::page::SearchPageUIState;
use crate::player::PlayerState;
use crate::player::PlayingItem;
use crate::popup::PopupView;
use crate::ui::UIView;

verus! {

/// The windows of the library page in order.
pub open spec fn library_windows() -> Seq<LibraryFocusState> {
    seq![
        LibraryFocusState::Playlists,
        LibraryFocusState::SavedAlbums,
        LibraryFocusState::FollowedArtists,
    ]
}

/// The windows of the search page in order.
pub open spec fn search_windows() -> Seq<SearchFocusState> {
    seq![
        SearchFocusState::Input,
        SearchFocusState::Tracks,
        SearchFocusState::Albums,
        SearchFocusState::Artists,
        SearchFocusState::Playlists,
        SearchFocusState::Shows,
        SearchFocusState::Episodes,
    ]
}

/// The windows of an artist's page in order.
pub open spec fn artist_windows() -> Seq<ArtistFocusState> {
    seq![ArtistFocusState::TopTracks, ArtistFocusState::Albums, ArtistFocusState::RelatedArtists]
}

/// The focus goes through the windows of a page in order and from the last one to the first, one at a
/// time.
pub proof fn law_focus_goes_in_order(i: int)
    ensures
        0 <= i < 3 ==> library_windows()[i].after() == library_windows()[(i + 1) % 3],
        0 <= i < 3 ==> library_windows()[(i + 1) % 3].before() == library_windows()[i],
        0 <= i < 7 ==> search_windows()[i].after() == search_windows()[(i + 1) % 7],
        0 <= i < 7 ==> search_windows()[(i + 1) % 7].before() == search_windows()[i],
        0 <= i < 3 ==> artist_windows()[i].after() == artist_windows()[(i + 1) % 3],
        0 <= i < 3 ==> artist_windows()[(i + 1) % 3].before() == artist_windows()[i],
{
}

/// Moving the focus of a page moves the focus alone: what is selected in each window, what is typed and
/// what is shown stay. A page with one window stays as it is.
pub proof fn law_moving_the_focus_moves_nothing_else(page: PageView)
    ensures
        match page {
            PageView::Library { state } => {
                &&& page.after() == (PageView::Library {
                    state: LibraryPageUIState { focus: state.focus.after(), ..state },
                })
                &&& page.before() == (PageView::Library {
                    state: LibraryPageUIState { focus: state.focus.before(), ..state },
                })
            },
            PageView::Search { line_input, current_query, state } => {
                &&& page.after() == (PageView::Search {
                    line_input,
                    current_query,
                    state: SearchPageUIState { focus: state.focus.after(), ..state },
                })
                &&& page.before() == (PageView::Search {
                    line_input,
                    current_query,
                    state: SearchPageUIState { focus: state.focus.before(), ..state },
                })
            },
            PageView::Context {
                id,
                context_page_type,
                state: Some(
                    ContextPageUIState::Artist {
                        top_track_table,
                        album_table,
                        related_artist_list,
                        focus,
                    },
                ),
            } => {
                &&& page.after() == (PageView::Context {
                    id,
                    context_page_type,
                    state: Some(
                        ContextPageUIState::Artist {
                            top_track_table,
                            album_table,
                            related_artist_list,
                            focus: focus.after(),
                        },
                    ),
                })
                &&& page.before() == (PageView::Context {
                    id,
                    context_page_type,
                    state: Some(
                        ContextPageUIState::Artist {
                            top_track_table,
                            album_table,
                            related_artist_list,
                            focus: focus.before(),
                        },
                    ),
                })
            },
            _ => page.after() == page && page.before() == page,
        },
{
}

/// The commands that move the focus do so on the current page, unless a popup other than the search
/// popup is open; the pages behind it and the rest of the interface stay.
pub proof fn law_focus_commands(
    playing: Option<PlayingItem>,
    player: PlayerState,
    config: CommandConfig,
    data: AppData,
    now: u64,
    ui: UIView,
    client: OutboxView,
)
    requires
        ui.history.len() > 0,
    ensures
        ({
            let next = command_outcome(
                Command::FocusNextWindow,
                playing,
                player,
                config,
                data,
                now,
                ui,
                client,
            );
            let previous = command_outcome(
                Command::FocusPreviousWindow,
                playing,
                player,
                config,
                data,
                now,
                ui,
                client,
            );
            let page = ui.history[ui.history.len() - 1];
            &&& is_done(next) && next.client == client
            &&& is_done(previous) && previous.client == client
            &&& match ui.popup {
                Some(PopupView::Search { .. }) | None => {
                    &&& next.ui == (UIView { history: next.ui.history, ..ui })
                    &&& next.ui.history =~= ui.history.drop_last().push(page.after())
                    &&& previous.ui == (UIView { history: previous.ui.history, ..ui })
                    &&& previous.ui.history =~= ui.history.drop_last().push(page.before())
                },
                _ => next.ui == ui && previous.ui == ui,
            }
        }),
{
}

/// The selection of a page is that of the list in focus, wherever the other lists are.
pub proof fn law_selection_is_that_of_the_focus(
    library: LibraryPageUIState,
    search: SearchPageUIState,
    line_input: LineInputView,
    query: Seq<char>,
    category: SearchResultCategory,
    table: ListState,
    albums: ListState,
    artists: ListState,
    focus: ArtistFocusState,
    id: Option<ContextIdView>,
    kind: ContextPageTypeView,
    browsed: Category,
    offset: usize,
    text: Seq<char>,
)
    ensures
        (PageView::Library { state: library }).selection() == library_list(
            library,
            library.focus,
        ).selected,
        search.focus == search_window(category) ==> (PageView::Search {
            line_input,
            current_query: query,
            state: search,
        }).selection() == search_list(search, category).selected,
        search.focus == SearchFocusState::Input ==> (PageView::Search {
            line_input,
            current_query: query,
            state: search,
        }).selection() is None,
        (PageView::Context {
            id,
            context_page_type: kind,
            state: Some(ContextPageUIState::Playlist { track_table: table }),
        }).selection() == table.selected,
        (PageView::Context {
            id,
            context_page_type: kind,
            state: Some(ContextPageUIState::Album { track_table: table }),
        }).selection() == table.selected,
        (PageView::Context {
            id,
            context_page_type: kind,
            state: Some(ContextPageUIState::Tracks { track_table: table }),
        }).selection() == table.selected,
        (PageView::Context {
            id,
            context_page_type: kind,
            state: Some(ContextPageUIState::Show { episode_table: table }),
        }).selection() == table.selected,
        (PageView::Context {
            id,
            context_page_type: kind,
            state: Some(
                ContextPageUIState::Artist {
                    top_track_table: table,
                    album_table: albums,
                    related_artist_list: artists,
                    focus,
                },
            ),
        }).selection() == (match focus {
            ArtistFocusState::TopTracks => table,
            ArtistFocusState::Albums => albums,
            ArtistFocusState::RelatedArtists => artists,
        }).selected,
        (PageView::Context { id, context_page_type: kind, state: None }).selection() is None,
        (PageView::Browse {
            state: BrowsePageUIState::CategoryList { state: table },
        }).selection() == table.selected,
        (PageView::Browse {
            state: BrowsePageUIState::CategoryPlaylistList { category: browsed, state: table },
        }).selection() == table.selected,
        (PageView::Queue { scroll_offset: offset }).selection() == Some(offset),
        (PageView::CommandHelp { scroll_offset: offset }).selection() == Some(offset),
        (PageView::Lyrics { track_uri: query, track: text, artists: text }).selection() is None,
{
}

/// Selecting an item on the library or the search page changes what is selected in the list in focus and
/// nothing else: not the item that is first in view, nor the other lists, nor the focus.
pub proof fn law_selecting_changes_the_list_in_focus(
    i: usize,
    library: LibraryPageUIState,
    window: LibraryFocusState,
    search: SearchPageUIState,
    category: SearchResultCategory,
    line_input: LineInputView,
    query: Seq<char>,
)
    ensures
        (PageView::Library { state: library }).selecting(i) matches PageView::Library { state: after }
            && after.focus == library.focus && after.playlist_folder_id
            == library.playlist_folder_id && library_list(after, window) == (if window
            == library.focus {
            ListState { offset: library_list(library, window).offset, selected: Some(i) }
        } else {
            library_list(library, window)
        }),
        (PageView::Search { line_input, current_query: query, state: search }).selecting(
            i,
        ) matches PageView::Search { line_input: typed, current_query: asked, state: after } && typed
            == line_input && asked == query && after.focus == search.focus && search_list(
            after,
            category,
        ) == (if search_window(category) == search.focus {
            ListState { offset: search_list(search, category).offset, selected: Some(i) }
        } else {
            search_list(search, category)
        }),
{
}

/// Selecting an item on the page of a context changes what is selected in its table, or in the window in
/// focus on an artist's page, and nothing else. A page without a list stays as it is, and a page of text
/// goes to that place.
pub proof fn law_selecting_on_other_pages(
    i: usize,
    id: Option<ContextIdView>,
    kind: ContextPageTypeView,
    table: ListState,
    albums: ListState,
    artists: ListState,
    focus: ArtistFocusState,
    offset: usize,
)
    ensures
        ({
            let at = ListState { offset: table.offset, selected: Some(i) };
            let page = |state: Option<ContextPageUIState>|
                PageView::Context { id, context_page_type: kind, state };
            &&& page(Some(ContextPageUIState::Playlist { track_table: table })).selecting(i) == page(
                Some(ContextPageUIState::Playlist { track_table: at }),
            )
            &&& page(Some(ContextPageUIState::Album { track_table: table })).selecting(i) == page(
                Some(ContextPageUIState::Album { track_table: at }),
            )
            &&& page(Some(ContextPageUIState::Tracks { track_table: table })).selecting(i) == page(
                Some(ContextPageUIState::Tracks { track_table: at }),
            )
            &&& page(Some(ContextPageUIState::Show { episode_table: table })).selecting(i) == page(
                Some(ContextPageUIState::Show { episode_table: at }),
            )
            &&& page(
                Some(
                    ContextPageUIState::Artist {
                        top_track_table: table,
                        album_table: albums,
                        related_artist_list: artists,
                        focus,
                    },
                ),
            ).selecting(i) == page(
                Some(
                    ContextPageUIState::Artist {
                        top_track_table: if focus == ArtistFocusState::TopTracks {
                            at
                        } else {
                            table
                        },
                        album_table: if focus == ArtistFocusState::Albums {
                            ListState { offset: albums.offset, selected: Some(i) }
                        } else {
                            albums
                        },
                        related_artist_list: if focus == ArtistFocusState::RelatedArtists {
                            ListState { offset: artists.offset, selected: Some(i) }
                        } else {
                            artists
                        },
                        focus,
                    },
                ),
            )
            &&& page(None).selecting(i) == page(None)
            &&& (PageView::Queue { scroll_offset: offset }).selecting(i) == (PageView::Queue {
                scroll_offset: i,
            })
            &&& (PageView::CommandHelp { scroll_offset: offset }).selecting(i)
                == (PageView::CommandHelp { scroll_offset: i })
            &&& (PageView::Browse {
                state: BrowsePageUIState::CategoryList { state: table },
            }).selecting(i) == (PageView::Browse {
                state: BrowsePageUIState::CategoryList { state: at },
            })
        }),
{
}

/// A click on a list selects the item under the mouse, or the last one where the mouse is below it; an
/// empty list, and one that is not under the mouse, stay as they are.
pub proof fn law_click_on_a_list(
    list: ListState,
    area: crate::layout::Rect,
    column: u16,
    row: u16,
    len: usize,
)
    ensures
        ({
            let after = list.clicked(area, column, row, len);
            let under = list.offset + (row - area.y);
            if area.holds(column, row) && len > 0 {
                &&& after.selected == Some(
                    if under < len {
                        under as usize
                    } else {
                        (len - 1) as usize
                    },
                )
                &&& after.offset == (if after.selected->0 < list.offset {
                    after.selected->0
                } else {
                    list.offset
                })
            } else {
                after == list
            }
        }),
{
}

/// A search in the current page starts with an empty query and at the first item of the window in focus,
/// on every page that has something to select; the other pages and the rest of the interface stay.
pub proof fn law_search_starts_at_the_first_item(ui: UIView)
    requires
        ui.history.len() > 0,
    ensures
        ({
            let after = ui.starting_search();
            let page = ui.history[ui.history.len() - 1];
            let selects = match page {
                PageView::Lyrics { .. } => false,
                PageView::Context { state, .. } => state is Some,
                PageView::Search { state, .. } => state.focus != SearchFocusState::Input,
                _ => true,
            };
            &&& after.popup matches Some(PopupView::Search { query }) && query.len() == 0
            &&& after == (UIView { history: after.history, popup: after.popup, ..ui })
            &&& after.history.len() == ui.history.len()
            &&& after.history.drop_last() =~= ui.history.drop_last()
            &&& selects ==> after.history.last().selection() == Some(0usize)
            &&& !selects ==> after.history.last() == page
        }),
{
}

/// What is said of the interface at a glance: the page that is shown is the last one, the search popup
/// narrows the lists, and any other popup takes the keys.
pub proof fn law_state_of_the_interface(ui: UIView, page: PageView)
    requires
        ui.history.len() > 0,
    ensures
        ui.page() == ui.history[ui.history.len() - 1],
        ui.has_page(),
        ui.searching() <==> (ui.popup matches Some(PopupView::Search { .. })),
        ui.focused_popup() <==> ui.popup is Some && !ui.searching(),
        ui.with_page(page) == (UIView { history: ui.history.drop_last().push(page), ..ui }),
{
    assert(ui.with_page(page).history =~= ui.history.drop_last().push(page));
}

} // verus!
