//! How many items the query of the search popup leaves of the lists that a page shows.

use vstd::prelude::*;
use vstd::string::*;

use crate::cache::live;
use crate::event::mouse::library_lens;
use crate::event::mouse::QueryMatches;
use crate::event::mouse::search_lens;
use crate::event::mouse::shown_of;
use crate::model::Album;
use crate::model::AppData;
use crate::model::Artist;
use crate::model::Episode;
use crate::model::Playlist;
use crate::model::PlaylistFolderItem;
use crate::model::SearchEntry;
use crate::model::SearchResultCategory;
use crate::model::Show;
use crate::model::Track;
use crate::page::PageState;
use crate::page::PageView;
use crate::ui::UIState;
use crate::ui::UIView;

verus! {

/// Whether a filter can be given the query of the search popup, whatever the items are.
pub open spec fn takes_query<'a, T: 'a, F: Fn(&str, &'a [T]) -> Vec<&'a T>>(
    ui: UIView,
    filter: F,
) -> bool {
    ui.searching() ==> forall|query: &str, items: &'a [T]|
        query@ == ui.popup->0->Search_query ==> #[trigger] call_requires(filter, (query, items))
}

/// Whether `n` is the number of items that are left of `items`: of those that the filter gives for
/// the query of the search popup, or of all where that popup is not open.
pub open spec fn leaves<'a, T: 'a, F: Fn(&str, &'a [T]) -> Vec<&'a T>>(
    ui: UIView,
    filter: F,
    items: Seq<T>,
    n: usize,
) -> bool {
    if ui.searching() {
        exists|query: &str, given: &'a [T], left: Vec<&'a T>|
            {
                &&& query@ == ui.popup->0->Search_query
                &&& given@ == items
                &&& #[trigger] call_ensures(filter, (query, given), left)
                &&& n == left@.len()
            }
    } else {
        n == items.len()
    }
}

/// The number of items that are left of a list.
pub fn count_left<'a, T, F: Fn(&str, &'a [T]) -> Vec<&'a T>>(
    ui: &UIState,
    items: &'a [T],
    filter: F,
) -> (r: usize)
    requires
        takes_query(ui@, filter),
    ensures
        leaves(ui@, filter, items@, r),
{
    let left = ui.search_filtered_items(items, filter);
    left.len()
}

/// The filters by which the query of the search popup narrows each kind of list.
pub struct Filters<FT, FA, FR, FP, FS, FE, FI> {
    pub tracks: FT,
    pub albums: FA,
    pub artists: FR,
    pub playlists: FP,
    pub shows: FS,
    pub episodes: FE,
    /// For the playlists and folders of a folder.
    pub folder_items: FI,
}

/// Whether each filter can be given the query of the search popup.
pub open spec fn all_take_query<'a, FT, FA, FR, FP, FS, FE, FI>(
    ui: UIView,
    filters: Filters<FT, FA, FR, FP, FS, FE, FI>,
) -> bool where
    FT: Fn(&str, &'a [Track]) -> Vec<&'a Track>,
    FA: Fn(&str, &'a [Album]) -> Vec<&'a Album>,
    FR: Fn(&str, &'a [Artist]) -> Vec<&'a Artist>,
    FP: Fn(&str, &'a [Playlist]) -> Vec<&'a Playlist>,
    FS: Fn(&str, &'a [Show]) -> Vec<&'a Show>,
    FE: Fn(&str, &'a [Episode]) -> Vec<&'a Episode>,
    FI: for <'b>Fn(&str, &'b [&'a PlaylistFolderItem]) -> Vec<&'b &'a PlaylistFolderItem>,
 {
    &&& takes_query(ui, filters.tracks)
    &&& takes_query(ui, filters.albums)
    &&& takes_query(ui, filters.artists)
    &&& takes_query(ui, filters.playlists)
    &&& takes_query(ui, filters.shows)
    &&& takes_query(ui, filters.episodes)
    &&& takes_query(ui, filters.folder_items)
}

/// What the folder `folder_id` shows, by reference.
pub open spec fn folder_refs<'a>(data: &'a AppData, folder_id: usize) -> Seq<&'a PlaylistFolderItem> {
    let items = data.user_data.folder(folder_id);
    Seq::new(items.len(), |i: int| &items[i])
}

/// Whether no results of a search are left.
pub open spec fn no_results(n: QueryMatches) -> bool {
    &&& n.tracks == 0 && n.albums == 0 && n.artists == 0
    &&& n.playlists == 0 && n.shows == 0 && n.episodes == 0
}

/// Whether no items of the library are left.
pub open spec fn no_library_items(n: QueryMatches) -> bool {
    n.folder_items == 0 && n.saved_albums == 0 && n.followed_artists == 0
}

/// Whether the numbers of results are those that are left on the search page. Without results there
/// are none.
pub open spec fn are_left_of_search<'a, FT, FA, FR, FP, FS, FE, FI>(
    ui: UIView,
    entry: Option<SearchEntry>,
    filters: Filters<FT, FA, FR, FP, FS, FE, FI>,
    n: QueryMatches,
) -> bool where
    FT: Fn(&str, &'a [Track]) -> Vec<&'a Track>,
    FA: Fn(&str, &'a [Album]) -> Vec<&'a Album>,
    FR: Fn(&str, &'a [Artist]) -> Vec<&'a Artist>,
    FP: Fn(&str, &'a [Playlist]) -> Vec<&'a Playlist>,
    FS: Fn(&str, &'a [Show]) -> Vec<&'a Show>,
    FE: Fn(&str, &'a [Episode]) -> Vec<&'a Episode>,
    FI: for <'b>Fn(&str, &'b [&'a PlaylistFolderItem]) -> Vec<&'b &'a PlaylistFolderItem>,
 {
    match entry {
        Some(entry) => {
            &&& leaves(ui, filters.tracks, entry.results.tracks@, n.tracks)
            &&& leaves(ui, filters.albums, entry.results.albums@, n.albums)
            &&& leaves(ui, filters.artists, entry.results.artists@, n.artists)
            &&& leaves(ui, filters.playlists, entry.results.playlists@, n.playlists)
            &&& leaves(ui, filters.shows, entry.results.shows@, n.shows)
            &&& leaves(ui, filters.episodes, entry.results.episodes@, n.episodes)
        },
        None => no_results(n),
    }
}

/// Whether the numbers of items are those that are left on the library page.
pub open spec fn are_left_of_library<'a, FT, FA, FR, FP, FS, FE, FI>(
    ui: UIView,
    data: &'a AppData,
    folder_id: usize,
    filters: Filters<FT, FA, FR, FP, FS, FE, FI>,
    n: QueryMatches,
) -> bool where
    FT: Fn(&str, &'a [Track]) -> Vec<&'a Track>,
    FA: Fn(&str, &'a [Album]) -> Vec<&'a Album>,
    FR: Fn(&str, &'a [Artist]) -> Vec<&'a Artist>,
    FP: Fn(&str, &'a [Playlist]) -> Vec<&'a Playlist>,
    FS: Fn(&str, &'a [Show]) -> Vec<&'a Show>,
    FE: Fn(&str, &'a [Episode]) -> Vec<&'a Episode>,
    FI: for <'b>Fn(&str, &'b [&'a PlaylistFolderItem]) -> Vec<&'b &'a PlaylistFolderItem>,
 {
    &&& leaves(ui, filters.folder_items, folder_refs(data, folder_id), n.folder_items)
    &&& leaves(ui, filters.albums, data.user_data.saved_albums@, n.saved_albums)
    &&& leaves(ui, filters.artists, data.user_data.followed_artists@, n.followed_artists)
}

/// The tracks that the page of a context shows, where they are known.
pub open spec fn page_tracks(ui: UIView, data: AppData, now: u64) -> Option<Seq<Track>> {
    match ui.page() {
        PageView::Context { id: Some(id), state: Some(state), .. } => match (
            state.source(),
            live(data.contexts@, id.uri(), now),
        ) {
            (Some((source, _)), Some(context)) => context.tracks_from(source),
            _ => None,
        },
        _ => None,
    }
}

/// Whether the numbers are those of the items that are left of the lists of the current page, by
/// the filters and the query of the search popup.
pub open spec fn are_left<'a, FT, FA, FR, FP, FS, FE, FI>(
    ui: UIView,
    data: &'a AppData,
    now: u64,
    filters: Filters<FT, FA, FR, FP, FS, FE, FI>,
    n: QueryMatches,
) -> bool where
    FT: Fn(&str, &'a [Track]) -> Vec<&'a Track>,
    FA: Fn(&str, &'a [Album]) -> Vec<&'a Album>,
    FR: Fn(&str, &'a [Artist]) -> Vec<&'a Artist>,
    FP: Fn(&str, &'a [Playlist]) -> Vec<&'a Playlist>,
    FS: Fn(&str, &'a [Show]) -> Vec<&'a Show>,
    FE: Fn(&str, &'a [Episode]) -> Vec<&'a Episode>,
    FI: for <'b>Fn(&str, &'b [&'a PlaylistFolderItem]) -> Vec<&'b &'a PlaylistFolderItem>,
 {
    match ui.page() {
        PageView::Search { current_query, .. } => {
            &&& are_left_of_search(ui, live(data.search@, current_query, now), filters, n)
            &&& no_library_items(n) && n.context_tracks == 0
        },
        PageView::Library { state } => {
            &&& are_left_of_library(ui, data, state.playlist_folder_id, filters, n)
            &&& no_results(n) && n.context_tracks == 0
        },
        _ => {
            &&& match page_tracks(ui, *data, now) {
                Some(tracks) => leaves(ui, filters.tracks, tracks, n.context_tracks),
                None => n.context_tracks == 0,
            }
            &&& no_results(n) && no_library_items(n)
        },
    }
}

/// Counts what the query of the search popup leaves of the lists of the current page. The lists of
/// other pages count as empty.
pub fn count_matches<'a, FT, FA, FR, FP, FS, FE, FI>(
    ui: &UIState,
    data: &'a AppData,
    now: u64,
    filters: Filters<FT, FA, FR, FP, FS, FE, FI>,
) -> (r: QueryMatches) where
    FT: Fn(&str, &'a [Track]) -> Vec<&'a Track>,
    FA: Fn(&str, &'a [Album]) -> Vec<&'a Album>,
    FR: Fn(&str, &'a [Artist]) -> Vec<&'a Artist>,
    FP: Fn(&str, &'a [Playlist]) -> Vec<&'a Playlist>,
    FS: Fn(&str, &'a [Show]) -> Vec<&'a Show>,
    FE: Fn(&str, &'a [Episode]) -> Vec<&'a Episode>,
    FI: for <'b>Fn(&str, &'b [&'a PlaylistFolderItem]) -> Vec<&'b &'a PlaylistFolderItem>,

    requires
        ui@.has_page(),
        all_take_query(ui@, filters),
    ensures
        are_left(ui@, data, now, filters, r),
{
    let mut n = QueryMatches {
        tracks: 0,
        albums: 0,
        artists: 0,
        playlists: 0,
        shows: 0,
        episodes: 0,
        folder_items: 0,
        saved_albums: 0,
        followed_artists: 0,
        context_tracks: 0,
    };
    match ui.current_page() {
        PageState::Search { current_query, .. } => {
            if let Some(entry) = data.search.get(current_query.as_str(), now) {
                let results = &entry.results;
                n.tracks = count_left(ui, results.tracks.as_slice(), filters.tracks);
                n.albums = count_left(ui, results.albums.as_slice(), filters.albums);
                n.artists = count_left(ui, results.artists.as_slice(), filters.artists);
                n.playlists = count_left(ui, results.playlists.as_slice(), filters.playlists);
                n.shows = count_left(ui, results.shows.as_slice(), filters.shows);
                n.episodes = count_left(ui, results.episodes.as_slice(), filters.episodes);
            }
        },
        PageState::Library { state } => {
            let user_data = &data.user_data;
            let items = user_data.folder_playlists_items(state.playlist_folder_id);
            assert(items@ =~= folder_refs(data, state.playlist_folder_id));
            n.folder_items = count_left(ui, items.as_slice(), filters.folder_items);
            n.saved_albums = count_left(ui, user_data.saved_albums.as_slice(), filters.albums);
            n.followed_artists = count_left(
                ui,
                user_data.followed_artists.as_slice(),
                filters.artists,
            );
        },
        PageState::Context { id: Some(id), state: Some(state), .. } => {
            if let Some((source, _)) = state.track_source() {
                let uri = id.uri();
                if let Some(context) = data.contexts.get(uri.as_str(), now) {
                    if let Some(tracks) = context.tracks_for(source) {
                        n.context_tracks = count_left(ui, tracks.as_slice(), filters.tracks);
                    }
                }
            }
        },
        _ => {},
    }
    n
}

/// The numbers of items by which a click is resolved are those that are left of each list, by the
/// filters and the query of the search popup, and of all the items where that popup is not open.
pub proof fn law_clicks_are_resolved_by_what_is_left<'a, FT, FA, FR, FP, FS, FE, FI>(
    ui: UIView,
    data: &'a AppData,
    now: u64,
    filters: Filters<FT, FA, FR, FP, FS, FE, FI>,
    n: QueryMatches,
) where
    FT: Fn(&str, &'a [Track]) -> Vec<&'a Track>,
    FA: Fn(&str, &'a [Album]) -> Vec<&'a Album>,
    FR: Fn(&str, &'a [Artist]) -> Vec<&'a Artist>,
    FP: Fn(&str, &'a [Playlist]) -> Vec<&'a Playlist>,
    FS: Fn(&str, &'a [Show]) -> Vec<&'a Show>,
    FE: Fn(&str, &'a [Episode]) -> Vec<&'a Episode>,
    FI: for <'b>Fn(&str, &'b [&'a PlaylistFolderItem]) -> Vec<&'b &'a PlaylistFolderItem>,

    requires
        are_left(ui, data, now, filters, n),
    ensures
        match ui.page() {
            PageView::Search { current_query, .. } => {
                let entry = live(data.search@, current_query, now);
                let lens = search_lens(ui, entry, n);
                match entry {
                    Some(entry) => {
                        &&& leaves(ui, filters.tracks, entry.results.tracks@, lens.tracks)
                        &&& leaves(ui, filters.albums, entry.results.albums@, lens.albums)
                        &&& leaves(ui, filters.artists, entry.results.artists@, lens.artists)
                        &&& leaves(ui, filters.playlists, entry.results.playlists@, lens.playlists)
                        &&& leaves(ui, filters.shows, entry.results.shows@, lens.shows)
                        &&& leaves(ui, filters.episodes, entry.results.episodes@, lens.episodes)
                    },
                    None => forall|category: SearchResultCategory|
                        (#[trigger] lens.of(category)) == 0,
                }
            },
            PageView::Library { state } => {
                let folder_id = state.playlist_folder_id;
                let lens = library_lens(ui, *data, folder_id, n);
                &&& leaves(ui, filters.folder_items, folder_refs(data, folder_id), lens.playlists)
                &&& leaves(ui, filters.albums, data.user_data.saved_albums@, lens.albums)
                &&& leaves(ui, filters.artists, data.user_data.followed_artists@, lens.artists)
            },
            _ => page_tracks(ui, *data, now) matches Some(tracks) ==> leaves(
                ui,
                filters.tracks,
                tracks,
                shown_of(ui, tracks.len(), n.context_tracks),
            ),
        },
{
}

} // verus!
