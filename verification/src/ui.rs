//! The state of the interface.

use vstd::prelude::*;
use vstd::string::*;

use crate::ids::ContextId;
use crate::ids::ContextIdView;
use crate::ids::TracksId;
use crate::ids::TracksIdView;
use crate::key::Key;
use crate::key::KeySequence;
use crate::layout::Orientation;
use crate::layout::Rect;
use crate::model::SearchResultCategory;
use crate::page::ContextPageType;
use crate::page::ContextPageTypeView;
use crate::page::fresh_library;
use crate::page::LibraryPageUIState;
use crate::page::PageState;
use crate::page::PageView;
use crate::popup::PopupState;
use crate::popup::PopupView;
use crate::popup::Theme;
use crate::text::concat;

verus! {

/// Where a cover image is drawn.
#[derive(Debug)]
pub struct ImageRenderInfo {
    pub url: String,
    pub render_area: Rect,
    /// Whether the image is rendered.
    pub rendered: bool,
}

impl Default for ImageRenderInfo {
    fn default() -> (r: ImageRenderInfo)
        ensures
            r.url@ == Seq::<char>::empty(),
            r.render_area == nowhere(),
            !r.rendered,
    {
        ImageRenderInfo { url: String::new(), render_area: Rect::default(), rendered: false }
    }
}

/// The area without cells.
pub open spec fn nowhere() -> Rect {
    Rect { x: 0, y: 0, width: 0, height: 0 }
}

/// Where the windows of the search page are drawn.
#[derive(Debug, Clone, Copy, PartialEq, Eq, Structural)]
pub struct SearchLayout {
    pub valid: bool,
    pub input: Rect,
    pub tracks: Rect,
    pub albums: Rect,
    pub artists: Rect,
    pub playlists: Rect,
    pub shows: Rect,
    pub episodes: Rect,
}

impl Default for SearchLayout {
    fn default() -> (r: SearchLayout)
        ensures
            r == (SearchLayout {
                valid: false,
                input: nowhere(),
                tracks: nowhere(),
                albums: nowhere(),
                artists: nowhere(),
                playlists: nowhere(),
                shows: nowhere(),
                episodes: nowhere(),
            }),
    {
        SearchLayout {
            valid: false,
            input: Rect::default(),
            tracks: Rect::default(),
            albums: Rect::default(),
            artists: Rect::default(),
            playlists: Rect::default(),
            shows: Rect::default(),
            episodes: Rect::default(),
        }
    }
}

/// Where the windows of the library page are drawn.
#[derive(Debug, Clone, Copy, PartialEq, Eq, Structural)]
pub struct LibraryLayout {
    pub valid: bool,
    pub playlists: Rect,
    pub albums: Rect,
    pub artists: Rect,
}

impl Default for LibraryLayout {
    fn default() -> (r: LibraryLayout)
        ensures
            r == (LibraryLayout {
                valid: false,
                playlists: nowhere(),
                albums: nowhere(),
                artists: nowhere(),
            }),
    {
        LibraryLayout {
            valid: false,
            playlists: Rect::default(),
            albums: Rect::default(),
            artists: Rect::default(),
        }
    }
}

/// Where the list of the browse page is drawn.
#[derive(Debug, Clone, Copy, PartialEq, Eq, Structural)]
pub struct BrowseLayout {
    pub valid: bool,
    pub list: Rect,
}

impl Default for BrowseLayout {
    fn default() -> (r: BrowseLayout)
        ensures
            r == (BrowseLayout { valid: false, list: nowhere() }),
    {
        BrowseLayout { valid: false, list: Rect::default() }
    }
}

/// A request to the client that waits for the state to be free.
#[derive(Debug)]
pub enum PendingClientRequest {
    SearchMore { query: String, category: SearchResultCategory },
}

/// What a pending request asks for.
pub enum PendingView {
    SearchMore { query: Seq<char>, category: SearchResultCategory },
}

impl View for PendingClientRequest {
    type V = PendingView;

    open spec fn view(&self) -> PendingView {
        match *self {
            PendingClientRequest::SearchMore { query, category } => PendingView::SearchMore {
                query: query@,
                category,
            },
        }
    }
}

/// The state of the interface. Times are readings of one monotonic clock, in nanoseconds.
#[derive(Debug)]
pub struct UIState {
    pub is_running: bool,
    pub theme: Theme,
    pub input_key_sequence: KeySequence,
    pub orientation: Orientation,
    /// When and at which column and row the mouse was last clicked.
    pub last_mouse_click: Option<(u64, u16, u16)>,
    pub last_mouse_position: Option<(u16, u16)>,
    pub pending_client_requests: Vec<PendingClientRequest>,
    /// The pages that are open, the current one last.
    pub history: Vec<PageState>,
    pub popup: Option<PopupState>,
    /// Where the progress bar of the playback is drawn.
    pub playback_progress_bar_rect: Rect,
    pub search_layout: SearchLayout,
    pub library_layout: LibraryLayout,
    pub browse_layout: BrowseLayout,
    pub context_track_table_rect: Option<Rect>,
    /// How often the next command is to be repeated.
    pub count_prefix: Option<usize>,
    pub last_cover_image_render_info: ImageRenderInfo,
}

/// What the state of the interface says.
pub struct UIView {
    pub is_running: bool,
    pub theme: Theme,
    pub keys: Seq<Key>,
    pub orientation: Orientation,
    pub last_mouse_click: Option<(u64, u16, u16)>,
    pub last_mouse_position: Option<(u16, u16)>,
    pub pending: Seq<PendingView>,
    pub history: Seq<PageView>,
    pub popup: Option<PopupView>,
    pub playback_progress_bar_rect: Rect,
    pub search_layout: SearchLayout,
    pub library_layout: LibraryLayout,
    pub browse_layout: BrowseLayout,
    pub context_track_table_rect: Option<Rect>,
    pub count_prefix: Option<usize>,
    pub last_cover_image_render_info: ImageRenderInfo,
}

impl View for UIState {
    type V = UIView;

    open spec fn view(&self) -> UIView {
        UIView {
            is_running: self.is_running,
            theme: self.theme,
            keys: self.input_key_sequence@,
            orientation: self.orientation,
            last_mouse_click: self.last_mouse_click,
            last_mouse_position: self.last_mouse_position,
            pending: self.pending_client_requests@.map_values(|r: PendingClientRequest| r@),
            history: self.history@.map_values(|p: PageState| p@),
            popup: match self.popup {
                Some(popup) => Some(popup@),
                None => None,
            },
            playback_progress_bar_rect: self.playback_progress_bar_rect,
            search_layout: self.search_layout,
            library_layout: self.library_layout,
            browse_layout: self.browse_layout,
            context_track_table_rect: self.context_track_table_rect,
            count_prefix: self.count_prefix,
            last_cover_image_render_info: self.last_cover_image_render_info,
        }
    }
}

impl UIView {
    /// Whether some page is open, as always while the program runs.
    pub open spec fn has_page(self) -> bool {
        self.history.len() > 0
    }

    /// The page that is shown.
    pub open spec fn page(self) -> PageView {
        self.history.last()
    }

    /// The same with another page in the place of the current one.
    pub open spec fn with_page(self, page: PageView) -> UIView {
        UIView { history: self.history.update(self.history.len() - 1, page), ..self }
    }

    /// The same with one more page open, and no popup.
    pub open spec fn opening(self, page: PageView) -> UIView {
        UIView { history: self.history.push(page), popup: None, ..self }
    }

    /// The same without the current page, and no popup.
    pub open spec fn going_back(self) -> UIView {
        UIView { history: self.history.drop_last(), popup: None, ..self }
    }

    /// The same with the given popup.
    pub open spec fn with_popup(self, popup: Option<PopupView>) -> UIView {
        UIView { popup, ..self }
    }

    /// The same with the given count.
    pub open spec fn with_count(self, count_prefix: Option<usize>) -> UIView {
        UIView { count_prefix, ..self }
    }

    /// The same with the search popup open, and the first item of the window in focus selected.
    pub open spec fn starting_search(self) -> UIView {
        self.with_page(self.page().selecting(0)).with_popup(
            Some(PopupView::Search { query: Seq::empty() }),
        )
    }

    /// Whether a popup takes the keys: any but the search popup does.
    pub open spec fn focused_popup(self) -> bool {
        self.popup is Some && !(self.popup->0 is Search)
    }

    /// Whether the search popup is open.
    pub open spec fn searching(self) -> bool {
        self.popup is Some && self.popup->0 is Search
    }
}

/// The page on which a context is browsed, as it opens.
pub open spec fn browsing(id: ContextIdView) -> PageView {
    PageView::Context {
        id: None,
        context_page_type: ContextPageTypeView::Browsing(id),
        state: None,
    }
}

/// The context of the recommendations for the item with the URI `uri`.
pub open spec fn radio_of(uri: Seq<char>) -> ContextIdView {
    ContextIdView::Tracks(TracksIdView { uri: "radio:"@ + uri, kind: "Recommendations"@ })
}

impl UIState {
    /// The state in which the program starts: the library page is open.
    pub fn new(theme: Theme, orientation: Orientation) -> (r: UIState)
        ensures
            r.last_cover_image_render_info.url@ == Seq::<char>::empty(),
            r.last_cover_image_render_info.render_area == nowhere(),
            !r.last_cover_image_render_info.rendered,
            r@ == (UIView {
                is_running: true,
                theme,
                keys: Seq::empty(),
                orientation,
                last_mouse_click: None,
                last_mouse_position: None,
                pending: Seq::empty(),
                history: seq![PageView::Library { state: fresh_library() }],
                popup: None,
                playback_progress_bar_rect: nowhere(),
                search_layout: SearchLayout {
                    valid: false,
                    input: nowhere(),
                    tracks: nowhere(),
                    albums: nowhere(),
                    artists: nowhere(),
                    playlists: nowhere(),
                    shows: nowhere(),
                    episodes: nowhere(),
                },
                library_layout: LibraryLayout {
                    valid: false,
                    playlists: nowhere(),
                    albums: nowhere(),
                    artists: nowhere(),
                },
                browse_layout: BrowseLayout { valid: false, list: nowhere() },
                context_track_table_rect: None,
                count_prefix: None,
                last_cover_image_render_info: r.last_cover_image_render_info,
            }),
    {
        let mut history: Vec<PageState> = Vec::new();
        history.push(PageState::Library { state: LibraryPageUIState::new() });
        let r = UIState {
            is_running: true,
            theme,
            input_key_sequence: KeySequence { keys: Vec::new() },
            orientation,
            last_mouse_click: None,
            last_mouse_position: None,
            pending_client_requests: Vec::new(),
            history,
            popup: None,
            playback_progress_bar_rect: Rect::default(),
            search_layout: SearchLayout::default(),
            library_layout: LibraryLayout::default(),
            browse_layout: BrowseLayout::default(),
            context_track_table_rect: None,
            count_prefix: None,
            last_cover_image_render_info: ImageRenderInfo::default(),
        };
        assert(r@.keys =~= Seq::<Key>::empty());
        assert(r@.pending =~= Seq::<PendingView>::empty());
        assert(r@.history =~= seq![PageView::Library { state: fresh_library() }]);
        r
    }

    /// The page that is shown.
    pub fn current_page(&self) -> (r: &PageState)
        requires
            self@.has_page(),
        ensures
            *r == self.history@.last(),
            r@ == self@.page(),
    {
        let n: usize = self.history.len();
        &self.history[n - 1]
    }

    /// The page that is shown, for changing it.
    pub fn current_page_mut(&mut self) -> (r: &mut PageState)
        requires
            old(self)@.has_page(),
        ensures
            *r == old(self).history@.last(),
            r@ == old(self)@.page(),
            final(self)@ == old(self)@.with_page(final(r)@),
            final(self).history@ == old(self).history@.update(
                old(self).history@.len() - 1,
                *final(r),
            ),
    {
        let n: usize = self.history.len();
        let r = &mut self.history[n - 1];
        proof {
            let h0 = old(self).history@;
            assert(h0.update(h0.len() - 1, *final(r)).map_values(|p: PageState| p@)
                =~= h0.map_values(|p: PageState| p@).update(h0.len() - 1, final(r)@));
        }
        r
    }

    /// Opens the search popup and selects the first item of the window in focus.
    pub fn new_search_popup(&mut self)
        requires
            old(self)@.has_page(),
        ensures
            final(self)@ == old(self)@.starting_search(),
    {
        self.current_page_mut().select(0);
        self.popup = Some(PopupState::Search { query: String::new() });
    }

    /// Opens a page and closes the popup.
    pub fn new_page(&mut self, page: PageState)
        ensures
            final(self)@ == old(self)@.opening(page@),
    {
        self.history.push(page);
        self.popup = None;
        assert(self@.history =~= old(self)@.history.push(page@));
    }

    /// Opens the page of recommendations for the item with the URI `uri`.
    pub fn new_radio_page(&mut self, uri: &str)
        ensures
            final(self)@ == old(self)@.opening(browsing(radio_of(uri@))),
    {
        self.new_page(
            PageState::Context {
                id: None,
                context_page_type: ContextPageType::Browsing(
                    ContextId::Tracks(TracksId::new(concat("radio:", uri), "Recommendations")),
                ),
                state: None,
            },
        );
    }

    /// Closes the current page and the popup.
    pub(crate) fn go_back(&mut self)
        requires
            old(self)@.history.len() > 1,
        ensures
            final(self)@ == old(self)@.going_back(),
    {
        let _ = self.history.pop();
        self.popup = None;
        assert(self@.history =~= old(self)@.history.drop_last());
    }

    /// Whether there is a popup that takes the keys.
    ///
    /// Only the search popup does not when it is open.
    pub fn has_focused_popup(&self) -> (r: bool)
        ensures
            r == self@.focused_popup(),
    {
        match &self.popup {
            None => false,
            Some(popup) => match popup {
                PopupState::Search { .. } => false,
                _ => true,
            },
        }
    }

    /// The items that `filter` leaves for the query of the search popup, or all of them where that
    /// popup is not open.
    pub fn search_filtered_items<'a, T, F: Fn(&str, &'a [T]) -> Vec<&'a T>>(
        &self,
        items: &'a [T],
        filter: F,
    ) -> (r: Vec<&'a T>)
        requires
            self@.searching() ==> forall|query: &str|
                query@ == self@.popup->0->Search_query ==> call_requires(filter, (query, items)),
        ensures
            self@.searching() ==> exists|query: &str|
                query@ == self@.popup->0->Search_query && call_ensures(filter, (query, items), r),
            !self@.searching() ==> r@.len() == items@.len(),
            !self@.searching() ==> forall|i: int|
                0 <= i < items@.len() ==> *(#[trigger] r@[i]) == items@[i],
    {
        if let Some(PopupState::Search { query }) = &self.popup {
            return filter(query.as_str(), items);
        }
        let mut all: Vec<&'a T> = Vec::new();
        let mut i: usize = 0;
        while i < items.len()
            invariant
                i <= items@.len(),
                all@.len() == i,
                forall|k: int| 0 <= k < i ==> *(#[trigger] all@[k]) == items@[k],
            decreases items.len() - i,
        {
            all.push(&items[i]);
            i = i + 1;
        }
        all
    }

    /// How many of `total` items are shown, where the query of the search popup leaves `matching`
    /// of them.
    pub fn shown(&self, total: usize, matching: usize) -> (r: usize)
        ensures
            r == (if self@.searching() { matching } else { total }),
    {
        if let Some(PopupState::Search { .. }) = &self.popup {
            matching
        } else {
            total
        }
    }
}

/// Going back from a page that has just been opened leaves the pages as they were.
pub proof fn law_open_then_back(ui: UIView, page: PageView)
    ensures
        ui.opening(page).going_back() == ui.with_popup(None),
        ui.opening(page).page() == page,
        ui.opening(page).popup is None,
        ui.opening(page).has_page(),
{
    assert(ui.opening(page).going_back().history =~= ui.history);
}

/// An open search popup takes no keys away from the page; every other popup does.
pub proof fn law_only_search_popup_is_unfocused(ui: UIView, popup: PopupView)
    ensures
        ui.with_popup(Some(popup)).focused_popup() == !(popup is Search),
        !ui.with_popup(None).focused_popup(),
{
}

} // verus!
