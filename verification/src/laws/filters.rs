//! What the counting of the items that a query leaves promises.

use vstd::prelude::*;

use crate::cache::live;
use crate::event::filter::folder_refs;
use crate::event::filter::leaves;
use crate::event::filter::page_tracks;
use crate::event::filter::takes_query;
use crate::laws::mouse::belongs_to;
use crate::laws::mouse::tracks_on;
use crate::model::AppData;
use crate::model::PlaylistFolderItem;
use crate::page::PageView;
use crate::popup::PopupView;
use crate::ui::UIView;

verus! {

/// Without an open search popup all items are left. With one, those are left that the filter gives for
/// its query and just these items, and the filter must be able to take that query with any items.
pub proof fn law_items_are_left_by_the_filter<'a, T: 'a, F: Fn(&str, &'a [T]) -> Vec<&'a T>>(
    ui: UIView,
    filter: F,
    items: Seq<T>,
    n: usize,
    query: &str,
    given: &'a [T],
    left: Vec<&'a T>,
)
    ensures
        !(ui.popup matches Some(PopupView::Search { .. })) ==> (leaves(ui, filter, items, n) <==> n
            == items.len()),
        !(ui.popup matches Some(PopupView::Search { .. })) ==> takes_query(ui, filter),
        ui.popup matches Some(PopupView::Search { query: typed }) ==> (query@ == typed && given@
            == items && call_ensures(filter, (query, given), left) ==> leaves(
            ui,
            filter,
            items,
            left.len(),
        )),
        ui.popup matches Some(PopupView::Search { query: typed }) ==> (leaves(ui, filter, items, n)
            ==> exists|q: &str, g: &'a [T], l: Vec<&'a T>|
            q@ == typed && g@ == items && #[trigger] call_ensures(filter, (q, g), l) && n
                == l@.len()),
        ui.popup matches Some(PopupView::Search { query: typed }) ==> (takes_query(ui, filter)
            && query@ == typed ==> call_requires(filter, (query, given))),
{
}

/// The items of a folder that are counted are those that belong to it, in their order.
pub proof fn law_counted_folder_items<'a>(data: &'a AppData, folder_id: usize, i: int)
    ensures
        ({
            let items = data.user_data.playlists@.filter(
                |item: PlaylistFolderItem| belongs_to(item, folder_id),
            );
            &&& folder_refs(data, folder_id).len() == items.len()
            &&& 0 <= i < items.len() ==> *folder_refs(data, folder_id)[i] == items[i]
        }),
{
    assert((|item: PlaylistFolderItem| item.in_folder(folder_id)) =~= (|item: PlaylistFolderItem|
        belongs_to(item, folder_id)));
}

/// The tracks that are counted are those of the context that the current page shows, where it is known
/// and of the kind of the page.
pub proof fn law_counted_tracks(ui: UIView, data: AppData, now: u64)
    requires
        ui.history.len() > 0,
    ensures
        page_tracks(ui, data, now) == (match ui.history[ui.history.len() - 1] {
            PageView::Context { id: Some(id), state: Some(state), .. } => match live(
                data.contexts@,
                id.uri(),
                now,
            ) {
                Some(context) => tracks_on(state, context),
                None => None,
            },
            _ => None,
        }),
{
}

} // verus!
