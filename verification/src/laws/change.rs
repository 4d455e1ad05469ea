//! How two states of the interface or of the outbox differ.

use vstd::prelude::*;

use crate::client::OutboxView;
use crate::client::RequestView;
use crate::error::ErrorView;
use crate::event::step::Outcome;
use crate::event::step::StepView;
use crate::ids::ContextIdView;
use crate::page::ContextPageTypeView;
use crate::page::PageView;
use crate::popup::PopupView;
use crate::ui::UIView;

verus! {

/// Whether a command or an action was carried out, with nothing left to do.
pub open spec fn is_done(o: Outcome) -> bool {
    o.result == Ok::<StepView, ErrorView>(StepView::Handled(true))
}

/// Whether a command or an action turned out to be none for its item.
pub open spec fn is_not_for(o: Outcome) -> bool {
    o.result == Ok::<StepView, ErrorView>(StepView::Handled(false))
}

/// Whether the client was found not to listen any more.
pub open spec fn is_refused(o: Outcome) -> bool {
    o.result == Err::<StepView, ErrorView>(ErrorView::ClientClosed)
}

/// Whether neither the interface nor the outbox differs.
pub open spec fn is_unchanged(o: Outcome, ui: UIView, client: OutboxView) -> bool {
    o.ui == ui && o.client == client
}

/// Whether one request was handed over, behind those before it.
pub open spec fn hands_over(before: OutboxView, after: OutboxView, request: RequestView) -> bool {
    &&& after.sent == before.sent.push(request)
    &&& after.room + 1 == before.room
}

/// Whether one page was opened on top of the others and the popup closed, and nothing else differs.
pub open spec fn adds_page(before: UIView, after: UIView, page: PageView) -> bool {
    after == (UIView { history: before.history.push(page), popup: None, ..before })
}

/// Whether nothing but the popup differs, which is the given one or none.
pub open spec fn sets_popup(before: UIView, after: UIView, popup: Option<PopupView>) -> bool {
    after == (UIView { popup, ..before })
}

/// Whether a page is one that is about to show the context `id` to somebody who browses.
pub open spec fn browses(page: PageView, id: ContextIdView) -> bool {
    page matches PageView::Context { id: None, context_page_type, state: None }
        && context_page_type == ContextPageTypeView::Browsing(id)
}

/// Whether one page was opened that is about to show the context `id`.
pub open spec fn adds_context(before: UIView, after: UIView, id: ContextIdView) -> bool {
    &&& after.history.len() == before.history.len() + 1
    &&& browses(after.history.last(), id)
    &&& adds_page(before, after, after.history.last())
}

/// The length of a vector is a number of the machine.
pub proof fn lemma_vec_fits<T>(items: Vec<T>)
    ensures
        items@.len() <= usize::MAX,
{
    assert(items.len() == items@.len());
}

} // verus!
