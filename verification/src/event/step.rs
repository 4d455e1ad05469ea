//! What the handling of an event comes to.

use vstd::prelude::*;
use vstd::string::*;

use crate::client::OutboxView;
use crate::client::RequestView;
use crate::command::ActionSubject;
use crate::error::ErrorView;
use crate::error::HandlerError;
use crate::ui::UIView;

verus! {

/// What is left to do for a command or an action.
#[derive(Debug)]
pub enum Step {
    /// Nothing is left; says whether the command or action applied.
    Handled(bool),
    /// Put the text into the clipboard, then go on with `finish_copy_link`.
    CopyLink(String),
    /// Find the actions for the item, then go on with `open_action_list`.
    ShowActions(ActionSubject),
    /// Read the clipboard, then go on with `open_spotify_link`.
    ReadClipboard,
}

/// What a step says.
pub enum StepView {
    Handled(bool),
    CopyLink(Seq<char>),
    ShowActions(ActionSubject),
    ReadClipboard,
}

impl View for Step {
    type V = StepView;

    open spec fn view(&self) -> StepView {
        match *self {
            Step::Handled(applied) => StepView::Handled(applied),
            Step::CopyLink(link) => StepView::CopyLink(link@),
            Step::ShowActions(subject) => StepView::ShowActions(subject),
            Step::ReadClipboard => StepView::ReadClipboard,
        }
    }
}

/// What a result says.
pub open spec fn result_view(r: Result<Step, HandlerError>) -> Result<StepView, ErrorView> {
    match r {
        Ok(step) => Ok(step@),
        Err(e) => Err(e@),
    }
}

/// A result with the interface and the outbox that it leaves.
pub struct Outcome {
    pub result: Result<StepView, ErrorView>,
    pub ui: UIView,
    pub client: OutboxView,
}

/// Done, and the command or action applied.
pub open spec fn applied(ui: UIView, client: OutboxView) -> Outcome {
    Outcome { result: Ok(StepView::Handled(true)), ui, client }
}

/// Done, and the command or action did not apply.
pub open spec fn ignored(ui: UIView, client: OutboxView) -> Outcome {
    Outcome { result: Ok(StepView::Handled(false)), ui, client }
}

/// More is left to do, and nothing has changed.
pub open spec fn asks(step: StepView, ui: UIView, client: OutboxView) -> Outcome {
    Outcome { result: Ok(step), ui, client }
}

/// The request goes out, and leaves the interface as `after`; where the client has stopped
/// listening that is reported, and the interface is left as `before`.
pub open spec fn sends(
    before: UIView,
    client: OutboxView,
    request: RequestView,
    after: UIView,
) -> Outcome {
    if client.room > 0 {
        applied(after, client.with(request))
    } else {
        Outcome { result: Err(ErrorView::ClientClosed), ui: before, client }
    }
}

} // verus!
