//! The handling of terminal events.

use vstd::prelude::*;

use crate::command::Command;
use crate::event::mouse::MouseEvent;
use crate::key::KeyEvent;
use crate::layout::Orientation;
use crate::ui::UIState;
use crate::ui::UIView;

pub mod action;
pub mod filter;
pub mod global;
pub mod keys;
pub mod link;
pub mod mouse;
pub mod search;
pub mod step;

verus! {

/// Whether a command moves toward the end of a list.
pub open spec fn is_downward(command: Command) -> bool {
    ||| command == Command::SelectNextOrScrollDown
    ||| command == Command::PageSelectNextOrScrollDown
    ||| command == Command::SelectLastOrScrollToBottom
}

/// Whether a command moves toward the end of a list.
pub fn is_downward_command(command: &Command) -> (r: bool)
    ensures
        r == is_downward(*command),
{
    match command {
        Command::SelectNextOrScrollDown => true,
        Command::PageSelectNextOrScrollDown => true,
        Command::SelectLastOrScrollToBottom => true,
        _ => false,
    }
}

/// What the terminal reports.
#[derive(Debug, Clone, Copy, PartialEq, Eq, Structural)]
pub enum TerminalEvent {
    Mouse(MouseEvent),
    /// The terminal has a new size, which asks for the orientation.
    Resize(Orientation),
    /// A key was pressed, is held or was released.
    Key { event: KeyEvent, press: bool },
    Other,
}

/// What the event loop does next.
#[derive(Debug, Clone, Copy, PartialEq, Eq, Structural)]
pub enum EventStep {
    /// Read the next event.
    Done,
    /// Go on with `handle_mouse_event`.
    Mouse(MouseEvent),
    /// Go on with `begin_key_event`.
    Key(KeyEvent),
    /// End the loop.
    Stop,
}

/// Who is to handle an event, and the interface until then. Of the events of a key only its press
/// counts, so that none is handled more than once.
pub open spec fn routed(event: TerminalEvent, ui: UIView) -> (EventStep, UIView) {
    match event {
        TerminalEvent::Mouse(event) => (EventStep::Mouse(event), ui),
        TerminalEvent::Resize(orientation) => (EventStep::Done, UIView { orientation, ..ui }),
        TerminalEvent::Key { event, press: true } => (EventStep::Key(event), ui),
        _ => (EventStep::Done, ui),
    }
}

/// Takes an event of the terminal.
pub fn begin_event(event: TerminalEvent, ui: &mut UIState) -> (r: EventStep)
    ensures
        (r, final(ui)@) == routed(event, old(ui)@),
{
    match event {
        TerminalEvent::Mouse(event) => EventStep::Mouse(event),
        TerminalEvent::Resize(orientation) => {
            ui.orientation = orientation;
            EventStep::Done
        },
        TerminalEvent::Key { event, press } => {
            if press {
                EventStep::Key(event)
            } else {
                EventStep::Done
            }
        },
        TerminalEvent::Other => EventStep::Done,
    }
}

/// What the event loop does with what it read: it ends where the terminal could not be read.
pub open spec fn after_read_step(read: Option<TerminalEvent>, ui: UIView) -> (EventStep, UIView) {
    match read {
        Some(event) => routed(event, ui),
        None => (EventStep::Stop, ui),
    }
}

/// Takes what was read from the terminal, or that it could not be read.
pub fn after_read(read: Option<TerminalEvent>, ui: &mut UIState) -> (r: EventStep)
    ensures
        (r, final(ui)@) == after_read_step(read, old(ui)@),
{
    match read {
        Some(event) => begin_event(event, ui),
        None => EventStep::Stop,
    }
}

/// What the event loop does once an event has been handled: whether that failed or not, it goes on.
pub open spec fn after_handled_step(failed: bool) -> EventStep {
    EventStep::Done
}

/// Goes on once an event has been handled, or has failed to be. A failure is only reported.
pub fn after_handled(failed: bool) -> (r: EventStep)
    ensures
        r == after_handled_step(failed),
{
    EventStep::Done
}

/// The steps of the event loop while the terminal gives `events` and then can no longer be read.
/// `failed` says of each event whether handling it failed.
pub open spec fn loop_steps(events: Seq<TerminalEvent>, failed: Seq<bool>, ui: UIView) -> Seq<
    EventStep,
>
    decreases events.len(),
{
    if events.len() == 0 {
        seq![after_read_step(None, ui).0]
    } else {
        let (step, after) = after_read_step(Some(events.first()), ui);
        let next = match step {
            EventStep::Mouse(_) => after_handled_step(failed.first()),
            EventStep::Key(_) => after_handled_step(failed.first()),
            _ => step,
        };
        if next == EventStep::Done {
            seq![step] + loop_steps(events.drop_first(), failed.drop_first(), after)
        } else {
            seq![step]
        }
    }
}

/// Each event of a series is taken once and in order, whatever becomes of the ones before it, and
/// the loop ends where the terminal can no longer be read, and only there. What an event is taken
/// for does not depend on the interface.
pub proof fn law_every_event_is_taken_once(
    events: Seq<TerminalEvent>,
    failed: Seq<bool>,
    ui: UIView,
)
    requires
        failed.len() == events.len(),
    ensures
        ({
            let steps = loop_steps(events, failed, ui);
            &&& steps.len() == events.len() + 1
            &&& steps.last() == EventStep::Stop
            &&& forall|i: int|
                0 <= i < events.len() ==> #[trigger] steps[i] == routed(events[i], ui).0 && steps[i]
                    != EventStep::Stop
        }),
    decreases events.len(),
{
    if events.len() > 0 {
        let after = after_read_step(Some(events.first()), ui).1;
        let rest = loop_steps(events.drop_first(), failed.drop_first(), after);
        law_every_event_is_taken_once(events.drop_first(), failed.drop_first(), after);
        let steps = loop_steps(events, failed, ui);
        assert(steps == seq![routed(events.first(), ui).0] + rest);
        assert forall|i: int| 0 <= i < events.len() implies #[trigger] steps[i] == routed(
            events[i],
            ui,
        ).0 && steps[i] != EventStep::Stop by {
            if i > 0 {
                assert(steps[i] == rest[i - 1]);
                assert(events.drop_first()[i - 1] == events[i]);
            }
        }
    }
}

/// A key that is held or released does nothing: of all the events of one key only its press is
/// handled.
pub proof fn law_only_presses_count(event: KeyEvent, ui: UIView)
    ensures
        routed(TerminalEvent::Key { event, press: false }, ui) == (EventStep::Done, ui),
        routed(TerminalEvent::Key { event, press: true }, ui) == (EventStep::Key(event), ui),
{
}

/// Of all the events only a new size of the terminal changes the interface at once, and that
/// changes the orientation alone.
pub proof fn law_routing_changes_orientation_only(event: TerminalEvent, ui: UIView)
    ensures
        routed(event, ui).1 == (UIView { orientation: routed(event, ui).1.orientation, ..ui }),
        !(event is Resize) ==> routed(event, ui).1 == ui,
{
}

} // verus!
