//! What the handling of keys and of the events of the terminal promises.

use vstd::prelude::*;

use crate::client::OutboxView;
use crate::command::Command;
use crate::command::CommandOrAction;
use crate::error::ErrorView;
use crate::event::action::global_action_outcome;
use crate::event::after_handled_step;
use crate::event::after_read_step;
use crate::event::EventStep;
use crate::event::global::command_outcome;
use crate::event::global::CommandConfig;
use crate::event::is_downward;
use crate::event::keys::count_fits;
use crate::event::keys::count_with;
use crate::event::keys::key_done;
use crate::event::keys::key_press;
use crate::event::keys::KeyStepView;
use crate::event::keys::offered;
use crate::event::mouse::MouseEvent;
use crate::event::mouse::WindowOutcome;
use crate::event::routed;
use crate::event::step::StepView;
use crate::event::TerminalEvent;
use crate::key::digit_of;
use crate::key::Key;
use crate::key::KeyCode;
use crate::key::KeyEvent;
use crate::key::KeymapConfig;
use crate::laws::change::is_done;
use crate::laws::change::is_not_for;
use crate::laws::change::is_unchanged;
use crate::layout::Orientation;
use crate::model::AppData;
use crate::player::PlayerState;
use crate::player::PlayingItem;
use crate::ui::UIView;

verus! {

/// Whether a binding begins with the given keys.
pub open spec fn begins_with(binding: Seq<Key>, keys: Seq<Key>) -> bool {
    &&& keys.len() <= binding.len()
    &&& forall|j: int| 0 <= j < keys.len() ==> #[trigger] keys[j] == binding[j]
}

/// Whether some binding begins with the given keys.
pub open spec fn is_begun(keymap: KeymapConfig, keys: Seq<Key>) -> bool {
    exists|i: int|
        0 <= i < keymap.bindings@.len() && begins_with((#[trigger] keymap.bindings@[i]).keys@, keys)
}

/// Keys are bound to what the first binding of just these keys says, and to nothing where there is no
/// such binding. They start a binding where some binding begins with them.
pub proof fn law_first_binding_counts(keymap: KeymapConfig, keys: Seq<Key>, i: int)
    ensures
        0 <= i < keymap.bindings@.len() && keymap.bindings@[i].keys@ == keys && (forall|j: int|
            0 <= j < i ==> (#[trigger] keymap.bindings@[j]).keys@ != keys) ==> keymap.bound(keys)
            == Some(keymap.bindings@[i].target),
        (forall|j: int|
            0 <= j < keymap.bindings@.len() ==> (#[trigger] keymap.bindings@[j]).keys@ != keys)
            ==> keymap.bound(keys) is None,
        keymap.starts_binding(keys) <==> is_begun(keymap, keys),
{
    if 0 <= i < keymap.bindings@.len() && keymap.bindings@[i].keys@ == keys && (forall|j: int|
        0 <= j < i ==> (#[trigger] keymap.bindings@[j]).keys@ != keys) {
        assert(keymap.first_binding(keys, i));
        let k = choose|k: int| keymap.first_binding(keys, k);
        assert(keymap.first_binding(keys, k));
        assert(k == i) by {
            if k < i {
                assert(keymap.bindings@[k].keys@ == keys);
            }
            if i < k {
                assert(keymap.bindings@[i].keys@ == keys);
            }
        }
    }
    if forall|j: int|
        0 <= j < keymap.bindings@.len() ==> (#[trigger] keymap.bindings@[j]).keys@ != keys {
        assert forall|k: int| !keymap.first_binding(keys, k) by {
            if keymap.first_binding(keys, k) {
                assert(keymap.bindings@[k].keys@ == keys);
            }
        }
    }
    assert forall|k: int| 0 <= k < keymap.bindings@.len() implies keys.is_prefix_of(
        (#[trigger] keymap.bindings@[k]).keys@,
    ) == begins_with(keymap.bindings@[k].keys@, keys) by {
        let binding = keymap.bindings@[k].keys@;
        if begins_with(binding, keys) {
            assert(keys =~= binding.subrange(0, keys.len() as int));
        }
        if keys.is_prefix_of(binding) {
            assert forall|j: int| 0 <= j < keys.len() implies #[trigger] keys[j] == binding[j] by {
                assert(binding.subrange(0, keys.len() as int)[j] == binding[j]);
            }
        }
    }
}

/// Escape alone closes the popup, or where there is none the current page, and takes keys and count
/// away; the first page stays open.
pub proof fn law_escape_closes(event: KeyEvent, keymap: KeymapConfig, ui: UIView)
    requires
        event.code == KeyCode::Esc,
        event.plain,
        ui.history.len() > 0,
    ensures
        ({
            let (step, after) = key_press(event, keymap, ui);
            &&& ui.popup is Some || ui.history.len() > 1 ==> step == KeyStepView::Consumed
                && after.popup is None && after.keys.len() == 0 && after.count_prefix is None
                && after == (UIView {
                history: after.history,
                popup: None,
                keys: after.keys,
                count_prefix: None,
                ..ui
            })
            &&& ui.popup is Some ==> after.history == ui.history
            &&& ui.popup is None && ui.history.len() > 1 ==> after.history =~= ui.history.take(
                ui.history.len() - 1,
            )
            &&& ui.popup is None && ui.history.len() == 1 ==> step is Offer && after == ui
        }),
{
}

/// Any other key is offered behind the keys before it where some binding begins with them all, and alone
/// otherwise; to the popup where one is open, and to the page otherwise. Until then nothing changes.
pub proof fn law_keys_are_offered(event: KeyEvent, keymap: KeymapConfig, ui: UIView)
    requires
        event.code != KeyCode::Esc || !event.plain || (ui.popup is None && ui.history.len() == 1),
    ensures
        ({
            let (step, after) = key_press(event, keymap, ui);
            &&& after == ui
            &&& step matches KeyStepView::Offer { keys, to_popup } && to_popup == (ui.popup is Some)
                && (is_begun(keymap, ui.keys.push(event.key)) ==> keys == ui.keys.push(event.key))
                && (!is_begun(keymap, ui.keys.push(event.key)) ==> keys == seq![event.key])
        }),
{
    law_first_binding_counts(keymap, ui.keys.push(event.key), 0);
}

/// What becomes of keys that were offered. Where the window took them they applied, and where it failed
/// its reason is reported; neither changes anything more. Keys that it did not take go to what their
/// first binding says, a command or an action, with everything as it is; keys that are not bound do
/// nothing.
pub proof fn law_untaken_keys_go_to_their_binding(
    keys: Seq<Key>,
    i: int,
    reason: String,
    keymap: KeymapConfig,
    playing: Option<PlayingItem>,
    player: PlayerState,
    config: CommandConfig,
    data: AppData,
    now: u64,
    ui: UIView,
    client: OutboxView,
)
    ensures
        ({
            let o = offered(
                keys,
                keymap,
                WindowOutcome::Handled,
                playing,
                player,
                config,
                data,
                now,
                ui,
                client,
            );
            is_done(o) && is_unchanged(o, ui, client)
        }),
        ({
            let o = offered(
                keys,
                keymap,
                WindowOutcome::Failed(reason),
                playing,
                player,
                config,
                data,
                now,
                ui,
                client,
            );
            o.result == Err::<StepView, ErrorView>(ErrorView::Window(reason@)) && is_unchanged(
                o,
                ui,
                client,
            )
        }),
        ({
            let o = offered(
                keys,
                keymap,
                WindowOutcome::NotHandled,
                playing,
                player,
                config,
                data,
                now,
                ui,
                client,
            );
            &&& 0 <= i < keymap.bindings@.len() && keymap.bindings@[i].keys@ == keys && (forall|j: int|
                0 <= j < i ==> (#[trigger] keymap.bindings@[j]).keys@ != keys) ==> o == (
            match keymap.bindings@[i].target {
                CommandOrAction::Command(command) => command_outcome(
                    command,
                    playing,
                    player,
                    config,
                    data,
                    now,
                    ui,
                    client,
                ),
                CommandOrAction::Action(action, target) => global_action_outcome(
                    action,
                    target,
                    playing,
                    data.user_data,
                    ui,
                    client,
                ),
            })
            &&& (forall|j: int|
                0 <= j < keymap.bindings@.len() ==> (#[trigger] keymap.bindings@[j]).keys@ != keys)
                ==> is_not_for(o) && is_unchanged(o, ui, client)
        }),
{
    law_first_binding_counts(keymap, keys, i);
}

/// The ten digits, typed without a modifier, stand for the numbers from zero to nine; no other key is a
/// digit.
pub proof fn law_digits(key: Key, d: usize)
    ensures
        digit_of(key) == Some(d) <==> (key matches Key::Plain(KeyCode::Char(c)) && d <= 9 && c as int
            == 48 + d),
{
}

/// A digit goes behind the count that is there, or begins one unless it is zero.
pub proof fn law_digits_make_the_count(count: usize, digit: usize)
    requires
        count * 10 + digit <= usize::MAX,
    ensures
        count_with(Some(count), digit) == Some((count * 10 + digit) as usize),
        digit > 0 ==> count_with(None, digit) == Some(digit),
        count_with(None, 0) is None,
{
}

/// A count goes on with a digit where the new number is one of the machine; a first digit always fits.
pub proof fn law_counts_that_fit(count: usize, digit: usize)
    ensures
        count_fits(Some(count), digit) <==> count * 10 + digit <= usize::MAX,
        count_fits(None, digit),
{
}

/// How a key press ends. Keys that applied are gone, with the count. A digit that did not apply goes into
/// the count and is no part of the keys. Other keys wait for more to come, and the count is gone. The
/// requests that were queued are taken out, and nothing else changes.
pub proof fn law_key_press_ends(key: Key, keys: Seq<Key>, handled: bool, ui: UIView)
    ensures
        ({
            let after = key_done(key, keys, handled, ui);
            &&& after == (UIView {
                keys: after.keys,
                count_prefix: after.count_prefix,
                pending: after.pending,
                ..ui
            })
            &&& after.pending.len() == 0
            &&& handled ==> after.keys.len() == 0 && after.count_prefix is None
            &&& !handled ==> match digit_of(key) {
                Some(digit) => after.keys.len() == 0 && after.count_prefix == count_with(
                    ui.count_prefix,
                    digit,
                ),
                None => after.keys == keys && after.count_prefix is None,
            }
        }),
{
}

/// Each event of the terminal goes to its handler as it came: the mouse to that of the mouse, the press
/// of a key to that of keys. A new size sets the orientation, and everything else is passed over. The
/// loop goes on after an event, failed or not, and stops where nothing can be read.
pub proof fn law_events_go_to_their_handlers(
    mouse: MouseEvent,
    key: KeyEvent,
    orientation: Orientation,
    failed: bool,
    event: TerminalEvent,
    ui: UIView,
)
    ensures
        routed(TerminalEvent::Mouse(mouse), ui) == (EventStep::Mouse(mouse), ui),
        routed(TerminalEvent::Key { event: key, press: true }, ui) == (EventStep::Key(key), ui),
        routed(TerminalEvent::Key { event: key, press: false }, ui) == (EventStep::Done, ui),
        routed(TerminalEvent::Resize(orientation), ui) == (
            EventStep::Done,
            UIView { orientation, ..ui },
        ),
        routed(TerminalEvent::Other, ui) == (EventStep::Done, ui),
        after_read_step(Some(event), ui) == routed(event, ui),
        after_read_step(None, ui) == (EventStep::Stop, ui),
        after_handled_step(failed) == EventStep::Done,
{
}

/// The commands that move toward the end of a list are those that select the next item, the next page of
/// items and the last one.
pub proof fn law_downward_commands(command: Command)
    ensures
        is_downward(command) <==> match command {
            Command::SelectNextOrScrollDown => true,
            Command::PageSelectNextOrScrollDown => true,
            Command::SelectLastOrScrollToBottom => true,
            _ => false,
        },
{
}

} // verus!
