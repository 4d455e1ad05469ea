//! The handling of key presses.

use vstd::prelude::*;

use crate::client::Outbox;
use crate::client::OutboxView;
use crate::command::CommandOrAction;
use crate::error::ErrorView;
use crate::error::HandlerError;
use crate::event::action::global_action_outcome;
use crate::event::action::handle_global_action;
use crate::event::global::can_handle;
use crate::event::global::command_outcome;
use crate::event::global::CommandConfig;
use crate::event::global::handle_global_command;
use crate::event::global::player_after;
use crate::event::mouse::WindowOutcome;
use crate::event::step::applied;
use crate::event::step::ignored;
use crate::event::step::Outcome;
use crate::event::step::result_view;
use crate::event::step::Step;
use crate::key::digit;
use crate::key::digit_of;
use crate::key::Key;
use crate::key::KeyCode;
use crate::key::KeyEvent;
use crate::key::KeymapConfig;
use crate::key::KeySequence;
use crate::model::AppData;
use crate::page::PageView;
use crate::player::PlayerState;
use crate::player::PlayingItem;
use crate::ui::PendingClientRequest;
use crate::ui::PendingView;
use crate::ui::UIState;
use crate::ui::UIView;

verus! {

/// What is to be done with a key that has been pressed.
#[derive(Debug)]
pub enum KeyStep {
    /// Nothing is left to do.
    Consumed,
    /// Offer the keys to the popup or to the page, then go on with `run_global_binding`.
    Offer { keys: KeySequence, to_popup: bool },
}

/// What is to be done with a key that has been pressed.
pub enum KeyStepView {
    Consumed,
    Offer { keys: Seq<Key>, to_popup: bool },
}

impl View for KeyStep {
    type V = KeyStepView;

    open spec fn view(&self) -> KeyStepView {
        match *self {
            KeyStep::Consumed => KeyStepView::Consumed,
            KeyStep::Offer { keys, to_popup } => KeyStepView::Offer { keys: keys@, to_popup },
        }
    }
}

/// Whether the press is that of the escape key alone.
pub open spec fn is_escape(event: KeyEvent) -> bool {
    event.code == KeyCode::Esc && event.plain
}

/// The keys that have been pressed, with the last one: a key that continues no binding starts anew.
pub open spec fn sequence_with(keymap: KeymapConfig, keys: Seq<Key>, key: Key) -> Seq<Key> {
    if keymap.starts_binding(keys.push(key)) {
        keys.push(key)
    } else {
        seq![key]
    }
}

/// The same without keys and count.
pub open spec fn without_input(ui: UIView) -> UIView {
    UIView { keys: Seq::empty(), count_prefix: None, ..ui }
}

/// What a key press comes to, before the keys are offered to anyone: escape closes the popup, or
/// else the current page unless it is the only one.
pub open spec fn key_press(event: KeyEvent, keymap: KeymapConfig, ui: UIView) -> (
    KeyStepView,
    UIView,
) {
    if is_escape(event) && ui.popup is Some {
        (KeyStepView::Consumed, without_input(ui.with_popup(None)))
    } else if is_escape(event) && ui.history.len() > 1 {
        (KeyStepView::Consumed, without_input(ui.going_back()))
    } else {
        (
            KeyStepView::Offer {
                keys: sequence_with(keymap, ui.keys, event.key),
                to_popup: ui.popup is Some,
            },
            ui,
        )
    }
}

/// Takes a key press, up to the point where the keys are offered to the popup or to the page.
pub fn begin_key_event(event: KeyEvent, keymap: &KeymapConfig, ui: &mut UIState) -> (r: KeyStep)
    requires
        old(ui)@.has_page(),
    ensures
        (r@, final(ui)@) == key_press(event, *keymap, old(ui)@),
        final(ui)@.has_page(),
{
    if event.code == KeyCode::Esc && event.plain {
        if ui.popup.is_some() {
            ui.popup = None;
            ui.input_key_sequence.keys.clear();
            ui.count_prefix = None;
            assert(ui@.keys =~= Seq::<Key>::empty());
            return KeyStep::Consumed;
        }
        if ui.history.len() > 1 {
            ui.go_back();
            ui.input_key_sequence.keys.clear();
            ui.count_prefix = None;
            assert(ui@.keys =~= Seq::<Key>::empty());
            return KeyStep::Consumed;
        }
    }
    let mut keys = ui.input_key_sequence.clone();
    keys.keys.push(event.key);
    if !keymap.has_matched_prefix(&keys) {
        let mut alone: Vec<Key> = Vec::new();
        alone.push(event.key);
        keys = KeySequence { keys: alone };
        assert(keys@ =~= seq![event.key]);
    }
    KeyStep::Offer { keys, to_popup: ui.popup.is_some() }
}

/// What the keys come to once the popup or the page has had them. Keys that it did not take go to
/// what they are bound to.
pub open spec fn offered(
    keys: Seq<Key>,
    keymap: KeymapConfig,
    outcome: WindowOutcome,
    playing: Option<PlayingItem>,
    player: PlayerState,
    config: CommandConfig,
    data: AppData,
    now: u64,
    ui: UIView,
    client: OutboxView,
) -> Outcome {
    match outcome {
        WindowOutcome::Failed(reason) => Outcome {
            result: Err(ErrorView::Window(reason@)),
            ui,
            client,
        },
        WindowOutcome::Handled => applied(ui, client),
        WindowOutcome::NotHandled => match keymap.bound(keys) {
            Some(CommandOrAction::Action(action, target)) => global_action_outcome(
                action,
                target,
                playing,
                data.user_data,
                ui,
                client,
            ),
            Some(CommandOrAction::Command(command)) => command_outcome(
                command,
                playing,
                player,
                config,
                data,
                now,
                ui,
                client,
            ),
            None => ignored(ui, client),
        },
    }
}

/// Goes on with a key press once the popup or the page has had the keys. `playing` is what is
/// playing, `now` the reading of the clock.
pub fn run_global_binding(
    keys: &KeySequence,
    keymap: &KeymapConfig,
    outcome: WindowOutcome,
    playing: Option<PlayingItem>,
    player: &mut PlayerState,
    config: &CommandConfig,
    data: &AppData,
    now: u64,
    client_pub: &mut Outbox,
    ui: &mut UIState,
) -> (r: Result<Step, HandlerError>)
    requires
        old(ui)@.has_page(),
        outcome is NotHandled ==> (keymap.bound(keys@) matches Some(
            CommandOrAction::Command(command),
        ) ==> can_handle(command, playing, *old(player), *config)),
    ensures
        ({
            let o = offered(
                keys@,
                *keymap,
                outcome,
                playing,
                *old(player),
                *config,
                *data,
                now,
                old(ui)@,
                old(client_pub)@,
            );
            result_view(r) == o.result && final(ui)@ == o.ui && final(client_pub)@ == o.client
        }),
        outcome is NotHandled && keymap.bound(keys@) is Some && keymap.bound(
            keys@,
        )->0 is Command ==> *final(player) == player_after(
            keymap.bound(keys@)->0->Command_0,
            *old(player),
        ),
        !(outcome is NotHandled && keymap.bound(keys@) is Some && keymap.bound(
            keys@,
        )->0 is Command) ==> *final(player) == *old(player),
        final(ui)@.has_page(),
{
    match outcome {
        WindowOutcome::Failed(reason) => Err(HandlerError::Window(reason)),
        WindowOutcome::Handled => Ok(Step::Handled(true)),
        WindowOutcome::NotHandled => match keymap.find_command_or_action_from_key_sequence(keys) {
            Some(CommandOrAction::Action(action, target)) => handle_global_action(
                action,
                target,
                playing,
                client_pub,
                &data.user_data,
                ui,
            ),
            Some(CommandOrAction::Command(command)) => handle_global_command(
                command,
                playing,
                player,
                config,
                data,
                now,
                client_pub,
                ui,
            ),
            None => Ok(Step::Handled(false)),
        },
    }
}

/// The count after a digit has been typed. A count does not begin with zero.
pub open spec fn count_with(count: Option<usize>, digit: usize) -> Option<usize> {
    match count {
        Some(count) => Some((count * 10 + digit) as usize),
        None => if digit > 0 {
            Some(digit)
        } else {
            None
        },
    }
}

/// Whether the count that a digit leads to is a number of the machine.
pub open spec fn count_fits(count: Option<usize>, digit: usize) -> bool {
    count matches Some(count) ==> count * 10 + digit <= usize::MAX
}

/// Whether the count that a key leads to is a number of the machine.
pub fn has_room_for(count: Option<usize>, key: Key) -> (r: bool)
    ensures
        r == (digit_of(key) matches Some(digit) ==> count_fits(count, digit)),
{
    match (count, digit(key)) {
        (Some(count), Some(digit)) => {
            count <= usize::MAX / 10 && count * 10 <= usize::MAX - digit
        },
        _ => true,
    }
}

/// The interface after a key press, with the keys that were offered: keys that applied are
/// forgotten, a digit goes into the count, and other keys wait for more to come. The pending
/// requests are taken out.
pub open spec fn key_done(key: Key, keys: Seq<Key>, handled: bool, ui: UIView) -> UIView {
    let taken = UIView { pending: Seq::empty(), ..ui };
    if handled {
        without_input(taken)
    } else {
        match digit_of(key) {
            Some(digit) => UIView {
                keys: Seq::empty(),
                count_prefix: count_with(ui.count_prefix, digit),
                ..taken
            },
            None => UIView { keys, count_prefix: None, ..taken },
        }
    }
}

/// Ends a key press: `handled` says whether the keys applied. Gives back the pending requests, for
/// `process_pending_client_requests`.
pub fn finish_key_event(key: Key, keys: KeySequence, handled: bool, ui: &mut UIState) -> (r: Vec<
    PendingClientRequest,
>)
    requires
        !handled ==> (digit_of(key) matches Some(digit) ==> count_fits(
            old(ui)@.count_prefix,
            digit,
        )),
    ensures
        final(ui)@ == key_done(key, keys@, handled, old(ui)@),
        r@.map_values(|q: PendingClientRequest| q@) == old(ui)@.pending,
{
    if handled {
        ui.input_key_sequence = KeySequence { keys: Vec::new() };
        ui.count_prefix = None;
    } else {
        match digit(key) {
            Some(digit) => {
                ui.input_key_sequence = KeySequence { keys: Vec::new() };
                ui.count_prefix = match ui.count_prefix {
                    Some(count) => Some(count * 10 + digit),
                    None => {
                        if digit > 0 {
                            Some(digit)
                        } else {
                            None
                        }
                    },
                };
            },
            None => {
                ui.input_key_sequence = keys;
                ui.count_prefix = None;
            },
        }
    }
    let mut pending: Vec<PendingClientRequest> = Vec::new();
    std::mem::swap(&mut pending, &mut ui.pending_client_requests);
    assert(ui@.pending =~= Seq::<PendingView>::empty());
    pending
}

/// Escape undoes the opening of a page: the pages that were open before are open again.
pub proof fn law_escape_undoes_opening(
    event: KeyEvent,
    keymap: KeymapConfig,
    ui: UIView,
    page: PageView,
)
    requires
        is_escape(event),
        ui.has_page(),
    ensures
        key_press(event, keymap, ui.opening(page)) == (
            KeyStepView::Consumed,
            without_input(ui.with_popup(None)),
        ),
{
    assert(ui.opening(page).going_back().history =~= ui.history);
}

/// Escape closes the popup before it closes a page, and pressed again it closes the page.
pub proof fn law_escape_closes_popup_first(event: KeyEvent, keymap: KeymapConfig, ui: UIView)
    requires
        is_escape(event),
        ui.popup is Some,
        ui.history.len() > 1,
    ensures
        ({
            let once = key_press(event, keymap, ui).1;
            let twice = key_press(event, keymap, once).1;
            &&& once.popup is None && once.history == ui.history
            &&& twice.popup is None && twice.history == ui.history.drop_last()
        }),
{
}

/// A page always stays open, whatever keys are pressed.
pub proof fn law_a_page_stays_open(event: KeyEvent, keymap: KeymapConfig, ui: UIView)
    requires
        ui.has_page(),
    ensures
        key_press(event, keymap, ui).1.has_page(),
        ui.history.len() == 1 ==> key_press(event, keymap, ui).1.history == ui.history,
        forall|key: Key, keys: Seq<Key>, handled: bool|
            (#[trigger] key_done(key, keys, handled, ui)).history == ui.history,
{
}

/// The keys that are offered end with the key that was pressed, and where they are more than that
/// key alone, they begin some binding.
pub proof fn law_offered_keys(event: KeyEvent, keymap: KeymapConfig, ui: UIView)
    ensures
        key_press(event, keymap, ui).0 matches KeyStepView::Offer { keys, .. } ==> {
            &&& keys.len() > 0
            &&& keys.last() == event.key
            &&& keys == seq![event.key] || keymap.starts_binding(keys)
        },
{
}

/// A bound sequence can be typed: where the keys pressed so far are the beginning of a binding and
/// none of them applied on the way, the next key of the binding leads to its next beginning, so that
/// the last one offers the whole binding.
pub proof fn law_bindings_can_be_typed(
    event: KeyEvent,
    keymap: KeymapConfig,
    ui: UIView,
    binding: Seq<Key>,
    n: int,
)
    requires
        keymap.bound(binding) is Some,
        0 <= n < binding.len(),
        ui.keys == binding.take(n),
        event.key == binding[n],
        !is_escape(event),
    ensures
        key_press(event, keymap, ui).0 == (KeyStepView::Offer {
            keys: binding.take(n + 1),
            to_popup: ui.popup is Some,
        }),
        digit_of(event.key) is None ==> key_done(
            event.key,
            binding.take(n + 1),
            false,
            ui,
        ).keys == binding.take(n + 1),
{
    assert(binding.take(n).push(binding[n]) =~= binding.take(n + 1));
    crate::key::law_beginnings_of_bindings(keymap, binding, n + 1);
}

/// The number that decimal digits stand for.
pub open spec fn number(digits: Seq<usize>) -> nat
    decreases digits.len(),
{
    if digits.len() == 0 {
        0
    } else {
        number(digits.drop_last()) * 10 + digits.last() as nat
    }
}

/// The count after digits have been typed one after the other.
pub open spec fn count_typed(count: Option<usize>, digits: Seq<usize>) -> Option<usize>
    decreases digits.len(),
{
    if digits.len() == 0 {
        count
    } else {
        count_with(count_typed(count, digits.drop_last()), digits.last())
    }
}

/// Typing digits that do not begin with zero counts to the number that they stand for, and the
/// count fits at every step where the number does.
pub proof fn law_typed_count_is_number(digits: Seq<usize>)
    requires
        digits.len() > 0,
        digits[0] > 0,
        number(digits) <= usize::MAX,
    ensures
        count_typed(None, digits) == Some(number(digits) as usize),
        count_fits(count_typed(None, digits.drop_last()), digits.last()),
        number(digits) > 0,
    decreases digits.len(),
{
    let front = digits.drop_last();
    if front.len() == 0 {
        assert(number(front) == 0);
        assert(count_typed(None, front) == None::<usize>);
    } else {
        assert(front[0] == digits[0]);
        law_typed_count_is_number(front);
    }
}

/// Zeros that are typed before a count do not count.
pub proof fn law_leading_zero_is_no_count(digits: Seq<usize>)
    ensures
        count_typed(None, seq![0usize] + digits) == count_typed(None, digits),
    decreases digits.len(),
{
    let all = seq![0usize] + digits;
    if digits.len() == 0 {
        assert(all.drop_last() =~= Seq::<usize>::empty());
        assert(count_typed(None, all.drop_last()) == None::<usize>);
    } else {
        assert(all.drop_last() =~= seq![0usize] + digits.drop_last());
        assert(all.last() == digits.last());
        law_leading_zero_is_no_count(digits.drop_last());
    }
}

/// A count lives until some key applies or is no digit.
pub proof fn law_only_digits_keep_count(key: Key, keys: Seq<Key>, handled: bool, ui: UIView)
    ensures
        handled || digit_of(key) is None ==> key_done(key, keys, handled, ui).count_prefix is None,
        key_done(key, keys, handled, ui).pending == Seq::<PendingView>::empty(),
{
}

} // verus!
