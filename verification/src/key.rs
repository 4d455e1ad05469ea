//! Keys, key sequences and what they are bound to.

use vstd::prelude::*;

use crate::command::CommandOrAction;

verus! {

/// A key of the keyboard. The media keys and the modifiers are told apart by number.
#[derive(Debug, Clone, Copy, PartialEq, Eq, Structural)]
pub enum KeyCode {
    Backspace,
    Enter,
    Left,
    Right,
    Up,
    Down,
    Home,
    End,
    PageUp,
    PageDown,
    Tab,
    BackTab,
    Delete,
    Insert,
    F(u8),
    Char(char),
    Null,
    Esc,
    CapsLock,
    ScrollLock,
    NumLock,
    PrintScreen,
    Pause,
    Menu,
    KeypadBegin,
    Media(u8),
    Modifier(u8),
}

/// A key with the modifier that is held.
#[derive(Debug, Clone, Copy, PartialEq, Eq, Structural)]
pub enum Key {
    Plain(KeyCode),
    Ctrl(KeyCode),
    Alt(KeyCode),
    Unknown,
}

/// Keys that are pressed one after the other.
#[derive(Debug)]
pub struct KeySequence {
    pub keys: Vec<Key>,
}

impl View for KeySequence {
    type V = Seq<Key>;

    open spec fn view(&self) -> Seq<Key> {
        self.keys@
    }
}

impl Clone for KeySequence {
    fn clone(&self) -> (r: KeySequence)
        ensures
            r@ == self@,
    {
        let keys = self.keys.clone();
        assert(keys@ =~= self.keys@);
        KeySequence { keys }
    }
}

impl KeySequence {
    /// Whether the keys of this sequence are the first ones of `other`.
    pub fn is_prefix(&self, other: &KeySequence) -> (r: bool)
        ensures
            r == self@.is_prefix_of(other@),
    {
        if self.keys.len() > other.keys.len() {
            return false;
        }
        let mut i: usize = 0;
        while i < self.keys.len()
            invariant
                i <= self.keys@.len() <= other.keys@.len(),
                forall|j: int| 0 <= j < i ==> self.keys@[j] == other.keys@[j],
            decreases self.keys.len() - i,
        {
            if self.keys[i] != other.keys[i] {
                assert(self@[i as int] != other@.subrange(0, self@.len() as int)[i as int]);
                return false;
            }
            i = i + 1;
        }
        assert(self@ =~= other@.subrange(0, self@.len() as int));
        true
    }

    /// Whether both sequences hold the same keys.
    pub fn same(&self, other: &KeySequence) -> (r: bool)
        ensures
            r == (self@ == other@),
    {
        let r = self.keys.len() == other.keys.len() && self.is_prefix(other);
        assert(r ==> self@ =~= other@.subrange(0, other@.len() as int));
        assert(other@ =~= other@.subrange(0, other@.len() as int));
        r
    }
}

/// A key sequence and what it is bound to.
#[derive(Debug)]
pub struct KeyBinding {
    pub keys: KeySequence,
    pub target: CommandOrAction,
}

/// The key bindings, in the order in which they are looked up.
#[derive(Debug)]
pub struct KeymapConfig {
    pub bindings: Vec<KeyBinding>,
}

impl KeymapConfig {
    /// Whether `keys` are the first keys of some binding.
    pub open spec fn starts_binding(self, keys: Seq<Key>) -> bool {
        exists|i: int|
            0 <= i < self.bindings@.len() && keys.is_prefix_of(
                (#[trigger] self.bindings@[i]).keys@,
            )
    }

    /// Whether the binding at `i` is the first one for `keys`.
    pub open spec fn first_binding(self, keys: Seq<Key>, i: int) -> bool {
        &&& 0 <= i < self.bindings@.len()
        &&& self.bindings@[i].keys@ == keys
        &&& forall|j: int| 0 <= j < i ==> (#[trigger] self.bindings@[j]).keys@ != keys
    }

    /// What `keys` are bound to, by the first binding of them.
    pub open spec fn bound(self, keys: Seq<Key>) -> Option<CommandOrAction> {
        if exists|i: int| self.first_binding(keys, i) {
            Some(self.bindings@[choose|i: int| self.first_binding(keys, i)].target)
        } else {
            None
        }
    }

    /// Whether `keys` are the first keys of some binding.
    pub fn has_matched_prefix(&self, keys: &KeySequence) -> (r: bool)
        ensures
            r == self.starts_binding(keys@),
    {
        let mut i: usize = 0;
        while i < self.bindings.len()
            invariant
                i <= self.bindings@.len(),
                forall|j: int|
                    0 <= j < i ==> !keys@.is_prefix_of((#[trigger] self.bindings@[j]).keys@),
            decreases self.bindings.len() - i,
        {
            if keys.is_prefix(&self.bindings[i].keys) {
                return true;
            }
            i = i + 1;
        }
        false
    }

    /// What `keys` are bound to.
    pub fn find_command_or_action_from_key_sequence(&self, keys: &KeySequence) -> (r: Option<
        CommandOrAction,
    >)
        ensures
            r == self.bound(keys@),
    {
        let mut i: usize = 0;
        while i < self.bindings.len()
            invariant
                i <= self.bindings@.len(),
                forall|j: int| 0 <= j < i ==> (#[trigger] self.bindings@[j]).keys@ != keys@,
            decreases self.bindings.len() - i,
        {
            if self.bindings[i].keys.same(keys) {
                proof {
                    assert(self.first_binding(keys@, i as int));
                    let k = choose|k: int| self.first_binding(keys@, k);
                    assert(self.first_binding(keys@, k));
                    assert(k == i);
                }
                return Some(self.bindings[i].target);
            }
            i = i + 1;
        }
        None
    }
}

/// Every binding can be typed: each beginning of a bound sequence starts a binding.
pub proof fn law_beginnings_of_bindings(keymap: KeymapConfig, keys: Seq<Key>, n: int)
    requires
        keymap.bound(keys) is Some,
        0 <= n <= keys.len(),
    ensures
        keymap.starts_binding(keys.take(n)),
{
    let i = choose|i: int| keymap.first_binding(keys, i);
    assert(keymap.first_binding(keys, i));
    assert(keys.take(n).is_prefix_of(keymap.bindings@[i].keys@)) by {
        assert(keys.take(n) =~= keys.subrange(0, keys.take(n).len() as int));
    }
}

/// A key press, as the terminal reports it. `plain` says that no modifier is held, and `key` is
/// what the press means in a key sequence.
#[derive(Debug, Clone, Copy, PartialEq, Eq, Structural)]
pub struct KeyEvent {
    pub code: KeyCode,
    pub plain: bool,
    pub key: Key,
}

/// The value of a key that is a decimal digit.
pub open spec fn digit_of(key: Key) -> Option<usize> {
    match key {
        Key::Plain(KeyCode::Char(c)) => if '0' <= c <= '9' {
            Some((c as u32 - '0' as u32) as usize)
        } else {
            None
        },
        _ => None,
    }
}

/// The value of a key that is a decimal digit.
pub fn digit(key: Key) -> (r: Option<usize>)
    ensures
        r == digit_of(key),
        r matches Some(d) ==> d <= 9,
{
    match key {
        Key::Plain(KeyCode::Char(c)) => {
            if '0' <= c && c <= '9' {
                Some((c as u32 - '0' as u32) as usize)
            } else {
                None
            }
        },
        _ => None,
    }
}

} // verus!
