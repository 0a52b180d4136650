//! What a key event changes in the GUI's input state: the key's down flag,
//! the matching modifier flag, and the characters queued as text input.
use vstd::prelude::*;

verus! {

/// The delete control character, which a key-down may report as written text.
/// It is never queued: the GUI would insert it and then delete it.
pub const DEL: char = '\u{7f}';

/// A physical modifier key.
#[derive(Clone, Copy, Debug, PartialEq, Eq, Structural)]
pub enum ModifierKey {
    ShiftLeft,
    ShiftRight,
    ControlLeft,
    ControlRight,
    AltLeft,
    AltRight,
    MetaLeft,
    MetaRight,
}

/// A modifier flag of the GUI's input state.
#[derive(Clone, Copy, Debug, PartialEq, Eq, Structural)]
pub enum Modifier {
    Shift,
    Ctrl,
    Alt,
    Super,
}

/// The flag that a modifier key drives; left and right keys drive the same one.
pub open spec fn flag_of(k: ModifierKey) -> Modifier {
    match k {
        ModifierKey::ShiftLeft | ModifierKey::ShiftRight => Modifier::Shift,
        ModifierKey::ControlLeft | ModifierKey::ControlRight => Modifier::Ctrl,
        ModifierKey::AltLeft | ModifierKey::AltRight => Modifier::Alt,
        ModifierKey::MetaLeft | ModifierKey::MetaRight => Modifier::Super,
    }
}

/// The flag that modifier key `k` drives.
pub fn modifier_flag(k: ModifierKey) -> (r: Modifier)
    ensures
        r == flag_of(k),
{
    match k {
        ModifierKey::ShiftLeft | ModifierKey::ShiftRight => Modifier::Shift,
        ModifierKey::ControlLeft | ModifierKey::ControlRight => Modifier::Ctrl,
        ModifierKey::AltLeft | ModifierKey::AltRight => Modifier::Alt,
        ModifierKey::MetaLeft | ModifierKey::MetaRight => Modifier::Super,
    }
}

/// A key that the GUI navigates or edits with, and therefore needs mapped to
/// a slot of the down-flag table.
#[derive(Clone, Copy, Debug, PartialEq, Eq, Structural)]
pub enum GuiKey {
    Tab,
    LeftArrow,
    RightArrow,
    UpArrow,
    DownArrow,
    PageUp,
    PageDown,
    Home,
    End,
    Insert,
    Delete,
    Backspace,
    Space,
    Enter,
    Escape,
    KeyPadEnter,
    A,
    C,
    V,
    X,
    Y,
    Z,
}

/// A physical key code that the key map uses.
#[derive(Clone, Copy, Debug, PartialEq, Eq, Structural)]
pub enum KeyCode {
    Tab,
    ArrowLeft,
    ArrowUp,
    ArrowDown,
    PageUp,
    PageDown,
    Home,
    End,
    Insert,
    Delete,
    Backspace,
    Space,
    Enter,
    Escape,
    NumpadEnter,
    KeyA,
    KeyC,
    KeyV,
    KeyX,
    KeyY,
    KeyZ,
}

/// The physical key each GUI key is read from. The right arrow is read from
/// the left-arrow code.
pub open spec fn code_for(k: GuiKey) -> KeyCode {
    match k {
        GuiKey::Tab => KeyCode::Tab,
        GuiKey::LeftArrow => KeyCode::ArrowLeft,
        GuiKey::RightArrow => KeyCode::ArrowLeft,
        GuiKey::UpArrow => KeyCode::ArrowUp,
        GuiKey::DownArrow => KeyCode::ArrowDown,
        GuiKey::PageUp => KeyCode::PageUp,
        GuiKey::PageDown => KeyCode::PageDown,
        GuiKey::Home => KeyCode::Home,
        GuiKey::End => KeyCode::End,
        GuiKey::Insert => KeyCode::Insert,
        GuiKey::Delete => KeyCode::Delete,
        GuiKey::Backspace => KeyCode::Backspace,
        GuiKey::Space => KeyCode::Space,
        GuiKey::Enter => KeyCode::Enter,
        GuiKey::Escape => KeyCode::Escape,
        GuiKey::KeyPadEnter => KeyCode::NumpadEnter,
        GuiKey::A => KeyCode::KeyA,
        GuiKey::C => KeyCode::KeyC,
        GuiKey::V => KeyCode::KeyV,
        GuiKey::X => KeyCode::KeyX,
        GuiKey::Y => KeyCode::KeyY,
        GuiKey::Z => KeyCode::KeyZ,
    }
}

/// The physical key that GUI key `k` is read from.
pub fn key_code(k: GuiKey) -> (r: KeyCode)
    ensures
        r == code_for(k),
{
    match k {
        GuiKey::Tab => KeyCode::Tab,
        GuiKey::LeftArrow => KeyCode::ArrowLeft,
        GuiKey::RightArrow => KeyCode::ArrowLeft,
        GuiKey::UpArrow => KeyCode::ArrowUp,
        GuiKey::DownArrow => KeyCode::ArrowDown,
        GuiKey::PageUp => KeyCode::PageUp,
        GuiKey::PageDown => KeyCode::PageDown,
        GuiKey::Home => KeyCode::Home,
        GuiKey::End => KeyCode::End,
        GuiKey::Insert => KeyCode::Insert,
        GuiKey::Delete => KeyCode::Delete,
        GuiKey::Backspace => KeyCode::Backspace,
        GuiKey::Space => KeyCode::Space,
        GuiKey::Enter => KeyCode::Enter,
        GuiKey::Escape => KeyCode::Escape,
        GuiKey::KeyPadEnter => KeyCode::NumpadEnter,
        GuiKey::A => KeyCode::KeyA,
        GuiKey::C => KeyCode::KeyC,
        GuiKey::V => KeyCode::KeyV,
        GuiKey::X => KeyCode::KeyX,
        GuiKey::Y => KeyCode::KeyY,
        GuiKey::Z => KeyCode::KeyZ,
    }
}

/// The characters of `s` that are queued as text input: all but `DEL`, in order.
pub open spec fn typed(s: Seq<char>) -> Seq<char> {
    s.filter(|c: char| c != DEL)
}

/// The text-input characters of written text `s`.
pub fn text_input(s: &str) -> (r: Vec<char>)
    ensures
        r@ == typed(s@),
{
    let n = s.unicode_len();
    let mut r: Vec<char> = Vec::new();
    let mut i: usize = 0;
    while i < n
        invariant
            n == s@.len(),
            i <= n,
            r@ == typed(s@.subrange(0, i as int)),
        decreases n - i,
    {
        let c = s.get_char(i);
        proof {
            let t = s@.subrange(0, i + 1);
            assert(t.drop_last() =~= s@.subrange(0, i as int));
            assert(t.last() == c);
            reveal(Seq::filter);
        }
        if c != DEL {
            r.push(c);
        }
        i = i + 1;
    }
    proof {
        assert(s@.subrange(0, n as int) =~= s@);
    }
    r
}

/// The changes that one key event makes to the input state.
#[derive(Clone, Debug)]
pub struct KeyChange {
    /// The key's slot in the down-flag table, as the event gave it.
    pub key_index: usize,
    /// The value that slot and the modifier flag (if any) take.
    pub down: bool,
    /// The modifier flag that the key also drives.
    pub modifier: Option<Modifier>,
    /// Characters to queue as text input, in order.
    pub text: Vec<char>,
}

/// Translates a key event: key slot `key_index`, the modifier key it is (if
/// any), whether it went down, and the text it wrote (if it wrote any).
///
/// The key's slot and its modifier flag take the new state. Text is queued
/// only on a key-down, without `DEL`.
pub fn key_change(key_index: usize, modifier_key: Option<ModifierKey>, down: bool, written: Option<&str>) -> (r: KeyChange)
    ensures
        r.key_index == key_index,
        r.down == down,
        r.modifier == match modifier_key {
            Some(k) => Some(flag_of(k)),
            None => None::<Modifier>,
        },
        r.text@ == match written {
            Some(s) if down => typed(s@),
            _ => Seq::<char>::empty(),
        },
{
    let modifier = match modifier_key {
        Some(k) => Some(modifier_flag(k)),
        None => None,
    };
    let text = match written {
        Some(s) if down => text_input(s),
        _ => Vec::new(),
    };
    KeyChange { key_index, down, modifier, text }
}

/// `DEL` is never queued as text input, and every other written character is.
pub proof fn lemma_del_never_typed(s: Seq<char>)
    ensures
        !typed(s).contains(DEL),
        forall|i: int| 0 <= i < s.len() && s[i] != DEL ==> typed(s).contains(#[trigger] s[i]),
{
    broadcast use vstd::seq_lib::group_filter_ensures;

    if typed(s).contains(DEL) {
        let j = choose|j: int| 0 <= j < typed(s).len() && typed(s)[j] == DEL;
        assert(typed(s)[j] != DEL);
    }
}

} // verus!
