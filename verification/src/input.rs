//! Remote pointer and keyboard input: what a remote-input request or a VNC
//! pointer or key event does to the virtual input device.
//!
//! The decisions here produce `InputAction`s; the runtime performs them on
//! a virtual input device, in order.  Codes are Linux input event codes.
use crate::clock::{instant_now, nanos_between};
use crate::notification::opt_view;
use crate::text::{owned, str_eq};
use vstd::prelude::*;
use vstd::string::StrSliceExecFns;

verus! {

/// `KEY_ESC`.
pub const KEY_ESC: u16 = 1;
/// `KEY_1`; `KEY_2` .. `KEY_9` follow it.
pub const KEY_1: u16 = 2;
/// `KEY_0`.
pub const KEY_0: u16 = 11;
/// `KEY_MINUS`.
pub const KEY_MINUS: u16 = 12;
/// `KEY_EQUAL`.
pub const KEY_EQUAL: u16 = 13;
/// `KEY_BACKSPACE`.
pub const KEY_BACKSPACE: u16 = 14;
/// `KEY_TAB`.
pub const KEY_TAB: u16 = 15;
/// `KEY_LEFTBRACE`.
pub const KEY_LEFTBRACE: u16 = 26;
/// `KEY_RIGHTBRACE`.
pub const KEY_RIGHTBRACE: u16 = 27;
/// `KEY_ENTER`.
pub const KEY_ENTER: u16 = 28;
/// `KEY_SEMICOLON`.
pub const KEY_SEMICOLON: u16 = 39;
/// `KEY_APOSTROPHE`.
pub const KEY_APOSTROPHE: u16 = 40;
/// `KEY_GRAVE`.
pub const KEY_GRAVE: u16 = 41;
/// `KEY_BACKSLASH`.
pub const KEY_BACKSLASH: u16 = 43;
/// `KEY_COMMA`.
pub const KEY_COMMA: u16 = 51;
/// `KEY_DOT`.
pub const KEY_DOT: u16 = 52;
/// `KEY_SLASH`.
pub const KEY_SLASH: u16 = 53;
/// `KEY_SPACE`.
pub const KEY_SPACE: u16 = 57;
/// `KEY_F1`; `KEY_F2` .. `KEY_F10` follow it.
pub const KEY_F1: u16 = 59;
/// `KEY_F11`.
pub const KEY_F11: u16 = 87;
/// `KEY_F12`.
pub const KEY_F12: u16 = 88;
/// `KEY_HOME`.
pub const KEY_HOME: u16 = 102;
/// `KEY_UP`.
pub const KEY_UP: u16 = 103;
/// `KEY_PAGEUP`.
pub const KEY_PAGEUP: u16 = 104;
/// `KEY_LEFT`.
pub const KEY_LEFT: u16 = 105;
/// `KEY_RIGHT`.
pub const KEY_RIGHT: u16 = 106;
/// `KEY_END`.
pub const KEY_END: u16 = 107;
/// `KEY_DOWN`.
pub const KEY_DOWN: u16 = 108;
/// `KEY_PAGEDOWN`.
pub const KEY_PAGEDOWN: u16 = 109;
/// `KEY_DELETE`.
pub const KEY_DELETE: u16 = 111;
/// `BTN_LEFT`.
pub const BTN_LEFT: u16 = 0x110;
/// `BTN_RIGHT`.
pub const BTN_RIGHT: u16 = 0x111;
/// `BTN_MIDDLE`.
pub const BTN_MIDDLE: u16 = 0x112;

/// The key code of a letter in the QWERTY rows, by its lower-case form.
pub open spec fn letter_keycode(c: char) -> Option<u16> {
    if c == 'q' { Some(16u16) } else if c == 'w' { Some(17u16) } else if c == 'e' { Some(18u16) }
    else if c == 'r' { Some(19u16) } else if c == 't' { Some(20u16) } else if c == 'y' { Some(21u16) }
    else if c == 'u' { Some(22u16) } else if c == 'i' { Some(23u16) } else if c == 'o' { Some(24u16) }
    else if c == 'p' { Some(25u16) } else if c == 'a' { Some(30u16) } else if c == 's' { Some(31u16) }
    else if c == 'd' { Some(32u16) } else if c == 'f' { Some(33u16) } else if c == 'g' { Some(34u16) }
    else if c == 'h' { Some(35u16) } else if c == 'j' { Some(36u16) } else if c == 'k' { Some(37u16) }
    else if c == 'l' { Some(38u16) } else if c == 'z' { Some(44u16) } else if c == 'x' { Some(45u16) }
    else if c == 'c' { Some(46u16) } else if c == 'v' { Some(47u16) } else if c == 'b' { Some(48u16) }
    else if c == 'n' { Some(49u16) } else if c == 'm' { Some(50u16) } else { None }
}

/// The lower-case form of an ASCII upper-case letter; other characters
/// unchanged.
pub open spec fn ascii_lower(c: char) -> char {
    if 'A' <= c && c <= 'Z' { ((c as u32) + 32) as char } else { c }
}

/// The key code typing `c`: letters of either case, digits, space, newline,
/// tab and the punctuation of the main block; `None` for anything else.
pub open spec fn char_keycode(c: char) -> Option<u16> {
    if letter_keycode(ascii_lower(c)) is Some {
        letter_keycode(ascii_lower(c))
    } else if c == '0' {
        Some(KEY_0)
    } else if '1' <= c && c <= '9' {
        Some((KEY_1 + (c as u32 - '1' as u32)) as u16)
    } else if c == ' ' {
        Some(KEY_SPACE)
    } else if c == '\n' {
        Some(KEY_ENTER)
    } else if c == '\t' {
        Some(KEY_TAB)
    } else if c == '.' {
        Some(KEY_DOT)
    } else if c == ',' {
        Some(KEY_COMMA)
    } else if c == '/' {
        Some(KEY_SLASH)
    } else if c == '-' {
        Some(KEY_MINUS)
    } else if c == '=' {
        Some(KEY_EQUAL)
    } else if c == '[' {
        Some(KEY_LEFTBRACE)
    } else if c == ']' {
        Some(KEY_RIGHTBRACE)
    } else if c == ';' {
        Some(KEY_SEMICOLON)
    } else if c == '\'' {
        Some(KEY_APOSTROPHE)
    } else if c == '`' {
        Some(KEY_GRAVE)
    } else if c == '\\' {
        Some(KEY_BACKSLASH)
    } else {
        None
    }
}

fn letter_code(c: char) -> (r: Option<u16>)
    ensures
        r == letter_keycode(c),
{
    match c {
        'q' => Some(16), 'w' => Some(17), 'e' => Some(18), 'r' => Some(19), 't' => Some(20),
        'y' => Some(21), 'u' => Some(22), 'i' => Some(23), 'o' => Some(24), 'p' => Some(25),
        'a' => Some(30), 's' => Some(31), 'd' => Some(32), 'f' => Some(33), 'g' => Some(34),
        'h' => Some(35), 'j' => Some(36), 'k' => Some(37), 'l' => Some(38), 'z' => Some(44),
        'x' => Some(45), 'c' => Some(46), 'v' => Some(47), 'b' => Some(48), 'n' => Some(49),
        'm' => Some(50),
        _ => None,
    }
}

/// The key code typing `ch`, if it has one.
pub fn char_to_keycode(ch: char) -> (r: Option<u16>)
    ensures
        r == char_keycode(ch),
{
    let lower: char = if 'A' <= ch && ch <= 'Z' {
        let v: u32 = (ch as u32) + 32;
        assert(v == ((ch as u32) + 32) as u32);
        char_from_ascii(v)
    } else {
        ch
    };
    let letter = letter_code(lower);
    if letter.is_some() {
        return letter;
    }
    match ch {
        '0' => Some(KEY_0),
        '1' => Some(2), '2' => Some(3), '3' => Some(4), '4' => Some(5), '5' => Some(6),
        '6' => Some(7), '7' => Some(8), '8' => Some(9), '9' => Some(10),
        ' ' => Some(KEY_SPACE),
        '\n' => Some(KEY_ENTER),
        '\t' => Some(KEY_TAB),
        '.' => Some(KEY_DOT),
        ',' => Some(KEY_COMMA),
        '/' => Some(KEY_SLASH),
        '-' => Some(KEY_MINUS),
        '=' => Some(KEY_EQUAL),
        '[' => Some(KEY_LEFTBRACE),
        ']' => Some(KEY_RIGHTBRACE),
        ';' => Some(KEY_SEMICOLON),
        '\'' => Some(KEY_APOSTROPHE),
        '`' => Some(KEY_GRAVE),
        '\\' => Some(KEY_BACKSLASH),
        _ => None,
    }
}

/// The character of an ASCII lower-case letter code.
fn char_from_ascii(v: u32) -> (r: char)
    requires
        'a' as u32 <= v <= 'z' as u32,
    ensures
        r == v as char,
{
    match v {
        97 => 'a', 98 => 'b', 99 => 'c', 100 => 'd', 101 => 'e', 102 => 'f', 103 => 'g',
        104 => 'h', 105 => 'i', 106 => 'j', 107 => 'k', 108 => 'l', 109 => 'm', 110 => 'n',
        111 => 'o', 112 => 'p', 113 => 'q', 114 => 'r', 115 => 's', 116 => 't', 117 => 'u',
        118 => 'v', 119 => 'w', 120 => 'x', 121 => 'y', _ => 'z',
    }
}

/// Non-printable keys of the remote-input protocol, by their protocol
/// number.
#[derive(Debug, Clone, Copy, PartialEq, Eq, Structural)]
pub enum SpecialKey {
    Backspace,
    Tab,
    Enter,
    Escape,
    Left,
    Up,
    Right,
    Down,
    PageUp,
    PageDown,
    Home,
    End,
    Delete,
    F1,
    F2,
    F3,
    F4,
    F5,
    F6,
    F7,
    F8,
    F9,
    F10,
    F11,
    F12,
}

/// The protocol number of a special key.
pub open spec fn special_key_number(k: SpecialKey) -> i32 {
    match k {
        SpecialKey::Backspace => 1,
        SpecialKey::Tab => 2,
        SpecialKey::Enter => 12,
        SpecialKey::Escape => 27,
        SpecialKey::Left => 21,
        SpecialKey::Up => 22,
        SpecialKey::Right => 23,
        SpecialKey::Down => 24,
        SpecialKey::PageUp => 25,
        SpecialKey::PageDown => 26,
        SpecialKey::Home => 28,
        SpecialKey::End => 29,
        SpecialKey::Delete => 30,
        SpecialKey::F1 => 31,
        SpecialKey::F2 => 32,
        SpecialKey::F3 => 33,
        SpecialKey::F4 => 34,
        SpecialKey::F5 => 35,
        SpecialKey::F6 => 36,
        SpecialKey::F7 => 37,
        SpecialKey::F8 => 38,
        SpecialKey::F9 => 39,
        SpecialKey::F10 => 40,
        SpecialKey::F11 => 41,
        SpecialKey::F12 => 42,
    }
}

/// The key code of a special key number: Backspace, Tab, Enter, Escape,
/// the arrows, PageUp/PageDown, Home/End, Delete and F1..F12.
pub open spec fn special_keycode(n: i32) -> Option<u16> {
    if n == 1 { Some(KEY_BACKSPACE) } else if n == 2 { Some(KEY_TAB) } else if n == 12 { Some(KEY_ENTER) }
    else if n == 27 { Some(KEY_ESC) } else if n == 21 { Some(KEY_LEFT) } else if n == 22 { Some(KEY_UP) }
    else if n == 23 { Some(KEY_RIGHT) } else if n == 24 { Some(KEY_DOWN) } else if n == 25 { Some(KEY_PAGEUP) }
    else if n == 26 { Some(KEY_PAGEDOWN) } else if n == 28 { Some(KEY_HOME) } else if n == 29 { Some(KEY_END) }
    else if n == 30 { Some(KEY_DELETE) } else if 31 <= n && n <= 40 { Some((KEY_F1 + (n - 31)) as u16) }
    else if n == 41 { Some(KEY_F11) } else if n == 42 { Some(KEY_F12) } else { None }
}

impl SpecialKey {
    /// The protocol number of this key.
    pub fn number(self) -> (r: i32)
        ensures
            r == special_key_number(self),
    {
        match self {
            SpecialKey::Backspace => 1,
            SpecialKey::Tab => 2,
            SpecialKey::Enter => 12,
            SpecialKey::Escape => 27,
            SpecialKey::Left => 21,
            SpecialKey::Up => 22,
            SpecialKey::Right => 23,
            SpecialKey::Down => 24,
            SpecialKey::PageUp => 25,
            SpecialKey::PageDown => 26,
            SpecialKey::Home => 28,
            SpecialKey::End => 29,
            SpecialKey::Delete => 30,
            SpecialKey::F1 => 31,
            SpecialKey::F2 => 32,
            SpecialKey::F3 => 33,
            SpecialKey::F4 => 34,
            SpecialKey::F5 => 35,
            SpecialKey::F6 => 36,
            SpecialKey::F7 => 37,
            SpecialKey::F8 => 38,
            SpecialKey::F9 => 39,
            SpecialKey::F10 => 40,
            SpecialKey::F11 => 41,
            SpecialKey::F12 => 42,
        }
    }
}

/// Every special key has a key code.
pub proof fn lemma_special_keys_mapped(k: SpecialKey)
    ensures
        special_keycode(special_key_number(k)) is Some,
{
}

/// The key code of special key number `special`, if it is one.
pub fn special_key_to_keycode(special: i32) -> (r: Option<u16>)
    ensures
        r == special_keycode(special),
{
    match special {
        1 => Some(KEY_BACKSPACE),
        2 => Some(KEY_TAB),
        12 => Some(KEY_ENTER),
        27 => Some(KEY_ESC),
        21 => Some(KEY_LEFT),
        22 => Some(KEY_UP),
        23 => Some(KEY_RIGHT),
        24 => Some(KEY_DOWN),
        25 => Some(KEY_PAGEUP),
        26 => Some(KEY_PAGEDOWN),
        28 => Some(KEY_HOME),
        29 => Some(KEY_END),
        30 => Some(KEY_DELETE),
        31 => Some(59),
        32 => Some(60),
        33 => Some(61),
        34 => Some(62),
        35 => Some(63),
        36 => Some(64),
        37 => Some(65),
        38 => Some(66),
        39 => Some(67),
        40 => Some(68),
        41 => Some(KEY_F11),
        42 => Some(KEY_F12),
        _ => None,
    }
}

/// One operation on the virtual input device.
#[derive(Debug, Clone, Copy, PartialEq, Eq, Structural)]
pub enum InputAction {
    /// Move the pointer gradually by a relative amount.
    SmoothMove { dx: i32, dy: i32 },
    /// Scroll gradually by a relative amount.
    SmoothScroll { dx: i32, dy: i32 },
    /// Move the pointer by a relative amount.
    Move { dx: i32, dy: i32 },
    /// Press and release a key or button.
    Click(u16),
    /// Click a button twice; the second click only if the first worked.
    DoubleClick(u16),
    /// Press a key or button.
    Press(u16),
    /// Release a key or button.
    Release(u16),
}

/// A remote-input request, with its movement already in whole units.
#[derive(Debug)]
pub struct InputRequest {
    /// Characters to type.
    pub key: Option<String>,
    /// A special key number.
    pub special_key: Option<i32>,
    /// Alt modifier.
    pub alt: Option<bool>,
    /// Ctrl modifier.
    pub ctrl: Option<bool>,
    /// Shift modifier.
    pub shift: Option<bool>,
    /// Super modifier.
    pub super_key: Option<bool>,
    /// Single left click.
    pub singleclick: Option<bool>,
    /// Double left click.
    pub doubleclick: Option<bool>,
    /// Middle click.
    pub middleclick: Option<bool>,
    /// Right click.
    pub rightclick: Option<bool>,
    /// Press the left button.
    pub singlehold: Option<bool>,
    /// Release the left button.
    pub singlerelease: Option<bool>,
    /// Horizontal movement.
    pub dx: Option<i32>,
    /// Vertical movement.
    pub dy: Option<i32>,
    /// Whether the movement scrolls.
    pub scroll: Option<bool>,
    /// Whether an echo is asked for.
    pub send_ack: Option<bool>,
}

/// `o`, or `false` when absent.
pub open spec fn flag(o: Option<bool>) -> bool {
    match o {
        Some(b) => b,
        None => false,
    }
}

/// `o`, or 0 when absent.
pub open spec fn amount(o: Option<i32>) -> i32 {
    match o {
        Some(v) => v,
        None => 0,
    }
}

/// The clicks typing the characters of `s`, in order; characters without a
/// key code are skipped.
pub open spec fn typing_actions(s: Seq<char>) -> Seq<InputAction>
    decreases s.len(),
{
    if s.len() == 0 {
        Seq::empty()
    } else {
        typing_actions(s.drop_last()) + match char_keycode(s.last()) {
            Some(code) => seq![InputAction::Click(code)],
            None => Seq::<InputAction>::empty(),
        }
    }
}

/// The pointer movement of a request: a scroll or a move by the given
/// amounts (absent ones as 0), when either amount is given.
pub open spec fn movement_actions(dx: Option<i32>, dy: Option<i32>, scroll: Option<bool>) -> Seq<InputAction> {
    if dx is Some || dy is Some {
        if flag(scroll) {
            seq![InputAction::SmoothScroll { dx: amount(dx), dy: amount(dy) }]
        } else {
            seq![InputAction::SmoothMove { dx: amount(dx), dy: amount(dy) }]
        }
    } else {
        Seq::empty()
    }
}

/// The button operations of a request, in the order single, double,
/// middle and right click, left press, left release.
pub open spec fn click_actions(
    singleclick: Option<bool>,
    doubleclick: Option<bool>,
    middleclick: Option<bool>,
    rightclick: Option<bool>,
    singlehold: Option<bool>,
    singlerelease: Option<bool>,
) -> Seq<InputAction> {
    (if flag(singleclick) { seq![InputAction::Click(BTN_LEFT)] } else { Seq::empty() })
        + (if flag(doubleclick) { seq![InputAction::DoubleClick(BTN_LEFT)] } else { Seq::empty() })
        + (if flag(middleclick) { seq![InputAction::Click(BTN_MIDDLE)] } else { Seq::empty() })
        + (if flag(rightclick) { seq![InputAction::Click(BTN_RIGHT)] } else { Seq::empty() })
        + (if flag(singlehold) { seq![InputAction::Press(BTN_LEFT)] } else { Seq::empty() })
        + (if flag(singlerelease) { seq![InputAction::Release(BTN_LEFT)] } else { Seq::empty() })
}

/// `seq![a]` when `b`, else nothing: it holds `x` exactly when `b` and
/// `a == x`.
proof fn lemma_optional_action_contains(b: bool, a: InputAction, x: InputAction)
    ensures
        (if b { seq![a] } else { Seq::<InputAction>::empty() }).contains(x) <==> (b && a == x),
{
    if b {
        assert(seq![a][0] == a);
    }
}

/// The number of set flags among six.
pub open spec fn flags_set(a: bool, b: bool, c: bool, d: bool, e: bool, f: bool) -> nat {
    (if a { 1nat } else { 0nat }) + (if b { 1nat } else { 0nat }) + (if c { 1nat } else { 0nat })
        + (if d { 1nat } else { 0nat }) + (if e { 1nat } else { 0nat }) + (if f { 1nat } else { 0nat })
}

/// Mouse buttons of a request, by their Linux input codes (left 0x110,
/// right 0x111, middle 0x112): a single click clicks the left button, a
/// double click double-clicks it, a middle click clicks the middle button,
/// a right click the right button, hold and release press and release the
/// left button; each set flag gives exactly one action and nothing else
/// does.  A request with no movement, text or special key does only that.
pub proof fn lemma_click_buttons(
    singleclick: Option<bool>,
    doubleclick: Option<bool>,
    middleclick: Option<bool>,
    rightclick: Option<bool>,
    singlehold: Option<bool>,
    singlerelease: Option<bool>,
    scroll: Option<bool>,
)
    ensures
        ({
            let a = click_actions(singleclick, doubleclick, middleclick, rightclick, singlehold, singlerelease);
            &&& a.contains(InputAction::Click(0x110u16)) <==> flag(singleclick)
            &&& a.contains(InputAction::DoubleClick(0x110u16)) <==> flag(doubleclick)
            &&& a.contains(InputAction::Click(0x112u16)) <==> flag(middleclick)
            &&& a.contains(InputAction::Click(0x111u16)) <==> flag(rightclick)
            &&& a.contains(InputAction::Press(0x110u16)) <==> flag(singlehold)
            &&& a.contains(InputAction::Release(0x110u16)) <==> flag(singlerelease)
            &&& a.len() == flags_set(flag(singleclick), flag(doubleclick), flag(middleclick),
                flag(rightclick), flag(singlehold), flag(singlerelease))
            &&& request_actions_of(None, None, singleclick, doubleclick, middleclick, rightclick,
                singlehold, singlerelease, None, None, scroll) == a
        }),
{
    broadcast use vstd::seq_lib::lemma_seq_concat_contains_all_elements;
    let p1 = if flag(singleclick) { seq![InputAction::Click(BTN_LEFT)] } else { Seq::<InputAction>::empty() };
    let p2 = if flag(doubleclick) { seq![InputAction::DoubleClick(BTN_LEFT)] } else { Seq::<InputAction>::empty() };
    let p3 = if flag(middleclick) { seq![InputAction::Click(BTN_MIDDLE)] } else { Seq::<InputAction>::empty() };
    let p4 = if flag(rightclick) { seq![InputAction::Click(BTN_RIGHT)] } else { Seq::<InputAction>::empty() };
    let p5 = if flag(singlehold) { seq![InputAction::Press(BTN_LEFT)] } else { Seq::<InputAction>::empty() };
    let p6 = if flag(singlerelease) { seq![InputAction::Release(BTN_LEFT)] } else { Seq::<InputAction>::empty() };
    let a = click_actions(singleclick, doubleclick, middleclick, rightclick, singlehold, singlerelease);
    assert(a == p1 + p2 + p3 + p4 + p5 + p6);
    assert forall|x: InputAction| #[trigger] a.contains(x) <==> (
        (flag(singleclick) && x == InputAction::Click(BTN_LEFT))
        || (flag(doubleclick) && x == InputAction::DoubleClick(BTN_LEFT))
        || (flag(middleclick) && x == InputAction::Click(BTN_MIDDLE))
        || (flag(rightclick) && x == InputAction::Click(BTN_RIGHT))
        || (flag(singlehold) && x == InputAction::Press(BTN_LEFT))
        || (flag(singlerelease) && x == InputAction::Release(BTN_LEFT))) by {
        lemma_optional_action_contains(flag(singleclick), InputAction::Click(BTN_LEFT), x);
        lemma_optional_action_contains(flag(doubleclick), InputAction::DoubleClick(BTN_LEFT), x);
        lemma_optional_action_contains(flag(middleclick), InputAction::Click(BTN_MIDDLE), x);
        lemma_optional_action_contains(flag(rightclick), InputAction::Click(BTN_RIGHT), x);
        lemma_optional_action_contains(flag(singlehold), InputAction::Press(BTN_LEFT), x);
        lemma_optional_action_contains(flag(singlerelease), InputAction::Release(BTN_LEFT), x);
    }
    assert(a.contains(InputAction::Click(0x110u16)) == flag(singleclick));
    assert(a.contains(InputAction::DoubleClick(0x110u16)) == flag(doubleclick));
    assert(a.contains(InputAction::Click(0x112u16)) == flag(middleclick));
    assert(a.contains(InputAction::Click(0x111u16)) == flag(rightclick));
    assert(a.contains(InputAction::Press(0x110u16)) == flag(singlehold));
    assert(a.contains(InputAction::Release(0x110u16)) == flag(singlerelease));
    let r = request_actions_of(None, None, singleclick, doubleclick, middleclick, rightclick,
        singlehold, singlerelease, None, None, scroll);
    assert(r =~= a);
}

/// Pointer motion of a mousepad request: when a horizontal or vertical
/// amount is given the request first does one smooth move, or one smooth
/// scroll when it asks to scroll, by exactly the horizontal amount across
/// and the vertical amount down (a missing amount counting 0); with
/// neither it moves nothing.
pub proof fn lemma_request_movement(
    dx: Option<i32>,
    dy: Option<i32>,
    scroll: Option<bool>,
    key: Option<Seq<char>>,
    special_key: Option<i32>,
    singleclick: Option<bool>,
    doubleclick: Option<bool>,
    middleclick: Option<bool>,
    rightclick: Option<bool>,
    singlehold: Option<bool>,
    singlerelease: Option<bool>,
)
    ensures
        ({
            let a = request_actions_of(key, special_key, singleclick, doubleclick, middleclick, rightclick,
                singlehold, singlerelease, dx, dy, scroll);
            let across = match dx { Some(v) => v, None => 0i32 };
            let down = match dy { Some(v) => v, None => 0i32 };
            &&& (dx is Some || dy is Some) && scroll == Some(true) ==> a.len() > 0
                && a[0] == (InputAction::SmoothScroll { dx: across, dy: down })
            &&& (dx is Some || dy is Some) && scroll != Some(true) ==> a.len() > 0
                && a[0] == (InputAction::SmoothMove { dx: across, dy: down })
            &&& dx is None && dy is None ==> a == click_actions(singleclick, doubleclick, middleclick, rightclick,
                singlehold, singlerelease) + match key {
                    Some(k) => typing_actions(k),
                    None => Seq::<InputAction>::empty(),
                } + special_actions(special_key)
        }),
{
    let a = request_actions_of(key, special_key, singleclick, doubleclick, middleclick, rightclick,
        singlehold, singlerelease, dx, dy, scroll);
    let m = movement_actions(dx, dy, scroll);
    let rest = click_actions(singleclick, doubleclick, middleclick, rightclick, singlehold, singlerelease)
        + match key {
            Some(k) => typing_actions(k),
            None => Seq::<InputAction>::empty(),
        } + special_actions(special_key);
    assert(a =~= m + rest);
    if dx is Some || dy is Some {
        assert(a[0] == m[0]);
    } else {
        assert(m =~= Seq::<InputAction>::empty());
        assert(a =~= rest);
    }
}

/// The click of a special key, when the number names one.
pub open spec fn special_actions(special_key: Option<i32>) -> Seq<InputAction> {
    match special_key {
        Some(n) => match special_keycode(n) {
            Some(code) => seq![InputAction::Click(code)],
            None => Seq::empty(),
        },
        None => Seq::empty(),
    }
}

/// What a request does, in order: movement (or scrolling), then the
/// clicks, then the typed characters, then the special key.  Modifiers do
/// nothing.
pub open spec fn request_actions_of(
    key: Option<Seq<char>>,
    special_key: Option<i32>,
    singleclick: Option<bool>,
    doubleclick: Option<bool>,
    middleclick: Option<bool>,
    rightclick: Option<bool>,
    singlehold: Option<bool>,
    singlerelease: Option<bool>,
    dx: Option<i32>,
    dy: Option<i32>,
    scroll: Option<bool>,
) -> Seq<InputAction> {
    movement_actions(dx, dy, scroll)
        + click_actions(singleclick, doubleclick, middleclick, rightclick, singlehold, singlerelease)
        + match key {
            Some(k) => typing_actions(k),
            None => Seq::empty(),
        }
        + special_actions(special_key)
}

fn push_if(acts: &mut Vec<InputAction>, cond: bool, a: InputAction)
    ensures
        final(acts)@ == old(acts)@ + (if cond { seq![a] } else { Seq::<InputAction>::empty() }),
{
    if cond {
        acts.push(a);
        assert(acts@ =~= old(acts)@ + seq![a]);
    } else {
        assert(acts@ =~= old(acts)@ + Seq::<InputAction>::empty());
    }
}

fn opt_flag(o: Option<bool>) -> (r: bool)
    ensures
        r == flag(o),
{
    match o {
        Some(b) => b,
        None => false,
    }
}

/// The clicks typing the characters of `key`.
pub fn typing(key: &str) -> (r: Vec<InputAction>)
    ensures
        r@ == typing_actions(key@),
{
    let mut acts: Vec<InputAction> = Vec::new();
    let n = key.unicode_len();
    let mut i: usize = 0;
    while i < n
        invariant
            n == key@.len(),
            i <= n,
            acts@ == typing_actions(key@.take(i as int)),
        decreases n - i,
    {
        let ch = key.get_char(i);
        let ghost pre = key@.take(i as int);
        assert(key@.take(i + 1).drop_last() =~= pre);
        assert(key@.take(i + 1).last() == ch);
        match char_to_keycode(ch) {
            Some(code) => {
                acts.push(InputAction::Click(code));
                assert(acts@ =~= typing_actions(pre) + seq![InputAction::Click(code)]);
            },
            None => {
                assert(acts@ =~= typing_actions(pre) + Seq::<InputAction>::empty());
            },
        }
        i = i + 1;
    }
    assert(key@.take(n as int) =~= key@);
    acts
}

impl InputRequest {
    /// The device operations this request asks for, in order.
    pub fn actions(&self) -> (r: Vec<InputAction>)
        ensures
            r@ == request_actions_of(
                opt_view(self.key),
                self.special_key,
                self.singleclick,
                self.doubleclick,
                self.middleclick,
                self.rightclick,
                self.singlehold,
                self.singlerelease,
                self.dx,
                self.dy,
                self.scroll,
            ),
    {
        let mut acts = movement(self.dx, self.dy, self.scroll);
        let mut clicks = clicks(
            self.singleclick,
            self.doubleclick,
            self.middleclick,
            self.rightclick,
            self.singlehold,
            self.singlerelease,
        );
        acts.append(&mut clicks);
        let ghost before_keys = acts@;
        match &self.key {
            Some(k) => {
                let mut typed = typing(k.as_str());
                acts.append(&mut typed);
            },
            None => {
                assert(acts@ =~= before_keys + Seq::<InputAction>::empty());
            },
        }
        let mut special = special(self.special_key);
        acts.append(&mut special);
        acts
    }
}

fn movement(dx: Option<i32>, dy: Option<i32>, scroll: Option<bool>) -> (r: Vec<InputAction>)
    ensures
        r@ == movement_actions(dx, dy, scroll),
{
    let mut acts: Vec<InputAction> = Vec::new();
    if dx.is_some() || dy.is_some() {
        let x: i32 = match dx { Some(v) => v, None => 0 };
        let y: i32 = match dy { Some(v) => v, None => 0 };
        if opt_flag(scroll) {
            acts.push(InputAction::SmoothScroll { dx: x, dy: y });
        } else {
            acts.push(InputAction::SmoothMove { dx: x, dy: y });
        }
    }
    assert(acts@ =~= movement_actions(dx, dy, scroll));
    acts
}

fn clicks(
    singleclick: Option<bool>,
    doubleclick: Option<bool>,
    middleclick: Option<bool>,
    rightclick: Option<bool>,
    singlehold: Option<bool>,
    singlerelease: Option<bool>,
) -> (r: Vec<InputAction>)
    ensures
        r@ == click_actions(singleclick, doubleclick, middleclick, rightclick, singlehold, singlerelease),
{
    let mut acts: Vec<InputAction> = Vec::new();
    assert(acts@ =~= Seq::<InputAction>::empty());
    push_if(&mut acts, opt_flag(singleclick), InputAction::Click(BTN_LEFT));
    push_if(&mut acts, opt_flag(doubleclick), InputAction::DoubleClick(BTN_LEFT));
    push_if(&mut acts, opt_flag(middleclick), InputAction::Click(BTN_MIDDLE));
    push_if(&mut acts, opt_flag(rightclick), InputAction::Click(BTN_RIGHT));
    push_if(&mut acts, opt_flag(singlehold), InputAction::Press(BTN_LEFT));
    push_if(&mut acts, opt_flag(singlerelease), InputAction::Release(BTN_LEFT));
    assert(acts@ =~= click_actions(singleclick, doubleclick, middleclick, rightclick, singlehold, singlerelease));
    acts
}

fn special(special_key: Option<i32>) -> (r: Vec<InputAction>)
    ensures
        r@ == special_actions(special_key),
{
    let mut acts: Vec<InputAction> = Vec::new();
    match special_key {
        Some(n) => match special_key_to_keycode(n) {
            Some(code) => acts.push(InputAction::Click(code)),
            None => {},
        },
        None => {},
    }
    assert(acts@ =~= special_actions(special_key));
    acts
}

/// Packet type of a remote-input request.
pub const PACKET_TYPE_MOUSEPAD_REQUEST: &'static str = "cconnect.mousepad.request";

/// Packet type of an echo.
pub const PACKET_TYPE_MOUSEPAD_ECHO: &'static str = "cconnect.mousepad.echo";

/// Packet type of the keyboard state.
pub const PACKET_TYPE_MOUSEPAD_KEYBOARDSTATE: &'static str = "cconnect.mousepad.keyboardstate";

/// Remote-input plugin state.
#[derive(Debug)]
pub struct RemoteInputPlugin {
    /// The device the plugin is attached to.
    pub device_id: Option<String>,
}

/// One string.
fn single(s: &str) -> (r: Vec<String>)
    ensures
        r@.len() == 1,
        r@[0]@ == s@,
{
    let mut v: Vec<String> = Vec::new();
    v.push(owned(s));
    v
}

impl RemoteInputPlugin {
    /// A plugin not attached to any device.
    pub fn new() -> (r: Self)
        ensures
            r.device_id is None,
    {
        RemoteInputPlugin { device_id: None }
    }

    /// The plugin name.
    pub fn name(&self) -> (r: &'static str)
        ensures
            r@ == "remoteinput"@,
    {
        "remoteinput"
    }

    /// Packet types the plugin accepts: the remote-input request.
    pub fn incoming_capabilities(&self) -> (r: Vec<String>)
        ensures
            r@.len() == 1,
            r@[0]@ == PACKET_TYPE_MOUSEPAD_REQUEST@,
    {
        single(PACKET_TYPE_MOUSEPAD_REQUEST)
    }

    /// Packet types the plugin sends: the keyboard state.
    pub fn outgoing_capabilities(&self) -> (r: Vec<String>)
        ensures
            r@.len() == 1,
            r@[0]@ == PACKET_TYPE_MOUSEPAD_KEYBOARDSTATE@,
    {
        single(PACKET_TYPE_MOUSEPAD_KEYBOARDSTATE)
    }

    /// Attaches the plugin to a device.
    pub fn init(&mut self, device_id: &str)
        ensures
            final(self).device_id matches Some(d) && d@ == device_id@,
    {
        self.device_id = Some(owned(device_id));
    }

    /// Whether the plugin handles packets of this type: only remote-input
    /// requests are acted on.
    pub fn handles(&self, packet_type: &str) -> (r: bool)
        ensures
            r == (packet_type@ == PACKET_TYPE_MOUSEPAD_REQUEST@),
    {
        str_eq(packet_type, PACKET_TYPE_MOUSEPAD_REQUEST)
    }
}

impl Default for RemoteInputPlugin {
    fn default() -> (r: Self)
        ensures
            r.device_id is None,
    {
        RemoteInputPlugin::new()
    }
}

/// Creates remote-input plugins.
#[derive(Debug, Clone, Copy)]
pub struct RemoteInputPluginFactory;

impl RemoteInputPluginFactory {
    /// The plugin name.
    pub fn name(&self) -> (r: &'static str)
        ensures
            r@ == "remoteinput"@,
    {
        "remoteinput"
    }

    /// Packet types the plugin accepts.
    pub fn incoming_capabilities(&self) -> (r: Vec<String>)
        ensures
            r@.len() == 1,
            r@[0]@ == PACKET_TYPE_MOUSEPAD_REQUEST@,
    {
        single(PACKET_TYPE_MOUSEPAD_REQUEST)
    }

    /// Packet types the plugin sends.
    pub fn outgoing_capabilities(&self) -> (r: Vec<String>)
        ensures
            r@.len() == 1,
            r@[0]@ == PACKET_TYPE_MOUSEPAD_KEYBOARDSTATE@,
    {
        single(PACKET_TYPE_MOUSEPAD_KEYBOARDSTATE)
    }

    /// A new plugin.
    pub fn create(&self) -> (r: RemoteInputPlugin)
        ensures
            r.device_id is None,
    {
        RemoteInputPlugin::new()
    }
}

/// Pointer state of a VNC input handler: the last absolute position and
/// button mask applied.
#[derive(Debug, Clone, Copy, PartialEq, Eq, Structural)]
pub struct PointerTracker {
    /// Last X position.
    pub mouse_x: u16,
    /// Last Y position.
    pub mouse_y: u16,
    /// Last button mask.
    pub button_state: u8,
}

/// Press or release of button `code` when bit `bit` of the mask changed.
pub open spec fn button_change(old_mask: u8, new_mask: u8, bit: u8, code: u16) -> Seq<InputAction> {
    if (old_mask ^ new_mask) & bit != 0 {
        if new_mask & bit != 0 {
            seq![InputAction::Press(code)]
        } else {
            seq![InputAction::Release(code)]
        }
    } else {
        Seq::empty()
    }
}

/// Three one-unit moves: how a wheel notch is simulated.
pub open spec fn wheel_notch(dy: i32) -> Seq<InputAction> {
    seq![InputAction::Move { dx: 0, dy: dy }, InputAction::Move { dx: 0, dy: dy }, InputAction::Move { dx: 0, dy: dy }]
}

/// What a VNC pointer event to `(x, y)` with `mask` does after state `t`:
/// a relative move when the position changed; a press or release of left
/// (bit 0), middle (bit 1) and right (bit 2) when their bit changed; three
/// upward moves for bit 3 and three downward for bit 4.
pub open spec fn pointer_actions_of(t: PointerTracker, x: u16, y: u16, mask: u8) -> Seq<InputAction> {
    let movement = if x != t.mouse_x || y != t.mouse_y {
        seq![InputAction::Move { dx: (x - t.mouse_x) as i32, dy: (y - t.mouse_y) as i32 }]
    } else {
        Seq::empty()
    };
    movement
        + button_change(t.button_state, mask, 1, BTN_LEFT)
        + button_change(t.button_state, mask, 2, BTN_MIDDLE)
        + button_change(t.button_state, mask, 4, BTN_RIGHT)
        + (if mask & 8 != 0 { wheel_notch(-1i32) } else { Seq::empty() })
        + (if mask & 16 != 0 { wheel_notch(1i32) } else { Seq::empty() })
}

fn push_button_change(acts: &mut Vec<InputAction>, old_mask: u8, new_mask: u8, bit: u8, code: u16)
    ensures
        final(acts)@ == old(acts)@ + button_change(old_mask, new_mask, bit, code),
{
    if (old_mask ^ new_mask) & bit != 0 {
        if new_mask & bit != 0 {
            acts.push(InputAction::Press(code));
        } else {
            acts.push(InputAction::Release(code));
        }
        assert(acts@ =~= old(acts)@ + button_change(old_mask, new_mask, bit, code));
    } else {
        assert(acts@ =~= old(acts)@ + button_change(old_mask, new_mask, bit, code));
    }
}

fn push_notch(acts: &mut Vec<InputAction>, cond: bool, dy: i32)
    ensures
        final(acts)@ == old(acts)@ + (if cond { wheel_notch(dy) } else { Seq::<InputAction>::empty() }),
{
    if cond {
        acts.push(InputAction::Move { dx: 0, dy });
        acts.push(InputAction::Move { dx: 0, dy });
        acts.push(InputAction::Move { dx: 0, dy });
    }
    assert(acts@ =~= old(acts)@ + (if cond { wheel_notch(dy) } else { Seq::<InputAction>::empty() }));
}

impl PointerTracker {
    /// The state of a new handler: at the origin, no button down.
    pub fn new() -> (r: Self)
        ensures
            r == (PointerTracker { mouse_x: 0, mouse_y: 0, button_state: 0 }),
    {
        PointerTracker { mouse_x: 0, mouse_y: 0, button_state: 0 }
    }

    /// The device operations for a pointer event, and the state after it:
    /// the new position and button mask.
    pub fn pointer_event(&mut self, x: u16, y: u16, button_mask: u8) -> (r: Vec<InputAction>)
        ensures
            r@ == pointer_actions_of(*old(self), x, y, button_mask),
            *final(self) == (PointerTracker { mouse_x: x, mouse_y: y, button_state: button_mask }),
    {
        let mut acts: Vec<InputAction> = Vec::new();
        if x != self.mouse_x || y != self.mouse_y {
            let dx: i32 = (x as i32) - (self.mouse_x as i32);
            let dy: i32 = (y as i32) - (self.mouse_y as i32);
            acts.push(InputAction::Move { dx, dy });
        }
        let old_mask = self.button_state;
        push_button_change(&mut acts, old_mask, button_mask, 1, BTN_LEFT);
        push_button_change(&mut acts, old_mask, button_mask, 2, BTN_MIDDLE);
        push_button_change(&mut acts, old_mask, button_mask, 4, BTN_RIGHT);
        push_notch(&mut acts, button_mask & 8 != 0, -1);
        push_notch(&mut acts, button_mask & 16 != 0, 1);
        self.mouse_x = x;
        self.mouse_y = y;
        self.button_state = button_mask;
        assert(acts@ =~= pointer_actions_of(*old(self), x, y, button_mask));
        acts
    }
}

/// What `button_change` holds: a press of `code` when the bit turned on,
/// a release when it turned off, nothing else.
proof fn lemma_button_change_contains(old_mask: u8, new_mask: u8, bit: u8, code: u16, x: InputAction)
    ensures
        button_change(old_mask, new_mask, bit, code).contains(x) <==> (
            ((old_mask ^ new_mask) & bit != 0 && new_mask & bit != 0 && x == InputAction::Press(code))
            || ((old_mask ^ new_mask) & bit != 0 && new_mask & bit == 0 && x == InputAction::Release(code))),
{
    let c = button_change(old_mask, new_mask, bit, code);
    if (old_mask ^ new_mask) & bit != 0 {
        assert(c[0] == (if new_mask & bit != 0 { InputAction::Press(code) } else { InputAction::Release(code) }));
    }
}

/// The wheel notches hold only vertical one-unit moves.
proof fn lemma_notches_hold_no_buttons(cond: bool, dy: i32, x: InputAction)
    ensures
        (if cond { wheel_notch(dy) } else { Seq::<InputAction>::empty() }).contains(x) ==> x == (InputAction::Move { dx: 0, dy: dy }),
{
    if cond && wheel_notch(dy).contains(x) {
        let i = choose|i: int| 0 <= i < wheel_notch(dy).len() && wheel_notch(dy)[i] == x;
        assert(wheel_notch(dy)[i] == InputAction::Move { dx: 0, dy: dy });
    }
}

/// VNC pointer buttons (RFC 6143 button mask: bit 0 left, bit 1 middle,
/// bit 2 right), by their Linux input codes (left 0x110, middle 0x112,
/// right 0x111): an event presses a button exactly when its bit goes from
/// clear to set and releases it exactly when its bit goes from set to
/// clear.  When the position changed, the first action moves the pointer
/// by the difference from the last position.
pub proof fn lemma_pointer_buttons(t: PointerTracker, x: u16, y: u16, mask: u8)
    ensures
        ({
            let a = pointer_actions_of(t, x, y, mask);
            let o = t.button_state;
            &&& a.contains(InputAction::Press(0x110u16)) <==> (o & 1 == 0 && mask & 1 != 0)
            &&& a.contains(InputAction::Release(0x110u16)) <==> (o & 1 != 0 && mask & 1 == 0)
            &&& a.contains(InputAction::Press(0x112u16)) <==> (o & 2 == 0 && mask & 2 != 0)
            &&& a.contains(InputAction::Release(0x112u16)) <==> (o & 2 != 0 && mask & 2 == 0)
            &&& a.contains(InputAction::Press(0x111u16)) <==> (o & 4 == 0 && mask & 4 != 0)
            &&& a.contains(InputAction::Release(0x111u16)) <==> (o & 4 != 0 && mask & 4 == 0)
            &&& (x != t.mouse_x || y != t.mouse_y) ==> a.len() > 0
                && a[0] == (InputAction::Move { dx: (x - t.mouse_x) as i32, dy: (y - t.mouse_y) as i32 })
        }),
{
    broadcast use vstd::seq_lib::lemma_seq_concat_contains_all_elements;
    let o = t.button_state;
    let movement = if x != t.mouse_x || y != t.mouse_y {
        seq![InputAction::Move { dx: (x - t.mouse_x) as i32, dy: (y - t.mouse_y) as i32 }]
    } else {
        Seq::<InputAction>::empty()
    };
    let b1 = button_change(o, mask, 1, BTN_LEFT);
    let b2 = button_change(o, mask, 2, BTN_MIDDLE);
    let b4 = button_change(o, mask, 4, BTN_RIGHT);
    let up = if mask & 8 != 0 { wheel_notch(-1i32) } else { Seq::<InputAction>::empty() };
    let down = if mask & 16 != 0 { wheel_notch(1i32) } else { Seq::<InputAction>::empty() };
    let a = pointer_actions_of(t, x, y, mask);
    assert(a == movement + b1 + b2 + b4 + up + down);
    assert(((o ^ mask) & 1 != 0 && mask & 1 != 0) == (o & 1 == 0 && mask & 1 != 0)) by (bit_vector);
    assert(((o ^ mask) & 1 != 0 && mask & 1 == 0) == (o & 1 != 0 && mask & 1 == 0)) by (bit_vector);
    assert(((o ^ mask) & 2 != 0 && mask & 2 != 0) == (o & 2 == 0 && mask & 2 != 0)) by (bit_vector);
    assert(((o ^ mask) & 2 != 0 && mask & 2 == 0) == (o & 2 != 0 && mask & 2 == 0)) by (bit_vector);
    assert(((o ^ mask) & 4 != 0 && mask & 4 != 0) == (o & 4 == 0 && mask & 4 != 0)) by (bit_vector);
    assert(((o ^ mask) & 4 != 0 && mask & 4 == 0) == (o & 4 != 0 && mask & 4 == 0)) by (bit_vector);
    assert forall|act: InputAction| (act is Press || act is Release) implies (#[trigger] a.contains(act) <==> (
        ((o ^ mask) & 1 != 0 && mask & 1 != 0 && act == InputAction::Press(BTN_LEFT))
        || ((o ^ mask) & 1 != 0 && mask & 1 == 0 && act == InputAction::Release(BTN_LEFT))
        || ((o ^ mask) & 2 != 0 && mask & 2 != 0 && act == InputAction::Press(BTN_MIDDLE))
        || ((o ^ mask) & 2 != 0 && mask & 2 == 0 && act == InputAction::Release(BTN_MIDDLE))
        || ((o ^ mask) & 4 != 0 && mask & 4 != 0 && act == InputAction::Press(BTN_RIGHT))
        || ((o ^ mask) & 4 != 0 && mask & 4 == 0 && act == InputAction::Release(BTN_RIGHT)))) by {
        lemma_notches_hold_no_buttons(mask & 8 != 0, -1i32, act);
        lemma_notches_hold_no_buttons(mask & 16 != 0, 1i32, act);
        if movement.len() > 0 && movement.contains(act) {
            let i = choose|i: int| 0 <= i < movement.len() && movement[i] == act;
            assert(movement[i] is Move);
        }
        lemma_button_change_contains(o, mask, 1, BTN_LEFT, act);
        lemma_button_change_contains(o, mask, 2, BTN_MIDDLE, act);
        lemma_button_change_contains(o, mask, 4, BTN_RIGHT, act);
    }
    assert(a.contains(InputAction::Press(0x110u16)) == (o & 1 == 0 && mask & 1 != 0));
    assert(a.contains(InputAction::Release(0x110u16)) == (o & 1 != 0 && mask & 1 == 0));
    assert(a.contains(InputAction::Press(0x112u16)) == (o & 2 == 0 && mask & 2 != 0));
    assert(a.contains(InputAction::Release(0x112u16)) == (o & 2 != 0 && mask & 2 == 0));
    assert(a.contains(InputAction::Press(0x111u16)) == (o & 4 == 0 && mask & 4 != 0));
    assert(a.contains(InputAction::Release(0x111u16)) == (o & 4 != 0 && mask & 4 == 0));
}

/// A second event repeating the first changes nothing: no move, no press,
/// no release (only wheel notches repeat).
pub proof fn lemma_pointer_event_idempotent(t: PointerTracker, x: u16, y: u16, mask: u8)
    ensures
        pointer_actions_of(PointerTracker { mouse_x: x, mouse_y: y, button_state: mask }, x, y, mask)
            == (if mask & 8 != 0 { wheel_notch(-1i32) } else { Seq::empty() })
            + (if mask & 16 != 0 { wheel_notch(1i32) } else { Seq::empty() }),
{
    assert((mask ^ mask) & 1 == 0 && (mask ^ mask) & 2 == 0 && (mask ^ mask) & 4 == 0) by (bit_vector);
    let s = pointer_actions_of(PointerTracker { mouse_x: x, mouse_y: y, button_state: mask }, x, y, mask);
    assert(s =~= (if mask & 8 != 0 { wheel_notch(-1i32) } else { Seq::<InputAction>::empty() })
        + (if mask & 16 != 0 { wheel_notch(1i32) } else { Seq::<InputAction>::empty() }));
}

/// Default shortest interval between two handled VNC input events: 10 ms
/// (at most 100 events a second).
pub const DEFAULT_RATE_LIMIT_NANOS: u64 = 10_000_000;

/// Rate-limited handling of VNC input events: an event is handled when no
/// event was handled yet or at least the interval has passed since the
/// last handled one; others are dropped.
#[derive(Debug)]
pub struct InputHandler {
    last_event: Option<std::time::Instant>,
    min_interval_nanos: u64,
    pointer: PointerTracker,
}

impl InputHandler {
    /// The shortest interval between handled events, in nanoseconds.
    pub closed spec fn interval(&self) -> u64 {
        self.min_interval_nanos
    }

    /// Pointer state after the last handled pointer event.
    pub closed spec fn pointer_state(&self) -> PointerTracker {
        self.pointer
    }

    /// Whether an event was handled yet.
    pub closed spec fn has_handled(&self) -> bool {
        self.last_event is Some
    }

    /// A handler with the default interval, at the origin with no button
    /// down, that has handled nothing yet.
    pub fn new() -> (r: Self)
        ensures
            r.interval() == DEFAULT_RATE_LIMIT_NANOS,
            r.pointer_state() == (PointerTracker { mouse_x: 0, mouse_y: 0, button_state: 0 }),
            !r.has_handled(),
    {
        InputHandler { last_event: None, min_interval_nanos: DEFAULT_RATE_LIMIT_NANOS, pointer: PointerTracker::new() }
    }

    /// Whether the rate limit lets an event through now; a passing event
    /// becomes the last handled one.  The first event always passes; later
    /// ones depend on the clock.
    pub fn check_rate_limit(&mut self) -> (r: bool)
        ensures
            !old(self).has_handled() ==> r,
            r ==> final(self).has_handled(),
            !r ==> *final(self) == *old(self),
            final(self).interval() == old(self).interval(),
            final(self).pointer_state() == old(self).pointer_state(),
    {
        let now = instant_now();
        let elapsed = match &self.last_event {
            None => None,
            Some(last) => Some(nanos_between(&now, last)),
        };
        let allowed = rate_limit_passes(elapsed, self.min_interval_nanos);
        if allowed {
            self.last_event = Some(now);
        }
        allowed
    }

    /// The device operations for a VNC pointer event: none when the rate
    /// limit drops it (the state stays), else those of `pointer_event`.
    pub fn handle_pointer_event(&mut self, x: u16, y: u16, button_mask: u8) -> (r: Vec<InputAction>)
        ensures
            final(self).interval() == old(self).interval(),
            (r@ == Seq::<InputAction>::empty() && final(self).pointer_state() == old(self).pointer_state())
                || (r@ == pointer_actions_of(old(self).pointer_state(), x, y, button_mask)
                    && final(self).pointer_state() == (PointerTracker { mouse_x: x, mouse_y: y, button_state: button_mask })),
            !old(self).has_handled() ==> r@ == pointer_actions_of(old(self).pointer_state(), x, y, button_mask)
                && final(self).pointer_state() == (PointerTracker { mouse_x: x, mouse_y: y, button_state: button_mask }),
    {
        if !self.check_rate_limit() {
            return Vec::new();
        }
        self.pointer.pointer_event(x, y, button_mask)
    }

    /// The device operation for a VNC key event on the key code its keysym
    /// maps to: none when the rate limit drops it, else `key_event_action`.
    pub fn handle_key_event(&mut self, keycode: Option<u16>, down: bool) -> (r: Option<InputAction>)
        ensures
            final(self).interval() == old(self).interval(),
            final(self).pointer_state() == old(self).pointer_state(),
            r is None || r == key_event_of(keycode, down),
            !old(self).has_handled() ==> r == key_event_of(keycode, down),
    {
        if !self.check_rate_limit() {
            return None;
        }
        key_event_action(keycode, down)
    }

    /// The shortest interval between handled events, in nanoseconds.
    pub fn rate_limit(&self) -> (r: u64)
        ensures
            r == self.interval(),
    {
        self.min_interval_nanos
    }

    /// Sets the shortest interval between handled events, in nanoseconds.
    pub fn set_rate_limit(&mut self, interval_nanos: u64)
        ensures
            final(self).interval() == interval_nanos,
            final(self).pointer_state() == old(self).pointer_state(),
            final(self).has_handled() == old(self).has_handled(),
    {
        self.min_interval_nanos = interval_nanos;
    }
}

/// Whether an event passes the rate limit, given the nanoseconds since the
/// last handled event (`None` when none was handled yet): the first event
/// passes, a later one once `interval_nanos` have gone by.
pub fn rate_limit_passes(elapsed_nanos: Option<u64>, interval_nanos: u64) -> (r: bool)
    ensures
        r == (match elapsed_nanos {
            None => true,
            Some(e) => e >= interval_nanos,
        }),
{
    match elapsed_nanos {
        None => true,
        Some(e) => e >= interval_nanos,
    }
}

/// The device operation for a key event: press or release of the key code,
/// none without one.
pub open spec fn key_event_of(keycode: Option<u16>, down: bool) -> Option<InputAction> {
    match keycode {
        Some(c) => Some(if down { InputAction::Press(c) } else { InputAction::Release(c) }),
        None => None,
    }
}

/// A VNC key going down presses its key, going up releases the same key;
/// a keysym with no key does nothing either way.
pub proof fn lemma_key_press_release(code: u16, down: bool)
    ensures
        key_event_of(Some(code), true) == Some(InputAction::Press(code)),
        key_event_of(Some(code), false) == Some(InputAction::Release(code)),
        key_event_of(None, down) is None,
{
}

/// What a VNC key event does: press or release the key code the keysym
/// maps to; nothing for an unknown keysym.
pub fn key_event_action(keycode: Option<u16>, down: bool) -> (r: Option<InputAction>)
    ensures
        r == key_event_of(keycode, down),
{
    match keycode {
        Some(c) => Some(if down { InputAction::Press(c) } else { InputAction::Release(c) }),
        None => None,
    }
}

} // verus!
