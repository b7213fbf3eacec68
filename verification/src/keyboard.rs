//! Keyboard events: classification of Windows virtual-key codes and macOS
//! (Carbon HIToolbox) key codes into the few kinds DayRecord records, and
//! the event buffers that hand them to the recorder.

use vstd::prelude::*;

verus! {

/// What a key press means to the recorder. Letters are lower-cased;
/// modifier keys and punctuation are never recorded.
#[derive(Debug, Clone, Copy, PartialEq, Eq, Structural)]
pub enum KeyEventKind {
    Char(char),
    Space,
    Enter,
    Backspace,
    Tab,
    Copy,
    Paste,
    ImeComposition,
}

/// A classified key press at a UTC time in milliseconds since the epoch.
#[derive(Debug, Clone, Copy, PartialEq, Eq, Structural)]
pub struct KeyEvent {
    pub at_millis: i64,
    pub kind: KeyEventKind,
}

/// Windows `VK_PROCESSKEY`: the key is being consumed by an IME.
pub const VK_PROCESSKEY_U16: u16 = 0xE5;

/// Windows `VK_SPACE`.
pub const WIN_VK_SPACE: u16 = 0x20;

/// Windows `VK_RETURN`.
pub const WIN_VK_RETURN: u16 = 0x0D;

/// Windows `VK_BACK`.
pub const WIN_VK_BACK: u16 = 0x08;

/// Windows `VK_TAB`.
pub const WIN_VK_TAB: u16 = 0x09;

/// Windows virtual-key classification; `ctrl` is whether Ctrl is held.
pub open spec fn spec_vk_to_kind(vk: u16, is_ime: bool, ctrl: bool) -> Option<KeyEventKind> {
    if is_ime || vk == VK_PROCESSKEY_U16 {
        Some(KeyEventKind::ImeComposition)
    } else if vk == WIN_VK_SPACE {
        Some(KeyEventKind::Space)
    } else if vk == WIN_VK_RETURN {
        Some(KeyEventKind::Enter)
    } else if vk == WIN_VK_BACK {
        Some(KeyEventKind::Backspace)
    } else if vk == WIN_VK_TAB {
        Some(KeyEventKind::Tab)
    } else if vk == 0x43 && ctrl {
        Some(KeyEventKind::Copy)
    } else if vk == 0x56 && ctrl {
        Some(KeyEventKind::Paste)
    } else if 0x41 <= vk <= 0x5A {
        Some(KeyEventKind::Char(((vk + 32) as u8) as char))
    } else if 0x30 <= vk <= 0x39 {
        Some(KeyEventKind::Char((vk as u8) as char))
    } else {
        None
    }
}

/// Maps a Windows virtual-key code to a key kind. `ctrl` is the state of the
/// Ctrl key at the time of the press.
pub fn vk_to_kind(vk: u16, is_ime: bool, ctrl: bool) -> (r: Option<KeyEventKind>)
    ensures
        r == spec_vk_to_kind(vk, is_ime, ctrl),
{
    if is_ime || vk == VK_PROCESSKEY_U16 {
        return Some(KeyEventKind::ImeComposition);
    }
    if vk == WIN_VK_SPACE {
        Some(KeyEventKind::Space)
    } else if vk == WIN_VK_RETURN {
        Some(KeyEventKind::Enter)
    } else if vk == WIN_VK_BACK {
        Some(KeyEventKind::Backspace)
    } else if vk == WIN_VK_TAB {
        Some(KeyEventKind::Tab)
    } else if vk == 0x43 && ctrl {
        Some(KeyEventKind::Copy)
    } else if vk == 0x56 && ctrl {
        Some(KeyEventKind::Paste)
    } else if 0x41 <= vk && vk <= 0x5A {
        Some(KeyEventKind::Char(((vk + 32) as u8) as char))
    } else if 0x30 <= vk && vk <= 0x39 {
        Some(KeyEventKind::Char((vk as u8) as char))
    } else {
        None
    }
}

/// The kind the low-level keyboard hook forwards for a key-down, if any:
/// IME-consumed keys are dropped.
pub open spec fn spec_hook_kind(vk: u16, ctrl: bool) -> Option<KeyEventKind> {
    match spec_vk_to_kind(vk, vk == VK_PROCESSKEY_U16, ctrl) {
        Some(k) => if k == KeyEventKind::ImeComposition {
            None
        } else {
            Some(k)
        },
        None => None,
    }
}

/// Classifies a key-down seen by the Windows hook; IME-consumed keys yield
/// nothing.
pub fn hook_kind(vk: u16, ctrl: bool) -> (r: Option<KeyEventKind>)
    ensures
        r == spec_hook_kind(vk, ctrl),
{
    match vk_to_kind(vk, vk == VK_PROCESSKEY_U16, ctrl) {
        Some(k) => match k {
            KeyEventKind::ImeComposition => None,
            _ => Some(k),
        },
        None => None,
    }
}

/// Buffer filled from the Windows hook and drained by the recorder.
pub struct WinKeyboardBuffer {
    pending: Vec<KeyEvent>,
}

impl View for WinKeyboardBuffer {
    type V = Seq<KeyEvent>;

    /// The buffered events, oldest first.
    closed spec fn view(&self) -> Seq<KeyEvent> {
        self.pending@
    }
}

impl WinKeyboardBuffer {
    /// An empty buffer.
    pub fn new() -> (b: Self)
        ensures
            b.view() == Seq::<KeyEvent>::empty(),
    {
        WinKeyboardBuffer { pending: Vec::new() }
    }

    /// Records the press of `vk` at `at_millis` when it classifies to a kind
    /// other than an IME composition.
    pub fn push_vk(&mut self, vk: u16, at_millis: i64, ctrl: bool)
        ensures
            match spec_hook_kind(vk, ctrl) {
                Some(kind) => final(self).view() == old(self).view().push(
                    KeyEvent { at_millis, kind },
                ),
                None => final(self).view() == old(self).view(),
            },
    {
        match hook_kind(vk, ctrl) {
            Some(kind) => {
                self.pending.push(KeyEvent { at_millis, kind });
            },
            None => {},
        }
    }

    /// Hands out every buffered event, oldest first, leaving the buffer empty.
    pub fn poll_events(&mut self) -> (events: Vec<KeyEvent>)
        ensures
            events@ == old(self).view(),
            final(self).view() == Seq::<KeyEvent>::empty(),
    {
        let mut taken: Vec<KeyEvent> = Vec::new();
        std::mem::swap(&mut taken, &mut self.pending);
        taken
    }
}

/// Test double that replays scripted events.
pub struct ScriptedKeyboard {
    events: Vec<KeyEvent>,
}

impl View for ScriptedKeyboard {
    type V = Seq<KeyEvent>;

    /// The events not yet replayed, in order.
    closed spec fn view(&self) -> Seq<KeyEvent> {
        self.events@
    }
}

impl ScriptedKeyboard {
    /// A keyboard that will replay `events`.
    pub fn new(events: Vec<KeyEvent>) -> (k: Self)
        ensures
            k.view() == events@,
    {
        ScriptedKeyboard { events }
    }

    /// Replays all remaining events in order; later polls return nothing.
    pub fn poll_events(&mut self) -> (out: Vec<KeyEvent>)
        ensures
            out@ == old(self).view(),
            final(self).view() == Seq::<KeyEvent>::empty(),
    {
        let mut out: Vec<KeyEvent> = Vec::new();
        std::mem::swap(&mut out, &mut self.events);
        out
    }
}

/// macOS `kVK_Return`.
pub const MAC_VK_RETURN: u16 = 36;

/// macOS `kVK_Tab`.
pub const MAC_VK_TAB: u16 = 48;

/// macOS `kVK_Space`.
pub const MAC_VK_SPACE: u16 = 49;

/// macOS `kVK_Delete` (the PC Backspace).
pub const MAC_VK_DELETE: u16 = 51;

/// macOS `kVK_ANSI_V`.
pub const MAC_VK_ANSI_V: u16 = 9;

/// The letter of a macOS ANSI key code (Carbon HIToolbox `Events.h`).
pub open spec fn mac_letter(vk: u16) -> Option<char> {
    if vk == 0 {
        Some('a')
    } else if vk == 11 {
        Some('b')
    } else if vk == 8 {
        Some('c')
    } else if vk == 2 {
        Some('d')
    } else if vk == 14 {
        Some('e')
    } else if vk == 3 {
        Some('f')
    } else if vk == 5 {
        Some('g')
    } else if vk == 4 {
        Some('h')
    } else if vk == 34 {
        Some('i')
    } else if vk == 38 {
        Some('j')
    } else if vk == 40 {
        Some('k')
    } else if vk == 37 {
        Some('l')
    } else if vk == 46 {
        Some('m')
    } else if vk == 45 {
        Some('n')
    } else if vk == 31 {
        Some('o')
    } else if vk == 35 {
        Some('p')
    } else if vk == 12 {
        Some('q')
    } else if vk == 15 {
        Some('r')
    } else if vk == 1 {
        Some('s')
    } else if vk == 17 {
        Some('t')
    } else if vk == 32 {
        Some('u')
    } else if vk == 9 {
        Some('v')
    } else if vk == 13 {
        Some('w')
    } else if vk == 7 {
        Some('x')
    } else if vk == 16 {
        Some('y')
    } else if vk == 6 {
        Some('z')
    } else {
        None
    }
}

/// The digit of a macOS ANSI key code.
pub open spec fn mac_digit(vk: u16) -> Option<char> {
    if vk == 29 {
        Some('0')
    } else if vk == 18 {
        Some('1')
    } else if vk == 19 {
        Some('2')
    } else if vk == 20 {
        Some('3')
    } else if vk == 21 {
        Some('4')
    } else if vk == 23 {
        Some('5')
    } else if vk == 22 {
        Some('6')
    } else if vk == 26 {
        Some('7')
    } else if vk == 28 {
        Some('8')
    } else if vk == 25 {
        Some('9')
    } else {
        None
    }
}

/// macOS key classification: Cmd+V is a paste, the four special keys, then
/// lower-case letters and digits; every other key is ignored.
pub open spec fn spec_keycode_to_kind(vk: u16, cmd: bool) -> Option<KeyEventKind> {
    if vk == MAC_VK_ANSI_V && cmd {
        Some(KeyEventKind::Paste)
    } else if vk == MAC_VK_SPACE {
        Some(KeyEventKind::Space)
    } else if vk == MAC_VK_RETURN {
        Some(KeyEventKind::Enter)
    } else if vk == MAC_VK_DELETE {
        Some(KeyEventKind::Backspace)
    } else if vk == MAC_VK_TAB {
        Some(KeyEventKind::Tab)
    } else {
        match mac_letter(vk) {
            Some(c) => Some(KeyEventKind::Char(c)),
            None => match mac_digit(vk) {
                Some(d) => Some(KeyEventKind::Char(d)),
                None => None,
            },
        }
    }
}

fn mac_letter_of(vk: u16) -> (r: Option<char>)
    ensures
        r == mac_letter(vk),
{
    match vk {
        0 => Some('a'),
        11 => Some('b'),
        8 => Some('c'),
        2 => Some('d'),
        14 => Some('e'),
        3 => Some('f'),
        5 => Some('g'),
        4 => Some('h'),
        34 => Some('i'),
        38 => Some('j'),
        40 => Some('k'),
        37 => Some('l'),
        46 => Some('m'),
        45 => Some('n'),
        31 => Some('o'),
        35 => Some('p'),
        12 => Some('q'),
        15 => Some('r'),
        1 => Some('s'),
        17 => Some('t'),
        32 => Some('u'),
        9 => Some('v'),
        13 => Some('w'),
        7 => Some('x'),
        16 => Some('y'),
        6 => Some('z'),
        _ => None,
    }
}

fn mac_digit_of(vk: u16) -> (r: Option<char>)
    ensures
        r == mac_digit(vk),
{
    match vk {
        29 => Some('0'),
        18 => Some('1'),
        19 => Some('2'),
        20 => Some('3'),
        21 => Some('4'),
        23 => Some('5'),
        22 => Some('6'),
        26 => Some('7'),
        28 => Some('8'),
        25 => Some('9'),
        _ => None,
    }
}

/// Maps a macOS virtual key code and the Command modifier to a key kind.
pub fn keycode_to_kind(vk: u16, cmd: bool) -> (r: Option<KeyEventKind>)
    ensures
        r == spec_keycode_to_kind(vk, cmd),
{
    if vk == MAC_VK_ANSI_V && cmd {
        return Some(KeyEventKind::Paste);
    }
    if vk == MAC_VK_SPACE {
        return Some(KeyEventKind::Space);
    } else if vk == MAC_VK_RETURN {
        return Some(KeyEventKind::Enter);
    } else if vk == MAC_VK_DELETE {
        return Some(KeyEventKind::Backspace);
    } else if vk == MAC_VK_TAB {
        return Some(KeyEventKind::Tab);
    }
    if let Some(c) = mac_letter_of(vk) {
        return Some(KeyEventKind::Char(c));
    }
    if let Some(d) = mac_digit_of(vk) {
        return Some(KeyEventKind::Char(d));
    }
    None
}

/// The macOS classification ignores Command except for Cmd+V, records only
/// lower-case letters and digits as characters, and never yields a copy or
/// an IME composition.
pub proof fn lemma_keycode_kinds(vk: u16, cmd: bool)
    ensures
        spec_keycode_to_kind(vk, cmd) != Some(KeyEventKind::Paste) ==> spec_keycode_to_kind(vk, cmd)
            == spec_keycode_to_kind(vk, false),
        spec_keycode_to_kind(vk, cmd) matches Some(KeyEventKind::Char(c)) ==> ('a' <= c <= 'z'
            || '0' <= c <= '9'),
        spec_keycode_to_kind(vk, cmd) != Some(KeyEventKind::Copy),
        spec_keycode_to_kind(vk, cmd) != Some(KeyEventKind::ImeComposition),
{
}

/// The Windows classification records only lower-case letters and digits as
/// characters, and the hook never forwards an IME composition.
pub proof fn lemma_vk_kinds(vk: u16, ctrl: bool)
    ensures
        spec_vk_to_kind(vk, false, ctrl) matches Some(KeyEventKind::Char(c)) ==> ('a' <= c <= 'z'
            || '0' <= c <= '9'),
        spec_hook_kind(vk, ctrl) != Some(KeyEventKind::ImeComposition),
        spec_vk_to_kind(vk, true, ctrl) == Some(KeyEventKind::ImeComposition),
{
}


/// Without Ctrl and outside an IME, every letter key records its lower-case
/// letter (the code point 32 above the key code) and every digit key its
/// digit; the hook forwards the same kinds.
pub proof fn lemma_vk_letters_and_digits(vk: u16)
    requires
        vk != VK_PROCESSKEY_U16,
        0x41 <= vk <= 0x5A || 0x30 <= vk <= 0x39,
    ensures
        spec_vk_to_kind(vk, false, false) matches Some(KeyEventKind::Char(c)) && c as int == (
        if vk >= 0x41 { vk + 32 } else { vk as int }),
        spec_hook_kind(vk, false) == spec_vk_to_kind(vk, false, false),
{
    let k = spec_vk_to_kind(vk, false, false);
    if 0x41 <= vk <= 0x5A {
        let b: u8 = (vk + 32) as u8;
        assert(b as int == vk + 32);
        assert(k == Some(KeyEventKind::Char(b as char)));
        assert((b as char) as int == b as int);
    } else {
        let b: u8 = vk as u8;
        assert(b as int == vk as int);
        assert(k == Some(KeyEventKind::Char(b as char)));
        assert((b as char) as int == b as int);
    }
}

/// Copy and paste come only from C and V with Ctrl held and no IME; with
/// Ctrl held, C and V always give them.
pub proof fn lemma_vk_shortcuts(vk: u16, is_ime: bool, ctrl: bool)
    ensures
        spec_vk_to_kind(vk, is_ime, ctrl) == Some(KeyEventKind::Copy) <==> (ctrl && vk == 0x43
            && !is_ime),
        spec_vk_to_kind(vk, is_ime, ctrl) == Some(KeyEventKind::Paste) <==> (ctrl && vk == 0x56
            && !is_ime),
        spec_hook_kind(vk, ctrl) == Some(KeyEventKind::Copy) <==> (ctrl && vk == 0x43),
        spec_hook_kind(vk, ctrl) == Some(KeyEventKind::Paste) <==> (ctrl && vk == 0x56),
{
}

/// Without Command, two key codes that record the same kind are the same
/// code: each letter, digit and special key comes from exactly one code.
pub proof fn lemma_keycode_injective(a: u16, b: u16)
    ensures
        spec_keycode_to_kind(a, false) is Some && spec_keycode_to_kind(a, false)
            == spec_keycode_to_kind(b, false) ==> a == b,
{
}

/// The key code of each lower-case letter and digit, so that every one of
/// them is recorded.
pub open spec fn mac_code_of(c: char) -> u16 {
    if c == 'a' { 0 } else if c == 'b' { 11 } else if c == 'c' { 8 } else if c == 'd' { 2 }
    else if c == 'e' { 14 } else if c == 'f' { 3 } else if c == 'g' { 5 } else if c == 'h' { 4 }
    else if c == 'i' { 34 } else if c == 'j' { 38 } else if c == 'k' { 40 } else if c == 'l' { 37 }
    else if c == 'm' { 46 } else if c == 'n' { 45 } else if c == 'o' { 31 } else if c == 'p' { 35 }
    else if c == 'q' { 12 } else if c == 'r' { 15 } else if c == 's' { 1 } else if c == 't' { 17 }
    else if c == 'u' { 32 } else if c == 'v' { 9 } else if c == 'w' { 13 } else if c == 'x' { 7 }
    else if c == 'y' { 16 } else if c == 'z' { 6 } else if c == '0' { 29 } else if c == '1' { 18 }
    else if c == '2' { 19 } else if c == '3' { 20 } else if c == '4' { 21 } else if c == '5' { 23 }
    else if c == '6' { 22 } else if c == '7' { 26 } else if c == '8' { 28 } else { 25 }
}

/// Every lower-case letter and digit has a key code that records it.
pub proof fn lemma_keycode_covers(c: char)
    requires
        'a' <= c <= 'z' || '0' <= c <= '9',
    ensures
        spec_keycode_to_kind(mac_code_of(c), false) == Some(KeyEventKind::Char(c)),
{
}

} // verus!
