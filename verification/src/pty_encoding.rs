//! PTY input encoding: converts key events and mouse events to raw bytes for
//! terminal passthrough.
use vstd::prelude::*;
use vstd::utf8::encode_utf8;

use crate::text::{decimal, lemma_decimal_nonempty, utf8_bytes};

verus! {

// ---------------------------------------------------------------------------
// Bytes that the encodings are made of
// ---------------------------------------------------------------------------

pub const ESC: u8 = 0x1b;
pub const CR: u8 = 0x0d;
pub const LF: u8 = 0x0a;
pub const TAB: u8 = 0x09;
pub const DEL: u8 = 0x7f;
pub const BACKSLASH: u8 = 0x5c;
pub const LBRACKET: u8 = 0x5b;
pub const SEMICOLON: u8 = 0x3b;
pub const TILDE: u8 = 0x7e;
pub const LESS_THAN: u8 = 0x3c;
pub const DIGIT_ONE: u8 = 0x31;
pub const LETTER_O: u8 = 0x4f;

// ---------------------------------------------------------------------------
// Input events
// ---------------------------------------------------------------------------

/// The modifier keys held during a key or mouse event.
#[derive(Clone, Copy, Debug, PartialEq, Eq, Structural)]
pub struct KeyModifiers {
    pub shift: bool,
    pub control: bool,
    pub alt: bool,
    pub super_key: bool,
    pub hyper: bool,
    pub meta: bool,
}

impl KeyModifiers {
    /// No modifier held.
    pub fn none() -> (m: Self)
        ensures
            m == KeyModifiers::spec_none(),
    {
        KeyModifiers {
            shift: false,
            control: false,
            alt: false,
            super_key: false,
            hyper: false,
            meta: false,
        }
    }

    /// Only Shift held.
    pub fn shift() -> (m: Self)
        ensures
            m == (KeyModifiers { shift: true, ..KeyModifiers::spec_none() }),
    {
        KeyModifiers { shift: true, ..Self::none() }
    }

    /// Only Control held.
    pub fn control() -> (m: Self)
        ensures
            m == (KeyModifiers { control: true, ..KeyModifiers::spec_none() }),
    {
        KeyModifiers { control: true, ..Self::none() }
    }

    /// Only Alt held.
    pub fn alt() -> (m: Self)
        ensures
            m == (KeyModifiers { alt: true, ..KeyModifiers::spec_none() }),
    {
        KeyModifiers { alt: true, ..Self::none() }
    }

    /// Only Super (Command) held.
    pub fn super_key() -> (m: Self)
        ensures
            m == (KeyModifiers { super_key: true, ..KeyModifiers::spec_none() }),
    {
        KeyModifiers { super_key: true, ..Self::none() }
    }

    /// Only Hyper held.
    pub fn hyper() -> (m: Self)
        ensures
            m == (KeyModifiers { hyper: true, ..KeyModifiers::spec_none() }),
    {
        KeyModifiers { hyper: true, ..Self::none() }
    }

    /// Only Meta held.
    pub fn meta() -> (m: Self)
        ensures
            m == (KeyModifiers { meta: true, ..KeyModifiers::spec_none() }),
    {
        KeyModifiers { meta: true, ..Self::none() }
    }

    pub open spec fn spec_none() -> Self {
        KeyModifiers {
            shift: false,
            control: false,
            alt: false,
            super_key: false,
            hyper: false,
            meta: false,
        }
    }

    pub open spec fn spec_union(self, other: Self) -> Self {
        KeyModifiers {
            shift: self.shift || other.shift,
            control: self.control || other.control,
            alt: self.alt || other.alt,
            super_key: self.super_key || other.super_key,
            hyper: self.hyper || other.hyper,
            meta: self.meta || other.meta,
        }
    }

    /// The modifiers held in either `self` or `other`.
    pub fn union(self, other: Self) -> (m: Self)
        ensures
            m == self.spec_union(other),
    {
        KeyModifiers {
            shift: self.shift || other.shift,
            control: self.control || other.control,
            alt: self.alt || other.alt,
            super_key: self.super_key || other.super_key,
            hyper: self.hyper || other.hyper,
            meta: self.meta || other.meta,
        }
    }
}

/// The key of a key event.  `Other` stands for every key that has no PTY
/// encoding (Caps Lock, media keys, lone modifier keys, ...).
#[derive(Clone, Copy, Debug, PartialEq, Eq, Structural)]
pub enum KeyCode {
    Char(char),
    Enter,
    Backspace,
    Tab,
    Esc,
    Up,
    Down,
    Left,
    Right,
    Home,
    End,
    PageUp,
    PageDown,
    Delete,
    Insert,
    F(u8),
    Other,
}

/// A key press: which key, and which modifiers were held.
#[derive(Clone, Copy, Debug, PartialEq, Eq, Structural)]
pub struct KeyEvent {
    pub code: KeyCode,
    pub modifiers: KeyModifiers,
}

impl KeyEvent {
    pub fn new(code: KeyCode, modifiers: KeyModifiers) -> (k: Self)
        ensures
            k.code == code,
            k.modifiers == modifiers,
    {
        KeyEvent { code, modifiers }
    }
}

/// How keyboard input is routed: to the application, or captured for the
/// embedded terminal.
#[derive(Clone, Copy, Debug, PartialEq, Eq, Structural)]
pub enum InputMode {
    Normal,
    TerminalCapture,
}

// ---------------------------------------------------------------------------
// Decimal numbers
// ---------------------------------------------------------------------------

/// Appends the decimal digits of `n` to `out`.
fn push_decimal(out: &mut Vec<u8>, n: u16)
    ensures
        final(out)@ == old(out)@ + decimal(n as nat),
    decreases n,
{
    let ghost start = out@;
    if n >= 10 {
        push_decimal(out, n / 10);
    }
    let digit: u8 = 0x30 + (n % 10) as u8;
    out.push(digit);
    proof {
        if n >= 10 {
            assert(out@ =~= start + decimal(n as nat));
        } else {
            assert(out@ =~= start + decimal(n as nat));
        }
    }
}

// ---------------------------------------------------------------------------
// Control characters
// ---------------------------------------------------------------------------

/// ASCII lower-casing: 'A'..='Z' become 'a'..='z', every other char stays.
pub open spec fn ascii_lower(c: char) -> char {
    if 'A' <= c && c <= 'Z' {
        ((c as u32) + 32) as char
    } else {
        c
    }
}

/// The byte that Ctrl+`c` sends: the xterm aliases for the punctuation and
/// digit keys, otherwise the low five bits of the (lower-cased) ASCII code
/// (so Ctrl+A..Ctrl+Z give 0x01..0x1a); no byte for non-ASCII characters.
pub open spec fn ctrl_byte(c: char) -> Option<u8> {
    let l = ascii_lower(c);
    if l == '@' || l == ' ' || l == '2' {
        Some(0x00u8)
    } else if l == '[' || l == '3' {
        Some(0x1bu8)
    } else if l == '\\' || l == '4' {
        Some(0x1cu8)
    } else if l == ']' || l == '5' {
        Some(0x1du8)
    } else if l == '^' || l == '6' {
        Some(0x1eu8)
    } else if l == '_' || l == '7' || l == '/' {
        Some(0x1fu8)
    } else if l == '?' || l == '8' {
        Some(0x7fu8)
    } else if (l as u32) < 128 {
        Some(((l as u32) % 32) as u8)
    } else {
        None
    }
}

/// The code of `c` lower-cased as in [`ascii_lower`].
fn ascii_lower_code(c: char) -> (l: u32)
    ensures
        l == ascii_lower(c) as u32,
{
    let code = c as u32;
    if 65 <= code && code <= 90 {
        proof {
            vstd::utf8::char_u32_cast(c, code);
        }
        code + 32
    } else {
        code
    }
}

/// Convert a character pressed together with Ctrl to the control byte it
/// sends.
pub fn ctrl_char_to_byte(c: char) -> (res: Option<u8>)
    ensures
        res == ctrl_byte(c),
{
    let l = ascii_lower_code(c);
    if l == 0x40 || l == 0x20 || l == 0x32 {
        Some(0x00)
    } else if l == 0x5b || l == 0x33 {
        Some(0x1b)
    } else if l == 0x5c || l == 0x34 {
        Some(0x1c)
    } else if l == 0x5d || l == 0x35 {
        Some(0x1d)
    } else if l == 0x5e || l == 0x36 {
        Some(0x1e)
    } else if l == 0x5f || l == 0x37 || l == 0x2f {
        Some(0x1f)
    } else if l == 0x3f || l == 0x38 {
        Some(0x7f)
    } else if 0x61 <= l && l <= 0x7a {
        let byte: u8 = (l as u8) - 0x61 + 1;
        assert(byte == (l % 32) as u8);
        Some(byte)
    } else if l < 128 {
        let byte: u8 = (l as u8) & 0x1f;
        assert(byte == (l % 32) as u8) by (bit_vector)
            requires
                l < 128,
                byte == (l as u8) & 0x1f,
        ;
        Some(byte)
    } else {
        None
    }
}

// ---------------------------------------------------------------------------
// xterm modifier parameter and CSI sequences
// ---------------------------------------------------------------------------

/// The xterm modifier parameter: 1 + Shift(1) + Alt(2) + Control(4) +
/// Meta-or-Super(8); none when no such modifier is held (Hyper is ignored).
pub open spec fn modifier_param(m: KeyModifiers) -> Option<u8> {
    let v: int = 1 + (if m.shift { 1int } else { 0int }) + (if m.alt { 2int } else { 0int }) + (
    if m.control { 4int } else { 0int }) + (if m.meta || m.super_key { 8int } else { 0int });
    if v > 1 {
        Some(v as u8)
    } else {
        None
    }
}

fn modifiers_to_param(modifiers: KeyModifiers) -> (res: Option<u8>)
    ensures
        res == modifier_param(modifiers),
        res matches Some(p) ==> 2 <= p <= 16,
{
    let shift: u8 = if modifiers.shift { 1 } else { 0 };
    let alt: u8 = if modifiers.alt { 2 } else { 0 };
    let ctrl: u8 = if modifiers.control { 4 } else { 0 };
    let meta: u8 = if modifiers.meta || modifiers.super_key { 8 } else { 0 };
    let val: u8 = 1 + shift + alt + ctrl + meta;
    if val > 1 {
        Some(val)
    } else {
        None
    }
}

/// `ESC [ final`, or `ESC [ 1 ; param final` with a modifier parameter.
pub open spec fn csi_letter(fin: u8, param: Option<u8>) -> Seq<u8> {
    match param {
        Some(p) => seq![ESC, LBRACKET, DIGIT_ONE, SEMICOLON] + decimal(p as nat) + seq![fin],
        None => seq![ESC, LBRACKET, fin],
    }
}

/// `ESC [ number ~`, or `ESC [ number ; param ~` with a modifier parameter.
pub open spec fn csi_tilde(number: nat, param: Option<u8>) -> Seq<u8> {
    match param {
        Some(p) => seq![ESC, LBRACKET] + decimal(number) + seq![SEMICOLON] + decimal(p as nat)
            + seq![TILDE],
        None => seq![ESC, LBRACKET] + decimal(number) + seq![TILDE],
    }
}

fn csi_letter_bytes(fin: u8, param: Option<u8>) -> (out: Vec<u8>)
    ensures
        out@ == csi_letter(fin, param),
{
    let mut out: Vec<u8> = Vec::new();
    out.push(ESC);
    out.push(LBRACKET);
    match param {
        Some(p) => {
            out.push(DIGIT_ONE);
            out.push(SEMICOLON);
            push_decimal(&mut out, p as u16);
            out.push(fin);
        },
        None => {
            out.push(fin);
        },
    }
    assert(out@ =~= csi_letter(fin, param));
    out
}

fn csi_tilde_bytes(number: u16, param: Option<u8>) -> (out: Vec<u8>)
    ensures
        out@ == csi_tilde(number as nat, param),
{
    let mut out: Vec<u8> = Vec::new();
    out.push(ESC);
    out.push(LBRACKET);
    push_decimal(&mut out, number);
    match param {
        Some(p) => {
            out.push(SEMICOLON);
            push_decimal(&mut out, p as u16);
        },
        None => {},
    }
    out.push(TILDE);
    assert(out@ =~= csi_tilde(number as nat, param));
    out
}

// ---------------------------------------------------------------------------
// Function keys
// ---------------------------------------------------------------------------

/// The final letter of F1..F4: P, Q, R, S.
pub open spec fn function_key_letter(n: u8) -> u8 {
    (0x4f + n) as u8
}

/// The xterm key number of F5..F12 in `ESC [ number ~`.
pub open spec fn function_key_number(n: u8) -> nat {
    if n == 5 {
        15
    } else if n <= 10 {
        (n + 11) as nat
    } else {
        (n + 12) as nat
    }
}

/// The xterm encoding of function key F`n`: F1..F4 as `ESC O P..S` (or
/// `ESC [ 1 ; param P..S` when modified), F5..F12 as `ESC [ 15/17/18/19/20/21/23/24 ~`
/// with the parameter before the `~` when modified; none for other numbers.
pub open spec fn function_key_seq(n: u8, param: Option<u8>) -> Option<Seq<u8>> {
    if 1 <= n <= 4 {
        match param {
            Some(_) => Some(csi_letter(function_key_letter(n), param)),
            None => Some(seq![ESC, LETTER_O, function_key_letter(n)]),
        }
    } else if 5 <= n <= 12 {
        Some(csi_tilde(function_key_number(n), param))
    } else {
        None
    }
}

/// Encode function key F`n`, with the given xterm modifier parameter.
pub fn function_key_to_bytes(n: u8, modifier: Option<u8>) -> (res: Option<Vec<u8>>)
    ensures
        match res {
            Some(v) => function_key_seq(n, modifier) == Some(v@),
            None => function_key_seq(n, modifier) is None,
        },
{
    if 1 <= n && n <= 4 {
        let letter: u8 = 0x4f + n;
        match modifier {
            Some(_) => Some(csi_letter_bytes(letter, modifier)),
            None => {
                let v: Vec<u8> = vec![ESC, LETTER_O, letter];
                assert(v@ =~= seq![ESC, LETTER_O, function_key_letter(n)]);
                Some(v)
            },
        }
    } else if 5 <= n && n <= 12 {
        let number: u16 = if n == 5 {
            15
        } else if n <= 10 {
            (n + 11) as u16
        } else {
            (n + 12) as u16
        };
        Some(csi_tilde_bytes(number, modifier))
    } else {
        None
    }
}

// ---------------------------------------------------------------------------
// Key events
// ---------------------------------------------------------------------------

/// The encoding of a key before the Alt prefix is applied: the bytes, and
/// whether Alt is already carried inside them (as an xterm modifier
/// parameter, or in the Shift+Alt+Enter sequence).
pub open spec fn key_encoding(key: KeyEvent, passthrough_enter: bool) -> Option<(Seq<u8>, bool)> {
    let m = key.modifiers;
    let param = modifier_param(m);
    let carried = param is Some;
    match key.code {
        KeyCode::Char(c) => if m.control {
            match ctrl_byte(c) {
                Some(b) => Some((seq![b], false)),
                None => None,
            }
        } else {
            Some((encode_utf8(seq![c]), false))
        },
        KeyCode::Enter => if passthrough_enter {
            Some((seq![CR], false))
        } else if m.shift {
            if m.alt {
                Some((seq![BACKSLASH, ESC, CR], true))
            } else {
                Some((seq![BACKSLASH, CR], false))
            }
        } else if m.control {
            Some((seq![LF], false))
        } else {
            Some((seq![CR], false))
        },
        KeyCode::Backspace => Some((seq![DEL], false)),
        KeyCode::Tab => Some((seq![TAB], false)),
        KeyCode::Esc => Some((seq![ESC], false)),
        KeyCode::Up => Some((csi_letter(0x41, param), carried)),
        KeyCode::Down => Some((csi_letter(0x42, param), carried)),
        KeyCode::Right => Some((csi_letter(0x43, param), carried)),
        KeyCode::Left => Some((csi_letter(0x44, param), carried)),
        KeyCode::Home => Some((csi_letter(0x48, param), carried)),
        KeyCode::End => Some((csi_letter(0x46, param), carried)),
        KeyCode::PageUp => Some((csi_tilde(5, param), carried)),
        KeyCode::PageDown => Some((csi_tilde(6, param), carried)),
        KeyCode::Delete => Some((csi_tilde(3, param), carried)),
        KeyCode::Insert => Some((csi_tilde(2, param), carried)),
        KeyCode::F(n) => match function_key_seq(n, param) {
            Some(s) => Some((s, carried)),
            None => None,
        },
        KeyCode::Other => None,
    }
}

/// The bytes a key event sends to the PTY: its encoding, prefixed by ESC
/// when Alt is held and not already carried inside the encoding.
pub open spec fn key_bytes(key: KeyEvent, passthrough_enter: bool) -> Option<Seq<u8>> {
    match key_encoding(key, passthrough_enter) {
        Some((bytes, carried)) => Some(
            if key.modifiers.alt && !carried {
                seq![ESC] + bytes
            } else {
                bytes
            },
        ),
        None => None,
    }
}

/// Convert a key event to raw bytes for PTY input.
///
/// When `passthrough_enter` is true, Enter maps directly to CR regardless of
/// modifiers, so terminal-focus mode stays close to raw passthrough.
pub fn key_to_bytes(key: &KeyEvent, passthrough_enter: bool) -> (res: Option<Vec<u8>>)
    ensures
        match res {
            Some(v) => key_bytes(*key, passthrough_enter) == Some(v@),
            None => key_bytes(*key, passthrough_enter) is None,
        },
{
    let ctrl = key.modifiers.control;
    let alt = key.modifiers.alt;
    let shift = key.modifiers.shift;

    let mut alt_encoded = false;

    let mut out: Vec<u8> = match key.code {
        KeyCode::Char(c) => {
            if ctrl {
                match ctrl_char_to_byte(c) {
                    Some(byte) => vec![byte],
                    None => return None,
                }
            } else {
                utf8_bytes(c)
            }
        },
        KeyCode::Enter => {
            if passthrough_enter {
                vec![CR]
            } else if shift {
                // Multiline Enter goes through the backslash+carriage-return
                // fallback, which survives tmux attach paths more reliably
                // than a Shift+Return key state.
                alt_encoded = alt;
                if alt {
                    vec![BACKSLASH, ESC, CR]
                } else {
                    vec![BACKSLASH, CR]
                }
            } else if ctrl {
                // Ctrl+Enter is sent as Ctrl+J, a newline.
                vec![LF]
            } else {
                vec![CR]
            }
        },
        KeyCode::Backspace => vec![DEL],
        KeyCode::Tab => vec![TAB],
        KeyCode::Esc => vec![ESC],
        KeyCode::Up | KeyCode::Down | KeyCode::Right | KeyCode::Left | KeyCode::Home
        | KeyCode::End => {
            let fin: u8 = match key.code {
                KeyCode::Up => 0x41,
                KeyCode::Down => 0x42,
                KeyCode::Right => 0x43,
                KeyCode::Left => 0x44,
                KeyCode::Home => 0x48,
                _ => 0x46,
            };
            let param = modifiers_to_param(key.modifiers);
            alt_encoded = param.is_some();
            csi_letter_bytes(fin, param)
        },
        KeyCode::PageUp | KeyCode::PageDown | KeyCode::Delete | KeyCode::Insert => {
            let number: u16 = match key.code {
                KeyCode::PageUp => 5,
                KeyCode::PageDown => 6,
                KeyCode::Delete => 3,
                _ => 2,
            };
            let param = modifiers_to_param(key.modifiers);
            alt_encoded = param.is_some();
            csi_tilde_bytes(number, param)
        },
        KeyCode::F(n) => {
            let param = modifiers_to_param(key.modifiers);
            alt_encoded = param.is_some();
            match function_key_to_bytes(n, param) {
                Some(v) => v,
                None => return None,
            }
        },
        KeyCode::Other => return None,
    };

    if alt && !alt_encoded {
        let mut prefixed: Vec<u8> = Vec::new();
        prefixed.push(ESC);
        prefixed.append(&mut out);
        out = prefixed;
    }
    Some(out)
}

// ---------------------------------------------------------------------------
// Paste-Enter suppression
// ---------------------------------------------------------------------------

/// While armed, the synthetic Enter that follows a paste is swallowed.
pub open spec fn suppresses_enter(armed: bool, key_event: KeyEvent) -> bool {
    armed && key_event.code == KeyCode::Enter
}

/// While armed, any key other than Enter disarms the suppression.
pub open spec fn disarms_suppression(armed: bool, key_event: KeyEvent) -> bool {
    armed && key_event.code != KeyCode::Enter
}

/// Whether the synthetic Enter after a paste is to be swallowed.
pub fn should_suppress_synthetic_enter(armed: bool, key_event: &KeyEvent) -> (res: bool)
    ensures
        res == suppresses_enter(armed, *key_event),
{
    armed && key_event.code == KeyCode::Enter
}

/// Whether the paste-Enter suppression is to be disarmed.
pub fn should_disarm_paste_enter_suppression(armed: bool, key_event: &KeyEvent) -> (res: bool)
    ensures
        res == disarms_suppression(armed, *key_event),
{
    armed && key_event.code != KeyCode::Enter
}

/// The paste shortcut: `v` or `V` with Control, Super or Meta held.
pub open spec fn is_paste_shortcut(key_event: KeyEvent) -> bool {
    &&& (key_event.modifiers.control || key_event.modifiers.super_key || key_event.modifiers.meta)
    &&& (key_event.code == KeyCode::Char('v') || key_event.code == KeyCode::Char('V'))
}

/// The paste shortcut arms the suppression, in terminal-capture mode only.
pub open spec fn arms_suppression(key_event: KeyEvent, input_mode: InputMode) -> bool {
    input_mode == InputMode::TerminalCapture && is_paste_shortcut(key_event)
}

/// Whether the paste-Enter suppression is to be armed.
pub fn should_arm_paste_enter_suppression(key_event: &KeyEvent, input_mode: InputMode) -> (res:
    bool)
    ensures
        res == arms_suppression(*key_event, input_mode),
{
    let m = key_event.modifiers;
    let is_v = match key_event.code {
        KeyCode::Char(c) => c == 'v' || c == 'V',
        _ => false,
    };
    input_mode == InputMode::TerminalCapture && (m.control || m.super_key || m.meta) && is_v
}

// ---------------------------------------------------------------------------
// Mouse events
// ---------------------------------------------------------------------------

#[derive(Clone, Copy, Debug, PartialEq, Eq, Structural)]
pub enum MouseButton {
    Left,
    Right,
    Middle,
}

#[derive(Clone, Copy, Debug, PartialEq, Eq, Structural)]
pub enum MouseEventKind {
    Down(MouseButton),
    Up(MouseButton),
    Drag(MouseButton),
    Moved,
    ScrollDown,
    ScrollUp,
    ScrollLeft,
    ScrollRight,
}

/// A mouse event in fullscreen mode, at a 0-based cell.
#[derive(Clone, Copy, Debug, PartialEq, Eq, Structural)]
pub struct FullscreenMouseEvent {
    pub modifiers: KeyModifiers,
    pub column: u16,
    pub row: u16,
    pub kind: MouseEventKind,
}

impl FullscreenMouseEvent {
    /// A mouse event with no modifier held.
    pub fn new(kind: MouseEventKind, column: u16, row: u16) -> (e: Self)
        ensures
            e.kind == kind,
            e.column == column,
            e.row == row,
            e.modifiers == KeyModifiers::spec_none(),
    {
        FullscreenMouseEvent { modifiers: KeyModifiers::none(), column, row, kind }
    }
}

/// SGR button number of a mouse button: left 0, middle 1, right 2.
pub open spec fn button_number(b: MouseButton) -> nat {
    match b {
        MouseButton::Left => 0,
        MouseButton::Middle => 1,
        MouseButton::Right => 2,
    }
}

/// SGR button code of a mouse event kind and whether it is a release;
/// none for plain motion, which is not reported.
pub open spec fn sgr_button(kind: MouseEventKind) -> Option<(nat, bool)> {
    match kind {
        MouseEventKind::Down(b) => Some((button_number(b), false)),
        MouseEventKind::Up(b) => Some((button_number(b), true)),
        MouseEventKind::Drag(b) => Some((button_number(b) + 32, false)),
        MouseEventKind::Moved => None,
        MouseEventKind::ScrollDown => Some((65, false)),
        MouseEventKind::ScrollUp => Some((64, false)),
        MouseEventKind::ScrollLeft => Some((66, false)),
        MouseEventKind::ScrollRight => Some((67, false)),
    }
}

/// The xterm SGR report `ESC [ < code ; column ; row M` (`m` for a
/// release), with 1-based coordinates and Alt adding 8 and Control 16 to the
/// code; none when Shift is held (the host keeps those gestures) or for
/// plain motion.
pub open spec fn mouse_bytes(event: FullscreenMouseEvent) -> Option<Seq<u8>> {
    if event.modifiers.shift {
        None
    } else {
        match sgr_button(event.kind) {
            Some((code, release)) => {
                let cb = code + (if event.modifiers.alt { 8nat } else { 0nat }) + (
                if event.modifiers.control { 16nat } else { 0nat });
                let cx = event.column.saturating_add(1);
                let cy = event.row.saturating_add(1);
                Some(sgr_report(cb, cx as nat, cy as nat, release))
            },
            None => None,
        }
    }
}

/// `ESC [ < code ; x ; y M`, with `m` in place of `M` for a release.
pub open spec fn sgr_report(code: nat, x: nat, y: nat, release: bool) -> Seq<u8> {
    seq![ESC, LBRACKET, LESS_THAN] + decimal(code) + seq![SEMICOLON] + decimal(x) + seq![SEMICOLON]
        + decimal(y) + seq![if release { 0x6du8 } else { 0x4du8 }]
}

fn sgr_report_bytes(code: u8, x: u16, y: u16, release: bool) -> (out: Vec<u8>)
    ensures
        out@ == sgr_report(code as nat, x as nat, y as nat, release),
{
    let suffix: u8 = if release { 0x6d } else { 0x4d };
    let mut out: Vec<u8> = Vec::new();
    out.push(ESC);
    out.push(LBRACKET);
    out.push(LESS_THAN);
    push_decimal(&mut out, code as u16);
    out.push(SEMICOLON);
    push_decimal(&mut out, x);
    out.push(SEMICOLON);
    push_decimal(&mut out, y);
    out.push(suffix);
    assert(out@ =~= sgr_report(code as nat, x as nat, y as nat, release));
    out
}

fn mouse_button_number(b: MouseButton) -> (n: u8)
    ensures
        n == button_number(b),
{
    match b {
        MouseButton::Left => 0,
        MouseButton::Middle => 1,
        MouseButton::Right => 2,
    }
}

/// Convert a fullscreen mouse event into xterm SGR mouse reporting bytes.
pub fn mouse_event_to_bytes(event: &FullscreenMouseEvent) -> (res: Option<Vec<u8>>)
    ensures
        match res {
            Some(v) => mouse_bytes(*event) == Some(v@),
            None => mouse_bytes(*event) is None,
        },
{
    // Holding Shift bypasses app mouse reporting so the host terminal can
    // select and copy.
    if event.modifiers.shift {
        return None;
    }
    let (cb, release): (u8, bool) = match event.kind {
        MouseEventKind::Down(button) => (mouse_button_number(button), false),
        MouseEventKind::Up(button) => (mouse_button_number(button), true),
        MouseEventKind::Drag(button) => (mouse_button_number(button) + 32, false),
        MouseEventKind::Moved => return None,
        MouseEventKind::ScrollDown => (65, false),
        MouseEventKind::ScrollUp => (64, false),
        MouseEventKind::ScrollLeft => (66, false),
        MouseEventKind::ScrollRight => (67, false),
    };
    let mut cb_with_mods: u8 = cb;
    if event.modifiers.alt {
        cb_with_mods = cb_with_mods + 8;
    }
    if event.modifiers.control {
        cb_with_mods = cb_with_mods + 16;
    }
    let cx = event.column.saturating_add(1);
    let cy = event.row.saturating_add(1);
    Some(sgr_report_bytes(cb_with_mods, cx, cy, release))
}

// ---------------------------------------------------------------------------
// Laws
// ---------------------------------------------------------------------------

/// Ctrl+letter does not depend on case: Ctrl+A and Ctrl+a send the same
/// byte.
pub proof fn lemma_ctrl_byte_ignores_case(c: char)
    ensures
        ctrl_byte(c) == ctrl_byte(ascii_lower(c)),
{
    if 'A' <= c && c <= 'Z' {
        let l = ascii_lower(c);
        assert(l as u32 == c as u32 + 32);
        assert(!('A' <= l && l <= 'Z'));
    }
}

/// Every byte Ctrl sends is a C0 control character or DEL.
pub proof fn lemma_ctrl_byte_is_control(c: char)
    ensures
        ctrl_byte(c) matches Some(b) ==> b < 0x20 || b == 0x7f,
{
}

/// In passthrough mode Enter is a carriage return whatever the modifiers,
/// with only Alt adding its ESC prefix.
pub proof fn lemma_passthrough_enter_is_cr(modifiers: KeyModifiers)
    ensures
        key_bytes(KeyEvent { code: KeyCode::Enter, modifiers }, true) == Some(
            if modifiers.alt {
                seq![ESC, CR]
            } else {
                seq![CR]
            },
        ),
{
    assert(seq![ESC] + seq![CR] =~= seq![ESC, CR]);
}

/// For keys that carry no modifier parameter (characters, Backspace, Tab,
/// Esc, and Enter other than Shift+Enter), holding Alt sends exactly the
/// bytes sent without Alt, prefixed by one ESC.
pub proof fn lemma_alt_prefixes_escape(key: KeyEvent, passthrough_enter: bool)
    requires
        key.modifiers.alt,
        match key.code {
            KeyCode::Char(_) | KeyCode::Backspace | KeyCode::Tab | KeyCode::Esc => true,
            KeyCode::Enter => passthrough_enter || !key.modifiers.shift,
            _ => false,
        },
    ensures
        key_bytes(key, passthrough_enter) == match key_bytes(
            KeyEvent { modifiers: KeyModifiers { alt: false, ..key.modifiers }, ..key },
            passthrough_enter,
        ) {
            Some(b) => Some(seq![ESC] + b),
            None => None,
        },
{
}

/// Navigation, editing and function keys are never prefixed by an extra
/// ESC: Alt goes into their xterm modifier parameter, so their encoding
/// starts with a single ESC followed by `[` or `O`.
pub proof fn lemma_special_keys_single_escape(key: KeyEvent, passthrough_enter: bool)
    requires
        match key.code {
            KeyCode::Up | KeyCode::Down | KeyCode::Left | KeyCode::Right | KeyCode::Home
            | KeyCode::End | KeyCode::PageUp | KeyCode::PageDown | KeyCode::Delete
            | KeyCode::Insert | KeyCode::F(_) => true,
            _ => false,
        },
    ensures
        key_bytes(key, passthrough_enter) matches Some(b) ==> b.len() >= 3 && b[0] == ESC && (b[1]
            == LBRACKET || b[1] == LETTER_O),
{
}

/// While armed, each key either swallows (Enter) or disarms (any other
/// key), never both; while disarmed, neither happens.
pub proof fn lemma_suppression_partitions_keys(armed: bool, key_event: KeyEvent)
    ensures
        armed ==> (suppresses_enter(armed, key_event) != disarms_suppression(armed, key_event)),
        !armed ==> !suppresses_enter(armed, key_event) && !disarms_suppression(armed, key_event),
{
}

/// Outside terminal-capture mode nothing arms the suppression.
pub proof fn lemma_arming_needs_terminal_capture(key_event: KeyEvent)
    ensures
        !arms_suppression(key_event, InputMode::Normal),
{
}

/// Alt and Control are reported in the SGR button code and nowhere else:
/// against the same event without them, Alt adds 8 to the code and Control
/// adds 16, and the coordinates and the press/release suffix stay.
pub proof fn lemma_mouse_modifier_bits(event: FullscreenMouseEvent)
    requires
        !event.modifiers.shift,
        event.kind != MouseEventKind::Moved,
    ensures
        exists|base: nat, x: nat, y: nat, release: bool|
            #![trigger sgr_report(base, x, y, release)]
            {
                &&& mouse_bytes(
                    FullscreenMouseEvent {
                        modifiers: KeyModifiers { alt: false, control: false, ..event.modifiers },
                        ..event
                    },
                ) == Some(sgr_report(base, x, y, release))
                &&& mouse_bytes(event) == Some(
                    sgr_report(
                        base + (if event.modifiers.alt { 8nat } else { 0nat }) + (
                        if event.modifiers.control { 16nat } else { 0nat }),
                        x,
                        y,
                        release,
                    ),
                )
            },
{
    let (base, release) = sgr_button(event.kind).unwrap();
    let x = event.column.saturating_add(1) as nat;
    let y = event.row.saturating_add(1) as nat;
    assert(base + 0nat + 0nat == base);
    assert(mouse_bytes(
        FullscreenMouseEvent {
            modifiers: KeyModifiers { alt: false, control: false, ..event.modifiers },
            ..event
        },
    ) == Some(sgr_report(base, x, y, release)));
}

/// Control-only and Alt-only clicks, against the plain click: Control adds
/// 16 to the button code, Alt adds 8.
pub proof fn lemma_mouse_ctrl_and_alt_codes(kind: MouseEventKind, column: u16, row: u16)
    requires
        kind != MouseEventKind::Moved,
    ensures
        ({
            let (base, release) = sgr_button(kind).unwrap();
            let x = column.saturating_add(1) as nat;
            let y = row.saturating_add(1) as nat;
            let plain = FullscreenMouseEvent { modifiers: KeyModifiers::spec_none(), column, row, kind };
            &&& mouse_bytes(plain) == Some(sgr_report(base, x, y, release))
            &&& mouse_bytes(FullscreenMouseEvent { modifiers: KeyModifiers { control: true, ..KeyModifiers::spec_none() }, ..plain })
                == Some(sgr_report(base + 16, x, y, release))
            &&& mouse_bytes(FullscreenMouseEvent { modifiers: KeyModifiers { alt: true, ..KeyModifiers::spec_none() }, ..plain })
                == Some(sgr_report(base + 8, x, y, release))
        }),
{
}

/// Ctrl+Shift+letter is Ctrl+letter: with Control held, a character key
/// sends its control byte (prefixed by ESC when Alt is held), and Shift
/// changes nothing.
pub proof fn lemma_ctrl_char_ignores_shift(c: char, modifiers: KeyModifiers, passthrough_enter: bool)
    requires
        modifiers.control,
    ensures
        key_bytes(KeyEvent { code: KeyCode::Char(c), modifiers }, passthrough_enter) == match ctrl_byte(c) {
            Some(b) => Some(if modifiers.alt { seq![ESC, b] } else { seq![b] }),
            None => None,
        },
        key_bytes(KeyEvent { code: KeyCode::Char(c), modifiers }, passthrough_enter) == key_bytes(
            KeyEvent { code: KeyCode::Char(c), modifiers: KeyModifiers { shift: !modifiers.shift, ..modifiers } },
            passthrough_enter,
        ),
{
    if let Some(b) = ctrl_byte(c) {
        assert(seq![ESC] + seq![b] =~= seq![ESC, b]);
    }
}

/// Ctrl on the characters '@' to '~' sends the low five bits of the
/// character (after ASCII lower-casing): Ctrl+@ is NUL, Ctrl+[ ESC, Ctrl+\
/// FS, Ctrl+] GS, Ctrl+^ RS, Ctrl+_ US, Ctrl+A..Z 0x01..0x1a.
pub proof fn lemma_ctrl_byte_low_five_bits(c: char)
    requires
        0x40 <= c as u32 <= 0x7e,
    ensures
        ctrl_byte(c) == Some(((c as u32) % 32) as u8),
{
    if 'A' <= c && c <= 'Z' {
        assert(ascii_lower(c) as u32 == c as u32 + 32);
    }
}

/// The digit keys alias the punctuation controls: Ctrl+3..Ctrl+7 send what
/// Ctrl+[ \ ] ^ _ send (the character 0x28 above the digit), namely
/// 0x1b..0x1f; Ctrl+2 sends what Ctrl+@ sends (NUL) and Ctrl+8 what Ctrl+?
/// sends (DEL).
pub proof fn lemma_ctrl_digit_aliases(d: char)
    requires
        '2' <= d <= '8',
    ensures
        '3' <= d <= '7' ==> ctrl_byte(d) == ctrl_byte(((d as u32) + 0x28) as char),
        '3' <= d <= '7' ==> ctrl_byte(d) == Some(((d as u32) - 0x33 + 0x1b) as u8),
        d == '2' ==> ctrl_byte(d) == ctrl_byte('@') && ctrl_byte(d) == Some(0x00u8),
        d == '8' ==> ctrl_byte(d) == ctrl_byte('?') && ctrl_byte(d) == Some(0x7fu8),
{
    if '3' <= d && d <= '7' {
        let p = ((d as u32) + 0x28) as char;
        assert(p as u32 == d as u32 + 0x28);
        lemma_ctrl_byte_low_five_bits(p);
    }
}

/// Every reported mouse event is an SGR sequence `ESC [ < ...` ending in
/// `m` exactly for button releases; Shift-held events and plain motion are
/// not reported.
pub proof fn lemma_mouse_report_shape(event: FullscreenMouseEvent)
    ensures
        (event.modifiers.shift || event.kind == MouseEventKind::Moved) <==> mouse_bytes(
            event,
        ) is None,
        mouse_bytes(event) matches Some(b) ==> {
            &&& b.len() >= 9
            &&& b[0] == ESC && b[1] == LBRACKET && b[2] == LESS_THAN
            &&& (b.last() == 0x6du8 <==> event.kind is Up)
            &&& (b.last() == 0x4du8 <==> !(event.kind is Up))
        },
{
    if let Some((code, release)) = sgr_button(event.kind) {
        if !event.modifiers.shift {
            let cb = code + (if event.modifiers.alt { 8nat } else { 0nat }) + (
            if event.modifiers.control { 16nat } else { 0nat });
            let cx = event.column.saturating_add(1) as nat;
            let cy = event.row.saturating_add(1) as nat;
            lemma_decimal_nonempty(cb);
            lemma_decimal_nonempty(cx);
            lemma_decimal_nonempty(cy);
            let b = sgr_report(cb, cx, cy, release);
            assert(b.last() == (if release { 0x6du8 } else { 0x4du8 }));
            assert(b[0] == ESC && b[1] == LBRACKET && b[2] == LESS_THAN);
        }
    }
}

} // verus!
