//! Translation of Windows window messages into user-interface input events.
use vstd::prelude::*;

verus! {

pub const WM_KEYDOWN: u32 = 0x0100;
pub const WM_KEYUP: u32 = 0x0101;
pub const WM_CHAR: u32 = 0x0102;
pub const WM_SYSKEYDOWN: u32 = 0x0104;
pub const WM_SYSKEYUP: u32 = 0x0105;
pub const WM_MOUSEMOVE: u32 = 0x0200;
pub const WM_LBUTTONDOWN: u32 = 0x0201;
pub const WM_LBUTTONUP: u32 = 0x0202;
pub const WM_LBUTTONDBLCLK: u32 = 0x0203;
pub const WM_RBUTTONDOWN: u32 = 0x0204;
pub const WM_RBUTTONUP: u32 = 0x0205;
pub const WM_RBUTTONDBLCLK: u32 = 0x0206;
pub const WM_MBUTTONDOWN: u32 = 0x0207;
pub const WM_MBUTTONUP: u32 = 0x0208;
pub const WM_MBUTTONDBLCLK: u32 = 0x0209;
pub const WM_MOUSEWHEEL: u32 = 0x020A;
pub const WM_MOUSEHWHEEL: u32 = 0x020E;

/// `MK_CONTROL`: the control key is down during a mouse message.
pub const MK_CONTROL: usize = 0x0008;
/// `MK_SHIFT`: the shift key is down during a mouse message.
pub const MK_SHIFT: usize = 0x0004;

/// A mouse button.
#[derive(Debug, Copy, Clone, PartialEq, Eq, Structural)]
pub enum PointerButton {
    Primary,
    Secondary,
    Middle,
}

/// The modifier keys held during an event.
#[derive(Debug, Copy, Clone, PartialEq, Eq, Structural)]
pub struct Modifiers {
    pub alt: bool,
    pub ctrl: bool,
    pub shift: bool,
    pub mac_cmd: bool,
    pub command: bool,
}

/// A key the interface reacts to: the named keys, the digits `0`-`9` and the
/// letters `A`-`Z`.
#[derive(Debug, Copy, Clone, PartialEq, Eq, Structural)]
pub enum Key {
    ArrowDown,
    ArrowLeft,
    ArrowRight,
    ArrowUp,
    Escape,
    Tab,
    Backspace,
    Enter,
    Space,
    Insert,
    Delete,
    Home,
    End,
    PageUp,
    PageDown,
    Backtick,
    /// A digit key, `0` to `9`.
    Num(u8),
    /// A letter key, `'A'` to `'Z'`.
    Letter(char),
}

/// An input event for the interface.
#[derive(Debug, Copy, Clone, PartialEq, Eq, Structural)]
pub enum InputEvent {
    /// The pointer moved to `(x, y)` in client coordinates.
    PointerMoved { x: i16, y: i16 },
    /// A mouse button was pressed or released at `(x, y)`.
    PointerButton { x: i16, y: i16, button: PointerButton, pressed: bool, modifiers: Modifiers },
    /// A character was typed.
    Text(char),
    /// The wheel turned by `delta` (in units of 1/120 of a notch); `horizontal`
    /// for the tilt wheel.
    MouseWheel { horizontal: bool, delta: i16, modifiers: Modifiers },
    /// A key was pressed or released.
    Key { key: Key, pressed: bool, modifiers: Modifiers },
    /// Copy (control and C).
    Copy,
    /// Cut (control and X).
    Cut,
    /// Paste (control and V): the clipboard text, if any, is typed.
    Paste,
}

/// The 16-bit value `v` read as two's complement.
pub open spec fn signed16(v: int) -> int {
    if v < 0x8000 { v } else { v - 0x10000 }
}

/// The low word of a message parameter, as a signed number.
pub open spec fn low_word(p: int) -> int {
    signed16(p % 0x10000)
}

/// The high word of the low 32 bits of a message parameter, as a signed number.
pub open spec fn high_word(p: int) -> int {
    signed16((p / 0x10000) % 0x10000)
}

/// The unsigned machine word of a signed message parameter.
pub open spec fn param_bits(p: isize) -> int {
    if p >= 0 { p as int } else { p + 0x1_0000_0000_0000_0000 }
}

/// The modifiers of a mouse message, from its `wparam`.
pub open spec fn mouse_modifiers(wparam: usize) -> Modifiers {
    let ctrl = (wparam & MK_CONTROL) != 0;
    Modifiers { alt: false, ctrl, shift: (wparam & MK_SHIFT) != 0, mac_cmd: false, command: ctrl }
}

/// The modifiers of a key message, from the message and whether the control
/// and shift keys are down.
pub open spec fn key_modifiers(msg: u32, ctrl_down: bool, shift_down: bool) -> Modifiers {
    Modifiers { alt: msg == WM_SYSKEYDOWN, ctrl: ctrl_down, shift: shift_down, mac_cmd: false, command: ctrl_down }
}

/// The key of a virtual-key code (the low 16 bits of `wparam` for the named keys).
pub open spec fn key_of(wparam: usize) -> Option<Key> {
    if 0x30 <= wparam <= 0x39 {
        Some(Key::Num((wparam - 0x30) as u8))
    } else if 0x41 <= wparam <= 0x5A {
        Some(Key::Letter(wparam as char))
    } else {
        let vk = wparam % 0x10000;
        if vk == 0x28 { Some(Key::ArrowDown) }
        else if vk == 0x25 { Some(Key::ArrowLeft) }
        else if vk == 0x27 { Some(Key::ArrowRight) }
        else if vk == 0x26 { Some(Key::ArrowUp) }
        else if vk == 0x1B { Some(Key::Escape) }
        else if vk == 0x09 { Some(Key::Tab) }
        else if vk == 0x08 { Some(Key::Backspace) }
        else if vk == 0x0D { Some(Key::Enter) }
        else if vk == 0x20 { Some(Key::Space) }
        else if vk == 0x2D { Some(Key::Insert) }
        else if vk == 0x2E { Some(Key::Delete) }
        else if vk == 0x24 { Some(Key::Home) }
        else if vk == 0x23 { Some(Key::End) }
        else if vk == 0x21 { Some(Key::PageUp) }
        else if vk == 0x22 { Some(Key::PageDown) }
        else if vk == 0xC0 { Some(Key::Backtick) }
        else { None }
    }
}

/// Whether `c` is a control character (general category Cc).
pub open spec fn is_control_char(c: int) -> bool {
    c <= 0x1F || (0x7F <= c && c <= 0x9F)
}

/// Whether `c` is a Unicode scalar value.
pub open spec fn is_scalar_value(c: int) -> bool {
    (0 <= c && c < 0xD800) || (0xE000 <= c && c <= 0x10FFFF)
}

fn signed16_exec(v: u32) -> (r: i16)
    requires
        v < 0x10000,
    ensures
        r == signed16(v as int),
{
    if v < 0x8000 {
        v as i16
    } else {
        (v as i32 - 0x10000) as i16
    }
}

fn words(p: isize) -> (r: (i16, i16))
    ensures
        r.0 == low_word(param_bits(p)),
        r.1 == high_word(param_bits(p)),
{
    let bits: u64 = if p >= 0 { p as u64 } else { (p as i128 + 0x1_0000_0000_0000_0000i128) as u64 };
    let low = bits & 0xFFFF;
    let high = (bits >> 16) & 0xFFFF;
    assert(low == bits % 0x10000) by (bit_vector)
        requires low == bits & 0xFFFF;
    assert(high == (bits / 0x10000) % 0x10000) by (bit_vector)
        requires high == (bits >> 16) & 0xFFFF;
    (signed16_exec(low as u32), signed16_exec(high as u32))
}

fn mouse_modifiers_exec(wparam: usize) -> (r: Modifiers)
    ensures
        r == mouse_modifiers(wparam),
{
    let ctrl = (wparam & MK_CONTROL) != 0;
    Modifiers { alt: false, ctrl, shift: (wparam & MK_SHIFT) != 0, mac_cmd: false, command: ctrl }
}

/// The key of a virtual-key code.
pub fn get_key(wparam: usize) -> (r: Option<Key>)
    ensures
        r == key_of(wparam),
{
    if 0x30 <= wparam && wparam <= 0x39 {
        Some(Key::Num((wparam - 0x30) as u8))
    } else if 0x41 <= wparam && wparam <= 0x5A {
        let c = (wparam as u8) as char;
        Some(Key::Letter(c))
    } else {
        let vk = wparam % 0x10000;
        if vk == 0x28 { Some(Key::ArrowDown) }
        else if vk == 0x25 { Some(Key::ArrowLeft) }
        else if vk == 0x27 { Some(Key::ArrowRight) }
        else if vk == 0x26 { Some(Key::ArrowUp) }
        else if vk == 0x1B { Some(Key::Escape) }
        else if vk == 0x09 { Some(Key::Tab) }
        else if vk == 0x08 { Some(Key::Backspace) }
        else if vk == 0x0D { Some(Key::Enter) }
        else if vk == 0x20 { Some(Key::Space) }
        else if vk == 0x2D { Some(Key::Insert) }
        else if vk == 0x2E { Some(Key::Delete) }
        else if vk == 0x24 { Some(Key::Home) }
        else if vk == 0x23 { Some(Key::End) }
        else if vk == 0x21 { Some(Key::PageUp) }
        else if vk == 0x22 { Some(Key::PageDown) }
        else if vk == 0xC0 { Some(Key::Backtick) }
        else { None }
    }
}

/// `char::from_u32`: the character with code `v`, when `v` is a Unicode
/// scalar value.
#[verifier::external_body]
fn char_from_u32(v: u32) -> (r: Option<char>)
    ensures
        r is Some <==> is_scalar_value(v as int),
        r matches Some(c) ==> c as int == v as int,
{
    char::from_u32(v)
}

/// The event, if any, that a window message stands for. `ctrl_down` and
/// `shift_down` tell whether those keys are down while a key message is handled.
pub open spec fn message_event(umsg: u32, wparam: usize, lparam: isize, ctrl_down: bool, shift_down: bool) -> Option<InputEvent> {
    let x = low_word(param_bits(lparam)) as i16;
    let y = high_word(param_bits(lparam)) as i16;
    let mods = mouse_modifiers(wparam);
    if umsg == WM_MOUSEMOVE {
        Some(InputEvent::PointerMoved { x, y })
    } else if umsg == WM_LBUTTONDOWN || umsg == WM_LBUTTONDBLCLK {
        Some(InputEvent::PointerButton { x, y, button: PointerButton::Primary, pressed: true, modifiers: mods })
    } else if umsg == WM_LBUTTONUP {
        Some(InputEvent::PointerButton { x, y, button: PointerButton::Primary, pressed: false, modifiers: mods })
    } else if umsg == WM_RBUTTONDOWN || umsg == WM_RBUTTONDBLCLK {
        Some(InputEvent::PointerButton { x, y, button: PointerButton::Secondary, pressed: true, modifiers: mods })
    } else if umsg == WM_RBUTTONUP {
        Some(InputEvent::PointerButton { x, y, button: PointerButton::Secondary, pressed: false, modifiers: mods })
    } else if umsg == WM_MBUTTONDOWN || umsg == WM_MBUTTONDBLCLK {
        Some(InputEvent::PointerButton { x, y, button: PointerButton::Middle, pressed: true, modifiers: mods })
    } else if umsg == WM_MBUTTONUP {
        Some(InputEvent::PointerButton { x, y, button: PointerButton::Middle, pressed: false, modifiers: mods })
    } else if umsg == WM_CHAR {
        let code = wparam as int % 0x1_0000_0000;
        if is_scalar_value(code) && !is_control_char(code) {
            Some(InputEvent::Text(code as char))
        } else {
            None
        }
    } else if umsg == WM_MOUSEWHEEL || umsg == WM_MOUSEHWHEEL {
        Some(InputEvent::MouseWheel {
            horizontal: umsg == WM_MOUSEHWHEEL,
            delta: signed16((wparam as int / 0x10000) % 0x10000) as i16,
            modifiers: mods,
        })
    } else if umsg == WM_KEYDOWN || umsg == WM_SYSKEYDOWN {
        let kmods = key_modifiers(umsg, ctrl_down, shift_down);
        match key_of(wparam) {
            Some(key) => if key == Key::Space {
                Some(InputEvent::Text(' '))
            } else if key == Key::Letter('V') && kmods.ctrl {
                Some(InputEvent::Paste)
            } else if key == Key::Letter('C') && kmods.ctrl {
                Some(InputEvent::Copy)
            } else if key == Key::Letter('X') && kmods.ctrl {
                Some(InputEvent::Cut)
            } else {
                Some(InputEvent::Key { key, pressed: true, modifiers: kmods })
            },
            None => None,
        }
    } else if umsg == WM_KEYUP || umsg == WM_SYSKEYUP {
        match key_of(wparam) {
            Some(key) => Some(InputEvent::Key { key, pressed: false, modifiers: key_modifiers(umsg, ctrl_down, shift_down) }),
            None => None,
        }
    } else {
        None
    }
}

/// The event, if any, that the window message `umsg` with parameters
/// `wparam` and `lparam` stands for (see `message_event`).
pub fn process_input(umsg: u32, wparam: usize, lparam: isize, ctrl_down: bool, shift_down: bool) -> (r: Option<InputEvent>)
    ensures
        r == message_event(umsg, wparam, lparam, ctrl_down, shift_down),
{
    let (x, y) = words(lparam);
    let mods = mouse_modifiers_exec(wparam);
    if umsg == WM_MOUSEMOVE {
        Some(InputEvent::PointerMoved { x, y })
    } else if umsg == WM_LBUTTONDOWN || umsg == WM_LBUTTONDBLCLK {
        Some(InputEvent::PointerButton { x, y, button: PointerButton::Primary, pressed: true, modifiers: mods })
    } else if umsg == WM_LBUTTONUP {
        Some(InputEvent::PointerButton { x, y, button: PointerButton::Primary, pressed: false, modifiers: mods })
    } else if umsg == WM_RBUTTONDOWN || umsg == WM_RBUTTONDBLCLK {
        Some(InputEvent::PointerButton { x, y, button: PointerButton::Secondary, pressed: true, modifiers: mods })
    } else if umsg == WM_RBUTTONUP {
        Some(InputEvent::PointerButton { x, y, button: PointerButton::Secondary, pressed: false, modifiers: mods })
    } else if umsg == WM_MBUTTONDOWN || umsg == WM_MBUTTONDBLCLK {
        Some(InputEvent::PointerButton { x, y, button: PointerButton::Middle, pressed: true, modifiers: mods })
    } else if umsg == WM_MBUTTONUP {
        Some(InputEvent::PointerButton { x, y, button: PointerButton::Middle, pressed: false, modifiers: mods })
    } else if umsg == WM_CHAR {
        let code = (wparam as u64 % 0x1_0000_0000) as u32;
        match char_from_u32(code) {
            Some(c) => {
                if code <= 0x1F || (0x7F <= code && code <= 0x9F) {
                    None
                } else {
                    Some(InputEvent::Text(c))
                }
            },
            None => None,
        }
    } else if umsg == WM_MOUSEWHEEL || umsg == WM_MOUSEHWHEEL {
        let raw = ((wparam / 0x10000) % 0x10000) as u32;
        Some(InputEvent::MouseWheel { horizontal: umsg == WM_MOUSEHWHEEL, delta: signed16_exec(raw), modifiers: mods })
    } else if umsg == WM_KEYDOWN || umsg == WM_SYSKEYDOWN {
        let kmods = Modifiers { alt: umsg == WM_SYSKEYDOWN, ctrl: ctrl_down, shift: shift_down, mac_cmd: false, command: ctrl_down };
        match get_key(wparam) {
            Some(key) => {
                if key == Key::Space {
                    Some(InputEvent::Text(' '))
                } else if key == Key::Letter('V') && kmods.ctrl {
                    Some(InputEvent::Paste)
                } else if key == Key::Letter('C') && kmods.ctrl {
                    Some(InputEvent::Copy)
                } else if key == Key::Letter('X') && kmods.ctrl {
                    Some(InputEvent::Cut)
                } else {
                    Some(InputEvent::Key { key, pressed: true, modifiers: kmods })
                }
            },
            None => None,
        }
    } else if umsg == WM_KEYUP || umsg == WM_SYSKEYUP {
        match get_key(wparam) {
            Some(key) => Some(InputEvent::Key {
                key,
                pressed: false,
                modifiers: Modifiers { alt: umsg == WM_SYSKEYDOWN, ctrl: ctrl_down, shift: shift_down, mac_cmd: false, command: ctrl_down },
            }),
            None => None,
        }
    } else {
        None
    }
}

/// A mouse-button message gives a button event for the button it names,
/// pressed for a down or double-click message and released for an up
/// message, at the point where a pointer move with the same parameters
/// would place the pointer, with control and shift taken from `wparam`.
pub proof fn law_pointer_button_messages(umsg: u32, wparam: usize, lparam: isize, ctrl_down: bool, shift_down: bool)
    requires
        WM_LBUTTONDOWN <= umsg <= WM_MBUTTONDBLCLK,
    ensures
        message_event(umsg, wparam, lparam, ctrl_down, shift_down) matches Some(
            InputEvent::PointerButton { x, y, button, pressed, modifiers },
        ) && {
            &&& pressed <==> !(umsg == WM_LBUTTONUP || umsg == WM_RBUTTONUP || umsg == WM_MBUTTONUP)
            &&& (button == PointerButton::Primary <==> (umsg == WM_LBUTTONDOWN || umsg == WM_LBUTTONUP
                || umsg == WM_LBUTTONDBLCLK))
            &&& (button == PointerButton::Secondary <==> (umsg == WM_RBUTTONDOWN || umsg == WM_RBUTTONUP
                || umsg == WM_RBUTTONDBLCLK))
            &&& (button == PointerButton::Middle <==> (umsg == WM_MBUTTONDOWN || umsg == WM_MBUTTONUP
                || umsg == WM_MBUTTONDBLCLK))
            &&& message_event(WM_MOUSEMOVE, wparam, lparam, ctrl_down, shift_down) == Some(
                InputEvent::PointerMoved { x, y },
            )
            &&& modifiers.ctrl == ((wparam & MK_CONTROL) != 0)
            &&& modifiers.shift == ((wparam & MK_SHIFT) != 0)
            &&& !modifiers.alt
        },
{
}

/// A key message for a key the interface knows gives a key event for that
/// key, pressed for a key-down message and released for a key-up one, unless
/// the key-down is the space bar (typed as a space) or control with `C`,
/// `V` or `X` (copy, paste, cut). Alt counts as held exactly for a system
/// key-down message.
pub proof fn law_key_messages(umsg: u32, wparam: usize, lparam: isize, ctrl_down: bool, shift_down: bool)
    requires
        umsg == WM_KEYDOWN || umsg == WM_SYSKEYDOWN || umsg == WM_KEYUP || umsg == WM_SYSKEYUP,
    ensures
        key_of(wparam) is None ==> message_event(umsg, wparam, lparam, ctrl_down, shift_down) is None,
        key_of(wparam) matches Some(key) ==> {
            let down = umsg == WM_KEYDOWN || umsg == WM_SYSKEYDOWN;
            let special = down && (key == Key::Space || (ctrl_down && (key == Key::Letter('C') || key
                == Key::Letter('V') || key == Key::Letter('X'))));
            &&& !special ==> message_event(umsg, wparam, lparam, ctrl_down, shift_down) == Some(
                InputEvent::Key {
                    key,
                    pressed: down,
                    modifiers: Modifiers {
                        alt: umsg == WM_SYSKEYDOWN,
                        ctrl: ctrl_down,
                        shift: shift_down,
                        mac_cmd: false,
                        command: ctrl_down,
                    },
                },
            )
            &&& (down && key == Key::Space) ==> message_event(umsg, wparam, lparam, ctrl_down, shift_down)
                == Some(InputEvent::Text(' '))
            &&& (down && ctrl_down && key == Key::Letter('V')) ==> message_event(
                umsg,
                wparam,
                lparam,
                ctrl_down,
                shift_down,
            ) == Some(InputEvent::Paste)
            &&& (down && ctrl_down && key == Key::Letter('C')) ==> message_event(
                umsg,
                wparam,
                lparam,
                ctrl_down,
                shift_down,
            ) == Some(InputEvent::Copy)
            &&& (down && ctrl_down && key == Key::Letter('X')) ==> message_event(
                umsg,
                wparam,
                lparam,
                ctrl_down,
                shift_down,
            ) == Some(InputEvent::Cut)
        },
{
}

/// Digit and letter keys are their own characters: a virtual-key code from
/// `0x30` to `0x39` is the digit `code - 0x30`, one from `0x41` to `0x5A` is
/// the letter with that code.
pub proof fn law_digit_and_letter_keys(wparam: usize)
    ensures
        0x30 <= wparam <= 0x39 ==> (key_of(wparam) matches Some(Key::Num(d)) && d + 0x30 == wparam),
        0x41 <= wparam <= 0x5A ==> (key_of(wparam) matches Some(Key::Letter(c)) && c as int == wparam),
{
}

/// The pointer position of a mouse message is the low and high 16-bit words
/// of `lparam`, each read as a signed number: `x` agrees with `lparam`, and
/// `y` with `lparam` shifted right by 16 bits, modulo 2^16.
pub proof fn law_pointer_position(wparam: usize, lparam: isize, ctrl_down: bool, shift_down: bool)
    ensures
        (message_event(WM_MOUSEMOVE, wparam, lparam, ctrl_down, shift_down) matches Some(
            InputEvent::PointerMoved { x, y },
        ) && (x as int - lparam as int) % 65536 == 0 && (y as int - lparam as int / 65536) % 65536 == 0),
{
    let l = lparam as int;
    let pb = param_bits(lparam);
    let c: int = if lparam >= 0 { 0 } else { 1 };
    assert(pb == l + c * 0x1_0000_0000_0000_0000);
    let v = pb % 65536;
    let w = (pb / 65536) % 65536;
    assert(pb == 65536 * (pb / 65536) + v && 0 <= v < 65536) by (nonlinear_arith)
        requires
            v == pb % 65536,
    ;
    assert(pb / 65536 == 65536 * ((pb / 65536) / 65536) + w && 0 <= w < 65536) by (nonlinear_arith)
        requires
            w == (pb / 65536) % 65536,
    ;
    assert(pb / 65536 == l / 65536 + c * 0x1_0000_0000_0000) by (nonlinear_arith)
        requires
            pb == l + c * 0x1_0000_0000_0000_0000,
    ;
    let x = low_word(pb);
    let y = high_word(pb);
    assert(-32768 <= x < 32768);
    assert(-32768 <= y < 32768);
    assert((x - l) % 65536 == 0) by (nonlinear_arith)
        requires
            pb == 65536 * (pb / 65536) + v,
            pb == l + c * 0x1_0000_0000_0000_0000,
            x == v || x == v - 65536,
    ;
    assert((y - l / 65536) % 65536 == 0) by (nonlinear_arith)
        requires
            pb / 65536 == 65536 * ((pb / 65536) / 65536) + w,
            pb / 65536 == l / 65536 + c * 0x1_0000_0000_0000,
            y == w || y == w - 65536,
    ;
}

} // verus!
