//! What the `WH_GETMESSAGE` hook does with a message taken from the game's queue:
//! which input event it sends to the server, and whether it swallows the message.

use vstd::prelude::*;

use crate::input_event::{
    default_input_event_view, InputEvent, InputEventType, InputEventView, InputModifier,
    MouseButton,
};
use crate::key_code::{get_input_event_key_code, spec_input_event_key_code};
use crate::utf16::{get_char_event_key_code, spec_utf16_unit_lossy};
use crate::winuser::{
    KF_EXTENDED, MK_CONTROL, MK_LBUTTON, MK_MBUTTON, MK_RBUTTON, MK_SHIFT, PM_REMOVE, VK_ADD,
    VK_CLEAR, VK_CONTROL, VK_DECIMAL, VK_DELETE, VK_DIVIDE, VK_DOWN, VK_END, VK_HOME, VK_INSERT,
    VK_LEFT, VK_LWIN, VK_MENU, VK_MULTIPLY, VK_NEXT, VK_NUMLOCK, VK_NUMPAD0, VK_NUMPAD9, VK_PRIOR,
    VK_RETURN, VK_RIGHT, VK_RWIN, VK_SHIFT, VK_SUBTRACT, VK_UP, WM_CHAR, WM_KEYDOWN, WM_KEYFIRST,
    WM_KEYLAST, WM_KEYUP, WM_LBUTTONDBLCLK, WM_LBUTTONDOWN, WM_LBUTTONUP, WM_MBUTTONDBLCLK,
    WM_MBUTTONDOWN, WM_MBUTTONUP, WM_MOUSEFIRST, WM_MOUSELAST, WM_MOUSEMOVE, WM_MOUSEWHEEL,
    WM_RBUTTONDBLCLK, WM_RBUTTONDOWN, WM_RBUTTONUP, WM_SYSKEYDOWN, WM_SYSKEYUP, WM_XBUTTONDBLCLK,
    WM_XBUTTONDOWN, WM_XBUTTONUP,
};

verus! {

/// A message as the hook receives it in its `MSG` structure.
#[derive(Clone, Copy)]
pub struct HookMessage {
    pub message: u32,
    pub w_param: usize,
    pub l_param: isize,
}

/// The values that `GetAsyncKeyState` returned for the keys the hook consults.
#[derive(Clone, Copy)]
pub struct AsyncKeyStates {
    pub shift: i16,
    pub control: i16,
    pub menu: i16,
    pub lwin: i16,
    pub rwin: i16,
    pub numlock: i16,
    pub capital: i16,
    pub lshift: i16,
    pub rshift: i16,
    pub lcontrol: i16,
    pub rcontrol: i16,
    pub lmenu: i16,
    pub rmenu: i16,
}

/// The client rectangle of the game's window, as `GetClientRect` fills it.
#[derive(Clone, Copy)]
pub struct ClientRect {
    pub left: i32,
    pub top: i32,
    pub right: i32,
    pub bottom: i32,
}

/// What the hook does with a message: the event it sends, if any, and whether it
/// swallows the message (translates it and turns it into `WM_NULL`) instead of
/// passing it on to the next hook.
pub struct MessageHookOutcome {
    pub event: Option<InputEvent>,
    pub swallow: bool,
}

pub struct MessageHookOutcomeView {
    pub event: Option<InputEventView>,
    pub swallow: bool,
}

impl View for MessageHookOutcome {
    type V = MessageHookOutcomeView;

    open spec fn view(&self) -> MessageHookOutcomeView {
        MessageHookOutcomeView {
            event: match self.event {
                Some(e) => Some(e@),
                None => None,
            },
            swallow: self.swallow,
        }
    }
}

/// A key is down when the most significant bit of its async state is set.
pub open spec fn is_pressed(state: i16) -> bool {
    state < 0
}

/// A toggle key (Num Lock, Caps Lock) is on when the low bit of its async state is set.
pub open spec fn is_toggled(state: i16) -> bool {
    (state as int) % 2 == 1
}

/// The one-element list `[m]` when `c` holds, the empty list otherwise.
pub open spec fn modifier_if(c: bool, m: InputModifier) -> Seq<InputModifier> {
    if c {
        seq![m]
    } else {
        Seq::empty()
    }
}

/// The extended-key flag (bit 24) of a key message's `LPARAM`.
pub open spec fn is_extended_key(l_param: isize) -> bool {
    (l_param >> 16) & KF_EXTENDED != 0
}

pub open spec fn is_key_message(message: u32) -> bool {
    WM_KEYFIRST <= message <= WM_KEYLAST
}

pub open spec fn is_mouse_message(message: u32) -> bool {
    WM_MOUSEFIRST <= message <= WM_MOUSELAST
}

/// The event type of a message of the keyboard range, if it has one.
pub open spec fn spec_key_event_type(message: u32) -> Option<InputEventType> {
    if message == WM_KEYDOWN || message == WM_SYSKEYDOWN {
        Some(InputEventType::KeyDown)
    } else if message == WM_KEYUP || message == WM_SYSKEYUP {
        Some(InputEventType::KeyUp)
    } else if message == WM_CHAR {
        Some(InputEventType::Char)
    } else {
        None
    }
}

pub open spec fn is_navigation_key(code: i32) -> bool {
    code == VK_INSERT || code == VK_DELETE || code == VK_HOME || code == VK_END || code
        == VK_PRIOR || code == VK_NEXT || code == VK_UP || code == VK_DOWN || code == VK_LEFT
        || code == VK_RIGHT
}

pub open spec fn is_keypad_only_key(code: i32) -> bool {
    code == VK_NUMLOCK || (VK_NUMPAD0 <= code <= VK_NUMPAD9) || code == VK_DIVIDE || code
        == VK_MULTIPLY || code == VK_SUBTRACT || code == VK_ADD || code == VK_DECIMAL || code
        == VK_CLEAR
}

/// The modifiers that tell where on the keyboard the key of a key event is.
pub open spec fn spec_key_location_modifiers(
    w_param: usize,
    l_param: isize,
    keys: AsyncKeyStates,
) -> Seq<InputModifier> {
    let code = w_param as i32;
    if code == VK_RETURN {
        modifier_if(is_extended_key(l_param), InputModifier::IsKeypad)
    } else if is_navigation_key(code) {
        modifier_if(!is_extended_key(l_param), InputModifier::IsKeypad)
    } else if is_keypad_only_key(code) {
        seq![InputModifier::IsKeypad]
    } else if code == VK_SHIFT {
        modifier_if(is_pressed(keys.lshift), InputModifier::Left) + modifier_if(
            is_pressed(keys.rshift),
            InputModifier::Right,
        )
    } else if code == VK_CONTROL {
        modifier_if(is_pressed(keys.lcontrol), InputModifier::Left) + modifier_if(
            is_pressed(keys.rcontrol),
            InputModifier::Right,
        )
    } else if code == VK_MENU {
        modifier_if(is_pressed(keys.lmenu), InputModifier::Left) + modifier_if(
            is_pressed(keys.rmenu),
            InputModifier::Right,
        )
    } else if code == VK_LWIN {
        seq![InputModifier::Left]
    } else if code == VK_RWIN {
        seq![InputModifier::Right]
    } else {
        Seq::empty()
    }
}

/// The modifiers of a key event, in the order in which they are sent.
pub open spec fn spec_key_modifiers(msg: HookMessage, keys: AsyncKeyStates) -> Seq<
    InputModifier,
> {
    modifier_if(is_pressed(keys.shift), InputModifier::Shift) + modifier_if(
        is_pressed(keys.control),
        InputModifier::Control,
    ) + modifier_if(is_pressed(keys.menu), InputModifier::Alt) + modifier_if(
        is_pressed(keys.lwin) || is_pressed(keys.rwin),
        InputModifier::Meta,
    ) + modifier_if(is_toggled(keys.numlock), InputModifier::NumLock) + modifier_if(
        is_toggled(keys.capital),
        InputModifier::CapsLock,
    ) + spec_key_location_modifiers(msg.w_param, msg.l_param, keys)
}

/// The event sent for a message of the keyboard range, if any.
pub open spec fn spec_key_event(msg: HookMessage, keys: AsyncKeyStates) -> Option<InputEventView> {
    match spec_key_event_type(msg.message) {
        None => None,
        Some(t) => Some(
            InputEventView {
                event_type: Some(t),
                key_code: if t == InputEventType::Char {
                    spec_utf16_unit_lossy(msg.w_param as u16)
                } else {
                    spec_input_event_key_code(msg.w_param)
                },
                modifiers: spec_key_modifiers(msg, keys),
                ..default_input_event_view()
            },
        ),
    }
}

/// The low 16 bits of a 32-bit value.
pub open spec fn low_word(v: u32) -> u16 {
    (v % 0x10000) as u16
}

/// The high 16 bits of a 32-bit value.
pub open spec fn high_word(v: u32) -> u16 {
    (v / 0x10000) as u16
}

/// The cursor position of a mouse message: the low and high words of its `LPARAM`.
pub open spec fn mouse_x(msg: HookMessage) -> u16 {
    low_word(msg.l_param as u32)
}

pub open spec fn mouse_y(msg: HookMessage) -> u16 {
    high_word(msg.l_param as u32)
}

pub open spec fn is_mouse_double_click(message: u32) -> bool {
    message == WM_LBUTTONDBLCLK || message == WM_RBUTTONDBLCLK || message == WM_MBUTTONDBLCLK
        || message == WM_XBUTTONDBLCLK
}

pub open spec fn is_mouse_button_down(message: u32) -> bool {
    message == WM_LBUTTONDOWN || message == WM_RBUTTONDOWN || message == WM_MBUTTONDOWN
        || message == WM_XBUTTONDOWN || is_mouse_double_click(message)
}

pub open spec fn is_mouse_button_up(message: u32) -> bool {
    message == WM_LBUTTONUP || message == WM_RBUTTONUP || message == WM_MBUTTONUP || message
        == WM_XBUTTONUP
}

pub open spec fn spec_mouse_event_type(message: u32) -> Option<InputEventType> {
    if is_mouse_button_down(message) {
        Some(InputEventType::MouseDown)
    } else if is_mouse_button_up(message) {
        Some(InputEventType::MouseUp)
    } else if message == WM_MOUSEMOVE {
        Some(InputEventType::MouseMove)
    } else if message == WM_MOUSEWHEEL {
        Some(InputEventType::MouseWheel)
    } else {
        None
    }
}

pub open spec fn spec_mouse_click_count(message: u32) -> i32 {
    if is_mouse_double_click(message) {
        2
    } else if is_mouse_button_down(message) || is_mouse_button_up(message) {
        1
    } else {
        0
    }
}

pub open spec fn spec_mouse_button(message: u32) -> Option<MouseButton> {
    if message == WM_LBUTTONDOWN || message == WM_LBUTTONUP || message == WM_LBUTTONDBLCLK {
        Some(MouseButton::Left)
    } else if message == WM_RBUTTONDOWN || message == WM_RBUTTONUP || message
        == WM_RBUTTONDBLCLK {
        Some(MouseButton::Right)
    } else if message == WM_MBUTTONDOWN || message == WM_MBUTTONUP || message
        == WM_MBUTTONDBLCLK {
        Some(MouseButton::Middle)
    } else {
        None
    }
}

/// The wheel rotation of a `WM_MOUSEWHEEL` message: the high word of its `WPARAM`, signed.
pub open spec fn wheel_delta(w_param: usize) -> i16 {
    high_word(w_param as u32) as i16
}

/// The modifier flags carried by a mouse message: the low word of its `WPARAM`.
pub open spec fn mouse_key_state(w_param: usize) -> u16 {
    low_word(w_param as u32)
}

/// The modifiers of a mouse event, in the order in which they are sent.
///
/// The Alt test masks the key state with the value of `VK_MENU`, as the hook has always done.
pub open spec fn spec_mouse_modifiers(msg: HookMessage, keys: AsyncKeyStates) -> Seq<
    InputModifier,
> {
    let vk = mouse_key_state(msg.w_param);
    let control = vk & MK_CONTROL != 0;
    let shift = vk & MK_SHIFT != 0;
    let alt = vk & (VK_MENU as u16) != 0;
    modifier_if(control, InputModifier::Control) + modifier_if(
        control && is_pressed(keys.lcontrol),
        InputModifier::Left,
    ) + modifier_if(control && is_pressed(keys.rcontrol), InputModifier::Right) + modifier_if(
        shift,
        InputModifier::Shift,
    ) + modifier_if(shift && is_pressed(keys.lshift), InputModifier::Left) + modifier_if(
        shift && is_pressed(keys.rshift),
        InputModifier::Right,
    ) + modifier_if(alt, InputModifier::Alt) + modifier_if(
        alt && is_pressed(keys.lmenu),
        InputModifier::Left,
    ) + modifier_if(alt && is_pressed(keys.rmenu), InputModifier::Right) + modifier_if(
        vk & MK_LBUTTON != 0,
        InputModifier::LeftButtonDown,
    ) + modifier_if(vk & MK_RBUTTON != 0, InputModifier::RightButtonDown) + modifier_if(
        vk & MK_MBUTTON != 0,
        InputModifier::MiddleButtonDown,
    ) + modifier_if(is_pressed(keys.lwin) || is_pressed(keys.rwin), InputModifier::Meta)
        + modifier_if(is_toggled(keys.numlock), InputModifier::NumLock) + modifier_if(
        is_toggled(keys.capital),
        InputModifier::CapsLock,
    )
}

/// The event sent for a message of the mouse range whose cursor lies in the client area.
pub open spec fn spec_mouse_event(msg: HookMessage, keys: AsyncKeyStates) -> InputEventView {
    InputEventView {
        event_type: spec_mouse_event_type(msg.message),
        key_code: if is_mouse_button_down(msg.message) {
            spec_input_event_key_code(msg.w_param)
        } else {
            Seq::empty()
        },
        modifiers: spec_mouse_modifiers(msg, keys),
        click_count: spec_mouse_click_count(msg.message),
        delta_y: if msg.message == WM_MOUSEWHEEL {
            wheel_delta(msg.w_param) as i32
        } else {
            0
        },
        can_scroll: msg.message == WM_MOUSEWHEEL,
        x: mouse_x(msg) as i32,
        y: mouse_y(msg) as i32,
        button: spec_mouse_button(msg.message),
    }
}

/// Whether the cursor of a mouse message lies within the width and height of the client
/// rectangle, when `GetClientRect` succeeded (returned 1).
pub open spec fn cursor_in_client_area(
    msg: HookMessage,
    client_rect_result: i32,
    client_rect: ClientRect,
) -> bool {
    &&& client_rect_result == 1
    &&& mouse_x(msg) <= client_rect.right - client_rect.left
    &&& mouse_y(msg) <= client_rect.bottom - client_rect.top
}

/// What the hook does with message `msg`, called with hook code `code` and hook
/// `wParam` `w_param`.
pub open spec fn spec_message_hook_outcome(
    code: i32,
    w_param: usize,
    msg: HookMessage,
    keys: AsyncKeyStates,
    client_rect_result: i32,
    client_rect: ClientRect,
) -> MessageHookOutcomeView {
    if code >= 0 && w_param == PM_REMOVE && is_key_message(msg.message) {
        MessageHookOutcomeView { event: spec_key_event(msg, keys), swallow: true }
    } else if code >= 0 && w_param == PM_REMOVE && is_mouse_message(msg.message)
        && cursor_in_client_area(msg, client_rect_result, client_rect) {
        MessageHookOutcomeView { event: Some(spec_mouse_event(msg, keys)), swallow: true }
    } else {
        MessageHookOutcomeView { event: None, swallow: false }
    }
}

/// Whether a key is down, from its `GetAsyncKeyState` value.
pub fn is_key_pressed(state: i16) -> (pressed: bool)
    ensures
        pressed == is_pressed(state),
{
    let r = (state as i64) & 0x8000 != 0;
    assert(((state as i64) & 0x8000 != 0) == (state < 0)) by (bit_vector);
    r
}

/// Whether a toggle key is on, from its `GetAsyncKeyState` value.
pub fn is_key_toggled(state: i16) -> (toggled: bool)
    ensures
        toggled == is_toggled(state),
{
    let r = (state as i64) & 0x0001 != 0;
    assert(((state as i64) & 0x0001 != 0) == ((state as i64) % 2 != 0)) by (bit_vector);
    r
}

/// Appends `m` to `modifiers` when `c` holds.
fn push_modifier_if(modifiers: &mut Vec<InputModifier>, c: bool, m: InputModifier)
    ensures
        final(modifiers)@ == old(modifiers)@ + modifier_if(c, m),
{
    if c {
        modifiers.push(m);
    } else {
        assert(old(modifiers)@ + modifier_if(c, m) =~= old(modifiers)@);
    }
}

fn append_key_location_modifiers(
    modifiers: &mut Vec<InputModifier>,
    msg: &HookMessage,
    keys: &AsyncKeyStates,
)
    ensures
        final(modifiers)@ == old(modifiers)@ + spec_key_location_modifiers(
            msg.w_param,
            msg.l_param,
            *keys,
        ),
{
    let code = msg.w_param as i32;
    let extended = (msg.l_param >> 16) & KF_EXTENDED != 0;
    if code == VK_RETURN {
        push_modifier_if(modifiers, extended, InputModifier::IsKeypad);
    } else if code == VK_INSERT || code == VK_DELETE || code == VK_HOME || code == VK_END || code
        == VK_PRIOR || code == VK_NEXT || code == VK_UP || code == VK_DOWN || code == VK_LEFT
        || code == VK_RIGHT {
        push_modifier_if(modifiers, !extended, InputModifier::IsKeypad);
    } else if code == VK_NUMLOCK || (VK_NUMPAD0 <= code && code <= VK_NUMPAD9) || code
        == VK_DIVIDE || code == VK_MULTIPLY || code == VK_SUBTRACT || code == VK_ADD || code
        == VK_DECIMAL || code == VK_CLEAR {
        modifiers.push(InputModifier::IsKeypad);
    } else if code == VK_SHIFT {
        push_modifier_if(modifiers, is_key_pressed(keys.lshift), InputModifier::Left);
        push_modifier_if(modifiers, is_key_pressed(keys.rshift), InputModifier::Right);
    } else if code == VK_CONTROL {
        push_modifier_if(modifiers, is_key_pressed(keys.lcontrol), InputModifier::Left);
        push_modifier_if(modifiers, is_key_pressed(keys.rcontrol), InputModifier::Right);
    } else if code == VK_MENU {
        push_modifier_if(modifiers, is_key_pressed(keys.lmenu), InputModifier::Left);
        push_modifier_if(modifiers, is_key_pressed(keys.rmenu), InputModifier::Right);
    } else if code == VK_LWIN {
        modifiers.push(InputModifier::Left);
    } else if code == VK_RWIN {
        modifiers.push(InputModifier::Right);
    } else {
        assert(modifiers@ =~= modifiers@ + Seq::<InputModifier>::empty());
    }
}

/// The event for a message of the keyboard range, if the message is one the overlay reports.
pub fn key_event(msg: &HookMessage, keys: &AsyncKeyStates) -> (event: Option<InputEvent>)
    ensures
        match event {
            Some(e) => spec_key_event(*msg, *keys) == Some(e@),
            None => spec_key_event(*msg, *keys) is None,
        },
{
    let mut event = InputEvent::new();
    if msg.message == WM_KEYDOWN || msg.message == WM_SYSKEYDOWN {
        event.event_type = Some(InputEventType::KeyDown);
        event.key_code = get_input_event_key_code(msg.w_param);
    } else if msg.message == WM_KEYUP || msg.message == WM_SYSKEYUP {
        event.event_type = Some(InputEventType::KeyUp);
        event.key_code = get_input_event_key_code(msg.w_param);
    } else if msg.message == WM_CHAR {
        event.event_type = Some(InputEventType::Char);
        event.key_code = get_char_event_key_code(msg.w_param);
    } else {
        return None;
    }
    push_modifier_if(&mut event.modifiers, is_key_pressed(keys.shift), InputModifier::Shift);
    assert(event.modifiers@ =~= modifier_if(is_pressed(keys.shift), InputModifier::Shift));
    push_modifier_if(&mut event.modifiers, is_key_pressed(keys.control), InputModifier::Control);
    push_modifier_if(&mut event.modifiers, is_key_pressed(keys.menu), InputModifier::Alt);
    let meta = is_key_pressed(keys.lwin) || is_key_pressed(keys.rwin);
    push_modifier_if(&mut event.modifiers, meta, InputModifier::Meta);
    push_modifier_if(&mut event.modifiers, is_key_toggled(keys.numlock), InputModifier::NumLock);
    push_modifier_if(&mut event.modifiers, is_key_toggled(keys.capital), InputModifier::CapsLock);
    append_key_location_modifiers(&mut event.modifiers, msg, keys);
    Some(event)
}

/// The low and high words of a 32-bit value.
fn split_words(v: u32) -> (words: (u16, u16))
    ensures
        words.0 == low_word(v),
        words.1 == high_word(v),
{
    let low = (v & 0xffff) as u16;
    let high = ((v >> 16) & 0xffff) as u16;
    assert((v & 0xffff) == v % 0x10000) by (bit_vector);
    assert(((v >> 16) & 0xffff) == v / 0x10000) by (bit_vector);
    (low, high)
}

/// The event for a message of the mouse range whose cursor lies in the client area.
pub fn mouse_event(msg: &HookMessage, keys: &AsyncKeyStates) -> (event: InputEvent)
    ensures
        event@ == spec_mouse_event(*msg, *keys),
{
    let message = msg.message;
    let (x, y) = split_words(msg.l_param as u32);
    let (vk_state, wheel) = split_words(msg.w_param as u32);
    let mut event = InputEvent::new();

    if message == WM_LBUTTONDOWN || message == WM_RBUTTONDOWN || message == WM_MBUTTONDOWN
        || message == WM_XBUTTONDOWN || message == WM_LBUTTONDBLCLK || message
        == WM_RBUTTONDBLCLK || message == WM_MBUTTONDBLCLK || message == WM_XBUTTONDBLCLK {
        event.event_type = Some(InputEventType::MouseDown);
        if message == WM_LBUTTONDBLCLK || message == WM_RBUTTONDBLCLK || message
            == WM_MBUTTONDBLCLK || message == WM_XBUTTONDBLCLK {
            event.click_count = 2;
        } else {
            event.click_count = 1;
        }
        event.key_code = get_input_event_key_code(msg.w_param);
    } else if message == WM_LBUTTONUP || message == WM_RBUTTONUP || message == WM_MBUTTONUP
        || message == WM_XBUTTONUP {
        event.event_type = Some(InputEventType::MouseUp);
        event.click_count = 1;
    } else if message == WM_MOUSEMOVE {
        event.event_type = Some(InputEventType::MouseMove);
    } else if message == WM_MOUSEWHEEL {
        event.event_type = Some(InputEventType::MouseWheel);
        event.delta_y = (wheel as i16) as i32;
        event.can_scroll = true;
    }

    event.x = x as i32;
    event.y = y as i32;

    if message == WM_LBUTTONDOWN || message == WM_LBUTTONUP || message == WM_LBUTTONDBLCLK {
        event.button = Some(MouseButton::Left);
    } else if message == WM_RBUTTONDOWN || message == WM_RBUTTONUP || message
        == WM_RBUTTONDBLCLK {
        event.button = Some(MouseButton::Right);
    } else if message == WM_MBUTTONDOWN || message == WM_MBUTTONUP || message
        == WM_MBUTTONDBLCLK {
        event.button = Some(MouseButton::Middle);
    }

    let control = vk_state & MK_CONTROL != 0;
    push_modifier_if(&mut event.modifiers, control, InputModifier::Control);
    assert(event.modifiers@ =~= modifier_if(control, InputModifier::Control));
    push_modifier_if(
        &mut event.modifiers,
        control && is_key_pressed(keys.lcontrol),
        InputModifier::Left,
    );
    push_modifier_if(
        &mut event.modifiers,
        control && is_key_pressed(keys.rcontrol),
        InputModifier::Right,
    );
    let shift = vk_state & MK_SHIFT != 0;
    push_modifier_if(&mut event.modifiers, shift, InputModifier::Shift);
    push_modifier_if(
        &mut event.modifiers,
        shift && is_key_pressed(keys.lshift),
        InputModifier::Left,
    );
    push_modifier_if(
        &mut event.modifiers,
        shift && is_key_pressed(keys.rshift),
        InputModifier::Right,
    );
    let alt = vk_state & (VK_MENU as u16) != 0;
    push_modifier_if(&mut event.modifiers, alt, InputModifier::Alt);
    push_modifier_if(&mut event.modifiers, alt && is_key_pressed(keys.lmenu), InputModifier::Left);
    push_modifier_if(
        &mut event.modifiers,
        alt && is_key_pressed(keys.rmenu),
        InputModifier::Right,
    );
    push_modifier_if(
        &mut event.modifiers,
        vk_state & MK_LBUTTON != 0,
        InputModifier::LeftButtonDown,
    );
    push_modifier_if(
        &mut event.modifiers,
        vk_state & MK_RBUTTON != 0,
        InputModifier::RightButtonDown,
    );
    push_modifier_if(
        &mut event.modifiers,
        vk_state & MK_MBUTTON != 0,
        InputModifier::MiddleButtonDown,
    );
    let meta = is_key_pressed(keys.lwin) || is_key_pressed(keys.rwin);
    push_modifier_if(&mut event.modifiers, meta, InputModifier::Meta);
    push_modifier_if(&mut event.modifiers, is_key_toggled(keys.numlock), InputModifier::NumLock);
    push_modifier_if(&mut event.modifiers, is_key_toggled(keys.capital), InputModifier::CapsLock);
    event
}

/// What the message hook does with `msg`: the event that it sends to the server and
/// whether it swallows the message.
///
/// `code` and `w_param` are the hook's own arguments; `keys` holds what
/// `GetAsyncKeyState` reports; `client_rect_result` and `client_rect` are what
/// `GetClientRect` returned and filled in for the game's window.
pub fn get_message_hook_outcome(
    code: i32,
    w_param: usize,
    msg: &HookMessage,
    keys: &AsyncKeyStates,
    client_rect_result: i32,
    client_rect: &ClientRect,
) -> (outcome: MessageHookOutcome)
    requires
        code >= 0 && w_param == PM_REMOVE && is_mouse_message(msg.message) && client_rect_result
            == 1 ==> {
            &&& i32::MIN <= client_rect.right - client_rect.left <= i32::MAX
            &&& i32::MIN <= client_rect.bottom - client_rect.top <= i32::MAX
        },
    ensures
        outcome@ == spec_message_hook_outcome(
            code,
            w_param,
            *msg,
            *keys,
            client_rect_result,
            *client_rect,
        ),
{
    if code >= 0 && w_param == PM_REMOVE {
        if WM_KEYFIRST <= msg.message && msg.message <= WM_KEYLAST {
            let event = key_event(msg, keys);
            return MessageHookOutcome { event, swallow: true };
        } else if WM_MOUSEFIRST <= msg.message && msg.message <= WM_MOUSELAST {
            if client_rect_result == 1 {
                let client_width = client_rect.right - client_rect.left;
                let client_height = client_rect.bottom - client_rect.top;
                let (x, y) = split_words(msg.l_param as u32);
                if x as i32 <= client_width && y as i32 <= client_height {
                    let event = mouse_event(msg, keys);
                    return MessageHookOutcome { event: Some(event), swallow: true };
                }
            }
        }
    }
    MessageHookOutcome { event: None, swallow: false }
}

/// A hook call that is not asked to process the message (a negative hook code), or whose
/// message stays in the queue, sends nothing and passes the message on.
pub proof fn lemma_unprocessed_messages_pass_through(
    code: i32,
    w_param: usize,
    msg: HookMessage,
    keys: AsyncKeyStates,
    client_rect_result: i32,
    client_rect: ClientRect,
)
    requires
        code < 0 || w_param != PM_REMOVE,
    ensures
        spec_message_hook_outcome(code, w_param, msg, keys, client_rect_result, client_rect).event
            is None,
        !spec_message_hook_outcome(
            code,
            w_param,
            msg,
            keys,
            client_rect_result,
            client_rect,
        ).swallow,
{
}

/// Every message of the keyboard range that is removed from the queue is swallowed,
/// whether or not it is one that the overlay reports; it is reported exactly when it is a
/// key-down, key-up or character message.
pub proof fn lemma_key_messages_are_swallowed(
    code: i32,
    msg: HookMessage,
    keys: AsyncKeyStates,
    client_rect_result: i32,
    client_rect: ClientRect,
)
    requires
        code >= 0,
        is_key_message(msg.message),
    ensures
        spec_message_hook_outcome(code, PM_REMOVE, msg, keys, client_rect_result, client_rect).swallow,
        spec_message_hook_outcome(
            code,
            PM_REMOVE,
            msg,
            keys,
            client_rect_result,
            client_rect,
        ).event is Some <==> (msg.message == WM_KEYDOWN || msg.message == WM_SYSKEYDOWN
            || msg.message == WM_KEYUP || msg.message == WM_SYSKEYUP || msg.message == WM_CHAR),
{
}

/// The hook sends an event only for a message that it swallows, and a message outside the
/// keyboard and mouse ranges is never swallowed.
pub proof fn lemma_sent_events_are_swallowed(
    code: i32,
    w_param: usize,
    msg: HookMessage,
    keys: AsyncKeyStates,
    client_rect_result: i32,
    client_rect: ClientRect,
)
    ensures
        spec_message_hook_outcome(code, w_param, msg, keys, client_rect_result, client_rect).event
            is Some ==> spec_message_hook_outcome(
            code,
            w_param,
            msg,
            keys,
            client_rect_result,
            client_rect,
        ).swallow,
        !is_key_message(msg.message) && !is_mouse_message(msg.message) ==> !spec_message_hook_outcome(
            code,
            w_param,
            msg,
            keys,
            client_rect_result,
            client_rect,
        ).swallow,
{
}

/// A mouse event is sent only while the window's client rectangle is known, and its
/// position lies within the rectangle's width and height.
pub proof fn lemma_mouse_events_lie_in_client_area(
    code: i32,
    w_param: usize,
    msg: HookMessage,
    keys: AsyncKeyStates,
    client_rect_result: i32,
    client_rect: ClientRect,
)
    requires
        is_mouse_message(msg.message),
    ensures
        spec_message_hook_outcome(
            code,
            w_param,
            msg,
            keys,
            client_rect_result,
            client_rect,
        ).event matches Some(e) ==> {
            &&& client_rect_result == 1
            &&& 0 <= e.x <= client_rect.right - client_rect.left
            &&& 0 <= e.y <= client_rect.bottom - client_rect.top
        },
{
}

/// Every message of the mouse range (`WM_MOUSEFIRST` 0x0200 to `WM_MOUSELAST` 0x020E) that
/// is removed from the queue while its cursor (the low and high words of `LPARAM`) lies within
/// the client rectangle's width and height is swallowed, and an event is sent for it at that
/// position: button releases, moves and wheel turns as much as presses.
pub proof fn lemma_mouse_messages_in_client_area_are_sent_and_swallowed(
    code: i32,
    msg: HookMessage,
    keys: AsyncKeyStates,
    client_rect: ClientRect,
)
    requires
        code >= 0,
        0x0200 <= msg.message <= 0x020E,
        (msg.l_param as u32) % 0x10000 <= client_rect.right - client_rect.left,
        (msg.l_param as u32) / 0x10000 <= client_rect.bottom - client_rect.top,
    ensures
        ({
            let outcome = spec_message_hook_outcome(code, 1, msg, keys, 1, client_rect);
            &&& outcome.swallow
            &&& outcome.event is Some
            &&& outcome.event->0.x == (msg.l_param as u32) % 0x10000
            &&& outcome.event->0.y == (msg.l_param as u32) / 0x10000
        }),
{
}

/// The kind, click count and button of the event sent for each mouse message in the client
/// area: a press is a `MouseDown` with one click, a double click a `MouseDown` with two, a
/// release a `MouseUp` with one; left, right and middle messages carry their button and the
/// X-button messages none; a move and a wheel turn count no clicks.
pub proof fn lemma_mouse_event_kinds(
    code: i32,
    msg: HookMessage,
    keys: AsyncKeyStates,
    client_rect: ClientRect,
)
    requires
        code >= 0,
        0x0200 <= msg.message <= 0x020E,
        (msg.l_param as u32) % 0x10000 <= client_rect.right - client_rect.left,
        (msg.l_param as u32) / 0x10000 <= client_rect.bottom - client_rect.top,
    ensures
        ({
            let e = spec_message_hook_outcome(code, 1, msg, keys, 1, client_rect).event->0;
            let m = msg.message;
            &&& m == 0x0201 ==> e.event_type == Some(InputEventType::MouseDown) && e.click_count
                == 1 && e.button == Some(MouseButton::Left)
            &&& m == 0x0202 ==> e.event_type == Some(InputEventType::MouseUp) && e.click_count
                == 1 && e.button == Some(MouseButton::Left)
            &&& m == 0x0203 ==> e.event_type == Some(InputEventType::MouseDown) && e.click_count
                == 2 && e.button == Some(MouseButton::Left)
            &&& m == 0x0204 ==> e.event_type == Some(InputEventType::MouseDown) && e.click_count
                == 1 && e.button == Some(MouseButton::Right)
            &&& m == 0x0205 ==> e.event_type == Some(InputEventType::MouseUp) && e.click_count
                == 1 && e.button == Some(MouseButton::Right)
            &&& m == 0x0206 ==> e.event_type == Some(InputEventType::MouseDown) && e.click_count
                == 2 && e.button == Some(MouseButton::Right)
            &&& m == 0x0207 ==> e.event_type == Some(InputEventType::MouseDown) && e.click_count
                == 1 && e.button == Some(MouseButton::Middle)
            &&& m == 0x0208 ==> e.event_type == Some(InputEventType::MouseUp) && e.click_count
                == 1 && e.button == Some(MouseButton::Middle)
            &&& m == 0x0209 ==> e.event_type == Some(InputEventType::MouseDown) && e.click_count
                == 2 && e.button == Some(MouseButton::Middle)
            &&& m == 0x020B ==> e.event_type == Some(InputEventType::MouseDown) && e.click_count
                == 1 && e.button is None
            &&& m == 0x020C ==> e.event_type == Some(InputEventType::MouseUp) && e.click_count
                == 1 && e.button is None
            &&& m == 0x020D ==> e.event_type == Some(InputEventType::MouseDown) && e.click_count
                == 2 && e.button is None
            &&& m == 0x0200 ==> e.event_type == Some(InputEventType::MouseMove) && e.click_count
                == 0 && e.button is None && !e.can_scroll
            &&& m == 0x020A ==> e.event_type == Some(InputEventType::MouseWheel) && e.click_count
                == 0 && e.button is None && e.can_scroll
            &&& m != 0x020A ==> e.delta_y == 0 && !e.can_scroll
        }),
{
}

/// The event sent for a key message that is removed from the queue: a key press
/// (`WM_KEYDOWN` 0x0100 or `WM_SYSKEYDOWN` 0x0104) is a `KeyDown`, a release (`WM_KEYUP`
/// 0x0101 or `WM_SYSKEYUP` 0x0105) a `KeyUp`, both named by the key's code; a `WM_CHAR`
/// (0x0102) is a `Char` that carries the typed character. Key events carry no position,
/// clicks, wheel delta or button.
pub proof fn lemma_key_event_kinds(
    code: i32,
    msg: HookMessage,
    keys: AsyncKeyStates,
    client_rect_result: i32,
    client_rect: ClientRect,
)
    requires
        code >= 0,
        msg.message == 0x0100 || msg.message == 0x0101 || msg.message == 0x0102 || msg.message
            == 0x0104 || msg.message == 0x0105,
    ensures
        ({
            let outcome = spec_message_hook_outcome(
                code,
                1,
                msg,
                keys,
                client_rect_result,
                client_rect,
            );
            let e = outcome.event->0;
            let m = msg.message;
            &&& outcome.swallow
            &&& outcome.event is Some
            &&& (m == 0x0100 || m == 0x0104) ==> e.event_type == Some(InputEventType::KeyDown)
                && e.key_code == spec_input_event_key_code(msg.w_param)
            &&& (m == 0x0101 || m == 0x0105) ==> e.event_type == Some(InputEventType::KeyUp)
                && e.key_code == spec_input_event_key_code(msg.w_param)
            &&& m == 0x0102 ==> e.event_type == Some(InputEventType::Char) && e.key_code
                == spec_utf16_unit_lossy(msg.w_param as u16)
            &&& e.x == 0 && e.y == 0 && e.click_count == 0 && e.delta_y == 0 && !e.can_scroll
            &&& e.button is None
        }),
{
}

/// Whether a modifier list holds `x`; kept opaque so that long lists are reasoned about
/// part by part.
#[verifier::opaque]
pub open spec fn has_modifier(mods: Seq<InputModifier>, x: InputModifier) -> bool {
    mods.contains(x)
}

/// A modifier is in a concatenation of lists exactly when it is in one of them.
pub broadcast proof fn lemma_concat_contains(
    a: Seq<InputModifier>,
    b: Seq<InputModifier>,
    x: InputModifier,
)
    ensures
        #[trigger] has_modifier(a + b, x) <==> has_modifier(a, x) || has_modifier(b, x),
{
    reveal(has_modifier);
    if a.contains(x) {
        let i = choose|i: int| 0 <= i < a.len() && a[i] == x;
        assert((a + b)[i] == x);
    }
    if b.contains(x) {
        let i = choose|i: int| 0 <= i < b.len() && b[i] == x;
        assert((a + b)[a.len() + i] == x);
    }
    if (a + b).contains(x) {
        let i = choose|i: int| 0 <= i < (a + b).len() && (a + b)[i] == x;
        if i < a.len() {
            assert(a[i] == x);
        } else {
            assert(b[i - a.len()] == x);
        }
    }
}

/// `modifier_if(c, m)` holds `x` exactly when `c` holds and `x` is `m`.
pub broadcast proof fn lemma_modifier_if_contains(c: bool, m: InputModifier, x: InputModifier)
    ensures
        #[trigger] has_modifier(modifier_if(c, m), x) <==> c && m == x,
{
    reveal(has_modifier);
    if c {
        assert(modifier_if(c, m)[0] == m);
    }
}

/// The location modifiers of a key event only ever say "keypad", "left" or "right", and every
/// numeric-keypad digit is marked as coming from the keypad.
proof fn lemma_key_location_modifiers_kinds(msg: HookMessage, keys: AsyncKeyStates, x: InputModifier)
    ensures
        has_modifier(spec_key_location_modifiers(msg.w_param, msg.l_param, keys), x) ==> x
            == InputModifier::IsKeypad || x == InputModifier::Left || x == InputModifier::Right,
        0x60 <= msg.w_param <= 0x69 ==> has_modifier(
            spec_key_location_modifiers(msg.w_param, msg.l_param, keys),
            InputModifier::IsKeypad,
        ),
{
    reveal(has_modifier);
    let loc = spec_key_location_modifiers(msg.w_param, msg.l_param, keys);
    if loc.contains(x) {
        let i = choose|i: int| 0 <= i < loc.len() && loc[i] == x;
        assert(loc[i] == x);
    }
    if 0x60 <= msg.w_param <= 0x69 {
        assert(msg.w_param as i32 == msg.w_param);
        assert(loc[0] == InputModifier::IsKeypad);
    }
}

/// Whether a key event's modifier list holds `x`, listed term by term.
proof fn lemma_key_modifiers_contain_one(msg: HookMessage, keys: AsyncKeyStates, x: InputModifier)
    ensures
        has_modifier(spec_key_modifiers(msg, keys), x) <==> {
            ||| is_pressed(keys.shift) && x == InputModifier::Shift
            ||| is_pressed(keys.control) && x == InputModifier::Control
            ||| is_pressed(keys.menu) && x == InputModifier::Alt
            ||| (is_pressed(keys.lwin) || is_pressed(keys.rwin)) && x == InputModifier::Meta
            ||| is_toggled(keys.numlock) && x == InputModifier::NumLock
            ||| is_toggled(keys.capital) && x == InputModifier::CapsLock
            ||| has_modifier(spec_key_location_modifiers(msg.w_param, msg.l_param, keys), x)
        },
{
    let o1 = modifier_if(is_pressed(keys.shift), InputModifier::Shift);
    lemma_modifier_if_contains(is_pressed(keys.shift), InputModifier::Shift, x);
    let o2 = modifier_if(is_pressed(keys.control), InputModifier::Control);
    lemma_modifier_if_contains(is_pressed(keys.control), InputModifier::Control, x);
    let o3 = modifier_if(is_pressed(keys.menu), InputModifier::Alt);
    lemma_modifier_if_contains(is_pressed(keys.menu), InputModifier::Alt, x);
    let o4 = modifier_if(is_pressed(keys.lwin) || is_pressed(keys.rwin), InputModifier::Meta);
    lemma_modifier_if_contains(is_pressed(keys.lwin) || is_pressed(keys.rwin), InputModifier::Meta, x);
    let o5 = modifier_if(is_toggled(keys.numlock), InputModifier::NumLock);
    lemma_modifier_if_contains(is_toggled(keys.numlock), InputModifier::NumLock, x);
    let o6 = modifier_if(is_toggled(keys.capital), InputModifier::CapsLock);
    lemma_modifier_if_contains(is_toggled(keys.capital), InputModifier::CapsLock, x);
    let o7 = spec_key_location_modifiers(msg.w_param, msg.l_param, keys);
    let p1 = o1;
    let p2 = p1 + o2;
    lemma_concat_contains(p1, o2, x);
    let p3 = p2 + o3;
    lemma_concat_contains(p2, o3, x);
    let p4 = p3 + o4;
    lemma_concat_contains(p3, o4, x);
    let p5 = p4 + o5;
    lemma_concat_contains(p4, o5, x);
    let p6 = p5 + o6;
    lemma_concat_contains(p5, o6, x);
    let p7 = p6 + o7;
    lemma_concat_contains(p6, o7, x);
    assert(spec_key_modifiers(msg, keys) === p7);
}

proof fn lemma_key_modifiers_contain(msg: HookMessage, keys: AsyncKeyStates)
    ensures
        ({
            let m = spec_key_modifiers(msg, keys);
            &&& m.contains(InputModifier::Shift) <==> keys.shift < 0
            &&& m.contains(InputModifier::Control) <==> keys.control < 0
            &&& m.contains(InputModifier::Alt) <==> keys.menu < 0
            &&& m.contains(InputModifier::Meta) <==> (keys.lwin < 0 || keys.rwin < 0)
            &&& m.contains(InputModifier::NumLock) <==> keys.numlock % 2 != 0
            &&& m.contains(InputModifier::CapsLock) <==> keys.capital % 2 != 0
            &&& 0x60 <= msg.w_param <= 0x69 ==> m.contains(InputModifier::IsKeypad)
        }),
{
    lemma_key_modifiers_contain_one(msg, keys, InputModifier::Shift);
    lemma_key_location_modifiers_kinds(msg, keys, InputModifier::Shift);
    lemma_key_modifiers_contain_one(msg, keys, InputModifier::Control);
    lemma_key_location_modifiers_kinds(msg, keys, InputModifier::Control);
    lemma_key_modifiers_contain_one(msg, keys, InputModifier::Alt);
    lemma_key_location_modifiers_kinds(msg, keys, InputModifier::Alt);
    lemma_key_modifiers_contain_one(msg, keys, InputModifier::Meta);
    lemma_key_location_modifiers_kinds(msg, keys, InputModifier::Meta);
    lemma_key_modifiers_contain_one(msg, keys, InputModifier::NumLock);
    lemma_key_location_modifiers_kinds(msg, keys, InputModifier::NumLock);
    lemma_key_modifiers_contain_one(msg, keys, InputModifier::CapsLock);
    lemma_key_location_modifiers_kinds(msg, keys, InputModifier::CapsLock);
    lemma_key_modifiers_contain_one(msg, keys, InputModifier::IsKeypad);
    lemma_key_location_modifiers_kinds(msg, keys, InputModifier::IsKeypad);
    reveal(has_modifier);
}

/// Whether a mouse event's modifier list holds `x`, listed term by term.
#[verifier::rlimit(100)]
proof fn lemma_mouse_modifiers_contain_one(msg: HookMessage, keys: AsyncKeyStates, x: InputModifier)
    ensures
        ({
            let vk = mouse_key_state(msg.w_param);
            let control = vk & MK_CONTROL != 0;
            let shift = vk & MK_SHIFT != 0;
            let alt = vk & (VK_MENU as u16) != 0;
            has_modifier(spec_mouse_modifiers(msg, keys), x) <==> {
                ||| control && x == InputModifier::Control
                ||| control && is_pressed(keys.lcontrol) && x == InputModifier::Left
                ||| control && is_pressed(keys.rcontrol) && x == InputModifier::Right
                ||| shift && x == InputModifier::Shift
                ||| shift && is_pressed(keys.lshift) && x == InputModifier::Left
                ||| shift && is_pressed(keys.rshift) && x == InputModifier::Right
                ||| alt && x == InputModifier::Alt
                ||| alt && is_pressed(keys.lmenu) && x == InputModifier::Left
                ||| alt && is_pressed(keys.rmenu) && x == InputModifier::Right
                ||| vk & MK_LBUTTON != 0 && x == InputModifier::LeftButtonDown
                ||| vk & MK_RBUTTON != 0 && x == InputModifier::RightButtonDown
                ||| vk & MK_MBUTTON != 0 && x == InputModifier::MiddleButtonDown
                ||| (is_pressed(keys.lwin) || is_pressed(keys.rwin)) && x == InputModifier::Meta
                ||| is_toggled(keys.numlock) && x == InputModifier::NumLock
                ||| is_toggled(keys.capital) && x == InputModifier::CapsLock
            }
        }),
{
    let vk = mouse_key_state(msg.w_param);
    let control = vk & MK_CONTROL != 0;
    let shift = vk & MK_SHIFT != 0;
    let alt = vk & (VK_MENU as u16) != 0;
    let o1 = modifier_if(control, InputModifier::Control);
    lemma_modifier_if_contains(control, InputModifier::Control, x);
    let o2 = modifier_if(control && is_pressed(keys.lcontrol), InputModifier::Left);
    lemma_modifier_if_contains(control && is_pressed(keys.lcontrol), InputModifier::Left, x);
    let o3 = modifier_if(control && is_pressed(keys.rcontrol), InputModifier::Right);
    lemma_modifier_if_contains(control && is_pressed(keys.rcontrol), InputModifier::Right, x);
    let o4 = modifier_if(shift, InputModifier::Shift);
    lemma_modifier_if_contains(shift, InputModifier::Shift, x);
    let o5 = modifier_if(shift && is_pressed(keys.lshift), InputModifier::Left);
    lemma_modifier_if_contains(shift && is_pressed(keys.lshift), InputModifier::Left, x);
    let o6 = modifier_if(shift && is_pressed(keys.rshift), InputModifier::Right);
    lemma_modifier_if_contains(shift && is_pressed(keys.rshift), InputModifier::Right, x);
    let o7 = modifier_if(alt, InputModifier::Alt);
    lemma_modifier_if_contains(alt, InputModifier::Alt, x);
    let o8 = modifier_if(alt && is_pressed(keys.lmenu), InputModifier::Left);
    lemma_modifier_if_contains(alt && is_pressed(keys.lmenu), InputModifier::Left, x);
    let o9 = modifier_if(alt && is_pressed(keys.rmenu), InputModifier::Right);
    lemma_modifier_if_contains(alt && is_pressed(keys.rmenu), InputModifier::Right, x);
    let o10 = modifier_if(vk & MK_LBUTTON != 0, InputModifier::LeftButtonDown);
    lemma_modifier_if_contains(vk & MK_LBUTTON != 0, InputModifier::LeftButtonDown, x);
    let o11 = modifier_if(vk & MK_RBUTTON != 0, InputModifier::RightButtonDown);
    lemma_modifier_if_contains(vk & MK_RBUTTON != 0, InputModifier::RightButtonDown, x);
    let o12 = modifier_if(vk & MK_MBUTTON != 0, InputModifier::MiddleButtonDown);
    lemma_modifier_if_contains(vk & MK_MBUTTON != 0, InputModifier::MiddleButtonDown, x);
    let o13 = modifier_if(is_pressed(keys.lwin) || is_pressed(keys.rwin), InputModifier::Meta);
    lemma_modifier_if_contains(is_pressed(keys.lwin) || is_pressed(keys.rwin), InputModifier::Meta, x);
    let o14 = modifier_if(is_toggled(keys.numlock), InputModifier::NumLock);
    lemma_modifier_if_contains(is_toggled(keys.numlock), InputModifier::NumLock, x);
    let o15 = modifier_if(is_toggled(keys.capital), InputModifier::CapsLock);
    lemma_modifier_if_contains(is_toggled(keys.capital), InputModifier::CapsLock, x);
    let p1 = o1;
    let p2 = p1 + o2;
    lemma_concat_contains(p1, o2, x);
    let p3 = p2 + o3;
    lemma_concat_contains(p2, o3, x);
    let p4 = p3 + o4;
    lemma_concat_contains(p3, o4, x);
    let p5 = p4 + o5;
    lemma_concat_contains(p4, o5, x);
    let p6 = p5 + o6;
    lemma_concat_contains(p5, o6, x);
    let p7 = p6 + o7;
    lemma_concat_contains(p6, o7, x);
    let p8 = p7 + o8;
    lemma_concat_contains(p7, o8, x);
    let p9 = p8 + o9;
    lemma_concat_contains(p8, o9, x);
    let p10 = p9 + o10;
    lemma_concat_contains(p9, o10, x);
    let p11 = p10 + o11;
    lemma_concat_contains(p10, o11, x);
    let p12 = p11 + o12;
    lemma_concat_contains(p11, o12, x);
    let p13 = p12 + o13;
    lemma_concat_contains(p12, o13, x);
    let p14 = p13 + o14;
    lemma_concat_contains(p13, o14, x);
    let p15 = p14 + o15;
    lemma_concat_contains(p14, o15, x);
    assert(spec_mouse_modifiers(msg, keys) === p15);
}

proof fn lemma_mouse_modifiers_contain(msg: HookMessage, keys: AsyncKeyStates)
    ensures
        ({
            let m = spec_mouse_modifiers(msg, keys);
            let vk = mouse_key_state(msg.w_param);
            &&& m.contains(InputModifier::Control) <==> vk & MK_CONTROL != 0
            &&& m.contains(InputModifier::Shift) <==> vk & MK_SHIFT != 0
            &&& m.contains(InputModifier::LeftButtonDown) <==> vk & MK_LBUTTON != 0
            &&& m.contains(InputModifier::RightButtonDown) <==> vk & MK_RBUTTON != 0
            &&& m.contains(InputModifier::MiddleButtonDown) <==> vk & MK_MBUTTON != 0
            &&& m.contains(InputModifier::Meta) <==> (keys.lwin < 0 || keys.rwin < 0)
            &&& m.contains(InputModifier::NumLock) <==> keys.numlock % 2 != 0
            &&& m.contains(InputModifier::CapsLock) <==> keys.capital % 2 != 0
        }),
{
    lemma_mouse_modifiers_contain_one(msg, keys, InputModifier::Control);
    lemma_mouse_modifiers_contain_one(msg, keys, InputModifier::Shift);
    lemma_mouse_modifiers_contain_one(msg, keys, InputModifier::LeftButtonDown);
    lemma_mouse_modifiers_contain_one(msg, keys, InputModifier::RightButtonDown);
    lemma_mouse_modifiers_contain_one(msg, keys, InputModifier::MiddleButtonDown);
    lemma_mouse_modifiers_contain_one(msg, keys, InputModifier::Meta);
    lemma_mouse_modifiers_contain_one(msg, keys, InputModifier::NumLock);
    lemma_mouse_modifiers_contain_one(msg, keys, InputModifier::CapsLock);
    reveal(has_modifier);
}

/// Which modifiers a key event carries: Shift, Control and Alt exactly while those keys are
/// down (the high bit of their key state, i.e. a negative state), Meta while either Windows
/// key is down, Num Lock and Caps Lock while they are toggled on (the low bit of their state);
/// and every numeric-keypad digit (0x60 to 0x69) is marked as coming from the keypad.
pub proof fn lemma_key_event_modifiers(
    code: i32,
    msg: HookMessage,
    keys: AsyncKeyStates,
    client_rect_result: i32,
    client_rect: ClientRect,
)
    requires
        code >= 0,
        msg.message == 0x0100 || msg.message == 0x0101 || msg.message == 0x0102 || msg.message
            == 0x0104 || msg.message == 0x0105,
    ensures
        ({
            let e = spec_message_hook_outcome(
                code,
                1,
                msg,
                keys,
                client_rect_result,
                client_rect,
            ).event->0;
            &&& e.modifiers.contains(InputModifier::Shift) <==> keys.shift < 0
            &&& e.modifiers.contains(InputModifier::Control) <==> keys.control < 0
            &&& e.modifiers.contains(InputModifier::Alt) <==> keys.menu < 0
            &&& e.modifiers.contains(InputModifier::Meta) <==> (keys.lwin < 0 || keys.rwin < 0)
            &&& e.modifiers.contains(InputModifier::NumLock) <==> keys.numlock % 2 != 0
            &&& e.modifiers.contains(InputModifier::CapsLock) <==> keys.capital % 2 != 0
            &&& 0x60 <= msg.w_param <= 0x69 ==> e.modifiers.contains(InputModifier::IsKeypad)
        }),
{
    lemma_key_modifiers_contain(msg, keys);
    assert(spec_message_hook_outcome(code, 1, msg, keys, client_rect_result, client_rect).event->0.modifiers
        == spec_key_modifiers(msg, keys));
}

/// Which modifiers a mouse event carries, from the key-state flags in the low word of its
/// `WPARAM`: Control with `MK_CONTROL` (0x0008), Shift with `MK_SHIFT` (0x0004), and the
/// button-down marks with `MK_LBUTTON` (0x0001), `MK_RBUTTON` (0x0002) and `MK_MBUTTON`
/// (0x0010); Meta while either Windows key is down, Num Lock and Caps Lock while toggled on.
/// A wheel event carries the signed high word of `WPARAM` as its delta.
pub proof fn lemma_mouse_event_modifiers(
    code: i32,
    msg: HookMessage,
    keys: AsyncKeyStates,
    client_rect: ClientRect,
)
    requires
        code >= 0,
        0x0200 <= msg.message <= 0x020E,
        (msg.l_param as u32) % 0x10000 <= client_rect.right - client_rect.left,
        (msg.l_param as u32) / 0x10000 <= client_rect.bottom - client_rect.top,
    ensures
        ({
            let e = spec_message_hook_outcome(code, 1, msg, keys, 1, client_rect).event->0;
            let flags = (msg.w_param as u32) % 0x10000;
            &&& e.modifiers.contains(InputModifier::Control) <==> (flags / 8) % 2 == 1
            &&& e.modifiers.contains(InputModifier::Shift) <==> (flags / 4) % 2 == 1
            &&& e.modifiers.contains(InputModifier::LeftButtonDown) <==> flags % 2 == 1
            &&& e.modifiers.contains(InputModifier::RightButtonDown) <==> (flags / 2) % 2 == 1
            &&& e.modifiers.contains(InputModifier::MiddleButtonDown) <==> (flags / 16) % 2 == 1
            &&& e.modifiers.contains(InputModifier::Meta) <==> (keys.lwin < 0 || keys.rwin < 0)
            &&& e.modifiers.contains(InputModifier::NumLock) <==> keys.numlock % 2 != 0
            &&& e.modifiers.contains(InputModifier::CapsLock) <==> keys.capital % 2 != 0
            &&& msg.message == 0x020A ==> e.delta_y == ((msg.w_param as u32) / 0x10000) as i16
        }),
{
    lemma_mouse_modifiers_contain(msg, keys);
    assert(spec_message_hook_outcome(code, 1, msg, keys, 1, client_rect).event->0 == spec_mouse_event(msg, keys));
    let vk = mouse_key_state(msg.w_param);
    let f = (msg.w_param as u32) % 0x10000;
    assert(vk == f);
    assert((vk & 8 != 0) == ((f / 8) % 2 == 1)) by (bit_vector)
        requires
            vk == f,
            f < 0x10000,
    ;
    assert((vk & 4 != 0) == ((f / 4) % 2 == 1)) by (bit_vector)
        requires
            vk == f,
            f < 0x10000,
    ;
    assert((vk & 1 != 0) == (f % 2 == 1)) by (bit_vector)
        requires
            vk == f,
            f < 0x10000,
    ;
    assert((vk & 2 != 0) == ((f / 2) % 2 == 1)) by (bit_vector)
        requires
            vk == f,
            f < 0x10000,
    ;
    assert((vk & 16 != 0) == ((f / 16) % 2 == 1)) by (bit_vector)
        requires
            vk == f,
            f < 0x10000,
    ;
}

/// Where on the keyboard a key event's key lies. Enter (0x0D) is the keypad Enter exactly when
/// its extended-key flag (bit 24 of `LPARAM`) is set; the editing and arrow keys (0x21 to
/// 0x28, 0x2D, 0x2E) are keypad keys exactly when the flag is clear; Shift, Ctrl and Alt
/// (0x10, 0x11, 0x12) say "left" and "right" exactly while their left and right keys are down.
pub proof fn lemma_key_event_location(
    code: i32,
    msg: HookMessage,
    keys: AsyncKeyStates,
    client_rect_result: i32,
    client_rect: ClientRect,
)
    requires
        code >= 0,
        msg.message == 0x0100 || msg.message == 0x0101 || msg.message == 0x0102 || msg.message
            == 0x0104 || msg.message == 0x0105,
    ensures
        ({
            let e = spec_message_hook_outcome(
                code,
                1,
                msg,
                keys,
                client_rect_result,
                client_rect,
            ).event->0;
            let k = msg.w_param as i32;
            let extended = (msg.l_param / 0x1000000) % 2 == 1;
            let keypad = e.modifiers.contains(InputModifier::IsKeypad);
            let left = e.modifiers.contains(InputModifier::Left);
            let right = e.modifiers.contains(InputModifier::Right);
            &&& k == 0x0D ==> (keypad <==> extended)
            &&& ((0x21 <= k <= 0x28) || k == 0x2D || k == 0x2E) ==> (keypad <==> !extended)
            &&& k == 0x10 ==> (left <==> keys.lshift < 0) && (right <==> keys.rshift < 0)
            &&& k == 0x11 ==> (left <==> keys.lcontrol < 0) && (right <==> keys.rcontrol < 0)
            &&& k == 0x12 ==> (left <==> keys.lmenu < 0) && (right <==> keys.rmenu < 0)
        }),
{
    broadcast use {lemma_concat_contains, lemma_modifier_if_contains};

    let l = msg.l_param;
    assert(((l >> 16) & 0x100 != 0) == ((l / 0x1000000) % 2 == 1)) by (bit_vector);
    assert(spec_message_hook_outcome(code, 1, msg, keys, client_rect_result, client_rect).event->0.modifiers
        == spec_key_modifiers(msg, keys));
    lemma_key_modifiers_contain_one(msg, keys, InputModifier::IsKeypad);
    lemma_key_modifiers_contain_one(msg, keys, InputModifier::Left);
    lemma_key_modifiers_contain_one(msg, keys, InputModifier::Right);
    let loc = spec_key_location_modifiers(msg.w_param, msg.l_param, keys);
    let k = msg.w_param as i32;
    if k == VK_SHIFT || k == VK_CONTROL || k == VK_MENU {
        assert(has_modifier(loc, InputModifier::Left) <==> loc.contains(InputModifier::Left)) by {
            reveal(has_modifier);
        }
    }
    reveal(has_modifier);
    if k == VK_RETURN || ((0x21 <= k <= 0x28) || k == 0x2D || k == 0x2E) {
        if loc.len() > 0 {
            assert(loc[0] == InputModifier::IsKeypad);
        }
    }
}

} // verus!
