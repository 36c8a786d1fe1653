use overlay_driver::input_event::{InputEvent, InputEventType, InputModifier, MouseButton};
use overlay_driver::message_hook::{
    get_message_hook_outcome, is_key_pressed, is_key_toggled, AsyncKeyStates, ClientRect,
    HookMessage, MessageHookOutcome,
};

const DOWN: i16 = -32768;

fn no_keys() -> AsyncKeyStates {
    AsyncKeyStates {
        shift: 0,
        control: 0,
        menu: 0,
        lwin: 0,
        rwin: 0,
        numlock: 0,
        capital: 0,
        lshift: 0,
        rshift: 0,
        lcontrol: 0,
        rcontrol: 0,
        lmenu: 0,
        rmenu: 0,
    }
}

fn rect(width: i32, height: i32) -> ClientRect {
    ClientRect { left: 0, top: 0, right: width, bottom: height }
}

fn run(message: u32, w_param: usize, l_param: isize, keys: &AsyncKeyStates) -> MessageHookOutcome {
    let msg = HookMessage { message, w_param, l_param };
    get_message_hook_outcome(0, 1, &msg, keys, 1, &rect(800, 600))
}

fn modifier_names(event: &InputEvent) -> Vec<&'static str> {
    event.modifiers.iter().map(|m| m.name()).collect()
}

#[test]
fn key_state_bits() {
    assert!(is_key_pressed(DOWN));
    assert!(is_key_pressed(-1));
    assert!(!is_key_pressed(0x7fff));
    assert!(!is_key_pressed(0));
    assert!(is_key_toggled(1));
    assert!(is_key_toggled(-1));
    assert!(!is_key_toggled(DOWN));
    assert!(!is_key_toggled(2));
}

#[test]
fn key_down_is_reported_and_swallowed() {
    let outcome = run(0x0100, 0x41, 0x001E_0001, &no_keys());
    assert!(outcome.swallow);
    let event = outcome.event.unwrap();
    assert_eq!(event.event_type, Some(InputEventType::KeyDown));
    assert_eq!(event.event_type.unwrap().name(), "keyDown");
    assert_eq!(event.key_code, "A");
    assert!(event.modifiers.is_empty());
    assert_eq!(event.click_count, 0);
    assert_eq!(event.x, 0);
    assert_eq!(event.button, None);
}

#[test]
fn sys_key_up_is_a_key_up() {
    let outcome = run(0x0105, 0x12, 0, &no_keys());
    let event = outcome.event.unwrap();
    assert_eq!(event.event_type, Some(InputEventType::KeyUp));
    assert_eq!(event.key_code, "Alt");
}

#[test]
fn char_message_carries_its_character() {
    let mut keys = no_keys();
    keys.shift = DOWN;
    let outcome = run(0x0102, 0x00E9, 0, &keys);
    let event = outcome.event.unwrap();
    assert_eq!(event.event_type.unwrap().name(), "char");
    assert_eq!(event.key_code, "\u{E9}");
    assert_eq!(modifier_names(&event), vec!["shift"]);
}

#[test]
fn other_key_range_messages_are_swallowed_silently() {
    // WM_DEADCHAR lies in the keyboard range but is not reported.
    let outcome = run(0x0103, 0x41, 0, &no_keys());
    assert!(outcome.swallow);
    assert!(outcome.event.is_none());
}

#[test]
fn key_modifiers_come_in_order() {
    let keys = AsyncKeyStates {
        shift: DOWN,
        control: DOWN,
        menu: DOWN,
        lwin: 0,
        rwin: DOWN,
        numlock: 1,
        capital: 1,
        lshift: DOWN,
        rshift: DOWN,
        lcontrol: 0,
        rcontrol: 0,
        lmenu: 0,
        rmenu: 0,
    };
    let event = run(0x0100, 0x10, 0, &keys).event.unwrap();
    assert_eq!(
        modifier_names(&event),
        vec!["shift", "control", "alt", "meta", "numLock", "capsLock", "left", "right"]
    );
}

#[test]
fn keypad_detection() {
    let keys = no_keys();
    // Enter with the extended flag is the keypad Enter.
    let enter_keypad = run(0x0100, 0x0D, 0x011C_0001, &keys).event.unwrap();
    assert_eq!(enter_keypad.modifiers, vec![InputModifier::IsKeypad]);
    let enter_main = run(0x0100, 0x0D, 0x001C_0001, &keys).event.unwrap();
    assert!(enter_main.modifiers.is_empty());
    // Arrow keys without the extended flag come from the keypad.
    let up_keypad = run(0x0100, 0x26, 0x0048_0001, &keys).event.unwrap();
    assert_eq!(up_keypad.modifiers, vec![InputModifier::IsKeypad]);
    let up_arrow = run(0x0100, 0x26, 0x0148_0001, &keys).event.unwrap();
    assert!(up_arrow.modifiers.is_empty());
    // Numpad keys always come from the keypad.
    let numpad_five = run(0x0100, 0x65, 0, &keys).event.unwrap();
    assert_eq!(numpad_five.key_code, "5");
    assert_eq!(numpad_five.modifiers, vec![InputModifier::IsKeypad]);
    let clear = run(0x0101, 0x0C, 0, &keys).event.unwrap();
    assert_eq!(clear.modifiers, vec![InputModifier::IsKeypad]);
    // The windows keys tell their side.
    let lwin = run(0x0100, 0x5B, 0, &keys).event.unwrap();
    assert_eq!(lwin.modifiers, vec![InputModifier::Left]);
    let rwin = run(0x0100, 0x5C, 0, &keys).event.unwrap();
    assert_eq!(rwin.modifiers, vec![InputModifier::Right]);
}

#[test]
fn unprocessed_calls_pass_through() {
    let msg = HookMessage { message: 0x0100, w_param: 0x41, l_param: 0 };
    let keys = no_keys();
    let negative_code = get_message_hook_outcome(-1, 1, &msg, &keys, 1, &rect(800, 600));
    assert!(!negative_code.swallow);
    assert!(negative_code.event.is_none());
    let peeked = get_message_hook_outcome(0, 0, &msg, &keys, 1, &rect(800, 600));
    assert!(!peeked.swallow);
    assert!(peeked.event.is_none());
    let other = run(0x000F, 0, 0, &keys);
    assert!(!other.swallow);
    assert!(other.event.is_none());
}

#[test]
fn mouse_down_event() {
    let mut keys = no_keys();
    keys.lcontrol = DOWN;
    keys.numlock = 1;
    // MK_CONTROL | MK_LBUTTON, cursor at (10, 20).
    let outcome = run(0x0201, 0x0009, 0x0014_000A, &keys);
    assert!(outcome.swallow);
    let event = outcome.event.unwrap();
    assert_eq!(event.event_type.unwrap().name(), "mouseDown");
    assert_eq!(event.click_count, 1);
    assert_eq!(event.x, 10);
    assert_eq!(event.y, 20);
    assert_eq!(event.button, Some(MouseButton::Left));
    assert_eq!(event.button.unwrap().name(), "left");
    // The key code of a button press is read from its WPARAM like a key's.
    assert_eq!(event.key_code, "Tab");
    assert_eq!(
        modifier_names(&event),
        vec!["control", "left", "leftButtonDown", "numLock"]
    );
}

#[test]
fn double_click_and_button_up() {
    let keys = no_keys();
    let double = run(0x0206, 0x0002, 0x0005_0005, &keys).event.unwrap();
    assert_eq!(double.event_type, Some(InputEventType::MouseDown));
    assert_eq!(double.click_count, 2);
    assert_eq!(double.button, Some(MouseButton::Right));
    let up = run(0x0208, 0, 0x0005_0005, &keys).event.unwrap();
    assert_eq!(up.event_type, Some(InputEventType::MouseUp));
    assert_eq!(up.click_count, 1);
    assert_eq!(up.button, Some(MouseButton::Middle));
    assert_eq!(up.key_code, "");
    let x_up = run(0x020C, 0, 0, &keys).event.unwrap();
    assert_eq!(x_up.event_type, Some(InputEventType::MouseUp));
    assert_eq!(x_up.button, None);
}

#[test]
fn mouse_wheel_event() {
    let keys = no_keys();
    // A wheel delta of -120 in the high word of WPARAM.
    let w_param = (0xFF88usize << 16) | 0x0004;
    let event = run(0x020A, w_param, 0x0064_0032, &keys).event.unwrap();
    assert_eq!(event.event_type.unwrap().name(), "mouseWheel");
    assert_eq!(event.delta_y, -120);
    assert!(event.can_scroll);
    assert_eq!(event.x, 0x32);
    assert_eq!(event.y, 0x64);
    assert_eq!(modifier_names(&event), vec!["shift"]);
}

#[test]
fn middle_button_state_counts_as_alt() {
    let mut keys = no_keys();
    keys.rmenu = DOWN;
    // MK_MBUTTON shares a bit with the VK_MENU mask that the hook tests for Alt.
    let event = run(0x0200, 0x0010, 0, &keys).event.unwrap();
    assert_eq!(event.event_type, Some(InputEventType::MouseMove));
    assert_eq!(modifier_names(&event), vec!["alt", "right", "middleButtonDown"]);
}

#[test]
fn mouse_outside_client_area_passes_through() {
    let keys = no_keys();
    let msg = HookMessage { message: 0x0200, w_param: 0, l_param: 0x0010_0321 };
    let outside = get_message_hook_outcome(0, 1, &msg, &keys, 1, &rect(800, 600));
    assert!(!outside.swallow);
    assert!(outside.event.is_none());
    let on_edge = HookMessage { message: 0x0200, w_param: 0, l_param: 0x0258_0320 };
    let edge = get_message_hook_outcome(0, 1, &on_edge, &keys, 1, &rect(800, 600));
    assert!(edge.swallow);
    let failed_rect = get_message_hook_outcome(0, 1, &on_edge, &keys, 0, &rect(800, 600));
    assert!(!failed_rect.swallow);
    assert!(failed_rect.event.is_none());
}

#[test]
fn unnamed_mouse_range_message_has_no_type() {
    // WM_MOUSEHWHEEL lies in the mouse range but has no event type of its own.
    let event = run(0x020E, 0, 0x0001_0001, &no_keys()).event.unwrap();
    assert_eq!(event.event_type, None);
    assert_eq!(event.x, 1);
    assert_eq!(event.y, 1);
    assert_eq!(event.click_count, 0);
}

#[test]
fn event_part_names() {
    assert_eq!(InputModifier::IsKeypad.name(), "isKeypad");
    assert_eq!(InputModifier::MiddleButtonDown.name(), "middleButtonDown");
    assert_eq!(InputModifier::CapsLock.name(), "capsLock");
    assert_eq!(InputEventType::MouseMove.name(), "mouseMove");
    assert_eq!(MouseButton::Middle.name(), "middle");
}
