use overlay_driver::key_code::{get_input_event_key_code, named_key};
use overlay_driver::utf16::get_char_event_key_code;

#[test]
fn named_keys_have_their_names() {
    assert_eq!(get_input_event_key_code(0x08), "Backspace");
    assert_eq!(get_input_event_key_code(0x0D), "Enter");
    assert_eq!(get_input_event_key_code(0x20), " ");
    assert_eq!(get_input_event_key_code(33), "PageUp");
    assert_eq!(get_input_event_key_code(34), "PageDown");
    assert_eq!(get_input_event_key_code(0x5B), "Meta");
    assert_eq!(get_input_event_key_code(0x5C), "Meta");
    assert_eq!(get_input_event_key_code(0x70), "F1");
    assert_eq!(get_input_event_key_code(0x87), "F24");
    assert_eq!(get_input_event_key_code(182), "My Computer");
    assert_eq!(get_input_event_key_code(183), "My Calculator");
    assert_eq!(get_input_event_key_code(0xDC), "\\");
    assert_eq!(get_input_event_key_code(0xDE), "'");
    assert_eq!(get_input_event_key_code(250), "Play");
}

#[test]
fn letters_and_digits_are_named_by_their_character() {
    for code in 0x41usize..=0x5A {
        assert_eq!(get_input_event_key_code(code), ((code as u8) as char).to_string());
    }
    for digit in 0usize..10 {
        let top_row = get_input_event_key_code(0x30 + digit);
        assert_eq!(top_row, digit.to_string());
        assert_eq!(get_input_event_key_code(0x60 + digit), top_row);
    }
}

#[test]
fn minus_and_period_keys_share_names_with_keypad() {
    assert_eq!(get_input_event_key_code(0x6D), "-");
    assert_eq!(get_input_event_key_code(0xBD), "-");
    assert_eq!(get_input_event_key_code(0x6E), ".");
    assert_eq!(get_input_event_key_code(0xBE), ".");
    assert_eq!(get_input_event_key_code(0x6F), "/");
    assert_eq!(get_input_event_key_code(0xBF), "/");
}

#[test]
fn unnamed_keys_fall_back_to_the_low_byte() {
    // VK_CLEAR has no name of its own.
    assert_eq!(get_input_event_key_code(0x0C), "\u{0C}");
    // Only the low 32 bits pick a named key; only the low byte picks the fallback.
    assert_eq!(get_input_event_key_code(0x1_0000_0008), "Backspace");
    assert_eq!(get_input_event_key_code(0x141), "A");
    assert_eq!(get_input_event_key_code(0xE9), "\u{E9}");
    assert_eq!(named_key(0x0C), None);
    assert_eq!(named_key(0x09), Some("Tab"));
}

#[test]
fn key_codes_are_never_empty() {
    for code in 0usize..0x200 {
        assert!(!get_input_event_key_code(code).is_empty());
    }
}

#[test]
fn char_events_decode_one_utf16_unit() {
    assert_eq!(get_char_event_key_code(0x61), "a");
    assert_eq!(get_char_event_key_code(0xE9), "\u{E9}");
    assert_eq!(get_char_event_key_code(0x20AC), "\u{20AC}");
    // Only the low 16 bits of the WPARAM count.
    assert_eq!(get_char_event_key_code(0x1_0041), "A");
    // A lone surrogate becomes the replacement character.
    assert_eq!(get_char_event_key_code(0xD800), "\u{FFFD}");
    assert_eq!(get_char_event_key_code(0xDFFF), "\u{FFFD}");
}
