//! Names of virtual-key codes, as reported to the overlay's input listeners.

use vstd::prelude::*;

verus! {

/// The name that a virtual-key code has when it is one of the named keys.
///
/// Codes are compared as the low 32 bits of the message's `WPARAM`, read as a
/// signed integer, the way a `WM_KEYDOWN` handler reads them.
pub open spec fn spec_named_key(code: i32) -> Option<Seq<char>> {
    match code {
        0x08 => Some("Backspace"@),
        0x09 => Some("Tab"@),
        0x0D => Some("Enter"@),
        0x10 => Some("Shift"@),
        0x11 => Some("Ctrl"@),
        0x12 => Some("Alt"@),
        0x13 => Some("Pause"@),
        0x14 => Some("CapsLock"@),
        0x1B => Some("Escape"@),
        0x20 => Some(" "@),
        0x21 => Some("PageUp"@),
        0x22 => Some("PageDown"@),
        0x23 => Some("End"@),
        0x24 => Some("Home"@),
        0x25 => Some("Left"@),
        0x26 => Some("Up"@),
        0x27 => Some("Right"@),
        0x28 => Some("Down"@),
        0x2D => Some("Insert"@),
        0x2E => Some("Delete"@),
        0x30 => Some("0"@),
        0x31 => Some("1"@),
        0x32 => Some("2"@),
        0x33 => Some("3"@),
        0x34 => Some("4"@),
        0x35 => Some("5"@),
        0x36 => Some("6"@),
        0x37 => Some("7"@),
        0x38 => Some("8"@),
        0x39 => Some("9"@),
        0x41 => Some("A"@),
        0x42 => Some("B"@),
        0x43 => Some("C"@),
        0x44 => Some("D"@),
        0x45 => Some("E"@),
        0x46 => Some("F"@),
        0x47 => Some("G"@),
        0x48 => Some("H"@),
        0x49 => Some("I"@),
        0x4A => Some("J"@),
        0x4B => Some("K"@),
        0x4C => Some("L"@),
        0x4D => Some("M"@),
        0x4E => Some("N"@),
        0x4F => Some("O"@),
        0x50 => Some("P"@),
        0x51 => Some("Q"@),
        0x52 => Some("R"@),
        0x53 => Some("S"@),
        0x54 => Some("T"@),
        0x55 => Some("U"@),
        0x56 => Some("V"@),
        0x57 => Some("W"@),
        0x58 => Some("X"@),
        0x59 => Some("Y"@),
        0x5A => Some("Z"@),
        0x5B => Some("Meta"@),
        0x5C => Some("Meta"@),
        0x5D => Some("ContextMenu"@),
        0x60 => Some("0"@),
        0x61 => Some("1"@),
        0x62 => Some("2"@),
        0x63 => Some("3"@),
        0x64 => Some("4"@),
        0x65 => Some("5"@),
        0x66 => Some("6"@),
        0x67 => Some("7"@),
        0x68 => Some("8"@),
        0x69 => Some("9"@),
        0x6A => Some("*"@),
        0x6B => Some("+"@),
        0x6D => Some("-"@),
        0x6E => Some("."@),
        0x6F => Some("/"@),
        0x70 => Some("F1"@),
        0x71 => Some("F2"@),
        0x72 => Some("F3"@),
        0x73 => Some("F4"@),
        0x74 => Some("F5"@),
        0x75 => Some("F6"@),
        0x76 => Some("F7"@),
        0x77 => Some("F8"@),
        0x78 => Some("F9"@),
        0x79 => Some("F10"@),
        0x7A => Some("F11"@),
        0x7B => Some("F12"@),
        0x7C => Some("F13"@),
        0x7D => Some("F14"@),
        0x7E => Some("F15"@),
        0x7F => Some("F16"@),
        0x80 => Some("F17"@),
        0x81 => Some("F18"@),
        0x82 => Some("F19"@),
        0x83 => Some("F20"@),
        0x84 => Some("F21"@),
        0x85 => Some("F22"@),
        0x86 => Some("F23"@),
        0x87 => Some("F24"@),
        0x90 => Some("NumLock"@),
        0x91 => Some("ScrollLock"@),
        0xB6 => Some("My Computer"@),
        0xB7 => Some("My Calculator"@),
        0xBA => Some(";"@),
        0xBB => Some("="@),
        0xBC => Some(","@),
        0xBD => Some("-"@),
        0xBE => Some("."@),
        0xBF => Some("/"@),
        0xC0 => Some("`"@),
        0xDB => Some("["@),
        0xDC => Some("\\"@),
        0xDD => Some("]"@),
        0xDE => Some("'"@),
        0xFA => Some("Play"@),
        _ => None,
    }
}

/// The key code reported for a key message whose `WPARAM` is `msg_w_param`:
/// the key's name when it is a named key, otherwise the single character whose
/// code is the low byte of `msg_w_param`.
pub open spec fn spec_input_event_key_code(msg_w_param: usize) -> Seq<char> {
    match spec_named_key(msg_w_param as i32) {
        Some(name) => name,
        None => seq![(msg_w_param as u8) as char],
    }
}

/// Looks up the name of a named virtual-key code.
pub fn named_key(code: i32) -> (name: Option<&'static str>)
    ensures
        match name {
            Some(s) => spec_named_key(code) == Some(s@),
            None => spec_named_key(code) is None,
        },
{
    match code {
        0x08 => Some("Backspace"),  // VK_BACK
        0x09 => Some("Tab"),  // VK_TAB
        0x0D => Some("Enter"),  // VK_RETURN
        0x10 => Some("Shift"),  // VK_SHIFT
        0x11 => Some("Ctrl"),  // VK_CONTROL
        0x12 => Some("Alt"),  // VK_MENU
        0x13 => Some("Pause"),  // VK_PAUSE
        0x14 => Some("CapsLock"),  // VK_CAPITAL
        0x1B => Some("Escape"),  // VK_ESCAPE
        0x20 => Some(" "),  // VK_SPACE
        0x21 => Some("PageUp"),
        0x22 => Some("PageDown"),
        0x23 => Some("End"),  // VK_END
        0x24 => Some("Home"),  // VK_HOME
        0x25 => Some("Left"),  // VK_LEFT
        0x26 => Some("Up"),  // VK_UP
        0x27 => Some("Right"),  // VK_RIGHT
        0x28 => Some("Down"),  // VK_DOWN
        0x2D => Some("Insert"),  // VK_INSERT
        0x2E => Some("Delete"),  // VK_DELETE
        0x30 => Some("0"),
        0x31 => Some("1"),
        0x32 => Some("2"),
        0x33 => Some("3"),
        0x34 => Some("4"),
        0x35 => Some("5"),
        0x36 => Some("6"),
        0x37 => Some("7"),
        0x38 => Some("8"),
        0x39 => Some("9"),
        0x41 => Some("A"),
        0x42 => Some("B"),
        0x43 => Some("C"),
        0x44 => Some("D"),
        0x45 => Some("E"),
        0x46 => Some("F"),
        0x47 => Some("G"),
        0x48 => Some("H"),
        0x49 => Some("I"),
        0x4A => Some("J"),
        0x4B => Some("K"),
        0x4C => Some("L"),
        0x4D => Some("M"),
        0x4E => Some("N"),
        0x4F => Some("O"),
        0x50 => Some("P"),
        0x51 => Some("Q"),
        0x52 => Some("R"),
        0x53 => Some("S"),
        0x54 => Some("T"),
        0x55 => Some("U"),
        0x56 => Some("V"),
        0x57 => Some("W"),
        0x58 => Some("X"),
        0x59 => Some("Y"),
        0x5A => Some("Z"),
        0x5B => Some("Meta"),  // VK_LWIN
        0x5C => Some("Meta"),  // VK_RWIN
        0x5D => Some("ContextMenu"),  // VK_APPS
        0x60 => Some("0"),  // VK_NUMPAD0
        0x61 => Some("1"),  // VK_NUMPAD1
        0x62 => Some("2"),  // VK_NUMPAD2
        0x63 => Some("3"),  // VK_NUMPAD3
        0x64 => Some("4"),  // VK_NUMPAD4
        0x65 => Some("5"),  // VK_NUMPAD5
        0x66 => Some("6"),  // VK_NUMPAD6
        0x67 => Some("7"),  // VK_NUMPAD7
        0x68 => Some("8"),  // VK_NUMPAD8
        0x69 => Some("9"),  // VK_NUMPAD9
        0x6A => Some("*"),  // VK_MULTIPLY
        0x6B => Some("+"),  // VK_ADD
        0x6D => Some("-"),  // VK_SUBTRACT
        0x6E => Some("."),  // VK_DECIMAL
        0x6F => Some("/"),  // VK_DIVIDE
        0x70 => Some("F1"),  // VK_F1
        0x71 => Some("F2"),  // VK_F2
        0x72 => Some("F3"),  // VK_F3
        0x73 => Some("F4"),  // VK_F4
        0x74 => Some("F5"),  // VK_F5
        0x75 => Some("F6"),  // VK_F6
        0x76 => Some("F7"),  // VK_F7
        0x77 => Some("F8"),  // VK_F8
        0x78 => Some("F9"),  // VK_F9
        0x79 => Some("F10"),  // VK_F10
        0x7A => Some("F11"),  // VK_F11
        0x7B => Some("F12"),  // VK_F12
        0x7C => Some("F13"),  // VK_F13
        0x7D => Some("F14"),  // VK_F14
        0x7E => Some("F15"),  // VK_F15
        0x7F => Some("F16"),  // VK_F16
        0x80 => Some("F17"),  // VK_F17
        0x81 => Some("F18"),  // VK_F18
        0x82 => Some("F19"),  // VK_F19
        0x83 => Some("F20"),  // VK_F20
        0x84 => Some("F21"),  // VK_F21
        0x85 => Some("F22"),  // VK_F22
        0x86 => Some("F23"),  // VK_F23
        0x87 => Some("F24"),  // VK_F24
        0x90 => Some("NumLock"),  // VK_NUMLOCK
        0x91 => Some("ScrollLock"),  // VK_SCROLL
        0xB6 => Some("My Computer"),
        0xB7 => Some("My Calculator"),
        0xBA => Some(";"),  // VK_OEM_1
        0xBB => Some("="),  // VK_OEM_PLUS
        0xBC => Some(","),  // VK_OEM_COMMA
        0xBD => Some("-"),  // VK_OEM_MINUS
        0xBE => Some("."),  // VK_OEM_PERIOD
        0xBF => Some("/"),  // VK_OEM_2
        0xC0 => Some("`"),  // VK_OEM_3
        0xDB => Some("["),  // VK_OEM_4
        0xDC => Some("\\"),  // VK_OEM_5
        0xDD => Some("]"),  // VK_OEM_6
        0xDE => Some("'"),  // VK_OEM_7
        0xFA => Some("Play"),
        _ => None,
    }
}

/// `ToString::to_string` on a `char`: std's `Display` for `char` writes the
/// character itself, so the string holds exactly that one character.
#[verifier::external_body]
fn char_to_string(c: char) -> (s: String)
    ensures
        s@ == seq![c],
{
    c.to_string()
}

/// The key code that the overlay reports for a key message with `WPARAM` `msg_w_param`.
pub fn get_input_event_key_code(msg_w_param: usize) -> (key_code: String)
    ensures
        key_code@ == spec_input_event_key_code(msg_w_param),
{
    let code = msg_w_param as i32;
    match named_key(code) {
        Some(name) => name.to_owned(),
        None => char_to_string((msg_w_param as u8) as char),
    }
}

/// Every key message is reported with a key code of at least one character.
pub proof fn lemma_key_code_never_empty(msg_w_param: usize)
    ensures
        spec_input_event_key_code(msg_w_param).len() >= 1,
{
    let code = msg_w_param as i32;
    reveal_strlit(" ");
    reveal_strlit("'");
    reveal_strlit("*");
    reveal_strlit("+");
    reveal_strlit(",");
    reveal_strlit("-");
    reveal_strlit(".");
    reveal_strlit("/");
    reveal_strlit("0");
    reveal_strlit("1");
    reveal_strlit("2");
    reveal_strlit("3");
    reveal_strlit("4");
    reveal_strlit("5");
    reveal_strlit("6");
    reveal_strlit("7");
    reveal_strlit("8");
    reveal_strlit("9");
    reveal_strlit(";");
    reveal_strlit("=");
    reveal_strlit("A");
    reveal_strlit("Alt");
    reveal_strlit("B");
    reveal_strlit("Backspace");
    reveal_strlit("C");
    reveal_strlit("CapsLock");
    reveal_strlit("ContextMenu");
    reveal_strlit("Ctrl");
    reveal_strlit("D");
    reveal_strlit("Delete");
    reveal_strlit("Down");
    reveal_strlit("E");
    reveal_strlit("End");
    reveal_strlit("Enter");
    reveal_strlit("Escape");
    reveal_strlit("F");
    reveal_strlit("F1");
    reveal_strlit("F10");
    reveal_strlit("F11");
    reveal_strlit("F12");
    reveal_strlit("F13");
    reveal_strlit("F14");
    reveal_strlit("F15");
    reveal_strlit("F16");
    reveal_strlit("F17");
    reveal_strlit("F18");
    reveal_strlit("F19");
    reveal_strlit("F2");
    reveal_strlit("F20");
    reveal_strlit("F21");
    reveal_strlit("F22");
    reveal_strlit("F23");
    reveal_strlit("F24");
    reveal_strlit("F3");
    reveal_strlit("F4");
    reveal_strlit("F5");
    reveal_strlit("F6");
    reveal_strlit("F7");
    reveal_strlit("F8");
    reveal_strlit("F9");
    reveal_strlit("G");
    reveal_strlit("H");
    reveal_strlit("Home");
    reveal_strlit("I");
    reveal_strlit("Insert");
    reveal_strlit("J");
    reveal_strlit("K");
    reveal_strlit("L");
    reveal_strlit("Left");
    reveal_strlit("M");
    reveal_strlit("Meta");
    reveal_strlit("My Calculator");
    reveal_strlit("My Computer");
    reveal_strlit("N");
    reveal_strlit("NumLock");
    reveal_strlit("O");
    reveal_strlit("P");
    reveal_strlit("PageDown");
    reveal_strlit("PageUp");
    reveal_strlit("Pause");
    reveal_strlit("Play");
    reveal_strlit("Q");
    reveal_strlit("R");
    reveal_strlit("Right");
    reveal_strlit("S");
    reveal_strlit("ScrollLock");
    reveal_strlit("Shift");
    reveal_strlit("T");
    reveal_strlit("Tab");
    reveal_strlit("U");
    reveal_strlit("Up");
    reveal_strlit("V");
    reveal_strlit("W");
    reveal_strlit("X");
    reveal_strlit("Y");
    reveal_strlit("Z");
    reveal_strlit("[");
    reveal_strlit("\\");
    reveal_strlit("]");
    reveal_strlit("`");
    assert(spec_named_key(code) matches Some(name) ==> name.len() >= 1);
}

/// The letter keys are reported by their upper-case letter.
pub proof fn lemma_letter_keys_named_by_letter(msg_w_param: usize)
    requires
        0x41 <= msg_w_param <= 0x5A,
    ensures
        spec_input_event_key_code(msg_w_param) == seq![(msg_w_param as u8) as char],
{
    reveal_strlit("A");
    reveal_strlit("B");
    reveal_strlit("C");
    reveal_strlit("D");
    reveal_strlit("E");
    reveal_strlit("F");
    reveal_strlit("G");
    reveal_strlit("H");
    reveal_strlit("I");
    reveal_strlit("J");
    reveal_strlit("K");
    reveal_strlit("L");
    reveal_strlit("M");
    reveal_strlit("N");
    reveal_strlit("O");
    reveal_strlit("P");
    reveal_strlit("Q");
    reveal_strlit("R");
    reveal_strlit("S");
    reveal_strlit("T");
    reveal_strlit("U");
    reveal_strlit("V");
    reveal_strlit("W");
    reveal_strlit("X");
    reveal_strlit("Y");
    reveal_strlit("Z");
    assert(msg_w_param as i32 == msg_w_param);
}

/// A digit key of the main keyboard and the numeric-keypad key of the same digit are
/// reported by the same key code: that digit.
pub proof fn lemma_digit_keys_match_keypad(digit: usize)
    requires
        digit < 10,
    ensures
        spec_input_event_key_code((0x30 + digit) as usize) == seq![((0x30 + digit) as u8) as char],
        spec_input_event_key_code((0x60 + digit) as usize) == spec_input_event_key_code((0x30 + digit) as usize),
{
    reveal_strlit("0");
    reveal_strlit("1");
    reveal_strlit("2");
    reveal_strlit("3");
    reveal_strlit("4");
    reveal_strlit("5");
    reveal_strlit("6");
    reveal_strlit("7");
    reveal_strlit("8");
    reveal_strlit("9");
    assert((0x30 + digit) as i32 == 0x30 + digit);
    assert((0x60 + digit) as i32 == 0x60 + digit);
}

/// The name under which each named virtual key is reported: the editing and arrow keys,
/// the function keys F1 to F24, the lock keys, the punctuation keys, and the rest, each by
/// its own fixed name.
pub proof fn lemma_named_key_codes()
    ensures
        spec_input_event_key_code(0x08usize) == "Backspace"@,
        spec_input_event_key_code(0x09usize) == "Tab"@,
        spec_input_event_key_code(0x0Dusize) == "Enter"@,
        spec_input_event_key_code(0x10usize) == "Shift"@,
        spec_input_event_key_code(0x11usize) == "Ctrl"@,
        spec_input_event_key_code(0x12usize) == "Alt"@,
        spec_input_event_key_code(0x13usize) == "Pause"@,
        spec_input_event_key_code(0x14usize) == "CapsLock"@,
        spec_input_event_key_code(0x1Busize) == "Escape"@,
        spec_input_event_key_code(0x20usize) == " "@,
        spec_input_event_key_code(0x21usize) == "PageUp"@,
        spec_input_event_key_code(0x22usize) == "PageDown"@,
        spec_input_event_key_code(0x23usize) == "End"@,
        spec_input_event_key_code(0x24usize) == "Home"@,
        spec_input_event_key_code(0x25usize) == "Left"@,
        spec_input_event_key_code(0x26usize) == "Up"@,
        spec_input_event_key_code(0x27usize) == "Right"@,
        spec_input_event_key_code(0x28usize) == "Down"@,
        spec_input_event_key_code(0x2Dusize) == "Insert"@,
        spec_input_event_key_code(0x2Eusize) == "Delete"@,
        spec_input_event_key_code(0x30usize) == "0"@,
        spec_input_event_key_code(0x31usize) == "1"@,
        spec_input_event_key_code(0x32usize) == "2"@,
        spec_input_event_key_code(0x33usize) == "3"@,
        spec_input_event_key_code(0x34usize) == "4"@,
        spec_input_event_key_code(0x35usize) == "5"@,
        spec_input_event_key_code(0x36usize) == "6"@,
        spec_input_event_key_code(0x37usize) == "7"@,
        spec_input_event_key_code(0x38usize) == "8"@,
        spec_input_event_key_code(0x39usize) == "9"@,
        spec_input_event_key_code(0x41usize) == "A"@,
        spec_input_event_key_code(0x42usize) == "B"@,
        spec_input_event_key_code(0x43usize) == "C"@,
        spec_input_event_key_code(0x44usize) == "D"@,
        spec_input_event_key_code(0x45usize) == "E"@,
        spec_input_event_key_code(0x46usize) == "F"@,
        spec_input_event_key_code(0x47usize) == "G"@,
        spec_input_event_key_code(0x48usize) == "H"@,
        spec_input_event_key_code(0x49usize) == "I"@,
        spec_input_event_key_code(0x4Ausize) == "J"@,
        spec_input_event_key_code(0x4Busize) == "K"@,
        spec_input_event_key_code(0x4Cusize) == "L"@,
        spec_input_event_key_code(0x4Dusize) == "M"@,
        spec_input_event_key_code(0x4Eusize) == "N"@,
        spec_input_event_key_code(0x4Fusize) == "O"@,
        spec_input_event_key_code(0x50usize) == "P"@,
        spec_input_event_key_code(0x51usize) == "Q"@,
        spec_input_event_key_code(0x52usize) == "R"@,
        spec_input_event_key_code(0x53usize) == "S"@,
        spec_input_event_key_code(0x54usize) == "T"@,
        spec_input_event_key_code(0x55usize) == "U"@,
        spec_input_event_key_code(0x56usize) == "V"@,
        spec_input_event_key_code(0x57usize) == "W"@,
        spec_input_event_key_code(0x58usize) == "X"@,
        spec_input_event_key_code(0x59usize) == "Y"@,
        spec_input_event_key_code(0x5Ausize) == "Z"@,
        spec_input_event_key_code(0x5Busize) == "Meta"@,
        spec_input_event_key_code(0x5Cusize) == "Meta"@,
        spec_input_event_key_code(0x5Dusize) == "ContextMenu"@,
        spec_input_event_key_code(0x60usize) == "0"@,
        spec_input_event_key_code(0x61usize) == "1"@,
        spec_input_event_key_code(0x62usize) == "2"@,
        spec_input_event_key_code(0x63usize) == "3"@,
        spec_input_event_key_code(0x64usize) == "4"@,
        spec_input_event_key_code(0x65usize) == "5"@,
        spec_input_event_key_code(0x66usize) == "6"@,
        spec_input_event_key_code(0x67usize) == "7"@,
        spec_input_event_key_code(0x68usize) == "8"@,
        spec_input_event_key_code(0x69usize) == "9"@,
        spec_input_event_key_code(0x6Ausize) == "*"@,
        spec_input_event_key_code(0x6Busize) == "+"@,
        spec_input_event_key_code(0x6Dusize) == "-"@,
        spec_input_event_key_code(0x6Eusize) == "."@,
        spec_input_event_key_code(0x6Fusize) == "/"@,
        spec_input_event_key_code(0x70usize) == "F1"@,
        spec_input_event_key_code(0x71usize) == "F2"@,
        spec_input_event_key_code(0x72usize) == "F3"@,
        spec_input_event_key_code(0x73usize) == "F4"@,
        spec_input_event_key_code(0x74usize) == "F5"@,
        spec_input_event_key_code(0x75usize) == "F6"@,
        spec_input_event_key_code(0x76usize) == "F7"@,
        spec_input_event_key_code(0x77usize) == "F8"@,
        spec_input_event_key_code(0x78usize) == "F9"@,
        spec_input_event_key_code(0x79usize) == "F10"@,
        spec_input_event_key_code(0x7Ausize) == "F11"@,
        spec_input_event_key_code(0x7Busize) == "F12"@,
        spec_input_event_key_code(0x7Cusize) == "F13"@,
        spec_input_event_key_code(0x7Dusize) == "F14"@,
        spec_input_event_key_code(0x7Eusize) == "F15"@,
        spec_input_event_key_code(0x7Fusize) == "F16"@,
        spec_input_event_key_code(0x80usize) == "F17"@,
        spec_input_event_key_code(0x81usize) == "F18"@,
        spec_input_event_key_code(0x82usize) == "F19"@,
        spec_input_event_key_code(0x83usize) == "F20"@,
        spec_input_event_key_code(0x84usize) == "F21"@,
        spec_input_event_key_code(0x85usize) == "F22"@,
        spec_input_event_key_code(0x86usize) == "F23"@,
        spec_input_event_key_code(0x87usize) == "F24"@,
        spec_input_event_key_code(0x90usize) == "NumLock"@,
        spec_input_event_key_code(0x91usize) == "ScrollLock"@,
        spec_input_event_key_code(0xB6usize) == "My Computer"@,
        spec_input_event_key_code(0xB7usize) == "My Calculator"@,
        spec_input_event_key_code(0xBAusize) == ";"@,
        spec_input_event_key_code(0xBBusize) == "="@,
        spec_input_event_key_code(0xBCusize) == ","@,
        spec_input_event_key_code(0xBDusize) == "-"@,
        spec_input_event_key_code(0xBEusize) == "."@,
        spec_input_event_key_code(0xBFusize) == "/"@,
        spec_input_event_key_code(0xC0usize) == "`"@,
        spec_input_event_key_code(0xDBusize) == "["@,
        spec_input_event_key_code(0xDCusize) == "\\"@,
        spec_input_event_key_code(0xDDusize) == "]"@,
        spec_input_event_key_code(0xDEusize) == "'"@,
        spec_input_event_key_code(0xFAusize) == "Play"@,
{
}

/// A key message whose code (the low 32 bits of `WPARAM`, signed) is none of the named keys
/// is reported by the single character whose code is the low byte of `WPARAM`: this holds for
/// every negative code, every code above 0xFA, and each gap between the named keys.
pub proof fn lemma_unnamed_keys_fall_back_to_low_byte(msg_w_param: usize)
    requires
        ({
            let c = msg_w_param as i32;
            c < 0 || c > 0xFA || (0x00 <= c <= 0x07) || (0x0A <= c <= 0x0C) || (0x0E <= c <= 0x0F) || (0x15 <= c <= 0x1A) || (0x1C <= c <= 0x1F) || (0x29 <= c <= 0x2C) || c == 0x2F || (0x3A <= c <= 0x40) || (0x5E <= c <= 0x5F) || c == 0x6C || (0x88 <= c <= 0x8F) || (0x92 <= c <= 0xB5) || (0xB8 <= c <= 0xB9) || (0xC1 <= c <= 0xDA) || (0xDF <= c <= 0xF9)
        }),
    ensures
        spec_input_event_key_code(msg_w_param) == seq![((msg_w_param % 256) as u8) as char],
{
    assert(msg_w_param as u8 == (msg_w_param % 256) as u8) by (bit_vector);
}

} // verus!
