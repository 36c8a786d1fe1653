//! Decoding of a single UTF-16 code unit, as carried by a `WM_CHAR` message.

use vstd::prelude::*;

verus! {

/// Whether a UTF-16 code unit is one half of a surrogate pair.
pub open spec fn is_utf16_surrogate(unit: u16) -> bool {
    0xD800 <= unit <= 0xDFFF
}

/// The text that lossy UTF-16 decoding gives for a string of the one code unit `unit`:
/// the character with that code, or U+FFFD REPLACEMENT CHARACTER for a lone surrogate.
pub open spec fn spec_utf16_unit_lossy(unit: u16) -> Seq<char> {
    if is_utf16_surrogate(unit) {
        seq!['\u{FFFD}']
    } else {
        seq![unit as char]
    }
}

/// `widestring::U16String::from_vec(vec![unit]).to_string_lossy()`, which in
/// widestring 0.4 is `String::from_utf16_lossy` on the one-unit slice. std documents
/// that invalid data (here: a lone surrogate) becomes U+FFFD; any other unit is the
/// code point of the same value.
#[verifier::external_body]
fn utf16_unit_to_string_lossy(unit: u16) -> (s: String)
    ensures
        s@ == spec_utf16_unit_lossy(unit),
{
    widestring::U16String::from_vec(vec![unit]).to_string_lossy()
}

/// The key code reported for a `WM_CHAR` message: the character of the UTF-16 unit
/// in the low 16 bits of its `WPARAM`, decoded lossily.
pub fn get_char_event_key_code(msg_w_param: usize) -> (key_code: String)
    ensures
        key_code@ == spec_utf16_unit_lossy(msg_w_param as u16),
{
    utf16_unit_to_string_lossy(msg_w_param as u16)
}

} // verus!
