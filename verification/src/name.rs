//! Family names: which name asks for the built-in faces, and which names
//! the host font system can be asked about.

use vstd::prelude::*;
use vstd::string::*;

verus! {

/// The family name that selects the built-in faces.
pub const DEFAULT_FONT_NAME: &'static str = "cascadiamono";

/// The lower-case form of an ASCII capital letter; any other character
/// unchanged.
pub open spec fn ascii_lower(c: char) -> char {
    if 'A' <= c && c <= 'Z' {
        ((c as u32) + 32) as char
    } else {
        c
    }
}

/// Whether a family name is the built-in one, whatever the case of its
/// letters.
pub open spec fn is_default_name(name: Seq<char>) -> bool {
    name.map_values(|c: char| ascii_lower(c)) == DEFAULT_FONT_NAME@
}

/// Lower-cases an ASCII capital letter and returns any other character
/// unchanged.
pub fn to_ascii_lower(c: char) -> (lower: char)
    ensures
        lower == ascii_lower(c),
{
    if c >= 'A' && c <= 'Z' {
        let code: u8 = c as u8 + 32;
        code as char
    } else {
        c
    }
}

/// Tells whether `name` asks for the built-in faces.
pub fn is_default_font(name: &str) -> (default: bool)
    ensures
        default == is_default_name(name@),
{
    proof {
        reveal_strlit("cascadiamono");
    }
    let expected: usize = DEFAULT_FONT_NAME.unicode_len();
    if name.unicode_len() != expected {
        return false;
    }
    let mut i: usize = 0;
    while i < expected
        invariant
            i <= expected,
            expected == DEFAULT_FONT_NAME@.len(),
            name@.len() == expected,
            forall|j: int| 0 <= j < i ==> ascii_lower(name@[j]) == DEFAULT_FONT_NAME@[j],
        decreases expected - i,
    {
        if to_ascii_lower(name.get_char(i)) != DEFAULT_FONT_NAME.get_char(i) {
            assert(name@.map_values(|c: char| ascii_lower(c))[i as int]
                != DEFAULT_FONT_NAME@[i as int]);
            return false;
        }
        i += 1;
    }
    assert(name@.map_values(|c: char| ascii_lower(c)) =~= DEFAULT_FONT_NAME@);
    true
}

/// Whether a byte string holds a zero byte. The host font system takes
/// names as zero-terminated strings, so it cannot be asked about such a name.
pub open spec fn has_nul(bytes: Seq<u8>) -> bool {
    exists|i: int| 0 <= i < bytes.len() && bytes[i] == 0u8
}

/// Tells whether the UTF-8 form of `name` holds a zero byte.
pub fn contains_nul(name: &str) -> (found: bool)
    ensures
        found == has_nul(name.spec_bytes()),
{
    let bytes = name.as_bytes();
    let mut i: usize = 0;
    while i < bytes.len()
        invariant
            i <= bytes@.len(),
            bytes@ == name.spec_bytes(),
            forall|j: int| 0 <= j < i ==> bytes@[j] != 0u8,
        decreases bytes@.len() - i,
    {
        if bytes[i] == 0 {
            return true;
        }
        i += 1;
    }
    false
}

} // verus!
