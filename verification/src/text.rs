//! Text in fixed-size fields of raw device data.

use vstd::prelude::*;
use vstd::utf8::*;

verus! {

/// The characters with the Unicode property `White_Space`.
pub open spec fn is_white_space(c: char) -> bool {
    ||| '\u{9}' <= c <= '\u{d}'
    ||| c == '\u{20}'
    ||| c == '\u{85}'
    ||| c == '\u{a0}'
    ||| c == '\u{1680}'
    ||| '\u{2000}' <= c <= '\u{200a}'
    ||| c == '\u{2028}'
    ||| c == '\u{2029}'
    ||| c == '\u{202f}'
    ||| c == '\u{205f}'
    ||| c == '\u{3000}'
}

/// `s` without the white space at its two ends.
pub open spec fn trimmed(s: Seq<char>) -> Seq<char>
    decreases s.len(),
{
    if s.len() == 0 {
        s
    } else if is_white_space(s.first()) {
        trimmed(s.drop_first())
    } else if is_white_space(s.last()) {
        trimmed(s.drop_last())
    } else {
        s
    }
}

/// The text in a padded field: nothing where the field is no UTF-8 or holds white space alone.
pub open spec fn field_text(field: Seq<u8>) -> Option<Seq<char>> {
    if valid_utf8(field) && trimmed(decode_utf8(field)).len() > 0 {
        Some(trimmed(decode_utf8(field)))
    } else {
        None
    }
}

/// `core::str::Utf8Error`, why bytes are no UTF-8. Nothing is known of it.
#[verifier::external_type_specification]
#[verifier::external_body]
pub struct ExUtf8Error(core::str::Utf8Error);

/// `core::str::from_utf8`: the text that the bytes encode, if and only if they are valid UTF-8.
pub assume_specification[ core::str::from_utf8 ](v: &[u8]) -> (r: Result<
    &str,
    core::str::Utf8Error,
>)
    ensures
        match r {
            Ok(s) => valid_utf8(v@) && s@ == decode_utf8(v@),
            Err(_) => !valid_utf8(v@),
        },
;

/// `str::trim`: the text without leading and trailing characters that have the Unicode property
/// `White_Space`.
pub assume_specification[ str::trim ](s: &str) -> (r: &str)
    ensures
        r@ == trimmed(s@),
;

/// Reads the text in a padded field.
pub(crate) fn read_field(field: &[u8]) -> (r: Option<String>)
    ensures
        r.deep_view() == field_text(field@),
{
    match core::str::from_utf8(field) {
        Ok(s) => {
            let s: &str = s.trim();
            if s.is_empty() {
                None
            } else {
                Some(s.to_string())
            }
        },
        Err(_) => None,
    }
}

} // verus!
