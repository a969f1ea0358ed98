//! Pure structural checks a candidate identifier string must pass.

use vstd::prelude::*;

use crate::errors::{InvalidReason, InvalidValue};

verus! {

/// Whether `c` has the Unicode `White_Space` property, the set of
/// characters `char::is_whitespace` recognises.
pub open spec fn is_whitespace_char(c: char) -> bool {
    ||| c == '\u{0009}'
    ||| c == '\u{000A}'
    ||| c == '\u{000B}'
    ||| c == '\u{000C}'
    ||| c == '\u{000D}'
    ||| c == '\u{0020}'
    ||| c == '\u{0085}'
    ||| c == '\u{00A0}'
    ||| c == '\u{1680}'
    ||| c == '\u{2000}'
    ||| c == '\u{2001}'
    ||| c == '\u{2002}'
    ||| c == '\u{2003}'
    ||| c == '\u{2004}'
    ||| c == '\u{2005}'
    ||| c == '\u{2006}'
    ||| c == '\u{2007}'
    ||| c == '\u{2008}'
    ||| c == '\u{2009}'
    ||| c == '\u{200A}'
    ||| c == '\u{2028}'
    ||| c == '\u{2029}'
    ||| c == '\u{202F}'
    ||| c == '\u{205F}'
    ||| c == '\u{3000}'
}

/// Whether every character of `s` is whitespace (vacuously true of the
/// empty sequence).
pub open spec fn all_whitespace(s: Seq<char>) -> bool {
    forall|i: int| 0 <= i < s.len() ==> is_whitespace_char(#[trigger] s[i])
}

/// The structural rule `valid_string` enforces: non-empty and not made of
/// whitespace alone.
pub open spec fn is_valid_text(s: Seq<char>) -> bool {
    s.len() > 0 && !all_whitespace(s)
}

/// Whether `needle` occurs in `s` starting at position `i`.
pub open spec fn contains_at(s: Seq<char>, needle: Seq<char>, i: int) -> bool {
    &&& 0 <= i
    &&& i + needle.len() <= s.len()
    &&& forall|j: int| 0 <= j < needle.len() ==> s[i + j] == #[trigger] needle[j]
}

/// Whether `needle` occurs somewhere in `s` as a contiguous run.
pub open spec fn text_contains(s: Seq<char>, needle: Seq<char>) -> bool {
    exists|i: int| #[trigger] contains_at(s, needle, i)
}

/// Whether `c` has the Unicode `White_Space` property.
pub fn char_is_whitespace(c: char) -> (r: bool)
    ensures
        r == is_whitespace_char(c),
{
    matches!(c,
        '\u{0009}' | '\u{000A}' | '\u{000B}' | '\u{000C}' | '\u{000D}' | '\u{0020}'
        | '\u{0085}' | '\u{00A0}' | '\u{1680}'
        | '\u{2000}' | '\u{2001}' | '\u{2002}' | '\u{2003}' | '\u{2004}' | '\u{2005}'
        | '\u{2006}' | '\u{2007}' | '\u{2008}' | '\u{2009}' | '\u{200A}'
        | '\u{2028}' | '\u{2029}' | '\u{202F}' | '\u{205F}' | '\u{3000}')
}

/// Rejects a candidate string that is empty or consists solely of
/// whitespace; accepts every other string. The `field_name` is carried
/// into the error for diagnostics only.
pub fn valid_string(s: &str, field_name: &str) -> (r: Result<(), InvalidValue>)
    ensures
        r is Ok <==> is_valid_text(s@),
        r is Err ==> (r->Err_0).field_name@ == field_name@,
        r is Err ==> (r->Err_0).reason == (if s@.len() == 0 {
            InvalidReason::Empty
        } else {
            InvalidReason::WhitespaceOnly
        }),
{
    let n = s.unicode_len();
    if n == 0 {
        return Err(InvalidValue {
            reason: InvalidReason::Empty,
            field_name: field_name.to_owned(),
        });
    }
    let mut i: usize = 0;
    while i < n
        invariant
            n == s@.len(),
            i <= n,
            forall|j: int| 0 <= j < i ==> is_whitespace_char(#[trigger] s@[j]),
        decreases n - i,
    {
        if !char_is_whitespace(s.get_char(i)) {
            return Ok(());
        }
        i += 1;
    }
    Err(InvalidValue {
        reason: InvalidReason::WhitespaceOnly,
        field_name: field_name.to_owned(),
    })
}

/// Whether `needle` occurs in `s` at exactly position `i`.
fn match_at(s: &str, needle: &str, i: usize) -> (r: bool)
    requires
        i + needle@.len() <= s@.len(),
    ensures
        r == contains_at(s@, needle@, i as int),
{
    let n = s.unicode_len();
    let m = needle.unicode_len();
    let mut j: usize = 0;
    while j < m
        invariant
            n == s@.len(),
            m == needle@.len(),
            i + m <= n,
            j <= m,
            forall|l: int| 0 <= l < j ==> s@[i + l] == #[trigger] needle@[l],
        decreases m - j,
    {
        if s.get_char(i + j) != needle.get_char(j) {
            return false;
        }
        j += 1;
    }
    true
}

/// Rejects a candidate string in which `needle` does not occur as a
/// contiguous substring; accepts every string that contains it. The
/// `field_name` is carried into the error for diagnostics only.
pub fn string_contains(s: &str, needle: &str, field_name: &str) -> (r: Result<(), InvalidValue>)
    ensures
        r is Ok <==> text_contains(s@, needle@),
        r is Err ==> (r->Err_0).field_name@ == field_name@,
        r is Err ==> (r->Err_0).reason == InvalidReason::MissingSubstring,
{
    let n = s.unicode_len();
    let m = needle.unicode_len();
    if m > n {
        return Err(InvalidValue {
            reason: InvalidReason::MissingSubstring,
            field_name: field_name.to_owned(),
        });
    }
    let mut i: usize = 0;
    while i <= n - m
        invariant
            n == s@.len(),
            m == needle@.len(),
            m <= n,
            i <= n - m + 1,
            forall|k: int| 0 <= k < i ==> !contains_at(s@, needle@, k),
        decreases n - m + 1 - i,
    {
        if match_at(s, needle, i) {
            return Ok(());
        }
        i += 1;
    }
    Err(InvalidValue {
        reason: InvalidReason::MissingSubstring,
        field_name: field_name.to_owned(),
    })
}

} // verus!
