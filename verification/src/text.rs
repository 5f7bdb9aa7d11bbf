//! Character classes of `std` that codes and names are checked against.
use vstd::prelude::*;
use vstd::string::StringSliceAdditionalSpecFns;

verus! {

/// Whether `char::is_alphanumeric` holds of a character (Unicode Alphabetic or Numeric).
pub uninterp spec fn spec_is_alphanumeric(c: char) -> bool;

/// Whether `char::is_whitespace` holds of a character (Unicode White_Space).
pub uninterp spec fn spec_is_whitespace(c: char) -> bool;

/// The length in bytes of the UTF-8 encoding of `s`.
pub open spec fn byte_len(s: Seq<char>) -> nat {
    vstd::utf8::encode_utf8(s).len()
}

/// The length in bytes of a string.
pub fn string_byte_len(s: &String) -> (n: usize)
    ensures
        n == byte_len(s@),
{
    let t: &str = s.as_str();
    let bytes: &[u8] = t.as_bytes();
    proof {
        assert(t@ == s@);
        assert(bytes@ == t.spec_bytes());
    }
    bytes.len()
}

/// ASCII letters and digits.
pub open spec fn is_ascii_alphanumeric(c: char) -> bool {
    ||| (0x61 <= c as u32 && c as u32 <= 0x7a)
    ||| (0x41 <= c as u32 && c as u32 <= 0x5a)
    ||| (0x30 <= c as u32 && c as u32 <= 0x39)
}

/// Calls `char::is_alphanumeric`. Its result is named; std documents it as "alphabetic or
/// numeric", so every ASCII letter and digit is alphanumeric and no other ASCII character is.
#[verifier::external_body]
pub(crate) fn is_alphanumeric_char(c: char) -> (r: bool)
    ensures
        r == spec_is_alphanumeric(c),
        is_ascii_alphanumeric(c) ==> r,
        (c as u32) < 128 && !is_ascii_alphanumeric(c) ==> !r,
{
    c.is_alphanumeric()
}

/// Calls `char::is_whitespace`. Its result is named; of ASCII characters, std counts exactly
/// space, tab, line feed, vertical tab, form feed and carriage return as whitespace.
#[verifier::external_body]
pub(crate) fn is_whitespace_char(c: char) -> (r: bool)
    ensures
        r == spec_is_whitespace(c),
        (c as u32) < 128 ==> (r <==> (c as u32 == 0x20 || (0x09 <= c as u32 && c as u32 <= 0x0d))),
{
    c.is_whitespace()
}

/// A character that may stand in a referral code: alphanumeric, `_` or `-`.
pub open spec fn is_code_char(c: char) -> bool {
    spec_is_alphanumeric(c) || c == '_' || c == '-'
}

/// Whether every character of `s` may stand in a referral code.
pub fn all_code_chars(s: &str) -> (r: bool)
    ensures
        r == (forall|i: int| 0 <= i < s@.len() ==> is_code_char(#[trigger] s@[i])),
{
    let n = s.unicode_len();
    let mut i: usize = 0;
    while i < n
        invariant
            n == s@.len(),
            i <= n,
            forall|j: int| 0 <= j < i ==> is_code_char(#[trigger] s@[j]),
        decreases n - i,
    {
        let c = s.get_char(i);
        let ok = is_alphanumeric_char(c) || c == '_' || c == '-';
        if !ok {
            return false;
        }
        i = i + 1;
    }
    true
}

/// Whether every character of `s` is alphanumeric.
pub fn all_alphanumeric(s: &str) -> (r: bool)
    ensures
        r == (forall|i: int| 0 <= i < s@.len() ==> spec_is_alphanumeric(#[trigger] s@[i])),
{
    let n = s.unicode_len();
    let mut i: usize = 0;
    while i < n
        invariant
            n == s@.len(),
            i <= n,
            forall|j: int| 0 <= j < i ==> spec_is_alphanumeric(#[trigger] s@[j]),
        decreases n - i,
    {
        let c = s.get_char(i);
        if !is_alphanumeric_char(c) {
            return false;
        }
        i = i + 1;
    }
    true
}

/// Whether `s` neither begins nor ends with whitespace, that is, whether `s.trim() == s`.
pub open spec fn is_trimmed(s: Seq<char>) -> bool {
    s.len() == 0 || (!spec_is_whitespace(s[0]) && !spec_is_whitespace(s[s.len() - 1]))
}

/// Whether trimming leaves `s` as it is.
pub fn trimmed(s: &str) -> (r: bool)
    ensures
        r == is_trimmed(s@),
{
    let n = s.unicode_len();
    if n == 0 {
        return true;
    }
    let first = s.get_char(0);
    let last = s.get_char(n - 1);
    !is_whitespace_char(first) && !is_whitespace_char(last)
}

/// Whether two strings hold the same characters.
pub fn str_eq(a: &str, b: &str) -> (r: bool)
    ensures
        r == (a@ == b@),
{
    let n = a.unicode_len();
    if n != b.unicode_len() {
        return false;
    }
    let mut i: usize = 0;
    while i < n
        invariant
            n == a@.len(),
            n == b@.len(),
            i <= n,
            forall|j: int| 0 <= j < i ==> a@[j] == b@[j],
        decreases n - i,
    {
        if a.get_char(i) != b.get_char(i) {
            return false;
        }
        i = i + 1;
    }
    proof {
        assert(a@ =~= b@);
    }
    true
}

} // verus!
