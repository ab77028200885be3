//! Letter case of text.
//!
//! Commands take method and level names in any letter case. The standard
//! library normalises them; its Unicode case tables are not restated here.
//! What the library does pin down is the ASCII part, which is all that the
//! accepted names are made of.

use vstd::prelude::*;
use vstd::utf8::is_ascii_chars;

verus! {

/// The text that `str::to_uppercase` returns for the text `s`.
pub uninterp spec fn unicode_uppercase(s: Seq<char>) -> Seq<char>;

/// Upper-cases one character if it is an ASCII lower-case letter.
pub open spec fn ascii_upper_char(c: char) -> char {
    if 'a' <= c && c <= 'z' {
        ((c as u8) - 32) as char
    } else {
        c
    }
}

/// Upper-cases the ASCII lower-case letters of `s`, leaving the rest.
pub open spec fn ascii_uppercase(s: Seq<char>) -> Seq<char> {
    Seq::new(s.len(), |i: int| ascii_upper_char(s[i]))
}

/// The upper-case form of `s`: letter by letter for ASCII text, and what the
/// standard library's Unicode tables give for any other text.
pub open spec fn uppercase(s: Seq<char>) -> Seq<char> {
    if is_ascii_chars(s) {
        ascii_uppercase(s)
    } else {
        unicode_uppercase(s)
    }
}

/// The text that `str::to_lowercase` returns for the text `s`.
pub uninterp spec fn unicode_lowercase(s: Seq<char>) -> Seq<char>;

/// Lower-cases one character if it is an ASCII upper-case letter.
pub open spec fn ascii_lower_char(c: char) -> char {
    if 'A' <= c && c <= 'Z' {
        ((c as u8) + 32) as char
    } else {
        c
    }
}

/// Lower-cases the ASCII upper-case letters of `s`, leaving the rest.
pub open spec fn ascii_lowercase(s: Seq<char>) -> Seq<char> {
    Seq::new(s.len(), |i: int| ascii_lower_char(s[i]))
}

/// The lower-case form of `s`: letter by letter for ASCII text, and what the
/// standard library's Unicode tables give for any other text.
pub open spec fn lowercase(s: Seq<char>) -> Seq<char> {
    if is_ascii_chars(s) {
        ascii_lowercase(s)
    } else {
        unicode_lowercase(s)
    }
}

/// Whether `a` and `b` are the same text up to the case of ASCII letters.
pub open spec fn same_ignoring_ascii_case(a: Seq<char>, b: Seq<char>) -> bool {
    &&& a.len() == b.len()
    &&& forall|i: int|
        0 <= i < a.len() ==> ascii_upper_char(#[trigger] a[i]) == ascii_upper_char(b[i])
}

/// Texts that differ only in the case of ASCII letters have one ASCII
/// upper-case form, and texts with one such form differ in nothing else.
pub proof fn lemma_ascii_case_variants(a: Seq<char>, b: Seq<char>)
    ensures
        same_ignoring_ascii_case(a, b) <==> ascii_uppercase(a) == ascii_uppercase(b),
{
    if same_ignoring_ascii_case(a, b) {
        assert(ascii_uppercase(a) =~= ascii_uppercase(b));
    }
    if ascii_uppercase(a) == ascii_uppercase(b) {
        assert(a.len() == ascii_uppercase(a).len());
        assert(b.len() == ascii_uppercase(b).len());
        assert forall|i: int| 0 <= i < a.len() implies ascii_upper_char(#[trigger] a[i])
            == ascii_upper_char(b[i]) by {
            assert(ascii_uppercase(a)[i] == ascii_upper_char(a[i]));
            assert(ascii_uppercase(b)[i] == ascii_upper_char(b[i]));
        }
    }
}

/// ASCII texts that differ only in letter case have the same upper-case form.
pub proof fn law_uppercase_ignores_ascii_case(a: Seq<char>, b: Seq<char>)
    ensures
        is_ascii_chars(a) && is_ascii_chars(b) && same_ignoring_ascii_case(a, b) ==> uppercase(a)
            == uppercase(b),
{
    lemma_ascii_case_variants(a, b);
}

/// Calls `str::to_uppercase`.
///
/// Trusted: the result is the standard library's upper-casing of `s`, and on
/// text that is ASCII throughout this maps `a`..`z` to `A`..`Z` and leaves
/// every other character as it is.
#[verifier::external_body]
pub(crate) fn to_uppercase(s: &str) -> (r: String)
    ensures
        r@ == unicode_uppercase(s@),
        is_ascii_chars(s@) ==> r@ == ascii_uppercase(s@),
{
    s.to_uppercase()
}

/// Calls `str::to_lowercase`.
///
/// Trusted: the result is the standard library's lower-casing of `s`, and on
/// text that is ASCII throughout this maps `A`..`Z` to `a`..`z` and leaves
/// every other character as it is.
#[verifier::external_body]
pub(crate) fn to_lowercase(s: &str) -> (r: String)
    ensures
        r@ == unicode_lowercase(s@),
        is_ascii_chars(s@) ==> r@ == ascii_lowercase(s@),
{
    s.to_lowercase()
}

} // verus!
