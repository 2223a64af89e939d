//! Text operations on configuration strings.

use vstd::prelude::*;
use vstd::string::*;

verus! {

/// Whether every character of `s` is ASCII.
pub open spec fn is_ascii_text(s: Seq<char>) -> bool {
    forall|i: int| 0 <= i < s.len() ==> (s[i] as u32) < 128
}

/// The ASCII lowercase of one character: `A`..=`Z` become `a`..=`z`, any other
/// character stays as it is.
pub open spec fn ascii_lower_char(c: char) -> char {
    if 'A' <= c && c <= 'Z' {
        ((c as u8) + 32u8) as u8 as char
    } else {
        c
    }
}

/// What Unicode lowercasing gives for a text with characters outside ASCII.
pub uninterp spec fn lower_of(s: Seq<char>) -> Seq<char>;

/// The lowercase form of a text: the character-wise ASCII lowercase where the
/// text is ASCII, and the Unicode lowercase mapping otherwise.
pub open spec fn lowercase_text(s: Seq<char>) -> Seq<char> {
    if is_ascii_text(s) {
        s.map_values(|c: char| ascii_lower_char(c))
    } else {
        lower_of(s)
    }
}

/// Relies on `str::to_lowercase`: on ASCII text it maps `A`..=`Z` to
/// `a`..=`z` and keeps every other character; on other text the result is the
/// Unicode lowercase mapping, which depends on the characters alone.
#[verifier::external_body]
pub(crate) fn lowercase(s: &str) -> (r: String)
    ensures
        is_ascii_text(s@) ==> r@ == s@.map_values(|c: char| ascii_lower_char(c)),
        !is_ascii_text(s@) ==> r@ == lower_of(s@),
{
    s.to_lowercase()
}

/// Lowercasing ASCII text gives ASCII text, and lowercasing it again changes
/// nothing.
pub proof fn lemma_ascii_lowercase_idempotent(s: Seq<char>)
    requires
        is_ascii_text(s),
    ensures
        is_ascii_text(lowercase_text(s)),
        lowercase_text(lowercase_text(s)) == lowercase_text(s),
{
    let l = lowercase_text(s);
    assert forall|i: int| 0 <= i < l.len() implies (l[i] as u32) < 128
        && ascii_lower_char(l[i]) == l[i] by {
        let c = s[i];
        if 'A' <= c && c <= 'Z' {
            assert((c as u8) + 32u8 < 128);
        }
    }
    assert(lowercase_text(l) =~= l);
}

/// ASCII text without uppercase letters is its own lowercase.
pub proof fn lemma_lowercase_fixed(s: Seq<char>)
    requires
        is_ascii_text(s),
        forall|i: int| 0 <= i < s.len() ==> !('A' <= #[trigger] s[i] && s[i] <= 'Z'),
    ensures
        lowercase_text(s) == s,
{
    assert(lowercase_text(s) =~= s);
}

} // verus!
