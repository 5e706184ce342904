//! Reading the token out of an `Authorization` header of the bearer form.

use crate::models::text;
use vstd::prelude::*;

verus! {

/// Whether a character is white space, as Unicode's `White_Space` has it.
pub open spec fn is_space(c: char) -> bool {
    let n = c as u32;
    ||| 0x09 <= n <= 0x0D
    ||| n == 0x20
    ||| n == 0x85
    ||| n == 0xA0
    ||| n == 0x1680
    ||| 0x2000 <= n <= 0x200A
    ||| n == 0x2028
    ||| n == 0x2029
    ||| n == 0x202F
    ||| n == 0x205F
    ||| n == 0x3000
}

/// The first position at or after `from` that holds no white space, or the
/// end of `s`.
pub open spec fn skip_spaces(s: Seq<char>, from: int) -> int
    decreases s.len() - from,
{
    if 0 <= from < s.len() && is_space(s[from]) {
        skip_spaces(s, from + 1)
    } else {
        from
    }
}

/// The first position at or after `from` that holds white space, or the end
/// of `s`.
pub open spec fn skip_word(s: Seq<char>, from: int) -> int
    decreases s.len() - from,
{
    if 0 <= from < s.len() && !is_space(s[from]) {
        skip_word(s, from + 1)
    } else {
        from
    }
}

/// The token of a header of the form `Bearer <token>`: the header's first
/// word must be `Bearer`, its second word is the token, and anything after
/// that is ignored. Words are separated by white space.
pub open spec fn bearer_of(header: Seq<char>) -> Option<Seq<char>> {
    let a = skip_spaces(header, 0);
    let b = skip_word(header, a);
    let c = skip_spaces(header, b);
    let d = skip_word(header, c);
    if header.subrange(a, b) == "Bearer"@ && c < d {
        Some(header.subrange(c, d))
    } else {
        None
    }
}

/// Whether `s` is a single word: not empty, and free of white space.
pub open spec fn is_word(s: Seq<char>) -> bool {
    &&& s.len() > 0
    &&& forall|i: int| 0 <= i < s.len() ==> !is_space(#[trigger] s[i])
}

/// Skipping white space stops within the text, passes over white space
/// only, and stops at the first character that is none.
pub proof fn lemma_skip_spaces(s: Seq<char>, from: int)
    requires
        0 <= from <= s.len(),
    ensures
        from <= skip_spaces(s, from) <= s.len(),
        forall|i: int| from <= i < skip_spaces(s, from) ==> is_space(#[trigger] s[i]),
        skip_spaces(s, from) < s.len() ==> !is_space(s[skip_spaces(s, from)]),
    decreases s.len() - from,
{
    if from < s.len() && is_space(s[from]) {
        lemma_skip_spaces(s, from + 1);
    }
}

/// Skipping a word stops within the text, passes over no white space, and
/// stops at the first white space.
pub proof fn lemma_skip_word(s: Seq<char>, from: int)
    requires
        0 <= from <= s.len(),
    ensures
        from <= skip_word(s, from) <= s.len(),
        forall|i: int| from <= i < skip_word(s, from) ==> !is_space(#[trigger] s[i]),
        skip_word(s, from) < s.len() ==> is_space(s[skip_word(s, from)]),
    decreases s.len() - from,
{
    if from < s.len() && !is_space(s[from]) {
        lemma_skip_word(s, from + 1);
    }
}

/// Where no white space follows, a word runs to the end of the text.
pub proof fn lemma_word_to_end(s: Seq<char>, from: int)
    requires
        0 <= from <= s.len(),
        forall|i: int| from <= i < s.len() ==> !is_space(#[trigger] s[i]),
    ensures
        skip_word(s, from) == s.len(),
    decreases s.len() - from,
{
    if from < s.len() {
        lemma_word_to_end(s, from + 1);
    }
}

/// The token read out of a header is a single word.
pub proof fn lemma_bearer_is_word(header: Seq<char>)
    ensures
        bearer_of(header) matches Some(t) ==> is_word(t),
{
    let a = skip_spaces(header, 0);
    lemma_skip_spaces(header, 0);
    let b = skip_word(header, a);
    lemma_skip_word(header, a);
    let c = skip_spaces(header, b);
    lemma_skip_spaces(header, b);
    lemma_skip_word(header, c);
}

/// A header made of `Bearer`, one space and a single word reads back as
/// that word.
pub proof fn lemma_plain_header_reads_back(token: Seq<char>)
    requires
        is_word(token),
    ensures
        bearer_of("Bearer "@ + token) == Some(token),
{
    reveal_strlit("Bearer ");
    reveal_strlit("Bearer");
    let h = "Bearer "@ + token;
    assert(h.len() == 7 + token.len());
    assert(h[0] == 'B' && h[1] == 'e' && h[2] == 'a' && h[3] == 'r' && h[4] == 'e' && h[5] == 'r'
        && h[6] == ' ');
    assert(skip_spaces(h, 0) == 0);
    reveal_with_fuel(skip_word, 8);
    assert(skip_word(h, 0) == 6);
    assert(h[7] == token[0]);
    reveal_with_fuel(skip_spaces, 3);
    assert(skip_spaces(h, 6) == 7);
    assert forall|i: int| 7 <= i < h.len() implies !is_space(#[trigger] h[i]) by {
        assert(h[i] == token[i - 7]);
    }
    lemma_word_to_end(h, 7);
    assert(h.subrange(0, 6) =~= "Bearer"@);
    assert(h.subrange(7, h.len() as int) =~= token);
}

/// Whether a character is white space.
pub fn is_whitespace(c: char) -> (r: bool)
    ensures
        r == is_space(c),
{
    let n: u32 = c as u32;
    (0x09 <= n && n <= 0x0D) || n == 0x20 || n == 0x85 || n == 0xA0 || n == 0x1680 || (0x2000 <= n
        && n <= 0x200A) || n == 0x2028 || n == 0x2029 || n == 0x202F || n == 0x205F || n == 0x3000
}

/// The character at position `i`. Where the text is known to be ASCII it
/// is read in constant time.
fn char_at(s: &str, ascii: bool, i: usize) -> (c: char)
    requires
        i < s@.len(),
        ascii ==> s.is_ascii(),
    ensures
        c == s@[i as int],
{
    if ascii {
        s.get_ascii(i) as char
    } else {
        s.get_char(i)
    }
}

/// The part of the text from `from` up to `to`.
fn part<'a>(s: &'a str, ascii: bool, from: usize, to: usize) -> (r: &'a str)
    requires
        from <= to <= s@.len(),
        ascii ==> s.is_ascii(),
    ensures
        r@ == s@.subrange(from as int, to as int),
{
    if ascii {
        s.substring_ascii(from, to)
    } else {
        s.substring_char(from, to)
    }
}

fn skip_spaces_from(s: &str, ascii: bool, len: usize, from: usize) -> (to: usize)
    requires
        len == s@.len(),
        from <= len,
        ascii ==> s.is_ascii(),
    ensures
        to == skip_spaces(s@, from as int),
        from <= to <= len,
{
    let mut i: usize = from;
    while i < len && is_whitespace(char_at(s, ascii, i))
        invariant
            from <= i <= len,
            len == s@.len(),
            ascii ==> s.is_ascii(),
            skip_spaces(s@, from as int) == skip_spaces(s@, i as int),
        decreases len - i,
    {
        i += 1;
    }
    i
}

fn skip_word_from(s: &str, ascii: bool, len: usize, from: usize) -> (to: usize)
    requires
        len == s@.len(),
        from <= len,
        ascii ==> s.is_ascii(),
    ensures
        to == skip_word(s@, from as int),
        from <= to <= len,
{
    let mut i: usize = from;
    while i < len && !is_whitespace(char_at(s, ascii, i))
        invariant
            from <= i <= len,
            len == s@.len(),
            ascii ==> s.is_ascii(),
            skip_word(s@, from as int) == skip_word(s@, i as int),
        decreases len - i,
    {
        i += 1;
    }
    i
}

/// Reads the token out of an `Authorization` header, if the header has the
/// bearer form. The token is a single word.
pub fn bearer_token(header: &str) -> (r: Option<String>)
    ensures
        text(r) == bearer_of(header@),
        r matches Some(t) ==> is_word(t@),
{
    proof {
        lemma_bearer_is_word(header@);
    }
    let ascii = header.is_ascii();
    let len = header.unicode_len();
    let a = skip_spaces_from(header, ascii, len, 0);
    let b = skip_word_from(header, ascii, len, a);
    let c = skip_spaces_from(header, ascii, len, b);
    let d = skip_word_from(header, ascii, len, c);
    let scheme = String::from_str(part(header, ascii, a, b));
    let bearer = String::from_str("Bearer");
    if scheme == bearer && c < d {
        Some(String::from_str(part(header, ascii, c, d)))
    } else {
        None
    }
}

} // verus!
