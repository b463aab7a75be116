//! Text helpers: whitespace trimming, truncation and content-type tests,
//! all stated over the sequence of characters of a string.

use vstd::prelude::*;
use vstd::string::*;

verus! {

/// Whether `c` has the Unicode property White_Space.
pub open spec fn is_space(c: char) -> bool {
    let n = c as u32;
    ||| 0x09 <= n <= 0x0d
    ||| n == 0x20
    ||| n == 0x85
    ||| n == 0xa0
    ||| n == 0x1680
    ||| 0x2000 <= n <= 0x200a
    ||| n == 0x2028
    ||| n == 0x2029
    ||| n == 0x202f
    ||| n == 0x205f
    ||| n == 0x3000
}

/// `s` without its leading whitespace.
pub open spec fn trimmed_start(s: Seq<char>) -> Seq<char>
    decreases s.len(),
{
    if s.len() > 0 && is_space(s[0]) {
        trimmed_start(s.drop_first())
    } else {
        s
    }
}

/// `s` without its trailing whitespace.
pub open spec fn trimmed_end(s: Seq<char>) -> Seq<char>
    decreases s.len(),
{
    if s.len() > 0 && is_space(s.last()) {
        trimmed_end(s.drop_last())
    } else {
        s
    }
}

/// `s` without its leading and trailing whitespace.
pub open spec fn trimmed(s: Seq<char>) -> Seq<char> {
    trimmed_end(trimmed_start(s))
}

/// A text that neither starts nor ends with whitespace.
pub open spec fn is_tight(s: Seq<char>) -> bool {
    s.len() > 0 ==> !is_space(s[0]) && !is_space(s.last())
}

/// Whether every character of `s` is whitespace.
pub open spec fn is_blank(s: Seq<char>) -> bool {
    forall|i: int| 0 <= i < s.len() ==> is_space(#[trigger] s[i])
}

pub fn is_whitespace(c: char) -> (r: bool)
    ensures
        r == is_space(c),
{
    let n: u32 = c as u32;
    (0x09 <= n && n <= 0x0d) || n == 0x20 || n == 0x85 || n == 0xa0 || n == 0x1680 || (0x2000 <= n
        && n <= 0x200a) || n == 0x2028 || n == 0x2029 || n == 0x202f || n == 0x205f || n == 0x3000
}

/// Removes leading and trailing whitespace.
pub fn trim(s: &str) -> (r: &str)
    ensures
        r@ == trimmed(s@),
{
    let n: usize = s.unicode_len();
    let mut i: usize = 0;
    assert(s@.subrange(0, n as int) =~= s@);
    while i < n && is_whitespace(s.get_char(i))
        invariant
            i <= n,
            n == s@.len(),
            trimmed_start(s@) == trimmed_start(s@.subrange(i as int, n as int)),
        decreases n - i,
    {
        proof {
            let rest = s@.subrange(i as int, n as int);
            assert(rest.drop_first() =~= s@.subrange(i + 1, n as int));
        }
        i += 1;
    }
    let ghost body = s@.subrange(i as int, n as int);
    assert(trimmed_start(s@) == body);
    let mut j: usize = n;
    while j > i && is_whitespace(s.get_char(j - 1))
        invariant
            i <= j <= n,
            n == s@.len(),
            trimmed_end(body) == trimmed_end(s@.subrange(i as int, j as int)),
        decreases j,
    {
        proof {
            let rest = s@.subrange(i as int, j as int);
            assert(rest.drop_last() =~= s@.subrange(i as int, j - 1));
        }
        j -= 1;
    }
    s.substring_char(i, j)
}

/// Trimming leaves a tight text as it is.
pub proof fn lemma_trimmed_tight(s: Seq<char>)
    requires
        is_tight(s),
    ensures
        trimmed(s) == s,
{
}

/// The result of trimming neither starts nor ends with whitespace.
pub proof fn lemma_trimmed_is_tight(s: Seq<char>)
    ensures
        is_tight(trimmed(s)),
        trimmed(trimmed(s)) == trimmed(s),
{
    lemma_trimmed_start_shape(s);
    lemma_trimmed_end_shape(trimmed_start(s));
    lemma_trimmed_tight(trimmed(s));
}

proof fn lemma_trimmed_start_shape(s: Seq<char>)
    ensures
        trimmed_start(s).len() > 0 ==> !is_space(trimmed_start(s)[0]),
    decreases s.len(),
{
    if s.len() > 0 && is_space(s[0]) {
        lemma_trimmed_start_shape(s.drop_first());
    }
}

proof fn lemma_trimmed_end_shape(s: Seq<char>)
    ensures
        trimmed_end(s).len() > 0 ==> !is_space(trimmed_end(s).last()) && trimmed_end(s)[0] == s[0],
    decreases s.len(),
{
    if s.len() > 0 && is_space(s.last()) {
        lemma_trimmed_end_shape(s.drop_last());
    }
}

/// Whitespace in front of a text does not survive trimming.
pub proof fn lemma_trimmed_start_skips(pad: Seq<char>, s: Seq<char>)
    requires
        is_blank(pad),
    ensures
        trimmed_start(pad + s) == trimmed_start(s),
    decreases pad.len(),
{
    if pad.len() > 0 {
        assert((pad + s)[0] == pad[0]);
        assert((pad + s).drop_first() =~= pad.drop_first() + s);
        lemma_trimmed_start_skips(pad.drop_first(), s);
    } else {
        assert(pad + s =~= s);
    }
}

/// Whitespace behind a text does not survive trimming.
pub proof fn lemma_trimmed_end_skips(s: Seq<char>, pad: Seq<char>)
    requires
        is_blank(pad),
    ensures
        trimmed_end(s + pad) == trimmed_end(s),
    decreases pad.len(),
{
    if pad.len() > 0 {
        assert((s + pad).last() == pad.last());
        assert((s + pad).drop_last() =~= s + pad.drop_last());
        lemma_trimmed_end_skips(s, pad.drop_last());
    } else {
        assert(s + pad =~= s);
    }
}

/// The first `max_chars` characters of `text`, or all of it where it has fewer.
pub open spec fn truncated(text: Seq<char>, max_chars: nat) -> Seq<char> {
    if text.len() <= max_chars {
        text
    } else {
        text.take(max_chars as int)
    }
}

/// Cuts `text` down to its first `max_chars` characters.
pub fn truncate(text: &str, max_chars: usize) -> (r: String)
    ensures
        r@ == truncated(text@, max_chars as nat),
{
    let n: usize = text.unicode_len();
    if n <= max_chars {
        text.to_owned()
    } else {
        text.substring_char(0, max_chars).to_owned()
    }
}

/// Whether `c` is the lower-case ASCII letter `lower` or its upper-case form.
pub open spec fn is_letter(c: char, lower: char) -> bool {
    c == lower || (c as u32) + 32 == lower as u32
}

/// Whether the letters `json`, in either case, stand at position `i` of `s`.
pub open spec fn json_at(s: Seq<char>, i: int) -> bool {
    &&& 0 <= i
    &&& i + 4 <= s.len()
    &&& is_letter(s[i], 'j')
    &&& is_letter(s[i + 1], 's')
    &&& is_letter(s[i + 2], 'o')
    &&& is_letter(s[i + 3], 'n')
}

/// Whether `s` holds the word `json` somewhere, whatever the case of its letters.
pub open spec fn mentions_json(s: Seq<char>) -> bool {
    exists|i: int| json_at(s, i)
}

fn letter_matches(c: char, lower: char) -> (r: bool)
    requires
        lower as u32 >= 32,
    ensures
        r == is_letter(c, lower),
{
    let n: u32 = c as u32;
    let m: u32 = lower as u32;
    c == lower || n == m - 32
}

/// Whether a content type names JSON: it holds `json`, case-insensitively.
pub fn is_json_content_type(content_type: &str) -> (r: bool)
    ensures
        r == mentions_json(content_type@),
{
    let n: usize = content_type.unicode_len();
    if n < 4 {
        return false;
    }
    let mut i: usize = 0;
    while i <= n - 4
        invariant
            n == content_type@.len(),
            n >= 4,
            i <= n - 3,
            forall|k: int| 0 <= k < i ==> !json_at(content_type@, k),
        decreases n - i,
    {
        if letter_matches(content_type.get_char(i), 'j') && letter_matches(
            content_type.get_char(i + 1),
            's',
        ) && letter_matches(content_type.get_char(i + 2), 'o') && letter_matches(
            content_type.get_char(i + 3),
            'n',
        ) {
            assert(json_at(content_type@, i as int));
            return true;
        }
        i += 1;
    }
    false
}

/// The content type as shown in a diagnostic: `(missing)` where there is none.
pub open spec fn shown_content_type(content_type: Seq<char>) -> Seq<char> {
    if content_type.len() == 0 {
        "(missing)"@
    } else {
        content_type
    }
}

/// The content type for a diagnostic, with a placeholder for an absent one.
pub fn display_content_type(content_type: &str) -> (r: &str)
    ensures
        r@ == shown_content_type(content_type@),
{
    if content_type.unicode_len() == 0 {
        "(missing)"
    } else {
        content_type
    }
}

} // verus!
