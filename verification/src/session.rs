//! The session token as the user gives it, and the form it is sent in.

use crate::error::{ExportError, ExportErrorView};
use crate::text::{
    is_blank, is_tight, lemma_trimmed_end_skips, lemma_trimmed_is_tight, lemma_trimmed_start_skips,
    trim, trimmed, trimmed_end, trimmed_start,
};
use vstd::prelude::*;
use vstd::string::*;

verus! {

/// Whether `s` starts with `ST=` or `st=`.
pub open spec fn has_session_prefix(s: Seq<char>) -> bool {
    &&& s.len() >= 3
    &&& (s[0] == 'S' && s[1] == 'T') || (s[0] == 's' && s[1] == 't')
    &&& s[2] == '='
}

/// `s` without a leading `ST=` or `st=`.
pub open spec fn without_session_prefix(s: Seq<char>) -> Seq<char> {
    if has_session_prefix(s) {
        s.skip(3)
    } else {
        s
    }
}

/// The token that is sent: trimmed, freed of its prefix, and trimmed again.
pub open spec fn normalized_session_token(input: Seq<char>) -> Seq<char> {
    trimmed(without_session_prefix(trimmed(input)))
}

/// The prefix of a session token, in upper or in lower case.
pub open spec fn session_prefix(upper: bool) -> Seq<char> {
    if upper {
        seq!['S', 'T', '=']
    } else {
        seq!['s', 't', '=']
    }
}

/// Strips surrounding whitespace and a leading `ST=` or `st=` from a session token.
pub fn normalize_session_token(input: &str) -> (r: String)
    ensures
        r@ == normalized_session_token(input@),
        is_tight(r@),
{
    proof {
        lemma_trimmed_is_tight(without_session_prefix(trimmed(input@)));
    }
    let outer = trim(input);
    let n: usize = outer.unicode_len();
    if n >= 3 && outer.get_char(2) == '=' {
        let first = outer.get_char(0);
        let second = outer.get_char(1);
        if (first == 'S' && second == 'T') || (first == 's' && second == 't') {
            return trim(outer.substring_char(3, n)).to_owned();
        }
    }
    trim(outer).to_owned()
}

/// A token without prefix and without whitespace around it is sent as it is.
pub proof fn lemma_bare_token_unchanged(token: Seq<char>)
    requires
        is_tight(token),
        !has_session_prefix(token),
    ensures
        normalized_session_token(token) == token,
{
}

/// Whitespace around a token, and a prefix `ST=` or `st=` in front of it, are
/// stripped: what is left is the token.
pub proof fn lemma_prefixed_token_stripped(
    lead: Seq<char>,
    upper: bool,
    token: Seq<char>,
    trail: Seq<char>,
)
    requires
        is_blank(lead),
        is_blank(trail),
        is_tight(token),
    ensures
        normalized_session_token(lead + session_prefix(upper) + token + trail) == token,
{
    let marked = session_prefix(upper) + token;
    assert(lead + session_prefix(upper) + token + trail =~= lead + (marked + trail));
    lemma_trimmed_start_skips(lead, marked + trail);
    assert(trimmed_start(marked + trail) == marked + trail);
    lemma_trimmed_end_skips(marked, trail);
    assert(trimmed_end(marked) == marked);
    assert(has_session_prefix(marked));
    assert(marked.skip(3) =~= token);
}

/// Whitespace around a token without prefix is stripped: what is left is the token.
pub proof fn lemma_padded_token_stripped(lead: Seq<char>, token: Seq<char>, trail: Seq<char>)
    requires
        is_blank(lead),
        is_blank(trail),
        is_tight(token),
        !has_session_prefix(token),
    ensures
        normalized_session_token(lead + token + trail) == token,
{
    assert(lead + token + trail =~= lead + (token + trail));
    lemma_trimmed_start_skips(lead, token + trail);
    if token.len() > 0 {
        assert(trimmed_start(token + trail) == token + trail);
        lemma_trimmed_end_skips(token, trail);
    } else {
        assert(token + trail =~= trail);
        lemma_trimmed_start_skips(trail, token);
        assert(trail + token =~= trail);
    }
}

/// Passes a required input through as it is, or reports that nothing but
/// whitespace was given.
pub fn ensure_non_empty(value: String, field_name: &str) -> (r: Result<String, ExportError>)
    ensures
        match r {
            Ok(kept) => trimmed(value@).len() > 0 && kept@ == value@,
            Err(e) => trimmed(value@).len() == 0 && e@ == (ExportErrorView::EmptyField {
                field_name: field_name@,
            }),
        },
{
    if trim(value.as_str()).is_empty() {
        Err(ExportError::EmptyField { field_name: field_name.to_owned() })
    } else {
        Ok(value)
    }
}

} // verus!
