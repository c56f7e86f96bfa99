//! Splitting a text into tokens at whitespace.

use vstd::prelude::*;
use crate::text::to_chars;

verus! {

/// Whether `c` has the Unicode property White_Space, as `char::is_whitespace`
/// answers it.
pub uninterp spec fn is_white_space(c: char) -> bool;

/// `char::is_whitespace` says whether the character has the Unicode property
/// White_Space; the answer depends on the character alone.
pub assume_specification[ char::is_whitespace ](c: char) -> (b: bool)
    ensures
        b == is_white_space(c),
;

/// Whether the flags `sep` mark the character at `i` as a separator. A
/// character without a flag is none.
pub open spec fn separates(sep: Seq<bool>, i: int) -> bool {
    0 <= i < sep.len() && sep[i]
}

/// The tokens of `s` when `sep` flags the characters that separate tokens:
/// the runs of characters that are not flagged, in order. Read from left to
/// right, a separator adds nothing; any other character extends the last
/// token when the character before it belongs to that token, and begins a
/// new token otherwise.
pub open spec fn tokens_where(s: Seq<char>, sep: Seq<bool>) -> Seq<Seq<char>>
    decreases s.len(),
{
    if s.len() == 0 {
        Seq::empty()
    } else {
        let before = tokens_where(s.drop_last(), sep);
        if separates(sep, s.len() - 1) {
            before
        } else if s.len() >= 2 && !separates(sep, s.len() - 2) {
            before.drop_last().push(before.last().push(s.last()))
        } else {
            before.push(seq![s.last()])
        }
    }
}

/// For each character of `s`, whether it is whitespace.
pub open spec fn white_space_flags(s: Seq<char>) -> Seq<bool> {
    s.map_values(|c: char| is_white_space(c))
}

/// The tokens of `s`: its runs of characters that are not whitespace.
pub open spec fn tokens(s: Seq<char>) -> Seq<Seq<char>> {
    tokens_where(s, white_space_flags(s))
}

/// The views of the slices in `v`.
pub open spec fn texts(v: Seq<&str>) -> Seq<Seq<char>> {
    v.map_values(|t: &str| t@)
}

/// Splits `s` at the characters that `sep` flags, as many of them as there
/// are between two tokens.
pub fn split_where<'a>(s: &'a str, sep: &Vec<bool>) -> (out: Vec<&'a str>)
    ensures
        texts(out@) == tokens_where(s@, sep@),
{
    let n = s.unicode_len();
    let mut out: Vec<&str> = Vec::new();
    let mut start: usize = 0;
    let mut i: usize = 0;
    while i < n
        invariant
            n == s@.len(),
            start <= i <= n,
            i > 0 && !separates(sep@, i - 1) ==> start < i && tokens_where(
                s@.take(i as int),
                sep@,
            ) == texts(out@).push(s@.subrange(start as int, i as int)),
            i == 0 || separates(sep@, i - 1) ==> start == i && tokens_where(
                s@.take(i as int),
                sep@,
            ) == texts(out@),
        decreases n - i,
    {
        let in_token = i > 0 && !(i - 1 < sep.len() && sep[i - 1]);
        assert(s@.take(i + 1).drop_last() =~= s@.take(i as int));
        if i < sep.len() && sep[i] {
            if in_token {
                let token = s.substring_char(start, i);
                out.push(token);
            }
            start = i + 1;
        } else {
            proof {
                if in_token {
                    let before = tokens_where(s@.take(i as int), sep@);
                    assert(before.last().push(s@[i as int]) =~= s@.subrange(start as int, i + 1));
                } else {
                    assert(seq![s@[i as int]] =~= s@.subrange(start as int, i + 1));
                }
            }
        }
        i += 1;
    }
    assert(s@.take(n as int) =~= s@);
    if n > 0 && !(n - 1 < sep.len() && sep[n - 1]) {
        let token = s.substring_char(start, n);
        out.push(token);
    }
    out
}

/// Flags the whitespace of `s`, character by character.
pub fn flag_whitespace(s: &str) -> (flags: Vec<bool>)
    ensures
        flags@ == white_space_flags(s@),
{
    let chars = to_chars(s);
    let mut flags: Vec<bool> = Vec::new();
    let mut i: usize = 0;
    while i < chars.len()
        invariant
            i <= chars@.len(),
            chars@ == s@,
            flags@ == white_space_flags(s@.take(i as int)),
        decreases chars@.len() - i,
    {
        flags.push(chars[i].is_whitespace());
        i += 1;
    }
    flags
}

/// Splits `s` at whitespace, as many whitespace characters as there are
/// between two tokens.
pub fn split_whitespace(s: &str) -> (out: Vec<&str>)
    ensures
        texts(out@) == tokens(s@),
{
    let flags = flag_whitespace(s);
    split_where(s, &flags)
}

/// Flags beyond the end of the text, and flags that differ only there, have
/// no part in its tokens.
pub proof fn lemma_tokens_read_flags_of_text(s: Seq<char>, a: Seq<bool>, b: Seq<bool>)
    requires
        forall|i: int| 0 <= i < s.len() ==> separates(a, i) == separates(b, i),
    ensures
        tokens_where(s, a) == tokens_where(s, b),
    decreases s.len(),
{
    if s.len() > 0 {
        lemma_tokens_read_flags_of_text(s.drop_last(), a, b);
    }
}

/// The tokens of a text follow from the tokens of the text without its last
/// character: whitespace adds nothing, any other character extends the last
/// token or begins a new one.
pub proof fn lemma_tokens_step(s: Seq<char>)
    requires
        s.len() > 0,
    ensures
        tokens(s) == (if is_white_space(s.last()) {
            tokens(s.drop_last())
        } else if s.len() >= 2 && !is_white_space(s[s.len() - 2]) {
            tokens(s.drop_last()).drop_last().push(tokens(s.drop_last()).last().push(s.last()))
        } else {
            tokens(s.drop_last()).push(seq![s.last()])
        }),
{
    lemma_tokens_read_flags_of_text(
        s.drop_last(),
        white_space_flags(s),
        white_space_flags(s.drop_last()),
    );
}

/// Whether `t` can be a token: at least one character, none of them
/// whitespace.
pub open spec fn is_token(t: Seq<char>) -> bool {
    t.len() > 0 && forall|j: int| 0 <= j < t.len() ==> !is_white_space(#[trigger] t[j])
}

/// Every token holds at least one character and no whitespace, and a text
/// that ends with a character other than whitespace ends with its last token.
pub proof fn lemma_tokens_hold_no_whitespace(s: Seq<char>)
    ensures
        forall|i: int| 0 <= i < tokens(s).len() ==> is_token(#[trigger] tokens(s)[i]),
        s.len() > 0 && !is_white_space(s.last()) ==> tokens(s).len() > 0 && tokens(
            s,
        ).last().last() == s.last(),
    decreases s.len(),
{
    if s.len() > 0 {
        lemma_tokens_hold_no_whitespace(s.drop_last());
        lemma_tokens_step(s);
    }
}

/// A text that can be a token is its own and only token.
pub proof fn lemma_token_is_its_own_token(t: Seq<char>)
    requires
        is_token(t),
    ensures
        tokens(t) == seq![t],
    decreases t.len(),
{
    lemma_tokens_step(t);
    if t.len() == 1 {
        assert(seq![t.last()] =~= t);
    } else {
        let head = t.drop_last();
        lemma_token_is_its_own_token(head);
        assert(head.push(t.last()) =~= t);
    }
}

} // verus!
