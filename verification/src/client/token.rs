//! The bearer token of a client.
use vstd::prelude::*;

use crate::client::reply::optional_text;
use crate::text::{begins_with, starts_with, trim, trimmed, trimmed_end, trimmed_start, white_space};

verus! {

/// The name of the scheme stands in front, in one of its two spellings.
pub open spec fn names_scheme(text: Seq<char>) -> bool {
    begins_with(text, "Bearer "@) || begins_with(text, "bearer "@)
}

/// `text` after the name of the scheme has been taken off its front as often as it stands there.
pub open spec fn without_scheme(text: Seq<char>) -> Seq<char>
    decreases text.len(),
{
    if text.len() >= 7 && names_scheme(text) {
        without_scheme(text.skip(7))
    } else {
        text
    }
}

/// The token without surrounding white space and without the name of the scheme in front.
pub open spec fn bare_token(token: Seq<char>) -> Seq<char> {
    without_scheme(trimmed(token))
}

/// The token that is kept of the one that was given; a blank one is dropped.
pub open spec fn token_kept(given: Option<Seq<char>>) -> Option<Seq<char>> {
    match given {
        Some(token) => if bare_token(token).len() == 0 {
            None
        } else {
            Some(bare_token(token))
        },
        None => None,
    }
}

/// `text` after the name of the scheme has been taken off its front as often as it stands there.
fn strip_scheme(text: &str) -> (r: String)
    ensures
        r@ == without_scheme(text@),
{
    proof {
        reveal_strlit("Bearer ");
        reveal_strlit("bearer ");
        assert("Bearer "@.len() == 7);
        assert("bearer "@.len() == 7);
    }
    let n: usize = text.unicode_len();
    let mut from: usize = 0;
    assert(text@.subrange(0, n as int) =~= text@);
    while starts_with(text.substring_char(from, n), "Bearer ") || starts_with(
        text.substring_char(from, n),
        "bearer ",
    )
        invariant
            n == text@.len(),
            from <= n,
            "Bearer "@.len() == 7,
            "bearer "@.len() == 7,
            without_scheme(text@) == without_scheme(text@.subrange(from as int, n as int)),
        decreases n - from,
    {
        assert(text@.subrange(from as int, n as int).skip(7) =~= text@.subrange(
            from + 7,
            n as int,
        ));
        from = from + 7;
    }
    text.substring_char(from, n).to_owned()
}

/// The token that is kept of the one that was given.
pub fn keep_token(given: Option<String>) -> (r: Option<String>)
    ensures
        optional_text(r) == token_kept(optional_text(given)),
{
    match given {
        Some(token) => {
            let token = strip_scheme(trim(token.as_str()).as_str());
            if token.as_str().is_empty() {
                None
            } else {
                Some(token)
            }
        },
        None => None,
    }
}

proof fn lemma_trimmed_end(text: Seq<char>)
    ensures
        trimmed_end(text).len() > 0 ==> !white_space(trimmed_end(text).last()),
    decreases text.len(),
{
    if text.len() > 0 && white_space(text.last()) {
        lemma_trimmed_end(text.drop_last());
    }
}

proof fn lemma_without_scheme(text: Seq<char>)
    ensures
        !names_scheme(without_scheme(text)),
        text.len() > 0 && !white_space(text.last()) ==> without_scheme(text).len() > 0,
    decreases text.len(),
{
    reveal_strlit("Bearer ");
    reveal_strlit("bearer ");
    if text.len() >= 7 && names_scheme(text) {
        let front = text.subrange(0, 7);
        assert(front == "Bearer "@ || front == "bearer "@);
        assert(front[6] == ' ');
        assert(text[6] == ' ');
        lemma_without_scheme(text.skip(7));
        if !white_space(text.last()) {
            assert(text.len() > 7);
            assert(text.skip(7).last() == text.last());
        }
    }
}

/// A token is kept exactly where the given one is not blank, so that taking the scheme off never
/// leaves an empty token.
pub proof fn law_token_kept_unless_blank(token: Seq<char>)
    ensures
        token_kept(Some(token)) is Some <==> trimmed(token).len() > 0,
{
    lemma_trimmed_end(trimmed_start(token));
    lemma_without_scheme(trimmed(token));
}

/// The token that is kept has the name of the scheme in front in neither of its spellings, so that
/// the scheme is never sent twice.
pub proof fn law_token_kept_without_scheme(token: Seq<char>)
    ensures
        token_kept(Some(token)) matches Some(kept) ==> !begins_with(kept, "Bearer "@)
            && !begins_with(kept, "bearer "@),
{
    lemma_without_scheme(trimmed(token));
}

/// One more name of the scheme in front, in either spelling, changes nothing, and a text without it
/// in front is left as it is.
pub proof fn law_scheme_is_taken_off(text: Seq<char>)
    ensures
        without_scheme("Bearer "@ + text) == without_scheme(text),
        without_scheme("bearer "@ + text) == without_scheme(text),
        !begins_with(text, "Bearer "@) && !begins_with(text, "bearer "@) ==> without_scheme(text)
            == text,
{
    reveal_strlit("Bearer ");
    reveal_strlit("bearer ");
    let upper = "Bearer "@ + text;
    let small = "bearer "@ + text;
    assert(upper.subrange(0, 7) =~= "Bearer "@);
    assert(small.subrange(0, 7) =~= "bearer "@);
    assert(upper.skip(7) =~= text);
    assert(small.skip(7) =~= text);
    assert(begins_with(upper, "Bearer "@));
    assert(begins_with(small, "bearer "@));
}

/// A token is kept as it was given, but for white space around it and names of the scheme in front.
pub proof fn law_token_is_kept_as_given(token: Seq<char>)
    ensures
        token_kept(None) is None,
        trimmed(token).len() > 0 ==> token_kept(Some(token)) == Some(
            without_scheme(trimmed(token)),
        ),
        trimmed(token).len() == 0 ==> token_kept(Some(token)) is None,
{
    law_token_kept_unless_blank(token);
}

} // verus!
