//! Keeping bearer tokens out of the log file.
use vstd::prelude::*;

use crate::text::{is_white_space, lower, lower_char, lowercase, same_text, white_space};

verus! {

/// Name of the scheme that a token follows, in lower case and with the space behind it.
pub const SCHEME: &'static str = "bearer ";

/// What stands in the log in place of a token.
pub const MASK: &'static str = "****";

/// Where in a line the masking is.
#[derive(Clone, Copy, PartialEq, Eq, Structural, Debug)]
pub enum Place {
    /// Outside of a token.
    Outside,
    /// Behind the name of the scheme, where a token is to follow.
    Before,
    /// Within a token.
    Within,
}

/// `text` begins with the name of the scheme, in upper or lower case.
pub open spec fn begins_with_scheme(text: Seq<char>) -> bool {
    text.len() >= 7 && lower(text.take(7)) == SCHEME@
}

/// What is written for the name of the scheme at `place`: the name where it stands outside of a
/// token, and only the space behind it where its letters belong to one.
pub open spec fn scheme_written(name: Seq<char>, place: Place) -> Seq<char> {
    match place {
        Place::Outside => name,
        Place::Before => MASK@ + " "@,
        Place::Within => " "@,
    }
}

/// `text` with every token masked, where it continues a line at `place`. A token is what stands
/// behind the name of the scheme up to the next white space. Where it ends with the letters of the
/// name and a space follows, what comes next is a token too.
pub open spec fn redacted(text: Seq<char>, place: Place) -> Seq<char>
    decreases text.len(),
{
    if text.len() == 0 {
        Seq::empty()
    } else if begins_with_scheme(text) {
        scheme_written(text.take(7), place) + redacted(text.skip(7), Place::Before)
    } else if white_space(text[0]) {
        seq![text[0]] + redacted(
            text.skip(1),
            if place is Before {
                Place::Before
            } else {
                Place::Outside
            },
        )
    } else {
        match place {
            Place::Outside => seq![text[0]] + redacted(text.skip(1), Place::Outside),
            Place::Before => MASK@ + redacted(text.skip(1), Place::Within),
            Place::Within => redacted(text.skip(1), Place::Within),
        }
    }
}

/// `line` with every bearer token masked.
pub fn redact_bearer(line: &str) -> (r: String)
    ensures
        r@ == redacted(line@, Place::Outside),
{
    let n: usize = line.unicode_len();
    let mut at: usize = 0;
    let mut place = Place::Outside;
    let mut out = String::new();
    assert(line@.skip(0) =~= line@);
    assert(redacted(line@, Place::Outside) =~= out@ + redacted(line@.skip(0), place));
    while at < n
        invariant
            n == line@.len(),
            at <= n,
            redacted(line@, Place::Outside) == out@ + redacted(line@.skip(at as int), place),
        decreases n - at,
    {
        let ghost rest = line@.skip(at as int);
        let ghost before = out@;
        let named: bool = if n - at >= 7 {
            let front = line.substring_char(at, at + 7);
            assert(front@ =~= rest.take(7));
            same_text(lowercase(front).as_str(), SCHEME)
        } else {
            false
        };
        if named {
            assert(line@.subrange(at as int, at + 7) =~= rest.take(7));
            assert(rest.skip(7) =~= line@.skip(at + 7));
            match place {
                Place::Outside => {
                    out.append(line.substring_char(at, at + 7));
                },
                Place::Before => {
                    out.append(MASK);
                    out.append(" ");
                },
                Place::Within => {
                    out.append(" ");
                },
            }
            assert(out@ =~= before + scheme_written(rest.take(7), place));
            assert(before + (scheme_written(rest.take(7), place) + redacted(
                rest.skip(7),
                Place::Before,
            )) =~= out@ + redacted(line@.skip(at + 7), Place::Before));
            place = Place::Before;
            at = at + 7;
        } else {
            let c = line.get_char(at);
            assert(rest[0] == c);
            assert(rest.skip(1) =~= line@.skip(at + 1));
            assert(line@.subrange(at as int, at + 1) =~= seq![c]);
            if is_white_space(c) {
                out.append(line.substring_char(at, at + 1));
                if place != Place::Before {
                    place = Place::Outside;
                }
                assert(before + (seq![c] + redacted(rest.skip(1), place)) =~= out@ + redacted(
                    line@.skip(at + 1),
                    place,
                ));
            } else {
                match place {
                    Place::Outside => {
                        out.append(line.substring_char(at, at + 1));
                        assert(before + (seq![c] + redacted(rest.skip(1), place)) =~= out@
                            + redacted(line@.skip(at + 1), place));
                    },
                    Place::Before => {
                        out.append(MASK);
                        place = Place::Within;
                        assert(before + (MASK@ + redacted(rest.skip(1), place)) =~= out@
                            + redacted(line@.skip(at + 1), place));
                    },
                    Place::Within => {},
                }
            }
            at = at + 1;
        }
    }
    assert(line@.skip(n as int) =~= Seq::<char>::empty());
    assert(out@ + Seq::<char>::empty() =~= out@);
    out
}

/// A text that can stand where a token is expected: it is not empty and holds no white space.
pub open spec fn token_text(token: Seq<char>) -> bool {
    &&& token.len() > 0
    &&& forall|i: int| 0 <= i < token.len() ==> !white_space(#[trigger] token[i])
}

/// The text ends here or goes on with white space.
pub open spec fn ends_token(rest: Seq<char>) -> bool {
    rest.len() == 0 || white_space(rest[0])
}

/// Where the line is behind a token that ends before `rest`: before another token where the token
/// ends with the letters of the scheme's name and a space follows, else outside.
pub open spec fn place_behind(token: Seq<char>, rest: Seq<char>) -> Place {
    if token.len() >= 6 && lower(token.skip(token.len() - 6)) == "bearer"@ && rest.len() > 0
        && rest[0] == ' ' {
        Place::Before
    } else {
        Place::Outside
    }
}

proof fn lemma_scheme_letters(text: Seq<char>)
    requires
        begins_with_scheme(text),
    ensures
        SCHEME@.len() == 7,
        forall|i: int| 0 <= i < 7 ==> lower_char(#[trigger] text[i]) == SCHEME@[i],
        forall|i: int| 0 <= i < 6 ==> !white_space(#[trigger] text[i]),
        text[6] == ' ',
{
    reveal_strlit("bearer ");
    let front = text.take(7);
    assert forall|i: int| 0 <= i < 7 implies lower_char(#[trigger] text[i]) == SCHEME@[i] by {
        assert(lower(front)[i] == lower_char(front[i]));
    }
    assert(lower_char(text[6]) == ' ');
}

/// The name of the scheme begins within a token only where the token ends with its letters and a
/// space follows.
proof fn lemma_scheme_in_token(token: Seq<char>, rest: Seq<char>, from: int)
    requires
        token_text(token),
        ends_token(rest),
        0 <= from < token.len(),
    ensures
        begins_with_scheme((token + rest).skip(from)) <==> {
            &&& from == token.len() - 6
            &&& place_behind(token, rest) is Before
        },
{
    let text = (token + rest).skip(from);
    let left = token.len() - from;
    reveal_strlit("bearer ");
    reveal_strlit("bearer");
    if begins_with_scheme(text) {
        lemma_scheme_letters(text);
        if left > 6 {
            assert(text[6] == token[from + 6]);
            assert(!white_space(token[from + 6]));
        } else if left < 6 {
            assert(rest.len() > 0);
            assert(text[left] == rest[0]);
            assert(white_space(text[left]));
        } else {
            let tail = token.skip(token.len() - 6);
            assert forall|i: int| 0 <= i < 6 implies lower(tail)[i] == "bearer"@[i] by {
                assert(tail[i] == text[i]);
                assert(lower_char(text[i]) == SCHEME@[i]);
            }
            assert(lower(tail) =~= "bearer"@);
            assert(text[6] == rest[0]);
        }
    }
    if left == 6 && place_behind(token, rest) is Before {
        let tail = token.skip(token.len() - 6);
        assert(text.take(7) =~= tail + seq![' ']);
        assert forall|i: int| 0 <= i < 7 implies lower(text.take(7))[i] == SCHEME@[i] by {
            if i < 6 {
                assert(lower(tail)[i] == "bearer"@[i]);
                assert(text.take(7)[i] == tail[i]);
            } else {
                assert(text.take(7)[6] == ' ');
            }
        }
        assert(lower(text.take(7)) =~= SCHEME@);
    }
}

/// What is written of a line from somewhere within a token on.
proof fn lemma_rest_of_token(token: Seq<char>, rest: Seq<char>, from: int)
    requires
        token_text(token),
        ends_token(rest),
        0 <= from <= token.len(),
        place_behind(token, rest) is Before ==> from <= token.len() - 6,
    ensures
        redacted((token + rest).skip(from), Place::Within) == redacted(
            rest,
            place_behind(token, rest),
        ),
    decreases token.len() - from,
{
    let text = (token + rest).skip(from);
    if from == token.len() {
        assert(text =~= rest);
        lemma_behind(rest);
    } else {
        lemma_scheme_in_token(token, rest, from);
        assert(text[0] == token[from]);
        assert(!white_space(token[from]));
        if begins_with_scheme(text) {
            assert(text.skip(6) =~= rest);
            lemma_space_behind(text, rest);
        } else {
            lemma_rest_of_token(token, rest, from + 1);
            assert(text.skip(1) =~= (token + rest).skip(from + 1));
        }
    }
}

/// What ends a token does not begin with the name of the scheme.
proof fn lemma_behind(rest: Seq<char>)
    requires
        ends_token(rest),
    ensures
        !begins_with_scheme(rest),
        redacted(rest, Place::Within) == redacted(rest, Place::Outside),
{
    if begins_with_scheme(rest) {
        lemma_scheme_letters(rest);
        assert(!white_space(rest[0]));
    }
}

/// The space that belongs to the name of the scheme is also the white space that ends the token.
proof fn lemma_space_behind(text: Seq<char>, rest: Seq<char>)
    requires
        begins_with_scheme(text),
        ends_token(rest),
        rest.len() > 0,
        rest[0] == ' ',
        text.skip(6) == rest,
    ensures
        " "@ + redacted(text.skip(7), Place::Before) == redacted(rest, Place::Before),
{
    lemma_behind(rest);
    reveal_strlit(" ");
    assert(" "@ =~= seq![' ']);
    assert(text.skip(7) =~= rest.skip(1));
}

/// A token behind the name of the scheme is masked, whatever it is.
proof fn lemma_token_is_masked(token: Seq<char>, rest: Seq<char>)
    requires
        token_text(token),
        ends_token(rest),
    ensures
        redacted(token + rest, Place::Before) == MASK@ + redacted(rest, place_behind(token, rest)),
{
    let text = token + rest;
    assert(text.skip(0) =~= text);
    lemma_scheme_in_token(token, rest, 0);
    assert(text[0] == token[0]);
    assert(!white_space(token[0]));
    if begins_with_scheme(text) {
        assert(text.skip(6) =~= rest);
        lemma_space_behind(text, rest);
        assert(MASK@ + " "@ + redacted(text.skip(7), Place::Before) =~= MASK@ + (" "@ + redacted(
            text.skip(7),
            Place::Before,
        )));
    } else {
        lemma_rest_of_token(token, rest, 1);
    }
}

proof fn lemma_scheme_before(before: Seq<char>, scheme: Seq<char>, after: Seq<char>)
    requires
        scheme.len() == 7,
        lower(scheme) == SCHEME@,
        0 < before.len() < 7,
    ensures
        !begins_with_scheme(before + scheme + after),
{
    let text = before + scheme + after;
    if begins_with_scheme(text) {
        lemma_scheme_letters(text);
        assert(scheme.take(7) =~= scheme);
        lemma_scheme_letters(scheme);
        let k = 6 - before.len();
        assert(text[6] == scheme[k]);
        assert(!white_space(scheme[k]));
    }
}

/// What is written up to the name of a scheme does not depend on what follows, and behind it a token
/// is expected.
proof fn lemma_split_at_scheme(
    before: Seq<char>,
    scheme: Seq<char>,
    after: Seq<char>,
    place: Place,
)
    requires
        scheme.len() == 7,
        lower(scheme) == SCHEME@,
    ensures
        redacted(before + scheme + after, place) == redacted(before + scheme, place) + redacted(
            after,
            Place::Before,
        ),
    decreases before.len(),
{
    let whole = before + scheme + after;
    let front = before + scheme;
    let rest = redacted(after, Place::Before);
    if before.len() == 0 {
        assert(whole.take(7) =~= scheme);
        assert(whole.skip(7) =~= after);
        assert(front.take(7) =~= scheme);
        assert(front.skip(7) =~= Seq::<char>::empty());
        assert(redacted(front.skip(7), Place::Before) =~= Seq::<char>::empty());
        assert(redacted(front, place) =~= scheme_written(scheme, place));
    } else {
        if before.len() < 7 {
            lemma_scheme_before(before, scheme, after);
            lemma_scheme_before(before, scheme, Seq::empty());
            assert(before + scheme + Seq::<char>::empty() =~= front);
        } else {
            assert(whole.take(7) =~= before.take(7));
            assert(front.take(7) =~= before.take(7));
        }
        assert(begins_with_scheme(whole) == begins_with_scheme(front));
        if begins_with_scheme(whole) {
            assert(whole.skip(7) =~= before.skip(7) + scheme + after);
            assert(front.skip(7) =~= before.skip(7) + scheme);
            lemma_split_at_scheme(before.skip(7), scheme, after, Place::Before);
            assert(redacted(whole, place) =~= redacted(front, place) + rest);
        } else {
            assert(whole[0] == before[0]);
            assert(front[0] == before[0]);
            assert(whole.skip(1) =~= before.skip(1) + scheme + after);
            assert(front.skip(1) =~= before.skip(1) + scheme);
            lemma_split_at_scheme(before.skip(1), scheme, after, Place::Outside);
            lemma_split_at_scheme(before.skip(1), scheme, after, Place::Before);
            lemma_split_at_scheme(before.skip(1), scheme, after, Place::Within);
            assert(redacted(whole, place) =~= redacted(front, place) + rest);
        }
    }
}

/// No token gets into the log: wherever in a line the name of the scheme stands, in upper or lower
/// case, the whole of whatever token follows is written as the mask, between what is written of the
/// line before it and what is written of the line behind it.
pub proof fn law_tokens_are_masked(
    before: Seq<char>,
    scheme: Seq<char>,
    token: Seq<char>,
    rest: Seq<char>,
    place: Place,
)
    requires
        scheme.len() == 7,
        lower(scheme) == SCHEME@,
        token_text(token),
        ends_token(rest),
    ensures
        redacted(before + scheme + token + rest, place) == redacted(before + scheme, place) + MASK@
            + redacted(rest, place_behind(token, rest)),
{
    assert(before + scheme + token + rest =~= before + scheme + (token + rest));
    lemma_split_at_scheme(before, scheme, token + rest, place);
    lemma_token_is_masked(token, rest);
    assert(redacted(before + scheme, place) + (MASK@ + redacted(rest, place_behind(token, rest)))
        =~= redacted(before + scheme, place) + MASK@ + redacted(rest, place_behind(token, rest)));
}

/// A line in which the name of the scheme does not occur is written as it is.
pub proof fn law_other_text_is_kept(text: Seq<char>)
    requires
        forall|i: int| 0 <= i < text.len() ==> !begins_with_scheme(#[trigger] text.skip(i)),
    ensures
        redacted(text, Place::Outside) == text,
    decreases text.len(),
{
    if text.len() > 0 {
        assert(text.skip(0) =~= text);
        let rest = text.skip(1);
        assert forall|i: int| 0 <= i < rest.len() implies !begins_with_scheme(
            #[trigger] rest.skip(i),
        ) by {
            assert(rest.skip(i) =~= text.skip(i + 1));
        }
        law_other_text_is_kept(rest);
        assert(seq![text[0]] + rest =~= text);
    }
}

/// The name of the scheme stands in front exactly where the first seven characters are `bearer ` in
/// lower case, and what is written for a token is `****`.
pub proof fn law_scheme_and_mask(text: Seq<char>)
    ensures
        begins_with_scheme(text) <==> text.len() >= 7 && lower(text.take(7)) == "bearer "@,
        MASK@ == "****"@,
{
}

/// What stands between the name of the scheme and the token is written as it is, where it is white
/// space, and so is white space behind a token.
pub proof fn law_white_space_is_kept(c: char, rest: Seq<char>)
    requires
        white_space(c),
    ensures
        redacted(seq![c] + rest, Place::Before) == seq![c] + redacted(rest, Place::Before),
        redacted(seq![c] + rest, Place::Within) == seq![c] + redacted(rest, Place::Outside),
        redacted(seq![c] + rest, Place::Outside) == seq![c] + redacted(rest, Place::Outside),
{
    let text = seq![c] + rest;
    assert(text[0] == c);
    assert(text.skip(1) =~= rest);
    if begins_with_scheme(text) {
        lemma_scheme_letters(text);
        assert(!white_space(text[0]));
    }
}

/// The name of the scheme does not occur in `text`.
pub open spec fn no_scheme(text: Seq<char>) -> bool {
    forall|i: int| 0 <= i < text.len() ==> !begins_with_scheme(#[trigger] text.skip(i))
}

proof fn lemma_front_is_kept(before: Seq<char>, scheme: Seq<char>)
    requires
        no_scheme(before),
        scheme.len() == 7,
        lower(scheme) == SCHEME@,
    ensures
        redacted(before + scheme, Place::Outside) == before + scheme,
    decreases before.len(),
{
    let text = before + scheme;
    if before.len() == 0 {
        assert(text =~= scheme);
        assert(scheme.take(7) =~= scheme);
        assert(scheme.skip(7) =~= Seq::<char>::empty());
        assert(redacted(scheme.skip(7), Place::Before) =~= Seq::<char>::empty());
    } else {
        assert(before.skip(0) =~= before);
        assert(!begins_with_scheme(before.skip(0)));
        if before.len() < 7 {
            lemma_scheme_before(before, scheme, Seq::empty());
            assert(before + scheme + Seq::<char>::empty() =~= text);
        } else {
            assert(text.take(7) =~= before.take(7));
        }
        assert(!begins_with_scheme(text));
        let rest = before.skip(1);
        assert forall|i: int| 0 <= i < rest.len() implies !begins_with_scheme(
            #[trigger] rest.skip(i),
        ) by {
            assert(rest.skip(i) =~= before.skip(i + 1));
        }
        lemma_front_is_kept(rest, scheme);
        assert(text.skip(1) =~= rest + scheme);
        assert(seq![text[0]] + (rest + scheme) =~= text);
    }
}

/// In a line that names the scheme once, in front of a token, the token is replaced by the mask and
/// everything else is kept.
pub proof fn law_only_the_token_is_replaced(
    before: Seq<char>,
    scheme: Seq<char>,
    token: Seq<char>,
    rest: Seq<char>,
)
    requires
        no_scheme(before),
        scheme.len() == 7,
        lower(scheme) == "bearer "@,
        token_text(token),
        ends_token(rest),
        no_scheme(rest),
        !(place_behind(token, rest) is Before),
    ensures
        redacted(before + scheme + token + rest, Place::Outside) == before + scheme + "****"@ + rest,
{
    law_tokens_are_masked(before, scheme, token, rest, Place::Outside);
    lemma_front_is_kept(before, scheme);
    law_other_text_is_kept(rest);
}

/// What counts as a token: any characters but white space, up to white space or the end. Behind it
/// another token is expected exactly where its last letters and the space name the scheme.
pub proof fn law_token_and_its_end(token: Seq<char>, rest: Seq<char>)
    ensures
        token_text(token) <==> token.len() > 0 && forall|i: int|
            0 <= i < token.len() ==> !white_space(#[trigger] token[i]),
        ends_token(rest) <==> rest.len() == 0 || white_space(rest[0]),
        token_text(token) && ends_token(rest) ==> (place_behind(token, rest) is Before
            <==> exists|at: int| 0 <= at < token.len() && begins_with_scheme(
            #[trigger] (token + rest).skip(at),
        )),
        !(place_behind(token, rest) is Before) ==> place_behind(token, rest) is Outside,
{
    if token_text(token) && ends_token(rest) {
        assert forall|at: int| 0 <= at < token.len() && begins_with_scheme(
            #[trigger] (token + rest).skip(at),
        ) implies place_behind(token, rest) is Before by {
            lemma_scheme_in_token(token, rest, at);
        }
        if place_behind(token, rest) is Before {
            let at = token.len() - 6;
            lemma_scheme_in_token(token, rest, at);
            assert(begins_with_scheme((token + rest).skip(at)));
        }
    }
}

} // verus!
