//! Operations on text that the protocol code needs, stated over sequences of characters.
use vstd::prelude::*;

verus! {

/// The character that stands for one decimal digit.
pub open spec fn digit_char(d: int) -> char {
    ('0' as int + d) as char
}

/// Decimal notation of a natural number, without leading zeros.
pub open spec fn digits(n: nat) -> Seq<char>
    decreases n,
{
    if n < 10 {
        seq![digit_char(n as int)]
    } else {
        digits(n / 10).push(digit_char((n % 10) as int))
    }
}

/// Decimal notation of an integer, with a leading minus sign where it is negative.
pub open spec fn decimal(n: int) -> Seq<char> {
    if n < 0 {
        seq!['-'] + digits((-n) as nat)
    } else {
        digits(n as nat)
    }
}

/// Every character of a natural number's notation is a digit, and there is at least one.
pub proof fn lemma_digits_are_digits(n: nat)
    ensures
        digits(n).len() >= 1,
        forall|i: int| 0 <= i < digits(n).len() ==> '0' <= #[trigger] digits(n)[i] <= '9',
    decreases n,
{
    if n >= 10 {
        lemma_digits_are_digits(n / 10);
    }
}

/// Two natural numbers with the same notation are equal.
pub proof fn lemma_digits_injective(a: nat, b: nat)
    requires
        digits(a) == digits(b),
    ensures
        a == b,
    decreases a,
{
    lemma_digits_are_digits(a / 10);
    lemma_digits_are_digits(b / 10);
    assert(digits(a).last() == digit_char((a % 10) as int));
    assert(digits(b).last() == digit_char((b % 10) as int));
    assert(digit_char((a % 10) as int) as int == '0' as int + a % 10);
    assert(digit_char((b % 10) as int) as int == '0' as int + b % 10);
    if a >= 10 && b >= 10 {
        assert(digits(a).drop_last() =~= digits(a / 10));
        assert(digits(b).drop_last() =~= digits(b / 10));
        lemma_digits_injective(a / 10, b / 10);
    }
}

/// Two integers with the same decimal notation are equal.
pub proof fn lemma_decimal_injective(a: int, b: int)
    requires
        decimal(a) == decimal(b),
    ensures
        a == b,
{
    if a < 0 && b < 0 {
        assert(decimal(a).drop_first() =~= digits((-a) as nat));
        assert(decimal(b).drop_first() =~= digits((-b) as nat));
        lemma_digits_injective((-a) as nat, (-b) as nat);
    } else if a >= 0 && b >= 0 {
        lemma_digits_injective(a as nat, b as nat);
    } else if a < 0 {
        lemma_digits_are_digits(b as nat);
        assert(decimal(a)[0] == '-');
        assert(decimal(b)[0] >= '0');
    } else {
        lemma_digits_are_digits(a as nat);
        assert(decimal(b)[0] == '-');
        assert(decimal(a)[0] >= '0');
    }
}

/// `needle` occurs in `text` at position `at`.
pub open spec fn occurs_at(text: Seq<char>, needle: Seq<char>, at: int) -> bool {
    &&& 0 <= at
    &&& at + needle.len() <= text.len()
    &&& text.subrange(at, at + needle.len()) == needle
}

/// `text` begins with `prefix`.
pub open spec fn begins_with(text: Seq<char>, prefix: Seq<char>) -> bool {
    occurs_at(text, prefix, 0)
}

/// `needle` occurs somewhere in `text`.
pub open spec fn holds_text(text: Seq<char>, needle: Seq<char>) -> bool {
    exists|at: int| occurs_at(text, needle, at)
}

/// The Unicode property `White_Space`.
pub open spec fn white_space(c: char) -> bool {
    ||| '\u{9}' <= c <= '\u{d}'
    ||| c == '\u{20}'
    ||| c == '\u{85}'
    ||| c == '\u{a0}'
    ||| c == '\u{1680}'
    ||| '\u{2000}' <= c <= '\u{200a}'
    ||| c == '\u{2028}'
    ||| c == '\u{2029}'
    ||| c == '\u{202f}'
    ||| c == '\u{205f}'
    ||| c == '\u{3000}'
}

/// `text` without its leading white space.
pub open spec fn trimmed_start(text: Seq<char>) -> Seq<char>
    decreases text.len(),
{
    if text.len() > 0 && white_space(text[0]) {
        trimmed_start(text.drop_first())
    } else {
        text
    }
}

/// `text` without its trailing white space.
pub open spec fn trimmed_end(text: Seq<char>) -> Seq<char>
    decreases text.len(),
{
    if text.len() > 0 && white_space(text.last()) {
        trimmed_end(text.drop_last())
    } else {
        text
    }
}

/// `text` without leading and trailing white space.
pub open spec fn trimmed(text: Seq<char>) -> Seq<char> {
    trimmed_end(trimmed_start(text))
}

/// The lower-case form of an ASCII letter; any other character is kept.
pub open spec fn lower_char(c: char) -> char {
    if 'A' <= c <= 'Z' {
        (c as int + 32) as char
    } else {
        c
    }
}

/// `text` with its ASCII letters in lower case.
pub open spec fn lower(text: Seq<char>) -> Seq<char> {
    text.map_values(|c: char| lower_char(c))
}

/// Whether two texts are equal.
pub fn same_text(a: &str, b: &str) -> (r: bool)
    ensures
        r == (a@ == b@),
{
    a.to_owned() == b.to_owned()
}

fn digit_text(d: u64) -> (r: &'static str)
    requires
        d < 10,
    ensures
        r@ == seq![digit_char(d as int)],
{
    let all: &'static str = "0123456789";
    proof {
        reveal_strlit("0123456789");
    }
    let r = all.substring_char(d as usize, d as usize + 1);
    assert(r@ =~= seq![digit_char(d as int)]);
    r
}

/// Decimal notation of an unsigned number.
pub fn unsigned_text(n: u64) -> (r: String)
    ensures
        r@ == decimal(n as int),
    decreases n,
{
    if n < 10 {
        digit_text(n).to_owned()
    } else {
        let mut r = unsigned_text(n / 10);
        r.append(digit_text(n % 10));
        assert(r@ =~= digits(n as nat));
        r
    }
}

/// Decimal notation of a signed number.
pub fn signed_text(n: i64) -> (r: String)
    ensures
        r@ == decimal(n as int),
{
    if n >= 0 {
        unsigned_text(n as u64)
    } else {
        let magnitude: u64 = (-(n as i128)) as u64;
        let mut r = "-".to_owned();
        r.append(unsigned_text(magnitude).as_str());
        proof {
            reveal_strlit("-");
            assert(r@ =~= decimal(n as int));
        }
        r
    }
}

/// Whether `text` begins with `prefix`.
pub fn starts_with(text: &str, prefix: &str) -> (r: bool)
    ensures
        r == begins_with(text@, prefix@),
{
    let n: usize = prefix.unicode_len();
    if text.unicode_len() < n {
        false
    } else {
        same_text(text.substring_char(0, n), prefix)
    }
}

/// Whether `needle` occurs in `text`.
pub fn contains_text(text: &str, needle: &str) -> (r: bool)
    ensures
        r == holds_text(text@, needle@),
{
    let n: usize = text.unicode_len();
    let m: usize = needle.unicode_len();
    if n < m {
        return false;
    }
    let mut at: usize = 0;
    while at <= n - m
        invariant
            n == text@.len(),
            m == needle@.len(),
            m <= n,
            at <= n - m + 1,
            forall|i: int| 0 <= i < at ==> !occurs_at(text@, needle@, i),
        decreases n - m + 1 - at,
    {
        if same_text(text.substring_char(at, at + m), needle) {
            assert(occurs_at(text@, needle@, at as int));
            return true;
        }
        if at == n - m {
            return false;
        }
        at = at + 1;
    }
    false
}

/// The characters of a text, one by one.
fn chars_of(text: &str) -> (r: Vec<char>)
    ensures
        r@ == text@,
{
    let mut r: Vec<char> = Vec::new();
    for c in it: text.chars()
        invariant
            it.seq() == text@,
            r@ == it.seq().take(it.index()),
    {
        r.push(c);
    }
    r
}

/// Whether a character is white space.
pub fn is_white_space(c: char) -> (r: bool)
    ensures
        r == white_space(c),
{
    ('\u{9}' <= c && c <= '\u{d}') || c == '\u{20}' || c == '\u{85}' || c == '\u{a0}' || c
        == '\u{1680}' || ('\u{2000}' <= c && c <= '\u{200a}') || c == '\u{2028}' || c == '\u{2029}'
        || c == '\u{202f}' || c == '\u{205f}' || c == '\u{3000}'
}

/// `text` without leading and trailing white space.
pub fn trim(text: &str) -> (r: String)
    ensures
        r@ == trimmed(text@),
{
    let chars = chars_of(text);
    let n: usize = chars.len();
    let mut from: usize = 0;
    assert(text@.skip(0) =~= text@);
    while from < n && is_white_space(chars[from])
        invariant
            n == chars@.len(),
            chars@ == text@,
            from <= n,
            trimmed_start(text@) == trimmed_start(text@.skip(from as int)),
        decreases n - from,
    {
        assert(text@.skip(from as int).drop_first() =~= text@.skip(from + 1));
        from = from + 1;
    }
    let ghost rest = text@.skip(from as int);
    assert(trimmed_start(text@) == rest);
    let mut to: usize = n;
    assert(text@.subrange(from as int, to as int) =~= rest);
    while to > from && is_white_space(chars[to - 1])
        invariant
            n == chars@.len(),
            chars@ == text@,
            from <= to <= n,
            trimmed_end(rest) == trimmed_end(text@.subrange(from as int, to as int)),
        decreases to - from,
    {
        assert(text@.subrange(from as int, to as int).drop_last() =~= text@.subrange(
            from as int,
            to - 1,
        ));
        to = to - 1;
    }
    text.substring_char(from, to).to_owned()
}

/// `text` with its ASCII letters in lower case.
pub fn lowercase(text: &str) -> (r: String)
    ensures
        r@ == lower(text@),
{
    let chars = chars_of(text);
    let n: usize = chars.len();
    let small: &str = "abcdefghijklmnopqrstuvwxyz";
    let mut r = String::new();
    let mut at: usize = 0;
    while at < n
        invariant
            n == chars@.len(),
            chars@ == text@,
            at <= n,
            small@ == "abcdefghijklmnopqrstuvwxyz"@,
            r@ == lower(text@.take(at as int)),
        decreases n - at,
    {
        let c = chars[at];
        if 'A' <= c && c <= 'Z' {
            let k: usize = (c as u32 - 'A' as u32) as usize;
            proof {
                reveal_strlit("abcdefghijklmnopqrstuvwxyz");
                assert(small@.subrange(k as int, k + 1) =~= seq![lower_char(c)]);
            }
            r.append(small.substring_char(k, k + 1));
        } else {
            r.append(text.substring_char(at, at + 1));
        }
        assert(r@ =~= lower(text@.take(at + 1)));
        at = at + 1;
    }
    assert(text@.take(n as int) =~= text@);
    r
}

/// The number that digits denote.
pub open spec fn digits_value(text: Seq<char>) -> int
    decreases text.len(),
{
    if text.len() == 0 {
        0
    } else {
        10 * digits_value(text.drop_last()) + (text.last() as int - '0' as int)
    }
}

proof fn lemma_digits_value(n: nat)
    ensures
        digits_value(digits(n)) == n,
        digits(n).len() > 1 ==> digits(n)[0] != '0',
    decreases n,
{
    assert(digit_char((n % 10) as int) as int == '0' as int + n % 10);
    if n < 10 {
        assert(digits(n).drop_last() =~= Seq::<char>::empty());
        assert(digits_value(digits(n).drop_last()) == 0);
    } else {
        lemma_digits_value(n / 10);
        lemma_digits_are_digits(n / 10);
        assert(digits(n).drop_last() =~= digits(n / 10));
        assert(digits(n)[0] == digits(n / 10)[0]);
        if n / 10 < 10 {
            assert(digits(n / 10)[0] == digit_char((n / 10) as int));
            assert(digit_char((n / 10) as int) as int == '0' as int + n / 10);
        } else {
            lemma_digits_are_digits(n / 10 / 10);
            assert(digits(n / 10).len() > 1);
        }
    }
}

/// The decimal notation of a number denotes that number: it consists of digits without leading
/// zeros, behind a minus sign where the number is negative.
pub proof fn law_decimal_denotes_its_number(n: int)
    ensures
        n >= 0 ==> {
            &&& digits_value(decimal(n)) == n
            &&& decimal(n).len() >= 1
            &&& forall|i: int| 0 <= i < decimal(n).len() ==> '0' <= #[trigger] decimal(n)[i] <= '9'
            &&& decimal(n).len() > 1 ==> decimal(n)[0] != '0'
        },
        n < 0 ==> decimal(n) == seq!['-'] + decimal(-n),
{
    if n >= 0 {
        lemma_digits_value(n as nat);
        lemma_digits_are_digits(n as nat);
    }
}

/// A text begins with a prefix exactly where the prefix and what follows make up the text.
pub proof fn law_prefix_and_rest(prefix: Seq<char>, rest: Seq<char>, text: Seq<char>)
    ensures
        begins_with(prefix + rest, prefix),
        begins_with(text, prefix) ==> text.len() >= prefix.len() && text == prefix + text.skip(
            prefix.len() as int,
        ),
{
    assert((prefix + rest).subrange(0, prefix.len() as int) =~= prefix);
    if begins_with(text, prefix) {
        assert(text =~= text.subrange(0, prefix.len() as int) + text.skip(prefix.len() as int));
    }
}

/// A text holds another exactly where something before it, the other text and something behind it
/// make up the text.
pub proof fn law_held_text(before: Seq<char>, needle: Seq<char>, behind: Seq<char>, text: Seq<char>)
    ensures
        holds_text(before + needle + behind, needle),
        holds_text(text, needle) ==> exists|at: int|
            0 <= at && at + needle.len() <= text.len() && text == #[trigger] text.take(at) + needle
                + text.skip(at + needle.len()),
{
    let whole = before + needle + behind;
    let there = before.len() as int;
    assert(whole.subrange(there, there + needle.len()) =~= needle);
    assert(occurs_at(whole, needle, there));
    if holds_text(text, needle) {
        let at = choose|at: int| occurs_at(text, needle, at);
        assert(text =~= text.take(at) + text.subrange(at, at + needle.len()) + text.skip(
            at + needle.len(),
        ));
    }
}

/// The white space characters of Unicode.
pub proof fn law_white_space_characters(c: char)
    ensures
        white_space(c) <==> {
            let point = c as int;
            ||| point == 0x09
            ||| point == 0x0a
            ||| point == 0x0b
            ||| point == 0x0c
            ||| point == 0x0d
            ||| point == 0x20
            ||| point == 0x85
            ||| point == 0xa0
            ||| point == 0x1680
            ||| 0x2000 <= point <= 0x200a
            ||| point == 0x2028
            ||| point == 0x2029
            ||| point == 0x202f
            ||| point == 0x205f
            ||| point == 0x3000
        },
{
}

proof fn lemma_trimmed_start(text: Seq<char>) -> (at: int)
    ensures
        0 <= at <= text.len(),
        trimmed_start(text) == text.skip(at),
        forall|k: int| 0 <= k < at ==> white_space(#[trigger] text[k]),
        at < text.len() ==> !white_space(text[at]),
    decreases text.len(),
{
    if text.len() > 0 && white_space(text[0]) {
        let rest = text.drop_first();
        let at = lemma_trimmed_start(rest);
        assert(rest.skip(at) =~= text.skip(at + 1));
        assert forall|k: int| 0 <= k < at + 1 implies white_space(#[trigger] text[k]) by {
            if k > 0 {
                assert(white_space(rest[k - 1]));
            }
        }
        if at + 1 < text.len() {
            assert(rest[at] == text[at + 1]);
        }
        at + 1
    } else {
        assert(text.skip(0) =~= text);
        0
    }
}

proof fn lemma_trimmed_end_at(text: Seq<char>) -> (at: int)
    ensures
        0 <= at <= text.len(),
        trimmed_end(text) == text.take(at),
        forall|k: int| at <= k < text.len() ==> white_space(#[trigger] text[k]),
        at > 0 ==> !white_space(text[at - 1]),
    decreases text.len(),
{
    if text.len() > 0 && white_space(text.last()) {
        let rest = text.drop_last();
        let at = lemma_trimmed_end_at(rest);
        assert(rest.take(at) =~= text.take(at));
        assert forall|k: int| at <= k < text.len() implies white_space(#[trigger] text[k]) by {
            if k < rest.len() {
                assert(white_space(rest[k]));
            }
        }
        if at > 0 {
            assert(rest[at - 1] == text[at - 1]);
        }
        at
    } else {
        assert(text.take(text.len() as int) =~= text);
        text.len() as int
    }
}

/// A trimmed text is the part of the text that neither begins nor ends with white space, with
/// nothing but white space before and behind it.
pub proof fn law_trimmed_text(text: Seq<char>)
    ensures
        exists|from: int, to: int|
            {
                &&& 0 <= from <= to <= text.len()
                &&& trimmed(text) == #[trigger] text.subrange(from, to)
                &&& forall|k: int| 0 <= k < from ==> white_space(#[trigger] text[k])
                &&& forall|k: int| to <= k < text.len() ==> white_space(#[trigger] text[k])
            },
        trimmed(text).len() > 0 ==> !white_space(trimmed(text)[0]) && !white_space(
            trimmed(text).last(),
        ),
{
    let from = lemma_trimmed_start(text);
    let rest = text.skip(from);
    let at = lemma_trimmed_end_at(rest);
    let to = from + at;
    assert(rest.take(at) =~= text.subrange(from, to));
    assert forall|k: int| to <= k < text.len() implies white_space(#[trigger] text[k]) by {
        assert(rest[k - from] == text[k]);
    }
    assert(trimmed(text) == text.subrange(from, to));
    if at > 0 {
        assert(trimmed(text)[0] == text[from]);
        assert(trimmed(text).last() == rest[at - 1]);
    }
}

/// Lower case replaces each of the letters A to Z by the letter that stands 32 places further, and
/// keeps every other character.
pub proof fn law_lower_case(text: Seq<char>)
    ensures
        lower(text).len() == text.len(),
        forall|i: int|
            0 <= i < text.len() ==> (if 'A' <= text[i] <= 'Z' {
                (#[trigger] lower(text)[i]) as int == text[i] as int + 32
            } else {
                lower(text)[i] == text[i]
            }),
{
}

} // verus!
