//! Text: the order of strings, decimal numbers, prefixes, and putting strings together.

use vstd::prelude::*;

verus! {

/// `String::push` appends one character and changes nothing else.
pub assume_specification[ String::push ](s: &mut String, c: char)
    ensures
        final(s)@ == old(s)@.push(c),
;

/// The order of strings: the first character in which two strings differ decides, and a proper
/// prefix comes before the longer string.
pub open spec fn lex_less(a: Seq<char>, b: Seq<char>) -> bool
    decreases a.len(),
{
    if b.len() == 0 {
        false
    } else if a.len() == 0 {
        true
    } else if a[0] == b[0] {
        lex_less(a.drop_first(), b.drop_first())
    } else {
        (a[0] as int) < (b[0] as int)
    }
}

/// No string comes before itself.
pub proof fn lemma_lex_irreflexive(a: Seq<char>)
    ensures
        !lex_less(a, a),
    decreases a.len(),
{
    if a.len() > 0 {
        lemma_lex_irreflexive(a.drop_first());
    }
}

/// The order of strings is transitive.
pub proof fn lemma_lex_transitive(a: Seq<char>, b: Seq<char>, c: Seq<char>)
    requires
        lex_less(a, b),
        lex_less(b, c),
    ensures
        lex_less(a, c),
    decreases a.len(),
{
    if a.len() > 0 && a[0] == b[0] && b[0] == c[0] {
        lemma_lex_transitive(a.drop_first(), b.drop_first(), c.drop_first());
    }
}

/// Two different strings are always ordered.
pub proof fn lemma_lex_total(a: Seq<char>, b: Seq<char>)
    ensures
        a == b || lex_less(a, b) || lex_less(b, a),
    decreases a.len(),
{
    if a.len() == 0 && b.len() == 0 {
        assert(a =~= b);
    } else if a.len() > 0 && b.len() > 0 && a[0] == b[0] {
        lemma_lex_total(a.drop_first(), b.drop_first());
        if a.drop_first() == b.drop_first() {
            assert forall|i: int| 0 <= i < a.len() implies a[i] == b[i] by {
                if i > 0 {
                    assert(a.drop_first()[i - 1] == b.drop_first()[i - 1]);
                }
            }
            assert(a.len() == a.drop_first().len() + 1);
            assert(b.len() == b.drop_first().len() + 1);
            assert(a =~= b);
        }
    } else if a.len() > 0 && b.len() > 0 {
        let x = a[0];
        let y = b[0];
        assert((x as int) != (y as int));
    }
}

/// Whether `a` comes before `b`.
pub fn text_less(a: &str, b: &str) -> (less: bool)
    ensures
        less == lex_less(a@, b@),
{
    let a_len: usize = a.unicode_len();
    let b_len: usize = b.unicode_len();
    let mut i: usize = 0;
    proof {
        assert(a@.skip(0) =~= a@);
        assert(b@.skip(0) =~= b@);
    }
    while i < a_len && i < b_len
        invariant
            a_len == a@.len(),
            b_len == b@.len(),
            i <= a_len,
            i <= b_len,
            lex_less(a@, b@) == lex_less(a@.skip(i as int), b@.skip(i as int)),
        decreases a_len - i,
    {
        let x: char = a.get_char(i);
        let y: char = b.get_char(i);
        proof {
            assert(a@.skip(i as int).drop_first() =~= a@.skip(i + 1));
            assert(b@.skip(i as int).drop_first() =~= b@.skip(i + 1));
        }
        if x != y {
            return (x as u32) < (y as u32);
        }
        i = i + 1;
    }
    i < b_len
}

/// Whether two strings hold the same characters.
pub fn same_text(a: &str, b: &str) -> (same: bool)
    ensures
        same == (a@ == b@),
{
    let a_len: usize = a.unicode_len();
    let b_len: usize = b.unicode_len();
    if a_len != b_len {
        return false;
    }
    let mut i: usize = 0;
    while i < a_len
        invariant
            a_len == a@.len(),
            a_len == b@.len(),
            i <= a_len,
            forall|j: int| 0 <= j < i ==> a@[j] == b@[j],
        decreases a_len - i,
    {
        if a.get_char(i) != b.get_char(i) {
            return false;
        }
        i = i + 1;
    }
    proof {
        assert(a@ =~= b@);
    }
    true
}

/// Whether `text` begins with `prefix`.
pub fn has_prefix(text: &str, prefix: &str) -> (yes: bool)
    ensures
        yes == prefix@.is_prefix_of(text@),
{
    let text_len: usize = text.unicode_len();
    let prefix_len: usize = prefix.unicode_len();
    if text_len < prefix_len {
        return false;
    }
    let mut i: usize = 0;
    while i < prefix_len
        invariant
            text_len == text@.len(),
            prefix_len == prefix@.len(),
            i <= prefix_len <= text_len,
            forall|j: int| 0 <= j < i ==> text@[j] == prefix@[j],
        decreases prefix_len - i,
    {
        if text.get_char(i) != prefix.get_char(i) {
            proof {
                assert(text@.subrange(0, prefix_len as int)[i as int] == text@[i as int]);
            }
            return false;
        }
        i = i + 1;
    }
    proof {
        assert(prefix@ =~= text@.subrange(0, prefix_len as int));
    }
    true
}

/// The character of one decimal digit.
pub open spec fn digit(d: nat) -> char {
    ((48 + d) as u8) as char
}

/// The decimal digits of a number, without leading zeros.
pub open spec fn decimal(n: nat) -> Seq<char>
    decreases n,
{
    if n < 10 {
        seq![digit(n)]
    } else {
        decimal(n / 10).push(digit(n % 10))
    }
}

/// The decimal text of an integer, with a minus sign in front of a negative one.
pub open spec fn signed_decimal(i: int) -> Seq<char> {
    if i < 0 {
        seq!['-'] + decimal((-i) as nat)
    } else {
        decimal(i as nat)
    }
}

/// A number as decimal text.
pub fn number_text(n: u64) -> (text: String)
    ensures
        text@ == decimal(n as nat),
    decreases n,
{
    let last: char = (48u8 + (n % 10) as u8) as char;
    let mut text = if n < 10 {
        String::new()
    } else {
        number_text(n / 10)
    };
    text.push(last);
    proof {
        if n < 10 {
            assert(text@ =~= decimal(n as nat));
        }
    }
    text
}

/// A signed number as decimal text.
pub fn signed_number_text(i: i32) -> (text: String)
    ensures
        text@ == signed_decimal(i as int),
{
    if i < 0 {
        let magnitude: u64 = (-(i as i64)) as u64;
        let mut text = String::new();
        text.push('-');
        let digits = number_text(magnitude);
        text.append(digits.as_str());
        proof {
            assert(text@ =~= seq!['-'] + decimal(magnitude as nat));
        }
        text
    } else {
        number_text(i as u64)
    }
}

/// The parts one after the other, with the separator between neighbours.
pub open spec fn joined(parts: Seq<Seq<char>>, separator: Seq<char>) -> Seq<char>
    decreases parts.len(),
{
    if parts.len() == 0 {
        Seq::empty()
    } else if parts.len() == 1 {
        parts[0]
    } else {
        joined(parts.drop_last(), separator) + separator + parts.last()
    }
}

/// Joins strings with a separator between neighbours.
pub fn join(parts: &Vec<String>, separator: &str) -> (text: String)
    ensures
        text@ == joined(parts.deep_view(), separator@),
{
    let mut text = String::new();
    let mut i: usize = 0;
    while i < parts.len()
        invariant
            i <= parts.len(),
            text@ == joined(parts.deep_view().take(i as int), separator@),
        decreases parts.len() - i,
    {
        if i > 0 {
            text.append(separator);
        }
        text.append(parts[i].as_str());
        proof {
            let next = parts.deep_view().take(i + 1);
            assert(next.drop_last() =~= parts.deep_view().take(i as int));
            assert(next.last() == parts[i as int]@);
            if i == 0 {
                assert(text@ =~= next[0]);
            }
        }
        i = i + 1;
    }
    proof {
        assert(parts.deep_view().take(i as int) =~= parts.deep_view());
    }
    text
}

/// Two strings, one after the other.
pub fn concat2(a: &str, b: &str) -> (text: String)
    ensures
        text@ == a@ + b@,
{
    a.to_owned().concat(b)
}

/// Three strings, one after the other.
pub fn concat3(a: &str, b: &str, c: &str) -> (text: String)
    ensures
        text@ == a@ + b@ + c@,
{
    a.to_owned().concat(b).concat(c)
}

/// Four strings, one after the other.
pub fn concat4(a: &str, b: &str, c: &str, d: &str) -> (text: String)
    ensures
        text@ == a@ + b@ + c@ + d@,
{
    a.to_owned().concat(b).concat(c).concat(d)
}

/// Five strings, one after the other.
pub fn concat5(a: &str, b: &str, c: &str, d: &str, e: &str) -> (text: String)
    ensures
        text@ == a@ + b@ + c@ + d@ + e@,
{
    a.to_owned().concat(b).concat(c).concat(d).concat(e)
}

/// The lower-case form of an ASCII letter; other characters stay.
pub open spec fn ascii_lowercase(c: char) -> char {
    if 'A' <= c <= 'Z' {
        (c as int + 32) as char
    } else {
        c
    }
}

/// A text with one character put in the place of another, in lower case as far as it is ASCII.
pub open spec fn replaced_in_lowercase(text: Seq<char>, from: char, to: char) -> Seq<char> {
    text.map_values(
        |c: char| {
            if c == from {
                ascii_lowercase(to)
            } else {
                ascii_lowercase(c)
            }
        },
    )
}

/// The lower-case form of an ASCII letter; other characters stay.
pub fn to_ascii_lowercase(c: char) -> (lower: char)
    ensures
        lower == ascii_lowercase(c),
{
    if 'A' <= c && c <= 'Z' {
        let code: u8 = c as u8;
        (code + 32) as char
    } else {
        c
    }
}

/// A text with one character put in the place of another, in lower case as far as it is ASCII.
pub fn replace_in_lowercase(text: &str, from: char, to: char) -> (replaced: String)
    ensures
        replaced@ == replaced_in_lowercase(text@, from, to),
{
    let ghost all = replaced_in_lowercase(text@, from, to);
    let len: usize = text.unicode_len();
    let mut replaced = String::new();
    let mut i: usize = 0;
    proof {
        assert(all.take(0) =~= Seq::empty());
        assert(replaced@ =~= Seq::empty());
    }
    while i < len
        invariant
            i <= len,
            len == text@.len(),
            all == replaced_in_lowercase(text@, from, to),
            replaced@ == all.take(i as int),
        decreases len - i,
    {
        let c: char = text.get_char(i);
        let next: char = if c == from {
            to
        } else {
            c
        };
        replaced.push(to_ascii_lowercase(next));
        proof {
            assert(all.take(i + 1) =~= all.take(i as int).push(all[i as int]));
        }
        i = i + 1;
    }
    proof {
        assert(all.take(i as int) =~= all);
    }
    replaced
}

/// Whether a character is a decimal digit.
pub open spec fn is_digit(c: char) -> bool {
    '0' <= c <= '9'
}

/// Whether all characters are decimal digits.
pub open spec fn all_digits(text: Seq<char>) -> bool {
    forall|i: int| 0 <= i < text.len() ==> is_digit(#[trigger] text[i])
}

/// The number that digits stand for.
pub open spec fn digits_value(digits: Seq<char>) -> int
    decreases digits.len(),
{
    if digits.len() == 0 {
        0
    } else {
        digits_value(digits.drop_last()) * 10 + (digits.last() as int - '0' as int)
    }
}

/// The digits of an unsigned number, behind a sign that may be there.
pub open spec fn digits_of(text: Seq<char>) -> Seq<char> {
    if text.len() > 0 && text[0] == '+' {
        text.skip(1)
    } else {
        text
    }
}

/// The number below 65536 that a text stands for: digits, behind a sign that may be there.
pub open spec fn parsed_u16(text: Seq<char>) -> Option<u16> {
    let digits = digits_of(text);
    if digits.len() > 0 && all_digits(digits) && digits_value(digits) <= u16::MAX {
        Some(digits_value(digits) as u16)
    } else {
        None
    }
}

/// Further digits do not make a number smaller.
proof fn lemma_digits_value_grows(digits: Seq<char>, at: int)
    requires
        all_digits(digits),
        0 <= at <= digits.len(),
    ensures
        0 <= digits_value(digits.take(at)) <= digits_value(digits),
    decreases digits.len(),
{
    if digits.len() > 0 {
        let front = digits.drop_last();
        assert(is_digit(digits[digits.len() - 1]));
        assert forall|i: int| 0 <= i < front.len() implies is_digit(#[trigger] front[i]) by {
            assert(is_digit(digits[i]));
        }
        lemma_digits_value_grows(front, front.len() as int);
        assert(front.take(front.len() as int) =~= front);
        if at < digits.len() {
            lemma_digits_value_grows(front, at);
            assert(front.take(at) =~= digits.take(at));
        } else {
            assert(digits.take(at) =~= digits);
        }
    } else {
        assert(digits.take(at) =~= digits);
    }
}

/// The number below 65536 that a text stands for, where it stands for one.
pub fn parse_u16(text: &str) -> (number: Option<u16>)
    ensures
        number == parsed_u16(text@),
{
    let len: usize = text.unicode_len();
    let start: usize = if len > 0 && text.get_char(0) == '+' {
        1
    } else {
        0
    };
    let ghost digits = digits_of(text@);
    if start == len {
        return None;
    }
    let mut value: u32 = 0;
    let mut i: usize = start;
    proof {
        assert(digits.take(0) =~= Seq::empty());
    }
    while i < len
        invariant
            start <= i <= len,
            start <= 1,
            start < len,
            len == text@.len(),
            digits == digits_of(text@),
            digits == text@.skip(start as int),
            value <= u16::MAX,
            value == digits_value(digits.take(i - start)),
            forall|j: int| 0 <= j < i - start ==> is_digit(#[trigger] digits[j]),
        decreases len - i,
    {
        let c: char = text.get_char(i);
        let ghost at = i - start;
        proof {
            assert(digits[at] == text@[i as int]);
            let next = digits.take(at + 1);
            assert(next.drop_last() =~= digits.take(at));
            assert(next.last() == c);
        }
        if !('0' <= c && c <= '9') {
            proof {
                assert(!is_digit(digits[at]));
            }
            return None;
        }
        value = value * 10 + (c as u32 - '0' as u32);
        if value > u16::MAX as u32 {
            proof {
                if all_digits(digits) {
                    lemma_digits_value_grows(digits, at + 1);
                }
            }
            return None;
        }
        i = i + 1;
    }
    proof {
        assert(digits.take(i - start) =~= digits);
    }
    Some(value as u16)
}

/// Whether a text holds another one.
pub open spec fn holds(text: Seq<char>, part: Seq<char>) -> bool {
    exists|before: Seq<char>, after: Seq<char>| text == #[trigger] (before + part + after)
}

/// A text between two others is held by all three in a row.
pub proof fn lemma_holds(before: Seq<char>, part: Seq<char>, after: Seq<char>)
    ensures
        holds(before + part + after, part),
{
}

/// What a part of a text holds, the text holds.
pub proof fn lemma_holds_deeper(
    before: Seq<char>,
    part: Seq<char>,
    after: Seq<char>,
    line: Seq<char>,
)
    requires
        holds(part, line),
    ensures
        holds(before + part + after, line),
{
    let (b, a) = choose|b: Seq<char>, a: Seq<char>| part == #[trigger] (b + line + a);
    assert(before + part + after =~= (before + b) + line + (a + after));
    lemma_holds(before + b, line, a + after);
}

/// A text holds what stands at some place of it.
pub proof fn lemma_holds_at(whole: Seq<char>, line: Seq<char>, at: int)
    requires
        0 <= at,
        at + line.len() <= whole.len(),
        forall|k: int| 0 <= k < line.len() ==> whole[at + k] == #[trigger] line[k],
    ensures
        holds(whole, line),
{
    let before = whole.take(at);
    let after = whole.skip(at + line.len());
    assert(whole =~= before + line + after);
    lemma_holds(before, line, after);
}

/// Reading the digits of a number gives the number.
proof fn lemma_decimal_value(n: nat)
    ensures
        all_digits(decimal(n)),
        decimal(n).len() > 0,
        digits_value(decimal(n)) == n,
    decreases n,
{
    if n >= 10 {
        lemma_decimal_value(n / 10);
        assert(decimal(n).drop_last() =~= decimal(n / 10));
        assert(is_digit(digit(n % 10)));
        assert forall|i: int| 0 <= i < decimal(n).len() implies is_digit(
            #[trigger] decimal(n)[i],
        ) by {
            if i < decimal(n).len() - 1 {
                assert(is_digit(decimal(n / 10)[i]));
            }
        }
    } else {
        assert(decimal(n).drop_last() =~= Seq::empty());
        assert(digits_value(Seq::empty()) == 0);
    }
}

/// Different numbers have different digits.
pub proof fn lemma_decimal_is_unique(a: nat, b: nat)
    requires
        decimal(a) == decimal(b),
    ensures
        a == b,
{
    lemma_decimal_value(a);
    lemma_decimal_value(b);
}

/// A number that is written and read again is the same number.
pub proof fn law_number_round_trip(n: u16)
    ensures
        parsed_u16(decimal(n as nat)) == Some(n),
{
    lemma_decimal_value(n as nat);
    assert(is_digit(decimal(n as nat)[0]));
}

/// The text of an integer is that of its size, behind a minus sign exactly where it is negative.
pub proof fn law_only_negative_integers_have_a_sign(i: int)
    ensures
        i >= 0 ==> all_digits(signed_decimal(i)) && digits_value(signed_decimal(i)) == i,
        i < 0 ==> signed_decimal(i)[0] == '-' && all_digits(signed_decimal(i).skip(1))
            && digits_value(signed_decimal(i).skip(1)) == -i,
{
    if i < 0 {
        lemma_decimal_value((-i) as nat);
        assert(signed_decimal(i).skip(1) =~= decimal((-i) as nat));
    } else {
        lemma_decimal_value(i as nat);
    }
}

} // verus!
