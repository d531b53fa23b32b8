//! Helpers on strings: comparison, joining and splitting, and decimal
//! numbers.

use vstd::prelude::*;
use vstd::string::{StrSliceExecFns, StringExecFns, StringSliceAdditionalSpecFns};
use vstd::utf8::{encode_utf8, encode_utf8_decode_utf8};

verus! {

/// Two character sequences with the same UTF-8 encoding are the same sequence.
pub proof fn lemma_utf8_injective(a: Seq<char>, b: Seq<char>)
    requires
        encode_utf8(a) == encode_utf8(b),
    ensures
        a == b,
{
    encode_utf8_decode_utf8(a);
    encode_utf8_decode_utf8(b);
}

/// Whether two string slices hold the same characters.
pub fn same_text(a: &str, b: &str) -> (same: bool)
    ensures
        same == (a@ == b@),
{
    let x = a.as_bytes();
    let y = b.as_bytes();
    if x.len() != y.len() {
        return false;
    }
    let mut i: usize = 0;
    while i < x.len()
        invariant
            0 <= i <= x.len(),
            x.len() == y.len(),
            x@ == a.spec_bytes(),
            y@ == b.spec_bytes(),
            forall|k: int| 0 <= k < i ==> x@[k] == y@[k],
        decreases x.len() - i,
    {
        if x[i] != y[i] {
            return false;
        }
        i += 1;
    }
    proof {
        assert(x@ =~= y@);
        lemma_utf8_injective(a@, b@);
    }
    true
}

/// The characters of an optional string.
pub open spec fn text_view(text: Option<String>) -> Option<Seq<char>> {
    match text {
        Some(t) => Some(t@),
        None => None,
    }
}

/// A copy of an optional string.
pub fn copy_text(text: &Option<String>) -> (copy: Option<String>)
    ensures
        text_view(copy) == text_view(*text),
{
    match text {
        Some(t) => Some(t.clone()),
        None => None,
    }
}

/// The words written one after the other, with the separator between them.
pub open spec fn joined(words: Seq<Seq<char>>, separator: char) -> Seq<char>
    decreases words.len(),
{
    if words.len() == 0 {
        Seq::empty()
    } else if words.len() == 1 {
        words[0]
    } else {
        words[0] + seq![separator] + joined(words.drop_first(), separator)
    }
}

/// The index of the first `c` in `text`; the length of `text` where there
/// is none.
pub open spec fn index_of(text: Seq<char>, c: char) -> int
    decreases text.len(),
{
    if text.len() == 0 {
        0
    } else if text[0] == c {
        0
    } else {
        1 + index_of(text.drop_first(), c)
    }
}

/// The parts of `text` between its separators.
pub open spec fn split(text: Seq<char>, separator: char) -> Seq<Seq<char>>
    decreases text.len(),
{
    let k = index_of(text, separator);
    if 0 <= k < text.len() {
        seq![text.take(k)] + split(text.skip(k + 1), separator)
    } else {
        seq![text]
    }
}

/// The first `c` lies within the text, and nothing before it is a `c`.
pub proof fn lemma_index_of(text: Seq<char>, c: char)
    ensures
        0 <= index_of(text, c) <= text.len(),
        forall|i: int| 0 <= i < index_of(text, c) ==> text[i] != c,
        index_of(text, c) < text.len() ==> text[index_of(text, c)] == c,
    decreases text.len(),
{
    if text.len() > 0 && text[0] != c {
        let rest = text.drop_first();
        lemma_index_of(rest, c);
        assert forall|i: int| 0 <= i < index_of(text, c) implies text[i] != c by {
            if i > 0 {
                assert(text[i] == rest[i - 1]);
            }
        }
    }
}

/// In a text without `c` followed by a `c`, the first `c` is that one.
pub proof fn lemma_index_of_first(head: Seq<char>, c: char, tail: Seq<char>)
    requires
        !head.contains(c),
    ensures
        index_of(head + seq![c] + tail, c) == head.len(),
    decreases head.len(),
{
    let text = head + seq![c] + tail;
    if head.len() > 0 {
        let rest = head.drop_first();
        assert(text.drop_first() =~= rest + seq![c] + tail);
        lemma_index_of_first(rest, c, tail);
    }
}

/// A text without `c` is its own only part.
pub proof fn lemma_index_of_absent(text: Seq<char>, c: char)
    requires
        !text.contains(c),
    ensures
        index_of(text, c) == text.len(),
{
    lemma_index_of(text, c);
}

/// Words that do not hold the separator are read back from their joined
/// text.
pub proof fn lemma_split_joined(words: Seq<Seq<char>>, separator: char)
    requires
        words.len() > 0,
        forall|i: int| 0 <= i < words.len() ==> !(#[trigger] words[i]).contains(separator),
    ensures
        split(joined(words, separator), separator) == words,
    decreases words.len(),
{
    let text = joined(words, separator);
    if words.len() == 1 {
        lemma_index_of_absent(words[0], separator);
    } else {
        let rest = words.drop_first();
        let tail = joined(rest, separator);
        lemma_index_of_first(words[0], separator, tail);
        assert(text.take(words[0].len() as int) =~= words[0]);
        assert(text.skip(words[0].len() as int + 1) =~= tail);
        lemma_split_joined(rest, separator);
    }
}

/// Joining two lists of words, one after the other, joins their joined
/// texts.
pub proof fn lemma_joined_concat(first: Seq<Seq<char>>, second: Seq<Seq<char>>, separator: char)
    requires
        first.len() > 0,
        second.len() > 0,
    ensures
        joined(first + second, separator) == joined(first, separator) + seq![separator] + joined(
            second,
            separator,
        ),
    decreases first.len(),
{
    let all = first + second;
    if first.len() == 1 {
        assert(all.drop_first() =~= second);
    } else {
        assert(all.drop_first() =~= first.drop_first() + second);
        lemma_joined_concat(first.drop_first(), second, separator);
    }
}

/// The views of a list of words.
pub open spec fn word_views(words: Seq<&'static str>) -> Seq<Seq<char>> {
    Seq::new(words.len(), |i: int| words[i]@)
}

/// Writes the words one after the other, with a comma between them.
pub fn join_with_commas(words: &Vec<&'static str>) -> (text: String)
    ensures
        text@ == joined(word_views(words@), ','),
{
    let mut text = String::new();
    let mut i: usize = words.len();
    while i > 0
        invariant
            0 <= i <= words.len(),
            text@ == joined(word_views(words@).skip(i as int), ','),
        decreases i,
    {
        i -= 1;
        let ghost tail = word_views(words@).skip(i as int + 1);
        let ghost here = word_views(words@).skip(i as int);
        assert(here.drop_first() =~= tail);
        proof {
            reveal_strlit(",");
        }
        if i + 1 == words.len() {
            text = String::from_str(words[i]);
        } else {
            let mut longer = String::from_str(words[i]);
            longer.append(",");
            longer.append(text.as_str());
            text = longer;
        }
    }
    assert(word_views(words@).skip(0) =~= word_views(words@));
    text
}

/// The character that stands for the digit `d`.
pub open spec fn digit_char(d: int) -> char {
    ((48 + d) as u8) as char
}

/// The decimal digits of `n`, without leading zeros.
pub open spec fn decimal(n: nat) -> Seq<char>
    decreases n,
{
    if n < 10 {
        seq![digit_char(n as int)]
    } else {
        decimal(n / 10).push(digit_char((n % 10) as int))
    }
}

/// The decimal digits of `n`, after a minus sign where `n` is negative.
pub open spec fn signed_decimal(n: int) -> Seq<char> {
    if n < 0 {
        seq!['-'] + decimal((-n) as nat)
    } else {
        decimal(n as nat)
    }
}

/// The number that a digit stands for.
pub open spec fn digit_value(c: char) -> int {
    (c as u8) as int - 48
}

/// The number that a sequence of decimal digits denotes.
pub open spec fn decimal_value(digits: Seq<char>) -> nat
    decreases digits.len(),
{
    if digits.len() == 0 {
        0
    } else {
        (decimal_value(digits.drop_last()) * 10 + digit_value(digits.last())) as nat
    }
}

/// The number that a sequence of decimal digits, with or without a minus
/// sign before it, denotes.
pub open spec fn signed_decimal_value(text: Seq<char>) -> int {
    if text.len() > 0 && text[0] == '-' {
        -(decimal_value(text.skip(1)) as int)
    } else {
        decimal_value(text) as int
    }
}

/// Reading the digits of a number gives the number back.
pub proof fn lemma_decimal_round_trip(n: nat)
    ensures
        decimal_value(decimal(n)) == n,
        decimal(n).len() > 0,
        decimal(n)[0] != '-',
    decreases n,
{
    if n < 10 {
        let d = decimal(n);
        assert(decimal_value(d.drop_last()) == 0);
    } else {
        lemma_decimal_round_trip(n / 10);
        let d = decimal(n);
        assert(d.drop_last() =~= decimal(n / 10));
    }
}

/// Reading a signed number back from its digits gives the number.
pub proof fn lemma_signed_decimal_round_trip(n: int)
    ensures
        signed_decimal_value(signed_decimal(n)) == n,
{
    if n < 0 {
        let m = (-n) as nat;
        lemma_decimal_round_trip(m);
        assert(signed_decimal(n).skip(1) =~= decimal(m));
    } else {
        lemma_decimal_round_trip(n as nat);
    }
}

/// Whether a character is a decimal digit.
pub open spec fn is_digit(c: char) -> bool {
    48 <= c as u32 <= 57
}

/// Whether a text is how a number is written in decimal digits: digits
/// only, at least one, and no zero before another digit.
pub open spec fn is_number_text(digits: Seq<char>) -> bool {
    &&& digits.len() > 0
    &&& forall|i: int| 0 <= i < digits.len() ==> is_digit(#[trigger] digits[i])
    &&& digits[0] == '0' ==> digits.len() == 1
}

/// The number of 64 bits that a text denotes: the one whose decimal digits,
/// after a minus sign where it is negative, are the text. `None` where the
/// text is no such number.
pub open spec fn integer_of(text: Seq<char>) -> Option<i64> {
    if exists|n: i64| signed_decimal(n as int) == text {
        Some(choose|n: i64| signed_decimal(n as int) == text)
    } else {
        None
    }
}

/// A digit stands for a number from 0 to 9, and is the character that
/// stands for that number.
pub proof fn lemma_digit(c: char)
    requires
        is_digit(c),
    ensures
        0 <= digit_value(c) <= 9,
        digit_value(c) == c as u32 - 48,
        digit_char(digit_value(c)) == c,
        c != '-',
{
}

/// The digits of a number are a number text, and they start with a zero
/// only for zero.
pub proof fn lemma_decimal_shape(n: nat)
    ensures
        is_number_text(decimal(n)),
        decimal(n)[0] == '0' <==> n == 0,
    decreases n,
{
    if n >= 10 {
        lemma_decimal_shape(n / 10);
    }
}

/// A number text is the digits of the number it denotes.
pub proof fn lemma_number_text(digits: Seq<char>)
    requires
        is_number_text(digits),
    ensures
        decimal(decimal_value(digits)) == digits,
    decreases digits.len(),
{
    let last = digits.last();
    lemma_digit(last);
    if digits.len() == 1 {
        assert(decimal_value(digits.drop_last()) == 0);
    } else {
        let head = digits.drop_last();
        lemma_number_text(head);
    }
}

/// The first digits of a text of digits denote no more than all of them.
pub proof fn lemma_value_of_prefix(digits: Seq<char>, k: int)
    requires
        0 <= k <= digits.len(),
        forall|i: int| 0 <= i < digits.len() ==> is_digit(#[trigger] digits[i]),
    ensures
        decimal_value(digits.take(k)) <= decimal_value(digits),
    decreases digits.len() - k,
{
    if k == digits.len() {
        assert(digits.take(k) =~= digits);
    } else {
        lemma_value_of_prefix(digits, k + 1);
        let longer = digits.take(k + 1);
        assert(longer.drop_last() =~= digits.take(k));
        lemma_digit(digits[k]);
    }
}

/// What the text of a number of 64 bits looks like: a minus sign exactly
/// where the number is negative, then the number text of its magnitude.
pub proof fn lemma_integer_text(n: i64)
    ensures
        n < 0 ==> {
            &&& signed_decimal(n as int)[0] == '-'
            &&& is_number_text(signed_decimal(n as int).skip(1))
            &&& signed_decimal(n as int).skip(1)[0] != '0'
            &&& decimal_value(signed_decimal(n as int).skip(1)) == -n
        },
        n >= 0 ==> {
            &&& is_number_text(signed_decimal(n as int))
            &&& decimal_value(signed_decimal(n as int)) == n
        },
{
    if n < 0 {
        let m = (-n) as nat;
        lemma_decimal_shape(m);
        lemma_decimal_round_trip(m);
        assert(signed_decimal(n as int).skip(1) =~= decimal(m));
    } else {
        lemma_decimal_shape(n as nat);
        lemma_decimal_round_trip(n as nat);
    }
}

/// A number of 64 bits is read back from its text.
pub proof fn lemma_integer_of(n: i64)
    ensures
        integer_of(signed_decimal(n as int)) == Some(n),
{
    let text = signed_decimal(n as int);
    let m = choose|m: i64| signed_decimal(m as int) == text;
    lemma_signed_decimal_round_trip(n as int);
    lemma_signed_decimal_round_trip(m as int);
}

/// Reads a number of 64 bits from its decimal text.
pub fn parse_integer(text: &str) -> (number: Option<i64>)
    ensures
        number == integer_of(text@),
{
    let len: usize = text.unicode_len();
    if len == 0 {
        return None;
    }
    let negative = text.get_char(0) == '-';
    let start: usize = if negative {
        1
    } else {
        0
    };
    let ghost digits = text@.skip(start as int);
    if start == len || (text.get_char(start) == '0' && len - start > 1) {
        proof {
            assert forall|n: i64| signed_decimal(n as int) != text@ by {
                lemma_integer_text(n);
            }
        }
        return None;
    }
    let limit: u64 = if negative {
        9223372036854775808
    } else {
        9223372036854775807
    };
    let mut value: u64 = 0;
    let mut i: usize = start;
    while i < len
        invariant
            start <= i <= len,
            len == text@.len(),
            start < len,
            negative == (text@[0] == '-'),
            start == if negative { 1usize } else { 0usize },
            digits == text@.skip(start as int),
            limit == if negative { 9223372036854775808u64 } else { 9223372036854775807u64 },
            forall|k: int| 0 <= k < i - start ==> is_digit(#[trigger] digits[k]),
            value == decimal_value(digits.take(i - start)),
            value <= limit,
        decreases len - i,
    {
        let c = text.get_char(i);
        let code = c as u32;
        if code < 48 || code > 57 {
            proof {
                assert forall|n: i64| signed_decimal(n as int) != text@ by {
                    lemma_integer_text(n);
                    if signed_decimal(n as int) == text@ {
                        assert(is_digit(digits[i - start]));
                    }
                }
            }
            return None;
        }
        let d: u64 = (code - 48) as u64;
        proof {
            let longer = digits.take(i - start + 1);
            assert(longer.drop_last() =~= digits.take(i - start));
        }
        if value > (limit - d) / 10 {
            proof {
                assert forall|n: i64| signed_decimal(n as int) != text@ by {
                    lemma_integer_text(n);
                    if signed_decimal(n as int) == text@ {
                        if n >= 0 {
                            assert(digits =~= text@);
                        }
                        lemma_value_of_prefix(digits, i - start + 1);
                    }
                }
            }
            return None;
        }
        value = value * 10 + d;
        i += 1;
    }
    proof {
        assert(digits.take(len - start) =~= digits);
        lemma_number_text(digits);
    }
    if negative {
        if value == 0 {
            proof {
                assert forall|n: i64| signed_decimal(n as int) != text@ by {
                    lemma_integer_text(n);
                }
            }
            None
        } else {
            let number: i64 = if value == 9223372036854775808 {
                i64::MIN
            } else {
                -(value as i64)
            };
            proof {
                assert(signed_decimal(number as int) == text@);
                lemma_integer_of(number);
            }
            Some(number)
        }
    } else {
        let number: i64 = value as i64;
        proof {
            assert(signed_decimal(number as int) == text@);
            lemma_integer_of(number);
        }
        Some(number)
    }
}

/// The index after the digits that stand in `text` from the index `from`
/// on; `from` itself where no digit stands there.
pub open spec fn digits_end(text: Seq<char>, from: int) -> int
    decreases text.len() - from,
{
    if 0 <= from < text.len() && is_digit(text[from]) {
        digits_end(text, from + 1)
    } else {
        from
    }
}

/// Whether a text is written as JSON numbers are: an optional minus sign;
/// digits, at least one, and no zero before another; then, optionally, a
/// point and at least one digit; then, optionally, `e` or `E`, an optional
/// sign and at least one digit; and nothing else.
pub open spec fn json_number(text: Seq<char>) -> bool {
    let start = if text.len() > 0 && text[0] == '-' {
        1int
    } else {
        0int
    };
    let whole = digits_end(text, start);
    let pointed = whole < text.len() && text[whole] == '.';
    let fraction = if pointed {
        digits_end(text, whole + 1)
    } else {
        whole
    };
    let marked = fraction < text.len() && (text[fraction] == 'e' || text[fraction] == 'E');
    let signed = marked && fraction + 1 < text.len() && (text[fraction + 1] == '+'
        || text[fraction + 1] == '-');
    let exponent = if signed {
        fraction + 2
    } else {
        fraction + 1
    };
    let end = if marked {
        digits_end(text, exponent)
    } else {
        fraction
    };
    &&& whole > start
    &&& text[start] == '0' ==> whole == start + 1
    &&& pointed ==> fraction > whole + 1
    &&& marked ==> end > exponent
    &&& end == text.len()
}

fn skip_digits(text: &str, len: usize, from: usize) -> (end: usize)
    requires
        len == text@.len(),
        from <= len,
    ensures
        end == digits_end(text@, from as int),
        from <= end <= len,
{
    let mut end: usize = from;
    while end < len && is_digit_char(text.get_char(end))
        invariant
            from <= end <= len,
            len == text@.len(),
            digits_end(text@, from as int) == digits_end(text@, end as int),
        decreases len - end,
    {
        end += 1;
    }
    end
}

fn is_digit_char(c: char) -> (digit: bool)
    ensures
        digit == is_digit(c),
{
    let code = c as u32;
    48 <= code && code <= 57
}

/// Whether a text is written as JSON numbers are.
pub fn is_json_number(text: &str) -> (number: bool)
    ensures
        number == json_number(text@),
{
    let len: usize = text.unicode_len();
    let start: usize = if len > 0 && text.get_char(0) == '-' {
        1
    } else {
        0
    };
    let whole = skip_digits(text, len, start);
    if whole == start || (text.get_char(start) == '0' && whole != start + 1) {
        return false;
    }
    let pointed = whole < len && text.get_char(whole) == '.';
    let fraction = if pointed {
        skip_digits(text, len, whole + 1)
    } else {
        whole
    };
    if pointed && fraction == whole + 1 {
        return false;
    }
    if fraction == len {
        return true;
    }
    let mark = text.get_char(fraction);
    if mark != 'e' && mark != 'E' {
        return false;
    }
    let signed = fraction + 1 < len && (text.get_char(fraction + 1) == '+' || text.get_char(
        fraction + 1,
    ) == '-');
    let exponent: usize = if signed {
        fraction + 2
    } else {
        fraction + 1
    };
    let end = skip_digits(text, len, exponent);
    end > exponent && end == len
}

fn digit_text(d: u64) -> (text: &'static str)
    requires
        d < 10,
    ensures
        text@ == seq![digit_char(d as int)],
{
    proof {
        reveal_strlit("0");
        reveal_strlit("1");
        reveal_strlit("2");
        reveal_strlit("3");
        reveal_strlit("4");
        reveal_strlit("5");
        reveal_strlit("6");
        reveal_strlit("7");
        reveal_strlit("8");
        reveal_strlit("9");
    }
    let text = if d == 0 {
        "0"
    } else if d == 1 {
        "1"
    } else if d == 2 {
        "2"
    } else if d == 3 {
        "3"
    } else if d == 4 {
        "4"
    } else if d == 5 {
        "5"
    } else if d == 6 {
        "6"
    } else if d == 7 {
        "7"
    } else if d == 8 {
        "8"
    } else {
        "9"
    };
    text
}

fn push_decimal(out: &mut String, n: u64)
    ensures
        final(out)@ == old(out)@ + decimal(n as nat),
    decreases n,
{
    if n >= 10 {
        push_decimal(out, n / 10);
    }
    out.append(digit_text(n % 10));
}

/// The decimal digits of an unsigned number.
pub fn unsigned_text(n: u64) -> (text: String)
    ensures
        text@ == decimal(n as nat),
{
    let mut text = String::new();
    push_decimal(&mut text, n);
    text
}

/// The decimal digits of a signed number.
pub fn signed_text(n: i64) -> (text: String)
    ensures
        text@ == signed_decimal(n as int),
{
    let mut text = String::new();
    if n < 0 {
        proof {
            reveal_strlit("-");
        }
        text.append("-");
        let magnitude: u64 = ((-(n + 1)) as u64) + 1;
        push_decimal(&mut text, magnitude);
    } else {
        push_decimal(&mut text, n as u64);
    }
    text
}

} // verus!
