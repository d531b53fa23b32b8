//! Query strings in the `application/x-www-form-urlencoded` format.

use crate::api::error::BodyError;
use crate::text::{
    index_of, joined, lemma_index_of_first, lemma_joined_concat, lemma_signed_decimal_round_trip,
    lemma_split_joined, signed_decimal, signed_decimal_value, signed_text, split, text_view,
};
use vstd::prelude::*;
use vstd::string::StringExecFns;
use vstd::utf8::{decode_utf8, encode_utf8, encode_utf8_decode_utf8};

verus! {

/// A parameter of a query string: its name and its value.
pub type Pair = (String, String);

/// The names and values of a list of parameters.
pub open spec fn pairs_view(pairs: Seq<Pair>) -> Seq<(Seq<char>, Seq<char>)> {
    Seq::new(pairs.len(), |i: int| (pairs[i].0@, pairs[i].1@))
}

/// The parameter that a field gives: none where the field is not set.
pub open spec fn optional_pair(key: Seq<char>, value: Option<Seq<char>>) -> Seq<
    (Seq<char>, Seq<char>),
> {
    match value {
        Some(v) => seq![(key, v)],
        None => Seq::empty(),
    }
}

/// How a number is written as the value of a parameter.
pub open spec fn number_text(number: Option<i64>) -> Option<Seq<char>> {
    match number {
        Some(n) => Some(signed_decimal(n as int)),
        None => None,
    }
}

/// How a flag is written as the value of a parameter.
pub open spec fn flag_text(flag: Option<bool>) -> Option<Seq<char>> {
    match flag {
        Some(true) => Some("true"@),
        Some(false) => Some("false"@),
        None => None,
    }
}

/// A closed set of options, each written as a fixed word in a query string.
pub trait Keyword: Copy {
    /// The word that stands for the option.
    spec fn word(self) -> Seq<char>;

    /// The option that a word stands for.
    spec fn from_word(word: Seq<char>) -> Option<Self>;

    fn as_str(&self) -> (word: &'static str)
        ensures
            word@ == self.word(),
    ;

    /// Each option is read back from its word.
    proof fn lemma_word_round_trip(self)
        ensures
            Self::from_word(self.word()) == Some(self),
    ;
}

/// How an option is written as the value of a parameter.
pub open spec fn word_of<K: Keyword>(option: Option<K>) -> Option<Seq<char>> {
    match option {
        Some(k) => Some(k.word()),
        None => None,
    }
}

/// Adds the parameter `key` with the word of the given option, where there
/// is one.
pub fn push_keyword<K: Keyword>(pairs: &mut Vec<Pair>, key: &str, value: Option<K>)
    ensures
        pairs_view(final(pairs)@) == pairs_view(old(pairs)@) + optional_pair(key@, word_of(value)),
{
    match value {
        Some(option) => {
            pairs.push((String::from_str(key), String::from_str(option.as_str())));
        },
        None => {},
    }
}

/// Adds the parameter `key` with the given text, where there is one.
pub fn push_text(pairs: &mut Vec<Pair>, key: &str, value: &Option<String>)
    ensures
        pairs_view(final(pairs)@) == pairs_view(old(pairs)@) + optional_pair(
            key@,
            text_view(*value),
        ),
{
    match value {
        Some(text) => {
            pairs.push((String::from_str(key), text.clone()));
        },
        None => {},
    }
}

/// Adds the parameter `key` with the given word, where there is one.
pub fn push_word(pairs: &mut Vec<Pair>, key: &str, value: Option<&str>)
    ensures
        pairs_view(final(pairs)@) == pairs_view(old(pairs)@) + optional_pair(
            key@,
            match value {
                Some(word) => Some(word@),
                None => None,
            },
        ),
{
    match value {
        Some(word) => {
            pairs.push((String::from_str(key), String::from_str(word)));
        },
        None => {},
    }
}

/// Adds the parameter `key` with the given number, where there is one.
pub fn push_number(pairs: &mut Vec<Pair>, key: &str, value: Option<i64>)
    ensures
        pairs_view(final(pairs)@) == pairs_view(old(pairs)@) + optional_pair(
            key@,
            number_text(value),
        ),
{
    match value {
        Some(number) => {
            pairs.push((String::from_str(key), signed_text(number)));
        },
        None => {},
    }
}

/// Adds the parameter `key` with the given flag, where there is one.
pub fn push_flag(pairs: &mut Vec<Pair>, key: &str, value: Option<bool>)
    ensures
        pairs_view(final(pairs)@) == pairs_view(old(pairs)@) + optional_pair(
            key@,
            flag_text(value),
        ),
{
    match value {
        Some(flag) => {
            let word = if flag {
                "true"
            } else {
                "false"
            };
            pairs.push((String::from_str(key), String::from_str(word)));
        },
        None => {},
    }
}

/// The value of the first parameter called `key`.
#[verifier::opaque]
pub open spec fn parameter(pairs: Seq<(Seq<char>, Seq<char>)>, key: Seq<char>) -> Option<
    Seq<char>,
>
    decreases pairs.len(),
{
    if pairs.len() == 0 {
        None
    } else if pairs[0].0 == key {
        Some(pairs[0].1)
    } else {
        parameter(pairs.drop_first(), key)
    }
}

/// The number that the value of a parameter denotes.
pub open spec fn number_read(text: Option<Seq<char>>) -> Option<i64> {
    match text {
        Some(t) => Some(signed_decimal_value(t) as i64),
        None => None,
    }
}

/// The flag that the value of a parameter denotes.
pub open spec fn flag_read(text: Option<Seq<char>>) -> Option<bool> {
    match text {
        Some(t) => Some(t == "true"@),
        None => None,
    }
}

/// The option that the value of a parameter denotes.
pub open spec fn word_read<K: Keyword>(text: Option<Seq<char>>) -> Option<K> {
    match text {
        Some(t) => K::from_word(t),
        None => None,
    }
}

/// In two lists of parameters, one after the other, a name is looked up in
/// the first and, where it does not occur there, in the second.
pub broadcast proof fn lemma_parameter_concat(
    first: Seq<(Seq<char>, Seq<char>)>,
    second: Seq<(Seq<char>, Seq<char>)>,
    key: Seq<char>,
)
    ensures
        #[trigger] parameter(first + second, key) == match parameter(first, key) {
            Some(value) => Some(value),
            None => parameter(second, key),
        },
    decreases first.len(),
{
    reveal_with_fuel(parameter, 2);
    if first.len() > 0 {
        assert((first + second).drop_first() =~= first.drop_first() + second);
        lemma_parameter_concat(first.drop_first(), second, key);
    }
}

/// The parameter that a field gives is found under the field's name and
/// under no other.
pub broadcast proof fn lemma_parameter_optional(
    name: Seq<char>,
    value: Option<Seq<char>>,
    key: Seq<char>,
)
    ensures
        #[trigger] parameter(optional_pair(name, value), key) == if name == key {
            value
        } else {
            None
        },
{
    reveal_with_fuel(parameter, 2);
    match value {
        Some(v) => {
            let rest = optional_pair(name, value).drop_first();
            assert(rest.len() == 0);
            assert(parameter(rest, key) is None);
        },
        None => {},
    }
}

/// A number is read back from the text it is written as.
pub broadcast proof fn lemma_number_read(number: Option<i64>)
    ensures
        #[trigger] number_read(number_text(number)) == number,
{
    match number {
        Some(n) => {
            lemma_signed_decimal_round_trip(n as int);
        },
        None => {},
    }
}

/// A flag is read back from the text it is written as.
pub broadcast proof fn lemma_flag_read(flag: Option<bool>)
    ensures
        #[trigger] flag_read(flag_text(flag)) == flag,
{
    reveal_strlit("true");
    reveal_strlit("false");
    assert("false"@.len() == 5);
}

/// An option is read back from the word it is written as.
pub broadcast proof fn lemma_word_read<K: Keyword>(option: Option<K>)
    ensures
        #[trigger] word_read::<K>(word_of(option)) == option,
{
    match option {
        Some(k) => {
            k.lemma_word_round_trip();
        },
        None => {},
    }
}

/// The bytes that are written as they are: letters, digits, `*`, `-`, `.`
/// and `_`.
pub open spec fn is_unreserved(byte: u8) -> bool {
    ||| byte == 0x2a
    ||| byte == 0x2d
    ||| byte == 0x2e
    ||| 0x30 <= byte <= 0x39
    ||| 0x41 <= byte <= 0x5a
    ||| byte == 0x5f
    ||| 0x61 <= byte <= 0x7a
}

/// The upper-case hexadecimal digit for `n`.
pub open spec fn hex_digit(n: int) -> char {
    if n < 10 {
        ((48 + n) as u8) as char
    } else {
        ((55 + n) as u8) as char
    }
}

/// How one byte is written: itself, `+` for a space, or `%` and two
/// hexadecimal digits.
pub open spec fn encoded_byte(byte: u8) -> Seq<char> {
    if is_unreserved(byte) {
        seq![byte as char]
    } else if byte == 0x20 {
        seq!['+']
    } else {
        seq!['%', hex_digit(byte as int / 16), hex_digit(byte as int % 16)]
    }
}

/// How a byte string is written.
pub open spec fn encoded_bytes(bytes: Seq<u8>) -> Seq<char>
    decreases bytes.len(),
{
    if bytes.len() == 0 {
        Seq::empty()
    } else {
        encoded_byte(bytes[0]) + encoded_bytes(bytes.drop_first())
    }
}

/// How a name or a value is written: its UTF-8 bytes, each encoded.
pub open spec fn encoded_text(text: Seq<char>) -> Seq<char> {
    encoded_bytes(encode_utf8(text))
}

/// How one parameter is written: name, `=`, value.
pub open spec fn encoded_pair(pair: (Seq<char>, Seq<char>)) -> Seq<char> {
    encoded_text(pair.0) + seq!['='] + encoded_text(pair.1)
}

/// The parameters of a list, each written on its own.
pub open spec fn encoded_each(pairs: Seq<(Seq<char>, Seq<char>)>) -> Seq<Seq<char>> {
    Seq::new(pairs.len(), |i: int| encoded_pair(pairs[i]))
}

/// The query string of a list of parameters: each written in turn, with `&`
/// between them.
pub open spec fn encoded_pairs(pairs: Seq<(Seq<char>, Seq<char>)>) -> Seq<char> {
    joined(encoded_each(pairs), '&')
}

/// The number that a hexadecimal digit stands for.
pub open spec fn hex_value(c: char) -> int {
    let n = c as u32 as int;
    if 48 <= n <= 57 {
        n - 48
    } else if 65 <= n <= 70 {
        n - 55
    } else if 97 <= n <= 102 {
        n - 87
    } else {
        0
    }
}

/// The bytes that an encoded text stands for: `%` and two hexadecimal
/// digits are one byte, `+` is a space, any other character is itself.
pub open spec fn decoded_bytes(text: Seq<char>) -> Seq<u8>
    decreases text.len(),
{
    if text.len() == 0 {
        Seq::empty()
    } else if text[0] == '%' && text.len() >= 3 {
        seq![(hex_value(text[1]) * 16 + hex_value(text[2])) as u8] + decoded_bytes(text.skip(3))
    } else if text[0] == '+' {
        seq![0x20u8] + decoded_bytes(text.skip(1))
    } else {
        seq![text[0] as u8] + decoded_bytes(text.skip(1))
    }
}

/// The name or value that an encoded text stands for.
pub open spec fn decoded_text(text: Seq<char>) -> Seq<char> {
    decode_utf8(decoded_bytes(text))
}

/// The parameter that an encoded text stands for: the name before the first
/// `=`, the value after it.
pub open spec fn decoded_pair(text: Seq<char>) -> (Seq<char>, Seq<char>) {
    let k = index_of(text, '=');
    if 0 <= k < text.len() {
        (decoded_text(text.take(k)), decoded_text(text.skip(k + 1)))
    } else {
        (decoded_text(text), Seq::empty())
    }
}

/// The parameters that a query string stands for: those between its `&`
/// signs, in order; none for the empty string.
pub open spec fn decoded_pairs(text: Seq<char>) -> Seq<(Seq<char>, Seq<char>)> {
    if text.len() == 0 {
        Seq::empty()
    } else {
        Seq::new(split(text, '&').len(), |i: int| decoded_pair(split(text, '&')[i]))
    }
}

/// The characters that an encoded name or value can hold: those that stand
/// for themselves, `+`, `%` and the hexadecimal digits.
pub open spec fn is_encoded_char(c: char) -> bool {
    let n = c as u32;
    ||| n == 0x25
    ||| n == 0x2a
    ||| n == 0x2b
    ||| n == 0x2d
    ||| n == 0x2e
    ||| 0x30 <= n <= 0x39
    ||| 0x41 <= n <= 0x5a
    ||| n == 0x5f
    ||| 0x61 <= n <= 0x7a
}

/// What one byte is written as is read back as that byte.
pub proof fn lemma_decoded_byte(byte: u8, rest: Seq<char>)
    ensures
        decoded_bytes(encoded_byte(byte) + rest) == seq![byte] + decoded_bytes(rest),
        forall|i: int|
            0 <= i < encoded_byte(byte).len() ==> is_encoded_char(#[trigger] encoded_byte(byte)[i]),
{
    let written = encoded_byte(byte);
    let text = written + rest;
    if is_unreserved(byte) {
        assert(text.skip(1) =~= rest);
    } else if byte == 0x20 {
        assert(text.skip(1) =~= rest);
    } else {
        assert(text.skip(3) =~= rest);
    }
}

/// What a byte string is written as is read back as that byte string, and
/// holds only the characters of encoded text.
pub proof fn lemma_decoded_bytes(bytes: Seq<u8>)
    ensures
        decoded_bytes(encoded_bytes(bytes)) == bytes,
        forall|i: int|
            0 <= i < encoded_bytes(bytes).len() ==> is_encoded_char(
                #[trigger] encoded_bytes(bytes)[i],
            ),
    decreases bytes.len(),
{
    if bytes.len() > 0 {
        let rest = encoded_bytes(bytes.drop_first());
        lemma_decoded_bytes(bytes.drop_first());
        lemma_decoded_byte(bytes[0], rest);
    }
}

/// A name or value is read back from what it is written as, and what it is
/// written as holds neither `&` nor `=`.
pub proof fn lemma_decoded_text(text: Seq<char>)
    ensures
        decoded_text(encoded_text(text)) == text,
        !encoded_text(text).contains('&'),
        !encoded_text(text).contains('='),
{
    lemma_decoded_bytes(encode_utf8(text));
    encode_utf8_decode_utf8(text);
}

/// A parameter is read back from what it is written as, and what it is
/// written as is not empty and holds no `&`.
pub proof fn lemma_decoded_pair(pair: (Seq<char>, Seq<char>))
    ensures
        decoded_pair(encoded_pair(pair)) == pair,
        encoded_pair(pair).len() > 0,
        !encoded_pair(pair).contains('&'),
{
    let name = encoded_text(pair.0);
    let value = encoded_text(pair.1);
    let written = encoded_pair(pair);
    lemma_decoded_text(pair.0);
    lemma_decoded_text(pair.1);
    lemma_index_of_first(name, '=', value);
    assert(written.take(name.len() as int) =~= name);
    assert(written.skip(name.len() as int + 1) =~= value);
}

/// The parameters of a query string are read back from it: decoding what a
/// list of parameters is written as gives the list.
pub proof fn lemma_pairs_round_trip(pairs: Seq<(Seq<char>, Seq<char>)>)
    ensures
        decoded_pairs(encoded_pairs(pairs)) == pairs,
{
    let words = encoded_each(pairs);
    if pairs.len() > 0 {
        assert forall|i: int| 0 <= i < words.len() implies !(#[trigger] words[i]).contains(
            '&',
        ) by {
            lemma_decoded_pair(pairs[i]);
        }
        lemma_split_joined(words, '&');
        assert forall|i: int| 0 <= i < pairs.len() implies decoded_pair(words[i])
            == pairs[i] by {
            lemma_decoded_pair(pairs[i]);
        }
    }
}

/// The query string of two lists of parameters, one after the other, is
/// the two query strings with `&` between them.
pub proof fn lemma_encoded_pairs_concat(
    first: Seq<(Seq<char>, Seq<char>)>,
    second: Seq<(Seq<char>, Seq<char>)>,
)
    requires
        first.len() > 0,
        second.len() > 0,
    ensures
        encoded_pairs(first + second) == encoded_pairs(first) + seq!['&'] + encoded_pairs(second),
{
    assert(encoded_each(first + second) =~= encoded_each(first) + encoded_each(second));
    lemma_joined_concat(encoded_each(first), encoded_each(second), '&');
}

/// `serde_urlencoded::to_string` on a list of string pairs. For such a list
/// the encoder reports no error: it appends each pair to an empty string with
/// `form_urlencoded::Serializer::append_pair`, which writes `&` before every
/// pair but the first, then the name, `=` and the value, each byte by
/// `form_urlencoded::byte_serialize`.
#[verifier::external_body]
fn urlencode(pairs: &Vec<Pair>) -> (encoded: Result<String, String>)
    ensures
        encoded is Ok,
        encoded.unwrap()@ == encoded_pairs(pairs_view(pairs@)),
{
    serde_urlencoded::to_string(pairs).map_err(|e| e.to_string())
}

/// Writes a list of parameters as a query string.
pub fn encode_pairs(pairs: &Vec<Pair>) -> (encoded: Result<String, BodyError>)
    ensures
        encoded is Ok,
        encoded.unwrap()@ == encoded_pairs(pairs_view(pairs@)),
{
    match urlencode(pairs) {
        Ok(text) => Ok(text),
        Err(message) => Err(BodyError::UrlEncoded(message)),
    }
}

} // verus!
