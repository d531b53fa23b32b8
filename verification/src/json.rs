//! JSON values as the library handles them. Reading and writing JSON text is
//! done by `serde_json`; everything that looks inside a value is verified here.

use crate::text::{
    integer_of, is_json_number, json_number, lemma_integer_of, parse_integer, same_text,
    signed_decimal, signed_text,
};
use vstd::prelude::*;
use vstd::string::StringExecFns;

verus! {

/// A JSON value.
#[derive(Debug, PartialEq, Eq)]
pub enum Json {
    Null,
    Bool(bool),
    /// A number, as the text it is written with.
    Number(String),
    Text(String),
    Array(Vec<Json>),
    /// The members of an object, in the order in which they are written.
    Object(Vec<(String, Json)>),
}

/// The mathematical value of a [`Json`].
pub enum JsonView {
    Null,
    Bool(bool),
    Number(Seq<char>),
    Text(Seq<char>),
    Array(Seq<JsonView>),
    Object(Seq<(Seq<char>, JsonView)>),
}

/// The mathematical value of `value`.
pub open spec fn value_of(value: Json) -> JsonView
    decreases value,
{
    match value {
        Json::Null => JsonView::Null,
        Json::Bool(b) => JsonView::Bool(b),
        Json::Number(t) => JsonView::Number(t@),
        Json::Text(t) => JsonView::Text(t@),
        Json::Array(items) => JsonView::Array(
            Seq::new(
                items@.len(),
                |i: int|
                    if 0 <= i < items@.len() {
                        value_of(items@[i])
                    } else {
                        JsonView::Null
                    },
            ),
        ),
        Json::Object(members) => JsonView::Object(
            Seq::new(
                members@.len(),
                |i: int|
                    if 0 <= i < members@.len() {
                        (members@[i].0@, value_of(members@[i].1))
                    } else {
                        (Seq::empty(), JsonView::Null)
                    },
            ),
        ),
    }
}

impl View for Json {
    type V = JsonView;

    open spec fn view(&self) -> JsonView {
        value_of(*self)
    }
}

/// The value of the first member called `key` among `members`.
pub open spec fn first_member(members: Seq<(Seq<char>, JsonView)>, key: Seq<char>) -> Option<
    JsonView,
>
    decreases members.len(),
{
    if members.len() == 0 {
        None
    } else if members[0].0 == key {
        Some(members[0].1)
    } else {
        first_member(members.drop_first(), key)
    }
}

impl JsonView {
    /// The member `key` of an object; `None` for other values and where the
    /// object has no such member.
    pub open spec fn member(self, key: Seq<char>) -> Option<JsonView> {
        match self {
            JsonView::Object(members) => first_member(members, key),
            _ => None,
        }
    }

    pub open spec fn text(self) -> Option<Seq<char>> {
        match self {
            JsonView::Text(t) => Some(t),
            _ => None,
        }
    }

    /// The number of 64 bits that a number value denotes; `None` for other
    /// values and for numbers that are no such integer.
    pub open spec fn integer(self) -> Option<i64> {
        match self {
            JsonView::Number(t) => integer_of(t),
            _ => None,
        }
    }

    pub open spec fn items(self) -> Option<Seq<JsonView>> {
        match self {
            JsonView::Array(items) => Some(items),
            _ => None,
        }
    }

    /// A non-negative integer, as a count or an index is.
    pub open spec fn count(self) -> Option<u64> {
        match self.integer() {
            Some(n) if n >= 0 => Some(n as u64),
            _ => None,
        }
    }

    /// The characters of the member `key`, where it is a string.
    pub open spec fn text_member(self, key: Seq<char>) -> Option<Seq<char>> {
        match self.member(key) {
            Some(value) => value.text(),
            None => None,
        }
    }

    /// The number of the member `key`, where it is a non-negative integer.
    pub open spec fn count_member(self, key: Seq<char>) -> Option<u64> {
        match self.member(key) {
            Some(value) => value.count(),
            None => None,
        }
    }
}

/// The names and the views of a sequence of members.
pub open spec fn member_views(members: Seq<(String, Json)>) -> Seq<(Seq<char>, JsonView)> {
    Seq::new(members.len(), |i: int| (members[i].0@, members[i].1@))
}

/// The views of a sequence of values.
pub open spec fn views(items: Seq<Json>) -> Seq<JsonView> {
    Seq::new(items.len(), |i: int| items[i]@)
}

/// The view of an optional value.
pub open spec fn view_of(value: Option<Json>) -> Option<JsonView> {
    match value {
        Some(j) => Some(j@),
        None => None,
    }
}

/// How deeply a value may be nested to be written: as deeply as the reader
/// lets a text be nested.
pub const NESTING_LIMIT: usize = 128;

/// Whether arrays and objects are nested in `value` at most `limit` deep.
pub open spec fn nests_within(value: JsonView, limit: nat) -> bool
    decreases limit,
{
    match value {
        JsonView::Array(items) => limit > 0 && forall|i: int|
            0 <= i < items.len() ==> nests_within(#[trigger] items[i], (limit - 1) as nat),
        JsonView::Object(members) => limit > 0 && forall|i: int|
            0 <= i < members.len() ==> nests_within(
                (#[trigger] members[i]).1,
                (limit - 1) as nat,
            ),
        _ => true,
    }
}

/// A value that holds an element nested too deeply is nested too deeply.
proof fn lemma_nested_element(value: JsonView, i: int, limit: nat)
    requires
        limit > 0,
        match value {
            JsonView::Array(items) => 0 <= i < items.len() && !nests_within(
                items[i],
                (limit - 1) as nat,
            ),
            JsonView::Object(members) => 0 <= i < members.len() && !nests_within(
                members[i].1,
                (limit - 1) as nat,
            ),
            _ => false,
        },
    ensures
        !nests_within(value, limit),
{
    if nests_within(value, limit) {
        match value {
            JsonView::Array(items) => {
                assert(forall|k: int|
                    0 <= k < items.len() ==> nests_within(
                        #[trigger] items[k],
                        (limit - 1) as nat,
                    ));
            },
            JsonView::Object(members) => {
                assert(forall|k: int|
                    0 <= k < members.len() ==> nests_within(
                        (#[trigger] members[k]).1,
                        (limit - 1) as nat,
                    ));
            },
            _ => {},
        }
    }
}

/// Whether a value can be handed to the writer: arrays and objects are
/// nested in it at most `limit` deep, and every number in it is written as
/// JSON numbers are.
pub open spec fn writable(value: JsonView, limit: nat) -> bool
    decreases limit,
{
    match value {
        JsonView::Number(text) => json_number(text),
        JsonView::Array(items) => limit > 0 && forall|i: int|
            0 <= i < items.len() ==> writable(#[trigger] items[i], (limit - 1) as nat),
        JsonView::Object(members) => limit > 0 && forall|i: int|
            0 <= i < members.len() ==> writable((#[trigger] members[i]).1, (limit - 1) as nat),
        _ => true,
    }
}

/// A value that holds an element that cannot be written cannot be written.
proof fn lemma_unwritable_element(value: JsonView, i: int, limit: nat)
    requires
        limit > 0,
        match value {
            JsonView::Array(items) => 0 <= i < items.len() && !writable(
                items[i],
                (limit - 1) as nat,
            ),
            JsonView::Object(members) => 0 <= i < members.len() && !writable(
                members[i].1,
                (limit - 1) as nat,
            ),
            _ => false,
        },
    ensures
        !writable(value, limit),
{
    if writable(value, limit) {
        match value {
            JsonView::Array(items) => {
                assert(forall|k: int|
                    0 <= k < items.len() ==> writable(#[trigger] items[k], (limit - 1) as nat));
            },
            JsonView::Object(members) => {
                assert(forall|k: int|
                    0 <= k < members.len() ==> writable(
                        (#[trigger] members[k]).1,
                        (limit - 1) as nat,
                    ));
            },
            _ => {},
        }
    }
}

/// What writing a value gives. A value nested more deeply than
/// [`NESTING_LIMIT`] is refused, and so is a value that holds a number which
/// is not written as JSON numbers are, each with an error that says so. For
/// any other value it is what `serde_json` writes.
pub open spec fn written(value: JsonView) -> Result<Seq<u8>, Seq<char>> {
    if !nests_within(value, NESTING_LIMIT as nat) {
        Err("the value is nested too deeply"@)
    } else if !writable(value, NESTING_LIMIT as nat) {
        Err("a number is not written as JSON numbers are"@)
    } else {
        json_written(value)
    }
}

/// What `serde_json` reads from a byte string: the value that the text
/// denotes, or `None` where the text is not one JSON value.
pub uninterp spec fn json_parsed(bytes: Seq<u8>) -> Option<JsonView>;

/// What `serde_json` writes for a value: its JSON text, or the message of the
/// error that it reports.
pub uninterp spec fn json_written(value: JsonView) -> Result<Seq<u8>, Seq<char>>;

/// `serde_json::Value`, of which nothing is looked into here: it is only
/// turned into a [`Json`] and back.
#[verifier::external_type_specification]
#[verifier::external_body]
pub struct ExValue(serde_json::Value);

/// Turns a `serde_json::Value` into a [`Json`], variant by variant. A number
/// becomes the text that `serde_json::Number` displays.
#[verifier::external_body]
fn from_value(value: serde_json::Value) -> Json {
    match value {
        serde_json::Value::Null => Json::Null,
        serde_json::Value::Bool(b) => Json::Bool(b),
        serde_json::Value::Number(n) => Json::Number(n.to_string()),
        serde_json::Value::String(s) => Json::Text(s),
        serde_json::Value::Array(a) => Json::Array(a.into_iter().map(from_value).collect()),
        serde_json::Value::Object(m) => Json::Object(
            m.into_iter().map(|(k, v)| (k, from_value(v))).collect(),
        ),
    }
}

/// `serde_json::Error`, of which only the message is taken.
#[verifier::external_type_specification]
#[verifier::external_body]
pub struct ExJsonError(serde_json::Error);

/// Turns a [`Json`] into a `serde_json::Value`, variant by variant. The text
/// of a number is read by `serde_json::from_str`; its error, where it
/// reports one, is the result.
#[verifier::external_body]
fn to_value(value: &Json) -> Result<serde_json::Value, serde_json::Error> {
    Ok(match value {
        Json::Null => serde_json::Value::Null,
        Json::Bool(b) => serde_json::Value::Bool(*b),
        Json::Number(t) => serde_json::Value::Number(serde_json::from_str(t)?),
        Json::Text(s) => serde_json::Value::String(s.clone()),
        Json::Array(a) => serde_json::Value::Array(
            a.iter().map(to_value).collect::<Result<_, _>>()?,
        ),
        Json::Object(m) => serde_json::Value::Object(
            m.iter().map(|(k, v)| Ok((k.clone(), to_value(v)?))).collect::<Result<_, _>>()?,
        ),
    })
}

/// `serde_json::from_slice`, read as a `serde_json::Value`. The result is the
/// value named by [`json_parsed`].
#[verifier::external_body]
fn from_slice(bytes: &[u8]) -> (parsed: Option<Json>)
    ensures
        view_of(parsed) == json_parsed(bytes@),
{
    serde_json::from_slice::<serde_json::Value>(bytes).ok().map(from_value)
}

/// `serde_json::to_vec` on the value. The result is the text, or the error
/// message, named by [`json_written`]; the error is that of the writer or,
/// for a number that is out of the writer's range, that of the reader of
/// its text. The writer calls itself for every level of nesting, so values
/// nested without bound are kept from it.
#[verifier::external_body]
fn to_vec(value: &Json) -> (written: Result<Vec<u8>, String>)
    requires
        writable(value@, NESTING_LIMIT as nat),
    ensures
        match written {
            Ok(bytes) => json_written(value@) == Ok::<Seq<u8>, Seq<char>>(bytes@),
            Err(message) => json_written(value@) == Err::<Seq<u8>, Seq<char>>(message@),
        },
{
    to_value(value).and_then(|v| serde_json::to_vec(&v)).map_err(|e| e.to_string())
}

/// The view of an array, element by element.
pub proof fn lemma_array_view(items: Vec<Json>)
    ensures
        Json::Array(items)@ == JsonView::Array(views(items@)),
{
    assert(Json::Array(items)@->Array_0 =~= views(items@));
}

impl Clone for Json {
    /// A copy with the same value.
    fn clone(&self) -> (copy: Json)
        ensures
            copy@ == self@,
        decreases self,
    {
        match self {
            Json::Null => Json::Null,
            Json::Bool(b) => Json::Bool(*b),
            Json::Number(t) => Json::Number(t.clone()),
            Json::Text(t) => Json::Text(t.clone()),
            Json::Array(items) => {
                let mut copies: Vec<Json> = Vec::new();
                let mut i: usize = 0;
                while i < items.len()
                    invariant
                        0 <= i <= items.len(),
                        *self == Json::Array(*items),
                        copies@.len() == i,
                        forall|k: int| 0 <= k < i ==> copies@[k]@ == items@[k]@,
                    decreases items.len() - i,
                {
                    proof {
                        assert(decreases_to!(*self => self->Array_0[i as int]));
                    }
                    copies.push(items[i].clone());
                    i += 1;
                }
                proof {
                    lemma_array_view(*items);
                    lemma_array_view(copies);
                    assert(views(copies@) =~= views(items@));
                }
                Json::Array(copies)
            },
            Json::Object(members) => {
                let mut copies: Vec<(String, Json)> = Vec::new();
                let mut i: usize = 0;
                while i < members.len()
                    invariant
                        0 <= i <= members.len(),
                        *self == Json::Object(*members),
                        copies@.len() == i,
                        forall|k: int|
                            0 <= k < i ==> copies@[k].0@ == members@[k].0@ && copies@[k].1@
                                == members@[k].1@,
                    decreases members.len() - i,
                {
                    proof {
                        assert(decreases_to!(*self => self->Object_0[i as int].1));
                    }
                    copies.push((members[i].0.clone(), members[i].1.clone()));
                    i += 1;
                }
                proof {
                    assert(Json::Object(copies)@->Object_0 =~= Json::Object(*members)@->Object_0);
                }
                Json::Object(copies)
            },
        }
    }
}

/// A type of results: it says how a value of it is read from the payload of
/// an answer. `from_json` gives `None` where the payload does not have the
/// shape of the type.
pub trait FromJson: Sized {
    fn from_json(value: &Json) -> Option<Self>;
}

/// Whether `decoded` is what reading every one of `items` as a `T` gives:
/// the values read, in order, or `None` where one of them is no `T`.
pub open spec fn reads_all<T: FromJson>(items: Seq<Json>, decoded: Option<Vec<T>>) -> bool {
    match decoded {
        Some(values) => {
            &&& values@.len() == items.len()
            &&& forall|i: int|
                0 <= i < items.len() ==> call_ensures(
                    T::from_json,
                    (&#[trigger] items[i],),
                    Some(values@[i]),
                )
        },
        None => exists|i: int|
            0 <= i < items.len() && call_ensures(T::from_json, (&#[trigger] items[i],), None::<T>),
    }
}

/// Reads every one of `items` as a `T`.
pub fn read_all<T: FromJson>(items: &Vec<Json>) -> (decoded: Option<Vec<T>>)
    ensures
        reads_all(items@, decoded),
{
    let mut values: Vec<T> = Vec::new();
    let mut i: usize = 0;
    while i < items.len()
        invariant
            0 <= i <= items.len(),
            values@.len() == i,
            forall|k: int|
                0 <= k < i ==> call_ensures(
                    T::from_json,
                    (&#[trigger] items@[k],),
                    Some(values@[k]),
                ),
        decreases items.len() - i,
    {
        match T::from_json(&items[i]) {
            Some(value) => {
                values.push(value);
            },
            None => {
                return None;
            },
        }
        i += 1;
    }
    Some(values)
}

/// An array is read element by element; any other value is no list.
impl<T: FromJson> FromJson for Vec<T> {
    fn from_json(value: &Json) -> (decoded: Option<Vec<T>>)
        ensures
            match value {
                Json::Array(items) => reads_all(items@, decoded),
                _ => decoded is None,
            },
    {
        match value {
            Json::Array(items) => read_all(items),
            _ => None,
        }
    }
}

/// Any payload can be taken as it is.
impl FromJson for Json {
    fn from_json(value: &Json) -> (decoded: Option<Json>)
        ensures
            decoded matches Some(j) && j@ == value@,
    {
        Some(value.clone())
    }
}

impl Json {
    /// The string value with the characters of `text`.
    pub fn text(text: &str) -> (value: Json)
        ensures
            value@ == JsonView::Text(text@),
    {
        Json::Text(String::from_str(text))
    }

    /// The number value of an integer.
    pub fn integer(number: i64) -> (value: Json)
        ensures
            value@ == JsonView::Number(signed_decimal(number as int)),
            value@.integer() == Some(number),
    {
        proof {
            lemma_integer_of(number);
        }
        Json::Number(signed_text(number))
    }

    /// The array value with the given elements.
    pub fn array(items: Vec<Json>) -> (value: Json)
        ensures
            value@ == JsonView::Array(views(items@)),
    {
        proof {
            lemma_array_view(items);
        }
        Json::Array(items)
    }

    /// The object value with the given members.
    pub fn object(members: Vec<(String, Json)>) -> (value: Json)
        ensures
            value@ == JsonView::Object(member_views(members@)),
    {
        proof {
            assert(Json::Object(members)@->Object_0 =~= member_views(members@));
        }
        Json::Object(members)
    }

    /// Reads one JSON value from `bytes`.
    pub fn parse(bytes: &[u8]) -> (parsed: Option<Json>)
        ensures
            view_of(parsed) == json_parsed(bytes@),
    {
        from_slice(bytes)
    }

    /// Whether arrays and objects are nested in the value at most `limit`
    /// deep.
    pub fn nests_within(&self, limit: usize) -> (within: bool)
        ensures
            within == nests_within(self@, limit as nat),
        decreases limit,
    {
        match self {
            Json::Array(items) => {
                if limit == 0 {
                    return false;
                }
                proof {
                    lemma_array_view(*items);
                }
                let mut i: usize = 0;
                while i < items.len()
                    invariant
                        0 <= i <= items.len(),
                        limit > 0,
                        self@ == JsonView::Array(views(items@)),
                        forall|k: int|
                            0 <= k < i ==> nests_within(
                                #[trigger] views(items@)[k],
                                (limit - 1) as nat,
                            ),
                    decreases items.len() - i,
                {
                    if !items[i].nests_within(limit - 1) {
                        proof {
                            lemma_nested_element(self@, i as int, limit as nat);
                        }
                        return false;
                    }
                    i += 1;
                }
                true
            },
            Json::Object(members) => {
                if limit == 0 {
                    return false;
                }
                let ghost all = self@->Object_0;
                let mut i: usize = 0;
                while i < members.len()
                    invariant
                        0 <= i <= members.len(),
                        limit > 0,
                        self@ == JsonView::Object(all),
                        all.len() == members@.len(),
                        forall|k: int| 0 <= k < members@.len() ==> all[k].1 == members@[k].1@,
                        forall|k: int|
                            0 <= k < i ==> nests_within((#[trigger] all[k]).1, (limit - 1) as nat),
                    decreases members.len() - i,
                {
                    if !members[i].1.nests_within(limit - 1) {
                        proof {
                            lemma_nested_element(self@, i as int, limit as nat);
                        }
                        return false;
                    }
                    i += 1;
                }
                true
            },
            _ => true,
        }
    }

    /// Whether the value can be handed to the writer: it is nested at most
    /// `limit` deep and its numbers are written as JSON numbers are.
    pub fn is_writable(&self, limit: usize) -> (fit: bool)
        ensures
            fit == writable(self@, limit as nat),
        decreases limit,
    {
        match self {
            Json::Number(text) => is_json_number(text.as_str()),
            Json::Array(items) => {
                if limit == 0 {
                    return false;
                }
                proof {
                    lemma_array_view(*items);
                }
                let mut i: usize = 0;
                while i < items.len()
                    invariant
                        0 <= i <= items.len(),
                        limit > 0,
                        self@ == JsonView::Array(views(items@)),
                        forall|k: int|
                            0 <= k < i ==> writable(
                                #[trigger] views(items@)[k],
                                (limit - 1) as nat,
                            ),
                    decreases items.len() - i,
                {
                    if !items[i].is_writable(limit - 1) {
                        proof {
                            lemma_unwritable_element(self@, i as int, limit as nat);
                        }
                        return false;
                    }
                    i += 1;
                }
                true
            },
            Json::Object(members) => {
                if limit == 0 {
                    return false;
                }
                let ghost all = self@->Object_0;
                let mut i: usize = 0;
                while i < members.len()
                    invariant
                        0 <= i <= members.len(),
                        limit > 0,
                        self@ == JsonView::Object(all),
                        all.len() == members@.len(),
                        forall|k: int| 0 <= k < members@.len() ==> all[k].1 == members@[k].1@,
                        forall|k: int|
                            0 <= k < i ==> writable((#[trigger] all[k]).1, (limit - 1) as nat),
                    decreases members.len() - i,
                {
                    if !members[i].1.is_writable(limit - 1) {
                        proof {
                            lemma_unwritable_element(self@, i as int, limit as nat);
                        }
                        return false;
                    }
                    i += 1;
                }
                true
            },
            _ => true,
        }
    }

    /// Writes the value as JSON text.
    pub fn to_bytes(&self) -> (text: Result<Vec<u8>, String>)
        ensures
            match text {
                Ok(bytes) => written(self@) == Ok::<Seq<u8>, Seq<char>>(bytes@),
                Err(message) => written(self@) == Err::<Seq<u8>, Seq<char>>(message@),
            },
    {
        if !self.nests_within(NESTING_LIMIT) {
            Err(String::from_str("the value is nested too deeply"))
        } else if !self.is_writable(NESTING_LIMIT) {
            Err(String::from_str("a number is not written as JSON numbers are"))
        } else {
            to_vec(self)
        }
    }

    /// The member `key` of an object, the first where several carry that name.
    pub fn member(&self, key: &str) -> (found: Option<&Json>)
        ensures
            match found {
                Some(j) => self@.member(key@) == Some(j@),
                None => self@.member(key@) is None,
            },
    {
        match self {
            Json::Object(members) => {
                let ghost all = self@->Object_0;
                assert(all.skip(0) =~= all);
                let mut i: usize = 0;
                while i < members.len()
                    invariant
                        0 <= i <= members.len(),
                        self@ == JsonView::Object(all),
                        all.len() == members@.len(),
                        forall|k: int|
                            0 <= k < members@.len() ==> all[k] == (
                                members@[k].0@,
                                members@[k].1@,
                            ),
                        first_member(all, key@) == first_member(all.skip(i as int), key@),
                    decreases members.len() - i,
                {
                    if same_text(members[i].0.as_str(), key) {
                        return Some(&members[i].1);
                    }
                    proof {
                        assert(all.skip(i as int).drop_first() =~= all.skip(i as int + 1));
                    }
                    i += 1;
                }
                None
            },
            _ => None,
        }
    }

    /// The member `key` of an object, taken out of it.
    pub fn into_member(self, key: &str) -> (found: Option<Json>)
        ensures
            view_of(found) == self@.member(key@),
    {
        match self {
            Json::Object(mut members) => {
                let ghost all = self@->Object_0;
                assert(all.skip(0) =~= all);
                let mut i: usize = 0;
                while i < members.len()
                    invariant
                        0 <= i <= members.len(),
                        self@ == JsonView::Object(all),
                        all.len() == members@.len(),
                        forall|k: int|
                            0 <= k < members@.len() ==> all[k] == (
                                members@[k].0@,
                                members@[k].1@,
                            ),
                        first_member(all, key@) == first_member(all.skip(i as int), key@),
                    decreases members.len() - i,
                {
                    if same_text(members[i].0.as_str(), key) {
                        let (_, value) = members.swap_remove(i);
                        return Some(value);
                    }
                    proof {
                        assert(all.skip(i as int).drop_first() =~= all.skip(i as int + 1));
                    }
                    i += 1;
                }
                None
            },
            _ => None,
        }
    }

    /// The characters of a string value.
    pub fn as_text(&self) -> (text: Option<&str>)
        ensures
            match text {
                Some(t) => self@.text() == Some(t@),
                None => self@.text() is None,
            },
    {
        match self {
            Json::Text(t) => Some(t.as_str()),
            _ => None,
        }
    }

    /// The number of an integer value.
    pub fn as_integer(&self) -> (number: Option<i64>)
        ensures
            number == self@.integer(),
    {
        match self {
            Json::Number(t) => parse_integer(t.as_str()),
            _ => None,
        }
    }

    /// The number of an integer value that is not negative.
    pub fn as_count(&self) -> (number: Option<u64>)
        ensures
            number == self@.count(),
    {
        match self {
            Json::Number(t) => match parse_integer(t.as_str()) {
                Some(n) => if n >= 0 {
                    Some(n as u64)
                } else {
                    None
                },
                None => None,
            },
            _ => None,
        }
    }

    /// The characters of the member `key`, where it is a string.
    pub fn text_member(&self, key: &str) -> (text: Option<String>)
        ensures
            match text {
                Some(t) => self@.text_member(key@) == Some(t@),
                None => self@.text_member(key@) is None,
            },
    {
        match self.member(key) {
            Some(value) => match value.as_text() {
                Some(t) => Some(String::from_str(t)),
                None => None,
            },
            None => None,
        }
    }

    /// The number of the member `key`, where it is a non-negative integer.
    pub fn count_member(&self, key: &str) -> (number: Option<u64>)
        ensures
            number == self@.count_member(key@),
    {
        match self.member(key) {
            Some(value) => value.as_count(),
            None => None,
        }
    }

    /// The elements of an array value.
    pub fn as_array(&self) -> (items: Option<&Vec<Json>>)
        ensures
            match items {
                Some(v) => self@.items() == Some(views(v@)),
                None => self@.items() is None,
            },
    {
        match self {
            Json::Array(items) => {
                Some(items)
            },
            _ => None,
        }
    }

    /// The elements of an array value, taken out of it.
    pub fn into_array(self) -> (items: Option<Vec<Json>>)
        ensures
            match items {
                Some(v) => self@.items() == Some(views(v@)),
                None => self@.items() is None,
            },
    {
        match self {
            Json::Array(items) => {
                Some(items)
            },
            _ => None,
        }
    }
}

} // verus!
