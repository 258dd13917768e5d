//! JSON documents as the adapter reads them: one level of an object at a
//! time, with nested values kept as text.

use vstd::prelude::*;

verus! {

/// The value of one member of a JSON object.
#[derive(Clone, Debug, PartialEq, Eq)]
pub enum Field {
    Null,
    Bool(bool),
    /// A number: its value where it is an integer that fits `i64`, and its text.
    Number(Option<i64>, String),
    Str(String),
    /// An array or an object, as compact JSON text.
    Nested(String),
}

/// The mathematical value of a [`Field`].
pub enum FieldV {
    Null,
    Bool(bool),
    Number(Option<i64>, Seq<char>),
    Str(Seq<char>),
    Nested(Seq<char>),
}

impl View for Field {
    type V = FieldV;

    open spec fn view(&self) -> FieldV {
        match *self {
            Field::Null => FieldV::Null,
            Field::Bool(b) => FieldV::Bool(b),
            Field::Number(i, t) => FieldV::Number(i, t@),
            Field::Str(s) => FieldV::Str(s@),
            Field::Nested(t) => FieldV::Nested(t@),
        }
    }
}

/// One key of a JSON object with its value.
#[derive(Clone, Debug, PartialEq, Eq)]
pub struct Member {
    pub key: String,
    pub value: Field,
}

impl View for Member {
    type V = (Seq<char>, FieldV);

    open spec fn view(&self) -> (Seq<char>, FieldV) {
        (self.key@, self.value@)
    }
}

/// The members of a JSON object, as keys and values.
pub type ObjectV = Seq<(Seq<char>, FieldV)>;

/// The view of a list of members.
pub open spec fn members_view(ms: Seq<Member>) -> ObjectV {
    ms.map_values(|m: Member| m@)
}

/// The views of a list of strings.
pub open spec fn strings_view(ss: Seq<String>) -> Seq<Seq<char>> {
    ss.map_values(|s: String| s@)
}

/// The members of the JSON object that `text` denotes, each key once;
/// `None` where `text` is not JSON or denotes something else than an object.
pub uninterp spec fn json_object(text: Seq<char>) -> Option<ObjectV>;

/// The elements of the JSON array that `text` denotes, each as compact JSON
/// text; `None` where `text` is not JSON or denotes something else than an array.
pub uninterp spec fn json_array(text: Seq<char>) -> Option<Seq<Seq<char>>>;

/// The text that JSON gives the integer `value`.
pub uninterp spec fn json_number_text(value: i64) -> Seq<char>;

/// Whether no key occurs twice among `ms`.
pub open spec fn keys_distinct(ms: ObjectV) -> bool {
    forall|i: int, j: int| 0 <= i < j < ms.len() ==> (#[trigger] ms[i]).0 != (#[trigger] ms[j]).0
}

/// Parses `text` with `serde_json::from_str` and hands out the members of
/// the object it denotes. Not proved: that the members are those named by
/// [`json_object`], and that no key comes twice (the parser keeps an object
/// in a map keyed by the member's name).
#[verifier::external_body]
pub(crate) fn parse_object(text: &str) -> (r: Option<Vec<Member>>)
    ensures
        r is Some <==> json_object(text@) is Some,
        r is Some ==> members_view(r->Some_0@) == json_object(text@)->Some_0,
        r is Some ==> keys_distinct(members_view(r->Some_0@)),
{
    let value: serde_json::Value = serde_json::from_str(text).ok()?;
    Some(value.as_object()?.iter().map(|(k, v)| Member {
        key: k.clone(),
        value: match v {
            serde_json::Value::Null => Field::Null,
            serde_json::Value::Bool(b) => Field::Bool(*b),
            serde_json::Value::Number(n) => Field::Number(n.as_i64(), n.to_string()),
            serde_json::Value::String(s) => Field::Str(s.clone()),
            _ => Field::Nested(v.to_string()),
        },
    }).collect())
}

/// Parses `text` with `serde_json::from_str` and hands out the elements of
/// the array it denotes, each printed compactly. Not proved: that they are
/// the elements named by [`json_array`].
#[verifier::external_body]
pub(crate) fn parse_array(text: &str) -> (r: Option<Vec<String>>)
    ensures
        r is Some <==> json_array(text@) is Some,
        r is Some ==> strings_view(r->Some_0@) == json_array(text@)->Some_0,
{
    let value: serde_json::Value = serde_json::from_str(text).ok()?;
    Some(value.as_array()?.iter().map(|v| v.to_string()).collect())
}

/// Prints `value` as `serde_json::Number` does. Not proved: that the text
/// is the one named by [`json_number_text`].
#[verifier::external_body]
pub(crate) fn number_text(value: i64) -> (r: String)
    ensures
        r@ == json_number_text(value),
{
    serde_json::Number::from(value).to_string()
}

/// Whether two strings hold the same characters.
pub fn same_text(a: &str, b: &str) -> (r: bool)
    ensures
        r == (a@ == b@),
{
    a.to_owned() == b.to_owned()
}

/// The value of the first member of `ms` whose key is `key`.
pub open spec fn lookup(ms: ObjectV, key: Seq<char>) -> Option<FieldV>
    decreases ms.len(),
{
    if ms.len() == 0 {
        None
    } else {
        match lookup(ms.drop_last(), key) {
            Some(v) => Some(v),
            None => if ms.last().0 == key {
                Some(ms.last().1)
            } else {
                None
            },
        }
    }
}

/// The position of the first member of `ms` whose key is `key`.
pub open spec fn position(ms: ObjectV, key: Seq<char>) -> Option<int>
    decreases ms.len(),
{
    if ms.len() == 0 {
        None
    } else {
        match position(ms.drop_last(), key) {
            Some(i) => Some(i),
            None => if ms.last().0 == key {
                Some(ms.len() - 1)
            } else {
                None
            },
        }
    }
}

/// Where `position` finds a key, the key stands there and nowhere before,
/// and `lookup` gives the value there; where it finds none, `lookup` finds none and no member
/// has the key.
pub proof fn lemma_position(ms: ObjectV, key: Seq<char>)
    ensures
        match position(ms, key) {
            Some(i) => 0 <= i < ms.len() && ms[i].0 == key && lookup(ms, key) == Some(ms[i].1)
                && forall|j: int| 0 <= j < i ==> (#[trigger] ms[j]).0 != key,
            None => lookup(ms, key) is None && forall|j: int| 0 <= j < ms.len() ==> (#[trigger] ms[j]).0 != key,
        },
    decreases ms.len(),
{
    if ms.len() > 0 {
        let front = ms.drop_last();
        lemma_position(front, key);
        if position(front, key) is None {
            assert forall|j: int| 0 <= j < ms.len() - 1 implies (#[trigger] ms[j]).0 != key by {
                assert(front[j] == ms[j]);
            }
        } else {
            let i = position(front, key)->Some_0;
            assert(front[i] == ms[i]);
            assert forall|j: int| 0 <= j < i implies (#[trigger] ms[j]).0 != key by {
                assert(front[j] == ms[j]);
            }
        }
    }
}

/// Finds the first member of `ms` whose key is `key`.
pub fn find(ms: &Vec<Member>, key: &str) -> (r: Option<usize>)
    ensures
        match r {
            Some(i) => position(members_view(ms@), key@) == Some(i as int) && i < ms.len(),
            None => position(members_view(ms@), key@) is None,
        },
{
    let mut found: Option<usize> = None;
    let mut i: usize = 0;
    while i < ms.len()
        invariant
            i <= ms.len(),
            match found {
                Some(k) => position(members_view(ms@).take(i as int), key@) == Some(k as int) && k < i,
                None => position(members_view(ms@).take(i as int), key@) is None,
            },
        decreases ms.len() - i,
    {
        proof {
            let next = members_view(ms@).take(i + 1);
            assert(next.drop_last() == members_view(ms@).take(i as int));
            assert(next.last() == ms@[i as int]@);
        }
        if found.is_none() && same_text(ms[i].key.as_str(), key) {
            found = Some(i);
        }
        i += 1;
    }
    proof {
        assert(members_view(ms@).take(ms.len() as int) == members_view(ms@));
    }
    found
}

/// The value of the first member of `ms` whose key is `key`.
pub fn get<'a>(ms: &'a Vec<Member>, key: &str) -> (r: Option<&'a Field>)
    ensures
        match r {
            Some(f) => lookup(members_view(ms@), key@) == Some(f@),
            None => lookup(members_view(ms@), key@) is None,
        },
{
    proof {
        lemma_position(members_view(ms@), key@);
    }
    match find(ms, key) {
        Some(i) => Some(&ms[i].value),
        None => None,
    }
}

/// The view of a string that may be absent.
pub open spec fn text_view(text: Option<String>) -> Option<Seq<char>> {
    match text {
        Some(s) => Some(s@),
        None => None,
    }
}

/// Whether `name` is among `names`.
pub fn has_text(names: &Vec<String>, name: &str) -> (r: bool)
    ensures
        r == strings_view(names@).contains(name@),
{
    let mut i: usize = 0;
    while i < names.len()
        invariant
            i <= names.len(),
            forall|k: int| 0 <= k < i ==> strings_view(names@)[k] != name@,
        decreases names.len() - i,
    {
        if same_text(names[i].as_str(), name) {
            proof {
                assert(strings_view(names@)[i as int] == name@);
            }
            return true;
        }
        i += 1;
    }
    false
}

} // verus!
