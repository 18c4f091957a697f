//! A JSON value whose text is held as UTF-8 bytes, with object lookup.
use vstd::prelude::*;

use crate::text::{decimal, push_decimal};

verus! {

/// A JSON value. Strings and object keys are UTF-8 bytes; a number is held as
/// its JSON text.
#[derive(Debug, PartialEq)]
pub enum Json {
    Null,
    Bool(bool),
    Number(Vec<u8>),
    Str(Vec<u8>),
    Array(Vec<Json>),
    Object(Vec<(Vec<u8>, Json)>),
}

/// The value of the first member of `fields` named `key`.
pub open spec fn field(fields: Seq<(Vec<u8>, Json)>, key: Seq<u8>) -> Option<Json>
    decreases fields.len(),
{
    if fields.len() == 0 {
        None
    } else if fields[0].0@ == key {
        Some(fields[0].1)
    } else {
        field(fields.drop_first(), key)
    }
}

/// The member `key` of an object; nothing for any other value.
pub open spec fn get_spec(v: Json, key: Seq<u8>) -> Option<Json> {
    match v {
        Json::Object(fields) => field(fields@, key),
        _ => None,
    }
}

/// The text of a JSON string; nothing for any other value.
pub open spec fn str_spec(v: Option<Json>) -> Option<Seq<u8>> {
    match v {
        Some(Json::Str(s)) => Some(s@),
        _ => None,
    }
}

/// The members of an object; nothing for any other value.
pub open spec fn members(v: Json) -> Seq<(Vec<u8>, Json)> {
    match v {
        Json::Object(f) => f@,
        _ => Seq::empty(),
    }
}

/// Whether `v` is an object of `n` members.
pub open spec fn is_object_of_len(v: Json, n: int) -> bool {
    v is Object && members(v).len() == n
}

/// The name of the `i`th member of an object.
pub open spec fn key_at(v: Json, i: int) -> Seq<u8> {
    members(v)[i].0@
}

/// The value of the `i`th member of an object.
pub open spec fn value_at(v: Json, i: int) -> Json {
    members(v)[i].1
}

/// Whether `v` is the string `s`.
pub open spec fn is_str(v: Json, s: Seq<u8>) -> bool {
    v matches Json::Str(t) && t@ == s
}

/// Whether `v` is the number written `s`.
pub open spec fn is_number(v: Json, s: Seq<u8>) -> bool {
    v matches Json::Number(t) && t@ == s
}

pub fn bytes_equal(a: &[u8], b: &[u8]) -> (r: bool)
    ensures
        r == (a@ == b@),
{
    if a.len() != b.len() {
        return false;
    }
    let mut i: usize = 0;
    while i < a.len()
        invariant
            a@.len() == b@.len(),
            i <= a@.len(),
            a@.subrange(0, i as int) == b@.subrange(0, i as int),
        decreases a.len() - i,
    {
        if a[i] != b[i] {
            assert(a@[i as int] != b@[i as int]);
            return false;
        }
        assert(a@.subrange(0, i + 1) =~= a@.subrange(0, i as int).push(a@[i as int]));
        assert(b@.subrange(0, i + 1) =~= b@.subrange(0, i as int).push(b@[i as int]));
        i = i + 1;
    }
    assert(a@ =~= a@.subrange(0, i as int));
    assert(b@ =~= b@.subrange(0, i as int));
    true
}

proof fn lemma_field_from(fields: Seq<(Vec<u8>, Json)>, key: Seq<u8>, i: int)
    requires
        0 <= i <= fields.len(),
        forall|k: int| 0 <= k < i ==> (#[trigger] fields[k]).0@ != key,
    ensures
        field(fields, key) == field(fields.subrange(i, fields.len() as int), key),
    decreases i,
{
    if i > 0 {
        lemma_field_from(fields.drop_first(), key, i - 1);
        assert(fields.drop_first().subrange(i - 1, fields.len() - 1) =~= fields.subrange(
            i,
            fields.len() as int,
        ));
    } else {
        assert(fields.subrange(0, fields.len() as int) =~= fields);
    }
}

/// Where the first member named `key` stands, if any.
fn find_field(fields: &Vec<(Vec<u8>, Json)>, key: &[u8]) -> (r: Option<usize>)
    ensures
        r matches Some(i) ==> i < fields@.len() && field(fields@, key@) == Some(fields@[i as int].1)
            && fields@[i as int].0@ == key@ && forall|k: int|
            0 <= k < i ==> (#[trigger] fields@[k]).0@ != key@,
        r is None ==> field(fields@, key@) is None,
{
    let mut i: usize = 0;
    while i < fields.len()
        invariant
            i <= fields@.len(),
            forall|k: int| 0 <= k < i ==> (#[trigger] fields@[k]).0@ != key@,
        decreases fields.len() - i,
    {
        if bytes_equal(fields[i].0.as_slice(), key) {
            proof {
                lemma_field_from(fields@, key@, i as int);
            }
            return Some(i);
        }
        i = i + 1;
    }
    proof {
        lemma_field_from(fields@, key@, i as int);
    }
    None
}

proof fn lemma_field_remove(fields: Seq<(Vec<u8>, Json)>, i: int, key: Seq<u8>)
    requires
        0 <= i < fields.len(),
        fields[i].0@ != key,
    ensures
        field(fields.remove(i), key) == field(fields, key),
    decreases i,
{
    if i == 0 {
        assert(fields.remove(0) =~= fields.drop_first());
    } else if fields[0].0@ == key {
        assert(fields.remove(i)[0] == fields[0]);
    } else {
        lemma_field_remove(fields.drop_first(), i - 1, key);
        assert(fields.remove(i).drop_first() =~= fields.drop_first().remove(i - 1));
    }
}

/// A JSON string holding `s`.
pub fn str_of(s: Vec<u8>) -> (r: Json)
    ensures
        is_str(r, s@),
{
    Json::Str(s)
}

/// The JSON number `n`.
pub fn number_of(n: u64) -> (r: Json)
    ensures
        is_number(r, decimal(n as nat)),
{
    let mut t: Vec<u8> = Vec::new();
    push_decimal(&mut t, n);
    assert(t@ =~= decimal(n as nat));
    Json::Number(t)
}

/// An empty JSON object.
pub fn empty_object() -> (r: Json)
    ensures
        is_object_of_len(r, 0),
{
    Json::Object(Vec::new())
}

impl Json {
    /// Moves the member `key` out of an object, leaving the other members.
    pub fn take(&mut self, key: &[u8]) -> (r: Option<Json>)
        ensures
            r == get_spec(*old(self), key@),
            forall|k: Seq<u8>|
                k != key@ ==> #[trigger] get_spec(*final(self), k) == get_spec(*old(self), k),
    {
        match self {
            Json::Object(fields) => match find_field(fields, key) {
                Some(i) => {
                    let ghost before = fields@;
                    let (_, v) = fields.remove(i);
                    proof {
                        assert forall|k: Seq<u8>| k != key@ implies field(fields@, k) == field(
                            before,
                            k,
                        ) by {
                            lemma_field_remove(before, i as int, k);
                        }
                    }
                    Some(v)
                },
                None => None,
            },
            _ => None,
        }
    }

    /// The member `key` of an object; nothing for any other value.
    pub fn get(&self, key: &[u8]) -> (r: Option<&Json>)
        ensures
            r matches Some(x) ==> get_spec(*self, key@) == Some(*x),
            r is None ==> get_spec(*self, key@) is None,
    {
        match self {
            Json::Object(fields) => match find_field(fields, key) {
                Some(i) => Some(&fields[i].1),
                None => None,
            },
            _ => None,
        }
    }

    /// The text of the string member `key`, if it is one.
    pub fn get_str(&self, key: &[u8]) -> (r: Option<Vec<u8>>)
        ensures
            r matches Some(s) ==> str_spec(get_spec(*self, key@)) == Some(s@),
            r is None ==> str_spec(get_spec(*self, key@)) is None,
    {
        match self.get(key) {
            Some(Json::Str(s)) => Some(vstd::slice::slice_to_vec(s.as_slice())),
            _ => None,
        }
    }
}

} // verus!
