use vstd::prelude::*;
use crate::text::text_eq;

verus! {

/// A JSON document as the library reads it.
///
/// Numbers keep the decimal text that denotes them; an object keeps its
/// members in order. Where a key occurs more than once, lookups read its
/// first member.
#[derive(Debug)]
pub enum Json {
    Null,
    Bool(bool),
    Number(String),
    Str(String),
    Array(Vec<Json>),
    Object(Vec<Member>),
}

/// One member of a JSON object.
#[derive(Debug)]
pub struct Member {
    pub key: String,
    pub value: Json,
}

/// The value of the first member of `members` whose key is `key`.
pub open spec fn lookup(members: Seq<Member>, key: Seq<char>) -> Option<Json>
    decreases members.len(),
{
    if members.len() == 0 {
        None
    } else if members[0].key@ == key {
        Some(members[0].value)
    } else {
        lookup(members.drop_first(), key)
    }
}

/// Keys are matched character for character: a lookup answers exactly when
/// some member's key equals `key`, and then with the value of the first such
/// member; a member whose key differs from `key` in any character (letter
/// case included) never answers it.
pub proof fn law_lookup_matches_keys_exactly(members: Seq<Member>, key: Seq<char>)
    ensures
        (lookup(members, key) is Some) <==> (exists|i: int|
            0 <= i < members.len() && #[trigger] members[i].key@ == key),
        lookup(members, key) matches Some(v) ==> exists|i: int|
            0 <= i < members.len() && #[trigger] members[i].key@ == key && members[i].value == v
                && forall|j: int| 0 <= j < i ==> members[j].key@ != key,
    decreases members.len(),
{
    if members.len() > 0 {
        let rest = members.drop_first();
        law_lookup_matches_keys_exactly(rest, key);
        if members[0].key@ == key {
            assert(members[0].key@ == key);
        } else {
            assert forall|i: int| 0 <= i < members.len() && #[trigger] members[i].key@ == key implies
                0 <= i - 1 < rest.len() && rest[i - 1].key@ == key by {
                assert(i != 0);
                assert(rest[i - 1] == members[i]);
            }
            if exists|i: int| 0 <= i < rest.len() && #[trigger] rest[i].key@ == key {
                let i = choose|i: int| 0 <= i < rest.len() && #[trigger] rest[i].key@ == key;
                assert(members[i + 1] == rest[i]);
                assert(members[i + 1].key@ == key);
            }
            if lookup(rest, key) is Some {
                let v = lookup(rest, key)->0;
                let i = choose|i: int|
                    0 <= i < rest.len() && #[trigger] rest[i].key@ == key && rest[i].value == v
                        && forall|j: int| 0 <= j < i ==> rest[j].key@ != key;
                assert(members[i + 1] == rest[i]);
                assert forall|j: int| 0 <= j < i + 1 implies members[j].key@ != key by {
                    if j > 0 {
                        assert(members[j] == rest[j - 1]);
                    }
                }
                assert(members[i + 1].key@ == key);
            }
        }
    }
}

/// The member `key` of `doc`, where `doc` is an object that has one.
pub open spec fn member_of(doc: Json, key: Seq<char>) -> Option<Json> {
    match doc {
        Json::Object(members) => lookup(members@, key),
        _ => None,
    }
}

/// The text of `j`, where `j` is a string.
pub open spec fn as_text(j: Json) -> Option<Seq<char>> {
    match j {
        Json::Str(s) => Some(s@),
        _ => None,
    }
}

/// The decimal text of `j`, where `j` is a number.
pub open spec fn as_number_text(j: Json) -> Option<Seq<char>> {
    match j {
        Json::Number(s) => Some(s@),
        _ => None,
    }
}

/// The value of `j`, where `j` is a boolean.
pub open spec fn as_bool(j: Json) -> Option<bool> {
    match j {
        Json::Bool(b) => Some(b),
        _ => None,
    }
}

/// The text of the member `key` of `doc`, where that member is a string.
pub open spec fn str_field(doc: Json, key: Seq<char>) -> Option<Seq<char>> {
    match member_of(doc, key) {
        Some(v) => as_text(v),
        None => None,
    }
}

/// The decimal text of the member `key` of `doc`, where that member is a
/// number.
pub open spec fn number_field(doc: Json, key: Seq<char>) -> Option<Seq<char>> {
    match member_of(doc, key) {
        Some(v) => as_number_text(v),
        None => None,
    }
}

/// The member `key` of `doc`, where that member is a boolean.
pub open spec fn bool_field(doc: Json, key: Seq<char>) -> Option<bool> {
    match member_of(doc, key) {
        Some(v) => as_bool(v),
        None => None,
    }
}

/// The characters of an optional string.
pub open spec fn text_of(o: Option<String>) -> Option<Seq<char>> {
    match o {
        Some(s) => Some(s@),
        None => None,
    }
}

/// The member `key` of `doc`: `None` where `doc` is no object or has no such
/// member.
pub fn member<'a>(doc: &'a Json, key: &str) -> (r: Option<&'a Json>)
    ensures
        match member_of(*doc, key@) {
            Some(v) => r matches Some(x) && *x == v,
            None => r is None,
        },
{
    match doc {
        Json::Object(members) => {
            let n = members.len();
            assert(members@.skip(0) =~= members@);
            for i in 0..n
                invariant
                    n == members@.len(),
                    member_of(*doc, key@) == lookup(members@, key@),
                    lookup(members@, key@) == lookup(members@.skip(i as int), key@),
            {
                let m = &members[i];
                assert(members@.skip(i as int)[0] == members@[i as int]);
                if text_eq(m.key.as_str(), key) {
                    return Some(&m.value);
                }
                assert(members@.skip(i as int).drop_first() =~= members@.skip(i + 1));
            }
            assert(members@.skip(n as int).len() == 0);
            None
        },
        _ => None,
    }
}

/// The text of `j`, where `j` is a string.
pub fn text_value(j: &Json) -> (r: Option<String>)
    ensures
        text_of(r) == as_text(*j),
{
    match j {
        Json::Str(s) => Some(s.clone()),
        _ => None,
    }
}

/// The decimal text of `j`, where `j` is a number.
pub fn number_value(j: &Json) -> (r: Option<String>)
    ensures
        text_of(r) == as_number_text(*j),
{
    match j {
        Json::Number(s) => Some(s.clone()),
        _ => None,
    }
}

/// The value of `j`, where `j` is a boolean.
pub fn bool_value(j: &Json) -> (r: Option<bool>)
    ensures
        r == as_bool(*j),
{
    match j {
        Json::Bool(b) => Some(*b),
        _ => None,
    }
}

/// The text of the string member `key` of `doc`.
pub fn str_member(doc: &Json, key: &str) -> (r: Option<String>)
    ensures
        text_of(r) == str_field(*doc, key@),
{
    match member(doc, key) {
        Some(v) => text_value(v),
        None => None,
    }
}

/// The decimal text of the number member `key` of `doc`.
pub fn number_member(doc: &Json, key: &str) -> (r: Option<String>)
    ensures
        text_of(r) == number_field(*doc, key@),
{
    match member(doc, key) {
        Some(v) => number_value(v),
        None => None,
    }
}

/// The boolean member `key` of `doc`.
pub fn bool_member(doc: &Json, key: &str) -> (r: Option<bool>)
    ensures
        r == bool_field(*doc, key@),
{
    match member(doc, key) {
        Some(v) => bool_value(v),
        None => None,
    }
}

} // verus!
