//! JSON values as far as session logic reads them.
use vstd::prelude::*;

use crate::text::str_eq;

verus! {

/// A JSON value. Numbers, booleans and null are all `Other`.
#[derive(Debug, PartialEq, Eq)]
pub enum JsonValue {
    Str(String),
    Array(Vec<JsonValue>),
    Object(Vec<JsonMember>),
    Other,
}

/// A member of a JSON object.
#[derive(Debug, PartialEq, Eq)]
pub struct JsonMember {
    pub name: String,
    pub value: JsonValue,
}

/// The value of the first member called `name`.
pub open spec fn member(members: Seq<JsonMember>, name: Seq<char>) -> Option<JsonValue>
    decreases members.len(),
{
    if members.len() == 0 {
        None
    } else if members.first().name@ == name {
        Some(members.first().value)
    } else {
        member(members.drop_first(), name)
    }
}

/// The member `name` of a value, where the value is an object that has it.
pub open spec fn field(value: JsonValue, name: Seq<char>) -> Option<JsonValue> {
    match value {
        JsonValue::Object(members) => member(members@, name),
        _ => None,
    }
}

/// The member `name` of a value, where the value is an object that has it.
pub fn get<'a>(value: &'a JsonValue, name: &str) -> (found: Option<&'a JsonValue>)
    ensures
        match found {
            Some(v) => field(*value, name@) == Some(*v),
            None => field(*value, name@) is None,
        },
{
    match value {
        JsonValue::Object(members) => {
            let mut i: usize = 0;
            assert(members@.subrange(0, members@.len() as int) =~= members@);
            while i < members.len()
                invariant
                    i <= members@.len(),
                    *value == JsonValue::Object(*members),
                    member(members@, name@) == member(
                        members@.subrange(i as int, members@.len() as int),
                        name@,
                    ),
                decreases members@.len() - i,
            {
                proof {
                    let rest = members@.subrange(i as int, members@.len() as int);
                    assert(rest.first() == members@[i as int]);
                    assert(rest.drop_first() =~= members@.subrange(i + 1, members@.len() as int));
                }
                if str_eq(members[i].name.as_str(), name) {
                    return Some(&members[i].value);
                }
                i = i + 1;
            }
            None
        },
        _ => None,
    }
}

/// The strings among the items of an array, in order.
pub open spec fn strings_in(items: Seq<JsonValue>) -> Seq<Seq<char>>
    decreases items.len(),
{
    if items.len() == 0 {
        Seq::empty()
    } else {
        let before = strings_in(items.drop_last());
        match items.last() {
            JsonValue::Str(s) => before.push(s@),
            _ => before,
        }
    }
}

/// The strings among the items of an array, in order.
pub fn collect_strings(items: &Vec<JsonValue>) -> (strings: Vec<String>)
    ensures
        strings@.map_values(|s: String| s@) == strings_in(items@),
{
    let mut strings: Vec<String> = Vec::new();
    let mut i: usize = 0;
    assert(items@.subrange(0, 0) =~= Seq::empty());
    assert(strings@.map_values(|s: String| s@) =~= Seq::empty());
    while i < items.len()
        invariant
            i <= items@.len(),
            strings@.map_values(|s: String| s@) == strings_in(items@.subrange(0, i as int)),
        decreases items@.len() - i,
    {
        proof {
            let longer = items@.subrange(0, i + 1);
            assert(longer.drop_last() =~= items@.subrange(0, i as int));
            assert(longer.last() == items@[i as int]);
        }
        match &items[i] {
            JsonValue::Str(s) => {
                let ghost before = strings@;
                strings.push(s.clone());
                assert(strings@.map_values(|s: String| s@) =~= before.map_values(
                    |s: String| s@,
                ).push(s@));
            },
            _ => {},
        }
        i = i + 1;
    }
    assert(items@.subrange(0, i as int) =~= items@);
    strings
}

/// A member is found by its name: the first of that name, and none where there is none.
pub proof fn law_members_are_found_by_name(members: Seq<JsonMember>, name: Seq<char>, i: int)
    ensures
        0 <= i < members.len() && members[i].name@ == name && (forall|j: int|
            0 <= j < i ==> (#[trigger] members[j]).name@ != name) ==> member(members, name)
            == Some(members[i].value),
        (forall|j: int| 0 <= j < members.len() ==> (#[trigger] members[j]).name@ != name)
            ==> member(members, name) is None,
    decreases members.len(),
{
    if members.len() > 0 {
        let rest = members.drop_first();
        law_members_are_found_by_name(rest, name, i - 1);
        assert(members.first() == members[0]);
        assert(forall|j: int| 0 <= j < rest.len() ==> rest[j] == members[j + 1]);
        if 0 <= i < members.len() && members[i].name@ == name && (forall|j: int|
            0 <= j < i ==> (#[trigger] members[j]).name@ != name) && i > 0 {
            assert(members[0].name@ != name);
            assert forall|j: int| 0 <= j < i - 1 implies (#[trigger] rest[j]).name@ != name by {
                assert(members[j + 1].name@ != name);
            }
            assert(rest[i - 1] == members[i]);
        }
        if forall|j: int| 0 <= j < members.len() ==> (#[trigger] members[j]).name@ != name {
            assert(members[0].name@ != name);
            assert forall|j: int| 0 <= j < rest.len() implies (#[trigger] rest[j]).name@
                != name by {
                assert(members[j + 1].name@ != name);
            }
        }
    }
}

/// Only an object has members.
pub proof fn law_only_objects_have_members(value: JsonValue, name: Seq<char>)
    ensures
        value matches JsonValue::Object(members) ==> field(value, name) == member(members@, name),
        !(value is Object) ==> field(value, name) is None,
{
}

/// The strings of an array are its strings in order: each item that is one adds itself, and
/// no other item adds anything.
pub proof fn law_strings_are_collected_in_order(items: Seq<JsonValue>, item: JsonValue)
    ensures
        strings_in(Seq::empty()) == Seq::<Seq<char>>::empty(),
        item matches JsonValue::Str(words) ==> strings_in(items.push(item)) == strings_in(
            items,
        ).push(words@),
        !(item is Str) ==> strings_in(items.push(item)) == strings_in(items),
{
    assert(items.push(item).drop_last() =~= items);
}

} // verus!
