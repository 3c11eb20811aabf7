//! JSON values and structural inclusion.

use vstd::prelude::*;
use crate::number::JsonNumber;

verus! {

/// A JSON value as a mathematical tree.
pub enum JsonModel {
    Null,
    Bool(bool),
    Number(JsonNumber),
    String(Seq<char>),
    Array(Seq<JsonModel>),
    Object(Map<Seq<char>, JsonModel>),
}

/// A JSON value.
///
/// An object is held as the list of its members in the order in which they
/// were written. Where a key occurs more than once, the last member of that
/// name is the one that counts.
#[derive(Debug)]
pub enum Json {
    Null,
    Bool(bool),
    Number(JsonNumber),
    String(String),
    Array(Vec<Json>),
    Object(Vec<(String, Json)>),
}

/// What an object holds under `key`: the member of that name, and `Null`
/// where there is none.
pub open spec fn member(object: Map<Seq<char>, JsonModel>, key: Seq<char>) -> JsonModel {
    if object.dom().contains(key) {
        object[key]
    } else {
        JsonModel::Null
    }
}

/// Structural inclusion: `input` holds at least what `expected` describes.
pub open spec fn includes(input: JsonModel, expected: JsonModel) -> bool
    decreases expected,
{
    match expected {
        JsonModel::Object(wanted) => {
            &&& input is Object
            &&& forall|key: Seq<char>|
                #![trigger wanted.dom().contains(key)]
                wanted.dom().contains(key) ==> includes(member(input->Object_0, key), wanted[key])
        },
        JsonModel::Array(wanted) => {
            &&& input is Array
            &&& wanted.len() <= input->Array_0.len()
            &&& forall|i: int|
                #![trigger wanted[i]]
                0 <= i < wanted.len() ==> includes(input->Array_0[i], wanted[i])
        },
        JsonModel::Number(wanted) => input is Number && input->Number_0.denotes_same(wanted),
        _ => input == expected,
    }
}

/// The index of the last member named `key` among the first `upto` entries,
/// or -1 where none of them has that name.
pub open spec fn last_index(keys: Seq<Seq<char>>, key: Seq<char>, upto: int) -> int
    decreases upto,
{
    if upto <= 0 {
        -1
    } else if keys[upto - 1] == key {
        upto - 1
    } else {
        last_index(keys, key, upto - 1)
    }
}

/// The names of an object's members, in the order of the members.
pub open spec fn keys_of(entries: Seq<(String, Json)>) -> Seq<Seq<char>> {
    Seq::new(entries.len(), |i: int| entries[i].0@)
}

/// The tree that a value stands for.
///
/// An array stands for the sequence of what its items stand for. An object
/// stands for the map that takes each name among its members to what the
/// last member of that name stands for.
pub open spec fn model_of(value: Json) -> JsonModel
    decreases value,
{
    match value {
        Json::Null => JsonModel::Null,
        Json::Bool(b) => JsonModel::Bool(b),
        Json::Number(n) => JsonModel::Number(n),
        Json::String(s) => JsonModel::String(s@),
        Json::Array(items) => JsonModel::Array(
            Seq::new(
                items.len() as nat,
                |i: int|
                    if 0 <= i < items.len() {
                        model_of(items[i])
                    } else {
                        JsonModel::Null
                    },
            ),
        ),
        Json::Object(entries) => JsonModel::Object(
            Map::new(
                |key: Seq<char>| last_index(keys_of(entries@), key, entries.len() as int) >= 0,
                |key: Seq<char>|
                    {
                        let at = last_index(keys_of(entries@), key, entries.len() as int);
                        if 0 <= at < entries.len() {
                            model_of(entries[at].1)
                        } else {
                            JsonModel::Null
                        }
                    },
            ),
        ),
    }
}

impl View for Json {
    type V = JsonModel;

    open spec fn view(&self) -> JsonModel {
        model_of(*self)
    }
}

/// Where `last_index` finds a member, it is one of the entries searched and
/// has the name asked for.
pub proof fn lemma_last_index(keys: Seq<Seq<char>>, key: Seq<char>, upto: int)
    requires
        0 <= upto <= keys.len(),
    ensures
        -1 <= last_index(keys, key, upto) < upto,
        last_index(keys, key, upto) >= 0 ==> keys[last_index(keys, key, upto)] == key,
    decreases upto,
{
    if upto > 0 && keys[upto - 1] != key {
        lemma_last_index(keys, key, upto - 1);
    }
}

/// The last member of `entries` named `key`, if there is one.
fn find_member(entries: &Vec<(String, Json)>, key: &String) -> (found: Option<usize>)
    ensures
        match found {
            Some(at) => at == last_index(keys_of(entries@), key@, entries.len() as int),
            None => last_index(keys_of(entries@), key@, entries.len() as int) == -1,
        },
{
    let mut found: Option<usize> = None;
    let mut i: usize = 0;
    while i < entries.len()
        invariant
            i <= entries.len(),
            match found {
                Some(at) => at == last_index(keys_of(entries@), key@, i as int),
                None => last_index(keys_of(entries@), key@, i as int) == -1,
            },
        decreases entries.len() - i,
    {
        if entries[i].0 == *key {
            found = Some(i);
        }
        i = i + 1;
    }
    found
}

/// Decides structural inclusion: whether `input` holds at least what
/// `expected` describes.
///
/// Where `expected` is an object, `input` must be an object too, and under
/// each name of `expected` hold a value that includes the expected one; a
/// name that `input` lacks counts as holding `null`, and names that only
/// `input` has are passed over. Where `expected` is an array, `input` must be
/// an array at least as long, including `expected` position by position from
/// the start. A number must be matched by a number of the same value, and any
/// other value by an equal one.
pub fn does_json_include(input: &Json, expected: &Json) -> (included: bool)
    ensures
        included == includes(input@, expected@),
    decreases expected,
{
    match expected {
        Json::Object(wanted) => match input {
            Json::Object(given) => object_includes(given, wanted),
            _ => false,
        },
        Json::Array(wanted) => match input {
            Json::Array(given) => array_includes(given, wanted),
            _ => false,
        },
        Json::Number(wanted) => match input {
            Json::Number(given) => given.same_value(wanted),
            _ => false,
        },
        Json::String(wanted) => match input {
            Json::String(given) => *given == *wanted,
            _ => false,
        },
        Json::Bool(wanted) => match input {
            Json::Bool(given) => *given == *wanted,
            _ => false,
        },
        Json::Null => match input {
            Json::Null => true,
            _ => false,
        },
    }
}

/// Inclusion of arrays: position by position over the length of `wanted`.
fn array_includes(given: &Vec<Json>, wanted: &Vec<Json>) -> (included: bool)
    ensures
        included == includes(Json::Array(*given)@, Json::Array(*wanted)@),
    decreases wanted,
{
    if given.len() < wanted.len() {
        return false;
    }
    let mut i: usize = 0;
    while i < wanted.len()
        invariant
            i <= wanted.len() <= given.len(),
            forall|j: int| 0 <= j < i ==> includes(given[j]@, #[trigger] wanted[j]@),
        decreases wanted.len() - i,
    {
        if !does_json_include(&given[i], &wanted[i]) {
            assert(Json::Array(*wanted)@->Array_0[i as int] == wanted[i as int]@);
            return false;
        }
        i = i + 1;
    }
    proof {
        let given_items = Json::Array(*given)@->Array_0;
        let wanted_items = Json::Array(*wanted)@->Array_0;
        assert forall|j: int| 0 <= j < wanted_items.len() implies includes(
            given_items[j],
            #[trigger] wanted_items[j],
        ) by {
            assert(includes(given[j]@, wanted[j]@));
        }
    }
    true
}

/// Inclusion of objects: under each name of `wanted`, what `given` holds
/// includes what `wanted` holds.
fn object_includes(given: &Vec<(String, Json)>, wanted: &Vec<(String, Json)>) -> (included: bool)
    ensures
        included == includes(Json::Object(*given)@, Json::Object(*wanted)@),
    decreases wanted,
{
    let ghost given_map = Json::Object(*given)@->Object_0;
    let ghost wanted_map = Json::Object(*wanted)@->Object_0;
    let ghost names = keys_of(wanted@);
    let mut i: usize = 0;
    while i < wanted.len()
        invariant
            i <= wanted.len(),
            given_map == Json::Object(*given)@->Object_0,
            wanted_map == Json::Object(*wanted)@->Object_0,
            names == keys_of(wanted@),
            forall|j: int|
                0 <= j < i && last_index(names, #[trigger] names[j], wanted.len() as int) == j
                    ==> includes(member(given_map, names[j]), wanted[j].1@),
        decreases wanted.len() - i,
    {
        let name = &wanted[i].0;
        let last = find_member(wanted, name);
        proof {
            lemma_last_index(names, name@, wanted.len() as int);
        }
        if last == Some(i) {
            let held = find_member(given, name);
            proof {
                lemma_last_index(keys_of(given@), name@, given.len() as int);
            }
            let holds = match held {
                Some(at) => does_json_include(&given[at].1, &wanted[i].1),
                None => does_json_include(&Json::Null, &wanted[i].1),
            };
            if !holds {
                assert(wanted_map.dom().contains(name@));
                return false;
            }
        }
        i = i + 1;
    }
    proof {
        assert forall|key: Seq<char>| #[trigger] wanted_map.dom().contains(key) implies includes(
            member(given_map, key),
            wanted_map[key],
        ) by {
            lemma_last_index(names, key, wanted.len() as int);
        }
    }
    true
}

/// Inclusion is reflexive: every value includes itself.
pub proof fn lemma_includes_reflexive(value: JsonModel)
    ensures
        includes(value, value),
    decreases value,
{
    match value {
        JsonModel::Object(members) => {
            assert forall|key: Seq<char>| #[trigger] members.dom().contains(key) implies includes(
                member(members, key),
                members[key],
            ) by {
                lemma_includes_reflexive(members[key]);
            }
        },
        JsonModel::Array(items) => {
            assert forall|i: int| 0 <= i < items.len() implies includes(
                items[i],
                #[trigger] items[i],
            ) by {
                lemma_includes_reflexive(items[i]);
            }
        },
        _ => {},
    }
}

/// Inclusion between objects, said of the two maps: under each name of
/// `expected`, what `input` holds includes what `expected` holds.
pub proof fn lemma_object_inclusion(
    input: Map<Seq<char>, JsonModel>,
    expected: Map<Seq<char>, JsonModel>,
)
    ensures
        includes(JsonModel::Object(input), JsonModel::Object(expected)) <==> forall|
            key: Seq<char>,
        | #[trigger]
            expected.dom().contains(key) ==> includes(member(input, key), expected[key]),
{
    assert(JsonModel::Object(expected)->Object_0 == expected);
    assert(JsonModel::Object(input)->Object_0 == input);
}

/// Inclusion looks at `input` only under the names of `expected`: a member
/// under any other name, added or replaced, changes nothing.
pub proof fn lemma_unexpected_member_is_ignored(
    input: Map<Seq<char>, JsonModel>,
    expected: Map<Seq<char>, JsonModel>,
    key: Seq<char>,
    value: JsonModel,
)
    requires
        !expected.dom().contains(key),
    ensures
        includes(JsonModel::Object(input.insert(key, value)), JsonModel::Object(expected))
            == includes(JsonModel::Object(input), JsonModel::Object(expected)),
{
    let grown = input.insert(key, value);
    lemma_object_inclusion(input, expected);
    lemma_object_inclusion(grown, expected);
    assert forall|name: Seq<char>| #[trigger] expected.dom().contains(name) implies member(
        grown,
        name,
    ) == member(input, name) by {}
}

/// Adding a member to `input` keeps an inclusion that held, unless
/// `expected` has a member of that name which the added value does not
/// include.
pub proof fn lemma_added_member_keeps_inclusion(
    input: Map<Seq<char>, JsonModel>,
    expected: Map<Seq<char>, JsonModel>,
    key: Seq<char>,
    value: JsonModel,
)
    requires
        includes(JsonModel::Object(input), JsonModel::Object(expected)),
        !input.dom().contains(key),
        expected.dom().contains(key) ==> includes(value, expected[key]),
    ensures
        includes(JsonModel::Object(input.insert(key, value)), JsonModel::Object(expected)),
{
    let grown = input.insert(key, value);
    lemma_object_inclusion(input, expected);
    lemma_object_inclusion(grown, expected);
    assert forall|name: Seq<char>| #[trigger] expected.dom().contains(name) implies includes(
        member(grown, name),
        expected[name],
    ) by {
        if name != key {
            assert(member(grown, name) == member(input, name));
        }
    }
}

/// `null` includes `null` and nothing else.
pub proof fn lemma_null_includes_only_null(expected: JsonModel)
    ensures
        includes(JsonModel::Null, expected) <==> expected is Null,
{
}

/// Removing from `input` a member whose name `expected` has makes the
/// inclusion false, unless what `expected` holds under that name is `null`,
/// which a missing member satisfies.
pub proof fn lemma_removed_member_breaks_inclusion(
    input: Map<Seq<char>, JsonModel>,
    expected: Map<Seq<char>, JsonModel>,
    key: Seq<char>,
)
    requires
        expected.dom().contains(key),
        !(expected[key] is Null),
    ensures
        !includes(JsonModel::Object(input.remove(key)), JsonModel::Object(expected)),
{
    lemma_object_inclusion(input.remove(key), expected);
    assert(member(input.remove(key), key) == JsonModel::Null);
}

/// Searching a list of names and the same list with more names after it
/// gives the same, as far as the search stays within the shorter list.
proof fn lemma_last_index_of_prefix(
    short: Seq<Seq<char>>,
    long: Seq<Seq<char>>,
    key: Seq<char>,
    upto: int,
)
    requires
        0 <= upto <= short.len() <= long.len(),
        forall|i: int| 0 <= i < short.len() ==> short[i] == long[i],
    ensures
        last_index(long, key, upto) == last_index(short, key, upto),
    decreases upto,
{
    if upto > 0 && short[upto - 1] != key {
        lemma_last_index_of_prefix(short, long, key, upto - 1);
    }
}

/// A member written at the end of an object is a member put into the map
/// that the object stands for: it adds its name, or takes the place of what
/// was held under it.
pub proof fn lemma_pushed_member_is_inserted(
    before: Vec<(String, Json)>,
    after: Vec<(String, Json)>,
    name: String,
    value: Json,
)
    requires
        after@ == before@.push((name, value)),
    ensures
        model_of(Json::Object(after)) == JsonModel::Object(
            model_of(Json::Object(before))->Object_0.insert(name@, model_of(value)),
        ),
{
    let grown = model_of(Json::Object(after))->Object_0;
    let inserted = model_of(Json::Object(before))->Object_0.insert(name@, model_of(value));
    let short = keys_of(before@);
    let long = keys_of(after@);
    let length = before.len() as int;
    assert(long[length] == name@);
    assert forall|key: Seq<char>| grown.dom().contains(key) == inserted.dom().contains(key) by {
        lemma_last_index_of_prefix(short, long, key, length);
    }
    assert forall|key: Seq<char>| #[trigger] grown.dom().contains(key) implies grown[key]
        == inserted[key] by {
        lemma_last_index_of_prefix(short, long, key, length);
        lemma_last_index(short, key, length);
        if key != name@ {
            let at = last_index(short, key, length);
            assert(after[at] == before[at]);
        }
    }
    assert(grown =~= inserted);
}

} // verus!
