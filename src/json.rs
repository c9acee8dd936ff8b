//! A JSON document tree, as decoded from or encoded to text by the caller,
//! and the operations on objects that the records need.

use vstd::prelude::*;
use crate::text::text_eq;

verus! {

broadcast use vstd::std_specs::vec::group_vec_axioms;

/// A JSON value.
///
/// Objects keep their entries in order; in a well-formed value (see
/// [`well_formed`]) no object has two entries of one key. Numbers that are
/// non-negative integers below 2^64 are held as such; any other number
/// keeps its text.
#[derive(Debug, PartialEq)]
pub enum Json {
    Null,
    Bool(bool),
    Number(u64),
    OtherNumber(String),
    Str(String),
    Array(Vec<Json>),
    Object(Vec<(String, Json)>),
}

/// The mathematical value of a [`Json`].
pub enum JsonView {
    Null,
    Bool(bool),
    Number(nat),
    OtherNumber(Seq<char>),
    Str(Seq<char>),
    Array(Seq<JsonView>),
    Object(Seq<(Seq<char>, JsonView)>),
}

/// The value that `j` stands for.
pub open spec fn json_view(j: Json) -> JsonView
    decreases j,
{
    match j {
        Json::Null => JsonView::Null,
        Json::Bool(b) => JsonView::Bool(b),
        Json::Number(n) => JsonView::Number(n as nat),
        Json::OtherNumber(t) => JsonView::OtherNumber(t@),
        Json::Str(s) => JsonView::Str(s@),
        Json::Array(items) => JsonView::Array(
            Seq::new(
                items@.len(),
                |i: int|
                    if 0 <= i < items@.len() {
                        json_view(items[i])
                    } else {
                        JsonView::Null
                    },
            ),
        ),
        Json::Object(entries) => JsonView::Object(
            Seq::new(
                entries@.len(),
                |i: int|
                    if 0 <= i < entries@.len() {
                        (entries[i].0@, json_view(entries[i].1))
                    } else {
                        (Seq::empty(), JsonView::Null)
                    },
            ),
        ),
    }
}

/// Why two values could not be merged.
#[derive(PartialEq, Eq, Structural, Clone, Copy, Debug)]
pub enum MergeError {
    /// The value merged into is not an object.
    FirstNotObject,
    /// The value merged from is not an object.
    SecondNotObject,
}

/// `i` is the first entry of `entries` whose key is `key`.
pub open spec fn is_first_key(entries: Seq<(String, Json)>, key: Seq<char>, i: int) -> bool {
    &&& 0 <= i < entries.len()
    &&& entries[i].0@ == key
    &&& forall|j: int| 0 <= j < i ==> entries[j].0@ != key
}

/// The index of the first entry whose key is `key`.
pub open spec fn key_index(entries: Seq<(String, Json)>, key: Seq<char>) -> Option<int> {
    if exists|i: int| is_first_key(entries, key, i) {
        Some(choose|i: int| is_first_key(entries, key, i))
    } else {
        None
    }
}

/// The value stored under `key`: that of its first entry.
pub open spec fn field_of(entries: Seq<(String, Json)>, key: Seq<char>) -> Option<Json> {
    match key_index(entries, key) {
        Some(i) => Some(entries[i].1),
        None => None,
    }
}

/// The value stored under `key` in `j`, where `j` is an object.
pub open spec fn member(j: Json, key: Seq<char>) -> Option<Json> {
    match j {
        Json::Object(entries) => field_of(entries@, key),
        _ => None,
    }
}

/// The views of the entries of an object.
pub open spec fn fields_view(entries: Seq<(String, Json)>) -> Seq<(Seq<char>, JsonView)> {
    Seq::new(entries.len(), |i: int| (entries[i].0@, json_view(entries[i].1)))
}

/// `i` is the first field of `fields` named `key`.
pub open spec fn is_first_field(fields: Seq<(Seq<char>, JsonView)>, key: Seq<char>, i: int) -> bool {
    &&& 0 <= i < fields.len()
    &&& fields[i].0 == key
    &&& forall|j: int| 0 <= j < i ==> fields[j].0 != key
}

/// The index of the first field named `key`.
pub open spec fn field_index(fields: Seq<(Seq<char>, JsonView)>, key: Seq<char>) -> Option<int> {
    if exists|i: int| is_first_field(fields, key, i) {
        Some(choose|i: int| is_first_field(fields, key, i))
    } else {
        None
    }
}

/// `b` merged into `a`: where both are objects, each field of `b` in turn is
/// merged into the field of the same name, or appended where there is none;
/// otherwise `b` wins.
pub open spec fn merge_view(a: JsonView, b: JsonView) -> JsonView
    decreases b,
{
    match (a, b) {
        (JsonView::Object(into), JsonView::Object(from)) => JsonView::Object(merge_fields(into, from)),
        _ => b,
    }
}

/// The fields of `from` merged one after another into `into`.
pub open spec fn merge_fields(into: Seq<(Seq<char>, JsonView)>, from: Seq<(Seq<char>, JsonView)>) -> Seq<(Seq<char>, JsonView)>
    decreases from,
{
    if from.len() == 0 {
        into
    } else {
        let rest = merge_fields(into, from.drop_last());
        let last = from.last();
        match field_index(rest, last.0) {
            Some(i) => rest.update(i, (rest[i].0, merge_view(rest[i].1, last.1))),
            None => rest.push(last),
        }
    }
}

/// No two fields share a name.
pub open spec fn keys_unique(fields: Seq<(Seq<char>, JsonView)>) -> bool {
    forall|i: int, j: int| 0 <= i < j < fields.len() ==> fields[i].0 != fields[j].0
}

/// Every object in `v`, at any depth, has fields of distinct names.
pub open spec fn well_formed(v: JsonView) -> bool
    decreases v,
{
    match v {
        JsonView::Object(fields) => keys_unique(fields) && forall|i: int|
            0 <= i < fields.len() ==> well_formed(#[trigger] fields[i].1),
        JsonView::Array(items) => forall|i: int| 0 <= i < items.len() ==> well_formed(#[trigger] items[i]),
        _ => true,
    }
}

/// The value stored under a key is that of its first entry.
pub proof fn lemma_field_at(entries: Seq<(String, Json)>, key: Seq<char>, i: int)
    requires
        is_first_key(entries, key, i),
    ensures
        key_index(entries, key) == Some(i),
        field_of(entries, key) == Some(entries[i].1),
{
    assert forall|k: int| is_first_key(entries, key, k) implies k == i by {}
}

/// The index of the first entry whose key is `key`.
pub fn key_position(entries: &Vec<(String, Json)>, key: &str) -> (r: Option<usize>)
    ensures
        r matches Some(i) ==> key_index(entries@, key@) == Some(i as int),
        r is None ==> key_index(entries@, key@) is None,
{
    let mut i: usize = 0;
    while i < entries.len()
        invariant
            i <= entries.len(),
            forall|j: int| 0 <= j < i ==> entries@[j].0@ != key@,
        decreases entries.len() - i,
    {
        if text_eq(entries[i].0.as_str(), key) {
            assert(is_first_key(entries@, key@, i as int));
            assert forall|k: int| is_first_key(entries@, key@, k) implies k == i by {}
            return Some(i);
        }
        i = i + 1;
    }
    None
}

impl Json {
    /// The value stored under `key`, where `self` is an object holding it.
    pub fn get(&self, key: &str) -> (r: Option<&Json>)
        ensures
            r matches Some(v) ==> member(*self, key@) == Some(*v),
            r is None ==> member(*self, key@) is None,
    {
        match self {
            Json::Object(entries) => match key_position(entries, key) {
                Some(i) => Some(&entries[i].1),
                None => None,
            },
            _ => None,
        }
    }
}

/// A field that occurs has a first occurrence.
proof fn lemma_field_found(fields: Seq<(Seq<char>, JsonView)>, key: Seq<char>, j: int)
    requires
        0 <= j < fields.len(),
        fields[j].0 == key,
    ensures
        field_index(fields, key) is Some,
    decreases j,
{
    if exists|m: int| 0 <= m < j && fields[m].0 == key {
        let m = choose|m: int| 0 <= m < j && fields[m].0 == key;
        lemma_field_found(fields, key, m);
    } else {
        assert(is_first_field(fields, key, j));
    }
}

/// Merging two well-formed values gives a well-formed value: no object of
/// the result has two fields of one name.
pub proof fn lemma_merge_view_well_formed(a: JsonView, b: JsonView)
    requires
        well_formed(a),
        well_formed(b),
    ensures
        well_formed(merge_view(a, b)),
    decreases b,
{
    match (a, b) {
        (JsonView::Object(into), JsonView::Object(from)) => {
            assert(decreases_to!(b => b->Object_0));
            lemma_merge_fields_well_formed(into, from);
        },
        _ => {},
    }
}

/// Merging fields keeps their names distinct and their values well formed.
proof fn lemma_merge_fields_well_formed(into: Seq<(Seq<char>, JsonView)>, from: Seq<(Seq<char>, JsonView)>)
    requires
        keys_unique(into),
        forall|i: int| 0 <= i < into.len() ==> well_formed(#[trigger] into[i].1),
        forall|i: int| 0 <= i < from.len() ==> well_formed(#[trigger] from[i].1),
    ensures
        keys_unique(merge_fields(into, from)),
        forall|i: int|
            0 <= i < merge_fields(into, from).len() ==> well_formed(#[trigger] merge_fields(into, from)[i].1),
    decreases from,
{
    if from.len() > 0 {
        let shorter = from.drop_last();
        assert(shorter == from.subrange(0, from.len() - 1));
        assert(decreases_to!(from => from.subrange(0, from.len() - 1)));
        assert forall|i: int| 0 <= i < shorter.len() implies well_formed(#[trigger] shorter[i].1) by {
            assert(shorter[i] == from[i]);
        }
        lemma_merge_fields_well_formed(into, shorter);
        let rest = merge_fields(into, shorter);
        let last = from.last();
        assert(well_formed(last.1));
        match field_index(rest, last.0) {
            Some(i) => {
                assert(is_first_field(rest, last.0, i));
                assert(decreases_to!(from => from[from.len() - 1]));
                assert(decreases_to!(from[from.len() - 1] => from[from.len() - 1].1));
                lemma_merge_view_well_formed(rest[i].1, last.1);
                let r = rest.update(i, (rest[i].0, merge_view(rest[i].1, last.1)));
                assert(r == merge_fields(into, from));
                assert forall|m: int| 0 <= m < r.len() implies well_formed(#[trigger] r[m].1) by {
                    if m != i {
                        assert(r[m] == rest[m]);
                    }
                }
                assert forall|m: int, n: int| 0 <= m < n < r.len() implies r[m].0 != r[n].0 by {
                    assert(r[m].0 == rest[m].0 && r[n].0 == rest[n].0);
                }
            },
            None => {
                assert forall|j: int| 0 <= j < rest.len() implies rest[j].0 != last.0 by {
                    if rest[j].0 == last.0 {
                        lemma_field_found(rest, last.0, j);
                    }
                }
                let r = rest.push(last);
                assert(r == merge_fields(into, from));
                assert forall|m: int| 0 <= m < r.len() implies well_formed(#[trigger] r[m].1) by {
                    if m < rest.len() {
                        assert(r[m] == rest[m]);
                    }
                }
                assert forall|m: int, n: int| 0 <= m < n < r.len() implies r[m].0 != r[n].0 by {
                    if n < rest.len() {
                        assert(r[m] == rest[m] && r[n] == rest[n]);
                    } else {
                        assert(r[m] == rest[m]);
                    }
                }
            },
        }
    }
}

/// The view of an object is the views of its entries.
proof fn lemma_object_view(entries: Vec<(String, Json)>)
    ensures
        json_view(Json::Object(entries)) == JsonView::Object(fields_view(entries@)),
{
    let v = json_view(Json::Object(entries));
    let fields = fields_view(entries@);
    assert(v is Object);
    assert(v->Object_0.len() == fields.len());
    assert forall|i: int| 0 <= i < fields.len() implies v->Object_0[i] == fields[i] by {}
    assert(v->Object_0 =~= fields);
}

/// Looking a key up in the entries and in their views finds the same index.
proof fn lemma_index_of_view(entries: Seq<(String, Json)>, key: Seq<char>)
    ensures
        key_index(entries, key) == field_index(fields_view(entries), key),
{
    let fields = fields_view(entries);
    assert forall|i: int| is_first_key(entries, key, i) <==> is_first_field(fields, key, i) by {
        if is_first_key(entries, key, i) {
            assert forall|j: int| 0 <= j < i implies fields[j].0 != key by {
                assert(entries[j].0@ != key);
            }
        }
        if is_first_field(fields, key, i) {
            assert forall|j: int| 0 <= j < i implies entries[j].0@ != key by {
                assert(fields[j].0 != key);
            }
        }
    }
    if exists|i: int| is_first_key(entries, key, i) {
        let i = choose|i: int| is_first_key(entries, key, i);
        assert forall|k: int| is_first_field(fields, key, k) implies k == i by {}
    }
}

/// Merges `b` into `a`: where both are objects, each entry of `b` in turn is
/// merged into the entry of `a` under the same key, or appended where there
/// is none; otherwise `b` replaces `a`.
fn merge_into(a: &mut Json, b: Json)
    ensures
        json_view(*final(a)) == merge_view(json_view(*old(a)), json_view(b)),
    decreases b,
{
    let ghost b0 = b;
    let mut first = Json::Null;
    std::mem::swap(a, &mut first);
    let ghost a0 = first;
    match (first, b) {
        (Json::Object(mut into), Json::Object(mut from)) => {
            let ghost into0 = into@;
            let ghost from_vec = from;
            let ghost from0 = from@;
            proof {
                lemma_object_view(from_vec);
                lemma_object_view(into);
            }
            let ghost k: int = 0;
            assert(fields_view(from0).take(0) =~= Seq::<(Seq<char>, JsonView)>::empty());
            while from.len() > 0
                invariant
                    b0 == b,
                    b0 == Json::Object(from_vec),
                    from0 == from_vec@,
                    0 <= k <= from0.len(),
                    from@ == from0.skip(k),
                    fields_view(into@) == merge_fields(fields_view(into0), fields_view(from0).take(k)),
                decreases from.len(),
            {
                let (key, value) = from.remove(0);
                let ghost prev = fields_view(into@);
                proof {
                    assert(from0[k] == (key, value));
                    assert(fields_view(from0).take(k + 1).drop_last() =~= fields_view(from0).take(k));
                    assert(fields_view(from0).take(k + 1).last() == (key@, json_view(value)));
                    assert(from_vec[k] == (key, value));
                    assert(decreases_to!(b0 => b0->Object_0));
                    assert(decreases_to!(from_vec => from_vec[k]));
                    assert(decreases_to!(from_vec[k] => from_vec[k].1));
                    assert(decreases_to!(b0 => value));
                    lemma_index_of_view(into@, key@);
                }
                match key_position(&into, key.as_str()) {
                    Some(i) => {
                        let (kept, old_value) = into.remove(i);
                        let mut slot = old_value;
                        merge_into(&mut slot, value);
                        into.insert(i, (kept, slot));
                        assert(fields_view(into@) =~= prev.update(
                            i as int,
                            (prev[i as int].0, merge_view(prev[i as int].1, json_view(value))),
                        ));
                    },
                    None => {
                        into.push((key, value));
                        assert(fields_view(into@) =~= prev.push((key@, json_view(value))));
                    },
                }
                proof {
                    k = k + 1;
                    assert(from@ =~= from0.skip(k));
                }
            }
            assert(fields_view(from0).take(k) =~= fields_view(from0));
            proof {
                lemma_object_view(into);
            }
            *a = Json::Object(into);
        },
        (_, other) => {
            *a = other;
        },
    }
}

/// Merges the object `b` into the object `a`: each entry of `b` in turn is
/// merged into the entry of `a` under the same key, recursively where both
/// values are objects and with `b`'s value winning otherwise, or appended
/// where `a` has no such key. Afterwards `b` is an empty object. Where either
/// value is not an object, both are left as they were.
pub fn merge(a: &mut Json, b: &mut Json) -> (r: Result<(), MergeError>)
    ensures
        !(*old(a) is Object) ==> r == Err::<(), MergeError>(MergeError::FirstNotObject),
        *old(a) is Object && !(*old(b) is Object) ==> r == Err::<(), MergeError>(
            MergeError::SecondNotObject,
        ),
        r is Err ==> *final(a) == *old(a) && *final(b) == *old(b),
        *old(a) is Object && *old(b) is Object ==> {
            &&& r is Ok
            &&& json_view(*final(a)) == merge_view(json_view(*old(a)), json_view(*old(b)))
            &&& well_formed(json_view(*old(a))) && well_formed(json_view(*old(b))) ==> well_formed(
                json_view(*final(a)),
            )
            &&& *final(b) is Object
            &&& final(b)->Object_0@.len() == 0
        },
{
    match a {
        Json::Object(_) => {},
        _ => {
            return Err(MergeError::FirstNotObject);
        },
    }
    match b {
        Json::Object(_) => {},
        _ => {
            return Err(MergeError::SecondNotObject);
        },
    }
    let mut from = Json::Object(Vec::new());
    std::mem::swap(b, &mut from);
    let ghost before = json_view(*a);
    let ghost merged_in = json_view(from);
    merge_into(a, from);
    proof {
        if well_formed(before) && well_formed(merged_in) {
            lemma_merge_view_well_formed(before, merged_in);
        }
    }
    Ok(())
}

} // verus!
