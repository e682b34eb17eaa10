//! The JSON values that brokered messages carry, as the library reads them.
//!
//! Numbers keep the text JSON writes for them; objects keep their entries in order.

use vstd::prelude::*;

verus! {

/// A JSON value.
#[derive(Debug, PartialEq)]
pub enum JsonValue {
    Null,
    Bool(bool),
    Number(String),
    String(String),
    Array(Vec<JsonValue>),
    Object(Vec<(String, JsonValue)>),
}

/// A JSON value as plain values.
pub enum JsonModel {
    Null,
    Bool(bool),
    Number(Seq<char>),
    Text(Seq<char>),
    Array(Seq<JsonModel>),
    Object(Seq<(Seq<char>, JsonModel)>),
}

/// The models of a sequence of values.
pub open spec fn items_model(items: Seq<JsonValue>) -> Seq<JsonModel>
    decreases items,
{
    if items.len() == 0 {
        Seq::empty()
    } else {
        items_model(items.drop_last()).push(value_model(items.last()))
    }
}

/// The models of a sequence of object entries.
pub open spec fn entries_model(entries: Seq<(String, JsonValue)>) -> Seq<(Seq<char>, JsonModel)>
    decreases entries,
{
    if entries.len() == 0 {
        Seq::empty()
    } else {
        entries_model(entries.drop_last()).push((entries.last().0@, value_model(entries.last().1)))
    }
}

/// A JSON value as plain values.
pub open spec fn value_model(v: JsonValue) -> JsonModel
    decreases v,
{
    match v {
        JsonValue::Null => JsonModel::Null,
        JsonValue::Bool(b) => JsonModel::Bool(b),
        JsonValue::Number(n) => JsonModel::Number(n@),
        JsonValue::String(s) => JsonModel::Text(s@),
        JsonValue::Array(items) => JsonModel::Array(items_model(items@)),
        JsonValue::Object(entries) => JsonModel::Object(entries_model(entries@)),
    }
}

impl View for JsonValue {
    type V = JsonModel;

    open spec fn view(&self) -> JsonModel {
        value_model(*self)
    }
}

impl JsonValue {
    /// Copies the value, item by item.
    pub fn copy(&self) -> (r: Self)
        ensures
            r@ == self@,
        decreases self, 1nat,
    {
        match self {
            JsonValue::Null => JsonValue::Null,
            JsonValue::Bool(b) => JsonValue::Bool(*b),
            JsonValue::Number(n) => JsonValue::Number(n.clone()),
            JsonValue::String(s) => JsonValue::String(s.clone()),
            JsonValue::Array(items) => JsonValue::Array(copy_items(items)),
            JsonValue::Object(entries) => JsonValue::Object(copy_entries(entries)),
        }
    }
}

/// Copies a sequence of values.
fn copy_items(items: &Vec<JsonValue>) -> (r: Vec<JsonValue>)
    ensures
        items_model(r@) == items_model(items@),
    decreases items, 0nat,
{
    let mut out: Vec<JsonValue> = Vec::new();
    let n = items.len();
    let mut i: usize = 0;
    while i < n
        invariant
            n == items@.len(),
            i <= n,
            items_model(out@) == items_model(items@.take(i as int)),
        decreases n - i,
    {
        proof {
            broadcast use vstd::std_specs::vec::axiom_vec_index_decreases;
            assert(decreases_to!(*items => items[i as int]));
        }
        let c = items[i].copy();
        let ghost before = out@;
        out.push(c);
        assert(out@.drop_last() =~= before);
        assert(items@.take(i + 1).drop_last() =~= items@.take(i as int));
        i = i + 1;
    }
    assert(items@.take(n as int) =~= items@);
    out
}

/// Copies a sequence of object entries.
fn copy_entries(entries: &Vec<(String, JsonValue)>) -> (r: Vec<(String, JsonValue)>)
    ensures
        entries_model(r@) == entries_model(entries@),
    decreases entries, 0nat,
{
    let mut out: Vec<(String, JsonValue)> = Vec::new();
    let n = entries.len();
    let mut i: usize = 0;
    while i < n
        invariant
            n == entries@.len(),
            i <= n,
            entries_model(out@) == entries_model(entries@.take(i as int)),
        decreases n - i,
    {
        proof {
            broadcast use vstd::std_specs::vec::axiom_vec_index_decreases;
            assert(decreases_to!(*entries => entries[i as int]));
            assert(decreases_to!(entries[i as int] => entries[i as int].1));
        }
        let k = entries[i].0.clone();
        let v = entries[i].1.copy();
        let ghost before = out@;
        out.push((k, v));
        assert(out@.drop_last() =~= before);
        assert(entries@.take(i + 1).drop_last() =~= entries@.take(i as int));
        i = i + 1;
    }
    assert(entries@.take(n as int) =~= entries@);
    out
}

/// An optional JSON value as plain values.
pub open spec fn opt_model(v: Option<JsonValue>) -> Option<JsonModel> {
    match v {
        Some(x) => Some(x@),
        None => None,
    }
}

/// Copies an optional JSON value.
pub fn copy_opt_json(v: &Option<JsonValue>) -> (r: Option<JsonValue>)
    ensures
        opt_model(r) == opt_model(*v),
{
    match v {
        Some(x) => Some(x.copy()),
        None => None,
    }
}

/// The first of the first `n` entries whose key is `key`.
pub open spec fn first_key(entries: Seq<(String, JsonValue)>, key: Seq<char>, n: int) -> Option<int>
    decreases n,
{
    if n <= 0 {
        None
    } else {
        match first_key(entries, key, n - 1) {
            Some(i) => Some(i),
            None => if entries[n - 1].0@ == key { Some(n - 1) } else { None },
        }
    }
}

/// The field `key` of an object: the value of its first entry with that key; nothing
/// for a value that is not an object or has no such entry.
pub open spec fn field(v: JsonValue, key: Seq<char>) -> Option<JsonValue> {
    match v {
        JsonValue::Object(entries) => match first_key(entries@, key, entries@.len() as int) {
            Some(i) => Some(entries@[i].1),
            None => None,
        },
        _ => None,
    }
}

/// The string items of a sequence of values, in order; other items are skipped.
pub open spec fn string_items(items: Seq<JsonValue>) -> Seq<Seq<char>>
    decreases items.len(),
{
    if items.len() == 0 {
        Seq::empty()
    } else {
        let prev = string_items(items.drop_last());
        match items.last() {
            JsonValue::String(s) => prev.push(s@),
            _ => prev,
        }
    }
}

/// Where `first_key` finds an entry, it has the key and no earlier entry has it.
pub proof fn lemma_first_key(entries: Seq<(String, JsonValue)>, key: Seq<char>, n: int)
    requires
        0 <= n <= entries.len(),
    ensures
        match first_key(entries, key, n) {
            Some(i) => 0 <= i < n && entries[i].0@ == key && forall|j: int| 0 <= j < i ==> entries[j].0@ != key,
            None => forall|j: int| 0 <= j < n ==> entries[j].0@ != key,
        },
    decreases n,
{
    if n > 0 {
        lemma_first_key(entries, key, n - 1);
    }
}

/// Looks up the field `key` of an object.
pub fn get_field<'a>(v: &'a JsonValue, key: &str) -> (r: Option<&'a JsonValue>)
    ensures
        match r {
            Some(x) => field(*v, key@) == Some(*x),
            None => field(*v, key@) is None,
        },
{
    match v {
        JsonValue::Object(entries) => {
            let n = entries.len();
            let mut i: usize = 0;
            while i < n
                invariant
                    n == entries@.len(),
                    i <= n,
                    first_key(entries@, key@, i as int) is None,
                    *v is Object && (*v)->Object_0 == *entries,
                decreases n - i,
            {
                if crate::channels::algedonic::text_eq(entries[i].0.as_str(), key) {
                    assert(first_key(entries@, key@, i + 1) == Some(i as int));
                    proof {
                        lemma_first_key_stable(entries@, key@, i + 1, n as int);
                    }
                    let found = &entries[i].1;
                    assert(*found == entries@[i as int].1);
                    assert(field(*v, key@) == Some(entries@[i as int].1));
                    return Some(found);
                }
                i = i + 1;
            }
            None
        },
        _ => None,
    }
}

/// Once `first_key` finds an entry, longer prefixes find the same one.
proof fn lemma_first_key_stable(entries: Seq<(String, JsonValue)>, key: Seq<char>, k: int, m: int)
    requires
        k <= m,
        first_key(entries, key, k) is Some,
    ensures
        first_key(entries, key, m) == first_key(entries, key, k),
    decreases m - k,
{
    if k < m {
        lemma_first_key_stable(entries, key, k, m - 1);
    }
}

/// The string items of an array, in order.
pub fn string_items_of(items: &Vec<JsonValue>) -> (r: Vec<String>)
    ensures
        r@.map_values(|s: String| s@) == string_items(items@),
{
    let mut out: Vec<String> = Vec::new();
    let n = items.len();
    let mut i: usize = 0;
    while i < n
        invariant
            n == items@.len(),
            i <= n,
            out@.map_values(|s: String| s@) == string_items(items@.take(i as int)),
        decreases n - i,
    {
        assert(items@.take(i + 1).drop_last() =~= items@.take(i as int));
        assert(items@.take(i + 1).last() == items@[i as int]);
        match &items[i] {
            JsonValue::String(s) => {
                let ghost before = out@;
                out.push(s.clone());
                assert(out@.map_values(|s: String| s@) =~= before.map_values(|s: String| s@).push(s@));
            },
            _ => {},
        }
        i = i + 1;
    }
    assert(items@.take(n as int) =~= items@);
    out
}

} // verus!
