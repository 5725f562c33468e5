use vstd::prelude::*;
use crate::natives::arrays::{heap_with_array, padded};
use crate::natives::common::{
    array_of, aref_field, field_of, first_equal, lemma_first_equal_bounds, oref_field, string_of, values_equal,
};
use crate::natives::list::{
    appended, list_add, list_add_all, list_array, list_capacity, list_elems, list_ok, list_remove, removed_at,
};
use crate::natives::map::{
    heap_map_store, map_append, map_entries, map_find, map_find_with_value, map_get, map_init, map_put, map_put_if_absent,
    map_entry_set, map_replace, map_slot_store, map_value_at, size_field,
};
use crate::runtime::heap::ObjectView;
use crate::runtime::jvm::heap_set_field;
use crate::natives::sorting::{bubble, bubble_pass, list_sort, sort_key};
use crate::natives::objects::arrays_sort;
use crate::natives::common::top;
use crate::runtime::frame::Frame;
use crate::natives::seqs::{pop_last, seq_append};
use crate::natives::set::{set_add, set_contains, set_elems, set_init, set_size};
use crate::runtime::error::JvmError;
use crate::natives::shuffle::{shuffled, swap_partner};
use crate::runtime::value::Value;

verus! {

// ---------- heaps that keep their strings ----------

/// `b` has the objects of `a`, with the same texts (fields and elements may differ).
pub open spec fn same_texts(a: Seq<ObjectView>, b: Seq<ObjectView>) -> bool {
    &&& a.len() == b.len()
    &&& forall|i: int| 0 <= i < a.len() ==> #[trigger] b[i].string == a[i].string
}

proof fn lemma_same_texts_equal(a: Seq<ObjectView>, b: Seq<ObjectView>, x: Value, y: Value)
    requires
        same_texts(a, b),
    ensures
        values_equal(a, x, y) == values_equal(b, x, y),
{
    match x {
        Value::ObjectRef(p) => match y {
            Value::ObjectRef(q) => {
                if p < a.len() {
                    assert(b[p as int].string == a[p as int].string);
                }
                if q < a.len() {
                    assert(b[q as int].string == a[q as int].string);
                }
                assert(string_of(a, p) == string_of(b, p));
                assert(string_of(a, q) == string_of(b, q));
            },
            _ => {},
        },
        _ => {},
    }
}

proof fn lemma_first_equal_same_texts(a: Seq<ObjectView>, b: Seq<ObjectView>, e: Seq<Value>, key: Value, from: int, n: int)
    requires
        same_texts(a, b),
    ensures
        first_equal(a, e, key, from, n) == first_equal(b, e, key, from, n),
    decreases n - from,
{
    if from >= n || from >= e.len() || from < 0 {
    } else {
        lemma_same_texts_equal(a, b, e[from], key);
        if !values_equal(a, e[from], key) {
            lemma_first_equal_same_texts(a, b, e, key, from + 1, n);
        }
    }
}

/// The first equal element is at `i` when it is equal and none before it is.
proof fn lemma_first_equal_at(h: Seq<ObjectView>, e: Seq<Value>, key: Value, from: int, n: int, i: int)
    requires
        0 <= from <= i < n,
        i < e.len(),
        values_equal(h, e[i], key),
        forall|j: int| from <= j < i ==> !values_equal(h, #[trigger] e[j], key),
    ensures
        first_equal(h, e, key, from, n) == Some(i),
    decreases i - from,
{
    if from < i {
        lemma_first_equal_at(h, e, key, from + 1, n, i);
    }
}

proof fn lemma_values_equal_refl(h: Seq<ObjectView>, x: Value)
    ensures
        values_equal(h, x, x),
{
}

/// The field names the collections use are different.
proof fn lemma_field_names()
    ensures
        "keys"@ != "size"@,
        "values"@ != "size"@,
        "keys"@ != "values"@,
        "elementData"@ != "size"@,
        "map"@ != "size"@,
{
    reveal_strlit("map");
    reveal_strlit("keys");
    reveal_strlit("values");
    reveal_strlit("size");
    reveal_strlit("elementData");
    assert("keys"@[0] != "size"@[0]);
    assert("values"@[0] != "size"@[0]);
    assert("keys"@[0] != "values"@[0]);
    assert("elementData"@[0] != "size"@[0]);
    assert("map"@[0] != "size"@[0]);
}

// ---------- maps ----------

/// A map in order: a live object whose `keys` and `values` fields refer to two
/// different arrays (neither the map itself) of one length, with a size between 0 and
/// that length.
pub open spec fn map_wf(h: Seq<ObjectView>, id: usize) -> bool {
    let kr = aref_field(h, id, "keys"@);
    let vr = aref_field(h, id, "values"@);
    &&& id < h.len()
    &&& kr != vr
    &&& kr != id
    &&& vr != id
    &&& array_of(h, kr) is Some
    &&& array_of(h, vr) is Some
    &&& array_of(h, kr)->0.len() == array_of(h, vr)->0.len()
    &&& 0 <= size_field(h, id) <= array_of(h, kr)->0.len()
}

/// A map's constructor leaves a live object in order (on a heap with room for the
/// two arrays it makes).
pub proof fn law_map_init_wf(h: Seq<ObjectView>, id: usize)
    requires
        id < h.len(),
        h.len() + 2 <= usize::MAX,
    ensures
        map_wf(map_init(h, Value::ObjectRef(id)), id),
{
    lemma_field_names();
    let this = Value::ObjectRef(id);
    let e = ObjectView::array_obj(crate::natives::map::object_array_class(), Seq::<Value>::empty());
    let h1 = h.push(e).push(e);
    let ha = heap_set_field(h1, this, "keys"@, Value::ArrayRef(h.len() as usize));
    let hb = heap_set_field(ha, this, "values"@, Value::ArrayRef((h.len() + 1) as usize));
    let h2 = heap_set_field(hb, this, "size"@, Value::Int(0));
    assert(map_init(h, this) == h2);
    assert(ha[id as int].fields == h[id as int].fields.insert("keys"@, Value::ArrayRef(h.len() as usize)));
    assert(h2[id as int].fields == h[id as int].fields.insert("keys"@, Value::ArrayRef(h.len() as usize)).insert(
        "values"@, Value::ArrayRef((h.len() + 1) as usize)).insert("size"@, Value::Int(0)));
    assert(aref_field(h2, id, "keys"@) == h.len());
    assert(aref_field(h2, id, "values"@) == h.len() + 1);
    assert(array_of(h2, h.len() as usize) == Some(Seq::<Value>::empty()));
    assert(array_of(h2, (h.len() + 1) as usize) == Some(Seq::<Value>::empty()));
}

/// `put` keeps a map in order (while its size stays below the largest `int`), and a
/// `get` of the key afterwards answers the value put.
pub proof fn law_map_put_get(h: Seq<ObjectView>, id: usize, key: Value, value: Value)
    requires
        map_wf(h, id),
        size_field(h, id) < 0x7fff_ffff,
    ensures
        map_wf(map_put(h, id, key, value).0, id),
        map_get(map_put(h, id, key, value).0, id, key) == value,
{
    lemma_field_names();
    let kr = aref_field(h, id, "keys"@);
    let vr = aref_field(h, id, "values"@);
    let k = array_of(h, kr)->0;
    let v = array_of(h, vr)->0;
    let h2 = map_put(h, id, key, value).0;
    lemma_first_equal_bounds(h, k, key, 0, size_field(h, id) as int);
    match map_find(h, id, key) {
        Some(i) => {
            let h1 = heap_with_array(h, vr, v.update(i, value));
            assert(h2 == heap_set_field(h1, Value::ObjectRef(id), "size"@, Value::Int(size_field(h, id))));
            assert(h2[id as int].fields == h[id as int].fields.insert("size"@, Value::Int(size_field(h, id))));
            assert(aref_field(h2, id, "keys"@) == kr);
            assert(aref_field(h2, id, "values"@) == vr);
            assert(array_of(h2, kr) == Some(k));
            assert(array_of(h2, vr) == Some(v.update(i, value)));
            assert(same_texts(h, h2));
            assert(i < size_field(h, id) && values_equal(h, k[i], key));
            assert forall|j: int| 0 <= j < i implies !values_equal(h2, #[trigger] k[j], key) by {
                lemma_same_texts_equal(h, h2, k[j], key);
            }
            lemma_same_texts_equal(h, h2, k[i], key);
            assert(size_field(h2, id) == size_field(h, id));
            lemma_first_equal_at(h2, k, key, 0, size_field(h, id) as int, i);
        },
        None => {
            let size = size_field(h, id) as nat;
            assert(h2 == map_append(h, id, key, value));
            let k2 = map_slot_store(k, size, key);
            let v2 = map_slot_store(v, size, value);
            let h1 = heap_map_store(h, kr, size, key);
            assert(h1 == heap_with_array(h, kr, k2));
            assert(array_of(h1, vr) == Some(v));
            let hb = heap_map_store(h1, vr, size, value);
            assert(hb == heap_with_array(h1, vr, v2));
            assert(h2 == heap_set_field(hb, Value::ObjectRef(id), "size"@, Value::Int((size + 1) as i32)));
            assert(aref_field(h2, id, "keys"@) == kr);
            assert(aref_field(h2, id, "values"@) == vr);
            assert(array_of(h2, kr) == Some(k2));
            assert(array_of(h2, vr) == Some(v2));
            assert(size_field(h2, id) == size + 1);
            assert(same_texts(h, h2));
            assert forall|j: int| 0 <= j < size implies !values_equal(h2, #[trigger] k2[j], key) by {
                lemma_same_texts_equal(h, h2, k[j], key);
            }
            lemma_values_equal_refl(h2, key);
            assert(k2.len() >= size + 1 && v2.len() >= size + 1);
            lemma_first_equal_at(h2, k2, key, 0, (size + 1) as int, size as int);
        },
    }
}

/// Equality of values is symmetric, and two values equal to a third are equal.
proof fn lemma_values_equal_sym_trans(h: Seq<ObjectView>, a: Value, b: Value, c: Value)
    ensures
        values_equal(h, a, b) ==> values_equal(h, b, a),
        values_equal(h, a, b) && values_equal(h, a, c) ==> values_equal(h, c, b),
{
}

/// Searches of two arrays that agree on a range, over heaps with the same texts,
/// agree.
proof fn lemma_first_equal_agree(h1: Seq<ObjectView>, h2: Seq<ObjectView>, a: Seq<Value>, b: Seq<Value>, key: Value, from: int, n: int)
    requires
        same_texts(h1, h2),
        0 <= from,
        n <= a.len(),
        n <= b.len(),
        forall|j: int| from <= j < n ==> a[j] == b[j],
    ensures
        first_equal(h1, a, key, from, n) == first_equal(h2, b, key, from, n),
    decreases n - from,
{
    if from < n {
        lemma_same_texts_equal(h1, h2, a[from], key);
        lemma_first_equal_agree(h1, h2, a, b, key, from + 1, n);
    }
}

/// A search one slot longer finds the same when that slot does not match.
proof fn lemma_first_equal_extend(h: Seq<ObjectView>, e: Seq<Value>, key: Value, from: int, n: int)
    requires
        0 <= from <= n < e.len(),
        !values_equal(h, e[n], key),
    ensures
        first_equal(h, e, key, from, n + 1) == first_equal(h, e, key, from, n),
    decreases n - from,
{
    if from == n {
        assert(first_equal(h, e, key, n + 1, n + 1) is None);
    } else if !values_equal(h, e[from], key) {
        lemma_first_equal_extend(h, e, key, from + 1, n);
    }
}

/// `put` of one key leaves what `get` answers for every other key as it was.
pub proof fn law_map_put_keeps_other_keys(h: Seq<ObjectView>, id: usize, key: Value, value: Value, other: Value)
    requires
        map_wf(h, id),
        size_field(h, id) < 0x7fff_ffff,
        !values_equal(h, other, key),
    ensures
        map_get(map_put(h, id, key, value).0, id, other) == map_get(h, id, other),
{
    lemma_field_names();
    let kr = aref_field(h, id, "keys"@);
    let vr = aref_field(h, id, "values"@);
    let k = array_of(h, kr)->0;
    let v = array_of(h, vr)->0;
    let size = size_field(h, id) as nat;
    let h2 = map_put(h, id, key, value).0;
    lemma_first_equal_bounds(h, k, key, 0, size as int);
    lemma_first_equal_bounds(h, k, other, 0, size as int);
    lemma_values_equal_sym_trans(h, other, key, key);
    match map_find(h, id, key) {
        Some(i) => {
            let h1 = heap_with_array(h, vr, v.update(i, value));
            assert(h2 == heap_set_field(h1, Value::ObjectRef(id), "size"@, Value::Int(size_field(h, id))));
            assert(h2[id as int].fields == h[id as int].fields.insert("size"@, Value::Int(size_field(h, id))));
            assert(aref_field(h2, id, "keys"@) == kr);
            assert(aref_field(h2, id, "values"@) == vr);
            assert(array_of(h2, kr) == Some(k));
            assert(array_of(h2, vr) == Some(v.update(i, value)));
            assert(size_field(h2, id) == size);
            assert(same_texts(h, h2));
            lemma_first_equal_agree(h, h2, k, k, other, 0, size as int);
            match map_find(h, id, other) {
                Some(j) => {
                    lemma_values_equal_sym_trans(h, k[i], key, other);
                    assert(j != i);
                },
                None => {},
            }
        },
        None => {
            assert(h2 == map_append(h, id, key, value));
            let k2 = map_slot_store(k, size, key);
            let v2 = map_slot_store(v, size, value);
            let h1 = heap_map_store(h, kr, size, key);
            assert(h1 == heap_with_array(h, kr, k2));
            assert(array_of(h1, vr) == Some(v));
            let hb = heap_map_store(h1, vr, size, value);
            assert(hb == heap_with_array(h1, vr, v2));
            assert(h2 == heap_set_field(hb, Value::ObjectRef(id), "size"@, Value::Int((size + 1) as i32)));
            assert(aref_field(h2, id, "keys"@) == kr);
            assert(aref_field(h2, id, "values"@) == vr);
            assert(array_of(h2, kr) == Some(k2));
            assert(array_of(h2, vr) == Some(v2));
            assert(size_field(h2, id) == size + 1);
            assert(same_texts(h, h2));
            assert(k2.len() >= size + 1 && v2.len() >= size + 1);
            assert(k2[size as int] == key);
            lemma_same_texts_equal(h, h2, key, other);
            lemma_values_equal_sym_trans(h2, key, other, other);
            assert(!values_equal(h2, k2[size as int], other));
            lemma_first_equal_extend(h2, k2, other, 0, size as int);
            assert forall|j: int| 0 <= j < size implies k[j] == k2[j] by {}
            lemma_first_equal_agree(h, h2, k, k2, other, 0, size as int);
            match map_find(h, id, other) {
                Some(j) => {
                    assert(v2[j] == v[j]);
                },
                None => {},
            }
        },
    }
}

/// `put` on a map in order, seen on its entries: the entry of an equal key gets the
/// new value in place, and a key equal to none is appended with its value.
pub proof fn law_map_put_entries(h: Seq<ObjectView>, id: usize, key: Value, value: Value)
    requires
        map_wf(h, id),
        size_field(h, id) < 0x7fff_ffff,
    ensures
        map_entries(map_put(h, id, key, value).0, id) == match map_find(h, id, key) {
            Some(i) => map_entries(h, id).update(i, (map_entries(h, id)[i].0, value)),
            None => map_entries(h, id).push((key, value)),
        },
{
    lemma_field_names();
    let kr = aref_field(h, id, "keys"@);
    let vr = aref_field(h, id, "values"@);
    let k = array_of(h, kr)->0;
    let v = array_of(h, vr)->0;
    let size = size_field(h, id) as nat;
    let h2 = map_put(h, id, key, value).0;
    lemma_first_equal_bounds(h, k, key, 0, size as int);
    let es = map_entries(h, id);
    assert(es =~= Seq::new(size, |j: int| (k[j], v[j])));
    match map_find(h, id, key) {
        Some(i) => {
            let h1 = heap_with_array(h, vr, v.update(i, value));
            assert(h2 == heap_set_field(h1, Value::ObjectRef(id), "size"@, Value::Int(size_field(h, id))));
            assert(h2[id as int].fields == h[id as int].fields.insert("size"@, Value::Int(size_field(h, id))));
            assert(aref_field(h2, id, "keys"@) == kr);
            assert(aref_field(h2, id, "values"@) == vr);
            assert(array_of(h2, kr) == Some(k));
            assert(array_of(h2, vr) == Some(v.update(i, value)));
            assert(size_field(h2, id) == size);
            assert(map_entries(h2, id) =~= es.update(i, (es[i].0, value)));
        },
        None => {
            assert(h2 == map_append(h, id, key, value));
            let k2 = map_slot_store(k, size, key);
            let v2 = map_slot_store(v, size, value);
            let h1 = heap_map_store(h, kr, size, key);
            assert(h1 == heap_with_array(h, kr, k2));
            assert(array_of(h1, vr) == Some(v));
            let hb = heap_map_store(h1, vr, size, value);
            assert(hb == heap_with_array(h1, vr, v2));
            assert(h2 == heap_set_field(hb, Value::ObjectRef(id), "size"@, Value::Int((size + 1) as i32)));
            assert(aref_field(h2, id, "keys"@) == kr);
            assert(aref_field(h2, id, "values"@) == vr);
            assert(array_of(h2, kr) == Some(k2));
            assert(array_of(h2, vr) == Some(v2));
            assert(size_field(h2, id) == size + 1);
            assert(k2.len() >= size + 1 && v2.len() >= size + 1);
            assert(map_entries(h2, id) =~= es.push((key, value)));
        },
    }
}

/// `putIfAbsent` on a map in order: a present key leaves the map as it is and
/// answers its value; a missing key is added as `put` adds it (its `get` answering the
/// value, the entries gaining it at the end, other keys kept) and `Null` is answered.
pub proof fn law_map_put_if_absent(h: Seq<ObjectView>, id: usize, key: Value, value: Value, other: Value)
    requires
        map_wf(h, id),
        size_field(h, id) < 0x7fff_ffff,
    ensures
        match map_find(h, id, key) {
            Some(i) => map_put_if_absent(h, id, key, value) == (h, Some(map_entries(h, id)[i].1)),
            None => {
                let h2 = map_put_if_absent(h, id, key, value).0;
                &&& map_put_if_absent(h, id, key, value).1 == Some(Value::Null)
                &&& map_get(h2, id, key) == value
                &&& map_entries(h2, id) == map_entries(h, id).push((key, value))
                &&& (!values_equal(h, other, key) ==> map_get(h2, id, other) == map_get(h, id, other))
            },
        },
{
    lemma_field_names();
    let k = array_of(h, aref_field(h, id, "keys"@))->0;
    lemma_first_equal_bounds(h, k, key, 0, size_field(h, id) as int);
    match map_find(h, id, key) {
        Some(i) => {
            let v = array_of(h, aref_field(h, id, "values"@))->0;
            assert(map_value_at(h, id, i) == Some(v[i]));
            assert(map_entries(h, id)[i].1 == v[i]);
        },
        None => {
            assert(map_put_if_absent(h, id, key, value) == map_put(h, id, key, value));
            law_map_put_get(h, id, key, value);
            law_map_put_entries(h, id, key, value);
            if !values_equal(h, other, key) {
                law_map_put_keeps_other_keys(h, id, key, value, other);
            }
        },
    }
}

/// `replace` on a map in order: a present key gets the new value in place (its
/// `get` answering it, the size unchanged) and its old value is answered; a missing
/// key leaves the map as it is and `Null` is answered.
pub proof fn law_map_replace(h: Seq<ObjectView>, id: usize, key: Value, value: Value)
    requires
        map_wf(h, id),
    ensures
        match map_find(h, id, key) {
            Some(i) => {
                let h2 = map_replace(h, id, key, value).0;
                &&& map_replace(h, id, key, value).1 == Some(map_entries(h, id)[i].1)
                &&& map_entries(h2, id) == map_entries(h, id).update(i, (map_entries(h, id)[i].0, value))
                &&& size_field(h2, id) == size_field(h, id)
                &&& map_get(h2, id, key) == value
            },
            None => map_replace(h, id, key, value) == (h, Some(Value::Null)),
        },
{
    lemma_field_names();
    let kr = aref_field(h, id, "keys"@);
    let vr = aref_field(h, id, "values"@);
    let k = array_of(h, kr)->0;
    let v = array_of(h, vr)->0;
    let size = size_field(h, id) as nat;
    assert(map_find_with_value(h, id, key) == map_find(h, id, key));
    lemma_first_equal_bounds(h, k, key, 0, size as int);
    match map_find(h, id, key) {
        Some(i) => {
            let h2 = heap_with_array(h, vr, v.update(i, value));
            assert(map_replace(h, id, key, value).0 == h2);
            assert(h2[id as int] == h[id as int]);
            assert(aref_field(h2, id, "keys"@) == kr);
            assert(aref_field(h2, id, "values"@) == vr);
            assert(array_of(h2, kr) == Some(k));
            assert(array_of(h2, vr) == Some(v.update(i, value)));
            assert(size_field(h2, id) == size);
            assert(map_entries(h2, id) =~= map_entries(h, id).update(i, (map_entries(h, id)[i].0, value)));
            assert(same_texts(h, h2));
            lemma_first_equal_agree(h, h2, k, k, key, 0, size as int);
            assert(map_find(h2, id, key) == Some(i));
        },
        None => {},
    }
}

/// `entrySet` on a map in order: a new set whose size is the map's size and whose
/// elements, in order, are new entry objects holding each key with its value; the
/// map's entries stay as they were.
pub proof fn law_map_entry_set(h: Seq<ObjectView>, id: usize)
    requires
        map_wf(h, id),
        h.len() + size_field(h, id) + 4 <= usize::MAX,
    ensures
        ({
            let r = map_entry_set(h, Value::ObjectRef(id));
            let n = size_field(h, id) as int;
            let es = map_entries(h, id);
            &&& r.1 == Value::ObjectRef((r.0.len() - 1) as usize)
            &&& set_size(r.0, (r.0.len() - 1) as usize) == size_field(h, id)
            &&& set_elems(r.0, (r.0.len() - 1) as usize).len() == n
            &&& forall|i: int| 0 <= i < n ==> {
                &&& #[trigger] set_elems(r.0, (r.0.len() - 1) as usize)[i] == Value::ObjectRef((h.len() + i) as usize)
                &&& r.0[h.len() + i].get("key"@) == Some(es[i].0)
                &&& r.0[h.len() + i].get("value"@) == Some(es[i].1)
            }
            &&& map_entries(r.0, id) == es
        }),
{
    lemma_field_names();
    reveal_strlit("key");
    reveal_strlit("value");
    assert("key"@.len() == 3 && "value"@.len() == 5);
    let kr = aref_field(h, id, "keys"@);
    let vr = aref_field(h, id, "values"@);
    let k = array_of(h, kr)->0;
    let v = array_of(h, vr)->0;
    let n = size_field(h, id) as nat;
    let kd = k.take(n as int);
    let vd = v.take(n as int);
    assert(crate::natives::arrays::prefix_upto(k, size_field(h, id)) == kd);
    assert(crate::natives::arrays::prefix_upto(v, size_field(h, id)) == vd);
    let es = crate::natives::map::entries(kd, vd);
    assert(es.len() == n);
    let h1 = h + es;
    let refs = Seq::new(n, |i: int| Value::ObjectRef((h.len() + i) as usize));
    let mi = h1.len() as usize;
    let m = Value::ObjectRef(mi);
    let h2 = crate::natives::map::heap_with_collection(h1, "java.util.HashMap"@, "keys"@, refs, n as i32);
    let nulls = Seq::new(n, |i: int| Value::Null);
    let h3 = h2.push(ObjectView::array_obj(crate::natives::map::object_array_class(), nulls));
    let h4 = heap_set_field(h3, m, "values"@, Value::ArrayRef(h2.len() as usize));
    let h5 = h4.push(ObjectView::plain("java.util.HashSet"@).with_field("map"@, m));
    let r = map_entry_set(h, Value::ObjectRef(id));
    assert(r.0 == h5);
    let si = (h5.len() - 1) as usize;
    assert(field_of(h5, si, "map"@) == Some(m));
    assert(h5[mi as int].fields == crate::natives::map::sized_object("java.util.HashMap"@, "keys"@,
        (h1.len() + 1) as usize, n as i32).fields.insert("values"@, Value::ArrayRef(h2.len() as usize)));
    assert(aref_field(h5, mi, "keys"@) == h1.len() + 1);
    assert(aref_field(h5, mi, "values"@) == h2.len());
    assert(size_field(h5, mi) == n);
    assert(array_of(h5, (h1.len() + 1) as usize) == Some(refs));
    assert(array_of(h5, h2.len() as usize) == Some(nulls));
    assert(set_size(h5, si) == n);
    assert(map_entries(h5, mi) =~= Seq::new(n, |i: int| (refs[i], nulls[i])));
    assert(set_elems(h5, si) =~= refs);
    assert forall|i: int| 0 <= i < n implies h5[h.len() + i] == es[i] by {
        assert(h5[h.len() + i] == h1[h.len() + i]);
    }
    assert(map_entries(h, id) =~= Seq::new(n, |i: int| (k[i], v[i])));
    assert(h5[id as int] == h[id as int]);
    assert(h5[kr as int] == h[kr as int]);
    assert(h5[vr as int] == h[vr as int]);
    assert(map_entries(h5, id) =~= map_entries(h, id));
}

// ---------- lists ----------

/// `add(x)` on a list in order whose element array exists (and can grow by half
/// again): the list's elements become the old ones followed by `x`, and the list
/// stays in order.
pub proof fn law_list_add(h: Seq<ObjectView>, id: usize, x: Value)
    requires
        id < h.len(),
        list_ok(h, id),
        list_array(h, id) != id,
        array_of(h, list_array(h, id)) is Some,
        size_field(h, id) < 0x7fff_ffff,
        2 * list_capacity(array_of(h, list_array(h, id))->0.len()) + 2 <= usize::MAX,
    ensures
        list_elems(list_add(h, id, x), id) == list_elems(h, id).push(x),
        list_ok(list_add(h, id, x), id),
{
    lemma_field_names();
    let ar = list_array(h, id);
    let e = array_of(h, ar)->0;
    let size = size_field(h, id) as nat;
    let e2 = if size >= e.len() {
        padded(e, list_capacity(e.len()))
    } else {
        e
    };
    let e3 = if size < e2.len() {
        e2.update(size as int, x)
    } else {
        e2
    };
    let h1 = heap_with_array(h, ar, e3);
    let h2 = list_add(h, id, x);
    assert(h2 == heap_set_field(h1, Value::ObjectRef(id), "size"@, Value::Int((size + 1) as i32)));
    assert(list_array(h2, id) == ar);
    assert(array_of(h2, ar) == Some(e3));
    assert(size_field(h2, id) == size + 1);
    assert(list_elems(h, id) == e.take(size as int));
    assert(list_elems(h2, id) =~= e3.take(size + 1int));
    assert(e3.take(size + 1int) =~= e.take(size as int).push(x));
}


/// What `Stack.push(x)` stores, `Stack.pop()` gives back: on a stack in order whose
/// element array exists, the pop answers `x` and leaves the stack with the elements
/// and size it had before the push.
pub proof fn law_stack_push_pop(h: Seq<ObjectView>, id: usize, x: Value)
    requires
        id < h.len(),
        list_ok(h, id),
        list_array(h, id) != id,
        array_of(h, list_array(h, id)) is Some,
        size_field(h, id) < 0x7fff_ffff,
    ensures
        pop_last(seq_append(h, id, x), id).1 == Some(x),
        list_elems(pop_last(seq_append(h, id, x), id).0, id) == list_elems(h, id),
        size_field(pop_last(seq_append(h, id, x), id).0, id) == size_field(h, id),
{
    lemma_field_names();
    let ar = list_array(h, id);
    let e = array_of(h, ar)->0;
    let size = size_field(h, id) as nat;
    let e2 = map_slot_store(e, size, x);
    let h1 = seq_append(h, id, x);
    assert(h1 == heap_set_field(heap_with_array(h, ar, e2), Value::ObjectRef(id), "size"@, Value::Int((size + 1) as i32)));
    assert(list_array(h1, id) == ar);
    assert(array_of(h1, ar) == Some(e2));
    assert(size_field(h1, id) == size + 1);
    assert(e2.len() > size);
    assert(e2[size as int] == x);
    let e3 = e2.update(size as int, Value::Null);
    let h2 = pop_last(h1, id).0;
    assert(h2 == heap_set_field(heap_with_array(h1, ar, e3), Value::ObjectRef(id), "size"@, Value::Int(size as i32)));
    assert(list_array(h2, id) == ar);
    assert(array_of(h2, ar) == Some(e3));
    assert(size_field(h2, id) == size);
    assert(list_elems(h, id) =~= e.take(size as int));
    assert(list_elems(h2, id) =~= e3.take(size as int));
    assert(e3.take(size as int) =~= e.take(size as int));
}

/// `remove(index)` on a list in order whose element array exists: an index below
/// the size takes that element out (later ones move down) and answers it; any other
/// index leaves the list as it is and answers `Null`.
pub proof fn law_list_remove(h: Seq<ObjectView>, id: usize, index: i32)
    requires
        id < h.len(),
        list_ok(h, id),
        list_array(h, id) != id,
        array_of(h, list_array(h, id)) is Some,
    ensures
        0 <= index < size_field(h, id) ==> {
            &&& list_remove(h, id, index).1 == Some(list_elems(h, id)[index as int])
            &&& list_elems(list_remove(h, id, index).0, id) == list_elems(h, id).remove(index as int)
            &&& list_ok(list_remove(h, id, index).0, id)
        },
        !(0 <= index < size_field(h, id)) ==> list_remove(h, id, index) == (h, Some(Value::Null)),
{
    lemma_field_names();
    let ar = list_array(h, id);
    let e = array_of(h, ar)->0;
    let size = size_field(h, id);
    assert(list_elems(h, id) =~= e.take(size as int));
    if 0 <= index < size {
        let e2 = removed_at(e, index as int, size as int);
        let h1 = heap_with_array(h, ar, e2);
        let h2 = list_remove(h, id, index).0;
        assert(h2 == heap_set_field(h1, Value::ObjectRef(id), "size"@, Value::Int((size - 1) as i32)));
        assert(list_array(h2, id) == ar);
        assert(array_of(h2, ar) == Some(e2));
        assert(size_field(h2, id) == size - 1);
        assert(list_elems(h2, id) =~= e2.take(size - 1));
        assert(e2.take(size - 1) =~= e.take(size as int).remove(index as int));
    }
}

/// `addAll(c)` on a list in order whose element array exists, from another live
/// list: the elements of `c` are appended in order and `true` is answered when there
/// were any (while the sizes stay below the largest `int`).
pub proof fn law_list_add_all(h: Seq<ObjectView>, id: usize, c: usize)
    requires
        id < h.len(),
        c < h.len(),
        list_ok(h, id),
        list_array(h, id) != id,
        array_of(h, list_array(h, id)) is Some,
        size_field(h, id) + list_elems(h, c).len() < 0x7fff_ffff,
    ensures
        list_add_all(h, id, Value::ObjectRef(c)).1 == Some(Value::Boolean(list_elems(h, c).len() > 0)),
        list_elems(list_add_all(h, id, Value::ObjectRef(c)).0, id) == list_elems(h, id) + list_elems(h, c),
{
    lemma_field_names();
    let ar = list_array(h, id);
    let e = array_of(h, ar)->0;
    let size = size_field(h, id) as nat;
    let elems = list_elems(h, c);
    let n = size + elems.len();
    let e3 = appended(e, size, elems);
    let h1 = heap_with_array(h, ar, e3);
    let h2 = list_add_all(h, id, Value::ObjectRef(c)).0;
    assert(h2 == heap_set_field(h1, Value::ObjectRef(id), "size"@, Value::Int(n as i32)));
    assert(list_array(h2, id) == ar);
    assert(array_of(h2, ar) == Some(e3));
    assert(size_field(h2, id) == n);
    assert(e3.len() >= n);
    assert(list_elems(h, id) =~= e.take(size as int));
    assert(list_elems(h2, id) =~= e3.take(n as int));
    assert(e3.take(n as int) =~= e.take(size as int) + elems);
}

// ---------- sets ----------

/// A new set is empty and its backing map is in order (on a heap with room for the
/// map and its two arrays).
pub proof fn law_set_init(h: Seq<ObjectView>, id: usize, x: Value)
    requires
        id < h.len(),
        h.len() + 3 <= usize::MAX,
    ensures
        oref_field(set_init(h, Value::ObjectRef(id)), id, "map"@) == h.len(),
        map_wf(set_init(h, Value::ObjectRef(id)), h.len() as usize),
        !set_contains(set_init(h, Value::ObjectRef(id)), id, x),
        set_size(set_init(h, Value::ObjectRef(id)), id) == 0,
{
    lemma_field_names();
    let m = h.len() as usize;
    let h0 = h.push(ObjectView::plain("java.util.HashMap"@));
    law_map_init_wf(h0, m);
    let h1 = map_init(h0, Value::ObjectRef(m));
    let h2 = set_init(h, Value::ObjectRef(id));
    assert(h2 == heap_set_field(h1, Value::ObjectRef(id), "map"@, Value::ObjectRef(m)));
    assert(h2[m as int] == h1[m as int]);
    assert(field_of(h2, id, "map"@) == Some(Value::ObjectRef(m)));
    assert(field_of(h2, m, "keys"@) == field_of(h1, m, "keys"@));
    assert(field_of(h2, m, "values"@) == field_of(h1, m, "values"@));
    assert(field_of(h2, m, "size"@) == field_of(h1, m, "size"@));
    let kr = aref_field(h1, m, "keys"@);
    let vr = aref_field(h1, m, "values"@);
    assert(h2[kr as int] == h1[kr as int]);
    assert(h2[vr as int] == h1[vr as int]);
    assert(array_of(h2, kr) == array_of(h1, kr));
    assert(array_of(h2, vr) == array_of(h1, vr));
}

/// After `add(x)`, `contains(x)` holds, and a second `add(x)` answers `false` and
/// changes nothing: for a set whose backing map (not the set itself) is in order
/// and below the largest `int` in size.
pub proof fn law_set_add_contains(h: Seq<ObjectView>, id: usize, x: Value)
    requires
        id < h.len(),
        oref_field(h, id, "map"@) != 0,
        oref_field(h, id, "map"@) != id,
        map_wf(h, oref_field(h, id, "map"@)),
        size_field(h, oref_field(h, id, "map"@)) < 0x7fff_ffff,
    ensures
        set_add(h, id, x) is Ok,
        set_contains(set_add(h, id, x)->Ok_0.0, id, x),
        set_add(set_add(h, id, x)->Ok_0.0, id, x) == Ok::<(Seq<ObjectView>, Option<Value>), JvmError>(
            (set_add(h, id, x)->Ok_0.0, Some(Value::Boolean(false)))),
{
    lemma_field_names();
    let m = oref_field(h, id, "map"@);
    let kr = aref_field(h, m, "keys"@);
    let vr = aref_field(h, m, "values"@);
    let k = array_of(h, kr)->0;
    let size = size_field(h, m) as nat;
    lemma_first_equal_bounds(h, k, x, 0, size as int);
    if map_find(h, m, x) is None {
        let k2 = map_slot_store(k, size, x);
        let h1 = heap_map_store(h, kr, size, x);
        assert(h1 == heap_with_array(h, kr, k2));
        assert(field_of(h1, id, "map"@) == field_of(h, id, "map"@));
        assert(field_of(h1, m, "keys"@) == field_of(h, m, "keys"@));
        let h2 = heap_map_store(h1, vr, size, Value::Null);
        assert(field_of(h2, id, "map"@) == field_of(h, id, "map"@));
        assert(field_of(h2, m, "keys"@) == field_of(h, m, "keys"@));
        assert(array_of(h2, kr) == Some(k2));
        let h3 = map_append(h, m, x, Value::Null);
        assert(h3 == heap_set_field(h2, Value::ObjectRef(m), "size"@, Value::Int((size + 1) as i32)));
        assert(array_of(h3, kr) == Some(k2));
        assert(field_of(h3, id, "map"@) == field_of(h, id, "map"@));
        assert(aref_field(h3, m, "keys"@) == kr);
        assert(size_field(h3, m) == size + 1);
        assert(k2[size as int] == x);
        assert(size + 1 <= k2.len());
        lemma_values_equal_refl(h3, x);
        lemma_first_equal_bounds(h3, k2, x, 0, (size + 1) as int);
        assert(map_find(h3, m, x) is Some);
    }
}

/// Seen on its elements, `add(x)` appends `x` when no element equals it and leaves
/// the set as it is otherwise (for a set whose backing map, not the set itself, is in
/// order and below the largest `int` in size).
pub proof fn law_set_add_elems(h: Seq<ObjectView>, id: usize, x: Value)
    requires
        id < h.len(),
        oref_field(h, id, "map"@) != 0,
        oref_field(h, id, "map"@) != id,
        map_wf(h, oref_field(h, id, "map"@)),
        size_field(h, oref_field(h, id, "map"@)) < 0x7fff_ffff,
    ensures
        set_elems(set_add(h, id, x)->Ok_0.0, id) == if set_contains(h, id, x) {
            set_elems(h, id)
        } else {
            set_elems(h, id).push(x)
        },
{
    lemma_field_names();
    let m = oref_field(h, id, "map"@);
    if map_find(h, m, x) is None {
        let kr = aref_field(h, m, "keys"@);
        let vr = aref_field(h, m, "values"@);
        let k = array_of(h, kr)->0;
        let v = array_of(h, vr)->0;
        let size = size_field(h, m) as nat;
        let k2 = map_slot_store(k, size, x);
        let v2 = map_slot_store(v, size, Value::Null);
        let h1 = heap_map_store(h, kr, size, x);
        assert(h1 == heap_with_array(h, kr, k2));
        assert(array_of(h1, vr) == Some(v));
        let h2 = heap_map_store(h1, vr, size, Value::Null);
        assert(h2 == heap_with_array(h1, vr, v2));
        let h3 = map_append(h, m, x, Value::Null);
        assert(h3 == heap_set_field(h2, Value::ObjectRef(m), "size"@, Value::Int((size + 1) as i32)));
        assert(field_of(h3, id, "map"@) == field_of(h, id, "map"@));
        assert(aref_field(h3, m, "keys"@) == kr);
        assert(aref_field(h3, m, "values"@) == vr);
        assert(array_of(h3, kr) == Some(k2));
        assert(array_of(h3, vr) == Some(v2));
        assert(size_field(h3, m) == size + 1);
        assert(k2.len() >= size + 1 && v2.len() >= size + 1);
        assert(map_entries(h, m) =~= Seq::new(size, |j: int| (k[j], v[j])));
        assert(map_entries(h3, m) =~= map_entries(h, m).push((x, Value::Null)));
        assert(set_elems(h3, id) =~= set_elems(h, id).push(x));
    }
}

// ---------- sorting ----------

/// The first `n` elements are in order of their sort keys.
pub open spec fn sorted_by_key(e: Seq<Value>, n: int) -> bool {
    forall|a: int, b: int| 0 <= a <= b < n ==> sort_key(#[trigger] e[a]) <= sort_key(#[trigger] e[b])
}

proof fn lemma_swap_multiset(e: Seq<Value>, i: int, j: int)
    requires
        0 <= i < e.len(),
        0 <= j < e.len(),
    ensures
        e.update(i, e[j]).update(j, e[i]).to_multiset() == e.to_multiset(),
{
    broadcast use vstd::seq_lib::to_multiset_update, vstd::multiset::group_multiset_axioms;
    if i == j {
        assert(e.update(i, e[j]).update(j, e[i]) =~= e);
    } else {
        let m = e.to_multiset();
        let e1 = e.update(i, e[j]);
        assert(e1.to_multiset() == m.insert(e[j]).remove(e[i]));
        assert(e1[j] == e[j]);
        assert(e1.update(j, e[i]).to_multiset() == e1.to_multiset().insert(e[i]).remove(e[j]));
        vstd::seq_lib::to_multiset_contains(e, e[i]);
        vstd::seq_lib::to_multiset_contains(e, e[j]);
        assert(m.count(e[i]) > 0);
        assert(m.count(e[j]) > 0);
        assert(m.insert(e[j]).remove(e[i]).insert(e[i]).remove(e[j]) =~= m);
    }
}

/// One pass: the largest key ends at `end`, the slots past `end` keep their
/// elements, the elements are the same ones, and any bound on the keys up to `end`
/// still holds.
proof fn lemma_pass(e: Seq<Value>, j: int, end: int, bound: i64)
    requires
        0 <= j <= end,
        end + 1 <= e.len(),
        forall|k: int| 0 <= k <= j ==> sort_key(#[trigger] e[k]) <= sort_key(e[j]),
    ensures
        bubble_pass(e, j, end).len() == e.len(),
        forall|k: int| end < k < e.len() ==> #[trigger] bubble_pass(e, j, end)[k] == e[k],
        forall|k: int| 0 <= k <= end ==> sort_key(#[trigger] bubble_pass(e, j, end)[k]) <= sort_key(
            bubble_pass(e, j, end)[end],
        ),
        bubble_pass(e, j, end).to_multiset() == e.to_multiset(),
        (forall|k: int| 0 <= k <= end ==> sort_key(#[trigger] e[k]) <= bound) ==> (forall|k: int|
            0 <= k <= end ==> sort_key(#[trigger] bubble_pass(e, j, end)[k]) <= bound),
    decreases end - j,
{
    if j < end {
        let e2 = if sort_key(e[j]) > sort_key(e[j + 1]) {
            e.update(j, e[j + 1]).update(j + 1, e[j])
        } else {
            e
        };
        if sort_key(e[j]) > sort_key(e[j + 1]) {
            lemma_swap_multiset(e, j, j + 1);
        }
        assert(bubble_pass(e, j, end) == bubble_pass(e2, j + 1, end));
        assert forall|k: int| 0 <= k <= j + 1 implies sort_key(#[trigger] e2[k]) <= sort_key(e2[j + 1]) by {
            if k < j {
                assert(e2[k] == e[k]);
            }
        }
        lemma_pass(e2, j + 1, end, bound);
        if forall|k: int| 0 <= k <= end ==> sort_key(#[trigger] e[k]) <= bound {
            assert forall|k: int| 0 <= k <= end implies sort_key(#[trigger] e2[k]) <= bound by {
                if k == j || k == j + 1 {
                    assert(sort_key(e[j]) <= bound);
                    assert(sort_key(e[j + 1]) <= bound);
                } else {
                    assert(e2[k] == e[k]);
                }
            }
        }
    }
}

/// After passes `0..i`, slots `n - i..n` are in order and no earlier key is larger.
pub open spec fn bubble_inv(c: Seq<Value>, n: int, i: int) -> bool {
    &&& forall|a: int, b: int| n - i <= a <= b < n ==> sort_key(#[trigger] c[a]) <= sort_key(#[trigger] c[b])
    &&& forall|a: int, b: int| 0 <= a < n - i <= b < n ==> sort_key(#[trigger] c[a]) <= sort_key(#[trigger] c[b])
}

proof fn lemma_bubble(c: Seq<Value>, n: int, i: int)
    requires
        0 <= i <= n <= c.len(),
        bubble_inv(c, n, i),
    ensures
        sorted_by_key(bubble(c, n, i), n),
        bubble(c, n, i).len() == c.len(),
        bubble(c, n, i).to_multiset() == c.to_multiset(),
        forall|k: int| n <= k < c.len() ==> #[trigger] bubble(c, n, i)[k] == c[k],
    decreases n - i,
{
    if i < n {
        let end = n - i - 1;
        let p = bubble_pass(c, 0, end);
        lemma_pass(c, 0, end, 0);
        assert forall|a: int, b: int| 0 <= a <= end < b < n implies sort_key(#[trigger] p[a]) <= sort_key(#[trigger] p[b]) by {
            assert forall|k: int| 0 <= k <= end implies sort_key(#[trigger] c[k]) <= sort_key(c[b]) by {
            }
            lemma_pass(c, 0, end, sort_key(c[b]));
            assert(p[b] == c[b]);
        }
        assert forall|a: int, b: int| n - (i + 1) <= a <= b < n implies sort_key(#[trigger] p[a]) <= sort_key(#[trigger] p[b]) by {
            if a == end {
                if b > end {
                    assert(p[b] == c[b]);
                }
            } else {
                assert(p[a] == c[a]);
                assert(p[b] == c[b]);
            }
        }
        assert forall|a: int, b: int| 0 <= a < n - (i + 1) <= b < n implies sort_key(#[trigger] p[a]) <= sort_key(#[trigger] p[b]) by {
            if b > end {
                assert(p[b] == c[b]);
            }
        }
        assert(bubble(c, n, i) == bubble(p, n, i + 1));
        lemma_bubble(p, n, i + 1);
    } else {
        assert forall|a: int, b: int| 0 <= a <= b < n implies sort_key(#[trigger] c[a]) <= sort_key(#[trigger] c[b]) by {
        }
    }
}

/// `Collections.sort` on `n` elements (at most the array's length) leaves them in order
/// of their sort keys, keeps the same elements, and leaves the slots past `n` alone.
pub proof fn law_sort_orders(e: Seq<Value>, n: int)
    requires
        0 <= n <= e.len(),
    ensures
        sorted_by_key(bubble(e, n, 0), n),
        bubble(e, n, 0).to_multiset() == e.to_multiset(),
        bubble(e, n, 0).len() == e.len(),
        forall|k: int| n <= k < e.len() ==> #[trigger] bubble(e, n, 0)[k] == e[k],
{
    lemma_bubble(e, n, 0);
}

/// The first `n` elements of `b` have the multiset of those of `e` when the two have
/// one multiset and agree from `n` on.
proof fn lemma_prefix_multiset(e: Seq<Value>, b: Seq<Value>, n: int)
    requires
        0 <= n <= e.len(),
        b.len() == e.len(),
        b.to_multiset() == e.to_multiset(),
        forall|k: int| n <= k < e.len() ==> #[trigger] b[k] == e[k],
    ensures
        b.take(n).to_multiset() == e.take(n).to_multiset(),
{
    assert(b.skip(n) =~= e.skip(n));
    assert(b.take(n) + b.skip(n) =~= b);
    assert(e.take(n) + e.skip(n) =~= e);
    vstd::seq_lib::lemma_multiset_commutative(b.take(n), b.skip(n));
    vstd::seq_lib::lemma_multiset_commutative(e.take(n), e.skip(n));
    let mb = b.take(n).to_multiset();
    let me = e.take(n).to_multiset();
    let ms = e.skip(n).to_multiset();
    assert(mb.add(ms) == b.to_multiset());
    assert(me.add(ms) == e.to_multiset());
    assert forall|v: Value| mb.count(v) == me.count(v) by {
        assert(mb.add(ms).count(v) == me.add(ms).count(v));
    }
    assert(mb =~= me);
}

/// `Collections.sort(list)` and `sort(list, comparator)` on a list in order: the
/// list's elements come out in the natural order (by sort key), as the same
/// elements, with the size unchanged.
pub proof fn law_collections_sort(f: Frame, h: Seq<ObjectView>, with_comparator: bool, id: usize)
    requires
        f.stack@.len() >= (if with_comparator { 2int } else { 1int }),
        top(f, if with_comparator { 1nat } else { 0nat }) == Value::ObjectRef(id),
        id < h.len(),
        list_array(h, id) != 0,
        list_array(h, id) != id,
        array_of(h, list_array(h, id)) is Some,
        0 <= size_field(h, id) <= array_of(h, list_array(h, id))->0.len(),
    ensures
        list_sort(f, h, with_comparator) is Ok,
        size_field(list_sort(f, h, with_comparator)->Ok_0.0, id) == size_field(h, id),
        sorted_by_key(list_elems(list_sort(f, h, with_comparator)->Ok_0.0, id), size_field(h, id) as int),
        list_elems(list_sort(f, h, with_comparator)->Ok_0.0, id).to_multiset() == list_elems(h, id).to_multiset(),
{
    let ar = list_array(h, id);
    let e = array_of(h, ar)->0;
    let n = size_field(h, id) as int;
    let b = bubble(e, n, 0);
    law_sort_orders(e, n);
    let h2 = heap_with_array(h, ar, b);
    assert(list_sort(f, h, with_comparator)->Ok_0.0 == h2);
    assert(h2[id as int] == h[id as int]);
    assert(list_array(h2, id) == ar);
    assert(array_of(h2, ar) == Some(b));
    assert(list_elems(h2, id) =~= b.take(n));
    assert(list_elems(h, id) =~= e.take(n));
    lemma_prefix_multiset(e, b, n);
}

/// `Arrays.sort(a)`: the array's elements come out in the natural order, as the same
/// elements.
pub proof fn law_arrays_sort(f: Frame, h: Seq<ObjectView>, a: usize)
    requires
        f.stack@.len() >= 1,
        top(f, 0) == Value::ArrayRef(a),
        array_of(h, a) is Some,
    ensures
        arrays_sort(f, h) is Ok,
        array_of(arrays_sort(f, h)->Ok_0.0, a) is Some,
        sorted_by_key(array_of(arrays_sort(f, h)->Ok_0.0, a)->0, array_of(h, a)->0.len() as int),
        array_of(arrays_sort(f, h)->Ok_0.0, a)->0.to_multiset() == array_of(h, a)->0.to_multiset(),
{
    let e = array_of(h, a)->0;
    law_sort_orders(e, e.len() as int);
}

// ---------- shuffling ----------

/// Shuffling keeps the list's elements: whatever the clock reads, the swaps of
/// `Collections.shuffle` leave a rearrangement of the elements they start from,
/// of the same length.
pub proof fn law_shuffle_keeps_elements(e: Seq<Value>, i: int, stamps: Seq<u128>, k: int)
    requires
        i < e.len(),
    ensures
        shuffled(e, i, stamps, k).len() == e.len(),
        shuffled(e, i, stamps, k).to_multiset() == e.to_multiset(),
    decreases i,
{
    if i >= 1 {
        let j = swap_partner(stamps[k], i);
        assert(0 <= j <= i) by {
            vstd::arithmetic::div_mod::lemma_mod_bound(stamps[k] as int + i, i + 1);
        }
        lemma_swap_multiset(e, i, j);
        law_shuffle_keeps_elements(e.update(i, e[j]).update(j, e[i]), i - 1, stamps, k + 1);
    }
}

} // verus!
