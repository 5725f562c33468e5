use vstd::prelude::*;
use crate::runtime::value::Value;

verus! {

/// The value of the field `name` in a field table: the entry nearest the end wins.
pub open spec fn lookup_field(fields: Seq<(String, Value)>, name: Seq<char>) -> Option<Value>
    decreases fields.len(),
{
    if fields.len() == 0 {
        None
    } else if fields.last().0@ == name {
        Some(fields.last().1)
    } else {
        lookup_field(fields.drop_last(), name)
    }
}

/// Overwriting the last entry named `name` changes that field and no other.
pub proof fn lemma_lookup_update(fields: Seq<(String, Value)>, i: int, entry: (String, Value), k: Seq<char>)
    requires
        0 <= i < fields.len(),
        fields[i].0@ == entry.0@,
        forall|j: int| i < j < fields.len() ==> fields[j].0@ != entry.0@,
    ensures
        lookup_field(fields.update(i, entry), k) == (if k == entry.0@ {
            Some(entry.1)
        } else {
            lookup_field(fields, k)
        }),
    decreases fields.len(),
{
    let u = fields.update(i, entry);
    if i == fields.len() - 1 {
        assert(u.drop_last() =~= fields.drop_last());
    } else {
        assert(u.drop_last() =~= fields.drop_last().update(i, entry));
        lemma_lookup_update(fields.drop_last(), i, entry, k);
    }
}

/// Appending an entry for a name that is absent sets that field and no other.
pub proof fn lemma_lookup_push(fields: Seq<(String, Value)>, entry: (String, Value), k: Seq<char>)
    ensures
        lookup_field(fields.push(entry), k) == (if k == entry.0@ {
            Some(entry.1)
        } else {
            lookup_field(fields, k)
        }),
{
    assert(fields.push(entry).drop_last() =~= fields);
}

/// An object, string or array on the Java heap.
pub struct HeapObject {
    pub class_name: String,
    pub fields: Vec<(String, Value)>,
    pub string_value: Option<Vec<char>>,
    pub array_elements: Option<Vec<Value>>,
    pub monitor_owner: Option<usize>,
}

impl HeapObject {
    pub open spec fn field(&self, name: Seq<char>) -> Option<Value> {
        lookup_field(self.fields@, name)
    }

    pub open spec fn string_view(&self) -> Option<Seq<char>> {
        match self.string_value {
            Some(s) => Some(s@),
            None => None,
        }
    }

    pub open spec fn array_view(&self) -> Option<Seq<Value>> {
        match self.array_elements {
            Some(a) => Some(a@),
            None => None,
        }
    }

    /// A plain object of the given class with no fields set.
    pub fn new(class_name: String) -> (o: HeapObject)
        ensures
            o.class_name@ == class_name@,
            o.fields@.len() == 0,
            o.string_value is None,
            o.array_elements is None,
            o.monitor_owner is None,
            o@ == ObjectView::plain(class_name@),
    {
        let o = HeapObject {
            class_name,
            fields: Vec::new(),
            string_value: None,
            array_elements: None,
            monitor_owner: None,
        };
        assert(field_map(o.fields@) =~= Map::empty());
        o
    }

    /// A string object holding `s`.
    pub fn new_string(class_name: String, s: Vec<char>) -> (o: HeapObject)
        ensures
            o.class_name@ == class_name@,
            o.fields@.len() == 0,
            o.string_view() == Some(s@),
            o.array_elements is None,
            o.monitor_owner is None,
            o@ == ObjectView::string_obj(class_name@, s@),
    {
        let o = HeapObject {
            class_name,
            fields: Vec::new(),
            string_value: Some(s),
            array_elements: None,
            monitor_owner: None,
        };
        assert(field_map(o.fields@) =~= Map::empty());
        o
    }

    /// An array object of `len` elements, each `Null`.
    pub fn new_array(class_name: String, len: usize) -> (o: HeapObject)
        ensures
            o.class_name@ == class_name@,
            o.fields@.len() == 0,
            o.string_value is None,
            o.array_view() == Some(Seq::new(len as nat, |i: int| Value::Null)),
            o.monitor_owner is None,
            o@ == ObjectView::array_obj(class_name@, Seq::new(len as nat, |i: int| Value::Null)),
    {
        let mut elems: Vec<Value> = Vec::new();
        let mut i: usize = 0;
        while i < len
            invariant
                i <= len,
                elems@ == Seq::new(i as nat, |k: int| Value::Null),
            decreases len - i,
        {
            elems.push(Value::Null);
            i += 1;
        }
        let o = HeapObject {
            class_name,
            fields: Vec::new(),
            string_value: None,
            array_elements: Some(elems),
            monitor_owner: None,
        };
        assert(field_map(o.fields@) =~= Map::empty());
        o
    }

    /// An array object holding exactly `elems`.
    pub fn new_array_of(class_name: String, elems: Vec<Value>) -> (o: HeapObject)
        ensures
            o.class_name@ == class_name@,
            o.fields@.len() == 0,
            o.string_value is None,
            o.array_view() == Some(elems@),
            o.monitor_owner is None,
            o@ == ObjectView::array_obj(class_name@, elems@),
    {
        let o = HeapObject {
            class_name,
            fields: Vec::new(),
            string_value: None,
            array_elements: Some(elems),
            monitor_owner: None,
        };
        assert(field_map(o.fields@) =~= Map::empty());
        o
    }

    /// Stores `x` in slot `idx` of this array object.
    pub fn set_elem(&mut self, idx: usize, x: Value)
        requires
            old(self).array_elements is Some,
            idx < old(self).array_elements->0@.len(),
        ensures
            final(self)@ == old(self)@.with_array(old(self)@.array->0.update(idx as int, x)),
    {
        match &mut self.array_elements {
            Some(a) => {
                a.set(idx, x);
            },
            None => {},
        }
        assert(self@ =~= old(self)@.with_array(old(self)@.array->0.update(idx as int, x)));
    }

    /// Position of the last entry named `key`, if any.
    fn find_field(&self, key: &String) -> (r: Option<usize>)
        ensures
            match r {
                Some(i) => i < self.fields@.len() && self.fields@[i as int].0@ == key@
                    && forall|j: int| i < j < self.fields@.len() ==> self.fields@[j].0@ != key@,
                None => forall|j: int| 0 <= j < self.fields@.len() ==> self.fields@[j].0@ != key@,
            },
    {
        let mut i = self.fields.len();
        while i > 0
            invariant
                i <= self.fields@.len(),
                forall|j: int| i <= j < self.fields@.len() ==> self.fields@[j].0@ != key@,
            decreases i,
        {
            if self.fields[i - 1].0 == *key {
                return Some(i - 1);
            }
            i -= 1;
        }
        None
    }

    /// The value of field `name`, if it was ever set.
    pub fn get_field(&self, name: &str) -> (r: Option<Value>)
        ensures
            r == self.field(name@),
    {
        let key = String::from_str(name);
        let found = self.find_field(&key);
        proof {
            lemma_lookup_absent_or_last(self.fields@, key@);
        }
        match found {
            Some(i) => {
                proof {
                    lemma_lookup_last_match(self.fields@, i as int, key@);
                }
                Some(self.fields[i].1)
            },
            None => None,
        }
    }

    /// Sets field `name` to `v`, leaving every other field and all other parts unchanged.
    pub fn set_field(&mut self, name: &str, v: Value)
        ensures
            forall|k: Seq<char>| #[trigger] final(self).field(k) == (if k == name@ {
                Some(v)
            } else {
                old(self).field(k)
            }),
            final(self).class_name == old(self).class_name,
            final(self).string_value == old(self).string_value,
            final(self).array_elements == old(self).array_elements,
            final(self).monitor_owner == old(self).monitor_owner,
            final(self)@ == old(self)@.with_field(name@, v),
    {
        let key = String::from_str(name);
        let found = self.find_field(&key);
        let ghost before = self.fields@;
        match found {
            Some(i) => {
                let ghost before = self.fields@;
                self.fields.set(i, (key, v));
                proof {
                    assert forall|k: Seq<char>| #[trigger] lookup_field(self.fields@, k) == (if k
                        == name@ {
                        Some(v)
                    } else {
                        lookup_field(before, k)
                    }) by {
                        lemma_lookup_update(before, i as int, (key, v), k);
                    }
                }
            },
            None => {
                let ghost before = self.fields@;
                self.fields.push((key, v));
                proof {
                    assert forall|k: Seq<char>| #[trigger] lookup_field(self.fields@, k) == (if k
                        == name@ {
                        Some(v)
                    } else {
                        lookup_field(before, k)
                    }) by {
                        lemma_lookup_push(before, (key, v), k);
                    }
                }
            },
        }
        assert(field_map(self.fields@) =~= field_map(before).insert(name@, v));
    }
}


/// What an object holds, as mathematical values: its fields form a map from
/// field name to value.
#[verifier::ext_equal]
pub struct ObjectView {
    pub class_name: Seq<char>,
    pub fields: Map<Seq<char>, Value>,
    pub string: Option<Seq<char>>,
    pub array: Option<Seq<Value>>,
    pub monitor_owner: Option<usize>,
}

/// The field map that a field table stands for.
pub open spec fn field_map(fields: Seq<(String, Value)>) -> Map<Seq<char>, Value> {
    Map::new(|k: Seq<char>| lookup_field(fields, k) is Some, |k: Seq<char>| lookup_field(fields, k)->0)
}

impl View for HeapObject {
    type V = ObjectView;

    open spec fn view(&self) -> ObjectView {
        ObjectView {
            class_name: self.class_name@,
            fields: field_map(self.fields@),
            string: self.string_view(),
            array: self.array_view(),
            monitor_owner: self.monitor_owner,
        }
    }
}

impl ObjectView {
    /// The value of field `name`, if set.
    pub open spec fn get(self, name: Seq<char>) -> Option<Value> {
        if self.fields.contains_key(name) {
            Some(self.fields[name])
        } else {
            None
        }
    }

    pub open spec fn with_field(self, name: Seq<char>, v: Value) -> ObjectView {
        ObjectView { fields: self.fields.insert(name, v), ..self }
    }

    pub open spec fn with_array(self, a: Seq<Value>) -> ObjectView {
        ObjectView { array: Some(a), ..self }
    }

    pub open spec fn with_string(self, s: Option<Seq<char>>) -> ObjectView {
        ObjectView { string: s, ..self }
    }

    /// A plain object of a class, with no fields.
    pub open spec fn plain(class_name: Seq<char>) -> ObjectView {
        ObjectView { class_name, fields: Map::empty(), string: None, array: None, monitor_owner: None }
    }

    /// A string object.
    pub open spec fn string_obj(class_name: Seq<char>, s: Seq<char>) -> ObjectView {
        ObjectView { class_name, fields: Map::empty(), string: Some(s), array: None, monitor_owner: None }
    }

    /// An array object.
    pub open spec fn array_obj(class_name: Seq<char>, a: Seq<Value>) -> ObjectView {
        ObjectView { class_name, fields: Map::empty(), string: None, array: Some(a), monitor_owner: None }
    }
}

/// The field lookup of a table agrees with its field map.
pub proof fn lemma_field_map_get(fields: Seq<(String, Value)>, k: Seq<char>)
    ensures
        (ObjectView { class_name: seq![], fields: field_map(fields), string: None, array: None, monitor_owner: None }).get(k)
            == lookup_field(fields, k),
{
}

/// When no entry carries `k`, the lookup finds nothing.
pub proof fn lemma_lookup_absent_or_last(fields: Seq<(String, Value)>, k: Seq<char>)
    ensures
        (forall|j: int| 0 <= j < fields.len() ==> fields[j].0@ != k) ==> lookup_field(fields, k)
            is None,
    decreases fields.len(),
{
    if fields.len() > 0 {
        lemma_lookup_absent_or_last(fields.drop_last(), k);
        if forall|j: int| 0 <= j < fields.len() ==> fields[j].0@ != k {
            assert(fields.last().0@ != k);
            assert forall|j: int| 0 <= j < fields.drop_last().len() implies fields.drop_last()[j].0@
                != k by {
                assert(fields.drop_last()[j] == fields[j]);
            }
        }
    }
}

/// The lookup returns the value of the last entry carrying `k`.
pub proof fn lemma_lookup_last_match(fields: Seq<(String, Value)>, i: int, k: Seq<char>)
    requires
        0 <= i < fields.len(),
        fields[i].0@ == k,
        forall|j: int| i < j < fields.len() ==> fields[j].0@ != k,
    ensures
        lookup_field(fields, k) == Some(fields[i].1),
    decreases fields.len(),
{
    if i < fields.len() - 1 {
        assert(fields.last() == fields[fields.len() - 1]);
        lemma_lookup_last_match(fields.drop_last(), i, k);
    }
}

} // verus!
