use vstd::prelude::*;
use std::collections::HashMap;
use crate::runtime::heap::{HeapObject, ObjectView};
use crate::runtime::method::{static_view, MethodArea, MethodView};
use crate::runtime::value::Value;
use crate::threading::scheduler::{Scheduler, SchedulingPolicy};

verus! {

broadcast use vstd::std_specs::hash::group_hash_axioms;

/// The state the native methods act on: heap, methods, threads.
pub struct Jvm {
    pub heap: Vec<HeapObject>,
    pub method_area: MethodArea,
    pub scheduler: Scheduler,
    pub thread_objects: HashMap<usize, usize>,
    pub current_thread_id: usize,
}

/// The object a reference points at.
pub open spec fn object_at(heap: Seq<HeapObject>, v: Value) -> Option<HeapObject> {
    match v {
        Value::ObjectRef(id) => if id < heap.len() {
            Some(heap[id as int])
        } else {
            None
        },
        Value::ArrayRef(id) => if id < heap.len() {
            Some(heap[id as int])
        } else {
            None
        },
        _ => None,
    }
}

/// The characters of the string an object reference points at.
pub open spec fn string_at(heap: Seq<HeapObject>, v: Value) -> Option<Seq<char>> {
    match v {
        Value::ObjectRef(id) => if id < heap.len() {
            heap[id as int].string_view()
        } else {
            None
        },
        _ => None,
    }
}

/// A field of the object an object reference points at.
pub open spec fn field_at(heap: Seq<HeapObject>, v: Value, name: Seq<char>) -> Option<Value> {
    match v {
        Value::ObjectRef(id) => if id < heap.len() {
            heap[id as int].field(name)
        } else {
            None
        },
        _ => None,
    }
}

/// The elements of the array an array reference points at.
pub open spec fn array_at(heap: Seq<HeapObject>, v: Value) -> Option<Seq<Value>> {
    match v {
        Value::ArrayRef(id) => if id < heap.len() {
            heap[id as int].array_view()
        } else {
            None
        },
        _ => None,
    }
}

/// `new` differs from `old` at most in object `id`.
pub open spec fn only_changed(old: Seq<HeapObject>, new: Seq<HeapObject>, id: int) -> bool {
    new.len() == old.len() && forall|i: int| 0 <= i < old.len() && i != id ==> #[trigger] new[i]
        == old[i]
}

/// Object `b` is object `a` with field `name` set to `x`.
pub open spec fn with_field(a: HeapObject, b: HeapObject, name: Seq<char>, x: Value) -> bool {
    &&& forall|k: Seq<char>| #[trigger] b.field(k) == (if k == name {
        Some(x)
    } else {
        a.field(k)
    })
    &&& b.class_name == a.class_name
    &&& b.string_value == a.string_value
    &&& b.array_elements == a.array_elements
    &&& b.monitor_owner == a.monitor_owner
}

/// The heap `new` is `old` with field `name` of the object `v` refers to set to `x`;
/// nothing changes when `v` refers to no object.
pub open spec fn heap_with_field(old: Seq<HeapObject>, new: Seq<HeapObject>, v: Value, name: Seq<char>, x: Value) -> bool {
    match v {
        Value::ObjectRef(id) => if id < old.len() {
            only_changed(old, new, id as int) && with_field(old[id as int], new[id as int], name, x)
        } else {
            new == old
        },
        _ => new == old,
    }
}

/// Everything but the heap is unchanged: the methods, the static fields, the
/// scheduler and the threads.
pub open spec fn same_but_heap(a: Jvm, b: Jvm) -> bool {
    &&& b.method_area@ == a.method_area@
    &&& static_view(&b.method_area) == static_view(&a.method_area)
    &&& b.scheduler == a.scheduler
    &&& b.thread_objects@ == a.thread_objects@
    &&& b.current_thread_id == a.current_thread_id
}

/// `b` is `a` with the methods `added` registered, in order, and nothing else changed.
pub open spec fn only_methods_added(a: Jvm, b: Jvm, added: Seq<(Seq<char>, MethodView)>) -> bool {
    &&& b.method_area@ == a.method_area@ + added
    &&& static_view(&b.method_area) == static_view(&a.method_area)
    &&& b.heap@ == a.heap@
    &&& b.scheduler == a.scheduler
    &&& b.thread_objects@ == a.thread_objects@
    &&& b.current_thread_id == a.current_thread_id
}

/// The heap after setting field `name` of the object `v` refers to; unchanged when
/// `v` refers to no object.
pub open spec fn heap_set_field(h: Seq<ObjectView>, v: Value, name: Seq<char>, x: Value) -> Seq<ObjectView> {
    match v {
        Value::ObjectRef(id) => if id < h.len() {
            h.update(id as int, h[id as int].with_field(name, x))
        } else {
            h
        },
        _ => h,
    }
}

impl Jvm {
    /// The heap as mathematical values.
    pub open spec fn hv(&self) -> Seq<ObjectView> {
        self.heap@.map_values(|o: HeapObject| o@)
    }

    pub fn new() -> (j: Jvm)
        ensures
            j.heap@.len() == 0,
            j.method_area@.len() == 0,
            j.scheduler.wf(),
            j.scheduler.spec_threads().len() == 0,
            j.thread_objects@ == Map::<usize, usize>::empty(),
            j.current_thread_id == 1,
    {
        Jvm {
            heap: Vec::new(),
            method_area: MethodArea::new(),
            scheduler: Scheduler::new(SchedulingPolicy::RoundRobin),
            thread_objects: HashMap::new(),
            current_thread_id: 1,
        }
    }

    /// Puts `obj` on the heap and returns its reference number.
    pub fn allocate(&mut self, obj: HeapObject) -> (id: usize)
        ensures
            id == old(self).heap@.len(),
            final(self).heap@ == old(self).heap@.push(obj),
            same_but_heap(*old(self), *final(self)),
            final(self).hv() == old(self).hv().push(obj@),
    {
        let id = self.heap.len();
        self.heap.push(obj);
        assert(self.hv() =~= old(self).hv().push(obj@));
        id
    }

    /// Allocates a `java.lang.String` holding `s`.
    pub fn alloc_string(&mut self, s: Vec<char>) -> (id: usize)
        ensures
            id == old(self).heap@.len(),
            final(self).heap@.len() == old(self).heap@.len() + 1,
            final(self).heap@.drop_last() == old(self).heap@,
            final(self).heap@.last().class_name@ == "java.lang.String"@,
            final(self).heap@.last().string_view() == Some(s@),
            final(self).heap@.last().fields@.len() == 0,
            final(self).heap@.last().array_elements is None,
            string_at(final(self).heap@, Value::ObjectRef(id)) == Some(s@),
            same_but_heap(*old(self), *final(self)),
            final(self).hv() == old(self).hv().push(ObjectView::string_obj("java.lang.String"@, s@)),
    {
        let obj = HeapObject::new_string(String::from_str("java.lang.String"), s);
        let id = self.allocate(obj);
        assert(self.heap@.drop_last() =~= old(self).heap@);
        id
    }

    /// The string contents behind `v`, if `v` refers to a string.
    pub fn string_at(&self, v: Value) -> (r: Option<&Vec<char>>)
        ensures
            match r {
                Some(s) => string_at(self.heap@, v) == Some(s@),
                None => string_at(self.heap@, v) is None,
            },
    {
        match v {
            Value::ObjectRef(id) => {
                if id < self.heap.len() {
                    match &self.heap[id].string_value {
                        Some(s) => Some(s),
                        None => None,
                    }
                } else {
                    None
                }
            },
            _ => None,
        }
    }

    /// Field `name` of the object behind `v`.
    pub fn field_at(&self, v: Value, name: &str) -> (r: Option<Value>)
        ensures
            r == field_at(self.heap@, v, name@),
    {
        match v {
            Value::ObjectRef(id) => {
                if id < self.heap.len() {
                    self.heap[id].get_field(name)
                } else {
                    None
                }
            },
            _ => None,
        }
    }

    /// The array behind `v`, if `v` refers to an array.
    pub fn array_at(&self, v: Value) -> (r: Option<&Vec<Value>>)
        ensures
            match r {
                Some(a) => array_at(self.heap@, v) == Some(a@),
                None => array_at(self.heap@, v) is None,
            },
    {
        match v {
            Value::ArrayRef(id) => {
                if id < self.heap.len() {
                    match &self.heap[id].array_elements {
                        Some(a) => Some(a),
                        None => None,
                    }
                } else {
                    None
                }
            },
            _ => None,
        }
    }

    /// Sets field `name` of the object behind `v` to `x`; does nothing when `v`
    /// refers to no object.
    pub fn set_field(&mut self, v: Value, name: &str, x: Value)
        ensures
            heap_with_field(old(self).heap@, final(self).heap@, v, name@, x),
            same_but_heap(*old(self), *final(self)),
            final(self).hv() == heap_set_field(old(self).hv(), v, name@, x),
    {
        match v {
            Value::ObjectRef(id) => {
                if id < self.heap.len() {
                    self.heap[id].set_field(name, x);
                    assert(self.hv() =~= old(self).hv().update(id as int, old(self).hv()[id as int].with_field(name@, x)));
                } else {
                    assert(self.hv() =~= old(self).hv());
                }
            },
            _ => {
                assert(self.hv() =~= old(self).hv());
            },
        }
    }

    /// Replaces the elements of array object `id`.
    pub fn set_array(&mut self, id: usize, elems: Vec<Value>)
        requires
            id < old(self).heap@.len(),
        ensures
            only_changed(old(self).heap@, final(self).heap@, id as int),
            final(self).heap@[id as int].array_view() == Some(elems@),
            final(self).heap@[id as int].class_name == old(self).heap@[id as int].class_name,
            final(self).heap@[id as int].fields == old(self).heap@[id as int].fields,
            final(self).heap@[id as int].string_value == old(self).heap@[id as int].string_value,
            final(self).heap@[id as int].monitor_owner == old(self).heap@[id as int].monitor_owner,
            same_but_heap(*old(self), *final(self)),
            final(self).hv() == old(self).hv().update(id as int, old(self).hv()[id as int].with_array(elems@)),
    {
        let ghost e = elems@;
        self.heap[id].array_elements = Some(elems);
        assert(self.hv() =~= old(self).hv().update(id as int, old(self).hv()[id as int].with_array(e)));
    }

    /// Stores `x` in slot `idx` of array object `id`.
    pub fn set_array_elem(&mut self, id: usize, idx: usize, x: Value)
        requires
            id < old(self).hv().len(),
            old(self).hv()[id as int].array is Some,
            idx < old(self).hv()[id as int].array->0.len(),
        ensures
            final(self).hv() == old(self).hv().update(id as int, old(self).hv()[id as int].with_array(
                old(self).hv()[id as int].array->0.update(idx as int, x),
            )),
            same_but_heap(*old(self), *final(self)),
    {
        assert(old(self).hv()[id as int] == old(self).heap@[id as int]@);
        self.heap[id].set_elem(idx, x);
        assert(self.hv() =~= old(self).hv().update(id as int, old(self).hv()[id as int].with_array(
            old(self).hv()[id as int].array->0.update(idx as int, x),
        )));
    }

    /// Replaces the string contents of object `id`.
    pub fn set_string(&mut self, id: usize, s: Option<Vec<char>>)
        requires
            id < old(self).heap@.len(),
        ensures
            only_changed(old(self).heap@, final(self).heap@, id as int),
            final(self).heap@[id as int].string_value == s,
            final(self).heap@[id as int].class_name == old(self).heap@[id as int].class_name,
            final(self).heap@[id as int].fields == old(self).heap@[id as int].fields,
            final(self).heap@[id as int].array_elements == old(self).heap@[id as int].array_elements,
            final(self).heap@[id as int].monitor_owner == old(self).heap@[id as int].monitor_owner,
            same_but_heap(*old(self), *final(self)),
            final(self).hv() == old(self).hv().update(id as int, old(self).hv()[id as int].with_string(
                match s {
                    Some(t) => Some(t@),
                    None => None,
                },
            )),
    {
        let ghost sv = match &s {
            Some(t) => Some(t@),
            None => None,
        };
        self.heap[id].string_value = s;
        assert(self.hv() =~= old(self).hv().update(id as int, old(self).hv()[id as int].with_string(sv)));
    }
}

} // verus!
