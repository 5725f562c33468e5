use minijvm::natives::call::{run_native, NativeCall};
use minijvm::runtime::error::{JvmError, RuntimeError};
use minijvm::runtime::frame::Frame;
use minijvm::runtime::heap::HeapObject;
use minijvm::runtime::jvm::Jvm;
use minijvm::runtime::method::Native;
use minijvm::runtime::value::Value;
use minijvm::stdlib::util::UtilNative;

fn new_object(jvm: &mut Jvm, class: &str) -> usize {
    jvm.allocate(HeapObject::new(class.to_string()))
}

fn string(jvm: &mut Jvm, s: &str) -> Value {
    Value::ObjectRef(jvm.alloc_string(s.chars().collect()))
}

fn text(jvm: &Jvm, v: Value) -> String {
    match v {
        Value::ObjectRef(id) => jvm.heap[id].string_value.clone().unwrap().into_iter().collect(),
        _ => panic!("not a string: {:?}", v),
    }
}

/// Runs a library native with the receiver in local 0 and `args` pushed in order.
fn call(jvm: &mut Jvm, n: UtilNative, this: Value, args: &[Value]) -> (Result<(), JvmError>, Vec<Value>) {
    let mut frame = Frame::new(vec![this]);
    for a in args {
        frame.push(*a);
    }
    match run_native(Native::Util(n), &mut frame, jvm) {
        NativeCall::Done(r) => (r, frame.stack.clone()),
        NativeCall::Unmet => panic!("native refused its arguments"),
        NativeCall::External => panic!("native is external"),
    }
}

fn answer(jvm: &mut Jvm, n: UtilNative, this: Value, args: &[Value]) -> Value {
    let (r, stack) = call(jvm, n, this, args);
    assert_eq!(r, Ok(()));
    *stack.last().expect("nothing answered")
}

fn new_map(jvm: &mut Jvm) -> Value {
    let m = Value::ObjectRef(new_object(jvm, "java.util.HashMap"));
    call(jvm, UtilNative::HashMapInit, m, &[]).0.unwrap();
    m
}

fn new_list(jvm: &mut Jvm) -> Value {
    let l = Value::ObjectRef(new_object(jvm, "java.util.ArrayList"));
    call(jvm, UtilNative::ArrayListInit, l, &[]).0.unwrap();
    l
}

#[test]
fn hashmap_get_returns_what_put_stored() {
    let mut jvm = Jvm::new();
    let m = new_map(&mut jvm);
    let k = string(&mut jvm, "alpha");
    assert_eq!(answer(&mut jvm, UtilNative::HashMapPut, m, &[k, Value::Int(1)]), Value::Null);
    // an equal key given by another string object finds the same entry
    let k2 = string(&mut jvm, "alpha");
    assert_eq!(answer(&mut jvm, UtilNative::HashMapGet, m, &[k2]), Value::Int(1));
    assert_eq!(answer(&mut jvm, UtilNative::HashMapPut, m, &[k2, Value::Int(2)]), Value::Int(1));
    assert_eq!(answer(&mut jvm, UtilNative::HashMapGet, m, &[k]), Value::Int(2));
    assert_eq!(answer(&mut jvm, UtilNative::HashMapSize, m, &[]), Value::Int(1));
    let other = string(&mut jvm, "beta");
    assert_eq!(answer(&mut jvm, UtilNative::HashMapGet, m, &[other]), Value::Null);
    assert_eq!(answer(&mut jvm, UtilNative::HashMapContainsKey, m, &[k]), Value::Boolean(true));
}

#[test]
fn hashmap_grows_past_ten_entries() {
    let mut jvm = Jvm::new();
    let m = new_map(&mut jvm);
    for i in 0..25 {
        answer(&mut jvm, UtilNative::HashMapPut, m, &[Value::Int(i), Value::Int(i * 10)]);
    }
    assert_eq!(answer(&mut jvm, UtilNative::HashMapSize, m, &[]), Value::Int(25));
    for i in 0..25 {
        assert_eq!(answer(&mut jvm, UtilNative::HashMapGet, m, &[Value::Int(i)]), Value::Int(i * 10));
    }
}

#[test]
fn hashmap_put_on_dangling_receiver_is_null_pointer() {
    let mut jvm = Jvm::new();
    let (r, _) = call(&mut jvm, UtilNative::HashMapPut, Value::ObjectRef(42), &[Value::Int(1), Value::Int(2)]);
    assert_eq!(r, Err(JvmError::RuntimeError(RuntimeError::NullPointerException)));
}

#[test]
fn hashmap_put_without_arguments_underflows() {
    let mut jvm = Jvm::new();
    let m = new_map(&mut jvm);
    let (r, _) = call(&mut jvm, UtilNative::HashMapPut, m, &[Value::Int(1)]);
    assert_eq!(r, Err(JvmError::RuntimeError(RuntimeError::StackUnderflow)));
}

#[test]
fn native_without_receiver_reports_missing_local() {
    let mut jvm = Jvm::new();
    let mut frame = Frame::new(vec![]);
    match run_native(Native::Util(UtilNative::HashMapSize), &mut frame, &mut jvm) {
        NativeCall::Done(r) => assert_eq!(r, Err(JvmError::RuntimeError(RuntimeError::LocalIndexOutOfBounds))),
        _ => panic!("expected the native to run"),
    }
}

#[test]
fn arraylist_add_then_get() {
    let mut jvm = Jvm::new();
    let l = new_list(&mut jvm);
    for i in 0..12 {
        assert_eq!(answer(&mut jvm, UtilNative::ArrayListAdd, l, &[Value::Int(i * i)]), Value::Boolean(true));
    }
    assert_eq!(answer(&mut jvm, UtilNative::ArrayListSize, l, &[]), Value::Int(12));
    assert_eq!(answer(&mut jvm, UtilNative::ArrayListGet, l, &[Value::Int(11)]), Value::Int(121));
    assert_eq!(answer(&mut jvm, UtilNative::ArrayListIndexOf, l, &[Value::Int(49)]), Value::Int(7));
    assert_eq!(answer(&mut jvm, UtilNative::ArrayListRemove, l, &[Value::Int(0)]), Value::Int(0));
    assert_eq!(answer(&mut jvm, UtilNative::ArrayListGet, l, &[Value::Int(0)]), Value::Int(1));
    assert_eq!(answer(&mut jvm, UtilNative::ArrayListSize, l, &[]), Value::Int(11));
}

#[test]
fn collections_sort_orders_by_key() {
    let mut jvm = Jvm::new();
    let l = new_list(&mut jvm);
    for x in [5, -3, 9, 0, 9, 2] {
        answer(&mut jvm, UtilNative::ArrayListAdd, l, &[Value::Int(x)]);
    }
    let mut frame = Frame::new(vec![]);
    frame.push(l);
    assert!(matches!(run_native(Native::Util(UtilNative::CollectionsSort), &mut frame, &mut jvm), NativeCall::Done(Ok(()))));
    assert!(frame.stack.is_empty());
    let got: Vec<Value> = (0..6).map(|i| answer(&mut jvm, UtilNative::ArrayListGet, l, &[Value::Int(i)])).collect();
    let want: Vec<Value> = [-3, 0, 2, 5, 9, 9].iter().map(|x| Value::Int(*x)).collect();
    assert_eq!(got, want);
}

#[test]
fn collections_sort_keys_floats_by_truncation() {
    let mut jvm = Jvm::new();
    let l = new_list(&mut jvm);
    let vals = [Value::Double(2.75f64.to_bits()), Value::Int(2), Value::Float((-1.5f32).to_bits()), Value::Long(-2)];
    for v in vals {
        answer(&mut jvm, UtilNative::ArrayListAdd, l, &[v]);
    }
    let mut frame = Frame::new(vec![]);
    frame.push(l);
    frame.push(Value::Null);
    assert!(matches!(run_native(Native::Util(UtilNative::CollectionsSortWithComparator), &mut frame, &mut jvm), NativeCall::Done(Ok(()))));
    assert!(frame.stack.is_empty());
    let got: Vec<Value> = (0..4).map(|i| answer(&mut jvm, UtilNative::ArrayListGet, l, &[Value::Int(i)])).collect();
    // keys: 2.75 -> 2, 2 -> 2, -1.5 -> -1, -2 -> -2; the sort is stable
    assert_eq!(got, vec![Value::Long(-2), Value::Float((-1.5f32).to_bits()), Value::Double(2.75f64.to_bits()), Value::Int(2)]);
}

#[test]
fn collections_max_and_min() {
    let mut jvm = Jvm::new();
    let l = new_list(&mut jvm);
    for x in [4, 17, -8, 17] {
        answer(&mut jvm, UtilNative::ArrayListAdd, l, &[Value::Int(x)]);
    }
    let mut f = Frame::new(vec![]);
    f.push(l);
    assert!(matches!(run_native(Native::Util(UtilNative::CollectionsMax), &mut f, &mut jvm), NativeCall::Done(Ok(()))));
    assert_eq!(f.stack, vec![Value::Int(17)]);
    let mut f = Frame::new(vec![]);
    f.push(l);
    assert!(matches!(run_native(Native::Util(UtilNative::CollectionsMin), &mut f, &mut jvm), NativeCall::Done(Ok(()))));
    assert_eq!(f.stack, vec![Value::Int(-8)]);
}

#[test]
fn collections_rotate_and_reverse() {
    let mut jvm = Jvm::new();
    let l = new_list(&mut jvm);
    for x in 1..=5 {
        answer(&mut jvm, UtilNative::ArrayListAdd, l, &[Value::Int(x)]);
    }
    let mut f = Frame::new(vec![]);
    f.push(l);
    f.push(Value::Int(2));
    assert!(matches!(run_native(Native::Util(UtilNative::CollectionsRotate), &mut f, &mut jvm), NativeCall::Done(Ok(()))));
    let got: Vec<Value> = (0..5).map(|i| answer(&mut jvm, UtilNative::ArrayListGet, l, &[Value::Int(i)])).collect();
    // the element at index i moves to (i + 2) mod 5
    assert_eq!(got, [4, 5, 1, 2, 3].iter().map(|x| Value::Int(*x)).collect::<Vec<_>>());
    let mut f = Frame::new(vec![]);
    f.push(l);
    assert!(matches!(run_native(Native::Util(UtilNative::CollectionsReverse), &mut f, &mut jvm), NativeCall::Done(Ok(()))));
    let got: Vec<Value> = (0..5).map(|i| answer(&mut jvm, UtilNative::ArrayListGet, l, &[Value::Int(i)])).collect();
    assert_eq!(got, [3, 2, 1, 5, 4].iter().map(|x| Value::Int(*x)).collect::<Vec<_>>());
}

#[test]
fn collections_frequency_counts_exact_matches() {
    let mut jvm = Jvm::new();
    let l = new_list(&mut jvm);
    for x in [1, 2, 1, 1, 3] {
        answer(&mut jvm, UtilNative::ArrayListAdd, l, &[Value::Int(x)]);
    }
    let mut f = Frame::new(vec![]);
    f.push(l);
    f.push(Value::Int(1));
    assert!(matches!(run_native(Native::Util(UtilNative::CollectionsFrequency), &mut f, &mut jvm), NativeCall::Done(Ok(()))));
    assert_eq!(f.stack, vec![Value::Int(3)]);
}

#[test]
fn negative_list_size_is_refused_before_reverse() {
    let mut jvm = Jvm::new();
    let l = new_list(&mut jvm);
    answer(&mut jvm, UtilNative::ArrayListAdd, l, &[Value::Int(1)]);
    if let Value::ObjectRef(id) = l {
        jvm.set_field(l, "size", Value::Int(-3));
        assert!(id < jvm.heap.len());
    }
    let mut f = Frame::new(vec![]);
    f.push(l);
    assert!(matches!(run_native(Native::Util(UtilNative::CollectionsReverse), &mut f, &mut jvm), NativeCall::Unmet));
    assert_eq!(f.stack, vec![l]);
}

#[test]
fn treemap_and_linked_hash_map_store_entries() {
    let mut jvm = Jvm::new();
    for (init, put, get, size) in [
        (UtilNative::TreeMapInit, UtilNative::TreeMapPut, UtilNative::TreeMapGet, UtilNative::TreeMapSize),
        (UtilNative::LinkedHashMapInit, UtilNative::LinkedHashMapPut, UtilNative::LinkedHashMapGet, UtilNative::LinkedHashMapSize),
    ] {
        let m = Value::ObjectRef(new_object(&mut jvm, "java.util.TreeMap"));
        call(&mut jvm, init, m, &[]).0.unwrap();
        assert_eq!(answer(&mut jvm, put, m, &[Value::Int(7), Value::Int(70)]), Value::Null);
        assert_eq!(answer(&mut jvm, put, m, &[Value::Int(7), Value::Int(71)]), Value::Int(70));
        assert_eq!(answer(&mut jvm, get, m, &[Value::Int(7)]), Value::Int(71));
        assert_eq!(answer(&mut jvm, size, m, &[]), Value::Int(1));
    }
}

#[test]
fn priority_queue_answers_its_least_element_first() {
    let mut jvm = Jvm::new();
    let q = Value::ObjectRef(new_object(&mut jvm, "java.util.PriorityQueue"));
    call(&mut jvm, UtilNative::PriorityQueueInit, q, &[]).0.unwrap();
    for x in [30, 10, 20, 10] {
        assert_eq!(answer(&mut jvm, UtilNative::PriorityQueueAdd, q, &[Value::Int(x)]), Value::Boolean(true));
    }
    assert_eq!(answer(&mut jvm, UtilNative::PriorityQueuePeek, q, &[]), Value::Int(10));
    assert_eq!(answer(&mut jvm, UtilNative::PriorityQueuePoll, q, &[]), Value::Int(10));
    assert_eq!(answer(&mut jvm, UtilNative::PriorityQueuePoll, q, &[]), Value::Int(10));
    assert_eq!(answer(&mut jvm, UtilNative::PriorityQueuePeek, q, &[]), Value::Int(20));
    assert_eq!(answer(&mut jvm, UtilNative::PriorityQueuePoll, q, &[]), Value::Int(20));
    assert_eq!(answer(&mut jvm, UtilNative::PriorityQueueSize, q, &[]), Value::Int(1));
    assert_eq!(answer(&mut jvm, UtilNative::PriorityQueuePoll, q, &[]), Value::Int(30));
    assert_eq!(answer(&mut jvm, UtilNative::PriorityQueuePoll, q, &[]), Value::Null);
    assert_eq!(answer(&mut jvm, UtilNative::PriorityQueuePeek, q, &[]), Value::Null);
}

#[test]
fn linked_hash_set_skips_identical_values() {
    let mut jvm = Jvm::new();
    let s = Value::ObjectRef(new_object(&mut jvm, "java.util.LinkedHashSet"));
    call(&mut jvm, UtilNative::LinkedHashSetInit, s, &[]).0.unwrap();
    answer(&mut jvm, UtilNative::LinkedHashSetAdd, s, &[Value::Int(1)]);
    answer(&mut jvm, UtilNative::LinkedHashSetAdd, s, &[Value::Int(1)]);
    answer(&mut jvm, UtilNative::LinkedHashSetAdd, s, &[Value::Int(2)]);
    assert_eq!(answer(&mut jvm, UtilNative::LinkedHashSetSize, s, &[]), Value::Int(2));
}

#[test]
fn bitset_sets_counts_and_clears() {
    let mut jvm = Jvm::new();
    let b = Value::ObjectRef(new_object(&mut jvm, "java.util.BitSet"));
    call(&mut jvm, UtilNative::BitSetInit, b, &[]).0.unwrap();
    for bit in [0, 3, 64, 700] {
        call(&mut jvm, UtilNative::BitSetSet, b, &[Value::Int(bit)]).0.unwrap();
    }
    assert_eq!(answer(&mut jvm, UtilNative::BitSetCardinality, b, &[]), Value::Int(4));
    assert_eq!(answer(&mut jvm, UtilNative::BitSetGet, b, &[Value::Int(64)]), Value::Boolean(true));
    assert_eq!(answer(&mut jvm, UtilNative::BitSetGet, b, &[Value::Int(65)]), Value::Boolean(false));
    call(&mut jvm, UtilNative::BitSetClear, b, &[Value::Int(64)]).0.unwrap();
    assert_eq!(answer(&mut jvm, UtilNative::BitSetGet, b, &[Value::Int(64)]), Value::Boolean(false));
    assert_eq!(answer(&mut jvm, UtilNative::BitSetCardinality, b, &[]), Value::Int(3));
    // the size field is the last bit set plus one
    if let Value::ObjectRef(id) = b {
        assert_eq!(jvm.heap[id].get_field("size"), Some(Value::Int(701)));
    }
}

fn base64_round_trip(jvm: &mut Jvm, data: &[u8], text_want: &str) {
    let bytes: Vec<Value> = data.iter().map(|b| Value::Byte(*b as i8)).collect();
    let arr = jvm.allocate(HeapObject::new_array_of("[B".to_string(), bytes.clone()));
    let enc = Value::ObjectRef(new_object(jvm, "java.util.Base64$Encoder"));
    let mut f = Frame::new(vec![enc, Value::ArrayRef(arr)]);
    assert!(matches!(run_native(Native::Util(UtilNative::Base64EncoderEncodeToString), &mut f, jvm), NativeCall::Done(Ok(()))));
    let encoded = *f.stack.last().unwrap();
    assert_eq!(text(jvm, encoded), text_want);
    let dec = Value::ObjectRef(new_object(jvm, "java.util.Base64$Decoder"));
    let mut f = Frame::new(vec![dec, encoded]);
    assert!(matches!(run_native(Native::Util(UtilNative::Base64DecoderDecode), &mut f, jvm), NativeCall::Done(Ok(()))));
    match f.stack.last().unwrap() {
        Value::ArrayRef(a) => assert_eq!(jvm.heap[*a].array_elements.clone().unwrap(), bytes),
        v => panic!("not an array: {:?}", v),
    }
}

#[test]
fn base64_natives_encode_and_decode() {
    let mut jvm = Jvm::new();
    base64_round_trip(&mut jvm, b"Hello", "SGVsbG8=");
    base64_round_trip(&mut jvm, b"Ma", "TWE=");
    base64_round_trip(&mut jvm, b"M", "TQ==");
    base64_round_trip(&mut jvm, b"Man", "TWFu");
    base64_round_trip(&mut jvm, &[0xff, 0x00, 0x80, 0x7f], "/wCAfw==");
    base64_round_trip(&mut jvm, b"", "");
}

#[test]
fn properties_set_property_replaces_and_answers_the_old_value() {
    let mut jvm = Jvm::new();
    let p = Value::ObjectRef(new_object(&mut jvm, "java.util.Properties"));
    call(&mut jvm, UtilNative::PropertiesInit, p, &[]).0.unwrap();
    let k = string(&mut jvm, "mode");
    let v1 = string(&mut jvm, "fast");
    let v2 = string(&mut jvm, "slow");
    assert_eq!(answer(&mut jvm, UtilNative::PropertiesSetProperty, p, &[k, v1]), Value::Null);
    assert_eq!(answer(&mut jvm, UtilNative::PropertiesSetProperty, p, &[k, v2]), v1);
    let got = answer(&mut jvm, UtilNative::PropertiesGetProperty, p, &[k]);
    assert_eq!(text(&jvm, got), "slow");
}

#[test]
fn properties_is_registered_with_the_util_classes() {
    let mut jvm = Jvm::new();
    minijvm::stdlib::util::register_util_classes(&mut jvm);
    assert!(jvm.method_area.get_method("java.util.Properties", "setProperty", "(Ljava/lang/String;Ljava/lang/String;)Ljava/lang/Object;").is_some());
    assert!(jvm.method_area.get_method("java.util.Properties", "getProperty", "(Ljava/lang/String;)Ljava/lang/String;").is_some());
}

#[test]
fn atomic_integer_counts() {
    let mut jvm = Jvm::new();
    let a = Value::ObjectRef(new_object(&mut jvm, "java.util.concurrent.atomic.AtomicInteger"));
    call(&mut jvm, UtilNative::AtomicIntegerInit, a, &[]).0.unwrap();
    assert_eq!(answer(&mut jvm, UtilNative::AtomicIntegerIncrementAndGet, a, &[]), Value::Int(1));
    assert_eq!(answer(&mut jvm, UtilNative::AtomicIntegerIncrementAndGet, a, &[]), Value::Int(2));
    assert_eq!(answer(&mut jvm, UtilNative::AtomicIntegerDecrementAndGet, a, &[]), Value::Int(1));
    assert_eq!(answer(&mut jvm, UtilNative::AtomicIntegerGet, a, &[]), Value::Int(1));
}

#[test]
fn date_to_string_of_epoch_and_a_later_instant() {
    let mut jvm = Jvm::new();
    let d = Value::ObjectRef(new_object(&mut jvm, "java.util.Date"));
    let mut f = Frame::new(vec![d, Value::Long(0)]);
    assert!(matches!(run_native(Native::Util(UtilNative::DateInitMillis), &mut f, &mut jvm), NativeCall::Done(Ok(()))));
    let s = answer(&mut jvm, UtilNative::DateToString, d, &[]);
    assert_eq!(text(&jvm, s), "01 01 00:00:00 UTC 1970");
    // 400 days, 5 hours, 6 minutes and 7 seconds later
    let ms: i64 = ((400 * 86400) + 5 * 3600 + 6 * 60 + 7) * 1000;
    let mut f = Frame::new(vec![d, Value::Long(ms)]);
    assert!(matches!(run_native(Native::Util(UtilNative::DateSetTime), &mut f, &mut jvm), NativeCall::Done(Ok(()))));
    let s = answer(&mut jvm, UtilNative::DateToString, d, &[]);
    assert_eq!(text(&jvm, s), "02 06 05:06:07 UTC 1971");
}

#[test]
fn locale_default_is_en_us() {
    let mut jvm = Jvm::new();
    let mut f = Frame::new(vec![]);
    assert!(matches!(run_native(Native::Util(UtilNative::LocaleGetDefault), &mut f, &mut jvm), NativeCall::Done(Ok(()))));
    let l = *f.stack.last().unwrap();
    let lang = answer(&mut jvm, UtilNative::LocaleGetLanguage, l, &[]);
    let country = answer(&mut jvm, UtilNative::LocaleGetCountry, l, &[]);
    assert_eq!(text(&jvm, lang), "en");
    assert_eq!(text(&jvm, country), "US");
}

#[test]
fn objects_compare_by_sort_key() {
    let mut jvm = Jvm::new();
    for (a, b, want) in [(Value::Int(3), Value::Long(5), -1), (Value::Long(5), Value::Int(3), 1), (Value::Int(4), Value::Int(4), 0), (Value::Int(4), Value::Long(4), 0)] {
        let mut f = Frame::new(vec![]);
        f.push(a);
        f.push(b);
        f.push(Value::Null);
        assert!(matches!(run_native(Native::Util(UtilNative::ObjectsCompare), &mut f, &mut jvm), NativeCall::Done(Ok(()))));
        assert_eq!(f.stack, vec![Value::Int(want)]);
    }
}

#[test]
fn arrays_to_string_is_external_and_runs_with_given_texts() {
    let mut jvm = Jvm::new();
    let s = string(&mut jvm, "x");
    let arr = jvm.allocate(HeapObject::new_array_of(
        "[Ljava/lang/Object;".to_string(),
        vec![Value::Int(1), Value::Null, s, Value::Double(0.5f64.to_bits()), Value::Boolean(true)],
    ));
    let mut f = Frame::new(vec![]);
    f.push(Value::ArrayRef(arr));
    assert!(matches!(run_native(Native::Util(UtilNative::ArraysToString), &mut f, &mut jvm), NativeCall::External));
    let texts: Vec<Vec<char>> = vec![vec![], vec![], vec![], "0.5".chars().collect(), vec![]];
    minijvm::natives::texts::arrays_to_string_native(&mut f, &mut jvm, &texts).unwrap();
    let r = *f.stack.last().unwrap();
    assert_eq!(text(&jvm, r), "[1, null, x, 0.5, true]");
}

#[test]
fn stack_pop_gives_back_what_push_stored() {
    let mut jvm = Jvm::new();
    let s = Value::ObjectRef(new_object(&mut jvm, "java.util.Stack"));
    call(&mut jvm, UtilNative::StackInit, s, &[]).0.unwrap();
    for x in 0..11 {
        assert_eq!(answer(&mut jvm, UtilNative::StackPush, s, &[Value::Int(x)]), Value::Int(x));
    }
    assert_eq!(answer(&mut jvm, UtilNative::StackPush, s, &[Value::Long(99)]), Value::Long(99));
    assert_eq!(answer(&mut jvm, UtilNative::StackPop, s, &[]), Value::Long(99));
    assert_eq!(answer(&mut jvm, UtilNative::StackPeek, s, &[]), Value::Int(10));
    assert_eq!(answer(&mut jvm, UtilNative::ArrayListSize, s, &[]), Value::Int(11));
}

#[test]
fn hashset_contains_what_was_added_and_holds_no_duplicates() {
    let mut jvm = Jvm::new();
    let s = Value::ObjectRef(new_object(&mut jvm, "java.util.HashSet"));
    call(&mut jvm, UtilNative::HashSetInit, s, &[]).0.unwrap();
    assert_eq!(answer(&mut jvm, UtilNative::HashSetSize, s, &[]), Value::Int(0));
    assert_eq!(answer(&mut jvm, UtilNative::HashSetIsEmpty, s, &[]), Value::Boolean(true));
    assert_eq!(answer(&mut jvm, UtilNative::HashSetContains, s, &[Value::Int(7)]), Value::Boolean(false));
    assert_eq!(answer(&mut jvm, UtilNative::HashSetAdd, s, &[Value::Int(7)]), Value::Boolean(true));
    assert_eq!(answer(&mut jvm, UtilNative::HashSetContains, s, &[Value::Int(7)]), Value::Boolean(true));
    assert_eq!(answer(&mut jvm, UtilNative::HashSetAdd, s, &[Value::Int(7)]), Value::Boolean(false));
    assert_eq!(answer(&mut jvm, UtilNative::HashSetSize, s, &[]), Value::Int(1));
    // strings are compared by their text
    let a = string(&mut jvm, "k");
    let b = string(&mut jvm, "k");
    assert_eq!(answer(&mut jvm, UtilNative::HashSetAdd, s, &[a]), Value::Boolean(true));
    assert_eq!(answer(&mut jvm, UtilNative::HashSetAdd, s, &[b]), Value::Boolean(false));
    assert_eq!(answer(&mut jvm, UtilNative::HashSetContains, s, &[b]), Value::Boolean(true));
    assert_eq!(answer(&mut jvm, UtilNative::HashSetSize, s, &[]), Value::Int(2));
    assert_eq!(answer(&mut jvm, UtilNative::HashSetContains, s, &[Value::Null]), Value::Boolean(false));
}

#[test]
fn hashmap_contains_key_looks_at_live_keys_only() {
    let mut jvm = Jvm::new();
    let m = new_map(&mut jvm);
    let a = string(&mut jvm, "a");
    assert_eq!(answer(&mut jvm, UtilNative::HashMapPut, m, &[a, Value::Int(1)]), Value::Null);
    assert_eq!(answer(&mut jvm, UtilNative::HashMapSize, m, &[]), Value::Int(1));
    assert_eq!(answer(&mut jvm, UtilNative::HashMapContainsKey, m, &[Value::Null]), Value::Boolean(false));
    assert_eq!(answer(&mut jvm, UtilNative::HashMapContainsKey, m, &[a]), Value::Boolean(true));
    // a put of a Null key is a new entry, not one of the unused slots
    assert_eq!(answer(&mut jvm, UtilNative::HashMapPut, m, &[Value::Null, Value::Int(2)]), Value::Null);
    assert_eq!(answer(&mut jvm, UtilNative::HashMapSize, m, &[]), Value::Int(2));
    assert_eq!(answer(&mut jvm, UtilNative::HashMapGet, m, &[Value::Null]), Value::Int(2));
    assert_eq!(answer(&mut jvm, UtilNative::HashMapContainsKey, m, &[Value::Null]), Value::Boolean(true));
}

#[test]
fn hashmap_entry_set_is_a_set_of_the_entries() {
    let mut jvm = Jvm::new();
    let m = new_map(&mut jvm);
    answer(&mut jvm, UtilNative::HashMapPut, m, &[Value::Int(1), Value::Int(10)]);
    answer(&mut jvm, UtilNative::HashMapPut, m, &[Value::Int(2), Value::Int(20)]);
    let es = answer(&mut jvm, UtilNative::HashMapEntrySet, m, &[]);
    assert_eq!(answer(&mut jvm, UtilNative::HashSetSize, es, &[]), Value::Int(2));
    assert_eq!(answer(&mut jvm, UtilNative::HashSetIsEmpty, es, &[]), Value::Boolean(false));
    let id = match es {
        Value::ObjectRef(id) => id,
        v => panic!("not an object: {:?}", v),
    };
    assert_eq!(jvm.heap[id].class_name, "java.util.HashSet");
    let backing = jvm.heap[id].get_field("map").unwrap();
    let first = match backing {
        Value::ObjectRef(bm) => match jvm.heap[bm].get_field("keys") {
            Some(Value::ArrayRef(k)) => jvm.heap[k].array_elements.clone().unwrap()[0],
            v => panic!("no key array: {:?}", v),
        },
        v => panic!("no backing map: {:?}", v),
    };
    match first {
        Value::ObjectRef(e) => {
            assert_eq!(jvm.heap[e].get_field("key"), Some(Value::Int(1)));
            assert_eq!(jvm.heap[e].get_field("value"), Some(Value::Int(10)));
        },
        v => panic!("not an entry: {:?}", v),
    }
    assert_eq!(answer(&mut jvm, UtilNative::HashSetContains, es, &[first]), Value::Boolean(true));
}

fn new_linked_list(jvm: &mut Jvm) -> Value {
    let q = Value::ObjectRef(new_object(jvm, "java.util.LinkedList"));
    call(jvm, UtilNative::LinkedListInit, q, &[]).0.unwrap();
    q
}

#[test]
fn linked_list_get_last_is_the_element_at_size_minus_one() {
    let mut jvm = Jvm::new();
    let q = new_linked_list(&mut jvm);
    assert_eq!(answer(&mut jvm, UtilNative::LinkedListGetLast, q, &[]), Value::Null);
    answer(&mut jvm, UtilNative::LinkedListAdd, q, &[Value::Int(1)]);
    answer(&mut jvm, UtilNative::LinkedListAdd, q, &[Value::Int(2)]);
    assert_eq!(answer(&mut jvm, UtilNative::LinkedListGetLast, q, &[]), Value::Int(2));
    assert_eq!(answer(&mut jvm, UtilNative::LinkedListGetFirst, q, &[]), Value::Int(1));
}

#[test]
fn linked_list_remove_out_of_range_leaves_the_list() {
    let mut jvm = Jvm::new();
    let q = new_linked_list(&mut jvm);
    answer(&mut jvm, UtilNative::LinkedListAdd, q, &[Value::Int(1)]);
    answer(&mut jvm, UtilNative::LinkedListAdd, q, &[Value::Int(2)]);
    assert_eq!(answer(&mut jvm, UtilNative::LinkedListRemove, q, &[Value::Int(5)]), Value::Null);
    assert_eq!(answer(&mut jvm, UtilNative::LinkedListSize, q, &[]), Value::Int(2));
    assert_eq!(answer(&mut jvm, UtilNative::LinkedListGet, q, &[Value::Int(0)]), Value::Int(1));
    assert_eq!(answer(&mut jvm, UtilNative::LinkedListGet, q, &[Value::Int(1)]), Value::Int(2));
    assert_eq!(answer(&mut jvm, UtilNative::LinkedListRemove, q, &[Value::Int(0)]), Value::Int(1));
    assert_eq!(answer(&mut jvm, UtilNative::LinkedListSize, q, &[]), Value::Int(1));
    assert_eq!(answer(&mut jvm, UtilNative::LinkedListGetLast, q, &[]), Value::Int(2));
}

#[test]
fn hashmap_put_leaves_other_keys_alone() {
    let mut jvm = Jvm::new();
    let m = new_map(&mut jvm);
    for i in 0..12 {
        answer(&mut jvm, UtilNative::HashMapPut, m, &[Value::Int(i), Value::Int(i * 10)]);
    }
    let x = string(&mut jvm, "x");
    answer(&mut jvm, UtilNative::HashMapPut, m, &[x, Value::Int(-1)]);
    assert_eq!(answer(&mut jvm, UtilNative::HashMapPut, m, &[Value::Int(5), Value::Int(555)]), Value::Int(50));
    for i in 0..12 {
        let want = if i == 5 { 555 } else { i * 10 };
        assert_eq!(answer(&mut jvm, UtilNative::HashMapGet, m, &[Value::Int(i)]), Value::Int(want));
    }
    let x2 = string(&mut jvm, "x");
    assert_eq!(answer(&mut jvm, UtilNative::HashMapGet, m, &[x2]), Value::Int(-1));
    assert_eq!(answer(&mut jvm, UtilNative::HashMapSize, m, &[]), Value::Int(13));
}

#[test]
fn bitset_set_and_clear_touch_one_bit() {
    let mut jvm = Jvm::new();
    let b = Value::ObjectRef(new_object(&mut jvm, "java.util.BitSet"));
    call(&mut jvm, UtilNative::BitSetInit, b, &[]).0.unwrap();
    call(&mut jvm, UtilNative::BitSetSet, b, &[Value::Int(5)]).0.unwrap();
    call(&mut jvm, UtilNative::BitSetSet, b, &[Value::Int(6)]).0.unwrap();
    call(&mut jvm, UtilNative::BitSetSet, b, &[Value::Int(63)]).0.unwrap();
    call(&mut jvm, UtilNative::BitSetClear, b, &[Value::Int(6)]).0.unwrap();
    for bit in 0..130 {
        let want = bit == 5 || bit == 63;
        assert_eq!(answer(&mut jvm, UtilNative::BitSetGet, b, &[Value::Int(bit)]), Value::Boolean(want), "bit {}", bit);
    }
}

fn static_call(jvm: &mut Jvm, n: UtilNative, args: &[Value]) -> (Result<(), JvmError>, Vec<Value>) {
    let mut frame = Frame::new(vec![]);
    for a in args {
        frame.push(*a);
    }
    match run_native(Native::Util(n), &mut frame, jvm) {
        NativeCall::Done(r) => (r, frame.stack.clone()),
        NativeCall::Unmet => panic!("native refused its arguments"),
        NativeCall::External => panic!("native is external"),
    }
}

#[test]
fn arrays_sort_then_binary_search() {
    let mut jvm = Jvm::new();
    let elems: Vec<Value> = [9, -4, 7, 0, 7, 3].iter().map(|x| Value::Int(*x)).collect();
    let a = Value::ArrayRef(jvm.allocate(HeapObject::new_array_of("[Ljava/lang/Object;".to_string(), elems)));
    let (r, st) = static_call(&mut jvm, UtilNative::ArraysSort, &[a]);
    assert_eq!(r, Ok(()));
    assert!(st.is_empty());
    if let Value::ArrayRef(id) = a {
        let want: Vec<Value> = [-4, 0, 3, 7, 7, 9].iter().map(|x| Value::Int(*x)).collect();
        assert_eq!(jvm.heap[id].array_elements.clone().unwrap(), want);
    }
    let (_, st) = static_call(&mut jvm, UtilNative::ArraysBinarySearch, &[a, Value::Int(3)]);
    assert_eq!(st, vec![Value::Int(2)]);
    let (_, st) = static_call(&mut jvm, UtilNative::ArraysBinarySearch, &[a, Value::Int(9)]);
    assert_eq!(st, vec![Value::Int(5)]);
    // 5 would go at index 3: -(3) - 1
    let (_, st) = static_call(&mut jvm, UtilNative::ArraysBinarySearch, &[a, Value::Int(5)]);
    assert_eq!(st, vec![Value::Int(-4)]);
    let (_, st) = static_call(&mut jvm, UtilNative::ArraysBinarySearch, &[a, Value::Int(-10)]);
    assert_eq!(st, vec![Value::Int(-1)]);
    let (_, st) = static_call(&mut jvm, UtilNative::ArraysBinarySearch, &[a, Value::Int(100)]);
    assert_eq!(st, vec![Value::Int(-7)]);
    let (r, _) = static_call(&mut jvm, UtilNative::ArraysSort, &[Value::Null]);
    assert_eq!(r, Err(JvmError::RuntimeError(RuntimeError::NullPointerException)));
}

#[test]
fn searches_compare_strings_by_their_text() {
    let mut jvm = Jvm::new();
    let l = new_list(&mut jvm);
    let a = string(&mut jvm, "alpha");
    let b = string(&mut jvm, "beta");
    for v in [a, b, a] {
        answer(&mut jvm, UtilNative::ArrayListAdd, l, &[v]);
    }
    let b2 = string(&mut jvm, "beta");
    let a2 = string(&mut jvm, "alpha");
    let gamma = string(&mut jvm, "gamma");
    assert_eq!(answer(&mut jvm, UtilNative::ArrayListIndexOf, l, &[b2]), Value::Int(1));
    assert_eq!(answer(&mut jvm, UtilNative::ArrayListContains, l, &[a2]), Value::Boolean(true));
    assert_eq!(answer(&mut jvm, UtilNative::ArrayListContains, l, &[gamma]), Value::Boolean(false));
    let (_, st) = static_call(&mut jvm, UtilNative::CollectionsFrequency, &[l, a2]);
    assert_eq!(st, vec![Value::Int(2)]);
    let (_, st) = static_call(&mut jvm, UtilNative::ObjectsEquals, &[a, a2]);
    assert_eq!(st, vec![Value::Boolean(true)]);
    let (_, st) = static_call(&mut jvm, UtilNative::ObjectsEquals, &[a, b]);
    assert_eq!(st, vec![Value::Boolean(false)]);
    let (_, st) = static_call(&mut jvm, UtilNative::ObjectsEquals, &[Value::Null, Value::Null]);
    assert_eq!(st, vec![Value::Boolean(true)]);
}

#[test]
fn linked_hash_set_add_answers_whether_it_added() {
    let mut jvm = Jvm::new();
    let s = Value::ObjectRef(new_object(&mut jvm, "java.util.LinkedHashSet"));
    call(&mut jvm, UtilNative::LinkedHashSetInit, s, &[]).0.unwrap();
    assert_eq!(answer(&mut jvm, UtilNative::LinkedHashSetAdd, s, &[Value::Null]), Value::Boolean(true));
    assert_eq!(answer(&mut jvm, UtilNative::LinkedHashSetAdd, s, &[Value::Null]), Value::Boolean(false));
    let x = string(&mut jvm, "x");
    let x2 = string(&mut jvm, "x");
    assert_eq!(answer(&mut jvm, UtilNative::LinkedHashSetAdd, s, &[x]), Value::Boolean(true));
    assert_eq!(answer(&mut jvm, UtilNative::LinkedHashSetAdd, s, &[x2]), Value::Boolean(false));
    assert_eq!(answer(&mut jvm, UtilNative::LinkedHashSetSize, s, &[]), Value::Int(2));
}

#[test]
fn hashmap_put_if_absent_and_replace() {
    let mut jvm = Jvm::new();
    let m = new_map(&mut jvm);
    assert_eq!(answer(&mut jvm, UtilNative::HashMapPutIfAbsent, m, &[Value::Int(1), Value::Int(10)]), Value::Null);
    assert_eq!(answer(&mut jvm, UtilNative::HashMapPutIfAbsent, m, &[Value::Int(1), Value::Int(11)]), Value::Int(10));
    assert_eq!(answer(&mut jvm, UtilNative::HashMapGet, m, &[Value::Int(1)]), Value::Int(10));
    assert_eq!(answer(&mut jvm, UtilNative::HashMapReplace, m, &[Value::Int(1), Value::Int(12)]), Value::Int(10));
    assert_eq!(answer(&mut jvm, UtilNative::HashMapGet, m, &[Value::Int(1)]), Value::Int(12));
    assert_eq!(answer(&mut jvm, UtilNative::HashMapReplace, m, &[Value::Int(2), Value::Int(20)]), Value::Null);
    assert_eq!(answer(&mut jvm, UtilNative::HashMapContainsKey, m, &[Value::Int(2)]), Value::Boolean(false));
    assert_eq!(answer(&mut jvm, UtilNative::HashMapSize, m, &[]), Value::Int(1));
}

#[test]
fn arraylist_remove_and_add_all_over_live_elements() {
    let mut jvm = Jvm::new();
    let l = new_list(&mut jvm);
    let c = new_list(&mut jvm);
    for x in [1, 2, 3] {
        answer(&mut jvm, UtilNative::ArrayListAdd, l, &[Value::Int(x)]);
    }
    for x in [7, 8] {
        answer(&mut jvm, UtilNative::ArrayListAdd, c, &[Value::Int(x)]);
    }
    assert_eq!(answer(&mut jvm, UtilNative::ArrayListRemove, l, &[Value::Int(1)]), Value::Int(2));
    assert_eq!(answer(&mut jvm, UtilNative::ArrayListRemove, l, &[Value::Int(9)]), Value::Null);
    assert_eq!(answer(&mut jvm, UtilNative::ArrayListAddAll, l, &[c]), Value::Boolean(true));
    let got: Vec<Value> = (0..4).map(|i| answer(&mut jvm, UtilNative::ArrayListGet, l, &[Value::Int(i)])).collect();
    assert_eq!(got, [1, 3, 7, 8].iter().map(|x| Value::Int(*x)).collect::<Vec<_>>());
    assert_eq!(answer(&mut jvm, UtilNative::ArrayListSize, l, &[]), Value::Int(4));
    assert_eq!(answer(&mut jvm, UtilNative::ArrayListSize, c, &[]), Value::Int(2));
}

#[test]
fn atomic_integer_compare_and_set() {
    let mut jvm = Jvm::new();
    let a = Value::ObjectRef(new_object(&mut jvm, "java.util.concurrent.atomic.AtomicInteger"));
    call(&mut jvm, UtilNative::AtomicIntegerInit, a, &[]).0.unwrap();
    let mut f = Frame::new(vec![a, Value::Int(1), Value::Int(5)]);
    assert!(matches!(run_native(Native::Util(UtilNative::AtomicIntegerCompareAndSet), &mut f, &mut jvm), NativeCall::Done(Ok(()))));
    assert_eq!(f.stack, vec![Value::Boolean(false)]);
    assert_eq!(answer(&mut jvm, UtilNative::AtomicIntegerGet, a, &[]), Value::Int(0));
    let mut f = Frame::new(vec![a, Value::Int(0), Value::Int(5)]);
    assert!(matches!(run_native(Native::Util(UtilNative::AtomicIntegerCompareAndSet), &mut f, &mut jvm), NativeCall::Done(Ok(()))));
    assert_eq!(f.stack, vec![Value::Boolean(true)]);
    assert_eq!(answer(&mut jvm, UtilNative::AtomicIntegerGet, a, &[]), Value::Int(5));
}

#[test]
fn failed_natives_push_nothing() {
    let mut jvm = Jvm::new();
    let (r, st) = static_call(&mut jvm, UtilNative::ArraysBinarySearch, &[Value::Null, Value::Int(3)]);
    assert_eq!(r, Err(JvmError::RuntimeError(RuntimeError::NullPointerException)));
    assert!(st.is_empty());
}
