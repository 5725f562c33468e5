use vstd::prelude::*;
use crate::runtime::jvm::{Jvm, only_methods_added};
use crate::runtime::method::{method_view, static_view, Method, MethodView, Native};
use crate::stdlib::host::HostNative;

verus! {

/// The native implementations this library provides for these classes.
#[derive(Clone, Copy, Debug, PartialEq, Eq, Structural)]
pub enum UtilNative {
    ArrayListInit,
    ArrayListInitCapacity,
    ArrayListSize,
    ArrayListAdd,
    ArrayListGet,
    ArrayListIsEmpty,
    ArrayListRemove,
    ArrayListIndexOf,
    ArrayListContains,
    ArrayListClear,
    ArrayListSet,
    ArrayListForEach,
    ArrayListAddAll,
    HashMapInit,
    HashMapSize,
    HashMapPut,
    HashMapGet,
    HashMapContainsKey,
    HashMapIsEmpty,
    HashMapKeySet,
    HashMapClear,
    HashMapComputeIfAbsent,
    HashMapMerge,
    HashMapForEach,
    HashMapGetOrDefault,
    HashMapPutIfAbsent,
    HashMapReplace,
    HashMapValues,
    HashMapEntrySet,
    HashSetInit,
    HashSetAdd,
    HashSetSize,
    HashSetIsEmpty,
    HashSetContains,
    ArraysAsList,
    ArraysToString,
    ArraysSort,
    ArraysBinarySearch,
    ArraysCopyOf,
    ArraysFill,
    CollectionsSingletonList,
    CollectionsEmptyList,
    CollectionsSort,
    CollectionsSortWithComparator,
    CollectionsDisjoint,
    CollectionsReplaceAll,
    CollectionsReverse,
    CollectionsShuffle,
    CollectionsFill,
    CollectionsFrequency,
    CollectionsMax,
    CollectionsMin,
    CollectionsNCopies,
    CollectionsSingleton,
    CollectionsSingletonMap,
    CollectionsUnmodifiableList,
    CollectionsUnmodifiableMap,
    CollectionsUnmodifiableSet,
    CollectionsCheckedList,
    CollectionsCheckedMap,
    CollectionsCheckedSet,
    CollectionsSynchronizedList,
    CollectionsSynchronizedMap,
    CollectionsSynchronizedSet,
    CollectionsNewSetFromMap,
    CollectionsReverseOrder,
    CollectionsList,
    CollectionsEnumeration,
    CollectionsAddAll,
    CollectionsIndexOfSubList,
    CollectionsLastIndexOfSubList,
    CollectionsRotate,
    CollectionsSwap,
    CollectionsAsLifoQueue,
    CollectionsCopy,
    ObjectsEquals,
    ObjectsHashCode,
    ObjectsToString,
    ObjectsRequireNonNull,
    ObjectsDeepEquals,
    ObjectsHash,
    ObjectsCompare,
    ObjectsIsNull,
    ObjectsNonNull,
    OptionalEmpty,
    OptionalOf,
    OptionalIsPresent,
    OptionalGet,
    OptionalOrElse,
    LinkedListInit,
    LinkedListAdd,
    LinkedListAddFirst,
    LinkedListGet,
    LinkedListGetFirst,
    LinkedListGetLast,
    LinkedListSize,
    LinkedListIsEmpty,
    LinkedListRemove,
    LinkedListRemoveFirst,
    LinkedListRemoveLast,
    TreeMapInit,
    TreeMapPut,
    TreeMapGet,
    TreeMapSize,
    LinkedHashSetInit,
    LinkedHashSetAdd,
    LinkedHashSetSize,
    PriorityQueueInit,
    PriorityQueueAdd,
    PriorityQueuePeek,
    PriorityQueuePoll,
    PriorityQueueSize,
    UUIDRandomUUID,
    UUIDToString,
    UUIDFromString,
    RandomNextInt,
    RandomNextIntBound,
    RandomNextLong,
    RandomNextBoolean,
    StackInit,
    StackPush,
    StackPop,
    StackPeek,
    StackEmpty,
    StackSearch,
    Base64GetEncoder,
    Base64GetDecoder,
    PropertiesInit,
    PropertiesSetProperty,
    PropertiesGetProperty,
    ComparatorNaturalOrder,
    ComparatorReverseOrder,
    ComparatorThenComparing,
    ComparatorNullsFirst,
    ComparatorNullsLast,
    ComparatorReversed,
    AtomicIntegerInit,
    AtomicIntegerInitValue,
    AtomicIntegerGet,
    AtomicIntegerSet,
    AtomicIntegerIncrementAndGet,
    AtomicIntegerDecrementAndGet,
    AtomicIntegerAddAndGet,
    AtomicIntegerCompareAndSet,
    AtomicLongInitValue,
    AtomicLongGet,
    AtomicLongSet,
    AtomicLongIncrementAndGet,
    AtomicLongAddAndGet,
    AtomicReferenceInitValue,
    AtomicReferenceGet,
    AtomicReferenceSet,
    AtomicBooleanInitValue,
    AtomicBooleanGet,
    AtomicBooleanSet,
    AtomicBooleanGetAndSet,
    AtomicBooleanCompareAndSet,
    LinkedHashMapInit,
    LinkedHashMapPut,
    LinkedHashMapGet,
    LinkedHashMapSize,
    LinkedHashMapIsEmpty,
    LinkedHashMapContainsKey,
    ScannerInit,
    ScannerNextInt,
    ScannerNextLong,
    ScannerNext,
    ScannerNextLine,
    ScannerHasNext,
    ReentrantLockLock,
    ReentrantLockUnlock,
    ReentrantLockTryLock,
    DateInit,
    DateInitMillis,
    DateGetTime,
    DateSetTime,
    DateToString,
    LocaleGetDefault,
    LocaleGetLanguage,
    LocaleGetCountry,
    BitSetInit,
    BitSetGet,
    BitSetSet,
    BitSetClear,
    BitSetCardinality,
    OptionalIntEmpty,
    OptionalIntOf,
    OptionalIntIsPresent,
    OptionalIntGetAsInt,
    OptionalIntOrElse,
    OptionalLongEmpty,
    OptionalLongOf,
    OptionalLongIsPresent,
    OptionalLongGetAsLong,
    OptionalDoubleEmpty,
    OptionalDoubleIsPresent,
    OptionalDoubleGetAsDouble,
    Base64EncoderEncodeToString,
    Base64DecoderDecode,
}

pub struct ArrayList;

impl ArrayList {
    /// ArrayList() void constructor
    pub fn init() -> (m: Method)
        ensures
            m@ == method_view("java.util.ArrayList"@, "<init>"@, "()V"@, false, Some(Native::Util(UtilNative::ArrayListInit))),
    {
        Method::new_native("java.util.ArrayList", "<init>", "()V", false, Some(Native::Util(UtilNative::ArrayListInit)))
    }

    /// ArrayList(int) constructor with initial capacity
    pub fn init_capacity() -> (m: Method)
        ensures
            m@ == method_view("java.util.ArrayList"@, "<init>"@, "(I)V"@, false, Some(Native::Util(UtilNative::ArrayListInitCapacity))),
    {
        Method::new_native("java.util.ArrayList", "<init>", "(I)V", false, Some(Native::Util(UtilNative::ArrayListInitCapacity)))
    }

    /// The method `java.util.ArrayList.size()I`.
    pub fn size() -> (m: Method)
        ensures
            m@ == method_view("java.util.ArrayList"@, "size"@, "()I"@, false, Some(Native::Util(UtilNative::ArrayListSize))),
    {
        Method::new_native("java.util.ArrayList", "size", "()I", false, Some(Native::Util(UtilNative::ArrayListSize)))
    }

    /// The method `java.util.ArrayList.add(Ljava/lang/Object;)Z`.
    pub fn add() -> (m: Method)
        ensures
            m@ == method_view("java.util.ArrayList"@, "add"@, "(Ljava/lang/Object;)Z"@, false, Some(Native::Util(UtilNative::ArrayListAdd))),
    {
        Method::new_native("java.util.ArrayList", "add", "(Ljava/lang/Object;)Z", false, Some(Native::Util(UtilNative::ArrayListAdd)))
    }

    /// The method `java.util.ArrayList.get(I)Ljava/lang/Object;`.
    pub fn get() -> (m: Method)
        ensures
            m@ == method_view("java.util.ArrayList"@, "get"@, "(I)Ljava/lang/Object;"@, false, Some(Native::Util(UtilNative::ArrayListGet))),
    {
        Method::new_native("java.util.ArrayList", "get", "(I)Ljava/lang/Object;", false, Some(Native::Util(UtilNative::ArrayListGet)))
    }

    /// The method `java.util.ArrayList.isEmpty()Z`.
    pub fn isEmpty() -> (m: Method)
        ensures
            m@ == method_view("java.util.ArrayList"@, "isEmpty"@, "()Z"@, false, Some(Native::Util(UtilNative::ArrayListIsEmpty))),
    {
        Method::new_native("java.util.ArrayList", "isEmpty", "()Z", false, Some(Native::Util(UtilNative::ArrayListIsEmpty)))
    }

    /// The method `java.util.ArrayList.remove(I)Ljava/lang/Object;`.
    pub fn remove() -> (m: Method)
        ensures
            m@ == method_view("java.util.ArrayList"@, "remove"@, "(I)Ljava/lang/Object;"@, false, Some(Native::Util(UtilNative::ArrayListRemove))),
    {
        Method::new_native("java.util.ArrayList", "remove", "(I)Ljava/lang/Object;", false, Some(Native::Util(UtilNative::ArrayListRemove)))
    }

    /// The method `java.util.ArrayList.indexOf(Ljava/lang/Object;)I`.
    pub fn indexOf() -> (m: Method)
        ensures
            m@ == method_view("java.util.ArrayList"@, "indexOf"@, "(Ljava/lang/Object;)I"@, false, Some(Native::Util(UtilNative::ArrayListIndexOf))),
    {
        Method::new_native("java.util.ArrayList", "indexOf", "(Ljava/lang/Object;)I", false, Some(Native::Util(UtilNative::ArrayListIndexOf)))
    }

    /// The method `java.util.ArrayList.contains(Ljava/lang/Object;)Z`.
    pub fn contains() -> (m: Method)
        ensures
            m@ == method_view("java.util.ArrayList"@, "contains"@, "(Ljava/lang/Object;)Z"@, false, Some(Native::Util(UtilNative::ArrayListContains))),
    {
        Method::new_native("java.util.ArrayList", "contains", "(Ljava/lang/Object;)Z", false, Some(Native::Util(UtilNative::ArrayListContains)))
    }

    /// The method `java.util.ArrayList.clear()V`.
    pub fn clear() -> (m: Method)
        ensures
            m@ == method_view("java.util.ArrayList"@, "clear"@, "()V"@, false, Some(Native::Util(UtilNative::ArrayListClear))),
    {
        Method::new_native("java.util.ArrayList", "clear", "()V", false, Some(Native::Util(UtilNative::ArrayListClear)))
    }

    /// The method `java.util.ArrayList.set(ILjava/lang/Object;)Ljava/lang/Object;`.
    pub fn set() -> (m: Method)
        ensures
            m@ == method_view("java.util.ArrayList"@, "set"@, "(ILjava/lang/Object;)Ljava/lang/Object;"@, false, Some(Native::Util(UtilNative::ArrayListSet))),
    {
        Method::new_native("java.util.ArrayList", "set", "(ILjava/lang/Object;)Ljava/lang/Object;", false, Some(Native::Util(UtilNative::ArrayListSet)))
    }

    /// The method `java.util.ArrayList.forEach(Ljava/util/function/Consumer;)V`.
    pub fn forEach() -> (m: Method)
        ensures
            m@ == method_view("java.util.ArrayList"@, "forEach"@, "(Ljava/util/function/Consumer;)V"@, false, Some(Native::Util(UtilNative::ArrayListForEach))),
    {
        Method::new_native("java.util.ArrayList", "forEach", "(Ljava/util/function/Consumer;)V", false, Some(Native::Util(UtilNative::ArrayListForEach)))
    }

    /// The method `java.util.ArrayList.addAll(Ljava/util/Collection;)Z`.
    pub fn addAll() -> (m: Method)
        ensures
            m@ == method_view("java.util.ArrayList"@, "addAll"@, "(Ljava/util/Collection;)Z"@, false, Some(Native::Util(UtilNative::ArrayListAddAll))),
    {
        Method::new_native("java.util.ArrayList", "addAll", "(Ljava/util/Collection;)Z", false, Some(Native::Util(UtilNative::ArrayListAddAll)))
    }

    /// What `register` adds to the method area, in order.
    pub open spec fn registered() -> Seq<(Seq<char>, MethodView)> {
        seq![
            ("java.util.ArrayList"@, method_view("java.util.ArrayList"@, "<init>"@, "()V"@, false, Some(Native::Util(UtilNative::ArrayListInit)))),
            ("java.util.ArrayList"@, method_view("java.util.ArrayList"@, "<init>"@, "(I)V"@, false, Some(Native::Util(UtilNative::ArrayListInitCapacity)))),
            ("java.util.ArrayList"@, method_view("java.util.ArrayList"@, "size"@, "()I"@, false, Some(Native::Util(UtilNative::ArrayListSize)))),
            ("java.util.ArrayList"@, method_view("java.util.ArrayList"@, "add"@, "(Ljava/lang/Object;)Z"@, false, Some(Native::Util(UtilNative::ArrayListAdd)))),
            ("java.util.ArrayList"@, method_view("java.util.ArrayList"@, "addAll"@, "(Ljava/util/Collection;)Z"@, false, Some(Native::Util(UtilNative::ArrayListAddAll)))),
            ("java.util.ArrayList"@, method_view("java.util.ArrayList"@, "get"@, "(I)Ljava/lang/Object;"@, false, Some(Native::Util(UtilNative::ArrayListGet)))),
            ("java.util.ArrayList"@, method_view("java.util.ArrayList"@, "isEmpty"@, "()Z"@, false, Some(Native::Util(UtilNative::ArrayListIsEmpty)))),
            ("java.util.ArrayList"@, method_view("java.util.ArrayList"@, "remove"@, "(I)Ljava/lang/Object;"@, false, Some(Native::Util(UtilNative::ArrayListRemove)))),
            ("java.util.ArrayList"@, method_view("java.util.ArrayList"@, "indexOf"@, "(Ljava/lang/Object;)I"@, false, Some(Native::Util(UtilNative::ArrayListIndexOf)))),
            ("java.util.ArrayList"@, method_view("java.util.ArrayList"@, "contains"@, "(Ljava/lang/Object;)Z"@, false, Some(Native::Util(UtilNative::ArrayListContains)))),
            ("java.util.ArrayList"@, method_view("java.util.ArrayList"@, "clear"@, "()V"@, false, Some(Native::Util(UtilNative::ArrayListClear)))),
            ("java.util.ArrayList"@, method_view("java.util.ArrayList"@, "set"@, "(ILjava/lang/Object;)Ljava/lang/Object;"@, false, Some(Native::Util(UtilNative::ArrayListSet)))),
            ("java.util.ArrayList"@, method_view("java.util.ArrayList"@, "forEach"@, "(Ljava/util/function/Consumer;)V"@, false, Some(Native::Util(UtilNative::ArrayListForEach)))),
        ]
    }

    pub fn register(jvm: &mut Jvm)
        ensures
            only_methods_added(*old(jvm), *final(jvm), Self::registered()),
    {
        jvm.method_area.add_native_method("java.util.ArrayList", ArrayList::init());
        jvm.method_area.add_native_method("java.util.ArrayList", ArrayList::init_capacity());
        jvm.method_area.add_native_method("java.util.ArrayList", ArrayList::size());
        jvm.method_area.add_native_method("java.util.ArrayList", ArrayList::add());
        jvm.method_area.add_native_method("java.util.ArrayList", ArrayList::addAll());
        jvm.method_area.add_native_method("java.util.ArrayList", ArrayList::get());
        jvm.method_area.add_native_method("java.util.ArrayList", ArrayList::isEmpty());
        jvm.method_area.add_native_method("java.util.ArrayList", ArrayList::remove());
        jvm.method_area.add_native_method("java.util.ArrayList", ArrayList::indexOf());
        jvm.method_area.add_native_method("java.util.ArrayList", ArrayList::contains());
        jvm.method_area.add_native_method("java.util.ArrayList", ArrayList::clear());
        jvm.method_area.add_native_method("java.util.ArrayList", ArrayList::set());
        jvm.method_area.add_native_method("java.util.ArrayList", ArrayList::forEach());
        assert(jvm.method_area@ =~= old(jvm).method_area@ + Self::registered());
    }
}

pub struct HashMap;

impl HashMap {
    /// The method `java.util.HashMap.<init>()V`.
    pub fn init() -> (m: Method)
        ensures
            m@ == method_view("java.util.HashMap"@, "<init>"@, "()V"@, false, Some(Native::Util(UtilNative::HashMapInit))),
    {
        Method::new_native("java.util.HashMap", "<init>", "()V", false, Some(Native::Util(UtilNative::HashMapInit)))
    }

    // Simplified: ignore initial capacity, just use default
    pub fn init_capacity() -> (m: Method)
        ensures
            m@ == method_view("java.util.HashMap"@, "<init>"@, "()V"@, false, Some(Native::Util(UtilNative::HashMapInit))),
    {
        HashMap::init()
    }

    /// The method `java.util.HashMap.size()I`.
    pub fn size() -> (m: Method)
        ensures
            m@ == method_view("java.util.HashMap"@, "size"@, "()I"@, false, Some(Native::Util(UtilNative::HashMapSize))),
    {
        Method::new_native("java.util.HashMap", "size", "()I", false, Some(Native::Util(UtilNative::HashMapSize)))
    }

    /// The method `java.util.HashMap.put(Ljava/lang/Object;Ljava/lang/Object;)Ljava/lang/Object;`.
    pub fn put() -> (m: Method)
        ensures
            m@ == method_view("java.util.HashMap"@, "put"@, "(Ljava/lang/Object;Ljava/lang/Object;)Ljava/lang/Object;"@, false, Some(Native::Util(UtilNative::HashMapPut))),
    {
        Method::new_native("java.util.HashMap", "put", "(Ljava/lang/Object;Ljava/lang/Object;)Ljava/lang/Object;", false, Some(Native::Util(UtilNative::HashMapPut)))
    }

    /// The method `java.util.HashMap.get(Ljava/lang/Object;)Ljava/lang/Object;`.
    pub fn get() -> (m: Method)
        ensures
            m@ == method_view("java.util.HashMap"@, "get"@, "(Ljava/lang/Object;)Ljava/lang/Object;"@, false, Some(Native::Util(UtilNative::HashMapGet))),
    {
        Method::new_native("java.util.HashMap", "get", "(Ljava/lang/Object;)Ljava/lang/Object;", false, Some(Native::Util(UtilNative::HashMapGet)))
    }

    /// The method `java.util.HashMap.containsKey(Ljava/lang/Object;)Z`.
    pub fn containsKey() -> (m: Method)
        ensures
            m@ == method_view("java.util.HashMap"@, "containsKey"@, "(Ljava/lang/Object;)Z"@, false, Some(Native::Util(UtilNative::HashMapContainsKey))),
    {
        Method::new_native("java.util.HashMap", "containsKey", "(Ljava/lang/Object;)Z", false, Some(Native::Util(UtilNative::HashMapContainsKey)))
    }

    /// The method `java.util.HashMap.isEmpty()Z`.
    pub fn isEmpty() -> (m: Method)
        ensures
            m@ == method_view("java.util.HashMap"@, "isEmpty"@, "()Z"@, false, Some(Native::Util(UtilNative::HashMapIsEmpty))),
    {
        Method::new_native("java.util.HashMap", "isEmpty", "()Z", false, Some(Native::Util(UtilNative::HashMapIsEmpty)))
    }

    /// The method `java.util.HashMap.keySet()Ljava/util/Set;`.
    pub fn keySet() -> (m: Method)
        ensures
            m@ == method_view("java.util.HashMap"@, "keySet"@, "()Ljava/util/Set;"@, false, Some(Native::Util(UtilNative::HashMapKeySet))),
    {
        Method::new_native("java.util.HashMap", "keySet", "()Ljava/util/Set;", false, Some(Native::Util(UtilNative::HashMapKeySet)))
    }

    /// The method `java.util.HashMap.clear()V`.
    pub fn clear() -> (m: Method)
        ensures
            m@ == method_view("java.util.HashMap"@, "clear"@, "()V"@, false, Some(Native::Util(UtilNative::HashMapClear))),
    {
        Method::new_native("java.util.HashMap", "clear", "()V", false, Some(Native::Util(UtilNative::HashMapClear)))
    }

    /// The method `java.util.HashMap.computeIfAbsent(Ljava/lang/Object;Ljava/util/function/Function;)Ljava/lang/Object;`.
    pub fn computeIfAbsent() -> (m: Method)
        ensures
            m@ == method_view("java.util.HashMap"@, "computeIfAbsent"@, "(Ljava/lang/Object;Ljava/util/function/Function;)Ljava/lang/Object;"@, false, Some(Native::Util(UtilNative::HashMapComputeIfAbsent))),
    {
        Method::new_native("java.util.HashMap", "computeIfAbsent", "(Ljava/lang/Object;Ljava/util/function/Function;)Ljava/lang/Object;", false, Some(Native::Util(UtilNative::HashMapComputeIfAbsent)))
    }

    /// The method `java.util.HashMap.merge(Ljava/lang/Object;Ljava/lang/Object;Ljava/util/function/BiFunction;)Ljava/lang/Object;`.
    pub fn merge() -> (m: Method)
        ensures
            m@ == method_view("java.util.HashMap"@, "merge"@, "(Ljava/lang/Object;Ljava/lang/Object;Ljava/util/function/BiFunction;)Ljava/lang/Object;"@, false, Some(Native::Util(UtilNative::HashMapMerge))),
    {
        Method::new_native("java.util.HashMap", "merge", "(Ljava/lang/Object;Ljava/lang/Object;Ljava/util/function/BiFunction;)Ljava/lang/Object;", false, Some(Native::Util(UtilNative::HashMapMerge)))
    }

    /// The method `java.util.HashMap.forEach(Ljava/util/function/BiConsumer;)V`.
    pub fn forEach() -> (m: Method)
        ensures
            m@ == method_view("java.util.HashMap"@, "forEach"@, "(Ljava/util/function/BiConsumer;)V"@, false, Some(Native::Util(UtilNative::HashMapForEach))),
    {
        Method::new_native("java.util.HashMap", "forEach", "(Ljava/util/function/BiConsumer;)V", false, Some(Native::Util(UtilNative::HashMapForEach)))
    }

    /// The method `java.util.HashMap.getOrDefault(Ljava/lang/Object;Ljava/lang/Object;)Ljava/lang/Object;`.
    pub fn getOrDefault() -> (m: Method)
        ensures
            m@ == method_view("java.util.HashMap"@, "getOrDefault"@, "(Ljava/lang/Object;Ljava/lang/Object;)Ljava/lang/Object;"@, false, Some(Native::Util(UtilNative::HashMapGetOrDefault))),
    {
        Method::new_native("java.util.HashMap", "getOrDefault", "(Ljava/lang/Object;Ljava/lang/Object;)Ljava/lang/Object;", false, Some(Native::Util(UtilNative::HashMapGetOrDefault)))
    }

    /// The method `java.util.HashMap.putIfAbsent(Ljava/lang/Object;Ljava/lang/Object;)Ljava/lang/Object;`.
    pub fn putIfAbsent() -> (m: Method)
        ensures
            m@ == method_view("java.util.HashMap"@, "putIfAbsent"@, "(Ljava/lang/Object;Ljava/lang/Object;)Ljava/lang/Object;"@, false, Some(Native::Util(UtilNative::HashMapPutIfAbsent))),
    {
        Method::new_native("java.util.HashMap", "putIfAbsent", "(Ljava/lang/Object;Ljava/lang/Object;)Ljava/lang/Object;", false, Some(Native::Util(UtilNative::HashMapPutIfAbsent)))
    }

    /// The method `java.util.HashMap.replace(Ljava/lang/Object;Ljava/lang/Object;)Ljava/lang/Object;`.
    pub fn replace() -> (m: Method)
        ensures
            m@ == method_view("java.util.HashMap"@, "replace"@, "(Ljava/lang/Object;Ljava/lang/Object;)Ljava/lang/Object;"@, false, Some(Native::Util(UtilNative::HashMapReplace))),
    {
        Method::new_native("java.util.HashMap", "replace", "(Ljava/lang/Object;Ljava/lang/Object;)Ljava/lang/Object;", false, Some(Native::Util(UtilNative::HashMapReplace)))
    }

    /// The method `java.util.HashMap.values()Ljava/util/Collection;`.
    pub fn values() -> (m: Method)
        ensures
            m@ == method_view("java.util.HashMap"@, "values"@, "()Ljava/util/Collection;"@, false, Some(Native::Util(UtilNative::HashMapValues))),
    {
        Method::new_native("java.util.HashMap", "values", "()Ljava/util/Collection;", false, Some(Native::Util(UtilNative::HashMapValues)))
    }

    /// The method `java.util.HashMap.entrySet()Ljava/util/Set;`.
    pub fn entrySet() -> (m: Method)
        ensures
            m@ == method_view("java.util.HashMap"@, "entrySet"@, "()Ljava/util/Set;"@, false, Some(Native::Util(UtilNative::HashMapEntrySet))),
    {
        Method::new_native("java.util.HashMap", "entrySet", "()Ljava/util/Set;", false, Some(Native::Util(UtilNative::HashMapEntrySet)))
    }

    /// What `register` adds to the method area, in order.
    pub open spec fn registered() -> Seq<(Seq<char>, MethodView)> {
        seq![
            ("java.util.HashMap"@, method_view("java.util.HashMap"@, "<init>"@, "()V"@, false, Some(Native::Util(UtilNative::HashMapInit)))),
            ("java.util.HashMap"@, method_view("java.util.HashMap"@, "<init>"@, "()V"@, false, Some(Native::Util(UtilNative::HashMapInit)))),
            ("java.util.HashMap"@, method_view("java.util.HashMap"@, "size"@, "()I"@, false, Some(Native::Util(UtilNative::HashMapSize)))),
            ("java.util.HashMap"@, method_view("java.util.HashMap"@, "put"@, "(Ljava/lang/Object;Ljava/lang/Object;)Ljava/lang/Object;"@, false, Some(Native::Util(UtilNative::HashMapPut)))),
            ("java.util.HashMap"@, method_view("java.util.HashMap"@, "get"@, "(Ljava/lang/Object;)Ljava/lang/Object;"@, false, Some(Native::Util(UtilNative::HashMapGet)))),
            ("java.util.HashMap"@, method_view("java.util.HashMap"@, "containsKey"@, "(Ljava/lang/Object;)Z"@, false, Some(Native::Util(UtilNative::HashMapContainsKey)))),
            ("java.util.HashMap"@, method_view("java.util.HashMap"@, "isEmpty"@, "()Z"@, false, Some(Native::Util(UtilNative::HashMapIsEmpty)))),
            ("java.util.HashMap"@, method_view("java.util.HashMap"@, "keySet"@, "()Ljava/util/Set;"@, false, Some(Native::Util(UtilNative::HashMapKeySet)))),
            ("java.util.HashMap"@, method_view("java.util.HashMap"@, "values"@, "()Ljava/util/Collection;"@, false, Some(Native::Util(UtilNative::HashMapValues)))),
            ("java.util.HashMap"@, method_view("java.util.HashMap"@, "entrySet"@, "()Ljava/util/Set;"@, false, Some(Native::Util(UtilNative::HashMapEntrySet)))),
            ("java.util.HashMap"@, method_view("java.util.HashMap"@, "clear"@, "()V"@, false, Some(Native::Util(UtilNative::HashMapClear)))),
            ("java.util.HashMap"@, method_view("java.util.HashMap"@, "computeIfAbsent"@, "(Ljava/lang/Object;Ljava/util/function/Function;)Ljava/lang/Object;"@, false, Some(Native::Util(UtilNative::HashMapComputeIfAbsent)))),
            ("java.util.HashMap"@, method_view("java.util.HashMap"@, "merge"@, "(Ljava/lang/Object;Ljava/lang/Object;Ljava/util/function/BiFunction;)Ljava/lang/Object;"@, false, Some(Native::Util(UtilNative::HashMapMerge)))),
            ("java.util.HashMap"@, method_view("java.util.HashMap"@, "forEach"@, "(Ljava/util/function/BiConsumer;)V"@, false, Some(Native::Util(UtilNative::HashMapForEach)))),
            ("java.util.HashMap"@, method_view("java.util.HashMap"@, "getOrDefault"@, "(Ljava/lang/Object;Ljava/lang/Object;)Ljava/lang/Object;"@, false, Some(Native::Util(UtilNative::HashMapGetOrDefault)))),
            ("java.util.HashMap"@, method_view("java.util.HashMap"@, "putIfAbsent"@, "(Ljava/lang/Object;Ljava/lang/Object;)Ljava/lang/Object;"@, false, Some(Native::Util(UtilNative::HashMapPutIfAbsent)))),
            ("java.util.HashMap"@, method_view("java.util.HashMap"@, "replace"@, "(Ljava/lang/Object;Ljava/lang/Object;)Ljava/lang/Object;"@, false, Some(Native::Util(UtilNative::HashMapReplace)))),
        ]
    }

    pub fn register(jvm: &mut Jvm)
        ensures
            only_methods_added(*old(jvm), *final(jvm), Self::registered()),
    {
        jvm.method_area.add_native_method("java.util.HashMap", HashMap::init());
        jvm.method_area.add_native_method("java.util.HashMap", HashMap::init_capacity());
        jvm.method_area.add_native_method("java.util.HashMap", HashMap::size());
        jvm.method_area.add_native_method("java.util.HashMap", HashMap::put());
        jvm.method_area.add_native_method("java.util.HashMap", HashMap::get());
        jvm.method_area.add_native_method("java.util.HashMap", HashMap::containsKey());
        jvm.method_area.add_native_method("java.util.HashMap", HashMap::isEmpty());
        jvm.method_area.add_native_method("java.util.HashMap", HashMap::keySet());
        jvm.method_area.add_native_method("java.util.HashMap", HashMap::values());
        jvm.method_area.add_native_method("java.util.HashMap", HashMap::entrySet());
        jvm.method_area.add_native_method("java.util.HashMap", HashMap::clear());
        jvm.method_area.add_native_method("java.util.HashMap", HashMap::computeIfAbsent());
        jvm.method_area.add_native_method("java.util.HashMap", HashMap::merge());
        jvm.method_area.add_native_method("java.util.HashMap", HashMap::forEach());
        jvm.method_area.add_native_method("java.util.HashMap", HashMap::getOrDefault());
        jvm.method_area.add_native_method("java.util.HashMap", HashMap::putIfAbsent());
        jvm.method_area.add_native_method("java.util.HashMap", HashMap::replace());
        assert(jvm.method_area@ =~= old(jvm).method_area@ + Self::registered());
    }
}

pub struct HashSet;

impl HashSet {
    /// The method `java.util.HashSet.<init>()V`.
    pub fn init() -> (m: Method)
        ensures
            m@ == method_view("java.util.HashSet"@, "<init>"@, "()V"@, false, Some(Native::Util(UtilNative::HashSetInit))),
    {
        Method::new_native("java.util.HashSet", "<init>", "()V", false, Some(Native::Util(UtilNative::HashSetInit)))
    }

    /// The method `java.util.HashSet.add(Ljava/lang/Object;)Z`.
    pub fn add() -> (m: Method)
        ensures
            m@ == method_view("java.util.HashSet"@, "add"@, "(Ljava/lang/Object;)Z"@, false, Some(Native::Util(UtilNative::HashSetAdd))),
    {
        Method::new_native("java.util.HashSet", "add", "(Ljava/lang/Object;)Z", false, Some(Native::Util(UtilNative::HashSetAdd)))
    }

    /// The method `java.util.HashSet.size()I`.
    pub fn size() -> (m: Method)
        ensures
            m@ == method_view("java.util.HashSet"@, "size"@, "()I"@, false, Some(Native::Util(UtilNative::HashSetSize))),
    {
        Method::new_native("java.util.HashSet", "size", "()I", false, Some(Native::Util(UtilNative::HashSetSize)))
    }

    /// The method `java.util.HashSet.isEmpty()Z`.
    pub fn isEmpty() -> (m: Method)
        ensures
            m@ == method_view("java.util.HashSet"@, "isEmpty"@, "()Z"@, false, Some(Native::Util(UtilNative::HashSetIsEmpty))),
    {
        Method::new_native("java.util.HashSet", "isEmpty", "()Z", false, Some(Native::Util(UtilNative::HashSetIsEmpty)))
    }

    /// The method `java.util.HashSet.contains(Ljava/lang/Object;)Z`.
    pub fn contains() -> (m: Method)
        ensures
            m@ == method_view("java.util.HashSet"@, "contains"@, "(Ljava/lang/Object;)Z"@, false, Some(Native::Util(UtilNative::HashSetContains))),
    {
        Method::new_native("java.util.HashSet", "contains", "(Ljava/lang/Object;)Z", false, Some(Native::Util(UtilNative::HashSetContains)))
    }

    /// What `register` adds to the method area, in order.
    pub open spec fn registered() -> Seq<(Seq<char>, MethodView)> {
        seq![
            ("java.util.HashSet"@, method_view("java.util.HashSet"@, "<init>"@, "()V"@, false, Some(Native::Util(UtilNative::HashSetInit)))),
            ("java.util.HashSet"@, method_view("java.util.HashSet"@, "add"@, "(Ljava/lang/Object;)Z"@, false, Some(Native::Util(UtilNative::HashSetAdd)))),
            ("java.util.HashSet"@, method_view("java.util.HashSet"@, "size"@, "()I"@, false, Some(Native::Util(UtilNative::HashSetSize)))),
            ("java.util.HashSet"@, method_view("java.util.HashSet"@, "isEmpty"@, "()Z"@, false, Some(Native::Util(UtilNative::HashSetIsEmpty)))),
            ("java.util.HashSet"@, method_view("java.util.HashSet"@, "contains"@, "(Ljava/lang/Object;)Z"@, false, Some(Native::Util(UtilNative::HashSetContains)))),
        ]
    }

    pub fn register(jvm: &mut Jvm)
        ensures
            only_methods_added(*old(jvm), *final(jvm), Self::registered()),
    {
        jvm.method_area.add_native_method("java.util.HashSet", HashSet::init());
        jvm.method_area.add_native_method("java.util.HashSet", HashSet::add());
        jvm.method_area.add_native_method("java.util.HashSet", HashSet::size());
        jvm.method_area.add_native_method("java.util.HashSet", HashSet::isEmpty());
        jvm.method_area.add_native_method("java.util.HashSet", HashSet::contains());
        assert(jvm.method_area@ =~= old(jvm).method_area@ + Self::registered());
    }
}

pub struct Arrays;

impl Arrays {
    /// The method `java.util.Arrays.asList([Ljava/lang/Object;)Ljava/util/List;`.
    pub fn asList() -> (m: Method)
        ensures
            m@ == method_view("java.util.Arrays"@, "asList"@, "([Ljava/lang/Object;)Ljava/util/List;"@, true, Some(Native::Util(UtilNative::ArraysAsList))),
    {
        Method::new_native("java.util.Arrays", "asList", "([Ljava/lang/Object;)Ljava/util/List;", true, Some(Native::Util(UtilNative::ArraysAsList)))
    }

    /// The method `java.util.Arrays.toString([Ljava/lang/Object;)Ljava/lang/String;`.
    pub fn toString() -> (m: Method)
        ensures
            m@ == method_view("java.util.Arrays"@, "toString"@, "([Ljava/lang/Object;)Ljava/lang/String;"@, true, Some(Native::Util(UtilNative::ArraysToString))),
    {
        Method::new_native("java.util.Arrays", "toString", "([Ljava/lang/Object;)Ljava/lang/String;", true, Some(Native::Util(UtilNative::ArraysToString)))
    }

    /// The method `java.util.Arrays.sort([Ljava/lang/Object;)V`.
    pub fn sort() -> (m: Method)
        ensures
            m@ == method_view("java.util.Arrays"@, "sort"@, "([Ljava/lang/Object;)V"@, true, Some(Native::Util(UtilNative::ArraysSort))),
    {
        Method::new_native("java.util.Arrays", "sort", "([Ljava/lang/Object;)V", true, Some(Native::Util(UtilNative::ArraysSort)))
    }

    /// The method `java.util.Arrays.binarySearch([Ljava/lang/Object;Ljava/lang/Object;)I`.
    pub fn binarySearch() -> (m: Method)
        ensures
            m@ == method_view("java.util.Arrays"@, "binarySearch"@, "([Ljava/lang/Object;Ljava/lang/Object;)I"@, true, Some(Native::Util(UtilNative::ArraysBinarySearch))),
    {
        Method::new_native("java.util.Arrays", "binarySearch", "([Ljava/lang/Object;Ljava/lang/Object;)I", true, Some(Native::Util(UtilNative::ArraysBinarySearch)))
    }

    /// The method `java.util.Arrays.copyOf([JI)[J`.
    pub fn copyOf() -> (m: Method)
        ensures
            m@ == method_view("java.util.Arrays"@, "copyOf"@, "([JI)[J"@, true, Some(Native::Util(UtilNative::ArraysCopyOf))),
    {
        Method::new_native("java.util.Arrays", "copyOf", "([JI)[J", true, Some(Native::Util(UtilNative::ArraysCopyOf)))
    }

    /// The method `java.util.Arrays.fill([IJ)V`.
    pub fn fill() -> (m: Method)
        ensures
            m@ == method_view("java.util.Arrays"@, "fill"@, "([IJ)V"@, true, Some(Native::Util(UtilNative::ArraysFill))),
    {
        Method::new_native("java.util.Arrays", "fill", "([IJ)V", true, Some(Native::Util(UtilNative::ArraysFill)))
    }

    /// What `register` adds to the method area, in order.
    pub open spec fn registered() -> Seq<(Seq<char>, MethodView)> {
        seq![
            ("java.util.Arrays"@, method_view("java.util.Arrays"@, "asList"@, "([Ljava/lang/Object;)Ljava/util/List;"@, true, Some(Native::Util(UtilNative::ArraysAsList)))),
            ("java.util.Arrays"@, method_view("java.util.Arrays"@, "toString"@, "([Ljava/lang/Object;)Ljava/lang/String;"@, true, Some(Native::Util(UtilNative::ArraysToString)))),
            ("java.util.Arrays"@, method_view("java.util.Arrays"@, "sort"@, "([Ljava/lang/Object;)V"@, true, Some(Native::Util(UtilNative::ArraysSort)))),
            ("java.util.Arrays"@, method_view("java.util.Arrays"@, "binarySearch"@, "([Ljava/lang/Object;Ljava/lang/Object;)I"@, true, Some(Native::Util(UtilNative::ArraysBinarySearch)))),
            ("java.util.Arrays"@, method_view("java.util.Arrays"@, "copyOf"@, "([JI)[J"@, true, Some(Native::Util(UtilNative::ArraysCopyOf)))),
            ("java.util.Arrays"@, method_view("java.util.Arrays"@, "fill"@, "([IJ)V"@, true, Some(Native::Util(UtilNative::ArraysFill)))),
        ]
    }

    pub fn register(jvm: &mut Jvm)
        ensures
            only_methods_added(*old(jvm), *final(jvm), Self::registered()),
    {
        jvm.method_area.add_native_method("java.util.Arrays", Arrays::asList());
        jvm.method_area.add_native_method("java.util.Arrays", Arrays::toString());
        jvm.method_area.add_native_method("java.util.Arrays", Arrays::sort());
        jvm.method_area.add_native_method("java.util.Arrays", Arrays::binarySearch());
        jvm.method_area.add_native_method("java.util.Arrays", Arrays::copyOf());
        jvm.method_area.add_native_method("java.util.Arrays", Arrays::fill());
        assert(jvm.method_area@ =~= old(jvm).method_area@ + Self::registered());
    }
}

pub struct Collections;

impl Collections {
    /// The method `java.util.Collections.singletonList(Ljava/lang/Object;)Ljava/util/List;`.
    pub fn singletonList() -> (m: Method)
        ensures
            m@ == method_view("java.util.Collections"@, "singletonList"@, "(Ljava/lang/Object;)Ljava/util/List;"@, true, Some(Native::Util(UtilNative::CollectionsSingletonList))),
    {
        Method::new_native("java.util.Collections", "singletonList", "(Ljava/lang/Object;)Ljava/util/List;", true, Some(Native::Util(UtilNative::CollectionsSingletonList)))
    }

    /// The method `java.util.Collections.emptyList()Ljava/util/List;`.
    pub fn emptyList() -> (m: Method)
        ensures
            m@ == method_view("java.util.Collections"@, "emptyList"@, "()Ljava/util/List;"@, true, Some(Native::Util(UtilNative::CollectionsEmptyList))),
    {
        Method::new_native("java.util.Collections", "emptyList", "()Ljava/util/List;", true, Some(Native::Util(UtilNative::CollectionsEmptyList)))
    }

    /// The method `java.util.Collections.sort(Ljava/util/List;)V`.
    pub fn sort() -> (m: Method)
        ensures
            m@ == method_view("java.util.Collections"@, "sort"@, "(Ljava/util/List;)V"@, true, Some(Native::Util(UtilNative::CollectionsSort))),
    {
        Method::new_native("java.util.Collections", "sort", "(Ljava/util/List;)V", true, Some(Native::Util(UtilNative::CollectionsSort)))
    }

    /// The method `java.util.Collections.sort(Ljava/util/List;Ljava/util/Comparator;)V`.
    pub fn sort_with_comparator() -> (m: Method)
        ensures
            m@ == method_view("java.util.Collections"@, "sort"@, "(Ljava/util/List;Ljava/util/Comparator;)V"@, true, Some(Native::Util(UtilNative::CollectionsSortWithComparator))),
    {
        Method::new_native("java.util.Collections", "sort", "(Ljava/util/List;Ljava/util/Comparator;)V", true, Some(Native::Util(UtilNative::CollectionsSortWithComparator)))
    }

    /// The method `java.util.Collections.disjoint(Ljava/util/Collection;Ljava/util/Collection;)Z`.
    pub fn disjoint() -> (m: Method)
        ensures
            m@ == method_view("java.util.Collections"@, "disjoint"@, "(Ljava/util/Collection;Ljava/util/Collection;)Z"@, true, Some(Native::Util(UtilNative::CollectionsDisjoint))),
    {
        Method::new_native("java.util.Collections", "disjoint", "(Ljava/util/Collection;Ljava/util/Collection;)Z", true, Some(Native::Util(UtilNative::CollectionsDisjoint)))
    }

    /// The method `java.util.Collections.replaceAll(Ljava/util/List;Ljava/lang/Object;Ljava/lang/Object;)Z`.
    pub fn replaceAll() -> (m: Method)
        ensures
            m@ == method_view("java.util.Collections"@, "replaceAll"@, "(Ljava/util/List;Ljava/lang/Object;Ljava/lang/Object;)Z"@, true, Some(Native::Util(UtilNative::CollectionsReplaceAll))),
    {
        Method::new_native("java.util.Collections", "replaceAll", "(Ljava/util/List;Ljava/lang/Object;Ljava/lang/Object;)Z", true, Some(Native::Util(UtilNative::CollectionsReplaceAll)))
    }

    /// The method `java.util.Collections.reverse(Ljava/util/List;)V`.
    pub fn reverse() -> (m: Method)
        ensures
            m@ == method_view("java.util.Collections"@, "reverse"@, "(Ljava/util/List;)V"@, true, Some(Native::Util(UtilNative::CollectionsReverse))),
    {
        Method::new_native("java.util.Collections", "reverse", "(Ljava/util/List;)V", true, Some(Native::Util(UtilNative::CollectionsReverse)))
    }

    /// The method `java.util.Collections.shuffle(Ljava/util/List;)V`.
    pub fn shuffle() -> (m: Method)
        ensures
            m@ == method_view("java.util.Collections"@, "shuffle"@, "(Ljava/util/List;)V"@, true, Some(Native::Util(UtilNative::CollectionsShuffle))),
    {
        Method::new_native("java.util.Collections", "shuffle", "(Ljava/util/List;)V", true, Some(Native::Util(UtilNative::CollectionsShuffle)))
    }

    /// The method `java.util.Collections.fill(Ljava/util/List;Ljava/lang/Object;)V`.
    pub fn fill() -> (m: Method)
        ensures
            m@ == method_view("java.util.Collections"@, "fill"@, "(Ljava/util/List;Ljava/lang/Object;)V"@, true, Some(Native::Util(UtilNative::CollectionsFill))),
    {
        Method::new_native("java.util.Collections", "fill", "(Ljava/util/List;Ljava/lang/Object;)V", true, Some(Native::Util(UtilNative::CollectionsFill)))
    }

    /// The method `java.util.Collections.frequency(Ljava/util/Collection;Ljava/lang/Object;)I`.
    pub fn frequency() -> (m: Method)
        ensures
            m@ == method_view("java.util.Collections"@, "frequency"@, "(Ljava/util/Collection;Ljava/lang/Object;)I"@, true, Some(Native::Util(UtilNative::CollectionsFrequency))),
    {
        Method::new_native("java.util.Collections", "frequency", "(Ljava/util/Collection;Ljava/lang/Object;)I", true, Some(Native::Util(UtilNative::CollectionsFrequency)))
    }

    /// The method `java.util.Collections.max(Ljava/util/Collection;)Ljava/lang/Object;`.
    pub fn max() -> (m: Method)
        ensures
            m@ == method_view("java.util.Collections"@, "max"@, "(Ljava/util/Collection;)Ljava/lang/Object;"@, true, Some(Native::Util(UtilNative::CollectionsMax))),
    {
        Method::new_native("java.util.Collections", "max", "(Ljava/util/Collection;)Ljava/lang/Object;", true, Some(Native::Util(UtilNative::CollectionsMax)))
    }

    /// The method `java.util.Collections.min(Ljava/util/Collection;)Ljava/lang/Object;`.
    pub fn min() -> (m: Method)
        ensures
            m@ == method_view("java.util.Collections"@, "min"@, "(Ljava/util/Collection;)Ljava/lang/Object;"@, true, Some(Native::Util(UtilNative::CollectionsMin))),
    {
        Method::new_native("java.util.Collections", "min", "(Ljava/util/Collection;)Ljava/lang/Object;", true, Some(Native::Util(UtilNative::CollectionsMin)))
    }

    /// The method `java.util.Collections.nCopies(ILjava/lang/Object;)Ljava/util/List;`.
    pub fn nCopies() -> (m: Method)
        ensures
            m@ == method_view("java.util.Collections"@, "nCopies"@, "(ILjava/lang/Object;)Ljava/util/List;"@, true, Some(Native::Util(UtilNative::CollectionsNCopies))),
    {
        Method::new_native("java.util.Collections", "nCopies", "(ILjava/lang/Object;)Ljava/util/List;", true, Some(Native::Util(UtilNative::CollectionsNCopies)))
    }

    /// The method `java.util.Collections.singleton(Ljava/lang/Object;)Ljava/util/Set;`.
    pub fn singleton() -> (m: Method)
        ensures
            m@ == method_view("java.util.Collections"@, "singleton"@, "(Ljava/lang/Object;)Ljava/util/Set;"@, true, Some(Native::Util(UtilNative::CollectionsSingleton))),
    {
        Method::new_native("java.util.Collections", "singleton", "(Ljava/lang/Object;)Ljava/util/Set;", true, Some(Native::Util(UtilNative::CollectionsSingleton)))
    }

    /// The method `java.util.Collections.singletonMap(Ljava/lang/Object;Ljava/lang/Object;)Ljava/util/Map;`.
    pub fn singletonMap() -> (m: Method)
        ensures
            m@ == method_view("java.util.Collections"@, "singletonMap"@, "(Ljava/lang/Object;Ljava/lang/Object;)Ljava/util/Map;"@, true, Some(Native::Util(UtilNative::CollectionsSingletonMap))),
    {
        Method::new_native("java.util.Collections", "singletonMap", "(Ljava/lang/Object;Ljava/lang/Object;)Ljava/util/Map;", true, Some(Native::Util(UtilNative::CollectionsSingletonMap)))
    }

    /// The method `java.util.Collections.unmodifiableList(Ljava/util/List;)Ljava/util/List;`.
    pub fn unmodifiableList() -> (m: Method)
        ensures
            m@ == method_view("java.util.Collections"@, "unmodifiableList"@, "(Ljava/util/List;)Ljava/util/List;"@, true, Some(Native::Util(UtilNative::CollectionsUnmodifiableList))),
    {
        Method::new_native("java.util.Collections", "unmodifiableList", "(Ljava/util/List;)Ljava/util/List;", true, Some(Native::Util(UtilNative::CollectionsUnmodifiableList)))
    }

    /// The method `java.util.Collections.unmodifiableMap(Ljava/util/Map;)Ljava/util/Map;`.
    pub fn unmodifiableMap() -> (m: Method)
        ensures
            m@ == method_view("java.util.Collections"@, "unmodifiableMap"@, "(Ljava/util/Map;)Ljava/util/Map;"@, true, Some(Native::Util(UtilNative::CollectionsUnmodifiableMap))),
    {
        Method::new_native("java.util.Collections", "unmodifiableMap", "(Ljava/util/Map;)Ljava/util/Map;", true, Some(Native::Util(UtilNative::CollectionsUnmodifiableMap)))
    }

    /// The method `java.util.Collections.unmodifiableSet(Ljava/util/Set;)Ljava/util/Set;`.
    pub fn unmodifiableSet() -> (m: Method)
        ensures
            m@ == method_view("java.util.Collections"@, "unmodifiableSet"@, "(Ljava/util/Set;)Ljava/util/Set;"@, true, Some(Native::Util(UtilNative::CollectionsUnmodifiableSet))),
    {
        Method::new_native("java.util.Collections", "unmodifiableSet", "(Ljava/util/Set;)Ljava/util/Set;", true, Some(Native::Util(UtilNative::CollectionsUnmodifiableSet)))
    }

    /// The method `java.util.Collections.checkedList(Ljava/util/List;Ljava/lang/Class;)Ljava/util/List;`.
    pub fn checkedList() -> (m: Method)
        ensures
            m@ == method_view("java.util.Collections"@, "checkedList"@, "(Ljava/util/List;Ljava/lang/Class;)Ljava/util/List;"@, true, Some(Native::Util(UtilNative::CollectionsCheckedList))),
    {
        Method::new_native("java.util.Collections", "checkedList", "(Ljava/util/List;Ljava/lang/Class;)Ljava/util/List;", true, Some(Native::Util(UtilNative::CollectionsCheckedList)))
    }

    /// The method `java.util.Collections.checkedMap(Ljava/util/Map;Ljava/lang/Class;Ljava/lang/Class;)Ljava/util/Map;`.
    pub fn checkedMap() -> (m: Method)
        ensures
            m@ == method_view("java.util.Collections"@, "checkedMap"@, "(Ljava/util/Map;Ljava/lang/Class;Ljava/lang/Class;)Ljava/util/Map;"@, true, Some(Native::Util(UtilNative::CollectionsCheckedMap))),
    {
        Method::new_native("java.util.Collections", "checkedMap", "(Ljava/util/Map;Ljava/lang/Class;Ljava/lang/Class;)Ljava/util/Map;", true, Some(Native::Util(UtilNative::CollectionsCheckedMap)))
    }

    /// The method `java.util.Collections.checkedSet(Ljava/util/Set;Ljava/lang/Class;)Ljava/util/Set;`.
    pub fn checkedSet() -> (m: Method)
        ensures
            m@ == method_view("java.util.Collections"@, "checkedSet"@, "(Ljava/util/Set;Ljava/lang/Class;)Ljava/util/Set;"@, true, Some(Native::Util(UtilNative::CollectionsCheckedSet))),
    {
        Method::new_native("java.util.Collections", "checkedSet", "(Ljava/util/Set;Ljava/lang/Class;)Ljava/util/Set;", true, Some(Native::Util(UtilNative::CollectionsCheckedSet)))
    }

    /// The method `java.util.Collections.synchronizedList(Ljava/util/List;)Ljava/util/List;`.
    pub fn synchronizedList() -> (m: Method)
        ensures
            m@ == method_view("java.util.Collections"@, "synchronizedList"@, "(Ljava/util/List;)Ljava/util/List;"@, true, Some(Native::Util(UtilNative::CollectionsSynchronizedList))),
    {
        Method::new_native("java.util.Collections", "synchronizedList", "(Ljava/util/List;)Ljava/util/List;", true, Some(Native::Util(UtilNative::CollectionsSynchronizedList)))
    }

    /// The method `java.util.Collections.synchronizedMap(Ljava/util/Map;)Ljava/util/Map;`.
    pub fn synchronizedMap() -> (m: Method)
        ensures
            m@ == method_view("java.util.Collections"@, "synchronizedMap"@, "(Ljava/util/Map;)Ljava/util/Map;"@, true, Some(Native::Util(UtilNative::CollectionsSynchronizedMap))),
    {
        Method::new_native("java.util.Collections", "synchronizedMap", "(Ljava/util/Map;)Ljava/util/Map;", true, Some(Native::Util(UtilNative::CollectionsSynchronizedMap)))
    }

    /// The method `java.util.Collections.synchronizedSet(Ljava/util/Set;)Ljava/util/Set;`.
    pub fn synchronizedSet() -> (m: Method)
        ensures
            m@ == method_view("java.util.Collections"@, "synchronizedSet"@, "(Ljava/util/Set;)Ljava/util/Set;"@, true, Some(Native::Util(UtilNative::CollectionsSynchronizedSet))),
    {
        Method::new_native("java.util.Collections", "synchronizedSet", "(Ljava/util/Set;)Ljava/util/Set;", true, Some(Native::Util(UtilNative::CollectionsSynchronizedSet)))
    }

    /// The method `java.util.Collections.newSetFromMap(Ljava/util/Map;)Ljava/util/Set;`.
    pub fn newSetFromMap() -> (m: Method)
        ensures
            m@ == method_view("java.util.Collections"@, "newSetFromMap"@, "(Ljava/util/Map;)Ljava/util/Set;"@, true, Some(Native::Util(UtilNative::CollectionsNewSetFromMap))),
    {
        Method::new_native("java.util.Collections", "newSetFromMap", "(Ljava/util/Map;)Ljava/util/Set;", true, Some(Native::Util(UtilNative::CollectionsNewSetFromMap)))
    }

    /// The method `java.util.Collections.reverseOrder()Ljava/util/Comparator;`.
    pub fn reverseOrder() -> (m: Method)
        ensures
            m@ == method_view("java.util.Collections"@, "reverseOrder"@, "()Ljava/util/Comparator;"@, true, Some(Native::Util(UtilNative::CollectionsReverseOrder))),
    {
        Method::new_native("java.util.Collections", "reverseOrder", "()Ljava/util/Comparator;", true, Some(Native::Util(UtilNative::CollectionsReverseOrder)))
    }

    /// The method `java.util.Collections.list(Ljava/util/Enumeration;)Ljava/util/ArrayList;`.
    pub fn list() -> (m: Method)
        ensures
            m@ == method_view("java.util.Collections"@, "list"@, "(Ljava/util/Enumeration;)Ljava/util/ArrayList;"@, true, Some(Native::Util(UtilNative::CollectionsList))),
    {
        Method::new_native("java.util.Collections", "list", "(Ljava/util/Enumeration;)Ljava/util/ArrayList;", true, Some(Native::Util(UtilNative::CollectionsList)))
    }

    /// The method `java.util.Collections.enumeration(Ljava/util/Collection;)Ljava/util/Enumeration;`.
    pub fn enumeration() -> (m: Method)
        ensures
            m@ == method_view("java.util.Collections"@, "enumeration"@, "(Ljava/util/Collection;)Ljava/util/Enumeration;"@, true, Some(Native::Util(UtilNative::CollectionsEnumeration))),
    {
        Method::new_native("java.util.Collections", "enumeration", "(Ljava/util/Collection;)Ljava/util/Enumeration;", true, Some(Native::Util(UtilNative::CollectionsEnumeration)))
    }

    /// The method `java.util.Collections.emptyIterator()Ljava/util/Iterator;`.
    pub fn emptyIterator() -> (m: Method)
        ensures
            m@ == method_view("java.util.Collections"@, "emptyIterator"@, "()Ljava/util/Iterator;"@, true, None),
    {
        Method::new_native("java.util.Collections", "emptyIterator", "()Ljava/util/Iterator;", true, None)
    }

    /// The method `java.util.Collections.emptyListIterator()Ljava/util/ListIterator;`.
    pub fn emptyListIterator() -> (m: Method)
        ensures
            m@ == method_view("java.util.Collections"@, "emptyListIterator"@, "()Ljava/util/ListIterator;"@, true, None),
    {
        Method::new_native("java.util.Collections", "emptyListIterator", "()Ljava/util/ListIterator;", true, None)
    }

    /// The method `java.util.Collections.emptyEnumeration()Ljava/util/Enumeration;`.
    pub fn emptyEnumeration() -> (m: Method)
        ensures
            m@ == method_view("java.util.Collections"@, "emptyEnumeration"@, "()Ljava/util/Enumeration;"@, true, None),
    {
        Method::new_native("java.util.Collections", "emptyEnumeration", "()Ljava/util/Enumeration;", true, None)
    }

    /// The method `java.util.Collections.addAll(Ljava/util/Collection;[Ljava/lang/Object;)Z`.
    pub fn addAll() -> (m: Method)
        ensures
            m@ == method_view("java.util.Collections"@, "addAll"@, "(Ljava/util/Collection;[Ljava/lang/Object;)Z"@, true, Some(Native::Util(UtilNative::CollectionsAddAll))),
    {
        Method::new_native("java.util.Collections", "addAll", "(Ljava/util/Collection;[Ljava/lang/Object;)Z", true, Some(Native::Util(UtilNative::CollectionsAddAll)))
    }

    /// The method `java.util.Collections.indexOfSubList(Ljava/util/List;Ljava/util/List;)I`.
    pub fn indexOfSubList() -> (m: Method)
        ensures
            m@ == method_view("java.util.Collections"@, "indexOfSubList"@, "(Ljava/util/List;Ljava/util/List;)I"@, true, Some(Native::Util(UtilNative::CollectionsIndexOfSubList))),
    {
        Method::new_native("java.util.Collections", "indexOfSubList", "(Ljava/util/List;Ljava/util/List;)I", true, Some(Native::Util(UtilNative::CollectionsIndexOfSubList)))
    }

    /// The method `java.util.Collections.lastIndexOfSubList(Ljava/util/List;Ljava/util/List;)I`.
    pub fn lastIndexOfSubList() -> (m: Method)
        ensures
            m@ == method_view("java.util.Collections"@, "lastIndexOfSubList"@, "(Ljava/util/List;Ljava/util/List;)I"@, true, Some(Native::Util(UtilNative::CollectionsLastIndexOfSubList))),
    {
        Method::new_native("java.util.Collections", "lastIndexOfSubList", "(Ljava/util/List;Ljava/util/List;)I", true, Some(Native::Util(UtilNative::CollectionsLastIndexOfSubList)))
    }

    /// The method `java.util.Collections.rotate(Ljava/util/List;I)V`.
    pub fn rotate() -> (m: Method)
        ensures
            m@ == method_view("java.util.Collections"@, "rotate"@, "(Ljava/util/List;I)V"@, true, Some(Native::Util(UtilNative::CollectionsRotate))),
    {
        Method::new_native("java.util.Collections", "rotate", "(Ljava/util/List;I)V", true, Some(Native::Util(UtilNative::CollectionsRotate)))
    }

    /// The method `java.util.Collections.swap(Ljava/util/List;II)V`.
    pub fn swap() -> (m: Method)
        ensures
            m@ == method_view("java.util.Collections"@, "swap"@, "(Ljava/util/List;II)V"@, true, Some(Native::Util(UtilNative::CollectionsSwap))),
    {
        Method::new_native("java.util.Collections", "swap", "(Ljava/util/List;II)V", true, Some(Native::Util(UtilNative::CollectionsSwap)))
    }

    /// The method `java.util.Collections.asLifoQueue(Ljava/util/Deque;)Ljava/util/Queue;`.
    pub fn asLifoQueue() -> (m: Method)
        ensures
            m@ == method_view("java.util.Collections"@, "asLifoQueue"@, "(Ljava/util/Deque;)Ljava/util/Queue;"@, true, Some(Native::Util(UtilNative::CollectionsAsLifoQueue))),
    {
        Method::new_native("java.util.Collections", "asLifoQueue", "(Ljava/util/Deque;)Ljava/util/Queue;", true, Some(Native::Util(UtilNative::CollectionsAsLifoQueue)))
    }

    /// The method `java.util.Collections.copy(Ljava/util/List;Ljava/util/List;)V`.
    pub fn copy() -> (m: Method)
        ensures
            m@ == method_view("java.util.Collections"@, "copy"@, "(Ljava/util/List;Ljava/util/List;)V"@, true, Some(Native::Util(UtilNative::CollectionsCopy))),
    {
        Method::new_native("java.util.Collections", "copy", "(Ljava/util/List;Ljava/util/List;)V", true, Some(Native::Util(UtilNative::CollectionsCopy)))
    }

    /// What `register` adds to the method area, in order.
    pub open spec fn registered() -> Seq<(Seq<char>, MethodView)> {
        seq![
            ("java.util.Collections"@, method_view("java.util.Collections"@, "singletonList"@, "(Ljava/lang/Object;)Ljava/util/List;"@, true, Some(Native::Util(UtilNative::CollectionsSingletonList)))),
            ("java.util.Collections"@, method_view("java.util.Collections"@, "emptyList"@, "()Ljava/util/List;"@, true, Some(Native::Util(UtilNative::CollectionsEmptyList)))),
            ("java.util.Collections"@, method_view("java.util.Collections"@, "sort"@, "(Ljava/util/List;)V"@, true, Some(Native::Util(UtilNative::CollectionsSort)))),
            ("java.util.Collections"@, method_view("java.util.Collections"@, "sort"@, "(Ljava/util/List;Ljava/util/Comparator;)V"@, true, Some(Native::Util(UtilNative::CollectionsSortWithComparator)))),
            ("java.util.Collections"@, method_view("java.util.Collections"@, "reverse"@, "(Ljava/util/List;)V"@, true, Some(Native::Util(UtilNative::CollectionsReverse)))),
            ("java.util.Collections"@, method_view("java.util.Collections"@, "shuffle"@, "(Ljava/util/List;)V"@, true, Some(Native::Util(UtilNative::CollectionsShuffle)))),
            ("java.util.Collections"@, method_view("java.util.Collections"@, "fill"@, "(Ljava/util/List;Ljava/lang/Object;)V"@, true, Some(Native::Util(UtilNative::CollectionsFill)))),
            ("java.util.Collections"@, method_view("java.util.Collections"@, "frequency"@, "(Ljava/util/Collection;Ljava/lang/Object;)I"@, true, Some(Native::Util(UtilNative::CollectionsFrequency)))),
            ("java.util.Collections"@, method_view("java.util.Collections"@, "max"@, "(Ljava/util/Collection;)Ljava/lang/Object;"@, true, Some(Native::Util(UtilNative::CollectionsMax)))),
            ("java.util.Collections"@, method_view("java.util.Collections"@, "min"@, "(Ljava/util/Collection;)Ljava/lang/Object;"@, true, Some(Native::Util(UtilNative::CollectionsMin)))),
            ("java.util.Collections"@, method_view("java.util.Collections"@, "disjoint"@, "(Ljava/util/Collection;Ljava/util/Collection;)Z"@, true, Some(Native::Util(UtilNative::CollectionsDisjoint)))),
            ("java.util.Collections"@, method_view("java.util.Collections"@, "replaceAll"@, "(Ljava/util/List;Ljava/lang/Object;Ljava/lang/Object;)Z"@, true, Some(Native::Util(UtilNative::CollectionsReplaceAll)))),
            ("java.util.Collections"@, method_view("java.util.Collections"@, "nCopies"@, "(ILjava/lang/Object;)Ljava/util/List;"@, true, Some(Native::Util(UtilNative::CollectionsNCopies)))),
            ("java.util.Collections"@, method_view("java.util.Collections"@, "singleton"@, "(Ljava/lang/Object;)Ljava/util/Set;"@, true, Some(Native::Util(UtilNative::CollectionsSingleton)))),
            ("java.util.Collections"@, method_view("java.util.Collections"@, "singletonMap"@, "(Ljava/lang/Object;Ljava/lang/Object;)Ljava/util/Map;"@, true, Some(Native::Util(UtilNative::CollectionsSingletonMap)))),
            ("java.util.Collections"@, method_view("java.util.Collections"@, "unmodifiableList"@, "(Ljava/util/List;)Ljava/util/List;"@, true, Some(Native::Util(UtilNative::CollectionsUnmodifiableList)))),
            ("java.util.Collections"@, method_view("java.util.Collections"@, "unmodifiableMap"@, "(Ljava/util/Map;)Ljava/util/Map;"@, true, Some(Native::Util(UtilNative::CollectionsUnmodifiableMap)))),
            ("java.util.Collections"@, method_view("java.util.Collections"@, "unmodifiableSet"@, "(Ljava/util/Set;)Ljava/util/Set;"@, true, Some(Native::Util(UtilNative::CollectionsUnmodifiableSet)))),
            ("java.util.Collections"@, method_view("java.util.Collections"@, "checkedList"@, "(Ljava/util/List;Ljava/lang/Class;)Ljava/util/List;"@, true, Some(Native::Util(UtilNative::CollectionsCheckedList)))),
            ("java.util.Collections"@, method_view("java.util.Collections"@, "checkedMap"@, "(Ljava/util/Map;Ljava/lang/Class;Ljava/lang/Class;)Ljava/util/Map;"@, true, Some(Native::Util(UtilNative::CollectionsCheckedMap)))),
            ("java.util.Collections"@, method_view("java.util.Collections"@, "checkedSet"@, "(Ljava/util/Set;Ljava/lang/Class;)Ljava/util/Set;"@, true, Some(Native::Util(UtilNative::CollectionsCheckedSet)))),
            ("java.util.Collections"@, method_view("java.util.Collections"@, "synchronizedList"@, "(Ljava/util/List;)Ljava/util/List;"@, true, Some(Native::Util(UtilNative::CollectionsSynchronizedList)))),
            ("java.util.Collections"@, method_view("java.util.Collections"@, "synchronizedMap"@, "(Ljava/util/Map;)Ljava/util/Map;"@, true, Some(Native::Util(UtilNative::CollectionsSynchronizedMap)))),
            ("java.util.Collections"@, method_view("java.util.Collections"@, "synchronizedSet"@, "(Ljava/util/Set;)Ljava/util/Set;"@, true, Some(Native::Util(UtilNative::CollectionsSynchronizedSet)))),
            ("java.util.Collections"@, method_view("java.util.Collections"@, "newSetFromMap"@, "(Ljava/util/Map;)Ljava/util/Set;"@, true, Some(Native::Util(UtilNative::CollectionsNewSetFromMap)))),
            ("java.util.Collections"@, method_view("java.util.Collections"@, "reverseOrder"@, "()Ljava/util/Comparator;"@, true, Some(Native::Util(UtilNative::CollectionsReverseOrder)))),
            ("java.util.Collections"@, method_view("java.util.Collections"@, "list"@, "(Ljava/util/Enumeration;)Ljava/util/ArrayList;"@, true, Some(Native::Util(UtilNative::CollectionsList)))),
            ("java.util.Collections"@, method_view("java.util.Collections"@, "enumeration"@, "(Ljava/util/Collection;)Ljava/util/Enumeration;"@, true, Some(Native::Util(UtilNative::CollectionsEnumeration)))),
            ("java.util.Collections"@, method_view("java.util.Collections"@, "emptyIterator"@, "()Ljava/util/Iterator;"@, true, None)),
            ("java.util.Collections"@, method_view("java.util.Collections"@, "emptyListIterator"@, "()Ljava/util/ListIterator;"@, true, None)),
            ("java.util.Collections"@, method_view("java.util.Collections"@, "emptyEnumeration"@, "()Ljava/util/Enumeration;"@, true, None)),
            ("java.util.Collections"@, method_view("java.util.Collections"@, "addAll"@, "(Ljava/util/Collection;[Ljava/lang/Object;)Z"@, true, Some(Native::Util(UtilNative::CollectionsAddAll)))),
            ("java.util.Collections"@, method_view("java.util.Collections"@, "indexOfSubList"@, "(Ljava/util/List;Ljava/util/List;)I"@, true, Some(Native::Util(UtilNative::CollectionsIndexOfSubList)))),
            ("java.util.Collections"@, method_view("java.util.Collections"@, "lastIndexOfSubList"@, "(Ljava/util/List;Ljava/util/List;)I"@, true, Some(Native::Util(UtilNative::CollectionsLastIndexOfSubList)))),
            ("java.util.Collections"@, method_view("java.util.Collections"@, "rotate"@, "(Ljava/util/List;I)V"@, true, Some(Native::Util(UtilNative::CollectionsRotate)))),
            ("java.util.Collections"@, method_view("java.util.Collections"@, "swap"@, "(Ljava/util/List;II)V"@, true, Some(Native::Util(UtilNative::CollectionsSwap)))),
            ("java.util.Collections"@, method_view("java.util.Collections"@, "asLifoQueue"@, "(Ljava/util/Deque;)Ljava/util/Queue;"@, true, Some(Native::Util(UtilNative::CollectionsAsLifoQueue)))),
            ("java.util.Collections"@, method_view("java.util.Collections"@, "copy"@, "(Ljava/util/List;Ljava/util/List;)V"@, true, Some(Native::Util(UtilNative::CollectionsCopy)))),
        ]
    }

    pub fn register(jvm: &mut Jvm)
        ensures
            only_methods_added(*old(jvm), *final(jvm), Self::registered()),
    {
        jvm.method_area.add_native_method("java.util.Collections", Collections::singletonList());
        jvm.method_area.add_native_method("java.util.Collections", Collections::emptyList());
        jvm.method_area.add_native_method("java.util.Collections", Collections::sort());
        jvm.method_area.add_native_method("java.util.Collections", Collections::sort_with_comparator());
        jvm.method_area.add_native_method("java.util.Collections", Collections::reverse());
        jvm.method_area.add_native_method("java.util.Collections", Collections::shuffle());
        jvm.method_area.add_native_method("java.util.Collections", Collections::fill());
        jvm.method_area.add_native_method("java.util.Collections", Collections::frequency());
        jvm.method_area.add_native_method("java.util.Collections", Collections::max());
        jvm.method_area.add_native_method("java.util.Collections", Collections::min());
        jvm.method_area.add_native_method("java.util.Collections", Collections::disjoint());
        jvm.method_area.add_native_method("java.util.Collections", Collections::replaceAll());
        jvm.method_area.add_native_method("java.util.Collections", Collections::nCopies());
        jvm.method_area.add_native_method("java.util.Collections", Collections::singleton());
        jvm.method_area.add_native_method("java.util.Collections", Collections::singletonMap());
        jvm.method_area.add_native_method("java.util.Collections", Collections::unmodifiableList());
        jvm.method_area.add_native_method("java.util.Collections", Collections::unmodifiableMap());
        jvm.method_area.add_native_method("java.util.Collections", Collections::unmodifiableSet());
        jvm.method_area.add_native_method("java.util.Collections", Collections::checkedList());
        jvm.method_area.add_native_method("java.util.Collections", Collections::checkedMap());
        jvm.method_area.add_native_method("java.util.Collections", Collections::checkedSet());
        jvm.method_area.add_native_method("java.util.Collections", Collections::synchronizedList());
        jvm.method_area.add_native_method("java.util.Collections", Collections::synchronizedMap());
        jvm.method_area.add_native_method("java.util.Collections", Collections::synchronizedSet());
        jvm.method_area.add_native_method("java.util.Collections", Collections::newSetFromMap());
        jvm.method_area.add_native_method("java.util.Collections", Collections::reverseOrder());
        jvm.method_area.add_native_method("java.util.Collections", Collections::list());
        jvm.method_area.add_native_method("java.util.Collections", Collections::enumeration());
        jvm.method_area.add_native_method("java.util.Collections", Collections::emptyIterator());
        jvm.method_area.add_native_method("java.util.Collections", Collections::emptyListIterator());
        jvm.method_area.add_native_method("java.util.Collections", Collections::emptyEnumeration());
        jvm.method_area.add_native_method("java.util.Collections", Collections::addAll());
        jvm.method_area.add_native_method("java.util.Collections", Collections::indexOfSubList());
        jvm.method_area.add_native_method("java.util.Collections", Collections::lastIndexOfSubList());
        jvm.method_area.add_native_method("java.util.Collections", Collections::rotate());
        jvm.method_area.add_native_method("java.util.Collections", Collections::swap());
        jvm.method_area.add_native_method("java.util.Collections", Collections::asLifoQueue());
        jvm.method_area.add_native_method("java.util.Collections", Collections::copy());
        assert(jvm.method_area@ =~= old(jvm).method_area@ + Self::registered());
    }
}

pub struct Iterator;

impl Iterator {
    /// The method `java.util.Iterator.hasNext()Z`.
    pub fn hasNext() -> (m: Method)
        ensures
            m@ == method_view("java.util.Iterator"@, "hasNext"@, "()Z"@, false, None),
    {
        Method::new_native("java.util.Iterator", "hasNext", "()Z", false, None)
    }

    /// The method `java.util.Iterator.next()Ljava/lang/Object;`.
    pub fn next() -> (m: Method)
        ensures
            m@ == method_view("java.util.Iterator"@, "next"@, "()Ljava/lang/Object;"@, false, None),
    {
        Method::new_native("java.util.Iterator", "next", "()Ljava/lang/Object;", false, None)
    }

    /// What `register` adds to the method area, in order.
    pub open spec fn registered() -> Seq<(Seq<char>, MethodView)> {
        seq![
            ("java.util.Iterator"@, method_view("java.util.Iterator"@, "hasNext"@, "()Z"@, false, None)),
            ("java.util.Iterator"@, method_view("java.util.Iterator"@, "next"@, "()Ljava/lang/Object;"@, false, None)),
        ]
    }

    pub fn register(jvm: &mut Jvm)
        ensures
            only_methods_added(*old(jvm), *final(jvm), Self::registered()),
    {
        jvm.method_area.add_native_method("java.util.Iterator", Iterator::hasNext());
        jvm.method_area.add_native_method("java.util.Iterator", Iterator::next());
        assert(jvm.method_area@ =~= old(jvm).method_area@ + Self::registered());
    }
}

pub struct Iterable;

impl Iterable {
    /// The method `java.lang.Iterable.iterator()Ljava/util/Iterator;`.
    pub fn iterator() -> (m: Method)
        ensures
            m@ == method_view("java.lang.Iterable"@, "iterator"@, "()Ljava/util/Iterator;"@, false, None),
    {
        Method::new_native("java.lang.Iterable", "iterator", "()Ljava/util/Iterator;", false, None)
    }

    /// What `register` adds to the method area, in order.
    pub open spec fn registered() -> Seq<(Seq<char>, MethodView)> {
        seq![
            ("java.lang.Iterable"@, method_view("java.lang.Iterable"@, "iterator"@, "()Ljava/util/Iterator;"@, false, None)),
        ]
    }

    pub fn register(jvm: &mut Jvm)
        ensures
            only_methods_added(*old(jvm), *final(jvm), Self::registered()),
    {
        jvm.method_area.add_native_method("java.lang.Iterable", Iterable::iterator());
        assert(jvm.method_area@ =~= old(jvm).method_area@ + Self::registered());
    }
}

pub struct Objects;

impl Objects {
    /// The method `java.util.Objects.equals(Ljava/lang/Object;Ljava/lang/Object;)Z`.
    pub fn equals() -> (m: Method)
        ensures
            m@ == method_view("java.util.Objects"@, "equals"@, "(Ljava/lang/Object;Ljava/lang/Object;)Z"@, true, Some(Native::Util(UtilNative::ObjectsEquals))),
    {
        Method::new_native("java.util.Objects", "equals", "(Ljava/lang/Object;Ljava/lang/Object;)Z", true, Some(Native::Util(UtilNative::ObjectsEquals)))
    }

    /// The method `java.util.Objects.hashCode(Ljava/lang/Object;)I`.
    pub fn hashCode() -> (m: Method)
        ensures
            m@ == method_view("java.util.Objects"@, "hashCode"@, "(Ljava/lang/Object;)I"@, true, Some(Native::Util(UtilNative::ObjectsHashCode))),
    {
        Method::new_native("java.util.Objects", "hashCode", "(Ljava/lang/Object;)I", true, Some(Native::Util(UtilNative::ObjectsHashCode)))
    }

    /// The method `java.util.Objects.toString(Ljava/lang/Object;)Ljava/lang/String;`.
    pub fn toString() -> (m: Method)
        ensures
            m@ == method_view("java.util.Objects"@, "toString"@, "(Ljava/lang/Object;)Ljava/lang/String;"@, true, Some(Native::Util(UtilNative::ObjectsToString))),
    {
        Method::new_native("java.util.Objects", "toString", "(Ljava/lang/Object;)Ljava/lang/String;", true, Some(Native::Util(UtilNative::ObjectsToString)))
    }

    /// The method `java.util.Objects.requireNonNull(Ljava/lang/Object;)Ljava/lang/Object;`.
    pub fn requireNonNull() -> (m: Method)
        ensures
            m@ == method_view("java.util.Objects"@, "requireNonNull"@, "(Ljava/lang/Object;)Ljava/lang/Object;"@, true, Some(Native::Util(UtilNative::ObjectsRequireNonNull))),
    {
        Method::new_native("java.util.Objects", "requireNonNull", "(Ljava/lang/Object;)Ljava/lang/Object;", true, Some(Native::Util(UtilNative::ObjectsRequireNonNull)))
    }

    /// The method `java.util.Objects.deepEquals(Ljava/lang/Object;Ljava/lang/Object;)Z`.
    pub fn deepEquals() -> (m: Method)
        ensures
            m@ == method_view("java.util.Objects"@, "deepEquals"@, "(Ljava/lang/Object;Ljava/lang/Object;)Z"@, true, Some(Native::Util(UtilNative::ObjectsDeepEquals))),
    {
        Method::new_native("java.util.Objects", "deepEquals", "(Ljava/lang/Object;Ljava/lang/Object;)Z", true, Some(Native::Util(UtilNative::ObjectsDeepEquals)))
    }

    /// The method `java.util.Objects.hash([Ljava/lang/Object;)I`.
    pub fn hash() -> (m: Method)
        ensures
            m@ == method_view("java.util.Objects"@, "hash"@, "([Ljava/lang/Object;)I"@, true, Some(Native::Util(UtilNative::ObjectsHash))),
    {
        Method::new_native("java.util.Objects", "hash", "([Ljava/lang/Object;)I", true, Some(Native::Util(UtilNative::ObjectsHash)))
    }

    /// The method `java.util.Objects.compare(Ljava/lang/Object;Ljava/lang/Object;Ljava/util/Comparator;)I`.
    pub fn compare() -> (m: Method)
        ensures
            m@ == method_view("java.util.Objects"@, "compare"@, "(Ljava/lang/Object;Ljava/lang/Object;Ljava/util/Comparator;)I"@, true, Some(Native::Util(UtilNative::ObjectsCompare))),
    {
        Method::new_native("java.util.Objects", "compare", "(Ljava/lang/Object;Ljava/lang/Object;Ljava/util/Comparator;)I", true, Some(Native::Util(UtilNative::ObjectsCompare)))
    }

    /// The method `java.util.Objects.isNull(Ljava/lang/Object;)Z`.
    pub fn isNull() -> (m: Method)
        ensures
            m@ == method_view("java.util.Objects"@, "isNull"@, "(Ljava/lang/Object;)Z"@, true, Some(Native::Util(UtilNative::ObjectsIsNull))),
    {
        Method::new_native("java.util.Objects", "isNull", "(Ljava/lang/Object;)Z", true, Some(Native::Util(UtilNative::ObjectsIsNull)))
    }

    /// The method `java.util.Objects.nonNull(Ljava/lang/Object;)Z`.
    pub fn nonNull() -> (m: Method)
        ensures
            m@ == method_view("java.util.Objects"@, "nonNull"@, "(Ljava/lang/Object;)Z"@, true, Some(Native::Util(UtilNative::ObjectsNonNull))),
    {
        Method::new_native("java.util.Objects", "nonNull", "(Ljava/lang/Object;)Z", true, Some(Native::Util(UtilNative::ObjectsNonNull)))
    }

    /// What `register` adds to the method area, in order.
    pub open spec fn registered() -> Seq<(Seq<char>, MethodView)> {
        seq![
            ("java.util.Objects"@, method_view("java.util.Objects"@, "equals"@, "(Ljava/lang/Object;Ljava/lang/Object;)Z"@, true, Some(Native::Util(UtilNative::ObjectsEquals)))),
            ("java.util.Objects"@, method_view("java.util.Objects"@, "deepEquals"@, "(Ljava/lang/Object;Ljava/lang/Object;)Z"@, true, Some(Native::Util(UtilNative::ObjectsDeepEquals)))),
            ("java.util.Objects"@, method_view("java.util.Objects"@, "hashCode"@, "(Ljava/lang/Object;)I"@, true, Some(Native::Util(UtilNative::ObjectsHashCode)))),
            ("java.util.Objects"@, method_view("java.util.Objects"@, "hash"@, "([Ljava/lang/Object;)I"@, true, Some(Native::Util(UtilNative::ObjectsHash)))),
            ("java.util.Objects"@, method_view("java.util.Objects"@, "toString"@, "(Ljava/lang/Object;)Ljava/lang/String;"@, true, Some(Native::Util(UtilNative::ObjectsToString)))),
            ("java.util.Objects"@, method_view("java.util.Objects"@, "requireNonNull"@, "(Ljava/lang/Object;)Ljava/lang/Object;"@, true, Some(Native::Util(UtilNative::ObjectsRequireNonNull)))),
            ("java.util.Objects"@, method_view("java.util.Objects"@, "compare"@, "(Ljava/lang/Object;Ljava/lang/Object;Ljava/util/Comparator;)I"@, true, Some(Native::Util(UtilNative::ObjectsCompare)))),
            ("java.util.Objects"@, method_view("java.util.Objects"@, "isNull"@, "(Ljava/lang/Object;)Z"@, true, Some(Native::Util(UtilNative::ObjectsIsNull)))),
            ("java.util.Objects"@, method_view("java.util.Objects"@, "nonNull"@, "(Ljava/lang/Object;)Z"@, true, Some(Native::Util(UtilNative::ObjectsNonNull)))),
        ]
    }

    pub fn register(jvm: &mut Jvm)
        ensures
            only_methods_added(*old(jvm), *final(jvm), Self::registered()),
    {
        jvm.method_area.add_native_method("java.util.Objects", Objects::equals());
        jvm.method_area.add_native_method("java.util.Objects", Objects::deepEquals());
        jvm.method_area.add_native_method("java.util.Objects", Objects::hashCode());
        jvm.method_area.add_native_method("java.util.Objects", Objects::hash());
        jvm.method_area.add_native_method("java.util.Objects", Objects::toString());
        jvm.method_area.add_native_method("java.util.Objects", Objects::requireNonNull());
        jvm.method_area.add_native_method("java.util.Objects", Objects::compare());
        jvm.method_area.add_native_method("java.util.Objects", Objects::isNull());
        jvm.method_area.add_native_method("java.util.Objects", Objects::nonNull());
        assert(jvm.method_area@ =~= old(jvm).method_area@ + Self::registered());
    }
}

pub struct Optional;

impl Optional {
    /// The method `java.util.Optional.empty()Ljava/util/Optional;`.
    pub fn empty() -> (m: Method)
        ensures
            m@ == method_view("java.util.Optional"@, "empty"@, "()Ljava/util/Optional;"@, true, Some(Native::Util(UtilNative::OptionalEmpty))),
    {
        Method::new_native("java.util.Optional", "empty", "()Ljava/util/Optional;", true, Some(Native::Util(UtilNative::OptionalEmpty)))
    }

    /// The method `java.util.Optional.of(Ljava/lang/Object;)Ljava/util/Optional;`.
    pub fn of() -> (m: Method)
        ensures
            m@ == method_view("java.util.Optional"@, "of"@, "(Ljava/lang/Object;)Ljava/util/Optional;"@, true, Some(Native::Util(UtilNative::OptionalOf))),
    {
        Method::new_native("java.util.Optional", "of", "(Ljava/lang/Object;)Ljava/util/Optional;", true, Some(Native::Util(UtilNative::OptionalOf)))
    }

    /// The method `java.util.Optional.isPresent()Z`.
    pub fn isPresent() -> (m: Method)
        ensures
            m@ == method_view("java.util.Optional"@, "isPresent"@, "()Z"@, false, Some(Native::Util(UtilNative::OptionalIsPresent))),
    {
        Method::new_native("java.util.Optional", "isPresent", "()Z", false, Some(Native::Util(UtilNative::OptionalIsPresent)))
    }

    /// The method `java.util.Optional.get()Ljava/lang/Object;`.
    pub fn get() -> (m: Method)
        ensures
            m@ == method_view("java.util.Optional"@, "get"@, "()Ljava/lang/Object;"@, false, Some(Native::Util(UtilNative::OptionalGet))),
    {
        Method::new_native("java.util.Optional", "get", "()Ljava/lang/Object;", false, Some(Native::Util(UtilNative::OptionalGet)))
    }

    /// The method `java.util.Optional.orElse(Ljava/lang/Object;)Ljava/lang/Object;`.
    pub fn orElse() -> (m: Method)
        ensures
            m@ == method_view("java.util.Optional"@, "orElse"@, "(Ljava/lang/Object;)Ljava/lang/Object;"@, false, Some(Native::Util(UtilNative::OptionalOrElse))),
    {
        Method::new_native("java.util.Optional", "orElse", "(Ljava/lang/Object;)Ljava/lang/Object;", false, Some(Native::Util(UtilNative::OptionalOrElse)))
    }

    /// What `register` adds to the method area, in order.
    pub open spec fn registered() -> Seq<(Seq<char>, MethodView)> {
        seq![
            ("java.util.Optional"@, method_view("java.util.Optional"@, "empty"@, "()Ljava/util/Optional;"@, true, Some(Native::Util(UtilNative::OptionalEmpty)))),
            ("java.util.Optional"@, method_view("java.util.Optional"@, "of"@, "(Ljava/lang/Object;)Ljava/util/Optional;"@, true, Some(Native::Util(UtilNative::OptionalOf)))),
            ("java.util.Optional"@, method_view("java.util.Optional"@, "isPresent"@, "()Z"@, false, Some(Native::Util(UtilNative::OptionalIsPresent)))),
            ("java.util.Optional"@, method_view("java.util.Optional"@, "get"@, "()Ljava/lang/Object;"@, false, Some(Native::Util(UtilNative::OptionalGet)))),
            ("java.util.Optional"@, method_view("java.util.Optional"@, "orElse"@, "(Ljava/lang/Object;)Ljava/lang/Object;"@, false, Some(Native::Util(UtilNative::OptionalOrElse)))),
        ]
    }

    pub fn register(jvm: &mut Jvm)
        ensures
            only_methods_added(*old(jvm), *final(jvm), Self::registered()),
    {
        jvm.method_area.add_native_method("java.util.Optional", Optional::empty());
        jvm.method_area.add_native_method("java.util.Optional", Optional::of());
        jvm.method_area.add_native_method("java.util.Optional", Optional::isPresent());
        jvm.method_area.add_native_method("java.util.Optional", Optional::get());
        jvm.method_area.add_native_method("java.util.Optional", Optional::orElse());
        assert(jvm.method_area@ =~= old(jvm).method_area@ + Self::registered());
    }
}

pub struct LinkedList;

impl LinkedList {
    /// The method `java.util.LinkedList.<init>()V`.
    pub fn init() -> (m: Method)
        ensures
            m@ == method_view("java.util.LinkedList"@, "<init>"@, "()V"@, false, Some(Native::Util(UtilNative::LinkedListInit))),
    {
        Method::new_native("java.util.LinkedList", "<init>", "()V", false, Some(Native::Util(UtilNative::LinkedListInit)))
    }

    /// The method `java.util.LinkedList.add(Ljava/lang/Object;)Z`.
    pub fn add() -> (m: Method)
        ensures
            m@ == method_view("java.util.LinkedList"@, "add"@, "(Ljava/lang/Object;)Z"@, false, Some(Native::Util(UtilNative::LinkedListAdd))),
    {
        Method::new_native("java.util.LinkedList", "add", "(Ljava/lang/Object;)Z", false, Some(Native::Util(UtilNative::LinkedListAdd)))
    }

    /// The method `java.util.LinkedList.addFirst(Ljava/lang/Object;)V`.
    pub fn addFirst() -> (m: Method)
        ensures
            m@ == method_view("java.util.LinkedList"@, "addFirst"@, "(Ljava/lang/Object;)V"@, false, Some(Native::Util(UtilNative::LinkedListAddFirst))),
    {
        Method::new_native("java.util.LinkedList", "addFirst", "(Ljava/lang/Object;)V", false, Some(Native::Util(UtilNative::LinkedListAddFirst)))
    }

    /// The method `java.util.LinkedList.get(I)Ljava/lang/Object;`.
    pub fn get() -> (m: Method)
        ensures
            m@ == method_view("java.util.LinkedList"@, "get"@, "(I)Ljava/lang/Object;"@, false, Some(Native::Util(UtilNative::LinkedListGet))),
    {
        Method::new_native("java.util.LinkedList", "get", "(I)Ljava/lang/Object;", false, Some(Native::Util(UtilNative::LinkedListGet)))
    }

    /// The method `java.util.LinkedList.getFirst()Ljava/lang/Object;`.
    pub fn getFirst() -> (m: Method)
        ensures
            m@ == method_view("java.util.LinkedList"@, "getFirst"@, "()Ljava/lang/Object;"@, false, Some(Native::Util(UtilNative::LinkedListGetFirst))),
    {
        Method::new_native("java.util.LinkedList", "getFirst", "()Ljava/lang/Object;", false, Some(Native::Util(UtilNative::LinkedListGetFirst)))
    }

    /// The method `java.util.LinkedList.getLast()Ljava/lang/Object;`.
    pub fn getLast() -> (m: Method)
        ensures
            m@ == method_view("java.util.LinkedList"@, "getLast"@, "()Ljava/lang/Object;"@, false, Some(Native::Util(UtilNative::LinkedListGetLast))),
    {
        Method::new_native("java.util.LinkedList", "getLast", "()Ljava/lang/Object;", false, Some(Native::Util(UtilNative::LinkedListGetLast)))
    }

    /// The method `java.util.LinkedList.size()I`.
    pub fn size() -> (m: Method)
        ensures
            m@ == method_view("java.util.LinkedList"@, "size"@, "()I"@, false, Some(Native::Util(UtilNative::LinkedListSize))),
    {
        Method::new_native("java.util.LinkedList", "size", "()I", false, Some(Native::Util(UtilNative::LinkedListSize)))
    }

    /// The method `java.util.LinkedList.isEmpty()Z`.
    pub fn isEmpty() -> (m: Method)
        ensures
            m@ == method_view("java.util.LinkedList"@, "isEmpty"@, "()Z"@, false, Some(Native::Util(UtilNative::LinkedListIsEmpty))),
    {
        Method::new_native("java.util.LinkedList", "isEmpty", "()Z", false, Some(Native::Util(UtilNative::LinkedListIsEmpty)))
    }

    /// The method `java.util.LinkedList.remove(I)Ljava/lang/Object;`.
    pub fn remove() -> (m: Method)
        ensures
            m@ == method_view("java.util.LinkedList"@, "remove"@, "(I)Ljava/lang/Object;"@, false, Some(Native::Util(UtilNative::LinkedListRemove))),
    {
        Method::new_native("java.util.LinkedList", "remove", "(I)Ljava/lang/Object;", false, Some(Native::Util(UtilNative::LinkedListRemove)))
    }

    // Same as add()
    pub fn addLast() -> (m: Method)
        ensures
            m@ == method_view("java.util.LinkedList"@, "add"@, "(Ljava/lang/Object;)Z"@, false, Some(Native::Util(UtilNative::LinkedListAdd))),
    {
        LinkedList::add()
    }

    /// The method `java.util.LinkedList.removeFirst()Ljava/lang/Object;`.
    pub fn removeFirst() -> (m: Method)
        ensures
            m@ == method_view("java.util.LinkedList"@, "removeFirst"@, "()Ljava/lang/Object;"@, false, Some(Native::Util(UtilNative::LinkedListRemoveFirst))),
    {
        Method::new_native("java.util.LinkedList", "removeFirst", "()Ljava/lang/Object;", false, Some(Native::Util(UtilNative::LinkedListRemoveFirst)))
    }

    /// The method `java.util.LinkedList.removeLast()Ljava/lang/Object;`.
    pub fn removeLast() -> (m: Method)
        ensures
            m@ == method_view("java.util.LinkedList"@, "removeLast"@, "()Ljava/lang/Object;"@, false, Some(Native::Util(UtilNative::LinkedListRemoveLast))),
    {
        Method::new_native("java.util.LinkedList", "removeLast", "()Ljava/lang/Object;", false, Some(Native::Util(UtilNative::LinkedListRemoveLast)))
    }

    /// What `register` adds to the method area, in order.
    pub open spec fn registered() -> Seq<(Seq<char>, MethodView)> {
        seq![
            ("java.util.LinkedList"@, method_view("java.util.LinkedList"@, "<init>"@, "()V"@, false, Some(Native::Util(UtilNative::LinkedListInit)))),
            ("java.util.LinkedList"@, method_view("java.util.LinkedList"@, "add"@, "(Ljava/lang/Object;)Z"@, false, Some(Native::Util(UtilNative::LinkedListAdd)))),
            ("java.util.LinkedList"@, method_view("java.util.LinkedList"@, "addFirst"@, "(Ljava/lang/Object;)V"@, false, Some(Native::Util(UtilNative::LinkedListAddFirst)))),
            ("java.util.LinkedList"@, method_view("java.util.LinkedList"@, "add"@, "(Ljava/lang/Object;)Z"@, false, Some(Native::Util(UtilNative::LinkedListAdd)))),
            ("java.util.LinkedList"@, method_view("java.util.LinkedList"@, "get"@, "(I)Ljava/lang/Object;"@, false, Some(Native::Util(UtilNative::LinkedListGet)))),
            ("java.util.LinkedList"@, method_view("java.util.LinkedList"@, "getFirst"@, "()Ljava/lang/Object;"@, false, Some(Native::Util(UtilNative::LinkedListGetFirst)))),
            ("java.util.LinkedList"@, method_view("java.util.LinkedList"@, "getLast"@, "()Ljava/lang/Object;"@, false, Some(Native::Util(UtilNative::LinkedListGetLast)))),
            ("java.util.LinkedList"@, method_view("java.util.LinkedList"@, "size"@, "()I"@, false, Some(Native::Util(UtilNative::LinkedListSize)))),
            ("java.util.LinkedList"@, method_view("java.util.LinkedList"@, "isEmpty"@, "()Z"@, false, Some(Native::Util(UtilNative::LinkedListIsEmpty)))),
            ("java.util.LinkedList"@, method_view("java.util.LinkedList"@, "remove"@, "(I)Ljava/lang/Object;"@, false, Some(Native::Util(UtilNative::LinkedListRemove)))),
            ("java.util.LinkedList"@, method_view("java.util.LinkedList"@, "removeFirst"@, "()Ljava/lang/Object;"@, false, Some(Native::Util(UtilNative::LinkedListRemoveFirst)))),
            ("java.util.LinkedList"@, method_view("java.util.LinkedList"@, "removeLast"@, "()Ljava/lang/Object;"@, false, Some(Native::Util(UtilNative::LinkedListRemoveLast)))),
        ]
    }

    pub fn register(jvm: &mut Jvm)
        ensures
            only_methods_added(*old(jvm), *final(jvm), Self::registered()),
    {
        jvm.method_area.add_native_method("java.util.LinkedList", LinkedList::init());
        jvm.method_area.add_native_method("java.util.LinkedList", LinkedList::add());
        jvm.method_area.add_native_method("java.util.LinkedList", LinkedList::addFirst());
        jvm.method_area.add_native_method("java.util.LinkedList", LinkedList::addLast());
        jvm.method_area.add_native_method("java.util.LinkedList", LinkedList::get());
        jvm.method_area.add_native_method("java.util.LinkedList", LinkedList::getFirst());
        jvm.method_area.add_native_method("java.util.LinkedList", LinkedList::getLast());
        jvm.method_area.add_native_method("java.util.LinkedList", LinkedList::size());
        jvm.method_area.add_native_method("java.util.LinkedList", LinkedList::isEmpty());
        jvm.method_area.add_native_method("java.util.LinkedList", LinkedList::remove());
        jvm.method_area.add_native_method("java.util.LinkedList", LinkedList::removeFirst());
        jvm.method_area.add_native_method("java.util.LinkedList", LinkedList::removeLast());
        assert(jvm.method_area@ =~= old(jvm).method_area@ + Self::registered());
    }
}

pub struct TreeMap;

impl TreeMap {
    /// The method `java.util.TreeMap.<init>()V`.
    pub fn init() -> (m: Method)
        ensures
            m@ == method_view("java.util.TreeMap"@, "<init>"@, "()V"@, false, Some(Native::Util(UtilNative::TreeMapInit))),
    {
        Method::new_native("java.util.TreeMap", "<init>", "()V", false, Some(Native::Util(UtilNative::TreeMapInit)))
    }

    /// The method `java.util.TreeMap.put(Ljava/lang/Object;Ljava/lang/Object;)Ljava/lang/Object;`.
    pub fn put() -> (m: Method)
        ensures
            m@ == method_view("java.util.TreeMap"@, "put"@, "(Ljava/lang/Object;Ljava/lang/Object;)Ljava/lang/Object;"@, false, Some(Native::Util(UtilNative::TreeMapPut))),
    {
        Method::new_native("java.util.TreeMap", "put", "(Ljava/lang/Object;Ljava/lang/Object;)Ljava/lang/Object;", false, Some(Native::Util(UtilNative::TreeMapPut)))
    }

    /// The method `java.util.TreeMap.get(Ljava/lang/Object;)Ljava/lang/Object;`.
    pub fn get() -> (m: Method)
        ensures
            m@ == method_view("java.util.TreeMap"@, "get"@, "(Ljava/lang/Object;)Ljava/lang/Object;"@, false, Some(Native::Util(UtilNative::TreeMapGet))),
    {
        Method::new_native("java.util.TreeMap", "get", "(Ljava/lang/Object;)Ljava/lang/Object;", false, Some(Native::Util(UtilNative::TreeMapGet)))
    }

    /// The method `java.util.TreeMap.size()I`.
    pub fn size() -> (m: Method)
        ensures
            m@ == method_view("java.util.TreeMap"@, "size"@, "()I"@, false, Some(Native::Util(UtilNative::TreeMapSize))),
    {
        Method::new_native("java.util.TreeMap", "size", "()I", false, Some(Native::Util(UtilNative::TreeMapSize)))
    }

    /// What `register` adds to the method area, in order.
    pub open spec fn registered() -> Seq<(Seq<char>, MethodView)> {
        seq![
            ("java.util.TreeMap"@, method_view("java.util.TreeMap"@, "<init>"@, "()V"@, false, Some(Native::Util(UtilNative::TreeMapInit)))),
            ("java.util.TreeMap"@, method_view("java.util.TreeMap"@, "put"@, "(Ljava/lang/Object;Ljava/lang/Object;)Ljava/lang/Object;"@, false, Some(Native::Util(UtilNative::TreeMapPut)))),
            ("java.util.TreeMap"@, method_view("java.util.TreeMap"@, "get"@, "(Ljava/lang/Object;)Ljava/lang/Object;"@, false, Some(Native::Util(UtilNative::TreeMapGet)))),
            ("java.util.TreeMap"@, method_view("java.util.TreeMap"@, "size"@, "()I"@, false, Some(Native::Util(UtilNative::TreeMapSize)))),
        ]
    }

    pub fn register(jvm: &mut Jvm)
        ensures
            only_methods_added(*old(jvm), *final(jvm), Self::registered()),
    {
        jvm.method_area.add_native_method("java.util.TreeMap", TreeMap::init());
        jvm.method_area.add_native_method("java.util.TreeMap", TreeMap::put());
        jvm.method_area.add_native_method("java.util.TreeMap", TreeMap::get());
        jvm.method_area.add_native_method("java.util.TreeMap", TreeMap::size());
        assert(jvm.method_area@ =~= old(jvm).method_area@ + Self::registered());
    }
}

pub struct LinkedHashSet;

impl LinkedHashSet {
    /// The method `java.util.LinkedHashSet.<init>()V`.
    pub fn init() -> (m: Method)
        ensures
            m@ == method_view("java.util.LinkedHashSet"@, "<init>"@, "()V"@, false, Some(Native::Util(UtilNative::LinkedHashSetInit))),
    {
        Method::new_native("java.util.LinkedHashSet", "<init>", "()V", false, Some(Native::Util(UtilNative::LinkedHashSetInit)))
    }

    /// The method `java.util.LinkedHashSet.add(Ljava/lang/Object;)Z`.
    pub fn add() -> (m: Method)
        ensures
            m@ == method_view("java.util.LinkedHashSet"@, "add"@, "(Ljava/lang/Object;)Z"@, false, Some(Native::Util(UtilNative::LinkedHashSetAdd))),
    {
        Method::new_native("java.util.LinkedHashSet", "add", "(Ljava/lang/Object;)Z", false, Some(Native::Util(UtilNative::LinkedHashSetAdd)))
    }

    /// The method `java.util.LinkedHashSet.size()I`.
    pub fn size() -> (m: Method)
        ensures
            m@ == method_view("java.util.LinkedHashSet"@, "size"@, "()I"@, false, Some(Native::Util(UtilNative::LinkedHashSetSize))),
    {
        Method::new_native("java.util.LinkedHashSet", "size", "()I", false, Some(Native::Util(UtilNative::LinkedHashSetSize)))
    }

    /// What `register` adds to the method area, in order.
    pub open spec fn registered() -> Seq<(Seq<char>, MethodView)> {
        seq![
            ("java.util.LinkedHashSet"@, method_view("java.util.LinkedHashSet"@, "<init>"@, "()V"@, false, Some(Native::Util(UtilNative::LinkedHashSetInit)))),
            ("java.util.LinkedHashSet"@, method_view("java.util.LinkedHashSet"@, "add"@, "(Ljava/lang/Object;)Z"@, false, Some(Native::Util(UtilNative::LinkedHashSetAdd)))),
            ("java.util.LinkedHashSet"@, method_view("java.util.LinkedHashSet"@, "size"@, "()I"@, false, Some(Native::Util(UtilNative::LinkedHashSetSize)))),
        ]
    }

    pub fn register(jvm: &mut Jvm)
        ensures
            only_methods_added(*old(jvm), *final(jvm), Self::registered()),
    {
        jvm.method_area.add_native_method("java.util.LinkedHashSet", LinkedHashSet::init());
        jvm.method_area.add_native_method("java.util.LinkedHashSet", LinkedHashSet::add());
        jvm.method_area.add_native_method("java.util.LinkedHashSet", LinkedHashSet::size());
        assert(jvm.method_area@ =~= old(jvm).method_area@ + Self::registered());
    }
}

pub struct PriorityQueue;

impl PriorityQueue {
    /// The method `java.util.PriorityQueue.<init>()V`.
    pub fn init() -> (m: Method)
        ensures
            m@ == method_view("java.util.PriorityQueue"@, "<init>"@, "()V"@, false, Some(Native::Util(UtilNative::PriorityQueueInit))),
    {
        Method::new_native("java.util.PriorityQueue", "<init>", "()V", false, Some(Native::Util(UtilNative::PriorityQueueInit)))
    }

    /// The method `java.util.PriorityQueue.add(Ljava/lang/Object;)Z`.
    pub fn add() -> (m: Method)
        ensures
            m@ == method_view("java.util.PriorityQueue"@, "add"@, "(Ljava/lang/Object;)Z"@, false, Some(Native::Util(UtilNative::PriorityQueueAdd))),
    {
        Method::new_native("java.util.PriorityQueue", "add", "(Ljava/lang/Object;)Z", false, Some(Native::Util(UtilNative::PriorityQueueAdd)))
    }

    /// The method `java.util.PriorityQueue.peek()Ljava/lang/Object;`.
    pub fn peek() -> (m: Method)
        ensures
            m@ == method_view("java.util.PriorityQueue"@, "peek"@, "()Ljava/lang/Object;"@, false, Some(Native::Util(UtilNative::PriorityQueuePeek))),
    {
        Method::new_native("java.util.PriorityQueue", "peek", "()Ljava/lang/Object;", false, Some(Native::Util(UtilNative::PriorityQueuePeek)))
    }

    /// The method `java.util.PriorityQueue.poll()Ljava/lang/Object;`.
    pub fn poll() -> (m: Method)
        ensures
            m@ == method_view("java.util.PriorityQueue"@, "poll"@, "()Ljava/lang/Object;"@, false, Some(Native::Util(UtilNative::PriorityQueuePoll))),
    {
        Method::new_native("java.util.PriorityQueue", "poll", "()Ljava/lang/Object;", false, Some(Native::Util(UtilNative::PriorityQueuePoll)))
    }

    /// The method `java.util.PriorityQueue.size()I`.
    pub fn size() -> (m: Method)
        ensures
            m@ == method_view("java.util.PriorityQueue"@, "size"@, "()I"@, false, Some(Native::Util(UtilNative::PriorityQueueSize))),
    {
        Method::new_native("java.util.PriorityQueue", "size", "()I", false, Some(Native::Util(UtilNative::PriorityQueueSize)))
    }

    /// What `register` adds to the method area, in order.
    pub open spec fn registered() -> Seq<(Seq<char>, MethodView)> {
        seq![
            ("java.util.PriorityQueue"@, method_view("java.util.PriorityQueue"@, "<init>"@, "()V"@, false, Some(Native::Util(UtilNative::PriorityQueueInit)))),
            ("java.util.PriorityQueue"@, method_view("java.util.PriorityQueue"@, "add"@, "(Ljava/lang/Object;)Z"@, false, Some(Native::Util(UtilNative::PriorityQueueAdd)))),
            ("java.util.PriorityQueue"@, method_view("java.util.PriorityQueue"@, "peek"@, "()Ljava/lang/Object;"@, false, Some(Native::Util(UtilNative::PriorityQueuePeek)))),
            ("java.util.PriorityQueue"@, method_view("java.util.PriorityQueue"@, "poll"@, "()Ljava/lang/Object;"@, false, Some(Native::Util(UtilNative::PriorityQueuePoll)))),
            ("java.util.PriorityQueue"@, method_view("java.util.PriorityQueue"@, "size"@, "()I"@, false, Some(Native::Util(UtilNative::PriorityQueueSize)))),
        ]
    }

    pub fn register(jvm: &mut Jvm)
        ensures
            only_methods_added(*old(jvm), *final(jvm), Self::registered()),
    {
        jvm.method_area.add_native_method("java.util.PriorityQueue", PriorityQueue::init());
        jvm.method_area.add_native_method("java.util.PriorityQueue", PriorityQueue::add());
        jvm.method_area.add_native_method("java.util.PriorityQueue", PriorityQueue::peek());
        jvm.method_area.add_native_method("java.util.PriorityQueue", PriorityQueue::poll());
        jvm.method_area.add_native_method("java.util.PriorityQueue", PriorityQueue::size());
        assert(jvm.method_area@ =~= old(jvm).method_area@ + Self::registered());
    }
}

pub struct UUID;

impl UUID {
    /// The method `java.util.UUID.randomUUID()Ljava/util/UUID;`.
    pub fn randomUUID() -> (m: Method)
        ensures
            m@ == method_view("java.util.UUID"@, "randomUUID"@, "()Ljava/util/UUID;"@, true, Some(Native::Util(UtilNative::UUIDRandomUUID))),
    {
        Method::new_native("java.util.UUID", "randomUUID", "()Ljava/util/UUID;", true, Some(Native::Util(UtilNative::UUIDRandomUUID)))
    }

    /// The method `java.util.UUID.toString()Ljava/lang/String;`.
    pub fn toString() -> (m: Method)
        ensures
            m@ == method_view("java.util.UUID"@, "toString"@, "()Ljava/lang/String;"@, false, Some(Native::Util(UtilNative::UUIDToString))),
    {
        Method::new_native("java.util.UUID", "toString", "()Ljava/lang/String;", false, Some(Native::Util(UtilNative::UUIDToString)))
    }

    /// The method `java.util.UUID.fromString(Ljava/lang/String;)Ljava/util/UUID;`.
    pub fn fromString() -> (m: Method)
        ensures
            m@ == method_view("java.util.UUID"@, "fromString"@, "(Ljava/lang/String;)Ljava/util/UUID;"@, true, Some(Native::Util(UtilNative::UUIDFromString))),
    {
        Method::new_native("java.util.UUID", "fromString", "(Ljava/lang/String;)Ljava/util/UUID;", true, Some(Native::Util(UtilNative::UUIDFromString)))
    }

    /// What `register` adds to the method area, in order.
    pub open spec fn registered() -> Seq<(Seq<char>, MethodView)> {
        seq![
            ("java.util.UUID"@, method_view("java.util.UUID"@, "randomUUID"@, "()Ljava/util/UUID;"@, true, Some(Native::Util(UtilNative::UUIDRandomUUID)))),
            ("java.util.UUID"@, method_view("java.util.UUID"@, "fromString"@, "(Ljava/lang/String;)Ljava/util/UUID;"@, true, Some(Native::Util(UtilNative::UUIDFromString)))),
            ("java.util.UUID"@, method_view("java.util.UUID"@, "toString"@, "()Ljava/lang/String;"@, false, Some(Native::Util(UtilNative::UUIDToString)))),
        ]
    }

    pub fn register(jvm: &mut Jvm)
        ensures
            only_methods_added(*old(jvm), *final(jvm), Self::registered()),
    {
        jvm.method_area.add_native_method("java.util.UUID", UUID::randomUUID());
        jvm.method_area.add_native_method("java.util.UUID", UUID::fromString());
        jvm.method_area.add_native_method("java.util.UUID", UUID::toString());
        assert(jvm.method_area@ =~= old(jvm).method_area@ + Self::registered());
    }
}

pub struct Random;

impl Random {
    /// The method `java.util.Random.<init>()V`.
    pub fn init() -> (m: Method)
        ensures
            m@ == method_view("java.util.Random"@, "<init>"@, "()V"@, false, None),
    {
        Method::new_native("java.util.Random", "<init>", "()V", false, None)
    }

    /// The method `java.util.Random.nextInt()I`.
    pub fn nextInt() -> (m: Method)
        ensures
            m@ == method_view("java.util.Random"@, "nextInt"@, "()I"@, false, Some(Native::Util(UtilNative::RandomNextInt))),
    {
        Method::new_native("java.util.Random", "nextInt", "()I", false, Some(Native::Util(UtilNative::RandomNextInt)))
    }

    /// The method `java.util.Random.nextInt(I)I`.
    pub fn nextInt_bound() -> (m: Method)
        ensures
            m@ == method_view("java.util.Random"@, "nextInt"@, "(I)I"@, false, Some(Native::Util(UtilNative::RandomNextIntBound))),
    {
        Method::new_native("java.util.Random", "nextInt", "(I)I", false, Some(Native::Util(UtilNative::RandomNextIntBound)))
    }

    /// The method `java.util.Random.nextLong()J`.
    pub fn nextLong() -> (m: Method)
        ensures
            m@ == method_view("java.util.Random"@, "nextLong"@, "()J"@, false, Some(Native::Util(UtilNative::RandomNextLong))),
    {
        Method::new_native("java.util.Random", "nextLong", "()J", false, Some(Native::Util(UtilNative::RandomNextLong)))
    }

    /// The method `java.util.Random.nextDouble()D`.
    pub fn nextDouble() -> (m: Method)
        ensures
            m@ == method_view("java.util.Random"@, "nextDouble"@, "()D"@, false, Some(Native::Host(HostNative::RandomNextDouble))),
    {
        Method::new_native("java.util.Random", "nextDouble", "()D", false, Some(Native::Host(HostNative::RandomNextDouble)))
    }

    /// The method `java.util.Random.nextBoolean()Z`.
    pub fn nextBoolean() -> (m: Method)
        ensures
            m@ == method_view("java.util.Random"@, "nextBoolean"@, "()Z"@, false, Some(Native::Util(UtilNative::RandomNextBoolean))),
    {
        Method::new_native("java.util.Random", "nextBoolean", "()Z", false, Some(Native::Util(UtilNative::RandomNextBoolean)))
    }

    /// What `register` adds to the method area, in order.
    pub open spec fn registered() -> Seq<(Seq<char>, MethodView)> {
        seq![
            ("java.util.Random"@, method_view("java.util.Random"@, "<init>"@, "()V"@, false, None)),
            ("java.util.Random"@, method_view("java.util.Random"@, "nextInt"@, "()I"@, false, Some(Native::Util(UtilNative::RandomNextInt)))),
            ("java.util.Random"@, method_view("java.util.Random"@, "nextInt"@, "(I)I"@, false, Some(Native::Util(UtilNative::RandomNextIntBound)))),
            ("java.util.Random"@, method_view("java.util.Random"@, "nextLong"@, "()J"@, false, Some(Native::Util(UtilNative::RandomNextLong)))),
            ("java.util.Random"@, method_view("java.util.Random"@, "nextDouble"@, "()D"@, false, Some(Native::Host(HostNative::RandomNextDouble)))),
            ("java.util.Random"@, method_view("java.util.Random"@, "nextBoolean"@, "()Z"@, false, Some(Native::Util(UtilNative::RandomNextBoolean)))),
        ]
    }

    pub fn register(jvm: &mut Jvm)
        ensures
            only_methods_added(*old(jvm), *final(jvm), Self::registered()),
    {
        jvm.method_area.add_native_method("java.util.Random", Random::init());
        jvm.method_area.add_native_method("java.util.Random", Random::nextInt());
        jvm.method_area.add_native_method("java.util.Random", Random::nextInt_bound());
        jvm.method_area.add_native_method("java.util.Random", Random::nextLong());
        jvm.method_area.add_native_method("java.util.Random", Random::nextDouble());
        jvm.method_area.add_native_method("java.util.Random", Random::nextBoolean());
        assert(jvm.method_area@ =~= old(jvm).method_area@ + Self::registered());
    }
}

pub struct Stack;

impl Stack {
    /// The method `java.util.Stack.<init>()V`.
    pub fn init() -> (m: Method)
        ensures
            m@ == method_view("java.util.Stack"@, "<init>"@, "()V"@, false, Some(Native::Util(UtilNative::StackInit))),
    {
        Method::new_native("java.util.Stack", "<init>", "()V", false, Some(Native::Util(UtilNative::StackInit)))
    }

    /// The method `java.util.Stack.push(Ljava/lang/Object;)Ljava/lang/Object;`.
    pub fn push() -> (m: Method)
        ensures
            m@ == method_view("java.util.Stack"@, "push"@, "(Ljava/lang/Object;)Ljava/lang/Object;"@, false, Some(Native::Util(UtilNative::StackPush))),
    {
        Method::new_native("java.util.Stack", "push", "(Ljava/lang/Object;)Ljava/lang/Object;", false, Some(Native::Util(UtilNative::StackPush)))
    }

    /// The method `java.util.Stack.pop()Ljava/lang/Object;`.
    pub fn pop() -> (m: Method)
        ensures
            m@ == method_view("java.util.Stack"@, "pop"@, "()Ljava/lang/Object;"@, false, Some(Native::Util(UtilNative::StackPop))),
    {
        Method::new_native("java.util.Stack", "pop", "()Ljava/lang/Object;", false, Some(Native::Util(UtilNative::StackPop)))
    }

    /// The method `java.util.Stack.peek()Ljava/lang/Object;`.
    pub fn peek() -> (m: Method)
        ensures
            m@ == method_view("java.util.Stack"@, "peek"@, "()Ljava/lang/Object;"@, false, Some(Native::Util(UtilNative::StackPeek))),
    {
        Method::new_native("java.util.Stack", "peek", "()Ljava/lang/Object;", false, Some(Native::Util(UtilNative::StackPeek)))
    }

    /// The method `java.util.Stack.empty()Z`.
    pub fn empty() -> (m: Method)
        ensures
            m@ == method_view("java.util.Stack"@, "empty"@, "()Z"@, false, Some(Native::Util(UtilNative::StackEmpty))),
    {
        Method::new_native("java.util.Stack", "empty", "()Z", false, Some(Native::Util(UtilNative::StackEmpty)))
    }

    /// The method `java.util.Stack.search(Ljava/lang/Object;)I`.
    pub fn search() -> (m: Method)
        ensures
            m@ == method_view("java.util.Stack"@, "search"@, "(Ljava/lang/Object;)I"@, false, Some(Native::Util(UtilNative::StackSearch))),
    {
        Method::new_native("java.util.Stack", "search", "(Ljava/lang/Object;)I", false, Some(Native::Util(UtilNative::StackSearch)))
    }

    /// What `register` adds to the method area, in order.
    pub open spec fn registered() -> Seq<(Seq<char>, MethodView)> {
        seq![
            ("java.util.Stack"@, method_view("java.util.Stack"@, "<init>"@, "()V"@, false, Some(Native::Util(UtilNative::StackInit)))),
            ("java.util.Stack"@, method_view("java.util.Stack"@, "push"@, "(Ljava/lang/Object;)Ljava/lang/Object;"@, false, Some(Native::Util(UtilNative::StackPush)))),
            ("java.util.Stack"@, method_view("java.util.Stack"@, "pop"@, "()Ljava/lang/Object;"@, false, Some(Native::Util(UtilNative::StackPop)))),
            ("java.util.Stack"@, method_view("java.util.Stack"@, "peek"@, "()Ljava/lang/Object;"@, false, Some(Native::Util(UtilNative::StackPeek)))),
            ("java.util.Stack"@, method_view("java.util.Stack"@, "empty"@, "()Z"@, false, Some(Native::Util(UtilNative::StackEmpty)))),
            ("java.util.Stack"@, method_view("java.util.Stack"@, "search"@, "(Ljava/lang/Object;)I"@, false, Some(Native::Util(UtilNative::StackSearch)))),
        ]
    }

    pub fn register(jvm: &mut Jvm)
        ensures
            only_methods_added(*old(jvm), *final(jvm), Self::registered()),
    {
        jvm.method_area.add_native_method("java.util.Stack", Stack::init());
        jvm.method_area.add_native_method("java.util.Stack", Stack::push());
        jvm.method_area.add_native_method("java.util.Stack", Stack::pop());
        jvm.method_area.add_native_method("java.util.Stack", Stack::peek());
        jvm.method_area.add_native_method("java.util.Stack", Stack::empty());
        jvm.method_area.add_native_method("java.util.Stack", Stack::search());
        assert(jvm.method_area@ =~= old(jvm).method_area@ + Self::registered());
    }
}

pub struct Base64;

impl Base64 {
    /// The method `java.util.Base64.getEncoder()Ljava/util/Base64$Encoder;`.
    pub fn getEncoder() -> (m: Method)
        ensures
            m@ == method_view("java.util.Base64"@, "getEncoder"@, "()Ljava/util/Base64$Encoder;"@, true, Some(Native::Util(UtilNative::Base64GetEncoder))),
    {
        Method::new_native("java.util.Base64", "getEncoder", "()Ljava/util/Base64$Encoder;", true, Some(Native::Util(UtilNative::Base64GetEncoder)))
    }

    /// The method `java.util.Base64.getDecoder()Ljava/util/Base64$Decoder;`.
    pub fn getDecoder() -> (m: Method)
        ensures
            m@ == method_view("java.util.Base64"@, "getDecoder"@, "()Ljava/util/Base64$Decoder;"@, true, Some(Native::Util(UtilNative::Base64GetDecoder))),
    {
        Method::new_native("java.util.Base64", "getDecoder", "()Ljava/util/Base64$Decoder;", true, Some(Native::Util(UtilNative::Base64GetDecoder)))
    }

    /// What `register` adds to the method area, in order.
    pub open spec fn registered() -> Seq<(Seq<char>, MethodView)> {
        seq![
            ("java.util.Base64"@, method_view("java.util.Base64"@, "getEncoder"@, "()Ljava/util/Base64$Encoder;"@, true, Some(Native::Util(UtilNative::Base64GetEncoder)))),
            ("java.util.Base64"@, method_view("java.util.Base64"@, "getDecoder"@, "()Ljava/util/Base64$Decoder;"@, true, Some(Native::Util(UtilNative::Base64GetDecoder)))),
            ("java.util.Base64$Encoder"@, method_view("java.util.Base64$Encoder"@, "encodeToString"@, "([B)Ljava/lang/String;"@, false, Some(Native::Util(UtilNative::Base64EncoderEncodeToString)))),
            ("java.util.Base64$Decoder"@, method_view("java.util.Base64$Decoder"@, "decode"@, "(Ljava/lang/String;)[B"@, false, Some(Native::Util(UtilNative::Base64DecoderDecode)))),
        ]
    }

    pub fn register(jvm: &mut Jvm)
        ensures
            only_methods_added(*old(jvm), *final(jvm), Self::registered()),
    {
        jvm.method_area.add_native_method("java.util.Base64", Base64::getEncoder());
        jvm.method_area.add_native_method("java.util.Base64", Base64::getDecoder());
        // The nested Encoder and Decoder classes.
        let encoder_encode = Method::new_native("java.util.Base64$Encoder", "encodeToString", "([B)Ljava/lang/String;", false, Some(Native::Util(UtilNative::Base64EncoderEncodeToString)));
        jvm.method_area.add_native_method("java.util.Base64$Encoder", encoder_encode);
        let decoder_decode = Method::new_native("java.util.Base64$Decoder", "decode", "(Ljava/lang/String;)[B", false, Some(Native::Util(UtilNative::Base64DecoderDecode)));
        jvm.method_area.add_native_method("java.util.Base64$Decoder", decoder_decode);
        assert(jvm.method_area@ =~= old(jvm).method_area@ + Self::registered());
    }
}

pub struct Properties;

impl Properties {
    /// The method `java.util.Properties.<init>()V`.
    pub fn init() -> (m: Method)
        ensures
            m@ == method_view("java.util.Properties"@, "<init>"@, "()V"@, false, Some(Native::Util(UtilNative::PropertiesInit))),
    {
        Method::new_native("java.util.Properties", "<init>", "()V", false, Some(Native::Util(UtilNative::PropertiesInit)))
    }

    /// The method `java.util.Properties.setProperty(Ljava/lang/String;Ljava/lang/String;)Ljava/lang/Object;`.
    pub fn setProperty() -> (m: Method)
        ensures
            m@ == method_view("java.util.Properties"@, "setProperty"@, "(Ljava/lang/String;Ljava/lang/String;)Ljava/lang/Object;"@, false, Some(Native::Util(UtilNative::PropertiesSetProperty))),
    {
        Method::new_native("java.util.Properties", "setProperty", "(Ljava/lang/String;Ljava/lang/String;)Ljava/lang/Object;", false, Some(Native::Util(UtilNative::PropertiesSetProperty)))
    }

    /// The method `java.util.Properties.getProperty(Ljava/lang/String;)Ljava/lang/String;`.
    pub fn getProperty() -> (m: Method)
        ensures
            m@ == method_view("java.util.Properties"@, "getProperty"@, "(Ljava/lang/String;)Ljava/lang/String;"@, false, Some(Native::Util(UtilNative::PropertiesGetProperty))),
    {
        Method::new_native("java.util.Properties", "getProperty", "(Ljava/lang/String;)Ljava/lang/String;", false, Some(Native::Util(UtilNative::PropertiesGetProperty)))
    }

    /// The method `java.util.Properties.load(Ljava/io/InputStream;)V`.
    pub fn load() -> (m: Method)
        ensures
            m@ == method_view("java.util.Properties"@, "load"@, "(Ljava/io/InputStream;)V"@, false, Some(Native::Host(HostNative::PropertiesLoad))),
    {
        Method::new_native("java.util.Properties", "load", "(Ljava/io/InputStream;)V", false, Some(Native::Host(HostNative::PropertiesLoad)))
    }

    /// What `register` adds to the method area, in order.
    pub open spec fn registered() -> Seq<(Seq<char>, MethodView)> {
        seq![
            ("java.util.Properties"@, method_view("java.util.Properties"@, "<init>"@, "()V"@, false, Some(Native::Util(UtilNative::PropertiesInit)))),
            ("java.util.Properties"@, method_view("java.util.Properties"@, "setProperty"@, "(Ljava/lang/String;Ljava/lang/String;)Ljava/lang/Object;"@, false, Some(Native::Util(UtilNative::PropertiesSetProperty)))),
            ("java.util.Properties"@, method_view("java.util.Properties"@, "getProperty"@, "(Ljava/lang/String;)Ljava/lang/String;"@, false, Some(Native::Util(UtilNative::PropertiesGetProperty)))),
            ("java.util.Properties"@, method_view("java.util.Properties"@, "load"@, "(Ljava/io/InputStream;)V"@, false, Some(Native::Host(HostNative::PropertiesLoad)))),
        ]
    }

    pub fn register(jvm: &mut Jvm)
        ensures
            only_methods_added(*old(jvm), *final(jvm), Self::registered()),
    {
        jvm.method_area.add_native_method("java.util.Properties", Properties::init());
        jvm.method_area.add_native_method("java.util.Properties", Properties::setProperty());
        jvm.method_area.add_native_method("java.util.Properties", Properties::getProperty());
        jvm.method_area.add_native_method("java.util.Properties", Properties::load());
        assert(jvm.method_area@ =~= old(jvm).method_area@ + Self::registered());
    }
}

pub struct Comparator;

impl Comparator {
    /// The method `java.util.Comparator.compare(Ljava/lang/Object;Ljava/lang/Object;)I`.
    pub fn compare() -> (m: Method)
        ensures
            m@ == method_view("java.util.Comparator"@, "compare"@, "(Ljava/lang/Object;Ljava/lang/Object;)I"@, false, None),
    {
        Method::new_native("java.util.Comparator", "compare", "(Ljava/lang/Object;Ljava/lang/Object;)I", false, None)
    }

    /// The method `java.util.Comparator.naturalOrder()Ljava/util/Comparator;`.
    pub fn naturalOrder() -> (m: Method)
        ensures
            m@ == method_view("java.util.Comparator"@, "naturalOrder"@, "()Ljava/util/Comparator;"@, true, Some(Native::Util(UtilNative::ComparatorNaturalOrder))),
    {
        Method::new_native("java.util.Comparator", "naturalOrder", "()Ljava/util/Comparator;", true, Some(Native::Util(UtilNative::ComparatorNaturalOrder)))
    }

    /// The method `java.util.Comparator.reverseOrder()Ljava/util/Comparator;`.
    pub fn reverseOrder() -> (m: Method)
        ensures
            m@ == method_view("java.util.Comparator"@, "reverseOrder"@, "()Ljava/util/Comparator;"@, true, Some(Native::Util(UtilNative::ComparatorReverseOrder))),
    {
        Method::new_native("java.util.Comparator", "reverseOrder", "()Ljava/util/Comparator;", true, Some(Native::Util(UtilNative::ComparatorReverseOrder)))
    }

    /// The method `java.util.Comparator.thenComparing(Ljava/util/Comparator;)Ljava/util/Comparator;`.
    pub fn thenComparing() -> (m: Method)
        ensures
            m@ == method_view("java.util.Comparator"@, "thenComparing"@, "(Ljava/util/Comparator;)Ljava/util/Comparator;"@, false, Some(Native::Util(UtilNative::ComparatorThenComparing))),
    {
        Method::new_native("java.util.Comparator", "thenComparing", "(Ljava/util/Comparator;)Ljava/util/Comparator;", false, Some(Native::Util(UtilNative::ComparatorThenComparing)))
    }

    /// The method `java.util.Comparator.nullsFirst()Ljava/util/Comparator;`.
    pub fn nullsFirst() -> (m: Method)
        ensures
            m@ == method_view("java.util.Comparator"@, "nullsFirst"@, "()Ljava/util/Comparator;"@, true, Some(Native::Util(UtilNative::ComparatorNullsFirst))),
    {
        Method::new_native("java.util.Comparator", "nullsFirst", "()Ljava/util/Comparator;", true, Some(Native::Util(UtilNative::ComparatorNullsFirst)))
    }

    /// The method `java.util.Comparator.nullsLast()Ljava/util/Comparator;`.
    pub fn nullsLast() -> (m: Method)
        ensures
            m@ == method_view("java.util.Comparator"@, "nullsLast"@, "()Ljava/util/Comparator;"@, true, Some(Native::Util(UtilNative::ComparatorNullsLast))),
    {
        Method::new_native("java.util.Comparator", "nullsLast", "()Ljava/util/Comparator;", true, Some(Native::Util(UtilNative::ComparatorNullsLast)))
    }

    /// The method `java.util.Comparator.reversed()Ljava/util/Comparator;`.
    pub fn reversed() -> (m: Method)
        ensures
            m@ == method_view("java.util.Comparator"@, "reversed"@, "()Ljava/util/Comparator;"@, false, Some(Native::Util(UtilNative::ComparatorReversed))),
    {
        Method::new_native("java.util.Comparator", "reversed", "()Ljava/util/Comparator;", false, Some(Native::Util(UtilNative::ComparatorReversed)))
    }

    /// What `register` adds to the method area, in order.
    pub open spec fn registered() -> Seq<(Seq<char>, MethodView)> {
        seq![
            ("java.util.Comparator"@, method_view("java.util.Comparator"@, "compare"@, "(Ljava/lang/Object;Ljava/lang/Object;)I"@, false, None)),
            ("java.util.Comparator"@, method_view("java.util.Comparator"@, "naturalOrder"@, "()Ljava/util/Comparator;"@, true, Some(Native::Util(UtilNative::ComparatorNaturalOrder)))),
            ("java.util.Comparator"@, method_view("java.util.Comparator"@, "reverseOrder"@, "()Ljava/util/Comparator;"@, true, Some(Native::Util(UtilNative::ComparatorReverseOrder)))),
            ("java.util.Comparator"@, method_view("java.util.Comparator"@, "thenComparing"@, "(Ljava/util/Comparator;)Ljava/util/Comparator;"@, false, Some(Native::Util(UtilNative::ComparatorThenComparing)))),
            ("java.util.Comparator"@, method_view("java.util.Comparator"@, "nullsFirst"@, "()Ljava/util/Comparator;"@, true, Some(Native::Util(UtilNative::ComparatorNullsFirst)))),
            ("java.util.Comparator"@, method_view("java.util.Comparator"@, "nullsLast"@, "()Ljava/util/Comparator;"@, true, Some(Native::Util(UtilNative::ComparatorNullsLast)))),
        ]
    }

    pub fn register(jvm: &mut Jvm)
        ensures
            only_methods_added(*old(jvm), *final(jvm), Self::registered()),
    {
        jvm.method_area.add_native_method("java.util.Comparator", Comparator::compare());
        jvm.method_area.add_native_method("java.util.Comparator", Comparator::naturalOrder());
        jvm.method_area.add_native_method("java.util.Comparator", Comparator::reverseOrder());
        jvm.method_area.add_native_method("java.util.Comparator", Comparator::thenComparing());
        jvm.method_area.add_native_method("java.util.Comparator", Comparator::nullsFirst());
        jvm.method_area.add_native_method("java.util.Comparator", Comparator::nullsLast());
        assert(jvm.method_area@ =~= old(jvm).method_area@ + Self::registered());
    }
}

pub struct AtomicInteger;

impl AtomicInteger {
    /// The method `java.util.concurrent.atomic.AtomicInteger.<init>()V`.
    pub fn init() -> (m: Method)
        ensures
            m@ == method_view("java.util.concurrent.atomic.AtomicInteger"@, "<init>"@, "()V"@, false, Some(Native::Util(UtilNative::AtomicIntegerInit))),
    {
        Method::new_native("java.util.concurrent.atomic.AtomicInteger", "<init>", "()V", false, Some(Native::Util(UtilNative::AtomicIntegerInit)))
    }

    /// The method `java.util.concurrent.atomic.AtomicInteger.<init>(I)V`.
    pub fn init_value() -> (m: Method)
        ensures
            m@ == method_view("java.util.concurrent.atomic.AtomicInteger"@, "<init>"@, "(I)V"@, false, Some(Native::Util(UtilNative::AtomicIntegerInitValue))),
    {
        Method::new_native("java.util.concurrent.atomic.AtomicInteger", "<init>", "(I)V", false, Some(Native::Util(UtilNative::AtomicIntegerInitValue)))
    }

    /// The method `java.util.concurrent.atomic.AtomicInteger.get()I`.
    pub fn get() -> (m: Method)
        ensures
            m@ == method_view("java.util.concurrent.atomic.AtomicInteger"@, "get"@, "()I"@, false, Some(Native::Util(UtilNative::AtomicIntegerGet))),
    {
        Method::new_native("java.util.concurrent.atomic.AtomicInteger", "get", "()I", false, Some(Native::Util(UtilNative::AtomicIntegerGet)))
    }

    /// The method `java.util.concurrent.atomic.AtomicInteger.set(I)V`.
    pub fn set() -> (m: Method)
        ensures
            m@ == method_view("java.util.concurrent.atomic.AtomicInteger"@, "set"@, "(I)V"@, false, Some(Native::Util(UtilNative::AtomicIntegerSet))),
    {
        Method::new_native("java.util.concurrent.atomic.AtomicInteger", "set", "(I)V", false, Some(Native::Util(UtilNative::AtomicIntegerSet)))
    }

    /// The method `java.util.concurrent.atomic.AtomicInteger.incrementAndGet()I`.
    pub fn incrementAndGet() -> (m: Method)
        ensures
            m@ == method_view("java.util.concurrent.atomic.AtomicInteger"@, "incrementAndGet"@, "()I"@, false, Some(Native::Util(UtilNative::AtomicIntegerIncrementAndGet))),
    {
        Method::new_native("java.util.concurrent.atomic.AtomicInteger", "incrementAndGet", "()I", false, Some(Native::Util(UtilNative::AtomicIntegerIncrementAndGet)))
    }

    /// The method `java.util.concurrent.atomic.AtomicInteger.decrementAndGet()I`.
    pub fn decrementAndGet() -> (m: Method)
        ensures
            m@ == method_view("java.util.concurrent.atomic.AtomicInteger"@, "decrementAndGet"@, "()I"@, false, Some(Native::Util(UtilNative::AtomicIntegerDecrementAndGet))),
    {
        Method::new_native("java.util.concurrent.atomic.AtomicInteger", "decrementAndGet", "()I", false, Some(Native::Util(UtilNative::AtomicIntegerDecrementAndGet)))
    }

    /// The method `java.util.concurrent.atomic.AtomicInteger.addAndGet(I)I`.
    pub fn addAndGet() -> (m: Method)
        ensures
            m@ == method_view("java.util.concurrent.atomic.AtomicInteger"@, "addAndGet"@, "(I)I"@, false, Some(Native::Util(UtilNative::AtomicIntegerAddAndGet))),
    {
        Method::new_native("java.util.concurrent.atomic.AtomicInteger", "addAndGet", "(I)I", false, Some(Native::Util(UtilNative::AtomicIntegerAddAndGet)))
    }

    /// The method `java.util.concurrent.atomic.AtomicInteger.compareAndSet(II)Z`.
    pub fn compareAndSet() -> (m: Method)
        ensures
            m@ == method_view("java.util.concurrent.atomic.AtomicInteger"@, "compareAndSet"@, "(II)Z"@, false, Some(Native::Util(UtilNative::AtomicIntegerCompareAndSet))),
    {
        Method::new_native("java.util.concurrent.atomic.AtomicInteger", "compareAndSet", "(II)Z", false, Some(Native::Util(UtilNative::AtomicIntegerCompareAndSet)))
    }

    /// What `register` adds to the method area, in order.
    pub open spec fn registered() -> Seq<(Seq<char>, MethodView)> {
        seq![
            ("java.util.concurrent.atomic.AtomicInteger"@, method_view("java.util.concurrent.atomic.AtomicInteger"@, "<init>"@, "()V"@, false, Some(Native::Util(UtilNative::AtomicIntegerInit)))),
            ("java.util.concurrent.atomic.AtomicInteger"@, method_view("java.util.concurrent.atomic.AtomicInteger"@, "<init>"@, "(I)V"@, false, Some(Native::Util(UtilNative::AtomicIntegerInitValue)))),
            ("java.util.concurrent.atomic.AtomicInteger"@, method_view("java.util.concurrent.atomic.AtomicInteger"@, "get"@, "()I"@, false, Some(Native::Util(UtilNative::AtomicIntegerGet)))),
            ("java.util.concurrent.atomic.AtomicInteger"@, method_view("java.util.concurrent.atomic.AtomicInteger"@, "set"@, "(I)V"@, false, Some(Native::Util(UtilNative::AtomicIntegerSet)))),
            ("java.util.concurrent.atomic.AtomicInteger"@, method_view("java.util.concurrent.atomic.AtomicInteger"@, "incrementAndGet"@, "()I"@, false, Some(Native::Util(UtilNative::AtomicIntegerIncrementAndGet)))),
            ("java.util.concurrent.atomic.AtomicInteger"@, method_view("java.util.concurrent.atomic.AtomicInteger"@, "decrementAndGet"@, "()I"@, false, Some(Native::Util(UtilNative::AtomicIntegerDecrementAndGet)))),
            ("java.util.concurrent.atomic.AtomicInteger"@, method_view("java.util.concurrent.atomic.AtomicInteger"@, "addAndGet"@, "(I)I"@, false, Some(Native::Util(UtilNative::AtomicIntegerAddAndGet)))),
            ("java.util.concurrent.atomic.AtomicInteger"@, method_view("java.util.concurrent.atomic.AtomicInteger"@, "compareAndSet"@, "(II)Z"@, false, Some(Native::Util(UtilNative::AtomicIntegerCompareAndSet)))),
        ]
    }

    pub fn register(jvm: &mut Jvm)
        ensures
            only_methods_added(*old(jvm), *final(jvm), Self::registered()),
    {
        jvm.method_area.add_native_method("java.util.concurrent.atomic.AtomicInteger", AtomicInteger::init());
        jvm.method_area.add_native_method("java.util.concurrent.atomic.AtomicInteger", AtomicInteger::init_value());
        jvm.method_area.add_native_method("java.util.concurrent.atomic.AtomicInteger", AtomicInteger::get());
        jvm.method_area.add_native_method("java.util.concurrent.atomic.AtomicInteger", AtomicInteger::set());
        jvm.method_area.add_native_method("java.util.concurrent.atomic.AtomicInteger", AtomicInteger::incrementAndGet());
        jvm.method_area.add_native_method("java.util.concurrent.atomic.AtomicInteger", AtomicInteger::decrementAndGet());
        jvm.method_area.add_native_method("java.util.concurrent.atomic.AtomicInteger", AtomicInteger::addAndGet());
        jvm.method_area.add_native_method("java.util.concurrent.atomic.AtomicInteger", AtomicInteger::compareAndSet());
        assert(jvm.method_area@ =~= old(jvm).method_area@ + Self::registered());
    }
}

pub struct AtomicLong;

impl AtomicLong {
    /// The method `java.util.concurrent.atomic.AtomicLong.<init>()V`.
    pub fn init() -> (m: Method)
        ensures
            m@ == method_view("java.util.concurrent.atomic.AtomicLong"@, "<init>"@, "()V"@, false, None),
    {
        Method::new_native("java.util.concurrent.atomic.AtomicLong", "<init>", "()V", false, None)
    }

    /// The method `java.util.concurrent.atomic.AtomicLong.<init>(J)V`.
    pub fn init_value() -> (m: Method)
        ensures
            m@ == method_view("java.util.concurrent.atomic.AtomicLong"@, "<init>"@, "(J)V"@, false, Some(Native::Util(UtilNative::AtomicLongInitValue))),
    {
        Method::new_native("java.util.concurrent.atomic.AtomicLong", "<init>", "(J)V", false, Some(Native::Util(UtilNative::AtomicLongInitValue)))
    }

    /// The method `java.util.concurrent.atomic.AtomicLong.get()J`.
    pub fn get() -> (m: Method)
        ensures
            m@ == method_view("java.util.concurrent.atomic.AtomicLong"@, "get"@, "()J"@, false, Some(Native::Util(UtilNative::AtomicLongGet))),
    {
        Method::new_native("java.util.concurrent.atomic.AtomicLong", "get", "()J", false, Some(Native::Util(UtilNative::AtomicLongGet)))
    }

    /// The method `java.util.concurrent.atomic.AtomicLong.set(J)V`.
    pub fn set() -> (m: Method)
        ensures
            m@ == method_view("java.util.concurrent.atomic.AtomicLong"@, "set"@, "(J)V"@, false, Some(Native::Util(UtilNative::AtomicLongSet))),
    {
        Method::new_native("java.util.concurrent.atomic.AtomicLong", "set", "(J)V", false, Some(Native::Util(UtilNative::AtomicLongSet)))
    }

    /// The method `java.util.concurrent.atomic.AtomicLong.incrementAndGet()J`.
    pub fn incrementAndGet() -> (m: Method)
        ensures
            m@ == method_view("java.util.concurrent.atomic.AtomicLong"@, "incrementAndGet"@, "()J"@, false, Some(Native::Util(UtilNative::AtomicLongIncrementAndGet))),
    {
        Method::new_native("java.util.concurrent.atomic.AtomicLong", "incrementAndGet", "()J", false, Some(Native::Util(UtilNative::AtomicLongIncrementAndGet)))
    }

    /// The method `java.util.concurrent.atomic.AtomicLong.addAndGet(J)J`.
    pub fn addAndGet() -> (m: Method)
        ensures
            m@ == method_view("java.util.concurrent.atomic.AtomicLong"@, "addAndGet"@, "(J)J"@, false, Some(Native::Util(UtilNative::AtomicLongAddAndGet))),
    {
        Method::new_native("java.util.concurrent.atomic.AtomicLong", "addAndGet", "(J)J", false, Some(Native::Util(UtilNative::AtomicLongAddAndGet)))
    }

    /// What `register` adds to the method area, in order.
    pub open spec fn registered() -> Seq<(Seq<char>, MethodView)> {
        seq![
            ("java.util.concurrent.atomic.AtomicLong"@, method_view("java.util.concurrent.atomic.AtomicLong"@, "<init>"@, "()V"@, false, None)),
            ("java.util.concurrent.atomic.AtomicLong"@, method_view("java.util.concurrent.atomic.AtomicLong"@, "<init>"@, "(J)V"@, false, Some(Native::Util(UtilNative::AtomicLongInitValue)))),
            ("java.util.concurrent.atomic.AtomicLong"@, method_view("java.util.concurrent.atomic.AtomicLong"@, "get"@, "()J"@, false, Some(Native::Util(UtilNative::AtomicLongGet)))),
            ("java.util.concurrent.atomic.AtomicLong"@, method_view("java.util.concurrent.atomic.AtomicLong"@, "set"@, "(J)V"@, false, Some(Native::Util(UtilNative::AtomicLongSet)))),
            ("java.util.concurrent.atomic.AtomicLong"@, method_view("java.util.concurrent.atomic.AtomicLong"@, "incrementAndGet"@, "()J"@, false, Some(Native::Util(UtilNative::AtomicLongIncrementAndGet)))),
            ("java.util.concurrent.atomic.AtomicLong"@, method_view("java.util.concurrent.atomic.AtomicLong"@, "addAndGet"@, "(J)J"@, false, Some(Native::Util(UtilNative::AtomicLongAddAndGet)))),
        ]
    }

    pub fn register(jvm: &mut Jvm)
        ensures
            only_methods_added(*old(jvm), *final(jvm), Self::registered()),
    {
        jvm.method_area.add_native_method("java.util.concurrent.atomic.AtomicLong", AtomicLong::init());
        jvm.method_area.add_native_method("java.util.concurrent.atomic.AtomicLong", AtomicLong::init_value());
        jvm.method_area.add_native_method("java.util.concurrent.atomic.AtomicLong", AtomicLong::get());
        jvm.method_area.add_native_method("java.util.concurrent.atomic.AtomicLong", AtomicLong::set());
        jvm.method_area.add_native_method("java.util.concurrent.atomic.AtomicLong", AtomicLong::incrementAndGet());
        jvm.method_area.add_native_method("java.util.concurrent.atomic.AtomicLong", AtomicLong::addAndGet());
        assert(jvm.method_area@ =~= old(jvm).method_area@ + Self::registered());
    }
}

pub struct AtomicReference;

impl AtomicReference {
    /// The method `java.util.concurrent.atomic.AtomicReference.<init>()V`.
    pub fn init() -> (m: Method)
        ensures
            m@ == method_view("java.util.concurrent.atomic.AtomicReference"@, "<init>"@, "()V"@, false, None),
    {
        Method::new_native("java.util.concurrent.atomic.AtomicReference", "<init>", "()V", false, None)
    }

    /// The method `java.util.concurrent.atomic.AtomicReference.<init>(Ljava/lang/Object;)V`.
    pub fn init_value() -> (m: Method)
        ensures
            m@ == method_view("java.util.concurrent.atomic.AtomicReference"@, "<init>"@, "(Ljava/lang/Object;)V"@, false, Some(Native::Util(UtilNative::AtomicReferenceInitValue))),
    {
        Method::new_native("java.util.concurrent.atomic.AtomicReference", "<init>", "(Ljava/lang/Object;)V", false, Some(Native::Util(UtilNative::AtomicReferenceInitValue)))
    }

    /// The method `java.util.concurrent.atomic.AtomicReference.get()Ljava/lang/Object;`.
    pub fn get() -> (m: Method)
        ensures
            m@ == method_view("java.util.concurrent.atomic.AtomicReference"@, "get"@, "()Ljava/lang/Object;"@, false, Some(Native::Util(UtilNative::AtomicReferenceGet))),
    {
        Method::new_native("java.util.concurrent.atomic.AtomicReference", "get", "()Ljava/lang/Object;", false, Some(Native::Util(UtilNative::AtomicReferenceGet)))
    }

    /// The method `java.util.concurrent.atomic.AtomicReference.set(Ljava/lang/Object;)V`.
    pub fn set() -> (m: Method)
        ensures
            m@ == method_view("java.util.concurrent.atomic.AtomicReference"@, "set"@, "(Ljava/lang/Object;)V"@, false, Some(Native::Util(UtilNative::AtomicReferenceSet))),
    {
        Method::new_native("java.util.concurrent.atomic.AtomicReference", "set", "(Ljava/lang/Object;)V", false, Some(Native::Util(UtilNative::AtomicReferenceSet)))
    }

    /// What `register` adds to the method area, in order.
    pub open spec fn registered() -> Seq<(Seq<char>, MethodView)> {
        seq![
            ("java.util.concurrent.atomic.AtomicReference"@, method_view("java.util.concurrent.atomic.AtomicReference"@, "<init>"@, "()V"@, false, None)),
            ("java.util.concurrent.atomic.AtomicReference"@, method_view("java.util.concurrent.atomic.AtomicReference"@, "<init>"@, "(Ljava/lang/Object;)V"@, false, Some(Native::Util(UtilNative::AtomicReferenceInitValue)))),
            ("java.util.concurrent.atomic.AtomicReference"@, method_view("java.util.concurrent.atomic.AtomicReference"@, "get"@, "()Ljava/lang/Object;"@, false, Some(Native::Util(UtilNative::AtomicReferenceGet)))),
            ("java.util.concurrent.atomic.AtomicReference"@, method_view("java.util.concurrent.atomic.AtomicReference"@, "set"@, "(Ljava/lang/Object;)V"@, false, Some(Native::Util(UtilNative::AtomicReferenceSet)))),
        ]
    }

    pub fn register(jvm: &mut Jvm)
        ensures
            only_methods_added(*old(jvm), *final(jvm), Self::registered()),
    {
        jvm.method_area.add_native_method("java.util.concurrent.atomic.AtomicReference", AtomicReference::init());
        jvm.method_area.add_native_method("java.util.concurrent.atomic.AtomicReference", AtomicReference::init_value());
        jvm.method_area.add_native_method("java.util.concurrent.atomic.AtomicReference", AtomicReference::get());
        jvm.method_area.add_native_method("java.util.concurrent.atomic.AtomicReference", AtomicReference::set());
        assert(jvm.method_area@ =~= old(jvm).method_area@ + Self::registered());
    }
}

pub struct AtomicBoolean;

impl AtomicBoolean {
    /// The method `java.util.concurrent.atomic.AtomicBoolean.<init>()V`.
    pub fn init() -> (m: Method)
        ensures
            m@ == method_view("java.util.concurrent.atomic.AtomicBoolean"@, "<init>"@, "()V"@, false, None),
    {
        Method::new_native("java.util.concurrent.atomic.AtomicBoolean", "<init>", "()V", false, None)
    }

    /// The method `java.util.concurrent.atomic.AtomicBoolean.<init>(Z)V`.
    pub fn init_value() -> (m: Method)
        ensures
            m@ == method_view("java.util.concurrent.atomic.AtomicBoolean"@, "<init>"@, "(Z)V"@, false, Some(Native::Util(UtilNative::AtomicBooleanInitValue))),
    {
        Method::new_native("java.util.concurrent.atomic.AtomicBoolean", "<init>", "(Z)V", false, Some(Native::Util(UtilNative::AtomicBooleanInitValue)))
    }

    /// The method `java.util.concurrent.atomic.AtomicBoolean.get()Z`.
    pub fn get() -> (m: Method)
        ensures
            m@ == method_view("java.util.concurrent.atomic.AtomicBoolean"@, "get"@, "()Z"@, false, Some(Native::Util(UtilNative::AtomicBooleanGet))),
    {
        Method::new_native("java.util.concurrent.atomic.AtomicBoolean", "get", "()Z", false, Some(Native::Util(UtilNative::AtomicBooleanGet)))
    }

    /// The method `java.util.concurrent.atomic.AtomicBoolean.set(Z)V`.
    pub fn set() -> (m: Method)
        ensures
            m@ == method_view("java.util.concurrent.atomic.AtomicBoolean"@, "set"@, "(Z)V"@, false, Some(Native::Util(UtilNative::AtomicBooleanSet))),
    {
        Method::new_native("java.util.concurrent.atomic.AtomicBoolean", "set", "(Z)V", false, Some(Native::Util(UtilNative::AtomicBooleanSet)))
    }

    /// The method `java.util.concurrent.atomic.AtomicBoolean.getAndSet(Z)Z`.
    pub fn getAndSet() -> (m: Method)
        ensures
            m@ == method_view("java.util.concurrent.atomic.AtomicBoolean"@, "getAndSet"@, "(Z)Z"@, false, Some(Native::Util(UtilNative::AtomicBooleanGetAndSet))),
    {
        Method::new_native("java.util.concurrent.atomic.AtomicBoolean", "getAndSet", "(Z)Z", false, Some(Native::Util(UtilNative::AtomicBooleanGetAndSet)))
    }

    /// The method `java.util.concurrent.atomic.AtomicBoolean.compareAndSet(ZZ)Z`.
    pub fn compareAndSet() -> (m: Method)
        ensures
            m@ == method_view("java.util.concurrent.atomic.AtomicBoolean"@, "compareAndSet"@, "(ZZ)Z"@, false, Some(Native::Util(UtilNative::AtomicBooleanCompareAndSet))),
    {
        Method::new_native("java.util.concurrent.atomic.AtomicBoolean", "compareAndSet", "(ZZ)Z", false, Some(Native::Util(UtilNative::AtomicBooleanCompareAndSet)))
    }

    /// What `register` adds to the method area, in order.
    pub open spec fn registered() -> Seq<(Seq<char>, MethodView)> {
        seq![
            ("java.util.concurrent.atomic.AtomicBoolean"@, method_view("java.util.concurrent.atomic.AtomicBoolean"@, "<init>"@, "()V"@, false, None)),
            ("java.util.concurrent.atomic.AtomicBoolean"@, method_view("java.util.concurrent.atomic.AtomicBoolean"@, "<init>"@, "(Z)V"@, false, Some(Native::Util(UtilNative::AtomicBooleanInitValue)))),
            ("java.util.concurrent.atomic.AtomicBoolean"@, method_view("java.util.concurrent.atomic.AtomicBoolean"@, "get"@, "()Z"@, false, Some(Native::Util(UtilNative::AtomicBooleanGet)))),
            ("java.util.concurrent.atomic.AtomicBoolean"@, method_view("java.util.concurrent.atomic.AtomicBoolean"@, "set"@, "(Z)V"@, false, Some(Native::Util(UtilNative::AtomicBooleanSet)))),
            ("java.util.concurrent.atomic.AtomicBoolean"@, method_view("java.util.concurrent.atomic.AtomicBoolean"@, "getAndSet"@, "(Z)Z"@, false, Some(Native::Util(UtilNative::AtomicBooleanGetAndSet)))),
            ("java.util.concurrent.atomic.AtomicBoolean"@, method_view("java.util.concurrent.atomic.AtomicBoolean"@, "compareAndSet"@, "(ZZ)Z"@, false, Some(Native::Util(UtilNative::AtomicBooleanCompareAndSet)))),
        ]
    }

    pub fn register(jvm: &mut Jvm)
        ensures
            only_methods_added(*old(jvm), *final(jvm), Self::registered()),
    {
        jvm.method_area.add_native_method("java.util.concurrent.atomic.AtomicBoolean", AtomicBoolean::init());
        jvm.method_area.add_native_method("java.util.concurrent.atomic.AtomicBoolean", AtomicBoolean::init_value());
        jvm.method_area.add_native_method("java.util.concurrent.atomic.AtomicBoolean", AtomicBoolean::get());
        jvm.method_area.add_native_method("java.util.concurrent.atomic.AtomicBoolean", AtomicBoolean::set());
        jvm.method_area.add_native_method("java.util.concurrent.atomic.AtomicBoolean", AtomicBoolean::getAndSet());
        jvm.method_area.add_native_method("java.util.concurrent.atomic.AtomicBoolean", AtomicBoolean::compareAndSet());
        assert(jvm.method_area@ =~= old(jvm).method_area@ + Self::registered());
    }
}

pub struct LinkedHashMap;

impl LinkedHashMap {
    /// The method `java.util.LinkedHashMap.<init>()V`.
    pub fn init() -> (m: Method)
        ensures
            m@ == method_view("java.util.LinkedHashMap"@, "<init>"@, "()V"@, false, Some(Native::Util(UtilNative::LinkedHashMapInit))),
    {
        Method::new_native("java.util.LinkedHashMap", "<init>", "()V", false, Some(Native::Util(UtilNative::LinkedHashMapInit)))
    }

    /// The method `java.util.LinkedHashMap.put(Ljava/lang/Object;Ljava/lang/Object;)Ljava/lang/Object;`.
    pub fn put() -> (m: Method)
        ensures
            m@ == method_view("java.util.LinkedHashMap"@, "put"@, "(Ljava/lang/Object;Ljava/lang/Object;)Ljava/lang/Object;"@, false, Some(Native::Util(UtilNative::LinkedHashMapPut))),
    {
        Method::new_native("java.util.LinkedHashMap", "put", "(Ljava/lang/Object;Ljava/lang/Object;)Ljava/lang/Object;", false, Some(Native::Util(UtilNative::LinkedHashMapPut)))
    }

    /// The method `java.util.LinkedHashMap.get(Ljava/lang/Object;)Ljava/lang/Object;`.
    pub fn get() -> (m: Method)
        ensures
            m@ == method_view("java.util.LinkedHashMap"@, "get"@, "(Ljava/lang/Object;)Ljava/lang/Object;"@, false, Some(Native::Util(UtilNative::LinkedHashMapGet))),
    {
        Method::new_native("java.util.LinkedHashMap", "get", "(Ljava/lang/Object;)Ljava/lang/Object;", false, Some(Native::Util(UtilNative::LinkedHashMapGet)))
    }

    /// The method `java.util.LinkedHashMap.size()I`.
    pub fn size() -> (m: Method)
        ensures
            m@ == method_view("java.util.LinkedHashMap"@, "size"@, "()I"@, false, Some(Native::Util(UtilNative::LinkedHashMapSize))),
    {
        Method::new_native("java.util.LinkedHashMap", "size", "()I", false, Some(Native::Util(UtilNative::LinkedHashMapSize)))
    }

    /// The method `java.util.LinkedHashMap.isEmpty()Z`.
    pub fn isEmpty() -> (m: Method)
        ensures
            m@ == method_view("java.util.LinkedHashMap"@, "isEmpty"@, "()Z"@, false, Some(Native::Util(UtilNative::LinkedHashMapIsEmpty))),
    {
        Method::new_native("java.util.LinkedHashMap", "isEmpty", "()Z", false, Some(Native::Util(UtilNative::LinkedHashMapIsEmpty)))
    }

    /// The method `java.util.LinkedHashMap.containsKey(Ljava/lang/Object;)Z`.
    pub fn containsKey() -> (m: Method)
        ensures
            m@ == method_view("java.util.LinkedHashMap"@, "containsKey"@, "(Ljava/lang/Object;)Z"@, false, Some(Native::Util(UtilNative::LinkedHashMapContainsKey))),
    {
        Method::new_native("java.util.LinkedHashMap", "containsKey", "(Ljava/lang/Object;)Z", false, Some(Native::Util(UtilNative::LinkedHashMapContainsKey)))
    }

    /// What `register` adds to the method area, in order.
    pub open spec fn registered() -> Seq<(Seq<char>, MethodView)> {
        seq![
            ("java.util.LinkedHashMap"@, method_view("java.util.LinkedHashMap"@, "<init>"@, "()V"@, false, Some(Native::Util(UtilNative::LinkedHashMapInit)))),
            ("java.util.LinkedHashMap"@, method_view("java.util.LinkedHashMap"@, "put"@, "(Ljava/lang/Object;Ljava/lang/Object;)Ljava/lang/Object;"@, false, Some(Native::Util(UtilNative::LinkedHashMapPut)))),
            ("java.util.LinkedHashMap"@, method_view("java.util.LinkedHashMap"@, "get"@, "(Ljava/lang/Object;)Ljava/lang/Object;"@, false, Some(Native::Util(UtilNative::LinkedHashMapGet)))),
            ("java.util.LinkedHashMap"@, method_view("java.util.LinkedHashMap"@, "size"@, "()I"@, false, Some(Native::Util(UtilNative::LinkedHashMapSize)))),
            ("java.util.LinkedHashMap"@, method_view("java.util.LinkedHashMap"@, "isEmpty"@, "()Z"@, false, Some(Native::Util(UtilNative::LinkedHashMapIsEmpty)))),
            ("java.util.LinkedHashMap"@, method_view("java.util.LinkedHashMap"@, "containsKey"@, "(Ljava/lang/Object;)Z"@, false, Some(Native::Util(UtilNative::LinkedHashMapContainsKey)))),
        ]
    }

    pub fn register(jvm: &mut Jvm)
        ensures
            only_methods_added(*old(jvm), *final(jvm), Self::registered()),
    {
        jvm.method_area.add_native_method("java.util.LinkedHashMap", LinkedHashMap::init());
        jvm.method_area.add_native_method("java.util.LinkedHashMap", LinkedHashMap::put());
        jvm.method_area.add_native_method("java.util.LinkedHashMap", LinkedHashMap::get());
        jvm.method_area.add_native_method("java.util.LinkedHashMap", LinkedHashMap::size());
        jvm.method_area.add_native_method("java.util.LinkedHashMap", LinkedHashMap::isEmpty());
        jvm.method_area.add_native_method("java.util.LinkedHashMap", LinkedHashMap::containsKey());
        assert(jvm.method_area@ =~= old(jvm).method_area@ + Self::registered());
    }
}

pub struct Scanner;

impl Scanner {
    /// The method `java.util.Scanner.<init>(Ljava/io/InputStream;)V`.
    pub fn init() -> (m: Method)
        ensures
            m@ == method_view("java.util.Scanner"@, "<init>"@, "(Ljava/io/InputStream;)V"@, false, Some(Native::Util(UtilNative::ScannerInit))),
    {
        Method::new_native("java.util.Scanner", "<init>", "(Ljava/io/InputStream;)V", false, Some(Native::Util(UtilNative::ScannerInit)))
    }

    /// The method `java.util.Scanner.nextInt()I`.
    pub fn nextInt() -> (m: Method)
        ensures
            m@ == method_view("java.util.Scanner"@, "nextInt"@, "()I"@, false, Some(Native::Util(UtilNative::ScannerNextInt))),
    {
        Method::new_native("java.util.Scanner", "nextInt", "()I", false, Some(Native::Util(UtilNative::ScannerNextInt)))
    }

    /// The method `java.util.Scanner.nextLong()J`.
    pub fn nextLong() -> (m: Method)
        ensures
            m@ == method_view("java.util.Scanner"@, "nextLong"@, "()J"@, false, Some(Native::Util(UtilNative::ScannerNextLong))),
    {
        Method::new_native("java.util.Scanner", "nextLong", "()J", false, Some(Native::Util(UtilNative::ScannerNextLong)))
    }

    /// The method `java.util.Scanner.nextDouble()D`.
    pub fn nextDouble() -> (m: Method)
        ensures
            m@ == method_view("java.util.Scanner"@, "nextDouble"@, "()D"@, false, Some(Native::Host(HostNative::ScannerNextDouble))),
    {
        Method::new_native("java.util.Scanner", "nextDouble", "()D", false, Some(Native::Host(HostNative::ScannerNextDouble)))
    }

    /// The method `java.util.Scanner.next()Ljava/lang/String;`.
    pub fn next() -> (m: Method)
        ensures
            m@ == method_view("java.util.Scanner"@, "next"@, "()Ljava/lang/String;"@, false, Some(Native::Util(UtilNative::ScannerNext))),
    {
        Method::new_native("java.util.Scanner", "next", "()Ljava/lang/String;", false, Some(Native::Util(UtilNative::ScannerNext)))
    }

    /// The method `java.util.Scanner.nextLine()Ljava/lang/String;`.
    pub fn nextLine() -> (m: Method)
        ensures
            m@ == method_view("java.util.Scanner"@, "nextLine"@, "()Ljava/lang/String;"@, false, Some(Native::Util(UtilNative::ScannerNextLine))),
    {
        Method::new_native("java.util.Scanner", "nextLine", "()Ljava/lang/String;", false, Some(Native::Util(UtilNative::ScannerNextLine)))
    }

    /// The method `java.util.Scanner.hasNext()Z`.
    pub fn hasNext() -> (m: Method)
        ensures
            m@ == method_view("java.util.Scanner"@, "hasNext"@, "()Z"@, false, Some(Native::Util(UtilNative::ScannerHasNext))),
    {
        Method::new_native("java.util.Scanner", "hasNext", "()Z", false, Some(Native::Util(UtilNative::ScannerHasNext)))
    }

    /// The method `java.util.Scanner.close()V`.
    pub fn close() -> (m: Method)
        ensures
            m@ == method_view("java.util.Scanner"@, "close"@, "()V"@, false, None),
    {
        Method::new_native("java.util.Scanner", "close", "()V", false, None)
    }

    /// What `register` adds to the method area, in order.
    pub open spec fn registered() -> Seq<(Seq<char>, MethodView)> {
        seq![
            ("java.util.Scanner"@, method_view("java.util.Scanner"@, "<init>"@, "(Ljava/io/InputStream;)V"@, false, Some(Native::Util(UtilNative::ScannerInit)))),
            ("java.util.Scanner"@, method_view("java.util.Scanner"@, "nextInt"@, "()I"@, false, Some(Native::Util(UtilNative::ScannerNextInt)))),
            ("java.util.Scanner"@, method_view("java.util.Scanner"@, "nextLong"@, "()J"@, false, Some(Native::Util(UtilNative::ScannerNextLong)))),
            ("java.util.Scanner"@, method_view("java.util.Scanner"@, "nextDouble"@, "()D"@, false, Some(Native::Host(HostNative::ScannerNextDouble)))),
            ("java.util.Scanner"@, method_view("java.util.Scanner"@, "next"@, "()Ljava/lang/String;"@, false, Some(Native::Util(UtilNative::ScannerNext)))),
            ("java.util.Scanner"@, method_view("java.util.Scanner"@, "nextLine"@, "()Ljava/lang/String;"@, false, Some(Native::Util(UtilNative::ScannerNextLine)))),
            ("java.util.Scanner"@, method_view("java.util.Scanner"@, "hasNext"@, "()Z"@, false, Some(Native::Util(UtilNative::ScannerHasNext)))),
            ("java.util.Scanner"@, method_view("java.util.Scanner"@, "close"@, "()V"@, false, None)),
        ]
    }

    pub fn register(jvm: &mut Jvm)
        ensures
            only_methods_added(*old(jvm), *final(jvm), Self::registered()),
    {
        jvm.method_area.add_native_method("java.util.Scanner", Scanner::init());
        jvm.method_area.add_native_method("java.util.Scanner", Scanner::nextInt());
        jvm.method_area.add_native_method("java.util.Scanner", Scanner::nextLong());
        jvm.method_area.add_native_method("java.util.Scanner", Scanner::nextDouble());
        jvm.method_area.add_native_method("java.util.Scanner", Scanner::next());
        jvm.method_area.add_native_method("java.util.Scanner", Scanner::nextLine());
        jvm.method_area.add_native_method("java.util.Scanner", Scanner::hasNext());
        jvm.method_area.add_native_method("java.util.Scanner", Scanner::close());
        assert(jvm.method_area@ =~= old(jvm).method_area@ + Self::registered());
    }
}

pub struct ReentrantLock;

impl ReentrantLock {
    /// The method `java.util.concurrent.locks.ReentrantLock.<init>()V`.
    pub fn init() -> (m: Method)
        ensures
            m@ == method_view("java.util.concurrent.locks.ReentrantLock"@, "<init>"@, "()V"@, false, None),
    {
        Method::new_native("java.util.concurrent.locks.ReentrantLock", "<init>", "()V", false, None)
    }

    /// The method `java.util.concurrent.locks.ReentrantLock.lock()V`.
    pub fn lock() -> (m: Method)
        ensures
            m@ == method_view("java.util.concurrent.locks.ReentrantLock"@, "lock"@, "()V"@, false, Some(Native::Util(UtilNative::ReentrantLockLock))),
    {
        Method::new_native("java.util.concurrent.locks.ReentrantLock", "lock", "()V", false, Some(Native::Util(UtilNative::ReentrantLockLock)))
    }

    /// The method `java.util.concurrent.locks.ReentrantLock.unlock()V`.
    pub fn unlock() -> (m: Method)
        ensures
            m@ == method_view("java.util.concurrent.locks.ReentrantLock"@, "unlock"@, "()V"@, false, Some(Native::Util(UtilNative::ReentrantLockUnlock))),
    {
        Method::new_native("java.util.concurrent.locks.ReentrantLock", "unlock", "()V", false, Some(Native::Util(UtilNative::ReentrantLockUnlock)))
    }

    /// The method `java.util.concurrent.locks.ReentrantLock.tryLock()Z`.
    pub fn tryLock() -> (m: Method)
        ensures
            m@ == method_view("java.util.concurrent.locks.ReentrantLock"@, "tryLock"@, "()Z"@, false, Some(Native::Util(UtilNative::ReentrantLockTryLock))),
    {
        Method::new_native("java.util.concurrent.locks.ReentrantLock", "tryLock", "()Z", false, Some(Native::Util(UtilNative::ReentrantLockTryLock)))
    }

    /// What `register` adds to the method area, in order.
    pub open spec fn registered() -> Seq<(Seq<char>, MethodView)> {
        seq![
            ("java.util.concurrent.locks.ReentrantLock"@, method_view("java.util.concurrent.locks.ReentrantLock"@, "<init>"@, "()V"@, false, None)),
            ("java.util.concurrent.locks.ReentrantLock"@, method_view("java.util.concurrent.locks.ReentrantLock"@, "lock"@, "()V"@, false, Some(Native::Util(UtilNative::ReentrantLockLock)))),
            ("java.util.concurrent.locks.ReentrantLock"@, method_view("java.util.concurrent.locks.ReentrantLock"@, "unlock"@, "()V"@, false, Some(Native::Util(UtilNative::ReentrantLockUnlock)))),
            ("java.util.concurrent.locks.ReentrantLock"@, method_view("java.util.concurrent.locks.ReentrantLock"@, "tryLock"@, "()Z"@, false, Some(Native::Util(UtilNative::ReentrantLockTryLock)))),
        ]
    }

    pub fn register(jvm: &mut Jvm)
        ensures
            only_methods_added(*old(jvm), *final(jvm), Self::registered()),
    {
        jvm.method_area.add_native_method("java.util.concurrent.locks.ReentrantLock", ReentrantLock::init());
        jvm.method_area.add_native_method("java.util.concurrent.locks.ReentrantLock", ReentrantLock::lock());
        jvm.method_area.add_native_method("java.util.concurrent.locks.ReentrantLock", ReentrantLock::unlock());
        jvm.method_area.add_native_method("java.util.concurrent.locks.ReentrantLock", ReentrantLock::tryLock());
        assert(jvm.method_area@ =~= old(jvm).method_area@ + Self::registered());
    }
}

pub struct Date;

impl Date {
    /// The method `java.util.Date.<init>()V`.
    pub fn init() -> (m: Method)
        ensures
            m@ == method_view("java.util.Date"@, "<init>"@, "()V"@, false, Some(Native::Util(UtilNative::DateInit))),
    {
        Method::new_native("java.util.Date", "<init>", "()V", false, Some(Native::Util(UtilNative::DateInit)))
    }

    /// The method `java.util.Date.<init>(J)V`.
    pub fn init_millis() -> (m: Method)
        ensures
            m@ == method_view("java.util.Date"@, "<init>"@, "(J)V"@, false, Some(Native::Util(UtilNative::DateInitMillis))),
    {
        Method::new_native("java.util.Date", "<init>", "(J)V", false, Some(Native::Util(UtilNative::DateInitMillis)))
    }

    /// The method `java.util.Date.getTime()J`.
    pub fn getTime() -> (m: Method)
        ensures
            m@ == method_view("java.util.Date"@, "getTime"@, "()J"@, false, Some(Native::Util(UtilNative::DateGetTime))),
    {
        Method::new_native("java.util.Date", "getTime", "()J", false, Some(Native::Util(UtilNative::DateGetTime)))
    }

    /// The method `java.util.Date.setTime(J)V`.
    pub fn setTime() -> (m: Method)
        ensures
            m@ == method_view("java.util.Date"@, "setTime"@, "(J)V"@, false, Some(Native::Util(UtilNative::DateSetTime))),
    {
        Method::new_native("java.util.Date", "setTime", "(J)V", false, Some(Native::Util(UtilNative::DateSetTime)))
    }

    /// The method `java.util.Date.toString()Ljava/lang/String;`.
    pub fn toString() -> (m: Method)
        ensures
            m@ == method_view("java.util.Date"@, "toString"@, "()Ljava/lang/String;"@, false, Some(Native::Util(UtilNative::DateToString))),
    {
        Method::new_native("java.util.Date", "toString", "()Ljava/lang/String;", false, Some(Native::Util(UtilNative::DateToString)))
    }

    /// What `register` adds to the method area, in order.
    pub open spec fn registered() -> Seq<(Seq<char>, MethodView)> {
        seq![
            ("java.util.Date"@, method_view("java.util.Date"@, "<init>"@, "()V"@, false, Some(Native::Util(UtilNative::DateInit)))),
            ("java.util.Date"@, method_view("java.util.Date"@, "<init>"@, "(J)V"@, false, Some(Native::Util(UtilNative::DateInitMillis)))),
            ("java.util.Date"@, method_view("java.util.Date"@, "getTime"@, "()J"@, false, Some(Native::Util(UtilNative::DateGetTime)))),
            ("java.util.Date"@, method_view("java.util.Date"@, "setTime"@, "(J)V"@, false, Some(Native::Util(UtilNative::DateSetTime)))),
            ("java.util.Date"@, method_view("java.util.Date"@, "toString"@, "()Ljava/lang/String;"@, false, Some(Native::Util(UtilNative::DateToString)))),
        ]
    }

    pub fn register(jvm: &mut Jvm)
        ensures
            only_methods_added(*old(jvm), *final(jvm), Self::registered()),
    {
        jvm.method_area.add_native_method("java.util.Date", Date::init());
        jvm.method_area.add_native_method("java.util.Date", Date::init_millis());
        jvm.method_area.add_native_method("java.util.Date", Date::getTime());
        jvm.method_area.add_native_method("java.util.Date", Date::setTime());
        jvm.method_area.add_native_method("java.util.Date", Date::toString());
        assert(jvm.method_area@ =~= old(jvm).method_area@ + Self::registered());
    }
}

pub struct Queue;

impl Queue {
    /// The method `java.util.Queue.offer(Ljava/lang/Object;)Z`.
    pub fn offer() -> (m: Method)
        ensures
            m@ == method_view("java.util.Queue"@, "offer"@, "(Ljava/lang/Object;)Z"@, false, None),
    {
        Method::new_native("java.util.Queue", "offer", "(Ljava/lang/Object;)Z", false, None)
    }

    /// The method `java.util.Queue.poll()Ljava/lang/Object;`.
    pub fn poll() -> (m: Method)
        ensures
            m@ == method_view("java.util.Queue"@, "poll"@, "()Ljava/lang/Object;"@, false, None),
    {
        Method::new_native("java.util.Queue", "poll", "()Ljava/lang/Object;", false, None)
    }

    /// The method `java.util.Queue.peek()Ljava/lang/Object;`.
    pub fn peek() -> (m: Method)
        ensures
            m@ == method_view("java.util.Queue"@, "peek"@, "()Ljava/lang/Object;"@, false, None),
    {
        Method::new_native("java.util.Queue", "peek", "()Ljava/lang/Object;", false, None)
    }

    /// The method `java.util.Queue.element()Ljava/lang/Object;`.
    pub fn element() -> (m: Method)
        ensures
            m@ == method_view("java.util.Queue"@, "element"@, "()Ljava/lang/Object;"@, false, None),
    {
        Method::new_native("java.util.Queue", "element", "()Ljava/lang/Object;", false, None)
    }

    /// What `register` adds to the method area, in order.
    pub open spec fn registered() -> Seq<(Seq<char>, MethodView)> {
        seq![
            ("java.util.Queue"@, method_view("java.util.Queue"@, "offer"@, "(Ljava/lang/Object;)Z"@, false, None)),
            ("java.util.Queue"@, method_view("java.util.Queue"@, "poll"@, "()Ljava/lang/Object;"@, false, None)),
            ("java.util.Queue"@, method_view("java.util.Queue"@, "peek"@, "()Ljava/lang/Object;"@, false, None)),
            ("java.util.Queue"@, method_view("java.util.Queue"@, "element"@, "()Ljava/lang/Object;"@, false, None)),
        ]
    }

    pub fn register(jvm: &mut Jvm)
        ensures
            only_methods_added(*old(jvm), *final(jvm), Self::registered()),
    {
        jvm.method_area.add_native_method("java.util.Queue", Queue::offer());
        jvm.method_area.add_native_method("java.util.Queue", Queue::poll());
        jvm.method_area.add_native_method("java.util.Queue", Queue::peek());
        jvm.method_area.add_native_method("java.util.Queue", Queue::element());
        assert(jvm.method_area@ =~= old(jvm).method_area@ + Self::registered());
    }
}

pub struct Deque;

impl Deque {
    /// The method `java.util.Deque.offerFirst(Ljava/lang/Object;)Z`.
    pub fn offerFirst() -> (m: Method)
        ensures
            m@ == method_view("java.util.Deque"@, "offerFirst"@, "(Ljava/lang/Object;)Z"@, false, None),
    {
        Method::new_native("java.util.Deque", "offerFirst", "(Ljava/lang/Object;)Z", false, None)
    }

    /// The method `java.util.Deque.offerLast(Ljava/lang/Object;)Z`.
    pub fn offerLast() -> (m: Method)
        ensures
            m@ == method_view("java.util.Deque"@, "offerLast"@, "(Ljava/lang/Object;)Z"@, false, None),
    {
        Method::new_native("java.util.Deque", "offerLast", "(Ljava/lang/Object;)Z", false, None)
    }

    /// The method `java.util.Deque.pollFirst()Ljava/lang/Object;`.
    pub fn pollFirst() -> (m: Method)
        ensures
            m@ == method_view("java.util.Deque"@, "pollFirst"@, "()Ljava/lang/Object;"@, false, None),
    {
        Method::new_native("java.util.Deque", "pollFirst", "()Ljava/lang/Object;", false, None)
    }

    /// The method `java.util.Deque.pollLast()Ljava/lang/Object;`.
    pub fn pollLast() -> (m: Method)
        ensures
            m@ == method_view("java.util.Deque"@, "pollLast"@, "()Ljava/lang/Object;"@, false, None),
    {
        Method::new_native("java.util.Deque", "pollLast", "()Ljava/lang/Object;", false, None)
    }

    /// What `register` adds to the method area, in order.
    pub open spec fn registered() -> Seq<(Seq<char>, MethodView)> {
        seq![
            ("java.util.Deque"@, method_view("java.util.Deque"@, "offerFirst"@, "(Ljava/lang/Object;)Z"@, false, None)),
            ("java.util.Deque"@, method_view("java.util.Deque"@, "offerLast"@, "(Ljava/lang/Object;)Z"@, false, None)),
            ("java.util.Deque"@, method_view("java.util.Deque"@, "pollFirst"@, "()Ljava/lang/Object;"@, false, None)),
            ("java.util.Deque"@, method_view("java.util.Deque"@, "pollLast"@, "()Ljava/lang/Object;"@, false, None)),
        ]
    }

    pub fn register(jvm: &mut Jvm)
        ensures
            only_methods_added(*old(jvm), *final(jvm), Self::registered()),
    {
        jvm.method_area.add_native_method("java.util.Deque", Deque::offerFirst());
        jvm.method_area.add_native_method("java.util.Deque", Deque::offerLast());
        jvm.method_area.add_native_method("java.util.Deque", Deque::pollFirst());
        jvm.method_area.add_native_method("java.util.Deque", Deque::pollLast());
        assert(jvm.method_area@ =~= old(jvm).method_area@ + Self::registered());
    }
}

pub struct Locale;

impl Locale {
    /// The method `java.util.Locale.getDefault()Ljava/util/Locale;`.
    pub fn getDefault() -> (m: Method)
        ensures
            m@ == method_view("java.util.Locale"@, "getDefault"@, "()Ljava/util/Locale;"@, true, Some(Native::Util(UtilNative::LocaleGetDefault))),
    {
        Method::new_native("java.util.Locale", "getDefault", "()Ljava/util/Locale;", true, Some(Native::Util(UtilNative::LocaleGetDefault)))
    }

    /// The method `java.util.Locale.getLanguage()Ljava/lang/String;`.
    pub fn getLanguage() -> (m: Method)
        ensures
            m@ == method_view("java.util.Locale"@, "getLanguage"@, "()Ljava/lang/String;"@, false, Some(Native::Util(UtilNative::LocaleGetLanguage))),
    {
        Method::new_native("java.util.Locale", "getLanguage", "()Ljava/lang/String;", false, Some(Native::Util(UtilNative::LocaleGetLanguage)))
    }

    /// The method `java.util.Locale.getCountry()Ljava/lang/String;`.
    pub fn getCountry() -> (m: Method)
        ensures
            m@ == method_view("java.util.Locale"@, "getCountry"@, "()Ljava/lang/String;"@, false, Some(Native::Util(UtilNative::LocaleGetCountry))),
    {
        Method::new_native("java.util.Locale", "getCountry", "()Ljava/lang/String;", false, Some(Native::Util(UtilNative::LocaleGetCountry)))
    }

    /// What `register` adds to the method area, in order.
    pub open spec fn registered() -> Seq<(Seq<char>, MethodView)> {
        seq![
            ("java.util.Locale"@, method_view("java.util.Locale"@, "getDefault"@, "()Ljava/util/Locale;"@, true, Some(Native::Util(UtilNative::LocaleGetDefault)))),
            ("java.util.Locale"@, method_view("java.util.Locale"@, "getLanguage"@, "()Ljava/lang/String;"@, false, Some(Native::Util(UtilNative::LocaleGetLanguage)))),
            ("java.util.Locale"@, method_view("java.util.Locale"@, "getCountry"@, "()Ljava/lang/String;"@, false, Some(Native::Util(UtilNative::LocaleGetCountry)))),
        ]
    }

    pub fn register(jvm: &mut Jvm)
        ensures
            only_methods_added(*old(jvm), *final(jvm), Self::registered()),
    {
        jvm.method_area.add_native_method("java.util.Locale", Locale::getDefault());
        jvm.method_area.add_native_method("java.util.Locale", Locale::getLanguage());
        jvm.method_area.add_native_method("java.util.Locale", Locale::getCountry());
        assert(jvm.method_area@ =~= old(jvm).method_area@ + Self::registered());
    }
}

pub struct BitSet;

impl BitSet {
    /// The method `java.util.BitSet.<init>()V`.
    pub fn init() -> (m: Method)
        ensures
            m@ == method_view("java.util.BitSet"@, "<init>"@, "()V"@, false, Some(Native::Util(UtilNative::BitSetInit))),
    {
        Method::new_native("java.util.BitSet", "<init>", "()V", false, Some(Native::Util(UtilNative::BitSetInit)))
    }

    /// The method `java.util.BitSet.get(I)Z`.
    pub fn get() -> (m: Method)
        ensures
            m@ == method_view("java.util.BitSet"@, "get"@, "(I)Z"@, false, Some(Native::Util(UtilNative::BitSetGet))),
    {
        Method::new_native("java.util.BitSet", "get", "(I)Z", false, Some(Native::Util(UtilNative::BitSetGet)))
    }

    /// The method `java.util.BitSet.set(I)V`.
    pub fn set() -> (m: Method)
        ensures
            m@ == method_view("java.util.BitSet"@, "set"@, "(I)V"@, false, Some(Native::Util(UtilNative::BitSetSet))),
    {
        Method::new_native("java.util.BitSet", "set", "(I)V", false, Some(Native::Util(UtilNative::BitSetSet)))
    }

    /// The method `java.util.BitSet.clear(I)V`.
    pub fn clear() -> (m: Method)
        ensures
            m@ == method_view("java.util.BitSet"@, "clear"@, "(I)V"@, false, Some(Native::Util(UtilNative::BitSetClear))),
    {
        Method::new_native("java.util.BitSet", "clear", "(I)V", false, Some(Native::Util(UtilNative::BitSetClear)))
    }

    /// The method `java.util.BitSet.cardinality()I`.
    pub fn cardinality() -> (m: Method)
        ensures
            m@ == method_view("java.util.BitSet"@, "cardinality"@, "()I"@, false, Some(Native::Util(UtilNative::BitSetCardinality))),
    {
        Method::new_native("java.util.BitSet", "cardinality", "()I", false, Some(Native::Util(UtilNative::BitSetCardinality)))
    }

    /// What `register` adds to the method area, in order.
    pub open spec fn registered() -> Seq<(Seq<char>, MethodView)> {
        seq![
            ("java.util.BitSet"@, method_view("java.util.BitSet"@, "<init>"@, "()V"@, false, Some(Native::Util(UtilNative::BitSetInit)))),
            ("java.util.BitSet"@, method_view("java.util.BitSet"@, "get"@, "(I)Z"@, false, Some(Native::Util(UtilNative::BitSetGet)))),
            ("java.util.BitSet"@, method_view("java.util.BitSet"@, "set"@, "(I)V"@, false, Some(Native::Util(UtilNative::BitSetSet)))),
            ("java.util.BitSet"@, method_view("java.util.BitSet"@, "clear"@, "(I)V"@, false, Some(Native::Util(UtilNative::BitSetClear)))),
            ("java.util.BitSet"@, method_view("java.util.BitSet"@, "cardinality"@, "()I"@, false, Some(Native::Util(UtilNative::BitSetCardinality)))),
        ]
    }

    pub fn register(jvm: &mut Jvm)
        ensures
            only_methods_added(*old(jvm), *final(jvm), Self::registered()),
    {
        jvm.method_area.add_native_method("java.util.BitSet", BitSet::init());
        jvm.method_area.add_native_method("java.util.BitSet", BitSet::get());
        jvm.method_area.add_native_method("java.util.BitSet", BitSet::set());
        jvm.method_area.add_native_method("java.util.BitSet", BitSet::clear());
        jvm.method_area.add_native_method("java.util.BitSet", BitSet::cardinality());
        assert(jvm.method_area@ =~= old(jvm).method_area@ + Self::registered());
    }
}

pub struct Consumer;

impl Consumer {
    /// The method `java.util.function.Consumer.accept(Ljava/lang/Object;)V`.
    pub fn accept() -> (m: Method)
        ensures
            m@ == method_view("java.util.function.Consumer"@, "accept"@, "(Ljava/lang/Object;)V"@, false, None),
    {
        Method::new_native("java.util.function.Consumer", "accept", "(Ljava/lang/Object;)V", false, None)
    }

    /// What `register` adds to the method area, in order.
    pub open spec fn registered() -> Seq<(Seq<char>, MethodView)> {
        seq![
            ("java.util.function.Consumer"@, method_view("java.util.function.Consumer"@, "accept"@, "(Ljava/lang/Object;)V"@, false, None)),
        ]
    }

    pub fn register(jvm: &mut Jvm)
        ensures
            only_methods_added(*old(jvm), *final(jvm), Self::registered()),
    {
        jvm.method_area.add_native_method("java.util.function.Consumer", Consumer::accept());
        assert(jvm.method_area@ =~= old(jvm).method_area@ + Self::registered());
    }
}

pub struct Function;

impl Function {
    /// The method `java.util.function.Function.apply(Ljava/lang/Object;)Ljava/lang/Object;`.
    pub fn apply() -> (m: Method)
        ensures
            m@ == method_view("java.util.function.Function"@, "apply"@, "(Ljava/lang/Object;)Ljava/lang/Object;"@, false, None),
    {
        Method::new_native("java.util.function.Function", "apply", "(Ljava/lang/Object;)Ljava/lang/Object;", false, None)
    }

    /// What `register` adds to the method area, in order.
    pub open spec fn registered() -> Seq<(Seq<char>, MethodView)> {
        seq![
            ("java.util.function.Function"@, method_view("java.util.function.Function"@, "apply"@, "(Ljava/lang/Object;)Ljava/lang/Object;"@, false, None)),
        ]
    }

    pub fn register(jvm: &mut Jvm)
        ensures
            only_methods_added(*old(jvm), *final(jvm), Self::registered()),
    {
        jvm.method_area.add_native_method("java.util.function.Function", Function::apply());
        assert(jvm.method_area@ =~= old(jvm).method_area@ + Self::registered());
    }
}

pub struct Supplier;

impl Supplier {
    /// The method `java.util.function.Supplier.get()Ljava/lang/Object;`.
    pub fn get() -> (m: Method)
        ensures
            m@ == method_view("java.util.function.Supplier"@, "get"@, "()Ljava/lang/Object;"@, false, None),
    {
        Method::new_native("java.util.function.Supplier", "get", "()Ljava/lang/Object;", false, None)
    }

    /// What `register` adds to the method area, in order.
    pub open spec fn registered() -> Seq<(Seq<char>, MethodView)> {
        seq![
            ("java.util.function.Supplier"@, method_view("java.util.function.Supplier"@, "get"@, "()Ljava/lang/Object;"@, false, None)),
        ]
    }

    pub fn register(jvm: &mut Jvm)
        ensures
            only_methods_added(*old(jvm), *final(jvm), Self::registered()),
    {
        jvm.method_area.add_native_method("java.util.function.Supplier", Supplier::get());
        assert(jvm.method_area@ =~= old(jvm).method_area@ + Self::registered());
    }
}

pub struct Predicate;

impl Predicate {
    /// The method `java.util.function.Predicate.test(Ljava/lang/Object;)Z`.
    pub fn test() -> (m: Method)
        ensures
            m@ == method_view("java.util.function.Predicate"@, "test"@, "(Ljava/lang/Object;)Z"@, false, None),
    {
        Method::new_native("java.util.function.Predicate", "test", "(Ljava/lang/Object;)Z", false, None)
    }

    /// What `register` adds to the method area, in order.
    pub open spec fn registered() -> Seq<(Seq<char>, MethodView)> {
        seq![
            ("java.util.function.Predicate"@, method_view("java.util.function.Predicate"@, "test"@, "(Ljava/lang/Object;)Z"@, false, None)),
        ]
    }

    pub fn register(jvm: &mut Jvm)
        ensures
            only_methods_added(*old(jvm), *final(jvm), Self::registered()),
    {
        jvm.method_area.add_native_method("java.util.function.Predicate", Predicate::test());
        assert(jvm.method_area@ =~= old(jvm).method_area@ + Self::registered());
    }
}

pub struct OptionalInt;

impl OptionalInt {
    /// The method `java.util.OptionalInt.empty()Ljava/util/OptionalInt;`.
    pub fn empty() -> (m: Method)
        ensures
            m@ == method_view("java.util.OptionalInt"@, "empty"@, "()Ljava/util/OptionalInt;"@, true, Some(Native::Util(UtilNative::OptionalIntEmpty))),
    {
        Method::new_native("java.util.OptionalInt", "empty", "()Ljava/util/OptionalInt;", true, Some(Native::Util(UtilNative::OptionalIntEmpty)))
    }

    /// The method `java.util.OptionalInt.of(I)Ljava/util/OptionalInt;`.
    pub fn of() -> (m: Method)
        ensures
            m@ == method_view("java.util.OptionalInt"@, "of"@, "(I)Ljava/util/OptionalInt;"@, true, Some(Native::Util(UtilNative::OptionalIntOf))),
    {
        Method::new_native("java.util.OptionalInt", "of", "(I)Ljava/util/OptionalInt;", true, Some(Native::Util(UtilNative::OptionalIntOf)))
    }

    /// The method `java.util.OptionalInt.isPresent()Z`.
    pub fn isPresent() -> (m: Method)
        ensures
            m@ == method_view("java.util.OptionalInt"@, "isPresent"@, "()Z"@, false, Some(Native::Util(UtilNative::OptionalIntIsPresent))),
    {
        Method::new_native("java.util.OptionalInt", "isPresent", "()Z", false, Some(Native::Util(UtilNative::OptionalIntIsPresent)))
    }

    /// The method `java.util.OptionalInt.getAsInt()I`.
    pub fn getAsInt() -> (m: Method)
        ensures
            m@ == method_view("java.util.OptionalInt"@, "getAsInt"@, "()I"@, false, Some(Native::Util(UtilNative::OptionalIntGetAsInt))),
    {
        Method::new_native("java.util.OptionalInt", "getAsInt", "()I", false, Some(Native::Util(UtilNative::OptionalIntGetAsInt)))
    }

    /// The method `java.util.OptionalInt.orElse(I)I`.
    pub fn orElse() -> (m: Method)
        ensures
            m@ == method_view("java.util.OptionalInt"@, "orElse"@, "(I)I"@, false, Some(Native::Util(UtilNative::OptionalIntOrElse))),
    {
        Method::new_native("java.util.OptionalInt", "orElse", "(I)I", false, Some(Native::Util(UtilNative::OptionalIntOrElse)))
    }

    /// What `register` adds to the method area, in order.
    pub open spec fn registered() -> Seq<(Seq<char>, MethodView)> {
        seq![
            ("java.util.OptionalInt"@, method_view("java.util.OptionalInt"@, "empty"@, "()Ljava/util/OptionalInt;"@, true, Some(Native::Util(UtilNative::OptionalIntEmpty)))),
            ("java.util.OptionalInt"@, method_view("java.util.OptionalInt"@, "of"@, "(I)Ljava/util/OptionalInt;"@, true, Some(Native::Util(UtilNative::OptionalIntOf)))),
            ("java.util.OptionalInt"@, method_view("java.util.OptionalInt"@, "isPresent"@, "()Z"@, false, Some(Native::Util(UtilNative::OptionalIntIsPresent)))),
            ("java.util.OptionalInt"@, method_view("java.util.OptionalInt"@, "getAsInt"@, "()I"@, false, Some(Native::Util(UtilNative::OptionalIntGetAsInt)))),
            ("java.util.OptionalInt"@, method_view("java.util.OptionalInt"@, "orElse"@, "(I)I"@, false, Some(Native::Util(UtilNative::OptionalIntOrElse)))),
        ]
    }

    pub fn register(jvm: &mut Jvm)
        ensures
            only_methods_added(*old(jvm), *final(jvm), Self::registered()),
    {
        jvm.method_area.add_native_method("java.util.OptionalInt", OptionalInt::empty());
        jvm.method_area.add_native_method("java.util.OptionalInt", OptionalInt::of());
        jvm.method_area.add_native_method("java.util.OptionalInt", OptionalInt::isPresent());
        jvm.method_area.add_native_method("java.util.OptionalInt", OptionalInt::getAsInt());
        jvm.method_area.add_native_method("java.util.OptionalInt", OptionalInt::orElse());
        assert(jvm.method_area@ =~= old(jvm).method_area@ + Self::registered());
    }
}

pub struct OptionalLong;

impl OptionalLong {
    /// The method `java.util.OptionalLong.empty()Ljava/util/OptionalLong;`.
    pub fn empty() -> (m: Method)
        ensures
            m@ == method_view("java.util.OptionalLong"@, "empty"@, "()Ljava/util/OptionalLong;"@, true, Some(Native::Util(UtilNative::OptionalLongEmpty))),
    {
        Method::new_native("java.util.OptionalLong", "empty", "()Ljava/util/OptionalLong;", true, Some(Native::Util(UtilNative::OptionalLongEmpty)))
    }

    /// The method `java.util.OptionalLong.of(J)Ljava/util/OptionalLong;`.
    pub fn of() -> (m: Method)
        ensures
            m@ == method_view("java.util.OptionalLong"@, "of"@, "(J)Ljava/util/OptionalLong;"@, true, Some(Native::Util(UtilNative::OptionalLongOf))),
    {
        Method::new_native("java.util.OptionalLong", "of", "(J)Ljava/util/OptionalLong;", true, Some(Native::Util(UtilNative::OptionalLongOf)))
    }

    /// The method `java.util.OptionalLong.isPresent()Z`.
    pub fn isPresent() -> (m: Method)
        ensures
            m@ == method_view("java.util.OptionalLong"@, "isPresent"@, "()Z"@, false, Some(Native::Util(UtilNative::OptionalLongIsPresent))),
    {
        Method::new_native("java.util.OptionalLong", "isPresent", "()Z", false, Some(Native::Util(UtilNative::OptionalLongIsPresent)))
    }

    /// The method `java.util.OptionalLong.getAsLong()J`.
    pub fn getAsLong() -> (m: Method)
        ensures
            m@ == method_view("java.util.OptionalLong"@, "getAsLong"@, "()J"@, false, Some(Native::Util(UtilNative::OptionalLongGetAsLong))),
    {
        Method::new_native("java.util.OptionalLong", "getAsLong", "()J", false, Some(Native::Util(UtilNative::OptionalLongGetAsLong)))
    }

    /// What `register` adds to the method area, in order.
    pub open spec fn registered() -> Seq<(Seq<char>, MethodView)> {
        seq![
            ("java.util.OptionalLong"@, method_view("java.util.OptionalLong"@, "empty"@, "()Ljava/util/OptionalLong;"@, true, Some(Native::Util(UtilNative::OptionalLongEmpty)))),
            ("java.util.OptionalLong"@, method_view("java.util.OptionalLong"@, "of"@, "(J)Ljava/util/OptionalLong;"@, true, Some(Native::Util(UtilNative::OptionalLongOf)))),
            ("java.util.OptionalLong"@, method_view("java.util.OptionalLong"@, "isPresent"@, "()Z"@, false, Some(Native::Util(UtilNative::OptionalLongIsPresent)))),
            ("java.util.OptionalLong"@, method_view("java.util.OptionalLong"@, "getAsLong"@, "()J"@, false, Some(Native::Util(UtilNative::OptionalLongGetAsLong)))),
        ]
    }

    pub fn register(jvm: &mut Jvm)
        ensures
            only_methods_added(*old(jvm), *final(jvm), Self::registered()),
    {
        jvm.method_area.add_native_method("java.util.OptionalLong", OptionalLong::empty());
        jvm.method_area.add_native_method("java.util.OptionalLong", OptionalLong::of());
        jvm.method_area.add_native_method("java.util.OptionalLong", OptionalLong::isPresent());
        jvm.method_area.add_native_method("java.util.OptionalLong", OptionalLong::getAsLong());
        assert(jvm.method_area@ =~= old(jvm).method_area@ + Self::registered());
    }
}

pub struct OptionalDouble;

impl OptionalDouble {
    /// The method `java.util.OptionalDouble.empty()Ljava/util/OptionalDouble;`.
    pub fn empty() -> (m: Method)
        ensures
            m@ == method_view("java.util.OptionalDouble"@, "empty"@, "()Ljava/util/OptionalDouble;"@, true, Some(Native::Util(UtilNative::OptionalDoubleEmpty))),
    {
        Method::new_native("java.util.OptionalDouble", "empty", "()Ljava/util/OptionalDouble;", true, Some(Native::Util(UtilNative::OptionalDoubleEmpty)))
    }

    /// The method `java.util.OptionalDouble.of(D)Ljava/util/OptionalDouble;`.
    pub fn of() -> (m: Method)
        ensures
            m@ == method_view("java.util.OptionalDouble"@, "of"@, "(D)Ljava/util/OptionalDouble;"@, true, Some(Native::Host(HostNative::OptionalDoubleOf))),
    {
        Method::new_native("java.util.OptionalDouble", "of", "(D)Ljava/util/OptionalDouble;", true, Some(Native::Host(HostNative::OptionalDoubleOf)))
    }

    /// The method `java.util.OptionalDouble.isPresent()Z`.
    pub fn isPresent() -> (m: Method)
        ensures
            m@ == method_view("java.util.OptionalDouble"@, "isPresent"@, "()Z"@, false, Some(Native::Util(UtilNative::OptionalDoubleIsPresent))),
    {
        Method::new_native("java.util.OptionalDouble", "isPresent", "()Z", false, Some(Native::Util(UtilNative::OptionalDoubleIsPresent)))
    }

    /// The method `java.util.OptionalDouble.getAsDouble()D`.
    pub fn getAsDouble() -> (m: Method)
        ensures
            m@ == method_view("java.util.OptionalDouble"@, "getAsDouble"@, "()D"@, false, Some(Native::Util(UtilNative::OptionalDoubleGetAsDouble))),
    {
        Method::new_native("java.util.OptionalDouble", "getAsDouble", "()D", false, Some(Native::Util(UtilNative::OptionalDoubleGetAsDouble)))
    }

    /// What `register` adds to the method area, in order.
    pub open spec fn registered() -> Seq<(Seq<char>, MethodView)> {
        seq![
            ("java.util.OptionalDouble"@, method_view("java.util.OptionalDouble"@, "empty"@, "()Ljava/util/OptionalDouble;"@, true, Some(Native::Util(UtilNative::OptionalDoubleEmpty)))),
            ("java.util.OptionalDouble"@, method_view("java.util.OptionalDouble"@, "of"@, "(D)Ljava/util/OptionalDouble;"@, true, Some(Native::Host(HostNative::OptionalDoubleOf)))),
            ("java.util.OptionalDouble"@, method_view("java.util.OptionalDouble"@, "isPresent"@, "()Z"@, false, Some(Native::Util(UtilNative::OptionalDoubleIsPresent)))),
            ("java.util.OptionalDouble"@, method_view("java.util.OptionalDouble"@, "getAsDouble"@, "()D"@, false, Some(Native::Util(UtilNative::OptionalDoubleGetAsDouble)))),
        ]
    }

    pub fn register(jvm: &mut Jvm)
        ensures
            only_methods_added(*old(jvm), *final(jvm), Self::registered()),
    {
        jvm.method_area.add_native_method("java.util.OptionalDouble", OptionalDouble::empty());
        jvm.method_area.add_native_method("java.util.OptionalDouble", OptionalDouble::of());
        jvm.method_area.add_native_method("java.util.OptionalDouble", OptionalDouble::isPresent());
        jvm.method_area.add_native_method("java.util.OptionalDouble", OptionalDouble::getAsDouble());
        assert(jvm.method_area@ =~= old(jvm).method_area@ + Self::registered());
    }
}


/// The method area `before` with everything `register_util_classes` adds, in order.
pub open spec fn with_all_registrations(before: Seq<(Seq<char>, MethodView)>) -> Seq<(Seq<char>, MethodView)> {
    before + ArrayList::registered() + LinkedList::registered() + Stack::registered() + HashMap::registered() + LinkedHashMap::registered() + TreeMap::registered() + HashSet::registered() + LinkedHashSet::registered() + PriorityQueue::registered() + Random::registered() + UUID::registered() + BitSet::registered() + Consumer::registered() + Function::registered() + Supplier::registered() + Predicate::registered() + Base64::registered() + Arrays::registered() + Collections::registered() + Comparator::registered() + Locale::registered() + Queue::registered() + Deque::registered() + Iterator::registered() + Iterable::registered() + Objects::registered() + Optional::registered() + OptionalInt::registered() + OptionalLong::registered() + OptionalDouble::registered() + AtomicInteger::registered() + AtomicLong::registered() + AtomicReference::registered() + AtomicBoolean::registered() + ReentrantLock::registered() + Date::registered() + Scanner::registered() + Properties::registered()
}

/// Register all java.util classes with the JVM.
pub fn register_util_classes(jvm: &mut Jvm)
    ensures
        final(jvm).method_area@ == with_all_registrations(old(jvm).method_area@),
        static_view(&final(jvm).method_area) == static_view(&old(jvm).method_area),
        final(jvm).heap@ == old(jvm).heap@,
        final(jvm).scheduler == old(jvm).scheduler,
        final(jvm).thread_objects@ == old(jvm).thread_objects@,
        final(jvm).current_thread_id == old(jvm).current_thread_id,
{
    ArrayList::register(jvm);
    LinkedList::register(jvm);
    Stack::register(jvm);
    HashMap::register(jvm);
    LinkedHashMap::register(jvm);
    TreeMap::register(jvm);
    HashSet::register(jvm);
    LinkedHashSet::register(jvm);
    PriorityQueue::register(jvm);
    Random::register(jvm);
    UUID::register(jvm);
    BitSet::register(jvm);
    Consumer::register(jvm);
    Function::register(jvm);
    Supplier::register(jvm);
    Predicate::register(jvm);
    Base64::register(jvm);
    Arrays::register(jvm);
    Collections::register(jvm);
    Comparator::register(jvm);
    Locale::register(jvm);
    Queue::register(jvm);
    Deque::register(jvm);
    Iterator::register(jvm);
    Iterable::register(jvm);
    Objects::register(jvm);
    Optional::register(jvm);
    OptionalInt::register(jvm);
    OptionalLong::register(jvm);
    OptionalDouble::register(jvm);
    AtomicInteger::register(jvm);
    AtomicLong::register(jvm);
    AtomicReference::register(jvm);
    AtomicBoolean::register(jvm);
    ReentrantLock::register(jvm);
    Date::register(jvm);
    Scanner::register(jvm);
    Properties::register(jvm);
}

} // verus!
