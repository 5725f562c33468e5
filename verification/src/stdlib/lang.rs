use vstd::prelude::*;
use crate::runtime::jvm::{Jvm, only_methods_added};
use crate::runtime::method::{method_view, static_view, Method, MethodView, Native};
use crate::runtime::value::Value;
use crate::stdlib::host::HostNative;

verus! {

/// The native implementations this library provides for these classes.
#[derive(Clone, Copy, Debug, PartialEq, Eq, Structural)]
pub enum LangNative {
    ObjectGetClass,
    ObjectHashCode,
    ObjectEquals,
    ObjectToString,
    ObjectNotify,
    ObjectNotifyAll,
    ObjectWait,
    ObjectWaitTimeout,
    ObjectWaitNanos,
    ObjectInit,
    StringLength,
    StringEquals,
    StringValueOfInt,
    StringValueOfLong,
    StringValueOfBool,
    StringIsEmpty,
    SystemCurrentTimeMillis,
    SystemNanoTime,
    SystemIdentityHashCode,
    ThreadRun,
    ThreadSleep,
    ThreadJoin,
    ThreadYield,
    ThreadCurrentThread,
    ThreadGetName,
    ThreadSetName,
    ThreadGetPriority,
    ThreadSetPriority,
    ThreadGetId,
    ThreadInterrupt,
    ThreadIsInterrupted,
    ThreadInterrupted,
    ThreadIsAlive,
    StringBuilderInit,
    StringBuilderInitWithCapacity,
    StringBuilderInitWithString,
    StringBuilderAppendString,
    StringBuilderAppendInt,
    StringBuilderAppendLong,
    StringBuilderAppendBool,
    StringBuilderAppendChar,
    StringBuilderAppendObj,
    StringBuilderToString,
    StringBuilderLength,
    IntegerParseInt,
    IntegerParseIntRadix,
    IntegerValueOfInt,
    IntegerValueOfIntObj,
    IntegerValueOfString,
    IntegerToString,
    IntegerToHexString,
    IntegerMAXVALUE,
    IntegerMINVALUE,
    IntegerSIZE,
    IntegerIntValue,
    LongParseLong,
    LongValueOf,
    LongToString,
    LongMAXVALUE,
    LongMINVALUE,
    LongSIZE,
    DoubleMAXVALUE,
    DoubleMINVALUE,
    MathAbsInt,
    MathAbsLong,
    MathAbsFloat,
    MathAbsDouble,
    MathMaxInt,
    MathMaxLong,
    MathMinInt,
    MathMinLong,
    ClassGetName,
    ClassForName,
    ClassGetSimpleName,
    FloatValueOfFloat,
    FloatFloatValue,
    BooleanParseBoolean,
    BooleanBooleanValue,
    BooleanToString,
    RunnableRun,
    ExceptionInitWithMessage,
}

pub struct Object;

impl Object {
    /// The method `java.lang.Object.getClass()Ljava/lang/Class;`.
    pub fn get_class() -> (m: Method)
        ensures
            m@ == method_view("java.lang.Object"@, "getClass"@, "()Ljava/lang/Class;"@, false, Some(Native::Lang(LangNative::ObjectGetClass))),
    {
        Method::new_native("java.lang.Object", "getClass", "()Ljava/lang/Class;", false, Some(Native::Lang(LangNative::ObjectGetClass)))
    }

    /// The method `java.lang.Object.hashCode()I`.
    pub fn hashCode() -> (m: Method)
        ensures
            m@ == method_view("java.lang.Object"@, "hashCode"@, "()I"@, false, Some(Native::Lang(LangNative::ObjectHashCode))),
    {
        Method::new_native("java.lang.Object", "hashCode", "()I", false, Some(Native::Lang(LangNative::ObjectHashCode)))
    }

    /// The method `java.lang.Object.equals(Ljava/lang/Object;)Z`.
    pub fn equals() -> (m: Method)
        ensures
            m@ == method_view("java.lang.Object"@, "equals"@, "(Ljava/lang/Object;)Z"@, false, Some(Native::Lang(LangNative::ObjectEquals))),
    {
        Method::new_native("java.lang.Object", "equals", "(Ljava/lang/Object;)Z", false, Some(Native::Lang(LangNative::ObjectEquals)))
    }

    /// The method `java.lang.Object.toString()Ljava/lang/String;`.
    pub fn toString() -> (m: Method)
        ensures
            m@ == method_view("java.lang.Object"@, "toString"@, "()Ljava/lang/String;"@, false, Some(Native::Lang(LangNative::ObjectToString))),
    {
        Method::new_native("java.lang.Object", "toString", "()Ljava/lang/String;", false, Some(Native::Lang(LangNative::ObjectToString)))
    }

    /// The method `java.lang.Object.clone()Ljava/lang/Object;`.
    pub fn clone() -> (m: Method)
        ensures
            m@ == method_view("java.lang.Object"@, "clone"@, "()Ljava/lang/Object;"@, false, None),
    {
        Method::new_native("java.lang.Object", "clone", "()Ljava/lang/Object;", false, None)
    }

    /// The method `java.lang.Object.notify()V`.
    pub fn notify() -> (m: Method)
        ensures
            m@ == method_view("java.lang.Object"@, "notify"@, "()V"@, false, Some(Native::Lang(LangNative::ObjectNotify))),
    {
        Method::new_native("java.lang.Object", "notify", "()V", false, Some(Native::Lang(LangNative::ObjectNotify)))
    }

    /// The method `java.lang.Object.notifyAll()V`.
    pub fn notifyAll() -> (m: Method)
        ensures
            m@ == method_view("java.lang.Object"@, "notifyAll"@, "()V"@, false, Some(Native::Lang(LangNative::ObjectNotifyAll))),
    {
        Method::new_native("java.lang.Object", "notifyAll", "()V", false, Some(Native::Lang(LangNative::ObjectNotifyAll)))
    }

    /// The method `java.lang.Object.wait()V`.
    pub fn wait() -> (m: Method)
        ensures
            m@ == method_view("java.lang.Object"@, "wait"@, "()V"@, false, Some(Native::Lang(LangNative::ObjectWait))),
    {
        Method::new_native("java.lang.Object", "wait", "()V", false, Some(Native::Lang(LangNative::ObjectWait)))
    }

    /// The method `java.lang.Object.wait(J)V`.
    pub fn wait_timeout() -> (m: Method)
        ensures
            m@ == method_view("java.lang.Object"@, "wait"@, "(J)V"@, false, Some(Native::Lang(LangNative::ObjectWaitTimeout))),
    {
        Method::new_native("java.lang.Object", "wait", "(J)V", false, Some(Native::Lang(LangNative::ObjectWaitTimeout)))
    }

    /// The method `java.lang.Object.wait(JI)V`.
    pub fn wait_nanos() -> (m: Method)
        ensures
            m@ == method_view("java.lang.Object"@, "wait"@, "(JI)V"@, false, Some(Native::Lang(LangNative::ObjectWaitNanos))),
    {
        Method::new_native("java.lang.Object", "wait", "(JI)V", false, Some(Native::Lang(LangNative::ObjectWaitNanos)))
    }

    /// The method `java.lang.Object.finalize()V`.
    pub fn finalize() -> (m: Method)
        ensures
            m@ == method_view("java.lang.Object"@, "finalize"@, "()V"@, false, None),
    {
        Method::new_native("java.lang.Object", "finalize", "()V", false, None)
    }

    /// The method `java.lang.Object.<init>()V`.
    pub fn init() -> (m: Method)
        ensures
            m@ == method_view("java.lang.Object"@, "<init>"@, "()V"@, false, Some(Native::Lang(LangNative::ObjectInit))),
    {
        Method::new_native("java.lang.Object", "<init>", "()V", false, Some(Native::Lang(LangNative::ObjectInit)))
    }

    /// What `register` adds to the method area, in order.
    pub open spec fn registered() -> Seq<(Seq<char>, MethodView)> {
        seq![
            ("java.lang.Object"@, method_view("java.lang.Object"@, "<init>"@, "()V"@, false, Some(Native::Lang(LangNative::ObjectInit)))),
            ("java.lang.Object"@, method_view("java.lang.Object"@, "getClass"@, "()Ljava/lang/Class;"@, false, Some(Native::Lang(LangNative::ObjectGetClass)))),
            ("java.lang.Object"@, method_view("java.lang.Object"@, "hashCode"@, "()I"@, false, Some(Native::Lang(LangNative::ObjectHashCode)))),
            ("java.lang.Object"@, method_view("java.lang.Object"@, "equals"@, "(Ljava/lang/Object;)Z"@, false, Some(Native::Lang(LangNative::ObjectEquals)))),
            ("java.lang.Object"@, method_view("java.lang.Object"@, "toString"@, "()Ljava/lang/String;"@, false, Some(Native::Lang(LangNative::ObjectToString)))),
            ("java.lang.Object"@, method_view("java.lang.Object"@, "clone"@, "()Ljava/lang/Object;"@, false, None)),
            ("java.lang.Object"@, method_view("java.lang.Object"@, "notify"@, "()V"@, false, Some(Native::Lang(LangNative::ObjectNotify)))),
            ("java.lang.Object"@, method_view("java.lang.Object"@, "notifyAll"@, "()V"@, false, Some(Native::Lang(LangNative::ObjectNotifyAll)))),
            ("java.lang.Object"@, method_view("java.lang.Object"@, "wait"@, "()V"@, false, Some(Native::Lang(LangNative::ObjectWait)))),
            ("java.lang.Object"@, method_view("java.lang.Object"@, "wait"@, "(J)V"@, false, Some(Native::Lang(LangNative::ObjectWaitTimeout)))),
            ("java.lang.Object"@, method_view("java.lang.Object"@, "wait"@, "(JI)V"@, false, Some(Native::Lang(LangNative::ObjectWaitNanos)))),
            ("java.lang.Object"@, method_view("java.lang.Object"@, "finalize"@, "()V"@, false, None)),
        ]
    }

    pub fn register(jvm: &mut Jvm)
        ensures
            only_methods_added(*old(jvm), *final(jvm), Self::registered()),
    {
        jvm.method_area.add_native_method("java.lang.Object", Object::init());
        jvm.method_area.add_native_method("java.lang.Object", Object::get_class());
        jvm.method_area.add_native_method("java.lang.Object", Object::hashCode());
        jvm.method_area.add_native_method("java.lang.Object", Object::equals());
        jvm.method_area.add_native_method("java.lang.Object", Object::toString());
        jvm.method_area.add_native_method("java.lang.Object", Object::clone());
        jvm.method_area.add_native_method("java.lang.Object", Object::notify());
        jvm.method_area.add_native_method("java.lang.Object", Object::notifyAll());
        jvm.method_area.add_native_method("java.lang.Object", Object::wait());
        jvm.method_area.add_native_method("java.lang.Object", Object::wait_timeout());
        jvm.method_area.add_native_method("java.lang.Object", Object::wait_nanos());
        jvm.method_area.add_native_method("java.lang.Object", Object::finalize());
        assert(jvm.method_area@ =~= old(jvm).method_area@ + Self::registered());
    }
}

pub struct String;

impl String {
    /// The method `java.lang.String.length()I`.
    pub fn length() -> (m: Method)
        ensures
            m@ == method_view("java.lang.String"@, "length"@, "()I"@, false, Some(Native::Lang(LangNative::StringLength))),
    {
        Method::new_native("java.lang.String", "length", "()I", false, Some(Native::Lang(LangNative::StringLength)))
    }

    /// The method `java.lang.String.charAt(I)C`.
    pub fn charAt() -> (m: Method)
        ensures
            m@ == method_view("java.lang.String"@, "charAt"@, "(I)C"@, false, None),
    {
        Method::new_native("java.lang.String", "charAt", "(I)C", false, None)
    }

    /// The method `java.lang.String.getBytes()[B`.
    pub fn getBytes() -> (m: Method)
        ensures
            m@ == method_view("java.lang.String"@, "getBytes"@, "()[B"@, false, None),
    {
        Method::new_native("java.lang.String", "getBytes", "()[B", false, None)
    }

    /// The method `java.lang.String.getBytes(Ljava/lang/String;)[B`.
    pub fn getBytes_charset() -> (m: Method)
        ensures
            m@ == method_view("java.lang.String"@, "getBytes"@, "(Ljava/lang/String;)[B"@, false, None),
    {
        Method::new_native("java.lang.String", "getBytes", "(Ljava/lang/String;)[B", false, None)
    }

    /// The method `java.lang.String.equals(Ljava/lang/Object;)Z`.
    pub fn equals() -> (m: Method)
        ensures
            m@ == method_view("java.lang.String"@, "equals"@, "(Ljava/lang/Object;)Z"@, false, Some(Native::Lang(LangNative::StringEquals))),
    {
        Method::new_native("java.lang.String", "equals", "(Ljava/lang/Object;)Z", false, Some(Native::Lang(LangNative::StringEquals)))
    }

    /// The method `java.lang.String.compareTo(Ljava/lang/String;)I`.
    pub fn compareTo() -> (m: Method)
        ensures
            m@ == method_view("java.lang.String"@, "compareTo"@, "(Ljava/lang/String;)I"@, false, None),
    {
        Method::new_native("java.lang.String", "compareTo", "(Ljava/lang/String;)I", false, None)
    }

    /// The method `java.lang.String.indexOf(Ljava/lang/String;)I`.
    pub fn indexOf() -> (m: Method)
        ensures
            m@ == method_view("java.lang.String"@, "indexOf"@, "(Ljava/lang/String;)I"@, false, None),
    {
        Method::new_native("java.lang.String", "indexOf", "(Ljava/lang/String;)I", false, None)
    }

    /// The method `java.lang.String.substring(II)Ljava/lang/String;`.
    pub fn substring() -> (m: Method)
        ensures
            m@ == method_view("java.lang.String"@, "substring"@, "(II)Ljava/lang/String;"@, false, None),
    {
        Method::new_native("java.lang.String", "substring", "(II)Ljava/lang/String;", false, None)
    }

    /// The method `java.lang.String.concat(Ljava/lang/String;)Ljava/lang/String;`.
    pub fn concat() -> (m: Method)
        ensures
            m@ == method_view("java.lang.String"@, "concat"@, "(Ljava/lang/String;)Ljava/lang/String;"@, false, None),
    {
        Method::new_native("java.lang.String", "concat", "(Ljava/lang/String;)Ljava/lang/String;", false, None)
    }

    /// The method `java.lang.String.replace(CC)Ljava/lang/String;`.
    pub fn replace() -> (m: Method)
        ensures
            m@ == method_view("java.lang.String"@, "replace"@, "(CC)Ljava/lang/String;"@, false, None),
    {
        Method::new_native("java.lang.String", "replace", "(CC)Ljava/lang/String;", false, None)
    }

    /// The method `java.lang.String.trim()Ljava/lang/String;`.
    pub fn trim() -> (m: Method)
        ensures
            m@ == method_view("java.lang.String"@, "trim"@, "()Ljava/lang/String;"@, false, None),
    {
        Method::new_native("java.lang.String", "trim", "()Ljava/lang/String;", false, None)
    }

    /// The method `java.lang.String.toLowerCase()Ljava/lang/String;`.
    pub fn toLowerCase() -> (m: Method)
        ensures
            m@ == method_view("java.lang.String"@, "toLowerCase"@, "()Ljava/lang/String;"@, false, None),
    {
        Method::new_native("java.lang.String", "toLowerCase", "()Ljava/lang/String;", false, None)
    }

    /// The method `java.lang.String.toUpperCase()Ljava/lang/String;`.
    pub fn toUpperCase() -> (m: Method)
        ensures
            m@ == method_view("java.lang.String"@, "toUpperCase"@, "()Ljava/lang/String;"@, false, None),
    {
        Method::new_native("java.lang.String", "toUpperCase", "()Ljava/lang/String;", false, None)
    }

    /// The method `java.lang.String.valueOf(I)Ljava/lang/String;`.
    pub fn valueOf_int() -> (m: Method)
        ensures
            m@ == method_view("java.lang.String"@, "valueOf"@, "(I)Ljava/lang/String;"@, true, Some(Native::Lang(LangNative::StringValueOfInt))),
    {
        Method::new_native("java.lang.String", "valueOf", "(I)Ljava/lang/String;", true, Some(Native::Lang(LangNative::StringValueOfInt)))
    }

    /// The method `java.lang.String.valueOf(J)Ljava/lang/String;`.
    pub fn valueOf_long() -> (m: Method)
        ensures
            m@ == method_view("java.lang.String"@, "valueOf"@, "(J)Ljava/lang/String;"@, true, Some(Native::Lang(LangNative::StringValueOfLong))),
    {
        Method::new_native("java.lang.String", "valueOf", "(J)Ljava/lang/String;", true, Some(Native::Lang(LangNative::StringValueOfLong)))
    }

    /// The method `java.lang.String.valueOf(F)Ljava/lang/String;`.
    pub fn valueOf_float() -> (m: Method)
        ensures
            m@ == method_view("java.lang.String"@, "valueOf"@, "(F)Ljava/lang/String;"@, true, Some(Native::Host(HostNative::StringValueOfFloat))),
    {
        Method::new_native("java.lang.String", "valueOf", "(F)Ljava/lang/String;", true, Some(Native::Host(HostNative::StringValueOfFloat)))
    }

    /// The method `java.lang.String.valueOf(D)Ljava/lang/String;`.
    pub fn valueOf_double() -> (m: Method)
        ensures
            m@ == method_view("java.lang.String"@, "valueOf"@, "(D)Ljava/lang/String;"@, true, Some(Native::Host(HostNative::StringValueOfDouble))),
    {
        Method::new_native("java.lang.String", "valueOf", "(D)Ljava/lang/String;", true, Some(Native::Host(HostNative::StringValueOfDouble)))
    }

    /// The method `java.lang.String.valueOf(Z)Ljava/lang/String;`.
    pub fn valueOf_bool() -> (m: Method)
        ensures
            m@ == method_view("java.lang.String"@, "valueOf"@, "(Z)Ljava/lang/String;"@, true, Some(Native::Lang(LangNative::StringValueOfBool))),
    {
        Method::new_native("java.lang.String", "valueOf", "(Z)Ljava/lang/String;", true, Some(Native::Lang(LangNative::StringValueOfBool)))
    }

    /// The method `java.lang.String.valueOf(Ljava/lang/Object;)Ljava/lang/String;`.
    pub fn valueOf_obj() -> (m: Method)
        ensures
            m@ == method_view("java.lang.String"@, "valueOf"@, "(Ljava/lang/Object;)Ljava/lang/String;"@, true, None),
    {
        Method::new_native("java.lang.String", "valueOf", "(Ljava/lang/Object;)Ljava/lang/String;", true, None)
    }

    /// The method `java.lang.String.format(Ljava/lang/String;[Ljava/lang/Object;)Ljava/lang/String;`.
    pub fn format() -> (m: Method)
        ensures
            m@ == method_view("java.lang.String"@, "format"@, "(Ljava/lang/String;[Ljava/lang/Object;)Ljava/lang/String;"@, true, Some(Native::Host(HostNative::StringFormat))),
    {
        Method::new_native("java.lang.String", "format", "(Ljava/lang/String;[Ljava/lang/Object;)Ljava/lang/String;", true, Some(Native::Host(HostNative::StringFormat)))
    }

    /// The method `java.lang.String.startsWith(Ljava/lang/String;)Z`.
    pub fn startsWith() -> (m: Method)
        ensures
            m@ == method_view("java.lang.String"@, "startsWith"@, "(Ljava/lang/String;)Z"@, false, None),
    {
        Method::new_native("java.lang.String", "startsWith", "(Ljava/lang/String;)Z", false, None)
    }

    /// The method `java.lang.String.endsWith(Ljava/lang/String;)Z`.
    pub fn endsWith() -> (m: Method)
        ensures
            m@ == method_view("java.lang.String"@, "endsWith"@, "(Ljava/lang/String;)Z"@, false, None),
    {
        Method::new_native("java.lang.String", "endsWith", "(Ljava/lang/String;)Z", false, None)
    }

    /// The method `java.lang.String.contains(Ljava/lang/CharSequence;)Z`.
    pub fn contains() -> (m: Method)
        ensures
            m@ == method_view("java.lang.String"@, "contains"@, "(Ljava/lang/CharSequence;)Z"@, false, None),
    {
        Method::new_native("java.lang.String", "contains", "(Ljava/lang/CharSequence;)Z", false, None)
    }

    /// The method `java.lang.String.isEmpty()Z`.
    pub fn isEmpty() -> (m: Method)
        ensures
            m@ == method_view("java.lang.String"@, "isEmpty"@, "()Z"@, false, Some(Native::Lang(LangNative::StringIsEmpty))),
    {
        Method::new_native("java.lang.String", "isEmpty", "()Z", false, Some(Native::Lang(LangNative::StringIsEmpty)))
    }

    /// The method `java.lang.String.split(Ljava/lang/String;)[Ljava/lang/String;`.
    pub fn split() -> (m: Method)
        ensures
            m@ == method_view("java.lang.String"@, "split"@, "(Ljava/lang/String;)[Ljava/lang/String;"@, false, None),
    {
        Method::new_native("java.lang.String", "split", "(Ljava/lang/String;)[Ljava/lang/String;", false, None)
    }

    /// What `register` adds to the method area, in order.
    pub open spec fn registered() -> Seq<(Seq<char>, MethodView)> {
        seq![
            ("java.lang.String"@, method_view("java.lang.String"@, "length"@, "()I"@, false, Some(Native::Lang(LangNative::StringLength)))),
            ("java.lang.String"@, method_view("java.lang.String"@, "charAt"@, "(I)C"@, false, None)),
            ("java.lang.String"@, method_view("java.lang.String"@, "getBytes"@, "()[B"@, false, None)),
            ("java.lang.String"@, method_view("java.lang.String"@, "getBytes"@, "(Ljava/lang/String;)[B"@, false, None)),
            ("java.lang.String"@, method_view("java.lang.String"@, "equals"@, "(Ljava/lang/Object;)Z"@, false, Some(Native::Lang(LangNative::StringEquals)))),
            ("java.lang.String"@, method_view("java.lang.String"@, "compareTo"@, "(Ljava/lang/String;)I"@, false, None)),
            ("java.lang.String"@, method_view("java.lang.String"@, "indexOf"@, "(Ljava/lang/String;)I"@, false, None)),
            ("java.lang.String"@, method_view("java.lang.String"@, "substring"@, "(II)Ljava/lang/String;"@, false, None)),
            ("java.lang.String"@, method_view("java.lang.String"@, "concat"@, "(Ljava/lang/String;)Ljava/lang/String;"@, false, None)),
            ("java.lang.String"@, method_view("java.lang.String"@, "replace"@, "(CC)Ljava/lang/String;"@, false, None)),
            ("java.lang.String"@, method_view("java.lang.String"@, "toLowerCase"@, "()Ljava/lang/String;"@, false, None)),
            ("java.lang.String"@, method_view("java.lang.String"@, "toUpperCase"@, "()Ljava/lang/String;"@, false, None)),
            ("java.lang.String"@, method_view("java.lang.String"@, "trim"@, "()Ljava/lang/String;"@, false, None)),
            ("java.lang.String"@, method_view("java.lang.String"@, "valueOf"@, "(I)Ljava/lang/String;"@, true, Some(Native::Lang(LangNative::StringValueOfInt)))),
            ("java.lang.String"@, method_view("java.lang.String"@, "valueOf"@, "(J)Ljava/lang/String;"@, true, Some(Native::Lang(LangNative::StringValueOfLong)))),
            ("java.lang.String"@, method_view("java.lang.String"@, "valueOf"@, "(F)Ljava/lang/String;"@, true, Some(Native::Host(HostNative::StringValueOfFloat)))),
            ("java.lang.String"@, method_view("java.lang.String"@, "valueOf"@, "(D)Ljava/lang/String;"@, true, Some(Native::Host(HostNative::StringValueOfDouble)))),
            ("java.lang.String"@, method_view("java.lang.String"@, "valueOf"@, "(Z)Ljava/lang/String;"@, true, Some(Native::Lang(LangNative::StringValueOfBool)))),
            ("java.lang.String"@, method_view("java.lang.String"@, "valueOf"@, "(Ljava/lang/Object;)Ljava/lang/String;"@, true, None)),
            ("java.lang.String"@, method_view("java.lang.String"@, "format"@, "(Ljava/lang/String;[Ljava/lang/Object;)Ljava/lang/String;"@, true, Some(Native::Host(HostNative::StringFormat)))),
            ("java.lang.String"@, method_view("java.lang.String"@, "startsWith"@, "(Ljava/lang/String;)Z"@, false, None)),
            ("java.lang.String"@, method_view("java.lang.String"@, "endsWith"@, "(Ljava/lang/String;)Z"@, false, None)),
            ("java.lang.String"@, method_view("java.lang.String"@, "contains"@, "(Ljava/lang/CharSequence;)Z"@, false, None)),
            ("java.lang.String"@, method_view("java.lang.String"@, "isEmpty"@, "()Z"@, false, Some(Native::Lang(LangNative::StringIsEmpty)))),
            ("java.lang.String"@, method_view("java.lang.String"@, "split"@, "(Ljava/lang/String;)[Ljava/lang/String;"@, false, None)),
        ]
    }

    pub fn register(jvm: &mut Jvm)
        ensures
            only_methods_added(*old(jvm), *final(jvm), Self::registered()),
    {
        jvm.method_area.add_native_method("java.lang.String", String::length());
        jvm.method_area.add_native_method("java.lang.String", String::charAt());
        jvm.method_area.add_native_method("java.lang.String", String::getBytes());
        jvm.method_area.add_native_method("java.lang.String", String::getBytes_charset());
        jvm.method_area.add_native_method("java.lang.String", String::equals());
        jvm.method_area.add_native_method("java.lang.String", String::compareTo());
        jvm.method_area.add_native_method("java.lang.String", String::indexOf());
        jvm.method_area.add_native_method("java.lang.String", String::substring());
        jvm.method_area.add_native_method("java.lang.String", String::concat());
        jvm.method_area.add_native_method("java.lang.String", String::replace());
        jvm.method_area.add_native_method("java.lang.String", String::toLowerCase());
        jvm.method_area.add_native_method("java.lang.String", String::toUpperCase());
        jvm.method_area.add_native_method("java.lang.String", String::trim());
        jvm.method_area.add_native_method("java.lang.String", String::valueOf_int());
        jvm.method_area.add_native_method("java.lang.String", String::valueOf_long());
        jvm.method_area.add_native_method("java.lang.String", String::valueOf_float());
        jvm.method_area.add_native_method("java.lang.String", String::valueOf_double());
        jvm.method_area.add_native_method("java.lang.String", String::valueOf_bool());
        jvm.method_area.add_native_method("java.lang.String", String::valueOf_obj());
        jvm.method_area.add_native_method("java.lang.String", String::format());
        jvm.method_area.add_native_method("java.lang.String", String::startsWith());
        jvm.method_area.add_native_method("java.lang.String", String::endsWith());
        jvm.method_area.add_native_method("java.lang.String", String::contains());
        jvm.method_area.add_native_method("java.lang.String", String::isEmpty());
        jvm.method_area.add_native_method("java.lang.String", String::split());
        assert(jvm.method_area@ =~= old(jvm).method_area@ + Self::registered());
    }
}

pub struct System;

impl System {
    /// The method `java.lang.System.arraycopy(Ljava/lang/Object;ILjava/lang/Object;II)V`.
    pub fn arraycopy() -> (m: Method)
        ensures
            m@ == method_view("java.lang.System"@, "arraycopy"@, "(Ljava/lang/Object;ILjava/lang/Object;II)V"@, true, None),
    {
        Method::new_native("java.lang.System", "arraycopy", "(Ljava/lang/Object;ILjava/lang/Object;II)V", true, None)
    }

    /// The method `java.lang.System.currentTimeMillis()J`.
    pub fn currentTimeMillis() -> (m: Method)
        ensures
            m@ == method_view("java.lang.System"@, "currentTimeMillis"@, "()J"@, true, Some(Native::Lang(LangNative::SystemCurrentTimeMillis))),
    {
        Method::new_native("java.lang.System", "currentTimeMillis", "()J", true, Some(Native::Lang(LangNative::SystemCurrentTimeMillis)))
    }

    /// The method `java.lang.System.nanoTime()J`.
    pub fn nanoTime() -> (m: Method)
        ensures
            m@ == method_view("java.lang.System"@, "nanoTime"@, "()J"@, true, Some(Native::Lang(LangNative::SystemNanoTime))),
    {
        Method::new_native("java.lang.System", "nanoTime", "()J", true, Some(Native::Lang(LangNative::SystemNanoTime)))
    }

    /// The method `java.lang.System.identityHashCode(Ljava/lang/Object;)I`.
    pub fn identityHashCode() -> (m: Method)
        ensures
            m@ == method_view("java.lang.System"@, "identityHashCode"@, "(Ljava/lang/Object;)I"@, true, Some(Native::Lang(LangNative::SystemIdentityHashCode))),
    {
        Method::new_native("java.lang.System", "identityHashCode", "(Ljava/lang/Object;)I", true, Some(Native::Lang(LangNative::SystemIdentityHashCode)))
    }

    /// The method `java.lang.System.setErr(Ljava/io/PrintStream;)V`.
    pub fn setErr() -> (m: Method)
        ensures
            m@ == method_view("java.lang.System"@, "setErr"@, "(Ljava/io/PrintStream;)V"@, true, None),
    {
        Method::new_native("java.lang.System", "setErr", "(Ljava/io/PrintStream;)V", true, None)
    }

    /// The method `java.lang.System.setIn(Ljava/io/InputStream;)V`.
    pub fn setIn() -> (m: Method)
        ensures
            m@ == method_view("java.lang.System"@, "setIn"@, "(Ljava/io/InputStream;)V"@, true, None),
    {
        Method::new_native("java.lang.System", "setIn", "(Ljava/io/InputStream;)V", true, None)
    }

    /// The method `java.lang.System.setOut(Ljava/io/PrintStream;)V`.
    pub fn setOut() -> (m: Method)
        ensures
            m@ == method_view("java.lang.System"@, "setOut"@, "(Ljava/io/PrintStream;)V"@, true, None),
    {
        Method::new_native("java.lang.System", "setOut", "(Ljava/io/PrintStream;)V", true, None)
    }

    /// What `register` adds to the method area, in order.
    pub open spec fn registered() -> Seq<(Seq<char>, MethodView)> {
        seq![
            ("java.lang.System"@, method_view("java.lang.System"@, "arraycopy"@, "(Ljava/lang/Object;ILjava/lang/Object;II)V"@, true, None)),
            ("java.lang.System"@, method_view("java.lang.System"@, "currentTimeMillis"@, "()J"@, true, Some(Native::Lang(LangNative::SystemCurrentTimeMillis)))),
            ("java.lang.System"@, method_view("java.lang.System"@, "nanoTime"@, "()J"@, true, Some(Native::Lang(LangNative::SystemNanoTime)))),
            ("java.lang.System"@, method_view("java.lang.System"@, "identityHashCode"@, "(Ljava/lang/Object;)I"@, true, Some(Native::Lang(LangNative::SystemIdentityHashCode)))),
            ("java.lang.System"@, method_view("java.lang.System"@, "setErr"@, "(Ljava/io/PrintStream;)V"@, true, None)),
            ("java.lang.System"@, method_view("java.lang.System"@, "setIn"@, "(Ljava/io/InputStream;)V"@, true, None)),
            ("java.lang.System"@, method_view("java.lang.System"@, "setOut"@, "(Ljava/io/PrintStream;)V"@, true, None)),
        ]
    }

    pub fn register(jvm: &mut Jvm)
        ensures
            only_methods_added(*old(jvm), *final(jvm), Self::registered()),
    {
        jvm.method_area.add_native_method("java.lang.System", System::arraycopy());
        jvm.method_area.add_native_method("java.lang.System", System::currentTimeMillis());
        jvm.method_area.add_native_method("java.lang.System", System::nanoTime());
        jvm.method_area.add_native_method("java.lang.System", System::identityHashCode());
        jvm.method_area.add_native_method("java.lang.System", System::setErr());
        jvm.method_area.add_native_method("java.lang.System", System::setIn());
        jvm.method_area.add_native_method("java.lang.System", System::setOut());
        assert(jvm.method_area@ =~= old(jvm).method_area@ + Self::registered());
    }
}

pub struct Thread;

impl Thread {
    /// The method `java.lang.Thread.start()V`.
    pub fn start() -> (m: Method)
        ensures
            m@ == method_view("java.lang.Thread"@, "start"@, "()V"@, false, Some(Native::Host(HostNative::ThreadStart))),
    {
        Method::new_native("java.lang.Thread", "start", "()V", false, Some(Native::Host(HostNative::ThreadStart)))
    }

    /// The method `java.lang.Thread.run()V`.
    pub fn run() -> (m: Method)
        ensures
            m@ == method_view("java.lang.Thread"@, "run"@, "()V"@, false, Some(Native::Lang(LangNative::ThreadRun))),
    {
        Method::new_native("java.lang.Thread", "run", "()V", false, Some(Native::Lang(LangNative::ThreadRun)))
    }

    /// The method `java.lang.Thread.sleep(J)V`.
    pub fn sleep() -> (m: Method)
        ensures
            m@ == method_view("java.lang.Thread"@, "sleep"@, "(J)V"@, true, Some(Native::Lang(LangNative::ThreadSleep))),
    {
        Method::new_native("java.lang.Thread", "sleep", "(J)V", true, Some(Native::Lang(LangNative::ThreadSleep)))
    }

    /// The method `java.lang.Thread.join()V`.
    pub fn join() -> (m: Method)
        ensures
            m@ == method_view("java.lang.Thread"@, "join"@, "()V"@, false, Some(Native::Lang(LangNative::ThreadJoin))),
    {
        Method::new_native("java.lang.Thread", "join", "()V", false, Some(Native::Lang(LangNative::ThreadJoin)))
    }

    /// The method `java.lang.Thread.yield()V`.
    pub fn yield_now() -> (m: Method)
        ensures
            m@ == method_view("java.lang.Thread"@, "yield"@, "()V"@, true, Some(Native::Lang(LangNative::ThreadYield))),
    {
        Method::new_native("java.lang.Thread", "yield", "()V", true, Some(Native::Lang(LangNative::ThreadYield)))
    }

    /// The method `java.lang.Thread.currentThread()Ljava/lang/Thread;`.
    pub fn currentThread() -> (m: Method)
        ensures
            m@ == method_view("java.lang.Thread"@, "currentThread"@, "()Ljava/lang/Thread;"@, true, Some(Native::Lang(LangNative::ThreadCurrentThread))),
    {
        Method::new_native("java.lang.Thread", "currentThread", "()Ljava/lang/Thread;", true, Some(Native::Lang(LangNative::ThreadCurrentThread)))
    }

    /// The method `java.lang.Thread.getName()Ljava/lang/String;`.
    pub fn getName() -> (m: Method)
        ensures
            m@ == method_view("java.lang.Thread"@, "getName"@, "()Ljava/lang/String;"@, false, Some(Native::Lang(LangNative::ThreadGetName))),
    {
        Method::new_native("java.lang.Thread", "getName", "()Ljava/lang/String;", false, Some(Native::Lang(LangNative::ThreadGetName)))
    }

    /// The method `java.lang.Thread.setName(Ljava/lang/String;)V`.
    pub fn setName() -> (m: Method)
        ensures
            m@ == method_view("java.lang.Thread"@, "setName"@, "(Ljava/lang/String;)V"@, false, Some(Native::Lang(LangNative::ThreadSetName))),
    {
        Method::new_native("java.lang.Thread", "setName", "(Ljava/lang/String;)V", false, Some(Native::Lang(LangNative::ThreadSetName)))
    }

    /// The method `java.lang.Thread.getPriority()I`.
    pub fn getPriority() -> (m: Method)
        ensures
            m@ == method_view("java.lang.Thread"@, "getPriority"@, "()I"@, false, Some(Native::Lang(LangNative::ThreadGetPriority))),
    {
        Method::new_native("java.lang.Thread", "getPriority", "()I", false, Some(Native::Lang(LangNative::ThreadGetPriority)))
    }

    /// The method `java.lang.Thread.setPriority(I)V`.
    pub fn setPriority() -> (m: Method)
        ensures
            m@ == method_view("java.lang.Thread"@, "setPriority"@, "(I)V"@, false, Some(Native::Lang(LangNative::ThreadSetPriority))),
    {
        Method::new_native("java.lang.Thread", "setPriority", "(I)V", false, Some(Native::Lang(LangNative::ThreadSetPriority)))
    }

    /// The method `java.lang.Thread.getId()J`.
    pub fn getId() -> (m: Method)
        ensures
            m@ == method_view("java.lang.Thread"@, "getId"@, "()J"@, false, Some(Native::Lang(LangNative::ThreadGetId))),
    {
        Method::new_native("java.lang.Thread", "getId", "()J", false, Some(Native::Lang(LangNative::ThreadGetId)))
    }

    /// The method `java.lang.Thread.getState()Ljava/lang/Thread$State;`.
    pub fn getState() -> (m: Method)
        ensures
            m@ == method_view("java.lang.Thread"@, "getState"@, "()Ljava/lang/Thread$State;"@, false, None),
    {
        Method::new_native("java.lang.Thread", "getState", "()Ljava/lang/Thread$State;", false, None)
    }

    /// The method `java.lang.Thread.interrupt()V`.
    pub fn interrupt() -> (m: Method)
        ensures
            m@ == method_view("java.lang.Thread"@, "interrupt"@, "()V"@, false, Some(Native::Lang(LangNative::ThreadInterrupt))),
    {
        Method::new_native("java.lang.Thread", "interrupt", "()V", false, Some(Native::Lang(LangNative::ThreadInterrupt)))
    }

    /// The method `java.lang.Thread.isInterrupted()Z`.
    pub fn isInterrupted() -> (m: Method)
        ensures
            m@ == method_view("java.lang.Thread"@, "isInterrupted"@, "()Z"@, false, Some(Native::Lang(LangNative::ThreadIsInterrupted))),
    {
        Method::new_native("java.lang.Thread", "isInterrupted", "()Z", false, Some(Native::Lang(LangNative::ThreadIsInterrupted)))
    }

    /// The method `java.lang.Thread.interrupted()Z`.
    pub fn interrupted() -> (m: Method)
        ensures
            m@ == method_view("java.lang.Thread"@, "interrupted"@, "()Z"@, true, Some(Native::Lang(LangNative::ThreadInterrupted))),
    {
        Method::new_native("java.lang.Thread", "interrupted", "()Z", true, Some(Native::Lang(LangNative::ThreadInterrupted)))
    }

    /// The method `java.lang.Thread.isAlive()Z`.
    pub fn isAlive() -> (m: Method)
        ensures
            m@ == method_view("java.lang.Thread"@, "isAlive"@, "()Z"@, false, Some(Native::Lang(LangNative::ThreadIsAlive))),
    {
        Method::new_native("java.lang.Thread", "isAlive", "()Z", false, Some(Native::Lang(LangNative::ThreadIsAlive)))
    }

    /// What `register` adds to the method area, in order.
    pub open spec fn registered() -> Seq<(Seq<char>, MethodView)> {
        seq![
            ("java.lang.Thread"@, method_view("java.lang.Thread"@, "start"@, "()V"@, false, Some(Native::Host(HostNative::ThreadStart)))),
            ("java.lang.Thread"@, method_view("java.lang.Thread"@, "run"@, "()V"@, false, Some(Native::Lang(LangNative::ThreadRun)))),
            ("java.lang.Thread"@, method_view("java.lang.Thread"@, "sleep"@, "(J)V"@, true, Some(Native::Lang(LangNative::ThreadSleep)))),
            ("java.lang.Thread"@, method_view("java.lang.Thread"@, "join"@, "()V"@, false, Some(Native::Lang(LangNative::ThreadJoin)))),
            ("java.lang.Thread"@, method_view("java.lang.Thread"@, "yield"@, "()V"@, true, Some(Native::Lang(LangNative::ThreadYield)))),
            ("java.lang.Thread"@, method_view("java.lang.Thread"@, "currentThread"@, "()Ljava/lang/Thread;"@, true, Some(Native::Lang(LangNative::ThreadCurrentThread)))),
            ("java.lang.Thread"@, method_view("java.lang.Thread"@, "getName"@, "()Ljava/lang/String;"@, false, Some(Native::Lang(LangNative::ThreadGetName)))),
            ("java.lang.Thread"@, method_view("java.lang.Thread"@, "setName"@, "(Ljava/lang/String;)V"@, false, Some(Native::Lang(LangNative::ThreadSetName)))),
            ("java.lang.Thread"@, method_view("java.lang.Thread"@, "getPriority"@, "()I"@, false, Some(Native::Lang(LangNative::ThreadGetPriority)))),
            ("java.lang.Thread"@, method_view("java.lang.Thread"@, "setPriority"@, "(I)V"@, false, Some(Native::Lang(LangNative::ThreadSetPriority)))),
            ("java.lang.Thread"@, method_view("java.lang.Thread"@, "getId"@, "()J"@, false, Some(Native::Lang(LangNative::ThreadGetId)))),
            ("java.lang.Thread"@, method_view("java.lang.Thread"@, "getState"@, "()Ljava/lang/Thread$State;"@, false, None)),
            ("java.lang.Thread"@, method_view("java.lang.Thread"@, "interrupt"@, "()V"@, false, Some(Native::Lang(LangNative::ThreadInterrupt)))),
            ("java.lang.Thread"@, method_view("java.lang.Thread"@, "isInterrupted"@, "()Z"@, false, Some(Native::Lang(LangNative::ThreadIsInterrupted)))),
            ("java.lang.Thread"@, method_view("java.lang.Thread"@, "interrupted"@, "()Z"@, true, Some(Native::Lang(LangNative::ThreadInterrupted)))),
            ("java.lang.Thread"@, method_view("java.lang.Thread"@, "isAlive"@, "()Z"@, false, Some(Native::Lang(LangNative::ThreadIsAlive)))),
        ]
    }

    pub fn register(jvm: &mut Jvm)
        ensures
            only_methods_added(*old(jvm), *final(jvm), Self::registered()),
    {
        jvm.method_area.add_native_method("java.lang.Thread", Thread::start());
        jvm.method_area.add_native_method("java.lang.Thread", Thread::run());
        jvm.method_area.add_native_method("java.lang.Thread", Thread::sleep());
        jvm.method_area.add_native_method("java.lang.Thread", Thread::join());
        jvm.method_area.add_native_method("java.lang.Thread", Thread::yield_now());
        jvm.method_area.add_native_method("java.lang.Thread", Thread::currentThread());
        jvm.method_area.add_native_method("java.lang.Thread", Thread::getName());
        jvm.method_area.add_native_method("java.lang.Thread", Thread::setName());
        jvm.method_area.add_native_method("java.lang.Thread", Thread::getPriority());
        jvm.method_area.add_native_method("java.lang.Thread", Thread::setPriority());
        jvm.method_area.add_native_method("java.lang.Thread", Thread::getId());
        jvm.method_area.add_native_method("java.lang.Thread", Thread::getState());
        jvm.method_area.add_native_method("java.lang.Thread", Thread::interrupt());
        jvm.method_area.add_native_method("java.lang.Thread", Thread::isInterrupted());
        jvm.method_area.add_native_method("java.lang.Thread", Thread::interrupted());
        jvm.method_area.add_native_method("java.lang.Thread", Thread::isAlive());
        assert(jvm.method_area@ =~= old(jvm).method_area@ + Self::registered());
    }
}

pub struct Throwable;

impl Throwable {
    /// The method `java.lang.Throwable.getMessage()Ljava/lang/String;`.
    pub fn getMessage() -> (m: Method)
        ensures
            m@ == method_view("java.lang.Throwable"@, "getMessage"@, "()Ljava/lang/String;"@, false, None),
    {
        Method::new_native("java.lang.Throwable", "getMessage", "()Ljava/lang/String;", false, None)
    }

    /// The method `java.lang.Throwable.getLocalizedMessage()Ljava/lang/String;`.
    pub fn getLocalizedMessage() -> (m: Method)
        ensures
            m@ == method_view("java.lang.Throwable"@, "getLocalizedMessage"@, "()Ljava/lang/String;"@, false, None),
    {
        Method::new_native("java.lang.Throwable", "getLocalizedMessage", "()Ljava/lang/String;", false, None)
    }

    /// The method `java.lang.Throwable.toString()Ljava/lang/String;`.
    pub fn toString() -> (m: Method)
        ensures
            m@ == method_view("java.lang.Throwable"@, "toString"@, "()Ljava/lang/String;"@, false, None),
    {
        Method::new_native("java.lang.Throwable", "toString", "()Ljava/lang/String;", false, None)
    }

    /// The method `java.lang.Throwable.printStackTrace()V`.
    pub fn printStackTrace() -> (m: Method)
        ensures
            m@ == method_view("java.lang.Throwable"@, "printStackTrace"@, "()V"@, false, Some(Native::Host(HostNative::ThrowablePrintStackTrace))),
    {
        Method::new_native("java.lang.Throwable", "printStackTrace", "()V", false, Some(Native::Host(HostNative::ThrowablePrintStackTrace)))
    }

    /// The method `java.lang.Throwable.fillInStackTrace()Ljava/lang/Throwable;`.
    pub fn fillInStackTrace() -> (m: Method)
        ensures
            m@ == method_view("java.lang.Throwable"@, "fillInStackTrace"@, "()Ljava/lang/Throwable;"@, false, None),
    {
        Method::new_native("java.lang.Throwable", "fillInStackTrace", "()Ljava/lang/Throwable;", false, None)
    }

    /// The method `java.lang.Throwable.getCause()Ljava/lang/Throwable;`.
    pub fn getCause() -> (m: Method)
        ensures
            m@ == method_view("java.lang.Throwable"@, "getCause"@, "()Ljava/lang/Throwable;"@, false, None),
    {
        Method::new_native("java.lang.Throwable", "getCause", "()Ljava/lang/Throwable;", false, None)
    }

    /// The method `java.lang.Throwable.initCause(Ljava/lang/Throwable;)Ljava/lang/Throwable;`.
    pub fn initCause() -> (m: Method)
        ensures
            m@ == method_view("java.lang.Throwable"@, "initCause"@, "(Ljava/lang/Throwable;)Ljava/lang/Throwable;"@, false, None),
    {
        Method::new_native("java.lang.Throwable", "initCause", "(Ljava/lang/Throwable;)Ljava/lang/Throwable;", false, None)
    }

    /// What `register` adds to the method area, in order.
    pub open spec fn registered() -> Seq<(Seq<char>, MethodView)> {
        seq![
            ("java.lang.Throwable"@, method_view("java.lang.Throwable"@, "getMessage"@, "()Ljava/lang/String;"@, false, None)),
            ("java.lang.Throwable"@, method_view("java.lang.Throwable"@, "getLocalizedMessage"@, "()Ljava/lang/String;"@, false, None)),
            ("java.lang.Throwable"@, method_view("java.lang.Throwable"@, "toString"@, "()Ljava/lang/String;"@, false, None)),
            ("java.lang.Throwable"@, method_view("java.lang.Throwable"@, "printStackTrace"@, "()V"@, false, Some(Native::Host(HostNative::ThrowablePrintStackTrace)))),
            ("java.lang.Throwable"@, method_view("java.lang.Throwable"@, "fillInStackTrace"@, "()Ljava/lang/Throwable;"@, false, None)),
            ("java.lang.Throwable"@, method_view("java.lang.Throwable"@, "getCause"@, "()Ljava/lang/Throwable;"@, false, None)),
            ("java.lang.Throwable"@, method_view("java.lang.Throwable"@, "initCause"@, "(Ljava/lang/Throwable;)Ljava/lang/Throwable;"@, false, None)),
        ]
    }

    pub fn register(jvm: &mut Jvm)
        ensures
            only_methods_added(*old(jvm), *final(jvm), Self::registered()),
    {
        jvm.method_area.add_native_method("java.lang.Throwable", Throwable::getMessage());
        jvm.method_area.add_native_method("java.lang.Throwable", Throwable::getLocalizedMessage());
        jvm.method_area.add_native_method("java.lang.Throwable", Throwable::toString());
        jvm.method_area.add_native_method("java.lang.Throwable", Throwable::printStackTrace());
        jvm.method_area.add_native_method("java.lang.Throwable", Throwable::fillInStackTrace());
        jvm.method_area.add_native_method("java.lang.Throwable", Throwable::getCause());
        jvm.method_area.add_native_method("java.lang.Throwable", Throwable::initCause());
        assert(jvm.method_area@ =~= old(jvm).method_area@ + Self::registered());
    }
}

pub struct StringBuilder;

impl StringBuilder {
    /// The method `java.lang.StringBuilder.<init>()V`.
    pub fn init() -> (m: Method)
        ensures
            m@ == method_view("java.lang.StringBuilder"@, "<init>"@, "()V"@, false, Some(Native::Lang(LangNative::StringBuilderInit))),
    {
        Method::new_native("java.lang.StringBuilder", "<init>", "()V", false, Some(Native::Lang(LangNative::StringBuilderInit)))
    }

    /// The method `java.lang.StringBuilder.<init>(I)V`.
    pub fn init_with_capacity() -> (m: Method)
        ensures
            m@ == method_view("java.lang.StringBuilder"@, "<init>"@, "(I)V"@, false, Some(Native::Lang(LangNative::StringBuilderInitWithCapacity))),
    {
        Method::new_native("java.lang.StringBuilder", "<init>", "(I)V", false, Some(Native::Lang(LangNative::StringBuilderInitWithCapacity)))
    }

    /// The method `java.lang.StringBuilder.<init>(Ljava/lang/String;)V`.
    pub fn init_with_string() -> (m: Method)
        ensures
            m@ == method_view("java.lang.StringBuilder"@, "<init>"@, "(Ljava/lang/String;)V"@, false, Some(Native::Lang(LangNative::StringBuilderInitWithString))),
    {
        Method::new_native("java.lang.StringBuilder", "<init>", "(Ljava/lang/String;)V", false, Some(Native::Lang(LangNative::StringBuilderInitWithString)))
    }

    /// The method `java.lang.StringBuilder.append(Ljava/lang/String;)Ljava/lang/StringBuilder;`.
    pub fn append_string() -> (m: Method)
        ensures
            m@ == method_view("java.lang.StringBuilder"@, "append"@, "(Ljava/lang/String;)Ljava/lang/StringBuilder;"@, false, Some(Native::Lang(LangNative::StringBuilderAppendString))),
    {
        Method::new_native("java.lang.StringBuilder", "append", "(Ljava/lang/String;)Ljava/lang/StringBuilder;", false, Some(Native::Lang(LangNative::StringBuilderAppendString)))
    }

    /// The method `java.lang.StringBuilder.append(I)Ljava/lang/StringBuilder;`.
    pub fn append_int() -> (m: Method)
        ensures
            m@ == method_view("java.lang.StringBuilder"@, "append"@, "(I)Ljava/lang/StringBuilder;"@, false, Some(Native::Lang(LangNative::StringBuilderAppendInt))),
    {
        Method::new_native("java.lang.StringBuilder", "append", "(I)Ljava/lang/StringBuilder;", false, Some(Native::Lang(LangNative::StringBuilderAppendInt)))
    }

    /// The method `java.lang.StringBuilder.append(J)Ljava/lang/StringBuilder;`.
    pub fn append_long() -> (m: Method)
        ensures
            m@ == method_view("java.lang.StringBuilder"@, "append"@, "(J)Ljava/lang/StringBuilder;"@, false, Some(Native::Lang(LangNative::StringBuilderAppendLong))),
    {
        Method::new_native("java.lang.StringBuilder", "append", "(J)Ljava/lang/StringBuilder;", false, Some(Native::Lang(LangNative::StringBuilderAppendLong)))
    }

    /// The method `java.lang.StringBuilder.append(D)Ljava/lang/StringBuilder;`.
    pub fn append_double() -> (m: Method)
        ensures
            m@ == method_view("java.lang.StringBuilder"@, "append"@, "(D)Ljava/lang/StringBuilder;"@, false, Some(Native::Host(HostNative::StringBuilderAppendDouble))),
    {
        Method::new_native("java.lang.StringBuilder", "append", "(D)Ljava/lang/StringBuilder;", false, Some(Native::Host(HostNative::StringBuilderAppendDouble)))
    }

    /// The method `java.lang.StringBuilder.append(Z)Ljava/lang/StringBuilder;`.
    pub fn append_bool() -> (m: Method)
        ensures
            m@ == method_view("java.lang.StringBuilder"@, "append"@, "(Z)Ljava/lang/StringBuilder;"@, false, Some(Native::Lang(LangNative::StringBuilderAppendBool))),
    {
        Method::new_native("java.lang.StringBuilder", "append", "(Z)Ljava/lang/StringBuilder;", false, Some(Native::Lang(LangNative::StringBuilderAppendBool)))
    }

    /// The method `java.lang.StringBuilder.append(C)Ljava/lang/StringBuilder;`.
    pub fn append_char() -> (m: Method)
        ensures
            m@ == method_view("java.lang.StringBuilder"@, "append"@, "(C)Ljava/lang/StringBuilder;"@, false, Some(Native::Lang(LangNative::StringBuilderAppendChar))),
    {
        Method::new_native("java.lang.StringBuilder", "append", "(C)Ljava/lang/StringBuilder;", false, Some(Native::Lang(LangNative::StringBuilderAppendChar)))
    }

    /// The method `java.lang.StringBuilder.append(Ljava/lang/Object;)Ljava/lang/StringBuilder;`.
    pub fn append_obj() -> (m: Method)
        ensures
            m@ == method_view("java.lang.StringBuilder"@, "append"@, "(Ljava/lang/Object;)Ljava/lang/StringBuilder;"@, false, Some(Native::Lang(LangNative::StringBuilderAppendObj))),
    {
        Method::new_native("java.lang.StringBuilder", "append", "(Ljava/lang/Object;)Ljava/lang/StringBuilder;", false, Some(Native::Lang(LangNative::StringBuilderAppendObj)))
    }

    /// The method `java.lang.StringBuilder.toString()Ljava/lang/String;`.
    pub fn toString() -> (m: Method)
        ensures
            m@ == method_view("java.lang.StringBuilder"@, "toString"@, "()Ljava/lang/String;"@, false, Some(Native::Lang(LangNative::StringBuilderToString))),
    {
        Method::new_native("java.lang.StringBuilder", "toString", "()Ljava/lang/String;", false, Some(Native::Lang(LangNative::StringBuilderToString)))
    }

    /// The method `java.lang.StringBuilder.length()I`.
    pub fn length() -> (m: Method)
        ensures
            m@ == method_view("java.lang.StringBuilder"@, "length"@, "()I"@, false, Some(Native::Lang(LangNative::StringBuilderLength))),
    {
        Method::new_native("java.lang.StringBuilder", "length", "()I", false, Some(Native::Lang(LangNative::StringBuilderLength)))
    }

    /// What `register` adds to the method area, in order.
    pub open spec fn registered() -> Seq<(Seq<char>, MethodView)> {
        seq![
            ("java.lang.StringBuilder"@, method_view("java.lang.StringBuilder"@, "<init>"@, "()V"@, false, Some(Native::Lang(LangNative::StringBuilderInit)))),
            ("java.lang.StringBuilder"@, method_view("java.lang.StringBuilder"@, "<init>"@, "(I)V"@, false, Some(Native::Lang(LangNative::StringBuilderInitWithCapacity)))),
            ("java.lang.StringBuilder"@, method_view("java.lang.StringBuilder"@, "<init>"@, "(Ljava/lang/String;)V"@, false, Some(Native::Lang(LangNative::StringBuilderInitWithString)))),
            ("java.lang.StringBuilder"@, method_view("java.lang.StringBuilder"@, "append"@, "(Ljava/lang/String;)Ljava/lang/StringBuilder;"@, false, Some(Native::Lang(LangNative::StringBuilderAppendString)))),
            ("java.lang.StringBuilder"@, method_view("java.lang.StringBuilder"@, "append"@, "(I)Ljava/lang/StringBuilder;"@, false, Some(Native::Lang(LangNative::StringBuilderAppendInt)))),
            ("java.lang.StringBuilder"@, method_view("java.lang.StringBuilder"@, "append"@, "(J)Ljava/lang/StringBuilder;"@, false, Some(Native::Lang(LangNative::StringBuilderAppendLong)))),
            ("java.lang.StringBuilder"@, method_view("java.lang.StringBuilder"@, "append"@, "(D)Ljava/lang/StringBuilder;"@, false, Some(Native::Host(HostNative::StringBuilderAppendDouble)))),
            ("java.lang.StringBuilder"@, method_view("java.lang.StringBuilder"@, "append"@, "(Z)Ljava/lang/StringBuilder;"@, false, Some(Native::Lang(LangNative::StringBuilderAppendBool)))),
            ("java.lang.StringBuilder"@, method_view("java.lang.StringBuilder"@, "append"@, "(C)Ljava/lang/StringBuilder;"@, false, Some(Native::Lang(LangNative::StringBuilderAppendChar)))),
            ("java.lang.StringBuilder"@, method_view("java.lang.StringBuilder"@, "append"@, "(Ljava/lang/Object;)Ljava/lang/StringBuilder;"@, false, Some(Native::Lang(LangNative::StringBuilderAppendObj)))),
            ("java.lang.StringBuilder"@, method_view("java.lang.StringBuilder"@, "toString"@, "()Ljava/lang/String;"@, false, Some(Native::Lang(LangNative::StringBuilderToString)))),
            ("java.lang.StringBuilder"@, method_view("java.lang.StringBuilder"@, "length"@, "()I"@, false, Some(Native::Lang(LangNative::StringBuilderLength)))),
        ]
    }

    pub fn register(jvm: &mut Jvm)
        ensures
            only_methods_added(*old(jvm), *final(jvm), Self::registered()),
    {
        jvm.method_area.add_native_method("java.lang.StringBuilder", StringBuilder::init());
        jvm.method_area.add_native_method("java.lang.StringBuilder", StringBuilder::init_with_capacity());
        jvm.method_area.add_native_method("java.lang.StringBuilder", StringBuilder::init_with_string());
        jvm.method_area.add_native_method("java.lang.StringBuilder", StringBuilder::append_string());
        jvm.method_area.add_native_method("java.lang.StringBuilder", StringBuilder::append_int());
        jvm.method_area.add_native_method("java.lang.StringBuilder", StringBuilder::append_long());
        jvm.method_area.add_native_method("java.lang.StringBuilder", StringBuilder::append_double());
        jvm.method_area.add_native_method("java.lang.StringBuilder", StringBuilder::append_bool());
        jvm.method_area.add_native_method("java.lang.StringBuilder", StringBuilder::append_char());
        jvm.method_area.add_native_method("java.lang.StringBuilder", StringBuilder::append_obj());
        jvm.method_area.add_native_method("java.lang.StringBuilder", StringBuilder::toString());
        jvm.method_area.add_native_method("java.lang.StringBuilder", StringBuilder::length());
        assert(jvm.method_area@ =~= old(jvm).method_area@ + Self::registered());
    }
}

pub struct Integer;

impl Integer {
    /// The method `java.lang.Integer.parseInt(Ljava/lang/String;)I`.
    pub fn parseInt() -> (m: Method)
        ensures
            m@ == method_view("java.lang.Integer"@, "parseInt"@, "(Ljava/lang/String;)I"@, true, Some(Native::Lang(LangNative::IntegerParseInt))),
    {
        Method::new_native("java.lang.Integer", "parseInt", "(Ljava/lang/String;)I", true, Some(Native::Lang(LangNative::IntegerParseInt)))
    }

    /// The method `java.lang.Integer.parseInt(Ljava/lang/String;I)I`.
    pub fn parseInt_radix() -> (m: Method)
        ensures
            m@ == method_view("java.lang.Integer"@, "parseInt"@, "(Ljava/lang/String;I)I"@, true, Some(Native::Lang(LangNative::IntegerParseIntRadix))),
    {
        Method::new_native("java.lang.Integer", "parseInt", "(Ljava/lang/String;I)I", true, Some(Native::Lang(LangNative::IntegerParseIntRadix)))
    }

    /// The method `java.lang.Integer.valueOf(I)Ljava/lang/String;`.
    pub fn valueOf_int() -> (m: Method)
        ensures
            m@ == method_view("java.lang.Integer"@, "valueOf"@, "(I)Ljava/lang/String;"@, true, Some(Native::Lang(LangNative::IntegerValueOfInt))),
    {
        Method::new_native("java.lang.Integer", "valueOf", "(I)Ljava/lang/String;", true, Some(Native::Lang(LangNative::IntegerValueOfInt)))
    }

    /// The method `java.lang.Integer.valueOf(I)Ljava/lang/Integer;`.
    pub fn valueOf_int_obj() -> (m: Method)
        ensures
            m@ == method_view("java.lang.Integer"@, "valueOf"@, "(I)Ljava/lang/Integer;"@, true, Some(Native::Lang(LangNative::IntegerValueOfIntObj))),
    {
        Method::new_native("java.lang.Integer", "valueOf", "(I)Ljava/lang/Integer;", true, Some(Native::Lang(LangNative::IntegerValueOfIntObj)))
    }

    /// The method `java.lang.Integer.valueOf(Ljava/lang/String;)Ljava/lang/Integer;`.
    pub fn valueOf_string() -> (m: Method)
        ensures
            m@ == method_view("java.lang.Integer"@, "valueOf"@, "(Ljava/lang/String;)Ljava/lang/Integer;"@, true, Some(Native::Lang(LangNative::IntegerValueOfString))),
    {
        Method::new_native("java.lang.Integer", "valueOf", "(Ljava/lang/String;)Ljava/lang/Integer;", true, Some(Native::Lang(LangNative::IntegerValueOfString)))
    }

    /// The method `java.lang.Integer.toString(I)Ljava/lang/String;`.
    pub fn toString() -> (m: Method)
        ensures
            m@ == method_view("java.lang.Integer"@, "toString"@, "(I)Ljava/lang/String;"@, true, Some(Native::Lang(LangNative::IntegerToString))),
    {
        Method::new_native("java.lang.Integer", "toString", "(I)Ljava/lang/String;", true, Some(Native::Lang(LangNative::IntegerToString)))
    }

    /// The method `java.lang.Integer.toHexString(I)Ljava/lang/String;`.
    pub fn toHexString() -> (m: Method)
        ensures
            m@ == method_view("java.lang.Integer"@, "toHexString"@, "(I)Ljava/lang/String;"@, true, Some(Native::Lang(LangNative::IntegerToHexString))),
    {
        Method::new_native("java.lang.Integer", "toHexString", "(I)Ljava/lang/String;", true, Some(Native::Lang(LangNative::IntegerToHexString)))
    }

    /// The method `java.lang.Integer.MAX_VALUE()I`.
    pub fn MAX_VALUE() -> (m: Method)
        ensures
            m@ == method_view("java.lang.Integer"@, "MAX_VALUE"@, "()I"@, true, Some(Native::Lang(LangNative::IntegerMAXVALUE))),
    {
        Method::new_native("java.lang.Integer", "MAX_VALUE", "()I", true, Some(Native::Lang(LangNative::IntegerMAXVALUE)))
    }

    /// The method `java.lang.Integer.MIN_VALUE()I`.
    pub fn MIN_VALUE() -> (m: Method)
        ensures
            m@ == method_view("java.lang.Integer"@, "MIN_VALUE"@, "()I"@, true, Some(Native::Lang(LangNative::IntegerMINVALUE))),
    {
        Method::new_native("java.lang.Integer", "MIN_VALUE", "()I", true, Some(Native::Lang(LangNative::IntegerMINVALUE)))
    }

    /// The method `java.lang.Integer.SIZE()I`.
    pub fn SIZE() -> (m: Method)
        ensures
            m@ == method_view("java.lang.Integer"@, "SIZE"@, "()I"@, true, Some(Native::Lang(LangNative::IntegerSIZE))),
    {
        Method::new_native("java.lang.Integer", "SIZE", "()I", true, Some(Native::Lang(LangNative::IntegerSIZE)))
    }

    /// The method `java.lang.Integer.intValue()I`.
    pub fn intValue() -> (m: Method)
        ensures
            m@ == method_view("java.lang.Integer"@, "intValue"@, "()I"@, false, Some(Native::Lang(LangNative::IntegerIntValue))),
    {
        Method::new_native("java.lang.Integer", "intValue", "()I", false, Some(Native::Lang(LangNative::IntegerIntValue)))
    }

    /// What `register` adds to the method area, in order.
    pub open spec fn registered() -> Seq<(Seq<char>, MethodView)> {
        seq![
            ("java.lang.Integer"@, method_view("java.lang.Integer"@, "parseInt"@, "(Ljava/lang/String;)I"@, true, Some(Native::Lang(LangNative::IntegerParseInt)))),
            ("java.lang.Integer"@, method_view("java.lang.Integer"@, "parseInt"@, "(Ljava/lang/String;I)I"@, true, Some(Native::Lang(LangNative::IntegerParseIntRadix)))),
            ("java.lang.Integer"@, method_view("java.lang.Integer"@, "valueOf"@, "(I)Ljava/lang/String;"@, true, Some(Native::Lang(LangNative::IntegerValueOfInt)))),
            ("java.lang.Integer"@, method_view("java.lang.Integer"@, "valueOf"@, "(I)Ljava/lang/Integer;"@, true, Some(Native::Lang(LangNative::IntegerValueOfIntObj)))),
            ("java.lang.Integer"@, method_view("java.lang.Integer"@, "valueOf"@, "(Ljava/lang/String;)Ljava/lang/Integer;"@, true, Some(Native::Lang(LangNative::IntegerValueOfString)))),
            ("java.lang.Integer"@, method_view("java.lang.Integer"@, "toString"@, "(I)Ljava/lang/String;"@, true, Some(Native::Lang(LangNative::IntegerToString)))),
            ("java.lang.Integer"@, method_view("java.lang.Integer"@, "toHexString"@, "(I)Ljava/lang/String;"@, true, Some(Native::Lang(LangNative::IntegerToHexString)))),
            ("java.lang.Integer"@, method_view("java.lang.Integer"@, "MAX_VALUE"@, "()I"@, true, Some(Native::Lang(LangNative::IntegerMAXVALUE)))),
            ("java.lang.Integer"@, method_view("java.lang.Integer"@, "MIN_VALUE"@, "()I"@, true, Some(Native::Lang(LangNative::IntegerMINVALUE)))),
            ("java.lang.Integer"@, method_view("java.lang.Integer"@, "SIZE"@, "()I"@, true, Some(Native::Lang(LangNative::IntegerSIZE)))),
            ("java.lang.Integer"@, method_view("java.lang.Integer"@, "intValue"@, "()I"@, false, Some(Native::Lang(LangNative::IntegerIntValue)))),
        ]
    }

    pub fn register(jvm: &mut Jvm)
        ensures
            only_methods_added(*old(jvm), *final(jvm), Self::registered()),
    {
        jvm.method_area.add_native_method("java.lang.Integer", Integer::parseInt());
        jvm.method_area.add_native_method("java.lang.Integer", Integer::parseInt_radix());
        jvm.method_area.add_native_method("java.lang.Integer", Integer::valueOf_int());
        jvm.method_area.add_native_method("java.lang.Integer", Integer::valueOf_int_obj());
        jvm.method_area.add_native_method("java.lang.Integer", Integer::valueOf_string());
        jvm.method_area.add_native_method("java.lang.Integer", Integer::toString());
        jvm.method_area.add_native_method("java.lang.Integer", Integer::toHexString());
        jvm.method_area.add_native_method("java.lang.Integer", Integer::MAX_VALUE());
        jvm.method_area.add_native_method("java.lang.Integer", Integer::MIN_VALUE());
        jvm.method_area.add_native_method("java.lang.Integer", Integer::SIZE());
        jvm.method_area.add_native_method("java.lang.Integer", Integer::intValue());
        assert(jvm.method_area@ =~= old(jvm).method_area@ + Self::registered());
    }
}

pub struct Long;

impl Long {
    /// The method `java.lang.Long.parseLong(Ljava/lang/String;)J`.
    pub fn parseLong() -> (m: Method)
        ensures
            m@ == method_view("java.lang.Long"@, "parseLong"@, "(Ljava/lang/String;)J"@, true, Some(Native::Lang(LangNative::LongParseLong))),
    {
        Method::new_native("java.lang.Long", "parseLong", "(Ljava/lang/String;)J", true, Some(Native::Lang(LangNative::LongParseLong)))
    }

    /// The method `java.lang.Long.valueOf(Ljava/lang/String;)Ljava/lang/Long;`.
    pub fn valueOf() -> (m: Method)
        ensures
            m@ == method_view("java.lang.Long"@, "valueOf"@, "(Ljava/lang/String;)Ljava/lang/Long;"@, true, Some(Native::Lang(LangNative::LongValueOf))),
    {
        Method::new_native("java.lang.Long", "valueOf", "(Ljava/lang/String;)Ljava/lang/Long;", true, Some(Native::Lang(LangNative::LongValueOf)))
    }

    /// The method `java.lang.Long.toString(J)Ljava/lang/String;`.
    pub fn toString() -> (m: Method)
        ensures
            m@ == method_view("java.lang.Long"@, "toString"@, "(J)Ljava/lang/String;"@, true, Some(Native::Lang(LangNative::LongToString))),
    {
        Method::new_native("java.lang.Long", "toString", "(J)Ljava/lang/String;", true, Some(Native::Lang(LangNative::LongToString)))
    }

    /// The method `java.lang.Long.MAX_VALUE()J`.
    pub fn MAX_VALUE() -> (m: Method)
        ensures
            m@ == method_view("java.lang.Long"@, "MAX_VALUE"@, "()J"@, true, Some(Native::Lang(LangNative::LongMAXVALUE))),
    {
        Method::new_native("java.lang.Long", "MAX_VALUE", "()J", true, Some(Native::Lang(LangNative::LongMAXVALUE)))
    }

    /// The method `java.lang.Long.MIN_VALUE()J`.
    pub fn MIN_VALUE() -> (m: Method)
        ensures
            m@ == method_view("java.lang.Long"@, "MIN_VALUE"@, "()J"@, true, Some(Native::Lang(LangNative::LongMINVALUE))),
    {
        Method::new_native("java.lang.Long", "MIN_VALUE", "()J", true, Some(Native::Lang(LangNative::LongMINVALUE)))
    }

    /// The method `java.lang.Long.SIZE()I`.
    pub fn SIZE() -> (m: Method)
        ensures
            m@ == method_view("java.lang.Long"@, "SIZE"@, "()I"@, true, Some(Native::Lang(LangNative::LongSIZE))),
    {
        Method::new_native("java.lang.Long", "SIZE", "()I", true, Some(Native::Lang(LangNative::LongSIZE)))
    }

    /// What `register` adds to the method area, in order.
    pub open spec fn registered() -> Seq<(Seq<char>, MethodView)> {
        seq![
            ("java.lang.Long"@, method_view("java.lang.Long"@, "parseLong"@, "(Ljava/lang/String;)J"@, true, Some(Native::Lang(LangNative::LongParseLong)))),
            ("java.lang.Long"@, method_view("java.lang.Long"@, "valueOf"@, "(Ljava/lang/String;)Ljava/lang/Long;"@, true, Some(Native::Lang(LangNative::LongValueOf)))),
            ("java.lang.Long"@, method_view("java.lang.Long"@, "toString"@, "(J)Ljava/lang/String;"@, true, Some(Native::Lang(LangNative::LongToString)))),
            ("java.lang.Long"@, method_view("java.lang.Long"@, "MAX_VALUE"@, "()J"@, true, Some(Native::Lang(LangNative::LongMAXVALUE)))),
            ("java.lang.Long"@, method_view("java.lang.Long"@, "MIN_VALUE"@, "()J"@, true, Some(Native::Lang(LangNative::LongMINVALUE)))),
            ("java.lang.Long"@, method_view("java.lang.Long"@, "SIZE"@, "()I"@, true, Some(Native::Lang(LangNative::LongSIZE)))),
        ]
    }

    pub fn register(jvm: &mut Jvm)
        ensures
            only_methods_added(*old(jvm), *final(jvm), Self::registered()),
    {
        jvm.method_area.add_native_method("java.lang.Long", Long::parseLong());
        jvm.method_area.add_native_method("java.lang.Long", Long::valueOf());
        jvm.method_area.add_native_method("java.lang.Long", Long::toString());
        jvm.method_area.add_native_method("java.lang.Long", Long::MAX_VALUE());
        jvm.method_area.add_native_method("java.lang.Long", Long::MIN_VALUE());
        jvm.method_area.add_native_method("java.lang.Long", Long::SIZE());
        assert(jvm.method_area@ =~= old(jvm).method_area@ + Self::registered());
    }
}

pub struct Double;

impl Double {
    /// The method `java.lang.Double.parseDouble(Ljava/lang/String;)D`.
    pub fn parseDouble() -> (m: Method)
        ensures
            m@ == method_view("java.lang.Double"@, "parseDouble"@, "(Ljava/lang/String;)D"@, true, Some(Native::Host(HostNative::DoubleParseDouble))),
    {
        Method::new_native("java.lang.Double", "parseDouble", "(Ljava/lang/String;)D", true, Some(Native::Host(HostNative::DoubleParseDouble)))
    }

    /// The method `java.lang.Double.valueOf(Ljava/lang/String;)Ljava/lang/Double;`.
    pub fn valueOf() -> (m: Method)
        ensures
            m@ == method_view("java.lang.Double"@, "valueOf"@, "(Ljava/lang/String;)Ljava/lang/Double;"@, true, Some(Native::Host(HostNative::DoubleValueOf))),
    {
        Method::new_native("java.lang.Double", "valueOf", "(Ljava/lang/String;)Ljava/lang/Double;", true, Some(Native::Host(HostNative::DoubleValueOf)))
    }

    /// The method `java.lang.Double.toString(D)Ljava/lang/String;`.
    pub fn toString() -> (m: Method)
        ensures
            m@ == method_view("java.lang.Double"@, "toString"@, "(D)Ljava/lang/String;"@, true, Some(Native::Host(HostNative::DoubleToString))),
    {
        Method::new_native("java.lang.Double", "toString", "(D)Ljava/lang/String;", true, Some(Native::Host(HostNative::DoubleToString)))
    }

    /// The method `java.lang.Double.MAX_VALUE()D`.
    pub fn MAX_VALUE() -> (m: Method)
        ensures
            m@ == method_view("java.lang.Double"@, "MAX_VALUE"@, "()D"@, true, Some(Native::Lang(LangNative::DoubleMAXVALUE))),
    {
        Method::new_native("java.lang.Double", "MAX_VALUE", "()D", true, Some(Native::Lang(LangNative::DoubleMAXVALUE)))
    }

    /// The method `java.lang.Double.MIN_VALUE()D`.
    pub fn MIN_VALUE() -> (m: Method)
        ensures
            m@ == method_view("java.lang.Double"@, "MIN_VALUE"@, "()D"@, true, Some(Native::Lang(LangNative::DoubleMINVALUE))),
    {
        Method::new_native("java.lang.Double", "MIN_VALUE", "()D", true, Some(Native::Lang(LangNative::DoubleMINVALUE)))
    }

    /// What `register` adds to the method area, in order.
    pub open spec fn registered() -> Seq<(Seq<char>, MethodView)> {
        seq![
            ("java.lang.Double"@, method_view("java.lang.Double"@, "parseDouble"@, "(Ljava/lang/String;)D"@, true, Some(Native::Host(HostNative::DoubleParseDouble)))),
            ("java.lang.Double"@, method_view("java.lang.Double"@, "valueOf"@, "(Ljava/lang/String;)Ljava/lang/Double;"@, true, Some(Native::Host(HostNative::DoubleValueOf)))),
            ("java.lang.Double"@, method_view("java.lang.Double"@, "toString"@, "(D)Ljava/lang/String;"@, true, Some(Native::Host(HostNative::DoubleToString)))),
            ("java.lang.Double"@, method_view("java.lang.Double"@, "MAX_VALUE"@, "()D"@, true, Some(Native::Lang(LangNative::DoubleMAXVALUE)))),
            ("java.lang.Double"@, method_view("java.lang.Double"@, "MIN_VALUE"@, "()D"@, true, Some(Native::Lang(LangNative::DoubleMINVALUE)))),
        ]
    }

    pub fn register(jvm: &mut Jvm)
        ensures
            only_methods_added(*old(jvm), *final(jvm), Self::registered()),
    {
        jvm.method_area.add_native_method("java.lang.Double", Double::parseDouble());
        jvm.method_area.add_native_method("java.lang.Double", Double::valueOf());
        jvm.method_area.add_native_method("java.lang.Double", Double::toString());
        jvm.method_area.add_native_method("java.lang.Double", Double::MAX_VALUE());
        jvm.method_area.add_native_method("java.lang.Double", Double::MIN_VALUE());
        assert(jvm.method_area@ =~= old(jvm).method_area@ + Self::registered());
    }
}

pub struct Math;

impl Math {
    /// The method `java.lang.Math.abs(I)I`.
    pub fn abs_int() -> (m: Method)
        ensures
            m@ == method_view("java.lang.Math"@, "abs"@, "(I)I"@, true, Some(Native::Lang(LangNative::MathAbsInt))),
    {
        Method::new_native("java.lang.Math", "abs", "(I)I", true, Some(Native::Lang(LangNative::MathAbsInt)))
    }

    /// The method `java.lang.Math.abs(J)J`.
    pub fn abs_long() -> (m: Method)
        ensures
            m@ == method_view("java.lang.Math"@, "abs"@, "(J)J"@, true, Some(Native::Lang(LangNative::MathAbsLong))),
    {
        Method::new_native("java.lang.Math", "abs", "(J)J", true, Some(Native::Lang(LangNative::MathAbsLong)))
    }

    /// The method `java.lang.Math.abs(F)F`.
    pub fn abs_float() -> (m: Method)
        ensures
            m@ == method_view("java.lang.Math"@, "abs"@, "(F)F"@, true, Some(Native::Lang(LangNative::MathAbsFloat))),
    {
        Method::new_native("java.lang.Math", "abs", "(F)F", true, Some(Native::Lang(LangNative::MathAbsFloat)))
    }

    /// The method `java.lang.Math.abs(D)D`.
    pub fn abs_double() -> (m: Method)
        ensures
            m@ == method_view("java.lang.Math"@, "abs"@, "(D)D"@, true, Some(Native::Lang(LangNative::MathAbsDouble))),
    {
        Method::new_native("java.lang.Math", "abs", "(D)D", true, Some(Native::Lang(LangNative::MathAbsDouble)))
    }

    /// The method `java.lang.Math.max(II)I`.
    pub fn max_int() -> (m: Method)
        ensures
            m@ == method_view("java.lang.Math"@, "max"@, "(II)I"@, true, Some(Native::Lang(LangNative::MathMaxInt))),
    {
        Method::new_native("java.lang.Math", "max", "(II)I", true, Some(Native::Lang(LangNative::MathMaxInt)))
    }

    /// The method `java.lang.Math.max(JJ)J`.
    pub fn max_long() -> (m: Method)
        ensures
            m@ == method_view("java.lang.Math"@, "max"@, "(JJ)J"@, true, Some(Native::Lang(LangNative::MathMaxLong))),
    {
        Method::new_native("java.lang.Math", "max", "(JJ)J", true, Some(Native::Lang(LangNative::MathMaxLong)))
    }

    /// The method `java.lang.Math.min(II)I`.
    pub fn min_int() -> (m: Method)
        ensures
            m@ == method_view("java.lang.Math"@, "min"@, "(II)I"@, true, Some(Native::Lang(LangNative::MathMinInt))),
    {
        Method::new_native("java.lang.Math", "min", "(II)I", true, Some(Native::Lang(LangNative::MathMinInt)))
    }

    /// The method `java.lang.Math.min(JJ)J`.
    pub fn min_long() -> (m: Method)
        ensures
            m@ == method_view("java.lang.Math"@, "min"@, "(JJ)J"@, true, Some(Native::Lang(LangNative::MathMinLong))),
    {
        Method::new_native("java.lang.Math", "min", "(JJ)J", true, Some(Native::Lang(LangNative::MathMinLong)))
    }

    /// The method `java.lang.Math.sqrt(D)D`.
    pub fn sqrt() -> (m: Method)
        ensures
            m@ == method_view("java.lang.Math"@, "sqrt"@, "(D)D"@, true, Some(Native::Host(HostNative::MathSqrt))),
    {
        Method::new_native("java.lang.Math", "sqrt", "(D)D", true, Some(Native::Host(HostNative::MathSqrt)))
    }

    /// The method `java.lang.Math.pow(DD)D`.
    pub fn pow() -> (m: Method)
        ensures
            m@ == method_view("java.lang.Math"@, "pow"@, "(DD)D"@, true, Some(Native::Host(HostNative::MathPow))),
    {
        Method::new_native("java.lang.Math", "pow", "(DD)D", true, Some(Native::Host(HostNative::MathPow)))
    }

    /// What `register` adds to the method area, in order.
    pub open spec fn registered() -> Seq<(Seq<char>, MethodView)> {
        seq![
            ("java.lang.Math"@, method_view("java.lang.Math"@, "abs"@, "(I)I"@, true, Some(Native::Lang(LangNative::MathAbsInt)))),
            ("java.lang.Math"@, method_view("java.lang.Math"@, "abs"@, "(J)J"@, true, Some(Native::Lang(LangNative::MathAbsLong)))),
            ("java.lang.Math"@, method_view("java.lang.Math"@, "abs"@, "(F)F"@, true, Some(Native::Lang(LangNative::MathAbsFloat)))),
            ("java.lang.Math"@, method_view("java.lang.Math"@, "abs"@, "(D)D"@, true, Some(Native::Lang(LangNative::MathAbsDouble)))),
            ("java.lang.Math"@, method_view("java.lang.Math"@, "max"@, "(II)I"@, true, Some(Native::Lang(LangNative::MathMaxInt)))),
            ("java.lang.Math"@, method_view("java.lang.Math"@, "max"@, "(JJ)J"@, true, Some(Native::Lang(LangNative::MathMaxLong)))),
            ("java.lang.Math"@, method_view("java.lang.Math"@, "min"@, "(II)I"@, true, Some(Native::Lang(LangNative::MathMinInt)))),
            ("java.lang.Math"@, method_view("java.lang.Math"@, "min"@, "(JJ)J"@, true, Some(Native::Lang(LangNative::MathMinLong)))),
            ("java.lang.Math"@, method_view("java.lang.Math"@, "sqrt"@, "(D)D"@, true, Some(Native::Host(HostNative::MathSqrt)))),
            ("java.lang.Math"@, method_view("java.lang.Math"@, "pow"@, "(DD)D"@, true, Some(Native::Host(HostNative::MathPow)))),
        ]
    }

    pub fn register(jvm: &mut Jvm)
        ensures
            final(jvm).method_area@ == old(jvm).method_area@ + Self::registered(),
            static_view(&final(jvm).method_area) == static_view(&old(jvm).method_area).push(
                ("java.lang.Math"@, "PI"@, "D"@, Value::Double(0x4009_21FB_5444_2D18)),
            ).push(("java.lang.Math"@, "E"@, "D"@, Value::Double(0x4005_BF0A_8B14_5769))),
            final(jvm).heap@ == old(jvm).heap@,
            final(jvm).scheduler == old(jvm).scheduler,
            final(jvm).thread_objects@ == old(jvm).thread_objects@,
            final(jvm).current_thread_id == old(jvm).current_thread_id,
    {
        jvm.method_area.add_native_method("java.lang.Math", Math::abs_int());
        jvm.method_area.add_native_method("java.lang.Math", Math::abs_long());
        jvm.method_area.add_native_method("java.lang.Math", Math::abs_float());
        jvm.method_area.add_native_method("java.lang.Math", Math::abs_double());
        jvm.method_area.add_native_method("java.lang.Math", Math::max_int());
        jvm.method_area.add_native_method("java.lang.Math", Math::max_long());
        jvm.method_area.add_native_method("java.lang.Math", Math::min_int());
        jvm.method_area.add_native_method("java.lang.Math", Math::min_long());
        jvm.method_area.add_native_method("java.lang.Math", Math::sqrt());
        jvm.method_area.add_native_method("java.lang.Math", Math::pow());
        jvm.method_area.set_static_field("java.lang.Math", "PI", "D", Value::Double(0x4009_21FB_5444_2D18));
        jvm.method_area.set_static_field("java.lang.Math", "E", "D", Value::Double(0x4005_BF0A_8B14_5769));
        assert(jvm.method_area@ =~= old(jvm).method_area@ + Self::registered());
        assert(static_view(&jvm.method_area) =~= static_view(&old(jvm).method_area).push(("java.lang.Math"@, "PI"@, "D"@, Value::Double(0x4009_21FB_5444_2D18))).push(("java.lang.Math"@, "E"@, "D"@, Value::Double(0x4005_BF0A_8B14_5769))));
    }
}

pub struct Class;

impl Class {
    /// The method `java.lang.Class.getName()Ljava/lang/String;`.
    pub fn getName() -> (m: Method)
        ensures
            m@ == method_view("java.lang.Class"@, "getName"@, "()Ljava/lang/String;"@, false, Some(Native::Lang(LangNative::ClassGetName))),
    {
        Method::new_native("java.lang.Class", "getName", "()Ljava/lang/String;", false, Some(Native::Lang(LangNative::ClassGetName)))
    }

    /// The method `java.lang.Class.forName(Ljava/lang/String;)Ljava/lang/Class;`.
    pub fn forName() -> (m: Method)
        ensures
            m@ == method_view("java.lang.Class"@, "forName"@, "(Ljava/lang/String;)Ljava/lang/Class;"@, true, Some(Native::Lang(LangNative::ClassForName))),
    {
        Method::new_native("java.lang.Class", "forName", "(Ljava/lang/String;)Ljava/lang/Class;", true, Some(Native::Lang(LangNative::ClassForName)))
    }

    /// The method `java.lang.Class.getSimpleName()Ljava/lang/String;`.
    pub fn getSimpleName() -> (m: Method)
        ensures
            m@ == method_view("java.lang.Class"@, "getSimpleName"@, "()Ljava/lang/String;"@, false, Some(Native::Lang(LangNative::ClassGetSimpleName))),
    {
        Method::new_native("java.lang.Class", "getSimpleName", "()Ljava/lang/String;", false, Some(Native::Lang(LangNative::ClassGetSimpleName)))
    }

    /// The method `java.lang.Class.desiredAssertionStatus()Z`.
    pub fn desiredAssertionStatus() -> (m: Method)
        ensures
            m@ == method_view("java.lang.Class"@, "desiredAssertionStatus"@, "()Z"@, false, None),
    {
        Method::new_native("java.lang.Class", "desiredAssertionStatus", "()Z", false, None)
    }

    /// What `register` adds to the method area, in order.
    pub open spec fn registered() -> Seq<(Seq<char>, MethodView)> {
        seq![
            ("java.lang.Class"@, method_view("java.lang.Class"@, "getName"@, "()Ljava/lang/String;"@, false, Some(Native::Lang(LangNative::ClassGetName)))),
            ("java.lang.Class"@, method_view("java.lang.Class"@, "forName"@, "(Ljava/lang/String;)Ljava/lang/Class;"@, true, Some(Native::Lang(LangNative::ClassForName)))),
            ("java.lang.Class"@, method_view("java.lang.Class"@, "getSimpleName"@, "()Ljava/lang/String;"@, false, Some(Native::Lang(LangNative::ClassGetSimpleName)))),
            ("java.lang.Class"@, method_view("java.lang.Class"@, "desiredAssertionStatus"@, "()Z"@, false, None)),
        ]
    }

    pub fn register(jvm: &mut Jvm)
        ensures
            only_methods_added(*old(jvm), *final(jvm), Self::registered()),
    {
        jvm.method_area.add_native_method("java.lang.Class", Class::getName());
        jvm.method_area.add_native_method("java.lang.Class", Class::forName());
        jvm.method_area.add_native_method("java.lang.Class", Class::getSimpleName());
        jvm.method_area.add_native_method("java.lang.Class", Class::desiredAssertionStatus());
        assert(jvm.method_area@ =~= old(jvm).method_area@ + Self::registered());
    }
}

pub struct Float;

impl Float {
    /// The method `java.lang.Float.parseFloat(Ljava/lang/String;)F`.
    pub fn parseFloat() -> (m: Method)
        ensures
            m@ == method_view("java.lang.Float"@, "parseFloat"@, "(Ljava/lang/String;)F"@, true, Some(Native::Host(HostNative::FloatParseFloat))),
    {
        Method::new_native("java.lang.Float", "parseFloat", "(Ljava/lang/String;)F", true, Some(Native::Host(HostNative::FloatParseFloat)))
    }

    /// The method `java.lang.Float.valueOf(F)Ljava/lang/Float;`.
    pub fn valueOf_float() -> (m: Method)
        ensures
            m@ == method_view("java.lang.Float"@, "valueOf"@, "(F)Ljava/lang/Float;"@, true, Some(Native::Lang(LangNative::FloatValueOfFloat))),
    {
        Method::new_native("java.lang.Float", "valueOf", "(F)Ljava/lang/Float;", true, Some(Native::Lang(LangNative::FloatValueOfFloat)))
    }

    /// The method `java.lang.Float.toString(F)Ljava/lang/String;`.
    pub fn toString() -> (m: Method)
        ensures
            m@ == method_view("java.lang.Float"@, "toString"@, "(F)Ljava/lang/String;"@, true, Some(Native::Host(HostNative::FloatToString))),
    {
        Method::new_native("java.lang.Float", "toString", "(F)Ljava/lang/String;", true, Some(Native::Host(HostNative::FloatToString)))
    }

    /// The method `java.lang.Float.floatValue()F`.
    pub fn floatValue() -> (m: Method)
        ensures
            m@ == method_view("java.lang.Float"@, "floatValue"@, "()F"@, false, Some(Native::Lang(LangNative::FloatFloatValue))),
    {
        Method::new_native("java.lang.Float", "floatValue", "()F", false, Some(Native::Lang(LangNative::FloatFloatValue)))
    }

    /// What `register` adds to the method area, in order.
    pub open spec fn registered() -> Seq<(Seq<char>, MethodView)> {
        seq![
            ("java.lang.Float"@, method_view("java.lang.Float"@, "parseFloat"@, "(Ljava/lang/String;)F"@, true, Some(Native::Host(HostNative::FloatParseFloat)))),
            ("java.lang.Float"@, method_view("java.lang.Float"@, "valueOf"@, "(F)Ljava/lang/Float;"@, true, Some(Native::Lang(LangNative::FloatValueOfFloat)))),
            ("java.lang.Float"@, method_view("java.lang.Float"@, "toString"@, "(F)Ljava/lang/String;"@, true, Some(Native::Host(HostNative::FloatToString)))),
            ("java.lang.Float"@, method_view("java.lang.Float"@, "floatValue"@, "()F"@, false, Some(Native::Lang(LangNative::FloatFloatValue)))),
        ]
    }

    pub fn register(jvm: &mut Jvm)
        ensures
            only_methods_added(*old(jvm), *final(jvm), Self::registered()),
    {
        jvm.method_area.add_native_method("java.lang.Float", Float::parseFloat());
        jvm.method_area.add_native_method("java.lang.Float", Float::valueOf_float());
        jvm.method_area.add_native_method("java.lang.Float", Float::toString());
        jvm.method_area.add_native_method("java.lang.Float", Float::floatValue());
        assert(jvm.method_area@ =~= old(jvm).method_area@ + Self::registered());
    }
}

pub struct Boolean;

impl Boolean {
    /// The method `java.lang.Boolean.parseBoolean(Ljava/lang/String;)Z`.
    pub fn parseBoolean() -> (m: Method)
        ensures
            m@ == method_view("java.lang.Boolean"@, "parseBoolean"@, "(Ljava/lang/String;)Z"@, true, Some(Native::Lang(LangNative::BooleanParseBoolean))),
    {
        Method::new_native("java.lang.Boolean", "parseBoolean", "(Ljava/lang/String;)Z", true, Some(Native::Lang(LangNative::BooleanParseBoolean)))
    }

    /// The method `java.lang.Boolean.booleanValue()Z`.
    pub fn booleanValue() -> (m: Method)
        ensures
            m@ == method_view("java.lang.Boolean"@, "booleanValue"@, "()Z"@, false, Some(Native::Lang(LangNative::BooleanBooleanValue))),
    {
        Method::new_native("java.lang.Boolean", "booleanValue", "()Z", false, Some(Native::Lang(LangNative::BooleanBooleanValue)))
    }

    /// The method `java.lang.Boolean.toString(Z)Ljava/lang/String;`.
    pub fn toString() -> (m: Method)
        ensures
            m@ == method_view("java.lang.Boolean"@, "toString"@, "(Z)Ljava/lang/String;"@, true, Some(Native::Lang(LangNative::BooleanToString))),
    {
        Method::new_native("java.lang.Boolean", "toString", "(Z)Ljava/lang/String;", true, Some(Native::Lang(LangNative::BooleanToString)))
    }

    /// What `register` adds to the method area, in order.
    pub open spec fn registered() -> Seq<(Seq<char>, MethodView)> {
        seq![
            ("java.lang.Boolean"@, method_view("java.lang.Boolean"@, "parseBoolean"@, "(Ljava/lang/String;)Z"@, true, Some(Native::Lang(LangNative::BooleanParseBoolean)))),
            ("java.lang.Boolean"@, method_view("java.lang.Boolean"@, "booleanValue"@, "()Z"@, false, Some(Native::Lang(LangNative::BooleanBooleanValue)))),
            ("java.lang.Boolean"@, method_view("java.lang.Boolean"@, "toString"@, "(Z)Ljava/lang/String;"@, true, Some(Native::Lang(LangNative::BooleanToString)))),
        ]
    }

    pub fn register(jvm: &mut Jvm)
        ensures
            only_methods_added(*old(jvm), *final(jvm), Self::registered()),
    {
        jvm.method_area.add_native_method("java.lang.Boolean", Boolean::parseBoolean());
        jvm.method_area.add_native_method("java.lang.Boolean", Boolean::booleanValue());
        jvm.method_area.add_native_method("java.lang.Boolean", Boolean::toString());
        assert(jvm.method_area@ =~= old(jvm).method_area@ + Self::registered());
    }
}

pub struct Record;

impl Record {
    /// What `register` adds to the method area, in order.
    pub open spec fn registered() -> Seq<(Seq<char>, MethodView)> {
        seq![
            ("java.lang.Record"@, method_view("java.lang.Record"@, "<init>"@, "()V"@, false, None)),
        ]
    }

    pub fn register(jvm: &mut Jvm)
        ensures
            only_methods_added(*old(jvm), *final(jvm), Self::registered()),
    {
        let init_method = Method::new_native("java.lang.Record", "<init>", "()V", false, None);
        jvm.method_area.add_native_method("java.lang.Record", init_method);
        assert(jvm.method_area@ =~= old(jvm).method_area@ + Self::registered());
    }
}

pub struct Runnable;

impl Runnable {
    /// What `register` adds to the method area, in order.
    pub open spec fn registered() -> Seq<(Seq<char>, MethodView)> {
        seq![
            ("java.lang.Runnable"@, method_view("java.lang.Runnable"@, "run"@, "()V"@, false, Some(Native::Lang(LangNative::RunnableRun)))),
        ]
    }

    pub fn register(jvm: &mut Jvm)
        ensures
            only_methods_added(*old(jvm), *final(jvm), Self::registered()),
    {
        // Runnable.run() is abstract; a native no-op lets a Thread call target.run().
        let run_method = Method::new_native("java.lang.Runnable", "run", "()V", false, Some(Native::Lang(LangNative::RunnableRun)));
        jvm.method_area.add_native_method("java.lang.Runnable", run_method);
        assert(jvm.method_area@ =~= old(jvm).method_area@ + Self::registered());
    }
}


/// The two constructors registered for an exception class.
pub open spec fn exception_constructors(class_name: Seq<char>) -> Seq<(Seq<char>, MethodView)> {
    seq![
        (class_name, method_view(class_name, "<init>"@, "()V"@, false, None)),
        (class_name, method_view(class_name, "<init>"@, "(Ljava/lang/String;)V"@, false, Some(Native::Lang(LangNative::ExceptionInitWithMessage)))),
    ]
}

fn register_exception_class(jvm: &mut Jvm, class_name: &str)
    ensures
        only_methods_added(*old(jvm), *final(jvm), exception_constructors(class_name@)),
{
    let init_method = Method::new_native(class_name, "<init>", "()V", false, None);
    jvm.method_area.add_native_method(class_name, init_method);
    let init_with_message = Method::new_native(class_name, "<init>", "(Ljava/lang/String;)V", false, Some(Native::Lang(LangNative::ExceptionInitWithMessage)));
    jvm.method_area.add_native_method(class_name, init_with_message);
    assert(jvm.method_area@ =~= old(jvm).method_area@ + exception_constructors(class_name@));
}

/// The method area `before` with everything `register_standard_classes` adds, in order.
pub open spec fn with_standard_registrations(before: Seq<(Seq<char>, MethodView)>) -> Seq<(Seq<char>, MethodView)> {
    before + Object::registered() + Record::registered() + Class::registered() + Runnable::registered() + String::registered() + StringBuilder::registered() + Integer::registered() + Long::registered() + Float::registered() + Boolean::registered() + Double::registered() + Math::registered() + System::registered() + Thread::registered() + Throwable::registered()
        + exception_constructors("java.lang.Exception"@) + exception_constructors("java.lang.RuntimeException"@) + exception_constructors("java.lang.NullPointerException"@) + exception_constructors("java.lang.ArrayIndexOutOfBoundsException"@) + exception_constructors("java.lang.ClassCastException"@) + exception_constructors("java.lang.IllegalArgumentException"@) + exception_constructors("java.lang.NegativeArraySizeException"@)
}

/// Registers the java.lang classes and the constructors of the common exception classes.
pub fn register_standard_classes(jvm: &mut Jvm)
    ensures
        final(jvm).method_area@ == with_standard_registrations(old(jvm).method_area@),
        static_view(&final(jvm).method_area) == static_view(&old(jvm).method_area).push(
            ("java.lang.Math"@, "PI"@, "D"@, Value::Double(0x4009_21FB_5444_2D18)),
        ).push(("java.lang.Math"@, "E"@, "D"@, Value::Double(0x4005_BF0A_8B14_5769))),
        final(jvm).heap@ == old(jvm).heap@,
        final(jvm).scheduler == old(jvm).scheduler,
        final(jvm).thread_objects@ == old(jvm).thread_objects@,
        final(jvm).current_thread_id == old(jvm).current_thread_id,
{
    Object::register(jvm);
    Record::register(jvm);
    Class::register(jvm);
    Runnable::register(jvm);
    String::register(jvm);
    StringBuilder::register(jvm);
    Integer::register(jvm);
    Long::register(jvm);
    Float::register(jvm);
    Boolean::register(jvm);
    Double::register(jvm);
    Math::register(jvm);
    System::register(jvm);
    Thread::register(jvm);
    Throwable::register(jvm);
    register_exception_class(jvm, "java.lang.Exception");
    register_exception_class(jvm, "java.lang.RuntimeException");
    register_exception_class(jvm, "java.lang.NullPointerException");
    register_exception_class(jvm, "java.lang.ArrayIndexOutOfBoundsException");
    register_exception_class(jvm, "java.lang.ClassCastException");
    register_exception_class(jvm, "java.lang.IllegalArgumentException");
    register_exception_class(jvm, "java.lang.NegativeArraySizeException");
}

} // verus!
