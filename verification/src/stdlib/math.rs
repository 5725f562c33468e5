use vstd::prelude::*;
use crate::runtime::jvm::{Jvm, only_methods_added};
use crate::runtime::method::{method_view, static_view, Method, MethodView, Native};
use crate::stdlib::host::HostNative;

verus! {

/// The native implementations this library provides for these classes.
#[derive(Clone, Copy, Debug, PartialEq, Eq, Structural)]
pub enum MathNative {
    BigIntegerInit,
    BigIntegerInitString,
    BigIntegerAdd,
    BigIntegerSubtract,
    BigIntegerMultiply,
    BigIntegerDivide,
    BigIntegerToString,
    BigIntegerLongValue,
}

pub struct BigInteger;

impl BigInteger {
    /// The method `java.math.BigInteger.<init>(J)V`.
    pub fn init() -> (m: Method)
        ensures
            m@ == method_view("java.math.BigInteger"@, "<init>"@, "(J)V"@, false, Some(Native::Math(MathNative::BigIntegerInit))),
    {
        Method::new_native("java.math.BigInteger", "<init>", "(J)V", false, Some(Native::Math(MathNative::BigIntegerInit)))
    }

    /// The method `java.math.BigInteger.<init>(Ljava/lang/String;)V`.
    pub fn init_string() -> (m: Method)
        ensures
            m@ == method_view("java.math.BigInteger"@, "<init>"@, "(Ljava/lang/String;)V"@, false, Some(Native::Math(MathNative::BigIntegerInitString))),
    {
        Method::new_native("java.math.BigInteger", "<init>", "(Ljava/lang/String;)V", false, Some(Native::Math(MathNative::BigIntegerInitString)))
    }

    /// The method `java.math.BigInteger.add(Ljava/math/BigInteger;)Ljava/math/BigInteger;`.
    pub fn add() -> (m: Method)
        ensures
            m@ == method_view("java.math.BigInteger"@, "add"@, "(Ljava/math/BigInteger;)Ljava/math/BigInteger;"@, false, Some(Native::Math(MathNative::BigIntegerAdd))),
    {
        Method::new_native("java.math.BigInteger", "add", "(Ljava/math/BigInteger;)Ljava/math/BigInteger;", false, Some(Native::Math(MathNative::BigIntegerAdd)))
    }

    /// The method `java.math.BigInteger.subtract(Ljava/math/BigInteger;)Ljava/math/BigInteger;`.
    pub fn subtract() -> (m: Method)
        ensures
            m@ == method_view("java.math.BigInteger"@, "subtract"@, "(Ljava/math/BigInteger;)Ljava/math/BigInteger;"@, false, Some(Native::Math(MathNative::BigIntegerSubtract))),
    {
        Method::new_native("java.math.BigInteger", "subtract", "(Ljava/math/BigInteger;)Ljava/math/BigInteger;", false, Some(Native::Math(MathNative::BigIntegerSubtract)))
    }

    /// The method `java.math.BigInteger.multiply(Ljava/math/BigInteger;)Ljava/math/BigInteger;`.
    pub fn multiply() -> (m: Method)
        ensures
            m@ == method_view("java.math.BigInteger"@, "multiply"@, "(Ljava/math/BigInteger;)Ljava/math/BigInteger;"@, false, Some(Native::Math(MathNative::BigIntegerMultiply))),
    {
        Method::new_native("java.math.BigInteger", "multiply", "(Ljava/math/BigInteger;)Ljava/math/BigInteger;", false, Some(Native::Math(MathNative::BigIntegerMultiply)))
    }

    /// The method `java.math.BigInteger.divide(Ljava/math/BigInteger;)Ljava/math/BigInteger;`.
    pub fn divide() -> (m: Method)
        ensures
            m@ == method_view("java.math.BigInteger"@, "divide"@, "(Ljava/math/BigInteger;)Ljava/math/BigInteger;"@, false, Some(Native::Math(MathNative::BigIntegerDivide))),
    {
        Method::new_native("java.math.BigInteger", "divide", "(Ljava/math/BigInteger;)Ljava/math/BigInteger;", false, Some(Native::Math(MathNative::BigIntegerDivide)))
    }

    /// The method `java.math.BigInteger.toString()Ljava/lang/String;`.
    pub fn toString() -> (m: Method)
        ensures
            m@ == method_view("java.math.BigInteger"@, "toString"@, "()Ljava/lang/String;"@, false, Some(Native::Math(MathNative::BigIntegerToString))),
    {
        Method::new_native("java.math.BigInteger", "toString", "()Ljava/lang/String;", false, Some(Native::Math(MathNative::BigIntegerToString)))
    }

    /// The method `java.math.BigInteger.longValue()J`.
    pub fn longValue() -> (m: Method)
        ensures
            m@ == method_view("java.math.BigInteger"@, "longValue"@, "()J"@, false, Some(Native::Math(MathNative::BigIntegerLongValue))),
    {
        Method::new_native("java.math.BigInteger", "longValue", "()J", false, Some(Native::Math(MathNative::BigIntegerLongValue)))
    }

    /// What `register` adds to the method area, in order.
    pub open spec fn registered() -> Seq<(Seq<char>, MethodView)> {
        seq![
            ("java.math.BigInteger"@, method_view("java.math.BigInteger"@, "<init>"@, "(J)V"@, false, Some(Native::Math(MathNative::BigIntegerInit)))),
            ("java.math.BigInteger"@, method_view("java.math.BigInteger"@, "<init>"@, "(Ljava/lang/String;)V"@, false, Some(Native::Math(MathNative::BigIntegerInitString)))),
            ("java.math.BigInteger"@, method_view("java.math.BigInteger"@, "add"@, "(Ljava/math/BigInteger;)Ljava/math/BigInteger;"@, false, Some(Native::Math(MathNative::BigIntegerAdd)))),
            ("java.math.BigInteger"@, method_view("java.math.BigInteger"@, "subtract"@, "(Ljava/math/BigInteger;)Ljava/math/BigInteger;"@, false, Some(Native::Math(MathNative::BigIntegerSubtract)))),
            ("java.math.BigInteger"@, method_view("java.math.BigInteger"@, "multiply"@, "(Ljava/math/BigInteger;)Ljava/math/BigInteger;"@, false, Some(Native::Math(MathNative::BigIntegerMultiply)))),
            ("java.math.BigInteger"@, method_view("java.math.BigInteger"@, "divide"@, "(Ljava/math/BigInteger;)Ljava/math/BigInteger;"@, false, Some(Native::Math(MathNative::BigIntegerDivide)))),
            ("java.math.BigInteger"@, method_view("java.math.BigInteger"@, "toString"@, "()Ljava/lang/String;"@, false, Some(Native::Math(MathNative::BigIntegerToString)))),
            ("java.math.BigInteger"@, method_view("java.math.BigInteger"@, "longValue"@, "()J"@, false, Some(Native::Math(MathNative::BigIntegerLongValue)))),
        ]
    }

    pub fn register(jvm: &mut Jvm)
        ensures
            only_methods_added(*old(jvm), *final(jvm), Self::registered()),
    {
        jvm.method_area.add_native_method("java.math.BigInteger", BigInteger::init());
        jvm.method_area.add_native_method("java.math.BigInteger", BigInteger::init_string());
        jvm.method_area.add_native_method("java.math.BigInteger", BigInteger::add());
        jvm.method_area.add_native_method("java.math.BigInteger", BigInteger::subtract());
        jvm.method_area.add_native_method("java.math.BigInteger", BigInteger::multiply());
        jvm.method_area.add_native_method("java.math.BigInteger", BigInteger::divide());
        jvm.method_area.add_native_method("java.math.BigInteger", BigInteger::toString());
        jvm.method_area.add_native_method("java.math.BigInteger", BigInteger::longValue());
        assert(jvm.method_area@ =~= old(jvm).method_area@ + Self::registered());
    }
}

pub struct BigDecimal;

impl BigDecimal {
    /// The method `java.math.BigDecimal.<init>(D)V`.
    pub fn init() -> (m: Method)
        ensures
            m@ == method_view("java.math.BigDecimal"@, "<init>"@, "(D)V"@, false, Some(Native::Host(HostNative::BigDecimalInit))),
    {
        Method::new_native("java.math.BigDecimal", "<init>", "(D)V", false, Some(Native::Host(HostNative::BigDecimalInit)))
    }

    /// The method `java.math.BigDecimal.<init>(Ljava/lang/String;)V`.
    pub fn init_string() -> (m: Method)
        ensures
            m@ == method_view("java.math.BigDecimal"@, "<init>"@, "(Ljava/lang/String;)V"@, false, Some(Native::Host(HostNative::BigDecimalInitString))),
    {
        Method::new_native("java.math.BigDecimal", "<init>", "(Ljava/lang/String;)V", false, Some(Native::Host(HostNative::BigDecimalInitString)))
    }

    /// The method `java.math.BigDecimal.add(Ljava/math/BigDecimal;)Ljava/math/BigDecimal;`.
    pub fn add() -> (m: Method)
        ensures
            m@ == method_view("java.math.BigDecimal"@, "add"@, "(Ljava/math/BigDecimal;)Ljava/math/BigDecimal;"@, false, Some(Native::Host(HostNative::BigDecimalAdd))),
    {
        Method::new_native("java.math.BigDecimal", "add", "(Ljava/math/BigDecimal;)Ljava/math/BigDecimal;", false, Some(Native::Host(HostNative::BigDecimalAdd)))
    }

    /// The method `java.math.BigDecimal.multiply(Ljava/math/BigDecimal;)Ljava/math/BigDecimal;`.
    pub fn multiply() -> (m: Method)
        ensures
            m@ == method_view("java.math.BigDecimal"@, "multiply"@, "(Ljava/math/BigDecimal;)Ljava/math/BigDecimal;"@, false, Some(Native::Host(HostNative::BigDecimalMultiply))),
    {
        Method::new_native("java.math.BigDecimal", "multiply", "(Ljava/math/BigDecimal;)Ljava/math/BigDecimal;", false, Some(Native::Host(HostNative::BigDecimalMultiply)))
    }

    /// The method `java.math.BigDecimal.toString()Ljava/lang/String;`.
    pub fn toString() -> (m: Method)
        ensures
            m@ == method_view("java.math.BigDecimal"@, "toString"@, "()Ljava/lang/String;"@, false, Some(Native::Host(HostNative::BigDecimalToString))),
    {
        Method::new_native("java.math.BigDecimal", "toString", "()Ljava/lang/String;", false, Some(Native::Host(HostNative::BigDecimalToString)))
    }

    /// The method `java.math.BigDecimal.doubleValue()D`.
    pub fn doubleValue() -> (m: Method)
        ensures
            m@ == method_view("java.math.BigDecimal"@, "doubleValue"@, "()D"@, false, Some(Native::Host(HostNative::BigDecimalDoubleValue))),
    {
        Method::new_native("java.math.BigDecimal", "doubleValue", "()D", false, Some(Native::Host(HostNative::BigDecimalDoubleValue)))
    }

    /// What `register` adds to the method area, in order.
    pub open spec fn registered() -> Seq<(Seq<char>, MethodView)> {
        seq![
            ("java.math.BigDecimal"@, method_view("java.math.BigDecimal"@, "<init>"@, "(D)V"@, false, Some(Native::Host(HostNative::BigDecimalInit)))),
            ("java.math.BigDecimal"@, method_view("java.math.BigDecimal"@, "<init>"@, "(Ljava/lang/String;)V"@, false, Some(Native::Host(HostNative::BigDecimalInitString)))),
            ("java.math.BigDecimal"@, method_view("java.math.BigDecimal"@, "add"@, "(Ljava/math/BigDecimal;)Ljava/math/BigDecimal;"@, false, Some(Native::Host(HostNative::BigDecimalAdd)))),
            ("java.math.BigDecimal"@, method_view("java.math.BigDecimal"@, "multiply"@, "(Ljava/math/BigDecimal;)Ljava/math/BigDecimal;"@, false, Some(Native::Host(HostNative::BigDecimalMultiply)))),
            ("java.math.BigDecimal"@, method_view("java.math.BigDecimal"@, "toString"@, "()Ljava/lang/String;"@, false, Some(Native::Host(HostNative::BigDecimalToString)))),
            ("java.math.BigDecimal"@, method_view("java.math.BigDecimal"@, "doubleValue"@, "()D"@, false, Some(Native::Host(HostNative::BigDecimalDoubleValue)))),
        ]
    }

    pub fn register(jvm: &mut Jvm)
        ensures
            only_methods_added(*old(jvm), *final(jvm), Self::registered()),
    {
        jvm.method_area.add_native_method("java.math.BigDecimal", BigDecimal::init());
        jvm.method_area.add_native_method("java.math.BigDecimal", BigDecimal::init_string());
        jvm.method_area.add_native_method("java.math.BigDecimal", BigDecimal::add());
        jvm.method_area.add_native_method("java.math.BigDecimal", BigDecimal::multiply());
        jvm.method_area.add_native_method("java.math.BigDecimal", BigDecimal::toString());
        jvm.method_area.add_native_method("java.math.BigDecimal", BigDecimal::doubleValue());
        assert(jvm.method_area@ =~= old(jvm).method_area@ + Self::registered());
    }
}


/// The method area `before` with everything `register_math_classes` adds, in order.
pub open spec fn with_all_registrations(before: Seq<(Seq<char>, MethodView)>) -> Seq<(Seq<char>, MethodView)> {
    before + BigInteger::registered() + BigDecimal::registered()
}

/// Register all java.math classes with the JVM.
pub fn register_math_classes(jvm: &mut Jvm)
    ensures
        final(jvm).method_area@ == with_all_registrations(old(jvm).method_area@),
        static_view(&final(jvm).method_area) == static_view(&old(jvm).method_area),
        final(jvm).heap@ == old(jvm).heap@,
        final(jvm).scheduler == old(jvm).scheduler,
        final(jvm).thread_objects@ == old(jvm).thread_objects@,
        final(jvm).current_thread_id == old(jvm).current_thread_id,
{
    BigInteger::register(jvm);
    BigDecimal::register(jvm);
}

} // verus!
