use vstd::prelude::*;

verus! {

/// A Java value as held in locals, on the operand stack, in fields and in arrays.
/// Floating-point values are carried as their IEEE-754 bit patterns.
#[derive(Clone, Copy, Debug, PartialEq, Eq, Structural)]
pub enum Value {
    Int(i32),
    Long(i64),
    Float(u32),
    Double(u64),
    Boolean(bool),
    Byte(i8),
    Short(i16),
    Char(u16),
    ObjectRef(usize),
    ArrayRef(usize),
    Null,
}

pub open spec fn spec_as_int(v: Value) -> i32 {
    match v {
        Value::Int(i) => i,
        Value::Byte(b) => b as i32,
        Value::Short(s) => s as i32,
        Value::Char(c) => c as i32,
        Value::Boolean(b) => if b { 1 } else { 0 },
        _ => 0,
    }
}

pub open spec fn spec_as_long(v: Value) -> i64 {
    match v {
        Value::Long(l) => l,
        Value::Int(i) => i as i64,
        Value::Byte(b) => b as i64,
        Value::Short(s) => s as i64,
        Value::Char(c) => c as i64,
        Value::Boolean(b) => if b { 1 } else { 0 },
        _ => 0,
    }
}

/// The value read as a Java `boolean`: a `boolean` itself, a non-zero `int`.
pub open spec fn spec_as_bool(v: Value) -> bool {
    match v {
        Value::Boolean(b) => b,
        Value::Int(i) => i != 0,
        _ => false,
    }
}

impl Value {
    pub fn as_bool(&self) -> (r: bool)
        ensures
            r == spec_as_bool(*self),
    {
        match *self {
            Value::Boolean(b) => b,
            Value::Int(i) => i != 0,
            _ => false,
        }
    }

    /// The value read as a Java `long` (0 for values that are not integral).
    pub fn as_long(&self) -> (r: i64)
        ensures
            r == spec_as_long(*self),
    {
        match *self {
            Value::Long(l) => l,
            Value::Int(i) => i as i64,
            Value::Byte(b) => b as i64,
            Value::Short(s) => s as i64,
            Value::Char(c) => c as i64,
            Value::Boolean(b) => if b { 1 } else { 0 },
            _ => 0,
        }
    }

    /// The value read as a Java `int` (0 for values that are not integral).
    pub fn as_int(&self) -> (r: i32)
        ensures
            r == spec_as_int(*self),
    {
        match *self {
            Value::Int(i) => i,
            Value::Byte(b) => b as i32,
            Value::Short(s) => s as i32,
            Value::Char(c) => c as i32,
            Value::Boolean(b) => if b { 1 } else { 0 },
            _ => 0,
        }
    }
}

} // verus!
