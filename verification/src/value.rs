//! Runtime values and their types.

use crate::text::{signed_decimal, signed_decimal_string};
use vstd::prelude::*;
use vstd::std_specs::ops::{AddSpecImpl, MulSpecImpl, SubSpecImpl};

verus! {

/// The type of a runtime value.
#[derive(Debug, Clone, Copy, PartialEq, Eq, Structural)]
pub enum ValueType {
    I32,
    I64,
}

impl ValueType {
    /// The name of the type in the text format.
    pub open spec fn name(self) -> Seq<char> {
        match self {
            ValueType::I32 => "i32"@,
            ValueType::I64 => "i64"@,
        }
    }

    /// The number of bytes a value of this type occupies.
    pub open spec fn width(self) -> nat {
        match self {
            ValueType::I32 => 4,
            ValueType::I64 => 8,
        }
    }

    /// The value every declared local of this type starts with.
    pub open spec fn zero(self) -> Value {
        match self {
            ValueType::I32 => Value::I32(0),
            ValueType::I64 => Value::I64(0),
        }
    }

    pub fn to_str(&self) -> (r: &'static str)
        ensures
            r@ == self.name(),
    {
        match self {
            ValueType::I32 => "i32",
            ValueType::I64 => "i64",
        }
    }

    /// The type's name as an owned string.
    pub fn to_string(&self) -> (r: String)
        ensures
            r@ == self.name(),
    {
        self.to_str().to_owned()
    }
}

/// A runtime value, tagged with its type.
#[derive(Debug, Clone, Copy, PartialEq, Eq, Structural)]
pub enum Value {
    I32(i32),
    I64(i64),
}

impl Value {
    /// The type this value carries.
    pub open spec fn value_type(self) -> ValueType {
        match self {
            Value::I32(_) => ValueType::I32,
            Value::I64(_) => ValueType::I64,
        }
    }

    /// The integer that this value holds.
    pub open spec fn number(self) -> int {
        match self {
            Value::I32(v) => v as int,
            Value::I64(v) => v as int,
        }
    }

    /// The value in decimal.
    pub fn to_string(&self) -> (r: String)
        ensures
            r@ == signed_decimal(self.number()),
    {
        match self {
            Value::I32(v) => signed_decimal_string(*v as i64),
            Value::I64(v) => signed_decimal_string(*v),
        }
    }

    /// The type this value carries.
    pub fn ty(&self) -> (r: ValueType)
        ensures
            r == self.value_type(),
    {
        match self {
            Value::I32(_) => ValueType::I32,
            Value::I64(_) => ValueType::I64,
        }
    }
}

impl From<i32> for Value {
    fn from(value: i32) -> (r: Value)
        ensures
            r == Value::I32(value),
    {
        Value::I32(value)
    }
}

impl vstd::std_specs::convert::FromSpecImpl<i32> for Value {
    open spec fn obeys_from_spec() -> bool {
        true
    }

    open spec fn from_spec(value: i32) -> Value {
        Value::I32(value)
    }
}

impl From<i64> for Value {
    fn from(value: i64) -> (r: Value)
        ensures
            r == Value::I64(value),
    {
        Value::I64(value)
    }
}

impl vstd::std_specs::convert::FromSpecImpl<i64> for Value {
    open spec fn obeys_from_spec() -> bool {
        true
    }

    open spec fn from_spec(value: i64) -> Value {
        Value::I64(value)
    }
}

impl core::ops::Add for Value {
    type Output = Value;

    /// Wrapping addition of two values of one type.
    fn add(self, rhs: Value) -> (r: Value) {
        match (self, rhs) {
            (Value::I32(left), Value::I32(right)) => Value::I32(left.wrapping_add(right)),
            (Value::I64(left), Value::I64(right)) => Value::I64(left.wrapping_add(right)),
            _ => {
                assert(false);
                self
            },
        }
    }
}

impl AddSpecImpl for Value {
    open spec fn obeys_add_spec() -> bool {
        true
    }

    open spec fn add_req(self, rhs: Value) -> bool {
        self.value_type() == rhs.value_type()
    }

    open spec fn add_spec(self, rhs: Value) -> Value {
        match (self, rhs) {
            (Value::I32(left), Value::I32(right)) => Value::I32(left.wrapping_add(right)),
            (Value::I64(left), Value::I64(right)) => Value::I64(left.wrapping_add(right)),
            _ => self,
        }
    }
}

impl core::ops::Mul for Value {
    type Output = Value;

    /// Wrapping multiplication of two values of one type.
    fn mul(self, rhs: Value) -> (r: Value) {
        match (self, rhs) {
            (Value::I32(left), Value::I32(right)) => Value::I32(left.wrapping_mul(right)),
            (Value::I64(left), Value::I64(right)) => Value::I64(left.wrapping_mul(right)),
            _ => {
                assert(false);
                self
            },
        }
    }
}

impl MulSpecImpl for Value {
    open spec fn obeys_mul_spec() -> bool {
        true
    }

    open spec fn mul_req(self, rhs: Value) -> bool {
        self.value_type() == rhs.value_type()
    }

    open spec fn mul_spec(self, rhs: Value) -> Value {
        match (self, rhs) {
            (Value::I32(left), Value::I32(right)) => Value::I32(left.wrapping_mul(right)),
            (Value::I64(left), Value::I64(right)) => Value::I64(left.wrapping_mul(right)),
            _ => self,
        }
    }
}

impl core::ops::Sub for Value {
    type Output = Value;

    /// Wrapping subtraction of two values of one type.
    fn sub(self, rhs: Value) -> (r: Value) {
        match (self, rhs) {
            (Value::I32(left), Value::I32(right)) => Value::I32(left.wrapping_sub(right)),
            (Value::I64(left), Value::I64(right)) => Value::I64(left.wrapping_sub(right)),
            _ => {
                assert(false);
                self
            },
        }
    }
}

impl SubSpecImpl for Value {
    open spec fn obeys_sub_spec() -> bool {
        true
    }

    open spec fn sub_req(self, rhs: Value) -> bool {
        self.value_type() == rhs.value_type()
    }

    open spec fn sub_spec(self, rhs: Value) -> Value {
        match (self, rhs) {
            (Value::I32(left), Value::I32(right)) => Value::I32(left.wrapping_sub(right)),
            (Value::I64(left), Value::I64(right)) => Value::I64(left.wrapping_sub(right)),
            _ => self,
        }
    }
}

} // verus!
