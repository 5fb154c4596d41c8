//! The value model: what an operand-stack slot, a local slot, a field or an
//! array element can hold.
use vstd::prelude::*;

verus! {

/// A runtime value. Floating-point values are held as their IEEE 754 bit
/// patterns; references and arrays are handles into a `Heap`; `Null` is the
/// one canonical null reference.
#[derive(Clone, Copy, PartialEq, Eq, Debug, Structural)]
pub enum Value {
    Int(i32),
    Long(i64),
    Float(u32),
    Double(u64),
    Reference(usize),
    Array(usize),
    Null,
}

/// The accessor category that an instruction expects of a slot.
#[derive(Clone, Copy, PartialEq, Eq, Debug, Structural)]
pub enum Kind {
    Int,
    Long,
    Float,
    Double,
    /// An object reference, an array reference or null.
    Ref,
    /// An array reference or null.
    ArrayRef,
    /// An object reference or null.
    ObjectRef,
    /// Any value (used by the untyped stack instructions).
    Any,
}

/// The declared type of a field, as recovered from its descriptor.
#[derive(Clone, Copy, PartialEq, Eq, Debug, Structural)]
pub enum ValueType {
    Int,
    Long,
    Float,
    Double,
    Object,
    Array,
    Short,
    Char,
    Boolean,
    Byte,
}

impl Value {
    pub open spec fn has_kind(self, k: Kind) -> bool {
        match k {
            Kind::Int => self is Int,
            Kind::Long => self is Long,
            Kind::Float => self is Float,
            Kind::Double => self is Double,
            Kind::Ref => self is Reference || self is Array || self is Null,
            Kind::ArrayRef => self is Array || self is Null,
            Kind::ObjectRef => self is Reference || self is Null,
            Kind::Any => true,
        }
    }

    /// Whether this value is of the given kind.
    pub fn is_kind(&self, k: Kind) -> (r: bool)
        ensures
            r == self.has_kind(k),
    {
        match k {
            Kind::Int => matches!(self, Value::Int(_)),
            Kind::Long => matches!(self, Value::Long(_)),
            Kind::Float => matches!(self, Value::Float(_)),
            Kind::Double => matches!(self, Value::Double(_)),
            Kind::Ref => matches!(self, Value::Reference(_) | Value::Array(_) | Value::Null),
            Kind::ArrayRef => matches!(self, Value::Array(_) | Value::Null),
            Kind::ObjectRef => matches!(self, Value::Reference(_) | Value::Null),
            Kind::Any => true,
        }
    }
}

impl ValueType {
    /// The stack kind through which a field of this type is read and written:
    /// `short`, `char`, `boolean` and `byte` share the integer representation.
    pub open spec fn spec_kind(self) -> Kind {
        match self {
            ValueType::Int | ValueType::Short | ValueType::Char | ValueType::Boolean
            | ValueType::Byte => Kind::Int,
            ValueType::Long => Kind::Long,
            ValueType::Float => Kind::Float,
            ValueType::Double => Kind::Double,
            ValueType::Object | ValueType::Array => Kind::Ref,
        }
    }

    #[verifier::when_used_as_spec(spec_kind)]
    pub fn kind(self) -> (r: Kind)
        ensures
            r == self.spec_kind(),
    {
        match self {
            ValueType::Int | ValueType::Short | ValueType::Char | ValueType::Boolean
            | ValueType::Byte => Kind::Int,
            ValueType::Long => Kind::Long,
            ValueType::Float => Kind::Float,
            ValueType::Double => Kind::Double,
            ValueType::Object | ValueType::Array => Kind::Ref,
        }
    }

    /// The value a field of this type holds before anything is stored in it.
    pub open spec fn spec_default_value(self) -> Value {
        match self.spec_kind() {
            Kind::Int => Value::Int(0),
            Kind::Long => Value::Long(0),
            Kind::Float => Value::Float(0),
            Kind::Double => Value::Double(0),
            _ => Value::Null,
        }
    }

    #[verifier::when_used_as_spec(spec_default_value)]
    pub fn default_value(self) -> (r: Value)
        ensures
            r == self.spec_default_value(),
    {
        match self.kind() {
            Kind::Int => Value::Int(0),
            Kind::Long => Value::Long(0),
            Kind::Float => Value::Float(0),
            Kind::Double => Value::Double(0),
            _ => Value::Null,
        }
    }
}

} // verus!
