//! What can be read off a value or a property value without a document:
//! its kind, what an optional holds, and its parts by sort.

use vstd::prelude::*;
use crate::error::{error, fail, Error, ErrorKind, ErrorV};
use crate::kind::{opt_text, Kind, KindV};
use crate::value::{
    FunctionCall, FunctionCallV, PropertyValue, PropertyValueV, Value, ValueV,
};

verus! {

impl ValueV {
    /// The kind that the shape of the value gives it.
    pub open spec fn kind(self) -> KindV {
        match self {
            ValueV::String { .. } => KindV::String,
            ValueV::Integer { .. } => KindV::Integer,
            ValueV::Decimal { .. } => KindV::Decimal,
            ValueV::Boolean { .. } => KindV::Boolean,
            ValueV::Object { .. } => KindV::Object,
            ValueV::Record { name, .. } => KindV::Record { name },
            ValueV::OrType { name, variant, .. } => KindV::OrType { name, variant: Some(variant) },
            ValueV::List { kind, .. } => KindV::List { kind: Box::new(kind.kind) },
            ValueV::Optional { kind, .. } => KindV::Optional { kind: Box::new(kind.kind) },
            ValueV::UI { kind, .. } => kind.kind,
        }
    }

    /// What an optional holds, if it is set; any other value itself.
    pub open spec fn inner(self) -> Option<ValueV> {
        match self {
            ValueV::Optional { data, .. } => match data {
                Some(v) => Some(*v),
                None => None,
            },
            v => Some(v),
        }
    }
}

impl PropertyValueV {
    /// The kind of the property value, known without resolving it.
    pub open spec fn kind(self) -> KindV {
        match self {
            PropertyValueV::Value { value, .. } => value.kind(),
            PropertyValueV::Reference { kind, .. } => kind.kind,
            PropertyValueV::Clone { kind, .. } => kind.kind,
            PropertyValueV::FunctionCall(call) => call.kind.kind,
        }
    }

    pub open spec fn is_mutable(self) -> bool {
        match self {
            PropertyValueV::Value { is_mutable, .. } => is_mutable,
            PropertyValueV::Reference { is_mutable, .. } => is_mutable,
            PropertyValueV::Clone { is_mutable, .. } => is_mutable,
            PropertyValueV::FunctionCall(call) => call.is_mutable,
        }
    }

    pub open spec fn line_number(self) -> usize {
        match self {
            PropertyValueV::Value { line_number, .. } => line_number,
            PropertyValueV::Reference { line_number, .. } => line_number,
            PropertyValueV::Clone { line_number, .. } => line_number,
            PropertyValueV::FunctionCall(call) => call.line_number,
        }
    }

    /// The name of the variable that a reference shares its storage with.
    pub open spec fn reference_name(self) -> Option<Seq<char>> {
        match self {
            PropertyValueV::Reference { name, .. } => Some(name),
            _ => None,
        }
    }

    /// The value of a literal; an error for anything that needs a document.
    pub open spec fn value(self, doc_id: Seq<char>, line_number: usize) -> Result<ValueV, ErrorV> {
        match self {
            PropertyValueV::Value { value, .. } => Ok(value),
            _ => Err(error(ErrorKind::TypeMismatch, "Expected value"@, doc_id, line_number)),
        }
    }
}

impl Value {
    /// The kind that the shape of the value gives it.
    pub fn kind(&self) -> (r: Kind)
        ensures
            r@ == self@.kind(),
    {
        match self {
            Value::String { .. } => Kind::String,
            Value::Integer { .. } => Kind::Integer,
            Value::Decimal { .. } => Kind::Decimal,
            Value::Boolean { .. } => Kind::Boolean,
            Value::Object { .. } => Kind::Object,
            Value::Record { name, .. } => Kind::Record { name: name.clone() },
            Value::OrType { name, variant, .. } => Kind::OrType {
                name: name.clone(),
                variant: Some(variant.clone()),
            },
            Value::List { kind, .. } => Kind::List { kind: Box::new(kind.kind.clone()) },
            Value::Optional { kind, .. } => Kind::Optional { kind: Box::new(kind.kind.clone()) },
            Value::UI { kind, .. } => kind.kind.clone(),
        }
    }

    /// What an optional holds, if it is set; any other value itself.
    pub fn inner(&self) -> (r: Option<Value>)
        ensures
            match r {
                Some(v) => self@.inner() == Some(v@),
                None => self@.inner().is_none(),
            },
    {
        match self {
            Value::Optional { data, .. } => match &**data {
                Some(v) => Some(v.clone()),
                None => None,
            },
            v => Some(v.clone()),
        }
    }

    /// Wraps the value as a literal property value.
    pub fn into_property_value(self, is_mutable: bool, line_number: usize) -> (r: PropertyValue)
        ensures
            r@ == (PropertyValueV::Value { value: self@, is_mutable, line_number }),
    {
        PropertyValue::Value { value: self, is_mutable, line_number }
    }

    /// Whether the value is a record of the type `rec_name`.
    pub fn is_record(&self, rec_name: &str) -> (r: bool)
        ensures
            r == match self@ {
                ValueV::Record { name, .. } => name == rec_name@,
                _ => false,
            },
    {
        match self {
            Value::Record { name, .. } => crate::text::str_eq(name.as_str(), rec_name),
            _ => false,
        }
    }

    /// Whether the value is the variant `or_variant` of an or-type.
    pub fn is_or_type_variant(&self, or_variant: &str) -> (r: bool)
        ensures
            r == match self@ {
                ValueV::OrType { variant, .. } => variant == or_variant@,
                _ => false,
            },
    {
        match self {
            Value::OrType { variant, .. } => crate::text::str_eq(variant.as_str(), or_variant),
            _ => false,
        }
    }

    /// Whether the value is an optional that is not set.
    pub fn is_null(&self) -> (r: bool)
        ensures
            r == self@.inner().is_none(),
    {
        match self {
            Value::Optional { data, .. } => (**data).is_none(),
            _ => false,
        }
    }

    /// The text of a string value.
    pub fn string(&self, doc_id: &str, line_number: usize) -> (r: Result<String, Error>)
        ensures
            match r {
                Ok(s) => self@ == (ValueV::String { text: s@ }),
                Err(e) => !(self@ is String) && e@ == error(
                    ErrorKind::TypeMismatch,
                    "Expected String"@,
                    doc_id@,
                    line_number,
                ),
            },
    {
        match self {
            Value::String { text } => Ok(text.clone()),
            _ => fail(ErrorKind::TypeMismatch, "Expected String", doc_id, line_number),
        }
    }

    /// The number of an integer value.
    pub fn integer(&self, doc_id: &str, line_number: usize) -> (r: Result<i64, Error>)
        ensures
            match r {
                Ok(n) => self@ == (ValueV::Integer { value: n }),
                Err(e) => !(self@ is Integer) && e@ == error(
                    ErrorKind::TypeMismatch,
                    "Expected Integer"@,
                    doc_id@,
                    line_number,
                ),
            },
    {
        match self {
            Value::Integer { value } => Ok(*value),
            _ => fail(ErrorKind::TypeMismatch, "Expected Integer", doc_id, line_number),
        }
    }

    /// The truth value of a boolean value.
    pub fn bool(&self, doc_id: &str, line_number: usize) -> (r: Result<bool, Error>)
        ensures
            match r {
                Ok(b) => self@ == (ValueV::Boolean { value: b }),
                Err(e) => !(self@ is Boolean) && e@ == error(
                    ErrorKind::TypeMismatch,
                    "Expected Boolean"@,
                    doc_id@,
                    line_number,
                ),
            },
    {
        match self {
            Value::Boolean { value } => Ok(*value),
            _ => fail(ErrorKind::TypeMismatch, "Expected Boolean", doc_id, line_number),
        }
    }
}

impl PropertyValue {
    /// The kind of the property value, known without resolving it.
    pub fn kind(&self) -> (r: Kind)
        ensures
            r@ == self@.kind(),
    {
        match self {
            PropertyValue::Value { value, .. } => value.kind(),
            PropertyValue::Reference { kind, .. } => kind.kind.clone(),
            PropertyValue::Clone { kind, .. } => kind.kind.clone(),
            PropertyValue::FunctionCall(call) => call.kind.kind.clone(),
        }
    }

    pub fn is_mutable(&self) -> (r: bool)
        ensures
            r == self@.is_mutable(),
    {
        match self {
            PropertyValue::Value { is_mutable, .. } => *is_mutable,
            PropertyValue::Reference { is_mutable, .. } => *is_mutable,
            PropertyValue::Clone { is_mutable, .. } => *is_mutable,
            PropertyValue::FunctionCall(call) => call.is_mutable,
        }
    }

    pub fn line_number(&self) -> (r: usize)
        ensures
            r == self@.line_number(),
    {
        match self {
            PropertyValue::Value { line_number, .. } => *line_number,
            PropertyValue::Reference { line_number, .. } => *line_number,
            PropertyValue::Clone { line_number, .. } => *line_number,
            PropertyValue::FunctionCall(call) => call.line_number,
        }
    }

    /// Whether the property value is a literal.
    pub fn is_value(&self) -> (r: bool)
        ensures
            r == (self@ is Value),
    {
        matches!(self, PropertyValue::Value { .. })
    }

    /// The name of the variable that a reference shares its storage with.
    pub fn reference_name(&self) -> (r: Option<String>)
        ensures
            opt_text(r) == self@.reference_name(),
    {
        match self {
            PropertyValue::Reference { name, .. } => Some(name.clone()),
            _ => None,
        }
    }

    /// The call of a property value that is a function call.
    pub fn get_function(&self) -> (r: Option<FunctionCall>)
        ensures
            match r {
                Some(call) => self@ == PropertyValueV::FunctionCall(call@),
                None => !(self@ is FunctionCall),
            },
    {
        match self {
            PropertyValue::FunctionCall(call) => Some(call.clone()),
            _ => None,
        }
    }

    /// The value of a literal; an error for anything that needs a document.
    pub fn value(&self, doc_id: &str, line_number: usize) -> (r: Result<Value, Error>)
        ensures
            match r {
                Ok(v) => self@.value(doc_id@, line_number) == Ok::<ValueV, ErrorV>(v@),
                Err(e) => self@.value(doc_id@, line_number) == Err::<ValueV, ErrorV>(e@),
            },
    {
        match self {
            PropertyValue::Value { value, .. } => Ok(value.clone()),
            _ => fail(ErrorKind::TypeMismatch, "Expected value", doc_id, line_number),
        }
    }
}

impl FunctionCall {
    pub fn new(
        name: &str,
        kind: crate::kind::KindData,
        is_mutable: bool,
        line_number: usize,
        values: Vec<(String, PropertyValue)>,
    ) -> (r: FunctionCall)
        ensures
            r@ == (FunctionCallV {
                name: name@,
                kind: kind@,
                is_mutable,
                line_number,
                values: crate::value::fields_model(values),
            }),
    {
        FunctionCall { name: name.to_owned(), kind, is_mutable, line_number, values }
    }
}

} // verus!
