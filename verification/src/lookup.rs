//! Lookup of a dotted name over finished definitions: the definition that
//! the first part of the name stands for, entered part by part.

use vstd::prelude::*;
use crate::error::{error, fail, Error, ErrorKind, ErrorV};
use crate::kind::{record_name_of, KindData, KindDataV};
use crate::names::{one, split_at, split_at_spec};
use crate::resolve::{field_named, parse_index};
use crate::semantics::{
    as_component, as_record, as_variable, index_value, initial_thing, resolve_pv, too_deep, DocV,
    RESOLVE_LIMIT,
};
use crate::tdoc::{lifted, TDoc};
use crate::text::to_chars;
use crate::thing::{
    field_position, find_field, get_entry, opt_property_value, views, ComponentDefinition, Record,
    Thing, ThingV, Variable, VariableV,
};
use crate::value::{PropertyValue, PropertyValueV, Value, ValueV};

verus! {

/// Whether a text of digits is the decimal form of its number: it has no
/// needless zero in front.
pub open spec fn is_canonical(key: Seq<char>) -> bool {
    key.len() == 1 || (key.len() > 1 && key[0] != '0')
}

/// The item of a list whose position, in decimal, is the text `key`.
pub open spec fn list_entry(data: Seq<PropertyValueV>, key: Seq<char>) -> Option<PropertyValueV> {
    match index_value(key) {
        Some(i) => if i < data.len() && is_canonical(key) {
            Some(data[i as int])
        } else {
            None
        },
        None => None,
    }
}

/// The member of a value under the name `key`: a field of a record or of
/// an object, or an item of a list by its position. The outer `None` is for
/// a value that has no members.
pub open spec fn member(value: ValueV, key: Seq<char>) -> Option<Option<PropertyValueV>> {
    match value {
        ValueV::Record { fields, .. } => Some(get_entry(fields, key)),
        ValueV::Object { values } => Some(get_entry(values, key)),
        ValueV::List { data, .. } => Some(list_entry(data, key)),
        _ => None,
    }
}

/// The variable that stands for a literal field of the variable `var`.
pub open spec fn literal_field_variable(var: VariableV, pv: PropertyValueV) -> ThingV {
    ThingV::Variable(
        VariableV {
            name: var.name,
            kind: KindDataV { kind: pv.kind(), caption: false, body: false },
            mutable: false,
            value: pv,
            conditional_value: Seq::empty(),
            line_number: pv.line_number(),
            is_static: !var.mutable,
        },
    )
}

/// The variable that stands for a field of kind `kind` of the variable
/// `var`, whose value is an optional that is not set.
pub open spec fn unset_field_variable(var: VariableV, kind: KindDataV, line_number: usize) -> ThingV {
    ThingV::Variable(
        VariableV {
            name: var.name,
            kind,
            mutable: var.mutable,
            value: PropertyValueV::Value {
                value: ValueV::Optional { data: None, kind },
                is_mutable: var.mutable,
                line_number,
            },
            conditional_value: Seq::empty(),
            line_number,
            is_static: !var.mutable,
        },
    )
}

/// The error of a definition or value that has no members.
pub open spec fn no_members(doc: DocV, line_number: usize) -> ErrorV {
    error(ErrorKind::TypeMismatch, "not a record"@, doc.name, line_number)
}

/// The definition that `name` stands for: the one that its first part
/// names, entered by the dotted rest.
pub open spec fn thing_of(doc: DocV, name: Seq<char>, line_number: usize, fuel: nat) -> Result<
    ThingV,
    ErrorV,
>
    decreases fuel, 0nat,
{
    if fuel == 0 {
        Err(too_deep(doc, line_number))
    } else {
        match initial_thing(doc, name, line_number) {
            Err(e) => Err(e),
            Ok((thing, remaining)) => match remaining {
                Some(path) => thing_at(doc, line_number, path, thing, (fuel - 1) as nat),
                None => Ok(thing),
            },
        }
    }
}

/// The definition that the dotted `path` leads to from `thing`.
pub open spec fn thing_at(doc: DocV, line_number: usize, path: Seq<char>, thing: ThingV, fuel: nat)
    -> Result<ThingV, ErrorV>
    decreases fuel, 3nat,
{
    if fuel == 0 {
        Err(too_deep(doc, line_number))
    } else {
        let (first, remaining) = split_at_spec(path, one('.'));
        match thing_step(doc, line_number, first, thing, fuel) {
            Err(e) => Err(e),
            Ok(t) => match remaining {
                Some(rest) => thing_at(doc, line_number, rest, t, (fuel - 1) as nat),
                None => Ok(t),
            },
        }
    }
}

/// The definition that stands for the member `first` of `thing`. Only a
/// variable has members: those of its resolved base value.
pub open spec fn thing_step(
    doc: DocV,
    line_number: usize,
    first: Seq<char>,
    thing: ThingV,
    fuel: nat,
) -> Result<ThingV, ErrorV>
    decreases fuel, 2nat,
{
    match thing {
        ThingV::Variable(var) => match resolve_pv(doc, var.value, line_number, fuel) {
            Err(e) => Err(e),
            Ok(value) => match value.inner() {
                None => unset_step(doc, line_number, first, var, fuel),
                Some(inner) => match member(inner, first) {
                    None => Err(no_members(doc, line_number)),
                    Some(entry) => entry_step(doc, line_number, var, entry, fuel),
                },
            },
        },
        _ => Err(no_members(doc, line_number)),
    }
}

/// The member `first` of a variable whose value is an optional record that
/// is not set: an unset optional of the kind that the record type gives the
/// field.
pub open spec fn unset_step(
    doc: DocV,
    line_number: usize,
    first: Seq<char>,
    var: VariableV,
    fuel: nat,
) -> Result<ThingV, ErrorV>
    decreases fuel, 0nat,
{
    if fuel == 0 {
        Err(too_deep(doc, line_number))
    } else {
        match record_name_of(var.value.kind()) {
            None => Err(no_members(doc, line_number)),
            Some(kind_name) => match thing_of(doc, kind_name, line_number, (fuel - 1) as nat) {
                Err(e) => Err(e),
                Ok(kind_thing) => match as_record(kind_thing, doc.name, line_number) {
                    Err(e) => Err(e),
                    Ok(record) => {
                        let i = find_field(record.fields, first, 0);
                        if i < 0 {
                            Err(error(ErrorKind::FieldNotFound, first, doc.name, line_number))
                        } else {
                            Ok(unset_field_variable(var, record.fields[i].kind, line_number))
                        }
                    },
                },
            },
        }
    }
}

/// The definition that stands for a member: a literal becomes a variable of
/// its own, a reference or a copy leads to the definition it names, and
/// where there is no such member, or it is a call, the definition stays.
pub open spec fn entry_step(
    doc: DocV,
    line_number: usize,
    var: VariableV,
    entry: Option<PropertyValueV>,
    fuel: nat,
) -> Result<ThingV, ErrorV>
    decreases fuel, 1nat,
{
    if fuel == 0 {
        Err(too_deep(doc, line_number))
    } else {
        match entry {
            Some(PropertyValueV::Value { value, is_mutable, line_number: l }) => Ok(
                literal_field_variable(
                    var,
                    PropertyValueV::Value { value, is_mutable, line_number: l },
                ),
            ),
            Some(PropertyValueV::Reference { name, .. }) => named_step(
                doc,
                line_number,
                name,
                fuel,
            ),
            Some(PropertyValueV::Clone { name, .. }) => named_step(doc, line_number, name, fuel),
            _ => Ok(ThingV::Variable(var)),
        }
    }
}

/// The definition that the name of a reference leads to.
pub open spec fn named_step(doc: DocV, line_number: usize, name: Seq<char>, fuel: nat) -> Result<
    ThingV,
    ErrorV,
>
    decreases fuel, 0nat,
{
    if fuel == 0 {
        Err(too_deep(doc, line_number))
    } else {
        match initial_thing(doc, name, line_number) {
            Err(e) => Err(e),
            Ok((thing, rest)) => match rest {
                Some(path) => thing_at(doc, line_number, path, thing, (fuel - 1) as nat),
                None => Ok(thing),
            },
        }
    }
}

/// The specification-level form of a looked-up member.
pub open spec fn member_view(r: Option<Option<PropertyValue>>) -> Option<Option<PropertyValueV>> {
    match r {
        Some(entry) => Some(opt_property_value(entry)),
        None => None,
    }
}

/// Whether a text of digits is the decimal form of its number.
fn canonical(key: &str) -> (r: bool)
    ensures
        r == is_canonical(key@),
{
    let chars = to_chars(key);
    chars.len() == 1 || (chars.len() > 1 && chars[0] != '0')
}

/// A copy of the item of a list whose position, in decimal, is `key`.
fn list_member(data: &Vec<PropertyValue>, key: &str) -> (r: Option<PropertyValue>)
    ensures
        opt_property_value(r) == list_entry(crate::value::items_model(*data), key@),
{
    match parse_index(key) {
        Some(i) => {
            if i < data.len() && canonical(key) {
                assert(crate::value::items_model(*data)[i as int] == data[i as int]@);
                Some(data[i].clone())
            } else {
                None
            }
        },
        None => None,
    }
}

/// A copy of the member of a value under the name `key`.
pub fn member_of(value: &Value, key: &str) -> (r: Option<Option<PropertyValue>>)
    ensures
        member_view(r) == member(value@, key@),
{
    match value {
        Value::Record { fields, .. } => Some(field_named(fields, key)),
        Value::Object { values } => Some(field_named(values, key)),
        Value::List { data, .. } => Some(list_member(data, key)),
        Value::String { .. } => None,
        Value::Integer { .. } => None,
        Value::Decimal { .. } => None,
        Value::Boolean { .. } => None,
        Value::OrType { .. } => None,
        Value::Optional { .. } => None,
        Value::UI { .. } => None,
    }
}

pub fn literal_field(var: &Variable, pv: PropertyValue) -> (r: Thing)
    requires
        pv@ is Value,
    ensures
        r@ == literal_field_variable(var@, pv@),
{
    let kind = KindData { kind: pv.kind(), caption: false, body: false };
    let line_number = pv.line_number();
    let conditional_value: Vec<crate::thing::ConditionalValue> = Vec::new();
    assert(views(conditional_value@) =~= Seq::empty());
    Thing::Variable(
        Variable {
            name: var.name.clone(),
            kind,
            mutable: false,
            value: pv,
            conditional_value,
            line_number,
            is_static: !var.mutable,
        },
    )
}

pub fn unset_field(var: &Variable, kind: &KindData, line_number: usize) -> (r: Thing)
    ensures
        r@ == unset_field_variable(var@, kind@, line_number),
{
    let conditional_value: Vec<crate::thing::ConditionalValue> = Vec::new();
    assert(views(conditional_value@) =~= Seq::empty());
    Thing::Variable(
        Variable {
            name: var.name.clone(),
            kind: kind.clone(),
            mutable: var.mutable,
            value: PropertyValue::Value {
                value: Value::Optional { data: Box::new(None), kind: kind.clone() },
                is_mutable: var.mutable,
                line_number,
            },
            conditional_value,
            line_number,
            is_static: !var.mutable,
        },
    )
}

fn thing_of_at(doc: &TDoc, name: &str, line_number: usize, depth: usize) -> (r: Result<
    Thing,
    Error,
>)
    ensures
        lifted(r) == thing_of(doc@, name@, line_number, depth as nat),
    decreases depth, 0nat,
{
    if depth == 0 {
        return fail(ErrorKind::ValueNotFound, "references do not end", doc.name, line_number);
    }
    match doc.get_initial_thing(name, line_number) {
        Err(e) => Err(e),
        Ok((thing, remaining)) => match remaining {
            Some(path) => thing_at_at(doc, line_number, path.as_str(), thing, depth - 1),
            None => Ok(thing),
        },
    }
}

fn thing_at_at(doc: &TDoc, line_number: usize, path: &str, thing: Thing, depth: usize) -> (r:
    Result<Thing, Error>)
    ensures
        lifted(r) == thing_at(doc@, line_number, path@, thing@, depth as nat),
    decreases depth, 3nat,
{
    proof {
        reveal_strlit(".");
        assert("."@ =~= one('.'));
    }
    if depth == 0 {
        return fail(ErrorKind::ValueNotFound, "references do not end", doc.name, line_number);
    }
    let (first, remaining) = split_at(path, ".");
    match thing_step_at(doc, line_number, first.as_str(), thing, depth) {
        Err(e) => Err(e),
        Ok(t) => match remaining {
            Some(rest) => thing_at_at(doc, line_number, rest.as_str(), t, depth - 1),
            None => Ok(t),
        },
    }
}

fn thing_step_at(doc: &TDoc, line_number: usize, first: &str, thing: Thing, depth: usize) -> (r:
    Result<Thing, Error>)
    ensures
        lifted(r) == thing_step(doc@, line_number, first@, thing@, depth as nat),
    decreases depth, 2nat,
{
    match thing {
        Thing::Variable(var) => {
            let value = match var.value.clone().resolve_at(doc, line_number, depth) {
                Err(e) => {
                    return Err(e);
                },
                Ok(v) => v,
            };
            match value.inner() {
                None => unset_step_at(doc, line_number, first, &var, depth),
                Some(inner) => match member_of(&inner, first) {
                    None => fail(ErrorKind::TypeMismatch, "not a record", doc.name, line_number),
                    Some(entry) => entry_step_at(doc, line_number, var, entry, depth),
                },
            }
        },
        Thing::Record(_) => fail(ErrorKind::TypeMismatch, "not a record", doc.name, line_number),
        Thing::OrType(_) => fail(ErrorKind::TypeMismatch, "not a record", doc.name, line_number),
        Thing::OrTypeWithVariant { .. } => fail(
            ErrorKind::TypeMismatch,
            "not a record",
            doc.name,
            line_number,
        ),
        Thing::Component(_) => fail(ErrorKind::TypeMismatch, "not a record", doc.name, line_number),
        Thing::Function(_) => fail(ErrorKind::TypeMismatch, "not a record", doc.name, line_number),
    }
}

fn unset_step_at(doc: &TDoc, line_number: usize, first: &str, var: &Variable, depth: usize) -> (r:
    Result<Thing, Error>)
    ensures
        lifted(r) == unset_step(doc@, line_number, first@, var@, depth as nat),
    decreases depth, 0nat,
{
    if depth == 0 {
        return fail(ErrorKind::ValueNotFound, "references do not end", doc.name, line_number);
    }
    let kind_name = match var.value.kind().get_record_name() {
        None => {
            return fail(ErrorKind::TypeMismatch, "not a record", doc.name, line_number);
        },
        Some(n) => n,
    };
    let kind_thing = match thing_of_at(doc, kind_name.as_str(), line_number, depth - 1) {
        Err(e) => {
            return Err(e);
        },
        Ok(t) => t,
    };
    let record = match kind_thing.record(doc.name, line_number) {
        Err(e) => {
            return Err(e);
        },
        Ok(r) => r,
    };
    match field_position(&record.fields, first) {
        None => fail(ErrorKind::FieldNotFound, first, doc.name, line_number),
        Some(i) => Ok(unset_field(var, &record.fields[i].kind, line_number)),
    }
}

fn entry_step_at(
    doc: &TDoc,
    line_number: usize,
    var: Variable,
    entry: Option<PropertyValue>,
    depth: usize,
) -> (r: Result<Thing, Error>)
    ensures
        lifted(r) == entry_step(doc@, line_number, var@, opt_property_value(entry), depth as nat),
    decreases depth, 1nat,
{
    if depth == 0 {
        return fail(ErrorKind::ValueNotFound, "references do not end", doc.name, line_number);
    }
    let pv = match entry {
        Some(pv) => pv,
        None => {
            return Ok(Thing::Variable(var));
        },
    };
    if pv.is_value() {
        return Ok(literal_field(&var, pv));
    }
    match linked_name(&pv) {
        Some(name) => named_step_at(doc, line_number, name.as_str(), depth),
        None => Ok(Thing::Variable(var)),
    }
}

/// The name that a reference or a copy gives.
pub fn linked_name(pv: &PropertyValue) -> (r: Option<String>)
    ensures
        crate::kind::opt_text(r) == match pv@ {
            PropertyValueV::Reference { name, .. } => Some(name),
            PropertyValueV::Clone { name, .. } => Some(name),
            _ => None,
        },
{
    match pv {
        PropertyValue::Reference { name, .. } => Some(name.clone()),
        PropertyValue::Clone { name, .. } => Some(name.clone()),
        _ => None,
    }
}

fn named_step_at(doc: &TDoc, line_number: usize, name: &str, depth: usize) -> (r: Result<
    Thing,
    Error,
>)
    ensures
        lifted(r) == named_step(doc@, line_number, name@, depth as nat),
    decreases depth, 0nat,
{
    if depth == 0 {
        return fail(ErrorKind::ValueNotFound, "references do not end", doc.name, line_number);
    }
    match doc.get_initial_thing(name, line_number) {
        Err(e) => Err(e),
        Ok((thing, rest)) => match rest {
            Some(path) => thing_at_at(doc, line_number, path.as_str(), thing, depth - 1),
            None => Ok(thing),
        },
    }
}

/// The record type that `name` stands for.
pub open spec fn record_named(doc: DocV, name: Seq<char>, line_number: usize) -> Result<
    crate::thing::RecordV,
    ErrorV,
> {
    match thing_of(doc, name, line_number, RESOLVE_LIMIT as nat) {
        Ok(thing) => as_record(thing, doc.name, line_number),
        Err(e) => Err(e),
    }
}

/// The variable that `name` stands for.
pub open spec fn variable_named(doc: DocV, name: Seq<char>, line_number: usize) -> Result<
    VariableV,
    ErrorV,
> {
    match thing_of(doc, name, line_number, RESOLVE_LIMIT as nat) {
        Ok(thing) => as_variable(thing, doc.name, line_number),
        Err(e) => Err(e),
    }
}

/// The component definition that `name` stands for.
pub open spec fn component_named(doc: DocV, name: Seq<char>, line_number: usize) -> Result<
    crate::thing::ComponentDefinitionV,
    ErrorV,
> {
    match thing_of(doc, name, line_number, RESOLVE_LIMIT as nat) {
        Ok(thing) => as_component(thing, doc.name, line_number),
        Err(e) => Err(e),
    }
}

/// The value of the variable that `name` stands for.
pub open spec fn value_named(doc: DocV, name: Seq<char>, line_number: usize) -> Result<
    ValueV,
    ErrorV,
> {
    match variable_named(doc, name, line_number) {
        Ok(v) => resolve_pv(doc, v.value, line_number, RESOLVE_LIMIT as nat),
        Err(e) => Err(e),
    }
}

impl<'a> TDoc<'a> {
    /// The definition that `name` stands for.
    pub fn get_thing(&self, name: &str, line_number: usize) -> (r: Result<Thing, Error>)
        ensures
            lifted(r) == thing_of(self@, name@, line_number, RESOLVE_LIMIT as nat),
    {
        thing_of_at(self, name, line_number, RESOLVE_LIMIT)
    }

    /// The record type that `name` stands for.
    pub fn get_record(&self, name: &str, line_number: usize) -> (r: Result<Record, Error>)
        ensures
            lifted(r) == record_named(self@, name@, line_number),
    {
        match self.get_thing(name, line_number) {
            Ok(thing) => thing.record(self.name, line_number),
            Err(e) => Err(e),
        }
    }

    /// The variable that `name` stands for.
    pub fn get_variable(&self, name: &str, line_number: usize) -> (r: Result<Variable, Error>)
        ensures
            lifted(r) == variable_named(self@, name@, line_number),
    {
        match self.get_thing(name, line_number) {
            Ok(thing) => thing.variable(self.name, line_number),
            Err(e) => Err(e),
        }
    }

    /// The component definition that `name` stands for.
    pub fn get_component(&self, name: &str, line_number: usize) -> (r: Result<
        ComponentDefinition,
        Error,
    >)
        ensures
            lifted(r) == component_named(self@, name@, line_number),
    {
        match self.get_thing(name, line_number) {
            Ok(thing) => thing.component(self.name, line_number),
            Err(e) => Err(e),
        }
    }

    /// The value of the variable that `name` stands for.
    pub fn get_value(&self, line_number: usize, name: &str) -> (r: Result<Value, Error>)
        ensures
            lifted(r) == value_named(self@, name@, line_number),
    {
        match self.get_variable(name, line_number) {
            Ok(v) => v.value.resolve(self, line_number),
            Err(e) => Err(e),
        }
    }
}

} // verus!
