//! Resolution of property values against a document.

use vstd::prelude::*;
use crate::error::{fail, Error, ErrorKind, ErrorV};
use crate::kind::KindData;
use crate::names::split_at;
use crate::semantics::{
    call_function, digits_value, eval_condition, eval_node, index_value, navigate, path_part,
    resolve_arguments, resolve_named, resolve_pv, selected_value, DocV, RESOLVE_LIMIT,
};
use crate::tdoc::{lifted, TDoc};
use crate::text::{str_eq, to_chars};
use crate::thing::{find_key, get_entry, views, ConditionalValue, Thing};
use crate::value::{
    fields_model,
    Expression,
    ExpressionNode,
    FunctionCall,
    Property,
    PropertyV,
    PropertyValue,
    Value,
    ValueV,
};

verus! {

/// The views of a list of named values.
pub open spec fn bound(v: Seq<(String, Value)>) -> Seq<(Seq<char>, ValueV)> {
    Seq::new(v.len(), |i: int| (v[i].0@, v[i].1@))
}

/// Position of the first of the named property values under the name `key`.
pub fn field_position(fields: &Vec<(String, PropertyValue)>, key: &str) -> (r: Option<usize>)
    ensures
        match r {
            Some(i) => i < fields.len() && i as int == find_key(fields_model(*fields), key@, 0),
            None => find_key(fields_model(*fields), key@, 0) == -1,
        },
{
    let mut i: usize = 0;
    while i < fields.len()
        invariant
            i <= fields.len(),
            find_key(fields_model(*fields), key@, 0) == find_key(
                fields_model(*fields),
                key@,
                i as int,
            ),
        decreases fields.len() - i,
    {
        if str_eq(fields[i].0.as_str(), key) {
            return Some(i);
        }
        i += 1;
    }
    None
}

/// Position of the first of the named values under the name `key`.
fn bound_position(arguments: &Vec<(String, Value)>, key: &str) -> (r: Option<usize>)
    ensures
        match r {
            Some(i) => i < arguments.len() && i as int == find_key(bound(arguments@), key@, 0),
            None => find_key(bound(arguments@), key@, 0) == -1,
        },
{
    let mut i: usize = 0;
    while i < arguments.len()
        invariant
            i <= arguments.len(),
            find_key(bound(arguments@), key@, 0) == find_key(bound(arguments@), key@, i as int),
        decreases arguments.len() - i,
    {
        if str_eq(arguments[i].0.as_str(), key) {
            return Some(i);
        }
        i += 1;
    }
    None
}

/// The position that a text of decimal digits denotes.
pub fn parse_index(s: &str) -> (r: Option<usize>)
    ensures
        r == index_value(s@),
{
    reveal(index_value);
    let chars = to_chars(s);
    if chars.len() == 0 {
        return None;
    }
    let mut acc: usize = 0;
    let mut i: usize = 0;
    while i < chars.len()
        invariant
            i <= chars.len(),
            chars@ == s@,
            digits_value(s@, 0, 0) == digits_value(s@, i as int, acc as int),
        decreases chars.len() - i,
    {
        reveal(index_value);
        let c = chars[i];
        if !('0' <= c && c <= '9') {
            return None;
        }
        let d: usize = (c as u32 - '0' as u32) as usize;
        if acc > (usize::MAX - d) / 10 {
            proof {
                lemma_digits_grow(s@, i + 1, acc * 10 + d);
            }
            return None;
        }
        acc = acc * 10 + d;
        i += 1;
    }
    Some(acc)
}

proof fn lemma_digits_grow(s: Seq<char>, from: int, acc: int)
    requires
        0 <= from,
        0 <= acc,
    ensures
        match digits_value(s, from, acc) {
            Some(n) => n >= acc,
            None => true,
        },
    decreases s.len() - from,
{
    if from < s.len() && '0' <= s[from] && s[from] <= '9' {
        lemma_digits_grow(s, from + 1, acc * 10 + (s[from] as int - '0' as int));
    }
}

fn resolve_pv_at(doc: &TDoc, pv: &PropertyValue, line_number: usize, depth: usize) -> (r: Result<
    Value,
    Error,
>)
    ensures
        lifted(r) == resolve_pv(doc@, pv@, line_number, depth as nat),
    decreases depth, 0nat,
{
    if depth == 0 {
        return fail(ErrorKind::ValueNotFound, "references do not end", doc.name, line_number);
    }
    match pv {
        PropertyValue::Value { value, .. } => Ok(value.clone()),
        PropertyValue::Reference { name, kind, .. } => resolve_named_at(
            doc,
            name.as_str(),
            kind,
            line_number,
            depth - 1,
        ),
        PropertyValue::Clone { name, kind, .. } => resolve_named_at(
            doc,
            name.as_str(),
            kind,
            line_number,
            depth - 1,
        ),
        PropertyValue::FunctionCall(call) => call_function_at(doc, call, line_number, depth - 1),
    }
}

fn resolve_named_at(
    doc: &TDoc,
    name: &str,
    kind: &KindData,
    line_number: usize,
    depth: usize,
) -> (r: Result<Value, Error>)
    ensures
        lifted(r) == resolve_named(doc@, name@, kind@, line_number, depth as nat),
    decreases depth, 0nat,
{
    if depth == 0 {
        return fail(ErrorKind::ValueNotFound, "references do not end", doc.name, line_number);
    }
    match doc.get_initial_thing(name, line_number) {
        Ok((Thing::Variable(v), remaining)) => {
            let pv = match selected_value_at(doc, &v.conditional_value, &v.value, depth - 1) {
                Err(e) => {
                    return Err(e);
                },
                Ok(pv) => pv,
            };
            let value = match resolve_pv_at(doc, &pv, line_number, depth - 1) {
                Err(e) => {
                    return Err(e);
                },
                Ok(value) => value,
            };
            match remaining {
                Some(path) => navigate_at(doc, path.as_str(), &value, line_number, depth - 1),
                None => Ok(value),
            }
        },
        Ok((Thing::Component(c), None)) => Ok(c.to_value(kind)),
        _ => fail(ErrorKind::ValueNotFound, name, doc.name, line_number),
    }
}

fn selected_value_at(
    doc: &TDoc,
    conditions: &Vec<ConditionalValue>,
    base: &PropertyValue,
    depth: usize,
) -> (r: Result<PropertyValue, Error>)
    ensures
        lifted(r) == selected_value(doc@, views(conditions@), 0, base@, depth as nat),
    decreases depth, 1nat,
{
    let mut i: usize = 0;
    while i < conditions.len()
        invariant
            i <= conditions.len(),
            selected_value(doc@, views(conditions@), 0, base@, depth as nat) == selected_value(
                doc@,
                views(conditions@),
                i as int,
                base@,
                depth as nat,
            ),
        decreases conditions.len() - i,
    {
        if depth == 0 {
            return fail(
                ErrorKind::ValueNotFound,
                "references do not end",
                doc.name,
                conditions[i].condition.line_number,
            );
        }
        match eval_condition_at(doc, &conditions[i].condition, depth - 1) {
            Err(e) => {
                return Err(e);
            },
            Ok(true) => {
                return Ok(conditions[i].value.clone());
            },
            Ok(false) => {},
        }
        i += 1;
    }
    Ok(base.clone())
}

fn eval_condition_at(doc: &TDoc, condition: &Expression, depth: usize) -> (r: Result<bool, Error>)
    ensures
        match r {
            Ok(b) => eval_condition(doc@, condition@, depth as nat) == Ok::<bool, ErrorV>(b),
            Err(e) => eval_condition(doc@, condition@, depth as nat) == Err::<bool, ErrorV>(e@),
        },
    decreases depth, 0nat,
{
    if depth == 0 {
        return fail(
            ErrorKind::ValueNotFound,
            "references do not end",
            doc.name,
            condition.line_number,
        );
    }
    let arguments: Vec<(String, Value)> = Vec::new();
    assert(bound(arguments@) =~= Seq::empty());
    match eval_node_at(doc, &condition.node, &arguments, condition.line_number, depth - 1) {
        Err(e) => Err(e),
        Ok(Value::Boolean { value }) => Ok(value),
        Ok(_) => fail(ErrorKind::TypeMismatch, "Expected Boolean", doc.name, condition.line_number),
    }
}

fn eval_node_at(
    doc: &TDoc,
    node: &ExpressionNode,
    arguments: &Vec<(String, Value)>,
    line_number: usize,
    depth: usize,
) -> (r: Result<Value, Error>)
    ensures
        lifted(r) == eval_node(doc@, node@, bound(arguments@), line_number, depth as nat),
    decreases depth, 0nat,
{
    if depth == 0 {
        return fail(ErrorKind::ValueNotFound, "references do not end", doc.name, line_number);
    }
    match node {
        ExpressionNode::Value(pv) => resolve_pv_at(doc, pv, line_number, depth - 1),
        ExpressionNode::Argument(name) => match bound_position(arguments, name.as_str()) {
            Some(i) => Ok(arguments[i].1.clone()),
            None => fail(ErrorKind::ArgumentNotFound, name.as_str(), doc.name, line_number),
        },
        ExpressionNode::Not(a) => match eval_node_at(doc, a, arguments, line_number, depth - 1) {
            Err(e) => Err(e),
            Ok(Value::Boolean { value }) => Ok(Value::Boolean { value: !value }),
            Ok(_) => fail(ErrorKind::TypeMismatch, "Expected Boolean", doc.name, line_number),
        },
        ExpressionNode::And(a, b) => match eval_node_at(doc, a, arguments, line_number, depth - 1) {
            Err(e) => Err(e),
            Ok(Value::Boolean { value: left }) => match eval_node_at(
                doc,
                b,
                arguments,
                line_number,
                depth - 1,
            ) {
                Err(e) => Err(e),
                Ok(Value::Boolean { value: right }) => Ok(Value::Boolean { value: left && right }),
                Ok(_) => fail(ErrorKind::TypeMismatch, "Expected Boolean", doc.name, line_number),
            },
            Ok(_) => fail(ErrorKind::TypeMismatch, "Expected Boolean", doc.name, line_number),
        },
        ExpressionNode::Or(a, b) => match eval_node_at(doc, a, arguments, line_number, depth - 1) {
            Err(e) => Err(e),
            Ok(Value::Boolean { value: left }) => match eval_node_at(
                doc,
                b,
                arguments,
                line_number,
                depth - 1,
            ) {
                Err(e) => Err(e),
                Ok(Value::Boolean { value: right }) => Ok(Value::Boolean { value: left || right }),
                Ok(_) => fail(ErrorKind::TypeMismatch, "Expected Boolean", doc.name, line_number),
            },
            Ok(_) => fail(ErrorKind::TypeMismatch, "Expected Boolean", doc.name, line_number),
        },
    }
}

fn resolve_arguments_at(
    doc: &TDoc,
    values: &Vec<(String, PropertyValue)>,
    line_number: usize,
    depth: usize,
) -> (r: Result<Vec<(String, Value)>, Error>)
    ensures
        match r {
            Ok(a) => resolve_arguments(
                doc@,
                fields_model(*values),
                0,
                Seq::empty(),
                line_number,
                depth as nat,
            ) == Ok::<Seq<(Seq<char>, ValueV)>, ErrorV>(bound(a@)),
            Err(e) => resolve_arguments(
                doc@,
                fields_model(*values),
                0,
                Seq::empty(),
                line_number,
                depth as nat,
            ) == Err::<Seq<(Seq<char>, ValueV)>, ErrorV>(e@),
        },
    decreases depth, 1nat,
{
    let mut out: Vec<(String, Value)> = Vec::new();
    let mut i: usize = 0;
    assert(bound(out@) =~= Seq::empty());
    while i < values.len()
        invariant
            i <= values.len(),
            resolve_arguments(
                doc@,
                fields_model(*values),
                0,
                Seq::empty(),
                line_number,
                depth as nat,
            ) == resolve_arguments(
                doc@,
                fields_model(*values),
                i as int,
                bound(out@),
                line_number,
                depth as nat,
            ),
        decreases values.len() - i,
    {
        if depth == 0 {
            return fail(ErrorKind::ValueNotFound, "references do not end", doc.name, line_number);
        }
        match resolve_pv_at(doc, &values[i].1, line_number, depth - 1) {
            Err(e) => {
                return Err(e);
            },
            Ok(v) => {
                let ghost before = bound(out@);
                out.push((values[i].0.clone(), v));
                assert(bound(out@) =~= before.push((values[i as int].0@, v@)));
            },
        }
        i += 1;
    }
    Ok(out)
}

fn call_function_at(doc: &TDoc, call: &FunctionCall, line_number: usize, depth: usize) -> (r:
    Result<Value, Error>)
    ensures
        lifted(r) == call_function(doc@, call@, line_number, depth as nat),
    decreases depth, 0nat,
{
    if depth == 0 {
        return fail(ErrorKind::ValueNotFound, "references do not end", doc.name, line_number);
    }
    let function = match doc.get_function(call.name.as_str(), line_number) {
        Err(e) => {
            return Err(e);
        },
        Ok(f) => f,
    };
    let arguments = match resolve_arguments_at(doc, &call.values, line_number, depth - 1) {
        Err(e) => {
            return Err(e);
        },
        Ok(a) => a,
    };
    match eval_node_at(doc, &function.expression.node, &arguments, line_number, depth - 1) {
        Err(e) => Err(e),
        Ok(value) => {
            let kind = value.kind();
            if function.return_kind.kind.is_same_as(&kind) {
                Ok(value)
            } else {
                fail(ErrorKind::InvalidKind, function.name.as_str(), doc.name, line_number)
            }
        },
    }
}

/// A copy of the first of the named property values under the name `key`.
pub fn field_named(fields: &Vec<(String, PropertyValue)>, key: &str) -> (r: Option<PropertyValue>)
    ensures
        crate::thing::opt_property_value(r) == get_entry(fields_model(*fields), key@),
{
    match field_position(fields, key) {
        Some(i) => {
                assert(fields_model(*fields)[i as int].1 == fields[i as int].1@);
            Some(fields[i].1.clone())
        },
        None => None,
    }
}

/// A copy of the item of a list at the position that `first` denotes.
fn item_at(doc: &TDoc, data: &Vec<PropertyValue>, first: &str, line_number: usize) -> (r: Result<
    PropertyValue,
    Error,
>)
    ensures
        lifted(r) == crate::semantics::item_of(
            doc@,
            crate::value::items_model(*data),
            first@,
            line_number,
        ),
{
    match parse_index(first) {
        None => fail(ErrorKind::ParseIntError, first, doc.name, line_number),
        Some(i) => {
            if i < data.len() {
                assert(crate::value::items_model(*data)[i as int] == data[i as int]@);
                Ok(data[i].clone())
            } else {
                fail(ErrorKind::IndexOutOfRange, first, doc.name, line_number)
            }
        },
    }
}

/// The part of `value` that the path component `first` names.
pub fn path_part_of(doc: &TDoc, first: &str, value: &Value, line_number: usize) -> (r: Result<
    PropertyValue,
    Error,
>)
    ensures
        lifted(r) == path_part(doc@, first@, value@, line_number),
{
    match value {
        Value::Record { fields, .. } => match field_named(fields, first) {
            Some(pv) => Ok(pv),
            None => fail(ErrorKind::FieldNotFound, first, doc.name, line_number),
        },
        Value::Object { values } => match field_named(values, first) {
            Some(pv) => Ok(pv),
            None => fail(ErrorKind::FieldNotFound, first, doc.name, line_number),
        },
        Value::List { data, .. } => item_at(doc, data, first, line_number),
        Value::String { .. } => not_navigable(doc, value, line_number),
        Value::Integer { .. } => not_navigable(doc, value, line_number),
        Value::Decimal { .. } => not_navigable(doc, value, line_number),
        Value::Boolean { .. } => not_navigable(doc, value, line_number),
        Value::OrType { .. } => not_navigable(doc, value, line_number),
        Value::Optional { .. } => not_navigable(doc, value, line_number),
        Value::UI { .. } => not_navigable(doc, value, line_number),
    }
}

/// The error of a value that has no parts to enter.
fn not_navigable(doc: &TDoc, value: &Value, line_number: usize) -> (r: Result<PropertyValue, Error>)
    requires
        !(value is Record) && !(value is Object) && !(value is List),
    ensures
        !(value@ is Record) && !(value@ is Object) && !(value@ is List),
        r is Err,
        r->Err_0@ == crate::error::error(
            ErrorKind::TypeMismatch,
            "Expected record"@,
            doc@.name,
            line_number,
        ),
{
    fail(ErrorKind::TypeMismatch, "Expected record", doc.name, line_number)
}

fn navigate_at(doc: &TDoc, path: &str, value: &Value, line_number: usize, depth: usize) -> (r:
    Result<Value, Error>)
    ensures
        lifted(r) == navigate(doc@, path@, value@, line_number, depth as nat),
    decreases depth, 0nat,
{
    proof {
        reveal_strlit(".");
        assert("."@ =~= crate::names::one('.'));
    }
    if depth == 0 {
        return fail(ErrorKind::ValueNotFound, "references do not end", doc.name, line_number);
    }
    let (first, rest) = split_at(path, ".");
    let part = match path_part_of(doc, first.as_str(), value, line_number) {
        Err(e) => {
            return Err(e);
        },
        Ok(p) => p,
    };
    let inner = match resolve_pv_at(doc, &part, line_number, depth - 1) {
        Err(e) => {
            return Err(e);
        },
        Ok(v) => v,
    };
    match rest {
        Some(more) => navigate_at(doc, more.as_str(), &inner, line_number, depth - 1),
        None => Ok(inner),
    }
}

impl PropertyValue {
    /// The value of the property value in at most `depth` steps.
    pub fn resolve_at(self, doc: &TDoc, line_number: usize, depth: usize) -> (r: Result<
        Value,
        Error,
    >)
        ensures
            lifted(r) == resolve_pv(doc@, self@, line_number, depth as nat),
    {
        resolve_pv_at(doc, &self, line_number, depth)
    }

    /// The value of the property value in the document `doc`. The document
    /// is only read.
    pub fn resolve(self, doc: &TDoc, line_number: usize) -> (r: Result<Value, Error>)
        ensures
            lifted(r) == resolve_pv(doc@, self@, line_number, RESOLVE_LIMIT as nat),
    {
        resolve_pv_at(doc, &self, line_number, RESOLVE_LIMIT)
    }
}

impl Expression {
    /// Whether the condition holds in the document `doc`.
    pub fn eval(&self, doc: &TDoc) -> (r: Result<bool, Error>)
        ensures
            match r {
                Ok(b) => eval_condition(doc@, self@, RESOLVE_LIMIT as nat) == Ok::<bool, ErrorV>(b),
                Err(e) => eval_condition(doc@, self@, RESOLVE_LIMIT as nat) == Err::<bool, ErrorV>(
                    e@,
                ),
            },
    {
        eval_condition_at(doc, self, RESOLVE_LIMIT)
    }
}

impl FunctionCall {
    /// What the call returns in the document `doc`.
    pub fn resolve(&self, doc: &TDoc, line_number: usize) -> (r: Result<Value, Error>)
        ensures
            lifted(r) == call_function(doc@, self@, line_number, RESOLVE_LIMIT as nat),
    {
        call_function_at(doc, self, line_number, RESOLVE_LIMIT)
    }
}

/// The value that a property contributes: nothing where its condition does
/// not hold, else the value of its property value.
pub open spec fn property_value(doc: DocV, property: PropertyV) -> Result<Option<ValueV>, ErrorV> {
    let holds = match property.condition {
        Some(c) => eval_condition(doc, c, RESOLVE_LIMIT as nat),
        None => Ok(true),
    };
    match holds {
        Err(e) => Err(e),
        Ok(false) => Ok(None),
        Ok(true) => match resolve_pv(
            doc,
            property.value,
            property.line_number,
            RESOLVE_LIMIT as nat,
        ) {
            Ok(v) => Ok(Some(v)),
            Err(e) => Err(e),
        },
    }
}

impl Property {
    /// The value that the property contributes in the document `doc`.
    pub fn resolve(&self, doc: &TDoc) -> (r: Result<Option<Value>, Error>)
        ensures
            match r {
                Ok(Some(v)) => property_value(doc@, self@) == Ok::<Option<ValueV>, ErrorV>(
                    Some(v@),
                ),
                Ok(None) => property_value(doc@, self@) == Ok::<Option<ValueV>, ErrorV>(None),
                Err(e) => property_value(doc@, self@) == Err::<Option<ValueV>, ErrorV>(e@),
            },
    {
        match &self.condition {
            Some(c) => match c.eval(doc) {
                Err(e) => {
                    return Err(e);
                },
                Ok(false) => {
                    return Ok(None);
                },
                Ok(true) => {},
            },
            None => {},
        }
        match resolve_pv_at(doc, &self.value, self.line_number, RESOLVE_LIMIT) {
            Ok(v) => Ok(Some(v)),
            Err(e) => Err(e),
        }
    }
}

impl<'a> TDoc<'a> {
    /// The value that `name` stands for in this document; `kind` is the
    /// kind of the UI value that the name of a component gives.
    pub fn resolve(&self, name: &str, kind: &KindData, line_number: usize) -> (r: Result<
        Value,
        Error,
    >)
        ensures
            lifted(r) == resolve_named(self@, name@, kind@, line_number, RESOLVE_LIMIT as nat),
    {
        resolve_named_at(self, name, kind, line_number, RESOLVE_LIMIT)
    }
}

impl crate::thing::ComponentDefinition {
    /// The UI value of kind `kind` that the definition gives.
    pub fn to_value(&self, kind: &KindData) -> (r: Value)
        ensures
            r@ == (ValueV::UI {
                name: self@.name,
                kind: kind@,
                component: Box::new(self@.definition),
            }),
    {
        Value::UI {
            name: self.name.clone(),
            kind: kind.clone(),
            component: self.definition.clone(),
        }
    }
}

} // verus!
