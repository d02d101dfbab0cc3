//! What resolution means, stated over the specification-level types: the
//! lookup of a name in a document, the value of a property value, the truth
//! of a condition and the navigation of a dotted path.
//!
//! Resolution follows references from variable to variable, and nothing
//! keeps a session from holding references that lead back to where they
//! began. Every function here therefore counts its steps down from a
//! budget, and fails when the budget is used up.

use vstd::prelude::*;
use crate::error::{error, ErrorKind, ErrorV};
use crate::kind::KindDataV;
use crate::names::{
    doc_name_and_remaining, function_name, one, resolved_name, split_at_spec, strip_marker,
};
use crate::thing::{
    get_entry, ComponentDefinitionV, ConditionalValueV, FunctionV, OrTypeV, RecordV, ThingV,
    VariableV,
};
use crate::value::{ExpressionNodeV, ExpressionV, FunctionCallV, PropertyValueV, ValueV};

verus! {

/// What a document offers to resolution: its name, its alias table and the
/// definitions of the session.
pub struct DocV {
    pub name: Seq<char>,
    pub aliases: Seq<(Seq<char>, Seq<char>)>,
    pub bag: Map<Seq<char>, ThingV>,
}

/// The number of steps that a resolution may take.
pub const RESOLVE_LIMIT: usize = 256;

/// The definition that the first part of `name` stands for, and the dotted
/// rest of the name. The name is cleared of its mark and fully qualified;
/// the part up to the first `.` is looked up, then the whole name.
pub open spec fn initial_thing(doc: DocV, name: Seq<char>, line_number: usize) -> Result<
    (ThingV, Option<Seq<char>>),
    ErrorV,
> {
    let full = resolved_name(strip_marker(name), doc.name, doc.aliases);
    let (first, remaining) = match function_name(full) {
        Some(f) => (f, None),
        None => doc_name_and_remaining(full),
    };
    if doc.bag.contains_key(first) {
        Ok((doc.bag[first], remaining))
    } else if doc.bag.contains_key(full) {
        Ok((doc.bag[full], None))
    } else {
        Err(error(ErrorKind::ValueNotFound, first, doc.name, line_number))
    }
}

/// The variable that a definition is, or the error of a definition of
/// another sort.
pub open spec fn as_variable(thing: ThingV, doc_id: Seq<char>, line_number: usize) -> Result<
    VariableV,
    ErrorV,
> {
    match thing {
        ThingV::Variable(v) => Ok(v),
        _ => Err(error(ErrorKind::UnexpectedKind, "Expected Variable"@, doc_id, line_number)),
    }
}

/// The record type that a definition is.
pub open spec fn as_record(thing: ThingV, doc_id: Seq<char>, line_number: usize) -> Result<
    RecordV,
    ErrorV,
> {
    match thing {
        ThingV::Record(r) => Ok(r),
        _ => Err(error(ErrorKind::UnexpectedKind, "Expected Record"@, doc_id, line_number)),
    }
}

/// The or-type that a definition is.
pub open spec fn as_or_type(thing: ThingV, doc_id: Seq<char>, line_number: usize) -> Result<
    OrTypeV,
    ErrorV,
> {
    match thing {
        ThingV::OrType(o) => Ok(o),
        _ => Err(error(ErrorKind::UnexpectedKind, "Expected OrType"@, doc_id, line_number)),
    }
}

/// The component definition that a definition is.
pub open spec fn as_component(thing: ThingV, doc_id: Seq<char>, line_number: usize) -> Result<
    ComponentDefinitionV,
    ErrorV,
> {
    match thing {
        ThingV::Component(c) => Ok(c),
        _ => Err(error(ErrorKind::UnexpectedKind, "Expected Component"@, doc_id, line_number)),
    }
}

/// The function that a definition is.
pub open spec fn as_function(thing: ThingV, doc_id: Seq<char>, line_number: usize) -> Result<
    FunctionV,
    ErrorV,
> {
    match thing {
        ThingV::Function(f) => Ok(f),
        _ => Err(error(ErrorKind::UnexpectedKind, "Expected Function"@, doc_id, line_number)),
    }
}

/// The variable that the first part of `name` stands for, and the rest.
pub open spec fn initial_variable(doc: DocV, name: Seq<char>, line_number: usize) -> Result<
    (VariableV, Option<Seq<char>>),
    ErrorV,
> {
    match initial_thing(doc, name, line_number) {
        Ok((thing, remaining)) => match as_variable(thing, doc.name, line_number) {
            Ok(v) => Ok((v, remaining)),
            Err(e) => Err(e),
        },
        Err(e) => Err(e),
    }
}

/// The error of a resolution that used up its budget.
pub open spec fn too_deep(doc: DocV, line_number: usize) -> ErrorV {
    error(ErrorKind::ValueNotFound, "references do not end"@, doc.name, line_number)
}

/// The number that a text of decimal digits denotes, read from the left
/// with `acc` for the digits read so far.
pub open spec fn digits_value(s: Seq<char>, from: int, acc: int) -> Option<int>
    decreases s.len() - from,
{
    if from < 0 || from >= s.len() {
        Some(acc)
    } else if '0' <= s[from] && s[from] <= '9' {
        digits_value(s, from + 1, acc * 10 + (s[from] as int - '0' as int))
    } else {
        None
    }
}

/// The position that a text denotes: decimal digits, at least one, whose
/// number fits a machine word.
#[verifier::opaque]
pub open spec fn index_value(s: Seq<char>) -> Option<usize> {
    if s.len() == 0 {
        None
    } else {
        match digits_value(s, 0, 0) {
            Some(n) => if n <= usize::MAX {
                Some(n as usize)
            } else {
                None
            },
            None => None,
        }
    }
}

/// The value of a property value: a literal is its value, a reference or a
/// copy is the value of the variable it names, a call is what the function
/// returns.
pub open spec fn resolve_pv(doc: DocV, pv: PropertyValueV, line_number: usize, fuel: nat) -> Result<
    ValueV,
    ErrorV,
>
    decreases fuel, 0nat,
{
    if fuel == 0 {
        Err(too_deep(doc, line_number))
    } else {
        match pv {
            PropertyValueV::Value { value, .. } => Ok(value),
            PropertyValueV::Reference { name, kind, .. } => resolve_named(
                doc,
                name,
                kind,
                line_number,
                (fuel - 1) as nat,
            ),
            PropertyValueV::Clone { name, kind, .. } => resolve_named(
                doc,
                name,
                kind,
                line_number,
                (fuel - 1) as nat,
            ),
            PropertyValueV::FunctionCall(call) => call_function(
                doc,
                call,
                line_number,
                (fuel - 1) as nat,
            ),
        }
    }
}

/// The value that a name stands for. For a variable: the value of the first
/// conditional value whose condition holds, else the base value, resolved,
/// and then navigated by the dotted rest of the name. For a component
/// definition: a UI value of the kind `kind`.
pub open spec fn resolve_named(
    doc: DocV,
    name: Seq<char>,
    kind: KindDataV,
    line_number: usize,
    fuel: nat,
) -> Result<ValueV, ErrorV>
    decreases fuel, 0nat,
{
    if fuel == 0 {
        Err(too_deep(doc, line_number))
    } else {
        match initial_thing(doc, name, line_number) {
            Ok((ThingV::Variable(v), remaining)) => match selected_value(
                doc,
                v.conditional_value,
                0,
                v.value,
                (fuel - 1) as nat,
            ) {
                Err(e) => Err(e),
                Ok(pv) => match resolve_pv(doc, pv, line_number, (fuel - 1) as nat) {
                    Err(e) => Err(e),
                    Ok(value) => match remaining {
                        Some(path) => navigate(doc, path, value, line_number, (fuel - 1) as nat),
                        None => Ok(value),
                    },
                },
            },
            Ok((ThingV::Component(c), None)) => Ok(
                ValueV::UI { name: c.name, kind, component: Box::new(c.definition) },
            ),
            _ => Err(error(ErrorKind::ValueNotFound, name, doc.name, line_number)),
        }
    }
}

/// The value that a variable takes: that of the first conditional value at
/// or after `from` whose condition holds, else `base`.
pub open spec fn selected_value(
    doc: DocV,
    conditions: Seq<ConditionalValueV>,
    from: int,
    base: PropertyValueV,
    fuel: nat,
) -> Result<PropertyValueV, ErrorV>
    decreases fuel, conditions.len() - from,
{
    if from < 0 || from >= conditions.len() {
        Ok(base)
    } else if fuel == 0 {
        Err(too_deep(doc, conditions[from].condition.line_number))
    } else {
        match eval_condition(doc, conditions[from].condition, (fuel - 1) as nat) {
            Err(e) => Err(e),
            Ok(true) => Ok(conditions[from].value),
            Ok(false) => selected_value(doc, conditions, from + 1, base, fuel),
        }
    }
}

/// Whether a condition holds: the boolean that its expression evaluates to.
pub open spec fn eval_condition(doc: DocV, condition: ExpressionV, fuel: nat) -> Result<
    bool,
    ErrorV,
>
    decreases fuel, 0nat,
{
    if fuel == 0 {
        Err(too_deep(doc, condition.line_number))
    } else {
        match eval_node(
            doc,
            condition.node,
            Seq::empty(),
            condition.line_number,
            (fuel - 1) as nat,
        ) {
            Err(e) => Err(e),
            Ok(ValueV::Boolean { value }) => Ok(value),
            Ok(_) => Err(
                error(
                    ErrorKind::TypeMismatch,
                    "Expected Boolean"@,
                    doc.name,
                    condition.line_number,
                ),
            ),
        }
    }
}

/// The value of an expression tree, with `arguments` for the bound
/// arguments of the enclosing function. The boolean operators take boolean
/// operands and evaluate both, the left one first.
pub open spec fn eval_node(
    doc: DocV,
    node: ExpressionNodeV,
    arguments: Seq<(Seq<char>, ValueV)>,
    line_number: usize,
    fuel: nat,
) -> Result<ValueV, ErrorV>
    decreases fuel, 0nat,
{
    if fuel == 0 {
        Err(too_deep(doc, line_number))
    } else {
        match node {
            ExpressionNodeV::Value(pv) => resolve_pv(doc, pv, line_number, (fuel - 1) as nat),
            ExpressionNodeV::Argument(name) => match get_entry(arguments, name) {
                Some(v) => Ok(v),
                None => Err(error(ErrorKind::ArgumentNotFound, name, doc.name, line_number)),
            },
            ExpressionNodeV::Not(a) => match eval_node(
                doc,
                *a,
                arguments,
                line_number,
                (fuel - 1) as nat,
            ) {
                Err(e) => Err(e),
                Ok(ValueV::Boolean { value }) => Ok(ValueV::Boolean { value: !value }),
                Ok(_) => Err(not_boolean(doc, line_number)),
            },
            ExpressionNodeV::And(a, b) => match eval_node(
                doc,
                *a,
                arguments,
                line_number,
                (fuel - 1) as nat,
            ) {
                Err(e) => Err(e),
                Ok(ValueV::Boolean { value: left }) => match eval_node(
                    doc,
                    *b,
                    arguments,
                    line_number,
                    (fuel - 1) as nat,
                ) {
                    Err(e) => Err(e),
                    Ok(ValueV::Boolean { value: right }) => Ok(
                        ValueV::Boolean { value: left && right },
                    ),
                    Ok(_) => Err(not_boolean(doc, line_number)),
                },
                Ok(_) => Err(not_boolean(doc, line_number)),
            },
            ExpressionNodeV::Or(a, b) => match eval_node(
                doc,
                *a,
                arguments,
                line_number,
                (fuel - 1) as nat,
            ) {
                Err(e) => Err(e),
                Ok(ValueV::Boolean { value: left }) => match eval_node(
                    doc,
                    *b,
                    arguments,
                    line_number,
                    (fuel - 1) as nat,
                ) {
                    Err(e) => Err(e),
                    Ok(ValueV::Boolean { value: right }) => Ok(
                        ValueV::Boolean { value: left || right },
                    ),
                    Ok(_) => Err(not_boolean(doc, line_number)),
                },
                Ok(_) => Err(not_boolean(doc, line_number)),
            },
        }
    }
}

/// The error of an operand that is no boolean.
pub open spec fn not_boolean(doc: DocV, line_number: usize) -> ErrorV {
    error(ErrorKind::TypeMismatch, "Expected Boolean"@, doc.name, line_number)
}

/// The values of the bound arguments of a call from position `from` on,
/// after those in `done`.
pub open spec fn resolve_arguments(
    doc: DocV,
    values: Seq<(Seq<char>, PropertyValueV)>,
    from: int,
    done: Seq<(Seq<char>, ValueV)>,
    line_number: usize,
    fuel: nat,
) -> Result<Seq<(Seq<char>, ValueV)>, ErrorV>
    decreases fuel, values.len() - from,
{
    if from < 0 || from >= values.len() {
        Ok(done)
    } else if fuel == 0 {
        Err(too_deep(doc, line_number))
    } else {
        match resolve_pv(doc, values[from].1, line_number, (fuel - 1) as nat) {
            Err(e) => Err(e),
            Ok(v) => resolve_arguments(
                doc,
                values,
                from + 1,
                done.push((values[from].0, v)),
                line_number,
                fuel,
            ),
        }
    }
}

/// What a call returns: the value of the function's body with the resolved
/// arguments bound, which has to be of the kind that the function declares.
pub open spec fn call_function(doc: DocV, call: FunctionCallV, line_number: usize, fuel: nat)
    -> Result<ValueV, ErrorV>
    decreases fuel, 0nat,
{
    if fuel == 0 {
        Err(too_deep(doc, line_number))
    } else {
        match initial_thing(doc, call.name, line_number) {
            Err(e) => Err(e),
            Ok((thing, _)) => match as_function(thing, doc.name, line_number) {
                Err(e) => Err(e),
                Ok(function) => match resolve_arguments(
                    doc,
                    call.values,
                    0,
                    Seq::empty(),
                    line_number,
                    (fuel - 1) as nat,
                ) {
                    Err(e) => Err(e),
                    Ok(arguments) => match eval_node(
                        doc,
                        function.expression.node,
                        arguments,
                        line_number,
                        (fuel - 1) as nat,
                    ) {
                        Err(e) => Err(e),
                        Ok(value) => if function.return_kind.kind.is_same_as(value.kind()) {
                            Ok(value)
                        } else {
                            Err(
                                error(
                                    ErrorKind::InvalidKind,
                                    function.name,
                                    doc.name,
                                    line_number,
                                ),
                            )
                        },
                    },
                },
            },
        }
    }
}

/// The part of `value` that the path component `first` names: the field of
/// that name of a record or an object, or the item at that position of a
/// list.
pub open spec fn path_part(doc: DocV, first: Seq<char>, value: ValueV, line_number: usize)
    -> Result<PropertyValueV, ErrorV> {
    match value {
        ValueV::Record { fields, .. } => match get_entry(fields, first) {
            Some(pv) => Ok(pv),
            None => Err(error(ErrorKind::FieldNotFound, first, doc.name, line_number)),
        },
        ValueV::Object { values } => match get_entry(values, first) {
            Some(pv) => Ok(pv),
            None => Err(error(ErrorKind::FieldNotFound, first, doc.name, line_number)),
        },
        ValueV::List { data, .. } => item_of(doc, data, first, line_number),
        _ => Err(error(ErrorKind::TypeMismatch, "Expected record"@, doc.name, line_number)),
    }
}

/// The item of a list at the position that the text `first` denotes.
pub open spec fn item_of(
    doc: DocV,
    data: Seq<PropertyValueV>,
    first: Seq<char>,
    line_number: usize,
) -> Result<PropertyValueV, ErrorV> {
    match index_value(first) {
        None => Err(error(ErrorKind::ParseIntError, first, doc.name, line_number)),
        Some(i) => if i < data.len() {
            Ok(data[i as int])
        } else {
            Err(error(ErrorKind::IndexOutOfRange, first, doc.name, line_number))
        },
    }
}

/// The value that a dotted path leads to inside `value`: a record or an
/// object is entered by field name, a list by position; the part reached
/// is resolved before the rest of the path is followed.
pub open spec fn navigate(
    doc: DocV,
    path: Seq<char>,
    value: ValueV,
    line_number: usize,
    fuel: nat,
) -> Result<ValueV, ErrorV>
    decreases fuel, 0nat,
{
    if fuel == 0 {
        Err(too_deep(doc, line_number))
    } else {
        let (first, rest) = split_at_spec(path, one('.'));
        match path_part(doc, first, value, line_number) {
            Err(e) => Err(e),
            Ok(pv) => match resolve_pv(doc, pv, line_number, (fuel - 1) as nat) {
                Err(e) => Err(e),
                Ok(inner) => match rest {
                    Some(more) => navigate(doc, more, inner, line_number, (fuel - 1) as nat),
                    None => Ok(inner),
                },
            },
        }
    }
}

} // verus!
