//! Mutation of a mutable variable through the chain of references that
//! leads from the name that was written to the variable that holds the
//! value.

use vstd::prelude::*;
use crate::error::{error, fail, Error, ErrorKind, ErrorV};
use crate::kind::opt_text;
use crate::names::{one, split_at, split_at_spec};
use crate::resolve::{field_named, field_position};
use crate::semantics::{initial_variable, resolve_pv, too_deep, DocV, RESOLVE_LIMIT};
use crate::tdoc::{lifted, TDoc};
use crate::text::concat3;
use crate::thing::{find_key, get_entry, Variable, VariableV};
use crate::value::{fields_model, PropertyValue, PropertyValueV, Value, ValueV};

verus! {

/// The path that remains when a reference with the rest `rem` is followed
/// while `remaining` was still to be entered: `rem`, then `remaining`.
pub open spec fn joined(rem: Option<Seq<char>>, remaining: Option<Seq<char>>) -> Option<Seq<char>> {
    match remaining {
        Some(r) => Some(
            match rem {
                Some(v) => v + one('.') + r,
                None => r,
            },
        ),
        None => rem,
    }
}

/// The variable found so far, with the path that remains.
pub open spec fn target(found: Option<VariableV>, remaining: Option<Seq<char>>) -> Option<
    (VariableV, Option<Seq<char>>),
> {
    match found {
        Some(v) => Some((v, remaining)),
        None => None,
    }
}

/// The variable that holds the value which a mutation through `value` and
/// the path `remaining` changes, and the path that remains inside it.
/// References are followed from variable to variable; a copy ends the
/// chain, and so does a literal, whose record fields are entered along the
/// path to look for further references. `None` where no reference was met.
pub open spec fn find_reference(
    doc: DocV,
    value: PropertyValueV,
    remaining: Option<Seq<char>>,
    found: Option<VariableV>,
    line_number: usize,
    fuel: nat,
) -> Result<Option<(VariableV, Option<Seq<char>>)>, ErrorV>
    decreases fuel, 1nat,
{
    if fuel == 0 {
        Err(too_deep(doc, line_number))
    } else {
        match value.reference_name() {
            Some(reference) => match initial_variable(doc, reference, line_number) {
                Err(e) => Err(e),
                Ok((var, rem)) => find_reference(
                    doc,
                    var.value,
                    joined(rem, remaining),
                    Some(var),
                    line_number,
                    (fuel - 1) as nat,
                ),
            },
            None => if value is Clone || remaining.is_none() {
                Ok(target(found, remaining))
            } else {
                find_in_field(doc, value, remaining->0, found, line_number, fuel)
            },
        }
    }
}

/// The search for further references inside the field that the first part
/// of the path `path` names in the record that the literal `value` holds.
pub open spec fn find_in_field(
    doc: DocV,
    value: PropertyValueV,
    path: Seq<char>,
    found: Option<VariableV>,
    line_number: usize,
    fuel: nat,
) -> Result<Option<(VariableV, Option<Seq<char>>)>, ErrorV>
    decreases fuel, 0nat,
{
    if fuel == 0 {
        Err(too_deep(doc, line_number))
    } else {
        let (first, rest) = split_at_spec(path, one('.'));
        match record_field(doc, value, first, line_number) {
            Err(e) => Err(e),
            Ok(field) => match find_reference(
                doc,
                field,
                rest,
                None,
                line_number,
                (fuel - 1) as nat,
            ) {
                Err(e) => Err(e),
                Ok(Some(x)) => Ok(Some(x)),
                Ok(None) => Ok(target(found, Some(path))),
            },
        }
    }
}

/// The field `first` of the record that the literal `value` holds.
pub open spec fn record_field(
    doc: DocV,
    value: PropertyValueV,
    first: Seq<char>,
    line_number: usize,
) -> Result<PropertyValueV, ErrorV> {
    match value.value(doc.name, line_number) {
        Err(e) => Err(e),
        Ok(v) => match v.inner() {
            None => Err(
                error(ErrorKind::ParseError, "Value expected found null"@, doc.name, line_number),
            ),
            Some(ValueV::Record { fields, .. }) => match get_entry(fields, first) {
                None => Err(error(ErrorKind::FieldNotFound, first, doc.name, line_number)),
                Some(field) => Ok(field),
            },
            Some(_) => Err(
                error(ErrorKind::TypeMismatch, "Expected record"@, doc.name, line_number),
            ),
        },
    }
}

/// Whether a property value of kind `set` may replace one of kind `kind`:
/// the kinds are equal, or `kind` is an optional of the kind `set`.
pub open spec fn replaceable(value: PropertyValueV, set: PropertyValueV) -> bool {
    value.kind().inner() == set.kind() || value.kind() == set.kind()
}

/// The property value `value` after `set` has replaced what the path
/// `remaining` leads to inside it. Without a path `set` replaces the whole,
/// if its kind allows. With a path `value` has to be a record literal, whose
/// field is changed in turn; a reference, a copy or a call is replaced by
/// its resolved value first.
pub open spec fn changed(
    doc: DocV,
    value: PropertyValueV,
    set: PropertyValueV,
    remaining: Option<Seq<char>>,
    line_number: usize,
    fuel: nat,
) -> Result<PropertyValueV, ErrorV>
    decreases fuel, 1nat,
{
    if fuel == 0 {
        Err(too_deep(doc, line_number))
    } else {
        match remaining {
            None => if replaceable(value, set) {
                Ok(set)
            } else {
                Err(error(ErrorKind::InvalidKind, "Expected kind"@, doc.name, line_number))
            },
            Some(path) => match value {
                PropertyValueV::Value { value: v, is_mutable, line_number: l } => changed_field(
                    doc,
                    v,
                    is_mutable,
                    l,
                    set,
                    path,
                    line_number,
                    fuel,
                ),
                _ => match resolve_pv(doc, value, line_number, RESOLVE_LIMIT as nat) {
                    Err(e) => Err(e),
                    Ok(resolved) => changed(
                        doc,
                        PropertyValueV::Value {
                            value: resolved,
                            is_mutable: value.is_mutable(),
                            line_number,
                        },
                        set,
                        remaining,
                        line_number,
                        (fuel - 1) as nat,
                    ),
                },
            },
        }
    }
}

/// The record literal `v` after `set` has replaced what `path` leads to.
pub open spec fn changed_field(
    doc: DocV,
    v: ValueV,
    is_mutable: bool,
    l: usize,
    set: PropertyValueV,
    path: Seq<char>,
    line_number: usize,
    fuel: nat,
) -> Result<PropertyValueV, ErrorV>
    decreases fuel, 0nat,
{
    if fuel == 0 {
        Err(too_deep(doc, line_number))
    } else {
        let (first, rest) = split_at_spec(path, one('.'));
        match v {
            ValueV::Record { name, fields } => {
                let i = find_key(fields, first, 0);
                if i < 0 {
                    Err(error(ErrorKind::FieldNotFound, first, doc.name, line_number))
                } else {
                    match changed(doc, fields[i].1, set, rest, line_number, (fuel - 1) as nat) {
                        Err(e) => Err(e),
                        Ok(field) => Ok(
                            PropertyValueV::Value {
                                value: ValueV::Record {
                                    name,
                                    fields: fields.update(i, (fields[i].0, field)),
                                },
                                is_mutable,
                                line_number: l,
                            },
                        ),
                    }
                }
            },
            _ => Err(error(ErrorKind::TypeMismatch, "Expected record"@, doc.name, line_number)),
        }
    }
}

/// The variable that a mutation of `name` to `set` leaves behind. The
/// variable that `name` starts from has to be mutable; the variable that is
/// changed is the one at the end of the chain of references.
pub open spec fn set_value_spec(doc: DocV, name: Seq<char>, set: PropertyValueV, line_number: usize)
    -> Result<VariableV, ErrorV> {
    match initial_variable(doc, name, line_number) {
        Err(e) => Err(e),
        Ok((variable, remaining)) => if !variable.mutable {
            Err(error(ErrorKind::NotMutable, variable.name, doc.name, line_number))
        } else {
            match find_reference(
                doc,
                variable.value,
                remaining,
                None,
                line_number,
                RESOLVE_LIMIT as nat,
            ) {
                Err(e) => Err(e),
                Ok(found) => {
                    let (holder, path) = match found {
                        Some((v, r)) => (v, r),
                        None => (variable, remaining),
                    };
                    match changed(
                        doc,
                        holder.value,
                        set,
                        path,
                        line_number,
                        RESOLVE_LIMIT as nat,
                    ) {
                        Err(e) => Err(e),
                        Ok(value) => Ok(VariableV { value, ..holder }),
                    }
                },
            }
        },
    }
}

/// The specification-level form of the outcome of the search for the
/// variable to change.
pub open spec fn found_view(r: Result<Option<(Variable, Option<String>)>, Error>) -> Result<
    Option<(VariableV, Option<Seq<char>>)>,
    ErrorV,
> {
    match r {
        Ok(Some((v, rest))) => Ok(Some((v@, opt_text(rest)))),
        Ok(None) => Ok(None),
        Err(e) => Err(e@),
    }
}

/// The view of an optional variable.
pub open spec fn opt_variable(v: Option<Variable>) -> Option<VariableV> {
    match v {
        Some(x) => Some(x@),
        None => None,
    }
}

fn join_paths(rem: Option<String>, remaining: Option<String>) -> (r: Option<String>)
    ensures
        opt_text(r) == joined(opt_text(rem), opt_text(remaining)),
{
    proof {
        reveal_strlit(".");
        assert("."@ =~= one('.'));
    }
    match remaining {
        Some(r) => Some(
            match rem {
                Some(v) => concat3(v.as_str(), ".", r.as_str()),
                None => r,
            },
        ),
        None => rem,
    }
}

fn as_target(found: Option<Variable>, remaining: Option<String>) -> (r: Result<
    Option<(Variable, Option<String>)>,
    Error,
>)
    ensures
        found_view(r) == Ok::<Option<(VariableV, Option<Seq<char>>)>, ErrorV>(
            target(opt_variable(found), opt_text(remaining)),
        ),
{
    match found {
        Some(v) => Ok(Some((v, remaining))),
        None => Ok(None),
    }
}

fn find_reference_at(
    doc: &TDoc,
    value: &PropertyValue,
    remaining: Option<String>,
    found: Option<Variable>,
    line_number: usize,
    depth: usize,
) -> (r: Result<Option<(Variable, Option<String>)>, Error>)
    ensures
        found_view(r) == find_reference(
            doc@,
            value@,
            opt_text(remaining),
            opt_variable(found),
            line_number,
            depth as nat,
        ),
    decreases depth, 1nat,
{
    if depth == 0 {
        return fail(ErrorKind::ValueNotFound, "references do not end", doc.name, line_number);
    }
    match value.reference_name() {
        Some(reference) => match doc.get_initial_variable(reference.as_str(), line_number) {
            Err(e) => Err(e),
            Ok((var, rem)) => {
                let next = var.value.clone();
                find_reference_at(
                    doc,
                    &next,
                    join_paths(rem, remaining),
                    Some(var),
                    line_number,
                    depth - 1,
                )
            },
        },
        None => {
            if is_clone(value) {
                return as_target(found, remaining);
            }
            match remaining {
                None => as_target(found, None),
                Some(path) => find_in_field_at(doc, value, path, found, line_number, depth),
            }
        },
    }
}

fn is_clone(value: &PropertyValue) -> (r: bool)
    ensures
        r == (value@ is Clone),
{
    matches!(value, PropertyValue::Clone { .. })
}

fn find_in_field_at(
    doc: &TDoc,
    value: &PropertyValue,
    path: String,
    found: Option<Variable>,
    line_number: usize,
    depth: usize,
) -> (r: Result<Option<(Variable, Option<String>)>, Error>)
    ensures
        found_view(r) == find_in_field(
            doc@,
            value@,
            path@,
            opt_variable(found),
            line_number,
            depth as nat,
        ),
    decreases depth, 0nat,
{
    proof {
        reveal_strlit(".");
        assert("."@ =~= one('.'));
    }
    if depth == 0 {
        return fail(ErrorKind::ValueNotFound, "references do not end", doc.name, line_number);
    }
    let (first, rest) = split_at(path.as_str(), ".");
    let field = match record_field_of(doc, value, first.as_str(), line_number) {
        Err(e) => {
            return Err(e);
        },
        Ok(f) => f,
    };
    match find_reference_at(doc, &field, rest, None, line_number, depth - 1) {
        Err(e) => Err(e),
        Ok(Some(x)) => Ok(Some(x)),
        Ok(None) => as_target(found, Some(path)),
    }
}

/// A copy of the field `first` of the record that the literal holds.
fn record_field_of(doc: &TDoc, value: &PropertyValue, first: &str, line_number: usize) -> (r:
    Result<PropertyValue, Error>)
    ensures
        lifted(r) == record_field(doc@, value@, first@, line_number),
{
    let v = match value.value(doc.name, line_number) {
        Err(e) => {
            return Err(e);
        },
        Ok(v) => v,
    };
    match v.inner() {
        None => fail(ErrorKind::ParseError, "Value expected found null", doc.name, line_number),
        Some(inner) => entry_of_record(doc, &inner, first, line_number),
    }
}

fn entry_of_record(doc: &TDoc, inner: &Value, first: &str, line_number: usize) -> (r: Result<
    PropertyValue,
    Error,
>)
    ensures
        lifted(r) == match inner@ {
            ValueV::Record { fields, .. } => match get_entry(fields, first@) {
                None => Err::<PropertyValueV, ErrorV>(
                    error(ErrorKind::FieldNotFound, first@, doc@.name, line_number),
                ),
                Some(field) => Ok(field),
            },
            _ => Err(error(ErrorKind::TypeMismatch, "Expected record"@, doc@.name, line_number)),
        },
{
    match inner {
        Value::Record { fields, .. } => match field_named(fields, first) {
            None => fail(ErrorKind::FieldNotFound, first, doc.name, line_number),
            Some(field) => Ok(field),
        },
        _ => fail(ErrorKind::TypeMismatch, "Expected record", doc.name, line_number),
    }
}

fn can_replace(value: &PropertyValue, set: &PropertyValue) -> (r: bool)
    ensures
        r == replaceable(value@, set@),
{
    let kind = value.kind();
    let set_kind = set.kind();
    kind.is_equal(&set_kind) || kind.inner().is_equal(&set_kind)
}

fn changed_at(
    doc: &TDoc,
    value: PropertyValue,
    set: PropertyValue,
    remaining: Option<String>,
    line_number: usize,
    depth: usize,
) -> (r: Result<PropertyValue, Error>)
    ensures
        lifted(r) == changed(doc@, value@, set@, opt_text(remaining), line_number, depth as nat),
    decreases depth, 1nat,
{
    if depth == 0 {
        return fail(ErrorKind::ValueNotFound, "references do not end", doc.name, line_number);
    }
    let path = match remaining {
        None => {
            if can_replace(&value, &set) {
                return Ok(set);
            } else {
                return fail(ErrorKind::InvalidKind, "Expected kind", doc.name, line_number);
            }
        },
        Some(path) => path,
    };
    match value {
        PropertyValue::Value { value: v, is_mutable, line_number: l } => changed_field_at(
            doc,
            v,
            is_mutable,
            l,
            set,
            path,
            line_number,
            depth,
        ),
        other => {
            let is_mutable = other.is_mutable();
            match other.resolve(doc, line_number) {
                Err(e) => Err(e),
                Ok(resolved) => changed_at(
                    doc,
                    PropertyValue::Value { value: resolved, is_mutable, line_number },
                    set,
                    Some(path),
                    line_number,
                    depth - 1,
                ),
            }
        },
    }
}

fn changed_field_at(
    doc: &TDoc,
    v: Value,
    is_mutable: bool,
    l: usize,
    set: PropertyValue,
    path: String,
    line_number: usize,
    depth: usize,
) -> (r: Result<PropertyValue, Error>)
    ensures
        lifted(r) == changed_field(
            doc@,
            v@,
            is_mutable,
            l,
            set@,
            path@,
            line_number,
            depth as nat,
        ),
    decreases depth, 0nat,
{
    proof {
        reveal_strlit(".");
        assert("."@ =~= one('.'));
    }
    if depth == 0 {
        return fail(ErrorKind::ValueNotFound, "references do not end", doc.name, line_number);
    }
    let (first, rest) = split_at(path.as_str(), ".");
    match v {
        Value::Record { name, fields } => {
            let mut fields = fields;
            let i = match field_position(&fields, first.as_str()) {
                None => {
                    return fail(ErrorKind::FieldNotFound, first.as_str(), doc.name, line_number);
                },
                Some(i) => i,
            };
            let ghost before = fields_model(fields);
            let entry = fields.remove(i);
            assert(entry.1@ == before[i as int].1 && entry.0@ == before[i as int].0);
            match changed_at(doc, entry.1, set, rest, line_number, depth - 1) {
                Err(e) => Err(e),
                Ok(field) => {
                    fields.insert(i, (entry.0, field));
                    assert(fields_model(fields) =~= before.update(
                        i as int,
                        (before[i as int].0, field@),
                    ));
                    Ok(
                        PropertyValue::Value {
                            value: Value::Record { name, fields },
                            is_mutable,
                            line_number: l,
                        },
                    )
                },
            }
        },
        _ => fail(ErrorKind::TypeMismatch, "Expected record", doc.name, line_number),
    }
}

impl<'a> TDoc<'a> {
    /// The variable that a mutation of `name` to `value` leaves behind. The
    /// definitions themselves are not touched: the caller puts the variable
    /// back under its name.
    pub fn set_value(&self, name: &str, value: PropertyValue, line_number: usize) -> (r: Result<
        Variable,
        Error,
    >)
        ensures
            lifted(r) == set_value_spec(self@, name@, value@, line_number),
    {
        let (variable, remaining) = match self.get_initial_variable(name, line_number) {
            Err(e) => {
                return Err(e);
            },
            Ok(x) => x,
        };
        if !variable.mutable {
            return fail(ErrorKind::NotMutable, variable.name.as_str(), self.name, line_number);
        }
        let found = match find_reference_at(
            self,
            &variable.value,
            crate::kind::clone_opt_text(&remaining),
            None,
            line_number,
            RESOLVE_LIMIT,
        ) {
            Err(e) => {
                return Err(e);
            },
            Ok(f) => f,
        };
        let (holder, path) = match found {
            Some((v, r)) => (v, r),
            None => (variable, remaining),
        };
        let Variable { name, kind, mutable, value: old, conditional_value, line_number: l, is_static } =
            holder;
        match changed_at(self, old, value, path, line_number, RESOLVE_LIMIT) {
            Err(e) => Err(e),
            Ok(value) => Ok(
                Variable { name, kind, mutable, value, conditional_value, line_number: l, is_static },
            ),
        }
    }
}

} // verus!
