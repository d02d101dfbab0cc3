//! From written values to typed property values, and from written fields
//! to typed ones.

use vstd::prelude::*;
use crate::ast::{named_values_model, values_model, VariableValue, VariableValueV};
use crate::calls::call_from_text;
use crate::error::{error, fail, Error, ErrorKind, ErrorV};
use crate::found::{failed, found_thing, passed, sorted, tri, CtxV, Found};
use crate::kind::{Kind, KindData, KindDataV, KindV};
use crate::kind_of::{definition_view, loop_view};
use crate::names::{function_name, get_function_name, strip_marker, without_marker};
use crate::search::Tri;
use crate::semantics::{as_record, RESOLVE_LIMIT};
use crate::state::StateWithThing;
use crate::tdoc::TDoc;
use crate::text::str_eq;
use crate::thing::{find_key, views, Argument, Field, FieldV, ThingV};
use crate::typed::{is_link, literal_of, names_variable, opt_kind, simple_from_text};
use crate::value::{
    fields_model, items_model, FunctionCall, FunctionCallV, PropertyValue, PropertyValueV, Value,
    ValueV,
};

verus! {

/// The kind `kind` with no role.
pub open spec fn plain(kind: KindV) -> KindDataV {
    KindDataV { kind, caption: false, body: false }
}

/// The unset optional of the kind inside `kind`.
pub open spec fn unset(kind: KindDataV, is_mutable: bool, line_number: usize) -> PropertyValueV {
    literal_of(ValueV::Optional { data: None, kind: plain(kind.kind.inner()) }, is_mutable, line_number)
}

/// What stands for a value that was not written: an unset optional where an
/// optional is expected, else an error.
pub open spec fn absent_value(
    ctx: CtxV,
    is_mutable: bool,
    expected: Option<KindDataV>,
    line_number: usize,
) -> Found<PropertyValueV> {
    match expected {
        Some(kind) => if kind.kind is Optional {
            Found { ctx, result: Ok(Tri::Thing(unset(kind, is_mutable, line_number))) }
        } else {
            failed(ctx, error(ErrorKind::InvalidKind, "Expected value"@, ctx.doc.name, line_number))
        },
        None => failed(
            ctx,
            error(ErrorKind::InvalidKind, "Expected value"@, ctx.doc.name, line_number),
        ),
    }
}

/// Whether a text calls a function: it names a variable and has an
/// argument list.
pub open spec fn is_call(text: Seq<char>) -> bool {
    is_link(text) && function_name(strip_marker(text)).is_some()
}

/// The call that a text stands for, as a property value of the kind that
/// is expected, which the kind that the function returns has to agree
/// with.
pub open spec fn call_value(
    ctx: CtxV,
    text: Seq<char>,
    is_mutable: bool,
    expected: Option<KindDataV>,
    definition: Option<(Seq<char>, Seq<FieldV>)>,
    loop_object: Option<(Seq<char>, FieldV)>,
    line_number: usize,
) -> Found<PropertyValueV> {
    let f = call_from_text(ctx, text, is_mutable, definition, loop_object, line_number);
    match f.result {
        Ok(Tri::Thing(call)) => match expected {
            Some(e) => if e.kind.is_same_as(call.kind.kind) {
                Found {
                    ctx: f.ctx,
                    result: Ok(
                        Tri::Thing(PropertyValueV::FunctionCall(FunctionCallV { kind: e, ..call })),
                    ),
                }
            } else {
                failed(f.ctx, error(ErrorKind::InvalidKind, text, ctx.doc.name, line_number))
            },
            None => Found { ctx: f.ctx, result: Ok(Tri::Thing(PropertyValueV::FunctionCall(call))) },
        },
        _ => passed(f),
    }
}

/// The property value that a written text stands for: a call, a reference,
/// a copy or a literal.
pub open spec fn text_value(
    ctx: CtxV,
    text: Seq<char>,
    is_mutable: bool,
    expected: Option<KindDataV>,
    definition: Option<(Seq<char>, Seq<FieldV>)>,
    loop_object: Option<(Seq<char>, FieldV)>,
    line_number: usize,
) -> Found<PropertyValueV> {
    if is_call(text) {
        call_value(ctx, text, is_mutable, expected, definition, loop_object, line_number)
    } else {
        simple_from_text(ctx, text, is_mutable, expected, definition, loop_object, line_number)
    }
}

/// The kind of the items of the list that is expected.
pub open spec fn expected_item(expected: Option<KindDataV>) -> Option<KindDataV> {
    match expected {
        Some(k) => match k.kind {
            KindV::List { kind } => Some(plain(*kind)),
            _ => None,
        },
        None => None,
    }
}

/// Whether a record of the type `name` may stand where `expected` is
/// expected.
pub open spec fn record_fits(expected: Option<KindDataV>, name: Seq<char>) -> bool {
    match expected {
        Some(k) => k.kind == (KindV::Record { name }),
        None => true,
    }
}

/// The property value that a written value stands for where a value of the
/// kind `expected` is expected.
pub open spec fn pv_from_ast(
    ctx: CtxV,
    value: VariableValueV,
    is_mutable: bool,
    expected: Option<KindDataV>,
    definition: Option<(Seq<char>, Seq<FieldV>)>,
    loop_object: Option<(Seq<char>, FieldV)>,
) -> Found<PropertyValueV>
    decreases value, 0int,
{
    match value {
        VariableValueV::Null { line_number } => absent_value(
            ctx,
            is_mutable,
            expected,
            line_number,
        ),
        VariableValueV::String { value: text, line_number } => text_value(
            ctx,
            text,
            is_mutable,
            expected,
            definition,
            loop_object,
            line_number,
        ),
        VariableValueV::List { items, line_number } => match expected_item(expected) {
            None => failed(
                ctx,
                error(ErrorKind::InvalidKind, "Expected list"@, ctx.doc.name, line_number),
            ),
            Some(item) => {
                let f = list_items(
                    ctx,
                    items,
                    0,
                    Seq::empty(),
                    is_mutable,
                    item,
                    definition,
                    loop_object,
                );
                match f.result {
                    Ok(Tri::Thing(data)) => Found {
                        ctx: f.ctx,
                        result: Ok(
                            Tri::Thing(
                                literal_of(
                                    ValueV::List { data, kind: item },
                                    is_mutable,
                                    line_number,
                                ),
                            ),
                        ),
                    },
                    _ => passed(f),
                }
            },
        },
        VariableValueV::Record { name, fields, line_number } => {
            let r = sorted(
                found_thing(ctx, name, line_number, RESOLVE_LIMIT as nat),
                |t: ThingV, d: Seq<char>, l: usize| as_record(t, d, l),
                line_number,
            );
            match r.result {
                Ok(Tri::Thing(record)) => if !record_fits(expected, record.name) {
                    failed(r.ctx, error(ErrorKind::InvalidKind, name, ctx.doc.name, line_number))
                } else {
                    let f = record_fields(
                        r.ctx,
                        fields,
                        record.fields,
                        0,
                        Seq::empty(),
                        definition,
                        loop_object,
                        line_number,
                    );
                    match f.result {
                        Ok(Tri::Thing(typed)) => Found {
                            ctx: f.ctx,
                            result: Ok(
                                Tri::Thing(
                                    literal_of(
                                        ValueV::Record { name: record.name, fields: typed },
                                        is_mutable,
                                        line_number,
                                    ),
                                ),
                            ),
                        },
                        _ => passed(f),
                    }
                },
                _ => passed(r),
            }
        },
    }
}

/// The items of a list from position `from` on, each typed as `item`,
/// after those in `done`.
pub open spec fn list_items(
    ctx: CtxV,
    items: Seq<VariableValueV>,
    from: int,
    done: Seq<PropertyValueV>,
    is_mutable: bool,
    item: KindDataV,
    definition: Option<(Seq<char>, Seq<FieldV>)>,
    loop_object: Option<(Seq<char>, FieldV)>,
) -> Found<Seq<PropertyValueV>>
    decreases items, items.len() - from,
{
    if from < 0 || from >= items.len() {
        Found { ctx, result: Ok(Tri::Thing(done)) }
    } else {
        let f = pv_from_ast(ctx, items[from], is_mutable, Some(item), definition, loop_object);
        match f.result {
            Ok(Tri::Thing(pv)) => list_items(
                f.ctx,
                items,
                from + 1,
                done.push(pv),
                is_mutable,
                item,
                definition,
                loop_object,
            ),
            _ => passed(f),
        }
    }
}

/// What a field of a record gets where nothing was written for it: its
/// default value, or an unset optional, or else an error.
pub open spec fn default_for(ctx: CtxV, field: FieldV, line_number: usize) -> Found<PropertyValueV> {
    match field.value {
        Some(d) => Found { ctx, result: Ok(Tri::Thing(d)) },
        None => if field.kind.kind is Optional {
            Found { ctx, result: Ok(Tri::Thing(unset(field.kind, false, line_number))) }
        } else {
            failed(ctx, error(ErrorKind::FieldNotFound, field.name, ctx.doc.name, line_number))
        },
    }
}

/// The value of the declared field `field` of a record: what was written
/// under its name, typed as the field, or what it gets by default.
pub open spec fn record_field(
    ctx: CtxV,
    given: Seq<(Seq<char>, VariableValueV)>,
    field: FieldV,
    definition: Option<(Seq<char>, Seq<FieldV>)>,
    loop_object: Option<(Seq<char>, FieldV)>,
    line_number: usize,
) -> Found<PropertyValueV>
    decreases given, 0int,
{
    let i = find_key(given, field.name, 0);
    if 0 <= i < given.len() {
        pv_from_ast(ctx, given[i].1, false, Some(field.kind), definition, loop_object)
    } else {
        default_for(ctx, field, line_number)
    }
}

/// The fields of a record from the declared field `from` on, after those
/// in `done`.
pub open spec fn record_fields(
    ctx: CtxV,
    given: Seq<(Seq<char>, VariableValueV)>,
    declared: Seq<FieldV>,
    from: int,
    done: Seq<(Seq<char>, PropertyValueV)>,
    definition: Option<(Seq<char>, Seq<FieldV>)>,
    loop_object: Option<(Seq<char>, FieldV)>,
    line_number: usize,
) -> Found<Seq<(Seq<char>, PropertyValueV)>>
    decreases given, declared.len() - from + 1,
{
    if from < 0 || from >= declared.len() {
        Found { ctx, result: Ok(Tri::Thing(done)) }
    } else {
        let f = record_field(ctx, given, declared[from], definition, loop_object, line_number);
        match f.result {
            Ok(Tri::Thing(pv)) => record_fields(
                f.ctx,
                given,
                declared,
                from + 1,
                done.push((declared[from].name, pv)),
                definition,
                loop_object,
                line_number,
            ),
            _ => passed(f),
        }
    }
}

/// The specification-level form of typed items or another outcome.
pub open spec fn tri_items(r: Result<StateWithThing<Vec<PropertyValue>>, Error>) -> Result<
    Tri<Seq<PropertyValueV>>,
    ErrorV,
> {
    match r {
        Ok(StateWithThing::Thing(v)) => Ok(Tri::Thing(items_model(v))),
        Ok(StateWithThing::State(s)) => Ok(Tri::State(s@)),
        Ok(StateWithThing::Continue) => Ok(Tri::Continue),
        Err(e) => Err(e@),
    }
}

fn absent(doc: &TDoc, is_mutable: bool, expected: Option<&KindData>, line_number: usize) -> (r:
    Result<StateWithThing<PropertyValue>, Error>)
    ensures
        tri(r) == absent_value(doc.ctx(), is_mutable, opt_kind(expected), line_number).result,
{
    match expected {
        Some(kind) => {
            if kind.kind.is_optional() {
                Ok(
                    StateWithThing::Thing(
                        PropertyValue::Value {
                            value: Value::Optional {
                                data: Box::new(None),
                                kind: KindData::new(kind.kind.clone().inner()),
                            },
                            is_mutable,
                            line_number,
                        },
                    ),
                )
            } else {
                fail(ErrorKind::InvalidKind, "Expected value", doc.name, line_number)
            }
        },
        None => fail(ErrorKind::InvalidKind, "Expected value", doc.name, line_number),
    }
}

fn calls_function(text: &str) -> (r: bool)
    ensures
        r == is_call(text@),
{
    if !names_variable(text) {
        return false;
    }
    let bare = without_marker(text);
    get_function_name(bare.as_str()).is_some()
}

fn call_value_of(
    doc: &mut TDoc,
    text: &str,
    is_mutable: bool,
    expected: Option<&KindData>,
    definition: Option<(&str, &Vec<Argument>)>,
    loop_object: &Option<(String, Argument)>,
    line_number: usize,
) -> (r: Result<StateWithThing<PropertyValue>, Error>)
    ensures
        final(doc).name == old(doc).name,
        final(doc).aliases == old(doc).aliases,
        final(doc).ctx() == call_value(
            old(doc).ctx(),
            text@,
            is_mutable,
            opt_kind(expected),
            definition_view(definition),
            loop_view(*loop_object),
            line_number,
        ).ctx,
        tri(r) == call_value(
            old(doc).ctx(),
            text@,
            is_mutable,
            opt_kind(expected),
            definition_view(definition),
            loop_view(*loop_object),
            line_number,
        ).result,
{
    match FunctionCall::from_string(text, doc, is_mutable, definition, loop_object, line_number) {
        Ok(StateWithThing::Thing(call)) => match expected {
            Some(e) => {
                if e.kind.is_same_as(&call.kind.kind) {
                    let FunctionCall { name, kind: _, is_mutable, line_number, values } = call;
                    Ok(
                        StateWithThing::Thing(
                            PropertyValue::FunctionCall(
                                FunctionCall { name, kind: e.clone(), is_mutable, line_number, values },
                            ),
                        ),
                    )
                } else {
                    fail(ErrorKind::InvalidKind, text, doc.name, line_number)
                }
            },
            None => Ok(StateWithThing::Thing(PropertyValue::FunctionCall(call))),
        },
        Ok(StateWithThing::State(s)) => Ok(StateWithThing::State(s)),
        Ok(StateWithThing::Continue) => Ok(StateWithThing::Continue),
        Err(e) => Err(e),
    }
}

fn text_value_of(
    doc: &mut TDoc,
    text: &str,
    is_mutable: bool,
    expected: Option<&KindData>,
    definition: Option<(&str, &Vec<Argument>)>,
    loop_object: &Option<(String, Argument)>,
    line_number: usize,
) -> (r: Result<StateWithThing<PropertyValue>, Error>)
    ensures
        final(doc).name == old(doc).name,
        final(doc).aliases == old(doc).aliases,
        final(doc).ctx() == text_value(
            old(doc).ctx(),
            text@,
            is_mutable,
            opt_kind(expected),
            definition_view(definition),
            loop_view(*loop_object),
            line_number,
        ).ctx,
        tri(r) == text_value(
            old(doc).ctx(),
            text@,
            is_mutable,
            opt_kind(expected),
            definition_view(definition),
            loop_view(*loop_object),
            line_number,
        ).result,
{
    if calls_function(text) {
        call_value_of(doc, text, is_mutable, expected, definition, loop_object, line_number)
    } else {
        PropertyValue::from_string_with_argument(
            text,
            doc,
            expected,
            is_mutable,
            line_number,
            definition,
            loop_object,
        )
    }
}

fn item_kind(expected: Option<&KindData>) -> (r: Option<KindData>)
    ensures
        opt_kind(
            match r {
                Some(k) => Some(&k),
                None => None,
            },
        ) == expected_item(opt_kind(expected)),
{
    match expected {
        Some(k) => match &k.kind {
            Kind::List { kind } => Some(KindData::new((**kind).clone())),
            _ => None,
        },
        None => None,
    }
}

fn fits_record(expected: Option<&KindData>, name: &str) -> (r: bool)
    ensures
        r == record_fits(opt_kind(expected), name@),
{
    match expected {
        Some(k) => match &k.kind {
            Kind::Record { name: n } => str_eq(n.as_str(), name),
            _ => false,
        },
        None => true,
    }
}

fn given_position(given: &Vec<(String, VariableValue)>, key: &str) -> (r: Option<usize>)
    ensures
        match r {
            Some(i) => i < given.len() && i as int == find_key(named_values_model(*given), key@, 0),
            None => find_key(named_values_model(*given), key@, 0) == -1,
        },
{
    let mut i: usize = 0;
    while i < given.len()
        invariant
            i <= given.len(),
            find_key(named_values_model(*given), key@, 0) == find_key(
                named_values_model(*given),
                key@,
                i as int,
            ),
        decreases given.len() - i,
    {
        if str_eq(given[i].0.as_str(), key) {
            return Some(i);
        }
        i += 1;
    }
    None
}

fn default_of(doc: &TDoc, field: &Field, line_number: usize) -> (r: Result<
    StateWithThing<PropertyValue>,
    Error,
>)
    ensures
        tri(r) == default_for(doc.ctx(), field@, line_number).result,
{
    match &field.value {
        Some(d) => Ok(StateWithThing::Thing(d.clone())),
        None => {
            if field.kind.kind.is_optional() {
                Ok(
                    StateWithThing::Thing(
                        PropertyValue::Value {
                            value: Value::Optional {
                                data: Box::new(None),
                                kind: KindData::new(field.kind.kind.clone().inner()),
                            },
                            is_mutable: false,
                            line_number,
                        },
                    ),
                )
            } else {
                fail(ErrorKind::FieldNotFound, field.name.as_str(), doc.name, line_number)
            }
        },
    }
}

fn value_from(
    doc: &mut TDoc,
    value: &VariableValue,
    is_mutable: bool,
    expected: Option<&KindData>,
    definition: Option<(&str, &Vec<Argument>)>,
    loop_object: &Option<(String, Argument)>,
) -> (r: Result<StateWithThing<PropertyValue>, Error>)
    ensures
        final(doc).name == old(doc).name,
        final(doc).aliases == old(doc).aliases,
        final(doc).ctx() == pv_from_ast(
            old(doc).ctx(),
            value@,
            is_mutable,
            opt_kind(expected),
            definition_view(definition),
            loop_view(*loop_object),
        ).ctx,
        tri(r) == pv_from_ast(
            old(doc).ctx(),
            value@,
            is_mutable,
            opt_kind(expected),
            definition_view(definition),
            loop_view(*loop_object),
        ).result,
    decreases value, 0int,
{
    match value {
        VariableValue::Null { line_number } => absent(&*doc, is_mutable, expected, *line_number),
        VariableValue::String { value: text, line_number } => text_value_of(
            doc,
            text.as_str(),
            is_mutable,
            expected,
            definition,
            loop_object,
            *line_number,
        ),
        VariableValue::List { items, line_number } => {
            let item = match item_kind(expected) {
                None => {
                    return fail(ErrorKind::InvalidKind, "Expected list", doc.name, *line_number);
                },
                Some(k) => k,
            };
            match list_items_of(doc, items, is_mutable, &item, definition, loop_object) {
                Ok(StateWithThing::Thing(data)) => Ok(
                    StateWithThing::Thing(
                        PropertyValue::Value {
                            value: Value::List { data, kind: item },
                            is_mutable,
                            line_number: *line_number,
                        },
                    ),
                ),
                Ok(StateWithThing::State(s)) => Ok(StateWithThing::State(s)),
                Ok(StateWithThing::Continue) => Ok(StateWithThing::Continue),
                Err(e) => Err(e),
            }
        },
        VariableValue::Record { name, fields, line_number } => {
            let record = match doc.search_record(name.as_str(), *line_number) {
                Ok(StateWithThing::Thing(r)) => r,
                Ok(StateWithThing::State(s)) => {
                    return Ok(StateWithThing::State(s));
                },
                Ok(StateWithThing::Continue) => {
                    return Ok(StateWithThing::Continue);
                },
                Err(e) => {
                    return Err(e);
                },
            };
            if !fits_record(expected, record.name.as_str()) {
                return fail(ErrorKind::InvalidKind, name.as_str(), doc.name, *line_number);
            }
            match record_fields_of(
                doc,
                fields,
                &record.fields,
                definition,
                loop_object,
                *line_number,
            ) {
                Ok(StateWithThing::Thing(typed)) => Ok(
                    StateWithThing::Thing(
                        PropertyValue::Value {
                            value: Value::Record { name: record.name, fields: typed },
                            is_mutable,
                            line_number: *line_number,
                        },
                    ),
                ),
                Ok(StateWithThing::State(s)) => Ok(StateWithThing::State(s)),
                Ok(StateWithThing::Continue) => Ok(StateWithThing::Continue),
                Err(e) => Err(e),
            }
        },
    }
}

fn list_items_of(
    doc: &mut TDoc,
    items: &Vec<VariableValue>,
    is_mutable: bool,
    item: &KindData,
    definition: Option<(&str, &Vec<Argument>)>,
    loop_object: &Option<(String, Argument)>,
) -> (r: Result<StateWithThing<Vec<PropertyValue>>, Error>)
    ensures
        final(doc).name == old(doc).name,
        final(doc).aliases == old(doc).aliases,
        final(doc).ctx() == list_items(
            old(doc).ctx(),
            values_model(*items),
            0,
            Seq::empty(),
            is_mutable,
            item@,
            definition_view(definition),
            loop_view(*loop_object),
        ).ctx,
        tri_items(r) == list_items(
            old(doc).ctx(),
            values_model(*items),
            0,
            Seq::empty(),
            is_mutable,
            item@,
            definition_view(definition),
            loop_view(*loop_object),
        ).result,
    decreases items, 1int,
{
    let mut out: Vec<PropertyValue> = Vec::new();
    let mut k: usize = 0;
    assert(items_model(out) =~= Seq::empty());
    while k < items.len()
        invariant
            k <= items.len(),
            doc.name == old(doc).name,
            doc.aliases == old(doc).aliases,
            list_items(
                old(doc).ctx(),
                values_model(*items),
                0,
                Seq::empty(),
                is_mutable,
                item@,
                definition_view(definition),
                loop_view(*loop_object),
            ) == list_items(
                doc.ctx(),
                values_model(*items),
                k as int,
                items_model(out),
                is_mutable,
                item@,
                definition_view(definition),
                loop_view(*loop_object),
            ),
        decreases items.len() - k,
    {
        assert(decreases_to!(items => items[k as int]));
        assert(values_model(*items)[k as int] == items[k as int]@);
        match value_from(doc, &items[k], is_mutable, Some(item), definition, loop_object) {
            Ok(StateWithThing::Thing(pv)) => {
                let ghost before = items_model(out);
                out.push(pv);
                assert(items_model(out) =~= before.push(pv@));
            },
            Ok(StateWithThing::State(s)) => {
                return Ok(StateWithThing::State(s));
            },
            Ok(StateWithThing::Continue) => {
                return Ok(StateWithThing::Continue);
            },
            Err(e) => {
                return Err(e);
            },
        }
        k += 1;
    }
    Ok(StateWithThing::Thing(out))
}

fn record_field_of(
    doc: &mut TDoc,
    given: &Vec<(String, VariableValue)>,
    field: &Field,
    definition: Option<(&str, &Vec<Argument>)>,
    loop_object: &Option<(String, Argument)>,
    line_number: usize,
) -> (r: Result<StateWithThing<PropertyValue>, Error>)
    ensures
        final(doc).name == old(doc).name,
        final(doc).aliases == old(doc).aliases,
        final(doc).ctx() == record_field(
            old(doc).ctx(),
            named_values_model(*given),
            field@,
            definition_view(definition),
            loop_view(*loop_object),
            line_number,
        ).ctx,
        tri(r) == record_field(
            old(doc).ctx(),
            named_values_model(*given),
            field@,
            definition_view(definition),
            loop_view(*loop_object),
            line_number,
        ).result,
    decreases given, 0int,
{
    match given_position(given, field.name.as_str()) {
        Some(i) => {
            assert(decreases_to!(given => given[i as int]));
            assert(named_values_model(*given)[i as int].1 == given[i as int].1@);
            value_from(doc, &given[i].1, false, Some(&field.kind), definition, loop_object)
        },
        None => default_of(&*doc, field, line_number),
    }
}

fn record_fields_of(
    doc: &mut TDoc,
    given: &Vec<(String, VariableValue)>,
    declared: &Vec<Field>,
    definition: Option<(&str, &Vec<Argument>)>,
    loop_object: &Option<(String, Argument)>,
    line_number: usize,
) -> (r: Result<StateWithThing<Vec<(String, PropertyValue)>>, Error>)
    ensures
        final(doc).name == old(doc).name,
        final(doc).aliases == old(doc).aliases,
        final(doc).ctx() == record_fields(
            old(doc).ctx(),
            named_values_model(*given),
            views(declared@),
            0,
            Seq::empty(),
            definition_view(definition),
            loop_view(*loop_object),
            line_number,
        ).ctx,
        crate::calls::tri_fields(r) == record_fields(
            old(doc).ctx(),
            named_values_model(*given),
            views(declared@),
            0,
            Seq::empty(),
            definition_view(definition),
            loop_view(*loop_object),
            line_number,
        ).result,
    decreases given, 1int,
{
    let mut out: Vec<(String, PropertyValue)> = Vec::new();
    let mut k: usize = 0;
    assert(fields_model(out) =~= Seq::empty());
    while k < declared.len()
        invariant
            k <= declared.len(),
            doc.name == old(doc).name,
            doc.aliases == old(doc).aliases,
            record_fields(
                old(doc).ctx(),
                named_values_model(*given),
                views(declared@),
                0,
                Seq::empty(),
                definition_view(definition),
                loop_view(*loop_object),
                line_number,
            ) == record_fields(
                doc.ctx(),
                named_values_model(*given),
                views(declared@),
                k as int,
                fields_model(out),
                definition_view(definition),
                loop_view(*loop_object),
                line_number,
            ),
        decreases declared.len() - k,
    {
        match record_field_of(doc, given, &declared[k], definition, loop_object, line_number) {
            Ok(StateWithThing::Thing(pv)) => {
                let ghost before = fields_model(out);
                out.push((declared[k].name.clone(), pv));
                assert(fields_model(out) =~= before.push((declared[k as int]@.name, pv@)));
            },
            Ok(StateWithThing::State(s)) => {
                return Ok(StateWithThing::State(s));
            },
            Ok(StateWithThing::Continue) => {
                return Ok(StateWithThing::Continue);
            },
            Err(e) => {
                return Err(e);
            },
        }
        k += 1;
    }
    Ok(StateWithThing::Thing(out))
}

impl PropertyValue {
    /// The property value that a written value stands for where a value of
    /// the kind `expected_kind` is expected.
    pub fn from_ast_value_with_argument(
        value: &VariableValue,
        doc: &mut TDoc,
        is_mutable: bool,
        expected_kind: Option<&KindData>,
        definition_name_with_arguments: Option<(&str, &Vec<Argument>)>,
        loop_object_name_and_kind: &Option<(String, Argument)>,
    ) -> (r: Result<StateWithThing<PropertyValue>, Error>)
        ensures
            final(doc).name == old(doc).name,
            final(doc).aliases == old(doc).aliases,
            final(doc).ctx() == pv_from_ast(
                old(doc).ctx(),
                value@,
                is_mutable,
                opt_kind(expected_kind),
                definition_view(definition_name_with_arguments),
                loop_view(*loop_object_name_and_kind),
            ).ctx,
            tri(r) == pv_from_ast(
                old(doc).ctx(),
                value@,
                is_mutable,
                opt_kind(expected_kind),
                definition_view(definition_name_with_arguments),
                loop_view(*loop_object_name_and_kind),
            ).result,
    {
        value_from(
            doc,
            value,
            is_mutable,
            expected_kind,
            definition_name_with_arguments,
            loop_object_name_and_kind,
        )
    }
}

} // verus!
