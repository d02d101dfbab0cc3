//! From written definitions to typed ones: fields and arguments, record
//! types, or-types, variables and functions.

use vstd::prelude::*;
use crate::ast;
use crate::calls::expression_from_text;
use crate::error::{error, fail, Error, ErrorKind, ErrorV};
use crate::found::{failed, find_variant, found_thing, passed, sorted, tri, CtxV, Found};
use crate::kind::{Kind, KindData, KindDataV, KindV};
use crate::names::resolved_name;
use crate::search::Tri;
use crate::semantics::{as_component, as_or_type, RESOLVE_LIMIT};
use crate::state::StateWithThing;
use crate::tdoc::TDoc;
use crate::text::{concat2, str_eq, str_strip_prefix};
use crate::thing::{
    views, Argument, Field, FieldV, Function, FunctionV, OrType, OrTypeV, Record, RecordV, ThingV,
    Variable, VariableV,
};
use crate::typed::kind_from_ast;
use crate::value::{texts, Expression, PropertyValue};
use crate::values::pv_from_ast;

verus! {

/// The typed field that a written field stands for: its kind, and its
/// default value typed as that kind.
pub open spec fn field_from_ast(ctx: CtxV, field: ast::FieldV) -> Found<FieldV> {
    let k = kind_from_ast(ctx, field.kind, field.caption, field.body, field.line_number);
    match k.result {
        Ok(Tri::Thing(kind)) => match field.value {
            Some(v) => {
                let f = pv_from_ast(k.ctx, v, field.mutable, Some(kind), None, None);
                match f.result {
                    Ok(Tri::Thing(pv)) => Found {
                        ctx: f.ctx,
                        result: Ok(
                            Tri::Thing(
                                FieldV {
                                    name: field.name,
                                    kind,
                                    mutable: field.mutable,
                                    value: Some(pv),
                                    line_number: field.line_number,
                                },
                            ),
                        ),
                    },
                    _ => passed(f),
                }
            },
            None => Found {
                ctx: k.ctx,
                result: Ok(
                    Tri::Thing(
                        FieldV {
                            name: field.name,
                            kind,
                            mutable: field.mutable,
                            value: None,
                            line_number: field.line_number,
                        },
                    ),
                ),
            },
        },
        _ => passed(k),
    }
}

/// The typed fields from position `from` on, after those in `done`.
pub open spec fn fields_from_ast(
    ctx: CtxV,
    fields: Seq<ast::FieldV>,
    from: int,
    done: Seq<FieldV>,
) -> Found<Seq<FieldV>>
    decreases fields.len() - from,
{
    if from < 0 || from >= fields.len() {
        Found { ctx, result: Ok(Tri::Thing(done)) }
    } else {
        let f = field_from_ast(ctx, fields[from]);
        match f.result {
            Ok(Tri::Thing(field)) => fields_from_ast(f.ctx, fields, from + 1, done.push(field)),
            _ => passed(f),
        }
    }
}

/// The arguments of the component being defined, if it is `component_name`.
pub open spec fn own_arguments(
    component_name: Seq<char>,
    definition: Option<(Seq<char>, Seq<FieldV>)>,
) -> Option<Seq<FieldV>> {
    match definition {
        Some((name, arguments)) => if name == component_name {
            Some(arguments)
        } else {
            None
        },
        None => None,
    }
}

/// The arguments of the component `component_name`: those of the
/// component being defined if it is that one, else those of the definition
/// of that name.
pub open spec fn arguments_for_component(
    ctx: CtxV,
    component_name: Seq<char>,
    definition: Option<(Seq<char>, Seq<FieldV>)>,
    line_number: usize,
) -> Found<Seq<FieldV>> {
    if own_arguments(component_name, definition).is_some() {
        Found { ctx, result: Ok(Tri::Thing(own_arguments(component_name, definition)->0)) }
    } else {
        let f = sorted(
            found_thing(ctx, component_name, line_number, RESOLVE_LIMIT as nat),
            |t: ThingV, d: Seq<char>, l: usize| as_component(t, d, l),
            line_number,
        );
        match f.result {
            Ok(Tri::Thing(component)) => Found {
                ctx: f.ctx,
                result: Ok(Tri::Thing(component.arguments)),
            },
            _ => passed(f),
        }
    }
}

/// The name of the or-type that a kind stands for, looking through one
/// optional.
pub open spec fn or_type_name(kind: KindV) -> Option<Seq<char>> {
    match kind.inner() {
        KindV::OrType { name, .. } => Some(name),
        _ => None,
    }
}

/// The argument narrowed to the variant `variant` of its or-type.
pub open spec fn with_variant(
    ctx: CtxV,
    argument: FieldV,
    variant: Seq<char>,
    line_number: usize,
) -> Found<FieldV> {
    match or_type_name(argument.kind.kind) {
        None => failed(
            ctx,
            error(ErrorKind::TypeMismatch, "Expected or-type"@, ctx.doc.name, line_number),
        ),
        Some(name) => {
            let f = sorted(
                found_thing(ctx, name, line_number, RESOLVE_LIMIT as nat),
                |t: ThingV, d: Seq<char>, l: usize| as_or_type(t, d, l),
                line_number,
            );
            match f.result {
                Ok(Tri::Thing(or_type)) => {
                    let i = find_variant(or_type.variants, or_type.name, variant, 0);
                    if i < 0 {
                        failed(
                            f.ctx,
                            error(ErrorKind::ValueNotFound, variant, ctx.doc.name, line_number),
                        )
                    } else {
                        Found {
                            ctx: f.ctx,
                            result: Ok(
                                Tri::Thing(
                                    FieldV {
                                        kind: KindDataV {
                                            kind: KindV::OrType {
                                                name,
                                                variant: Some(or_type.variants[i].name),
                                            },
                                            ..argument.kind
                                        },
                                        ..argument
                                    },
                                ),
                            ),
                        }
                    }
                },
                _ => passed(f),
            }
        },
    }
}

/// The record type that a written one stands for.
pub open spec fn record_from_ast(ctx: CtxV, record: ast::RecordV) -> Found<RecordV> {
    let f = fields_from_ast(ctx, record.fields, 0, Seq::empty());
    match f.result {
        Ok(Tri::Thing(fields)) => Found {
            ctx: f.ctx,
            result: Ok(
                Tri::Thing(
                    RecordV {
                        name: resolved_name(record.name, ctx.doc.name, ctx.doc.aliases),
                        fields,
                        line_number: record.line_number,
                    },
                ),
            ),
        },
        _ => passed(f),
    }
}

/// The or-type that a written one stands for.
pub open spec fn or_type_from_ast(ctx: CtxV, or_type: ast::RecordV) -> Found<OrTypeV> {
    let f = fields_from_ast(ctx, or_type.fields, 0, Seq::empty());
    match f.result {
        Ok(Tri::Thing(variants)) => Found {
            ctx: f.ctx,
            result: Ok(
                Tri::Thing(
                    OrTypeV {
                        name: resolved_name(or_type.name, ctx.doc.name, ctx.doc.aliases),
                        variants,
                        line_number: or_type.line_number,
                    },
                ),
            ),
        },
        _ => passed(f),
    }
}

/// The variable that a written declaration stands for: of the declared
/// kind, with the written value typed as that kind, without conditional
/// values, and static if it is not mutable.
pub open spec fn variable_from_ast(ctx: CtxV, v: ast::VariableDefinitionV) -> Found<VariableV> {
    let k = kind_from_ast(ctx, v.kind, false, false, v.line_number);
    match k.result {
        Ok(Tri::Thing(kind)) => {
            let f = pv_from_ast(k.ctx, v.value, v.mutable, Some(kind), None, None);
            match f.result {
                Ok(Tri::Thing(value)) => Found {
                    ctx: f.ctx,
                    result: Ok(
                        Tri::Thing(
                            VariableV {
                                name: resolved_name(v.name, ctx.doc.name, ctx.doc.aliases),
                                kind,
                                mutable: v.mutable,
                                value,
                                conditional_value: Seq::empty(),
                                line_number: v.line_number,
                                is_static: !v.mutable,
                            },
                        ),
                    ),
                },
                _ => passed(f),
            }
        },
        _ => passed(k),
    }
}

/// The names of a list of fields.
pub open spec fn names_of(fields: Seq<FieldV>) -> Seq<Seq<char>> {
    Seq::new(fields.len(), |i: int| fields[i].name)
}

/// The function that a written definition stands for: its kind, its
/// arguments, and its body with the arguments as bound names.
pub open spec fn function_from_ast(ctx: CtxV, function: ast::FunctionV) -> Found<FunctionV> {
    let k = kind_from_ast(ctx, function.kind, false, false, function.line_number);
    match k.result {
        Ok(Tri::Thing(return_kind)) => {
            let a = fields_from_ast(k.ctx, function.arguments, 0, Seq::empty());
            match a.result {
                Ok(Tri::Thing(arguments)) => {
                    let e = expression_from_text(
                        a.ctx,
                        function.expression,
                        names_of(arguments),
                        return_kind,
                        None,
                        None,
                        function.line_number,
                    );
                    match e.result {
                        Ok(Tri::Thing(expression)) => Found {
                            ctx: e.ctx,
                            result: Ok(
                                Tri::Thing(
                                    FunctionV {
                                        name: resolved_name(
                                            function.name,
                                            ctx.doc.name,
                                            ctx.doc.aliases,
                                        ),
                                        return_kind,
                                        arguments,
                                        expression,
                                        line_number: function.line_number,
                                    },
                                ),
                            ),
                        },
                        _ => passed(e),
                    }
                },
                _ => passed(a),
            }
        },
        _ => passed(k),
    }
}

/// The specification-level form of typed fields or another outcome.
pub open spec fn tri_arguments(r: Result<StateWithThing<Vec<Field>>, Error>) -> Result<
    Tri<Seq<FieldV>>,
    ErrorV,
> {
    match r {
        Ok(StateWithThing::Thing(v)) => Ok(Tri::Thing(views(v@))),
        Ok(StateWithThing::State(s)) => Ok(Tri::State(s@)),
        Ok(StateWithThing::Continue) => Ok(Tri::Continue),
        Err(e) => Err(e@),
    }
}

/// The names of a list of fields.
pub fn field_names(fields: &Vec<Field>) -> (r: Vec<String>)
    ensures
        texts(r@) == names_of(views(fields@)),
{
    let mut out: Vec<String> = Vec::new();
    let mut i: usize = 0;
    while i < fields.len()
        invariant
            i <= fields.len(),
            out.len() == i,
            forall|j: int| 0 <= j < i ==> out[j]@ == fields[j]@.name,
        decreases fields.len() - i,
    {
        out.push(fields[i].name.clone());
        i += 1;
    }
    assert(texts(out@) =~= names_of(views(fields@)));
    out
}

impl Field {
    /// The typed field that a written field stands for.
    pub fn from_ast(field: &ast::Field, doc: &mut TDoc) -> (r: Result<StateWithThing<Field>, Error>)
        ensures
            final(doc).name == old(doc).name,
            final(doc).aliases == old(doc).aliases,
            final(doc).ctx() == field_from_ast(old(doc).ctx(), field@).ctx,
            tri(r) == field_from_ast(old(doc).ctx(), field@).result,
    {
        let kind = match KindData::from_ast_kind(
            &field.kind,
            field.caption,
            field.body,
            doc,
            field.line_number,
        ) {
            Ok(StateWithThing::Thing(k)) => k,
            Ok(StateWithThing::State(s)) => {
                return Ok(StateWithThing::State(s));
            },
            Ok(StateWithThing::Continue) => {
                return Ok(StateWithThing::Continue);
            },
            Err(e) => {
                return Err(e);
            },
        };
        let value = match &field.value {
            Some(v) => match PropertyValue::from_ast_value_with_argument(
                v,
                doc,
                field.mutable,
                Some(&kind),
                None,
                &None,
            ) {
                Ok(StateWithThing::Thing(pv)) => Some(pv),
                Ok(StateWithThing::State(s)) => {
                    return Ok(StateWithThing::State(s));
                },
                Ok(StateWithThing::Continue) => {
                    return Ok(StateWithThing::Continue);
                },
                Err(e) => {
                    return Err(e);
                },
            },
            None => None,
        };
        Ok(
            StateWithThing::Thing(
                Field {
                    name: field.name.clone(),
                    kind,
                    mutable: field.mutable,
                    value,
                    line_number: field.line_number,
                },
            ),
        )
    }

    /// The typed fields that written fields stand for.
    pub fn from_ast_fields(fields: &Vec<ast::Field>, doc: &mut TDoc) -> (r: Result<
        StateWithThing<Vec<Field>>,
        Error,
    >)
        ensures
            final(doc).name == old(doc).name,
            final(doc).aliases == old(doc).aliases,
            final(doc).ctx() == fields_from_ast(
                old(doc).ctx(),
                ast::fields_view(fields@),
                0,
                Seq::empty(),
            ).ctx,
            tri_arguments(r) == fields_from_ast(
                old(doc).ctx(),
                ast::fields_view(fields@),
                0,
                Seq::empty(),
            ).result,
    {
        let mut out: Vec<Field> = Vec::new();
        let mut k: usize = 0;
        assert(views(out@) =~= Seq::<FieldV>::empty());
        while k < fields.len()
            invariant
                k <= fields.len(),
                doc.name == old(doc).name,
                doc.aliases == old(doc).aliases,
                fields_from_ast(old(doc).ctx(), ast::fields_view(fields@), 0, Seq::empty())
                    == fields_from_ast(
                    doc.ctx(),
                    ast::fields_view(fields@),
                    k as int,
                    views(out@),
                ),
            decreases fields.len() - k,
        {
            assert(ast::fields_view(fields@)[k as int] == fields[k as int]@);
            match Field::from_ast(&fields[k], doc) {
                Ok(StateWithThing::Thing(field)) => {
                    let ghost before = views(out@);
                    out.push(field);
                    assert(views(out@) =~= before.push(field@));
                },
                Ok(StateWithThing::State(s)) => {
                    return Ok(StateWithThing::State(s));
                },
                Ok(StateWithThing::Continue) => {
                    return Ok(StateWithThing::Continue);
                },
                Err(e) => {
                    return Err(e);
                },
            }
            k += 1;
        }
        Ok(StateWithThing::Thing(out))
    }

    /// The arguments of the component `component_name`.
    pub fn for_component(
        component_name: &str,
        definition_name_with_arguments: &Option<(&str, &Vec<Argument>)>,
        doc: &mut TDoc,
        line_number: usize,
    ) -> (r: Result<StateWithThing<Vec<Argument>>, Error>)
        ensures
            final(doc).name == old(doc).name,
            final(doc).aliases == old(doc).aliases,
            final(doc).ctx() == arguments_for_component(
                old(doc).ctx(),
                component_name@,
                crate::kind_of::definition_view(*definition_name_with_arguments),
                line_number,
            ).ctx,
            tri_arguments(r) == arguments_for_component(
                old(doc).ctx(),
                component_name@,
                crate::kind_of::definition_view(*definition_name_with_arguments),
                line_number,
            ).result,
    {
        match definition_name_with_arguments {
            Some((name, arguments)) => {
                if str_eq(name, component_name) {
                    return Ok(StateWithThing::Thing(crate::thing::clone_fields(arguments)));
                }
            },
            None => {},
        }
        match doc.search_component(component_name, line_number) {
            Ok(StateWithThing::Thing(component)) => Ok(
                StateWithThing::Thing(component.arguments),
            ),
            Ok(StateWithThing::State(s)) => Ok(StateWithThing::State(s)),
            Ok(StateWithThing::Continue) => Ok(StateWithThing::Continue),
            Err(e) => Err(e),
        }
    }

    /// The argument narrowed to the variant `variant` of its or-type.
    pub fn update_with_or_type_variant(self, doc: &mut TDoc, variant: &str, line_number: usize)
        -> (r: Result<StateWithThing<Field>, Error>)
        ensures
            final(doc).name == old(doc).name,
            final(doc).aliases == old(doc).aliases,
            final(doc).ctx() == with_variant(old(doc).ctx(), self@, variant@, line_number).ctx,
            tri(r) == with_variant(old(doc).ctx(), self@, variant@, line_number).result,
    {
        let name = match or_type_name_of(&self.kind.kind) {
            None => {
                return fail(ErrorKind::TypeMismatch, "Expected or-type", doc.name, line_number);
            },
            Some(n) => n,
        };
        let or_type = match doc.search_or_type(name.as_str(), line_number) {
            Ok(StateWithThing::Thing(o)) => o,
            Ok(StateWithThing::State(s)) => {
                return Ok(StateWithThing::State(s));
            },
            Ok(StateWithThing::Continue) => {
                return Ok(StateWithThing::Continue);
            },
            Err(e) => {
                return Err(e);
            },
        };
        match variant_position(&or_type, variant) {
            None => fail(ErrorKind::ValueNotFound, variant, doc.name, line_number),
            Some(i) => {
                let Field { name: field_name, kind, mutable, value, line_number: l } = self;
                Ok(
                    StateWithThing::Thing(
                        Field {
                            name: field_name,
                            kind: KindData {
                                kind: Kind::OrType {
                                    name,
                                    variant: Some(or_type.variants[i].name.clone()),
                                },
                                caption: kind.caption,
                                body: kind.body,
                            },
                            mutable,
                            value,
                            line_number: l,
                        },
                    ),
                )
            },
        }
    }
}

fn or_type_name_of(kind: &Kind) -> (r: Option<String>)
    ensures
        crate::kind::opt_text(r) == or_type_name(kind@),
{
    match kind {
        Kind::OrType { name, .. } => Some(name.clone()),
        Kind::Optional { kind: inner } => {
            assert(kind@.inner() == inner@);
            match &**inner {
                Kind::OrType { name, .. } => Some(name.clone()),
                _ => None,
            }
        },
        _ => None,
    }
}

/// Position of the first variant of `or_type` whose short name is `first`.
pub fn variant_position(or_type: &OrType, first: &str) -> (r: Option<usize>)
    ensures
        match r {
            Some(i) => i < or_type.variants.len() && i as int == find_variant(
                or_type@.variants,
                or_type@.name,
                first@,
                0,
            ),
            None => find_variant(or_type@.variants, or_type@.name, first@, 0) == -1,
        },
{
    proof {
        reveal_strlit(".");
        assert("."@ =~= crate::names::one('.'));
    }
    let prefix = concat2(or_type.name.as_str(), ".");
    let mut i: usize = 0;
    while i < or_type.variants.len()
        invariant
            i <= or_type.variants.len(),
            prefix@ == or_type@.name + crate::names::one('.'),
            find_variant(or_type@.variants, or_type@.name, first@, 0) == find_variant(
                or_type@.variants,
                or_type@.name,
                first@,
                i as int,
            ),
        decreases or_type.variants.len() - i,
    {
        let name = &or_type.variants[i].name;
        let short = match str_strip_prefix(name.as_str(), prefix.as_str()) {
            Some(rest) => rest,
            None => name.clone(),
        };
        if str_eq(short.as_str(), first) {
            return Some(i);
        }
        i += 1;
    }
    None
}

impl Record {
    /// The record type that a written one stands for.
    pub fn from_ast(record: &ast::Record, doc: &mut TDoc) -> (r: Result<
        StateWithThing<Record>,
        Error,
    >)
        ensures
            final(doc).name == old(doc).name,
            final(doc).aliases == old(doc).aliases,
            final(doc).ctx() == record_from_ast(old(doc).ctx(), record@).ctx,
            tri(r) == record_from_ast(old(doc).ctx(), record@).result,
    {
        let name = doc.resolve_name(record.name.as_str());
        match Field::from_ast_fields(&record.fields, doc) {
            Ok(StateWithThing::Thing(fields)) => Ok(
                StateWithThing::Thing(Record { name, fields, line_number: record.line_number }),
            ),
            Ok(StateWithThing::State(s)) => Ok(StateWithThing::State(s)),
            Ok(StateWithThing::Continue) => Ok(StateWithThing::Continue),
            Err(e) => Err(e),
        }
    }
}

impl OrType {
    /// The or-type that a written one stands for.
    pub fn from_ast(or_type: &ast::OrType, doc: &mut TDoc) -> (r: Result<
        StateWithThing<OrType>,
        Error,
    >)
        ensures
            final(doc).name == old(doc).name,
            final(doc).aliases == old(doc).aliases,
            final(doc).ctx() == or_type_from_ast(old(doc).ctx(), or_type@).ctx,
            tri(r) == or_type_from_ast(old(doc).ctx(), or_type@).result,
    {
        let name = doc.resolve_name(or_type.name.as_str());
        match Field::from_ast_fields(&or_type.variants, doc) {
            Ok(StateWithThing::Thing(variants)) => Ok(
                StateWithThing::Thing(OrType { name, variants, line_number: or_type.line_number }),
            ),
            Ok(StateWithThing::State(s)) => Ok(StateWithThing::State(s)),
            Ok(StateWithThing::Continue) => Ok(StateWithThing::Continue),
            Err(e) => Err(e),
        }
    }
}

impl Variable {
    /// The variable that a written declaration stands for.
    pub fn from_ast(v: &ast::VariableDefinition, doc: &mut TDoc) -> (r: Result<
        StateWithThing<Variable>,
        Error,
    >)
        ensures
            final(doc).name == old(doc).name,
            final(doc).aliases == old(doc).aliases,
            final(doc).ctx() == variable_from_ast(old(doc).ctx(), v@).ctx,
            tri(r) == variable_from_ast(old(doc).ctx(), v@).result,
    {
        let name = doc.resolve_name(v.name.as_str());
        let kind = match KindData::from_ast_kind(&v.kind, false, false, doc, v.line_number) {
            Ok(StateWithThing::Thing(k)) => k,
            Ok(StateWithThing::State(s)) => {
                return Ok(StateWithThing::State(s));
            },
            Ok(StateWithThing::Continue) => {
                return Ok(StateWithThing::Continue);
            },
            Err(e) => {
                return Err(e);
            },
        };
        match PropertyValue::from_ast_value_with_argument(
            &v.value,
            doc,
            v.mutable,
            Some(&kind),
            None,
            &None,
        ) {
            Ok(StateWithThing::Thing(value)) => {
                let conditional_value: Vec<crate::thing::ConditionalValue> = Vec::new();
                assert(views(conditional_value@) =~= Seq::empty());
                Ok(
                    StateWithThing::Thing(
                        Variable {
                            name,
                            kind,
                            mutable: v.mutable,
                            value,
                            conditional_value,
                            line_number: v.line_number,
                            is_static: !v.mutable,
                        },
                    ),
                )
            },
            Ok(StateWithThing::State(s)) => Ok(StateWithThing::State(s)),
            Ok(StateWithThing::Continue) => Ok(StateWithThing::Continue),
            Err(e) => Err(e),
        }
    }
}

impl Function {
    /// The function that a written definition stands for.
    pub fn from_ast(function: &ast::Function, doc: &mut TDoc) -> (r: Result<
        StateWithThing<Function>,
        Error,
    >)
        ensures
            final(doc).name == old(doc).name,
            final(doc).aliases == old(doc).aliases,
            final(doc).ctx() == function_from_ast(old(doc).ctx(), function@).ctx,
            tri(r) == function_from_ast(old(doc).ctx(), function@).result,
    {
        let name = doc.resolve_name(function.name.as_str());
        let return_kind = match KindData::from_ast_kind(
            &function.kind,
            false,
            false,
            doc,
            function.line_number,
        ) {
            Ok(StateWithThing::Thing(k)) => k,
            Ok(StateWithThing::State(s)) => {
                return Ok(StateWithThing::State(s));
            },
            Ok(StateWithThing::Continue) => {
                return Ok(StateWithThing::Continue);
            },
            Err(e) => {
                return Err(e);
            },
        };
        let arguments = match Field::from_ast_fields(&function.arguments, doc) {
            Ok(StateWithThing::Thing(a)) => a,
            Ok(StateWithThing::State(s)) => {
                return Ok(StateWithThing::State(s));
            },
            Ok(StateWithThing::Continue) => {
                return Ok(StateWithThing::Continue);
            },
            Err(e) => {
                return Err(e);
            },
        };
        let locals = field_names(&arguments);
        match Expression::from_text(
            function.expression.as_str(),
            &locals,
            &return_kind,
            None,
            &None,
            doc,
            function.line_number,
        ) {
            Ok(StateWithThing::Thing(expression)) => Ok(
                StateWithThing::Thing(
                    Function {
                        name,
                        return_kind,
                        arguments,
                        expression,
                        line_number: function.line_number,
                    },
                ),
            ),
            Ok(StateWithThing::State(s)) => Ok(StateWithThing::State(s)),
            Ok(StateWithThing::Continue) => Ok(StateWithThing::Continue),
            Err(e) => Err(e),
        }
    }
}

} // verus!
