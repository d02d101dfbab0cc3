//! From written component instances to typed ones: the argument that each
//! property binds, the properties, the loop and the events.

use vstd::prelude::*;
use crate::ast;
use crate::calls::{call_from_text, condition_from_text};
use crate::component::{event_name, find_children_property};
use crate::define::{arguments_for_component, with_variant};
use crate::error::{error, fail, Error, ErrorKind, ErrorV};
use crate::found::{failed, passed, tri, CtxV, Found};

use crate::kind_of::{definition_view, loop_view};
use crate::names::{one, resolved_name, split_at, split_at_spec};
use crate::search::Tri;
use crate::state::StateWithThing;
use crate::tdoc::TDoc;
use crate::thing::{field_position, find_field, views, Argument, FieldV};
use crate::typed::simple_from_text;
use crate::value::{
    events_model, properties_model, Event, EventName, EventV, Expression, ExpressionV,
    FunctionCall, Loop, LoopV, Property, PropertySource, PropertySourceV, PropertyV,
    PropertyValue,
};
use crate::values::pv_from_ast;

verus! {

/// Position of the first argument at or after `from` that takes the
/// caption, or with `body` the body; -1 if there is none.
pub open spec fn find_flagged(arguments: Seq<FieldV>, body: bool, from: int) -> int
    decreases arguments.len() - from,
{
    if from < 0 || from >= arguments.len() {
        -1
    } else if (if body {
        arguments[from].kind.body
    } else {
        arguments[from].kind.caption
    }) {
        from
    } else {
        find_flagged(arguments, body, from + 1)
    }
}

/// The argument that takes the caption, or with `body` the body: there has
/// to be exactly one.
pub open spec fn flagged_argument(
    ctx: CtxV,
    arguments: Seq<FieldV>,
    body: bool,
    component_name: Seq<char>,
    line_number: usize,
) -> Found<FieldV> {
    let i = find_flagged(arguments, body, 0);
    if i < 0 || find_flagged(arguments, body, i + 1) >= 0 {
        failed(
            ctx,
            error(ErrorKind::ArgumentNotFound, component_name, ctx.doc.name, line_number),
        )
    } else {
        Found { ctx, result: Ok(Tri::Thing(arguments[i])) }
    }
}

/// The argument that a header binds: the one of its name, which has to be
/// mutable exactly if the header says so; a header written `name.variant`
/// narrows the argument to that variant of its or-type.
pub open spec fn header_argument(
    ctx: CtxV,
    name: Seq<char>,
    mutable: bool,
    arguments: Seq<FieldV>,
    line_number: usize,
) -> Found<FieldV> {
    let (first, rest) = split_at_spec(name, one('.'));
    let i = find_field(arguments, first, 0);
    if i < 0 {
        failed(ctx, error(ErrorKind::ArgumentNotFound, first, ctx.doc.name, line_number))
    } else if arguments[i].mutable != mutable {
        failed(
            ctx,
            error(ErrorKind::MutabilityMismatch, arguments[i].name, ctx.doc.name, line_number),
        )
    } else {
        match rest {
            Some(variant) => with_variant(ctx, arguments[i], variant, line_number),
            None => Found { ctx, result: Ok(Tri::Thing(arguments[i])) },
        }
    }
}

/// The argument of a component that a property binds, by the place where
/// the property was written.
pub open spec fn argument_for_property(
    ctx: CtxV,
    source: ast::PropertySourceV,
    line_number: usize,
    component_name: Seq<char>,
    arguments: Seq<FieldV>,
) -> Found<FieldV> {
    match source {
        ast::PropertySourceV::Caption => flagged_argument(
            ctx,
            arguments,
            false,
            component_name,
            line_number,
        ),
        ast::PropertySourceV::Body => flagged_argument(
            ctx,
            arguments,
            true,
            component_name,
            line_number,
        ),
        ast::PropertySourceV::Header { name, mutable } => header_argument(
            ctx,
            name,
            mutable,
            arguments,
            line_number,
        ),
    }
}

/// The typed source of a property: a header takes the name of the argument
/// that it binds.
pub open spec fn typed_source(source: ast::PropertySourceV, argument: FieldV) -> PropertySourceV {
    match source {
        ast::PropertySourceV::Caption => PropertySourceV::Caption,
        ast::PropertySourceV::Body => PropertySourceV::Body,
        ast::PropertySourceV::Header { mutable, .. } => PropertySourceV::Header {
            name: argument.name,
            mutable,
        },
    }
}

/// The typed condition that an optional written condition stands for.
pub open spec fn optional_condition(
    ctx: CtxV,
    condition: Option<Seq<char>>,
    definition: Option<(Seq<char>, Seq<FieldV>)>,
    loop_object: Option<(Seq<char>, FieldV)>,
    line_number: usize,
) -> Found<Option<ExpressionV>> {
    match condition {
        None => Found { ctx, result: Ok(Tri::Thing(None)) },
        Some(text) => {
            let f = condition_from_text(ctx, text, definition, loop_object, line_number);
            match f.result {
                Ok(Tri::Thing(e)) => Found { ctx: f.ctx, result: Ok(Tri::Thing(Some(e))) },
                _ => passed(f),
            }
        },
    }
}

/// The typed property of `argument` that a written property stands for:
/// its value typed as the argument, and its condition.
pub open spec fn property_of_argument(
    ctx: CtxV,
    p: ast::PropertyV,
    argument: FieldV,
    definition: Option<(Seq<char>, Seq<FieldV>)>,
    loop_object: Option<(Seq<char>, FieldV)>,
) -> Found<PropertyV> {
    let v = pv_from_ast(
        ctx,
        p.value,
        argument.mutable,
        Some(argument.kind),
        definition,
        loop_object,
    );
    match v.result {
        Ok(Tri::Thing(value)) => {
            let c = optional_condition(v.ctx, p.condition, definition, loop_object, p.line_number);
            match c.result {
                Ok(Tri::Thing(condition)) => Found {
                    ctx: c.ctx,
                    result: Ok(
                        Tri::Thing(
                            PropertyV {
                                value,
                                source: typed_source(p.source, argument),
                                condition,
                                line_number: p.line_number,
                            },
                        ),
                    ),
                },
                _ => passed(c),
            }
        },
        _ => passed(v),
    }
}

/// The typed property that a written property of an instance of
/// `component_name` stands for.
pub open spec fn property_from_ast(
    ctx: CtxV,
    p: ast::PropertyV,
    component_name: Seq<char>,
    arguments: Seq<FieldV>,
    definition: Option<(Seq<char>, Seq<FieldV>)>,
    loop_object: Option<(Seq<char>, FieldV)>,
) -> Found<PropertyV> {
    let a = argument_for_property(ctx, p.source, p.line_number, component_name, arguments);
    match a.result {
        Ok(Tri::Thing(argument)) => property_of_argument(
            a.ctx,
            p,
            argument,
            definition,
            loop_object,
        ),
        _ => passed(a),
    }
}

/// The typed properties from position `from` on, after those in `done`.
pub open spec fn properties_from(
    ctx: CtxV,
    properties: Seq<ast::PropertyV>,
    from: int,
    done: Seq<PropertyV>,
    component_name: Seq<char>,
    arguments: Seq<FieldV>,
    definition: Option<(Seq<char>, Seq<FieldV>)>,
    loop_object: Option<(Seq<char>, FieldV)>,
) -> Found<Seq<PropertyV>>
    decreases properties.len() - from,
{
    if from < 0 || from >= properties.len() {
        Found { ctx, result: Ok(Tri::Thing(done)) }
    } else {
        let f = property_from_ast(
            ctx,
            properties[from],
            component_name,
            arguments,
            definition,
            loop_object,
        );
        match f.result {
            Ok(Tri::Thing(p)) => properties_from(
                f.ctx,
                properties,
                from + 1,
                done.push(p),
                component_name,
                arguments,
                definition,
                loop_object,
            ),
            _ => passed(f),
        }
    }
}

/// The typed properties that the written properties of an instance of
/// `component_name` stand for.
pub open spec fn properties_from_ast(
    ctx: CtxV,
    properties: Seq<ast::PropertyV>,
    component_name: Seq<char>,
    definition: Option<(Seq<char>, Seq<FieldV>)>,
    loop_object: Option<(Seq<char>, FieldV)>,
    line_number: usize,
) -> Found<Seq<PropertyV>> {
    let a = arguments_for_component(ctx, component_name, definition, line_number);
    match a.result {
        Ok(Tri::Thing(arguments)) => properties_from(
            a.ctx,
            properties,
            0,
            Seq::empty(),
            component_name,
            arguments,
            definition,
            loop_object,
        ),
        _ => passed(a),
    }
}

/// The check of the properties that hold children against the children
/// that were written below the instance: there may be one such property,
/// without a condition, and then no children below.
pub open spec fn children_checked(
    properties: Seq<PropertyV>,
    has_children: bool,
    doc_id: Seq<char>,
) -> Result<(), ErrorV> {
    let i = find_children_property(properties, 0);
    if i < 0 {
        Ok(())
    } else if find_children_property(properties, i + 1) >= 0 {
        Err(
            error(
                ErrorKind::ParseError,
                "Can't pass multiple children"@,
                doc_id,
                properties[i].line_number,
            ),
        )
    } else if has_children {
        Err(
            error(
                ErrorKind::ParseError,
                "Can't have children passed in both subsection and header"@,
                doc_id,
                properties[i].line_number,
            ),
        )
    } else if properties[i].condition.is_some() {
        Err(
            error(
                ErrorKind::ParseError,
                "Not supporting condition for children"@,
                doc_id,
                properties[i].line_number,
            ),
        )
    } else {
        Ok(())
    }
}

/// The typed loop that a written loop stands for.
pub open spec fn loop_from_ast(
    ctx: CtxV,
    l: ast::LoopV,
    definition: Option<(Seq<char>, Seq<FieldV>)>,
) -> Found<LoopV> {
    let f = simple_from_text(ctx, l.on, false, None, definition, None, l.line_number);
    match f.result {
        Ok(Tri::Thing(on)) => Found {
            ctx: f.ctx,
            result: Ok(
                Tri::Thing(
                    LoopV {
                        on,
                        alias: resolved_name(l.alias, ctx.doc.name, ctx.doc.aliases),
                        line_number: l.line_number,
                    },
                ),
            ),
        },
        _ => passed(f),
    }
}

/// The typed event that a written event stands for: its action, then its
/// name, which has to be known.
pub open spec fn event_from_ast(
    ctx: CtxV,
    e: ast::EventV,
    definition: Option<(Seq<char>, Seq<FieldV>)>,
    loop_object: Option<(Seq<char>, FieldV)>,
) -> Found<EventV> {
    let f = call_from_text(ctx, e.action, false, definition, loop_object, e.line_number);
    match f.result {
        Ok(Tri::Thing(action)) => match event_name(e.name) {
            Some(name) => Found {
                ctx: f.ctx,
                result: Ok(Tri::Thing(EventV { name, action, line_number: e.line_number })),
            },
            None => failed(
                f.ctx,
                error(ErrorKind::UnknownEvent, e.name, ctx.doc.name, e.line_number),
            ),
        },
        _ => passed(f),
    }
}

/// The typed events from position `from` on, after those in `done`.
pub open spec fn events_from(
    ctx: CtxV,
    events: Seq<ast::EventV>,
    from: int,
    done: Seq<EventV>,
    definition: Option<(Seq<char>, Seq<FieldV>)>,
    loop_object: Option<(Seq<char>, FieldV)>,
) -> Found<Seq<EventV>>
    decreases events.len() - from,
{
    if from < 0 || from >= events.len() {
        Found { ctx, result: Ok(Tri::Thing(done)) }
    } else {
        let f = event_from_ast(ctx, events[from], definition, loop_object);
        match f.result {
            Ok(Tri::Thing(e)) => events_from(
                f.ctx,
                events,
                from + 1,
                done.push(e),
                definition,
                loop_object,
            ),
            _ => passed(f),
        }
    }
}

/// The specification-level form of typed properties or another outcome.
pub open spec fn tri_properties(r: Result<StateWithThing<Vec<Property>>, Error>) -> Result<
    Tri<Seq<PropertyV>>,
    ErrorV,
> {
    match r {
        Ok(StateWithThing::Thing(v)) => Ok(Tri::Thing(properties_model(v))),
        Ok(StateWithThing::State(s)) => Ok(Tri::State(s@)),
        Ok(StateWithThing::Continue) => Ok(Tri::Continue),
        Err(e) => Err(e@),
    }
}

/// The specification-level form of typed events or another outcome.
pub open spec fn tri_events(r: Result<StateWithThing<Vec<Event>>, Error>) -> Result<
    Tri<Seq<EventV>>,
    ErrorV,
> {
    match r {
        Ok(StateWithThing::Thing(v)) => Ok(Tri::Thing(events_model(v))),
        Ok(StateWithThing::State(s)) => Ok(Tri::State(s@)),
        Ok(StateWithThing::Continue) => Ok(Tri::Continue),
        Err(e) => Err(e@),
    }
}

/// The specification-level form of an optional typed condition or another
/// outcome.
pub open spec fn tri_condition(r: Result<StateWithThing<Option<Expression>>, Error>) -> Result<
    Tri<Option<ExpressionV>>,
    ErrorV,
> {
    match r {
        Ok(StateWithThing::Thing(v)) => Ok(Tri::Thing(crate::value::opt_expression_model(v))),
        Ok(StateWithThing::State(s)) => Ok(Tri::State(s@)),
        Ok(StateWithThing::Continue) => Ok(Tri::Continue),
        Err(e) => Err(e@),
    }
}

fn flagged_position(arguments: &Vec<Argument>, body: bool, from: usize) -> (r: Option<usize>)
    ensures
        match r {
            Some(i) => from <= i < arguments.len() && i as int == find_flagged(
                views(arguments@),
                body,
                from as int,
            ),
            None => find_flagged(views(arguments@), body, from as int) == -1,
        },
{
    let mut i: usize = from;
    while i < arguments.len()
        invariant
            from <= i,
            find_flagged(views(arguments@), body, from as int) == find_flagged(
                views(arguments@),
                body,
                i as int,
            ),
        decreases arguments.len() - i,
    {
        let flagged = if body {
            arguments[i].kind.body
        } else {
            arguments[i].kind.caption
        };
        if flagged {
            return Some(i);
        }
        i += 1;
    }
    None
}

fn flagged_argument_of(
    doc: &TDoc,
    arguments: &Vec<Argument>,
    body: bool,
    component_name: &str,
    line_number: usize,
) -> (r: Result<StateWithThing<Argument>, Error>)
    ensures
        tri(r) == flagged_argument(
            doc.ctx(),
            views(arguments@),
            body,
            component_name@,
            line_number,
        ).result,
{
    let i = match flagged_position(arguments, body, 0) {
        None => {
            return fail(ErrorKind::ArgumentNotFound, component_name, doc.name, line_number);
        },
        Some(i) => i,
    };
    if flagged_position(arguments, body, i + 1).is_some() {
        return fail(ErrorKind::ArgumentNotFound, component_name, doc.name, line_number);
    }
    Ok(StateWithThing::Thing(arguments[i].clone()))
}

fn header_argument_of(
    doc: &mut TDoc,
    name: &str,
    mutable: bool,
    arguments: &Vec<Argument>,
    line_number: usize,
) -> (r: Result<StateWithThing<Argument>, Error>)
    ensures
        final(doc).name == old(doc).name,
        final(doc).aliases == old(doc).aliases,
        final(doc).ctx() == header_argument(
            old(doc).ctx(),
            name@,
            mutable,
            views(arguments@),
            line_number,
        ).ctx,
        tri(r) == header_argument(
            old(doc).ctx(),
            name@,
            mutable,
            views(arguments@),
            line_number,
        ).result,
{
    proof {
        reveal_strlit(".");
        assert("."@ =~= one('.'));
    }
    let (first, rest) = split_at(name, ".");
    let i = match field_position(arguments, first.as_str()) {
        None => {
            return fail(ErrorKind::ArgumentNotFound, first.as_str(), doc.name, line_number);
        },
        Some(i) => i,
    };
    let argument = arguments[i].clone();
    if argument.mutable != mutable {
        return fail(
            ErrorKind::MutabilityMismatch,
            argument.name.as_str(),
            doc.name,
            line_number,
        );
    }
    match rest {
        Some(variant) => argument.update_with_or_type_variant(doc, variant.as_str(), line_number),
        None => Ok(StateWithThing::Thing(argument)),
    }
}

fn optional_condition_of(
    doc: &mut TDoc,
    condition: &Option<String>,
    definition: Option<(&str, &Vec<Argument>)>,
    loop_object: &Option<(String, Argument)>,
    line_number: usize,
) -> (r: Result<StateWithThing<Option<Expression>>, Error>)
    ensures
        final(doc).name == old(doc).name,
        final(doc).aliases == old(doc).aliases,
        final(doc).ctx() == optional_condition(
            old(doc).ctx(),
            crate::kind::opt_text(*condition),
            definition_view(definition),
            loop_view(*loop_object),
            line_number,
        ).ctx,
        tri_condition(r) == optional_condition(
            old(doc).ctx(),
            crate::kind::opt_text(*condition),
            definition_view(definition),
            loop_view(*loop_object),
            line_number,
        ).result,
{
    match condition {
        None => Ok(StateWithThing::Thing(None)),
        Some(text) => {
            let written = ast::Condition { expression: text.clone(), line_number };
            match Expression::from_ast_condition(&written, definition, loop_object, doc) {
                Ok(StateWithThing::Thing(e)) => Ok(StateWithThing::Thing(Some(e))),
                Ok(StateWithThing::State(s)) => Ok(StateWithThing::State(s)),
                Ok(StateWithThing::Continue) => Ok(StateWithThing::Continue),
                Err(e) => Err(e),
            }
        },
    }
}

fn source_of(source: &ast::PropertySource, argument: &Argument) -> (r: PropertySource)
    ensures
        r@ == typed_source(source@, argument@),
{
    match source {
        ast::PropertySource::Caption => PropertySource::Caption,
        ast::PropertySource::Body => PropertySource::Body,
        ast::PropertySource::Header { mutable, .. } => PropertySource::Header {
            name: argument.name.clone(),
            mutable: *mutable,
        },
    }
}

fn property_of_argument_of(
    doc: &mut TDoc,
    p: &ast::Property,
    argument: &Argument,
    definition: Option<(&str, &Vec<Argument>)>,
    loop_object: &Option<(String, Argument)>,
) -> (r: Result<StateWithThing<Property>, Error>)
    ensures
        final(doc).name == old(doc).name,
        final(doc).aliases == old(doc).aliases,
        final(doc).ctx() == property_of_argument(
            old(doc).ctx(),
            p@,
            argument@,
            definition_view(definition),
            loop_view(*loop_object),
        ).ctx,
        tri(r) == property_of_argument(
            old(doc).ctx(),
            p@,
            argument@,
            definition_view(definition),
            loop_view(*loop_object),
        ).result,
{
    let value = match PropertyValue::from_ast_value_with_argument(
        &p.value,
        doc,
        argument.mutable,
        Some(&argument.kind),
        definition,
        loop_object,
    ) {
        Ok(StateWithThing::Thing(v)) => v,
        Ok(StateWithThing::State(s)) => {
            return Ok(StateWithThing::State(s));
        },
        Ok(StateWithThing::Continue) => {
            return Ok(StateWithThing::Continue);
        },
        Err(e) => {
            return Err(e);
        },
    };
    match optional_condition_of(doc, &p.condition, definition, loop_object, p.line_number) {
        Ok(StateWithThing::Thing(condition)) => Ok(
            StateWithThing::Thing(
                Property {
                    value,
                    source: source_of(&p.source, argument),
                    condition,
                    line_number: p.line_number,
                },
            ),
        ),
        Ok(StateWithThing::State(s)) => Ok(StateWithThing::State(s)),
        Ok(StateWithThing::Continue) => Ok(StateWithThing::Continue),
        Err(e) => Err(e),
    }
}

impl Property {
    /// The argument of a component that a written property binds.
    pub fn get_argument_for_property(
        ast_property: &ast::Property,
        component_name: &str,
        component_argument: &Vec<Argument>,
        doc: &mut TDoc,
    ) -> (r: Result<StateWithThing<Argument>, Error>)
        ensures
            final(doc).name == old(doc).name,
            final(doc).aliases == old(doc).aliases,
            final(doc).ctx() == argument_for_property(
                old(doc).ctx(),
                ast_property@.source,
                ast_property@.line_number,
                component_name@,
                views(component_argument@),
            ).ctx,
            tri(r) == argument_for_property(
                old(doc).ctx(),
                ast_property@.source,
                ast_property@.line_number,
                component_name@,
                views(component_argument@),
            ).result,
    {
        match &ast_property.source {
            ast::PropertySource::Caption => flagged_argument_of(
                &*doc,
                component_argument,
                false,
                component_name,
                ast_property.line_number,
            ),
            ast::PropertySource::Body => flagged_argument_of(
                &*doc,
                component_argument,
                true,
                component_name,
                ast_property.line_number,
            ),
            ast::PropertySource::Header { name, mutable } => header_argument_of(
                doc,
                name.as_str(),
                *mutable,
                component_argument,
                ast_property.line_number,
            ),
        }
    }

    /// The typed property that a written property of an instance of
    /// `component_name` stands for.
    pub fn from_ast_property(
        ast_property: &ast::Property,
        component_name: &str,
        component_arguments: &Vec<Argument>,
        definition_name_with_arguments: Option<(&str, &Vec<Argument>)>,
        loop_object_name_and_kind: &Option<(String, Argument)>,
        doc: &mut TDoc,
    ) -> (r: Result<StateWithThing<Property>, Error>)
        ensures
            final(doc).name == old(doc).name,
            final(doc).aliases == old(doc).aliases,
            final(doc).ctx() == property_from_ast(
                old(doc).ctx(),
                ast_property@,
                component_name@,
                views(component_arguments@),
                definition_view(definition_name_with_arguments),
                loop_view(*loop_object_name_and_kind),
            ).ctx,
            tri(r) == property_from_ast(
                old(doc).ctx(),
                ast_property@,
                component_name@,
                views(component_arguments@),
                definition_view(definition_name_with_arguments),
                loop_view(*loop_object_name_and_kind),
            ).result,
    {
        match Property::get_argument_for_property(
            ast_property,
            component_name,
            component_arguments,
            doc,
        ) {
            Ok(StateWithThing::Thing(argument)) => property_of_argument_of(
                doc,
                ast_property,
                &argument,
                definition_name_with_arguments,
                loop_object_name_and_kind,
            ),
            Ok(StateWithThing::State(s)) => Ok(StateWithThing::State(s)),
            Ok(StateWithThing::Continue) => Ok(StateWithThing::Continue),
            Err(e) => Err(e),
        }
    }

    fn properties_from_of(
        ast_properties: &Vec<ast::Property>,
        component_name: &str,
        component_arguments: &Vec<Argument>,
        definition: Option<(&str, &Vec<Argument>)>,
        loop_object: &Option<(String, Argument)>,
        doc: &mut TDoc,
    ) -> (r: Result<StateWithThing<Vec<Property>>, Error>)
        ensures
            final(doc).name == old(doc).name,
            final(doc).aliases == old(doc).aliases,
            final(doc).ctx() == properties_from(
                old(doc).ctx(),
                ast::properties_view(ast_properties@),
                0,
                Seq::empty(),
                component_name@,
                views(component_arguments@),
                definition_view(definition),
                loop_view(*loop_object),
            ).ctx,
            tri_properties(r) == properties_from(
                old(doc).ctx(),
                ast::properties_view(ast_properties@),
                0,
                Seq::empty(),
                component_name@,
                views(component_arguments@),
                definition_view(definition),
                loop_view(*loop_object),
            ).result,
    {
        let mut out: Vec<Property> = Vec::new();
        let mut k: usize = 0;
        assert(properties_model(out) =~= Seq::empty());
        while k < ast_properties.len()
            invariant
                k <= ast_properties.len(),
                doc.name == old(doc).name,
                doc.aliases == old(doc).aliases,
                properties_from(
                    old(doc).ctx(),
                    ast::properties_view(ast_properties@),
                    0,
                    Seq::empty(),
                    component_name@,
                    views(component_arguments@),
                    definition_view(definition),
                    loop_view(*loop_object),
                ) == properties_from(
                    doc.ctx(),
                    ast::properties_view(ast_properties@),
                    k as int,
                    properties_model(out),
                    component_name@,
                    views(component_arguments@),
                    definition_view(definition),
                    loop_view(*loop_object),
                ),
            decreases ast_properties.len() - k,
        {
            assert(ast::properties_view(ast_properties@)[k as int] == ast_properties[k as int]@);
            match Property::from_ast_property(
                &ast_properties[k],
                component_name,
                component_arguments,
                definition,
                loop_object,
                doc,
            ) {
                Ok(StateWithThing::Thing(p)) => {
                    let ghost before = properties_model(out);
                    out.push(p);
                    assert(properties_model(out) =~= before.push(p@));
                },
                Ok(StateWithThing::State(s)) => {
                    return Ok(StateWithThing::State(s));
                },
                Ok(StateWithThing::Continue) => {
                    return Ok(StateWithThing::Continue);
                },
                Err(e) => {
                    return Err(e);
                },
            }
            k += 1;
        }
        Ok(StateWithThing::Thing(out))
    }

    /// The typed properties that the written properties of an instance of
    /// `component_name` stand for.
    pub fn from_ast_properties(
        ast_properties: &Vec<ast::Property>,
        component_name: &str,
        definition_name_with_arguments: Option<(&str, &Vec<Argument>)>,
        loop_object_name_and_kind: &Option<(String, Argument)>,
        doc: &mut TDoc,
        line_number: usize,
    ) -> (r: Result<StateWithThing<Vec<Property>>, Error>)
        ensures
            final(doc).name == old(doc).name,
            final(doc).aliases == old(doc).aliases,
            final(doc).ctx() == properties_from_ast(
                old(doc).ctx(),
                ast::properties_view(ast_properties@),
                component_name@,
                definition_view(definition_name_with_arguments),
                loop_view(*loop_object_name_and_kind),
                line_number,
            ).ctx,
            tri_properties(r) == properties_from_ast(
                old(doc).ctx(),
                ast::properties_view(ast_properties@),
                component_name@,
                definition_view(definition_name_with_arguments),
                loop_view(*loop_object_name_and_kind),
                line_number,
            ).result,
    {
        match Argument::for_component(
            component_name,
            &definition_name_with_arguments,
            doc,
            line_number,
        ) {
            Ok(StateWithThing::Thing(arguments)) => Property::properties_from_of(
                ast_properties,
                component_name,
                &arguments,
                definition_name_with_arguments,
                loop_object_name_and_kind,
                doc,
            ),
            Ok(StateWithThing::State(s)) => Ok(StateWithThing::State(s)),
            Ok(StateWithThing::Continue) => Ok(StateWithThing::Continue),
            Err(e) => Err(e),
        }
    }
}

fn children_property_from(properties: &Vec<Property>, from: usize) -> (r: Option<usize>)
    ensures
        match r {
            Some(i) => from <= i < properties.len() && i as int == find_children_property(
                properties_model(*properties),
                from as int,
            ),
            None => find_children_property(properties_model(*properties), from as int) == -1,
        },
{
    let mut i: usize = from;
    while i < properties.len()
        invariant
            from <= i,
            find_children_property(properties_model(*properties), from as int)
                == find_children_property(properties_model(*properties), i as int),
        decreases properties.len() - i,
    {
        assert(properties_model(*properties)[i as int] == properties[i as int]@);
        if crate::component::is_children_kind(&properties[i].value) {
            return Some(i);
        }
        i += 1;
    }
    None
}

/// The check of the properties that hold children against the children
/// that were written below the instance.
pub fn validate_children_kind_property_against_children(
    properties: &Vec<Property>,
    has_children: bool,
    doc_id: &str,
) -> (r: Result<(), Error>)
    ensures
        match r {
            Ok(_) => children_checked(properties_model(*properties), has_children, doc_id@) is Ok,
            Err(e) => children_checked(properties_model(*properties), has_children, doc_id@)
                == Err::<(), ErrorV>(e@),
        },
{
    let i = match children_property_from(properties, 0) {
        None => {
            return Ok(());
        },
        Some(i) => i,
    };
    assert(properties_model(*properties)[i as int] == properties[i as int]@);
    let first = &properties[i];
    if children_property_from(properties, i + 1).is_some() {
        return fail(
            ErrorKind::ParseError,
            "Can't pass multiple children",
            doc_id,
            first.line_number,
        );
    }
    if has_children {
        return fail(
            ErrorKind::ParseError,
            "Can't have children passed in both subsection and header",
            doc_id,
            first.line_number,
        );
    }
    if first.condition.is_some() {
        return fail(
            ErrorKind::ParseError,
            "Not supporting condition for children",
            doc_id,
            first.line_number,
        );
    }
    Ok(())
}

impl Loop {
    /// The typed loop that a written loop stands for.
    pub fn from_ast_loop(
        ast_loop: &ast::Loop,
        definition_name_with_arguments: Option<(&str, &Vec<Argument>)>,
        doc: &mut TDoc,
    ) -> (r: Result<StateWithThing<Loop>, Error>)
        ensures
            final(doc).name == old(doc).name,
            final(doc).aliases == old(doc).aliases,
            final(doc).ctx() == loop_from_ast(
                old(doc).ctx(),
                ast_loop@,
                definition_view(definition_name_with_arguments),
            ).ctx,
            tri(r) == loop_from_ast(
                old(doc).ctx(),
                ast_loop@,
                definition_view(definition_name_with_arguments),
            ).result,
    {
        let alias = doc.resolve_name(ast_loop.alias.as_str());
        match PropertyValue::from_string_with_argument(
            ast_loop.on.as_str(),
            doc,
            None,
            false,
            ast_loop.line_number,
            definition_name_with_arguments,
            &None,
        ) {
            Ok(StateWithThing::Thing(on)) => Ok(
                StateWithThing::Thing(Loop { on, alias, line_number: ast_loop.line_number }),
            ),
            Ok(StateWithThing::State(s)) => Ok(StateWithThing::State(s)),
            Ok(StateWithThing::Continue) => Ok(StateWithThing::Continue),
            Err(e) => Err(e),
        }
    }
}

impl Event {
    /// The typed event that a written event stands for.
    pub fn from_ast_event(
        ast_event: &ast::Event,
        definition_name_with_arguments: Option<(&str, &Vec<Argument>)>,
        loop_object_name_and_kind: &Option<(String, Argument)>,
        doc: &mut TDoc,
    ) -> (r: Result<StateWithThing<Event>, Error>)
        ensures
            final(doc).name == old(doc).name,
            final(doc).aliases == old(doc).aliases,
            final(doc).ctx() == event_from_ast(
                old(doc).ctx(),
                ast_event@,
                definition_view(definition_name_with_arguments),
                loop_view(*loop_object_name_and_kind),
            ).ctx,
            tri(r) == event_from_ast(
                old(doc).ctx(),
                ast_event@,
                definition_view(definition_name_with_arguments),
                loop_view(*loop_object_name_and_kind),
            ).result,
    {
        let action = match FunctionCall::from_string(
            ast_event.action.as_str(),
            doc,
            false,
            definition_name_with_arguments,
            loop_object_name_and_kind,
            ast_event.line_number,
        ) {
            Ok(StateWithThing::Thing(a)) => a,
            Ok(StateWithThing::State(s)) => {
                return Ok(StateWithThing::State(s));
            },
            Ok(StateWithThing::Continue) => {
                return Ok(StateWithThing::Continue);
            },
            Err(e) => {
                return Err(e);
            },
        };
        match EventName::from_string(ast_event.name.as_str(), doc.name, ast_event.line_number) {
            Ok(name) => Ok(
                StateWithThing::Thing(Event { name, action, line_number: ast_event.line_number }),
            ),
            Err(e) => Err(e),
        }
    }

    /// The typed events that written events stand for.
    pub fn from_ast_events(
        ast_events: &Vec<ast::Event>,
        definition_name_with_arguments: Option<(&str, &Vec<Argument>)>,
        loop_object_name_and_kind: &Option<(String, Argument)>,
        doc: &mut TDoc,
    ) -> (r: Result<StateWithThing<Vec<Event>>, Error>)
        ensures
            final(doc).name == old(doc).name,
            final(doc).aliases == old(doc).aliases,
            final(doc).ctx() == events_from(
                old(doc).ctx(),
                ast::events_view(ast_events@),
                0,
                Seq::empty(),
                definition_view(definition_name_with_arguments),
                loop_view(*loop_object_name_and_kind),
            ).ctx,
            tri_events(r) == events_from(
                old(doc).ctx(),
                ast::events_view(ast_events@),
                0,
                Seq::empty(),
                definition_view(definition_name_with_arguments),
                loop_view(*loop_object_name_and_kind),
            ).result,
    {
        let mut out: Vec<Event> = Vec::new();
        let mut k: usize = 0;
        assert(events_model(out) =~= Seq::empty());
        while k < ast_events.len()
            invariant
                k <= ast_events.len(),
                doc.name == old(doc).name,
                doc.aliases == old(doc).aliases,
                events_from(
                    old(doc).ctx(),
                    ast::events_view(ast_events@),
                    0,
                    Seq::empty(),
                    definition_view(definition_name_with_arguments),
                    loop_view(*loop_object_name_and_kind),
                ) == events_from(
                    doc.ctx(),
                    ast::events_view(ast_events@),
                    k as int,
                    events_model(out),
                    definition_view(definition_name_with_arguments),
                    loop_view(*loop_object_name_and_kind),
                ),
            decreases ast_events.len() - k,
        {
            assert(ast::events_view(ast_events@)[k as int] == ast_events[k as int]@);
            match Event::from_ast_event(
                &ast_events[k],
                definition_name_with_arguments,
                loop_object_name_and_kind,
                doc,
            ) {
                Ok(StateWithThing::Thing(e)) => {
                    let ghost before = events_model(out);
                    out.push(e);
                    assert(events_model(out) =~= before.push(e@));
                },
                Ok(StateWithThing::State(s)) => {
                    return Ok(StateWithThing::State(s));
                },
                Ok(StateWithThing::Continue) => {
                    return Ok(StateWithThing::Continue);
                },
                Err(e) => {
                    return Err(e);
                },
            }
            k += 1;
        }
        Ok(StateWithThing::Thing(out))
    }
}

} // verus!
