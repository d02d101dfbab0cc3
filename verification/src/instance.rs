//! From written component trees to typed ones.

use vstd::prelude::*;
use crate::ast;
use crate::builder::{
    children_checked,
    events_from,
    loop_from_ast,
    optional_condition,
    properties_from_ast,
    tri_condition,
    tri_properties,
    validate_children_kind_property_against_children,
};
use crate::component::{holds_children, loop_kind};
use crate::define::{arguments_for_component, fields_from_ast};
use crate::error::{error, fail, Error, ErrorKind, ErrorV};
use crate::found::{failed, passed, tri, CtxV, Found};
use crate::kind::{Kind, KindDataV, KindV};
use crate::kind_of::{definition_view, loop_view};
use crate::names::resolved_name;
use crate::search::Tri;
use crate::state::StateWithThing;
use crate::tdoc::TDoc;
use crate::thing::{
    views, Argument, ComponentDefinition, ComponentDefinitionV, Field, FieldV,
};
use crate::typed::literal_of;
use crate::value::{
    components_model,
    items_model,
    properties_model,
    Component,
    ComponentV,
    Event,
    Expression,
    ExpressionV,
    Loop,
    LoopV,
    Property,
    PropertySource,
    PropertySourceV,
    PropertyV,
    PropertyValue,
    PropertyValueV,
    Value,
    ValueV,
};
use crate::values::plain;

verus! {

/// The kind of the children of a component.
pub open spec fn children_kind() -> KindDataV {
    plain(KindV::UI { name: None })
}

/// The literal that holds a component as a UI value.
pub open spec fn ui_value(c: ComponentV) -> PropertyValueV {
    literal_of(
        ValueV::UI { name: c.name, kind: children_kind(), component: Box::new(c) },
        false,
        c.line_number,
    )
}

/// The literals that hold the components of a list.
pub open spec fn ui_values(cs: Seq<ComponentV>) -> Seq<PropertyValueV> {
    Seq::new(cs.len(), |i: int| ui_value(cs[i]))
}

/// The property that holds the children `cs` of an instance.
pub open spec fn children_as_property(cs: Seq<ComponentV>, line_number: usize) -> PropertyV {
    PropertyV {
        value: literal_of(
            ValueV::List { data: ui_values(cs), kind: children_kind() },
            false,
            line_number,
        ),
        source: PropertySourceV::Subsection,
        condition: None,
        line_number,
    }
}

/// Position of the first argument at or after `from` that takes children,
/// or -1.
pub open spec fn find_children_argument(arguments: Seq<FieldV>, from: int) -> int
    decreases arguments.len() - from,
{
    if from < 0 || from >= arguments.len() {
        -1
    } else if holds_children(arguments[from].kind.kind) {
        from
    } else {
        find_children_argument(arguments, from + 1)
    }
}

/// The object of a loop as the argument that is visible under the alias of
/// the loop.
pub open spec fn loop_scope(iteration: Option<LoopV>, doc_id: Seq<char>) -> Result<
    Option<(Seq<char>, FieldV)>,
    ErrorV,
> {
    match iteration {
        None => Ok(None),
        Some(it) => match loop_kind(it.on, doc_id, it.line_number) {
            Err(e) => Err(e),
            Ok(kind) => Ok(
                Some(
                    (
                        it.alias,
                        FieldV {
                            name: it.alias,
                            kind: plain(kind),
                            mutable: it.on.is_mutable(),
                            value: Some(it.on),
                            line_number: it.on.line_number(),
                        },
                    ),
                ),
            ),
        },
    }
}

/// The typed loop that an optional written loop stands for.
pub open spec fn iteration_from_ast(
    ctx: CtxV,
    iteration: Option<ast::LoopV>,
    definition: Option<(Seq<char>, Seq<FieldV>)>,
) -> Found<Option<LoopV>> {
    match iteration {
        None => Found { ctx, result: Ok(Tri::Thing(None)) },
        Some(l) => {
            let f = loop_from_ast(ctx, l, definition);
            match f.result {
                Ok(Tri::Thing(it)) => Found { ctx: f.ctx, result: Ok(Tri::Thing(Some(it))) },
                _ => passed(f),
            }
        },
    }
}

/// The typed condition that the optional written condition of an instance
/// stands for.
pub open spec fn instance_condition(
    ctx: CtxV,
    condition: Option<ast::ConditionV>,
    definition: Option<(Seq<char>, Seq<FieldV>)>,
    loop_object: Option<(Seq<char>, FieldV)>,
) -> Found<Option<ExpressionV>> {
    match condition {
        None => Found { ctx, result: Ok(Tri::Thing(None)) },
        Some(c) => optional_condition(
            ctx,
            Some(c.expression),
            definition,
            loop_object,
            c.line_number,
        ),
    }
}

/// The typed instance that a written instance stands for.
pub open spec fn component_from_ast(
    ctx: CtxV,
    c: ast::ComponentV,
    definition: Option<(Seq<char>, Seq<FieldV>)>,
) -> Found<ComponentV>
    decreases c, 2int,
{
    let i = iteration_from_ast(ctx, c.iteration, definition);
    match i.result {
        Ok(Tri::Thing(iteration)) => match loop_scope(iteration, ctx.doc.name) {
            Err(e) => failed(i.ctx, e),
            Ok(loop_object) => component_in_scope(i.ctx, c, iteration, loop_object, definition),
        },
        _ => passed(i),
    }
}

/// The typed instance once its loop is known: its condition, its events
/// and its properties, in that order.
pub open spec fn component_in_scope(
    ctx: CtxV,
    c: ast::ComponentV,
    iteration: Option<LoopV>,
    loop_object: Option<(Seq<char>, FieldV)>,
    definition: Option<(Seq<char>, Seq<FieldV>)>,
) -> Found<ComponentV>
    decreases c, 1int,
{
    let cond = instance_condition(ctx, c.condition, definition, loop_object);
    match cond.result {
        Ok(Tri::Thing(condition)) => {
            let ev = events_from(cond.ctx, c.events, 0, Seq::empty(), definition, loop_object);
            match ev.result {
                Ok(Tri::Thing(events)) => {
                    let pr = properties_and_children(
                        ev.ctx,
                        c.properties,
                        c.children,
                        c.name,
                        definition,
                        loop_object,
                        c.line_number,
                    );
                    match pr.result {
                        Ok(Tri::Thing(properties)) => Found {
                            ctx: pr.ctx,
                            result: Ok(
                                Tri::Thing(
                                    ComponentV {
                                        name: resolved_name(c.name, ctx.doc.name, ctx.doc.aliases),
                                        properties,
                                        iteration,
                                        condition,
                                        events,
                                        children: Seq::empty(),
                                        line_number: c.line_number,
                                    },
                                ),
                            ),
                        },
                        _ => passed(pr),
                    }
                },
                _ => passed(ev),
            }
        },
        _ => passed(cond),
    }
}

/// The typed properties of an instance: those that were written, checked
/// against the children that were written below it, and the property that
/// holds those children.
pub open spec fn properties_and_children(
    ctx: CtxV,
    properties: Seq<ast::PropertyV>,
    children: Seq<ast::ComponentV>,
    component_name: Seq<char>,
    definition: Option<(Seq<char>, Seq<FieldV>)>,
    loop_object: Option<(Seq<char>, FieldV)>,
    line_number: usize,
) -> Found<Seq<PropertyV>>
    decreases children, children.len() + 2,
{
    let p = properties_from_ast(
        ctx,
        properties,
        component_name,
        definition,
        loop_object,
        line_number,
    );
    match p.result {
        Ok(Tri::Thing(typed)) => match children_checked(typed, children.len() > 0, ctx.doc.name) {
            Err(e) => failed(p.ctx, e),
            Ok(_) => {
                let c = children_property(p.ctx, children, component_name, definition);
                match c.result {
                    Ok(Tri::Thing(Some(property))) => Found {
                        ctx: c.ctx,
                        result: Ok(Tri::Thing(typed.push(property))),
                    },
                    Ok(Tri::Thing(None)) => Found { ctx: c.ctx, result: Ok(Tri::Thing(typed)) },
                    _ => passed(c),
                }
            },
        },
        _ => passed(p),
    }
}

/// The property that holds the children that were written below an
/// instance of `component_name`, which has to have an argument that takes
/// children; none where no children were written.
pub open spec fn children_property(
    ctx: CtxV,
    children: Seq<ast::ComponentV>,
    component_name: Seq<char>,
    definition: Option<(Seq<char>, Seq<FieldV>)>,
) -> Found<Option<PropertyV>>
    decreases children, children.len() + 1,
{
    if children.len() == 0 {
        Found { ctx, result: Ok(Tri::Thing(None)) }
    } else {
        let line_number = children[0].line_number;
        let a = arguments_for_component(ctx, component_name, definition, line_number);
        match a.result {
            Ok(Tri::Thing(arguments)) => if find_children_argument(arguments, 0) < 0 {
                failed(
                    a.ctx,
                    error(
                        ErrorKind::ParseError,
                        "Subsection is unexpected"@,
                        ctx.doc.name,
                        line_number,
                    ),
                )
            } else {
                let f = components_from(a.ctx, children, 0, Seq::empty(), definition);
                match f.result {
                    Ok(Tri::Thing(cs)) => Found {
                        ctx: f.ctx,
                        result: Ok(Tri::Thing(Some(children_as_property(cs, line_number)))),
                    },
                    _ => passed(f),
                }
            },
            _ => passed(a),
        }
    }
}

/// The typed instances from position `from` on, after those in `done`.
pub open spec fn components_from(
    ctx: CtxV,
    children: Seq<ast::ComponentV>,
    from: int,
    done: Seq<ComponentV>,
    definition: Option<(Seq<char>, Seq<FieldV>)>,
) -> Found<Seq<ComponentV>>
    decreases children, children.len() - from,
{
    if from < 0 || from >= children.len() {
        Found { ctx, result: Ok(Tri::Thing(done)) }
    } else {
        let f = component_from_ast(ctx, children[from], definition);
        match f.result {
            Ok(Tri::Thing(c)) => components_from(f.ctx, children, from + 1, done.push(c), definition),
            _ => passed(f),
        }
    }
}

/// The component definition that a written one stands for: its arguments,
/// and its body, which may not be a loop.
pub open spec fn component_definition_from_ast(ctx: CtxV, d: ast::ComponentDefinitionV) -> Found<
    ComponentDefinitionV,
> {
    let a = fields_from_ast(ctx, d.arguments, 0, Seq::empty());
    match a.result {
        Ok(Tri::Thing(arguments)) => {
            let f = component_from_ast(a.ctx, d.definition, Some((d.name, arguments)));
            match f.result {
                Ok(Tri::Thing(definition)) => match definition.iteration {
                    Some(l) => failed(
                        f.ctx,
                        error(
                            ErrorKind::ParseError,
                            "The component definition cannot have loop"@,
                            ctx.doc.name,
                            l.line_number,
                        ),
                    ),
                    None => Found {
                        ctx: f.ctx,
                        result: Ok(
                            Tri::Thing(
                                ComponentDefinitionV {
                                    name: resolved_name(d.name, ctx.doc.name, ctx.doc.aliases),
                                    arguments,
                                    definition,
                                    line_number: d.line_number,
                                },
                            ),
                        ),
                    },
                },
                _ => passed(f),
            }
        },
        _ => passed(a),
    }
}

/// The specification-level form of typed instances or another outcome.
pub open spec fn tri_components(r: Result<StateWithThing<Vec<Component>>, Error>) -> Result<
    Tri<Seq<ComponentV>>,
    ErrorV,
> {
    match r {
        Ok(StateWithThing::Thing(v)) => Ok(Tri::Thing(components_model(v))),
        Ok(StateWithThing::State(s)) => Ok(Tri::State(s@)),
        Ok(StateWithThing::Continue) => Ok(Tri::Continue),
        Err(e) => Err(e@),
    }
}

/// The specification-level form of an optional typed loop or another
/// outcome.
pub open spec fn tri_iteration(r: Result<StateWithThing<Option<Loop>>, Error>) -> Result<
    Tri<Option<LoopV>>,
    ErrorV,
> {
    match r {
        Ok(StateWithThing::Thing(Some(l))) => Ok(Tri::Thing(Some(l@))),
        Ok(StateWithThing::Thing(None)) => Ok(Tri::Thing(None)),
        Ok(StateWithThing::State(s)) => Ok(Tri::State(s@)),
        Ok(StateWithThing::Continue) => Ok(Tri::Continue),
        Err(e) => Err(e@),
    }
}

/// The specification-level form of an optional typed property or another
/// outcome.
pub open spec fn tri_property(r: Result<StateWithThing<Option<Property>>, Error>) -> Result<
    Tri<Option<PropertyV>>,
    ErrorV,
> {
    match r {
        Ok(StateWithThing::Thing(Some(p))) => Ok(Tri::Thing(Some(p@))),
        Ok(StateWithThing::Thing(None)) => Ok(Tri::Thing(None)),
        Ok(StateWithThing::State(s)) => Ok(Tri::State(s@)),
        Ok(StateWithThing::Continue) => Ok(Tri::Continue),
        Err(e) => Err(e@),
    }
}

/// The view of an optional loop.
pub open spec fn opt_loop(l: Option<Loop>) -> Option<LoopV> {
    match l {
        Some(x) => Some(x@),
        None => None,
    }
}

/// The view of an optional written loop.
pub open spec fn opt_ast_loop(l: Option<ast::Loop>) -> Option<ast::LoopV> {
    match l {
        Some(x) => Some(x@),
        None => None,
    }
}

/// The view of an optional written condition.
pub open spec fn opt_ast_condition(c: Option<ast::Condition>) -> Option<ast::ConditionV> {
    match c {
        Some(x) => Some(x@),
        None => None,
    }
}

fn children_argument(arguments: &Vec<Argument>) -> (r: bool)
    ensures
        r == (find_children_argument(views(arguments@), 0) >= 0),
{
    let mut i: usize = 0;
    while i < arguments.len()
        invariant
            i <= arguments.len(),
            find_children_argument(views(arguments@), 0) == find_children_argument(
                views(arguments@),
                i as int,
            ),
        decreases arguments.len() - i,
    {
        if arguments[i].kind.kind.clone().inner_list().is_subsection_ui() {
            return true;
        }
        i += 1;
    }
    false
}

fn children_to_property(children: Vec<Component>, line_number: usize) -> (r: Property)
    ensures
        r@ == children_as_property(components_model(children), line_number),
{
    let ghost cs = components_model(children);
    let mut data: Vec<PropertyValue> = Vec::new();
    let rest = children;
    assert(items_model(data) =~= ui_values(cs).subrange(0, 0));
    let mut i: usize = 0;
    while i < rest.len()
        invariant
            i <= rest.len(),
            components_model(rest) == cs,
            items_model(data) == ui_values(cs).subrange(0, i as int),
        decreases rest.len() - i,
    {
        let c = rest[i].clone();
        assert(c@ == cs[i as int]);
        let ghost before = items_model(data);
        data.push(
            PropertyValue::Value {
                line_number: c.line_number,
                value: Value::UI {
                    name: c.name.clone(),
                    kind: Kind::subsection_ui().into_kind_data(),
                    component: c,
                },
                is_mutable: false,
            },
        );
        assert(items_model(data) =~= before.push(ui_value(cs[i as int])));
        assert(before.push(ui_value(cs[i as int])) =~= ui_values(cs).subrange(0, i + 1));
        i += 1;
    }
    assert(ui_values(cs).subrange(0, cs.len() as int) =~= ui_values(cs));
    Property {
        value: PropertyValue::Value {
            value: Value::List { data, kind: Kind::subsection_ui().into_kind_data() },
            is_mutable: false,
            line_number,
        },
        source: PropertySource::Subsection,
        condition: None,
        line_number,
    }
}

fn loop_scope_of(iteration: &Option<Loop>, doc: &TDoc) -> (r: Result<
    Option<(String, Argument)>,
    Error,
>)
    ensures
        match r {
            Ok(scope) => loop_scope(opt_loop(*iteration), doc@.name) == Ok::<
                Option<(Seq<char>, FieldV)>,
                ErrorV,
            >(loop_view(scope)),
            Err(e) => loop_scope(opt_loop(*iteration), doc@.name) == Err::<
                Option<(Seq<char>, FieldV)>,
                ErrorV,
            >(e@),
        },
{
    match iteration {
        None => Ok(None),
        Some(it) => match it.loop_object_as_argument(doc) {
            Ok(argument) => Ok(Some((it.alias.clone(), argument))),
            Err(e) => Err(e),
        },
    }
}

fn iteration_of(
    doc: &mut TDoc,
    iteration: &Option<ast::Loop>,
    definition: Option<(&str, &Vec<Argument>)>,
) -> (r: Result<StateWithThing<Option<Loop>>, Error>)
    ensures
        final(doc).name == old(doc).name,
        final(doc).aliases == old(doc).aliases,
        final(doc).ctx() == iteration_from_ast(
            old(doc).ctx(),
            opt_ast_loop(*iteration),
            definition_view(definition),
        ).ctx,
        tri_iteration(r) == iteration_from_ast(
            old(doc).ctx(),
            opt_ast_loop(*iteration),
            definition_view(definition),
        ).result,
{
    match iteration {
        None => Ok(StateWithThing::Thing(None)),
        Some(l) => match Loop::from_ast_loop(l, definition, doc) {
            Ok(StateWithThing::Thing(it)) => Ok(StateWithThing::Thing(Some(it))),
            Ok(StateWithThing::State(s)) => Ok(StateWithThing::State(s)),
            Ok(StateWithThing::Continue) => Ok(StateWithThing::Continue),
            Err(e) => Err(e),
        },
    }
}

fn instance_condition_of(
    doc: &mut TDoc,
    condition: &Option<ast::Condition>,
    definition: Option<(&str, &Vec<Argument>)>,
    loop_object: &Option<(String, Argument)>,
) -> (r: Result<StateWithThing<Option<Expression>>, Error>)
    ensures
        final(doc).name == old(doc).name,
        final(doc).aliases == old(doc).aliases,
        final(doc).ctx() == instance_condition(
            old(doc).ctx(),
            opt_ast_condition(*condition),
            definition_view(definition),
            loop_view(*loop_object),
        ).ctx,
        tri_condition(r) == instance_condition(
            old(doc).ctx(),
            opt_ast_condition(*condition),
            definition_view(definition),
            loop_view(*loop_object),
        ).result,
{
    match condition {
        None => Ok(StateWithThing::Thing(None)),
        Some(c) => match Expression::from_ast_condition(c, definition, loop_object, doc) {
            Ok(StateWithThing::Thing(e)) => Ok(StateWithThing::Thing(Some(e))),
            Ok(StateWithThing::State(s)) => Ok(StateWithThing::State(s)),
            Ok(StateWithThing::Continue) => Ok(StateWithThing::Continue),
            Err(e) => Err(e),
        },
    }
}

impl Component {
    /// The typed instance that a written instance stands for.
    pub fn from_ast_component(
        ast_component: &ast::Component,
        definition_name_with_arguments: Option<(&str, &Vec<Argument>)>,
        doc: &mut TDoc,
    ) -> (r: Result<StateWithThing<Component>, Error>)
        ensures
            final(doc).name == old(doc).name,
            final(doc).aliases == old(doc).aliases,
            final(doc).ctx() == component_from_ast(
                old(doc).ctx(),
                ast_component@,
                definition_view(definition_name_with_arguments),
            ).ctx,
            tri(r) == component_from_ast(
                old(doc).ctx(),
                ast_component@,
                definition_view(definition_name_with_arguments),
            ).result,
        decreases ast_component, 2int,
    {
        let iteration = match iteration_of(
            doc,
            &ast_component.iteration,
            definition_name_with_arguments,
        ) {
            Ok(StateWithThing::Thing(i)) => i,
            Ok(StateWithThing::State(s)) => {
                return Ok(StateWithThing::State(s));
            },
            Ok(StateWithThing::Continue) => {
                return Ok(StateWithThing::Continue);
            },
            Err(e) => {
                return Err(e);
            },
        };
        let loop_object = match loop_scope_of(&iteration, &*doc) {
            Err(e) => {
                return Err(e);
            },
            Ok(l) => l,
        };
        Component::in_scope(
            ast_component,
            iteration,
            &loop_object,
            definition_name_with_arguments,
            doc,
        )
    }

    fn in_scope(
        c: &ast::Component,
        iteration: Option<Loop>,
        loop_object: &Option<(String, Argument)>,
        definition: Option<(&str, &Vec<Argument>)>,
        doc: &mut TDoc,
    ) -> (r: Result<StateWithThing<Component>, Error>)
        ensures
            final(doc).name == old(doc).name,
            final(doc).aliases == old(doc).aliases,
            final(doc).ctx() == component_in_scope(
                old(doc).ctx(),
                c@,
                opt_loop(iteration),
                loop_view(*loop_object),
                definition_view(definition),
            ).ctx,
            tri(r) == component_in_scope(
                old(doc).ctx(),
                c@,
                opt_loop(iteration),
                loop_view(*loop_object),
                definition_view(definition),
            ).result,
        decreases c, 1int,
    {
        let name = doc.resolve_name(c.name.as_str());
        let condition = match instance_condition_of(doc, &c.condition, definition, loop_object) {
            Ok(StateWithThing::Thing(x)) => x,
            Ok(StateWithThing::State(s)) => {
                return Ok(StateWithThing::State(s));
            },
            Ok(StateWithThing::Continue) => {
                return Ok(StateWithThing::Continue);
            },
            Err(e) => {
                return Err(e);
            },
        };
        let events = match Event::from_ast_events(&c.events, definition, loop_object, doc) {
            Ok(StateWithThing::Thing(x)) => x,
            Ok(StateWithThing::State(s)) => {
                return Ok(StateWithThing::State(s));
            },
            Ok(StateWithThing::Continue) => {
                return Ok(StateWithThing::Continue);
            },
            Err(e) => {
                return Err(e);
            },
        };
        match Property::from_ast_properties_and_children(
            &c.properties,
            &c.children,
            c.name.as_str(),
            definition,
            loop_object,
            doc,
            c.line_number,
        ) {
            Ok(StateWithThing::Thing(properties)) => {
                let r = Component {
                    name,
                    properties,
                    iteration: Box::new(iteration),
                    condition: Box::new(condition),
                    events,
                    children: Vec::new(),
                    line_number: c.line_number,
                };
                assert(r@.children =~= Seq::empty());
                Ok(StateWithThing::Thing(r))
            },
            Ok(StateWithThing::State(s)) => Ok(StateWithThing::State(s)),
            Ok(StateWithThing::Continue) => Ok(StateWithThing::Continue),
            Err(e) => Err(e),
        }
    }

    fn from_ast_components(
        children: &Vec<ast::Component>,
        definition: Option<(&str, &Vec<Argument>)>,
        doc: &mut TDoc,
    ) -> (r: Result<StateWithThing<Vec<Component>>, Error>)
        ensures
            final(doc).name == old(doc).name,
            final(doc).aliases == old(doc).aliases,
            final(doc).ctx() == components_from(
                old(doc).ctx(),
                ast::components_model(*children),
                0,
                Seq::empty(),
                definition_view(definition),
            ).ctx,
            tri_components(r) == components_from(
                old(doc).ctx(),
                ast::components_model(*children),
                0,
                Seq::empty(),
                definition_view(definition),
            ).result,
        decreases children, children.len(),
    {
        let mut out: Vec<Component> = Vec::new();
        let mut k: usize = 0;
        assert(components_model(out) =~= Seq::empty());
        while k < children.len()
            invariant
                k <= children.len(),
                doc.name == old(doc).name,
                doc.aliases == old(doc).aliases,
                components_from(
                    old(doc).ctx(),
                    ast::components_model(*children),
                    0,
                    Seq::empty(),
                    definition_view(definition),
                ) == components_from(
                    doc.ctx(),
                    ast::components_model(*children),
                    k as int,
                    components_model(out),
                    definition_view(definition),
                ),
            decreases children.len() - k,
        {
            assert(decreases_to!(children => children[k as int]));
            assert(ast::components_model(*children)[k as int] == children[k as int]@);
            match Component::from_ast_component(&children[k], definition, doc) {
                Ok(StateWithThing::Thing(c)) => {
                    let ghost before = components_model(out);
                    out.push(c);
                    assert(components_model(out) =~= before.push(c@));
                },
                Ok(StateWithThing::State(s)) => {
                    return Ok(StateWithThing::State(s));
                },
                Ok(StateWithThing::Continue) => {
                    return Ok(StateWithThing::Continue);
                },
                Err(e) => {
                    return Err(e);
                },
            }
            k += 1;
        }
        Ok(StateWithThing::Thing(out))
    }
}

impl Property {
    /// The property that holds the children that were written below an
    /// instance of `component_name`.
    pub fn from_ast_children(
        ast_children: &Vec<ast::Component>,
        component_name: &str,
        definition_name_with_arguments: Option<(&str, &Vec<Argument>)>,
        doc: &mut TDoc,
    ) -> (r: Result<StateWithThing<Option<Property>>, Error>)
        ensures
            final(doc).name == old(doc).name,
            final(doc).aliases == old(doc).aliases,
            final(doc).ctx() == children_property(
                old(doc).ctx(),
                ast::components_model(*ast_children),
                component_name@,
                definition_view(definition_name_with_arguments),
            ).ctx,
            tri_property(r) == children_property(
                old(doc).ctx(),
                ast::components_model(*ast_children),
                component_name@,
                definition_view(definition_name_with_arguments),
            ).result,
        decreases ast_children, ast_children.len() + 1,
    {
        if ast_children.len() == 0 {
            return Ok(StateWithThing::Thing(None));
        }
        assert(ast::components_model(*ast_children)[0] == ast_children[0]@);
        let line_number = ast_children[0].line_number;
        let arguments = match Argument::for_component(
            component_name,
            &definition_name_with_arguments,
            doc,
            line_number,
        ) {
            Ok(StateWithThing::Thing(a)) => a,
            Ok(StateWithThing::State(s)) => {
                return Ok(StateWithThing::State(s));
            },
            Ok(StateWithThing::Continue) => {
                return Ok(StateWithThing::Continue);
            },
            Err(e) => {
                return Err(e);
            },
        };
        if !children_argument(&arguments) {
            return fail(ErrorKind::ParseError, "Subsection is unexpected", doc.name, line_number);
        }
        match Component::from_ast_components(ast_children, definition_name_with_arguments, doc) {
            Ok(StateWithThing::Thing(children)) => Ok(
                StateWithThing::Thing(Some(children_to_property(children, line_number))),
            ),
            Ok(StateWithThing::State(s)) => Ok(StateWithThing::State(s)),
            Ok(StateWithThing::Continue) => Ok(StateWithThing::Continue),
            Err(e) => Err(e),
        }
    }

    /// The typed properties of an instance: those that were written and
    /// the one that holds the children that were written below it.
    pub fn from_ast_properties_and_children(
        ast_properties: &Vec<ast::Property>,
        ast_children: &Vec<ast::Component>,
        component_name: &str,
        definition_name_with_arguments: Option<(&str, &Vec<Argument>)>,
        loop_object_name_and_kind: &Option<(String, Argument)>,
        doc: &mut TDoc,
        line_number: usize,
    ) -> (r: Result<StateWithThing<Vec<Property>>, Error>)
        ensures
            final(doc).name == old(doc).name,
            final(doc).aliases == old(doc).aliases,
            final(doc).ctx() == properties_and_children(
                old(doc).ctx(),
                ast::properties_view(ast_properties@),
                ast::components_model(*ast_children),
                component_name@,
                definition_view(definition_name_with_arguments),
                loop_view(*loop_object_name_and_kind),
                line_number,
            ).ctx,
            tri_properties(r) == properties_and_children(
                old(doc).ctx(),
                ast::properties_view(ast_properties@),
                ast::components_model(*ast_children),
                component_name@,
                definition_view(definition_name_with_arguments),
                loop_view(*loop_object_name_and_kind),
                line_number,
            ).result,
        decreases ast_children, ast_children.len() + 2,
    {
        let mut properties = match Property::from_ast_properties(
            ast_properties,
            component_name,
            definition_name_with_arguments,
            loop_object_name_and_kind,
            doc,
            line_number,
        ) {
            Ok(StateWithThing::Thing(p)) => p,
            Ok(StateWithThing::State(s)) => {
                return Ok(StateWithThing::State(s));
            },
            Ok(StateWithThing::Continue) => {
                return Ok(StateWithThing::Continue);
            },
            Err(e) => {
                return Err(e);
            },
        };
        match validate_children_kind_property_against_children(
            &properties,
            ast_children.len() > 0,
            doc.name,
        ) {
            Err(e) => {
                return Err(e);
            },
            Ok(_) => {},
        }
        match Property::from_ast_children(
            ast_children,
            component_name,
            definition_name_with_arguments,
            doc,
        ) {
            Ok(StateWithThing::Thing(Some(property))) => {
                let ghost before = properties_model(properties);
                properties.push(property);
                assert(properties_model(properties) =~= before.push(property@));
                Ok(StateWithThing::Thing(properties))
            },
            Ok(StateWithThing::Thing(None)) => Ok(StateWithThing::Thing(properties)),
            Ok(StateWithThing::State(s)) => Ok(StateWithThing::State(s)),
            Ok(StateWithThing::Continue) => Ok(StateWithThing::Continue),
            Err(e) => Err(e),
        }
    }
}

impl ComponentDefinition {
    pub fn new(
        name: &str,
        arguments: Vec<Argument>,
        definition: Component,
        line_number: usize,
    ) -> (r: ComponentDefinition)
        ensures
            r@ == (ComponentDefinitionV {
                name: name@,
                arguments: views(arguments@),
                definition: definition@,
                line_number,
            }),
    {
        ComponentDefinition { name: name.to_owned(), arguments, definition, line_number }
    }

    /// The component definition that a written one stands for.
    pub fn from_ast_definition(d: &ast::ComponentDefinition, doc: &mut TDoc) -> (r: Result<
        StateWithThing<ComponentDefinition>,
        Error,
    >)
        ensures
            final(doc).name == old(doc).name,
            final(doc).aliases == old(doc).aliases,
            final(doc).ctx() == component_definition_from_ast(old(doc).ctx(), d@).ctx,
            tri(r) == component_definition_from_ast(old(doc).ctx(), d@).result,
    {
        let name = doc.resolve_name(d.name.as_str());
        let arguments = match Field::from_ast_fields(&d.arguments, doc) {
            Ok(StateWithThing::Thing(a)) => a,
            Ok(StateWithThing::State(s)) => {
                return Ok(StateWithThing::State(s));
            },
            Ok(StateWithThing::Continue) => {
                return Ok(StateWithThing::Continue);
            },
            Err(e) => {
                return Err(e);
            },
        };
        let built = Component::from_ast_component(
            &d.definition,
            Some((d.name.as_str(), &arguments)),
            doc,
        );
        match built {
            Ok(StateWithThing::Thing(definition)) => {
                match &*definition.iteration {
                    Some(l) => fail(
                        ErrorKind::ParseError,
                        "The component definition cannot have loop",
                        doc.name,
                        l.line_number,
                    ),
                    None => Ok(
                        StateWithThing::Thing(
                            ComponentDefinition {
                                name,
                                arguments,
                                definition,
                                line_number: d.line_number,
                            },
                        ),
                    ),
                }
            },
            Ok(StateWithThing::State(s)) => Ok(StateWithThing::State(s)),
            Ok(StateWithThing::Continue) => Ok(StateWithThing::Continue),
            Err(e) => Err(e),
        }
    }
}

} // verus!
