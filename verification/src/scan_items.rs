//! The scan of written instances, definitions and their parts.

use vstd::prelude::*;
use crate::ast;
use crate::error::{error, fail, Error, ErrorKind, ErrorV};
use crate::found::tri;
use crate::instance::{component_definition_from_ast, component_from_ast};

use crate::scan::{
    is_defined_here,
    scan_children,
    scan_component,
    scan_component_definition,
    scan_condition,
    scan_conjunctions,
    scan_events,
    scan_field,
    scan_fields,
    scan_operands,
    scan_own,
    scan_properties,
    scan_property,
    scan_result,
    scan_text,
    scope_view,
    written_names,
};
use crate::state::StateWithThing;
use crate::tdoc::TDoc;
use crate::text::{str_eq, str_trim, string_from, to_chars};
use crate::thing::ComponentDefinition;

use crate::utils::split;
use crate::value::{texts, Component, Event, Expression, FunctionCall, Loop, Property, PropertyValue};

verus! {

fn operand_text_of(text: &str) -> (r: String)
    ensures
        r@ == crate::calls::operand_text(text@),
{
    let t = str_trim(text);
    let chars = to_chars(t.as_str());
    let mut n: usize = 0;
    while n < chars.len() && chars[n] == '!'
        invariant
            n <= chars.len(),
            crate::calls::bangs(chars@, 0) == n + crate::calls::bangs(chars@, n as int),
        decreases chars.len() - n,
    {
        n += 1;
    }
    let rest = string_from(&chars, n, chars.len());
    str_trim(rest.as_str())
}

fn scan_operands_of(
    doc: &mut TDoc,
    parts: &Vec<String>,
    definition: Option<(&str, &Vec<String>)>,
    loop_alias: &Option<String>,
    line_number: usize,
) -> (r: Result<(), Error>)
    ensures
        final(doc).name == old(doc).name,
        final(doc).aliases == old(doc).aliases,
        final(doc).ctx() == scan_operands(
            old(doc).ctx(),
            texts(parts@),
            0,
            scope_view(definition),
            crate::kind::opt_text(*loop_alias),
            line_number,
        ).ctx,
        scan_result(r) == scan_operands(
            old(doc).ctx(),
            texts(parts@),
            0,
            scope_view(definition),
            crate::kind::opt_text(*loop_alias),
            line_number,
        ).result,
{
    let mut k: usize = 0;
    while k < parts.len()
        invariant
            k <= parts.len(),
            doc.name == old(doc).name,
            doc.aliases == old(doc).aliases,
            scan_operands(
                old(doc).ctx(),
                texts(parts@),
                0,
                scope_view(definition),
                crate::kind::opt_text(*loop_alias),
                line_number,
            ) == scan_operands(
                doc.ctx(),
                texts(parts@),
                k as int,
                scope_view(definition),
                crate::kind::opt_text(*loop_alias),
                line_number,
            ),
        decreases parts.len() - k,
    {
        assert(texts(parts@)[k as int] == parts[k as int]@);
        let atom = operand_text_of(parts[k].as_str());
        match doc.scan_link_of(atom.as_str(), definition, loop_alias, line_number) {
            Err(e) => {
                return Err(e);
            },
            Ok(_) => {},
        }
        k += 1;
    }
    Ok(())
}

fn scan_conjunctions_of(
    doc: &mut TDoc,
    parts: &Vec<String>,
    definition: Option<(&str, &Vec<String>)>,
    loop_alias: &Option<String>,
    line_number: usize,
) -> (r: Result<(), Error>)
    ensures
        final(doc).name == old(doc).name,
        final(doc).aliases == old(doc).aliases,
        final(doc).ctx() == scan_conjunctions(
            old(doc).ctx(),
            texts(parts@),
            0,
            scope_view(definition),
            crate::kind::opt_text(*loop_alias),
            line_number,
        ).ctx,
        scan_result(r) == scan_conjunctions(
            old(doc).ctx(),
            texts(parts@),
            0,
            scope_view(definition),
            crate::kind::opt_text(*loop_alias),
            line_number,
        ).result,
{
    proof {
        reveal_strlit("&&");
        assert("&&"@ =~= seq!['&', '&']);
    }
    let mut k: usize = 0;
    while k < parts.len()
        invariant
            k <= parts.len(),
            doc.name == old(doc).name,
            doc.aliases == old(doc).aliases,
            "&&"@ == seq!['&', '&'],
            scan_conjunctions(
                old(doc).ctx(),
                texts(parts@),
                0,
                scope_view(definition),
                crate::kind::opt_text(*loop_alias),
                line_number,
            ) == scan_conjunctions(
                doc.ctx(),
                texts(parts@),
                k as int,
                scope_view(definition),
                crate::kind::opt_text(*loop_alias),
                line_number,
            ),
        decreases parts.len() - k,
    {
        assert(texts(parts@)[k as int] == parts[k as int]@);
        let operands = split(parts[k].as_str(), "&&");
        match scan_operands_of(doc, &operands, definition, loop_alias, line_number) {
            Err(e) => {
                return Err(e);
            },
            Ok(_) => {},
        }
        k += 1;
    }
    Ok(())
}

impl Expression {
    /// The scan of a written condition.
    pub fn scan_ast_condition(
        condition: &ast::Condition,
        definition_name_with_arguments: Option<(&str, &Vec<String>)>,
        loop_object_name_and_kind: &Option<String>,
        doc: &mut TDoc,
    ) -> (r: Result<(), Error>)
        ensures
            final(doc).name == old(doc).name,
            final(doc).aliases == old(doc).aliases,
            final(doc).ctx() == scan_condition(
                old(doc).ctx(),
                condition@.expression,
                scope_view(definition_name_with_arguments),
                crate::kind::opt_text(*loop_object_name_and_kind),
                condition@.line_number,
            ).ctx,
            scan_result(r) == scan_condition(
                old(doc).ctx(),
                condition@.expression,
                scope_view(definition_name_with_arguments),
                crate::kind::opt_text(*loop_object_name_and_kind),
                condition@.line_number,
            ).result,
    {
        proof {
            reveal_strlit("||");
            assert("||"@ =~= seq!['|', '|']);
        }
        let parts = split(condition.expression.as_str(), "||");
        scan_conjunctions_of(
            doc,
            &parts,
            definition_name_with_arguments,
            loop_object_name_and_kind,
            condition.line_number,
        )
    }
}

impl FunctionCall {
    /// The scan of a written call.
    pub fn scan_string(
        text: &str,
        doc: &mut TDoc,
        definition_name_with_arguments: Option<(&str, &Vec<String>)>,
        loop_object_name_and_kind: &Option<String>,
        line_number: usize,
    ) -> (r: Result<(), Error>)
        ensures
            final(doc).name == old(doc).name,
            final(doc).aliases == old(doc).aliases,
            final(doc).ctx() == scan_text(
                old(doc).ctx(),
                text@,
                scope_view(definition_name_with_arguments),
                crate::kind::opt_text(*loop_object_name_and_kind),
                line_number,
            ).ctx,
            scan_result(r) == scan_text(
                old(doc).ctx(),
                text@,
                scope_view(definition_name_with_arguments),
                crate::kind::opt_text(*loop_object_name_and_kind),
                line_number,
            ).result,
    {
        PropertyValue::scan_string_with_argument(
            text,
            doc,
            line_number,
            definition_name_with_arguments,
            loop_object_name_and_kind,
        )
    }
}

impl Property {
    /// The scan of a written property.
    pub fn scan_ast_property(
        ast_property: &ast::Property,
        definition_name_with_arguments: Option<(&str, &Vec<String>)>,
        loop_object_name_and_kind: &Option<String>,
        doc: &mut TDoc,
    ) -> (r: Result<(), Error>)
        ensures
            final(doc).name == old(doc).name,
            final(doc).aliases == old(doc).aliases,
            final(doc).ctx() == scan_property(
                old(doc).ctx(),
                ast_property@,
                scope_view(definition_name_with_arguments),
                crate::kind::opt_text(*loop_object_name_and_kind),
            ).ctx,
            scan_result(r) == scan_property(
                old(doc).ctx(),
                ast_property@,
                scope_view(definition_name_with_arguments),
                crate::kind::opt_text(*loop_object_name_and_kind),
            ).result,
    {
        match PropertyValue::scan_ast_value_with_argument(
            &ast_property.value,
            doc,
            definition_name_with_arguments,
            loop_object_name_and_kind,
        ) {
            Err(e) => {
                return Err(e);
            },
            Ok(_) => {},
        }
        match &ast_property.condition {
            Some(text) => {
                let written = ast::Condition {
                    expression: text.clone(),
                    line_number: ast_property.line_number,
                };
                Expression::scan_ast_condition(
                    &written,
                    definition_name_with_arguments,
                    loop_object_name_and_kind,
                    doc,
                )
            },
            None => Ok(()),
        }
    }

    /// The scan of written properties.
    pub fn scan_ast_properties(
        ast_properties: &Vec<ast::Property>,
        definition_name_with_arguments: Option<(&str, &Vec<String>)>,
        loop_object_name_and_kind: &Option<String>,
        doc: &mut TDoc,
    ) -> (r: Result<(), Error>)
        ensures
            final(doc).name == old(doc).name,
            final(doc).aliases == old(doc).aliases,
            final(doc).ctx() == scan_properties(
                old(doc).ctx(),
                ast::properties_view(ast_properties@),
                0,
                scope_view(definition_name_with_arguments),
                crate::kind::opt_text(*loop_object_name_and_kind),
            ).ctx,
            scan_result(r) == scan_properties(
                old(doc).ctx(),
                ast::properties_view(ast_properties@),
                0,
                scope_view(definition_name_with_arguments),
                crate::kind::opt_text(*loop_object_name_and_kind),
            ).result,
    {
        let mut k: usize = 0;
        while k < ast_properties.len()
            invariant
                k <= ast_properties.len(),
                doc.name == old(doc).name,
                doc.aliases == old(doc).aliases,
                scan_properties(
                    old(doc).ctx(),
                    ast::properties_view(ast_properties@),
                    0,
                    scope_view(definition_name_with_arguments),
                    crate::kind::opt_text(*loop_object_name_and_kind),
                ) == scan_properties(
                    doc.ctx(),
                    ast::properties_view(ast_properties@),
                    k as int,
                    scope_view(definition_name_with_arguments),
                    crate::kind::opt_text(*loop_object_name_and_kind),
                ),
            decreases ast_properties.len() - k,
        {
            assert(ast::properties_view(ast_properties@)[k as int] == ast_properties[k as int]@);
            match Property::scan_ast_property(
                &ast_properties[k],
                definition_name_with_arguments,
                loop_object_name_and_kind,
                doc,
            ) {
                Err(e) => {
                    return Err(e);
                },
                Ok(_) => {},
            }
            k += 1;
        }
        Ok(())
    }

    /// The scan of the instances that were written below an instance.
    pub fn scan_ast_children(
        ast_children: &Vec<ast::Component>,
        definition_name_with_arguments: Option<(&str, &Vec<String>)>,
        doc: &mut TDoc,
    ) -> (r: Result<(), Error>)
        ensures
            final(doc).name == old(doc).name,
            final(doc).aliases == old(doc).aliases,
            final(doc).ctx() == scan_children(
                old(doc).ctx(),
                ast::components_model(*ast_children),
                0,
                scope_view(definition_name_with_arguments),
            ).ctx,
            scan_result(r) == scan_children(
                old(doc).ctx(),
                ast::components_model(*ast_children),
                0,
                scope_view(definition_name_with_arguments),
            ).result,
        decreases ast_children, ast_children.len(),
    {
        let mut k: usize = 0;
        while k < ast_children.len()
            invariant
                k <= ast_children.len(),
                doc.name == old(doc).name,
                doc.aliases == old(doc).aliases,
                scan_children(
                    old(doc).ctx(),
                    ast::components_model(*ast_children),
                    0,
                    scope_view(definition_name_with_arguments),
                ) == scan_children(
                    doc.ctx(),
                    ast::components_model(*ast_children),
                    k as int,
                    scope_view(definition_name_with_arguments),
                ),
            decreases ast_children.len() - k,
        {
            assert(decreases_to!(ast_children => ast_children[k as int]));
            assert(ast::components_model(*ast_children)[k as int] == ast_children[k as int]@);
            match Component::scan_ast_component(
                &ast_children[k],
                definition_name_with_arguments,
                doc,
            ) {
                Err(e) => {
                    return Err(e);
                },
                Ok(_) => {},
            }
            k += 1;
        }
        Ok(())
    }
}

impl Event {
    /// The scan of a written event.
    pub fn scan_ast_event(
        ast_event: &ast::Event,
        definition_name_with_arguments: Option<(&str, &Vec<String>)>,
        loop_object_name_and_kind: &Option<String>,
        doc: &mut TDoc,
    ) -> (r: Result<(), Error>)
        ensures
            final(doc).name == old(doc).name,
            final(doc).aliases == old(doc).aliases,
            final(doc).ctx() == scan_text(
                old(doc).ctx(),
                ast_event@.action,
                scope_view(definition_name_with_arguments),
                crate::kind::opt_text(*loop_object_name_and_kind),
                ast_event@.line_number,
            ).ctx,
            scan_result(r) == scan_text(
                old(doc).ctx(),
                ast_event@.action,
                scope_view(definition_name_with_arguments),
                crate::kind::opt_text(*loop_object_name_and_kind),
                ast_event@.line_number,
            ).result,
    {
        FunctionCall::scan_string(
            ast_event.action.as_str(),
            doc,
            definition_name_with_arguments,
            loop_object_name_and_kind,
            ast_event.line_number,
        )
    }

    /// The scan of written events.
    pub fn scan_ast_events(
        ast_events: &Vec<ast::Event>,
        definition_name_with_arguments: Option<(&str, &Vec<String>)>,
        loop_object_name_and_kind: &Option<String>,
        doc: &mut TDoc,
    ) -> (r: Result<(), Error>)
        ensures
            final(doc).name == old(doc).name,
            final(doc).aliases == old(doc).aliases,
            final(doc).ctx() == scan_events(
                old(doc).ctx(),
                ast::events_view(ast_events@),
                0,
                scope_view(definition_name_with_arguments),
                crate::kind::opt_text(*loop_object_name_and_kind),
            ).ctx,
            scan_result(r) == scan_events(
                old(doc).ctx(),
                ast::events_view(ast_events@),
                0,
                scope_view(definition_name_with_arguments),
                crate::kind::opt_text(*loop_object_name_and_kind),
            ).result,
    {
        let mut k: usize = 0;
        while k < ast_events.len()
            invariant
                k <= ast_events.len(),
                doc.name == old(doc).name,
                doc.aliases == old(doc).aliases,
                scan_events(
                    old(doc).ctx(),
                    ast::events_view(ast_events@),
                    0,
                    scope_view(definition_name_with_arguments),
                    crate::kind::opt_text(*loop_object_name_and_kind),
                ) == scan_events(
                    doc.ctx(),
                    ast::events_view(ast_events@),
                    k as int,
                    scope_view(definition_name_with_arguments),
                    crate::kind::opt_text(*loop_object_name_and_kind),
                ),
            decreases ast_events.len() - k,
        {
            assert(ast::events_view(ast_events@)[k as int] == ast_events[k as int]@);
            match Event::scan_ast_event(
                &ast_events[k],
                definition_name_with_arguments,
                loop_object_name_and_kind,
                doc,
            ) {
                Err(e) => {
                    return Err(e);
                },
                Ok(_) => {},
            }
            k += 1;
        }
        Ok(())
    }
}

impl Loop {
    /// The scan of a written loop: of the list that it runs through.
    pub fn scan_ast_loop(
        ast_loop: &ast::Loop,
        definition_name_with_arguments: Option<(&str, &Vec<String>)>,
        doc: &mut TDoc,
    ) -> (r: Result<(), Error>)
        ensures
            final(doc).name == old(doc).name,
            final(doc).aliases == old(doc).aliases,
            final(doc).ctx() == scan_text(
                old(doc).ctx(),
                ast_loop@.on,
                scope_view(definition_name_with_arguments),
                None,
                ast_loop@.line_number,
            ).ctx,
            scan_result(r) == scan_text(
                old(doc).ctx(),
                ast_loop@.on,
                scope_view(definition_name_with_arguments),
                None,
                ast_loop@.line_number,
            ).result,
    {
        PropertyValue::scan_string_with_argument(
            ast_loop.on.as_str(),
            doc,
            ast_loop.line_number,
            definition_name_with_arguments,
            &None,
        )
    }
}

fn defined_here(name: &str, definition: Option<(&str, &Vec<String>)>) -> (r: bool)
    ensures
        r == is_defined_here(name@, scope_view(definition)),
{
    match definition {
        Some((d, _)) => str_eq(d, name),
        None => false,
    }
}

impl Component {
    fn scan_own_of(
        c: &ast::Component,
        definition: Option<(&str, &Vec<String>)>,
        doc: &mut TDoc,
    ) -> (r: Result<(), Error>)
        ensures
            final(doc).name == old(doc).name,
            final(doc).aliases == old(doc).aliases,
            final(doc).ctx() == scan_own(old(doc).ctx(), c@, scope_view(definition)).ctx,
            scan_result(r) == scan_own(old(doc).ctx(), c@, scope_view(definition)).result,
    {
        let alias: Option<String> = match &c.iteration {
            Some(l) => Some(doc.resolve_name(l.alias.as_str())),
            None => None,
        };
        if !defined_here(c.name.as_str(), definition) {
            match doc.scan_name_of(c.name.as_str(), c.line_number) {
                Err(e) => {
                    return Err(e);
                },
                Ok(_) => {},
            }
        }
        match &c.iteration {
            Some(l) => match Loop::scan_ast_loop(l, definition, doc) {
                Err(e) => {
                    return Err(e);
                },
                Ok(_) => {},
            },
            None => {},
        }
        match &c.condition {
            Some(cond) => match Expression::scan_ast_condition(cond, definition, &alias, doc) {
                Err(e) => {
                    return Err(e);
                },
                Ok(_) => {},
            },
            None => {},
        }
        match Event::scan_ast_events(&c.events, definition, &alias, doc) {
            Err(e) => {
                return Err(e);
            },
            Ok(_) => {},
        }
        Property::scan_ast_properties(&c.properties, definition, &alias, doc)
    }

    /// The scan of a written instance.
    pub fn scan_ast_component(
        ast_component: &ast::Component,
        definition_name_with_arguments: Option<(&str, &Vec<String>)>,
        doc: &mut TDoc,
    ) -> (r: Result<(), Error>)
        ensures
            final(doc).name == old(doc).name,
            final(doc).aliases == old(doc).aliases,
            final(doc).ctx() == scan_component(
                old(doc).ctx(),
                ast_component@,
                scope_view(definition_name_with_arguments),
            ).ctx,
            scan_result(r) == scan_component(
                old(doc).ctx(),
                ast_component@,
                scope_view(definition_name_with_arguments),
            ).result,
        decreases ast_component, 1int,
    {
        match Property::scan_ast_children(
            &ast_component.children,
            definition_name_with_arguments,
            doc,
        ) {
            Err(e) => {
                return Err(e);
            },
            Ok(_) => {},
        }
        Component::scan_own_of(ast_component, definition_name_with_arguments, doc)
    }

    /// The scan of a top-level item that is an instance; any other item is
    /// an error.
    pub fn scan_ast(item: &ast::AST, doc: &mut TDoc) -> (r: Result<(), Error>)
        ensures
            final(doc).name == old(doc).name,
            final(doc).aliases == old(doc).aliases,
            match *item {
                ast::AST::ComponentInvocation(c) => final(doc).ctx() == scan_component(
                    old(doc).ctx(),
                    c@,
                    None,
                ).ctx && scan_result(r) == scan_component(old(doc).ctx(), c@, None).result,
                _ => final(doc).ctx() == old(doc).ctx() && r is Err && r->Err_0@ == wrong_item(
                    old(doc).ctx().doc.name,
                    item.line_number_spec(),
                ),
            },
    {
        match item {
            ast::AST::ComponentInvocation(c) => Component::scan_ast_component(c, None, doc),
            _ => fail(ErrorKind::ParseError, "unexpected item", doc.name, item.line_number()),
        }
    }

    /// The typed instance that a top-level item stands for, which has to be
    /// an instance.
    pub fn from_ast(item: &ast::AST, doc: &mut TDoc) -> (r: Result<StateWithThing<Component>, Error>)
        ensures
            final(doc).name == old(doc).name,
            final(doc).aliases == old(doc).aliases,
            match *item {
                ast::AST::ComponentInvocation(c) => final(doc).ctx() == component_from_ast(
                    old(doc).ctx(),
                    c@,
                    None,
                ).ctx && tri(r) == component_from_ast(old(doc).ctx(), c@, None).result,
                _ => final(doc).ctx() == old(doc).ctx() && r is Err && r->Err_0@ == wrong_item(
                    old(doc).ctx().doc.name,
                    item.line_number_spec(),
                ),
            },
    {
        match item {
            ast::AST::ComponentInvocation(c) => Component::from_ast_component(c, None, doc),
            _ => fail(ErrorKind::ParseError, "unexpected item", doc.name, item.line_number()),
        }
    }
}

/// The error of a top-level item of another sort than the one asked for.
pub open spec fn wrong_item(doc_id: Seq<char>, line_number: usize) -> ErrorV {
    error(ErrorKind::ParseError, "unexpected item"@, doc_id, line_number)
}

/// The names of written fields.
pub fn written_names_of(fields: &Vec<ast::Field>) -> (r: Vec<String>)
    ensures
        texts(r@) == written_names(ast::fields_view(fields@)),
{
    let mut out: Vec<String> = Vec::new();
    let mut i: usize = 0;
    while i < fields.len()
        invariant
            i <= fields.len(),
            out.len() == i,
            forall|j: int| 0 <= j < i ==> out[j]@ == fields[j]@.name,
        decreases fields.len() - i,
    {
        out.push(fields[i].name.clone());
        i += 1;
    }
    assert(texts(out@) =~= written_names(ast::fields_view(fields@)));
    out
}

impl crate::thing::Field {
    /// The scan of a written field.
    pub fn scan_ast_field(field: &ast::Field, doc: &mut TDoc) -> (r: Result<(), Error>)
        ensures
            final(doc).name == old(doc).name,
            final(doc).aliases == old(doc).aliases,
            final(doc).ctx() == scan_field(old(doc).ctx(), field@).ctx,
            scan_result(r) == scan_field(old(doc).ctx(), field@).result,
    {
        if !crate::typed::is_builtin(field.kind.kind.as_str()) {
            match doc.scan_name_of(field.kind.kind.as_str(), field.line_number) {
                Err(e) => {
                    return Err(e);
                },
                Ok(_) => {},
            }
        }
        match &field.value {
            Some(v) => PropertyValue::scan_ast_value_with_argument(v, doc, None, &None),
            None => Ok(()),
        }
    }

    /// The scan of written fields.
    pub fn scan_ast_fields(fields: &Vec<ast::Field>, doc: &mut TDoc) -> (r: Result<(), Error>)
        ensures
            final(doc).name == old(doc).name,
            final(doc).aliases == old(doc).aliases,
            final(doc).ctx() == scan_fields(old(doc).ctx(), ast::fields_view(fields@), 0).ctx,
            scan_result(r) == scan_fields(old(doc).ctx(), ast::fields_view(fields@), 0).result,
    {
        let mut k: usize = 0;
        while k < fields.len()
            invariant
                k <= fields.len(),
                doc.name == old(doc).name,
                doc.aliases == old(doc).aliases,
                scan_fields(old(doc).ctx(), ast::fields_view(fields@), 0) == scan_fields(
                    doc.ctx(),
                    ast::fields_view(fields@),
                    k as int,
                ),
            decreases fields.len() - k,
        {
            assert(ast::fields_view(fields@)[k as int] == fields[k as int]@);
            match crate::thing::Field::scan_ast_field(&fields[k], doc) {
                Err(e) => {
                    return Err(e);
                },
                Ok(_) => {},
            }
            k += 1;
        }
        Ok(())
    }
}

impl ComponentDefinition {
    /// The scan of a written component definition.
    pub fn scan_ast_definition(d: &ast::ComponentDefinition, doc: &mut TDoc) -> (r: Result<
        (),
        Error,
    >)
        ensures
            final(doc).name == old(doc).name,
            final(doc).aliases == old(doc).aliases,
            final(doc).ctx() == scan_component_definition(old(doc).ctx(), d@).ctx,
            scan_result(r) == scan_component_definition(old(doc).ctx(), d@).result,
    {
        let arguments = written_names_of(&d.arguments);
        match Component::scan_ast_component(
            &d.definition,
            Some((d.name.as_str(), &arguments)),
            doc,
        ) {
            Err(e) => {
                return Err(e);
            },
            Ok(_) => {},
        }
        crate::thing::Field::scan_ast_fields(&d.arguments, doc)
    }

    /// The scan of a top-level item that is a component definition; any
    /// other item is an error.
    pub fn scan_ast(item: &ast::AST, doc: &mut TDoc) -> (r: Result<(), Error>)
        ensures
            final(doc).name == old(doc).name,
            final(doc).aliases == old(doc).aliases,
            match *item {
                ast::AST::ComponentDefinition(d) => final(doc).ctx() == scan_component_definition(
                    old(doc).ctx(),
                    d@,
                ).ctx && scan_result(r) == scan_component_definition(old(doc).ctx(), d@).result,
                _ => final(doc).ctx() == old(doc).ctx() && r is Err && r->Err_0@ == wrong_item(
                    old(doc).ctx().doc.name,
                    item.line_number_spec(),
                ),
            },
    {
        match item {
            ast::AST::ComponentDefinition(d) => ComponentDefinition::scan_ast_definition(d, doc),
            _ => fail(ErrorKind::ParseError, "unexpected item", doc.name, item.line_number()),
        }
    }

    /// The component definition that a top-level item stands for, which has
    /// to be a component definition.
    pub fn from_ast(item: &ast::AST, doc: &mut TDoc) -> (r: Result<
        StateWithThing<ComponentDefinition>,
        Error,
    >)
        ensures
            final(doc).name == old(doc).name,
            final(doc).aliases == old(doc).aliases,
            match *item {
                ast::AST::ComponentDefinition(d) => final(doc).ctx()
                    == component_definition_from_ast(old(doc).ctx(), d@).ctx && tri(r)
                    == component_definition_from_ast(old(doc).ctx(), d@).result,
                _ => final(doc).ctx() == old(doc).ctx() && r is Err && r->Err_0@ == wrong_item(
                    old(doc).ctx().doc.name,
                    item.line_number_spec(),
                ),
            },
    {
        match item {
            ast::AST::ComponentDefinition(d) => ComponentDefinition::from_ast_definition(d, doc),
            _ => fail(ErrorKind::ParseError, "unexpected item", doc.name, item.line_number()),
        }
    }
}

} // verus!
