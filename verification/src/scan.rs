//! The scan of a written item: every name that the item depends on is
//! looked at, and what is not yet defined is noted for the driver. Nothing
//! is built and, over the state of a session, nothing fails.

use vstd::prelude::*;
use crate::ast;
use crate::calls::{operand_text, written_arguments};
use crate::error::{Error, ErrorV};
use crate::found::CtxV;
use crate::kind_of::referenced_argument;
use crate::names::{
    function_name, get_function_name, one, resolved_name, split_at, split_at_spec, strip_marker,
    without_marker,
};
use crate::search::{not_found, scanned, texts_contain};
use crate::semantics::initial_thing;

use crate::tdoc::TDoc;
use crate::text::{
    concat2,
    concat3,
    has_prefix,
    split_once,
    str_eq,
    str_split_once,
    str_starts_with,
    str_strip_prefix,
    str_trim,
    trimmed,
};
use crate::typed::{builtin_kind, is_link, names_variable};
use crate::utils::split_from;
use crate::value::texts;
use crate::values::is_call;

verus! {

/// The context that a scan leaves behind, and whether it failed.
pub struct Scan {
    pub ctx: CtxV,
    pub result: Result<(), ErrorV>,
}

/// The scan that changes nothing.
pub open spec fn unchanged(ctx: CtxV) -> Scan {
    Scan { ctx, result: Ok(()) }
}

/// The scan of one name.
pub open spec fn scan_name(ctx: CtxV, name: Seq<char>, line_number: usize) -> Scan {
    match ctx.state {
        Some(state) => Scan {
            ctx: CtxV {
                doc: ctx.doc,
                state: Some(scanned(state, ctx.doc.name, ctx.doc.aliases, name, line_number)),
            },
            result: Ok(()),
        },
        None => match initial_thing(ctx.doc, name, line_number) {
            Ok(_) => unchanged(ctx),
            Err(_) => Scan {
                ctx,
                result: Err(
                    not_found(
                        resolved_name(strip_marker(name), ctx.doc.name, ctx.doc.aliases),
                        ctx.doc.name,
                        line_number,
                    ),
                ),
            },
        },
    }
}

/// Whether `name` stands for something of the scope of the instance: an
/// argument of the component being defined, or the object of the enclosing
/// loop.
pub open spec fn is_local(
    ctx: CtxV,
    name: Seq<char>,
    definition: Option<(Seq<char>, Seq<Seq<char>>)>,
    loop_alias: Option<Seq<char>>,
) -> bool {
    ||| match definition {
        Some((component, arguments)) => match referenced_argument(name, ctx.doc.name, component) {
            Some(r) => arguments.contains(split_at_spec(r, one('.')).0),
            None => false,
        },
        None => false,
    }
    ||| match loop_alias {
        Some(alias) => {
            let full = resolved_name(name, ctx.doc.name, ctx.doc.aliases);
            has_prefix(full, alias + one('.')) || full == alias
        },
        None => false,
    }
}

/// The scan of the written arguments of a call from position `from` on:
/// of what each `name = value` gives its name.
pub open spec fn scan_arguments(
    ctx: CtxV,
    parts: Seq<Seq<char>>,
    from: int,
    definition: Option<(Seq<char>, Seq<Seq<char>>)>,
    loop_alias: Option<Seq<char>>,
    line_number: usize,
) -> Scan
    decreases parts.len() - from,
{
    if from < 0 || from >= parts.len() {
        unchanged(ctx)
    } else {
        let s = match split_once(parts[from], seq!['=']) {
            Some((_, v)) => scan_link(ctx, trimmed(v), definition, loop_alias, line_number),
            None => unchanged(ctx),
        };
        match s.result {
            Ok(_) => scan_arguments(s.ctx, parts, from + 1, definition, loop_alias, line_number),
            Err(_) => s,
        }
    }
}

/// The scan of a text that is no call: the name that it gives, unless it
/// gives none or one of the scope of the instance.
pub open spec fn scan_link(
    ctx: CtxV,
    text: Seq<char>,
    definition: Option<(Seq<char>, Seq<Seq<char>>)>,
    loop_alias: Option<Seq<char>>,
    line_number: usize,
) -> Scan {
    if !is_link(text) || is_local(ctx, strip_marker(text), definition, loop_alias) {
        unchanged(ctx)
    } else {
        scan_name(ctx, strip_marker(text), line_number)
    }
}

/// The scan of a written text: of a call the function and the values of
/// its arguments, of anything else the name that it gives.
pub open spec fn scan_text(
    ctx: CtxV,
    text: Seq<char>,
    definition: Option<(Seq<char>, Seq<Seq<char>>)>,
    loop_alias: Option<Seq<char>>,
    line_number: usize,
) -> Scan {
    if is_call(text) {
        let s = scan_name(ctx, function_name(strip_marker(text))->0, line_number);
        match s.result {
            Ok(_) => scan_arguments(
                s.ctx,
                written_arguments(strip_marker(text)),
                0,
                definition,
                loop_alias,
                line_number,
            ),
            Err(_) => s,
        }
    } else {
        scan_link(ctx, text, definition, loop_alias, line_number)
    }
}

/// The scan of a written value.
pub open spec fn scan_value(
    ctx: CtxV,
    value: ast::VariableValueV,
    definition: Option<(Seq<char>, Seq<Seq<char>>)>,
    loop_alias: Option<Seq<char>>,
) -> Scan
    decreases value, 0int,
{
    match value {
        ast::VariableValueV::Null { .. } => unchanged(ctx),
        ast::VariableValueV::String { value: text, line_number } => scan_text(
            ctx,
            text,
            definition,
            loop_alias,
            line_number,
        ),
        ast::VariableValueV::List { items, .. } => scan_items(
            ctx,
            items,
            0,
            definition,
            loop_alias,
        ),
        ast::VariableValueV::Record { name, fields, line_number } => {
            let s = scan_name(ctx, name, line_number);
            match s.result {
                Ok(_) => scan_named_values(s.ctx, fields, 0, definition, loop_alias),
                Err(_) => s,
            }
        },
    }
}

/// The scan of the items of a written list from position `from` on.
pub open spec fn scan_items(
    ctx: CtxV,
    items: Seq<ast::VariableValueV>,
    from: int,
    definition: Option<(Seq<char>, Seq<Seq<char>>)>,
    loop_alias: Option<Seq<char>>,
) -> Scan
    decreases items, items.len() - from,
{
    if from < 0 || from >= items.len() {
        unchanged(ctx)
    } else {
        let s = scan_value(ctx, items[from], definition, loop_alias);
        match s.result {
            Ok(_) => scan_items(s.ctx, items, from + 1, definition, loop_alias),
            Err(_) => s,
        }
    }
}

/// The scan of the fields of a written record from position `from` on.
pub open spec fn scan_named_values(
    ctx: CtxV,
    fields: Seq<(Seq<char>, ast::VariableValueV)>,
    from: int,
    definition: Option<(Seq<char>, Seq<Seq<char>>)>,
    loop_alias: Option<Seq<char>>,
) -> Scan
    decreases fields, fields.len() - from,
{
    if from < 0 || from >= fields.len() {
        unchanged(ctx)
    } else {
        let s = scan_value(ctx, fields[from].1, definition, loop_alias);
        match s.result {
            Ok(_) => scan_named_values(s.ctx, fields, from + 1, definition, loop_alias),
            Err(_) => s,
        }
    }
}

/// The scan of the operands of a conjunction from position `from` on.
pub open spec fn scan_operands(
    ctx: CtxV,
    parts: Seq<Seq<char>>,
    from: int,
    definition: Option<(Seq<char>, Seq<Seq<char>>)>,
    loop_alias: Option<Seq<char>>,
    line_number: usize,
) -> Scan
    decreases parts.len() - from,
{
    if from < 0 || from >= parts.len() {
        unchanged(ctx)
    } else {
        let s = scan_link(ctx, operand_text(parts[from]), definition, loop_alias, line_number);
        match s.result {
            Ok(_) => scan_operands(s.ctx, parts, from + 1, definition, loop_alias, line_number),
            Err(_) => s,
        }
    }
}

/// The scan of the conjunctions of a condition from position `from` on.
pub open spec fn scan_conjunctions(
    ctx: CtxV,
    parts: Seq<Seq<char>>,
    from: int,
    definition: Option<(Seq<char>, Seq<Seq<char>>)>,
    loop_alias: Option<Seq<char>>,
    line_number: usize,
) -> Scan
    decreases parts.len() - from,
{
    if from < 0 || from >= parts.len() {
        unchanged(ctx)
    } else {
        let s = scan_operands(
            ctx,
            split_from(parts[from], seq!['&', '&'], 0),
            0,
            definition,
            loop_alias,
            line_number,
        );
        match s.result {
            Ok(_) => scan_conjunctions(s.ctx, parts, from + 1, definition, loop_alias, line_number),
            Err(_) => s,
        }
    }
}

/// The scan of a written condition: of each of its operands.
pub open spec fn scan_condition(
    ctx: CtxV,
    text: Seq<char>,
    definition: Option<(Seq<char>, Seq<Seq<char>>)>,
    loop_alias: Option<Seq<char>>,
    line_number: usize,
) -> Scan {
    scan_conjunctions(
        ctx,
        split_from(text, seq!['|', '|'], 0),
        0,
        definition,
        loop_alias,
        line_number,
    )
}

/// The scan of a written property: of its value, then of its condition.
pub open spec fn scan_property(
    ctx: CtxV,
    p: ast::PropertyV,
    definition: Option<(Seq<char>, Seq<Seq<char>>)>,
    loop_alias: Option<Seq<char>>,
) -> Scan {
    let s = scan_value(ctx, p.value, definition, loop_alias);
    match s.result {
        Ok(_) => match p.condition {
            Some(text) => scan_condition(s.ctx, text, definition, loop_alias, p.line_number),
            None => s,
        },
        Err(_) => s,
    }
}

/// The scan of the written properties from position `from` on.
pub open spec fn scan_properties(
    ctx: CtxV,
    properties: Seq<ast::PropertyV>,
    from: int,
    definition: Option<(Seq<char>, Seq<Seq<char>>)>,
    loop_alias: Option<Seq<char>>,
) -> Scan
    decreases properties.len() - from,
{
    if from < 0 || from >= properties.len() {
        unchanged(ctx)
    } else {
        let s = scan_property(ctx, properties[from], definition, loop_alias);
        match s.result {
            Ok(_) => scan_properties(s.ctx, properties, from + 1, definition, loop_alias),
            Err(_) => s,
        }
    }
}

/// The scan of the written events from position `from` on: of the action
/// of each.
pub open spec fn scan_events(
    ctx: CtxV,
    events: Seq<ast::EventV>,
    from: int,
    definition: Option<(Seq<char>, Seq<Seq<char>>)>,
    loop_alias: Option<Seq<char>>,
) -> Scan
    decreases events.len() - from,
{
    if from < 0 || from >= events.len() {
        unchanged(ctx)
    } else {
        let s = scan_text(
            ctx,
            events[from].action,
            definition,
            loop_alias,
            events[from].line_number,
        );
        match s.result {
            Ok(_) => scan_events(s.ctx, events, from + 1, definition, loop_alias),
            Err(_) => s,
        }
    }
}

/// The name under which the items of the loop of an instance are visible.
pub open spec fn alias_of_loop(ctx: CtxV, iteration: Option<ast::LoopV>) -> Option<Seq<char>> {
    match iteration {
        Some(l) => Some(resolved_name(l.alias, ctx.doc.name, ctx.doc.aliases)),
        None => None,
    }
}

/// The scan of a written instance: of its children, of the component that
/// it is an instance of unless that is the one being defined, of its loop,
/// its condition, its events and its properties, in that order.
pub open spec fn scan_component(
    ctx: CtxV,
    c: ast::ComponentV,
    definition: Option<(Seq<char>, Seq<Seq<char>>)>,
) -> Scan
    decreases c, 1int,
{
    let s = scan_children(ctx, c.children, 0, definition);
    match s.result {
        Ok(_) => scan_own(s.ctx, c, definition),
        Err(_) => s,
    }
}

/// The scan of the written instances from position `from` on.
pub open spec fn scan_children(
    ctx: CtxV,
    children: Seq<ast::ComponentV>,
    from: int,
    definition: Option<(Seq<char>, Seq<Seq<char>>)>,
) -> Scan
    decreases children, children.len() - from,
{
    if from < 0 || from >= children.len() {
        unchanged(ctx)
    } else {
        let s = scan_component(ctx, children[from], definition);
        match s.result {
            Ok(_) => scan_children(s.ctx, children, from + 1, definition),
            Err(_) => s,
        }
    }
}

/// Whether the component `name` is the one being defined.
pub open spec fn is_defined_here(name: Seq<char>, definition: Option<(Seq<char>, Seq<Seq<char>>)>)
    -> bool {
    match definition {
        Some((d, _)) => d == name,
        None => false,
    }
}

/// The scan of what an instance itself names, apart from its children.
pub open spec fn scan_own(
    ctx: CtxV,
    c: ast::ComponentV,
    definition: Option<(Seq<char>, Seq<Seq<char>>)>,
) -> Scan {
    let named = if is_defined_here(c.name, definition) {
        unchanged(ctx)
    } else {
        scan_name(ctx, c.name, c.line_number)
    };
    match named.result {
        Err(_) => named,
        Ok(_) => {
            let alias = alias_of_loop(ctx, c.iteration);
            let looped = match c.iteration {
                Some(l) => scan_text(named.ctx, l.on, definition, None, l.line_number),
                None => named,
            };
            match looped.result {
                Err(_) => looped,
                Ok(_) => {
                    let conditioned = match c.condition {
                        Some(cond) => scan_condition(
                            looped.ctx,
                            cond.expression,
                            definition,
                            alias,
                            cond.line_number,
                        ),
                        None => looped,
                    };
                    match conditioned.result {
                        Err(_) => conditioned,
                        Ok(_) => {
                            let evented = scan_events(
                                conditioned.ctx,
                                c.events,
                                0,
                                definition,
                                alias,
                            );
                            match evented.result {
                                Err(_) => evented,
                                Ok(_) => scan_properties(
                                    evented.ctx,
                                    c.properties,
                                    0,
                                    definition,
                                    alias,
                                ),
                            }
                        },
                    }
                },
            }
        },
    }
}

/// The scan of a written field: of the name of its kind, unless that is
/// built in, and of its default value.
pub open spec fn scan_field(ctx: CtxV, field: ast::FieldV) -> Scan {
    let kinded = if builtin_kind(field.kind.kind).is_some() {
        unchanged(ctx)
    } else {
        scan_name(ctx, field.kind.kind, field.line_number)
    };
    match kinded.result {
        Err(_) => kinded,
        Ok(_) => match field.value {
            Some(v) => scan_value(kinded.ctx, v, None, None),
            None => kinded,
        },
    }
}

/// The scan of the written fields from position `from` on.
pub open spec fn scan_fields(ctx: CtxV, fields: Seq<ast::FieldV>, from: int) -> Scan
    decreases fields.len() - from,
{
    if from < 0 || from >= fields.len() {
        unchanged(ctx)
    } else {
        let s = scan_field(ctx, fields[from]);
        match s.result {
            Ok(_) => scan_fields(s.ctx, fields, from + 1),
            Err(_) => s,
        }
    }
}

/// The names of written fields.
pub open spec fn written_names(fields: Seq<ast::FieldV>) -> Seq<Seq<char>> {
    Seq::new(fields.len(), |i: int| fields[i].name)
}

/// The scan of a written component definition: of its body, with its
/// arguments in scope, then of its arguments.
pub open spec fn scan_component_definition(ctx: CtxV, d: ast::ComponentDefinitionV) -> Scan {
    let s = scan_component(ctx, d.definition, Some((d.name, written_names(d.arguments))));
    match s.result {
        Ok(_) => scan_fields(s.ctx, d.arguments, 0),
        Err(_) => s,
    }
}

/// The specification-level form of the scope of a scan.
pub open spec fn scope_view(d: Option<(&str, &Vec<String>)>) -> Option<(Seq<char>, Seq<Seq<char>>)> {
    match d {
        Some((name, arguments)) => Some((name@, texts(arguments@))),
        None => None,
    }
}

/// The specification-level form of the outcome of a scan.
pub open spec fn scan_result(r: Result<(), Error>) -> Result<(), ErrorV> {
    match r {
        Ok(_) => Ok(()),
        Err(e) => Err(e@),
    }
}

impl<'a> TDoc<'a> {
    /// The scan of one name.
    pub fn scan_name_of(&mut self, name: &str, line_number: usize) -> (r: Result<(), Error>)
        ensures
            final(self).name == old(self).name,
            final(self).aliases == old(self).aliases,
            final(self).ctx() == scan_name(old(self).ctx(), name@, line_number).ctx,
            scan_result(r) == scan_name(old(self).ctx(), name@, line_number).result,
    {
        self.scan_thing(name, line_number)
    }

    fn local(
        &self,
        name: &str,
        definition: Option<(&str, &Vec<String>)>,
        loop_alias: &Option<String>,
    ) -> (r: bool)
        ensures
            r == is_local(self.ctx(), name@, scope_view(definition), crate::kind::opt_text(*loop_alias)),
    {
        proof {
            reveal_strlit(".");
            reveal_strlit("#");
            assert("."@ =~= one('.'));
            assert("#"@ =~= one('#'));
        }
        let in_definition = match definition {
            Some((component, arguments)) => {
                let short = concat2(component, ".");
                let referenced = match str_strip_prefix(name, short.as_str()) {
                    Some(rest) => Some(rest),
                    None => {
                        let long = concat3(self.name, "#", short.as_str());
                        assert(long@ =~= self.name@ + one('#') + component@ + one('.'));
                        str_strip_prefix(name, long.as_str())
                    },
                };
                match referenced {
                    Some(r) => {
                        let (first, _) = split_at(r.as_str(), ".");
                        texts_contain(arguments, first.as_str())
                    },
                    None => false,
                }
            },
            None => false,
        };
        if in_definition {
            return true;
        }
        match loop_alias {
            Some(alias) => {
                let full = self.resolve_name(name);
                let dotted = concat2(alias.as_str(), ".");
                str_starts_with(full.as_str(), dotted.as_str()) || str_eq(
                    full.as_str(),
                    alias.as_str(),
                )
            },
            None => false,
        }
    }

    /// The scan of a text that is no call.
    pub fn scan_link_of(
        &mut self,
        text: &str,
        definition: Option<(&str, &Vec<String>)>,
        loop_alias: &Option<String>,
        line_number: usize,
    ) -> (r: Result<(), Error>)
        ensures
            final(self).name == old(self).name,
            final(self).aliases == old(self).aliases,
            final(self).ctx() == scan_link(
                old(self).ctx(),
                text@,
                scope_view(definition),
                crate::kind::opt_text(*loop_alias),
                line_number,
            ).ctx,
            scan_result(r) == scan_link(
                old(self).ctx(),
                text@,
                scope_view(definition),
                crate::kind::opt_text(*loop_alias),
                line_number,
            ).result,
    {
        if !names_variable(text) {
            return Ok(());
        }
        let bare = without_marker(text);
        if self.local(bare.as_str(), definition, loop_alias) {
            return Ok(());
        }
        self.scan_name_of(bare.as_str(), line_number)
    }

    fn scan_arguments_of(
        &mut self,
        parts: &Vec<String>,
        definition: Option<(&str, &Vec<String>)>,
        loop_alias: &Option<String>,
        line_number: usize,
    ) -> (r: Result<(), Error>)
        ensures
            final(self).name == old(self).name,
            final(self).aliases == old(self).aliases,
            final(self).ctx() == scan_arguments(
                old(self).ctx(),
                texts(parts@),
                0,
                scope_view(definition),
                crate::kind::opt_text(*loop_alias),
                line_number,
            ).ctx,
            scan_result(r) == scan_arguments(
                old(self).ctx(),
                texts(parts@),
                0,
                scope_view(definition),
                crate::kind::opt_text(*loop_alias),
                line_number,
            ).result,
    {
        proof {
            reveal_strlit("=");
            assert("="@ =~= seq!['=']);
        }
        let mut k: usize = 0;
        while k < parts.len()
            invariant
                k <= parts.len(),
                self.name == old(self).name,
                self.aliases == old(self).aliases,
                "="@ == seq!['='],
                scan_arguments(
                    old(self).ctx(),
                    texts(parts@),
                    0,
                    scope_view(definition),
                    crate::kind::opt_text(*loop_alias),
                    line_number,
                ) == scan_arguments(
                    self.ctx(),
                    texts(parts@),
                    k as int,
                    scope_view(definition),
                    crate::kind::opt_text(*loop_alias),
                    line_number,
                ),
            decreases parts.len() - k,
        {
            assert(texts(parts@)[k as int] == parts[k as int]@);
            match str_split_once(parts[k].as_str(), "=") {
                Some((_, v)) => {
                    let value = str_trim(v.as_str());
                    match self.scan_link_of(value.as_str(), definition, loop_alias, line_number) {
                        Err(e) => {
                            return Err(e);
                        },
                        Ok(_) => {},
                    }
                },
                None => {},
            }
            k += 1;
        }
        Ok(())
    }
}

impl crate::value::PropertyValue {
    /// The scan of a written text.
    pub fn scan_string_with_argument(
        text: &str,
        doc: &mut TDoc,
        line_number: usize,
        definition_name_with_arguments: Option<(&str, &Vec<String>)>,
        loop_object_name_and_kind: &Option<String>,
    ) -> (r: Result<(), Error>)
        ensures
            final(doc).name == old(doc).name,
            final(doc).aliases == old(doc).aliases,
            final(doc).ctx() == scan_text(
                old(doc).ctx(),
                text@,
                scope_view(definition_name_with_arguments),
                crate::kind::opt_text(*loop_object_name_and_kind),
                line_number,
            ).ctx,
            scan_result(r) == scan_text(
                old(doc).ctx(),
                text@,
                scope_view(definition_name_with_arguments),
                crate::kind::opt_text(*loop_object_name_and_kind),
                line_number,
            ).result,
    {
        if names_variable(text) {
            let bare = without_marker(text);
            match get_function_name(bare.as_str()) {
                Some(name) => {
                    match doc.scan_name_of(name.as_str(), line_number) {
                        Err(e) => {
                            return Err(e);
                        },
                        Ok(_) => {},
                    }
                    let parts = crate::calls::written_arguments_of(bare.as_str());
                    return doc.scan_arguments_of(
                        &parts,
                        definition_name_with_arguments,
                        loop_object_name_and_kind,
                        line_number,
                    );
                },
                None => {},
            }
        }
        doc.scan_link_of(
            text,
            definition_name_with_arguments,
            loop_object_name_and_kind,
            line_number,
        )
    }

    /// The scan of a written value.
    pub fn scan_ast_value_with_argument(
        value: &ast::VariableValue,
        doc: &mut TDoc,
        definition_name_with_arguments: Option<(&str, &Vec<String>)>,
        loop_object_name_and_kind: &Option<String>,
    ) -> (r: Result<(), Error>)
        ensures
            final(doc).name == old(doc).name,
            final(doc).aliases == old(doc).aliases,
            final(doc).ctx() == scan_value(
                old(doc).ctx(),
                value@,
                scope_view(definition_name_with_arguments),
                crate::kind::opt_text(*loop_object_name_and_kind),
            ).ctx,
            scan_result(r) == scan_value(
                old(doc).ctx(),
                value@,
                scope_view(definition_name_with_arguments),
                crate::kind::opt_text(*loop_object_name_and_kind),
            ).result,
        decreases value, 0int,
    {
        match value {
            ast::VariableValue::Null { .. } => Ok(()),
            ast::VariableValue::String { value: text, line_number } => {
                crate::value::PropertyValue::scan_string_with_argument(
                    text.as_str(),
                    doc,
                    *line_number,
                    definition_name_with_arguments,
                    loop_object_name_and_kind,
                )
            },
            ast::VariableValue::List { items, .. } => scan_items_of(
                doc,
                items,
                definition_name_with_arguments,
                loop_object_name_and_kind,
            ),
            ast::VariableValue::Record { name, fields, line_number } => {
                match doc.scan_name_of(name.as_str(), *line_number) {
                    Err(e) => {
                        return Err(e);
                    },
                    Ok(_) => {},
                }
                scan_named_values_of(
                    doc,
                    fields,
                    definition_name_with_arguments,
                    loop_object_name_and_kind,
                )
            },
        }
    }
}

fn scan_items_of(
    doc: &mut TDoc,
    items: &Vec<ast::VariableValue>,
    definition: Option<(&str, &Vec<String>)>,
    loop_alias: &Option<String>,
) -> (r: Result<(), Error>)
    ensures
        final(doc).name == old(doc).name,
        final(doc).aliases == old(doc).aliases,
        final(doc).ctx() == scan_items(
            old(doc).ctx(),
            ast::values_model(*items),
            0,
            scope_view(definition),
            crate::kind::opt_text(*loop_alias),
        ).ctx,
        scan_result(r) == scan_items(
            old(doc).ctx(),
            ast::values_model(*items),
            0,
            scope_view(definition),
            crate::kind::opt_text(*loop_alias),
        ).result,
    decreases items, items.len(),
{
    let mut k: usize = 0;
    while k < items.len()
        invariant
            k <= items.len(),
            doc.name == old(doc).name,
            doc.aliases == old(doc).aliases,
            scan_items(
                old(doc).ctx(),
                ast::values_model(*items),
                0,
                scope_view(definition),
                crate::kind::opt_text(*loop_alias),
            ) == scan_items(
                doc.ctx(),
                ast::values_model(*items),
                k as int,
                scope_view(definition),
                crate::kind::opt_text(*loop_alias),
            ),
        decreases items.len() - k,
    {
        assert(decreases_to!(items => items[k as int]));
        assert(ast::values_model(*items)[k as int] == items[k as int]@);
        match crate::value::PropertyValue::scan_ast_value_with_argument(
            &items[k],
            doc,
            definition,
            loop_alias,
        ) {
            Err(e) => {
                return Err(e);
            },
            Ok(_) => {},
        }
        k += 1;
    }
    Ok(())
}

fn scan_named_values_of(
    doc: &mut TDoc,
    fields: &Vec<(String, ast::VariableValue)>,
    definition: Option<(&str, &Vec<String>)>,
    loop_alias: &Option<String>,
) -> (r: Result<(), Error>)
    ensures
        final(doc).name == old(doc).name,
        final(doc).aliases == old(doc).aliases,
        final(doc).ctx() == scan_named_values(
            old(doc).ctx(),
            ast::named_values_model(*fields),
            0,
            scope_view(definition),
            crate::kind::opt_text(*loop_alias),
        ).ctx,
        scan_result(r) == scan_named_values(
            old(doc).ctx(),
            ast::named_values_model(*fields),
            0,
            scope_view(definition),
            crate::kind::opt_text(*loop_alias),
        ).result,
    decreases fields, fields.len(),
{
    let mut k: usize = 0;
    while k < fields.len()
        invariant
            k <= fields.len(),
            doc.name == old(doc).name,
            doc.aliases == old(doc).aliases,
            scan_named_values(
                old(doc).ctx(),
                ast::named_values_model(*fields),
                0,
                scope_view(definition),
                crate::kind::opt_text(*loop_alias),
            ) == scan_named_values(
                doc.ctx(),
                ast::named_values_model(*fields),
                k as int,
                scope_view(definition),
                crate::kind::opt_text(*loop_alias),
            ),
        decreases fields.len() - k,
    {
        assert(decreases_to!(fields => fields[k as int]));
        assert(ast::named_values_model(*fields)[k as int].1 == fields[k as int].1@);
        match crate::value::PropertyValue::scan_ast_value_with_argument(
            &fields[k].1,
            doc,
            definition,
            loop_alias,
        ) {
            Err(e) => {
                return Err(e);
            },
            Ok(_) => {},
        }
        k += 1;
    }
    Ok(())
}

} // verus!
