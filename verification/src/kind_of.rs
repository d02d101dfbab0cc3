//! The kind that a dotted name stands for: that of an argument of the
//! component being defined, of the object of a loop, or of a definition of
//! the session, entered field by field.

use vstd::prelude::*;
use crate::error::{error, fail, Error, ErrorKind, ErrorV};
use crate::found::{
    failed, first_step, found_thing, passed, sorted, tri, CtxV, Found,
};
use crate::kind::{opt_text, Kind, KindData, KindDataV, KindV};
use crate::names::{
    doc_name_and_remaining, get_doc_name_and_remaining, one, resolved_name, split_at,
    split_at_spec, strip_marker, without_marker,
};
use crate::search::Tri;
use crate::semantics::{as_record, too_deep, DocV, RESOLVE_LIMIT};
use crate::state::StateWithThing;
use crate::tdoc::TDoc;
use crate::text::{concat2, concat3, has_prefix, str_eq, str_starts_with, str_strip_prefix, strip_prefix};
use crate::thing::{field_position, find_field, views, Argument, FieldV, Thing, ThingV};
use crate::value::{PropertyValueSource, PropertyValueSourceV};

verus! {

/// The kind of a value that may come from the caption or the body.
pub open spec fn caption_or_body(kind: KindV) -> KindDataV {
    KindDataV { kind, caption: true, body: true }
}

/// The kind that a definition gives to its name: a record type and an
/// or-type stand for themselves, a component for a UI of its name, a
/// variable for its declared kind. A function gives none.
pub open spec fn kind_of_thing(thing: ThingV, doc_id: Seq<char>, line_number: usize) -> Result<
    KindDataV,
    ErrorV,
> {
    match thing {
        ThingV::Record(r) => Ok(caption_or_body(KindV::Record { name: r.name })),
        ThingV::OrType(o) => Ok(caption_or_body(KindV::OrType { name: o.name, variant: None })),
        ThingV::OrTypeWithVariant { or_type, variant } => Ok(
            caption_or_body(KindV::OrType { name: or_type, variant: Some(variant.name) }),
        ),
        ThingV::Variable(v) => Ok(v.kind),
        ThingV::Component(c) => Ok(caption_or_body(KindV::UI { name: Some(c.name) })),
        ThingV::Function(_) => Err(
            error(ErrorKind::UnexpectedKind, "Expected a type or a variable"@, doc_id, line_number),
        ),
    }
}

/// The part of `name` after `component.` or after `doc#component.`.
pub open spec fn referenced_argument(name: Seq<char>, doc_name: Seq<char>, component: Seq<char>)
    -> Option<Seq<char>> {
    match strip_prefix(name, component + one('.')) {
        Some(rest) => Some(rest),
        None => strip_prefix(name, doc_name + one('#') + component + one('.')),
    }
}

/// The argument of the component being defined that `name` refers to, with
/// the rest of the name; an error where the name refers to the component
/// but to none of its arguments.
pub open spec fn local_argument(
    doc: DocV,
    name: Seq<char>,
    definition: Option<(Seq<char>, Seq<FieldV>)>,
    line_number: usize,
) -> Result<Option<(FieldV, Option<Seq<char>>, PropertyValueSourceV)>, ErrorV> {
    match definition {
        Some((component, arguments)) => match referenced_argument(name, doc.name, component) {
            Some(r) => {
                let (first, rest) = split_at_spec(r, one('.'));
                let i = find_field(arguments, first, 0);
                if i < 0 {
                    Err(error(ErrorKind::ArgumentNotFound, first, doc.name, line_number))
                } else {
                    Ok(Some((arguments[i], rest, PropertyValueSourceV::Local(component))))
                }
            },
            None => Ok(None),
        },
        None => Ok(None),
    }
}

/// The object of the enclosing loop, if `name` is its alias or a part of it.
pub open spec fn loop_argument(doc: DocV, name: Seq<char>, loop_object: Option<(Seq<char>, FieldV)>)
    -> Option<(FieldV, Option<Seq<char>>, PropertyValueSourceV)> {
    match loop_object {
        Some((alias, argument)) => {
            let full = resolved_name(name, doc.name, doc.aliases);
            if has_prefix(full, alias + one('.')) || full == alias {
                Some((argument, doc_name_and_remaining(name).1, PropertyValueSourceV::Loop(alias)))
            } else {
                None
            }
        },
        None => None,
    }
}

/// The argument that `name` refers to in its scopes: first that of the
/// component being defined, then that of the enclosing loop.
pub open spec fn argument_for_reference(
    doc: DocV,
    name: Seq<char>,
    definition: Option<(Seq<char>, Seq<FieldV>)>,
    loop_object: Option<(Seq<char>, FieldV)>,
    line_number: usize,
) -> Result<Option<(FieldV, Option<Seq<char>>, PropertyValueSourceV)>, ErrorV> {
    match local_argument(doc, name, definition, line_number) {
        Err(e) => Err(e),
        Ok(Some(found)) => Ok(Some(found)),
        Ok(None) => Ok(loop_argument(doc, name, loop_object)),
    }
}

/// The kind that the dotted `path` leads to inside the kind `kind`: a field
/// of a record type, the items of a list; an optional is looked through and
/// makes what is found optional.
pub open spec fn kind_at(ctx: CtxV, kind: KindV, path: Seq<char>, line_number: usize, fuel: nat)
    -> Found<KindDataV>
    decreases fuel, 1nat,
{
    if fuel == 0 {
        failed(ctx, too_deep(ctx.doc, line_number))
    } else {
        let (first, remaining) = split_at_spec(path, one('.'));
        match kind {
            KindV::Record { name } => {
                let f = sorted(
                    found_thing(ctx, name, line_number, RESOLVE_LIMIT as nat),
                    |t: ThingV, d: Seq<char>, l: usize| as_record(t, d, l),
                    line_number,
                );
                match f.result {
                    Ok(Tri::Thing(record)) => {
                        let i = find_field(record.fields, first, 0);
                        if i < 0 {
                            failed(
                                f.ctx,
                                error(
                                    ErrorKind::FieldNotFound,
                                    first,
                                    ctx.doc.name,
                                    line_number,
                                ),
                            )
                        } else {
                            match remaining {
                                Some(rest) => kind_at(
                                    f.ctx,
                                    record.fields[i].kind.kind,
                                    rest,
                                    line_number,
                                    (fuel - 1) as nat,
                                ),
                                None => Found {
                                    ctx: f.ctx,
                                    result: Ok(Tri::Thing(record.fields[i].kind)),
                                },
                            }
                        }
                    },
                    _ => passed(f),
                }
            },
            KindV::List { kind: item } => match remaining {
                Some(rest) => kind_at(ctx, *item, rest, line_number, (fuel - 1) as nat),
                None => Found {
                    ctx,
                    result: Ok(Tri::Thing(KindDataV { kind: *item, caption: false, body: false })),
                },
            },
            KindV::Optional { kind: inner } => optional_of(
                kind_at(ctx, *inner, path, line_number, (fuel - 1) as nat),
            ),
            _ => failed(
                ctx,
                error(ErrorKind::TypeMismatch, "Expected Record field"@, ctx.doc.name, line_number),
            ),
        }
    }
}

/// The outcome with the kind that was found made optional.
pub open spec fn optional_of(f: Found<KindDataV>) -> Found<KindDataV> {
    match f.result {
        Ok(Tri::Thing(t)) => Found {
            ctx: f.ctx,
            result: Ok(
                Tri::Thing(KindDataV { kind: KindV::Optional { kind: Box::new(t.kind) }, ..t }),
            ),
        },
        _ => f,
    }
}

/// The outcome with the scope `source` beside the kind that was found.
pub open spec fn with_source(f: Found<KindDataV>, source: PropertyValueSourceV) -> Found<
    (PropertyValueSourceV, KindDataV),
> {
    match f.result {
        Ok(Tri::Thing(t)) => Found { ctx: f.ctx, result: Ok(Tri::Thing((source, t))) },
        _ => passed(f),
    }
}

/// The kind of what remains of a name once its first part has given the
/// kind `initial`.
pub open spec fn kind_of_rest(
    ctx: CtxV,
    source: PropertyValueSourceV,
    initial: KindDataV,
    remaining: Option<Seq<char>>,
    line_number: usize,
) -> Found<(PropertyValueSourceV, KindDataV)> {
    match remaining {
        Some(rest) => with_source(
            kind_at(ctx, initial.kind, rest, line_number, RESOLVE_LIMIT as nat),
            source,
        ),
        None => Found { ctx, result: Ok(Tri::Thing((source, initial))) },
    }
}

/// The kind of a name that is no argument: that of the definition that its
/// first part stands for, entered by the rest.
pub open spec fn kind_of_global(ctx: CtxV, name: Seq<char>, line_number: usize) -> Found<
    (PropertyValueSourceV, KindDataV),
> {
    let f = first_step(ctx, name, line_number);
    match f.result {
        Ok(Tri::Thing((thing, remaining))) => match kind_of_thing(
            thing,
            ctx.doc.name,
            line_number,
        ) {
            Err(e) => failed(f.ctx, e),
            Ok(initial) => kind_of_rest(
                f.ctx,
                PropertyValueSourceV::Global,
                initial,
                remaining,
                line_number,
            ),
        },
        _ => passed(f),
    }
}

/// The kind that `name` stands for, and the scope in which it was found:
/// the arguments of the component being defined come first, then the
/// object of the enclosing loop, then the definitions of the session.
pub open spec fn kind_with_argument(
    ctx: CtxV,
    name: Seq<char>,
    line_number: usize,
    definition: Option<(Seq<char>, Seq<FieldV>)>,
    loop_object: Option<(Seq<char>, FieldV)>,
) -> Found<(PropertyValueSourceV, KindDataV)> {
    let bare = strip_marker(name);
    match argument_for_reference(ctx.doc, bare, definition, loop_object, line_number) {
        Err(e) => failed(ctx, e),
        Ok(Some((argument, remaining, source))) => kind_of_rest(
            ctx,
            source,
            argument.kind,
            remaining,
            line_number,
        ),
        Ok(None) => kind_of_global(ctx, bare, line_number),
    }
}

/// The specification-level form of the component being defined.
pub open spec fn definition_view(d: Option<(&str, &Vec<Argument>)>) -> Option<
    (Seq<char>, Seq<FieldV>),
> {
    match d {
        Some((name, arguments)) => Some((name@, views(arguments@))),
        None => None,
    }
}

/// The specification-level form of the object of the enclosing loop.
pub open spec fn loop_view(l: Option<(String, Argument)>) -> Option<(Seq<char>, FieldV)> {
    match l {
        Some((alias, argument)) => Some((alias@, argument@)),
        None => None,
    }
}

/// The specification-level form of an argument found for a name.
pub open spec fn argument_view(
    r: Result<Option<(Argument, Option<String>, PropertyValueSource)>, Error>,
) -> Result<Option<(FieldV, Option<Seq<char>>, PropertyValueSourceV)>, ErrorV> {
    match r {
        Ok(Some((a, rest, source))) => Ok(Some((a@, opt_text(rest), source@))),
        Ok(None) => Ok(None),
        Err(e) => Err(e@),
    }
}

/// The specification-level form of a kind found with its scope.
pub open spec fn tri_kind(r: Result<StateWithThing<(PropertyValueSource, KindData)>, Error>)
    -> Result<Tri<(PropertyValueSourceV, KindDataV)>, ErrorV> {
    match r {
        Ok(StateWithThing::Thing((source, kind))) => Ok(Tri::Thing((source@, kind@))),
        Ok(StateWithThing::State(s)) => Ok(Tri::State(s@)),
        Ok(StateWithThing::Continue) => Ok(Tri::Continue),
        Err(e) => Err(e@),
    }
}

/// The kind that a definition gives to its name.
pub fn thing_kind(thing: &Thing, doc_id: &str, line_number: usize) -> (r: Result<KindData, Error>)
    ensures
        crate::tdoc::lifted(r) == kind_of_thing(thing@, doc_id@, line_number),
{
    match thing {
        Thing::Record(r) => Ok(Kind::record(r.name.as_str()).into_kind_data().caption_or_body()),
        Thing::OrType(o) => Ok(Kind::or_type(o.name.as_str()).into_kind_data().caption_or_body()),
        Thing::OrTypeWithVariant { or_type, variant } => Ok(
            Kind::or_type_with_variant(
                or_type.as_str(),
                variant.name.as_str(),
            ).into_kind_data().caption_or_body(),
        ),
        Thing::Variable(v) => Ok(v.kind.clone()),
        Thing::Component(c) => Ok(
            Kind::ui_with_name(c.name.as_str()).into_kind_data().caption_or_body(),
        ),
        Thing::Function(_) => fail(
            ErrorKind::UnexpectedKind,
            "Expected a type or a variable",
            doc_id,
            line_number,
        ),
    }
}

fn referenced_argument_of(name: &str, doc_name: &str, component: &str) -> (r: Option<String>)
    ensures
        opt_text(r) == referenced_argument(name@, doc_name@, component@),
{
    proof {
        reveal_strlit(".");
        reveal_strlit("#");
        assert("."@ =~= one('.'));
        assert("#"@ =~= one('#'));
    }
    let short = concat2(component, ".");
    match str_strip_prefix(name, short.as_str()) {
        Some(rest) => Some(rest),
        None => {
            let long = concat3(doc_name, "#", short.as_str());
            assert(long@ =~= doc_name@ + one('#') + component@ + one('.'));
            str_strip_prefix(name, long.as_str())
        },
    }
}

fn local_argument_of(
    doc: &TDoc,
    name: &str,
    definition: Option<(&str, &Vec<Argument>)>,
    line_number: usize,
) -> (r: Result<Option<(Argument, Option<String>, PropertyValueSource)>, Error>)
    ensures
        argument_view(r) == local_argument(doc@, name@, definition_view(definition), line_number),
{
    proof {
        reveal_strlit(".");
        assert("."@ =~= one('.'));
    }
    let (component, arguments) = match definition {
        Some(d) => d,
        None => {
            return Ok(None);
        },
    };
    let referenced = match referenced_argument_of(name, doc.name, component) {
        Some(r) => r,
        None => {
            return Ok(None);
        },
    };
    let (first, rest) = split_at(referenced.as_str(), ".");
    match field_position(arguments, first.as_str()) {
        None => fail(ErrorKind::ArgumentNotFound, first.as_str(), doc.name, line_number),
        Some(i) => Ok(
            Some((arguments[i].clone(), rest, PropertyValueSource::Local(component.to_owned()))),
        ),
    }
}

fn loop_argument_of(doc: &TDoc, name: &str, loop_object: &Option<(String, Argument)>) -> (r: Option<
    (Argument, Option<String>, PropertyValueSource),
>)
    ensures
        argument_view(Ok(r)) == Ok::<
            Option<(FieldV, Option<Seq<char>>, PropertyValueSourceV)>,
            ErrorV,
        >(loop_argument(doc@, name@, loop_view(*loop_object))),
{
    proof {
        reveal_strlit(".");
        assert("."@ =~= one('.'));
    }
    match loop_object {
        Some((alias, argument)) => {
            let full = doc.resolve_name(name);
            let dotted = concat2(alias.as_str(), ".");
            if str_starts_with(full.as_str(), dotted.as_str()) || str_eq(
                full.as_str(),
                alias.as_str(),
            ) {
                Some(
                    (
                        argument.clone(),
                        get_doc_name_and_remaining(name).1,
                        PropertyValueSource::Loop(alias.clone()),
                    ),
                )
            } else {
                None
            }
        },
        None => None,
    }
}

/// The argument that `name` refers to in its scopes.
pub fn get_argument_for_reference_and_remaining(
    name: &str,
    doc: &TDoc,
    definition: Option<(&str, &Vec<Argument>)>,
    loop_object: &Option<(String, Argument)>,
    line_number: usize,
) -> (r: Result<Option<(Argument, Option<String>, PropertyValueSource)>, Error>)
    ensures
        argument_view(r) == argument_for_reference(
            doc@,
            name@,
            definition_view(definition),
            loop_view(*loop_object),
            line_number,
        ),
{
    match local_argument_of(doc, name, definition, line_number) {
        Err(e) => Err(e),
        Ok(Some(found)) => Ok(Some(found)),
        Ok(None) => Ok(loop_argument_of(doc, name, loop_object)),
    }
}

impl<'a> TDoc<'a> {
    fn kind_at_at(&mut self, kind: Kind, path: &str, line_number: usize, depth: usize) -> (r:
        Result<StateWithThing<KindData>, Error>)
        ensures
            final(self).name == old(self).name,
            final(self).aliases == old(self).aliases,
            final(self).ctx() == kind_at(
                old(self).ctx(),
                kind@,
                path@,
                line_number,
                depth as nat,
            ).ctx,
            tri(r) == kind_at(old(self).ctx(), kind@, path@, line_number, depth as nat).result,
        decreases depth, 1nat,
    {
        proof {
            reveal_strlit(".");
            assert("."@ =~= one('.'));
        }
        if depth == 0 {
            return fail(ErrorKind::ValueNotFound, "references do not end", self.name, line_number);
        }
        match kind {
            Kind::Record { name } => self.record_field_kind(name, path, line_number, depth),
            Kind::List { kind: item } => {
                let (_, remaining) = split_at(path, ".");
                match remaining {
                    Some(rest) => self.kind_at_at(*item, rest.as_str(), line_number, depth - 1),
                    None => Ok(StateWithThing::Thing(KindData::new(*item))),
                }
            },
            Kind::Optional { kind: inner } => {
                match self.kind_at_at(*inner, path, line_number, depth - 1) {
                    Ok(StateWithThing::Thing(t)) => Ok(StateWithThing::Thing(t.into_optional())),
                    other => other,
                }
            },
            _ => fail(ErrorKind::TypeMismatch, "Expected Record field", self.name, line_number),
        }
    }

    fn record_field_kind(&mut self, name: String, path: &str, line_number: usize, depth: usize)
        -> (r: Result<StateWithThing<KindData>, Error>)
        requires
            depth > 0,
        ensures
            final(self).name == old(self).name,
            final(self).aliases == old(self).aliases,
            final(self).ctx() == kind_at(
                old(self).ctx(),
                KindV::Record { name: name@ },
                path@,
                line_number,
                depth as nat,
            ).ctx,
            tri(r) == kind_at(
                old(self).ctx(),
                KindV::Record { name: name@ },
                path@,
                line_number,
                depth as nat,
            ).result,
        decreases depth, 0nat,
    {
        proof {
            reveal_strlit(".");
            assert("."@ =~= one('.'));
        }
        let (first, remaining) = split_at(path, ".");
        let record = match self.search_record(name.as_str(), line_number) {
            Ok(StateWithThing::Thing(record)) => record,
            Ok(StateWithThing::State(s)) => {
                return Ok(StateWithThing::State(s));
            },
            Ok(StateWithThing::Continue) => {
                return Ok(StateWithThing::Continue);
            },
            Err(e) => {
                return Err(e);
            },
        };
        let i = match field_position(&record.fields, first.as_str()) {
            None => {
                return fail(ErrorKind::FieldNotFound, first.as_str(), self.name, line_number);
            },
            Some(i) => i,
        };
        let field_kind = record.fields[i].kind.clone();
        match remaining {
            Some(rest) => self.kind_at_at(field_kind.kind, rest.as_str(), line_number, depth - 1),
            None => Ok(StateWithThing::Thing(field_kind)),
        }
    }

    fn kind_of_rest_of(
        &mut self,
        source: PropertyValueSource,
        initial: KindData,
        remaining: Option<String>,
        line_number: usize,
    ) -> (r: Result<StateWithThing<(PropertyValueSource, KindData)>, Error>)
        ensures
            final(self).name == old(self).name,
            final(self).aliases == old(self).aliases,
            final(self).ctx() == kind_of_rest(
                old(self).ctx(),
                source@,
                initial@,
                opt_text(remaining),
                line_number,
            ).ctx,
            tri_kind(r) == kind_of_rest(
                old(self).ctx(),
                source@,
                initial@,
                opt_text(remaining),
                line_number,
            ).result,
    {
        match remaining {
            Some(rest) => match self.kind_at_at(
                initial.kind,
                rest.as_str(),
                line_number,
                RESOLVE_LIMIT,
            ) {
                Ok(StateWithThing::Thing(t)) => Ok(StateWithThing::Thing((source, t))),
                Ok(StateWithThing::State(s)) => Ok(StateWithThing::State(s)),
                Ok(StateWithThing::Continue) => Ok(StateWithThing::Continue),
                Err(e) => Err(e),
            },
            None => Ok(StateWithThing::Thing((source, initial))),
        }
    }

    fn kind_of_global_of(&mut self, name: &str, line_number: usize) -> (r: Result<
        StateWithThing<(PropertyValueSource, KindData)>,
        Error,
    >)
        ensures
            final(self).name == old(self).name,
            final(self).aliases == old(self).aliases,
            final(self).ctx() == kind_of_global(old(self).ctx(), name@, line_number).ctx,
            tri_kind(r) == kind_of_global(old(self).ctx(), name@, line_number).result,
    {
        match self.search_initial_thing(name, line_number) {
            Ok(StateWithThing::Thing((thing, remaining))) => {
                match thing_kind(&thing, self.name, line_number) {
                    Err(e) => Err(e),
                    Ok(initial) => self.kind_of_rest_of(
                        PropertyValueSource::Global,
                        initial,
                        remaining,
                        line_number,
                    ),
                }
            },
            Ok(StateWithThing::State(s)) => Ok(StateWithThing::State(s)),
            Ok(StateWithThing::Continue) => Ok(StateWithThing::Continue),
            Err(e) => Err(e),
        }
    }

    /// The kind that `name` stands for, and the scope in which it was
    /// found.
    pub fn get_kind_with_argument(
        &mut self,
        name: &str,
        line_number: usize,
        component_definition_name_with_arguments: Option<(&str, &Vec<Argument>)>,
        loop_object_name_and_kind: &Option<(String, Argument)>,
    ) -> (r: Result<StateWithThing<(PropertyValueSource, KindData)>, Error>)
        ensures
            final(self).name == old(self).name,
            final(self).aliases == old(self).aliases,
            final(self).ctx() == kind_with_argument(
                old(self).ctx(),
                name@,
                line_number,
                definition_view(component_definition_name_with_arguments),
                loop_view(*loop_object_name_and_kind),
            ).ctx,
            tri_kind(r) == kind_with_argument(
                old(self).ctx(),
                name@,
                line_number,
                definition_view(component_definition_name_with_arguments),
                loop_view(*loop_object_name_and_kind),
            ).result,
    {
        let bare = without_marker(name);
        match get_argument_for_reference_and_remaining(
            bare.as_str(),
            &*self,
            component_definition_name_with_arguments,
            loop_object_name_and_kind,
            line_number,
        ) {
            Err(e) => Err(e),
            Ok(Some((argument, remaining, source))) => self.kind_of_rest_of(
                source,
                argument.kind,
                remaining,
                line_number,
            ),
            Ok(None) => self.kind_of_global_of(bare.as_str(), line_number),
        }
    }

    /// The kind that `name` stands for among the definitions.
    pub fn get_kind(&mut self, name: &str, line_number: usize) -> (r: Result<
        StateWithThing<KindData>,
        Error,
    >)
        ensures
            final(self).name == old(self).name,
            final(self).aliases == old(self).aliases,
            final(self).ctx() == kind_with_argument(
                old(self).ctx(),
                name@,
                line_number,
                None,
                None,
            ).ctx,
            tri(r) == kind_alone(
                kind_with_argument(old(self).ctx(), name@, line_number, None, None),
            ),
    {
        match self.get_kind_with_argument(name, line_number, None, &None) {
            Ok(StateWithThing::Thing((_, kind))) => Ok(StateWithThing::Thing(kind)),
            Ok(StateWithThing::State(s)) => Ok(StateWithThing::State(s)),
            Ok(StateWithThing::Continue) => Ok(StateWithThing::Continue),
            Err(e) => Err(e),
        }
    }
}

/// The kind that was found, without its scope.
pub open spec fn kind_alone(f: Found<(PropertyValueSourceV, KindDataV)>) -> Result<
    Tri<KindDataV>,
    ErrorV,
> {
    match f.result {
        Ok(Tri::Thing((_, kind))) => Ok(Tri::Thing(kind)),
        Ok(Tri::State(s)) => Ok(Tri::State(s)),
        Ok(Tri::Continue) => Ok(Tri::Continue),
        Err(e) => Err(e),
    }
}

} // verus!
