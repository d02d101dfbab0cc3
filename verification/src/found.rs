//! Incremental lookup of a dotted name: the first step, and then the entry
//! into the definition part by part, where every further name that is met
//! may again queue work or suspend the lookup.

use vstd::prelude::*;
use crate::error::{error, fail, Error, ErrorKind, ErrorV};
use crate::kind::record_name_of;
use crate::lookup::{
    literal_field_variable, member, member_of, no_members, unset_field_variable,
};
use crate::names::{one, split_at, split_at_spec};
use crate::search::{search_initial, searched_in_bag, tri_thing_and_rest, Tri};
use crate::semantics::{
    as_component, as_function, as_or_type, as_record, as_variable, resolve_pv, too_deep, DocV,
    RESOLVE_LIMIT,
};
use crate::state::{InterpreterStateV, StateWithThing};
use crate::tdoc::TDoc;
use crate::text::{concat2, str_eq, str_strip_prefix, strip_prefix};
use crate::thing::{
    field_position,
    find_field,
    opt_property_value,
    ComponentDefinition,
    Field,
    FieldV,
    Function,
    FunctionV,
    OrType,
    OrTypeV,
    Record,
    Thing,
    ThingV,
    Variable,
    VariableV,
};
use crate::value::{PropertyValue, PropertyValueV};

verus! {

/// What incremental lookup works on: the document, and the state of the
/// session if there is one.
pub struct CtxV {
    pub doc: DocV,
    pub state: Option<InterpreterStateV>,
}

/// The context that a lookup leaves behind, and what it returns.
pub struct Found<T> {
    pub ctx: CtxV,
    pub result: Result<Tri<T>, ErrorV>,
}

/// The outcome of a lookup that gave no definition, as the outcome of a
/// lookup for something else.
pub open spec fn passed<T, U>(f: Found<T>) -> Found<U> {
    Found {
        ctx: f.ctx,
        result: match f.result {
            Ok(Tri::State(s)) => Ok(Tri::State(s)),
            Ok(Tri::Continue) => Ok(Tri::Continue),
            Ok(Tri::Thing(_)) => Ok(Tri::Continue),
            Err(e) => Err(e),
        },
    }
}

/// The outcome that is the error `e`.
pub open spec fn failed<T>(ctx: CtxV, e: ErrorV) -> Found<T> {
    Found { ctx, result: Err(e) }
}

/// The outcome that is the definition `thing`.
pub open spec fn given(ctx: CtxV, thing: ThingV) -> Found<ThingV> {
    Found { ctx, result: Ok(Tri::Thing(thing)) }
}

/// The first step of the lookup of `name`.
pub open spec fn first_step(ctx: CtxV, name: Seq<char>, line_number: usize) -> Found<
    (ThingV, Option<Seq<char>>),
> {
    match ctx.state {
        Some(state) => {
            let o = search_initial(state, ctx.doc.name, ctx.doc.aliases, name, line_number);
            Found { ctx: CtxV { doc: ctx.doc, state: Some(o.state) }, result: o.result }
        },
        None => Found { ctx, result: searched_in_bag(ctx.doc, name, line_number) },
    }
}

/// The incremental lookup of `name`.
pub open spec fn found_thing(ctx: CtxV, name: Seq<char>, line_number: usize, fuel: nat) -> Found<
    ThingV,
>
    decreases fuel, 0nat,
{
    if fuel == 0 {
        failed(ctx, too_deep(ctx.doc, line_number))
    } else {
        let f = first_step(ctx, name, line_number);
        match f.result {
            Ok(Tri::Thing((thing, remaining))) => match remaining {
                Some(path) => found_at(f.ctx, line_number, path, thing, (fuel - 1) as nat),
                None => given(f.ctx, thing),
            },
            _ => passed(f),
        }
    }
}

/// The definition that the dotted `path` leads to from `thing`.
pub open spec fn found_at(ctx: CtxV, line_number: usize, path: Seq<char>, thing: ThingV, fuel: nat)
    -> Found<ThingV>
    decreases fuel, 3nat,
{
    if fuel == 0 {
        failed(ctx, too_deep(ctx.doc, line_number))
    } else {
        let (first, remaining) = split_at_spec(path, one('.'));
        let f = found_step(ctx, line_number, first, thing, fuel);
        match f.result {
            Ok(Tri::Thing(t)) => match remaining {
                Some(rest) => found_at(f.ctx, line_number, rest, t, (fuel - 1) as nat),
                None => f,
            },
            _ => f,
        }
    }
}

/// The name of a variant without the name of its or-type in front.
pub open spec fn variant_short(name: Seq<char>, or_type: Seq<char>) -> Seq<char> {
    match strip_prefix(name, or_type + one('.')) {
        Some(rest) => rest,
        None => name,
    }
}

/// Position of the first variant at or after `from` whose short name is
/// `first`, or -1.
pub open spec fn find_variant(
    variants: Seq<FieldV>,
    or_type: Seq<char>,
    first: Seq<char>,
    from: int,
) -> int
    decreases variants.len() - from,
{
    if from < 0 || from >= variants.len() {
        -1
    } else if variant_short(variants[from].name, or_type) == first {
        from
    } else {
        find_variant(variants, or_type, first, from + 1)
    }
}

/// The variant `first` of an or-type.
pub open spec fn variant_step(ctx: CtxV, line_number: usize, first: Seq<char>, or_type: OrTypeV)
    -> Found<ThingV> {
    let i = find_variant(or_type.variants, or_type.name, first, 0);
    if i < 0 {
        failed(ctx, error(ErrorKind::ValueNotFound, first, ctx.doc.name, line_number))
    } else {
        given(
            ctx,
            ThingV::OrTypeWithVariant { or_type: or_type.name, variant: or_type.variants[i] },
        )
    }
}

/// The definition that stands for the member `first` of `thing`: a member
/// of the value of a variable, or a variant of an or-type.
pub open spec fn found_step(
    ctx: CtxV,
    line_number: usize,
    first: Seq<char>,
    thing: ThingV,
    fuel: nat,
) -> Found<ThingV>
    decreases fuel, 2nat,
{
    match thing {
        ThingV::Variable(var) => match resolve_pv(ctx.doc, var.value, line_number, fuel) {
            Err(e) => failed(ctx, e),
            Ok(value) => match value.inner() {
                None => found_unset(ctx, line_number, first, var, fuel),
                Some(inner) => match member(inner, first) {
                    None => failed(ctx, no_members(ctx.doc, line_number)),
                    Some(entry) => found_entry(ctx, line_number, var, entry, fuel),
                },
            },
        },
        ThingV::OrType(o) => variant_step(ctx, line_number, first, o),
        _ => failed(ctx, no_members(ctx.doc, line_number)),
    }
}

/// The member `first` of a variable whose value is an optional record that
/// is not set.
pub open spec fn found_unset(
    ctx: CtxV,
    line_number: usize,
    first: Seq<char>,
    var: VariableV,
    fuel: nat,
) -> Found<ThingV>
    decreases fuel, 1nat,
{
    if fuel == 0 {
        failed(ctx, too_deep(ctx.doc, line_number))
    } else {
        match record_name_of(var.value.kind()) {
            None => failed(ctx, no_members(ctx.doc, line_number)),
            Some(kind_name) => {
                let f = found_thing(ctx, kind_name, line_number, (fuel - 1) as nat);
                match f.result {
                    Ok(Tri::Thing(kind_thing)) => unset_field_of(
                        f.ctx,
                        line_number,
                        first,
                        var,
                        kind_thing,
                    ),
                    _ => f,
                }
            },
        }
    }
}

/// The unset field `first` of `var`, of the kind that the record type
/// `kind_thing` gives it.
pub open spec fn unset_field_of(
    ctx: CtxV,
    line_number: usize,
    first: Seq<char>,
    var: VariableV,
    kind_thing: ThingV,
) -> Found<ThingV> {
    match as_record(kind_thing, ctx.doc.name, line_number) {
        Err(e) => failed(ctx, e),
        Ok(record) => {
            let i = find_field(record.fields, first, 0);
            if i < 0 {
                failed(ctx, error(ErrorKind::FieldNotFound, first, ctx.doc.name, line_number))
            } else {
                given(ctx, unset_field_variable(var, record.fields[i].kind, line_number))
            }
        },
    }
}

/// The definition that stands for a member of the value of `var`.
pub open spec fn found_entry(
    ctx: CtxV,
    line_number: usize,
    var: VariableV,
    entry: Option<PropertyValueV>,
    fuel: nat,
) -> Found<ThingV>
    decreases fuel, 1nat,
{
    if fuel == 0 {
        failed(ctx, too_deep(ctx.doc, line_number))
    } else {
        match entry {
            Some(PropertyValueV::Value { value, is_mutable, line_number: l }) => given(
                ctx,
                literal_field_variable(
                    var,
                    PropertyValueV::Value { value, is_mutable, line_number: l },
                ),
            ),
            Some(PropertyValueV::Reference { name, .. }) => found_thing(
                ctx,
                name,
                line_number,
                (fuel - 1) as nat,
            ),
            Some(PropertyValueV::Clone { name, .. }) => found_thing(
                ctx,
                name,
                line_number,
                (fuel - 1) as nat,
            ),
            _ => given(ctx, ThingV::Variable(var)),
        }
    }
}

/// The specification-level form of the outcome of a lookup.
pub open spec fn tri<T: View>(r: Result<StateWithThing<T>, Error>) -> Result<Tri<T::V>, ErrorV> {
    match r {
        Ok(StateWithThing::Thing(t)) => Ok(Tri::Thing(t@)),
        Ok(StateWithThing::State(s)) => Ok(Tri::State(s@)),
        Ok(StateWithThing::Continue) => Ok(Tri::Continue),
        Err(e) => Err(e@),
    }
}

/// The outcome of a lookup for a definition of one sort: the definition
/// found, taken as that sort.
pub open spec fn sorted<T>(
    f: Found<ThingV>,
    sort: spec_fn(ThingV, Seq<char>, usize) -> Result<T, ErrorV>,
    line_number: usize,
) -> Found<T> {
    Found {
        ctx: f.ctx,
        result: match f.result {
            Ok(Tri::Thing(t)) => match sort(t, f.ctx.doc.name, line_number) {
                Ok(x) => Ok(Tri::Thing(x)),
                Err(e) => Err(e),
            },
            Ok(Tri::State(s)) => Ok(Tri::State(s)),
            Ok(Tri::Continue) => Ok(Tri::Continue),
            Err(e) => Err(e),
        },
    }
}

/// The variant that a definition is, with the name of its or-type.
pub open spec fn as_variant(thing: ThingV, doc_id: Seq<char>, line_number: usize) -> Result<
    (Seq<char>, FieldV),
    ErrorV,
> {
    match thing {
        ThingV::OrTypeWithVariant { or_type, variant } => Ok((or_type, variant)),
        _ => Err(
            error(ErrorKind::UnexpectedKind, "Expected OrTypeWithVariant"@, doc_id, line_number),
        ),
    }
}

impl<'a> TDoc<'a> {
    /// The context that incremental lookup works on.
    pub open spec fn ctx(&self) -> CtxV {
        CtxV { doc: self@, state: self.state_view() }
    }

    fn first_step_of(&mut self, name: &str, line_number: usize) -> (r: Result<
        StateWithThing<(Thing, Option<String>)>,
        Error,
    >)
        ensures
            final(self).name == old(self).name,
            final(self).aliases == old(self).aliases,
            final(self).ctx() == first_step(old(self).ctx(), name@, line_number).ctx,
            tri_thing_and_rest(r) == first_step(old(self).ctx(), name@, line_number).result,
    {
        self.search_initial_thing(name, line_number)
    }

    fn found_thing_at(&mut self, name: &str, line_number: usize, depth: usize) -> (r: Result<
        StateWithThing<Thing>,
        Error,
    >)
        ensures
            final(self).name == old(self).name,
            final(self).aliases == old(self).aliases,
            final(self).ctx() == found_thing(old(self).ctx(), name@, line_number, depth as nat).ctx,
            tri(r) == found_thing(old(self).ctx(), name@, line_number, depth as nat).result,
        decreases depth, 0nat,
    {
        if depth == 0 {
            return fail(ErrorKind::ValueNotFound, "references do not end", self.name, line_number);
        }
        match self.first_step_of(name, line_number) {
            Ok(StateWithThing::Thing((thing, remaining))) => match remaining {
                Some(path) => self.found_at_at(line_number, path.as_str(), thing, depth - 1),
                None => Ok(StateWithThing::Thing(thing)),
            },
            Ok(StateWithThing::State(s)) => Ok(StateWithThing::State(s)),
            Ok(StateWithThing::Continue) => Ok(StateWithThing::Continue),
            Err(e) => Err(e),
        }
    }

    fn found_at_at(&mut self, line_number: usize, path: &str, thing: Thing, depth: usize) -> (r:
        Result<StateWithThing<Thing>, Error>)
        ensures
            final(self).name == old(self).name,
            final(self).aliases == old(self).aliases,
            final(self).ctx() == found_at(
                old(self).ctx(),
                line_number,
                path@,
                thing@,
                depth as nat,
            ).ctx,
            tri(r) == found_at(old(self).ctx(), line_number, path@, thing@, depth as nat).result,
        decreases depth, 3nat,
    {
        proof {
            reveal_strlit(".");
            assert("."@ =~= one('.'));
        }
        if depth == 0 {
            return fail(ErrorKind::ValueNotFound, "references do not end", self.name, line_number);
        }
        let (first, remaining) = split_at(path, ".");
        match self.found_step_at(line_number, first.as_str(), thing, depth) {
            Ok(StateWithThing::Thing(t)) => match remaining {
                Some(rest) => self.found_at_at(line_number, rest.as_str(), t, depth - 1),
                None => Ok(StateWithThing::Thing(t)),
            },
            other => other,
        }
    }

    fn found_step_at(&mut self, line_number: usize, first: &str, thing: Thing, depth: usize) -> (r:
        Result<StateWithThing<Thing>, Error>)
        ensures
            final(self).name == old(self).name,
            final(self).aliases == old(self).aliases,
            final(self).ctx() == found_step(
                old(self).ctx(),
                line_number,
                first@,
                thing@,
                depth as nat,
            ).ctx,
            tri(r) == found_step(old(self).ctx(), line_number, first@, thing@, depth as nat).result,
        decreases depth, 2nat,
    {
        match thing {
            Thing::Variable(var) => {
                let value = match var.value.clone().resolve_at(&*self, line_number, depth) {
                    Err(e) => {
                        return Err(e);
                    },
                    Ok(v) => v,
                };
                match value.inner() {
                    None => self.found_unset_at(line_number, first, var, depth),
                    Some(inner) => match member_of(&inner, first) {
                        None => fail(
                            ErrorKind::TypeMismatch,
                            "not a record",
                            self.name,
                            line_number,
                        ),
                        Some(entry) => self.found_entry_at(line_number, var, entry, depth),
                    },
                }
            },
            Thing::OrType(o) => variant_of(&*self, line_number, first, o),
            Thing::Record(_) => fail(ErrorKind::TypeMismatch, "not a record", self.name, line_number),
            Thing::OrTypeWithVariant { .. } => fail(
                ErrorKind::TypeMismatch,
                "not a record",
                self.name,
                line_number,
            ),
            Thing::Component(_) => fail(
                ErrorKind::TypeMismatch,
                "not a record",
                self.name,
                line_number,
            ),
            Thing::Function(_) => fail(
                ErrorKind::TypeMismatch,
                "not a record",
                self.name,
                line_number,
            ),
        }
    }

    fn found_unset_at(&mut self, line_number: usize, first: &str, var: Variable, depth: usize) -> (r:
        Result<StateWithThing<Thing>, Error>)
        ensures
            final(self).name == old(self).name,
            final(self).aliases == old(self).aliases,
            final(self).ctx() == found_unset(
                old(self).ctx(),
                line_number,
                first@,
                var@,
                depth as nat,
            ).ctx,
            tri(r) == found_unset(old(self).ctx(), line_number, first@, var@, depth as nat).result,
        decreases depth, 1nat,
    {
        if depth == 0 {
            return fail(ErrorKind::ValueNotFound, "references do not end", self.name, line_number);
        }
        let kind_name = match var.value.kind().get_record_name() {
            None => {
                return fail(ErrorKind::TypeMismatch, "not a record", self.name, line_number);
            },
            Some(n) => n,
        };
        match self.found_thing_at(kind_name.as_str(), line_number, depth - 1) {
            Ok(StateWithThing::Thing(kind_thing)) => unset_field_from(
                &*self,
                line_number,
                first,
                &var,
                kind_thing,
            ),
            other => other,
        }
    }

    fn found_entry_at(
        &mut self,
        line_number: usize,
        var: Variable,
        entry: Option<PropertyValue>,
        depth: usize,
    ) -> (r: Result<StateWithThing<Thing>, Error>)
        ensures
            final(self).name == old(self).name,
            final(self).aliases == old(self).aliases,
            final(self).ctx() == found_entry(
                old(self).ctx(),
                line_number,
                var@,
                opt_property_value(entry),
                depth as nat,
            ).ctx,
            tri(r) == found_entry(
                old(self).ctx(),
                line_number,
                var@,
                opt_property_value(entry),
                depth as nat,
            ).result,
        decreases depth, 1nat,
    {
        if depth == 0 {
            return fail(ErrorKind::ValueNotFound, "references do not end", self.name, line_number);
        }
        let pv = match entry {
            Some(pv) => pv,
            None => {
                return Ok(StateWithThing::Thing(Thing::Variable(var)));
            },
        };
        if pv.is_value() {
            return Ok(StateWithThing::Thing(crate::lookup::literal_field(&var, pv)));
        }
        match crate::lookup::linked_name(&pv) {
            Some(name) => self.found_thing_at(name.as_str(), line_number, depth - 1),
            None => Ok(StateWithThing::Thing(Thing::Variable(var))),
        }
    }

    /// The incremental lookup of `name`: the definition, or a suspension,
    /// or the notice that work was queued.
    pub fn search_thing(&mut self, name: &str, line_number: usize) -> (r: Result<
        StateWithThing<Thing>,
        Error,
    >)
        ensures
            final(self).name == old(self).name,
            final(self).aliases == old(self).aliases,
            final(self).ctx() == found_thing(
                old(self).ctx(),
                name@,
                line_number,
                RESOLVE_LIMIT as nat,
            ).ctx,
            tri(r) == found_thing(old(self).ctx(), name@, line_number, RESOLVE_LIMIT as nat).result,
    {
        self.found_thing_at(name, line_number, RESOLVE_LIMIT)
    }

    /// The incremental lookup of the record type `name`.
    pub fn search_record(&mut self, name: &str, line_number: usize) -> (r: Result<
        StateWithThing<Record>,
        Error,
    >)
        ensures
            final(self).name == old(self).name,
            final(self).aliases == old(self).aliases,
            final(self).ctx() == found_thing(
                old(self).ctx(),
                name@,
                line_number,
                RESOLVE_LIMIT as nat,
            ).ctx,
            tri(r) == sorted(
                found_thing(old(self).ctx(), name@, line_number, RESOLVE_LIMIT as nat),
                |t: ThingV, d: Seq<char>, l: usize| as_record(t, d, l),
                line_number,
            ).result,
    {
        match self.search_thing(name, line_number) {
            Ok(StateWithThing::Thing(t)) => match t.record(self.name, line_number) {
                Ok(x) => Ok(StateWithThing::Thing(x)),
                Err(e) => Err(e),
            },
            Ok(StateWithThing::State(s)) => Ok(StateWithThing::State(s)),
            Ok(StateWithThing::Continue) => Ok(StateWithThing::Continue),
            Err(e) => Err(e),
        }
    }

    /// The incremental lookup of the variable `name`.
    pub fn search_variable(&mut self, name: &str, line_number: usize) -> (r: Result<
        StateWithThing<Variable>,
        Error,
    >)
        ensures
            final(self).name == old(self).name,
            final(self).aliases == old(self).aliases,
            final(self).ctx() == found_thing(
                old(self).ctx(),
                name@,
                line_number,
                RESOLVE_LIMIT as nat,
            ).ctx,
            tri(r) == sorted(
                found_thing(old(self).ctx(), name@, line_number, RESOLVE_LIMIT as nat),
                |t: ThingV, d: Seq<char>, l: usize| as_variable(t, d, l),
                line_number,
            ).result,
    {
        match self.search_thing(name, line_number) {
            Ok(StateWithThing::Thing(t)) => match t.variable(self.name, line_number) {
                Ok(x) => Ok(StateWithThing::Thing(x)),
                Err(e) => Err(e),
            },
            Ok(StateWithThing::State(s)) => Ok(StateWithThing::State(s)),
            Ok(StateWithThing::Continue) => Ok(StateWithThing::Continue),
            Err(e) => Err(e),
        }
    }

    /// The incremental lookup of the component definition `name`.
    pub fn search_component(&mut self, name: &str, line_number: usize) -> (r: Result<
        StateWithThing<ComponentDefinition>,
        Error,
    >)
        ensures
            final(self).name == old(self).name,
            final(self).aliases == old(self).aliases,
            final(self).ctx() == found_thing(
                old(self).ctx(),
                name@,
                line_number,
                RESOLVE_LIMIT as nat,
            ).ctx,
            tri(r) == sorted(
                found_thing(old(self).ctx(), name@, line_number, RESOLVE_LIMIT as nat),
                |t: ThingV, d: Seq<char>, l: usize| as_component(t, d, l),
                line_number,
            ).result,
    {
        match self.search_thing(name, line_number) {
            Ok(StateWithThing::Thing(t)) => match t.component(self.name, line_number) {
                Ok(x) => Ok(StateWithThing::Thing(x)),
                Err(e) => Err(e),
            },
            Ok(StateWithThing::State(s)) => Ok(StateWithThing::State(s)),
            Ok(StateWithThing::Continue) => Ok(StateWithThing::Continue),
            Err(e) => Err(e),
        }
    }

    /// The incremental lookup of the or-type `name`.
    pub fn search_or_type(&mut self, name: &str, line_number: usize) -> (r: Result<
        StateWithThing<OrType>,
        Error,
    >)
        ensures
            final(self).name == old(self).name,
            final(self).aliases == old(self).aliases,
            final(self).ctx() == found_thing(
                old(self).ctx(),
                name@,
                line_number,
                RESOLVE_LIMIT as nat,
            ).ctx,
            tri(r) == sorted(
                found_thing(old(self).ctx(), name@, line_number, RESOLVE_LIMIT as nat),
                |t: ThingV, d: Seq<char>, l: usize| as_or_type(t, d, l),
                line_number,
            ).result,
    {
        match self.search_thing(name, line_number) {
            Ok(StateWithThing::Thing(t)) => match t.or_type(self.name, line_number) {
                Ok(x) => Ok(StateWithThing::Thing(x)),
                Err(e) => Err(e),
            },
            Ok(StateWithThing::State(s)) => Ok(StateWithThing::State(s)),
            Ok(StateWithThing::Continue) => Ok(StateWithThing::Continue),
            Err(e) => Err(e),
        }
    }

    /// The incremental lookup of the variant `name` of an or-type: the name
    /// of the or-type and the variant.
    pub fn search_or_type_with_variant(&mut self, name: &str, line_number: usize) -> (r: Result<
        StateWithThing<(String, Field)>,
        Error,
    >)
        ensures
            final(self).name == old(self).name,
            final(self).aliases == old(self).aliases,
            final(self).ctx() == found_thing(
                old(self).ctx(),
                name@,
                line_number,
                RESOLVE_LIMIT as nat,
            ).ctx,
            match r {
                Ok(StateWithThing::Thing((or_type, variant))) => sorted(
                    found_thing(old(self).ctx(), name@, line_number, RESOLVE_LIMIT as nat),
                    |t: ThingV, d: Seq<char>, l: usize| as_variant(t, d, l),
                    line_number,
                ).result == Ok::<Tri<(Seq<char>, FieldV)>, ErrorV>(
                    Tri::Thing((or_type@, variant@)),
                ),
                Ok(StateWithThing::State(s)) => sorted(
                    found_thing(old(self).ctx(), name@, line_number, RESOLVE_LIMIT as nat),
                    |t: ThingV, d: Seq<char>, l: usize| as_variant(t, d, l),
                    line_number,
                ).result == Ok::<Tri<(Seq<char>, FieldV)>, ErrorV>(Tri::State(s@)),
                Ok(StateWithThing::Continue) => sorted(
                    found_thing(old(self).ctx(), name@, line_number, RESOLVE_LIMIT as nat),
                    |t: ThingV, d: Seq<char>, l: usize| as_variant(t, d, l),
                    line_number,
                ).result == Ok::<Tri<(Seq<char>, FieldV)>, ErrorV>(Tri::Continue),
                Err(e) => sorted(
                    found_thing(old(self).ctx(), name@, line_number, RESOLVE_LIMIT as nat),
                    |t: ThingV, d: Seq<char>, l: usize| as_variant(t, d, l),
                    line_number,
                ).result == Err::<Tri<(Seq<char>, FieldV)>, ErrorV>(e@),
            },
    {
        match self.search_thing(name, line_number) {
            Ok(StateWithThing::Thing(t)) => match t {
                Thing::OrTypeWithVariant { or_type, variant } => Ok(
                    StateWithThing::Thing((or_type, variant)),
                ),
                _ => fail(
                    ErrorKind::UnexpectedKind,
                    "Expected OrTypeWithVariant",
                    self.name,
                    line_number,
                ),
            },
            Ok(StateWithThing::State(s)) => Ok(StateWithThing::State(s)),
            Ok(StateWithThing::Continue) => Ok(StateWithThing::Continue),
            Err(e) => Err(e),
        }
    }

    /// The incremental lookup of the function that `name` starts from.
    pub fn search_function(&mut self, name: &str, line_number: usize) -> (r: Result<
        StateWithThing<Function>,
        Error,
    >)
        ensures
            final(self).name == old(self).name,
            final(self).aliases == old(self).aliases,
            final(self).ctx() == first_step(old(self).ctx(), name@, line_number).ctx,
            tri(r) == function_found(first_step(old(self).ctx(), name@, line_number), line_number),
    {
        match self.first_step_of(name, line_number) {
            Ok(StateWithThing::Thing((thing, _))) => match thing.function(self.name, line_number) {
                Ok(x) => Ok(StateWithThing::Thing(x)),
                Err(e) => Err(e),
            },
            Ok(StateWithThing::State(s)) => Ok(StateWithThing::State(s)),
            Ok(StateWithThing::Continue) => Ok(StateWithThing::Continue),
            Err(e) => Err(e),
        }
    }
}

/// The function that the first step of a lookup gave.
pub open spec fn function_found(f: Found<(ThingV, Option<Seq<char>>)>, line_number: usize) -> Result<
    Tri<FunctionV>,
    ErrorV,
> {
    match f.result {
        Ok(Tri::Thing((thing, _))) => match as_function(thing, f.ctx.doc.name, line_number) {
            Ok(x) => Ok(Tri::Thing(x)),
            Err(e) => Err(e),
        },
        Ok(Tri::State(s)) => Ok(Tri::State(s)),
        Ok(Tri::Continue) => Ok(Tri::Continue),
        Err(e) => Err(e),
    }
}

/// The variant `first` of the or-type `or_type`.
fn variant_of(doc: &TDoc, line_number: usize, first: &str, or_type: OrType) -> (r: Result<
    StateWithThing<Thing>,
    Error,
>)
    ensures
        tri(r) == variant_step(doc.ctx(), line_number, first@, or_type@).result,
{
    proof {
        reveal_strlit(".");
        assert("."@ =~= one('.'));
    }
    let prefix = concat2(or_type.name.as_str(), ".");
    let mut i: usize = 0;
    while i < or_type.variants.len()
        invariant
            i <= or_type.variants.len(),
            prefix@ == or_type@.name + one('.'),
            find_variant(or_type@.variants, or_type@.name, first@, 0) == find_variant(
                or_type@.variants,
                or_type@.name,
                first@,
                i as int,
            ),
        decreases or_type.variants.len() - i,
    {
        let name = &or_type.variants[i].name;
        let short = match str_strip_prefix(name.as_str(), prefix.as_str()) {
            Some(rest) => rest,
            None => name.clone(),
        };
        if str_eq(short.as_str(), first) {
            return Ok(
                StateWithThing::Thing(
                    Thing::OrTypeWithVariant {
                        or_type: or_type.name.clone(),
                        variant: or_type.variants[i].clone(),
                    },
                ),
            );
        }
        i += 1;
    }
    fail(ErrorKind::ValueNotFound, first, doc.name, line_number)
}

/// The unset field `first` of `var`, of the kind that the record type
/// `kind_thing` gives it.
fn unset_field_from(
    doc: &TDoc,
    line_number: usize,
    first: &str,
    var: &Variable,
    kind_thing: Thing,
) -> (r: Result<StateWithThing<Thing>, Error>)
    ensures
        tri(r) == unset_field_of(doc.ctx(), line_number, first@, var@, kind_thing@).result,
{
    let record = match kind_thing.record(doc.name, line_number) {
        Err(e) => {
            return Err(e);
        },
        Ok(r) => r,
    };
    match field_position(&record.fields, first) {
        None => fail(ErrorKind::FieldNotFound, first, doc.name, line_number),
        Some(i) => Ok(
            StateWithThing::Thing(crate::lookup::unset_field(var, &record.fields[i].kind, line_number)),
        ),
    }
}

} // verus!
