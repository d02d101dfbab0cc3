//! One step of the driver of a session: the scan and the build of the
//! top-level item that is on top of the work stack. Only a build that is
//! resolved commits its definition.

use vstd::prelude::*;
use crate::ast::AST;
use crate::define::{function_from_ast, or_type_from_ast, record_from_ast, variable_from_ast};
use crate::error::{Error, ErrorV};
use crate::found::{failed, passed, CtxV, Found};
use crate::instance::{component_definition_from_ast, component_from_ast};
use crate::search::Tri;
use crate::state::{InterpreterStateV, StateWithThing};
use crate::tdoc::{BagOrState, TDoc};
use crate::thing::{
    ComponentDefinition, Function, OrType, Record, Thing, ThingV, Variable,
};
use crate::value::{Component, ComponentV};

verus! {

/// What the build of a top-level item gives: a definition under its name,
/// or an instance.
pub enum BuiltV {
    Definition { name: Seq<char>, thing: ThingV },
    Instance(ComponentV),
}

/// What the build of a top-level item gives.
#[derive(Debug, PartialEq, Eq)]
pub enum Built {
    /// A definition, which has been committed under `name`.
    Definition { name: String },
    /// An instance of a component.
    Instance(Component),
}

/// The outcome `f` with each definition turned into what a build gives.
pub open spec fn defined<T>(f: Found<T>, name: spec_fn(T) -> Seq<char>, thing: spec_fn(T) -> ThingV)
    -> Found<BuiltV> {
    match f.result {
        Ok(Tri::Thing(t)) => Found {
            ctx: f.ctx,
            result: Ok(Tri::Thing(BuiltV::Definition { name: name(t), thing: thing(t) })),
        },
        _ => passed(f),
    }
}

/// The build of a top-level item, before anything is committed.
pub open spec fn built(ctx: CtxV, item: AST) -> Found<BuiltV> {
    match item {
        AST::Record(r) => defined(
            record_from_ast(ctx, r@),
            |t: crate::thing::RecordV| t.name,
            |t: crate::thing::RecordV| ThingV::Record(t),
        ),
        AST::OrType(o) => defined(
            or_type_from_ast(ctx, o@),
            |t: crate::thing::OrTypeV| t.name,
            |t: crate::thing::OrTypeV| ThingV::OrType(t),
        ),
        AST::VariableDefinition(v) => defined(
            variable_from_ast(ctx, v@),
            |t: crate::thing::VariableV| t.name,
            |t: crate::thing::VariableV| ThingV::Variable(t),
        ),
        AST::FunctionDefinition(f) => defined(
            function_from_ast(ctx, f@),
            |t: crate::thing::FunctionV| t.name,
            |t: crate::thing::FunctionV| ThingV::Function(t),
        ),
        AST::ComponentDefinition(d) => defined(
            component_definition_from_ast(ctx, d@),
            |t: crate::thing::ComponentDefinitionV| t.name,
            |t: crate::thing::ComponentDefinitionV| ThingV::Component(t),
        ),
        AST::ComponentInvocation(c) => {
            let f = component_from_ast(ctx, c@, None);
            match f.result {
                Ok(Tri::Thing(t)) => Found {
                    ctx: f.ctx,
                    result: Ok(Tri::Thing(BuiltV::Instance(t))),
                },
                _ => passed(f),
            }
        },
    }
}

/// The context with `thing` committed under `name`.
pub open spec fn committed(ctx: CtxV, name: Seq<char>, thing: ThingV) -> CtxV {
    match ctx.state {
        Some(state) => CtxV {
            doc: crate::semantics::DocV { bag: ctx.doc.bag.insert(name, thing), ..ctx.doc },
            state: Some(InterpreterStateV { bag: state.bag.insert(name, thing), ..state }),
        },
        None => ctx,
    }
}

/// The context after the build of a top-level item: a definition that was
/// built is among the definitions of the session; in every other case the
/// definitions are what the build left.
pub open spec fn interpreted(ctx: CtxV, item: AST) -> CtxV {
    let f = built(ctx, item);
    match f.result {
        Ok(Tri::Thing(BuiltV::Definition { name, thing })) => committed(f.ctx, name, thing),
        _ => f.ctx,
    }
}

/// The specification-level form of what a build returned.
pub open spec fn built_view(r: Result<StateWithThing<(Built, Option<Thing>)>, Error>) -> Result<
    Tri<BuiltV>,
    ErrorV,
> {
    match r {
        Ok(StateWithThing::Thing((Built::Definition { name }, Some(thing)))) => Ok(
            Tri::Thing(BuiltV::Definition { name: name@, thing: thing@ }),
        ),
        Ok(StateWithThing::Thing((Built::Definition { name }, None))) => Ok(Tri::Continue),
        Ok(StateWithThing::Thing((Built::Instance(c), _))) => Ok(Tri::Thing(BuiltV::Instance(c@))),
        Ok(StateWithThing::State(s)) => Ok(Tri::State(s@)),
        Ok(StateWithThing::Continue) => Ok(Tri::Continue),
        Err(e) => Err(e@),
    }
}

impl<'a> TDoc<'a> {
    fn build_item(&mut self, item: &AST) -> (r: Result<StateWithThing<(Built, Option<Thing>)>, Error>)
        ensures
            final(self).name == old(self).name,
            final(self).aliases == old(self).aliases,
            final(self).ctx() == built(old(self).ctx(), *item).ctx,
            built_view(r) == built(old(self).ctx(), *item).result,
            r matches Ok(StateWithThing::Thing((Built::Definition { .. }, thing))) ==> thing is Some,
    {
        match item {
            AST::Record(x) => match Record::from_ast(x, self) {
                Ok(StateWithThing::Thing(t)) => Ok(
                    StateWithThing::Thing(
                        (Built::Definition { name: t.name.clone() }, Some(Thing::Record(t))),
                    ),
                ),
                Ok(StateWithThing::State(s)) => Ok(StateWithThing::State(s)),
                Ok(StateWithThing::Continue) => Ok(StateWithThing::Continue),
                Err(e) => Err(e),
            },
            AST::OrType(x) => match OrType::from_ast(x, self) {
                Ok(StateWithThing::Thing(t)) => Ok(
                    StateWithThing::Thing(
                        (Built::Definition { name: t.name.clone() }, Some(Thing::OrType(t))),
                    ),
                ),
                Ok(StateWithThing::State(s)) => Ok(StateWithThing::State(s)),
                Ok(StateWithThing::Continue) => Ok(StateWithThing::Continue),
                Err(e) => Err(e),
            },
            AST::VariableDefinition(x) => match Variable::from_ast(x, self) {
                Ok(StateWithThing::Thing(t)) => Ok(
                    StateWithThing::Thing(
                        (Built::Definition { name: t.name.clone() }, Some(Thing::Variable(t))),
                    ),
                ),
                Ok(StateWithThing::State(s)) => Ok(StateWithThing::State(s)),
                Ok(StateWithThing::Continue) => Ok(StateWithThing::Continue),
                Err(e) => Err(e),
            },
            AST::FunctionDefinition(x) => match Function::from_ast(x, self) {
                Ok(StateWithThing::Thing(t)) => Ok(
                    StateWithThing::Thing(
                        (Built::Definition { name: t.name.clone() }, Some(Thing::Function(t))),
                    ),
                ),
                Ok(StateWithThing::State(s)) => Ok(StateWithThing::State(s)),
                Ok(StateWithThing::Continue) => Ok(StateWithThing::Continue),
                Err(e) => Err(e),
            },
            AST::ComponentDefinition(x) => match ComponentDefinition::from_ast_definition(x, self) {
                Ok(StateWithThing::Thing(t)) => Ok(
                    StateWithThing::Thing(
                        (Built::Definition { name: t.name.clone() }, Some(Thing::Component(t))),
                    ),
                ),
                Ok(StateWithThing::State(s)) => Ok(StateWithThing::State(s)),
                Ok(StateWithThing::Continue) => Ok(StateWithThing::Continue),
                Err(e) => Err(e),
            },
            AST::ComponentInvocation(x) => match Component::from_ast_component(x, None, self) {
                Ok(StateWithThing::Thing(t)) => Ok(
                    StateWithThing::Thing((Built::Instance(t), None)),
                ),
                Ok(StateWithThing::State(s)) => Ok(StateWithThing::State(s)),
                Ok(StateWithThing::Continue) => Ok(StateWithThing::Continue),
                Err(e) => Err(e),
            },
        }
    }

    fn commit(&mut self, name: String, thing: Thing)
        ensures
            final(self).name == old(self).name,
            final(self).aliases == old(self).aliases,
            final(self).ctx() == committed(old(self).ctx(), name@, thing@),
    {
        match &mut self.bag {
            BagOrState::State(state) => {
                state.bag.insert(name, thing);
            },
            BagOrState::Bag(_) => {},
        }
    }

    /// Builds a top-level item and, if the build is resolved and gives a
    /// definition, commits the definition under its name. A build that is
    /// suspended, that queued work or that failed commits nothing.
    pub fn interpret(&mut self, item: &AST) -> (r: Result<StateWithThing<Built>, Error>)
        ensures
            final(self).name == old(self).name,
            final(self).aliases == old(self).aliases,
            final(self).ctx() == interpreted(old(self).ctx(), *item),
            match r {
                Ok(StateWithThing::Thing(Built::Definition { name })) => built(
                    old(self).ctx(),
                    *item,
                ).result matches Ok(Tri::Thing(BuiltV::Definition { name: n, .. })) && n == name@,
                Ok(StateWithThing::Thing(Built::Instance(c))) => built(
                    old(self).ctx(),
                    *item,
                ).result == Ok::<Tri<BuiltV>, ErrorV>(Tri::Thing(BuiltV::Instance(c@))),
                Ok(StateWithThing::State(s)) => built(old(self).ctx(), *item).result == Ok::<
                    Tri<BuiltV>,
                    ErrorV,
                >(Tri::State(s@)),
                Ok(StateWithThing::Continue) => built(old(self).ctx(), *item).result == Ok::<
                    Tri<BuiltV>,
                    ErrorV,
                >(Tri::Continue),
                Err(e) => built(old(self).ctx(), *item).result == Err::<Tri<BuiltV>, ErrorV>(e@),
            },
    {
        match self.build_item(item) {
            Ok(StateWithThing::Thing((Built::Definition { name }, Some(thing)))) => {
                let committed_name = name.clone();
                self.commit(committed_name, thing);
                Ok(StateWithThing::Thing(Built::Definition { name }))
            },
            Ok(StateWithThing::Thing((Built::Definition { name }, None))) => Ok(
                StateWithThing::Thing(Built::Definition { name }),
            ),
            Ok(StateWithThing::Thing((Built::Instance(c), _))) => Ok(
                StateWithThing::Thing(Built::Instance(c)),
            ),
            Ok(StateWithThing::State(s)) => Ok(StateWithThing::State(s)),
            Ok(StateWithThing::Continue) => Ok(StateWithThing::Continue),
            Err(e) => Err(e),
        }
    }
}

} // verus!
