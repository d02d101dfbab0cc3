//! Suspension and resumption of incremental lookup: a lookup reads neither
//! the imports that are waited for nor changes anything else unless it
//! queues work, so a lookup that asked for a document gives, once the
//! document is registered, what it would have given had the document been
//! there from the start.

use vstd::prelude::*;
use crate::error::ErrorV;
use crate::found::{
    first_step, found_at, found_entry, found_step, found_thing, found_unset, CtxV, Found,
};
use crate::kind::record_name_of;
use crate::laws::{agree_but_imports, lemma_search_ignores_imports, with_document};
use crate::lookup::member;
use crate::names::{one, split_at_spec};
use crate::search::Tri;
use crate::semantics::resolve_pv;
use crate::state::{InterpreterWithoutStateV, ParsedDocumentV};
use crate::thing::{ThingV, VariableV};
use crate::value::PropertyValueV;

verus! {

/// Whether two contexts differ in nothing but the imports that are waited
/// for.
pub open spec fn agree(a: CtxV, b: CtxV) -> bool {
    a.doc == b.doc && match (a.state, b.state) {
        (Some(x), Some(y)) => agree_but_imports(x, y),
        (None, None) => true,
        _ => false,
    }
}

/// The context in which `document` is registered under `id`.
pub open spec fn registered_in(ctx: CtxV, id: Seq<char>, document: ParsedDocumentV) -> CtxV {
    match ctx.state {
        Some(state) => CtxV { doc: ctx.doc, state: Some(with_document(state, id, document)) },
        None => ctx,
    }
}

/// Whether two outcomes are the same but for the imports that are waited
/// for.
pub open spec fn same<T>(a: Found<T>, b: Found<T>) -> bool {
    a.result == b.result && agree(a.ctx, b.ctx)
}

/// Whether an outcome left the context as it was, but for the imports that
/// are waited for, unless work was queued.
pub open spec fn kept<T>(f: Found<T>, ctx: CtxV) -> bool {
    f.result != Ok::<Tri<T>, ErrorV>(Tri::Continue) ==> agree(f.ctx, ctx)
}

proof fn lemma_first_step(a: CtxV, b: CtxV, name: Seq<char>, line_number: usize)
    requires
        agree(a, b),
    ensures
        same(first_step(a, name, line_number), first_step(b, name, line_number)),
        kept(first_step(a, name, line_number), a),
        first_step(a, name, line_number).result is Ok && first_step(
            a,
            name,
            line_number,
        ).result->Ok_0 is Thing ==> first_step(a, name, line_number).ctx == a,
{
    if a.state is Some {
        lemma_search_ignores_imports(
            a.state->0,
            b.state->0,
            a.doc.name,
            a.doc.aliases,
            name,
            line_number,
        );
    }
}

/// A lookup does not read the imports that are waited for, and leaves
/// everything else as it was unless it queues work.
pub proof fn lemma_lookup_ignores_imports(
    a: CtxV,
    b: CtxV,
    name: Seq<char>,
    line_number: usize,
    fuel: nat,
)
    requires
        agree(a, b),
    ensures
        same(found_thing(a, name, line_number, fuel), found_thing(b, name, line_number, fuel)),
        kept(found_thing(a, name, line_number, fuel), a),
    decreases fuel, 0nat,
{
    if fuel > 0 {
        lemma_first_step(a, b, name, line_number);
        let fa = first_step(a, name, line_number);
        let fb = first_step(b, name, line_number);
        match fa.result {
            Ok(Tri::Thing((thing, remaining))) => match remaining {
                Some(path) => {
                    lemma_at(fa.ctx, fb.ctx, line_number, path, thing, (fuel - 1) as nat);
                },
                None => {},
            },
            _ => {},
        }
    }
}

proof fn lemma_at(
    a: CtxV,
    b: CtxV,
    line_number: usize,
    path: Seq<char>,
    thing: ThingV,
    fuel: nat,
)
    requires
        agree(a, b),
    ensures
        same(
            found_at(a, line_number, path, thing, fuel),
            found_at(b, line_number, path, thing, fuel),
        ),
        kept(found_at(a, line_number, path, thing, fuel), a),
    decreases fuel, 3nat,
{
    if fuel > 0 {
        let (first, remaining) = split_at_spec(path, one('.'));
        lemma_step(a, b, line_number, first, thing, fuel);
        let fa = found_step(a, line_number, first, thing, fuel);
        let fb = found_step(b, line_number, first, thing, fuel);
        match fa.result {
            Ok(Tri::Thing(t)) => match remaining {
                Some(rest) => {
                    lemma_at(fa.ctx, fb.ctx, line_number, rest, t, (fuel - 1) as nat);
                },
                None => {},
            },
            _ => {},
        }
    }
}

proof fn lemma_step(
    a: CtxV,
    b: CtxV,
    line_number: usize,
    first: Seq<char>,
    thing: ThingV,
    fuel: nat,
)
    requires
        agree(a, b),
    ensures
        same(
            found_step(a, line_number, first, thing, fuel),
            found_step(b, line_number, first, thing, fuel),
        ),
        kept(found_step(a, line_number, first, thing, fuel), a),
    decreases fuel, 2nat,
{
    match thing {
        ThingV::Variable(var) => match resolve_pv(a.doc, var.value, line_number, fuel) {
            Err(_) => {},
            Ok(value) => match value.inner() {
                None => {
                    lemma_unset(a, b, line_number, first, var, fuel);
                },
                Some(inner) => match member(inner, first) {
                    None => {},
                    Some(entry) => {
                        lemma_entry(a, b, line_number, var, entry, fuel);
                    },
                },
            },
        },
        _ => {},
    }
}

proof fn lemma_unset(
    a: CtxV,
    b: CtxV,
    line_number: usize,
    first: Seq<char>,
    var: VariableV,
    fuel: nat,
)
    requires
        agree(a, b),
    ensures
        same(
            found_unset(a, line_number, first, var, fuel),
            found_unset(b, line_number, first, var, fuel),
        ),
        kept(found_unset(a, line_number, first, var, fuel), a),
    decreases fuel, 1nat,
{
    if fuel > 0 {
        match record_name_of(var.value.kind()) {
            None => {},
            Some(kind_name) => {
                lemma_lookup_ignores_imports(a, b, kind_name, line_number, (fuel - 1) as nat);
            },
        }
    }
}

proof fn lemma_entry(
    a: CtxV,
    b: CtxV,
    line_number: usize,
    var: VariableV,
    entry: Option<PropertyValueV>,
    fuel: nat,
)
    requires
        agree(a, b),
    ensures
        same(
            found_entry(a, line_number, var, entry, fuel),
            found_entry(b, line_number, var, entry, fuel),
        ),
        kept(found_entry(a, line_number, var, entry, fuel), a),
    decreases fuel, 1nat,
{
    if fuel > 0 {
        match entry {
            Some(PropertyValueV::Reference { name, .. }) => {
                lemma_lookup_ignores_imports(a, b, name, line_number, (fuel - 1) as nat);
            },
            Some(PropertyValueV::Clone { name, .. }) => {
                lemma_lookup_ignores_imports(a, b, name, line_number, (fuel - 1) as nat);
            },
            _ => {},
        }
    }
}

/// Suspension can be resumed: if a lookup asks for the document `module`,
/// then the same lookup, taken again once the document is registered, gives
/// what it would have given had the document been registered from the
/// start.
pub proof fn lemma_lookup_resumable(
    ctx: CtxV,
    name: Seq<char>,
    line_number: usize,
    fuel: nat,
    module: Seq<char>,
    caller: Seq<char>,
    document: ParsedDocumentV,
)
    requires
        found_thing(ctx, name, line_number, fuel).result == Ok::<Tri<ThingV>, ErrorV>(
            Tri::State(InterpreterWithoutStateV::StuckOnImport { module, caller_module: caller }),
        ),
    ensures
        same(
            found_thing(
                registered_in(found_thing(ctx, name, line_number, fuel).ctx, module, document),
                name,
                line_number,
                fuel,
            ),
            found_thing(registered_in(ctx, module, document), name, line_number, fuel),
        ),
{
    lemma_lookup_ignores_imports(ctx, ctx, name, line_number, fuel);
    let suspended = found_thing(ctx, name, line_number, fuel).ctx;
    lemma_lookup_ignores_imports(
        registered_in(suspended, module, document),
        registered_in(ctx, module, document),
        name,
        line_number,
        fuel,
    );
}

} // verus!
