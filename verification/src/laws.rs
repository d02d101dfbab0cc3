//! Laws of resolution and mutation, proved from the definitions.

use vstd::prelude::*;
use crate::error::{ErrorKind, ErrorV};
use crate::kind::KindDataV;
use crate::mutate::{changed, find_reference, replaceable, set_value_spec};
use crate::semantics::{
    eval_condition, initial_thing, initial_variable, resolve_named, resolve_pv, selected_value,
    DocV, RESOLVE_LIMIT,
};
use crate::thing::{ConditionalValueV, ThingV, VariableV};
use crate::builder::property_of_argument;
use crate::found::CtxV;
use crate::search::{search_initial, Tri};
use crate::state::InterpreterStateV;
use crate::typed::{lemma_literal_has_its_kind, simple_from_text};
use crate::value::{PropertyValueV, ValueV};
use crate::values::pv_from_ast;

verus! {

/// Conditional values are tried in order and the first whose condition
/// holds wins: if the conditions before position `i` are false and the one
/// at `i` is true, the variable takes the value at `i`, whatever the
/// conditions after it are.
pub proof fn lemma_first_true_condition_wins(
    doc: DocV,
    conditions: Seq<ConditionalValueV>,
    base: PropertyValueV,
    i: int,
    fuel: nat,
)
    requires
        fuel > 0,
        0 <= i < conditions.len(),
        forall|j: int|
            0 <= j < i ==> eval_condition(doc, #[trigger] conditions[j].condition, (fuel - 1) as nat)
                == Ok::<bool, ErrorV>(false),
        eval_condition(doc, conditions[i].condition, (fuel - 1) as nat) == Ok::<bool, ErrorV>(true),
    ensures
        selected_value(doc, conditions, 0, base, fuel) == Ok::<PropertyValueV, ErrorV>(
            conditions[i].value,
        ),
{
    lemma_selected_from(doc, conditions, base, 0, i, fuel);
}

proof fn lemma_selected_from(
    doc: DocV,
    conditions: Seq<ConditionalValueV>,
    base: PropertyValueV,
    from: int,
    i: int,
    fuel: nat,
)
    requires
        fuel > 0,
        0 <= from <= i < conditions.len(),
        forall|j: int|
            from <= j < i ==> eval_condition(
                doc,
                #[trigger] conditions[j].condition,
                (fuel - 1) as nat,
            ) == Ok::<bool, ErrorV>(false),
        eval_condition(doc, conditions[i].condition, (fuel - 1) as nat) == Ok::<bool, ErrorV>(true),
    ensures
        selected_value(doc, conditions, from, base, fuel) == Ok::<PropertyValueV, ErrorV>(
            conditions[i].value,
        ),
    decreases i - from,
{
    if from < i {
        lemma_selected_from(doc, conditions, base, from + 1, i, fuel);
    }
}

/// Where no condition holds the variable takes its base value.
pub proof fn lemma_no_condition_gives_base(
    doc: DocV,
    conditions: Seq<ConditionalValueV>,
    base: PropertyValueV,
    fuel: nat,
)
    requires
        fuel > 0,
        forall|j: int|
            0 <= j < conditions.len() ==> eval_condition(
                doc,
                #[trigger] conditions[j].condition,
                (fuel - 1) as nat,
            ) == Ok::<bool, ErrorV>(false),
    ensures
        selected_value(doc, conditions, 0, base, fuel) == Ok::<PropertyValueV, ErrorV>(base),
{
    lemma_base_from(doc, conditions, base, 0, fuel);
}

proof fn lemma_base_from(
    doc: DocV,
    conditions: Seq<ConditionalValueV>,
    base: PropertyValueV,
    from: int,
    fuel: nat,
)
    requires
        fuel > 0,
        0 <= from <= conditions.len(),
        forall|j: int|
            from <= j < conditions.len() ==> eval_condition(
                doc,
                #[trigger] conditions[j].condition,
                (fuel - 1) as nat,
            ) == Ok::<bool, ErrorV>(false),
    ensures
        selected_value(doc, conditions, from, base, fuel) == Ok::<PropertyValueV, ErrorV>(base),
    decreases conditions.len() - from,
{
    if from < conditions.len() {
        lemma_base_from(doc, conditions, base, from + 1, fuel);
    }
}

/// A variable with the conditional values `(c1, v1)`, `(c2, v2)` and the
/// base value `v0` resolves to what `v1` resolves to if `c1` holds,
/// whatever `c2` is, and to what `v0` resolves to if neither holds.
pub proof fn lemma_conditional_precedence(
    doc: DocV,
    name: Seq<char>,
    kind: KindDataV,
    var: VariableV,
    line_number: usize,
    fuel: nat,
)
    requires
        fuel > 1,
        initial_thing(doc, name, line_number) == Ok::<(ThingV, Option<Seq<char>>), ErrorV>(
            (ThingV::Variable(var), None),
        ),
        var.conditional_value.len() == 2,
    ensures
        eval_condition(doc, var.conditional_value[0].condition, (fuel - 2) as nat) == Ok::<
            bool,
            ErrorV,
        >(true) ==> resolve_named(doc, name, kind, line_number, fuel) == resolve_pv(
            doc,
            var.conditional_value[0].value,
            line_number,
            (fuel - 1) as nat,
        ),
        eval_condition(doc, var.conditional_value[0].condition, (fuel - 2) as nat) == Ok::<
            bool,
            ErrorV,
        >(false) && eval_condition(doc, var.conditional_value[1].condition, (fuel - 2) as nat)
            == Ok::<bool, ErrorV>(false) ==> resolve_named(doc, name, kind, line_number, fuel)
            == resolve_pv(doc, var.value, line_number, (fuel - 1) as nat),
{
    let c = var.conditional_value;
    let f = (fuel - 1) as nat;
    if eval_condition(doc, c[0].condition, (fuel - 2) as nat) == Ok::<bool, ErrorV>(true) {
        lemma_first_true_condition_wins(doc, c, var.value, 0, f);
    }
    if eval_condition(doc, c[0].condition, (fuel - 2) as nat) == Ok::<bool, ErrorV>(false)
        && eval_condition(doc, c[1].condition, (fuel - 2) as nat) == Ok::<bool, ErrorV>(false) {
        lemma_no_condition_gives_base(doc, c, var.value, f);
    }
}

/// Whether a property value is a reference to, or a copy of, `name`.
pub open spec fn links_to(value: PropertyValueV, name: Seq<char>) -> bool {
    match value {
        PropertyValueV::Reference { name: n, .. } => n == name,
        PropertyValueV::Clone { name: n, .. } => n == name,
        _ => false,
    }
}

/// Two variables that refer to each other do not resolve: with whatever
/// budget of steps, resolution of either ends in the error that a name has
/// no value.
pub proof fn lemma_cycle_fails(
    doc: DocV,
    a: Seq<char>,
    b: Seq<char>,
    var_a: VariableV,
    var_b: VariableV,
    rest_a: Option<Seq<char>>,
    rest_b: Option<Seq<char>>,
    kind: KindDataV,
    line_number: usize,
    fuel: nat,
)
    requires
        initial_thing(doc, a, line_number) == Ok::<(ThingV, Option<Seq<char>>), ErrorV>(
            (ThingV::Variable(var_a), rest_a),
        ),
        initial_thing(doc, b, line_number) == Ok::<(ThingV, Option<Seq<char>>), ErrorV>(
            (ThingV::Variable(var_b), rest_b),
        ),
        var_a.conditional_value.len() == 0,
        var_b.conditional_value.len() == 0,
        links_to(var_a.value, b),
        links_to(var_b.value, a),
    ensures
        resolve_named(doc, a, kind, line_number, fuel) is Err,
        resolve_named(doc, a, kind, line_number, fuel)->Err_0.kind == ErrorKind::ValueNotFound,
        resolve_named(doc, b, kind, line_number, fuel) is Err,
        resolve_named(doc, b, kind, line_number, fuel)->Err_0.kind == ErrorKind::ValueNotFound,
    decreases fuel,
{
    if fuel >= 2 {
        lemma_cycle_fails(
            doc,
            a,
            b,
            var_a,
            var_b,
            rest_a,
            rest_b,
            link_kind(var_a.value),
            line_number,
            (fuel - 2) as nat,
        );
        lemma_cycle_fails(
            doc,
            a,
            b,
            var_a,
            var_b,
            rest_a,
            rest_b,
            link_kind(var_b.value),
            line_number,
            (fuel - 2) as nat,
        );
        assert(resolve_pv(doc, var_a.value, line_number, (fuel - 1) as nat) == resolve_named(
            doc,
            b,
            link_kind(var_a.value),
            line_number,
            (fuel - 2) as nat,
        ));
        assert(resolve_pv(doc, var_b.value, line_number, (fuel - 1) as nat) == resolve_named(
            doc,
            a,
            link_kind(var_b.value),
            line_number,
            (fuel - 2) as nat,
        ));
    }
}

/// The value that a literal holds.
pub open spec fn literal_of(value: PropertyValueV) -> ValueV {
    match value {
        PropertyValueV::Value { value, .. } => value,
        _ => arbitrary(),
    }
}

/// The kind that a reference or a copy declares.
pub open spec fn link_kind(value: PropertyValueV) -> KindDataV {
    match value {
        PropertyValueV::Reference { kind, .. } => kind,
        PropertyValueV::Clone { kind, .. } => kind,
        _ => arbitrary(),
    }
}

/// The name under which `name` finds its definition in `doc`.
pub open spec fn lookup_key(doc: DocV, name: Seq<char>) -> Seq<char> {
    let full = crate::names::resolved_name(crate::names::strip_marker(name), doc.name, doc.aliases);
    let first = match crate::names::function_name(full) {
        Some(f) => f,
        None => crate::names::doc_name_and_remaining(full).0,
    };
    if doc.bag.contains_key(first) {
        first
    } else {
        full
    }
}

/// The document `doc` once `variable` has been put back under the name
/// under which `name` finds its definition.
pub open spec fn with_variable(doc: DocV, name: Seq<char>, variable: VariableV) -> DocV {
    DocV { bag: doc.bag.insert(lookup_key(doc, name), ThingV::Variable(variable)), ..doc }
}

/// A mutation is seen through a reference: once a mutable variable that
/// holds a literal has been set to the literal `set` and put back, the name
/// resolves to the value of `set`.
pub proof fn lemma_reference_observes_mutation(
    doc: DocV,
    name: Seq<char>,
    var: VariableV,
    set: PropertyValueV,
    kind: KindDataV,
    line_number: usize,
    fuel: nat,
)
    requires
        fuel >= 2,
        initial_thing(doc, name, line_number) == Ok::<(ThingV, Option<Seq<char>>), ErrorV>(
            (ThingV::Variable(var), None),
        ),
        var.mutable,
        var.value is Value,
        var.conditional_value.len() == 0,
        set is Value,
        replaceable(var.value, set),
    ensures
        set_value_spec(doc, name, set, line_number) == Ok::<VariableV, ErrorV>(
            VariableV { value: set, ..var },
        ),
        resolve_named(
            with_variable(doc, name, VariableV { value: set, ..var }),
            name,
            kind,
            line_number,
            fuel,
        ) == Ok::<ValueV, ErrorV>(literal_of(set)),
{
    let updated = VariableV { value: set, ..var };
    assert(initial_variable(doc, name, line_number) == Ok::<
        (VariableV, Option<Seq<char>>),
        ErrorV,
    >((var, None)));
    assert(find_reference(doc, var.value, None, None, line_number, RESOLVE_LIMIT as nat) == Ok::<
        Option<(VariableV, Option<Seq<char>>)>,
        ErrorV,
    >(None));
    assert(changed(doc, var.value, set, None, line_number, RESOLVE_LIMIT as nat) == Ok::<
        PropertyValueV,
        ErrorV,
    >(set));
    let doc2 = with_variable(doc, name, updated);
    assert(initial_thing(doc2, name, line_number) == Ok::<(ThingV, Option<Seq<char>>), ErrorV>(
        (ThingV::Variable(updated), None),
    ));
    assert(selected_value(doc2, updated.conditional_value, 0, set, (fuel - 1) as nat) == Ok::<
        PropertyValueV,
        ErrorV,
    >(set));
}

/// A copy is a boundary of mutation: setting a mutable variable that holds
/// a copy of another variable changes the holder alone. The variable that
/// comes back is the holder with the new value, and putting it back leaves
/// every other name of the session with the definition it had.
pub proof fn lemma_copy_bounds_mutation(
    doc: DocV,
    name: Seq<char>,
    var: VariableV,
    set: PropertyValueV,
    other: Seq<char>,
    line_number: usize,
)
    requires
        initial_thing(doc, name, line_number) == Ok::<(ThingV, Option<Seq<char>>), ErrorV>(
            (ThingV::Variable(var), None),
        ),
        var.mutable,
        var.value is Clone,
        replaceable(var.value, set),
        other != lookup_key(doc, name),
    ensures
        set_value_spec(doc, name, set, line_number) == Ok::<VariableV, ErrorV>(
            VariableV { value: set, ..var },
        ),
        with_variable(doc, name, VariableV { value: set, ..var }).bag.contains_key(other)
            == doc.bag.contains_key(other),
        doc.bag.contains_key(other) ==> with_variable(
            doc,
            name,
            VariableV { value: set, ..var },
        ).bag[other] == doc.bag[other],
{
    assert(initial_variable(doc, name, line_number) == Ok::<
        (VariableV, Option<Seq<char>>),
        ErrorV,
    >((var, None)));
    assert(find_reference(doc, var.value, None, None, line_number, RESOLVE_LIMIT as nat) == Ok::<
        Option<(VariableV, Option<Seq<char>>)>,
        ErrorV,
    >(None));
    assert(changed(doc, var.value, set, None, line_number, RESOLVE_LIMIT as nat) == Ok::<
        PropertyValueV,
        ErrorV,
    >(set));
}

/// Kind safety of typed values: a property value that is built where a
/// value of the kind `expected` is expected has exactly that kind. A
/// written value of another kind does not build: it is an error.
pub proof fn lemma_built_value_has_expected_kind(
    ctx: CtxV,
    value: crate::ast::VariableValueV,
    is_mutable: bool,
    expected: KindDataV,
    definition: Option<(Seq<char>, Seq<crate::thing::FieldV>)>,
    loop_object: Option<(Seq<char>, crate::thing::FieldV)>,
)
    ensures
        match pv_from_ast(ctx, value, is_mutable, Some(expected), definition, loop_object).result {
            Ok(Tri::Thing(pv)) => pv.kind() == expected.kind,
            _ => true,
        },
{
    reveal(simple_from_text);
    match value {
        crate::ast::VariableValueV::String { value: text, line_number } => {
            lemma_literal_has_its_kind(text, expected.kind, ctx.doc.name, line_number);
        },
        _ => {},
    }
}

/// Kind safety of properties: the value of a property that is built for an
/// instance has exactly the kind of the argument that the property binds.
pub proof fn lemma_property_has_kind_of_argument(
    ctx: CtxV,
    p: crate::ast::PropertyV,
    argument: crate::thing::FieldV,
    definition: Option<(Seq<char>, Seq<crate::thing::FieldV>)>,
    loop_object: Option<(Seq<char>, crate::thing::FieldV)>,
)
    ensures
        match property_of_argument(ctx, p, argument, definition, loop_object).result {
            Ok(Tri::Thing(property)) => property.value.kind() == argument.kind.kind,
            _ => true,
        },
{
    lemma_built_value_has_expected_kind(
        ctx,
        p.value,
        argument.mutable,
        argument.kind,
        definition,
        loop_object,
    );
}

/// Whether two states of a session differ in nothing but the imports that
/// are waited for.
pub open spec fn agree_but_imports(a: InterpreterStateV, b: InterpreterStateV) -> bool {
    a.id == b.id && a.bag == b.bag && a.to_process == b.to_process && a.parsed_libs
        == b.parsed_libs
}

/// The state in which `document` is registered under `id`.
pub open spec fn with_document(
    state: InterpreterStateV,
    id: Seq<char>,
    document: crate::state::ParsedDocumentV,
) -> InterpreterStateV {
    InterpreterStateV {
        parsed_libs: crate::state::registered(state.parsed_libs, id, document),
        ..state
    }
}

/// The first step of a lookup does not read the imports that are waited
/// for, and touches neither the definitions nor the registered documents.
pub proof fn lemma_search_ignores_imports(
    a: InterpreterStateV,
    b: InterpreterStateV,
    doc_name: Seq<char>,
    aliases: Seq<(Seq<char>, Seq<char>)>,
    name: Seq<char>,
    line_number: usize,
)
    requires
        agree_but_imports(a, b),
    ensures
        search_initial(a, doc_name, aliases, name, line_number).result == search_initial(
            b,
            doc_name,
            aliases,
            name,
            line_number,
        ).result,
        agree_but_imports(
            search_initial(a, doc_name, aliases, name, line_number).state,
            search_initial(b, doc_name, aliases, name, line_number).state,
        ),
        search_initial(a, doc_name, aliases, name, line_number).state.bag == a.bag,
        search_initial(a, doc_name, aliases, name, line_number).state.parsed_libs == a.parsed_libs,
        search_initial(a, doc_name, aliases, name, line_number).state.id == a.id,
{
}

/// Suspension can be resumed: if the first step of a lookup asks for the
/// document `module`, then the same step, taken again once the document is
/// registered, gives what it would have given had the document been
/// registered from the start, and the two states differ in nothing but the
/// imports that were noted in between.
pub proof fn lemma_suspension_resumable(
    state: InterpreterStateV,
    doc_name: Seq<char>,
    aliases: Seq<(Seq<char>, Seq<char>)>,
    name: Seq<char>,
    line_number: usize,
    module: Seq<char>,
    caller: Seq<char>,
    document: crate::state::ParsedDocumentV,
)
    requires
        search_initial(state, doc_name, aliases, name, line_number).result == Ok::<
            Tri<(ThingV, Option<Seq<char>>)>,
            ErrorV,
        >(
            Tri::State(
                crate::state::InterpreterWithoutStateV::StuckOnImport {
                    module,
                    caller_module: caller,
                },
            ),
        ),
    ensures
        search_initial(
            with_document(
                search_initial(state, doc_name, aliases, name, line_number).state,
                module,
                document,
            ),
            doc_name,
            aliases,
            name,
            line_number,
        ).result == search_initial(
            with_document(state, module, document),
            doc_name,
            aliases,
            name,
            line_number,
        ).result,
        agree_but_imports(
            search_initial(
                with_document(
                    search_initial(state, doc_name, aliases, name, line_number).state,
                    module,
                    document,
                ),
                doc_name,
                aliases,
                name,
                line_number,
            ).state,
            search_initial(
                with_document(state, module, document),
                doc_name,
                aliases,
                name,
                line_number,
            ).state,
        ),
{
    let suspended = search_initial(state, doc_name, aliases, name, line_number).state;
    lemma_search_ignores_imports(suspended, state, doc_name, aliases, name, line_number);
    lemma_search_ignores_imports(
        with_document(suspended, module, document),
        with_document(state, module, document),
        doc_name,
        aliases,
        name,
        line_number,
    );
}

/// The retry bound: work is never queued below an item that is already
/// deeper than the limit; the lookup that would queue it ends in the error
/// that the name has no definition, and leaves the state as it was.
pub proof fn lemma_retry_bound(
    state: InterpreterStateV,
    doc: Seq<char>,
    items: Seq<usize>,
    qualified: Seq<char>,
    full: Seq<char>,
    doc_name: Seq<char>,
    line_number: usize,
)
    requires
        crate::search::top_depth(state) > crate::search::RETRY_LIMIT,
    ensures
        crate::search::queued(state, doc, items, qualified, full, doc_name, line_number).state
            == state,
        crate::search::queued(state, doc, items, qualified, full, doc_name, line_number).result
            is Err,
        crate::search::queued(
            state,
            doc,
            items,
            qualified,
            full,
            doc_name,
            line_number,
        ).result->Err_0.kind == ErrorKind::ValueNotFound,
{
}


/// Lists are homogeneous: every item of a list that is built where items
/// of the kind `item` are expected has exactly that kind.
pub proof fn lemma_built_list_is_homogeneous(
    ctx: CtxV,
    items: Seq<crate::ast::VariableValueV>,
    from: int,
    done: Seq<PropertyValueV>,
    is_mutable: bool,
    item: KindDataV,
    definition: Option<(Seq<char>, Seq<crate::thing::FieldV>)>,
    loop_object: Option<(Seq<char>, crate::thing::FieldV)>,
)
    requires
        0 <= from,
        forall|i: int| 0 <= i < done.len() ==> (#[trigger] done[i]).kind() == item.kind,
    ensures
        match crate::values::list_items(
            ctx,
            items,
            from,
            done,
            is_mutable,
            item,
            definition,
            loop_object,
        ).result {
            Ok(Tri::Thing(data)) => forall|i: int|
                0 <= i < data.len() ==> (#[trigger] data[i]).kind() == item.kind,
            _ => true,
        },
    decreases items.len() - from,
{
    if from < items.len() {
        let f = pv_from_ast(ctx, items[from], is_mutable, Some(item), definition, loop_object);
        lemma_built_value_has_expected_kind(
            ctx,
            items[from],
            is_mutable,
            item,
            definition,
            loop_object,
        );
        match f.result {
            Ok(Tri::Thing(pv)) => {
                lemma_built_list_is_homogeneous(
                    f.ctx,
                    items,
                    from + 1,
                    done.push(pv),
                    is_mutable,
                    item,
                    definition,
                    loop_object,
                );
            },
            _ => {},
        }
    }
}

} // verus!
