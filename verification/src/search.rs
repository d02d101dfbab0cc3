//! The first step of incremental lookup: find the definition that a name
//! starts from, or queue what has to be built, or say which document or
//! which variable the driver has to supply.

use vstd::prelude::*;
use crate::error::{error, fail, Error, ErrorKind, ErrorV};
use crate::kind::opt_text;
use crate::names::{
    doc_name_and_thing_name_and_remaining, get_doc_name_and_thing_name_and_remaining, one, pairs,
    resolved_name, strip_marker, without_marker, Aliases, FTD_INHERITED,
};
use crate::semantics::{initial_thing, DocV};
use crate::state::{
    pairs_contain, pairs_insert, top_item, InterpreterState, InterpreterStateV,
    InterpreterWithoutState, InterpreterWithoutStateV, ParsedDocument, ParsedDocumentV,
    PendingImportsV, StateWithThing, ToProcessV,
};
use crate::tdoc::{BagOrState, TDoc};
use crate::text::{concat2, concat3, has_prefix, str_eq, str_starts_with};
use crate::thing::{find_key, Thing, ThingV};
use crate::value::texts;

verus! {

/// The depth of queued work beyond which a name counts as unresolvable.
pub const RETRY_LIMIT: usize = 4;

/// Specification-level outcome of a step of incremental resolution.
pub enum Tri<T> {
    Thing(T),
    State(InterpreterWithoutStateV),
    Continue,
}

/// The state that a step leaves behind, and what it returns.
pub struct Outcome<T> {
    pub state: InterpreterStateV,
    pub result: Result<Tri<T>, ErrorV>,
}

/// Specification-level outcome of a step that did not find what it looked
/// for.
pub enum Pending {
    State(InterpreterWithoutStateV),
    Continue,
}

/// The state that such a step leaves behind, and what it returns.
pub struct Missing {
    pub state: InterpreterStateV,
    pub result: Result<Pending, ErrorV>,
}

/// The outcome of a step that did not find what it looked for, as the
/// outcome of a step that looks for a `T`.
pub open spec fn unfound<T>(m: Missing) -> Outcome<T> {
    Outcome {
        state: m.state,
        result: match m.result {
            Ok(Pending::State(s)) => Ok(Tri::State(s)),
            Ok(Pending::Continue) => Ok(Tri::Continue),
            Err(e) => Err(e),
        },
    }
}

/// What an executable step returned, if it did not find what it looked for.
pub open spec fn unresolved<T>(r: Result<StateWithThing<T>, Error>) -> Option<
    Result<Pending, ErrorV>,
> {
    match r {
        Ok(StateWithThing::Thing(_)) => None,
        Ok(StateWithThing::State(s)) => Some(Ok(Pending::State(s@))),
        Ok(StateWithThing::Continue) => Some(Ok(Pending::Continue)),
        Err(e) => Some(Err(e@)),
    }
}

/// The name by which an item is compared: its own name, or, with `via`,
/// the fully qualified form of its name in the document `via`.
pub open spec fn item_name(doc: ParsedDocumentV, i: int, via: Option<Seq<char>>) -> Seq<char> {
    match via {
        Some(id) => resolved_name(doc.items[i].name, id, doc.doc_aliases),
        None => doc.items[i].name,
    }
}

/// Whether the item at `i` defines `target` or a part of it: it is no
/// component instance, and its name is `target` or begins with `target.`.
pub open spec fn item_matches(
    doc: ParsedDocumentV,
    i: int,
    via: Option<Seq<char>>,
    target: Seq<char>,
) -> bool {
    !doc.items[i].is_component && (item_name(doc, i, via) == target || has_prefix(
        item_name(doc, i, via),
        target + one('.'),
    ))
}

/// The positions from `from` on of the items that match `target`, after
/// those in `acc`.
pub open spec fn matching(
    doc: ParsedDocumentV,
    via: Option<Seq<char>>,
    target: Seq<char>,
    from: int,
    acc: Seq<usize>,
) -> Seq<usize>
    decreases doc.items.len() - from,
{
    if from < 0 || from >= doc.items.len() {
        acc
    } else if item_matches(doc, from, via, target) {
        matching(doc, via, target, from + 1, acc.push(from as usize))
    } else {
        matching(doc, via, target, from + 1, acc)
    }
}

/// The depth of the item on top of the work stack, 0 on an empty stack.
pub open spec fn top_depth(state: InterpreterStateV) -> usize {
    match top_item(state.to_process.stack) {
        Some((_, depth, _)) => depth,
        None => 0,
    }
}

/// The error of a name that cannot be found.
pub open spec fn not_found(full: Seq<char>, doc_name: Seq<char>, line_number: usize) -> ErrorV {
    error(ErrorKind::ValueNotFound, full, doc_name, line_number)
}

/// The state with one more batch on the work stack.
pub open spec fn with_batch(
    state: InterpreterStateV,
    doc: Seq<char>,
    items: Seq<(usize, usize)>,
    qualified: Seq<char>,
) -> InterpreterStateV {
    InterpreterStateV {
        to_process: ToProcessV {
            stack: state.to_process.stack.push((doc, items)),
            contains: state.to_process.contains.insert((doc, qualified)),
        },
        ..state
    }
}

/// The state with one more import waited for.
pub open spec fn with_import(
    state: InterpreterStateV,
    module: Seq<char>,
    full: Seq<char>,
    line_number: usize,
    caller: Seq<char>,
) -> InterpreterStateV {
    InterpreterStateV {
        pending_imports: PendingImportsV {
            stack: state.pending_imports.stack.push((module, full, line_number, caller)),
            contains: state.pending_imports.contains,
        },
        ..state
    }
}

/// The state with one more import waited for and remembered.
pub open spec fn with_noted_import(
    state: InterpreterStateV,
    module: Seq<char>,
    full: Seq<char>,
    line_number: usize,
    caller: Seq<char>,
    qualified: Seq<char>,
) -> InterpreterStateV {
    InterpreterStateV {
        pending_imports: PendingImportsV {
            stack: state.pending_imports.stack.push((module, full, line_number, caller)),
            contains: state.pending_imports.contains.insert((module, qualified)),
        },
        ..state
    }
}

/// The items of the document under construction that define `qualified`,
/// where the name belongs to another document.
pub open spec fn own_items(state: InterpreterStateV, doc_id: Seq<char>, qualified: Seq<char>) -> Seq<
    usize,
> {
    let current = find_key(state.parsed_libs, state.id, 0);
    if doc_id != state.id && current >= 0 {
        matching(state.parsed_libs[current].1, Some(state.id), qualified, 0, Seq::empty())
    } else {
        Seq::empty()
    }
}

/// The batch of the items at `positions`, each at the depth `depth`.
pub open spec fn batch_of(positions: Seq<usize>, depth: usize) -> Seq<(usize, usize)> {
    Seq::new(positions.len(), |i: int| (depth, positions[i]))
}

/// What queuing the items at `items` of the document `doc` gives: the
/// notice to go on, with the items one level deeper than the item on top of
/// the stack, unless that item is already deeper than the limit, which is
/// the error of a name that cannot be found.
pub open spec fn queued(
    state: InterpreterStateV,
    doc: Seq<char>,
    items: Seq<usize>,
    qualified: Seq<char>,
    full: Seq<char>,
    doc_name: Seq<char>,
    line_number: usize,
) -> Missing {
    if top_depth(state) > RETRY_LIMIT {
        Missing { state, result: Err(not_found(full, doc_name, line_number)) }
    } else {
        Missing {
            state: with_batch(
                state,
                doc,
                batch_of(items, (top_depth(state) + 1) as usize),
                qualified,
            ),
            result: Ok(Pending::Continue),
        }
    }
}

/// What a lookup in the registered document at `lib` gives.
pub open spec fn searched_in(
    state: InterpreterStateV,
    lib: int,
    doc_id: Seq<char>,
    thing_name: Seq<char>,
    remaining: Option<Seq<char>>,
    full: Seq<char>,
    doc_name: Seq<char>,
    line_number: usize,
) -> Missing {
    let found = matching(state.parsed_libs[lib].1, None, thing_name, 0, Seq::empty());
    if found.len() == 0 {
        if state.parsed_libs[lib].1.foreign_variable.contains(thing_name) {
            Missing {
                state,
                result: Ok(
                    Pending::State(
                        InterpreterWithoutStateV::StuckOnForeignVariable {
                            module: doc_id,
                            variable: match remaining {
                                Some(rest) => thing_name + one('.') + rest,
                                None => thing_name,
                            },
                            caller_module: doc_name,
                        },
                    ),
                ),
            }
        } else {
            Missing { state, result: Err(not_found(full, doc_name, line_number)) }
        }
    } else {
        queued(state, doc_id, found, doc_id + one('#') + thing_name, full, doc_name, line_number)
    }
}

/// What the search for a name that is not among the definitions gives.
pub open spec fn searched_missing(
    state: InterpreterStateV,
    doc_name: Seq<char>,
    aliases: Seq<(Seq<char>, Seq<char>)>,
    name: Seq<char>,
    line_number: usize,
) -> Missing {
    let full = resolved_name(strip_marker(name), doc_name, aliases);
    let (doc_id, thing_name, remaining) = doc_name_and_thing_name_and_remaining(full, doc_name);
    let qualified = doc_id + one('#') + thing_name;
    let own = own_items(state, doc_id, qualified);
    if own.len() > 0 {
        queued(state, state.id, own, qualified, full, doc_name, line_number)
    } else {
        let lib = find_key(state.parsed_libs, doc_id, 0);
        if lib >= 0 {
            searched_in(state, lib, doc_id, thing_name, remaining, full, doc_name, line_number)
        } else if doc_id == doc_name {
            Missing { state, result: Err(not_found(full, doc_name, line_number)) }
        } else {
            Missing {
                state: with_import(state, doc_id, full, line_number, doc_name),
                result: Ok(
                    Pending::State(
                        InterpreterWithoutStateV::StuckOnImport {
                            module: doc_id,
                            caller_module: doc_name,
                        },
                    ),
                ),
            }
        }
    }
}

/// The first step of incremental lookup. A name whose first part is among
/// the definitions gives that definition and the rest of the name. Else:
/// items of the document under construction that define the name are
/// queued; else the matching items of the registered document that the name
/// belongs to are queued, or the foreign variable is asked for; else the
/// document is asked for.
pub open spec fn search_initial(
    state: InterpreterStateV,
    doc_name: Seq<char>,
    aliases: Seq<(Seq<char>, Seq<char>)>,
    name: Seq<char>,
    line_number: usize,
) -> Outcome<(ThingV, Option<Seq<char>>)> {
    match initial_thing(DocV { name: doc_name, aliases, bag: state.bag }, name, line_number) {
        Ok(found) => Outcome { state, result: Ok(Tri::Thing(found)) },
        Err(_) => unfound(searched_missing(state, doc_name, aliases, name, line_number)),
    }
}

/// What the scan of a name does to the state: nothing if the name is among
/// the definitions or belongs to the inherited values; else the document is
/// noted as waited for, once for each name if it is registered and defines
/// the name, and every time if it is not registered or declares the name as
/// a foreign variable.
pub open spec fn scanned(
    state: InterpreterStateV,
    doc_name: Seq<char>,
    aliases: Seq<(Seq<char>, Seq<char>)>,
    name: Seq<char>,
    line_number: usize,
) -> InterpreterStateV {
    let full = resolved_name(strip_marker(name), doc_name, aliases);
    let (doc_id, thing_name, _) = doc_name_and_thing_name_and_remaining(full, doc_name);
    let qualified = doc_id + one('#') + thing_name;
    if initial_thing(DocV { name: doc_name, aliases, bag: state.bag }, name, line_number) is Ok
        || doc_id == FTD_INHERITED@ {
        state
    } else {
        let lib = find_key(state.parsed_libs, doc_id, 0);
        if lib >= 0 {
            let found = matching(state.parsed_libs[lib].1, None, thing_name, 0, Seq::empty());
            if found.len() == 0 {
                if state.parsed_libs[lib].1.foreign_variable.contains(thing_name) {
                    with_noted_import(state, doc_id, full, line_number, doc_name, qualified)
                } else {
                    state
                }
            } else if state.pending_imports.contains.contains((doc_id, qualified)) {
                state
            } else {
                with_noted_import(state, doc_id, full, line_number, doc_name, qualified)
            }
        } else {
            with_noted_import(state, doc_id, full, line_number, doc_name, qualified)
        }
    }
}

/// The specification-level form of the outcome of the first step.
pub open spec fn tri_thing_and_rest(
    r: Result<StateWithThing<(Thing, Option<String>)>, Error>,
) -> Result<Tri<(ThingV, Option<Seq<char>>)>, ErrorV> {
    match r {
        Ok(StateWithThing::Thing((thing, rest))) => Ok(Tri::Thing((thing@, opt_text(rest)))),
        Ok(StateWithThing::State(s)) => Ok(Tri::State(s@)),
        Ok(StateWithThing::Continue) => Ok(Tri::Continue),
        Err(e) => Err(e@),
    }
}

/// Whether a list of texts holds `key`.
pub fn texts_contain(v: &Vec<String>, key: &str) -> (r: bool)
    ensures
        r == texts(v@).contains(key@),
{
    let mut i: usize = 0;
    while i < v.len()
        invariant
            i <= v.len(),
            forall|j: int| 0 <= j < i ==> texts(v@)[j] != key@,
        decreases v.len() - i,
    {
        if str_eq(v[i].as_str(), key) {
            assert(texts(v@)[i as int] == key@);
            return true;
        }
        i += 1;
    }
    false
}

impl ParsedDocument {
    /// The positions of the items that define `target` or a part of it.
    /// With `via` the names of the items are compared in their fully
    /// qualified form in the document `via`.
    pub fn matching_items(&self, via: Option<&str>, target: &str) -> (r: Vec<usize>)
        ensures
            r@ == matching(
                self@,
                match via {
                    Some(id) => Some(id@),
                    None => None,
                },
                target@,
                0,
                Seq::empty(),
            ),
    {
        proof {
            reveal_strlit(".");
            assert("."@ =~= one('.'));
        }
        let ghost via_view: Option<Seq<char>> = match via {
            Some(id) => Some(id@),
            None => None,
        };
        let dotted = concat2(target, ".");
        let mut out: Vec<usize> = Vec::new();
        let mut i: usize = 0;
        while i < self.ast.len()
            invariant
                i <= self.ast.len(),
                dotted@ == target@ + one('.'),
                via_view == match via {
                    Some(id) => Some(id@),
                    None => None,
                },
                matching(self@, via_view, target@, 0, Seq::empty()) == matching(
                    self@,
                    via_view,
                    target@,
                    i as int,
                    out@,
                ),
            decreases self.ast.len() - i,
        {
            let item = &self.ast[i];
            let name = match via {
                Some(id) => crate::names::resolve_name(
                    item.name().as_str(),
                    id,
                    &self.doc_aliases,
                ),
                None => item.name(),
            };
            assert(name@ == item_name(self@, i as int, via_view));
            if !item.is_component() && (str_eq(name.as_str(), target) || str_starts_with(
                name.as_str(),
                dotted.as_str(),
            )) {
                out.push(i);
            }
            i += 1;
        }
        out
    }
}

/// The batch of the items at `positions`, each at the depth `depth`.
fn make_batch(positions: &Vec<usize>, depth: usize) -> (r: Vec<(usize, usize)>)
    ensures
        r@ == batch_of(positions@, depth),
{
    let mut out: Vec<(usize, usize)> = Vec::new();
    let mut i: usize = 0;
    while i < positions.len()
        invariant
            i <= positions.len(),
            out.len() == i,
            forall|j: int| 0 <= j < i ==> out[j] == (depth, positions[j]),
        decreases positions.len() - i,
    {
        out.push((depth, positions[i]));
        i += 1;
    }
    assert(out@ =~= batch_of(positions@, depth));
    out
}

impl InterpreterState {
    /// The depth of the item on top of the work stack, 0 on an empty stack.
    pub fn depth(&self) -> (r: usize)
        ensures
            r == top_depth(self@),
    {
        match self.peek_stack() {
            Some((_, depth, _)) => depth,
            None => 0,
        }
    }

    /// Queues the items at `items` of the document `doc`, one level deeper
    /// than the item on top of the stack, unless that item is too deep
    /// already.
    pub fn queue<T>(
        &mut self,
        doc: &str,
        items: Vec<usize>,
        qualified: String,
        full: &str,
        doc_name: &str,
        line_number: usize,
    ) -> (r: Result<StateWithThing<T>, Error>)
        ensures
            final(self)@ == queued(
                old(self)@,
                doc@,
                items@,
                qualified@,
                full@,
                doc_name@,
                line_number,
            ).state,
            unresolved(r) == Some(
                queued(old(self)@, doc@, items@, qualified@, full@, doc_name@, line_number).result,
            ),
    {
        let depth = self.depth();
        if depth > RETRY_LIMIT {
            return fail(ErrorKind::ValueNotFound, full, doc_name, line_number);
        }
        let batch = make_batch(&items, depth + 1);
        self.to_process.stack.push((doc.to_owned(), batch));
        pairs_insert(&mut self.to_process.contains, doc.to_owned(), qualified);
        assert(self@.to_process.stack =~= old(self)@.to_process.stack.push(
            (doc@, batch_of(items@, (depth + 1) as usize)),
        ));
        Ok(StateWithThing::Continue)
    }
}

impl InterpreterState {
    fn search_in<T>(
        &mut self,
        lib: usize,
        doc_id: &str,
        thing_name: &str,
        remaining: Option<String>,
        full: &str,
        doc_name: &str,
        line_number: usize,
    ) -> (r: Result<StateWithThing<T>, Error>)
        requires
            lib < old(self).parsed_libs.len(),
        ensures
            final(self)@ == searched_in(
                old(self)@,
                lib as int,
                doc_id@,
                thing_name@,
                opt_text(remaining),
                full@,
                doc_name@,
                line_number,
            ).state,
            unresolved(r) == Some(
                searched_in(
                    old(self)@,
                    lib as int,
                    doc_id@,
                    thing_name@,
                    opt_text(remaining),
                    full@,
                    doc_name@,
                    line_number,
                ).result,
            ),
    {
        proof {
            reveal_strlit(".");
            reveal_strlit("#");
            assert("."@ =~= one('.'));
            assert("#"@ =~= one('#'));
        }
        let found = self.parsed_libs[lib].1.matching_items(None, thing_name);
        if found.len() == 0 {
            if texts_contain(&self.parsed_libs[lib].1.foreign_variable, thing_name) {
                let variable = match remaining {
                    Some(rest) => concat3(thing_name, ".", rest.as_str()),
                    None => thing_name.to_owned(),
                };
                return Ok(
                    StateWithThing::State(
                        InterpreterWithoutState::StuckOnForeignVariable {
                            module: doc_id.to_owned(),
                            variable,
                            caller_module: doc_name.to_owned(),
                        },
                    ),
                );
            }
            return fail(ErrorKind::ValueNotFound, full, doc_name, line_number);
        }
        self.queue(doc_id, found, concat3(doc_id, "#", thing_name), full, doc_name, line_number)
    }

    fn own_matching(&self, doc_id: &str, qualified: &str) -> (r: Vec<usize>)
        ensures
            r@ == own_items(self@, doc_id@, qualified@),
    {
        if str_eq(doc_id, self.id.as_str()) {
            return Vec::new();
        }
        match self.parsed_document_position(self.id.as_str()) {
            Some(current) => self.parsed_libs[current].1.matching_items(
                Some(self.id.as_str()),
                qualified,
            ),
            None => Vec::new(),
        }
    }

    fn search_missing<T>(
        &mut self,
        doc_name: &str,
        aliases: &Aliases,
        name: &str,
        line_number: usize,
    ) -> (r: Result<StateWithThing<T>, Error>)
        ensures
            final(self)@ == searched_missing(
                old(self)@,
                doc_name@,
                pairs(aliases@),
                name@,
                line_number,
            ).state,
            unresolved(r) == Some(
                searched_missing(old(self)@, doc_name@, pairs(aliases@), name@, line_number).result,
            ),
    {
        proof {
            reveal_strlit("#");
            assert("#"@ =~= one('#'));
        }
        let bare = without_marker(name);
        let full = crate::names::resolve_name(bare.as_str(), doc_name, aliases);
        let (doc_id, thing_name, remaining) = get_doc_name_and_thing_name_and_remaining(
            full.as_str(),
            doc_name,
        );
        let qualified = concat3(doc_id.as_str(), "#", thing_name.as_str());
        let own = self.own_matching(doc_id.as_str(), qualified.as_str());
        if own.len() > 0 {
            let id = self.id.clone();
            return self.queue(id.as_str(), own, qualified, full.as_str(), doc_name, line_number);
        }
        match self.parsed_document_position(doc_id.as_str()) {
            Some(lib) => self.search_in(
                lib,
                doc_id.as_str(),
                thing_name.as_str(),
                remaining,
                full.as_str(),
                doc_name,
                line_number,
            ),
            None => {
                if str_eq(doc_id.as_str(), doc_name) {
                    return fail(ErrorKind::ValueNotFound, full.as_str(), doc_name, line_number);
                }
                self.pending_imports.stack.push(
                    (doc_id.clone(), full, line_number, doc_name.to_owned()),
                );
                assert(self@.pending_imports.stack =~= old(self)@.pending_imports.stack.push(
                    (doc_id@, full@, line_number, doc_name@),
                ));
                Ok(
                    StateWithThing::State(
                        InterpreterWithoutState::StuckOnImport {
                            module: doc_id,
                            caller_module: doc_name.to_owned(),
                        },
                    ),
                )
            },
        }
    }

    /// The first step of incremental lookup of `name` for the document
    /// `doc_name`.
    pub fn search_initial_thing(
        &mut self,
        doc_name: &str,
        aliases: &Aliases,
        name: &str,
        line_number: usize,
    ) -> (r: Result<StateWithThing<(Thing, Option<String>)>, Error>)
        ensures
            final(self)@ == search_initial(
                old(self)@,
                doc_name@,
                pairs(aliases@),
                name@,
                line_number,
            ).state,
            tri_thing_and_rest(r) == search_initial(
                old(self)@,
                doc_name@,
                pairs(aliases@),
                name@,
                line_number,
            ).result,
    {
        let first = TDoc::new(doc_name, aliases, &self.bag).get_initial_thing(name, line_number);
        match first {
            Ok(found) => Ok(StateWithThing::Thing(found)),
            Err(_) => self.search_missing(doc_name, aliases, name, line_number),
        }
    }

    fn note_import(
        &mut self,
        module: String,
        full: String,
        line_number: usize,
        caller: &str,
        qualified: String,
    )
        ensures
            final(self)@ == with_noted_import(
                old(self)@,
                module@,
                full@,
                line_number,
                caller@,
                qualified@,
            ),
    {
        self.pending_imports.stack.push((module.clone(), full, line_number, caller.to_owned()));
        pairs_insert(&mut self.pending_imports.contains, module, qualified);
        assert(self@.pending_imports.stack =~= old(self)@.pending_imports.stack.push(
            (module@, full@, line_number, caller@),
        ));
    }

    /// Notes what the build of `name` will need, without building anything.
    pub fn scan_initial_thing(
        &mut self,
        doc_name: &str,
        aliases: &Aliases,
        name: &str,
        line_number: usize,
    )
        ensures
            final(self)@ == scanned(old(self)@, doc_name@, pairs(aliases@), name@, line_number),
    {
        proof {
            reveal_strlit("#");
            assert("#"@ =~= one('#'));
        }
        let first = TDoc::new(doc_name, aliases, &self.bag).get_initial_thing(name, line_number);
        if first.is_ok() {
            return ;
        }
        let bare = without_marker(name);
        let full = crate::names::resolve_name(bare.as_str(), doc_name, aliases);
        let (doc_id, thing_name, _) = get_doc_name_and_thing_name_and_remaining(
            full.as_str(),
            doc_name,
        );
        if str_eq(doc_id.as_str(), FTD_INHERITED) {
            return ;
        }
        let qualified = concat3(doc_id.as_str(), "#", thing_name.as_str());
        match self.parsed_document_position(doc_id.as_str()) {
            Some(lib) => {
                let found = self.parsed_libs[lib].1.matching_items(None, thing_name.as_str());
                if found.len() == 0 {
                    if texts_contain(
                        &self.parsed_libs[lib].1.foreign_variable,
                        thing_name.as_str(),
                    ) {
                        self.note_import(doc_id, full, line_number, doc_name, qualified);
                    }
                } else if !pairs_contain(
                    &self.pending_imports.contains,
                    doc_id.as_str(),
                    qualified.as_str(),
                ) {
                    self.note_import(doc_id, full, line_number, doc_name, qualified);
                }
            },
            None => {
                self.note_import(doc_id, full, line_number, doc_name, qualified);
            },
        }
    }
}

/// What a search over finished definitions gives: the definition, or the
/// error of a name that cannot be found.
pub open spec fn searched_in_bag(doc: DocV, name: Seq<char>, line_number: usize) -> Result<
    Tri<(ThingV, Option<Seq<char>>)>,
    ErrorV,
> {
    match initial_thing(doc, name, line_number) {
        Ok(found) => Ok(Tri::Thing(found)),
        Err(_) => Err(
            not_found(
                resolved_name(strip_marker(name), doc.name, doc.aliases),
                doc.name,
                line_number,
            ),
        ),
    }
}

impl<'a> TDoc<'a> {
    /// The first step of incremental lookup of `name`. Over the state of a
    /// session the step may queue work or ask the driver for a document or
    /// a variable; over finished definitions a name is found or not.
    pub fn search_initial_thing(&mut self, name: &str, line_number: usize) -> (r: Result<
        StateWithThing<(Thing, Option<String>)>,
        Error,
    >)
        ensures
            final(self).name == old(self).name,
            final(self).aliases == old(self).aliases,
            match old(self).state_view() {
                Some(state) => final(self).state_view() == Some(
                    search_initial(
                        state,
                        old(self)@.name,
                        old(self)@.aliases,
                        name@,
                        line_number,
                    ).state,
                ) && tri_thing_and_rest(r) == search_initial(
                    state,
                    old(self)@.name,
                    old(self)@.aliases,
                    name@,
                    line_number,
                ).result,
                None => *final(self) == *old(self) && tri_thing_and_rest(r) == searched_in_bag(
                    old(self)@,
                    name@,
                    line_number,
                ),
            },
    {
        let doc_name = self.name;
        let aliases = self.aliases;
        match &mut self.bag {
            BagOrState::State(state) => state.search_initial_thing(
                doc_name,
                aliases,
                name,
                line_number,
            ),
            BagOrState::Bag(bag) => {
                match TDoc::new(doc_name, aliases, bag).get_initial_thing(name, line_number) {
                    Ok(found) => Ok(StateWithThing::Thing(found)),
                    Err(_) => {
                        let bare = without_marker(name);
                        let full = crate::names::resolve_name(bare.as_str(), doc_name, aliases);
                        fail(ErrorKind::ValueNotFound, full.as_str(), doc_name, line_number)
                    },
                }
            },
        }
    }

    /// Notes what the build of `name` will need. Over finished definitions
    /// a name that is not found is an error.
    pub fn scan_initial_thing(&mut self, name: &str, line_number: usize) -> (r: Result<(), Error>)
        ensures
            final(self).name == old(self).name,
            final(self).aliases == old(self).aliases,
            match old(self).state_view() {
                Some(state) => r is Ok && final(self).state_view() == Some(
                    scanned(state, old(self)@.name, old(self)@.aliases, name@, line_number),
                ),
                None => *final(self) == *old(self) && match r {
                    Ok(_) => initial_thing(old(self)@, name@, line_number) is Ok,
                    Err(e) => initial_thing(old(self)@, name@, line_number) is Err && e@
                        == not_found(
                        resolved_name(strip_marker(name@), old(self)@.name, old(self)@.aliases),
                        old(self)@.name,
                        line_number,
                    ),
                },
            },
    {
        let doc_name = self.name;
        let aliases = self.aliases;
        match &mut self.bag {
            BagOrState::State(state) => {
                state.scan_initial_thing(doc_name, aliases, name, line_number);
                Ok(())
            },
            BagOrState::Bag(bag) => {
                match TDoc::new(doc_name, aliases, bag).get_initial_thing(name, line_number) {
                    Ok(_) => Ok(()),
                    Err(_) => {
                        let bare = without_marker(name);
                        let full = crate::names::resolve_name(bare.as_str(), doc_name, aliases);
                        fail(ErrorKind::ValueNotFound, full.as_str(), doc_name, line_number)
                    },
                }
            },
        }
    }

    /// Notes what the build of `name` will need.
    pub fn scan_thing(&mut self, name: &str, line_number: usize) -> (r: Result<(), Error>)
        ensures
            final(self).name == old(self).name,
            final(self).aliases == old(self).aliases,
            match old(self).state_view() {
                Some(state) => r is Ok && final(self).state_view() == Some(
                    scanned(state, old(self)@.name, old(self)@.aliases, name@, line_number),
                ),
                None => *final(self) == *old(self) && match r {
                    Ok(_) => initial_thing(old(self)@, name@, line_number) is Ok,
                    Err(e) => initial_thing(old(self)@, name@, line_number) is Err && e@
                        == not_found(
                        resolved_name(strip_marker(name@), old(self)@.name, old(self)@.aliases),
                        old(self)@.name,
                        line_number,
                    ),
                },
            },
    {
        self.scan_initial_thing(name, line_number)
    }
}

} // verus!
