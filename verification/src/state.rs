//! The state of an incremental session: the definitions built so far, the
//! documents that were parsed, the work that is queued and the imports that
//! are waited for.

use vstd::prelude::*;
use crate::ast::AST;
use crate::names::{pairs, Aliases};
use crate::text::str_eq;
use crate::thing::{find_key, Bag, Thing, ThingV, Variable};
use crate::value::texts;

verus! {

/// Why a resolution cannot go on before the driver has acted.
#[derive(Debug, PartialEq, Eq)]
pub enum InterpreterWithoutState {
    /// The document `module` has to be parsed and registered.
    StuckOnImport { module: String, caller_module: String },
    /// The value of `variable` of `module` has to be supplied.
    StuckOnForeignVariable { module: String, variable: String, caller_module: String },
}

/// Specification-level reason of a suspension.
pub enum InterpreterWithoutStateV {
    StuckOnImport { module: Seq<char>, caller_module: Seq<char> },
    StuckOnForeignVariable { module: Seq<char>, variable: Seq<char>, caller_module: Seq<char> },
}

impl View for InterpreterWithoutState {
    type V = InterpreterWithoutStateV;

    open spec fn view(&self) -> InterpreterWithoutStateV {
        match self {
            InterpreterWithoutState::StuckOnImport {
                module,
                caller_module,
            } => InterpreterWithoutStateV::StuckOnImport {
                module: module@,
                caller_module: caller_module@,
            },
            InterpreterWithoutState::StuckOnForeignVariable {
                module,
                variable,
                caller_module,
            } => InterpreterWithoutStateV::StuckOnForeignVariable {
                module: module@,
                variable: variable@,
                caller_module: caller_module@,
            },
        }
    }
}

/// The three outcomes of a step of incremental resolution: the thing asked
/// for, a suspension that the driver has to answer, or the notice that the
/// thing was queued for building and the step is to be taken again.
#[derive(Debug, PartialEq, Eq)]
pub enum StateWithThing<T> {
    Thing(T),
    State(InterpreterWithoutState),
    Continue,
}

impl<T> StateWithThing<T> {
    pub fn new_thing(thing: T) -> (r: StateWithThing<T>)
        ensures
            r == StateWithThing::Thing(thing),
    {
        StateWithThing::Thing(thing)
    }

    pub fn new_state(state: InterpreterWithoutState) -> (r: StateWithThing<T>)
        ensures
            r == StateWithThing::<T>::State(state),
    {
        StateWithThing::State(state)
    }

    pub fn new_continue() -> (r: StateWithThing<T>)
        ensures
            r == StateWithThing::<T>::Continue,
    {
        StateWithThing::Continue
    }
}

/// What the resolver reads of a top-level item: its name and whether it is
/// a component instance.
pub struct AstInfo {
    pub name: Seq<char>,
    pub is_component: bool,
}

/// What the resolver reads of the top-level items of a document.
pub open spec fn ast_infos(items: Seq<AST>) -> Seq<AstInfo> {
    Seq::new(
        items.len(),
        |i: int| AstInfo { name: items[i].name_spec(), is_component: items[i] is ComponentInvocation },
    )
}

/// A parsed document: its top-level items, its alias table and the names
/// of the variables that it expects to be supplied from outside.
#[derive(Debug, PartialEq, Eq)]
pub struct ParsedDocument {
    pub name: String,
    pub ast: Vec<AST>,
    pub doc_aliases: Aliases,
    pub foreign_variable: Vec<String>,
}

/// Specification-level parsed document.
pub struct ParsedDocumentV {
    pub name: Seq<char>,
    pub items: Seq<AstInfo>,
    pub doc_aliases: Seq<(Seq<char>, Seq<char>)>,
    pub foreign_variable: Seq<Seq<char>>,
}

impl View for ParsedDocument {
    type V = ParsedDocumentV;

    open spec fn view(&self) -> ParsedDocumentV {
        ParsedDocumentV {
            name: self.name@,
            items: ast_infos(self.ast@),
            doc_aliases: pairs(self.doc_aliases@),
            foreign_variable: texts(self.foreign_variable@),
        }
    }
}

/// The views of a list of pairs of texts, as a set.
pub open spec fn pair_set(v: Seq<(String, String)>) -> Set<(Seq<char>, Seq<char>)> {
    Set::new(|p: (Seq<char>, Seq<char>)| exists|i: int| 0 <= i < v.len() && (v[i].0@, v[i].1@) == p)
}

/// Whether the list holds the pair `(a, b)`.
pub fn pairs_contain(v: &Vec<(String, String)>, a: &str, b: &str) -> (r: bool)
    ensures
        r == pair_set(v@).contains((a@, b@)),
{
    let mut i: usize = 0;
    while i < v.len()
        invariant
            i <= v.len(),
            forall|j: int| 0 <= j < i ==> (v[j].0@, v[j].1@) != (a@, b@),
        decreases v.len() - i,
    {
        if str_eq(v[i].0.as_str(), a) && str_eq(v[i].1.as_str(), b) {
            return true;
        }
        i += 1;
    }
    false
}

/// Adds the pair `(a, b)` to the list unless it is there.
pub fn pairs_insert(v: &mut Vec<(String, String)>, a: String, b: String)
    ensures
        pair_set(final(v)@) == pair_set(old(v)@).insert((a@, b@)),
{
    if !pairs_contain(v, a.as_str(), b.as_str()) {
        let ghost before = v@;
        v.push((a, b));
        assert forall|p: (Seq<char>, Seq<char>)|
            pair_set(v@).contains(p) == pair_set(before).insert((a@, b@)).contains(p) by {
            if pair_set(v@).contains(p) {
                let i = choose|i: int| 0 <= i < v@.len() && (v@[i].0@, v@[i].1@) == p;
                if i < before.len() {
                    assert(before[i] == v@[i]);
                }
            }
            if pair_set(before).contains(p) {
                let i = choose|i: int| 0 <= i < before.len() && (before[i].0@, before[i].1@) == p;
                assert(v@[i] == before[i]);
            }
            if p == (a@, b@) {
                assert(v@[before.len() as int].0@ == a@);
            }
        }
        assert(pair_set(v@) =~= pair_set(before).insert((a@, b@)));
    } else {
        assert(pair_set(v@) =~= pair_set(v@).insert((a@, b@)));
    }
}

/// The work that is queued: a stack of batches, each the items of one
/// document given by their positions in it, each item with the number of
/// times it was scanned.
#[derive(Debug, PartialEq, Eq)]
pub struct ToProcess {
    pub stack: Vec<(String, Vec<(usize, usize)>)>,
    pub contains: Vec<(String, String)>,
}

/// Specification-level work queue.
pub struct ToProcessV {
    pub stack: Seq<(Seq<char>, Seq<(usize, usize)>)>,
    pub contains: Set<(Seq<char>, Seq<char>)>,
}

/// The views of the batches of a work stack.
pub open spec fn batches(v: Seq<(String, Vec<(usize, usize)>)>) -> Seq<(Seq<char>, Seq<(usize, usize)>)> {
    Seq::new(v.len(), |i: int| (v[i].0@, v[i].1@))
}

impl View for ToProcess {
    type V = ToProcessV;

    open spec fn view(&self) -> ToProcessV {
        ToProcessV { stack: batches(self.stack@), contains: pair_set(self.contains@) }
    }
}

/// The imports that are waited for: the document needed, the name that was
/// looked for, the line, and the document that asked.
#[derive(Debug, PartialEq, Eq)]
pub struct PendingImports {
    pub stack: Vec<(String, String, usize, String)>,
    pub contains: Vec<(String, String)>,
}

/// Specification-level import queue.
pub struct PendingImportsV {
    pub stack: Seq<(Seq<char>, Seq<char>, usize, Seq<char>)>,
    pub contains: Set<(Seq<char>, Seq<char>)>,
}

/// The views of the entries of an import queue.
pub open spec fn imports(v: Seq<(String, String, usize, String)>) -> Seq<
    (Seq<char>, Seq<char>, usize, Seq<char>),
> {
    Seq::new(v.len(), |i: int| (v[i].0@, v[i].1@, v[i].2, v[i].3@))
}

impl View for PendingImports {
    type V = PendingImportsV;

    open spec fn view(&self) -> PendingImportsV {
        PendingImportsV { stack: imports(self.stack@), contains: pair_set(self.contains@) }
    }
}

/// The views of the registered documents.
pub open spec fn libs(v: Seq<(String, ParsedDocument)>) -> Seq<(Seq<char>, ParsedDocumentV)> {
    Seq::new(v.len(), |i: int| (v[i].0@, v[i].1@))
}

/// The state of an incremental session.
#[derive(Debug, PartialEq, Eq)]
pub struct InterpreterState {
    pub id: String,
    pub bag: Bag,
    pub to_process: ToProcess,
    pub pending_imports: PendingImports,
    pub parsed_libs: Vec<(String, ParsedDocument)>,
}

/// Specification-level session state.
pub struct InterpreterStateV {
    pub id: Seq<char>,
    pub bag: Map<Seq<char>, ThingV>,
    pub to_process: ToProcessV,
    pub pending_imports: PendingImportsV,
    pub parsed_libs: Seq<(Seq<char>, ParsedDocumentV)>,
}

impl View for InterpreterState {
    type V = InterpreterStateV;

    open spec fn view(&self) -> InterpreterStateV {
        InterpreterStateV {
            id: self.id@,
            bag: self.bag@,
            to_process: self.to_process@,
            pending_imports: self.pending_imports@,
            parsed_libs: libs(self.parsed_libs@),
        }
    }
}

/// The state in which `document` is registered under `id`, in place of an
/// earlier registration of that name or else after the documents that were
/// registered before.
pub open spec fn registered(
    libs: Seq<(Seq<char>, ParsedDocumentV)>,
    id: Seq<char>,
    document: ParsedDocumentV,
) -> Seq<(Seq<char>, ParsedDocumentV)> {
    let i = find_key(libs, id, 0);
    if i < 0 {
        libs.push((id, document))
    } else {
        libs.update(i, (id, document))
    }
}

/// The item on top of the work stack: its document, the number of times it
/// was scanned and its position in the document.
pub open spec fn top_item(stack: Seq<(Seq<char>, Seq<(usize, usize)>)>) -> Option<
    (Seq<char>, usize, usize),
> {
    if stack.len() > 0 && stack.last().1.len() > 0 {
        Some((stack.last().0, stack.last().1[0].0, stack.last().1[0].1))
    } else {
        None
    }
}

/// The work stack without the item on top of it; a batch that becomes
/// empty leaves the stack.
pub open spec fn without_top(stack: Seq<(Seq<char>, Seq<(usize, usize)>)>) -> Seq<
    (Seq<char>, Seq<(usize, usize)>),
> {
    if stack.len() == 0 {
        stack
    } else if stack.last().1.len() <= 1 {
        stack.drop_last()
    } else {
        stack.drop_last().push((stack.last().0, stack.last().1.drop_first()))
    }
}

/// The work stack with the scan count of the item on top raised by one, as
/// far as the count can be raised.
pub open spec fn with_scan_counted(stack: Seq<(Seq<char>, Seq<(usize, usize)>)>) -> Seq<
    (Seq<char>, Seq<(usize, usize)>),
> {
    if stack.len() > 0 && stack.last().1.len() > 0 && stack.last().1[0].0 < usize::MAX {
        let item = stack.last().1[0];
        stack.drop_last().push(
            (stack.last().0, stack.last().1.update(0, ((item.0 + 1) as usize, item.1))),
        )
    } else {
        stack
    }
}

impl InterpreterState {
    /// The state of a session that begins with the document `id`: nothing
    /// built, nothing parsed, nothing queued.
    pub fn new(id: String) -> (r: InterpreterState)
        ensures
            r@.id == id@,
            r@.bag == Map::<Seq<char>, ThingV>::empty(),
            r@.to_process.stack.len() == 0,
            r@.to_process.contains == Set::<(Seq<char>, Seq<char>)>::empty(),
            r@.pending_imports.stack.len() == 0,
            r@.pending_imports.contains == Set::<(Seq<char>, Seq<char>)>::empty(),
            r@.parsed_libs.len() == 0,
    {
        let r = InterpreterState {
            id,
            bag: Bag::new(),
            to_process: ToProcess { stack: Vec::new(), contains: Vec::new() },
            pending_imports: PendingImports { stack: Vec::new(), contains: Vec::new() },
            parsed_libs: Vec::new(),
        };
        assert(r@.to_process.contains =~= Set::<(Seq<char>, Seq<char>)>::empty());
        assert(r@.pending_imports.contains =~= Set::<(Seq<char>, Seq<char>)>::empty());
        r
    }

    /// Position of the document `id` among the registered ones.
    pub fn parsed_document_position(&self, id: &str) -> (r: Option<usize>)
        ensures
            match r {
                Some(i) => i < self.parsed_libs.len() && i as int == find_key(
                    self@.parsed_libs,
                    id@,
                    0,
                ),
                None => find_key(self@.parsed_libs, id@, 0) == -1,
            },
    {
        let mut i: usize = 0;
        while i < self.parsed_libs.len()
            invariant
                i <= self.parsed_libs.len(),
                find_key(self@.parsed_libs, id@, 0) == find_key(self@.parsed_libs, id@, i as int),
            decreases self.parsed_libs.len() - i,
        {
            if str_eq(self.parsed_libs[i].0.as_str(), id) {
                return Some(i);
            }
            i += 1;
        }
        None
    }

    /// Registers a parsed document under `id`. The definitions, the work
    /// stack and the import queue stay as they are.
    pub fn register_parsed_document(&mut self, id: &str, document: ParsedDocument)
        ensures
            final(self)@.parsed_libs == registered(old(self)@.parsed_libs, id@, document@),
            final(self)@.id == old(self)@.id,
            final(self)@.bag == old(self)@.bag,
            final(self)@.to_process == old(self)@.to_process,
            final(self)@.pending_imports == old(self)@.pending_imports,
    {
        match self.parsed_document_position(id) {
            Some(i) => {
                self.parsed_libs.set(i, (id.to_owned(), document));
                assert(self@.parsed_libs =~= registered(old(self)@.parsed_libs, id@, document@));
            },
            None => {
                self.parsed_libs.push((id.to_owned(), document));
                assert(self@.parsed_libs =~= registered(old(self)@.parsed_libs, id@, document@));
            },
        }
    }

    /// Puts a variable that was supplied from outside among the definitions,
    /// under its own name.
    pub fn inject_foreign_variable(&mut self, variable: Variable)
        ensures
            final(self)@.bag == old(self)@.bag.insert(variable@.name, ThingV::Variable(variable@)),
            final(self)@.id == old(self)@.id,
            final(self)@.parsed_libs == old(self)@.parsed_libs,
            final(self)@.to_process == old(self)@.to_process,
            final(self)@.pending_imports == old(self)@.pending_imports,
    {
        let name = variable.name.clone();
        self.bag.insert(name, Thing::Variable(variable));
    }

    /// The item on top of the work stack.
    pub fn peek_stack(&self) -> (r: Option<(String, usize, usize)>)
        ensures
            match r {
                Some((doc, count, position)) => top_item(self@.to_process.stack) == Some(
                    (doc@, count, position),
                ),
                None => top_item(self@.to_process.stack).is_none(),
            },
    {
        let n = self.to_process.stack.len();
        if n == 0 {
            return None;
        }
        let batch = &self.to_process.stack[n - 1];
        if batch.1.len() == 0 {
            return None;
        }
        Some((batch.0.clone(), batch.1[0].0, batch.1[0].1))
    }

    /// Counts one more scan of the item on top of the work stack.
    pub fn increase_scan_count(&mut self)
        ensures
            final(self)@.to_process.stack == with_scan_counted(old(self)@.to_process.stack),
            final(self)@.to_process.contains == old(self)@.to_process.contains,
            final(self)@.id == old(self)@.id,
            final(self)@.bag == old(self)@.bag,
            final(self)@.parsed_libs == old(self)@.parsed_libs,
            final(self)@.pending_imports == old(self)@.pending_imports,
    {
        let n = self.to_process.stack.len();
        if n == 0 {
            return ;
        }
        if self.to_process.stack[n - 1].1.len() == 0 {
            return ;
        }
        let item = self.to_process.stack[n - 1].1[0];
        if item.0 == usize::MAX {
            return ;
        }
        let batch = self.to_process.stack.pop().unwrap();
        let doc = batch.0;
        let mut items = batch.1;
        items.set(0, (item.0 + 1, item.1));
        self.to_process.stack.push((doc, items));
        assert(self@.to_process.stack =~= with_scan_counted(old(self)@.to_process.stack));
    }

    /// Takes the item on top of the work stack off it: the driver calls this
    /// when the item has been built.
    pub fn advance(&mut self)
        ensures
            final(self)@.to_process.stack == without_top(old(self)@.to_process.stack),
            final(self)@.to_process.contains == old(self)@.to_process.contains,
            final(self)@.id == old(self)@.id,
            final(self)@.bag == old(self)@.bag,
            final(self)@.parsed_libs == old(self)@.parsed_libs,
            final(self)@.pending_imports == old(self)@.pending_imports,
    {
        let n = self.to_process.stack.len();
        if n == 0 {
            assert(self@.to_process.stack =~= without_top(old(self)@.to_process.stack));
            return ;
        }
        let batch = self.to_process.stack.pop().unwrap();
        if batch.1.len() > 1 {
            let doc = batch.0;
            let mut items = batch.1;
            let _ = items.remove(0);
            self.to_process.stack.push((doc, items));
        }
        assert(self@.to_process.stack =~= without_top(old(self)@.to_process.stack));
    }

    /// Whether nothing is queued and no import is waited for.
    pub fn is_done(&self) -> (r: bool)
        ensures
            r == (self@.to_process.stack.len() == 0 && self@.pending_imports.stack.len() == 0),
    {
        self.to_process.stack.len() == 0 && self.pending_imports.stack.len() == 0
    }
}

} // verus!
