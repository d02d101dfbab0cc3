//! The resolution context of one document: its name, its alias table, and
//! either the finished definitions of a session or the state of a session
//! that is still being built.

use vstd::prelude::*;
use crate::error::{error, fail, Error, ErrorKind, ErrorV};
use crate::kind::opt_text;
use crate::names::{
    get_doc_name_and_remaining, get_function_name, pairs, special_variable, without_marker,
    Aliases,
};
use crate::semantics::{
    as_component, as_function, as_or_type, as_record, as_variable, initial_thing,
    initial_variable, DocV,
};
use crate::state::{InterpreterState, InterpreterStateV};
use crate::text::{concat2, str_strip_prefix};
use crate::thing::{
    Bag,
    ComponentDefinition,
    Function,
    FunctionV,
    OrType,
    Record,
    Thing,
    ThingV,
    Variable,
    VariableV,
};

verus! {

/// Where a document finds the definitions of its session.
#[derive(Debug, PartialEq, Eq)]
pub enum BagOrState<'a> {
    /// The finished definitions.
    Bag(&'a Bag),
    /// The state of a session that is being built.
    State(InterpreterState),
}

/// The resolution context of one document.
#[derive(Debug, PartialEq, Eq)]
pub struct TDoc<'a> {
    pub name: &'a str,
    pub aliases: &'a Aliases,
    pub bag: BagOrState<'a>,
}

impl<'a> View for TDoc<'a> {
    type V = DocV;

    open spec fn view(&self) -> DocV {
        DocV {
            name: self.name@,
            aliases: pairs(self.aliases@),
            bag: match self.bag {
                BagOrState::Bag(b) => b@,
                BagOrState::State(s) => s.bag@,
            },
        }
    }
}

/// The specification-level form of a looked-up definition and the rest of
/// its name.
pub open spec fn thing_and_rest(r: Result<(Thing, Option<String>), Error>) -> Result<
    (ThingV, Option<Seq<char>>),
    ErrorV,
> {
    match r {
        Ok((thing, remaining)) => Ok((thing@, opt_text(remaining))),
        Err(e) => Err(e@),
    }
}

/// The specification-level form of a looked-up variable and the rest of its
/// name.
pub open spec fn variable_and_rest(r: Result<(Variable, Option<String>), Error>) -> Result<
    (VariableV, Option<Seq<char>>),
    ErrorV,
> {
    match r {
        Ok((variable, remaining)) => Ok((variable@, opt_text(remaining))),
        Err(e) => Err(e@),
    }
}

/// The specification-level form of a result.
pub open spec fn lifted<T: View>(r: Result<T, Error>) -> Result<T::V, ErrorV> {
    match r {
        Ok(t) => Ok(t@),
        Err(e) => Err(e@),
    }
}

impl Thing {
    /// The variable that the definition is.
    pub fn variable(self, doc_id: &str, line_number: usize) -> (r: Result<Variable, Error>)
        ensures
            lifted(r) == as_variable(self@, doc_id@, line_number),
    {
        match self {
            Thing::Variable(v) => Ok(v),
            _ => fail(ErrorKind::UnexpectedKind, "Expected Variable", doc_id, line_number),
        }
    }

    /// The record type that the definition is.
    pub fn record(self, doc_id: &str, line_number: usize) -> (r: Result<Record, Error>)
        ensures
            lifted(r) == as_record(self@, doc_id@, line_number),
    {
        match self {
            Thing::Record(v) => Ok(v),
            _ => fail(ErrorKind::UnexpectedKind, "Expected Record", doc_id, line_number),
        }
    }

    /// The or-type that the definition is.
    pub fn or_type(self, doc_id: &str, line_number: usize) -> (r: Result<OrType, Error>)
        ensures
            lifted(r) == as_or_type(self@, doc_id@, line_number),
    {
        match self {
            Thing::OrType(v) => Ok(v),
            _ => fail(ErrorKind::UnexpectedKind, "Expected OrType", doc_id, line_number),
        }
    }

    /// The component definition that the definition is.
    pub fn component(self, doc_id: &str, line_number: usize) -> (r: Result<
        ComponentDefinition,
        Error,
    >)
        ensures
            lifted(r) == as_component(self@, doc_id@, line_number),
    {
        match self {
            Thing::Component(v) => Ok(v),
            _ => fail(ErrorKind::UnexpectedKind, "Expected Component", doc_id, line_number),
        }
    }

    /// The function that the definition is.
    pub fn function(self, doc_id: &str, line_number: usize) -> (r: Result<Function, Error>)
        ensures
            lifted(r) == as_function(self@, doc_id@, line_number),
    {
        match self {
            Thing::Function(v) => Ok(v),
            _ => fail(ErrorKind::UnexpectedKind, "Expected Function", doc_id, line_number),
        }
    }
}

impl<'a> TDoc<'a> {
    /// The state of the session, where the document belongs to one that is
    /// being built.
    pub open spec fn state_view(&self) -> Option<InterpreterStateV> {
        match self.bag {
            BagOrState::Bag(_) => None,
            BagOrState::State(s) => Some(s@),
        }
    }

    /// The context of a document over finished definitions.
    pub fn new(name: &'a str, aliases: &'a Aliases, bag: &'a Bag) -> (r: TDoc<'a>)
        ensures
            r@ == (DocV { name: name@, aliases: pairs(aliases@), bag: bag@ }),
            r.state_view().is_none(),
    {
        TDoc { name, aliases, bag: BagOrState::Bag(bag) }
    }

    /// The context of a document over the state of a session. The context
    /// holds the state until `into_state` gives it back.
    pub fn new_state(name: &'a str, aliases: &'a Aliases, state: InterpreterState) -> (r: TDoc<'a>)
        ensures
            r@ == (DocV { name: name@, aliases: pairs(aliases@), bag: state@.bag }),
            r.state_view() == Some(state@),
    {
        TDoc { name, aliases, bag: BagOrState::State(state) }
    }

    /// Gives back the state of the session.
    pub fn into_state(self) -> (r: Option<InterpreterState>)
        ensures
            match r {
                Some(s) => self.state_view() == Some(s@),
                None => self.state_view().is_none(),
            },
    {
        match self.bag {
            BagOrState::Bag(_) => None,
            BagOrState::State(s) => Some(s),
        }
    }

    /// The state of the session, if the document belongs to one.
    pub fn state(&self) -> (r: Option<&InterpreterState>)
        ensures
            match r {
                Some(s) => self.state_view() == Some(s@),
                None => self.state_view().is_none(),
            },
    {
        match &self.bag {
            BagOrState::Bag(_) => None,
            BagOrState::State(s) => Some(s),
        }
    }

    /// The fully qualified form of `name` in this document.
    pub fn resolve_name(&self, name: &str) -> (r: String)
        ensures
            r@ == crate::names::resolved_name(name@, self@.name, self@.aliases),
    {
        crate::names::resolve_name(name, self.name, self.aliases)
    }

    /// The definitions of the session.
    pub fn bag(&self) -> (r: &Bag)
        ensures
            r@ == self@.bag,
    {
        match &self.bag {
            BagOrState::Bag(b) => b,
            BagOrState::State(s) => &s.bag,
        }
    }

    /// Whether two names stand for the same fully qualified name.
    pub fn eq(&self, name1: &str, name2: &str) -> (r: bool)
        ensures
            r == (crate::names::resolved_name(name1@, self@.name, self@.aliases)
                == crate::names::resolved_name(name2@, self@.name, self@.aliases)),
    {
        let name1 = self.resolve_name(name1);
        let name2 = self.resolve_name(name2);
        name1 == name2
    }

    /// The name of a reference with its document spelled out: `$` and the
    /// fully qualified name, unless the name is one that the environment
    /// supplies. A text without `$` in front is no reference and is kept.
    pub fn resolve_reference_name(&self, name: &str) -> (r: String)
        ensures
            r@ == reference_name(self@, name@),
    {
        proof {
            reveal_strlit("$");
            assert("$"@ =~= crate::names::one('$'));
        }
        match str_strip_prefix(name, "$") {
            Some(l) => {
                let d = get_doc_name_and_remaining(l.as_str()).0;
                if special_variable(d.as_str()) {
                    concat2("$", l.as_str())
                } else {
                    let full = self.resolve_name(l.as_str());
                    concat2("$", full.as_str())
                }
            },
            None => name.to_owned(),
        }
    }

    /// The error of this document with the given kind and message.
    pub fn err<T>(&self, kind: ErrorKind, message: &str, line_number: usize) -> (r: Result<
        T,
        Error,
    >)
        ensures
            r is Err,
            r->Err_0@ == error(kind, message@, self@.name, line_number),
    {
        fail(kind, message, self.name, line_number)
    }

    /// The definition that the first part of `name` stands for, and the
    /// dotted rest of the name.
    pub fn get_initial_thing(&self, name: &str, line_number: usize) -> (r: Result<
        (Thing, Option<String>),
        Error,
    >)
        ensures
            thing_and_rest(r) == initial_thing(self@, name@, line_number),
    {
        let name = without_marker(name);
        let name = self.resolve_name(name.as_str());
        let (first, remaining) = match get_function_name(name.as_str()) {
            Some(f) => (f, None),
            None => get_doc_name_and_remaining(name.as_str()),
        };
        match self.bag().get(first.as_str()) {
            Some(a) => Ok((a, remaining)),
            None => match self.bag().get(name.as_str()) {
                Some(a) => Ok((a, None)),
                None => self.err(ErrorKind::ValueNotFound, first.as_str(), line_number),
            },
        }
    }

    /// The variable that the first part of `name` stands for, and the rest.
    pub fn get_initial_variable(&self, name: &str, line_number: usize) -> (r: Result<
        (Variable, Option<String>),
        Error,
    >)
        ensures
            variable_and_rest(r) == initial_variable(self@, name@, line_number),
    {
        match self.get_initial_thing(name, line_number) {
            Ok((thing, remaining)) => match thing.variable(self.name, line_number) {
                Ok(v) => Ok((v, remaining)),
                Err(e) => Err(e),
            },
            Err(e) => Err(e),
        }
    }

    /// The function that `name` stands for.
    pub fn get_function(&self, name: &str, line_number: usize) -> (r: Result<Function, Error>)
        ensures
            lifted(r) == function_named(self@, name@, line_number),
    {
        match self.get_initial_thing(name, line_number) {
            Ok((thing, _)) => thing.function(self.name, line_number),
            Err(e) => Err(e),
        }
    }
}

/// The function that `name` stands for.
pub open spec fn function_named(doc: DocV, name: Seq<char>, line_number: usize) -> Result<
    FunctionV,
    ErrorV,
> {
    match initial_thing(doc, name, line_number) {
        Ok((thing, _)) => as_function(thing, doc.name, line_number),
        Err(e) => Err(e),
    }
}

/// The name of a reference with its document spelled out.
pub open spec fn reference_name(doc: DocV, name: Seq<char>) -> Seq<char> {
    match crate::text::strip_prefix(name, crate::names::one('$')) {
        Some(l) => if crate::names::is_special_variable(crate::names::doc_name_and_remaining(l).0) {
            crate::names::one('$') + l
        } else {
            crate::names::one('$') + crate::names::resolved_name(l, doc.name, doc.aliases)
        },
        None => name,
    }
}

} // verus!
