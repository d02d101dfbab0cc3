//! A library of documents for examples: what it answers to the resolver.

use vstd::prelude::*;
use crate::error::{error, fail, Error, ErrorKind, ErrorV};
use crate::names::pairs;
use crate::text::{concat2, str_eq};
use crate::value::{PropertyValue, PropertyValueV, ValueV};

verus! {

/// The header that names the processor of a section.
pub const PROCESSOR_MARKER: &'static str = "$processor$";

/// The header that says whether a variable is always included.
pub const ALWAYS_INCLUDE: &'static str = "$always-include$";

/// The flags of a variable declaration.
#[derive(Debug, PartialEq, Eq, Clone, Copy, Structural)]
pub struct VariableFlags {
    pub always_include: Option<bool>,
}

impl Default for VariableFlags {
    fn default() -> (r: VariableFlags)
        ensures
            r == (VariableFlags { always_include: None }),
    {
        VariableFlags { always_include: None }
    }
}

/// The flags that the value of the always-include header gives: none for a
/// header that is not there, the boolean of a boolean literal, and an error
/// for any other value.
pub open spec fn flags_of(header: Option<PropertyValueV>, doc_id: Seq<char>, line_number: usize)
    -> Result<VariableFlags, ErrorV> {
    match header {
        None => Ok(VariableFlags { always_include: None }),
        Some(PropertyValueV::Value { value: ValueV::Boolean { value }, .. }) => Ok(
            VariableFlags { always_include: Some(value) },
        ),
        Some(_) => Err(error(ErrorKind::ParseError, "Expected boolean"@, doc_id, line_number)),
    }
}

impl VariableFlags {
    /// The flags that the value of the always-include header gives.
    pub fn get_flags(header: Option<&PropertyValue>, doc_id: &str, line_number: usize) -> (r:
        Result<VariableFlags, Error>)
        ensures
            match r {
                Ok(flags) => flags_of(
                    match header {
                        Some(h) => Some(h@),
                        None => None,
                    },
                    doc_id@,
                    line_number,
                ) == Ok::<VariableFlags, ErrorV>(flags),
                Err(e) => flags_of(
                    match header {
                        Some(h) => Some(h@),
                        None => None,
                    },
                    doc_id@,
                    line_number,
                ) == Err::<VariableFlags, ErrorV>(e@),
            },
    {
        match header {
            None => Ok(VariableFlags { always_include: None }),
            Some(PropertyValue::Value { value: crate::value::Value::Boolean { value }, .. }) => Ok(
                VariableFlags { always_include: Some(*value) },
            ),
            Some(_) => fail(ErrorKind::ParseError, "Expected boolean", doc_id, line_number),
        }
    }
}

/// A library that knows a fixed set of global ids and no processors.
#[derive(Debug, PartialEq, Eq, Clone, Copy, Structural)]
pub struct ExampleLibrary {}

/// The global ids that the example library knows, each with its link.
pub open spec fn global_ids() -> Seq<(Seq<char>, Seq<char>)> {
    seq![
        ("foo"@, "/foo/bar/#foo"@),
        ("hello"@, "/hello/there/#hello"@),
        ("some id"@, "/some/id/#some-id"@),
        ("scp"@, "/foo/bar/#scp"@),
        ("sh"@, "/hello/there/#sh"@),
        ("sb"@, "/some/id/#sb"@),
        ("sscp"@, "/foo/bar/#sscp"@),
        ("ssh"@, "/hello/there/#ssh"@),
        ("ssb"@, "/some/id/#ssb"@),
        ("a"@, "/some/#a"@),
        ("b"@, "/some/#b"@),
        ("c"@, "/some/#c"@),
        ("d"@, "/some/#d"@),
        ("x"@, "/some/#x"@),
        ("X"@, "/some/#X"@),
    ]
}

impl ExampleLibrary {
    /// The global ids that the library knows, each with its link.
    pub fn dummy_global_ids_map(&self) -> (r: Vec<(String, String)>)
        ensures
            pairs(r@) == global_ids(),
    {
        let mut ids: Vec<(String, String)> = Vec::new();
        ids.push(("foo".to_owned(), "/foo/bar/#foo".to_owned()));
        ids.push(("hello".to_owned(), "/hello/there/#hello".to_owned()));
        ids.push(("some id".to_owned(), "/some/id/#some-id".to_owned()));
        ids.push(("scp".to_owned(), "/foo/bar/#scp".to_owned()));
        ids.push(("sh".to_owned(), "/hello/there/#sh".to_owned()));
        ids.push(("sb".to_owned(), "/some/id/#sb".to_owned()));
        ids.push(("sscp".to_owned(), "/foo/bar/#sscp".to_owned()));
        ids.push(("ssh".to_owned(), "/hello/there/#ssh".to_owned()));
        ids.push(("ssb".to_owned(), "/some/id/#ssb".to_owned()));
        ids.push(("a".to_owned(), "/some/#a".to_owned()));
        ids.push(("b".to_owned(), "/some/#b".to_owned()));
        ids.push(("c".to_owned(), "/some/#c".to_owned()));
        ids.push(("d".to_owned(), "/some/#d".to_owned()));
        ids.push(("x".to_owned(), "/some/#x".to_owned()));
        ids.push(("X".to_owned(), "/some/#X".to_owned()));
        assert(pairs(ids@) =~= global_ids());
        ids
    }

    /// Whether a section with the processor `processor` is handled lazily:
    /// that is so for the processor of page headings alone.
    pub fn is_lazy_processor(processor: &str) -> (r: bool)
        ensures
            r == (processor@ == "page-headings"@),
    {
        str_eq(processor, "page-headings")
    }

    /// The library has no processors: every section is an error.
    pub fn process(&self, doc_id: &str, line_number: usize) -> (r: Result<
        crate::value::Value,
        Error,
    >)
        ensures
            r is Err,
            r->Err_0@ == error(ErrorKind::ParseError, "unknown processor"@, doc_id@, line_number),
    {
        fail(ErrorKind::ParseError, "unknown processor", doc_id, line_number)
    }

    /// The text of the document `name` as it was read, or the error of a
    /// document that the library has not.
    pub fn get_with_result(&self, name: &str, found: Option<String>) -> (r: Result<String, Error>)
        ensures
            match found {
                Some(text) => r is Ok && r->Ok_0@ == text@,
                None => r is Err && r->Err_0@ == error(
                    ErrorKind::ParseError,
                    "library not found: "@ + name@,
                    Seq::empty(),
                    0,
                ),
            },
    {
        proof {
            reveal_strlit("");
            assert(""@ =~= Seq::<char>::empty());
        }
        match found {
            Some(text) => Ok(text),
            None => {
                let message = concat2("library not found: ", name);
                fail(ErrorKind::ParseError, message.as_str(), "", 0)
            },
        }
    }
}

} // verus!
