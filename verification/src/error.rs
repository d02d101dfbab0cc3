//! The error value that every fallible operation of the library returns.

use vstd::prelude::*;

verus! {

/// What went wrong.
#[derive(Debug, PartialEq, Eq, Clone, Copy, Structural)]
pub enum ErrorKind {
    /// A construct is malformed.
    ParseError,
    /// A declared and an actual kind disagree.
    InvalidKind,
    /// A name has no definition.
    ValueNotFound,
    /// A mutation was attempted on a variable that is not mutable.
    NotMutable,
    /// A typed accessor found a definition of another sort.
    UnexpectedKind,
    /// An event name is not recognised.
    UnknownEvent,
    /// A property names an argument that the component does not declare.
    ArgumentNotFound,
    /// The mutability of a header differs from that of its argument.
    MutabilityMismatch,
    /// A record or object has no field of the requested name.
    FieldNotFound,
    /// A list has no item at the requested position.
    IndexOutOfRange,
    /// A value has not the shape that an operation needs.
    TypeMismatch,
    /// A text does not denote an integer.
    ParseIntError,
    /// A text does not denote a boolean.
    ParseBoolError,
}

/// Specification-level error.
pub struct ErrorV {
    pub kind: ErrorKind,
    pub message: Seq<char>,
    pub doc_id: Seq<char>,
    pub line_number: usize,
}

/// An error with the document and the line it was raised for.
#[derive(Debug, PartialEq, Eq)]
pub struct Error {
    pub kind: ErrorKind,
    pub message: String,
    pub doc_id: String,
    pub line_number: usize,
}

impl View for Error {
    type V = ErrorV;

    open spec fn view(&self) -> ErrorV {
        ErrorV {
            kind: self.kind,
            message: self.message@,
            doc_id: self.doc_id@,
            line_number: self.line_number,
        }
    }
}

/// The error of kind `kind` with the given message, document and line.
pub open spec fn error(kind: ErrorKind, message: Seq<char>, doc_id: Seq<char>, line_number: usize)
    -> ErrorV {
    ErrorV { kind, message, doc_id, line_number }
}

impl Clone for Error {
    fn clone(&self) -> (r: Self)
        ensures
            r@ == self@,
    {
        Error {
            kind: self.kind,
            message: self.message.clone(),
            doc_id: self.doc_id.clone(),
            line_number: self.line_number,
        }
    }
}

impl Error {
    /// Builds an error value.
    pub fn new(kind: ErrorKind, message: &str, doc_id: &str, line_number: usize) -> (r: Error)
        ensures
            r@ == error(kind, message@, doc_id@, line_number),
    {
        Error { kind, message: message.to_owned(), doc_id: doc_id.to_owned(), line_number }
    }

    /// The document and the message, for display.
    pub fn to_text(&self) -> (r: String)
        ensures
            r@ == self.doc_id@ + ": "@ + self.message@,
    {
        let mut out = self.doc_id.clone();
        out.append(": ");
        out.append(self.message.as_str());
        out
    }
}

/// The failing result of kind `kind`.
pub fn fail<T>(kind: ErrorKind, message: &str, doc_id: &str, line_number: usize) -> (r: Result<
    T,
    Error,
>)
    ensures
        r is Err,
        r->Err_0@ == error(kind, message@, doc_id@, line_number),
{
    Err(Error::new(kind, message, doc_id, line_number))
}

} // verus!
