//! What a component instance passes for an argument: the properties that
//! bind the argument, checked against it, and the value that they give.

use vstd::prelude::*;
use crate::error::{error, fail, Error, ErrorKind, ErrorV};
use crate::kind::KindV;
use crate::resolve::property_value;
use crate::semantics::DocV;
use crate::tdoc::TDoc;
use crate::thing::{field_position, find_field, views, Argument, FieldV};
use crate::value::{
    fields_model, properties_model, texts, Property, PropertySource, PropertySourceV, PropertyV,
    PropertyValue, PropertyValueV, ValueV,
};

verus! {

/// A value with the line of the property that gave it and the properties
/// that were considered.
#[derive(Debug, PartialEq)]
pub struct Value<T> {
    pub value: T,
    pub line_number: Option<usize>,
    pub properties: Vec<Property>,
}

impl<T> Value<T> {
    pub fn new(value: T, line_number: Option<usize>, properties: Vec<Property>) -> (r: Value<T>)
        ensures
            r.value == value,
            r.line_number == line_number,
            r.properties == properties,
    {
        Value { value, line_number, properties }
    }

    /// The same with `f` applied to the value.
    pub fn map<U, F: FnOnce(T) -> U>(self, f: F) -> (r: Value<U>)
        requires
            f.requires((self.value,)),
        ensures
            f.ensures((self.value,), r.value),
            r.line_number == self.line_number,
            r.properties == self.properties,
    {
        Value { value: f(self.value), line_number: self.line_number, properties: self.properties }
    }
}

/// The places where a property for `argument` may be written: a header of
/// its name, and the caption or the body if it takes them.
pub open spec fn sources_of(argument: FieldV) -> Seq<PropertySourceV> {
    let header = seq![PropertySourceV::Header { name: argument.name, mutable: argument.mutable }];
    let with_caption = if argument.kind.caption {
        header.push(PropertySourceV::Caption)
    } else {
        header
    };
    if argument.kind.body {
        with_caption.push(PropertySourceV::Body)
    } else {
        with_caption
    }
}

/// Whether a property is written at one of the places `sources`.
pub open spec fn from_sources(property: PropertyV, sources: Seq<PropertySourceV>) -> bool {
    exists|i: int| 0 <= i < sources.len() && property.source.is_equal(#[trigger] sources[i])
}

/// The properties from position `from` on that are written at one of the
/// places `sources`, after those in `acc`.
pub open spec fn by_source(
    properties: Seq<PropertyV>,
    sources: Seq<PropertySourceV>,
    from: int,
    acc: Seq<PropertyV>,
) -> Seq<PropertyV>
    decreases properties.len() - from,
{
    if from < 0 || from >= properties.len() {
        acc
    } else if from_sources(properties[from], sources) {
        by_source(properties, sources, from + 1, acc.push(properties[from]))
    } else {
        by_source(properties, sources, from + 1, acc)
    }
}

/// What the check of the properties from `from` on gives: the line of the
/// unconditional property if there is one, given that `default` was seen
/// before. Every property has to be of the kind of the argument, and at
/// most one may be unconditional.
pub open spec fn checked(
    properties: Seq<PropertyV>,
    expected: KindV,
    from: int,
    default: Option<usize>,
    doc_id: Seq<char>,
    line_number: usize,
) -> Result<Option<usize>, ErrorV>
    decreases properties.len() - from,
{
    if from < 0 || from >= properties.len() {
        Ok(default)
    } else if !properties[from].value.kind().is_same_as(expected) {
        Err(error(ErrorKind::InvalidKind, "Expected kind"@, doc_id, line_number))
    } else if properties[from].condition.is_none() {
        if default.is_some() {
            Err(
                error(ErrorKind::ParseError, "Already found default property"@, doc_id, line_number),
            )
        } else {
            checked(
                properties,
                expected,
                from + 1,
                Some(properties[from].line_number),
                doc_id,
                line_number,
            )
        }
    } else {
        checked(properties, expected, from + 1, default, doc_id, line_number)
    }
}

/// The property that stands for the default value of an argument.
pub open spec fn default_property(argument: FieldV, value: PropertyValueV) -> PropertyV {
    PropertyV {
        value,
        source: PropertySourceV::Header { name: argument.name, mutable: argument.mutable },
        condition: None,
        line_number: argument.line_number,
    }
}

/// The properties for `argument` once they are checked: where none of them
/// is unconditional the default value of the argument is added, and an
/// argument that is neither optional nor a list has to get a value.
pub open spec fn validated(
    properties: Seq<PropertyV>,
    argument: FieldV,
    doc_id: Seq<char>,
    line_number: usize,
) -> Result<Seq<PropertyV>, ErrorV> {
    match checked(properties, argument.kind.kind, 0, None, doc_id, line_number) {
        Err(e) => Err(e),
        Ok(Some(_)) => Ok(properties),
        Ok(None) => match argument.value {
            Some(value) => Ok(properties.push(default_property(argument, value))),
            None => if argument.kind.kind is Optional || argument.kind.kind is List
                || properties.len() > 0 {
                Ok(properties)
            } else {
                Err(error(ErrorKind::ParseError, argument.name, doc_id, line_number))
            },
        },
    }
}

/// The properties that bind `argument`, checked.
pub open spec fn properties_for(
    properties: Seq<PropertyV>,
    sources: Seq<PropertySourceV>,
    argument: FieldV,
    doc_id: Seq<char>,
    line_number: usize,
) -> Result<Seq<PropertyV>, ErrorV> {
    validated(by_source(properties, sources, 0, Seq::empty()), argument, doc_id, line_number)
}

/// The value that the properties from `from` on give, and its line: each
/// property that contributes a value replaces what was found before, and a
/// conditional property that contributes one ends the search.
pub open spec fn chosen(
    doc: DocV,
    properties: Seq<PropertyV>,
    from: int,
    value: Option<ValueV>,
    line: Option<usize>,
) -> Result<(Option<ValueV>, Option<usize>), ErrorV>
    decreases properties.len() - from,
{
    if from < 0 || from >= properties.len() {
        Ok((value, line))
    } else {
        match property_value(doc, properties[from]) {
            Err(e) => Err(e),
            Ok(Some(v)) => if properties[from].condition.is_some() {
                Ok((Some(v), Some(properties[from].line_number)))
            } else {
                chosen(doc, properties, from + 1, Some(v), Some(properties[from].line_number))
            },
            Ok(None) => chosen(doc, properties, from + 1, value, line),
        }
    }
}

/// Specification-level value found for an argument.
pub struct FoundV {
    pub value: Option<ValueV>,
    pub line_number: Option<usize>,
    pub properties: Seq<PropertyV>,
}

/// The value that the properties written at `sources` give to `argument`.
pub open spec fn value_by_argument(
    doc: DocV,
    sources: Seq<PropertySourceV>,
    properties: Seq<PropertyV>,
    argument: FieldV,
    line_number: usize,
) -> Result<FoundV, ErrorV> {
    match properties_for(properties, sources, argument, doc.name, line_number) {
        Err(e) => Err(e),
        Ok(selected) => match chosen(doc, selected, 0, None, None) {
            Err(e) => Err(e),
            Ok((value, line)) => Ok(FoundV { value, line_number: line, properties: selected }),
        },
    }
}

/// The value that the properties of an instance give to the argument named
/// `key`, which has to be of the kind of the argument.
pub open spec fn value_for_key(
    doc: DocV,
    key: Seq<char>,
    properties: Seq<PropertyV>,
    arguments: Seq<FieldV>,
    line_number: usize,
) -> Result<FoundV, ErrorV> {
    let i = find_field(arguments, key, 0);
    if i < 0 {
        Err(error(ErrorKind::ArgumentNotFound, key, doc.name, line_number))
    } else {
        match value_by_argument(doc, sources_of(arguments[i]), properties, arguments[i], line_number) {
            Err(e) => Err(e),
            Ok(found) => match found.value {
                Some(v) => if v.kind().is_same_as(arguments[i].kind.kind) {
                    Ok(found)
                } else {
                    Err(error(ErrorKind::InvalidKind, key, doc.name, line_number))
                },
                None => Ok(found),
            },
        }
    }
}

/// What an optional value holds once an optional is looked into.
pub open spec fn inner_of(value: Option<ValueV>) -> Option<ValueV> {
    match value {
        Some(v) => v.inner(),
        None => None,
    }
}

/// The specification-level form of a value found for an argument.
pub open spec fn found_view(r: Result<Value<Option<crate::value::Value>>, Error>) -> Result<
    FoundV,
    ErrorV,
> {
    match r {
        Ok(v) => Ok(
            FoundV {
                value: match v.value {
                    Some(x) => Some(x@),
                    None => None,
                },
                line_number: v.line_number,
                properties: properties_model(v.properties),
            },
        ),
        Err(e) => Err(e@),
    }
}

/// The views of a list of property sources.
pub open spec fn sources_view(v: Seq<PropertySource>) -> Seq<PropertySourceV> {
    Seq::new(v.len(), |i: int| v[i]@)
}

impl Argument {
    /// The places where a property for the argument may be written.
    pub fn to_sources(&self) -> (r: Vec<PropertySource>)
        ensures
            sources_view(r@) == sources_of(self@),
    {
        let mut out: Vec<PropertySource> = Vec::new();
        out.push(PropertySource::Header { name: self.name.clone(), mutable: self.mutable });
        if self.kind.caption {
            out.push(PropertySource::Caption);
        }
        if self.kind.body {
            out.push(PropertySource::Body);
        }
        assert(sources_view(out@) =~= sources_of(self@));
        out
    }
}

fn is_from_sources(property: &Property, sources: &Vec<PropertySource>) -> (r: bool)
    ensures
        r == from_sources(property@, sources_view(sources@)),
{
    let mut i: usize = 0;
    while i < sources.len()
        invariant
            i <= sources.len(),
            forall|j: int|
                0 <= j < i ==> !property@.source.is_equal(#[trigger] sources_view(sources@)[j]),
        decreases sources.len() - i,
    {
        if property.source.is_equal(&sources[i]) {
            assert(property@.source.is_equal(sources_view(sources@)[i as int]));
            return true;
        }
        i += 1;
    }
    false
}

fn select_by_source(properties: &Vec<Property>, sources: &Vec<PropertySource>) -> (r: Vec<Property>)
    ensures
        properties_model(r) == by_source(
            properties_model(*properties),
            sources_view(sources@),
            0,
            Seq::empty(),
        ),
{
    let mut out: Vec<Property> = Vec::new();
    let mut i: usize = 0;
    assert(properties_model(out) =~= Seq::empty());
    while i < properties.len()
        invariant
            i <= properties.len(),
            by_source(properties_model(*properties), sources_view(sources@), 0, Seq::empty())
                == by_source(
                properties_model(*properties),
                sources_view(sources@),
                i as int,
                properties_model(out),
            ),
        decreases properties.len() - i,
    {
        assert(properties_model(*properties)[i as int] == properties[i as int]@);
        if is_from_sources(&properties[i], sources) {
            let ghost before = properties_model(out);
            out.push(properties[i].clone());
            assert(properties_model(out) =~= before.push(properties[i as int]@));
        }
        i += 1;
    }
    out
}

fn check_properties(
    properties: &Vec<Property>,
    argument: &Argument,
    doc_id: &str,
    line_number: usize,
) -> (r: Result<Option<usize>, Error>)
    ensures
        match r {
            Ok(d) => checked(
                properties_model(*properties),
                argument@.kind.kind,
                0,
                None,
                doc_id@,
                line_number,
            ) == Ok::<Option<usize>, ErrorV>(d),
            Err(e) => checked(
                properties_model(*properties),
                argument@.kind.kind,
                0,
                None,
                doc_id@,
                line_number,
            ) == Err::<Option<usize>, ErrorV>(e@),
        },
{
    let mut default: Option<usize> = None;
    let mut i: usize = 0;
    while i < properties.len()
        invariant
            i <= properties.len(),
            checked(
                properties_model(*properties),
                argument@.kind.kind,
                0,
                None,
                doc_id@,
                line_number,
            ) == checked(
                properties_model(*properties),
                argument@.kind.kind,
                i as int,
                default,
                doc_id@,
                line_number,
            ),
        decreases properties.len() - i,
    {
        assert(properties_model(*properties)[i as int] == properties[i as int]@);
        let property = &properties[i];
        if !property.value.kind().is_same_as(&argument.kind.kind) {
            return fail(ErrorKind::InvalidKind, "Expected kind", doc_id, line_number);
        }
        if property.condition.is_none() {
            if default.is_some() {
                return fail(
                    ErrorKind::ParseError,
                    "Already found default property",
                    doc_id,
                    line_number,
                );
            }
            default = Some(property.line_number);
        }
        i += 1;
    }
    Ok(default)
}

/// The properties for `argument` once they are checked.
pub fn validate_properties_and_set_default(
    properties: Vec<Property>,
    argument: &Argument,
    doc_id: &str,
    line_number: usize,
) -> (r: Result<Vec<Property>, Error>)
    ensures
        match r {
            Ok(v) => validated(properties_model(properties), argument@, doc_id@, line_number)
                == Ok::<Seq<PropertyV>, ErrorV>(properties_model(v)),
            Err(e) => validated(properties_model(properties), argument@, doc_id@, line_number)
                == Err::<Seq<PropertyV>, ErrorV>(e@),
        },
{
    let default = match check_properties(&properties, argument, doc_id, line_number) {
        Err(e) => {
            return Err(e);
        },
        Ok(d) => d,
    };
    if default.is_some() {
        return Ok(properties);
    }
    match &argument.value {
        Some(value) => {
            let mut properties = properties;
            let ghost before = properties_model(properties);
            properties.push(
                Property {
                    value: value.clone(),
                    source: PropertySource::Header {
                        name: argument.name.clone(),
                        mutable: argument.mutable,
                    },
                    condition: None,
                    line_number: argument.line_number,
                },
            );
            assert(properties_model(properties) =~= before.push(
                default_property(argument@, value@),
            ));
            Ok(properties)
        },
        None => {
            if argument.kind.is_optional() || argument.kind.is_list() || properties.len() > 0 {
                Ok(properties)
            } else {
                fail(ErrorKind::ParseError, argument.name.as_str(), doc_id, line_number)
            }
        },
    }
}

/// The properties that bind `argument`, checked.
pub fn find_properties_by_source(
    source: &Vec<PropertySource>,
    properties: &Vec<Property>,
    doc: &TDoc,
    argument: &Argument,
    line_number: usize,
) -> (r: Result<Vec<Property>, Error>)
    ensures
        match r {
            Ok(v) => properties_for(
                properties_model(*properties),
                sources_view(source@),
                argument@,
                doc@.name,
                line_number,
            ) == Ok::<Seq<PropertyV>, ErrorV>(properties_model(v)),
            Err(e) => properties_for(
                properties_model(*properties),
                sources_view(source@),
                argument@,
                doc@.name,
                line_number,
            ) == Err::<Seq<PropertyV>, ErrorV>(e@),
        },
{
    let selected = select_by_source(properties, source);
    validate_properties_and_set_default(selected, argument, doc.name, line_number)
}

fn choose_value(doc: &TDoc, properties: &Vec<Property>) -> (r: Result<
    (Option<crate::value::Value>, Option<usize>),
    Error,
>)
    ensures
        match r {
            Ok((value, line)) => chosen(doc@, properties_model(*properties), 0, None, None)
                == Ok::<(Option<ValueV>, Option<usize>), ErrorV>(
                (
                    match value {
                        Some(v) => Some(v@),
                        None => None,
                    },
                    line,
                ),
            ),
            Err(e) => chosen(doc@, properties_model(*properties), 0, None, None) == Err::<
                (Option<ValueV>, Option<usize>),
                ErrorV,
            >(e@),
        },
{
    let mut value: Option<crate::value::Value> = None;
    let mut line: Option<usize> = None;
    let mut i: usize = 0;
    while i < properties.len()
        invariant
            i <= properties.len(),
            chosen(doc@, properties_model(*properties), 0, None, None) == chosen(
                doc@,
                properties_model(*properties),
                i as int,
                match value {
                    Some(v) => Some(v@),
                    None => None,
                },
                line,
            ),
        decreases properties.len() - i,
    {
        assert(properties_model(*properties)[i as int] == properties[i as int]@);
        let p = &properties[i];
        match p.resolve(doc) {
            Err(e) => {
                return Err(e);
            },
            Ok(Some(v)) => {
                value = Some(v);
                line = Some(p.line_number);
                if p.condition.is_some() {
                    return Ok((value, line));
                }
            },
            Ok(None) => {},
        }
        i += 1;
    }
    Ok((value, line))
}

/// The value that the properties written at `source` give to `argument`.
pub fn find_value_by_argument(
    source: &Vec<PropertySource>,
    properties: &Vec<Property>,
    doc: &TDoc,
    argument: &Argument,
    line_number: usize,
) -> (r: Result<Value<Option<crate::value::Value>>, Error>)
    ensures
        found_view(r) == value_by_argument(
            doc@,
            sources_view(source@),
            properties_model(*properties),
            argument@,
            line_number,
        ),
{
    let selected = match find_properties_by_source(source, properties, doc, argument, line_number) {
        Err(e) => {
            return Err(e);
        },
        Ok(s) => s,
    };
    match choose_value(doc, &selected) {
        Err(e) => Err(e),
        Ok((value, line)) => Ok(Value { value, line_number: line, properties: selected }),
    }
}

/// The value that the properties of an instance give to the argument named
/// `key`.
pub fn get_value_from_properties_using_key_and_arguments(
    key: &str,
    properties: &Vec<Property>,
    arguments: &Vec<Argument>,
    doc: &TDoc,
    line_number: usize,
) -> (r: Result<Value<Option<crate::value::Value>>, Error>)
    ensures
        found_view(r) == value_for_key(
            doc@,
            key@,
            properties_model(*properties),
            views(arguments@),
            line_number,
        ),
{
    let i = match field_position(arguments, key) {
        None => {
            return fail(ErrorKind::ArgumentNotFound, key, doc.name, line_number);
        },
        Some(i) => i,
    };
    let argument = &arguments[i];
    let sources = argument.to_sources();
    let found = match find_value_by_argument(&sources, properties, doc, argument, line_number) {
        Err(e) => {
            return Err(e);
        },
        Ok(f) => f,
    };
    let fits = match &found.value {
        Some(v) => v.kind().is_same_as(&argument.kind.kind),
        None => true,
    };
    if fits {
        Ok(found)
    } else {
        fail(ErrorKind::InvalidKind, key, doc.name, line_number)
    }
}

/// The error of a value of another sort than the one asked for.
pub open spec fn wrong_sort(doc: DocV, line_number: usize) -> ErrorV {
    error(ErrorKind::TypeMismatch, "Expected value of another type"@, doc.name, line_number)
}

/// What is inside the value found, if anything.
fn inner_value(found: &Value<Option<crate::value::Value>>) -> (r: Option<crate::value::Value>)
    ensures
        match r {
            Some(v) => inner_of(found_view(Ok(*found))->Ok_0.value) == Some(v@),
            None => inner_of(found_view(Ok(*found))->Ok_0.value).is_none(),
        },
{
    match &found.value {
        Some(v) => v.inner(),
        None => None,
    }
}

/// The text that the properties give to the string argument `key`.
pub fn string(
    key: &str,
    properties: &Vec<Property>,
    arguments: &Vec<Argument>,
    doc: &TDoc,
    line_number: usize,
) -> (r: Result<Value<String>, Error>)
    ensures
        match value_for_key(
            doc@,
            key@,
            properties_model(*properties),
            views(arguments@),
            line_number,
        ) {
            Err(e) => r is Err && r->Err_0@ == e,
            Ok(found) => match inner_of(found.value) {
                Some(ValueV::String { text }) => r is Ok && r->Ok_0.value@ == text
                    && r->Ok_0.line_number == found.line_number && properties_model(
                    r->Ok_0.properties,
                ) == found.properties,
                _ => r is Err && r->Err_0@ == wrong_sort(doc@, line_number),
            },
        },
{
    let found = match get_value_from_properties_using_key_and_arguments(
        key,
        properties,
        arguments,
        doc,
        line_number,
    ) {
        Err(e) => {
            return Err(e);
        },
        Ok(f) => f,
    };
    match inner_value(&found) {
        Some(crate::value::Value::String { text }) => Ok(
            Value { value: text, line_number: found.line_number, properties: found.properties },
        ),
        _ => fail(
            ErrorKind::TypeMismatch,
            "Expected value of another type",
            doc.name,
            line_number,
        ),
    }
}

/// The text that the properties give to the optional string argument `key`.
pub fn optional_string(
    key: &str,
    properties: &Vec<Property>,
    arguments: &Vec<Argument>,
    doc: &TDoc,
    line_number: usize,
) -> (r: Result<Value<Option<String>>, Error>)
    ensures
        match value_for_key(
            doc@,
            key@,
            properties_model(*properties),
            views(arguments@),
            line_number,
        ) {
            Err(e) => r is Err && r->Err_0@ == e,
            Ok(found) => match inner_of(found.value) {
                Some(ValueV::String { text }) => r is Ok && crate::kind::opt_text(r->Ok_0.value)
                    == Some(text) && r->Ok_0.line_number == found.line_number && properties_model(
                    r->Ok_0.properties,
                ) == found.properties,
                None => r is Ok && r->Ok_0.value.is_none() && r->Ok_0.line_number
                    == found.line_number && properties_model(r->Ok_0.properties)
                    == found.properties,
                _ => r is Err && r->Err_0@ == wrong_sort(doc@, line_number),
            },
        },
{
    let found = match get_value_from_properties_using_key_and_arguments(
        key,
        properties,
        arguments,
        doc,
        line_number,
    ) {
        Err(e) => {
            return Err(e);
        },
        Ok(f) => f,
    };
    match inner_value(&found) {
        Some(crate::value::Value::String { text }) => Ok(
            Value {
                value: Some(text),
                line_number: found.line_number,
                properties: found.properties,
            },
        ),
        None => Ok(
            Value { value: None, line_number: found.line_number, properties: found.properties },
        ),
        _ => fail(
            ErrorKind::TypeMismatch,
            "Expected value of another type",
            doc.name,
            line_number,
        ),
    }
}

/// The text that the properties give to the string argument `key`, or
/// `default` where they give none.
pub fn string_with_default(
    key: &str,
    properties: &Vec<Property>,
    arguments: &Vec<Argument>,
    default: &str,
    doc: &TDoc,
    line_number: usize,
) -> (r: Result<Value<String>, Error>)
    ensures
        match value_for_key(
            doc@,
            key@,
            properties_model(*properties),
            views(arguments@),
            line_number,
        ) {
            Err(e) => r is Err && r->Err_0@ == e,
            Ok(found) => match inner_of(found.value) {
                Some(ValueV::String { text }) => r is Ok && r->Ok_0.value@ == text
                    && r->Ok_0.line_number == found.line_number && properties_model(
                    r->Ok_0.properties,
                ) == found.properties,
                None => r is Ok && r->Ok_0.value@ == default@ && r->Ok_0.line_number
                    == found.line_number && properties_model(r->Ok_0.properties)
                    == found.properties,
                _ => r is Err && r->Err_0@ == wrong_sort(doc@, line_number),
            },
        },
{
    match optional_string(key, properties, arguments, doc, line_number) {
        Err(e) => Err(e),
        Ok(found) => Ok(
            Value {
                value: match found.value {
                    Some(text) => text,
                    None => default.to_owned(),
                },
                line_number: found.line_number,
                properties: found.properties,
            },
        ),
    }
}

/// The number that the properties give to the optional integer argument
/// `key`.
pub fn optional_i64(
    key: &str,
    properties: &Vec<Property>,
    arguments: &Vec<Argument>,
    doc: &TDoc,
    line_number: usize,
) -> (r: Result<Value<Option<i64>>, Error>)
    ensures
        match value_for_key(
            doc@,
            key@,
            properties_model(*properties),
            views(arguments@),
            line_number,
        ) {
            Err(e) => r is Err && r->Err_0@ == e,
            Ok(found) => match inner_of(found.value) {
                Some(ValueV::Integer { value }) => r is Ok && r->Ok_0.value == Some(value)
                    && r->Ok_0.line_number == found.line_number && properties_model(
                    r->Ok_0.properties,
                ) == found.properties,
                None => r is Ok && r->Ok_0.value.is_none() && r->Ok_0.line_number
                    == found.line_number && properties_model(r->Ok_0.properties)
                    == found.properties,
                _ => r is Err && r->Err_0@ == wrong_sort(doc@, line_number),
            },
        },
{
    let found = match get_value_from_properties_using_key_and_arguments(
        key,
        properties,
        arguments,
        doc,
        line_number,
    ) {
        Err(e) => {
            return Err(e);
        },
        Ok(f) => f,
    };
    match inner_value(&found) {
        Some(crate::value::Value::Integer { value }) => Ok(
            Value {
                value: Some(value),
                line_number: found.line_number,
                properties: found.properties,
            },
        ),
        None => Ok(
            Value { value: None, line_number: found.line_number, properties: found.properties },
        ),
        _ => fail(
            ErrorKind::TypeMismatch,
            "Expected value of another type",
            doc.name,
            line_number,
        ),
    }
}

/// The number that the properties give to the integer argument `key`.
pub fn i64(
    key: &str,
    properties: &Vec<Property>,
    arguments: &Vec<Argument>,
    doc: &TDoc,
    line_number: usize,
) -> (r: Result<Value<i64>, Error>)
    ensures
        match value_for_key(
            doc@,
            key@,
            properties_model(*properties),
            views(arguments@),
            line_number,
        ) {
            Err(e) => r is Err && r->Err_0@ == e,
            Ok(found) => match inner_of(found.value) {
                Some(ValueV::Integer { value }) => r is Ok && r->Ok_0.value == value
                    && r->Ok_0.line_number == found.line_number && properties_model(
                    r->Ok_0.properties,
                ) == found.properties,
                _ => r is Err && r->Err_0@ == wrong_sort(doc@, line_number),
            },
        },
{
    match optional_i64(key, properties, arguments, doc, line_number) {
        Err(e) => Err(e),
        Ok(found) => match found.value {
            Some(value) => Ok(
                Value { value, line_number: found.line_number, properties: found.properties },
            ),
            None => fail(
                ErrorKind::TypeMismatch,
                "Expected value of another type",
                doc.name,
                line_number,
            ),
        },
    }
}

/// The truth value that the properties give to the optional boolean
/// argument `key`.
pub fn optional_bool(
    key: &str,
    properties: &Vec<Property>,
    arguments: &Vec<Argument>,
    doc: &TDoc,
    line_number: usize,
) -> (r: Result<Value<Option<bool>>, Error>)
    ensures
        match value_for_key(
            doc@,
            key@,
            properties_model(*properties),
            views(arguments@),
            line_number,
        ) {
            Err(e) => r is Err && r->Err_0@ == e,
            Ok(found) => match inner_of(found.value) {
                Some(ValueV::Boolean { value }) => r is Ok && r->Ok_0.value == Some(value)
                    && r->Ok_0.line_number == found.line_number && properties_model(
                    r->Ok_0.properties,
                ) == found.properties,
                None => r is Ok && r->Ok_0.value.is_none() && r->Ok_0.line_number
                    == found.line_number && properties_model(r->Ok_0.properties)
                    == found.properties,
                _ => r is Err && r->Err_0@ == wrong_sort(doc@, line_number),
            },
        },
{
    let found = match get_value_from_properties_using_key_and_arguments(
        key,
        properties,
        arguments,
        doc,
        line_number,
    ) {
        Err(e) => {
            return Err(e);
        },
        Ok(f) => f,
    };
    match inner_value(&found) {
        Some(crate::value::Value::Boolean { value }) => Ok(
            Value {
                value: Some(value),
                line_number: found.line_number,
                properties: found.properties,
            },
        ),
        None => Ok(
            Value { value: None, line_number: found.line_number, properties: found.properties },
        ),
        _ => fail(
            ErrorKind::TypeMismatch,
            "Expected value of another type",
            doc.name,
            line_number,
        ),
    }
}

/// The truth value that the properties give to the boolean argument `key`.
pub fn bool(
    key: &str,
    properties: &Vec<Property>,
    arguments: &Vec<Argument>,
    doc: &TDoc,
    line_number: usize,
) -> (r: Result<Value<bool>, Error>)
    ensures
        match value_for_key(
            doc@,
            key@,
            properties_model(*properties),
            views(arguments@),
            line_number,
        ) {
            Err(e) => r is Err && r->Err_0@ == e,
            Ok(found) => match inner_of(found.value) {
                Some(ValueV::Boolean { value }) => r is Ok && r->Ok_0.value == value
                    && r->Ok_0.line_number == found.line_number && properties_model(
                    r->Ok_0.properties,
                ) == found.properties,
                _ => r is Err && r->Err_0@ == wrong_sort(doc@, line_number),
            },
        },
{
    match optional_bool(key, properties, arguments, doc, line_number) {
        Err(e) => Err(e),
        Ok(found) => match found.value {
            Some(value) => Ok(
                Value { value, line_number: found.line_number, properties: found.properties },
            ),
            None => fail(
                ErrorKind::TypeMismatch,
                "Expected value of another type",
                doc.name,
                line_number,
            ),
        },
    }
}

/// The truth value that the properties give to the boolean argument `key`,
/// or `default` where they give none.
pub fn bool_with_default(
    key: &str,
    properties: &Vec<Property>,
    arguments: &Vec<Argument>,
    default: bool,
    doc: &TDoc,
    line_number: usize,
) -> (r: Result<Value<bool>, Error>)
    ensures
        match value_for_key(
            doc@,
            key@,
            properties_model(*properties),
            views(arguments@),
            line_number,
        ) {
            Err(e) => r is Err && r->Err_0@ == e,
            Ok(found) => match inner_of(found.value) {
                Some(ValueV::Boolean { value }) => r is Ok && r->Ok_0.value == value
                    && r->Ok_0.line_number == found.line_number && properties_model(
                    r->Ok_0.properties,
                ) == found.properties,
                None => r is Ok && r->Ok_0.value == default && r->Ok_0.line_number
                    == found.line_number && properties_model(r->Ok_0.properties)
                    == found.properties,
                _ => r is Err && r->Err_0@ == wrong_sort(doc@, line_number),
            },
        },
{
    match optional_bool(key, properties, arguments, doc, line_number) {
        Err(e) => Err(e),
        Ok(found) => Ok(
            Value {
                value: match found.value {
                    Some(value) => value,
                    None => default,
                },
                line_number: found.line_number,
                properties: found.properties,
            },
        ),
    }
}

/// The bit pattern of the decimal that the properties give to the optional
/// decimal argument `key`.
pub fn optional_decimal(
    key: &str,
    properties: &Vec<Property>,
    arguments: &Vec<Argument>,
    doc: &TDoc,
    line_number: usize,
) -> (r: Result<Value<Option<u64>>, Error>)
    ensures
        match value_for_key(
            doc@,
            key@,
            properties_model(*properties),
            views(arguments@),
            line_number,
        ) {
            Err(e) => r is Err && r->Err_0@ == e,
            Ok(found) => match inner_of(found.value) {
                Some(ValueV::Decimal { bits }) => r is Ok && r->Ok_0.value == Some(bits)
                    && r->Ok_0.line_number == found.line_number && properties_model(
                    r->Ok_0.properties,
                ) == found.properties,
                None => r is Ok && r->Ok_0.value.is_none() && r->Ok_0.line_number
                    == found.line_number && properties_model(r->Ok_0.properties)
                    == found.properties,
                _ => r is Err && r->Err_0@ == wrong_sort(doc@, line_number),
            },
        },
{
    let found = match get_value_from_properties_using_key_and_arguments(
        key,
        properties,
        arguments,
        doc,
        line_number,
    ) {
        Err(e) => {
            return Err(e);
        },
        Ok(f) => f,
    };
    match inner_value(&found) {
        Some(crate::value::Value::Decimal { bits }) => Ok(
            Value {
                value: Some(bits),
                line_number: found.line_number,
                properties: found.properties,
            },
        ),
        None => Ok(
            Value { value: None, line_number: found.line_number, properties: found.properties },
        ),
        _ => fail(
            ErrorKind::TypeMismatch,
            "Expected value of another type",
            doc.name,
            line_number,
        ),
    }
}

/// The bit pattern of the decimal that the properties give to the decimal
/// argument `key`.
pub fn decimal(
    key: &str,
    properties: &Vec<Property>,
    arguments: &Vec<Argument>,
    doc: &TDoc,
    line_number: usize,
) -> (r: Result<Value<u64>, Error>)
    ensures
        match value_for_key(
            doc@,
            key@,
            properties_model(*properties),
            views(arguments@),
            line_number,
        ) {
            Err(e) => r is Err && r->Err_0@ == e,
            Ok(found) => match inner_of(found.value) {
                Some(ValueV::Decimal { bits }) => r is Ok && r->Ok_0.value == bits
                    && r->Ok_0.line_number == found.line_number && properties_model(
                    r->Ok_0.properties,
                ) == found.properties,
                _ => r is Err && r->Err_0@ == wrong_sort(doc@, line_number),
            },
        },
{
    match optional_decimal(key, properties, arguments, doc, line_number) {
        Err(e) => Err(e),
        Ok(found) => match found.value {
            Some(value) => Ok(
                Value { value, line_number: found.line_number, properties: found.properties },
            ),
            None => fail(
                ErrorKind::TypeMismatch,
                "Expected value of another type",
                doc.name,
                line_number,
            ),
        },
    }
}

/// The fields of the record of type `rec_name` that the properties give to
/// the optional argument `key`.
pub fn optional_record(
    key: &str,
    properties: &Vec<Property>,
    arguments: &Vec<Argument>,
    doc: &TDoc,
    line_number: usize,
    rec_name: &str,
) -> (r: Result<Value<Option<Vec<(String, PropertyValue)>>>, Error>)
    ensures
        match value_for_key(
            doc@,
            key@,
            properties_model(*properties),
            views(arguments@),
            line_number,
        ) {
            Err(e) => r is Err && r->Err_0@ == e,
            Ok(found) => match inner_of(found.value) {
                Some(ValueV::Record { name, fields }) => if name == rec_name@ {
                    r is Ok && r->Ok_0.value is Some && fields_model(r->Ok_0.value->0) == fields
                        && r->Ok_0.line_number == found.line_number && properties_model(
                        r->Ok_0.properties,
                    ) == found.properties
                } else {
                    r is Err && r->Err_0@ == wrong_sort(doc@, line_number)
                },
                None => r is Ok && r->Ok_0.value.is_none() && r->Ok_0.line_number
                    == found.line_number && properties_model(r->Ok_0.properties)
                    == found.properties,
                _ => r is Err && r->Err_0@ == wrong_sort(doc@, line_number),
            },
        },
{
    let found = match get_value_from_properties_using_key_and_arguments(
        key,
        properties,
        arguments,
        doc,
        line_number,
    ) {
        Err(e) => {
            return Err(e);
        },
        Ok(f) => f,
    };
    match inner_value(&found) {
        Some(crate::value::Value::Record { name, fields }) => {
            if crate::text::str_eq(name.as_str(), rec_name) {
                Ok(
                    Value {
                        value: Some(fields),
                        line_number: found.line_number,
                        properties: found.properties,
                    },
                )
            } else {
                fail(
                    ErrorKind::TypeMismatch,
                    "Expected value of another type",
                    doc.name,
                    line_number,
                )
            }
        },
        None => Ok(
            Value { value: None, line_number: found.line_number, properties: found.properties },
        ),
        _ => fail(
            ErrorKind::TypeMismatch,
            "Expected value of another type",
            doc.name,
            line_number,
        ),
    }
}

/// The fields of the record of type `rec_name` that the properties give to
/// the argument `key`.
pub fn record(
    key: &str,
    properties: &Vec<Property>,
    arguments: &Vec<Argument>,
    doc: &TDoc,
    line_number: usize,
    rec_name: &str,
) -> (r: Result<Value<Vec<(String, PropertyValue)>>, Error>)
    ensures
        match value_for_key(
            doc@,
            key@,
            properties_model(*properties),
            views(arguments@),
            line_number,
        ) {
            Err(e) => r is Err && r->Err_0@ == e,
            Ok(found) => match inner_of(found.value) {
                Some(ValueV::Record { name, fields }) => if name == rec_name@ {
                    r is Ok && fields_model(r->Ok_0.value) == fields && r->Ok_0.line_number
                        == found.line_number && properties_model(r->Ok_0.properties)
                        == found.properties
                } else {
                    r is Err && r->Err_0@ == wrong_sort(doc@, line_number)
                },
                _ => r is Err && r->Err_0@ == wrong_sort(doc@, line_number),
            },
        },
{
    match optional_record(key, properties, arguments, doc, line_number, rec_name) {
        Err(e) => Err(e),
        Ok(found) => match found.value {
            Some(value) => Ok(
                Value { value, line_number: found.line_number, properties: found.properties },
            ),
            None => fail(
                ErrorKind::TypeMismatch,
                "Expected value of another type",
                doc.name,
                line_number,
            ),
        },
    }
}

/// The specification-level form of a variant with its inner value.
pub open spec fn variant_view(v: Option<(String, PropertyValue)>) -> Option<
    (Seq<char>, PropertyValueV),
> {
    match v {
        Some((variant, value)) => Some((variant@, value@)),
        None => None,
    }
}

/// The variant and the inner value of the or-type `rec_name` that the
/// properties give to the optional argument `key`.
pub fn optional_or_type(
    key: &str,
    properties: &Vec<Property>,
    arguments: &Vec<Argument>,
    doc: &TDoc,
    line_number: usize,
    rec_name: &str,
) -> (r: Result<Value<Option<(String, PropertyValue)>>, Error>)
    ensures
        match value_for_key(
            doc@,
            key@,
            properties_model(*properties),
            views(arguments@),
            line_number,
        ) {
            Err(e) => r is Err && r->Err_0@ == e,
            Ok(found) => match inner_of(found.value) {
                Some(ValueV::OrType { name, variant, value, .. }) => if name == rec_name@ {
                    r is Ok && variant_view(r->Ok_0.value) == Some((variant, *value))
                        && r->Ok_0.line_number == found.line_number && properties_model(
                        r->Ok_0.properties,
                    ) == found.properties
                } else {
                    r is Err && r->Err_0@ == wrong_sort(doc@, line_number)
                },
                None => r is Ok && r->Ok_0.value.is_none() && r->Ok_0.line_number
                    == found.line_number && properties_model(r->Ok_0.properties)
                    == found.properties,
                _ => r is Err && r->Err_0@ == wrong_sort(doc@, line_number),
            },
        },
{
    let found = match get_value_from_properties_using_key_and_arguments(
        key,
        properties,
        arguments,
        doc,
        line_number,
    ) {
        Err(e) => {
            return Err(e);
        },
        Ok(f) => f,
    };
    match inner_value(&found) {
        Some(crate::value::Value::OrType { name, variant, value, .. }) => {
            if crate::text::str_eq(name.as_str(), rec_name) {
                Ok(
                    Value {
                        value: Some((variant, *value)),
                        line_number: found.line_number,
                        properties: found.properties,
                    },
                )
            } else {
                fail(
                    ErrorKind::TypeMismatch,
                    "Expected value of another type",
                    doc.name,
                    line_number,
                )
            }
        },
        None => Ok(
            Value { value: None, line_number: found.line_number, properties: found.properties },
        ),
        _ => fail(
            ErrorKind::TypeMismatch,
            "Expected value of another type",
            doc.name,
            line_number,
        ),
    }
}

/// The texts that the items of a list from position `from` on resolve to,
/// after those in `done`; each item has to resolve to a string.
pub open spec fn strings_of(
    doc: DocV,
    data: Seq<PropertyValueV>,
    from: int,
    done: Seq<Seq<char>>,
    line_number: usize,
) -> Result<Seq<Seq<char>>, ErrorV>
    decreases data.len() - from,
{
    if from < 0 || from >= data.len() {
        Ok(done)
    } else {
        match crate::semantics::resolve_pv(
            doc,
            data[from],
            line_number,
            crate::semantics::RESOLVE_LIMIT as nat,
        ) {
            Err(e) => Err(e),
            Ok(ValueV::String { text }) => strings_of(
                doc,
                data,
                from + 1,
                done.push(text),
                line_number,
            ),
            Ok(_) => Err(
                error(ErrorKind::TypeMismatch, "Expected String"@, doc.name, line_number),
            ),
        }
    }
}

/// The texts that a value found for an argument holds: those of a list of
/// strings, none where nothing was found.
pub open spec fn string_list_of(doc: DocV, found: FoundV, line_number: usize) -> Result<
    Seq<Seq<char>>,
    ErrorV,
> {
    match inner_of(found.value) {
        Some(ValueV::List { data, kind }) => if kind.kind is String {
            strings_of(doc, data, 0, Seq::empty(), line_number)
        } else {
            Err(wrong_sort(doc, line_number))
        },
        None => Ok(Seq::empty()),
        _ => Err(wrong_sort(doc, line_number)),
    }
}

fn strings_from(doc: &TDoc, data: &Vec<PropertyValue>, line_number: usize) -> (r: Result<
    Vec<String>,
    Error,
>)
    ensures
        match r {
            Ok(v) => strings_of(
                doc@,
                crate::value::items_model(*data),
                0,
                Seq::empty(),
                line_number,
            ) == Ok::<Seq<Seq<char>>, ErrorV>(texts(v@)),
            Err(e) => strings_of(
                doc@,
                crate::value::items_model(*data),
                0,
                Seq::empty(),
                line_number,
            ) == Err::<Seq<Seq<char>>, ErrorV>(e@),
        },
{
    let mut out: Vec<String> = Vec::new();
    let mut i: usize = 0;
    assert(texts(out@) =~= Seq::<Seq<char>>::empty());
    while i < data.len()
        invariant
            i <= data.len(),
            strings_of(doc@, crate::value::items_model(*data), 0, Seq::empty(), line_number)
                == strings_of(
                doc@,
                crate::value::items_model(*data),
                i as int,
                texts(out@),
                line_number,
            ),
        decreases data.len() - i,
    {
        assert(crate::value::items_model(*data)[i as int] == data[i as int]@);
        match data[i].clone().resolve(doc, line_number) {
            Err(e) => {
                return Err(e);
            },
            Ok(crate::value::Value::String { text }) => {
                let ghost before = texts(out@);
                out.push(text);
                assert(texts(out@) =~= before.push(text@));
            },
            Ok(_) => {
                return fail(ErrorKind::TypeMismatch, "Expected String", doc.name, line_number);
            },
        }
        i += 1;
    }
    Ok(out)
}

/// The texts that the properties give to the string list argument `key`.
pub fn string_list(
    key: &str,
    properties: &Vec<Property>,
    arguments: &Vec<Argument>,
    doc: &TDoc,
    line_number: usize,
) -> (r: Result<Value<Vec<String>>, Error>)
    ensures
        match value_for_key(
            doc@,
            key@,
            properties_model(*properties),
            views(arguments@),
            line_number,
        ) {
            Err(e) => r is Err && r->Err_0@ == e,
            Ok(found) => match string_list_of(doc@, found, line_number) {
                Ok(list) => r is Ok && texts(r->Ok_0.value@) == list && r->Ok_0.line_number
                    == found.line_number && properties_model(r->Ok_0.properties)
                    == found.properties,
                Err(e) => r is Err && r->Err_0@ == e,
            },
        },
{
    let found = match get_value_from_properties_using_key_and_arguments(
        key,
        properties,
        arguments,
        doc,
        line_number,
    ) {
        Err(e) => {
            return Err(e);
        },
        Ok(f) => f,
    };
    match inner_value(&found) {
        Some(crate::value::Value::List { data, kind }) => {
            if kind.is_string() {
                match strings_from(doc, &data, line_number) {
                    Ok(values) => Ok(
                        Value {
                            value: values,
                            line_number: found.line_number,
                            properties: found.properties,
                        },
                    ),
                    Err(e) => Err(e),
                }
            } else {
                fail(
                    ErrorKind::TypeMismatch,
                    "Expected value of another type",
                    doc.name,
                    line_number,
                )
            }
        },
        None => {
            let values: Vec<String> = Vec::new();
            assert(texts(values@) =~= Seq::<Seq<char>>::empty());
            Ok(Value { value: values, line_number: found.line_number, properties: found.properties })
        },
        _ => fail(
            ErrorKind::TypeMismatch,
            "Expected value of another type",
            doc.name,
            line_number,
        ),
    }
}

} // verus!
