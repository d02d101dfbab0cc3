//! The variables that a property value depends on, and whether its value
//! depends on the colour scheme or on the device.

use vstd::prelude::*;
use crate::error::{Error, ErrorV};
use crate::kind::{Kind, KindV};
use crate::semantics::{resolve_pv, DocV, RESOLVE_LIMIT};
use crate::tdoc::TDoc;
use crate::text::{has_prefix, str_eq, str_starts_with};
use crate::value::{fields_model, texts, PropertyValue, PropertyValueV, Value, ValueV};

verus! {

pub const FTD_IMAGE_SRC: &'static str = "ftd#image-src";

pub const FTD_COLOR: &'static str = "ftd#color";

pub const FTD_BACKGROUND_SOLID: &'static str = "ftd#background.solid";

pub const FTD_RESPONSIVE_TYPE: &'static str = "ftd#responsive-type";

pub const FTD_LENGTH_RESPONSIVE: &'static str = "ftd#length.responsive";

pub const FTD_LENGTH: &'static str = "ftd#length";

pub const FTD_RESIZING: &'static str = "ftd#resizing";

pub const FTD_RESIZING_FIXED: &'static str = "ftd#resizing.fixed";

pub const FTD_TYPE: &'static str = "ftd#type";

pub const FTD_FONT_SIZE: &'static str = "ftd#font-size";

impl KindV {
    /// Whether the kind is the or-type of lengths.
    pub open spec fn is_ftd_length(self) -> bool {
        match self {
            KindV::OrType { name, .. } => name == FTD_LENGTH@,
            _ => false,
        }
    }

    /// Whether the kind is the fixed variant of the or-type of resizings.
    pub open spec fn is_ftd_resizing_fixed(self) -> bool {
        match self {
            KindV::OrType { name, variant: Some(v) } => name == FTD_RESIZING@ && has_prefix(
                v,
                FTD_RESIZING_FIXED@,
            ),
            _ => false,
        }
    }

    /// Whether the kind is the record of responsive types.
    pub open spec fn is_ftd_responsive_type(self) -> bool {
        match self {
            KindV::Record { name } => name == FTD_RESPONSIVE_TYPE@,
            _ => false,
        }
    }

    /// Whether the kind is the record of types.
    pub open spec fn is_ftd_type(self) -> bool {
        match self {
            KindV::Record { name } => name == FTD_TYPE@,
            _ => false,
        }
    }

    /// Whether the kind is the or-type of font sizes.
    pub open spec fn is_ftd_font_size(self) -> bool {
        match self {
            KindV::OrType { name, .. } => name == FTD_FONT_SIZE@,
            _ => false,
        }
    }
}

impl Kind {
    pub fn is_ftd_length(&self) -> (r: bool)
        ensures
            r == self@.is_ftd_length(),
    {
        match self {
            Kind::OrType { name, .. } => str_eq(name.as_str(), FTD_LENGTH),
            _ => false,
        }
    }

    pub fn is_ftd_resizing_fixed(&self) -> (r: bool)
        ensures
            r == self@.is_ftd_resizing_fixed(),
    {
        match self {
            Kind::OrType { name, variant: Some(v) } => str_eq(name.as_str(), FTD_RESIZING)
                && str_starts_with(v.as_str(), FTD_RESIZING_FIXED),
            _ => false,
        }
    }

    pub fn is_ftd_responsive_type(&self) -> (r: bool)
        ensures
            r == self@.is_ftd_responsive_type(),
    {
        match self {
            Kind::Record { name } => str_eq(name.as_str(), FTD_RESPONSIVE_TYPE),
            _ => false,
        }
    }

    pub fn is_ftd_type(&self) -> (r: bool)
        ensures
            r == self@.is_ftd_type(),
    {
        match self {
            Kind::Record { name } => str_eq(name.as_str(), FTD_TYPE),
            _ => false,
        }
    }

    pub fn is_ftd_font_size(&self) -> (r: bool)
        ensures
            r == self@.is_ftd_font_size(),
    {
        match self {
            Kind::OrType { name, .. } => str_eq(name.as_str(), FTD_FONT_SIZE),
            _ => false,
        }
    }
}

/// Whether a value is a record of the type `name`.
pub open spec fn is_record_named(value: ValueV, name: Seq<char>) -> bool {
    match value {
        ValueV::Record { name: n, .. } => n == name,
        _ => false,
    }
}

/// Whether a value is the variant `variant` of an or-type.
pub open spec fn is_variant_named(value: ValueV, variant: Seq<char>) -> bool {
    match value {
        ValueV::OrType { variant: v, .. } => v == variant,
        _ => false,
    }
}

/// Whether what a property value resolves to differs between the light and
/// the dark colour scheme: an image source, a colour or a solid background.
pub open spec fn dark_mode_dependent(doc: DocV, value: PropertyValueV) -> Result<bool, ErrorV> {
    match resolve_pv(doc, value, value.line_number(), RESOLVE_LIMIT as nat) {
        Err(e) => Err(e),
        Ok(v) => Ok(
            is_record_named(v, FTD_IMAGE_SRC@) || is_record_named(v, FTD_COLOR@)
                || is_variant_named(v, FTD_BACKGROUND_SOLID@),
        ),
    }
}

/// Whether what a property value resolves to differs between devices: a
/// responsive type or a responsive length.
pub open spec fn device_dependent(doc: DocV, value: PropertyValueV) -> Result<bool, ErrorV> {
    match resolve_pv(doc, value, value.line_number(), RESOLVE_LIMIT as nat) {
        Err(e) => Err(e),
        Ok(v) => Ok(
            is_record_named(v, FTD_RESPONSIVE_TYPE@) || is_variant_named(
                v,
                FTD_LENGTH_RESPONSIVE@,
            ),
        ),
    }
}

/// Whether what a property value resolves to differs between the light and
/// the dark colour scheme.
pub fn is_dark_mode_dependent(value: &PropertyValue, doc: &TDoc) -> (r: Result<bool, Error>)
    ensures
        match r {
            Ok(b) => dark_mode_dependent(doc@, value@) == Ok::<bool, ErrorV>(b),
            Err(e) => dark_mode_dependent(doc@, value@) == Err::<bool, ErrorV>(e@),
        },
{
    match value.clone().resolve(doc, value.line_number()) {
        Err(e) => Err(e),
        Ok(v) => Ok(
            v.is_record(FTD_IMAGE_SRC) || v.is_record(FTD_COLOR) || v.is_or_type_variant(
                FTD_BACKGROUND_SOLID,
            ),
        ),
    }
}

/// Whether what a property value resolves to differs between devices.
pub fn is_device_dependent(value: &PropertyValue, doc: &TDoc) -> (r: Result<bool, Error>)
    ensures
        match r {
            Ok(b) => device_dependent(doc@, value@) == Ok::<bool, ErrorV>(b),
            Err(e) => device_dependent(doc@, value@) == Err::<bool, ErrorV>(e@),
        },
{
    match value.clone().resolve(doc, value.line_number()) {
        Err(e) => Err(e),
        Ok(v) => Ok(v.is_record(FTD_RESPONSIVE_TYPE) || v.is_or_type_variant(FTD_LENGTH_RESPONSIVE)),
    }
}

/// The names of the variables that a property value depends on: the name
/// of a reference, what the arguments of a call depend on, and for a
/// literal length, fixed resizing or responsive type what its parts depend
/// on.
pub open spec fn dependencies(pv: PropertyValueV) -> Seq<Seq<char>>
    decreases pv, 0int,
{
    match pv {
        PropertyValueV::Reference { name, .. } => seq![name],
        PropertyValueV::FunctionCall(call) => named_dependencies(call.values, 0, Seq::empty()),
        PropertyValueV::Value { value, .. } => value_dependencies(value),
        PropertyValueV::Clone { .. } => Seq::empty(),
    }
}

/// What the named property values from position `from` on depend on, after
/// `done`.
pub open spec fn named_dependencies(
    fields: Seq<(Seq<char>, PropertyValueV)>,
    from: int,
    done: Seq<Seq<char>>,
) -> Seq<Seq<char>>
    decreases fields, fields.len() - from,
{
    if from < 0 || from >= fields.len() {
        done
    } else {
        named_dependencies(fields, from + 1, done + dependencies(fields[from].1))
    }
}

/// What a literal depends on.
pub open spec fn value_dependencies(value: ValueV) -> Seq<Seq<char>>
    decreases value, 3int,
{
    let kind = value.kind();
    if kind.is_ftd_length() {
        length_dependencies(value)
    } else if kind.is_ftd_resizing_fixed() {
        resizing_dependencies(value)
    } else if kind.is_ftd_responsive_type() {
        responsive_type_dependencies(value)
    } else {
        Seq::empty()
    }
}

/// What a fixed resizing depends on: what the length that it holds
/// depends on.
pub open spec fn resizing_dependencies(value: ValueV) -> Seq<Seq<char>>
    decreases value, 2int,
{
    match value {
        ValueV::OrType { value: inner, .. } => fixed_length_dependencies(*inner),
        _ => Seq::empty(),
    }
}

/// What a property value depends on if it is a literal length.
pub open spec fn fixed_length_dependencies(pv: PropertyValueV) -> Seq<Seq<char>>
    decreases pv, 3int,
{
    match pv {
        PropertyValueV::Value { value: v, .. } => if v.kind().is_ftd_length() {
            length_dependencies(v)
        } else {
            Seq::empty()
        },
        _ => Seq::empty(),
    }
}

/// What a responsive type depends on: what the types among its fields
/// depend on.
pub open spec fn responsive_type_dependencies(value: ValueV) -> Seq<Seq<char>>
    decreases value, 2int,
{
    match value {
        ValueV::Record { fields, .. } => responsive_dependencies(fields, 0, Seq::empty()),
        _ => Seq::empty(),
    }
}

/// What a length depends on: what its variant holds, or what its fields
/// hold.
pub open spec fn length_dependencies(value: ValueV) -> Seq<Seq<char>>
    decreases value, 2int,
{
    match value {
        ValueV::OrType { value: inner, .. } => dependencies(*inner),
        ValueV::Record { fields, .. } => named_dependencies(fields, 0, Seq::empty()),
        _ => Seq::empty(),
    }
}

/// What the types among the fields of a responsive type from position
/// `from` on depend on, after `done`.
pub open spec fn responsive_dependencies(
    fields: Seq<(Seq<char>, PropertyValueV)>,
    from: int,
    done: Seq<Seq<char>>,
) -> Seq<Seq<char>>
    decreases fields, fields.len() - from,
{
    if from < 0 || from >= fields.len() {
        done
    } else {
        responsive_dependencies(fields, from + 1, done + type_dependencies(fields[from].1))
    }
}

/// What a type depends on: what the font sizes among its fields depend on.
pub open spec fn type_dependencies(pv: PropertyValueV) -> Seq<Seq<char>>
    decreases pv, 1int,
{
    match pv {
        PropertyValueV::Value { value: ValueV::Record { name, fields }, .. } => if name
            == FTD_TYPE@ {
            font_size_dependencies(fields, 0, Seq::empty())
        } else {
            Seq::empty()
        },
        _ => Seq::empty(),
    }
}

/// What the font sizes among the fields of a type from position `from` on
/// depend on, after `done`.
pub open spec fn font_size_dependencies(
    fields: Seq<(Seq<char>, PropertyValueV)>,
    from: int,
    done: Seq<Seq<char>>,
) -> Seq<Seq<char>>
    decreases fields, fields.len() - from,
{
    if from < 0 || from >= fields.len() {
        done
    } else {
        font_size_dependencies(fields, from + 1, done + font_size_dependency(fields[from].1))
    }
}

/// What a font size depends on: what its variant holds.
pub open spec fn font_size_dependency(pv: PropertyValueV) -> Seq<Seq<char>>
    decreases pv, 1int,
{
    match pv {
        PropertyValueV::Value { value: ValueV::OrType { name, value: inner, .. }, .. } => if name
            == FTD_FONT_SIZE@ {
            dependencies(*inner)
        } else {
            Seq::empty()
        },
        _ => Seq::empty(),
    }
}

fn append_texts(done: &mut Vec<String>, more: Vec<String>)
    ensures
        texts(final(done)@) == texts(old(done)@) + texts(more@),
{
    let ghost before = texts(done@);
    let mut more = more;
    let ghost added = texts(more@);
    done.append(&mut more);
    assert(texts(done@) =~= before + added);
}

/// The names of the variables that a property value depends on.
pub fn dependencies_from_property_value(property_value: &PropertyValue) -> (r: Vec<String>)
    ensures
        texts(r@) == dependencies(property_value@),
    decreases property_value, 0int,
{
    match property_value {
        PropertyValue::Reference { name, .. } => {
            let mut out: Vec<String> = Vec::new();
            out.push(name.clone());
            assert(texts(out@) =~= seq![name@]);
            out
        },
        PropertyValue::FunctionCall(call) => named_dependencies_of(&call.values),
        PropertyValue::Value { value, .. } => value_dependencies_of(value),
        PropertyValue::Clone { .. } => {
            let out: Vec<String> = Vec::new();
            assert(texts(out@) =~= Seq::<Seq<char>>::empty());
            out
        },
    }
}

fn none() -> (r: Vec<String>)
    ensures
        texts(r@) == Seq::<Seq<char>>::empty(),
{
    let out: Vec<String> = Vec::new();
    assert(texts(out@) =~= Seq::<Seq<char>>::empty());
    out
}

fn named_dependencies_of(fields: &Vec<(String, PropertyValue)>) -> (r: Vec<String>)
    ensures
        texts(r@) == named_dependencies(fields_model(*fields), 0, Seq::empty()),
    decreases fields, fields.len(),
{
    let mut out = none();
    let mut i: usize = 0;
    while i < fields.len()
        invariant
            i <= fields.len(),
            named_dependencies(fields_model(*fields), 0, Seq::empty()) == named_dependencies(
                fields_model(*fields),
                i as int,
                texts(out@),
            ),
        decreases fields.len() - i,
    {
        assert(decreases_to!(fields => fields[i as int]));
        assert(fields_model(*fields)[i as int].1 == fields[i as int].1@);
        let more = dependencies_from_property_value(&fields[i].1);
        append_texts(&mut out, more);
        i += 1;
    }
    out
}

fn value_dependencies_of(value: &Value) -> (r: Vec<String>)
    ensures
        texts(r@) == value_dependencies(value@),
    decreases value, 3int,
{
    let kind = value.kind();
    if kind.is_ftd_length() {
        length_dependencies_of(value)
    } else if kind.is_ftd_resizing_fixed() {
        resizing_dependencies_of(value)
    } else if kind.is_ftd_responsive_type() {
        responsive_type_dependencies_of(value)
    } else {
        none()
    }
}

fn resizing_dependencies_of(value: &Value) -> (r: Vec<String>)
    ensures
        texts(r@) == resizing_dependencies(value@),
    decreases value, 2int,
{
    match value {
        Value::OrType { value: inner, .. } => fixed_length_dependencies_of(inner),
        _ => none(),
    }
}

fn fixed_length_dependencies_of(pv: &PropertyValue) -> (r: Vec<String>)
    ensures
        texts(r@) == fixed_length_dependencies(pv@),
    decreases pv, 3int,
{
    match pv {
        PropertyValue::Value { value: v, .. } => {
            if v.kind().is_ftd_length() {
                length_dependencies_of(v)
            } else {
                none()
            }
        },
        _ => none(),
    }
}

fn responsive_type_dependencies_of(value: &Value) -> (r: Vec<String>)
    ensures
        texts(r@) == responsive_type_dependencies(value@),
    decreases value, 2int,
{
    match value {
        Value::Record { fields, .. } => responsive_dependencies_of(fields),
        _ => none(),
    }
}

fn length_dependencies_of(value: &Value) -> (r: Vec<String>)
    ensures
        texts(r@) == length_dependencies(value@),
    decreases value, 2int,
{
    match value {
        Value::OrType { value: inner, .. } => dependencies_from_property_value(inner),
        Value::Record { fields, .. } => named_dependencies_of(fields),
        _ => none(),
    }
}

fn responsive_dependencies_of(fields: &Vec<(String, PropertyValue)>) -> (r: Vec<String>)
    ensures
        texts(r@) == responsive_dependencies(fields_model(*fields), 0, Seq::empty()),
    decreases fields, fields.len(),
{
    let mut out = none();
    let mut i: usize = 0;
    while i < fields.len()
        invariant
            i <= fields.len(),
            responsive_dependencies(fields_model(*fields), 0, Seq::empty())
                == responsive_dependencies(fields_model(*fields), i as int, texts(out@)),
        decreases fields.len() - i,
    {
        assert(decreases_to!(fields => fields[i as int]));
        assert(fields_model(*fields)[i as int].1 == fields[i as int].1@);
        let more = type_dependencies_of(&fields[i].1);
        append_texts(&mut out, more);
        i += 1;
    }
    out
}

fn type_dependencies_of(pv: &PropertyValue) -> (r: Vec<String>)
    ensures
        texts(r@) == type_dependencies(pv@),
    decreases pv, 1int,
{
    match pv {
        PropertyValue::Value { value: Value::Record { name, fields }, .. } => {
            if str_eq(name.as_str(), FTD_TYPE) {
                font_size_dependencies_of(fields)
            } else {
                none()
            }
        },
        _ => none(),
    }
}

fn font_size_dependencies_of(fields: &Vec<(String, PropertyValue)>) -> (r: Vec<String>)
    ensures
        texts(r@) == font_size_dependencies(fields_model(*fields), 0, Seq::empty()),
    decreases fields, fields.len(),
{
    let mut out = none();
    let mut i: usize = 0;
    while i < fields.len()
        invariant
            i <= fields.len(),
            font_size_dependencies(fields_model(*fields), 0, Seq::empty())
                == font_size_dependencies(fields_model(*fields), i as int, texts(out@)),
        decreases fields.len() - i,
    {
        assert(decreases_to!(fields => fields[i as int]));
        assert(fields_model(*fields)[i as int].1 == fields[i as int].1@);
        let more = font_size_dependency_of(&fields[i].1);
        append_texts(&mut out, more);
        i += 1;
    }
    out
}

fn font_size_dependency_of(pv: &PropertyValue) -> (r: Vec<String>)
    ensures
        texts(r@) == font_size_dependency(pv@),
    decreases pv, 1int,
{
    match pv {
        PropertyValue::Value { value: Value::OrType { name, value: inner, .. }, .. } => {
            if str_eq(name.as_str(), FTD_FONT_SIZE) {
                dependencies_from_property_value(inner)
            } else {
                none()
            }
        },
        _ => none(),
    }
}

} // verus!
