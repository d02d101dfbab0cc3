//! Kinds: the static type descriptors of values.

use vstd::prelude::*;

verus! {

/// Specification-level kind.
#[allow(inconsistent_fields)]
pub enum KindV {
    String,
    Integer,
    Decimal,
    Boolean,
    Object,
    Void,
    Record { name: Seq<char> },
    OrType { name: Seq<char>, variant: Option<Seq<char>> },
    List { kind: Box<KindV> },
    Optional { kind: Box<KindV> },
    UI { name: Option<Seq<char>> },
}

/// The type descriptor of a value or of a property value.
#[derive(Debug, PartialEq, Eq)]
#[allow(inconsistent_fields)]
pub enum Kind {
    String,
    Integer,
    Decimal,
    Boolean,
    Object,
    Void,
    Record { name: String },
    OrType { name: String, variant: Option<String> },
    List { kind: Box<Kind> },
    Optional { kind: Box<Kind> },
    UI { name: Option<String> },
}

/// The view of an optional text.
pub open spec fn opt_text(o: Option<String>) -> Option<Seq<char>> {
    match o {
        Some(s) => Some(s@),
        None => None,
    }
}

/// A copy of an optional text.
pub fn clone_opt_text(o: &Option<String>) -> (r: Option<String>)
    ensures
        opt_text(r) == opt_text(*o),
{
    match o {
        Some(s) => Some(s.clone()),
        None => None,
    }
}

/// Whether two optional texts hold the same characters.
pub fn opt_text_eq(a: &Option<String>, b: &Option<String>) -> (r: bool)
    ensures
        r == (opt_text(*a) == opt_text(*b)),
{
    match (a, b) {
        (Some(x), Some(y)) => *x == *y,
        (None, None) => true,
        _ => false,
    }
}

impl KindV {
    /// The kind inside one level of `Optional`, else the kind itself.
    pub open spec fn inner(self) -> KindV {
        match self {
            KindV::Optional { kind } => *kind,
            k => k,
        }
    }

    /// The kind of the items of a list kind, else the kind itself.
    pub open spec fn inner_list(self) -> KindV {
        match self {
            KindV::List { kind } => *kind,
            k => k,
        }
    }

    /// Whether a value of kind `other` is acceptable where `self` is
    /// expected: the two are equal once `Optional` is looked through on
    /// either side, list items are compared in the same way, two UI kinds
    /// always agree, and two or-types agree when their names do.
    pub open spec fn is_same_as(self, other: KindV) -> bool
        decreases self, other,
    {
        match (self, other) {
            (KindV::UI { .. }, KindV::UI { .. }) => true,
            (KindV::OrType { name: n1, .. }, KindV::OrType { name: n2, .. }) => n1 == n2,
            (KindV::Optional { kind }, _) => kind.is_same_as(other),
            (_, KindV::Optional { kind }) => self.is_same_as(*kind),
            (KindV::List { kind: k1 }, KindV::List { kind: k2 }) => k1.is_same_as(*k2),
            _ => self == other,
        }
    }
}

impl Kind {
    /// The specification-level kind that this kind stands for.
    pub open spec fn model(self) -> KindV
        decreases self,
    {
        match self {
            Kind::String => KindV::String,
            Kind::Integer => KindV::Integer,
            Kind::Decimal => KindV::Decimal,
            Kind::Boolean => KindV::Boolean,
            Kind::Object => KindV::Object,
            Kind::Void => KindV::Void,
            Kind::Record { name } => KindV::Record { name: name@ },
            Kind::OrType { name, variant } => KindV::OrType {
                name: name@,
                variant: opt_text(variant),
            },
            Kind::List { kind } => KindV::List { kind: Box::new(kind.model()) },
            Kind::Optional { kind } => KindV::Optional { kind: Box::new(kind.model()) },
            Kind::UI { name } => KindV::UI { name: opt_text(name) },
        }
    }

    fn duplicate(&self) -> (r: Kind)
        ensures
            r.model() == self.model(),
        decreases self,
    {
        match self {
            Kind::String => Kind::String,
            Kind::Integer => Kind::Integer,
            Kind::Decimal => Kind::Decimal,
            Kind::Boolean => Kind::Boolean,
            Kind::Object => Kind::Object,
            Kind::Void => Kind::Void,
            Kind::Record { name } => Kind::Record { name: name.clone() },
            Kind::OrType { name, variant } => Kind::OrType {
                name: name.clone(),
                variant: clone_opt_text(variant),
            },
            Kind::List { kind } => Kind::List { kind: Box::new(kind.duplicate()) },
            Kind::Optional { kind } => Kind::Optional { kind: Box::new(kind.duplicate()) },
            Kind::UI { name } => Kind::UI { name: clone_opt_text(name) },
        }
    }

    /// Whether the two kinds are structurally equal.
    pub fn is_equal(&self, other: &Kind) -> (r: bool)
        ensures
            r == (self@ == other@),
        decreases self,
    {
        match (self, other) {
            (Kind::String, Kind::String) => true,
            (Kind::Integer, Kind::Integer) => true,
            (Kind::Decimal, Kind::Decimal) => true,
            (Kind::Boolean, Kind::Boolean) => true,
            (Kind::Object, Kind::Object) => true,
            (Kind::Void, Kind::Void) => true,
            (Kind::Record { name: a }, Kind::Record { name: b }) => *a == *b,
            (Kind::OrType { name: a, variant: va }, Kind::OrType { name: b, variant: vb }) => {
                *a == *b && opt_text_eq(va, vb)
            },
            (Kind::List { kind: a }, Kind::List { kind: b }) => a.is_equal(b),
            (Kind::Optional { kind: a }, Kind::Optional { kind: b }) => a.is_equal(b),
            (Kind::UI { name: a }, Kind::UI { name: b }) => opt_text_eq(a, b),
            _ => false,
        }
    }

    /// Whether a value of kind `other` is acceptable where `self` is expected.
    pub fn is_same_as(&self, other: &Kind) -> (r: bool)
        ensures
            r == self@.is_same_as(other@),
        decreases self, other,
    {
        match (self, other) {
            (Kind::UI { .. }, Kind::UI { .. }) => true,
            (Kind::OrType { name: a, .. }, Kind::OrType { name: b, .. }) => *a == *b,
            (Kind::Optional { kind }, _) => kind.is_same_as(other),
            (_, Kind::Optional { kind }) => self.is_same_as(kind),
            (Kind::List { kind: a }, Kind::List { kind: b }) => a.is_same_as(b),
            _ => self.is_equal(other),
        }
    }

    pub fn string() -> (r: Kind)
        ensures
            r@ == KindV::String,
    {
        Kind::String
    }

    pub fn integer() -> (r: Kind)
        ensures
            r@ == KindV::Integer,
    {
        Kind::Integer
    }

    pub fn decimal() -> (r: Kind)
        ensures
            r@ == KindV::Decimal,
    {
        Kind::Decimal
    }

    pub fn boolean() -> (r: Kind)
        ensures
            r@ == KindV::Boolean,
    {
        Kind::Boolean
    }

    pub fn object() -> (r: Kind)
        ensures
            r@ == KindV::Object,
    {
        Kind::Object
    }

    pub fn void() -> (r: Kind)
        ensures
            r@ == KindV::Void,
    {
        Kind::Void
    }

    pub fn record(name: &str) -> (r: Kind)
        ensures
            r@ == (KindV::Record { name: name@ }),
    {
        Kind::Record { name: name.to_owned() }
    }

    pub fn or_type(name: &str) -> (r: Kind)
        ensures
            r@ == (KindV::OrType { name: name@, variant: None }),
    {
        Kind::OrType { name: name.to_owned(), variant: None }
    }

    pub fn or_type_with_variant(name: &str, variant: &str) -> (r: Kind)
        ensures
            r@ == (KindV::OrType { name: name@, variant: Some(variant@) }),
    {
        Kind::OrType { name: name.to_owned(), variant: Some(variant.to_owned()) }
    }

    pub fn ui() -> (r: Kind)
        ensures
            r@ == (KindV::UI { name: None }),
    {
        Kind::UI { name: None }
    }

    pub fn ui_with_name(name: &str) -> (r: Kind)
        ensures
            r@ == (KindV::UI { name: Some(name@) }),
    {
        Kind::UI { name: Some(name.to_owned()) }
    }

    /// The kind of the children that a component takes from its subsections.
    pub fn subsection_ui() -> (r: Kind)
        ensures
            r@ == (KindV::UI { name: None }),
    {
        Kind::UI { name: None }
    }

    pub fn into_list(self) -> (r: Kind)
        ensures
            r@ == (KindV::List { kind: Box::new(self@) }),
    {
        Kind::List { kind: Box::new(self) }
    }

    pub fn into_optional(self) -> (r: Kind)
        ensures
            r@ == (KindV::Optional { kind: Box::new(self@) }),
    {
        Kind::Optional { kind: Box::new(self) }
    }

    /// This kind with no role as caption or body.
    pub fn into_kind_data(self) -> (r: KindData)
        ensures
            r@ == (KindDataV { kind: self@, caption: false, body: false }),
    {
        KindData { kind: self, caption: false, body: false }
    }

    /// The kind inside one level of `Optional`, else the kind itself.
    pub fn inner(self) -> (r: Kind)
        ensures
            r@ == self@.inner(),
    {
        match self {
            Kind::Optional { kind } => *kind,
            k => k,
        }
    }

    /// The kind of the items of a list kind, else the kind itself.
    pub fn inner_list(self) -> (r: Kind)
        ensures
            r@ == self@.inner_list(),
    {
        match self {
            Kind::List { kind } => *kind,
            k => k,
        }
    }

    pub fn is_list(&self) -> (r: bool)
        ensures
            r == (self@ is List),
    {
        matches!(self, Kind::List { .. })
    }

    pub fn is_optional(&self) -> (r: bool)
        ensures
            r == (self@ is Optional),
    {
        matches!(self, Kind::Optional { .. })
    }

    pub fn is_ui(&self) -> (r: bool)
        ensures
            r == (self@ is UI),
    {
        matches!(self, Kind::UI { .. })
    }

    /// Whether a component takes children through an argument of this kind.
    pub fn is_subsection_ui(&self) -> (r: bool)
        ensures
            r == (self@ is UI),
    {
        matches!(self, Kind::UI { .. })
    }

    pub fn is_string(&self) -> (r: bool)
        ensures
            r == (self@ is String),
    {
        matches!(self, Kind::String)
    }

    pub fn is_integer(&self) -> (r: bool)
        ensures
            r == (self@ is Integer),
    {
        matches!(self, Kind::Integer)
    }

    pub fn is_boolean(&self) -> (r: bool)
        ensures
            r == (self@ is Boolean),
    {
        matches!(self, Kind::Boolean)
    }

    pub fn is_record(&self) -> (r: bool)
        ensures
            r == (self@ is Record),
    {
        matches!(self, Kind::Record { .. })
    }

    /// The record's name, for a record kind or an optional record kind.
    pub fn get_record_name(&self) -> (r: Option<String>)
        ensures
            opt_text(r) == record_name_of(self@),
    {
        match self {
            Kind::Record { name } => Some(name.clone()),
            Kind::Optional { kind } => {
                assert(self@.inner() == kind@);
                match &**kind {
                    Kind::Record { name } => Some(name.clone()),
                    _ => None,
                }
            },
            _ => None,
        }
    }
}

/// The record's name, for a record kind or an optional record kind.
pub open spec fn record_name_of(kind: KindV) -> Option<Seq<char>> {
    match kind.inner() {
        KindV::Record { name } => Some(name),
        _ => None,
    }
}

impl View for Kind {
    type V = KindV;

    open spec fn view(&self) -> KindV {
        self.model()
    }
}

impl Clone for Kind {
    fn clone(&self) -> (r: Self)
        ensures
            r@ == self@,
    {
        self.duplicate()
    }
}

/// Specification-level kind with its roles.
pub struct KindDataV {
    pub kind: KindV,
    pub caption: bool,
    pub body: bool,
}

/// A kind, and whether a value of it may come from the caption or from the
/// body of a section.
#[derive(Debug, PartialEq, Eq)]
pub struct KindData {
    pub kind: Kind,
    pub caption: bool,
    pub body: bool,
}

impl View for KindData {
    type V = KindDataV;

    open spec fn view(&self) -> KindDataV {
        KindDataV { kind: self.kind@, caption: self.caption, body: self.body }
    }
}

impl Clone for KindData {
    fn clone(&self) -> (r: Self)
        ensures
            r@ == self@,
    {
        KindData { kind: self.kind.clone(), caption: self.caption, body: self.body }
    }
}

impl KindData {
    pub fn new(kind: Kind) -> (r: KindData)
        ensures
            r@ == (KindDataV { kind: kind@, caption: false, body: false }),
    {
        KindData { kind, caption: false, body: false }
    }

    pub fn caption(self) -> (r: KindData)
        ensures
            r@ == (KindDataV { caption: true, ..self@ }),
    {
        KindData { kind: self.kind, caption: true, body: self.body }
    }

    pub fn body(self) -> (r: KindData)
        ensures
            r@ == (KindDataV { body: true, ..self@ }),
    {
        KindData { kind: self.kind, caption: self.caption, body: true }
    }

    pub fn caption_or_body(self) -> (r: KindData)
        ensures
            r@ == (KindDataV { caption: true, body: true, ..self@ }),
    {
        KindData { kind: self.kind, caption: true, body: true }
    }

    pub fn into_optional(self) -> (r: KindData)
        ensures
            r@ == (KindDataV { kind: KindV::Optional { kind: Box::new(self@.kind) }, ..self@ }),
    {
        KindData { kind: self.kind.into_optional(), caption: self.caption, body: self.body }
    }

    pub fn is_list(&self) -> (r: bool)
        ensures
            r == (self@.kind is List),
    {
        self.kind.is_list()
    }

    pub fn is_optional(&self) -> (r: bool)
        ensures
            r == (self@.kind is Optional),
    {
        self.kind.is_optional()
    }

    pub fn is_ui(&self) -> (r: bool)
        ensures
            r == (self@.kind is UI),
    {
        self.kind.is_ui()
    }

    pub fn is_string(&self) -> (r: bool)
        ensures
            r == (self@.kind is String),
    {
        self.kind.is_string()
    }

    pub fn is_caption(&self) -> (r: bool)
        ensures
            r == self@.caption,
    {
        self.caption
    }

    pub fn is_body(&self) -> (r: bool)
        ensures
            r == self@.body,
    {
        self.body
    }
}

} // verus!
