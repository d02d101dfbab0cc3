//! Component instances: their properties by source, their loops, their
//! events and their children.

use vstd::prelude::*;
use crate::error::{error, fail, Error, ErrorKind, ErrorV};
use crate::kind::{Kind, KindData, KindDataV, KindV};

use crate::semantics::{resolve_pv, DocV, RESOLVE_LIMIT};
use crate::tdoc::{lifted, TDoc};
use crate::text::{
    has_prefix,
    has_suffix,
    str_ends_with,
    str_eq,
    str_starts_with,
    str_strip_prefix,
    to_chars,
    string_from,
};
use crate::thing::{Argument, Field, FieldV};
use crate::utils::{split, split_from};
use crate::value::{
    components_model,
    items_model,
    properties_model,
    texts,
    Component,
    ComponentV,
    EventName,
    EventNameV,
    Loop,
    LoopV,
    Property,
    PropertySource,
    PropertySourceV,
    PropertyV,
    PropertyValue,
    PropertyValueV,
    Value,
    ValueV,
};

verus! {

impl PropertySourceV {
    /// Whether two sources name the same place: the same variant, and for
    /// headers the same name, whatever their mutability.
    pub open spec fn is_equal(self, other: PropertySourceV) -> bool {
        match (self, other) {
            (PropertySourceV::Caption, PropertySourceV::Caption) => true,
            (PropertySourceV::Body, PropertySourceV::Body) => true,
            (PropertySourceV::Subsection, PropertySourceV::Subsection) => true,
            (PropertySourceV::Header { name: a, .. }, PropertySourceV::Header { name: b, .. }) => a
                == b,
            _ => false,
        }
    }
}

impl PropertySource {
    /// Whether two sources name the same place.
    pub fn is_equal(&self, other: &PropertySource) -> (r: bool)
        ensures
            r == self@.is_equal(other@),
    {
        match (self, other) {
            (PropertySource::Caption, PropertySource::Caption) => true,
            (PropertySource::Body, PropertySource::Body) => true,
            (PropertySource::Subsection, PropertySource::Subsection) => true,
            (PropertySource::Header { name: a, .. }, PropertySource::Header { name: b, .. }) => *a
                == *b,
            _ => false,
        }
    }

    /// The source of an immutable header named `name`.
    pub fn header(name: &str) -> (r: PropertySource)
        ensures
            r@ == (PropertySourceV::Header { name: name@, mutable: false }),
    {
        PropertySource::Header { name: name.to_owned(), mutable: false }
    }

    /// The typed form of a source as it was written.
    pub fn from_ast(item: &crate::ast::PropertySource) -> (r: PropertySource)
        ensures
            r@ == match *item {
                crate::ast::PropertySource::Caption => PropertySourceV::Caption,
                crate::ast::PropertySource::Body => PropertySourceV::Body,
                crate::ast::PropertySource::Header { name, mutable } => PropertySourceV::Header {
                    name: name@,
                    mutable,
                },
            },
    {
        match item {
            crate::ast::PropertySource::Caption => PropertySource::Caption,
            crate::ast::PropertySource::Body => PropertySource::Body,
            crate::ast::PropertySource::Header { name, mutable } => PropertySource::Header {
                name: name.clone(),
                mutable: *mutable,
            },
        }
    }
}

impl Default for PropertySource {
    fn default() -> (r: PropertySource)
        ensures
            r@ == PropertySourceV::Caption,
    {
        PropertySource::Caption
    }
}

/// `s` without any of the `pat` that it begins with.
pub open spec fn trim_start_all(s: Seq<char>, pat: Seq<char>) -> Seq<char>
    decreases s.len(),
{
    if pat.len() > 0 && has_prefix(s, pat) {
        trim_start_all(s.subrange(pat.len() as int, s.len() as int), pat)
    } else {
        s
    }
}

/// `s` without any of the characters `c` that it ends with.
pub open spec fn trim_end_all(s: Seq<char>, c: char) -> Seq<char>
    decreases s.len(),
{
    if s.len() > 0 && s.last() == c {
        trim_end_all(s.drop_last(), c)
    } else {
        s
    }
}

/// The keys that the bracketed part of a parameterised event names: `t`
/// without `prefix` in front and brackets at the end, split at `-`.
pub open spec fn event_keys(t: Seq<char>, prefix: Seq<char>) -> Seq<Seq<char>> {
    split_from(trim_end_all(trim_start_all(t, prefix), ']'), seq!['-'], 0)
}

/// The event that a name stands for. The plain events have fixed names; the
/// two parameterised ones are written `global-key[..]` and
/// `global-key-seq[..]` with the keys between the brackets.
pub open spec fn event_name(e: Seq<char>) -> Option<EventNameV> {
    if e == "click"@ {
        Some(EventNameV::Click)
    } else if e == "mouse-enter"@ {
        Some(EventNameV::MouseEnter)
    } else if e == "mouse-leave"@ {
        Some(EventNameV::MouseLeave)
    } else if e == "click-outside"@ {
        Some(EventNameV::ClickOutside)
    } else if e == "input"@ {
        Some(EventNameV::Input)
    } else if e == "change"@ {
        Some(EventNameV::Change)
    } else if e == "blur"@ {
        Some(EventNameV::Blur)
    } else if e == "focus"@ {
        Some(EventNameV::Focus)
    } else if has_prefix(e, "global-key["@) && has_suffix(e, seq![']']) {
        Some(EventNameV::GlobalKey(event_keys(e, "global-key["@)))
    } else if has_prefix(e, "global-key-seq["@) && has_suffix(e, seq![']']) {
        Some(EventNameV::GlobalKeySeq(event_keys(e, "global-key-seq["@)))
    } else {
        None
    }
}

fn trim_start_matches(s: &str, pat: &str) -> (r: String)
    requires
        pat@.len() > 0,
    ensures
        r@ == trim_start_all(s@, pat@),
{
    let mut current = s.to_owned();
    loop
        invariant
            pat@.len() > 0,
            trim_start_all(s@, pat@) == trim_start_all(current@, pat@),
        decreases current@.len(),
    {
        match str_strip_prefix(current.as_str(), pat) {
            Some(rest) => {
                current = rest;
            },
            None => {
                return current;
            },
        }
    }
}

/// `s` without any of the characters `c` that it ends with.
pub fn trim_end_matches(s: &str, c: char) -> (r: String)
    ensures
        r@ == trim_end_all(s@, c),
{
    let chars = to_chars(s);
    let mut n: usize = chars.len();
    assert(s@.subrange(0, n as int) =~= s@);
    while n > 0 && chars[n - 1] == c
        invariant
            n <= chars.len(),
            chars@ == s@,
            trim_end_all(s@, c) == trim_end_all(s@.subrange(0, n as int), c),
        decreases n,
    {
        assert(s@.subrange(0, n as int).drop_last() =~= s@.subrange(0, n - 1));
        n -= 1;
    }
    string_from(&chars, 0, n)
}

fn keys_of(t: &str, prefix: &str) -> (r: Vec<String>)
    requires
        prefix@.len() > 0,
    ensures
        texts(r@) == event_keys(t@, prefix@),
{
    proof {
        reveal_strlit("-");
        assert("-"@ =~= seq!['-']);
    }
    let a = trim_start_matches(t, prefix);
    let b = trim_end_matches(a.as_str(), ']');
    split(b.as_str(), "-")
}

impl EventName {
    /// The event that the name `e` stands for; an unknown name is an error.
    pub fn from_string(e: &str, doc_id: &str, line_number: usize) -> (r: Result<EventName, Error>)
        ensures
            match r {
                Ok(name) => event_name(e@) == Some(name@),
                Err(err) => event_name(e@).is_none() && err@ == error(
                    ErrorKind::UnknownEvent,
                    e@,
                    doc_id@,
                    line_number,
                ),
            },
    {
        proof {
            reveal_strlit("]");
            reveal_strlit("global-key[");
            reveal_strlit("global-key-seq[");
            assert("]"@ =~= seq![']']);
        }
        if str_eq(e, "click") {
            Ok(EventName::Click)
        } else if str_eq(e, "mouse-enter") {
            Ok(EventName::MouseEnter)
        } else if str_eq(e, "mouse-leave") {
            Ok(EventName::MouseLeave)
        } else if str_eq(e, "click-outside") {
            Ok(EventName::ClickOutside)
        } else if str_eq(e, "input") {
            Ok(EventName::Input)
        } else if str_eq(e, "change") {
            Ok(EventName::Change)
        } else if str_eq(e, "blur") {
            Ok(EventName::Blur)
        } else if str_eq(e, "focus") {
            Ok(EventName::Focus)
        } else if str_starts_with(e, "global-key[") && str_ends_with(e, "]") {
            Ok(EventName::GlobalKey(keys_of(e, "global-key[")))
        } else if str_starts_with(e, "global-key-seq[") && str_ends_with(e, "]") {
            Ok(EventName::GlobalKeySeq(keys_of(e, "global-key-seq[")))
        } else {
            fail(ErrorKind::UnknownEvent, e, doc_id, line_number)
        }
    }
}

/// The kind of the items that a loop over `on` runs through.
pub open spec fn loop_kind(on: PropertyValueV, doc_id: Seq<char>, line_number: usize) -> Result<
    KindV,
    ErrorV,
> {
    match on.kind() {
        KindV::List { kind } => Ok(*kind),
        _ => Err(error(ErrorKind::TypeMismatch, "Expected list kind"@, doc_id, line_number)),
    }
}

/// The items that a loop runs through and their kind: the resolved list.
pub open spec fn loop_children(doc: DocV, l: LoopV) -> Result<
    (Seq<PropertyValueV>, KindDataV),
    ErrorV,
> {
    match resolve_pv(doc, l.on, l.line_number, RESOLVE_LIMIT as nat) {
        Err(e) => Err(e),
        Ok(ValueV::List { data, kind }) => Ok((data, kind)),
        Ok(_) => Err(
            error(ErrorKind::TypeMismatch, "Expected list type data"@, doc.name, l.line_number),
        ),
    }
}

impl Loop {
    pub fn new(on: PropertyValue, alias: &str, line_number: usize) -> (r: Loop)
        ensures
            r@ == (LoopV { on: on@, alias: alias@, line_number }),
    {
        Loop { on, alias: alias.to_owned(), line_number }
    }

    /// The kind of the items that the loop runs through.
    pub fn loop_object_kind(&self, doc_id: &str) -> (r: Result<Kind, Error>)
        ensures
            lifted(r) == loop_kind(self@.on, doc_id@, self@.line_number),
    {
        match self.on.kind() {
            Kind::List { kind } => Ok(*kind),
            _ => fail(ErrorKind::TypeMismatch, "Expected list kind", doc_id, self.line_number),
        }
    }

    /// The object of the loop as an argument under the alias of the loop:
    /// of the kind of the items, with the list as its value.
    pub fn loop_object_as_argument(&self, doc: &TDoc) -> (r: Result<Argument, Error>)
        ensures
            lifted(r) == match loop_kind(self@.on, doc@.name, self@.line_number) {
                Ok(kind) => Ok::<FieldV, ErrorV>(
                    FieldV {
                        name: self@.alias,
                        kind: KindDataV { kind, caption: false, body: false },
                        mutable: self@.on.is_mutable(),
                        value: Some(self@.on),
                        line_number: self@.on.line_number(),
                    },
                ),
                Err(e) => Err(e),
            },
    {
        let kind = match self.loop_object_kind(doc.name) {
            Ok(k) => k,
            Err(e) => {
                return Err(e);
            },
        };
        Ok(
            Field {
                name: self.alias.clone(),
                kind: KindData::new(kind),
                mutable: self.on.is_mutable(),
                value: Some(self.on.clone()),
                line_number: self.on.line_number(),
            },
        )
    }

    /// The items that the loop runs through, and their kind.
    pub fn children(&self, doc: &TDoc) -> (r: Result<(Vec<PropertyValue>, KindData), Error>)
        ensures
            match r {
                Ok((data, kind)) => loop_children(doc@, self@) == Ok::<
                    (Seq<PropertyValueV>, KindDataV),
                    ErrorV,
                >((items_model(data), kind@)),
                Err(e) => loop_children(doc@, self@) == Err::<
                    (Seq<PropertyValueV>, KindDataV),
                    ErrorV,
                >(e@),
            },
    {
        match self.on.clone().resolve(doc, self.line_number) {
            Err(e) => Err(e),
            Ok(Value::List { data, kind }) => Ok((data, kind)),
            Ok(_) => fail(
                ErrorKind::TypeMismatch,
                "Expected list type data",
                doc.name,
                self.line_number,
            ),
        }
    }
}

/// Whether a value of kind `kind` holds the children of a component: a UI
/// or a list of UIs.
pub open spec fn holds_children(kind: KindV) -> bool {
    kind.inner_list() is UI
}

/// Position of the first property at or after `from` that holds children,
/// or -1.
pub open spec fn find_children_property(properties: Seq<PropertyV>, from: int) -> int
    decreases properties.len() - from,
{
    if from < 0 || from >= properties.len() {
        -1
    } else if holds_children(properties[from].value.kind()) {
        from
    } else {
        find_children_property(properties, from + 1)
    }
}

/// The components that the items of a list from `from` on resolve to,
/// after those in `done`. An item that resolves to something else is left
/// out.
pub open spec fn ui_items(
    doc: DocV,
    data: Seq<PropertyValueV>,
    from: int,
    done: Seq<ComponentV>,
    line_number: usize,
) -> Result<Seq<ComponentV>, ErrorV>
    decreases data.len() - from,
{
    if from < 0 || from >= data.len() {
        Ok(done)
    } else {
        match resolve_pv(doc, data[from], line_number, RESOLVE_LIMIT as nat) {
            Err(e) => Err(e),
            Ok(ValueV::UI { component, .. }) => ui_items(
                doc,
                data,
                from + 1,
                done.push(*component),
                line_number,
            ),
            Ok(_) => ui_items(doc, data, from + 1, done, line_number),
        }
    }
}

/// The children that a resolved children property gives.
pub open spec fn children_of_value(doc: DocV, value: ValueV, line_number: usize) -> Result<
    Seq<ComponentV>,
    ErrorV,
> {
    match value {
        ValueV::UI { component, .. } => Ok(seq![*component]),
        ValueV::List { data, kind } => if kind.kind is UI {
            ui_items(doc, data, 0, Seq::empty(), line_number)
        } else {
            Ok(Seq::empty())
        },
        _ => Ok(Seq::empty()),
    }
}

/// The children of a component instance: what its first property of a
/// children kind resolves to.
pub open spec fn children_of(doc: DocV, component: ComponentV) -> Result<Seq<ComponentV>, ErrorV> {
    let i = find_children_property(component.properties, 0);
    if i < 0 {
        Ok(Seq::empty())
    } else {
        let property = component.properties[i];
        match resolve_pv(doc, property.value, property.line_number, RESOLVE_LIMIT as nat) {
            Err(e) => Err(e),
            Ok(value) => children_of_value(doc, value, property.line_number),
        }
    }
}

/// The specification-level form of a list of components or an error.
pub open spec fn components_result(r: Result<Vec<Component>, Error>) -> Result<
    Seq<ComponentV>,
    ErrorV,
> {
    match r {
        Ok(v) => Ok(components_model(v)),
        Err(e) => Err(e@),
    }
}

/// Whether a property value is of a kind that holds children.
pub fn is_children_kind(value: &PropertyValue) -> (r: bool)
    ensures
        r == holds_children(value@.kind()),
{
    value.kind().inner_list().is_subsection_ui()
}

fn children_property(properties: &Vec<Property>) -> (r: Option<usize>)
    ensures
        match r {
            Some(i) => i < properties.len() && i as int == find_children_property(
                properties_model(*properties),
                0,
            ),
            None => find_children_property(properties_model(*properties), 0) == -1,
        },
{
    let mut i: usize = 0;
    while i < properties.len()
        invariant
            i <= properties.len(),
            find_children_property(properties_model(*properties), 0) == find_children_property(
                properties_model(*properties),
                i as int,
            ),
        decreases properties.len() - i,
    {
        assert(properties_model(*properties)[i as int] == properties[i as int]@);
        if is_children_kind(&properties[i].value) {
            return Some(i);
        }
        i += 1;
    }
    None
}

fn ui_items_of(doc: &TDoc, data: &Vec<PropertyValue>, line_number: usize) -> (r: Result<
    Vec<Component>,
    Error,
>)
    ensures
        components_result(r) == ui_items(doc@, items_model(*data), 0, Seq::empty(), line_number),
{
    let mut out: Vec<Component> = Vec::new();
    let mut i: usize = 0;
    assert(components_model(out) =~= Seq::empty());
    while i < data.len()
        invariant
            i <= data.len(),
            ui_items(doc@, items_model(*data), 0, Seq::empty(), line_number) == ui_items(
                doc@,
                items_model(*data),
                i as int,
                components_model(out),
                line_number,
            ),
        decreases data.len() - i,
    {
        assert(items_model(*data)[i as int] == data[i as int]@);
        match data[i].clone().resolve(doc, line_number) {
            Err(e) => {
                return Err(e);
            },
            Ok(Value::UI { component, .. }) => {
                let ghost before = components_model(out);
                out.push(component);
                assert(components_model(out) =~= before.push(component@));
            },
            Ok(_) => {},
        }
        i += 1;
    }
    Ok(out)
}

fn children_of_value_of(doc: &TDoc, value: Value, line_number: usize) -> (r: Result<
    Vec<Component>,
    Error,
>)
    ensures
        components_result(r) == children_of_value(doc@, value@, line_number),
{
    match value {
        Value::UI { component, .. } => {
            let mut out: Vec<Component> = Vec::new();
            out.push(component);
            assert(components_model(out) =~= seq![component@]);
            Ok(out)
        },
        Value::List { data, kind } => {
            if kind.is_ui() {
                ui_items_of(doc, &data, line_number)
            } else {
                let out: Vec<Component> = Vec::new();
                assert(components_model(out) =~= Seq::empty());
                Ok(out)
            }
        },
        _ => {
            let out: Vec<Component> = Vec::new();
            assert(components_model(out) =~= Seq::empty());
            Ok(out)
        },
    }
}

impl Component {
    /// The instance of the component `name` with nothing set.
    pub fn from_name(name: &str) -> (r: Component)
        ensures
            r@ == (ComponentV {
                name: name@,
                properties: Seq::empty(),
                iteration: None,
                condition: None,
                events: Seq::empty(),
                children: Seq::empty(),
                line_number: 0,
            }),
    {
        let r = Component {
            name: name.to_owned(),
            properties: Vec::new(),
            iteration: Box::new(None),
            condition: Box::new(None),
            events: Vec::new(),
            children: Vec::new(),
            line_number: 0,
        };
        assert(r@.properties =~= Seq::empty());
        assert(r@.events =~= Seq::empty());
        assert(r@.children =~= Seq::empty());
        r
    }

    /// Whether the instance iterates over a list.
    pub fn is_loop(&self) -> (r: bool)
        ensures
            r == self@.iteration.is_some(),
    {
        (*self.iteration).is_some()
    }

    /// The children of the instance.
    pub fn get_children(&self, doc: &TDoc) -> (r: Result<Vec<Component>, Error>)
        ensures
            components_result(r) == children_of(doc@, self@),
    {
        let i = match children_property(&self.properties) {
            Some(i) => i,
            None => {
                let out: Vec<Component> = Vec::new();
                assert(components_model(out) =~= Seq::empty());
                return Ok(out);
            },
        };
        let property = &self.properties[i];
        assert(properties_model(self.properties)[i as int] == property@);
        match property.value.clone().resolve(doc, property.line_number) {
            Err(e) => Err(e),
            Ok(value) => children_of_value_of(doc, value, property.line_number),
        }
    }
}

impl Property {
    /// The argument of a component that takes its children.
    pub fn get_argument_for_children(component_arguments: &Vec<Argument>) -> (r: Option<usize>)
        ensures
            match r {
                Some(i) => i < component_arguments.len() && holds_children(
                    component_arguments[i as int]@.kind.kind,
                ) && forall|j: int|
                    0 <= j < i ==> !holds_children(#[trigger] component_arguments[j]@.kind.kind),
                None => forall|j: int|
                    0 <= j < component_arguments.len() ==> !holds_children(
                        #[trigger] component_arguments[j]@.kind.kind,
                    ),
            },
    {
        let mut i: usize = 0;
        while i < component_arguments.len()
            invariant
                i <= component_arguments.len(),
                forall|j: int|
                    0 <= j < i ==> !holds_children(#[trigger] component_arguments[j]@.kind.kind),
            decreases component_arguments.len() - i,
        {
            if component_arguments[i].kind.kind.clone().inner_list().is_subsection_ui() {
                return Some(i);
            }
            i += 1;
        }
        None
    }
}

} // verus!
