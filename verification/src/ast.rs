//! The untyped syntax tree that a parser hands over, one value per
//! top-level item of a document.

use vstd::prelude::*;

verus! {

/// A value as it was written.
#[derive(Debug, PartialEq, Eq)]
#[allow(inconsistent_fields)]
pub enum VariableValue {
    /// Nothing was written.
    Null { line_number: usize },
    /// A text: a literal, or the name of a reference or of a copy.
    String { value: String, line_number: usize },
    /// The items of a list.
    List { items: Vec<VariableValue>, line_number: usize },
    /// The fields of a record of the type `name`.
    Record { name: String, fields: Vec<(String, VariableValue)>, line_number: usize },
}

/// What stands before the name of a kind.
#[derive(Debug, PartialEq, Eq, Clone, Copy)]
pub enum VariableModifier {
    List,
    Optional,
}

/// A kind as it was written: a modifier and a name.
#[derive(Debug, PartialEq, Eq, Clone)]
pub struct VariableKind {
    pub modifier: Option<VariableModifier>,
    pub kind: String,
}

/// A field of a record or an argument of a component, as it was written.
#[derive(Debug, PartialEq, Eq)]
pub struct Field {
    pub name: String,
    pub kind: VariableKind,
    pub mutable: bool,
    pub caption: bool,
    pub body: bool,
    pub value: Option<VariableValue>,
    pub line_number: usize,
}

/// Where a property was written.
#[derive(Debug, PartialEq, Eq, Clone)]
pub enum PropertySource {
    Caption,
    Body,
    Header { name: String, mutable: bool },
}

/// A property of a component instance, as it was written.
#[derive(Debug, PartialEq, Eq)]
pub struct Property {
    pub value: VariableValue,
    pub source: PropertySource,
    pub condition: Option<String>,
    pub line_number: usize,
}

/// A loop, as it was written.
#[derive(Debug, PartialEq, Eq, Clone)]
pub struct Loop {
    pub on: String,
    pub alias: String,
    pub line_number: usize,
}

/// An event, as it was written.
#[derive(Debug, PartialEq, Eq, Clone)]
pub struct Event {
    pub name: String,
    pub action: String,
    pub line_number: usize,
}

/// A condition, as it was written.
#[derive(Debug, PartialEq, Eq, Clone)]
pub struct Condition {
    pub expression: String,
    pub line_number: usize,
}

/// A component instance, as it was written.
#[derive(Debug, PartialEq, Eq)]
pub struct Component {
    pub name: String,
    pub properties: Vec<Property>,
    pub iteration: Option<Loop>,
    pub condition: Option<Condition>,
    pub events: Vec<Event>,
    pub children: Vec<Component>,
    pub line_number: usize,
}

/// A component definition, as it was written.
#[derive(Debug, PartialEq, Eq)]
pub struct ComponentDefinition {
    pub name: String,
    pub arguments: Vec<Field>,
    pub definition: Component,
    pub line_number: usize,
}

/// A record type, as it was written.
#[derive(Debug, PartialEq, Eq)]
pub struct Record {
    pub name: String,
    pub fields: Vec<Field>,
    pub line_number: usize,
}

/// An or-type, as it was written.
#[derive(Debug, PartialEq, Eq)]
pub struct OrType {
    pub name: String,
    pub variants: Vec<Field>,
    pub line_number: usize,
}

/// A variable declaration, as it was written.
#[derive(Debug, PartialEq, Eq)]
pub struct VariableDefinition {
    pub name: String,
    pub kind: VariableKind,
    pub mutable: bool,
    pub value: VariableValue,
    pub line_number: usize,
}

/// A function definition, as it was written.
#[derive(Debug, PartialEq, Eq)]
pub struct Function {
    pub name: String,
    pub kind: VariableKind,
    pub arguments: Vec<Field>,
    pub expression: String,
    pub line_number: usize,
}

/// A top-level item of a document.
#[derive(Debug, PartialEq, Eq)]
pub enum AST {
    Record(Record),
    OrType(OrType),
    VariableDefinition(VariableDefinition),
    ComponentDefinition(ComponentDefinition),
    ComponentInvocation(Component),
    FunctionDefinition(Function),
}

impl AST {
    /// The name that the item declares, or for an instance the name of its
    /// component.
    pub open spec fn name_spec(self) -> Seq<char> {
        match self {
            AST::Record(r) => r.name@,
            AST::OrType(o) => o.name@,
            AST::VariableDefinition(v) => v.name@,
            AST::ComponentDefinition(c) => c.name@,
            AST::ComponentInvocation(c) => c.name@,
            AST::FunctionDefinition(f) => f.name@,
        }
    }

    /// The name that the item declares.
    pub fn name(&self) -> (r: String)
        ensures
            r@ == self.name_spec(),
    {
        match self {
            AST::Record(r) => r.name.clone(),
            AST::OrType(o) => o.name.clone(),
            AST::VariableDefinition(v) => v.name.clone(),
            AST::ComponentDefinition(c) => c.name.clone(),
            AST::ComponentInvocation(c) => c.name.clone(),
            AST::FunctionDefinition(f) => f.name.clone(),
        }
    }

    /// The line on which the item begins.
    pub open spec fn line_number_spec(self) -> usize {
        match self {
            AST::Record(r) => r.line_number,
            AST::OrType(o) => o.line_number,
            AST::VariableDefinition(v) => v.line_number,
            AST::ComponentDefinition(c) => c.line_number,
            AST::ComponentInvocation(c) => c.line_number,
            AST::FunctionDefinition(f) => f.line_number,
        }
    }

    /// The line on which the item begins.
    pub fn line_number(&self) -> (r: usize)
        ensures
            r == self.line_number_spec(),
    {
        match self {
            AST::Record(r) => r.line_number,
            AST::OrType(o) => o.line_number,
            AST::VariableDefinition(v) => v.line_number,
            AST::ComponentDefinition(c) => c.line_number,
            AST::ComponentInvocation(c) => c.line_number,
            AST::FunctionDefinition(f) => f.line_number,
        }
    }

    /// Whether the item is a component instance.
    pub fn is_component(&self) -> (r: bool)
        ensures
            r == (*self is ComponentInvocation),
    {
        matches!(self, AST::ComponentInvocation(_))
    }

    pub fn is_record(&self) -> (r: bool)
        ensures
            r == (*self is Record),
    {
        matches!(self, AST::Record(_))
    }

    pub fn is_or_type(&self) -> (r: bool)
        ensures
            r == (*self is OrType),
    {
        matches!(self, AST::OrType(_))
    }

    pub fn is_variable_definition(&self) -> (r: bool)
        ensures
            r == (*self is VariableDefinition),
    {
        matches!(self, AST::VariableDefinition(_))
    }

    pub fn is_component_definition(&self) -> (r: bool)
        ensures
            r == (*self is ComponentDefinition),
    {
        matches!(self, AST::ComponentDefinition(_))
    }

    pub fn is_function(&self) -> (r: bool)
        ensures
            r == (*self is FunctionDefinition),
    {
        matches!(self, AST::FunctionDefinition(_))
    }
}

/// Specification-level written value.
#[allow(inconsistent_fields)]
pub enum VariableValueV {
    Null { line_number: usize },
    String { value: Seq<char>, line_number: usize },
    List { items: Seq<VariableValueV>, line_number: usize },
    Record { name: Seq<char>, fields: Seq<(Seq<char>, VariableValueV)>, line_number: usize },
}

/// The specification-level items of a list of written values.
pub open spec fn values_model(v: Vec<VariableValue>) -> Seq<VariableValueV>
    decreases v,
{
    Seq::new(
        v.len() as nat,
        |i: int|
            if 0 <= i < v.len() {
                v[i].model()
            } else {
                arbitrary()
            },
    )
}

/// The specification-level fields of a written record.
pub open spec fn named_values_model(v: Vec<(String, VariableValue)>) -> Seq<
    (Seq<char>, VariableValueV),
>
    decreases v,
{
    Seq::new(
        v.len() as nat,
        |i: int|
            if 0 <= i < v.len() {
                (v[i].0@, v[i].1.model())
            } else {
                arbitrary()
            },
    )
}

impl VariableValue {
    /// The specification-level value that this value stands for.
    pub open spec fn model(self) -> VariableValueV
        decreases self,
    {
        match self {
            VariableValue::Null { line_number } => VariableValueV::Null { line_number },
            VariableValue::String { value, line_number } => VariableValueV::String {
                value: value@,
                line_number,
            },
            VariableValue::List { items, line_number } => VariableValueV::List {
                items: values_model(items),
                line_number,
            },
            VariableValue::Record { name, fields, line_number } => VariableValueV::Record {
                name: name@,
                fields: named_values_model(fields),
                line_number,
            },
        }
    }

    /// The line on which the value was written.
    pub fn line_number(&self) -> (r: usize)
        ensures
            r == self@.line_number(),
    {
        match self {
            VariableValue::Null { line_number } => *line_number,
            VariableValue::String { line_number, .. } => *line_number,
            VariableValue::List { line_number, .. } => *line_number,
            VariableValue::Record { line_number, .. } => *line_number,
        }
    }

    /// Whether nothing was written.
    pub fn is_null(&self) -> (r: bool)
        ensures
            r == (self@ is Null),
    {
        matches!(self, VariableValue::Null { .. })
    }
}

impl VariableValueV {
    /// The line on which the value was written.
    pub open spec fn line_number(self) -> usize {
        match self {
            VariableValueV::Null { line_number } => line_number,
            VariableValueV::String { line_number, .. } => line_number,
            VariableValueV::List { line_number, .. } => line_number,
            VariableValueV::Record { line_number, .. } => line_number,
        }
    }
}

impl View for VariableValue {
    type V = VariableValueV;

    open spec fn view(&self) -> VariableValueV {
        self.model()
    }
}

/// Specification-level written kind.
pub struct VariableKindV {
    pub modifier: Option<VariableModifier>,
    pub kind: Seq<char>,
}

impl View for VariableKind {
    type V = VariableKindV;

    open spec fn view(&self) -> VariableKindV {
        VariableKindV { modifier: self.modifier, kind: self.kind@ }
    }
}

/// The view of an optional written value.
pub open spec fn opt_value(v: Option<VariableValue>) -> Option<VariableValueV> {
    match v {
        Some(x) => Some(x@),
        None => None,
    }
}

/// Specification-level written field.
pub struct FieldV {
    pub name: Seq<char>,
    pub kind: VariableKindV,
    pub mutable: bool,
    pub caption: bool,
    pub body: bool,
    pub value: Option<VariableValueV>,
    pub line_number: usize,
}

impl View for Field {
    type V = FieldV;

    open spec fn view(&self) -> FieldV {
        FieldV {
            name: self.name@,
            kind: self.kind@,
            mutable: self.mutable,
            caption: self.caption,
            body: self.body,
            value: opt_value(self.value),
            line_number: self.line_number,
        }
    }
}

/// The views of a list of written fields.
pub open spec fn fields_view(v: Seq<Field>) -> Seq<FieldV> {
    Seq::new(v.len(), |i: int| v[i]@)
}

/// Specification-level written property source.
pub enum PropertySourceV {
    Caption,
    Body,
    Header { name: Seq<char>, mutable: bool },
}

impl View for PropertySource {
    type V = PropertySourceV;

    open spec fn view(&self) -> PropertySourceV {
        match self {
            PropertySource::Caption => PropertySourceV::Caption,
            PropertySource::Body => PropertySourceV::Body,
            PropertySource::Header { name, mutable } => PropertySourceV::Header {
                name: name@,
                mutable: *mutable,
            },
        }
    }
}

/// Specification-level written property.
pub struct PropertyV {
    pub value: VariableValueV,
    pub source: PropertySourceV,
    pub condition: Option<Seq<char>>,
    pub line_number: usize,
}

impl View for Property {
    type V = PropertyV;

    open spec fn view(&self) -> PropertyV {
        PropertyV {
            value: self.value@,
            source: self.source@,
            condition: match self.condition {
                Some(c) => Some(c@),
                None => None,
            },
            line_number: self.line_number,
        }
    }
}

/// The views of a list of written properties.
pub open spec fn properties_view(v: Seq<Property>) -> Seq<PropertyV> {
    Seq::new(v.len(), |i: int| v[i]@)
}

/// Specification-level written loop.
pub struct LoopV {
    pub on: Seq<char>,
    pub alias: Seq<char>,
    pub line_number: usize,
}

impl View for Loop {
    type V = LoopV;

    open spec fn view(&self) -> LoopV {
        LoopV { on: self.on@, alias: self.alias@, line_number: self.line_number }
    }
}

/// Specification-level written event.
pub struct EventV {
    pub name: Seq<char>,
    pub action: Seq<char>,
    pub line_number: usize,
}

impl View for Event {
    type V = EventV;

    open spec fn view(&self) -> EventV {
        EventV { name: self.name@, action: self.action@, line_number: self.line_number }
    }
}

/// The views of a list of written events.
pub open spec fn events_view(v: Seq<Event>) -> Seq<EventV> {
    Seq::new(v.len(), |i: int| v[i]@)
}

/// Specification-level written condition.
pub struct ConditionV {
    pub expression: Seq<char>,
    pub line_number: usize,
}

impl View for Condition {
    type V = ConditionV;

    open spec fn view(&self) -> ConditionV {
        ConditionV { expression: self.expression@, line_number: self.line_number }
    }
}

/// Specification-level written component instance.
pub struct ComponentV {
    pub name: Seq<char>,
    pub properties: Seq<PropertyV>,
    pub iteration: Option<LoopV>,
    pub condition: Option<ConditionV>,
    pub events: Seq<EventV>,
    pub children: Seq<ComponentV>,
    pub line_number: usize,
}

/// The specification-level items of a list of written instances.
pub open spec fn components_model(v: Vec<Component>) -> Seq<ComponentV>
    decreases v,
{
    Seq::new(
        v.len() as nat,
        |i: int|
            if 0 <= i < v.len() {
                v[i].model()
            } else {
                arbitrary()
            },
    )
}

impl Component {
    /// The specification-level instance that this instance stands for.
    pub open spec fn model(self) -> ComponentV
        decreases self,
    {
        ComponentV {
            name: self.name@,
            properties: properties_view(self.properties@),
            iteration: match self.iteration {
                Some(l) => Some(l@),
                None => None,
            },
            condition: match self.condition {
                Some(c) => Some(c@),
                None => None,
            },
            events: events_view(self.events@),
            children: components_model(self.children),
            line_number: self.line_number,
        }
    }
}

impl View for Component {
    type V = ComponentV;

    open spec fn view(&self) -> ComponentV {
        self.model()
    }
}

/// Specification-level written component definition.
pub struct ComponentDefinitionV {
    pub name: Seq<char>,
    pub arguments: Seq<FieldV>,
    pub definition: ComponentV,
    pub line_number: usize,
}

impl View for ComponentDefinition {
    type V = ComponentDefinitionV;

    open spec fn view(&self) -> ComponentDefinitionV {
        ComponentDefinitionV {
            name: self.name@,
            arguments: fields_view(self.arguments@),
            definition: self.definition@,
            line_number: self.line_number,
        }
    }
}

/// Specification-level written record type or or-type.
pub struct RecordV {
    pub name: Seq<char>,
    pub fields: Seq<FieldV>,
    pub line_number: usize,
}

impl View for Record {
    type V = RecordV;

    open spec fn view(&self) -> RecordV {
        RecordV { name: self.name@, fields: fields_view(self.fields@), line_number: self.line_number }
    }
}

impl View for OrType {
    type V = RecordV;

    open spec fn view(&self) -> RecordV {
        RecordV {
            name: self.name@,
            fields: fields_view(self.variants@),
            line_number: self.line_number,
        }
    }
}

/// Specification-level written variable declaration.
pub struct VariableDefinitionV {
    pub name: Seq<char>,
    pub kind: VariableKindV,
    pub mutable: bool,
    pub value: VariableValueV,
    pub line_number: usize,
}

impl View for VariableDefinition {
    type V = VariableDefinitionV;

    open spec fn view(&self) -> VariableDefinitionV {
        VariableDefinitionV {
            name: self.name@,
            kind: self.kind@,
            mutable: self.mutable,
            value: self.value@,
            line_number: self.line_number,
        }
    }
}

/// Specification-level written function definition.
pub struct FunctionV {
    pub name: Seq<char>,
    pub kind: VariableKindV,
    pub arguments: Seq<FieldV>,
    pub expression: Seq<char>,
    pub line_number: usize,
}

impl View for Function {
    type V = FunctionV;

    open spec fn view(&self) -> FunctionV {
        FunctionV {
            name: self.name@,
            kind: self.kind@,
            arguments: fields_view(self.arguments@),
            expression: self.expression@,
            line_number: self.line_number,
        }
    }
}

fn clone_values(v: &Vec<VariableValue>) -> (r: Vec<VariableValue>)
    ensures
        values_model(r) == values_model(*v),
    decreases v,
{
    let mut out: Vec<VariableValue> = Vec::new();
    let mut i: usize = 0;
    while i < v.len()
        invariant
            i <= v.len(),
            out.len() == i,
            forall|j: int| 0 <= j < i ==> out[j].model() == v[j].model(),
        decreases v.len() - i,
    {
        assert(decreases_to!(v => v[i as int]));
        out.push(v[i].duplicate());
        i += 1;
    }
    assert(values_model(out) =~= values_model(*v));
    out
}

fn clone_named_values(v: &Vec<(String, VariableValue)>) -> (r: Vec<(String, VariableValue)>)
    ensures
        named_values_model(r) == named_values_model(*v),
    decreases v,
{
    let mut out: Vec<(String, VariableValue)> = Vec::new();
    let mut i: usize = 0;
    while i < v.len()
        invariant
            i <= v.len(),
            out.len() == i,
            forall|j: int| 0 <= j < i ==> out[j].0@ == v[j].0@ && out[j].1.model() == v[j].1.model(),
        decreases v.len() - i,
    {
        assert(decreases_to!(v => v[i as int]));
        let e = &v[i];
        out.push((e.0.clone(), e.1.duplicate()));
        i += 1;
    }
    assert(named_values_model(out) =~= named_values_model(*v));
    out
}

impl VariableValue {
    fn duplicate(&self) -> (r: VariableValue)
        ensures
            r.model() == self.model(),
        decreases self,
    {
        match self {
            VariableValue::Null { line_number } => VariableValue::Null { line_number: *line_number },
            VariableValue::String { value, line_number } => VariableValue::String {
                value: value.clone(),
                line_number: *line_number,
            },
            VariableValue::List { items, line_number } => VariableValue::List {
                items: clone_values(items),
                line_number: *line_number,
            },
            VariableValue::Record { name, fields, line_number } => VariableValue::Record {
                name: name.clone(),
                fields: clone_named_values(fields),
                line_number: *line_number,
            },
        }
    }
}

impl Clone for VariableValue {
    fn clone(&self) -> (r: Self)
        ensures
            r@ == self@,
    {
        self.duplicate()
    }
}

impl Clone for Field {
    fn clone(&self) -> (r: Self)
        ensures
            r@ == self@,
    {
        Field {
            name: self.name.clone(),
            kind: VariableKind { modifier: self.kind.modifier, kind: self.kind.kind.clone() },
            mutable: self.mutable,
            caption: self.caption,
            body: self.body,
            value: match &self.value {
                Some(v) => Some(v.clone()),
                None => None,
            },
            line_number: self.line_number,
        }
    }
}

/// A copy of a list of written fields.
pub fn clone_fields(v: &Vec<Field>) -> (r: Vec<Field>)
    ensures
        fields_view(r@) == fields_view(v@),
{
    let mut out: Vec<Field> = Vec::new();
    let mut i: usize = 0;
    while i < v.len()
        invariant
            i <= v.len(),
            out.len() == i,
            forall|j: int| 0 <= j < i ==> out[j]@ == v[j]@,
        decreases v.len() - i,
    {
        out.push(v[i].clone());
        i += 1;
    }
    assert(fields_view(out@) =~= fields_view(v@));
    out
}

impl Clone for Property {
    fn clone(&self) -> (r: Self)
        ensures
            r@ == self@,
    {
        Property {
            value: self.value.clone(),
            source: match &self.source {
                PropertySource::Caption => PropertySource::Caption,
                PropertySource::Body => PropertySource::Body,
                PropertySource::Header { name, mutable } => PropertySource::Header {
                    name: name.clone(),
                    mutable: *mutable,
                },
            },
            condition: match &self.condition {
                Some(c) => Some(c.clone()),
                None => None,
            },
            line_number: self.line_number,
        }
    }
}

fn clone_components(v: &Vec<Component>) -> (r: Vec<Component>)
    ensures
        components_model(r) == components_model(*v),
    decreases v,
{
    let mut out: Vec<Component> = Vec::new();
    let mut i: usize = 0;
    while i < v.len()
        invariant
            i <= v.len(),
            out.len() == i,
            forall|j: int| 0 <= j < i ==> out[j].model() == v[j].model(),
        decreases v.len() - i,
    {
        assert(decreases_to!(v => v[i as int]));
        out.push(v[i].duplicate());
        i += 1;
    }
    assert(components_model(out) =~= components_model(*v));
    out
}

impl Component {
    fn duplicate(&self) -> (r: Component)
        ensures
            r.model() == self.model(),
        decreases self,
    {
        let mut properties: Vec<Property> = Vec::new();
        let mut i: usize = 0;
        while i < self.properties.len()
            invariant
                i <= self.properties.len(),
                properties.len() == i,
                forall|j: int| 0 <= j < i ==> properties[j]@ == self.properties[j]@,
            decreases self.properties.len() - i,
        {
            properties.push(self.properties[i].clone());
            i += 1;
        }
        assert(properties_view(properties@) =~= properties_view(self.properties@));
        let mut events: Vec<Event> = Vec::new();
        let mut k: usize = 0;
        while k < self.events.len()
            invariant
                k <= self.events.len(),
                events.len() == k,
                forall|j: int| 0 <= j < k ==> events[j]@ == self.events[j]@,
            decreases self.events.len() - k,
        {
            let e = &self.events[k];
            events.push(
                Event { name: e.name.clone(), action: e.action.clone(), line_number: e.line_number },
            );
            k += 1;
        }
        assert(events_view(events@) =~= events_view(self.events@));
        Component {
            name: self.name.clone(),
            properties,
            iteration: match &self.iteration {
                Some(l) => Some(
                    Loop { on: l.on.clone(), alias: l.alias.clone(), line_number: l.line_number },
                ),
                None => None,
            },
            condition: match &self.condition {
                Some(c) => Some(
                    Condition { expression: c.expression.clone(), line_number: c.line_number },
                ),
                None => None,
            },
            events,
            children: clone_components(&self.children),
            line_number: self.line_number,
        }
    }
}

impl Clone for Component {
    fn clone(&self) -> (r: Self)
        ensures
            r@ == self@,
    {
        self.duplicate()
    }
}

impl Clone for AST {
    /// A copy of the item: of the same sort, under the same name.
    fn clone(&self) -> (r: Self)
        ensures
            r.name_spec() == self.name_spec(),
            r.line_number_spec() == self.line_number_spec(),
            match (*self, r) {
                (AST::Record(a), AST::Record(b)) => a@ == b@,
                (AST::OrType(a), AST::OrType(b)) => a@ == b@,
                (AST::VariableDefinition(a), AST::VariableDefinition(b)) => a@ == b@,
                (AST::ComponentDefinition(a), AST::ComponentDefinition(b)) => a@ == b@,
                (AST::ComponentInvocation(a), AST::ComponentInvocation(b)) => a@ == b@,
                (AST::FunctionDefinition(a), AST::FunctionDefinition(b)) => a@ == b@,
                _ => false,
            },
    {
        match self {
            AST::Record(x) => AST::Record(
                Record {
                    name: x.name.clone(),
                    fields: clone_fields(&x.fields),
                    line_number: x.line_number,
                },
            ),
            AST::OrType(x) => AST::OrType(
                OrType {
                    name: x.name.clone(),
                    variants: clone_fields(&x.variants),
                    line_number: x.line_number,
                },
            ),
            AST::VariableDefinition(x) => AST::VariableDefinition(
                VariableDefinition {
                    name: x.name.clone(),
                    kind: VariableKind { modifier: x.kind.modifier, kind: x.kind.kind.clone() },
                    mutable: x.mutable,
                    value: x.value.clone(),
                    line_number: x.line_number,
                },
            ),
            AST::ComponentDefinition(x) => AST::ComponentDefinition(
                ComponentDefinition {
                    name: x.name.clone(),
                    arguments: clone_fields(&x.arguments),
                    definition: x.definition.clone(),
                    line_number: x.line_number,
                },
            ),
            AST::ComponentInvocation(x) => AST::ComponentInvocation(x.clone()),
            AST::FunctionDefinition(x) => AST::FunctionDefinition(
                Function {
                    name: x.name.clone(),
                    kind: VariableKind { modifier: x.kind.modifier, kind: x.kind.kind.clone() },
                    arguments: clone_fields(&x.arguments),
                    expression: x.expression.clone(),
                    line_number: x.line_number,
                },
            ),
        }
    }
}

} // verus!
