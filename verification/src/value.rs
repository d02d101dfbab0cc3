//! The value model: runtime values, the property values that stand for them,
//! and the component trees that a UI value carries.
//!
//! These types refer to each other, so they are declared together, each with
//! the specification-level type that contracts are stated over.

use vstd::prelude::*;
use crate::kind::{KindData, KindDataV};

verus! {

/// Where a property of a component instance was written.
#[derive(Debug, PartialEq, Eq)]
pub enum PropertySource {
    Caption,
    Body,
    Header { name: String, mutable: bool },
    Subsection,
}

/// Specification-level property source.
pub enum PropertySourceV {
    Caption,
    Body,
    Header { name: Seq<char>, mutable: bool },
    Subsection,
}

impl View for PropertySource {
    type V = PropertySourceV;

    open spec fn view(&self) -> PropertySourceV {
        match self {
            PropertySource::Caption => PropertySourceV::Caption,
            PropertySource::Body => PropertySourceV::Body,
            PropertySource::Header { name, mutable } => PropertySourceV::Header {
                name: name@,
                mutable: *mutable,
            },
            PropertySource::Subsection => PropertySourceV::Subsection,
        }
    }
}

impl Clone for PropertySource {
    fn clone(&self) -> (r: Self)
        ensures
            r@ == self@,
    {
        match self {
            PropertySource::Caption => PropertySource::Caption,
            PropertySource::Body => PropertySource::Body,
            PropertySource::Header { name, mutable } => PropertySource::Header {
                name: name.clone(),
                mutable: *mutable,
            },
            PropertySource::Subsection => PropertySource::Subsection,
        }
    }
}

/// The scope in which the name of a reference was found.
#[derive(Debug, PartialEq, Eq)]
pub enum PropertyValueSource {
    Global,
    Local(String),
    Loop(String),
}

/// Specification-level reference scope.
pub enum PropertyValueSourceV {
    Global,
    Local(Seq<char>),
    Loop(Seq<char>),
}

impl View for PropertyValueSource {
    type V = PropertyValueSourceV;

    open spec fn view(&self) -> PropertyValueSourceV {
        match self {
            PropertyValueSource::Global => PropertyValueSourceV::Global,
            PropertyValueSource::Local(n) => PropertyValueSourceV::Local(n@),
            PropertyValueSource::Loop(n) => PropertyValueSourceV::Loop(n@),
        }
    }
}

impl Clone for PropertyValueSource {
    fn clone(&self) -> (r: Self)
        ensures
            r@ == self@,
    {
        match self {
            PropertyValueSource::Global => PropertyValueSource::Global,
            PropertyValueSource::Local(n) => PropertyValueSource::Local(n.clone()),
            PropertyValueSource::Loop(n) => PropertyValueSource::Loop(n.clone()),
        }
    }
}

/// The views of a list of texts.
pub open spec fn texts(v: Seq<String>) -> Seq<Seq<char>> {
    Seq::new(v.len(), |i: int| v[i]@)
}

/// A copy of a list of texts.
pub fn clone_texts(v: &Vec<String>) -> (r: Vec<String>)
    ensures
        texts(r@) == texts(v@),
{
    let mut out: Vec<String> = Vec::new();
    let mut i: usize = 0;
    while i < v.len()
        invariant
            i <= v.len(),
            out.len() == i,
            forall|j: int| 0 <= j < i ==> out[j]@ == v[j]@,
        decreases v.len() - i,
    {
        out.push(v[i].clone());
        i += 1;
    }
    assert(texts(out@) =~= texts(v@));
    out
}

/// The event that an action of a component instance answers.
#[derive(Debug, PartialEq, Eq)]
pub enum EventName {
    Click,
    MouseEnter,
    MouseLeave,
    ClickOutside,
    GlobalKey(Vec<String>),
    GlobalKeySeq(Vec<String>),
    Input,
    Change,
    Blur,
    Focus,
}

/// Specification-level event name.
pub enum EventNameV {
    Click,
    MouseEnter,
    MouseLeave,
    ClickOutside,
    GlobalKey(Seq<Seq<char>>),
    GlobalKeySeq(Seq<Seq<char>>),
    Input,
    Change,
    Blur,
    Focus,
}

impl View for EventName {
    type V = EventNameV;

    open spec fn view(&self) -> EventNameV {
        match self {
            EventName::Click => EventNameV::Click,
            EventName::MouseEnter => EventNameV::MouseEnter,
            EventName::MouseLeave => EventNameV::MouseLeave,
            EventName::ClickOutside => EventNameV::ClickOutside,
            EventName::GlobalKey(k) => EventNameV::GlobalKey(texts(k@)),
            EventName::GlobalKeySeq(k) => EventNameV::GlobalKeySeq(texts(k@)),
            EventName::Input => EventNameV::Input,
            EventName::Change => EventNameV::Change,
            EventName::Blur => EventNameV::Blur,
            EventName::Focus => EventNameV::Focus,
        }
    }
}

impl Clone for EventName {
    fn clone(&self) -> (r: Self)
        ensures
            r@ == self@,
    {
        match self {
            EventName::Click => EventName::Click,
            EventName::MouseEnter => EventName::MouseEnter,
            EventName::MouseLeave => EventName::MouseLeave,
            EventName::ClickOutside => EventName::ClickOutside,
            EventName::GlobalKey(k) => EventName::GlobalKey(clone_texts(k)),
            EventName::GlobalKeySeq(k) => EventName::GlobalKeySeq(clone_texts(k)),
            EventName::Input => EventName::Input,
            EventName::Change => EventName::Change,
            EventName::Blur => EventName::Blur,
            EventName::Focus => EventName::Focus,
        }
    }
}

/// Specification-level value.
#[allow(inconsistent_fields)]
pub enum ValueV {
    String { text: Seq<char> },
    Integer { value: i64 },
    Decimal { bits: u64 },
    Boolean { value: bool },
    Object { values: Seq<(Seq<char>, PropertyValueV)> },
    Record { name: Seq<char>, fields: Seq<(Seq<char>, PropertyValueV)> },
    OrType {
        name: Seq<char>,
        variant: Seq<char>,
        full_variant: Seq<char>,
        value: Box<PropertyValueV>,
    },
    List { data: Seq<PropertyValueV>, kind: KindDataV },
    Optional { data: Option<Box<ValueV>>, kind: KindDataV },
    UI { name: Seq<char>, kind: KindDataV, component: Box<ComponentV> },
}

/// Specification-level property value.
#[allow(inconsistent_fields)]
pub enum PropertyValueV {
    Value { value: ValueV, is_mutable: bool, line_number: usize },
    Reference {
        name: Seq<char>,
        kind: KindDataV,
        source: PropertyValueSourceV,
        is_mutable: bool,
        line_number: usize,
    },
    Clone {
        name: Seq<char>,
        kind: KindDataV,
        source: PropertyValueSourceV,
        is_mutable: bool,
        line_number: usize,
    },
    FunctionCall(FunctionCallV),
}

/// Specification-level function call.
pub struct FunctionCallV {
    pub name: Seq<char>,
    pub kind: KindDataV,
    pub is_mutable: bool,
    pub line_number: usize,
    pub values: Seq<(Seq<char>, PropertyValueV)>,
}

/// Specification-level expression tree.
pub enum ExpressionNodeV {
    Value(PropertyValueV),
    Argument(Seq<char>),
    Not(Box<ExpressionNodeV>),
    And(Box<ExpressionNodeV>, Box<ExpressionNodeV>),
    Or(Box<ExpressionNodeV>, Box<ExpressionNodeV>),
}

/// Specification-level expression.
pub struct ExpressionV {
    pub node: ExpressionNodeV,
    pub line_number: usize,
}

/// Specification-level loop.
pub struct LoopV {
    pub on: PropertyValueV,
    pub alias: Seq<char>,
    pub line_number: usize,
}

/// Specification-level event.
pub struct EventV {
    pub name: EventNameV,
    pub action: FunctionCallV,
    pub line_number: usize,
}

/// Specification-level property.
pub struct PropertyV {
    pub value: PropertyValueV,
    pub source: PropertySourceV,
    pub condition: Option<ExpressionV>,
    pub line_number: usize,
}

/// Specification-level component instance.
pub struct ComponentV {
    pub name: Seq<char>,
    pub properties: Seq<PropertyV>,
    pub iteration: Option<LoopV>,
    pub condition: Option<ExpressionV>,
    pub events: Seq<EventV>,
    pub children: Seq<ComponentV>,
    pub line_number: usize,
}

/// A concrete runtime datum.
///
/// A decimal is held as the bit pattern of its IEEE 754 binary64 number.
#[derive(Debug, PartialEq, Eq)]
#[allow(inconsistent_fields)]
pub enum Value {
    String { text: String },
    Integer { value: i64 },
    Decimal { bits: u64 },
    Boolean { value: bool },
    Object { values: Vec<(String, PropertyValue)> },
    Record { name: String, fields: Vec<(String, PropertyValue)> },
    OrType { name: String, variant: String, full_variant: String, value: Box<PropertyValue> },
    List { data: Vec<PropertyValue>, kind: KindData },
    Optional { data: Box<Option<Value>>, kind: KindData },
    UI { name: String, kind: KindData, component: Component },
}

/// The indirection over a value: a literal, a reference to a variable, a
/// copy of a variable's value, or a deferred function call.
#[derive(Debug, PartialEq, Eq)]
#[allow(inconsistent_fields)]
pub enum PropertyValue {
    Value { value: Value, is_mutable: bool, line_number: usize },
    Reference {
        name: String,
        kind: KindData,
        source: PropertyValueSource,
        is_mutable: bool,
        line_number: usize,
    },
    Clone {
        name: String,
        kind: KindData,
        source: PropertyValueSource,
        is_mutable: bool,
        line_number: usize,
    },
    FunctionCall(FunctionCall),
}

/// A deferred call of a function with its bound arguments.
#[derive(Debug, PartialEq, Eq)]
pub struct FunctionCall {
    pub name: String,
    pub kind: KindData,
    pub is_mutable: bool,
    pub line_number: usize,
    pub values: Vec<(String, PropertyValue)>,
}

/// An expression tree: property values and the bound arguments of the
/// enclosing function, joined by boolean operators.
#[derive(Debug, PartialEq, Eq)]
pub enum ExpressionNode {
    Value(PropertyValue),
    Argument(String),
    Not(Box<ExpressionNode>),
    And(Box<ExpressionNode>, Box<ExpressionNode>),
    Or(Box<ExpressionNode>, Box<ExpressionNode>),
}

/// An expression with the line it was written on.
#[derive(Debug, PartialEq, Eq)]
pub struct Expression {
    pub node: ExpressionNode,
    pub line_number: usize,
}

/// The list that a component instance iterates over, and the name under
/// which each item is visible.
#[derive(Debug, PartialEq, Eq)]
pub struct Loop {
    pub on: PropertyValue,
    pub alias: String,
    pub line_number: usize,
}

/// An event of a component instance and the call it triggers.
#[derive(Debug, PartialEq, Eq)]
pub struct Event {
    pub name: EventName,
    pub action: FunctionCall,
    pub line_number: usize,
}

/// A property of a component instance.
#[derive(Debug, PartialEq, Eq)]
pub struct Property {
    pub value: PropertyValue,
    pub source: PropertySource,
    pub condition: Option<Expression>,
    pub line_number: usize,
}

/// A component instance.
#[derive(Debug, PartialEq, Eq)]
pub struct Component {
    pub name: String,
    pub properties: Vec<Property>,
    pub iteration: Box<Option<Loop>>,
    pub condition: Box<Option<Expression>>,
    pub events: Vec<Event>,
    pub children: Vec<Component>,
    pub line_number: usize,
}

/// The specification-level entries of a list of named property values.
pub open spec fn fields_model(v: Vec<(String, PropertyValue)>) -> Seq<(Seq<char>, PropertyValueV)>
    decreases v,
{
    Seq::new(
        v.len() as nat,
        |i: int|
            if 0 <= i < v.len() {
                (v[i].0@, v[i].1.model())
            } else {
                arbitrary()
            },
    )
}

/// The specification-level items of a list of property values.
pub open spec fn items_model(v: Vec<PropertyValue>) -> Seq<PropertyValueV>
    decreases v,
{
    Seq::new(
        v.len() as nat,
        |i: int|
            if 0 <= i < v.len() {
                v[i].model()
            } else {
                arbitrary()
            },
    )
}

/// The specification-level items of a list of properties.
pub open spec fn properties_model(v: Vec<Property>) -> Seq<PropertyV>
    decreases v,
{
    Seq::new(
        v.len() as nat,
        |i: int|
            if 0 <= i < v.len() {
                v[i].model()
            } else {
                arbitrary()
            },
    )
}

/// The specification-level items of a list of events.
pub open spec fn events_model(v: Vec<Event>) -> Seq<EventV>
    decreases v,
{
    Seq::new(
        v.len() as nat,
        |i: int|
            if 0 <= i < v.len() {
                v[i].model()
            } else {
                arbitrary()
            },
    )
}

/// The specification-level items of a list of component instances.
pub open spec fn components_model(v: Vec<Component>) -> Seq<ComponentV>
    decreases v,
{
    Seq::new(
        v.len() as nat,
        |i: int|
            if 0 <= i < v.len() {
                v[i].model()
            } else {
                arbitrary()
            },
    )
}

impl Value {
    /// The specification-level value that this value stands for.
    pub open spec fn model(self) -> ValueV
        decreases self,
    {
        match self {
            Value::String { text } => ValueV::String { text: text@ },
            Value::Integer { value } => ValueV::Integer { value },
            Value::Decimal { bits } => ValueV::Decimal { bits },
            Value::Boolean { value } => ValueV::Boolean { value },
            Value::Object { values } => ValueV::Object { values: fields_model(values) },
            Value::Record { name, fields } => ValueV::Record {
                name: name@,
                fields: fields_model(fields),
            },
            Value::OrType { name, variant, full_variant, value } => ValueV::OrType {
                name: name@,
                variant: variant@,
                full_variant: full_variant@,
                value: Box::new(value.model()),
            },
            Value::List { data, kind } => ValueV::List { data: items_model(data), kind: kind@ },
            Value::Optional { data, kind } => ValueV::Optional {
                data: match *data {
                    Some(v) => Some(Box::new(v.model())),
                    None => None,
                },
                kind: kind@,
            },
            Value::UI { name, kind, component } => ValueV::UI {
                name: name@,
                kind: kind@,
                component: Box::new(component.model()),
            },
        }
    }
}

impl PropertyValue {
    /// The specification-level property value that this one stands for.
    pub open spec fn model(self) -> PropertyValueV
        decreases self,
    {
        match self {
            PropertyValue::Value { value, is_mutable, line_number } => PropertyValueV::Value {
                value: value.model(),
                is_mutable,
                line_number,
            },
            PropertyValue::Reference {
                name,
                kind,
                source,
                is_mutable,
                line_number,
            } => PropertyValueV::Reference {
                name: name@,
                kind: kind@,
                source: source@,
                is_mutable,
                line_number,
            },
            PropertyValue::Clone {
                name,
                kind,
                source,
                is_mutable,
                line_number,
            } => PropertyValueV::Clone {
                name: name@,
                kind: kind@,
                source: source@,
                is_mutable,
                line_number,
            },
            PropertyValue::FunctionCall(call) => PropertyValueV::FunctionCall(call.model()),
        }
    }
}

impl FunctionCall {
    /// The specification-level call that this call stands for.
    pub open spec fn model(self) -> FunctionCallV
        decreases self,
    {
        FunctionCallV {
            name: self.name@,
            kind: self.kind@,
            is_mutable: self.is_mutable,
            line_number: self.line_number,
            values: fields_model(self.values),
        }
    }
}

impl ExpressionNode {
    /// The specification-level tree that this tree stands for.
    pub open spec fn model(self) -> ExpressionNodeV
        decreases self,
    {
        match self {
            ExpressionNode::Value(v) => ExpressionNodeV::Value(v.model()),
            ExpressionNode::Argument(n) => ExpressionNodeV::Argument(n@),
            ExpressionNode::Not(a) => ExpressionNodeV::Not(Box::new(a.model())),
            ExpressionNode::And(a, b) => ExpressionNodeV::And(
                Box::new(a.model()),
                Box::new(b.model()),
            ),
            ExpressionNode::Or(a, b) => ExpressionNodeV::Or(
                Box::new(a.model()),
                Box::new(b.model()),
            ),
        }
    }
}

impl Expression {
    /// The specification-level expression that this one stands for.
    pub open spec fn model(self) -> ExpressionV
        decreases self,
    {
        ExpressionV { node: self.node.model(), line_number: self.line_number }
    }
}

/// The specification-level form of an optional expression.
pub open spec fn opt_expression_model(e: Option<Expression>) -> Option<ExpressionV>
    decreases e,
{
    match e {
        Some(x) => Some(x.model()),
        None => None,
    }
}

impl Loop {
    /// The specification-level loop that this one stands for.
    pub open spec fn model(self) -> LoopV
        decreases self,
    {
        LoopV { on: self.on.model(), alias: self.alias@, line_number: self.line_number }
    }
}

impl Event {
    /// The specification-level event that this one stands for.
    pub open spec fn model(self) -> EventV
        decreases self,
    {
        EventV { name: self.name@, action: self.action.model(), line_number: self.line_number }
    }
}

impl Property {
    /// The specification-level property that this one stands for.
    pub open spec fn model(self) -> PropertyV
        decreases self,
    {
        PropertyV {
            value: self.value.model(),
            source: self.source@,
            condition: opt_expression_model(self.condition),
            line_number: self.line_number,
        }
    }
}

impl Component {
    /// The specification-level component that this one stands for.
    pub open spec fn model(self) -> ComponentV
        decreases self,
    {
        ComponentV {
            name: self.name@,
            properties: properties_model(self.properties),
            iteration: match *self.iteration {
                Some(l) => Some(l.model()),
                None => None,
            },
            condition: opt_expression_model(*self.condition),
            events: events_model(self.events),
            children: components_model(self.children),
            line_number: self.line_number,
        }
    }
}

impl View for Value {
    type V = ValueV;

    open spec fn view(&self) -> ValueV {
        self.model()
    }
}

impl View for PropertyValue {
    type V = PropertyValueV;

    open spec fn view(&self) -> PropertyValueV {
        self.model()
    }
}

impl View for FunctionCall {
    type V = FunctionCallV;

    open spec fn view(&self) -> FunctionCallV {
        self.model()
    }
}

impl View for ExpressionNode {
    type V = ExpressionNodeV;

    open spec fn view(&self) -> ExpressionNodeV {
        self.model()
    }
}

impl View for Expression {
    type V = ExpressionV;

    open spec fn view(&self) -> ExpressionV {
        self.model()
    }
}

impl View for Loop {
    type V = LoopV;

    open spec fn view(&self) -> LoopV {
        self.model()
    }
}

impl View for Event {
    type V = EventV;

    open spec fn view(&self) -> EventV {
        self.model()
    }
}

impl View for Property {
    type V = PropertyV;

    open spec fn view(&self) -> PropertyV {
        self.model()
    }
}

impl View for Component {
    type V = ComponentV;

    open spec fn view(&self) -> ComponentV {
        self.model()
    }
}

fn clone_fields(v: &Vec<(String, PropertyValue)>) -> (r: Vec<(String, PropertyValue)>)
    ensures
        fields_model(r) == fields_model(*v),
    decreases v,
{
    let mut out: Vec<(String, PropertyValue)> = Vec::new();
    let mut i: usize = 0;
    while i < v.len()
        invariant
            i <= v.len(),
            out.len() == i,
            forall|j: int| 0 <= j < i ==> out[j].0@ == v[j].0@ && out[j].1.model() == v[j].1.model(),
        decreases v.len() - i,
    {
        assert(decreases_to!(v => v[i as int]));
        let e = &v[i];
        out.push((e.0.clone(), e.1.duplicate()));
        i += 1;
    }
    assert(fields_model(out) =~= fields_model(*v));
    out
}

fn clone_items(v: &Vec<PropertyValue>) -> (r: Vec<PropertyValue>)
    ensures
        items_model(r) == items_model(*v),
    decreases v,
{
    let mut out: Vec<PropertyValue> = Vec::new();
    let mut i: usize = 0;
    while i < v.len()
        invariant
            i <= v.len(),
            out.len() == i,
            forall|j: int| 0 <= j < i ==> out[j].model() == v[j].model(),
        decreases v.len() - i,
    {
        assert(decreases_to!(v => v[i as int]));
        out.push(v[i].duplicate());
        i += 1;
    }
    assert(items_model(out) =~= items_model(*v));
    out
}

fn clone_properties(v: &Vec<Property>) -> (r: Vec<Property>)
    ensures
        properties_model(r) == properties_model(*v),
    decreases v,
{
    let mut out: Vec<Property> = Vec::new();
    let mut i: usize = 0;
    while i < v.len()
        invariant
            i <= v.len(),
            out.len() == i,
            forall|j: int| 0 <= j < i ==> out[j].model() == v[j].model(),
        decreases v.len() - i,
    {
        assert(decreases_to!(v => v[i as int]));
        out.push(v[i].duplicate());
        i += 1;
    }
    assert(properties_model(out) =~= properties_model(*v));
    out
}

fn clone_events(v: &Vec<Event>) -> (r: Vec<Event>)
    ensures
        events_model(r) == events_model(*v),
    decreases v,
{
    let mut out: Vec<Event> = Vec::new();
    let mut i: usize = 0;
    while i < v.len()
        invariant
            i <= v.len(),
            out.len() == i,
            forall|j: int| 0 <= j < i ==> out[j].model() == v[j].model(),
        decreases v.len() - i,
    {
        assert(decreases_to!(v => v[i as int]));
        out.push(v[i].duplicate());
        i += 1;
    }
    assert(events_model(out) =~= events_model(*v));
    out
}

fn clone_components(v: &Vec<Component>) -> (r: Vec<Component>)
    ensures
        components_model(r) == components_model(*v),
    decreases v,
{
    let mut out: Vec<Component> = Vec::new();
    let mut i: usize = 0;
    while i < v.len()
        invariant
            i <= v.len(),
            out.len() == i,
            forall|j: int| 0 <= j < i ==> out[j].model() == v[j].model(),
        decreases v.len() - i,
    {
        assert(decreases_to!(v => v[i as int]));
        out.push(v[i].duplicate());
        i += 1;
    }
    assert(components_model(out) =~= components_model(*v));
    out
}

fn clone_opt_expression(e: &Option<Expression>) -> (r: Option<Expression>)
    ensures
        opt_expression_model(r) == opt_expression_model(*e),
    decreases e,
{
    match e {
        Some(x) => Some(x.duplicate()),
        None => None,
    }
}

impl Value {
    fn duplicate(&self) -> (r: Value)
        ensures
            r.model() == self.model(),
        decreases self,
    {
        match self {
            Value::String { text } => Value::String { text: text.clone() },
            Value::Integer { value } => Value::Integer { value: *value },
            Value::Decimal { bits } => Value::Decimal { bits: *bits },
            Value::Boolean { value } => Value::Boolean { value: *value },
            Value::Object { values } => Value::Object { values: clone_fields(values) },
            Value::Record { name, fields } => Value::Record {
                name: name.clone(),
                fields: clone_fields(fields),
            },
            Value::OrType { name, variant, full_variant, value } => Value::OrType {
                name: name.clone(),
                variant: variant.clone(),
                full_variant: full_variant.clone(),
                value: Box::new(value.duplicate()),
            },
            Value::List { data, kind } => Value::List { data: clone_items(data), kind: kind.clone() },
            Value::Optional { data, kind } => Value::Optional {
                data: Box::new(
                    match &**data {
                        Some(v) => Some(v.duplicate()),
                        None => None,
                    },
                ),
                kind: kind.clone(),
            },
            Value::UI { name, kind, component } => Value::UI {
                name: name.clone(),
                kind: kind.clone(),
                component: component.duplicate(),
            },
        }
    }
}

impl PropertyValue {
    fn duplicate(&self) -> (r: PropertyValue)
        ensures
            r.model() == self.model(),
        decreases self,
    {
        match self {
            PropertyValue::Value { value, is_mutable, line_number } => PropertyValue::Value {
                value: value.duplicate(),
                is_mutable: *is_mutable,
                line_number: *line_number,
            },
            PropertyValue::Reference {
                name,
                kind,
                source,
                is_mutable,
                line_number,
            } => PropertyValue::Reference {
                name: name.clone(),
                kind: kind.clone(),
                source: source.clone(),
                is_mutable: *is_mutable,
                line_number: *line_number,
            },
            PropertyValue::Clone {
                name,
                kind,
                source,
                is_mutable,
                line_number,
            } => PropertyValue::Clone {
                name: name.clone(),
                kind: kind.clone(),
                source: source.clone(),
                is_mutable: *is_mutable,
                line_number: *line_number,
            },
            PropertyValue::FunctionCall(call) => PropertyValue::FunctionCall(call.duplicate()),
        }
    }
}

impl FunctionCall {
    fn duplicate(&self) -> (r: FunctionCall)
        ensures
            r.model() == self.model(),
        decreases self,
    {
        FunctionCall {
            name: self.name.clone(),
            kind: self.kind.clone(),
            is_mutable: self.is_mutable,
            line_number: self.line_number,
            values: clone_fields(&self.values),
        }
    }
}

impl ExpressionNode {
    fn duplicate(&self) -> (r: ExpressionNode)
        ensures
            r.model() == self.model(),
        decreases self,
    {
        match self {
            ExpressionNode::Value(v) => ExpressionNode::Value(v.duplicate()),
            ExpressionNode::Argument(n) => ExpressionNode::Argument(n.clone()),
            ExpressionNode::Not(a) => ExpressionNode::Not(Box::new(a.duplicate())),
            ExpressionNode::And(a, b) => ExpressionNode::And(
                Box::new(a.duplicate()),
                Box::new(b.duplicate()),
            ),
            ExpressionNode::Or(a, b) => ExpressionNode::Or(
                Box::new(a.duplicate()),
                Box::new(b.duplicate()),
            ),
        }
    }
}

impl Expression {
    fn duplicate(&self) -> (r: Expression)
        ensures
            r.model() == self.model(),
        decreases self,
    {
        Expression { node: self.node.duplicate(), line_number: self.line_number }
    }
}

impl Loop {
    fn duplicate(&self) -> (r: Loop)
        ensures
            r.model() == self.model(),
        decreases self,
    {
        Loop { on: self.on.duplicate(), alias: self.alias.clone(), line_number: self.line_number }
    }
}

impl Event {
    fn duplicate(&self) -> (r: Event)
        ensures
            r.model() == self.model(),
        decreases self,
    {
        Event {
            name: self.name.clone(),
            action: self.action.duplicate(),
            line_number: self.line_number,
        }
    }
}

impl Property {
    fn duplicate(&self) -> (r: Property)
        ensures
            r.model() == self.model(),
        decreases self,
    {
        Property {
            value: self.value.duplicate(),
            source: self.source.clone(),
            condition: clone_opt_expression(&self.condition),
            line_number: self.line_number,
        }
    }
}

impl Component {
    fn duplicate(&self) -> (r: Component)
        ensures
            r.model() == self.model(),
        decreases self,
    {
        Component {
            name: self.name.clone(),
            properties: clone_properties(&self.properties),
            iteration: Box::new(
                match &*self.iteration {
                    Some(l) => Some(l.duplicate()),
                    None => None,
                },
            ),
            condition: Box::new(clone_opt_expression(&*self.condition)),
            events: clone_events(&self.events),
            children: clone_components(&self.children),
            line_number: self.line_number,
        }
    }
}

impl Clone for Value {
    fn clone(&self) -> (r: Self)
        ensures
            r@ == self@,
    {
        self.duplicate()
    }
}

impl Clone for PropertyValue {
    fn clone(&self) -> (r: Self)
        ensures
            r@ == self@,
    {
        self.duplicate()
    }
}

impl Clone for FunctionCall {
    fn clone(&self) -> (r: Self)
        ensures
            r@ == self@,
    {
        self.duplicate()
    }
}

impl Clone for ExpressionNode {
    fn clone(&self) -> (r: Self)
        ensures
            r@ == self@,
    {
        self.duplicate()
    }
}

impl Clone for Expression {
    fn clone(&self) -> (r: Self)
        ensures
            r@ == self@,
    {
        self.duplicate()
    }
}

impl Clone for Loop {
    fn clone(&self) -> (r: Self)
        ensures
            r@ == self@,
    {
        self.duplicate()
    }
}

impl Clone for Event {
    fn clone(&self) -> (r: Self)
        ensures
            r@ == self@,
    {
        self.duplicate()
    }
}

impl Clone for Property {
    fn clone(&self) -> (r: Self)
        ensures
            r@ == self@,
    {
        self.duplicate()
    }
}

impl Clone for Component {
    fn clone(&self) -> (r: Self)
        ensures
            r@ == self@,
    {
        self.duplicate()
    }
}

} // verus!
