//! Definitions: what a name of a session can stand for, and the table that
//! holds them.

use vstd::prelude::*;
use crate::kind::{KindData, KindDataV};
use crate::value::{Component, ComponentV, Expression, ExpressionV, PropertyValue, PropertyValueV};

verus! {

/// The views of the items of a list.
pub open spec fn views<T: View>(v: Seq<T>) -> Seq<T::V> {
    Seq::new(v.len(), |i: int| v[i]@)
}

/// Position of the first entry at or after `from` whose key is `key`, or -1.
pub open spec fn find_key<T>(entries: Seq<(Seq<char>, T)>, key: Seq<char>, from: int) -> int
    decreases entries.len() - from,
{
    if from < 0 || from >= entries.len() {
        -1
    } else if entries[from].0 == key {
        from
    } else {
        find_key(entries, key, from + 1)
    }
}

/// The value of the first entry whose key is `key`.
pub open spec fn get_entry<T>(entries: Seq<(Seq<char>, T)>, key: Seq<char>) -> Option<T> {
    let i = find_key(entries, key, 0);
    if i < 0 {
        None
    } else {
        Some(entries[i].1)
    }
}

/// Specification-level field.
pub struct FieldV {
    pub name: Seq<char>,
    pub kind: KindDataV,
    pub mutable: bool,
    pub value: Option<PropertyValueV>,
    pub line_number: usize,
}

/// A field of a record, a variant of an or-type, or an argument of a
/// component or function.
#[derive(Debug, PartialEq, Eq)]
pub struct Field {
    pub name: String,
    pub kind: KindData,
    pub mutable: bool,
    pub value: Option<PropertyValue>,
    pub line_number: usize,
}

/// An argument has the shape of a field.
pub type Argument = Field;

/// The view of an optional property value.
pub open spec fn opt_property_value(v: Option<PropertyValue>) -> Option<PropertyValueV> {
    match v {
        Some(p) => Some(p@),
        None => None,
    }
}

impl View for Field {
    type V = FieldV;

    open spec fn view(&self) -> FieldV {
        FieldV {
            name: self.name@,
            kind: self.kind@,
            mutable: self.mutable,
            value: opt_property_value(self.value),
            line_number: self.line_number,
        }
    }
}

impl Clone for Field {
    fn clone(&self) -> (r: Self)
        ensures
            r@ == self@,
    {
        Field {
            name: self.name.clone(),
            kind: self.kind.clone(),
            mutable: self.mutable,
            value: match &self.value {
                Some(p) => Some(p.clone()),
                None => None,
            },
            line_number: self.line_number,
        }
    }
}

impl Field {
    pub fn new(
        name: &str,
        kind: KindData,
        mutable: bool,
        value: Option<PropertyValue>,
        line_number: usize,
    ) -> (r: Field)
        ensures
            r@ == (FieldV {
                name: name@,
                kind: kind@,
                mutable,
                value: opt_property_value(value),
                line_number,
            }),
    {
        Field { name: name.to_owned(), kind, mutable, value, line_number }
    }

    pub fn is_caption(&self) -> (r: bool)
        ensures
            r == self@.kind.caption,
    {
        self.kind.caption
    }

    pub fn is_body(&self) -> (r: bool)
        ensures
            r == self@.kind.body,
    {
        self.kind.body
    }
}

/// A copy of a list of fields.
pub fn clone_fields(v: &Vec<Field>) -> (r: Vec<Field>)
    ensures
        views(r@) == views(v@),
{
    let mut out: Vec<Field> = Vec::new();
    let mut i: usize = 0;
    while i < v.len()
        invariant
            i <= v.len(),
            out.len() == i,
            forall|j: int| 0 <= j < i ==> out[j]@ == v[j]@,
        decreases v.len() - i,
    {
        out.push(v[i].clone());
        i += 1;
    }
    assert(views(out@) =~= views(v@));
    out
}

/// Specification-level record type.
pub struct RecordV {
    pub name: Seq<char>,
    pub fields: Seq<FieldV>,
    pub line_number: usize,
}

/// A record type: a name and its fields in declaration order.
#[derive(Debug, PartialEq, Eq)]
pub struct Record {
    pub name: String,
    pub fields: Vec<Field>,
    pub line_number: usize,
}

impl View for Record {
    type V = RecordV;

    open spec fn view(&self) -> RecordV {
        RecordV { name: self.name@, fields: views(self.fields@), line_number: self.line_number }
    }
}

impl Clone for Record {
    fn clone(&self) -> (r: Self)
        ensures
            r@ == self@,
    {
        Record {
            name: self.name.clone(),
            fields: clone_fields(&self.fields),
            line_number: self.line_number,
        }
    }
}

/// Position of the first field at or after `from` that is named `name`, or -1.
pub open spec fn find_field(fields: Seq<FieldV>, name: Seq<char>, from: int) -> int
    decreases fields.len() - from,
{
    if from < 0 || from >= fields.len() {
        -1
    } else if fields[from].name == name {
        from
    } else {
        find_field(fields, name, from + 1)
    }
}

/// Position of the first field that is named `name`.
pub fn field_position(fields: &Vec<Field>, name: &str) -> (r: Option<usize>)
    ensures
        match r {
            Some(i) => i < fields.len() && i as int == find_field(views(fields@), name@, 0),
            None => find_field(views(fields@), name@, 0) == -1,
        },
{
    let mut i: usize = 0;
    while i < fields.len()
        invariant
            i <= fields.len(),
            find_field(views(fields@), name@, 0) == find_field(views(fields@), name@, i as int),
        decreases fields.len() - i,
    {
        if crate::text::str_eq(fields[i].name.as_str(), name) {
            return Some(i);
        }
        i += 1;
    }
    None
}

impl Record {
    pub fn new(name: &str, fields: Vec<Field>, line_number: usize) -> (r: Record)
        ensures
            r@ == (RecordV { name: name@, fields: views(fields@), line_number }),
    {
        Record { name: name.to_owned(), fields, line_number }
    }
}

/// Specification-level or-type.
pub struct OrTypeV {
    pub name: Seq<char>,
    pub variants: Seq<FieldV>,
    pub line_number: usize,
}

/// An or-type: a name and its variants in declaration order.
#[derive(Debug, PartialEq, Eq)]
pub struct OrType {
    pub name: String,
    pub variants: Vec<Field>,
    pub line_number: usize,
}

impl View for OrType {
    type V = OrTypeV;

    open spec fn view(&self) -> OrTypeV {
        OrTypeV {
            name: self.name@,
            variants: views(self.variants@),
            line_number: self.line_number,
        }
    }
}

impl Clone for OrType {
    fn clone(&self) -> (r: Self)
        ensures
            r@ == self@,
    {
        OrType {
            name: self.name.clone(),
            variants: clone_fields(&self.variants),
            line_number: self.line_number,
        }
    }
}

/// Specification-level conditional value.
pub struct ConditionalValueV {
    pub condition: ExpressionV,
    pub value: PropertyValueV,
    pub line_number: usize,
}

/// A value that a variable takes while a condition holds.
#[derive(Debug, PartialEq, Eq)]
pub struct ConditionalValue {
    pub condition: Expression,
    pub value: PropertyValue,
    pub line_number: usize,
}

impl View for ConditionalValue {
    type V = ConditionalValueV;

    open spec fn view(&self) -> ConditionalValueV {
        ConditionalValueV {
            condition: self.condition@,
            value: self.value@,
            line_number: self.line_number,
        }
    }
}

impl Clone for ConditionalValue {
    fn clone(&self) -> (r: Self)
        ensures
            r@ == self@,
    {
        ConditionalValue {
            condition: self.condition.clone(),
            value: self.value.clone(),
            line_number: self.line_number,
        }
    }
}

/// Specification-level variable.
pub struct VariableV {
    pub name: Seq<char>,
    pub kind: KindDataV,
    pub mutable: bool,
    pub value: PropertyValueV,
    pub conditional_value: Seq<ConditionalValueV>,
    pub line_number: usize,
    pub is_static: bool,
}

/// A variable: a named slot with a kind, a base value and conditional
/// values that are tried in order.
#[derive(Debug, PartialEq, Eq)]
pub struct Variable {
    pub name: String,
    pub kind: KindData,
    pub mutable: bool,
    pub value: PropertyValue,
    pub conditional_value: Vec<ConditionalValue>,
    pub line_number: usize,
    pub is_static: bool,
}

impl View for Variable {
    type V = VariableV;

    open spec fn view(&self) -> VariableV {
        VariableV {
            name: self.name@,
            kind: self.kind@,
            mutable: self.mutable,
            value: self.value@,
            conditional_value: views(self.conditional_value@),
            line_number: self.line_number,
            is_static: self.is_static,
        }
    }
}

impl Clone for Variable {
    fn clone(&self) -> (r: Self)
        ensures
            r@ == self@,
    {
        let mut conditional_value: Vec<ConditionalValue> = Vec::new();
        let mut i: usize = 0;
        while i < self.conditional_value.len()
            invariant
                i <= self.conditional_value.len(),
                conditional_value.len() == i,
                forall|j: int| 0 <= j < i ==> conditional_value[j]@ == self.conditional_value[j]@,
            decreases self.conditional_value.len() - i,
        {
            conditional_value.push(self.conditional_value[i].clone());
            i += 1;
        }
        assert(views(conditional_value@) =~= views(self.conditional_value@));
        Variable {
            name: self.name.clone(),
            kind: self.kind.clone(),
            mutable: self.mutable,
            value: self.value.clone(),
            conditional_value,
            line_number: self.line_number,
            is_static: self.is_static,
        }
    }
}

/// Specification-level component definition.
pub struct ComponentDefinitionV {
    pub name: Seq<char>,
    pub arguments: Seq<FieldV>,
    pub definition: ComponentV,
    pub line_number: usize,
}

/// A component definition: its arguments and its body.
#[derive(Debug, PartialEq, Eq)]
pub struct ComponentDefinition {
    pub name: String,
    pub arguments: Vec<Argument>,
    pub definition: Component,
    pub line_number: usize,
}

impl View for ComponentDefinition {
    type V = ComponentDefinitionV;

    open spec fn view(&self) -> ComponentDefinitionV {
        ComponentDefinitionV {
            name: self.name@,
            arguments: views(self.arguments@),
            definition: self.definition@,
            line_number: self.line_number,
        }
    }
}

impl Clone for ComponentDefinition {
    fn clone(&self) -> (r: Self)
        ensures
            r@ == self@,
    {
        ComponentDefinition {
            name: self.name.clone(),
            arguments: clone_fields(&self.arguments),
            definition: self.definition.clone(),
            line_number: self.line_number,
        }
    }
}

/// Specification-level function.
pub struct FunctionV {
    pub name: Seq<char>,
    pub return_kind: KindDataV,
    pub arguments: Seq<FieldV>,
    pub expression: ExpressionV,
    pub line_number: usize,
}

/// A function: its arguments, the kind it returns and its body.
#[derive(Debug, PartialEq, Eq)]
pub struct Function {
    pub name: String,
    pub return_kind: KindData,
    pub arguments: Vec<Argument>,
    pub expression: Expression,
    pub line_number: usize,
}

impl View for Function {
    type V = FunctionV;

    open spec fn view(&self) -> FunctionV {
        FunctionV {
            name: self.name@,
            return_kind: self.return_kind@,
            arguments: views(self.arguments@),
            expression: self.expression@,
            line_number: self.line_number,
        }
    }
}

impl Clone for Function {
    fn clone(&self) -> (r: Self)
        ensures
            r@ == self@,
    {
        Function {
            name: self.name.clone(),
            return_kind: self.return_kind.clone(),
            arguments: clone_fields(&self.arguments),
            expression: self.expression.clone(),
            line_number: self.line_number,
        }
    }
}

/// Specification-level definition.
pub enum ThingV {
    Record(RecordV),
    OrType(OrTypeV),
    OrTypeWithVariant { or_type: Seq<char>, variant: FieldV },
    Variable(VariableV),
    Component(ComponentDefinitionV),
    Function(FunctionV),
}

/// What a name of a session stands for.
#[derive(Debug, PartialEq, Eq)]
pub enum Thing {
    Record(Record),
    OrType(OrType),
    OrTypeWithVariant { or_type: String, variant: Field },
    Variable(Variable),
    Component(ComponentDefinition),
    Function(Function),
}

impl View for Thing {
    type V = ThingV;

    open spec fn view(&self) -> ThingV {
        match self {
            Thing::Record(r) => ThingV::Record(r@),
            Thing::OrType(o) => ThingV::OrType(o@),
            Thing::OrTypeWithVariant { or_type, variant } => ThingV::OrTypeWithVariant {
                or_type: or_type@,
                variant: variant@,
            },
            Thing::Variable(v) => ThingV::Variable(v@),
            Thing::Component(c) => ThingV::Component(c@),
            Thing::Function(f) => ThingV::Function(f@),
        }
    }
}

impl Clone for Thing {
    fn clone(&self) -> (r: Self)
        ensures
            r@ == self@,
    {
        match self {
            Thing::Record(r) => Thing::Record(r.clone()),
            Thing::OrType(o) => Thing::OrType(o.clone()),
            Thing::OrTypeWithVariant { or_type, variant } => Thing::OrTypeWithVariant {
                or_type: or_type.clone(),
                variant: variant.clone(),
            },
            Thing::Variable(v) => Thing::Variable(v.clone()),
            Thing::Component(c) => Thing::Component(c.clone()),
            Thing::Function(f) => Thing::Function(f.clone()),
        }
    }
}

/// The table that a list of entries stands for: a later entry under a name
/// replaces an earlier one.
pub open spec fn entries_map<V: View>(s: Seq<(String, V)>) -> Map<Seq<char>, V::V>
    decreases s.len(),
{
    if s.len() == 0 {
        Map::empty()
    } else {
        entries_map(s.drop_last()).insert(s.last().0@, s.last().1@)
    }
}

/// Position of the last entry before `upto` under the name `key`, or -1.
pub open spec fn last_entry<V>(s: Seq<(String, V)>, key: Seq<char>, upto: int) -> int
    decreases upto,
{
    if upto <= 0 || upto > s.len() {
        -1
    } else if s[upto - 1].0@ == key {
        upto - 1
    } else {
        last_entry(s, key, upto - 1)
    }
}

/// The table of the first `upto` entries holds a name exactly if one of
/// them is under it, and then what the last of these holds.
pub proof fn lemma_entries_map_prefix<V: View>(s: Seq<(String, V)>, key: Seq<char>, upto: int)
    requires
        0 <= upto <= s.len(),
    ensures
        ({
            let m = entries_map(s.subrange(0, upto));
            let i = last_entry(s, key, upto);
            if i < 0 {
                !m.contains_key(key)
            } else {
                0 <= i < upto && s[i].0@ == key && m.contains_key(key) && m[key] == s[i].1@
            }
        }),
    decreases upto,
{
    if upto > 0 {
        let p = s.subrange(0, upto);
        assert(p.drop_last() =~= s.subrange(0, upto - 1));
        assert(p.last() == s[upto - 1]);
        lemma_entries_map_prefix(s, key, upto - 1);
    }
}

/// Replacing the last entry under a name changes the table at that name
/// alone.
pub proof fn lemma_entries_map_update<V: View>(s: Seq<(String, V)>, i: int, e: (String, V))
    requires
        0 <= i < s.len(),
        s[i].0@ == e.0@,
        last_entry(s, e.0@, s.len() as int) == i,
    ensures
        entries_map(s.update(i, e)) == entries_map(s).insert(e.0@, e.1@),
    decreases s.len(),
{
    let t = s.update(i, e);
    if i == s.len() - 1 {
        assert(t.drop_last() =~= s.drop_last());
        assert(entries_map(t) =~= entries_map(s).insert(e.0@, e.1@));
    } else {
        assert(t.drop_last() =~= s.drop_last().update(i, e));
        assert(t.last() == s.last());
        assert(s.last().0@ != e.0@);
        assert(last_entry(s.drop_last(), e.0@, s.len() - 1) == i) by {
            lemma_last_entry_prefix(s, s.drop_last(), e.0@, s.len() - 1);
        }
        lemma_entries_map_update(s.drop_last(), i, e);
        assert(entries_map(t) =~= entries_map(s).insert(e.0@, e.1@));
    }
}

/// The last entry under a name before `upto` depends on the entries before
/// `upto` alone.
pub proof fn lemma_last_entry_prefix<V>(
    s: Seq<(String, V)>,
    p: Seq<(String, V)>,
    key: Seq<char>,
    upto: int,
)
    requires
        0 <= upto <= p.len() <= s.len(),
        forall|j: int| 0 <= j < upto ==> p[j] == s[j],
    ensures
        last_entry(p, key, upto) == last_entry(s, key, upto),
    decreases upto,
{
    if upto > 0 && s[upto - 1].0@ != key {
        lemma_last_entry_prefix(s, p, key, upto - 1);
    }
}

/// The table of the definitions of a session, by fully qualified name.
#[derive(Debug, PartialEq, Eq)]
pub struct Bag {
    pub entries: Vec<(String, Thing)>,
}

impl View for Bag {
    type V = Map<Seq<char>, ThingV>;

    open spec fn view(&self) -> Map<Seq<char>, ThingV> {
        entries_map(self.entries@)
    }
}

impl Bag {
    /// The empty table.
    pub fn new() -> (r: Bag)
        ensures
            r@ == Map::<Seq<char>, ThingV>::empty(),
    {
        Bag { entries: Vec::new() }
    }

    fn position(&self, name: &str) -> (r: Option<usize>)
        ensures
            match r {
                Some(i) => i < self.entries.len() && self.entries[i as int].0@ == name@ && i as int
                    == last_entry(self.entries@, name@, self.entries.len() as int),
                None => last_entry(self.entries@, name@, self.entries.len() as int) == -1,
            },
    {
        let mut i: usize = self.entries.len();
        while i > 0
            invariant
                i <= self.entries.len(),
                last_entry(self.entries@, name@, self.entries.len() as int) == last_entry(
                    self.entries@,
                    name@,
                    i as int,
                ),
            decreases i,
        {
            if crate::text::str_eq(self.entries[i - 1].0.as_str(), name) {
                return Some(i - 1);
            }
            i -= 1;
        }
        None
    }

    /// Whether the table holds a definition under `name`.
    pub fn contains_key(&self, name: &str) -> (r: bool)
        ensures
            r == self@.contains_key(name@),
    {
        proof {
            lemma_entries_map_prefix(self.entries@, name@, self.entries.len() as int);
            assert(self.entries@.subrange(0, self.entries.len() as int) =~= self.entries@);
        }
        self.position(name).is_some()
    }

    /// A copy of the definition under `name`.
    pub fn get(&self, name: &str) -> (r: Option<Thing>)
        ensures
            match r {
                Some(t) => self@.contains_key(name@) && self@[name@] == t@,
                None => !self@.contains_key(name@),
            },
    {
        proof {
            lemma_entries_map_prefix(self.entries@, name@, self.entries.len() as int);
            assert(self.entries@.subrange(0, self.entries.len() as int) =~= self.entries@);
        }
        match self.position(name) {
            Some(i) => Some(self.entries[i].1.clone()),
            None => None,
        }
    }

    /// Puts `thing` under `name`, in place of what was there.
    pub fn insert(&mut self, name: String, thing: Thing)
        ensures
            final(self)@ == old(self)@.insert(name@, thing@),
    {
        match self.position(name.as_str()) {
            Some(i) => {
                proof {
                    lemma_entries_map_update(self.entries@, i as int, (name, thing));
                }
                self.entries.set(i, (name, thing));
            },
            None => {
                self.entries.push((name, thing));
                assert(self.entries@.drop_last() =~= old(self).entries@);
            },
        }
    }

    /// The number of entries that the table keeps.
    pub fn len(&self) -> (r: usize)
        ensures
            r == self.entries@.len(),
    {
        self.entries.len()
    }
}

impl Clone for Bag {
    fn clone(&self) -> (r: Self)
        ensures
            r@ == self@,
    {
        let mut out: Vec<(String, Thing)> = Vec::new();
        let mut i: usize = 0;
        while i < self.entries.len()
            invariant
                i <= self.entries.len(),
                out.len() == i,
                entries_map(out@) == entries_map(self.entries@.subrange(0, i as int)),
            decreases self.entries.len() - i,
        {
            let e = &self.entries[i];
            let ghost before = out@;
            out.push((e.0.clone(), e.1.clone()));
            proof {
                let p = self.entries@.subrange(0, i + 1);
                assert(p.drop_last() =~= self.entries@.subrange(0, i as int));
                assert(out@.drop_last() =~= before);
            }
            i += 1;
        }
        assert(self.entries@.subrange(0, i as int) =~= self.entries@);
        Bag { entries: out }
    }
}

} // verus!
