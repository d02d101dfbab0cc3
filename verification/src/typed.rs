//! From written values to typed ones: kinds by name, literals by the kind
//! that is expected, references and copies by the kind of what they name.

use vstd::prelude::*;
use crate::ast::{VariableKind, VariableKindV, VariableModifier};
use crate::error::{error, fail, Error, ErrorKind, ErrorV};
use crate::found::{failed, found_thing, passed, tri, CtxV, Found};
use crate::kind::{Kind, KindData, KindDataV, KindV};
use crate::kind_of::{definition_view, kind_with_argument, loop_view};
use crate::names::{resolved_name, strip_marker, without_marker};
use crate::search::Tri;
use crate::semantics::{digits_value, RESOLVE_LIMIT};
use crate::state::StateWithThing;
use crate::tdoc::{lifted, TDoc};
use crate::text::{has_prefix, str_eq, str_starts_with, to_chars};
use crate::thing::{Argument, FieldV, Thing, ThingV};
use crate::value::{PropertyValue, PropertyValueV, Value, ValueV};

verus! {

/// The number that a text of decimal digits from `from` on denotes, if
/// there is at least one digit and the number fits 64 bits.
pub open spec fn magnitude(s: Seq<char>, from: int) -> Option<u64> {
    if from < 0 || from >= s.len() {
        None
    } else {
        match digits_value(s, from, 0) {
            Some(n) => if n <= u64::MAX {
                Some(n as u64)
            } else {
                None
            },
            None => None,
        }
    }
}

/// The integer that a text denotes: decimal digits, with `-` or `+` in
/// front if one likes, whose number fits a signed 64-bit integer.
pub open spec fn integer_value(s: Seq<char>) -> Option<i64> {
    if s.len() > 0 && s[0] == '-' {
        match magnitude(s, 1) {
            Some(n) => if n <= 0x8000_0000_0000_0000u64 {
                Some((0 - n) as i64)
            } else {
                None
            },
            None => None,
        }
    } else {
        match magnitude(
            s,
            if s.len() > 0 && s[0] == '+' {
                1int
            } else {
                0int
            },
        ) {
            Some(n) => if n <= 0x7fff_ffff_ffff_ffffu64 {
                Some(n as i64)
            } else {
                None
            },
            None => None,
        }
    }
}

/// The truth value that a text denotes.
pub open spec fn boolean_value(s: Seq<char>) -> Option<bool> {
    if s == "true"@ {
        Some(true)
    } else if s == "false"@ {
        Some(false)
    } else {
        None
    }
}

proof fn lemma_digits_monotone(s: Seq<char>, from: int, acc: int)
    requires
        0 <= from,
        0 <= acc,
    ensures
        match digits_value(s, from, acc) {
            Some(n) => n >= acc,
            None => true,
        },
    decreases s.len() - from,
{
    if from < s.len() && '0' <= s[from] && s[from] <= '9' {
        lemma_digits_monotone(s, from + 1, acc * 10 + (s[from] as int - '0' as int));
    }
}

fn digits_of(chars: &Vec<char>, from: usize) -> (r: Option<u64>)
    ensures
        r == magnitude(chars@, from as int),
{
    if from >= chars.len() {
        return None;
    }
    let mut acc: u64 = 0;
    let mut i: usize = from;
    while i < chars.len()
        invariant
            from <= i <= chars.len(),
            digits_value(chars@, from as int, 0) == digits_value(chars@, i as int, acc as int),
        decreases chars.len() - i,
    {
        let c = chars[i];
        if !('0' <= c && c <= '9') {
            return None;
        }
        let d: u64 = (c as u32 - '0' as u32) as u64;
        if acc > (u64::MAX - d) / 10 {
            proof {
                lemma_digits_monotone(chars@, i + 1, acc * 10 + d);
            }
            return None;
        }
        acc = acc * 10 + d;
        i += 1;
    }
    Some(acc)
}

/// The integer that a text denotes.
pub fn parse_integer(s: &str) -> (r: Option<i64>)
    ensures
        r == integer_value(s@),
{
    let chars = to_chars(s);
    if chars.len() > 0 && chars[0] == '-' {
        match digits_of(&chars, 1) {
            Some(n) => {
                if n <= 0x7fff_ffff_ffff_ffffu64 {
                    Some(0 - (n as i64))
                } else if n == 0x8000_0000_0000_0000u64 {
                    Some(i64::MIN)
                } else {
                    None
                }
            },
            None => None,
        }
    } else {
        let from: usize = if chars.len() > 0 && chars[0] == '+' {
            1
        } else {
            0
        };
        match digits_of(&chars, from) {
            Some(n) => {
                if n <= 0x7fff_ffff_ffff_ffffu64 {
                    Some(n as i64)
                } else {
                    None
                }
            },
            None => None,
        }
    }
}

/// The truth value that a text denotes.
pub fn parse_boolean(s: &str) -> (r: Option<bool>)
    ensures
        r == boolean_value(s@),
{
    if str_eq(s, "true") {
        Some(true)
    } else if str_eq(s, "false") {
        Some(false)
    } else {
        None
    }
}

/// The value of kind `kind` that a literal text denotes: a string is the
/// text itself, an integer and a boolean are parsed, and an optional holds
/// what the kind inside gives. No other kind has literals.
pub open spec fn value_from_text(text: Seq<char>, kind: KindV, doc_id: Seq<char>, line_number: usize)
    -> Result<ValueV, ErrorV>
    decreases kind,
{
    match kind {
        KindV::String => Ok(ValueV::String { text }),
        KindV::Integer => match integer_value(text) {
            Some(value) => Ok(ValueV::Integer { value }),
            None => Err(error(ErrorKind::ParseIntError, text, doc_id, line_number)),
        },
        KindV::Boolean => match boolean_value(text) {
            Some(value) => Ok(ValueV::Boolean { value }),
            None => Err(error(ErrorKind::ParseBoolError, text, doc_id, line_number)),
        },
        KindV::Optional { kind: inner } => match value_from_text(
            text,
            *inner,
            doc_id,
            line_number,
        ) {
            Ok(v) => Ok(
                ValueV::Optional {
                    data: Some(Box::new(v)),
                    kind: KindDataV { kind: *inner, caption: false, body: false },
                },
            ),
            Err(e) => Err(e),
        },
        _ => Err(error(ErrorKind::InvalidKind, text, doc_id, line_number)),
    }
}

/// A literal of the kind `kind` has that kind.
pub proof fn lemma_literal_has_its_kind(
    text: Seq<char>,
    kind: KindV,
    doc_id: Seq<char>,
    line_number: usize,
)
    ensures
        match value_from_text(text, kind, doc_id, line_number) {
            Ok(v) => v.kind() == kind,
            Err(_) => true,
        },
    decreases kind,
{
    match kind {
        KindV::Optional { kind: inner } => {
            lemma_literal_has_its_kind(text, *inner, doc_id, line_number);
        },
        _ => {},
    }
}

/// The value of kind `kind` that a literal text denotes.
pub fn literal(text: &str, kind: &Kind, doc_id: &str, line_number: usize) -> (r: Result<
    Value,
    Error,
>)
    ensures
        lifted(r) == value_from_text(text@, kind@, doc_id@, line_number),
    decreases kind,
{
    match kind {
        Kind::String => Ok(Value::String { text: text.to_owned() }),
        Kind::Integer => match parse_integer(text) {
            Some(value) => Ok(Value::Integer { value }),
            None => fail(ErrorKind::ParseIntError, text, doc_id, line_number),
        },
        Kind::Boolean => match parse_boolean(text) {
            Some(value) => Ok(Value::Boolean { value }),
            None => fail(ErrorKind::ParseBoolError, text, doc_id, line_number),
        },
        Kind::Optional { kind: inner } => match literal(text, inner, doc_id, line_number) {
            Ok(v) => Ok(
                Value::Optional {
                    data: Box::new(Some(v)),
                    kind: KindData::new((**inner).clone()),
                },
            ),
            Err(e) => Err(e),
        },
        _ => fail(ErrorKind::InvalidKind, text, doc_id, line_number),
    }
}

/// The kind that a built-in name stands for.
pub open spec fn builtin_kind(name: Seq<char>) -> Option<KindV> {
    if name == "string"@ {
        Some(KindV::String)
    } else if name == "integer"@ {
        Some(KindV::Integer)
    } else if name == "decimal"@ {
        Some(KindV::Decimal)
    } else if name == "boolean"@ {
        Some(KindV::Boolean)
    } else if name == "object"@ {
        Some(KindV::Object)
    } else if name == "void"@ {
        Some(KindV::Void)
    } else if name == "ftd.ui"@ {
        Some(KindV::UI { name: None })
    } else {
        None
    }
}

/// The kind that a definition gives to values: a record type or an or-type
/// stands for itself, nothing else is a kind.
pub open spec fn kind_of_type(f: Found<ThingV>, name: Seq<char>, line_number: usize) -> Found<
    KindV,
> {
    match f.result {
        Ok(Tri::Thing(ThingV::Record(r))) => Found {
            ctx: f.ctx,
            result: Ok(Tri::Thing(KindV::Record { name: r.name })),
        },
        Ok(Tri::Thing(ThingV::OrType(o))) => Found {
            ctx: f.ctx,
            result: Ok(Tri::Thing(KindV::OrType { name: o.name, variant: None })),
        },
        Ok(Tri::Thing(_)) => failed(
            f.ctx,
            error(ErrorKind::InvalidKind, name, f.ctx.doc.name, line_number),
        ),
        _ => passed(f),
    }
}

/// The kind that a name stands for: a built-in kind, or the record type or
/// or-type of that name.
pub open spec fn named_kind(ctx: CtxV, name: Seq<char>, line_number: usize) -> Found<KindV> {
    match builtin_kind(name) {
        Some(kind) => Found { ctx, result: Ok(Tri::Thing(kind)) },
        None => kind_of_type(
            found_thing(ctx, name, line_number, RESOLVE_LIMIT as nat),
            name,
            line_number,
        ),
    }
}

/// The kind `kind` under the modifier that was written before it.
pub open spec fn modified(kind: KindV, modifier: Option<VariableModifier>) -> KindV {
    match modifier {
        Some(VariableModifier::List) => KindV::List { kind: Box::new(kind) },
        Some(VariableModifier::Optional) => KindV::Optional { kind: Box::new(kind) },
        None => kind,
    }
}

/// The kind that a written kind stands for, with its roles.
pub open spec fn kind_from_ast(
    ctx: CtxV,
    kind: VariableKindV,
    caption: bool,
    body: bool,
    line_number: usize,
) -> Found<KindDataV> {
    let f = named_kind(ctx, kind.kind, line_number);
    match f.result {
        Ok(Tri::Thing(k)) => Found {
            ctx: f.ctx,
            result: Ok(Tri::Thing(KindDataV { kind: modified(k, kind.modifier), caption, body })),
        },
        _ => passed(f),
    }
}

fn builtin(name: &str) -> (r: Option<Kind>)
    ensures
        match r {
            Some(k) => builtin_kind(name@) == Some(k@),
            None => builtin_kind(name@).is_none(),
        },
{
    if str_eq(name, "string") {
        Some(Kind::String)
    } else if str_eq(name, "integer") {
        Some(Kind::Integer)
    } else if str_eq(name, "decimal") {
        Some(Kind::Decimal)
    } else if str_eq(name, "boolean") {
        Some(Kind::Boolean)
    } else if str_eq(name, "object") {
        Some(Kind::Object)
    } else if str_eq(name, "void") {
        Some(Kind::Void)
    } else if str_eq(name, "ftd.ui") {
        Some(Kind::UI { name: None })
    } else {
        None
    }
}

/// Whether a name stands for a built-in kind.
pub fn is_builtin(name: &str) -> (r: bool)
    ensures
        r == builtin_kind(name@).is_some(),
{
    builtin(name).is_some()
}

impl Kind {
    /// The kind that a name stands for.
    pub fn from_name(name: &str, doc: &mut TDoc, line_number: usize) -> (r: Result<
        StateWithThing<Kind>,
        Error,
    >)
        ensures
            final(doc).name == old(doc).name,
            final(doc).aliases == old(doc).aliases,
            final(doc).ctx() == named_kind(old(doc).ctx(), name@, line_number).ctx,
            tri(r) == named_kind(old(doc).ctx(), name@, line_number).result,
    {
        match builtin(name) {
            Some(kind) => Ok(StateWithThing::Thing(kind)),
            None => match doc.search_thing(name, line_number) {
                Ok(StateWithThing::Thing(Thing::Record(r))) => Ok(
                    StateWithThing::Thing(Kind::Record { name: r.name }),
                ),
                Ok(StateWithThing::Thing(Thing::OrType(o))) => Ok(
                    StateWithThing::Thing(Kind::OrType { name: o.name, variant: None }),
                ),
                Ok(StateWithThing::Thing(_)) => fail(
                    ErrorKind::InvalidKind,
                    name,
                    doc.name,
                    line_number,
                ),
                Ok(StateWithThing::State(s)) => Ok(StateWithThing::State(s)),
                Ok(StateWithThing::Continue) => Ok(StateWithThing::Continue),
                Err(e) => Err(e),
            },
        }
    }
}

impl KindData {
    /// The kind that a written kind stands for, with its roles.
    pub fn from_ast_kind(
        kind: &VariableKind,
        caption: bool,
        body: bool,
        doc: &mut TDoc,
        line_number: usize,
    ) -> (r: Result<StateWithThing<KindData>, Error>)
        ensures
            final(doc).name == old(doc).name,
            final(doc).aliases == old(doc).aliases,
            final(doc).ctx() == kind_from_ast(old(doc).ctx(), kind@, caption, body, line_number).ctx,
            tri(r) == kind_from_ast(old(doc).ctx(), kind@, caption, body, line_number).result,
    {
        match Kind::from_name(kind.kind.as_str(), doc, line_number) {
            Ok(StateWithThing::Thing(k)) => {
                let k = match kind.modifier {
                    Some(VariableModifier::List) => k.into_list(),
                    Some(VariableModifier::Optional) => k.into_optional(),
                    None => k,
                };
                Ok(StateWithThing::Thing(KindData { kind: k, caption, body }))
            },
            Ok(StateWithThing::State(s)) => Ok(StateWithThing::State(s)),
            Ok(StateWithThing::Continue) => Ok(StateWithThing::Continue),
            Err(e) => Err(e),
        }
    }
}

/// The literal property value of a value.
pub open spec fn literal_of(value: ValueV, is_mutable: bool, line_number: usize) -> PropertyValueV {
    PropertyValueV::Value { value, is_mutable, line_number }
}

/// What a text that is no reference gives: the literal of the kind that is
/// expected, or a string where no kind is expected.
pub open spec fn literal_from_text(
    ctx: CtxV,
    text: Seq<char>,
    is_mutable: bool,
    expected: Option<KindDataV>,
    line_number: usize,
) -> Found<PropertyValueV> {
    match expected {
        Some(kind) => match value_from_text(text, kind.kind, ctx.doc.name, line_number) {
            Ok(v) => Found { ctx, result: Ok(Tri::Thing(literal_of(v, is_mutable, line_number))) },
            Err(e) => failed(ctx, e),
        },
        None => Found {
            ctx,
            result: Ok(
                Tri::Thing(literal_of(ValueV::String { text }, is_mutable, line_number)),
            ),
        },
    }
}

/// What a text that names a variable gives: a copy if it begins with `*$`,
/// else a reference, to the fully qualified name, of the kind that is
/// expected, which the kind of the variable has to agree with; of the kind
/// of the variable where none is expected.
pub open spec fn linked_from_text(
    ctx: CtxV,
    text: Seq<char>,
    is_mutable: bool,
    expected: Option<KindDataV>,
    definition: Option<(Seq<char>, Seq<FieldV>)>,
    loop_object: Option<(Seq<char>, FieldV)>,
    line_number: usize,
) -> Found<PropertyValueV> {
    let f = kind_with_argument(ctx, text, line_number, definition, loop_object);
    match f.result {
        Ok(Tri::Thing((source, found))) => {
            let agrees = match expected {
                Some(e) => e.kind.is_same_as(found.kind),
                None => true,
            };
            let kind = match expected {
                Some(e) => e,
                None => found,
            };
            let name = resolved_name(strip_marker(text), ctx.doc.name, ctx.doc.aliases);
            if !agrees {
                failed(f.ctx, error(ErrorKind::InvalidKind, text, ctx.doc.name, line_number))
            } else if has_prefix(text, seq!['*', '$']) {
                Found {
                    ctx: f.ctx,
                    result: Ok(
                        Tri::Thing(
                            PropertyValueV::Clone { name, kind, source, is_mutable, line_number },
                        ),
                    ),
                }
            } else {
                Found {
                    ctx: f.ctx,
                    result: Ok(
                        Tri::Thing(
                            PropertyValueV::Reference {
                                name,
                                kind,
                                source,
                                is_mutable,
                                line_number,
                            },
                        ),
                    ),
                }
            }
        },
        _ => passed(f),
    }
}

/// Whether a text names a variable: it begins with `$` or with `*$`.
pub open spec fn is_link(text: Seq<char>) -> bool {
    has_prefix(text, seq!['$']) || has_prefix(text, seq!['*', '$'])
}

/// The property value that a text stands for: a reference or a copy if it
/// names a variable, else a literal.
#[verifier::opaque]
pub open spec fn simple_from_text(
    ctx: CtxV,
    text: Seq<char>,
    is_mutable: bool,
    expected: Option<KindDataV>,
    definition: Option<(Seq<char>, Seq<FieldV>)>,
    loop_object: Option<(Seq<char>, FieldV)>,
    line_number: usize,
) -> Found<PropertyValueV> {
    if is_link(text) {
        linked_from_text(ctx, text, is_mutable, expected, definition, loop_object, line_number)
    } else {
        literal_from_text(ctx, text, is_mutable, expected, line_number)
    }
}

/// The view of an optional kind with its roles.
pub open spec fn opt_kind(k: Option<&KindData>) -> Option<KindDataV> {
    match k {
        Some(x) => Some(x@),
        None => None,
    }
}

/// Whether a text names a variable.
pub fn names_variable(text: &str) -> (r: bool)
    ensures
        r == is_link(text@),
{
    proof {
        reveal_strlit("$");
        reveal_strlit("*$");
        assert("$"@ =~= seq!['$']);
        assert("*$"@ =~= seq!['*', '$']);
    }
    str_starts_with(text, "$") || str_starts_with(text, "*$")
}

fn literal_from(
    doc: &TDoc,
    text: &str,
    is_mutable: bool,
    expected: Option<&KindData>,
    line_number: usize,
) -> (r: Result<StateWithThing<PropertyValue>, Error>)
    ensures
        tri(r) == literal_from_text(
            doc.ctx(),
            text@,
            is_mutable,
            opt_kind(expected),
            line_number,
        ).result,
{
    match expected {
        Some(kind) => match literal(text, &kind.kind, doc.name, line_number) {
            Ok(v) => Ok(
                StateWithThing::Thing(PropertyValue::Value { value: v, is_mutable, line_number }),
            ),
            Err(e) => Err(e),
        },
        None => Ok(
            StateWithThing::Thing(
                PropertyValue::Value {
                    value: Value::String { text: text.to_owned() },
                    is_mutable,
                    line_number,
                },
            ),
        ),
    }
}

fn linked_from(
    doc: &mut TDoc,
    text: &str,
    is_mutable: bool,
    expected: Option<&KindData>,
    definition: Option<(&str, &Vec<Argument>)>,
    loop_object: &Option<(String, Argument)>,
    line_number: usize,
) -> (r: Result<StateWithThing<PropertyValue>, Error>)
    ensures
        final(doc).name == old(doc).name,
        final(doc).aliases == old(doc).aliases,
        final(doc).ctx() == linked_from_text(
            old(doc).ctx(),
            text@,
            is_mutable,
            opt_kind(expected),
            definition_view(definition),
            loop_view(*loop_object),
            line_number,
        ).ctx,
        tri(r) == linked_from_text(
            old(doc).ctx(),
            text@,
            is_mutable,
            opt_kind(expected),
            definition_view(definition),
            loop_view(*loop_object),
            line_number,
        ).result,
{
    proof {
        reveal_strlit("*$");
        assert("*$"@ =~= seq!['*', '$']);
    }
    let (source, found) = match doc.get_kind_with_argument(
        text,
        line_number,
        definition,
        loop_object,
    ) {
        Ok(StateWithThing::Thing(x)) => x,
        Ok(StateWithThing::State(s)) => {
            return Ok(StateWithThing::State(s));
        },
        Ok(StateWithThing::Continue) => {
            return Ok(StateWithThing::Continue);
        },
        Err(e) => {
            return Err(e);
        },
    };
    let agrees = match expected {
        Some(e) => e.kind.is_same_as(&found.kind),
        None => true,
    };
    if !agrees {
        return fail(ErrorKind::InvalidKind, text, doc.name, line_number);
    }
    let kind = match expected {
        Some(e) => e.clone(),
        None => found,
    };
    let bare = without_marker(text);
    let name = doc.resolve_name(bare.as_str());
    if str_starts_with(text, "*$") {
        Ok(
            StateWithThing::Thing(
                PropertyValue::Clone { name, kind, source, is_mutable, line_number },
            ),
        )
    } else {
        Ok(
            StateWithThing::Thing(
                PropertyValue::Reference { name, kind, source, is_mutable, line_number },
            ),
        )
    }
}

impl PropertyValue {
    /// The property value that a text stands for: a reference or a copy if
    /// it names a variable, else a literal of the kind that is expected.
    pub fn from_string_with_argument(
        text: &str,
        doc: &mut TDoc,
        expected_kind: Option<&KindData>,
        is_mutable: bool,
        line_number: usize,
        definition_name_with_arguments: Option<(&str, &Vec<Argument>)>,
        loop_object_name_and_kind: &Option<(String, Argument)>,
    ) -> (r: Result<StateWithThing<PropertyValue>, Error>)
        ensures
            final(doc).name == old(doc).name,
            final(doc).aliases == old(doc).aliases,
            final(doc).ctx() == simple_from_text(
                old(doc).ctx(),
                text@,
                is_mutable,
                opt_kind(expected_kind),
                definition_view(definition_name_with_arguments),
                loop_view(*loop_object_name_and_kind),
                line_number,
            ).ctx,
            tri(r) == simple_from_text(
                old(doc).ctx(),
                text@,
                is_mutable,
                opt_kind(expected_kind),
                definition_view(definition_name_with_arguments),
                loop_view(*loop_object_name_and_kind),
                line_number,
            ).result,
    {
        reveal(simple_from_text);
        if names_variable(text) {
            linked_from(
                doc,
                text,
                is_mutable,
                expected_kind,
                definition_name_with_arguments,
                loop_object_name_and_kind,
                line_number,
            )
        } else {
            literal_from(&*doc, text, is_mutable, expected_kind, line_number)
        }
    }
}

} // verus!
