//! From written calls and conditions to typed ones.

use vstd::prelude::*;
use crate::error::{error, fail, Error, ErrorKind, ErrorV};
use crate::found::{failed, first_step, function_found, passed, tri, CtxV, Found};
use crate::kind::{KindData, KindDataV, KindV};
use crate::kind_of::{definition_view, loop_view};
use crate::names::{function_name, get_function_name, strip_marker, without_marker};
use crate::search::Tri;
use crate::state::StateWithThing;
use crate::tdoc::TDoc;
use crate::text::{
    chars_find, chars_rfind, first_match, last_match, split_once, str_split_once, str_trim,
    string_from, to_chars, trimmed,
};
use crate::thing::{field_position, find_field, views, Argument, FieldV, Function, FunctionV};
use crate::typed::simple_from_text;
use crate::utils::{split, split_from};
use crate::value::{
    fields_model, texts, Expression, ExpressionNode, ExpressionNodeV, ExpressionV, FunctionCall,
    FunctionCallV, PropertyValue, PropertyValueV,
};

verus! {

/// What stands between the first `(` and the last `)` of a text.
pub open spec fn between_brackets(s: Seq<char>) -> Seq<char> {
    let i = first_match(s, seq!['(']);
    let j = last_match(s, seq![')']);
    if 0 <= i && i < j && j <= s.len() {
        s.subrange(i + 1, j)
    } else {
        Seq::empty()
    }
}

/// The written arguments of a call: the parts between the commas of what
/// stands in the brackets, none where that is blank.
pub open spec fn written_arguments(s: Seq<char>) -> Seq<Seq<char>> {
    let inner = between_brackets(s);
    if trimmed(inner).len() == 0 {
        Seq::empty()
    } else {
        split_from(inner, seq![','], 0)
    }
}

/// The error of a malformed construct.
pub open spec fn malformed(ctx: CtxV, text: Seq<char>, line_number: usize) -> ErrorV {
    error(ErrorKind::ParseError, text, ctx.doc.name, line_number)
}

/// The bound argument that a written argument `name = value` stands for:
/// the name has to be that of an argument of the function, and the value
/// is typed as that argument.
pub open spec fn call_argument(
    ctx: CtxV,
    part: Seq<char>,
    declared: Seq<FieldV>,
    definition: Option<(Seq<char>, Seq<FieldV>)>,
    loop_object: Option<(Seq<char>, FieldV)>,
    line_number: usize,
) -> Found<(Seq<char>, PropertyValueV)> {
    match split_once(part, seq!['=']) {
        None => failed(ctx, malformed(ctx, part, line_number)),
        Some((k, v)) => {
            let key = strip_marker(trimmed(k));
            let i = find_field(declared, key, 0);
            if i < 0 {
                failed(ctx, error(ErrorKind::ArgumentNotFound, key, ctx.doc.name, line_number))
            } else {
                let f = simple_from_text(
                    ctx,
                    trimmed(v),
                    false,
                    Some(declared[i].kind),
                    definition,
                    loop_object,
                    line_number,
                );
                match f.result {
                    Ok(Tri::Thing(pv)) => Found { ctx: f.ctx, result: Ok(Tri::Thing((key, pv))) },
                    _ => passed(f),
                }
            }
        },
    }
}

/// The bound arguments of a call from the written argument `from` on,
/// after those in `done`.
pub open spec fn call_arguments(
    ctx: CtxV,
    parts: Seq<Seq<char>>,
    declared: Seq<FieldV>,
    from: int,
    done: Seq<(Seq<char>, PropertyValueV)>,
    definition: Option<(Seq<char>, Seq<FieldV>)>,
    loop_object: Option<(Seq<char>, FieldV)>,
    line_number: usize,
) -> Found<Seq<(Seq<char>, PropertyValueV)>>
    decreases parts.len() - from,
{
    if from < 0 || from >= parts.len() {
        Found { ctx, result: Ok(Tri::Thing(done)) }
    } else {
        let f = call_argument(ctx, parts[from], declared, definition, loop_object, line_number);
        match f.result {
            Ok(Tri::Thing(bound)) => call_arguments(
                f.ctx,
                parts,
                declared,
                from + 1,
                done.push(bound),
                definition,
                loop_object,
                line_number,
            ),
            _ => passed(f),
        }
    }
}

/// The call of `function` with the arguments that `text` writes.
pub open spec fn call_of(
    ctx: CtxV,
    text: Seq<char>,
    function: FunctionV,
    is_mutable: bool,
    definition: Option<(Seq<char>, Seq<FieldV>)>,
    loop_object: Option<(Seq<char>, FieldV)>,
    line_number: usize,
) -> Found<FunctionCallV> {
    let f = call_arguments(
        ctx,
        written_arguments(strip_marker(text)),
        function.arguments,
        0,
        Seq::empty(),
        definition,
        loop_object,
        line_number,
    );
    match f.result {
        Ok(Tri::Thing(values)) => Found {
            ctx: f.ctx,
            result: Ok(
                Tri::Thing(
                    FunctionCallV {
                        name: function.name,
                        kind: function.return_kind,
                        is_mutable,
                        line_number,
                        values,
                    },
                ),
            ),
        },
        _ => passed(f),
    }
}

/// The call that a text such as `$f(a = $x, b = 2)` stands for: of the
/// function that the name before the brackets stands for, with each
/// written argument typed as the argument of that name.
pub open spec fn call_from_text(
    ctx: CtxV,
    text: Seq<char>,
    is_mutable: bool,
    definition: Option<(Seq<char>, Seq<FieldV>)>,
    loop_object: Option<(Seq<char>, FieldV)>,
    line_number: usize,
) -> Found<FunctionCallV> {
    match function_name(strip_marker(text)) {
        None => failed(ctx, malformed(ctx, text, line_number)),
        Some(name) => {
            let f = first_step(ctx, name, line_number);
            match function_found(f, line_number) {
                Ok(Tri::Thing(function)) => call_of(
                    f.ctx,
                    text,
                    function,
                    is_mutable,
                    definition,
                    loop_object,
                    line_number,
                ),
                Ok(Tri::State(s)) => Found { ctx: f.ctx, result: Ok(Tri::State(s)) },
                Ok(Tri::Continue) => Found { ctx: f.ctx, result: Ok(Tri::Continue) },
                Err(e) => failed(f.ctx, e),
            }
        },
    }
}

/// The specification-level form of typed named values or another outcome.
pub open spec fn tri_fields(r: Result<StateWithThing<Vec<(String, PropertyValue)>>, Error>)
    -> Result<Tri<Seq<(Seq<char>, PropertyValueV)>>, ErrorV> {
    match r {
        Ok(StateWithThing::Thing(v)) => Ok(Tri::Thing(fields_model(v))),
        Ok(StateWithThing::State(s)) => Ok(Tri::State(s@)),
        Ok(StateWithThing::Continue) => Ok(Tri::Continue),
        Err(e) => Err(e@),
    }
}

/// The written arguments of a call.
pub fn written_arguments_of(s: &str) -> (r: Vec<String>)
    ensures
        texts(r@) == written_arguments(s@),
{
    proof {
        reveal_strlit("(");
        reveal_strlit(")");
        reveal_strlit(",");
        assert("("@ =~= seq!['(']);
        assert(")"@ =~= seq![')']);
        assert(","@ =~= seq![',']);
    }
    let chars = to_chars(s);
    let open = to_chars("(");
    let close = to_chars(")");
    let inner = match (chars_find(&chars, &open), chars_rfind(&chars, &close)) {
        (Some(i), Some(j)) => {
            if i < j {
                string_from(&chars, i + 1, j)
            } else {
                String::new()
            }
        },
        _ => String::new(),
    };
    let t = str_trim(inner.as_str());
    if t.as_str().unicode_len() == 0 {
        let out: Vec<String> = Vec::new();
        assert(texts(out@) =~= Seq::<Seq<char>>::empty());
        out
    } else {
        split(inner.as_str(), ",")
    }
}

fn call_argument_of(
    doc: &mut TDoc,
    part: &str,
    declared: &Vec<Argument>,
    definition: Option<(&str, &Vec<Argument>)>,
    loop_object: &Option<(String, Argument)>,
    line_number: usize,
) -> (r: Result<StateWithThing<(String, PropertyValue)>, Error>)
    ensures
        final(doc).name == old(doc).name,
        final(doc).aliases == old(doc).aliases,
        final(doc).ctx() == call_argument(
            old(doc).ctx(),
            part@,
            views(declared@),
            definition_view(definition),
            loop_view(*loop_object),
            line_number,
        ).ctx,
        tri_bound(r) == call_argument(
            old(doc).ctx(),
            part@,
            views(declared@),
            definition_view(definition),
            loop_view(*loop_object),
            line_number,
        ).result,
{
    proof {
        reveal_strlit("=");
        assert("="@ =~= seq!['=']);
    }
    let (name, value) = match str_split_once(part, "=") {
        None => {
            return fail(ErrorKind::ParseError, part, doc.name, line_number);
        },
        Some(x) => x,
    };
    let key = without_marker(str_trim(name.as_str()).as_str());
    let i = match field_position(declared, key.as_str()) {
        None => {
            return fail(ErrorKind::ArgumentNotFound, key.as_str(), doc.name, line_number);
        },
        Some(i) => i,
    };
    let text = str_trim(value.as_str());
    match PropertyValue::from_string_with_argument(
        text.as_str(),
        doc,
        Some(&declared[i].kind),
        false,
        line_number,
        definition,
        loop_object,
    ) {
        Ok(StateWithThing::Thing(pv)) => Ok(StateWithThing::Thing((key, pv))),
        Ok(StateWithThing::State(s)) => Ok(StateWithThing::State(s)),
        Ok(StateWithThing::Continue) => Ok(StateWithThing::Continue),
        Err(e) => Err(e),
    }
}

/// The specification-level form of a typed named value or another outcome.
pub open spec fn tri_bound(r: Result<StateWithThing<(String, PropertyValue)>, Error>) -> Result<
    Tri<(Seq<char>, PropertyValueV)>,
    ErrorV,
> {
    match r {
        Ok(StateWithThing::Thing((name, value))) => Ok(Tri::Thing((name@, value@))),
        Ok(StateWithThing::State(s)) => Ok(Tri::State(s@)),
        Ok(StateWithThing::Continue) => Ok(Tri::Continue),
        Err(e) => Err(e@),
    }
}

fn call_arguments_of(
    doc: &mut TDoc,
    parts: &Vec<String>,
    declared: &Vec<Argument>,
    definition: Option<(&str, &Vec<Argument>)>,
    loop_object: &Option<(String, Argument)>,
    line_number: usize,
) -> (r: Result<StateWithThing<Vec<(String, PropertyValue)>>, Error>)
    ensures
        final(doc).name == old(doc).name,
        final(doc).aliases == old(doc).aliases,
        final(doc).ctx() == call_arguments(
            old(doc).ctx(),
            texts(parts@),
            views(declared@),
            0,
            Seq::empty(),
            definition_view(definition),
            loop_view(*loop_object),
            line_number,
        ).ctx,
        tri_fields(r) == call_arguments(
            old(doc).ctx(),
            texts(parts@),
            views(declared@),
            0,
            Seq::empty(),
            definition_view(definition),
            loop_view(*loop_object),
            line_number,
        ).result,
{
    let mut out: Vec<(String, PropertyValue)> = Vec::new();
    let mut k: usize = 0;
    assert(fields_model(out) =~= Seq::empty());
    while k < parts.len()
        invariant
            k <= parts.len(),
            doc.name == old(doc).name,
            doc.aliases == old(doc).aliases,
            call_arguments(
                old(doc).ctx(),
                texts(parts@),
                views(declared@),
                0,
                Seq::empty(),
                definition_view(definition),
                loop_view(*loop_object),
                line_number,
            ) == call_arguments(
                doc.ctx(),
                texts(parts@),
                views(declared@),
                k as int,
                fields_model(out),
                definition_view(definition),
                loop_view(*loop_object),
                line_number,
            ),
        decreases parts.len() - k,
    {
        assert(texts(parts@)[k as int] == parts[k as int]@);
        match call_argument_of(
            doc,
            parts[k].as_str(),
            declared,
            definition,
            loop_object,
            line_number,
        ) {
            Ok(StateWithThing::Thing((key, pv))) => {
                let ghost before = fields_model(out);
                out.push((key, pv));
                assert(fields_model(out) =~= before.push((key@, pv@)));
            },
            Ok(StateWithThing::State(s)) => {
                return Ok(StateWithThing::State(s));
            },
            Ok(StateWithThing::Continue) => {
                return Ok(StateWithThing::Continue);
            },
            Err(e) => {
                return Err(e);
            },
        }
        k += 1;
    }
    Ok(StateWithThing::Thing(out))
}

fn call_of_function(
    doc: &mut TDoc,
    text: &str,
    function: Function,
    is_mutable: bool,
    definition: Option<(&str, &Vec<Argument>)>,
    loop_object: &Option<(String, Argument)>,
    line_number: usize,
) -> (r: Result<StateWithThing<FunctionCall>, Error>)
    ensures
        final(doc).name == old(doc).name,
        final(doc).aliases == old(doc).aliases,
        final(doc).ctx() == call_of(
            old(doc).ctx(),
            text@,
            function@,
            is_mutable,
            definition_view(definition),
            loop_view(*loop_object),
            line_number,
        ).ctx,
        tri(r) == call_of(
            old(doc).ctx(),
            text@,
            function@,
            is_mutable,
            definition_view(definition),
            loop_view(*loop_object),
            line_number,
        ).result,
{
    let bare = without_marker(text);
    let parts = written_arguments_of(bare.as_str());
    match call_arguments_of(doc, &parts, &function.arguments, definition, loop_object, line_number) {
        Ok(StateWithThing::Thing(values)) => Ok(
            StateWithThing::Thing(
                FunctionCall {
                    name: function.name,
                    kind: function.return_kind,
                    is_mutable,
                    line_number,
                    values,
                },
            ),
        ),
        Ok(StateWithThing::State(s)) => Ok(StateWithThing::State(s)),
        Ok(StateWithThing::Continue) => Ok(StateWithThing::Continue),
        Err(e) => Err(e),
    }
}

impl FunctionCall {
    /// The call that the text stands for.
    pub fn from_string(
        text: &str,
        doc: &mut TDoc,
        is_mutable: bool,
        definition_name_with_arguments: Option<(&str, &Vec<Argument>)>,
        loop_object_name_and_kind: &Option<(String, Argument)>,
        line_number: usize,
    ) -> (r: Result<StateWithThing<FunctionCall>, Error>)
        ensures
            final(doc).name == old(doc).name,
            final(doc).aliases == old(doc).aliases,
            final(doc).ctx() == call_from_text(
                old(doc).ctx(),
                text@,
                is_mutable,
                definition_view(definition_name_with_arguments),
                loop_view(*loop_object_name_and_kind),
                line_number,
            ).ctx,
            tri(r) == call_from_text(
                old(doc).ctx(),
                text@,
                is_mutable,
                definition_view(definition_name_with_arguments),
                loop_view(*loop_object_name_and_kind),
                line_number,
            ).result,
    {
        let bare = without_marker(text);
        let name = match get_function_name(bare.as_str()) {
            None => {
                return fail(ErrorKind::ParseError, text, doc.name, line_number);
            },
            Some(n) => n,
        };
        match doc.search_function(name.as_str(), line_number) {
            Ok(StateWithThing::Thing(function)) => call_of_function(
                doc,
                text,
                function,
                is_mutable,
                definition_name_with_arguments,
                loop_object_name_and_kind,
                line_number,
            ),
            Ok(StateWithThing::State(s)) => Ok(StateWithThing::State(s)),
            Ok(StateWithThing::Continue) => Ok(StateWithThing::Continue),
            Err(e) => Err(e),
        }
    }
}

/// The number of `!` that a text has from position `from` on, one after
/// the other.
pub open spec fn bangs(t: Seq<char>, from: int) -> int
    decreases t.len() - from,
{
    if from < 0 || from >= t.len() || t[from] != '!' {
        0
    } else {
        1 + bangs(t, from + 1)
    }
}

/// The tree `node` under `n` negations.
pub open spec fn negated(node: ExpressionNodeV, n: int) -> ExpressionNodeV
    decreases n,
{
    if n <= 0 {
        node
    } else {
        ExpressionNodeV::Not(Box::new(negated(node, n - 1)))
    }
}

/// The kind of a condition.
pub open spec fn boolean_kind() -> KindDataV {
    KindDataV { kind: KindV::Boolean, caption: false, body: false }
}

/// The text of an operand without the `!` in front of it.
pub open spec fn operand_text(text: Seq<char>) -> Seq<char> {
    let t = trimmed(text);
    trimmed(t.subrange(bangs(t, 0), t.len() as int))
}

/// The tree of an operand, with any number of `!` in front: the name of one
/// of the bound arguments `locals`, or else a literal or the name of a
/// variable, of the kind `kind`.
pub open spec fn operand(
    ctx: CtxV,
    text: Seq<char>,
    locals: Seq<Seq<char>>,
    kind: KindDataV,
    definition: Option<(Seq<char>, Seq<FieldV>)>,
    loop_object: Option<(Seq<char>, FieldV)>,
    line_number: usize,
) -> Found<ExpressionNodeV> {
    let n = bangs(trimmed(text), 0);
    let atom = operand_text(text);
    if locals.contains(atom) {
        Found { ctx, result: Ok(Tri::Thing(negated(ExpressionNodeV::Argument(atom), n))) }
    } else {
        let f = simple_from_text(ctx, atom, false, Some(kind), definition, loop_object, line_number);
        match f.result {
            Ok(Tri::Thing(pv)) => Found {
                ctx: f.ctx,
                result: Ok(Tri::Thing(negated(ExpressionNodeV::Value(pv), n))),
            },
            _ => passed(f),
        }
    }
}

/// The conjunction of the operands from position `from` on, after `done`.
pub open spec fn conjunction(
    ctx: CtxV,
    parts: Seq<Seq<char>>,
    from: int,
    done: Option<ExpressionNodeV>,
    locals: Seq<Seq<char>>,
    kind: KindDataV,
    definition: Option<(Seq<char>, Seq<FieldV>)>,
    loop_object: Option<(Seq<char>, FieldV)>,
    line_number: usize,
) -> Found<ExpressionNodeV>
    decreases parts.len() - from,
{
    if from < 0 || from >= parts.len() {
        match done {
            Some(node) => Found { ctx, result: Ok(Tri::Thing(node)) },
            None => failed(ctx, malformed(ctx, Seq::empty(), line_number)),
        }
    } else {
        let f = operand(ctx, parts[from], locals, kind, definition, loop_object, line_number);
        match f.result {
            Ok(Tri::Thing(node)) => conjunction(
                f.ctx,
                parts,
                from + 1,
                Some(
                    match done {
                        Some(left) => ExpressionNodeV::And(Box::new(left), Box::new(node)),
                        None => node,
                    },
                ),
                locals,
                kind,
                definition,
                loop_object,
                line_number,
            ),
            _ => f,
        }
    }
}

/// The disjunction of the conjunctions from position `from` on, after
/// `done`.
pub open spec fn disjunction(
    ctx: CtxV,
    parts: Seq<Seq<char>>,
    from: int,
    done: Option<ExpressionNodeV>,
    locals: Seq<Seq<char>>,
    kind: KindDataV,
    definition: Option<(Seq<char>, Seq<FieldV>)>,
    loop_object: Option<(Seq<char>, FieldV)>,
    line_number: usize,
) -> Found<ExpressionNodeV>
    decreases parts.len() - from,
{
    if from < 0 || from >= parts.len() {
        match done {
            Some(node) => Found { ctx, result: Ok(Tri::Thing(node)) },
            None => failed(ctx, malformed(ctx, Seq::empty(), line_number)),
        }
    } else {
        let f = conjunction(
            ctx,
            split_from(parts[from], seq!['&', '&'], 0),
            0,
            None,
            locals,
            kind,
            definition,
            loop_object,
            line_number,
        );
        match f.result {
            Ok(Tri::Thing(node)) => disjunction(
                f.ctx,
                parts,
                from + 1,
                Some(
                    match done {
                        Some(left) => ExpressionNodeV::Or(Box::new(left), Box::new(node)),
                        None => node,
                    },
                ),
                locals,
                kind,
                definition,
                loop_object,
                line_number,
            ),
            _ => f,
        }
    }
}

/// The expression that a text stands for: operands joined by `&&`, such
/// conjunctions joined by `||`, read from the left.
pub open spec fn expression_from_text(
    ctx: CtxV,
    text: Seq<char>,
    locals: Seq<Seq<char>>,
    kind: KindDataV,
    definition: Option<(Seq<char>, Seq<FieldV>)>,
    loop_object: Option<(Seq<char>, FieldV)>,
    line_number: usize,
) -> Found<ExpressionV> {
    let f = disjunction(
        ctx,
        split_from(text, seq!['|', '|'], 0),
        0,
        None,
        locals,
        kind,
        definition,
        loop_object,
        line_number,
    );
    match f.result {
        Ok(Tri::Thing(node)) => Found {
            ctx: f.ctx,
            result: Ok(Tri::Thing(ExpressionV { node, line_number })),
        },
        _ => passed(f),
    }
}

/// The expression that a written condition stands for: a boolean
/// expression without bound arguments.
pub open spec fn condition_from_text(
    ctx: CtxV,
    text: Seq<char>,
    definition: Option<(Seq<char>, Seq<FieldV>)>,
    loop_object: Option<(Seq<char>, FieldV)>,
    line_number: usize,
) -> Found<ExpressionV> {
    expression_from_text(
        ctx,
        text,
        Seq::empty(),
        boolean_kind(),
        definition,
        loop_object,
        line_number,
    )
}

/// The view of an optional tree.
pub open spec fn opt_node(n: Option<ExpressionNode>) -> Option<ExpressionNodeV> {
    match n {
        Some(x) => Some(x@),
        None => None,
    }
}

fn count_bangs(chars: &Vec<char>) -> (r: usize)
    ensures
        r as int == bangs(chars@, 0),
        r <= chars.len(),
{
    let mut i: usize = 0;
    while i < chars.len() && chars[i] == '!'
        invariant
            i <= chars.len(),
            bangs(chars@, 0) == i + bangs(chars@, i as int),
        decreases chars.len() - i,
    {
        i += 1;
    }
    i
}

fn negate(node: ExpressionNode, n: usize) -> (r: ExpressionNode)
    ensures
        r@ == negated(node@, n as int),
{
    let mut out = node;
    let mut i: usize = 0;
    while i < n
        invariant
            i <= n,
            out@ == negated(node@, i as int),
        decreases n - i,
    {
        out = ExpressionNode::Not(Box::new(out));
        i += 1;
    }
    out
}

fn operand_of(
    doc: &mut TDoc,
    text: &str,
    locals: &Vec<String>,
    kind: &KindData,
    definition: Option<(&str, &Vec<Argument>)>,
    loop_object: &Option<(String, Argument)>,
    line_number: usize,
) -> (r: Result<StateWithThing<ExpressionNode>, Error>)
    ensures
        final(doc).name == old(doc).name,
        final(doc).aliases == old(doc).aliases,
        final(doc).ctx() == operand(
            old(doc).ctx(),
            text@,
            texts(locals@),
            kind@,
            definition_view(definition),
            loop_view(*loop_object),
            line_number,
        ).ctx,
        tri(r) == operand(
            old(doc).ctx(),
            text@,
            texts(locals@),
            kind@,
            definition_view(definition),
            loop_view(*loop_object),
            line_number,
        ).result,
{
    let t = str_trim(text);
    let chars = to_chars(t.as_str());
    let n = count_bangs(&chars);
    let rest = string_from(&chars, n, chars.len());
    let atom = str_trim(rest.as_str());
    if crate::search::texts_contain(locals, atom.as_str()) {
        return Ok(StateWithThing::Thing(negate(ExpressionNode::Argument(atom), n)));
    }
    match PropertyValue::from_string_with_argument(
        atom.as_str(),
        doc,
        Some(kind),
        false,
        line_number,
        definition,
        loop_object,
    ) {
        Ok(StateWithThing::Thing(pv)) => Ok(
            StateWithThing::Thing(negate(ExpressionNode::Value(pv), n)),
        ),
        Ok(StateWithThing::State(s)) => Ok(StateWithThing::State(s)),
        Ok(StateWithThing::Continue) => Ok(StateWithThing::Continue),
        Err(e) => Err(e),
    }
}

fn conjunction_of(
    doc: &mut TDoc,
    parts: &Vec<String>,
    locals: &Vec<String>,
    kind: &KindData,
    definition: Option<(&str, &Vec<Argument>)>,
    loop_object: &Option<(String, Argument)>,
    line_number: usize,
) -> (r: Result<StateWithThing<ExpressionNode>, Error>)
    ensures
        final(doc).name == old(doc).name,
        final(doc).aliases == old(doc).aliases,
        final(doc).ctx() == conjunction(
            old(doc).ctx(),
            texts(parts@),
            0,
            None,
            texts(locals@),
            kind@,
            definition_view(definition),
            loop_view(*loop_object),
            line_number,
        ).ctx,
        tri(r) == conjunction(
            old(doc).ctx(),
            texts(parts@),
            0,
            None,
            texts(locals@),
            kind@,
            definition_view(definition),
            loop_view(*loop_object),
            line_number,
        ).result,
{
    proof {
        reveal_strlit("");
        assert(""@ =~= Seq::<char>::empty());
    }
    let mut done: Option<ExpressionNode> = None;
    let mut k: usize = 0;
    while k < parts.len()
        invariant
            k <= parts.len(),
            doc.name == old(doc).name,
            doc.aliases == old(doc).aliases,
            conjunction(
                old(doc).ctx(),
                texts(parts@),
                0,
                None,
                texts(locals@),
                kind@,
                definition_view(definition),
                loop_view(*loop_object),
                line_number,
            ) == conjunction(
                doc.ctx(),
                texts(parts@),
                k as int,
                opt_node(done),
                texts(locals@),
                kind@,
                definition_view(definition),
                loop_view(*loop_object),
                line_number,
            ),
        decreases parts.len() - k,
    {
        assert(texts(parts@)[k as int] == parts[k as int]@);
        match operand_of(
            doc,
            parts[k].as_str(),
            locals,
            kind,
            definition,
            loop_object,
            line_number,
        ) {
            Ok(StateWithThing::Thing(node)) => {
                done = Some(
                    match done {
                        Some(left) => ExpressionNode::And(Box::new(left), Box::new(node)),
                        None => node,
                    },
                );
            },
            other => {
                return other;
            },
        }
        k += 1;
    }
    match done {
        Some(node) => Ok(StateWithThing::Thing(node)),
        None => fail(ErrorKind::ParseError, "", doc.name, line_number),
    }
}

fn disjunction_of(
    doc: &mut TDoc,
    parts: &Vec<String>,
    locals: &Vec<String>,
    kind: &KindData,
    definition: Option<(&str, &Vec<Argument>)>,
    loop_object: &Option<(String, Argument)>,
    line_number: usize,
) -> (r: Result<StateWithThing<ExpressionNode>, Error>)
    ensures
        final(doc).name == old(doc).name,
        final(doc).aliases == old(doc).aliases,
        final(doc).ctx() == disjunction(
            old(doc).ctx(),
            texts(parts@),
            0,
            None,
            texts(locals@),
            kind@,
            definition_view(definition),
            loop_view(*loop_object),
            line_number,
        ).ctx,
        tri(r) == disjunction(
            old(doc).ctx(),
            texts(parts@),
            0,
            None,
            texts(locals@),
            kind@,
            definition_view(definition),
            loop_view(*loop_object),
            line_number,
        ).result,
{
    proof {
        reveal_strlit("");
        reveal_strlit("&&");
        assert(""@ =~= Seq::<char>::empty());
        assert("&&"@ =~= seq!['&', '&']);
    }
    let mut done: Option<ExpressionNode> = None;
    let mut k: usize = 0;
    while k < parts.len()
        invariant
            k <= parts.len(),
            doc.name == old(doc).name,
            doc.aliases == old(doc).aliases,
            "&&"@ == seq!['&', '&'],
            disjunction(
                old(doc).ctx(),
                texts(parts@),
                0,
                None,
                texts(locals@),
                kind@,
                definition_view(definition),
                loop_view(*loop_object),
                line_number,
            ) == disjunction(
                doc.ctx(),
                texts(parts@),
                k as int,
                opt_node(done),
                texts(locals@),
                kind@,
                definition_view(definition),
                loop_view(*loop_object),
                line_number,
            ),
        decreases parts.len() - k,
    {
        assert(texts(parts@)[k as int] == parts[k as int]@);
        let operands = split(parts[k].as_str(), "&&");
        match conjunction_of(doc, &operands, locals, kind, definition, loop_object, line_number) {
            Ok(StateWithThing::Thing(node)) => {
                done = Some(
                    match done {
                        Some(left) => ExpressionNode::Or(Box::new(left), Box::new(node)),
                        None => node,
                    },
                );
            },
            other => {
                return other;
            },
        }
        k += 1;
    }
    match done {
        Some(node) => Ok(StateWithThing::Thing(node)),
        None => fail(ErrorKind::ParseError, "", doc.name, line_number),
    }
}

impl Expression {
    /// The expression that a text stands for, with `locals` for the names
    /// of the bound arguments and `kind` for the kind of its operands.
    pub fn from_text(
        text: &str,
        locals: &Vec<String>,
        kind: &KindData,
        definition_name_with_arguments: Option<(&str, &Vec<Argument>)>,
        loop_object_name_and_kind: &Option<(String, Argument)>,
        doc: &mut TDoc,
        line_number: usize,
    ) -> (r: Result<StateWithThing<Expression>, Error>)
        ensures
            final(doc).name == old(doc).name,
            final(doc).aliases == old(doc).aliases,
            final(doc).ctx() == expression_from_text(
                old(doc).ctx(),
                text@,
                texts(locals@),
                kind@,
                definition_view(definition_name_with_arguments),
                loop_view(*loop_object_name_and_kind),
                line_number,
            ).ctx,
            tri(r) == expression_from_text(
                old(doc).ctx(),
                text@,
                texts(locals@),
                kind@,
                definition_view(definition_name_with_arguments),
                loop_view(*loop_object_name_and_kind),
                line_number,
            ).result,
    {
        proof {
            reveal_strlit("||");
            assert("||"@ =~= seq!['|', '|']);
        }
        let parts = split(text, "||");
        match disjunction_of(
            doc,
            &parts,
            locals,
            kind,
            definition_name_with_arguments,
            loop_object_name_and_kind,
            line_number,
        ) {
            Ok(StateWithThing::Thing(node)) => Ok(
                StateWithThing::Thing(Expression { node, line_number }),
            ),
            Ok(StateWithThing::State(s)) => Ok(StateWithThing::State(s)),
            Ok(StateWithThing::Continue) => Ok(StateWithThing::Continue),
            Err(e) => Err(e),
        }
    }

    /// The expression that a written condition stands for.
    pub fn from_ast_condition(
        condition: &crate::ast::Condition,
        definition_name_with_arguments: Option<(&str, &Vec<Argument>)>,
        loop_object_name_and_kind: &Option<(String, Argument)>,
        doc: &mut TDoc,
    ) -> (r: Result<StateWithThing<Expression>, Error>)
        ensures
            final(doc).name == old(doc).name,
            final(doc).aliases == old(doc).aliases,
            final(doc).ctx() == condition_from_text(
                old(doc).ctx(),
                condition@.expression,
                definition_view(definition_name_with_arguments),
                loop_view(*loop_object_name_and_kind),
                condition@.line_number,
            ).ctx,
            tri(r) == condition_from_text(
                old(doc).ctx(),
                condition@.expression,
                definition_view(definition_name_with_arguments),
                loop_view(*loop_object_name_and_kind),
                condition@.line_number,
            ).result,
    {
        let locals: Vec<String> = Vec::new();
        assert(texts(locals@) =~= Seq::<Seq<char>>::empty());
        let kind = KindData { kind: crate::kind::Kind::Boolean, caption: false, body: false };
        Expression::from_text(
            condition.expression.as_str(),
            &locals,
            &kind,
            definition_name_with_arguments,
            loop_object_name_and_kind,
            doc,
            condition.line_number,
        )
    }
}

} // verus!
