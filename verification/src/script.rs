//! The script text that conditional expressions and global events are
//! written as.

use vstd::prelude::*;
use crate::component::{trim_end_all, trim_end_matches};
use crate::kind::opt_text;
use crate::text::{str_eq, str_strip_prefix, str_trim, strip_prefix, trimmed};
use crate::utils::{join, joined, joined_from, key_name, split, split_from, to_key};
use crate::value::texts;

verus! {

/// The texts of `parts` in a row, with `sep` between them.
pub fn join_texts(parts: &Vec<String>, sep: &str) -> (r: String)
    ensures
        r@ == joined(texts(parts@), sep@),
{
    if parts.len() == 0 {
        return String::new();
    }
    let mut out = parts[0].clone();
    let mut i: usize = 1;
    while i < parts.len()
        invariant
            1 <= i <= parts.len(),
            joined(texts(parts@), sep@) == out@ + (if i < parts.len() {
                sep@ + joined_from(texts(parts@), sep@, i as int)
            } else {
                Seq::<char>::empty()
            }),
        decreases parts.len() - i,
    {
        let ghost before = out@;
        out.append(sep);
        out.append(parts[i].as_str());
        proof {
            let p = texts(parts@);
            assert(p[i as int] == parts[i as int]@);
            if i + 1 < parts.len() {
                assert(before + (sep@ + (p[i as int] + sep@ + joined_from(p, sep@, i + 1)))
                    =~= before + sep@ + p[i as int] + (sep@ + joined_from(p, sep@, i + 1)));
            } else {
                assert(before + (sep@ + p[i as int]) =~= before + sep@ + p[i as int]
                    + Seq::<char>::empty());
            }
        }
        i += 1;
    }
    assert(out@ + Seq::<char>::empty() =~= out@);
    out
}

/// The views of a list of conditional expressions.
pub open spec fn branches(v: Seq<(Option<String>, String)>) -> Seq<(Option<Seq<char>>, Seq<char>)> {
    Seq::new(v.len(), |i: int| (opt_text(v[i].0), v[i].1@))
}

/// The branch of a conditional: `if`, or `else if` after the first, the
/// condition in brackets, and the expression in braces on a line of its
/// own.
pub open spec fn branch_text(first: bool, condition: Seq<char>, expression: Seq<char>) -> Seq<char> {
    (if first {
        "if"@
    } else {
        "else if"@
    }) + "("@ + condition + "){\n    "@ + trimmed(expression) + "\n}\n"@
}

/// The branches that the expressions from position `from` on give, after
/// those in `done`.
pub open spec fn branch_texts(
    expressions: Seq<(Option<Seq<char>>, Seq<char>)>,
    from: int,
    done: Seq<Seq<char>>,
) -> Seq<Seq<char>>
    decreases expressions.len() - from,
{
    if from < 0 || from >= expressions.len() {
        done
    } else {
        match expressions[from].0 {
            Some(condition) => branch_texts(
                expressions,
                from + 1,
                done.push(branch_text(done.len() == 0, condition, expressions[from].1)),
            ),
            None => branch_texts(expressions, from + 1, done),
        }
    }
}

/// The last expression without a condition from position `from` on, or
/// `found` if there is none.
pub open spec fn last_default(
    expressions: Seq<(Option<Seq<char>>, Seq<char>)>,
    from: int,
    found: Option<Seq<char>>,
) -> Option<Seq<char>>
    decreases expressions.len() - from,
{
    if from < 0 || from >= expressions.len() {
        found
    } else {
        match expressions[from].0 {
            Some(_) => last_default(expressions, from + 1, found),
            None => last_default(expressions, from + 1, Some(expressions[from].1)),
        }
    }
}

/// What follows the branches: the default expression, in an `else` if
/// there are branches; else, for a value with a key, the expression for a
/// missing value in an `else`.
pub open spec fn default_text(
    default: Option<Seq<char>>,
    has_branches: bool,
    has_key: bool,
    default_for_null: Seq<char>,
) -> Seq<char> {
    match default {
        Some(d) => if has_branches {
            "else {"@ + d + "}"@
        } else {
            d
        },
        None => if has_branches && has_key && default_for_null.len() > 0 {
            "else { "@ + default_for_null + " }"@
        } else {
            Seq::empty()
        },
    }
}

/// The script of a list of conditional expressions.
pub open spec fn js_expression(
    expressions: Seq<(Option<Seq<char>>, Seq<char>)>,
    has_key: bool,
    default_for_null: Seq<char>,
) -> Seq<char> {
    let blocks = branch_texts(expressions, 0, Seq::empty());
    joined(blocks, " "@) + default_text(
        last_default(expressions, 0, None),
        blocks.len() > 0,
        has_key,
        default_for_null,
    ) + "\n"@
}

fn branch(first: bool, condition: &str, expression: &str) -> (r: String)
    ensures
        r@ == branch_text(first, condition@, expression@),
{
    let mut out = if first {
        "if".to_owned()
    } else {
        "else if".to_owned()
    };
    out.append("(");
    out.append(condition);
    out.append("){\n    ");
    out.append(str_trim(expression).as_str());
    out.append("\n}\n");
    out
}

/// The script of a list of conditional expressions: a chain of `if` and
/// `else if` for those with a condition, then the default.
pub fn js_expression_from_list(
    expressions: Vec<(Option<String>, String)>,
    key: Option<&str>,
    default_for_null: &str,
) -> (r: String)
    ensures
        r@ == js_expression(branches(expressions@), key.is_some(), default_for_null@),
{
    let mut conditions: Vec<String> = Vec::new();
    let mut default: Option<String> = None;
    let mut i: usize = 0;
    assert(texts(conditions@) =~= Seq::<Seq<char>>::empty());
    while i < expressions.len()
        invariant
            i <= expressions.len(),
            branch_texts(branches(expressions@), 0, Seq::empty()) == branch_texts(
                branches(expressions@),
                i as int,
                texts(conditions@),
            ),
            last_default(branches(expressions@), 0, None) == last_default(
                branches(expressions@),
                i as int,
                opt_text(default),
            ),
        decreases expressions.len() - i,
    {
        assert(branches(expressions@)[i as int] == (
            opt_text(expressions[i as int].0),
            expressions[i as int].1@,
        ));
        match &expressions[i].0 {
            Some(condition) => {
                let ghost before = texts(conditions@);
                let block = branch(
                    conditions.len() == 0,
                    condition.as_str(),
                    expressions[i].1.as_str(),
                );
                conditions.push(block);
                assert(texts(conditions@) =~= before.push(block@));
            },
            None => {
                default = Some(expressions[i].1.clone());
            },
        }
        i += 1;
    }
    let tail = match default {
        Some(d) => {
            if conditions.len() == 0 {
                d
            } else {
                let mut t = "else {".to_owned();
                t.append(d.as_str());
                t.append("}");
                t
            }
        },
        None => {
            if conditions.len() > 0 && key.is_some() && default_for_null.unicode_len() > 0 {
                let mut t = "else { ".to_owned();
                t.append(default_for_null);
                t.append(" }");
                t
            } else {
                String::new()
            }
        },
    };
    let mut out = join_texts(&conditions, " ");
    out.append(tail.as_str());
    out.append("\n");
    out
}

/// The views of a list of events: the id of the node, the name of the
/// event, and the action.
pub open spec fn event_views(v: Seq<(String, String, String)>) -> Seq<
    (Seq<char>, Seq<char>, Seq<char>),
> {
    Seq::new(v.len(), |i: int| (v[i].0@, v[i].1@, v[i].2@))
}

/// The names that keyboard events give to the keys of a list.
pub open spec fn key_names(keys: Seq<Seq<char>>) -> Seq<Seq<char>> {
    Seq::new(keys.len(), |i: int| key_name(keys[i]))
}

/// The keys that the bracketed rest of an event name lists.
pub open spec fn listed_keys(rest: Seq<char>) -> Seq<Seq<char>> {
    key_names(split_from(trim_end_all(rest, ']'), seq!['-'], 0))
}

/// The test that each of the keys is held down.
pub open spec fn held(keys: Seq<Seq<char>>) -> Seq<Seq<char>> {
    Seq::new(keys.len(), |i: int| "global_keys[\""@ + keys[i] + "\"]"@)
}

/// The handler of a sequence of keys, after the handlers in `before`.
pub open spec fn sequence_block(before: Seq<char>, keys: Seq<Seq<char>>, actions: Seq<char>) -> Seq<
    char,
> {
    before + "\nif (buffer.join(',').includes(\""@ + joined(keys, ","@) + "\")) {\n   "@ + actions
        + "\n    buffer = [];\n    global_keys[event.key] = false;\n    return;\n}\n"@
}

/// The handler of keys held together, after the handlers in `before`.
pub open spec fn chord_block(before: Seq<char>, keys: Seq<Seq<char>>, actions: Seq<char>) -> Seq<
    char,
> {
    before + "\nif ("@ + joined(held(keys), " && "@) + " && buffer.join(',').includes(\""@ + joined(
        keys,
        ","@,
    ) + "\")) {\n    "@ + actions
        + "\n    buffer = [];\n    global_keys[event.key] = false;\n    return;\n}\n"@
}

/// The handler of a click outside the node `id`, after the handlers in
/// `before`.
pub open spec fn outside_block(before: Seq<char>, id: Seq<char>, action: Seq<char>) -> Seq<char> {
    before + "\nif (document.querySelector(`[data-id=\""@ + id
        + "\"]`).style.display !== \"none\" && !document.querySelector(`[data-id=\""@ + id
        + "\"]`).contains(event.target)) {\n    "@ + action + "\n}\n"@
}

/// The handlers of the key sequences among the events from `from` on.
pub open spec fn sequence_handlers(
    events: Seq<(Seq<char>, Seq<char>, Seq<char>)>,
    from: int,
    done: Seq<char>,
) -> Seq<char>
    decreases events.len() - from,
{
    if from < 0 || from >= events.len() {
        done
    } else {
        match strip_prefix(events[from].1, "onglobalkeyseq["@) {
            Some(rest) => sequence_handlers(
                events,
                from + 1,
                sequence_block(done, listed_keys(rest), events[from].2),
            ),
            None => sequence_handlers(events, from + 1, done),
        }
    }
}

/// The handlers of the keys held together among the events from `from` on.
pub open spec fn chord_handlers(
    events: Seq<(Seq<char>, Seq<char>, Seq<char>)>,
    from: int,
    done: Seq<char>,
) -> Seq<char>
    decreases events.len() - from,
{
    if from < 0 || from >= events.len() {
        done
    } else {
        match strip_prefix(events[from].1, "onglobalkey["@) {
            Some(rest) => chord_handlers(
                events,
                from + 1,
                chord_block(done, listed_keys(rest), events[from].2),
            ),
            None => chord_handlers(events, from + 1, done),
        }
    }
}

/// The handlers of the clicks outside among the events from `from` on.
pub open spec fn outside_handlers(
    events: Seq<(Seq<char>, Seq<char>, Seq<char>)>,
    from: int,
    done: Seq<char>,
) -> Seq<char>
    decreases events.len() - from,
{
    if from < 0 || from >= events.len() {
        done
    } else if events[from].1 == "onclickoutside"@ {
        outside_handlers(events, from + 1, outside_block(done, events[from].0, events[from].2))
    } else {
        outside_handlers(events, from + 1, done)
    }
}

/// The declarations that the key handlers share.
pub open spec fn global_variables() -> Seq<char> {
    "let global_keys = {};\nlet buffer = [];\nlet lastKeyTime = Date.now();"@
}

/// The beginning of the listener for keys that go down.
pub open spec fn keydown_head() -> Seq<char> {
    "document.addEventListener(\"keydown\", function(event) {\n    global_keys[event.key] = true;\n    const currentTime = Date.now();\n    if (currentTime - lastKeyTime > 1000) {{\n        buffer = [];\n    }}\n    lastKeyTime = currentTime;\n    if (event.target.nodeName === \"INPUT\" || event.target.nodeName === \"TEXTAREA\") {\n        return;\n    }          \n    buffer.push(event.key);\n"@
}

/// The listener for keys that go up.
pub open spec fn keyup_listener() -> Seq<char> {
    "document.addEventListener(\"keyup\", function(event) { global_keys[event.key] = false; })"@
}

/// The script of the global events of a document: the listener for clicks
/// outside, and, if keys are listened for, the declarations and the
/// listeners for keys. No events give no script.
pub open spec fn events_script(events: Seq<(Seq<char>, Seq<char>, Seq<char>)>) -> Seq<char> {
    if events.len() == 0 {
        Seq::empty()
    } else {
        let keys = chord_handlers(events, 0, sequence_handlers(events, 0, Seq::empty()));
        let clicks = outside_handlers(
            events,
            0,
            "document.addEventListener(\"click\", function(event) {"@,
        ) + "});"@;
        if keys.len() == 0 {
            clicks
        } else {
            clicks + "\n\n\n"@ + global_variables() + "\n\n\n"@ + (keydown_head() + "\n\n"@ + keys
                + "});"@) + "\n\n\n"@ + keyup_listener()
        }
    }
}

fn listed_keys_of(rest: &str) -> (r: Vec<String>)
    ensures
        texts(r@) == listed_keys(rest@),
{
    proof {
        reveal_strlit("-");
        assert("-"@ =~= seq!['-']);
    }
    let inner = trim_end_matches(rest, ']');
    let parts = split(inner.as_str(), "-");
    let mut out: Vec<String> = Vec::new();
    let mut i: usize = 0;
    while i < parts.len()
        invariant
            i <= parts.len(),
            out.len() == i,
            forall|j: int| 0 <= j < i ==> out[j]@ == key_name(parts[j]@),
        decreases parts.len() - i,
    {
        out.push(to_key(parts[i].as_str()));
        i += 1;
    }
    assert(texts(out@) =~= key_names(texts(parts@)));
    out
}

fn held_of(keys: &Vec<String>) -> (r: Vec<String>)
    ensures
        texts(r@) == held(texts(keys@)),
{
    let mut out: Vec<String> = Vec::new();
    let mut i: usize = 0;
    while i < keys.len()
        invariant
            i <= keys.len(),
            out.len() == i,
            forall|j: int| 0 <= j < i ==> out[j]@ == "global_keys[\""@ + keys[j]@ + "\"]"@,
        decreases keys.len() - i,
    {
        let mut t = "global_keys[\"".to_owned();
        t.append(keys[i].as_str());
        t.append("\"]");
        out.push(t);
        i += 1;
    }
    assert(texts(out@) =~= held(texts(keys@)));
    out
}

fn sequence_block_of(before: String, keys: &Vec<String>, actions: &str) -> (r: String)
    ensures
        r@ == sequence_block(before@, texts(keys@), actions@),
{
    let mut out = before;
    out.append("\nif (buffer.join(',').includes(\"");
    out.append(join_texts(keys, ",").as_str());
    out.append("\")) {\n   ");
    out.append(actions);
    out.append("\n    buffer = [];\n    global_keys[event.key] = false;\n    return;\n}\n");
    out
}

fn chord_block_of(before: String, keys: &Vec<String>, actions: &str) -> (r: String)
    ensures
        r@ == chord_block(before@, texts(keys@), actions@),
{
    let tests = held_of(keys);
    let mut out = before;
    out.append("\nif (");
    out.append(join(&tests, " && ").as_str());
    out.append(" && buffer.join(',').includes(\"");
    out.append(join_texts(keys, ",").as_str());
    out.append("\")) {\n    ");
    out.append(actions);
    out.append("\n    buffer = [];\n    global_keys[event.key] = false;\n    return;\n}\n");
    out
}

fn outside_block_of(before: String, id: &str, action: &str) -> (r: String)
    ensures
        r@ == outside_block(before@, id@, action@),
{
    let mut out = before;
    out.append("\nif (document.querySelector(`[data-id=\"");
    out.append(id);
    out.append("\"]`).style.display !== \"none\" && !document.querySelector(`[data-id=\"");
    out.append(id);
    out.append("\"]`).contains(event.target)) {\n    ");
    out.append(action);
    out.append("\n}\n");
    out
}

fn key_handlers(events: &Vec<(String, String, String)>) -> (r: String)
    ensures
        r@ == chord_handlers(
            event_views(events@),
            0,
            sequence_handlers(event_views(events@), 0, Seq::empty()),
        ),
{
    let mut out = String::new();
    let mut i: usize = 0;
    while i < events.len()
        invariant
            i <= events.len(),
            sequence_handlers(event_views(events@), 0, Seq::empty()) == sequence_handlers(
                event_views(events@),
                i as int,
                out@,
            ),
        decreases events.len() - i,
    {
        assert(event_views(events@)[i as int].1 == events[i as int].1@);
        assert(event_views(events@)[i as int].2 == events[i as int].2@);
        match str_strip_prefix(events[i].1.as_str(), "onglobalkeyseq[") {
            Some(rest) => {
                let keys = listed_keys_of(rest.as_str());
                out = sequence_block_of(out, &keys, events[i].2.as_str());
            },
            None => {},
        }
        i += 1;
    }
    let ghost start = out@;
    let mut k: usize = 0;
    while k < events.len()
        invariant
            k <= events.len(),
            chord_handlers(event_views(events@), 0, start) == chord_handlers(
                event_views(events@),
                k as int,
                out@,
            ),
        decreases events.len() - k,
    {
        assert(event_views(events@)[k as int].1 == events[k as int].1@);
        assert(event_views(events@)[k as int].2 == events[k as int].2@);
        match str_strip_prefix(events[k].1.as_str(), "onglobalkey[") {
            Some(rest) => {
                let keys = listed_keys_of(rest.as_str());
                out = chord_block_of(out, &keys, events[k].2.as_str());
            },
            None => {},
        }
        k += 1;
    }
    out
}

fn click_handlers(events: &Vec<(String, String, String)>) -> (r: String)
    ensures
        r@ == outside_handlers(
            event_views(events@),
            0,
            "document.addEventListener(\"click\", function(event) {"@,
        ),
{
    let mut out = "document.addEventListener(\"click\", function(event) {".to_owned();
    let mut i: usize = 0;
    while i < events.len()
        invariant
            i <= events.len(),
            outside_handlers(
                event_views(events@),
                0,
                "document.addEventListener(\"click\", function(event) {"@,
            ) == outside_handlers(event_views(events@), i as int, out@),
        decreases events.len() - i,
    {
        assert(event_views(events@)[i as int] == (
            events[i as int].0@,
            events[i as int].1@,
            events[i as int].2@,
        ));
        if str_eq(events[i].1.as_str(), "onclickoutside") {
            out = outside_block_of(out, events[i].0.as_str(), events[i].2.as_str());
        }
        i += 1;
    }
    out
}

/// The script of the global events of a document.
pub fn events_to_string(events: Vec<(String, String, String)>) -> (r: String)
    ensures
        r@ == events_script(event_views(events@)),
{
    if events.len() == 0 {
        return String::new();
    }
    let keys = key_handlers(&events);
    let mut out = click_handlers(&events);
    out.append("});");
    if keys.as_str().unicode_len() == 0 {
        return out;
    }
    let mut keydown =
        "document.addEventListener(\"keydown\", function(event) {\n    global_keys[event.key] = true;\n    const currentTime = Date.now();\n    if (currentTime - lastKeyTime > 1000) {{\n        buffer = [];\n    }}\n    lastKeyTime = currentTime;\n    if (event.target.nodeName === \"INPUT\" || event.target.nodeName === \"TEXTAREA\") {\n        return;\n    }          \n    buffer.push(event.key);\n".to_owned();
    keydown.append("\n\n");
    keydown.append(keys.as_str());
    keydown.append("});");
    out.append("\n\n\n");
    out.append("let global_keys = {};\nlet buffer = [];\nlet lastKeyTime = Date.now();");
    out.append("\n\n\n");
    out.append(keydown.as_str());
    out.append("\n\n\n");
    out.append(
        "document.addEventListener(\"keyup\", function(event) { global_keys[event.key] = false; })",
    );
    out
}

} // verus!
