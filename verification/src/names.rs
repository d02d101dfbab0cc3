//! Names: how a dotted, possibly document-qualified name is taken apart and
//! how the short name of an imported document is replaced by its full one.

use vstd::prelude::*;
use crate::text::{
    concat2, concat3, first_match, split_once, str_eq, str_split_once, str_strip_prefix, str_trim,
    strip_prefix, to_chars, chars_find, trimmed,
};
use crate::thing::{find_key, get_entry};

verus! {

/// The mark in front of the name of a reference.
pub const REFERENCE: &'static str = "$";

/// The mark in front of the name of a copy.
pub const CLONE: &'static str = "*$";

/// The document name under which inherited values are looked up.
pub const FTD_INHERITED: &'static str = "inherited";

/// The alias table of a document: short name to full document name.
pub type Aliases = Vec<(String, String)>;

/// The views of the entries of an alias table.
pub open spec fn pairs(v: Seq<(String, String)>) -> Seq<(Seq<char>, Seq<char>)> {
    Seq::new(v.len(), |i: int| (v[i].0@, v[i].1@))
}

/// The text of one character.
pub open spec fn one(c: char) -> Seq<char> {
    seq![c]
}

/// The full document name that the alias `key` stands for.
pub fn alias_of(aliases: &Aliases, key: &str) -> (r: Option<String>)
    ensures
        match r {
            Some(full) => get_entry(pairs(aliases@), key@) == Some(full@),
            None => get_entry(pairs(aliases@), key@).is_none(),
        },
{
    let mut i: usize = 0;
    while i < aliases.len()
        invariant
            i <= aliases.len(),
            find_key(pairs(aliases@), key@, 0) == find_key(pairs(aliases@), key@, i as int),
        decreases aliases.len() - i,
    {
        if str_eq(aliases[i].0.as_str(), key) {
            return Some(aliases[i].1.clone());
        }
        i += 1;
    }
    None
}

/// `name` without the mark of a reference or of a copy in front of it.
pub open spec fn strip_marker(name: Seq<char>) -> Seq<char> {
    match strip_prefix(name, one('$')) {
        Some(rest) => rest,
        None => match strip_prefix(name, seq!['*', '$']) {
            Some(rest) => rest,
            None => name,
        },
    }
}

/// `name` without the mark of a reference or of a copy in front of it.
pub fn without_marker(name: &str) -> (r: String)
    ensures
        r@ == strip_marker(name@),
{
    proof {
        reveal_strlit("$");
        reveal_strlit("*$");
        assert("$"@ =~= one('$'));
        assert("*$"@ =~= seq!['*', '$']);
    }
    match str_strip_prefix(name, REFERENCE) {
        Some(rest) => rest,
        None => match str_strip_prefix(name, CLONE) {
            Some(rest) => rest,
            None => name.to_owned(),
        },
    }
}

/// The fully qualified form of `name` in the document `doc_name`: a name
/// that holds `#` is complete; a leading alias is replaced by the document
/// it stands for; any other name belongs to the document itself.
pub open spec fn resolved_name(
    name: Seq<char>,
    doc_name: Seq<char>,
    aliases: Seq<(Seq<char>, Seq<char>)>,
) -> Seq<char> {
    if first_match(name, one('#')) >= 0 {
        name
    } else {
        match split_once(name, one('.')) {
            Some((module, rest)) => match get_entry(aliases, module) {
                Some(full) => full + one('#') + rest,
                None => doc_name + one('#') + name,
            },
            None => doc_name + one('#') + name,
        }
    }
}

/// The fully qualified form of `name` in the document `doc_name`.
pub fn resolve_name(name: &str, doc_name: &str, aliases: &Aliases) -> (r: String)
    ensures
        r@ == resolved_name(name@, doc_name@, pairs(aliases@)),
{
    proof {
        reveal_strlit("#");
        reveal_strlit(".");
        assert("#"@ =~= one('#'));
        assert("."@ =~= one('.'));
    }
    let chars = to_chars(name);
    let hash = to_chars("#");
    if chars_find(&chars, &hash).is_some() {
        return name.to_owned();
    }
    match str_split_once(name, ".") {
        Some((module, rest)) => match alias_of(aliases, module.as_str()) {
            Some(full) => concat3(full.as_str(), "#", rest.as_str()),
            None => concat3(doc_name, "#", name),
        },
        None => concat3(doc_name, "#", name),
    }
}

/// The part of `text` before the first `at`, and the part after it, each
/// without surrounding whitespace; the whole text where `at` does not occur.
pub open spec fn split_at_spec(text: Seq<char>, at: Seq<char>) -> (Seq<char>, Option<Seq<char>>) {
    match split_once(text, at) {
        Some((a, b)) => (trimmed(a), Some(trimmed(b))),
        None => (text, None),
    }
}

/// Splits `text` at the first `at`.
pub fn split_at(text: &str, at: &str) -> (r: (String, Option<String>))
    ensures
        r.0@ == split_at_spec(text@, at@).0,
        crate::kind::opt_text(r.1) == split_at_spec(text@, at@).1,
{
    match str_split_once(text, at) {
        Some((a, b)) => (str_trim(a.as_str()), Some(str_trim(b.as_str()))),
        None => (text.to_owned(), None),
    }
}

/// The name up to the first `.` that follows the document part, and what
/// comes after that `.`.
pub open spec fn doc_name_and_remaining(s: Seq<char>) -> (Seq<char>, Option<Seq<char>>) {
    let (part1, pattern) = match split_once(s, one('#')) {
        Some((p1, p2)) => (p1 + one('#'), p2),
        None => (Seq::<char>::empty(), s),
    };
    match split_once(pattern, one('.')) {
        Some((p1, p2)) => (part1 + p1, Some(p2)),
        None => (s, None),
    }
}

/// Splits a name into the part that names a definition and the dotted rest.
pub fn get_doc_name_and_remaining(s: &str) -> (r: (String, Option<String>))
    ensures
        r.0@ == doc_name_and_remaining(s@).0,
        crate::kind::opt_text(r.1) == doc_name_and_remaining(s@).1,
{
    proof {
        reveal_strlit("#");
        reveal_strlit(".");
        reveal_strlit("");
        assert("#"@ =~= one('#'));
        assert("."@ =~= one('.'));
        assert(""@ =~= Seq::<char>::empty());
    }
    let (part1, pattern) = match str_split_once(s, "#") {
        Some((p1, p2)) => (concat2(p1.as_str(), "#"), p2),
        None => ("".to_owned(), s.to_owned()),
    };
    match str_split_once(pattern.as_str(), ".") {
        Some((p1, p2)) => (concat2(part1.as_str(), p1.as_str()), Some(p2)),
        None => (s.to_owned(), None),
    }
}

/// The document, the definition's own name and the dotted rest of a name;
/// the document is `doc_id` where the name gives none.
pub open spec fn doc_name_and_thing_name_and_remaining(s: Seq<char>, doc_id: Seq<char>) -> (
    Seq<char>,
    Seq<char>,
    Option<Seq<char>>,
) {
    let (doc_name, remaining) = doc_name_and_remaining(s);
    match split_once(doc_name, one('#')) {
        Some((d, t)) => (d, t, remaining),
        None => (doc_id, doc_name, remaining),
    }
}

/// Splits a name into document, definition name and dotted rest.
pub fn get_doc_name_and_thing_name_and_remaining(s: &str, doc_id: &str) -> (r: (
    String,
    String,
    Option<String>,
))
    ensures
        r.0@ == doc_name_and_thing_name_and_remaining(s@, doc_id@).0,
        r.1@ == doc_name_and_thing_name_and_remaining(s@, doc_id@).1,
        crate::kind::opt_text(r.2) == doc_name_and_thing_name_and_remaining(s@, doc_id@).2,
{
    proof {
        reveal_strlit("#");
        assert("#"@ =~= one('#'));
    }
    let (doc_name, remaining) = get_doc_name_and_remaining(s);
    match str_split_once(doc_name.as_str(), "#") {
        Some((d, t)) => (d, t, remaining),
        None => (doc_id.to_owned(), doc_name, remaining),
    }
}

/// The name in front of the argument list of a call such as `f(a, b)`.
pub open spec fn function_name(s: Seq<char>) -> Option<Seq<char>> {
    let i = first_match(s, one('('));
    let j = first_match(s, one(')'));
    if 0 <= i && i < j {
        Some(s.subrange(0, i))
    } else {
        None
    }
}

/// The name of the function that the text of a call names.
pub fn get_function_name(s: &str) -> (r: Option<String>)
    ensures
        crate::kind::opt_text(r) == function_name(s@),
{
    proof {
        reveal_strlit("(");
        reveal_strlit(")");
        assert("("@ =~= one('('));
        assert(")"@ =~= one(')'));
    }
    let chars = to_chars(s);
    let open = to_chars("(");
    let close = to_chars(")");
    match (chars_find(&chars, &open), chars_find(&chars, &close)) {
        (Some(i), Some(j)) => {
            if i < j {
                Some(crate::text::string_from(&chars, 0, i))
            } else {
                None
            }
        },
        _ => None,
    }
}

/// Whether `name` is one of the names that the environment supplies.
pub open spec fn is_special_variable(name: Seq<char>) -> bool {
    ||| name == "MOUSE-IN"@
    ||| name == "SIBLING-INDEX"@
    ||| name == "SIBLING-INDEX-0"@
    ||| name == "CHILDREN-COUNT"@
    ||| name == "CHILDREN-COUNT-MINUS-ONE"@
    ||| name == "PARENT"@
}

/// Whether `name` is one of the names that the environment supplies.
pub fn special_variable(name: &str) -> (r: bool)
    ensures
        r == is_special_variable(name@),
{
    str_eq(name, "MOUSE-IN") || str_eq(name, "SIBLING-INDEX") || str_eq(name, "SIBLING-INDEX-0")
        || str_eq(name, "CHILDREN-COUNT") || str_eq(name, "CHILDREN-COUNT-MINUS-ONE") || str_eq(
        name,
        "PARENT",
    )
}

} // verus!
