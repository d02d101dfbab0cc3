//! Text helpers for generated identifiers and scripts.

use vstd::prelude::*;
use crate::text::{
    chars_find_from,
    chars_match_at,
    concat3,
    first_match_from,
    lemma_first_match_bounds,
    matches_at,
    rsplit_once,
    split_once,
    str_eq,
    str_rsplit_once,
    str_split_once,
    str_trim,
    string_from,
    to_chars,
    trimmed,
};
use crate::value::texts;

verus! {

/// The texts of `parts` from position `from` on, with `sep` between them.
pub open spec fn joined_from(parts: Seq<Seq<char>>, sep: Seq<char>, from: int) -> Seq<char>
    decreases parts.len() - from,
{
    if from < 0 || from >= parts.len() {
        Seq::empty()
    } else if from == parts.len() - 1 {
        parts[from]
    } else {
        parts[from] + sep + joined_from(parts, sep, from + 1)
    }
}

/// The texts of `parts` in a row, with `sep` between them.
pub open spec fn joined(parts: Seq<Seq<char>>, sep: Seq<char>) -> Seq<char> {
    joined_from(parts, sep, 0)
}

/// `itertools::Itertools::join` over the texts of `parts`: the texts in
/// their order, with `sep` between each two of them, and the empty text for
/// no parts.
#[verifier::external_body]
pub(crate) fn join(parts: &Vec<String>, sep: &str) -> (r: String)
    ensures
        r@ == joined(texts(parts@), sep@),
{
    itertools::Itertools::join(&mut parts.iter(), sep)
}

/// The parts of `s` between the occurrences of `sep` from `start` on.
pub open spec fn split_from(s: Seq<char>, sep: Seq<char>, start: int) -> Seq<Seq<char>>
    decreases s.len() - start,
{
    let i = first_match_from(s, sep, start);
    if i < start || start < 0 || i + sep.len() > s.len() || sep.len() == 0 {
        seq![s.subrange(start, s.len() as int)]
    } else {
        seq![s.subrange(start, i)] + split_from(s, sep, i + sep.len())
    }
}

/// The parts of `s` between the occurrences of `sep`.
pub fn split(s: &str, sep: &str) -> (r: Vec<String>)
    requires
        sep@.len() > 0,
    ensures
        texts(r@) == split_from(s@, sep@, 0),
{
    let chars = to_chars(s);
    let pat = to_chars(sep);
    let mut out: Vec<String> = Vec::new();
    let mut start: usize = 0;
    assert(texts(out@) =~= Seq::<Seq<char>>::empty());
    loop
        invariant
            start <= chars.len(),
            chars@ == s@,
            pat@ == sep@,
            sep@.len() > 0,
            split_from(s@, sep@, 0) == texts(out@) + split_from(s@, sep@, start as int),
        decreases chars.len() - start,
    {
        proof {
            lemma_first_match_bounds(s@, sep@, start as int);
        }
        let ghost before = texts(out@);
        match chars_find_from(&chars, &pat, start) {
            Some(i) => {
                out.push(string_from(&chars, start, i));
                assert(texts(out@) =~= before + seq![s@.subrange(start as int, i as int)]);
                start = i + pat.len();
            },
            None => {
                out.push(string_from(&chars, start, chars.len()));
                assert(texts(out@) =~= before + seq![s@.subrange(start as int, s@.len() as int)]);
                return out;
            },
        }
    }
}

/// The trimmed forms of the texts of `parts`.
pub open spec fn all_trimmed(parts: Seq<Seq<char>>) -> Seq<Seq<char>> {
    Seq::new(parts.len(), |i: int| trimmed(parts[i]))
}

/// The text with every line cleared of the whitespace around it.
pub fn trim_all_lines(s: &str) -> (r: String)
    ensures
        r@ == joined(all_trimmed(split_from(s@, seq!['\n'], 0)), seq!['\n']),
{
    proof {
        reveal_strlit("\n");
        assert("\n"@ =~= seq!['\n']);
    }
    let lines = split(s, "\n");
    let mut out: Vec<String> = Vec::new();
    let mut i: usize = 0;
    while i < lines.len()
        invariant
            i <= lines.len(),
            out.len() == i,
            forall|j: int| 0 <= j < i ==> out[j]@ == trimmed(lines[j]@),
        decreases lines.len() - i,
    {
        out.push(str_trim(lines[i].as_str()));
        i += 1;
    }
    assert(texts(out@) =~= all_trimmed(texts(lines@)));
    join(&out, "\n")
}

/// What follows the first occurrence of `matches` in `s`; `s` itself where
/// `matches` does not occur.
pub fn trim_start_once(s: &str, matches: &str) -> (r: String)
    ensures
        r@ == match split_once(s@, matches@) {
            Some((_, after)) => after,
            None => s@,
        },
{
    match str_split_once(s, matches) {
        Some((_, after)) => after,
        None => s.to_owned(),
    }
}

/// What precedes the last occurrence of `matches` in `s`; `s` itself where
/// `matches` does not occur.
pub fn trim_end_once(s: &str, matches: &str) -> (r: String)
    ensures
        r@ == match rsplit_once(s@, matches@) {
            Some((before, _)) => before,
            None => s@,
        },
{
    match str_rsplit_once(s, matches) {
        Some((before, _)) => before,
        None => s.to_owned(),
    }
}

/// Whether `s` is a text of at least two characters in round brackets.
pub open spec fn in_brackets(s: Seq<char>) -> bool {
    s.len() >= 2 && s[0] == '(' && s[s.len() - 1] == ')'
}

/// The text without the round brackets around it, if it has them.
pub fn trim_brackets(s: &str) -> (r: String)
    ensures
        r@ == if in_brackets(s@) {
            s@.subrange(1, s@.len() - 1)
        } else {
            s@
        },
{
    let chars = to_chars(s);
    let n = chars.len();
    if n >= 2 && chars[0] == '(' && chars[n - 1] == ')' {
        string_from(&chars, 1, n - 1)
    } else {
        s.to_owned()
    }
}

/// The name of a node: `s`, a colon, `id`.
pub fn name_with_id(s: &str, id: &str) -> (r: String)
    ensures
        r@ == s@ + seq![':'] + id@,
{
    proof {
        reveal_strlit(":");
        assert(":"@ =~= seq![':']);
    }
    concat3(s, ":", id)
}

/// `s` from position `from` on, with every occurrence of `pat` replaced by
/// `to`, the occurrences taken from the left without overlap.
pub open spec fn replaced_from(s: Seq<char>, pat: Seq<char>, to: Seq<char>, from: int) -> Seq<char>
    decreases s.len() - from,
{
    if from < 0 || from >= s.len() {
        Seq::empty()
    } else if pat.len() > 0 && matches_at(s, pat, from) {
        to + replaced_from(s, pat, to, from + pat.len())
    } else {
        seq![s[from]] + replaced_from(s, pat, to, from + 1)
    }
}

/// `s` with every occurrence of `pat` replaced by `to`.
pub open spec fn replaced(s: Seq<char>, pat: Seq<char>, to: Seq<char>) -> Seq<char> {
    replaced_from(s, pat, to, 0)
}

/// `s` with every occurrence of `pat` replaced by `to`.
pub fn replace(s: &str, pat: &str, to: &str) -> (r: String)
    requires
        pat@.len() > 0,
    ensures
        r@ == replaced(s@, pat@, to@),
{
    let chars = to_chars(s);
    let p = to_chars(pat);
    let mut out = String::new();
    let mut i: usize = 0;
    while i < chars.len()
        invariant
            i <= chars.len(),
            chars@ == s@,
            p@ == pat@,
            pat@.len() > 0,
            replaced(s@, pat@, to@) == out@ + replaced_from(s@, pat@, to@, i as int),
        decreases chars.len() - i,
    {
        let ghost before = out@;
        if chars_match_at(&chars, &p, i) {
            out.append(to);
            assert(out@ + replaced_from(s@, pat@, to@, i + pat@.len()) =~= before + (to@
                + replaced_from(s@, pat@, to@, i + pat@.len())));
            i += p.len();
        } else {
            out.push(chars[i]);
            assert(out@ + replaced_from(s@, pat@, to@, i + 1) =~= before + (seq![s@[i as int]]
                + replaced_from(s@, pat@, to@, i + 1)));
            i += 1;
        }
    }
    assert(out@ + Seq::<char>::empty() =~= out@);
    out
}

/// The name under which a function of the document is known to the
/// script: `#` becomes two underscores, `-` one, `:` three, `,` a dollar
/// sign, and every backslash, pair of backslashes, slash and dot an
/// underscore.
pub open spec fn js_function_name(s: Seq<char>) -> Seq<char> {
    let a = replaced(s, seq!['#'], seq!['_', '_']);
    let b = replaced(a, seq!['-'], seq!['_']);
    let c = replaced(b, seq![':'], seq!['_', '_', '_']);
    let d = replaced(c, seq![','], seq!['$']);
    let e = replaced(d, seq!['\\', '\\'], seq!['/']);
    let f = replaced(e, seq!['\\'], seq!['/']);
    let g = replaced(f, seq!['/'], seq!['_']);
    replaced(g, seq!['.'], seq!['_'])
}

/// The name under which a function of the document is known to the script.
pub fn function_name_to_js_function(s: &str) -> (r: String)
    ensures
        r@ == js_function_name(s@),
{
    proof {
        reveal_strlit("#");
        reveal_strlit("__");
        reveal_strlit("-");
        reveal_strlit("_");
        reveal_strlit(":");
        reveal_strlit("___");
        reveal_strlit(",");
        reveal_strlit("$");
        reveal_strlit("\\\\");
        reveal_strlit("\\");
        reveal_strlit("/");
        reveal_strlit(".");
        assert("#"@ =~= seq!['#']);
        assert("__"@ =~= seq!['_', '_']);
        assert("-"@ =~= seq!['-']);
        assert("_"@ =~= seq!['_']);
        assert(":"@ =~= seq![':']);
        assert("___"@ =~= seq!['_', '_', '_']);
        assert(","@ =~= seq![',']);
        assert("$"@ =~= seq!['$']);
        assert("\\\\"@ =~= seq!['\\', '\\']);
        assert("\\"@ =~= seq!['\\']);
        assert("/"@ =~= seq!['/']);
        assert("."@ =~= seq!['.']);
    }
    let a = replace(s, "#", "__");
    let b = replace(a.as_str(), "-", "_");
    let c = replace(b.as_str(), ":", "___");
    let d = replace(c.as_str(), ",", "$");
    let e = replace(d.as_str(), "\\\\", "/");
    let f = replace(e.as_str(), "\\", "/");
    let g = replace(f.as_str(), "/", "_");
    replace(g.as_str(), ".", "_")
}

/// The name of a reference as the script writes it: a backslash or a pair
/// of backslashes becomes a slash.
pub open spec fn js_name(s: Seq<char>) -> Seq<char> {
    replaced(replaced(s, seq!['\\', '\\'], seq!['/']), seq!['\\'], seq!['/'])
}

/// The name of a reference as the script writes it.
pub fn js_reference_name(s: &str) -> (r: String)
    ensures
        r@ == js_name(s@),
{
    proof {
        reveal_strlit("\\\\");
        reveal_strlit("\\");
        reveal_strlit("/");
        assert("\\\\"@ =~= seq!['\\', '\\']);
        assert("\\"@ =~= seq!['\\']);
        assert("/"@ =~= seq!['/']);
    }
    let e = replace(s, "\\\\", "/");
    replace(e.as_str(), "\\", "/")
}

/// The full id of a node: `id` alone where `data_id` is blank, else
/// `data_id`, a colon, `id`.
pub fn full_data_id(id: &str, data_id: &str) -> (r: String)
    ensures
        r@ == if trimmed(data_id@).len() == 0 {
            id@
        } else {
            data_id@ + seq![':'] + id@
        },
{
    proof {
        reveal_strlit(":");
        assert(":"@ =~= seq![':']);
    }
    let t = str_trim(data_id);
    if t.as_str().unicode_len() == 0 {
        id.to_owned()
    } else {
        concat3(data_id, ":", id)
    }
}

/// The id of a change of the attribute `attr` of the node `id`.
pub fn node_change_id(id: &str, attr: &str) -> (r: String)
    ensures
        r@ == id@ + seq!['_', '_'] + attr@,
{
    proof {
        reveal_strlit("__");
        assert("__"@ =~= seq!['_', '_']);
    }
    concat3(id, "__", attr)
}

/// The name that a keyboard event gives to the key that a document calls
/// `key`.
pub open spec fn key_name(key: Seq<char>) -> Seq<char> {
    if key == "ctrl"@ {
        "Control"@
    } else if key == "alt"@ {
        "Alt"@
    } else if key == "shift"@ {
        "Shift"@
    } else if key == "up"@ {
        "ArrowUp"@
    } else if key == "down"@ {
        "ArrowDown"@
    } else if key == "right"@ {
        "ArrowRight"@
    } else if key == "left"@ {
        "ArrowLeft"@
    } else if key == "esc"@ {
        "Escape"@
    } else if key == "dash"@ {
        "-"@
    } else if key == "space"@ {
        " "@
    } else {
        key
    }
}

/// The name that a keyboard event gives to a key.
pub fn to_key(key: &str) -> (r: String)
    ensures
        r@ == key_name(key@),
{
    if str_eq(key, "ctrl") {
        "Control".to_owned()
    } else if str_eq(key, "alt") {
        "Alt".to_owned()
    } else if str_eq(key, "shift") {
        "Shift".to_owned()
    } else if str_eq(key, "up") {
        "ArrowUp".to_owned()
    } else if str_eq(key, "down") {
        "ArrowDown".to_owned()
    } else if str_eq(key, "right") {
        "ArrowRight".to_owned()
    } else if str_eq(key, "left") {
        "ArrowLeft".to_owned()
    } else if str_eq(key, "esc") {
        "Escape".to_owned()
    } else if str_eq(key, "dash") {
        "-".to_owned()
    } else if str_eq(key, "space") {
        " ".to_owned()
    } else {
        key.to_owned()
    }
}

} // verus!
