//! Character-level text primitives. Every executable function here is stated
//! against a specification over `Seq<char>`, the view of `str` and `String`.

use vstd::prelude::*;

verus! {

/// `String::push` appends one character to the end of the string.
pub assume_specification[ std::string::String::push ](s: &mut std::string::String, c: char)
    ensures
        final(s)@ == old(s)@.push(c),
;

/// `pat` occurs in `s` starting at position `i`.
pub open spec fn matches_at(s: Seq<char>, pat: Seq<char>, i: int) -> bool {
    0 <= i && i + pat.len() <= s.len() && s.subrange(i, i + pat.len()) == pat
}

/// Position of the first occurrence of `pat` in `s` at or after `from`, or -1.
pub open spec fn first_match_from(s: Seq<char>, pat: Seq<char>, from: int) -> int
    decreases s.len() - from + 1,
{
    if from < 0 || from + pat.len() > s.len() {
        -1
    } else if matches_at(s, pat, from) {
        from
    } else {
        first_match_from(s, pat, from + 1)
    }
}

/// Position of the first occurrence of `pat` in `s`, or -1.
pub open spec fn first_match(s: Seq<char>, pat: Seq<char>) -> int {
    first_match_from(s, pat, 0)
}

/// Position of the last occurrence of `pat` in `s` that starts at or before
/// `upto`, or -1.
pub open spec fn last_match_upto(s: Seq<char>, pat: Seq<char>, upto: int) -> int
    decreases upto + 1,
{
    if upto < 0 {
        -1
    } else if matches_at(s, pat, upto) {
        upto
    } else {
        last_match_upto(s, pat, upto - 1)
    }
}

/// Position of the last occurrence of `pat` in `s`, or -1.
pub open spec fn last_match(s: Seq<char>, pat: Seq<char>) -> int {
    last_match_upto(s, pat, s.len() - pat.len())
}

/// The parts of `s` before and after the first occurrence of `pat`.
pub open spec fn split_once(s: Seq<char>, pat: Seq<char>) -> Option<(Seq<char>, Seq<char>)> {
    let i = first_match(s, pat);
    if i < 0 {
        None
    } else {
        Some((s.subrange(0, i), s.subrange(i + pat.len(), s.len() as int)))
    }
}

/// The parts of `s` before and after the last occurrence of `pat`.
pub open spec fn rsplit_once(s: Seq<char>, pat: Seq<char>) -> Option<(Seq<char>, Seq<char>)> {
    let i = last_match(s, pat);
    if i < 0 {
        None
    } else {
        Some((s.subrange(0, i), s.subrange(i + pat.len(), s.len() as int)))
    }
}

/// `s` begins with `pat`.
pub open spec fn has_prefix(s: Seq<char>, pat: Seq<char>) -> bool {
    matches_at(s, pat, 0)
}

/// `s` ends with `pat`.
pub open spec fn has_suffix(s: Seq<char>, pat: Seq<char>) -> bool {
    matches_at(s, pat, s.len() - pat.len())
}

/// `s` without the leading `pat`, if it begins with it.
pub open spec fn strip_prefix(s: Seq<char>, pat: Seq<char>) -> Option<Seq<char>> {
    if has_prefix(s, pat) {
        Some(s.subrange(pat.len() as int, s.len() as int))
    } else {
        None
    }
}

/// The characters with the Unicode property `White_Space`.
pub open spec fn is_whitespace(c: char) -> bool {
    let n = c as u32;
    ||| 0x09 <= n <= 0x0D
    ||| n == 0x20
    ||| n == 0x85
    ||| n == 0xA0
    ||| n == 0x1680
    ||| 0x2000 <= n <= 0x200A
    ||| n == 0x2028
    ||| n == 0x2029
    ||| n == 0x202F
    ||| n == 0x205F
    ||| n == 0x3000
}

/// First position at or after `from` that holds no whitespace, or the length.
pub open spec fn skip_whitespace(s: Seq<char>, from: int) -> int
    decreases s.len() - from,
{
    if from < 0 || from >= s.len() {
        s.len() as int
    } else if !is_whitespace(s[from]) {
        from
    } else {
        skip_whitespace(s, from + 1)
    }
}

/// End of the text once trailing whitespace is dropped, never below `low`.
pub open spec fn skip_whitespace_back(s: Seq<char>, low: int, end: int) -> int
    decreases end,
{
    if end <= low || end <= 0 || end > s.len() {
        low
    } else if !is_whitespace(s[end - 1]) {
        end
    } else {
        skip_whitespace_back(s, low, end - 1)
    }
}

/// `s` without leading and trailing whitespace.
pub open spec fn trimmed(s: Seq<char>) -> Seq<char> {
    let a = skip_whitespace(s, 0);
    let b = skip_whitespace_back(s, a, s.len() as int);
    s.subrange(a, b)
}

/// The characters of a string slice, in order.
pub fn to_chars(s: &str) -> (r: Vec<char>)
    ensures
        r@ == s@,
{
    let mut out: Vec<char> = Vec::new();
    for c in it: s.chars()
        invariant
            out@ == it.seq().subrange(0, it.index() as int),
            it.seq() == s@,
    {
        out.push(c);
    }
    assert(out@ =~= s@);
    out
}

/// The text made of the characters `chars[from..to]`.
pub fn string_from(chars: &Vec<char>, from: usize, to: usize) -> (r: String)
    requires
        from <= to <= chars.len(),
    ensures
        r@ == chars@.subrange(from as int, to as int),
{
    let mut out = String::new();
    let mut i: usize = from;
    while i < to
        invariant
            from <= i <= to <= chars.len(),
            out@ == chars@.subrange(from as int, i as int),
        decreases to - i,
    {
        out.push(chars[i]);
        assert(chars@.subrange(from as int, i as int).push(chars@[i as int])
            =~= chars@.subrange(from as int, i + 1));
        i += 1;
    }
    out
}

/// Whether two string slices hold the same characters.
pub fn str_eq(a: &str, b: &str) -> (r: bool)
    ensures
        r == (a@ == b@),
{
    let x = a.to_owned();
    let y = b.to_owned();
    x == y
}

/// Whether `pat` occurs in `s` at position `i`.
pub fn chars_match_at(s: &Vec<char>, pat: &Vec<char>, i: usize) -> (r: bool)
    ensures
        r == matches_at(s@, pat@, i as int),
{
    if pat.len() > s.len() || i > s.len() - pat.len() {
        return false;
    }
    let mut k: usize = 0;
    while k < pat.len()
        invariant
            k <= pat.len(),
            i + pat.len() <= s.len(),
            forall|j: int| 0 <= j < k ==> s@[i + j] == pat@[j],
        decreases pat.len() - k,
    {
        if s[i + k] != pat[k] {
            assert(s@.subrange(i as int, i + pat.len())[k as int] != pat@[k as int]);
            return false;
        }
        k += 1;
    }
    assert(s@.subrange(i as int, i + pat.len()) =~= pat@);
    true
}

/// Position of the first occurrence of `pat` in `s` at or after `from`.
pub fn chars_find_from(s: &Vec<char>, pat: &Vec<char>, from: usize) -> (r: Option<usize>)
    ensures
        match r {
            Some(i) => i as int == first_match_from(s@, pat@, from as int),
            None => first_match_from(s@, pat@, from as int) == -1,
        },
{
    if pat.len() > s.len() || from > s.len() - pat.len() {
        return None;
    }
    let last: usize = s.len() - pat.len();
    let mut i: usize = from;
    loop
        invariant
            from <= i <= last,
            last == s.len() - pat.len(),
            first_match_from(s@, pat@, from as int) == first_match_from(s@, pat@, i as int),
        decreases last - i,
    {
        if chars_match_at(s, pat, i) {
            return Some(i);
        }
        if i == last {
            assert(first_match_from(s@, pat@, i + 1) == -1);
            return None;
        }
        i += 1;
    }
}

/// Position of the first occurrence of `pat` in `s`.
pub fn chars_find(s: &Vec<char>, pat: &Vec<char>) -> (r: Option<usize>)
    ensures
        match r {
            Some(i) => i as int == first_match(s@, pat@) && i + pat.len() <= s.len(),
            None => first_match(s@, pat@) == -1,
        },
{
    let r = chars_find_from(s, pat, 0);
    proof {
        lemma_first_match_bounds(s@, pat@, 0);
    }
    r
}

/// A first occurrence, where there is one, lies at or after `from` and
/// inside the text.
pub proof fn lemma_first_match_bounds(s: Seq<char>, pat: Seq<char>, from: int)
    requires
        0 <= from,
    ensures
        first_match_from(s, pat, from) == -1 || (from <= first_match_from(s, pat, from)
            && first_match_from(s, pat, from) + pat.len() <= s.len()
            && matches_at(s, pat, first_match_from(s, pat, from))),
    decreases s.len() - from + 1,
{
    if from + pat.len() <= s.len() && !matches_at(s, pat, from) {
        lemma_first_match_bounds(s, pat, from + 1);
    }
}

/// Position of the last occurrence of `pat` in `s`.
pub fn chars_rfind(s: &Vec<char>, pat: &Vec<char>) -> (r: Option<usize>)
    ensures
        match r {
            Some(i) => i as int == last_match(s@, pat@) && i + pat.len() <= s.len(),
            None => last_match(s@, pat@) == -1,
        },
{
    if pat.len() > s.len() {
        return None;
    }
    let mut i: usize = s.len() - pat.len();
    loop
        invariant
            i + pat.len() <= s.len(),
            last_match(s@, pat@) == last_match_upto(s@, pat@, i as int),
        decreases i,
    {
        if chars_match_at(s, pat, i) {
            return Some(i);
        }
        if i == 0 {
            assert(last_match_upto(s@, pat@, -1) == -1);
            return None;
        }
        i -= 1;
    }
}

/// Splits at the first occurrence of `pat`.
pub fn str_split_once(s: &str, pat: &str) -> (r: Option<(String, String)>)
    ensures
        match r {
            Some((a, b)) => split_once(s@, pat@) == Some((a@, b@)),
            None => split_once(s@, pat@).is_none(),
        },
{
    let sc = to_chars(s);
    let pc = to_chars(pat);
    match chars_find(&sc, &pc) {
        Some(i) => Some((string_from(&sc, 0, i), string_from(&sc, i + pc.len(), sc.len()))),
        None => None,
    }
}

/// Splits at the last occurrence of `pat`.
pub fn str_rsplit_once(s: &str, pat: &str) -> (r: Option<(String, String)>)
    ensures
        match r {
            Some((a, b)) => rsplit_once(s@, pat@) == Some((a@, b@)),
            None => rsplit_once(s@, pat@).is_none(),
        },
{
    let sc = to_chars(s);
    let pc = to_chars(pat);
    match chars_rfind(&sc, &pc) {
        Some(i) => Some((string_from(&sc, 0, i), string_from(&sc, i + pc.len(), sc.len()))),
        None => None,
    }
}

/// Whether `s` begins with `pat`.
pub fn str_starts_with(s: &str, pat: &str) -> (r: bool)
    ensures
        r == has_prefix(s@, pat@),
{
    let sc = to_chars(s);
    let pc = to_chars(pat);
    chars_match_at(&sc, &pc, 0)
}

/// Whether `s` ends with `pat`.
pub fn str_ends_with(s: &str, pat: &str) -> (r: bool)
    ensures
        r == has_suffix(s@, pat@),
{
    let sc = to_chars(s);
    let pc = to_chars(pat);
    if pc.len() > sc.len() {
        return false;
    }
    chars_match_at(&sc, &pc, sc.len() - pc.len())
}

/// `s` without the leading `pat`, if it begins with it.
pub fn str_strip_prefix(s: &str, pat: &str) -> (r: Option<String>)
    ensures
        match r {
            Some(rest) => strip_prefix(s@, pat@) == Some(rest@),
            None => strip_prefix(s@, pat@).is_none(),
        },
{
    let sc = to_chars(s);
    let pc = to_chars(pat);
    if chars_match_at(&sc, &pc, 0) {
        Some(string_from(&sc, pc.len(), sc.len()))
    } else {
        None
    }
}

/// Whether `c` has the Unicode property `White_Space`.
pub fn char_is_whitespace(c: char) -> (r: bool)
    ensures
        r == is_whitespace(c),
{
    let n: u32 = c as u32;
    (0x09 <= n && n <= 0x0D) || n == 0x20 || n == 0x85 || n == 0xA0 || n == 0x1680 || (0x2000 <= n
        && n <= 0x200A) || n == 0x2028 || n == 0x2029 || n == 0x202F || n == 0x205F || n == 0x3000
}

/// `s` without leading and trailing whitespace.
pub fn str_trim(s: &str) -> (r: String)
    ensures
        r@ == trimmed(s@),
{
    let sc = to_chars(s);
    let n = sc.len();
    let mut a: usize = 0;
    while a < n && char_is_whitespace(sc[a])
        invariant
            a <= n,
            n == sc.len(),
            skip_whitespace(sc@, 0) == skip_whitespace(sc@, a as int),
        decreases n - a,
    {
        a += 1;
    }
    let mut b: usize = n;
    while b > a && char_is_whitespace(sc[b - 1])
        invariant
            a <= b <= n,
            n == sc.len(),
            skip_whitespace_back(sc@, a as int, n as int) == skip_whitespace_back(
                sc@,
                a as int,
                b as int,
            ),
        decreases b,
    {
        b -= 1;
    }
    string_from(&sc, a, b)
}

/// The text `a` followed by the text `b`.
pub fn concat2(a: &str, b: &str) -> (r: String)
    ensures
        r@ == a@ + b@,
{
    let mut out = a.to_owned();
    out.append(b);
    out
}

/// The texts `a`, `b` and `c` in a row.
pub fn concat3(a: &str, b: &str, c: &str) -> (r: String)
    ensures
        r@ == a@ + b@ + c@,
{
    let mut out = a.to_owned();
    out.append(b);
    out.append(c);
    out
}

} // verus!
