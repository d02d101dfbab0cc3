//! A table from names to lists of values.

use vstd::prelude::*;
use vstd::std_specs::cmp::PartialEqSpec;
use crate::text::{has_prefix, str_eq, str_starts_with, to_chars, concat2};
use crate::thing::{entries_map, last_entry, lemma_entries_map_prefix, lemma_entries_map_update};

verus! {

/// Whether the text `a` comes before the text `b` in the order of texts:
/// at the first position where they differ `a` has the lesser character,
/// or `a` ends there.
pub open spec fn text_lt(a: Seq<char>, b: Seq<char>) -> bool
    decreases a.len(),
{
    if b.len() == 0 {
        false
    } else if a.len() == 0 {
        true
    } else if a[0] != b[0] {
        (a[0] as u32) < (b[0] as u32)
    } else {
        text_lt(a.drop_first(), b.drop_first())
    }
}

/// Whether `a` comes before `b` in the order of texts from position `from`
/// on, given that they agree before it.
pub open spec fn text_lt_from(a: Seq<char>, b: Seq<char>, from: int) -> bool
    decreases a.len() - from,
{
    if from < 0 || from >= b.len() {
        false
    } else if from >= a.len() {
        true
    } else if a[from] != b[from] {
        (a[from] as u32) < (b[from] as u32)
    } else {
        text_lt_from(a, b, from + 1)
    }
}

proof fn lemma_text_lt_from(a: Seq<char>, b: Seq<char>, from: int)
    requires
        0 <= from <= a.len(),
        from <= b.len(),
    ensures
        text_lt_from(a, b, from) == text_lt(
            a.subrange(from, a.len() as int),
            b.subrange(from, b.len() as int),
        ),
    decreases a.len() - from,
{
    let x = a.subrange(from, a.len() as int);
    let y = b.subrange(from, b.len() as int);
    if from < b.len() && from < a.len() && a[from] == b[from] {
        lemma_text_lt_from(a, b, from + 1);
        assert(x.drop_first() =~= a.subrange(from + 1, a.len() as int));
        assert(y.drop_first() =~= b.subrange(from + 1, b.len() as int));
    }
}

/// Whether the text `a` comes before the text `b`.
pub fn text_less(a: &str, b: &str) -> (r: bool)
    ensures
        r == text_lt(a@, b@),
{
    let x = to_chars(a);
    let y = to_chars(b);
    let mut i: usize = 0;
    proof {
        lemma_text_lt_from(a@, b@, 0);
        assert(a@.subrange(0, a@.len() as int) =~= a@);
        assert(b@.subrange(0, b@.len() as int) =~= b@);
    }
    while i < x.len() && i < y.len()
        invariant
            i <= x.len(),
            i <= y.len(),
            x@ == a@,
            y@ == b@,
            text_lt(a@, b@) == text_lt_from(a@, b@, i as int),
        decreases x.len() - i,
    {
        if x[i] != y[i] {
            return (x[i] as u32) < (y[i] as u32);
        }
        i += 1;
    }
    i < y.len()
}

/// Whether an entry under the name `k` answers a request for `key`: the
/// names are equal, or `k` begins with `key.`.
pub open spec fn answers(k: Seq<char>, key: Seq<char>) -> bool {
    k == key || has_prefix(k, key + seq!['.'])
}

/// Whether `k` is the first name of the table, in the order of texts, that
/// answers a request for `key`.
pub open spec fn first_answer<T>(m: Map<Seq<char>, Seq<T>>, k: Seq<char>, key: Seq<char>) -> bool {
    &&& m.contains_key(k)
    &&& answers(k, key)
    &&& forall|other: Seq<char>|
        m.contains_key(other) && answers(other, key) && other != k ==> text_lt(k, other)
}

/// A table from names to lists of values. Each name occurs once.
#[derive(Debug, PartialEq)]
pub struct VecMap<T> {
    value: Vec<(String, Vec<T>)>,
}

impl<T> View for VecMap<T> {
    type V = Map<Seq<char>, Seq<T>>;

    closed spec fn view(&self) -> Map<Seq<char>, Seq<T>> {
        entries_map(self.value@)
    }
}

impl<T> VecMap<T> {
    /// No name occurs twice among the entries.
    #[verifier::type_invariant]
    closed spec fn unique(&self) -> bool {
        forall|i: int, j: int|
            0 <= i < j < self.value.len() ==> self.value[i].0@ != self.value[j].0@
    }

    /// The empty table.
    pub fn new() -> (r: VecMap<T>)
        ensures
            r@ == Map::<Seq<char>, Seq<T>>::empty(),
    {
        VecMap { value: Vec::new() }
    }

    fn position(&self, key: &str) -> (r: Option<usize>)
        ensures
            match r {
                Some(i) => i < self.value.len() && self.value[i as int].0@ == key@ && i as int
                    == last_entry(self.value@, key@, self.value.len() as int),
                None => last_entry(self.value@, key@, self.value.len() as int) == -1,
            },
    {
        let mut i: usize = self.value.len();
        while i > 0
            invariant
                i <= self.value.len(),
                last_entry(self.value@, key@, self.value.len() as int) == last_entry(
                    self.value@,
                    key@,
                    i as int,
                ),
            decreases i,
        {
            if str_eq(self.value[i - 1].0.as_str(), key) {
                return Some(i - 1);
            }
            i -= 1;
        }
        None
    }

    /// The values under the name `key` with `more` after them, or `more`
    /// alone where the table has no such name.
    pub open spec fn extended(m: Map<Seq<char>, Seq<T>>, key: Seq<char>, more: Seq<T>) -> Map<
        Seq<char>,
        Seq<T>,
    > {
        if m.contains_key(key) {
            m.insert(key, m[key] + more)
        } else {
            m.insert(key, more)
        }
    }

    /// Puts the values of `value` after those that `key` has.
    pub fn extend(&mut self, key: String, value: Vec<T>)
        ensures
            final(self)@ == Self::extended(old(self)@, key@, value@),
    {
        proof {
            use_type_invariant(&*self);
            lemma_entries_map_prefix(self.value@, key@, self.value.len() as int);
            assert(self.value@.subrange(0, self.value.len() as int) =~= self.value@);
        }
        match self.position(key.as_str()) {
            Some(i) => {
                let ghost before = self.value@;
                let mut entries: Vec<(String, Vec<T>)> = Vec::new();
                core::mem::swap(&mut entries, &mut self.value);
                let entry = entries.remove(i);
                let mut values = entry.1;
                let mut more = value;
                values.append(&mut more);
                entries.insert(i, (key, values));
                proof {
                    assert(entries@ =~= before.update(i as int, (key, values)));
                    lemma_entries_map_update(before, i as int, (key, values));
                    assert forall|a: int, b: int| 0 <= a < b < entries.len() implies entries[a].0@
                        != entries[b].0@ by {
                        assert(before[a].0@ != before[b].0@);
                    }
                }
                self.value = entries;
            },
            None => {
                let ghost before = self.value@;
                let mut entries: Vec<(String, Vec<T>)> = Vec::new();
                core::mem::swap(&mut entries, &mut self.value);
                entries.push((key, value));
                proof {
                    assert(entries@.drop_last() =~= before);
                    assert forall|a: int, b: int| 0 <= a < b < entries.len() implies entries[a].0@
                        != entries[b].0@ by {
                        if b < before.len() {
                            assert(before[a].0@ != before[b].0@);
                        } else {
                            lemma_no_entry(before, key@, before.len() as int, a);
                        }
                    }
                }
                self.value = entries;
            },
        }
    }

    /// Puts `value` after the values that `key` has.
    pub fn insert(&mut self, key: String, value: T)
        ensures
            final(self)@ == Self::extended(old(self)@, key@, seq![value]),
    {
        let mut one: Vec<T> = Vec::new();
        one.push(value);
        assert(one@ =~= seq![value]);
        self.extend(key, one);
    }

    /// A copy-free look at the values under the first name, in the order
    /// of texts, that is `key` or begins with `key.`; nothing where no name
    /// does.
    pub fn get_value(&self, key: &str) -> (r: Vec<&T>)
        ensures
            (forall|k: Seq<char>| self@.contains_key(k) ==> !answers(k, key@)) ==> r.len() == 0,
            forall|k: Seq<char>|
                first_answer(self@, k, key@) ==> r.len() == self@[k].len() && forall|j: int|
                    0 <= j < r.len() ==> *r[j] == self@[k][j],
    {
        proof {
            use_type_invariant(self);
            reveal_strlit(".");
            assert("."@ =~= seq!['.']);
        }
        let dotted = concat2(key, ".");
        let mut best: Option<usize> = None;
        let mut i: usize = 0;
        while i < self.value.len()
            invariant
                i <= self.value.len(),
                dotted@ == key@ + seq!['.'],
                match best {
                    Some(b) => b < i && answers(self.value[b as int].0@, key@) && forall|j: int|
                        0 <= j < i && answers(#[trigger] self.value[j].0@, key@) && j != b
                            ==> text_lt(self.value[b as int].0@, self.value[j].0@),
                    None => forall|j: int| 0 <= j < i ==> !answers(#[trigger] self.value[j].0@, key@),
                },
                forall|a: int, b: int|
                    0 <= a < b < self.value.len() ==> self.value[a].0@ != self.value[b].0@,
            decreases self.value.len() - i,
        {
            let name = self.value[i].0.as_str();
            if str_eq(name, key) || str_starts_with(name, dotted.as_str()) {
                match best {
                    Some(b) => {
                        let current = self.value[b].0.as_str();
                        proof {
                            lemma_text_order(name@, current@);
                        }
                        if text_less(name, current) {
                            proof {
                                assert forall|j: int|
                                    0 <= j < i + 1 && answers(#[trigger] self.value[j].0@, key@)
                                        && j != i implies text_lt(name@, self.value[j].0@) by {
                                    if j != b {
                                        lemma_text_lt_transitive(
                                            name@,
                                            current@,
                                            self.value[j].0@,
                                        );
                                    }
                                }
                            }
                            best = Some(i);
                        }
                    },
                    None => {
                        best = Some(i);
                    },
                }
            }
            i += 1;
        }
        let mut out: Vec<&T> = Vec::new();
        match best {
            Some(b) => {
                let values = &self.value[b].1;
                let mut j: usize = 0;
                while j < values.len()
                    invariant
                        j <= values.len(),
                        out.len() == j,
                        forall|x: int| 0 <= x < j ==> *out[x] == values[x],
                    decreases values.len() - j,
                {
                    out.push(&values[j]);
                    j += 1;
                }
                proof {
                    assert forall|k: Seq<char>| first_answer(self@, k, key@) implies out.len()
                        == self@[k].len() && forall|x: int|
                        0 <= x < out.len() ==> *out[x] == self@[k][x] by {
                        lemma_entries_map_prefix(self.value@, k, self.value.len() as int);
                        assert(self.value@.subrange(0, self.value.len() as int) =~= self.value@);
                        let at = last_entry(self.value@, k, self.value.len() as int);
                        let name = self.value[b as int].0@;
                        lemma_entries_map_prefix(self.value@, name, self.value.len() as int);
                        lemma_contains(self.value@, b as int, self.value.len() as int);
                        assert(self@.contains_key(name));
                        assert(0 <= at < self.value.len());
                        assert(self.value[at].0@ == k);
                        if at != b {
                            assert(k != name);
                            assert(text_lt(k, name));
                            assert(answers(self.value[at].0@, key@));
                            assert(text_lt(name, self.value[at].0@));
                            lemma_text_asymmetric(k, name);
                        }
                        assert(self@[k] == self.value[b as int].1@);
                    }
                }
            },
            None => {
                proof {
                    assert forall|k: Seq<char>| first_answer(self@, k, key@) implies false by {
                        lemma_entries_map_prefix(self.value@, k, self.value.len() as int);
                        assert(self.value@.subrange(0, self.value.len() as int) =~= self.value@);
                    }
                }
            },
        }
        proof {
            if forall|k: Seq<char>| self@.contains_key(k) ==> !answers(k, key@) {
                if best is Some {
                    let b = best->0;
                    lemma_entries_map_prefix(
                        self.value@,
                        self.value[b as int].0@,
                        self.value.len() as int,
                    );
                    assert(self.value@.subrange(0, self.value.len() as int) =~= self.value@);
                    lemma_contains(self.value@, b as int, self.value.len() as int);
                }
            }
        }
        out
    }
}

impl<T: PartialEq> VecMap<T> {
    /// Puts `value` after the values that `key` has, unless one of them is
    /// equal to it.
    pub fn unique_insert(&mut self, key: String, value: T)
        ensures
            T::obeys_eq_spec() ==> final(self)@ == (if old(self)@.contains_key(key@) && exists|
                j: int,
            |
                0 <= j < old(self)@[key@].len() && #[trigger] old(self)@[key@][j].eq_spec(&value) {
                old(self)@
            } else {
                Self::extended(old(self)@, key@, seq![value])
            }),
    {
        proof {
            use_type_invariant(&*self);
            lemma_entries_map_prefix(self.value@, key@, self.value.len() as int);
            assert(self.value@.subrange(0, self.value.len() as int) =~= self.value@);
        }
        let present = match self.position(key.as_str()) {
            Some(i) => {
                let values = &self.value[i].1;
                let mut found = false;
                let mut j: usize = 0;
                while j < values.len() && !found
                    invariant
                        j <= values.len(),
                        T::obeys_eq_spec() ==> (found ==> exists|x: int|
                            0 <= x < values.len() && #[trigger] values[x].eq_spec(&value)),
                        T::obeys_eq_spec() ==> (!found ==> forall|x: int|
                            0 <= x < j ==> !#[trigger] values[x].eq_spec(&value)),
                    decreases values.len() - j + (if found { 0int } else { 1int }),
                {
                    if values[j] == value {
                        found = true;
                    } else {
                        j += 1;
                    }
                }
                found
            },
            None => false,
        };
        if !present {
            self.insert(key, value);
        }
    }
}

proof fn lemma_no_entry<V>(s: Seq<(String, V)>, key: Seq<char>, upto: int, a: int)
    requires
        0 <= a < upto <= s.len(),
        last_entry(s, key, upto) == -1,
    ensures
        s[a].0@ != key,
    decreases upto,
{
    if a < upto - 1 {
        lemma_no_entry(s, key, upto - 1, a);
    }
}

proof fn lemma_contains<V: View>(s: Seq<(String, V)>, b: int, upto: int)
    requires
        0 <= b < upto <= s.len(),
    ensures
        last_entry(s, s[b].0@, upto) >= b,
    decreases upto,
{
    if b < upto - 1 && s[upto - 1].0@ != s[b].0@ {
        lemma_contains(s, b, upto - 1);
    }
}

/// Of two different texts one comes before the other.
proof fn lemma_text_order(a: Seq<char>, b: Seq<char>)
    ensures
        a == b || text_lt(a, b) || text_lt(b, a),
    decreases a.len(),
{
    if a.len() > 0 && b.len() > 0 {
        if a[0] == b[0] {
            lemma_text_order(a.drop_first(), b.drop_first());
            if a.drop_first() == b.drop_first() {
                assert(a =~= seq![a[0]] + a.drop_first());
                assert(b =~= seq![b[0]] + b.drop_first());
            }
        } else {
            vstd::utf8::char_u32_cast(a[0], a[0] as u32);
            vstd::utf8::char_u32_cast(b[0], b[0] as u32);
        }
    } else if a.len() == 0 && b.len() == 0 {
        assert(a =~= b);
    }
}

proof fn lemma_text_asymmetric(a: Seq<char>, b: Seq<char>)
    ensures
        !(text_lt(a, b) && text_lt(b, a)),
    decreases a.len(),
{
    if a.len() > 0 && b.len() > 0 && a[0] == b[0] {
        lemma_text_asymmetric(a.drop_first(), b.drop_first());
    }
}

proof fn lemma_text_lt_transitive(a: Seq<char>, b: Seq<char>, c: Seq<char>)
    requires
        text_lt(a, b),
        text_lt(b, c),
    ensures
        text_lt(a, c),
    decreases a.len(),
{
    if a.len() > 0 && b.len() > 0 && c.len() > 0 {
        if a[0] == b[0] && b[0] == c[0] {
            lemma_text_lt_transitive(a.drop_first(), b.drop_first(), c.drop_first());
        }
    }
}

} // verus!
