//! Character-level string operations, each verified against a definition
//! over `Seq<char>`.

use vstd::prelude::*;
use vstd::std_specs::iter::IteratorSpec;

verus! {

/// The outcome of comparing two strings.
#[derive(Clone, Copy, Debug, PartialEq, Eq, Structural)]
pub enum Rank {
    /// The first string sorts before the second.
    Before,
    /// The two strings hold the same characters.
    Same,
    /// The first string sorts after the second.
    After,
}

/// Lexicographic order on character sequences, by scalar value. A proper
/// prefix sorts before the longer sequence.
pub open spec fn lex_lt(a: Seq<char>, b: Seq<char>) -> bool
    decreases a.len(),
{
    if b.len() == 0 {
        false
    } else if a.len() == 0 {
        true
    } else if a[0] != b[0] {
        a[0] < b[0]
    } else {
        lex_lt(a.skip(1), b.skip(1))
    }
}

/// No sequence sorts before itself.
pub proof fn lemma_lex_lt_irreflexive(a: Seq<char>)
    ensures
        !lex_lt(a, a),
    decreases a.len(),
{
    if a.len() > 0 {
        lemma_lex_lt_irreflexive(a.skip(1));
    }
}

/// Two sequences never sort before each other.
pub proof fn lemma_lex_lt_asymmetric(a: Seq<char>, b: Seq<char>)
    requires
        lex_lt(a, b),
    ensures
        !lex_lt(b, a),
    decreases a.len(),
{
    if a.len() > 0 && b.len() > 0 && a[0] == b[0] {
        lemma_lex_lt_asymmetric(a.skip(1), b.skip(1));
    }
}

/// The order is transitive.
pub proof fn lemma_lex_lt_transitive(a: Seq<char>, b: Seq<char>, c: Seq<char>)
    requires
        lex_lt(a, b),
        lex_lt(b, c),
    ensures
        lex_lt(a, c),
    decreases a.len(),
{
    if a.len() > 0 && b.len() > 0 && c.len() > 0 && a[0] == b[0] && b[0] == c[0] {
        lemma_lex_lt_transitive(a.skip(1), b.skip(1), c.skip(1));
    }
}

/// Of two different sequences one sorts before the other.
pub proof fn lemma_lex_lt_total(a: Seq<char>, b: Seq<char>)
    ensures
        a == b || lex_lt(a, b) || lex_lt(b, a),
    decreases a.len(),
{
    if a.len() > 0 && b.len() > 0 && a[0] == b[0] {
        lemma_lex_lt_total(a.skip(1), b.skip(1));
        if a.skip(1) == b.skip(1) {
            assert(a =~= seq![a[0]] + a.skip(1));
            assert(b =~= seq![b[0]] + b.skip(1));
        }
    } else if a.len() == 0 && b.len() == 0 {
        assert(a =~= b);
    }
}

/// A common prefix does not change how two sequences compare.
proof fn lemma_lex_lt_skips_common_prefix(a: Seq<char>, b: Seq<char>, k: int)
    requires
        0 <= k <= a.len(),
        k <= b.len(),
        a.take(k) == b.take(k),
    ensures
        lex_lt(a, b) == lex_lt(a.skip(k), b.skip(k)),
    decreases k,
{
    if k == 0 {
        assert(a.skip(0) =~= a);
        assert(b.skip(0) =~= b);
    } else {
        assert(a[0] == a.take(k)[0]);
        assert(b[0] == b.take(k)[0]);
        assert(a.skip(1).take(k - 1) =~= a.take(k).skip(1));
        assert(b.skip(1).take(k - 1) =~= b.take(k).skip(1));
        lemma_lex_lt_skips_common_prefix(a.skip(1), b.skip(1), k - 1);
        assert(a.skip(1).skip(k - 1) =~= a.skip(k));
        assert(b.skip(1).skip(k - 1) =~= b.skip(k));
    }
}

/// Compares two strings character by character.
pub fn order(a: &str, b: &str) -> (r: Rank)
    ensures
        r == Rank::Before <==> lex_lt(a@, b@),
        r == Rank::Same <==> a@ == b@,
        r == Rank::After <==> lex_lt(b@, a@),
{
    let mut x = a.chars();
    let mut y = b.chars();
    let ghost mut k: int = 0;
    proof {
        lemma_lex_lt_irreflexive(a@);
    }
    loop
        invariant
            0 <= k <= a@.len(),
            k <= b@.len(),
            x.remaining() == a@.skip(k),
            y.remaining() == b@.skip(k),
            a@.take(k) == b@.take(k),
            x.obeys_prophetic_iter_laws(),
            y.obeys_prophetic_iter_laws(),
        decreases a@.len() - k,
    {
        let p = x.next();
        let q = y.next();
        proof {
            lemma_lex_lt_skips_common_prefix(a@, b@, k);
            lemma_lex_lt_skips_common_prefix(b@, a@, k);
        }
        match (p, q) {
            (None, None) => {
                proof {
                    assert(a@ =~= a@.take(k));
                    assert(b@ =~= b@.take(k));
                    lemma_lex_lt_irreflexive(a@);
                }
                return Rank::Same;
            },
            (None, Some(_)) => {
                proof {
                    lemma_lex_lt_asymmetric(a@, b@);
                }
                return Rank::Before;
            },
            (Some(_), None) => {
                proof {
                    lemma_lex_lt_asymmetric(b@, a@);
                }
                return Rank::After;
            },
            (Some(c), Some(d)) => {
                if c < d {
                    proof {
                        assert(a@.skip(k)[0] == c);
                        assert(b@.skip(k)[0] == d);
                        lemma_lex_lt_asymmetric(a@, b@);
                    }
                    return Rank::Before;
                }
                if d < c {
                    proof {
                        assert(a@.skip(k)[0] == c);
                        assert(b@.skip(k)[0] == d);
                        lemma_lex_lt_asymmetric(b@, a@);
                    }
                    return Rank::After;
                }
                proof {
                    assert(a@.take(k + 1) =~= a@.take(k).push(a@[k]));
                    assert(b@.take(k + 1) =~= b@.take(k).push(b@[k]));
                    assert(a@.skip(k).drop_first() =~= a@.skip(k + 1));
                    assert(b@.skip(k).drop_first() =~= b@.skip(k + 1));
                    k = k + 1;
                }
            },
        }
    }
}

/// Whether two strings hold the same characters.
pub fn same(a: &str, b: &str) -> (r: bool)
    ensures
        r == (a@ == b@),
{
    match order(a, b) {
        Rank::Same => true,
        _ => false,
    }
}

/// The characters of a string, in order.
pub fn chars_of(s: &str) -> (v: Vec<char>)
    ensures
        v@ == s@,
{
    let mut v: Vec<char> = Vec::new();
    for c in it: s.chars()
        invariant
            it.seq() == s@,
            v@ == s@.take(it.index()),
    {
        v.push(c);
    }
    v
}

/// `String::push` of the standard library: the string afterwards holds the
/// characters it held before, followed by `c`.
#[verifier::external_body]
fn push_char(s: &mut String, c: char)
    ensures
        final(s)@ == old(s)@.push(c),
{
    s.push(c);
}

/// The parts written one after another with `sep` between neighbours.
pub open spec fn joined(parts: Seq<Seq<char>>, sep: Seq<char>) -> Seq<char>
    decreases parts.len(),
{
    if parts.len() == 0 {
        Seq::empty()
    } else if parts.len() == 1 {
        parts[0]
    } else {
        joined(parts.drop_last(), sep) + sep + parts.last()
    }
}

/// Joins the strings with `sep` between neighbours.
pub fn join(parts: &Vec<String>, sep: &str) -> (r: String)
    ensures
        r@ == joined(parts.deep_view(), sep@),
{
    let mut out = String::new();
    let mut i: usize = 0;
    while i < parts.len()
        invariant
            i <= parts.len(),
            out@ == joined(parts.deep_view().take(i as int), sep@),
        decreases parts.len() - i,
    {
        if i > 0 {
            out.append(sep);
        }
        out.append(parts[i].as_str());
        proof {
            let all = parts.deep_view();
            assert(all.take(i + 1).drop_last() =~= all.take(i as int));
            assert(all.take(i + 1).last() == parts@[i as int]@);
            if i == 0 {
                assert(out@ =~= parts@[0]@);
            }
        }
        i += 1;
    }
    proof {
        assert(parts.deep_view().take(parts.len() as int) =~= parts.deep_view());
    }
    out
}

/// The upper-case form of an ASCII letter; any other character is itself.
pub open spec fn upper_char(c: char) -> char {
    if 'a' <= c && c <= 'z' {
        ((c as u8) - 32) as char
    } else {
        c
    }
}

/// The sequence with every ASCII lower-case letter replaced by its
/// upper-case form.
pub open spec fn upper(s: Seq<char>) -> Seq<char> {
    Seq::new(s.len(), |i: int| upper_char(s[i]))
}

/// Maps an ASCII lower-case letter to upper case.
pub fn to_upper_char(c: char) -> (r: char)
    ensures
        r == upper_char(c),
{
    if 'a' <= c && c <= 'z' {
        ((c as u8) - 32) as char
    } else {
        c
    }
}

/// Maps the ASCII lower-case letters of a string to upper case and keeps
/// every other character.
pub fn to_upper(s: &str) -> (r: String)
    ensures
        r@ == upper(s@),
{
    let mut out = String::new();
    for c in it: s.chars()
        invariant
            it.seq() == s@,
            out@ == upper(s@.take(it.index())),
    {
        push_char(&mut out, to_upper_char(c));
        proof {
            let k = it.index();
            assert(upper(s@.take(k + 1)) =~= upper(s@.take(k)).push(upper_char(s@[k])));
        }
    }
    proof {
        assert(s@.take(s@.len() as int) =~= s@);
    }
    out
}

/// Whether `pat` stands in `s` at position `i`.
pub open spec fn occurs_at(s: Seq<char>, pat: Seq<char>, i: int) -> bool {
    0 <= i && i + pat.len() <= s.len() && s.subrange(i, i + pat.len()) == pat
}

/// Whether `pat` stands somewhere in `s`.
pub open spec fn occurs_in(s: Seq<char>, pat: Seq<char>) -> bool {
    exists|i: int| occurs_at(s, pat, i)
}

/// Tests whether `pat` stands in `s` at position `i`.
fn matches_at(s: &Vec<char>, pat: &Vec<char>, i: usize) -> (r: bool)
    requires
        i <= s.len(),
    ensures
        r == occurs_at(s@, pat@, i as int),
{
    if pat.len() > s.len() - i {
        return false;
    }
    let mut j: usize = 0;
    while j < pat.len()
        invariant
            i + pat.len() <= s.len(),
            j <= pat.len(),
            s@.subrange(i as int, i + j) == pat@.take(j as int),
        decreases pat.len() - j,
    {
        if s[i + j] != pat[j] {
            assert(s@.subrange(i as int, i + pat.len())[j as int] != pat@[j as int]);
            return false;
        }
        proof {
            assert(s@.subrange(i as int, i + j + 1) =~= s@.subrange(i as int, i + j).push(
                s@[i + j],
            ));
            assert(pat@.take(j + 1) =~= pat@.take(j as int).push(pat@[j as int]));
        }
        j += 1;
    }
    proof {
        assert(pat@.take(pat.len() as int) =~= pat@);
    }
    true
}

/// Whether `pat` stands somewhere in `s`. The empty pattern stands in every
/// string.
pub fn contains(s: &str, pat: &str) -> (r: bool)
    ensures
        r == occurs_in(s@, pat@),
{
    let text = chars_of(s);
    let wanted = chars_of(pat);
    let mut i: usize = 0;
    loop
        invariant
            i <= text.len(),
            text@ == s@,
            wanted@ == pat@,
            forall|k: int| 0 <= k < i ==> !occurs_at(s@, pat@, k),
        decreases text.len() - i,
    {
        if matches_at(&text, &wanted, i) {
            return true;
        }
        if i == text.len() {
            return false;
        }
        i += 1;
    }
}

/// `s` with every occurrence of `from` replaced by `to`, found from the left
/// and never overlapping. An empty `from` stands before every character and
/// at the end.
pub open spec fn replaced(s: Seq<char>, from: Seq<char>, to: Seq<char>) -> Seq<char>
    decreases s.len(),
{
    if from.len() == 0 {
        if s.len() == 0 {
            to
        } else {
            to + seq![s[0]] + replaced(s.skip(1), from, to)
        }
    } else if occurs_at(s, from, 0) {
        to + replaced(s.skip(from.len() as int), from, to)
    } else if s.len() == 0 {
        s
    } else {
        seq![s[0]] + replaced(s.skip(1), from, to)
    }
}

/// A sequence in which `from` does not occur is left as it is.
pub proof fn lemma_replaced_without_occurrence(s: Seq<char>, from: Seq<char>, to: Seq<char>)
    requires
        from.len() > 0,
        !occurs_in(s, from),
    ensures
        replaced(s, from, to) == s,
    decreases s.len(),
{
    assert(!occurs_at(s, from, 0));
    if s.len() > 0 {
        let rest = s.skip(1);
        assert forall|i: int| !occurs_at(rest, from, i) by {
            if occurs_at(rest, from, i) {
                assert(s.subrange(i + 1, i + 1 + from.len()) =~= rest.subrange(
                    i,
                    i + from.len(),
                ));
                assert(occurs_at(s, from, i + 1));
            }
        }
        lemma_replaced_without_occurrence(rest, from, to);
        assert(seq![s[0]] + rest =~= s);
    }
}

/// Where `from` begins a sequence and does not occur in what follows, only
/// that beginning is replaced.
pub proof fn lemma_replaced_prefix(rest: Seq<char>, from: Seq<char>, to: Seq<char>)
    requires
        from.len() > 0,
        !occurs_in(rest, from),
    ensures
        replaced(from + rest, from, to) == to + rest,
{
    let s = from + rest;
    assert(s.subrange(0, from.len() as int) =~= from);
    assert(occurs_at(s, from, 0));
    assert(s.skip(from.len() as int) =~= rest);
    lemma_replaced_without_occurrence(rest, from, to);
}

/// Replaces every occurrence of `from` in `s` by `to`.
pub fn replace_all(s: &str, from: &str, to: &str) -> (r: String)
    ensures
        r@ == replaced(s@, from@, to@),
{
    let text = chars_of(s);
    let pattern = chars_of(from);
    let mut out = String::new();
    let mut i: usize = 0;
    proof {
        assert(s@.skip(0) =~= s@);
        assert(out@ + replaced(s@, from@, to@) =~= replaced(s@, from@, to@));
    }
    while i < text.len()
        invariant
            i <= text.len(),
            text@ == s@,
            pattern@ == from@,
            out@ + replaced(s@.skip(i as int), from@, to@) == replaced(s@, from@, to@),
        decreases text.len() - i,
    {
        let ghost rest = s@.skip(i as int);
        let ghost before = out@;
        proof {
            assert(rest.len() > 0);
            assert(rest[0] == s@[i as int]);
            assert(rest.skip(1) =~= s@.skip(i + 1));
        }
        if pattern.len() == 0 {
            out.append(to);
            push_char(&mut out, text[i]);
            proof {
                assert(out@ + replaced(rest.skip(1), from@, to@) =~= before + replaced(
                    rest,
                    from@,
                    to@,
                ));
            }
            i += 1;
        } else if matches_at(&text, &pattern, i) {
            proof {
                assert(rest.subrange(0, from@.len() as int) =~= s@.subrange(
                    i as int,
                    i + from@.len(),
                ));
                assert(occurs_at(rest, from@, 0));
                assert(rest.skip(from@.len() as int) =~= s@.skip(i + from@.len()));
            }
            out.append(to);
            proof {
                assert(out@ + replaced(rest.skip(from@.len() as int), from@, to@) =~= before
                    + replaced(rest, from@, to@));
            }
            i += pattern.len();
        } else {
            proof {
                if occurs_at(rest, from@, 0) {
                    assert(rest.subrange(0, from@.len() as int) =~= s@.subrange(
                        i as int,
                        i + from@.len(),
                    ));
                }
                assert(!occurs_at(rest, from@, 0));
            }
            push_char(&mut out, text[i]);
            proof {
                assert(out@ + replaced(rest.skip(1), from@, to@) =~= before + replaced(
                    rest,
                    from@,
                    to@,
                ));
            }
            i += 1;
        }
    }
    proof {
        assert(s@.skip(text.len() as int) =~= Seq::<char>::empty());
    }
    if pattern.len() == 0 {
        out.append(to);
    }
    out
}

/// Whether each item sorts before every later one: the items are in
/// ascending order and none occurs twice.
pub open spec fn strictly_sorted(items: Seq<Seq<char>>) -> bool {
    forall|i: int, j: int|
        0 <= i < j < items.len() ==> lex_lt(#[trigger] items[i], #[trigger] items[j])
}

/// There is only one way to write a set of items in strictly ascending
/// order.
pub proof fn lemma_strictly_sorted_unique(a: Seq<Seq<char>>, b: Seq<Seq<char>>)
    requires
        strictly_sorted(a),
        strictly_sorted(b),
        a.to_set() == b.to_set(),
    ensures
        a == b,
    decreases a.len(),
{
    if a.len() == 0 {
        if b.len() > 0 {
            assert(b.contains(b[0]));
            assert(b.to_set().contains(b[0]));
            assert(a.to_set().contains(b[0]));
        }
        assert(a =~= b);
    } else if b.len() == 0 {
        assert(a.contains(a[0]));
        assert(a.to_set().contains(a[0]));
        assert(b.to_set().contains(a[0]));
    } else {
        // The two last items are the greatest of the same set.
        let x = a.last();
        let y = b.last();
        assert(a.contains(x)) by {
            assert(a[a.len() - 1] == x);
        }
        assert(b.contains(y)) by {
            assert(b[b.len() - 1] == y);
        }
        assert(a.to_set().contains(x));
        assert(b.to_set().contains(x));
        assert(b.to_set().contains(y));
        assert(a.to_set().contains(y));
        let i = choose|i: int| 0 <= i < b.len() && b[i] == x;
        let j = choose|j: int| 0 <= j < a.len() && a[j] == y;
        if x != y {
            assert(i < b.len() - 1);
            assert(j < a.len() - 1);
            assert(lex_lt(b[i], b[b.len() - 1]));
            assert(lex_lt(a[j], a[a.len() - 1]));
            lemma_lex_lt_asymmetric(x, y);
        }
        let a0 = a.drop_last();
        let b0 = b.drop_last();
        assert(strictly_sorted(a0)) by {
            assert forall|p: int, q: int| 0 <= p < q < a0.len() implies lex_lt(
                #[trigger] a0[p],
                #[trigger] a0[q],
            ) by {
                assert(lex_lt(a[p], a[q]));
            }
        }
        assert(strictly_sorted(b0)) by {
            assert forall|p: int, q: int| 0 <= p < q < b0.len() implies lex_lt(
                #[trigger] b0[p],
                #[trigger] b0[q],
            ) by {
                assert(lex_lt(b[p], b[q]));
            }
        }
        assert forall|v: Seq<char>| a0.contains(v) <==> b0.contains(v) by {
            if a0.contains(v) {
                let p = choose|p: int| 0 <= p < a0.len() && a0[p] == v;
                assert(lex_lt(a[p], a[a.len() - 1]));
                lemma_lex_lt_irreflexive(x);
                assert(a.contains(v)) by {
                    assert(a[p] == v);
                }
                assert(a.to_set().contains(v));
                assert(b.to_set().contains(v));
                let q = choose|q: int| 0 <= q < b.len() && b[q] == v;
                assert(q < b.len() - 1);
                assert(b0[q] == v);
            }
            if b0.contains(v) {
                let p = choose|p: int| 0 <= p < b0.len() && b0[p] == v;
                assert(lex_lt(b[p], b[b.len() - 1]));
                lemma_lex_lt_irreflexive(y);
                assert(b.contains(v)) by {
                    assert(b[p] == v);
                }
                assert(b.to_set().contains(v));
                assert(a.to_set().contains(v));
                let q = choose|q: int| 0 <= q < a.len() && a[q] == v;
                assert(q < a.len() - 1);
                assert(a0[q] == v);
            }
        }
        assert(a0.to_set() =~= b0.to_set());
        lemma_strictly_sorted_unique(a0, b0);
        assert(a =~= a0.push(x));
        assert(b =~= b0.push(y));
    }
}

/// Where `item` stands, or would have to stand, in a strictly sorted list:
/// the position, and whether the item is already there.
fn position_in_sorted(list: &Vec<String>, item: &str) -> (r: (usize, bool))
    requires
        strictly_sorted(list.deep_view()),
    ensures
        r.0 <= list.len(),
        forall|k: int| 0 <= k < r.0 ==> lex_lt(#[trigger] list.deep_view()[k], item@),
        r.1 ==> r.0 < list.len() && list.deep_view()[r.0 as int] == item@,
        !r.1 ==> forall|k: int|
            r.0 <= k < list.len() ==> lex_lt(item@, #[trigger] list.deep_view()[k]),
{
    let mut p: usize = 0;
    while p < list.len()
        invariant
            p <= list.len(),
            strictly_sorted(list.deep_view()),
            forall|k: int| 0 <= k < p ==> lex_lt(#[trigger] list.deep_view()[k], item@),
        decreases list.len() - p,
    {
        match order(list[p].as_str(), item) {
            Rank::Before => {
                p += 1;
            },
            Rank::Same => {
                return (p, true);
            },
            Rank::After => {
                proof {
                    let views = list.deep_view();
                    assert forall|k: int| p <= k < list.len() implies lex_lt(
                        item@,
                        #[trigger] views[k],
                    ) by {
                        if k > p {
                            assert(lex_lt(views[p as int], views[k]));
                            lemma_lex_lt_transitive(item@, views[p as int], views[k]);
                        }
                    }
                }
                return (p, false);
            },
        }
    }
    (p, false)
}

/// Puts `item` into a strictly sorted list at its place, unless the list
/// holds it already.
pub(crate) fn insert_sorted(list: &mut Vec<String>, item: &str)
    requires
        strictly_sorted(old(list).deep_view()),
    ensures
        strictly_sorted(final(list).deep_view()),
        final(list).deep_view().to_set() == old(list).deep_view().to_set().insert(item@),
{
    let (p, found) = position_in_sorted(list, item);
    let ghost before = list.deep_view();
    if found {
        proof {
            assert(before.contains(item@)) by {
                assert(before[p as int] == item@);
            }
            assert(before.to_set() =~= before.to_set().insert(item@));
        }
    } else {
        list.insert(p, String::from_str(item));
        proof {
            let after = list.deep_view();
            assert(after =~= before.insert(p as int, item@));
            assert forall|i: int, j: int| 0 <= i < j < after.len() implies lex_lt(
                #[trigger] after[i],
                #[trigger] after[j],
            ) by {
                if j < p {
                    assert(lex_lt(before[i], before[j]));
                } else if j == p {
                    assert(lex_lt(before[i], item@));
                } else if i == p {
                    assert(lex_lt(item@, before[j - 1]));
                } else if i < p {
                    assert(lex_lt(before[i], before[j - 1]));
                } else {
                    assert(lex_lt(before[i - 1], before[j - 1]));
                }
            }
            assert forall|v: Seq<char>|
                after.contains(v) <==> (before.contains(v) || v == item@) by {
                if after.contains(v) {
                    let k = choose|k: int| 0 <= k < after.len() && after[k] == v;
                    if k < p {
                        assert(before[k] == v);
                    } else if k > p {
                        assert(before[k - 1] == v);
                    }
                }
                if before.contains(v) {
                    let k = choose|k: int| 0 <= k < before.len() && before[k] == v;
                    if k < p {
                        assert(after[k] == v);
                    } else {
                        assert(after[k + 1] == v);
                    }
                }
                if v == item@ {
                    assert(after[p as int] == v);
                }
            }
            assert(after.to_set() =~= before.to_set().insert(item@));
        }
    }
}

/// The items in ascending order, each once.
pub fn sorted_unique(items: &Vec<String>) -> (r: Vec<String>)
    ensures
        strictly_sorted(r.deep_view()),
        r.deep_view().to_set() == items.deep_view().to_set(),
{
    let mut out: Vec<String> = Vec::new();
    let mut i: usize = 0;
    proof {
        assert(out.deep_view().to_set() =~= items.deep_view().take(0).to_set());
    }
    while i < items.len()
        invariant
            i <= items.len(),
            strictly_sorted(out.deep_view()),
            out.deep_view().to_set() == items.deep_view().take(i as int).to_set(),
        decreases items.len() - i,
    {
        insert_sorted(&mut out, items[i].as_str());
        proof {
            let all = items.deep_view();
            assert(all.take(i + 1) =~= all.take(i as int).push(items@[i as int]@));
            all.take(i as int).lemma_push_to_set_commute(items@[i as int]@);
        }
        i += 1;
    }
    proof {
        assert(items.deep_view().take(items.len() as int) =~= items.deep_view());
    }
    out
}

/// Whether every character is one of the digits `0` to `9`.
pub open spec fn all_digits(s: Seq<char>) -> bool {
    forall|i: int| 0 <= i < s.len() ==> '0' <= #[trigger] s[i] && s[i] <= '9'
}

} // verus!
