//! `video join`: putting the files in natural order, so that `part_2`
//! comes before `part_10`.
use vstd::prelude::*;
use crate::commands::image::invalid;
use crate::error::{ErrorView, ForgeKitError};
use crate::pages::lemma_split_no_sep;
use crate::paths::{file_name, file_name_of, last_named};
use crate::text::{
    all_digits, dec, digits_value, has_char, is_digit, lemma_dec_digits, lemma_dec_value, parse_uint, parse_uint_exec,
    push_dec, string_of, to_chars,
};

verus! {

broadcast use vstd::string::group_string_axioms;

/// One run of a file name: a run of decimal digits, by its value, or a
/// run of other characters.
pub enum NaturalSortPart {
    Num(u64),
    Str(Vec<char>),
}

/// A part as plain values.
pub enum PartView {
    Num(u64),
    Str(Seq<char>),
}

impl View for NaturalSortPart {
    type V = PartView;

    open spec fn view(&self) -> PartView {
        match self {
            NaturalSortPart::Num(n) => PartView::Num(*n),
            NaturalSortPart::Str(s) => PartView::Str(s@),
        }
    }
}

/// The parts as plain values.
pub open spec fn part_views(parts: Seq<NaturalSortPart>) -> Seq<PartView> {
    parts.map_values(|p: NaturalSortPart| p@)
}

/// The maximal runs of `s` whose characters are all digits or all not.
pub open spec fn runs(s: Seq<char>) -> Seq<Seq<char>>
    decreases s.len(),
{
    if s.len() == 0 {
        Seq::<Seq<char>>::empty()
    } else {
        let r = runs(s.drop_last());
        let c = s.last();
        if s.len() >= 2 && is_digit(s[s.len() - 2]) == is_digit(c) {
            r.drop_last().push(r.last().push(c))
        } else {
            r.push(seq![c])
        }
    }
}

/// The sort part of a run: digits by their value (0 when it does not fit
/// in a `u64`), anything else by its characters.
pub open spec fn part_of(run: Seq<char>) -> PartView {
    if run.len() > 0 && is_digit(run[0]) {
        PartView::Num(
            if digits_value(run) <= u64::MAX {
                digits_value(run) as u64
            } else {
                0
            },
        )
    } else {
        PartView::Str(run)
    }
}

/// The natural sort key of a path: the parts of its file name (of `""`
/// when it has none).
pub open spec fn natural_key(path: Seq<char>) -> Seq<PartView> {
    let name = match file_name(path) {
        Some(n) => n,
        None => Seq::<char>::empty(),
    };
    runs(name).map_values(|r: Seq<char>| part_of(r))
}

/// The part for a completed run.
fn run_part(run: Vec<char>) -> (p: NaturalSortPart)
    requires
        run@.len() > 0,
        forall|k: int| 0 <= k < run@.len() ==> is_digit(#[trigger] run@[k]) == is_digit(run@[0]),
    ensures
        p@ == part_of(run@),
{
    if '0' <= run[0] && run[0] <= '9' {
        assert(all_digits(run@));
        match parse_uint_exec(run.as_slice(), u64::MAX) {
            Some(v) => NaturalSortPart::Num(v),
            None => NaturalSortPart::Num(0),
        }
    } else {
        NaturalSortPart::Str(run)
    }
}

/// A non-empty text has runs.
proof fn lemma_runs_nonempty(s: Seq<char>)
    requires
        s.len() > 0,
    ensures
        runs(s).len() > 0,
    decreases s.len(),
{
    if s.len() >= 2 {
        lemma_runs_nonempty(s.drop_last());
    }
}

/// The runs of two texts that meet at a change between digits and other
/// characters are the runs of each.
proof fn lemma_runs_concat(a: Seq<char>, b: Seq<char>)
    requires
        a.len() > 0 && b.len() > 0 ==> is_digit(a.last()) != is_digit(b[0]),
    ensures
        runs(a + b) == runs(a) + runs(b),
    decreases b.len(),
{
    if b.len() == 0 {
        assert(a + b =~= a);
        assert(runs(b) =~= Seq::<Seq<char>>::empty());
        assert(runs(a) + runs(b) =~= runs(a));
    } else {
        let b2 = b.drop_last();
        let c = b.last();
        if b2.len() > 0 {
            assert(b2[0] == b[0]);
        }
        lemma_runs_concat(a, b2);
        let s = a + b;
        assert(s.drop_last() =~= a + b2);
        assert(s.last() == c);
        if b2.len() == 0 {
            assert(b =~= seq![c]);
            assert(runs(b2) =~= Seq::<Seq<char>>::empty());
            assert(runs(a + b2) =~= runs(a));
            if a.len() > 0 {
                assert(s[s.len() - 2] == a.last());
            }
            assert(runs(b) == seq![seq![c]]);
            assert(runs(a).push(seq![c]) =~= runs(a) + seq![seq![c]]);
        } else {
            lemma_runs_nonempty(b2);
            assert(s[s.len() - 2] == b2.last());
            assert(b[b.len() - 2] == b2.last());
            let r = runs(a) + runs(b2);
            if is_digit(b2.last()) == is_digit(c) {
                assert(r.drop_last().push(r.last().push(c)) =~= runs(a) + runs(b2).drop_last().push(
                    runs(b2).last().push(c),
                ));
            } else {
                assert(r.push(seq![c]) =~= runs(a) + runs(b2).push(seq![c]));
            }
        }
    }
}

/// A run of digits is one run.
proof fn lemma_runs_digits(d: Seq<char>)
    requires
        d.len() > 0,
        all_digits(d),
    ensures
        runs(d) == seq![d],
    decreases d.len(),
{
    if d.len() == 1 {
        assert(runs(d.drop_last()) =~= Seq::<Seq<char>>::empty());
        assert(d =~= seq![d.last()]);
        assert(runs(d) == Seq::<Seq<char>>::empty().push(seq![d.last()]));
        assert(Seq::<Seq<char>>::empty().push(seq![d.last()]) =~= seq![d]);
    } else {
        let d2 = d.drop_last();
        assert(all_digits(d2)) by {
            assert forall|i: int| 0 <= i < d2.len() implies is_digit(#[trigger] d2[i]) by {
                assert(d2[i] == d[i]);
            }
        }
        lemma_runs_digits(d2);
        assert(is_digit(d[d.len() - 2]) && is_digit(d.last()));
        assert(d2.push(d.last()) =~= d);
        let r = seq![d2];
        assert(r.last() == d2);
        assert(r.drop_last() =~= Seq::<Seq<char>>::empty());
        assert(runs(d) == r.drop_last().push(r.last().push(d.last())));
        assert(r.drop_last().push(d2.push(d.last())) =~= seq![d]);
    }
}

/// Keys that share a prefix compare as what follows it.
proof fn lemma_key_lt_prefix(pre: Seq<PartView>, x: Seq<PartView>, y: Seq<PartView>)
    ensures
        key_lt(pre + x, pre + y) == key_lt(x, y),
    decreases pre.len(),
{
    if pre.len() > 0 {
        assert((pre + x)[0] == pre[0]);
        assert((pre + y)[0] == pre[0]);
        assert((pre + x).drop_first() =~= pre.drop_first() + x);
        assert((pre + y).drop_first() =~= pre.drop_first() + y);
        lemma_key_lt_prefix(pre.drop_first(), x, y);
    } else {
        assert(pre + x =~= x);
        assert(pre + y =~= y);
    }
}

/// The parts of a file name made of `p`, the digits of `m`, and `q`.
proof fn lemma_key_of_number(p: Seq<char>, m: nat, q: Seq<char>)
    requires
        !has_char(p, '/'),
        !has_char(q, '/'),
        p.len() > 0 ==> !is_digit(p.last()),
        q.len() > 0 ==> !is_digit(q[0]),
        m <= u64::MAX,
    ensures
        natural_key(p + dec(m) + q) == runs(p).map_values(|r: Seq<char>| part_of(r)) + seq![
            PartView::Num(m as u64),
        ] + runs(q).map_values(|r: Seq<char>| part_of(r)),
{
    let d = dec(m);
    lemma_dec_digits(m);
    lemma_dec_value(m);
    let s = p + d + q;
    assert(!has_char(s, '/')) by {
        if has_char(s, '/') {
            let i = choose|i: int| 0 <= i < s.len() && s[i] == '/';
            if i < p.len() {
                assert(p[i] == '/');
            } else if i < p.len() + d.len() {
                assert(is_digit(d[i - p.len()]));
            } else {
                assert(q[i - p.len() - d.len()] == '/');
            }
        }
    }
    lemma_split_no_sep(s, '/');
    assert(s[p.len() as int] == d[0]);
    assert(is_digit(s[p.len() as int]));
    assert(s.len() > 0 && s != seq!['.'] && s != seq!['.', '.']) by {
        if s =~= seq!['.'] || s =~= seq!['.', '.'] {
            assert(s[p.len() as int] == '.');
        }
    }
    assert(seq![s].drop_last() =~= Seq::<Seq<char>>::empty());
    assert(last_named(seq![s]) == Some(s));
    assert(file_name(s) == Some(s));
    lemma_runs_digits(d);
    assert(d[0] == d[0]);
    assert(is_digit(d.last())) by {
        assert(d[d.len() - 1] == d.last());
    }
    lemma_runs_concat(p, d);
    lemma_runs_concat(p + d, q);
    assert((p + d).last() == d.last());
    let f = |r: Seq<char>| part_of(r);
    let all = runs(p) + seq![d] + runs(q);
    assert(runs(s) == all);
    assert(part_of(d) == PartView::Num(m as u64));
    assert(all.map_values(f) =~= runs(p).map_values(f) + seq![PartView::Num(m as u64)] + runs(q).map_values(f));
}

/// Names that differ only in a number order by that number: with `p`
/// not ending and `q` not starting in a digit, and no `/` in either, the
/// name holding the smaller number sorts first (`part_2` before
/// `part_10`).
pub proof fn law_smaller_number_first(p: Seq<char>, m: nat, n: nat, q: Seq<char>)
    requires
        !has_char(p, '/'),
        !has_char(q, '/'),
        p.len() > 0 ==> !is_digit(p.last()),
        q.len() > 0 ==> !is_digit(q[0]),
        m < n <= u64::MAX,
    ensures
        key_lt(natural_key(p + dec(m) + q), natural_key(p + dec(n) + q)),
{
    lemma_key_of_number(p, m, q);
    lemma_key_of_number(p, n, q);
    let f = |r: Seq<char>| part_of(r);
    let pre = runs(p).map_values(f);
    let tail = runs(q).map_values(f);
    assert(pre + seq![PartView::Num(m as u64)] + tail =~= pre + (seq![PartView::Num(m as u64)] + tail));
    assert(pre + seq![PartView::Num(n as u64)] + tail =~= pre + (seq![PartView::Num(n as u64)] + tail));
    lemma_key_lt_prefix(pre, seq![PartView::Num(m as u64)] + tail, seq![PartView::Num(n as u64)] + tail);
    let x = seq![PartView::Num(m as u64)] + tail;
    let y = seq![PartView::Num(n as u64)] + tail;
    assert(x[0] == PartView::Num(m as u64));
    assert(y[0] == PartView::Num(n as u64));
    assert(x[0] != y[0]);
}

/// Text runs compare in ascending code-point order, as text does: after a
/// common prefix, the first differing character decides, and a proper
/// prefix comes first.
pub proof fn law_chars_lt_ascending(p: Seq<char>, x: char, y: char, r: Seq<char>, t: Seq<char>)
    ensures
        x != y ==> chars_lt(p.push(x) + r, p.push(y) + t) == ((x as u32) < (y as u32)),
        chars_lt(p, p + t) == (t.len() > 0),
        !chars_lt(p + t, p),
    decreases p.len(),
{
    if p.len() == 0 {
        assert(p.push(x) + r =~= seq![x] + r);
        assert(p.push(y) + t =~= seq![y] + t);
        assert((seq![x] + r)[0] == x);
        assert((seq![y] + t)[0] == y);
        assert(p + t =~= t);
    } else {
        law_chars_lt_ascending(p.drop_first(), x, y, r, t);
        assert((p.push(x) + r)[0] == p[0]);
        assert((p.push(y) + t)[0] == p[0]);
        assert((p.push(x) + r).drop_first() =~= p.drop_first().push(x) + r);
        assert((p.push(y) + t).drop_first() =~= p.drop_first().push(y) + t);
        assert((p + t)[0] == p[0]);
        assert((p + t).drop_first() =~= p.drop_first() + t);
    }
}

/// The natural sort key of a path.
pub fn natural_sort_key(path: &str) -> (r: Vec<NaturalSortPart>)
    ensures
        part_views(r@) == natural_key(path@),
{
    let name: Vec<char> = match file_name_of(path) {
        Some(n) => to_chars(n.as_str()),
        None => Vec::new(),
    };
    let ghost s = name@;
    let mut parts: Vec<NaturalSortPart> = Vec::new();
    let mut cur: Vec<char> = Vec::new();
    let ghost mut done: Seq<Seq<char>> = Seq::empty();
    let n = name.len();
    let mut i: usize = 0;
    while i < n
        invariant
            i <= n,
            n == s.len(),
            s == name@,
            part_views(parts@) == done.map_values(|r: Seq<char>| part_of(r)),
            i == 0 ==> cur@.len() == 0 && done.len() == 0,
            i > 0 ==> runs(s.take(i as int)) == done.push(cur@),
            i > 0 ==> cur@.len() > 0 && is_digit(cur@.last()) == is_digit(s[i - 1]),
            forall|k: int| 0 <= k < cur@.len() ==> is_digit(#[trigger] cur@[k]) == is_digit(cur@[0]),
        decreases n - i,
    {
        let c = name[i];
        let digit = '0' <= c && c <= '9';
        proof {
            assert(s.take(i + 1).drop_last() =~= s.take(i as int));
            assert(s.take(i + 1).last() == c);
            if i >= 1 {
                assert(s.take(i + 1)[i - 1] == s[i - 1]);
            }
        }
        if i > 0 && digit != ('0' <= cur[cur.len() - 1] && cur[cur.len() - 1] <= '9') {
            let ghost finished = cur@;
            let run = cur;
            let p = run_part(run);
            let ghost before = parts@;
            parts.push(p);
            proof {
                assert(part_views(parts@) =~= part_views(before).push(part_of(finished)));
                assert(done.push(finished).map_values(|r: Seq<char>| part_of(r)) =~= done.map_values(
                    |r: Seq<char>| part_of(r),
                ).push(part_of(finished)));
                done = done.push(finished);
            }
            cur = Vec::new();
            cur.push(c);
            proof {
                assert(runs(s.take(i + 1)) =~= done.push(cur@));
            }
        } else {
            let ghost old_cur = cur@;
            cur.push(c);
            proof {
                if i > 0 {
                    assert(runs(s.take(i + 1)) =~= done.push(cur@));
                } else {
                    assert(s.take(0) =~= Seq::<char>::empty());
                    assert(runs(s.take(0)) =~= Seq::<Seq<char>>::empty());
                    assert(runs(s.take(1)) =~= seq![seq![c]]);
                    assert(cur@ =~= seq![c]);
                    assert(done.push(cur@) =~= seq![seq![c]]);
                }
                assert forall|k: int| 0 <= k < cur@.len() implies is_digit(#[trigger] cur@[k]) == is_digit(
                    cur@[0],
                ) by {
                    if k == cur@.len() - 1 && i > 0 {
                        assert(cur@[k] == c);
                        assert(cur@[0] == old_cur[0]);
                    }
                }
            }
        }
        i = i + 1;
    }
    proof {
        assert(s.take(n as int) =~= s);
    }
    if n > 0 {
        let ghost finished = cur@;
        let p = run_part(cur);
        let ghost before = parts@;
        parts.push(p);
        proof {
            assert(part_views(parts@) =~= part_views(before).push(part_of(finished)));
            assert(done.push(finished).map_values(|r: Seq<char>| part_of(r)) =~= done.map_values(
                |r: Seq<char>| part_of(r),
            ).push(part_of(finished)));
        }
    } else {
        proof {
            assert(runs(s) =~= Seq::<Seq<char>>::empty());
            assert(part_views(parts@) =~= Seq::<PartView>::empty());
        }
    }
    parts
}

// ---------------------------------------------------------------------------
// Ordering
// ---------------------------------------------------------------------------

/// Character-by-character order by code point, a proper prefix first
/// (the order of `String`).
pub open spec fn chars_lt(a: Seq<char>, b: Seq<char>) -> bool
    decreases a.len(),
{
    if a.len() == 0 {
        b.len() > 0
    } else if b.len() == 0 {
        false
    } else if a[0] != b[0] {
        (a[0] as u32) < (b[0] as u32)
    } else {
        chars_lt(a.drop_first(), b.drop_first())
    }
}

/// The order of parts: numbers before text, numbers by value, text by
/// characters.
pub open spec fn part_lt(a: PartView, b: PartView) -> bool {
    match (a, b) {
        (PartView::Num(x), PartView::Num(y)) => x < y,
        (PartView::Num(_), PartView::Str(_)) => true,
        (PartView::Str(_), PartView::Num(_)) => false,
        (PartView::Str(x), PartView::Str(y)) => chars_lt(x, y),
    }
}

/// The order of keys: part by part, a proper prefix first.
pub open spec fn key_lt(a: Seq<PartView>, b: Seq<PartView>) -> bool
    decreases a.len(),
{
    if a.len() == 0 {
        b.len() > 0
    } else if b.len() == 0 {
        false
    } else if a[0] != b[0] {
        part_lt(a[0], b[0])
    } else {
        key_lt(a.drop_first(), b.drop_first())
    }
}

pub proof fn lemma_chars_lt_trans(a: Seq<char>, b: Seq<char>, c: Seq<char>)
    requires
        chars_lt(a, b),
        chars_lt(b, c),
    ensures
        chars_lt(a, c),
    decreases a.len(),
{
    if a.len() > 0 && a[0] == b[0] && b[0] == c[0] {
        lemma_chars_lt_trans(a.drop_first(), b.drop_first(), c.drop_first());
    }
}

pub proof fn lemma_chars_lt_irrefl(a: Seq<char>)
    ensures
        !chars_lt(a, a),
    decreases a.len(),
{
    if a.len() > 0 {
        lemma_chars_lt_irrefl(a.drop_first());
    }
}

pub proof fn lemma_part_lt_trans(a: PartView, b: PartView, c: PartView)
    requires
        part_lt(a, b),
        part_lt(b, c),
    ensures
        part_lt(a, c),
{
    match (a, b, c) {
        (PartView::Str(x), PartView::Str(y), PartView::Str(z)) => lemma_chars_lt_trans(x, y, z),
        _ => {},
    }
}

pub proof fn lemma_part_lt_irrefl(a: PartView)
    ensures
        !part_lt(a, a),
{
    match a {
        PartView::Str(x) => lemma_chars_lt_irrefl(x),
        _ => {},
    }
}

pub proof fn lemma_key_lt_trans(a: Seq<PartView>, b: Seq<PartView>, c: Seq<PartView>)
    requires
        key_lt(a, b),
        key_lt(b, c),
    ensures
        key_lt(a, c),
    decreases a.len(),
{
    if a.len() > 0 && b.len() > 0 && c.len() > 0 {
        if a[0] != b[0] && b[0] != c[0] {
            lemma_part_lt_trans(a[0], b[0], c[0]);
            if a[0] == c[0] {
                lemma_part_lt_irrefl(a[0]);
            }
        } else if a[0] == b[0] && b[0] == c[0] {
            lemma_key_lt_trans(a.drop_first(), b.drop_first(), c.drop_first());
        }
    }
}

pub proof fn lemma_key_lt_irrefl(a: Seq<PartView>)
    ensures
        !key_lt(a, a),
    decreases a.len(),
{
    if a.len() > 0 {
        lemma_key_lt_irrefl(a.drop_first());
    }
}

/// Whether the characters of `a` come before those of `b`.
fn chars_less(a: &[char], b: &[char]) -> (r: bool)
    ensures
        r == chars_lt(a@, b@),
{
    let n = a.len();
    let m = b.len();
    let mut i: usize = 0;
    assert(a@.skip(0) =~= a@);
    assert(b@.skip(0) =~= b@);
    while i < n && i < m
        invariant
            i <= n,
            i <= m,
            n == a@.len(),
            m == b@.len(),
            chars_lt(a@, b@) == chars_lt(a@.skip(i as int), b@.skip(i as int)),
        decreases n - i,
    {
        assert(a@.skip(i as int)[0] == a@[i as int]);
        assert(b@.skip(i as int)[0] == b@[i as int]);
        if a[i] != b[i] {
            return (a[i] as u32) < (b[i] as u32);
        }
        assert(a@.skip(i as int).drop_first() =~= a@.skip(i + 1));
        assert(b@.skip(i as int).drop_first() =~= b@.skip(i + 1));
        i = i + 1;
    }
    i < m
}

/// Whether part `a` comes before part `b`.
fn part_less(a: &NaturalSortPart, b: &NaturalSortPart) -> (r: bool)
    ensures
        r == part_lt(a@, b@),
{
    match (a, b) {
        (NaturalSortPart::Num(x), NaturalSortPart::Num(y)) => *x < *y,
        (NaturalSortPart::Num(_), NaturalSortPart::Str(_)) => true,
        (NaturalSortPart::Str(_), NaturalSortPart::Num(_)) => false,
        (NaturalSortPart::Str(x), NaturalSortPart::Str(y)) => chars_less(x.as_slice(), y.as_slice()),
    }
}

/// Whether two parts are equal.
fn part_equal(a: &NaturalSortPart, b: &NaturalSortPart) -> (r: bool)
    ensures
        r == (a@ == b@),
{
    match (a, b) {
        (NaturalSortPart::Num(x), NaturalSortPart::Num(y)) => *x == *y,
        (NaturalSortPart::Str(x), NaturalSortPart::Str(y)) => crate::text::chars_eq(x.as_slice(), y.as_slice()),
        _ => false,
    }
}

/// Whether key `a` comes before key `b`.
pub fn key_less(a: &[NaturalSortPart], b: &[NaturalSortPart]) -> (r: bool)
    ensures
        r == key_lt(part_views(a@), part_views(b@)),
{
    let ghost x = part_views(a@);
    let ghost y = part_views(b@);
    let n = a.len();
    let m = b.len();
    let mut i: usize = 0;
    assert(x.skip(0) =~= x);
    assert(y.skip(0) =~= y);
    while i < n && i < m
        invariant
            i <= n,
            i <= m,
            n == a@.len(),
            m == b@.len(),
            x == part_views(a@),
            y == part_views(b@),
            key_lt(x, y) == key_lt(x.skip(i as int), y.skip(i as int)),
        decreases n - i,
    {
        assert(x.skip(i as int)[0] == a@[i as int]@);
        assert(y.skip(i as int)[0] == b@[i as int]@);
        if !part_equal(&a[i], &b[i]) {
            return part_less(&a[i], &b[i]);
        }
        assert(x.skip(i as int).drop_first() =~= x.skip(i + 1));
        assert(y.skip(i as int).drop_first() =~= y.skip(i + 1));
        i = i + 1;
    }
    i < m
}

// ---------------------------------------------------------------------------
// Sorting
// ---------------------------------------------------------------------------

/// Whether `p` lists each position below `n` exactly once.
pub open spec fn is_permutation(p: Seq<int>, n: nat) -> bool {
    &&& p.len() == n
    &&& forall|k: int| 0 <= k < p.len() ==> 0 <= #[trigger] p[k] < n
    &&& forall|a: int, b: int| 0 <= a < b < p.len() ==> #[trigger] p[a] != #[trigger] p[b]
}

/// Whether `sorted` is `paths` rearranged by `p` (position `k` holds
/// `paths[p[k]]`) into natural order, paths with equal keys keeping their
/// order.
pub open spec fn naturally_arranged(p: Seq<int>, paths: Seq<String>, sorted: Seq<String>) -> bool {
    &&& is_permutation(p, paths.len())
    &&& sorted.len() == paths.len()
    &&& forall|k: int| 0 <= k < sorted.len() ==> sorted[k] == paths[#[trigger] p[k]]
    &&& forall|a: int, b: int|
        0 <= a < b < sorted.len() ==> !key_lt(
            natural_key(#[trigger] sorted[b]@),
            natural_key(#[trigger] sorted[a]@),
        )
    &&& forall|a: int, b: int|
        0 <= a < b < sorted.len() && natural_key(#[trigger] sorted[a]@) == natural_key(
            #[trigger] sorted[b]@,
        ) ==> p[a] < p[b]
}

/// Sorts paths by the natural order of their file names (`part_2` before
/// `part_10`), keeping the given order among equal names.
pub fn natural_sort(paths: Vec<String>) -> (r: Vec<String>)
    ensures
        exists|p: Seq<int>| #[trigger] naturally_arranged(p, paths@, r@),
{
    let ghost src = paths@;
    let n = paths.len();
    let mut rest = paths;
    let mut out: Vec<String> = Vec::new();
    let mut keys: Vec<Vec<NaturalSortPart>> = Vec::new();
    let ghost mut p: Seq<int> = Seq::empty();
    let mut i: usize = 0;
    while i < n
        invariant
            i <= n,
            n == src.len(),
            rest@ == src.skip(i as int),
            out@.len() == i,
            keys@.len() == i,
            p.len() == i,
            forall|k: int| 0 <= k < i ==> part_views(#[trigger] keys@[k]@) == natural_key(out@[k]@),
            forall|k: int| 0 <= k < i ==> 0 <= #[trigger] p[k] < i,
            forall|a: int, b: int| 0 <= a < b < i ==> #[trigger] p[a] != #[trigger] p[b],
            forall|k: int| 0 <= k < i ==> out@[k] == src[#[trigger] p[k]],
            forall|a: int, b: int|
                0 <= a < b < i ==> !key_lt(natural_key(#[trigger] out@[b]@), natural_key(#[trigger] out@[a]@)),
            forall|a: int, b: int|
                0 <= a < b < i && natural_key(#[trigger] out@[a]@) == natural_key(#[trigger] out@[b]@) ==> p[a]
                    < p[b],
        decreases n - i,
    {
        assert(rest@[0] == src[i as int]);
        let x = rest.remove(0);
        let ghost xv = x@;
        assert(rest@ =~= src.skip(i + 1));
        let kx = natural_sort_key(x.as_str());
        let ghost kv = natural_key(x@);
        let mut j: usize = 0;
        while j < i && !key_less(kx.as_slice(), keys[j].as_slice())
            invariant
                j <= i,
                i == keys@.len(),
                part_views(kx@) == kv,
                forall|k: int| 0 <= k < i ==> part_views(#[trigger] keys@[k]@) == natural_key(out@[k]@),
                forall|k: int| 0 <= k < j ==> !key_lt(kv, natural_key(#[trigger] out@[k]@)),
            decreases i - j,
        {
            j = j + 1;
        }
        let ghost old_out = out@;
        let ghost old_p = p;
        proof {
            if j < i {
                assert(key_lt(kv, natural_key(old_out[j as int]@)));
            }
        }
        out.insert(j, x);
        keys.insert(j, kx);
        proof {
            p = old_p.insert(j as int, i as int);
            assert forall|k: int| 0 <= k < i + 1 implies part_views(#[trigger] keys@[k]@) == natural_key(
                out@[k]@,
            ) by {
                if k < j {
                } else if k > j {
                    assert(keys@[k] == keys@[k]);
                }
            }
            assert forall|k: int| 0 <= k < i + 1 implies out@[k] == src[#[trigger] p[k]] by {
                if k < j {
                    assert(out@[k] == old_out[k]);
                } else if k > j {
                    assert(out@[k] == old_out[k - 1]);
                    assert(p[k] == old_p[k - 1]);
                }
            }
            assert forall|a: int, b: int| 0 <= a < b < i + 1 implies #[trigger] p[a] != #[trigger] p[b] by {
                if a < j && b < j {
                } else if a < j && b == j {
                } else if a < j && b > j {
                    assert(p[b] == old_p[b - 1]);
                } else if a == j {
                    assert(p[b] == old_p[b - 1]);
                } else {
                    assert(p[a] == old_p[a - 1]);
                    assert(p[b] == old_p[b - 1]);
                }
            }
            assert forall|a: int, b: int|
                0 <= a < b < i + 1 implies !key_lt(
                natural_key(#[trigger] out@[b]@),
                natural_key(#[trigger] out@[a]@),
            ) by {
                if b < j {
                    assert(out@[a] == old_out[a]);
                    assert(out@[b] == old_out[b]);
                } else if b == j {
                    assert(out@[a] == old_out[a]);
                    assert(out@[b]@ == xv);
                    assert(!key_lt(kv, natural_key(old_out[a]@)));
                } else if a < j {
                    assert(out@[a] == old_out[a]);
                    assert(out@[b] == old_out[b - 1]);
                } else if a == j {
                    assert(out@[a]@ == xv);
                    assert(out@[b] == old_out[b - 1]);
                    let kb = natural_key(old_out[b - 1]@);
                    let kj = natural_key(old_out[j as int]@);
                    assert(key_lt(kv, kj));
                    if key_lt(kb, kv) {
                        lemma_key_lt_trans(kb, kv, kj);
                        if b - 1 > j {
                            assert(!key_lt(natural_key(old_out[b - 1]@), natural_key(old_out[j as int]@)));
                        } else {
                            lemma_key_lt_irrefl(kj);
                        }
                    }
                } else {
                    assert(out@[a] == old_out[a - 1]);
                    assert(out@[b] == old_out[b - 1]);
                }
            }
            assert forall|a: int, b: int|
                0 <= a < b < i + 1 && natural_key(#[trigger] out@[a]@) == natural_key(#[trigger] out@[b]@)
                    implies p[a] < p[b] by {
                if b < j {
                    assert(out@[a] == old_out[a]);
                    assert(out@[b] == old_out[b]);
                } else if b == j {
                    assert(p[b] == i);
                } else if a < j {
                    assert(out@[a] == old_out[a]);
                    assert(out@[b] == old_out[b - 1]);
                    assert(p[b] == old_p[b - 1]);
                } else if a == j {
                    assert(out@[a]@ == xv);
                    assert(out@[b] == old_out[b - 1]);
                    let kb = natural_key(old_out[b - 1]@);
                    let kj = natural_key(old_out[j as int]@);
                    assert(key_lt(kv, kj));
                    assert(kb == kv);
                    if b - 1 > j {
                        assert(!key_lt(natural_key(old_out[b - 1]@), natural_key(old_out[j as int]@)));
                    } else {
                        lemma_key_lt_irrefl(kj);
                    }
                    assert(false);
                } else {
                    assert(out@[a] == old_out[a - 1]);
                    assert(out@[b] == old_out[b - 1]);
                    assert(p[a] == old_p[a - 1]);
                    assert(p[b] == old_p[b - 1]);
                }
            }
        }
        i = i + 1;
    }
    assert(naturally_arranged(p, src, out@));
    out
}

/// The files `video join` joins: at least two, in natural order.
pub fn join_inputs(files: Vec<String>) -> (r: Result<Vec<String>, ForgeKitError>)
    ensures
        files@.len() < 2 ==> (r matches Err(e) && e@ == invalid(
            "At least 2 files required for join, found "@ + dec(files@.len()),
        )),
        files@.len() >= 2 ==> (r matches Ok(v) && exists|p: Seq<int>| #[trigger] naturally_arranged(p, files@, v@)),
{
    let n = files.len();
    if n < 2 {
        let mut m = string_of("At least 2 files required for join, found ");
        push_dec(&mut m, n as u64);
        return Err(ForgeKitError::InvalidInput { path: String::new(), reason: m });
    }
    let ghost src = files@;
    let v = natural_sort(files);
    proof {
        let p = choose|p: Seq<int>| naturally_arranged(p, src, v@);
        assert(naturally_arranged(p, src, v@));
        assert(exists|q: Seq<int>| #[trigger] naturally_arranged(q, src, v@));
    }
    let r: Result<Vec<String>, ForgeKitError> = Ok(v);
    assert(r matches Ok(w) && w@ == v@);
    r
}

} // verus!
