//! Page specifications: a human-friendly way to select pages of a document.
//!
//! Specs are separated by commas; each is a page number (`5`), a range
//! (`1-5`, `7-` to the end, `-10` from the first page), a keyword (`odd`,
//! `even`, `first`, `last`, in any letter case) or an exclusion (`!2`,
//! `!5-10`).  Pages are numbered from 1.
use vstd::prelude::*;
use crate::error::{ForgeKitError, invalid_input, is_invalid_input};
use crate::text::{
    dec, eq_fold, eq_fold_exec, has_char, has_char_exec, join, parse_uint, parse_uint_exec, push_chars,
    push_dec, push_str, split_chars, split_on, string_of, to_chars, trim, trim_chars,
};

verus! {

broadcast use vstd::string::group_string_axioms;

/// A page specification for selecting pages from a document.
#[derive(Debug, PartialEq, Eq)]
pub enum PageSpec {
    /// Single page number (1-indexed).
    Page(usize),
    /// Range of pages, inclusive; `end: None` means "to the last page".
    Range { start: usize, end: Option<usize> },
    /// All odd-numbered pages.
    Odd,
    /// All even-numbered pages.
    Even,
    /// First page only.
    First,
    /// Last page only.
    Last,
    /// Every page except those matching the inner spec.
    Exclude(Box<PageSpec>),
}

impl Clone for PageSpec {
    fn clone(&self) -> (r: Self)
        ensures
            r == *self,
        decreases self,
    {
        match self {
            PageSpec::Page(n) => PageSpec::Page(*n),
            PageSpec::Range { start, end } => PageSpec::Range { start: *start, end: *end },
            PageSpec::Odd => PageSpec::Odd,
            PageSpec::Even => PageSpec::Even,
            PageSpec::First => PageSpec::First,
            PageSpec::Last => PageSpec::Last,
            PageSpec::Exclude(inner) => {
                let c = (**inner).clone();
                PageSpec::Exclude(Box::new(c))
            },
        }
    }
}

// ---------------------------------------------------------------------------
// What parsing means
// ---------------------------------------------------------------------------

pub open spec fn msg_expected(t: Seq<char>) -> Seq<char> {
    "Invalid page spec '"@ + t
        + "': expected number, range, or keyword (odd/even/first/last)"@
}

pub open spec fn msg_empty_range(t: Seq<char>) -> Seq<char> {
    "Invalid page spec '"@ + t + "': range cannot be empty"@
}

pub open spec fn msg_not_number(t: Seq<char>, x: Seq<char>) -> Seq<char> {
    "Invalid page spec '"@ + t + "': '"@ + x + "' is not a valid number"@
}

pub open spec fn msg_order(t: Seq<char>, a: nat, b: nat) -> Seq<char> {
    "Invalid page spec '"@ + t + "': start ("@ + dec(a) + ") must be <= end ("@ + dec(b) + ")"@
}

pub open spec fn msg_zero() -> Seq<char> {
    "Page numbers must be >= 1"@
}

/// A page number as written: an unsigned number that fits a `usize`.
pub open spec fn page_number(s: Seq<char>) -> Option<nat> {
    parse_uint(s, usize::MAX as nat)
}

/// The spec that one comma-separated piece (without `!`) denotes, or the
/// reason it is refused.
pub open spec fn single_spec(s: Seq<char>) -> Result<PageSpec, Seq<char>> {
    let t = trim(s);
    if eq_fold(t, "odd"@) {
        Ok(PageSpec::Odd)
    } else if eq_fold(t, "even"@) {
        Ok(PageSpec::Even)
    } else if eq_fold(t, "first"@) {
        Ok(PageSpec::First)
    } else if eq_fold(t, "last"@) {
        Ok(PageSpec::Last)
    } else if has_char(t, '-') {
        let parts = split_on(t, '-');
        if parts.len() != 2 {
            Err(msg_expected(t))
        } else {
            let a = trim(parts[0]);
            let b = trim(parts[1]);
            if a.len() == 0 && b.len() == 0 {
                Err(msg_empty_range(t))
            } else if a.len() > 0 && page_number(a) is None {
                Err(msg_not_number(t, a))
            } else if b.len() > 0 && page_number(b) is None {
                Err(msg_not_number(t, b))
            } else {
                let start: nat = if a.len() == 0 {
                    1
                } else {
                    page_number(a)->0
                };
                if start == 0 {
                    Err(msg_zero())
                } else if b.len() == 0 {
                    Ok(PageSpec::Range { start: start as usize, end: None })
                } else {
                    let end = page_number(b)->0;
                    if start > end {
                        Err(msg_order(t, start, end))
                    } else {
                        Ok(PageSpec::Range { start: start as usize, end: Some(end as usize) })
                    }
                }
            }
        }
    } else {
        match page_number(t) {
            None => Err(msg_expected(t)),
            Some(n) => if n == 0 {
                Err(msg_zero())
            } else {
                Ok(PageSpec::Page(n as usize))
            },
        }
    }
}

/// The spec that a trimmed, non-empty piece denotes: a leading `!` makes
/// an exclusion of the rest.
pub open spec fn part_spec(p: Seq<char>) -> Result<PageSpec, Seq<char>> {
    if p.len() > 0 && p[0] == '!' {
        match single_spec(p.drop_first()) {
            Ok(x) => Ok(PageSpec::Exclude(Box::new(x))),
            Err(e) => Err(e),
        }
    } else {
        single_spec(p)
    }
}

/// The specs that a list of pieces denotes, in order, skipping pieces that
/// are blank; the first refused piece decides the error.
pub open spec fn parts_spec(parts: Seq<Seq<char>>) -> Result<Seq<PageSpec>, Seq<char>>
    decreases parts.len(),
{
    if parts.len() == 0 {
        Ok(Seq::<PageSpec>::empty())
    } else {
        let p = trim(parts[0]);
        if p.len() == 0 {
            parts_spec(parts.drop_first())
        } else {
            match part_spec(p) {
                Err(e) => Err(e),
                Ok(x) => match parts_spec(parts.drop_first()) {
                    Ok(rest) => Ok(seq![x] + rest),
                    Err(e) => Err(e),
                },
            }
        }
    }
}

/// What `PageSpec::parse` gives for a text.
pub open spec fn parse_spec(s: Seq<char>) -> Result<Seq<PageSpec>, Seq<char>> {
    parts_spec(split_on(s, ','))
}

pub open spec fn prepend(done: Seq<PageSpec>, r: Result<Seq<PageSpec>, Seq<char>>) -> Result<
    Seq<PageSpec>,
    Seq<char>,
> {
    match r {
        Ok(rest) => Ok(done + rest),
        Err(e) => Err(e),
    }
}

/// The specs that parsing can produce: page numbers from 1, ranges that
/// start at 1 or later and do not run backwards, and exclusions of anything but an exclusion.
pub open spec fn well_formed(p: PageSpec) -> bool {
    match p {
        PageSpec::Page(n) => n >= 1,
        PageSpec::Range { start, end } => start >= 1 && match end {
            Some(e) => start <= e,
            None => true,
        },
        PageSpec::Exclude(inner) => match *inner {
            PageSpec::Page(n) => n >= 1,
            PageSpec::Range { start, end } => start >= 1 && match end {
                Some(e) => start <= e,
                None => true,
            },
            PageSpec::Exclude(_) => false,
            _ => true,
        },
        _ => true,
    }
}

// ---------------------------------------------------------------------------
// Printing
// ---------------------------------------------------------------------------

/// The text a spec is printed as.
pub open spec fn display(p: PageSpec) -> Seq<char>
    decreases p,
{
    match p {
        PageSpec::Page(n) => dec(n as nat),
        PageSpec::Range { start, end } => match end {
            Some(e) => dec(start as nat) + "-"@ + dec(e as nat),
            None => dec(start as nat) + "-"@,
        },
        PageSpec::Odd => "odd"@,
        PageSpec::Even => "even"@,
        PageSpec::First => "first"@,
        PageSpec::Last => "last"@,
        PageSpec::Exclude(inner) => "!"@ + display(*inner),
    }
}

// ---------------------------------------------------------------------------
// Conversion to qpdf page lists
// ---------------------------------------------------------------------------

pub open spec fn msg_exceeds(n: nat, total: nat) -> Seq<char> {
    "Page "@ + dec(n) + " exceeds total pages ("@ + dec(total) + ")"@
}

pub open spec fn msg_exclusion() -> Seq<char> {
    "Exclusions (!) are not yet fully supported in qpdf page spec"@
}

/// `1, 3, 5, ...` up to `total`.
pub open spec fn odd_pages(total: nat) -> Seq<Seq<char>> {
    Seq::new((total + 1) / 2, |i: int| dec((2 * i + 1) as nat))
}

/// `2, 4, 6, ...` up to `total`.
pub open spec fn even_pages(total: nat) -> Seq<Seq<char>> {
    Seq::new(total / 2, |i: int| dec((2 * i + 2) as nat))
}

/// The qpdf page items that one spec stands for, or why it cannot.
pub open spec fn qpdf_items(p: PageSpec, total: nat) -> Result<Seq<Seq<char>>, Seq<char>> {
    match p {
        PageSpec::Page(n) => if n > total {
            Err(msg_exceeds(n as nat, total))
        } else {
            Ok(seq![dec(n as nat)])
        },
        PageSpec::Range { start, end } => if start > total {
            Err(msg_exceeds(start as nat, total))
        } else {
            match end {
                Some(e) => if e > total {
                    Err(msg_exceeds(e as nat, total))
                } else {
                    Ok(seq![dec(start as nat) + "-"@ + dec(e as nat)])
                },
                None => Ok(seq![dec(start as nat) + "-z"@]),
            }
        },
        PageSpec::Odd => Ok(odd_pages(total)),
        PageSpec::Even => Ok(even_pages(total)),
        PageSpec::First => Ok(seq!["1"@]),
        PageSpec::Last => Ok(seq![dec(total)]),
        PageSpec::Exclude(_) => Err(msg_exclusion()),
    }
}

/// The qpdf page items of a list of specs, in order; the first spec that
/// cannot be converted decides the error.
pub open spec fn qpdf_list(specs: Seq<PageSpec>, total: nat) -> Result<Seq<Seq<char>>, Seq<char>>
    decreases specs.len(),
{
    if specs.len() == 0 {
        Ok(Seq::<Seq<char>>::empty())
    } else {
        match qpdf_items(specs[0], total) {
            Err(e) => Err(e),
            Ok(items) => match qpdf_list(specs.drop_first(), total) {
                Ok(rest) => Ok(items + rest),
                Err(e) => Err(e),
            },
        }
    }
}

/// What `PageSpec::to_qpdf_pages` gives: the items joined with commas.
pub open spec fn qpdf_pages_spec(specs: Seq<PageSpec>, total: nat) -> Result<Seq<char>, Seq<char>> {
    match qpdf_list(specs, total) {
        Ok(items) => Ok(join(items, ","@)),
        Err(e) => Err(e),
    }
}

// ---------------------------------------------------------------------------
// Executable code
// ---------------------------------------------------------------------------

fn reason_expected(t: &[char]) -> (r: String)
    ensures
        r@ == msg_expected(t@),
{
    let mut r = String::new();
    push_str(&mut r, "Invalid page spec '");
    push_chars(&mut r, t);
    push_str(&mut r, "': expected number, range, or keyword (odd/even/first/last)");
    r
}

fn reason_not_number(t: &[char], x: &[char]) -> (r: String)
    ensures
        r@ == msg_not_number(t@, x@),
{
    let mut r = String::new();
    push_str(&mut r, "Invalid page spec '");
    push_chars(&mut r, t);
    push_str(&mut r, "': '");
    push_chars(&mut r, x);
    push_str(&mut r, "' is not a valid number");
    r
}

fn reason_exceeds(n: u64, total: u64) -> (r: String)
    ensures
        r@ == msg_exceeds(n as nat, total as nat),
{
    let mut r = String::new();
    push_str(&mut r, "Page ");
    push_dec(&mut r, n);
    push_str(&mut r, " exceeds total pages (");
    push_dec(&mut r, total);
    push_str(&mut r, ")");
    r
}

impl PageSpec {
    /// Parses one piece (a number, a range or a keyword).
    fn parse_single(s: &[char]) -> (r: Result<PageSpec, ForgeKitError>)
        ensures
            match single_spec(s@) {
                Ok(p) => r == Ok::<PageSpec, ForgeKitError>(p),
                Err(reason) => r matches Err(e) && is_invalid_input(e, Seq::empty(), reason),
            },
    {
        let t = trim_chars(s);
        if eq_fold_exec(t.as_slice(), "odd") {
            return Ok(PageSpec::Odd);
        }
        if eq_fold_exec(t.as_slice(), "even") {
            return Ok(PageSpec::Even);
        }
        if eq_fold_exec(t.as_slice(), "first") {
            return Ok(PageSpec::First);
        }
        if eq_fold_exec(t.as_slice(), "last") {
            return Ok(PageSpec::Last);
        }
        let max = usize::MAX as u64;
        if has_char_exec(t.as_slice(), '-') {
            let parts = split_chars(t.as_slice(), '-');
            if parts.len() != 2 {
                return Err(invalid_input(reason_expected(t.as_slice())));
            }
            let a = trim_chars(parts[0].as_slice());
            let b = trim_chars(parts[1].as_slice());
            if a.len() == 0 && b.len() == 0 {
                let mut r = String::new();
                push_str(&mut r, "Invalid page spec '");
                push_chars(&mut r, t.as_slice());
                push_str(&mut r, "': range cannot be empty");
                return Err(invalid_input(r));
            }
            let start: u64 = if a.len() == 0 {
                1
            } else {
                match parse_uint_exec(a.as_slice(), max) {
                    Some(v) => v,
                    None => {
                        return Err(invalid_input(reason_not_number(t.as_slice(), a.as_slice())));
                    },
                }
            };
            let end: Option<u64> = if b.len() == 0 {
                None
            } else {
                match parse_uint_exec(b.as_slice(), max) {
                    Some(v) => Some(v),
                    None => {
                        return Err(invalid_input(reason_not_number(t.as_slice(), b.as_slice())));
                    },
                }
            };
            if start == 0 {
                return Err(invalid_input(string_of("Page numbers must be >= 1")));
            }
            let end: u64 = match end {
                None => {
                    return Ok(PageSpec::Range { start: start as usize, end: None });
                },
                Some(v) => v,
            };
            if start > end {
                let mut r = String::new();
                push_str(&mut r, "Invalid page spec '");
                push_chars(&mut r, t.as_slice());
                push_str(&mut r, "': start (");
                push_dec(&mut r, start);
                push_str(&mut r, ") must be <= end (");
                push_dec(&mut r, end);
                push_str(&mut r, ")");
                return Err(invalid_input(r));
            }
            Ok(PageSpec::Range { start: start as usize, end: Some(end as usize) })
        } else {
            match parse_uint_exec(t.as_slice(), max) {
                None => Err(invalid_input(reason_expected(t.as_slice()))),
                Some(n) => {
                    if n == 0 {
                        Err(invalid_input(string_of("Page numbers must be >= 1")))
                    } else {
                        Ok(PageSpec::Page(n as usize))
                    }
                },
            }
        }
    }

    /// Parses a page specification: comma-separated pieces, each a number,
    /// a range, a keyword, or one of those behind `!` (an exclusion).
    /// Blank pieces are skipped.  Refused input gives `InvalidInput`.
    pub fn parse(spec: &str) -> (r: Result<Vec<PageSpec>, ForgeKitError>)
        ensures
            match parse_spec(spec@) {
                Ok(v) => r matches Ok(w) && w@ == v,
                Err(reason) => r matches Err(e) && is_invalid_input(e, Seq::empty(), reason),
            },
            r matches Ok(w) ==> forall|i: int| 0 <= i < w@.len() ==> well_formed(#[trigger] w@[i]),
    {
        let chars = to_chars(spec);
        let parts = split_chars(chars.as_slice(), ',');
        let ghost pieces = split_on(spec@, ',');
        let mut results: Vec<PageSpec> = Vec::new();
        let n = parts.len();
        assert(pieces.skip(0) =~= pieces);
        for i in 0..n
            invariant
                n == pieces.len(),
                n == parts@.len(),
                pieces == split_on(spec@, ','),
                forall|k: int| 0 <= k < n ==> #[trigger] parts@[k]@ == pieces[k],
                parse_spec(spec@) == prepend(results@, parts_spec(pieces.skip(i as int))),
                forall|k: int| 0 <= k < results@.len() ==> well_formed(#[trigger] results@[k]),
        {
            let ghost rest = pieces.skip(i as int);
            assert(rest[0] == pieces[i as int]);
            assert(rest.drop_first() =~= pieces.skip(i + 1));
            let part = trim_chars(parts[i].as_slice());
            if part.len() > 0 {
                let spec_i = if part[0] == '!' {
                    let body = tail_of(part.as_slice());
                    let inner = Self::parse_single(body.as_slice())?;
                    proof {
                        lemma_single_well_formed(part@.drop_first());
                    }
                    PageSpec::Exclude(Box::new(inner))
                } else {
                    let x = Self::parse_single(part.as_slice())?;
                    proof {
                        lemma_single_well_formed(part@);
                    }
                    x
                };
                let ghost before = results@;
                results.push(spec_i);
                proof {
                    assert(results@ =~= before + seq![spec_i]);
                    match parts_spec(pieces.skip(i + 1)) {
                        Ok(rest_v) => {
                            assert(before + (seq![spec_i] + rest_v) =~= results@ + rest_v);
                        },
                        Err(_) => {},
                    }
                }
            }
        }
        assert(pieces.skip(n as int) =~= Seq::<Seq<char>>::empty());
        assert(results@ + Seq::<PageSpec>::empty() =~= results@);
        Ok(results)
    }


    /// The text this spec is written as (`7-`, `1-5`, `odd`, `!2`, ...).
    pub fn to_string(&self) -> (r: String)
        ensures
            r@ == display(*self),
        decreases self,
    {
        match self {
            PageSpec::Page(n) => {
                let mut r = String::new();
                push_dec(&mut r, *n as u64);
                r
            },
            PageSpec::Range { start, end } => {
                let mut r = String::new();
                push_dec(&mut r, *start as u64);
                push_str(&mut r, "-");
                match end {
                    Some(e) => push_dec(&mut r, *e as u64),
                    None => {},
                }
                r
            },
            PageSpec::Odd => string_of("odd"),
            PageSpec::Even => string_of("even"),
            PageSpec::First => string_of("first"),
            PageSpec::Last => string_of("last"),
            PageSpec::Exclude(inner) => {
                let mut r = string_of("!");
                let t = (**inner).to_string();
                push_str(&mut r, t.as_str());
                r
            },
        }
    }

    /// Converts specs to a qpdf `--pages` list such as `1-3,5,7-z` (`z` is
    /// qpdf's last page) for a document of `total_pages` pages.  Odd and even pages are listed one
    /// by one; a page beyond the document and any exclusion are refused.
    pub fn to_qpdf_pages(specs: &[PageSpec], total_pages: usize) -> (r: Result<
        String,
        ForgeKitError,
    >)
        ensures
            match qpdf_pages_spec(specs@, total_pages as nat) {
                Ok(text) => r matches Ok(s) && s@ == text,
                Err(reason) => r matches Err(e) && is_invalid_input(e, Seq::empty(), reason),
            },
    {
        let total = total_pages as u64;
        let mut out = String::new();
        let mut first = true;
        let ghost mut items: Seq<Seq<char>> = Seq::empty();
        let n = specs.len();
        assert(specs@.skip(0) =~= specs@);
        for i in 0..n
            invariant
                n == specs@.len(),
                total == total_pages as u64,
                out@ == join(items, ","@),
                first == (items.len() == 0),
                qpdf_list(specs@, total as nat) == prepend_items(
                    items,
                    qpdf_list(specs@.skip(i as int), total as nat),
                ),
        {
            let ghost rest = specs@.skip(i as int);
            assert(rest[0] == specs@[i as int]);
            assert(rest.drop_first() =~= specs@.skip(i + 1));
            match &specs[i] {
                PageSpec::Page(p) => {
                    let p = *p as u64;
                    if p > total {
                        return Err(invalid_input(reason_exceeds(p, total)));
                    }
                    let ghost before = items;
                    push_item_sep(&mut out, first);
                    first = false;
                    push_dec(&mut out, p);
                    proof {
                        items = items.push(dec(p as nat));
                        lemma_join_push(before, dec(p as nat), ","@);
                        assert(seq![dec(p as nat)] =~= Seq::<Seq<char>>::empty().push(dec(p as nat)));
                        lemma_prepend_items_push(before, dec(p as nat), qpdf_list(specs@.skip(i + 1), total as nat));
                    }
                },
                PageSpec::Range { start, end } => {
                    let s = *start as u64;
                    if s > total {
                        return Err(invalid_input(reason_exceeds(s, total)));
                    }
                    let ghost before = items;
                    let ghost item = match end {
                        Some(x) => dec(s as nat) + "-"@ + dec(*x as nat),
                        None => dec(s as nat) + "-z"@,
                    };
                    match end {
                        Some(x) => {
                            if *x as u64 > total {
                                return Err(invalid_input(reason_exceeds(*x as u64, total)));
                            }
                            push_item_sep(&mut out, first);
                            push_dec(&mut out, s);
                            push_str(&mut out, "-");
                            push_dec(&mut out, *x as u64);
                        },
                        None => {
                            push_item_sep(&mut out, first);
                            push_dec(&mut out, s);
                            push_str(&mut out, "-z");
                        },
                    }
                    first = false;
                    proof {
                        items = items.push(item);
                        lemma_join_push(before, item, ","@);
                        lemma_prepend_items_push(before, item, qpdf_list(specs@.skip(i + 1), total as nat));
                    }
                },
                PageSpec::Odd => {
                    let ghost before = items;
                    let ghost odd = odd_pages(total as nat);
                    let count = total / 2 + total % 2;
                    assert(count == (total + 1) / 2);
                    let mut j: u64 = 0;
                    while j < count
                        invariant
                            j <= count,
                            count == (total as nat + 1) / 2,
                            odd == odd_pages(total as nat),
                            out@ == join(items, ","@),
                            first == (items.len() == 0),
                            items == before + odd.take(j as int),
                        decreases count - j,
                    {
                        let ghost prev = items;
                        push_item_sep(&mut out, first);
                    first = false;
                        push_dec(&mut out, 2 * j + 1);
                        proof {
                            items = items.push(dec((2 * j + 1) as nat));
                            lemma_join_push(prev, dec((2 * j + 1) as nat), ","@);
                            assert(odd[j as int] == dec((2 * j + 1) as nat));
                            assert(before + odd.take(j + 1) =~= (before + odd.take(j as int)).push(
                                odd[j as int],
                            ));
                        }
                        j = j + 1;
                    }
                    proof {
                        assert(odd.take(count as int) =~= odd);
                        lemma_prepend_items_concat(before, odd, qpdf_list(specs@.skip(i + 1), total as nat));
                    }
                },
                PageSpec::Even => {
                    let ghost before = items;
                    let ghost even = even_pages(total as nat);
                    let count = total / 2;
                    let mut j: u64 = 0;
                    while j < count
                        invariant
                            j <= count,
                            count == total as nat / 2,
                            even == even_pages(total as nat),
                            out@ == join(items, ","@),
                            first == (items.len() == 0),
                            items == before + even.take(j as int),
                        decreases count - j,
                    {
                        let ghost prev = items;
                        push_item_sep(&mut out, first);
                    first = false;
                        push_dec(&mut out, 2 * j + 2);
                        proof {
                            items = items.push(dec((2 * j + 2) as nat));
                            lemma_join_push(prev, dec((2 * j + 2) as nat), ","@);
                            assert(even[j as int] == dec((2 * j + 2) as nat));
                            assert(before + even.take(j + 1) =~= (before + even.take(j as int)).push(
                                even[j as int],
                            ));
                        }
                        j = j + 1;
                    }
                    proof {
                        assert(even.take(count as int) =~= even);
                        lemma_prepend_items_concat(before, even, qpdf_list(specs@.skip(i + 1), total as nat));
                    }
                },
                PageSpec::First => {
                    let ghost before = items;
                    push_item_sep(&mut out, first);
                    first = false;
                    push_str(&mut out, "1");
                    proof {
                        items = items.push("1"@);
                        lemma_join_push(before, "1"@, ","@);
                        lemma_prepend_items_push(before, "1"@, qpdf_list(specs@.skip(i + 1), total as nat));
                    }
                },
                PageSpec::Last => {
                    let ghost before = items;
                    push_item_sep(&mut out, first);
                    first = false;
                    push_dec(&mut out, total);
                    proof {
                        items = items.push(dec(total as nat));
                        lemma_join_push(before, dec(total as nat), ","@);
                        lemma_prepend_items_push(before, dec(total as nat), qpdf_list(specs@.skip(i + 1), total as nat));
                    }
                },
                PageSpec::Exclude(_) => {
                    return Err(
                        invalid_input(
                            string_of(
                                "Exclusions (!) are not yet fully supported in qpdf page spec",
                            ),
                        ),
                    );
                },
            }
        }
        assert(specs@.skip(n as int) =~= Seq::<PageSpec>::empty());
        assert(items + Seq::<Seq<char>>::empty() =~= items);
        Ok(out)
    }
}

pub open spec fn prepend_items(
    done: Seq<Seq<char>>,
    r: Result<Seq<Seq<char>>, Seq<char>>,
) -> Result<Seq<Seq<char>>, Seq<char>> {
    match r {
        Ok(rest) => Ok(done + rest),
        Err(e) => Err(e),
    }
}

proof fn lemma_prepend_items_concat(
    done: Seq<Seq<char>>,
    xs: Seq<Seq<char>>,
    r: Result<Seq<Seq<char>>, Seq<char>>,
)
    ensures
        prepend_items(done, match r {
            Ok(rest) => Ok(xs + rest),
            Err(e) => Err(e),
        }) == prepend_items(done + xs, r),
{
    match r {
        Ok(rest) => {
            assert(done + (xs + rest) =~= (done + xs) + rest);
        },
        Err(_) => {},
    }
}

proof fn lemma_prepend_items_push(
    done: Seq<Seq<char>>,
    x: Seq<char>,
    r: Result<Seq<Seq<char>>, Seq<char>>,
)
    ensures
        prepend_items(done, match r {
            Ok(rest) => Ok(seq![x] + rest),
            Err(e) => Err(e),
        }) == prepend_items(done.push(x), r),
{
    match r {
        Ok(rest) => {
            assert(done + (seq![x] + rest) =~= done.push(x) + rest);
        },
        Err(_) => {},
    }
}

/// Joining one more piece appends the separator (unless it is the first
/// piece) and the piece.
pub proof fn lemma_join_push(parts: Seq<Seq<char>>, p: Seq<char>, sep: Seq<char>)
    ensures
        join(parts.push(p), sep) == (if parts.len() == 0 {
            p
        } else {
            join(parts, sep) + sep + p
        }),
{
    assert(parts.push(p).drop_last() =~= parts);
}

/// Appends the comma that separates an item from the previous one.
fn push_item_sep(out: &mut String, first: bool)
    ensures
        final(out)@ == (if first {
            old(out)@
        } else {
            old(out)@ + ","@
        }),
{
    if !first {
        push_str(out, ",");
    }
}

/// The run without its first character.
fn tail_of(v: &[char]) -> (r: Vec<char>)
    requires
        v@.len() > 0,
    ensures
        r@ == v@.drop_first(),
{
    let mut r: Vec<char> = Vec::new();
    let n = v.len();
    for i in 1..n
        invariant
            n == v@.len(),
            r@ == v@.subrange(1, i as int),
    {
        r.push(v[i]);
        assert(v@.subrange(1, i + 1) =~= v@.subrange(1, i as int).push(v@[i as int]));
    }
    assert(v@.subrange(1, n as int) =~= v@.drop_first());
    r
}


// ---------------------------------------------------------------------------
// Laws
// ---------------------------------------------------------------------------

pub(crate) proof fn lemma_split_no_sep(s: Seq<char>, sep: char)
    requires
        !has_char(s, sep),
    ensures
        split_on(s, sep) == seq![s],
    decreases s.len(),
{
    if s.len() > 0 {
        assert(!has_char(s.drop_last(), sep)) by {
            if has_char(s.drop_last(), sep) {
                let i = choose|i: int| 0 <= i < s.drop_last().len() && s.drop_last()[i] == sep;
                assert(s[i] == sep);
            }
        }
        lemma_split_no_sep(s.drop_last(), sep);
        assert(s.last() != sep) by {
            if s.last() == sep {
                assert(s[s.len() - 1] == sep);
            }
        }
        assert(s.drop_last().push(s.last()) =~= s);
        assert(seq![s.drop_last()].update(0, s.drop_last().push(s.last())) =~= seq![s]);
    } else {
        assert(s =~= Seq::<char>::empty());
    }
}

proof fn lemma_split_after_sep(a: Seq<char>, b: Seq<char>, sep: char)
    requires
        !has_char(a, sep),
    ensures
        split_on(a.push(sep) + b, sep) == seq![a] + split_on(b, sep),
    decreases b.len(),
{
    if b.len() == 0 {
        assert(a.push(sep) + b =~= a.push(sep));
        lemma_split_no_sep(a, sep);
        assert(a.push(sep).drop_last() =~= a);
        assert(seq![a].push(Seq::<char>::empty()) =~= seq![a] + seq![Seq::<char>::empty()]);
    } else {
        let b2 = b.drop_last();
        let c = b.last();
        lemma_split_after_sep(a, b2, sep);
        crate::text::lemma_split_nonempty(b2, sep);
        assert((a.push(sep) + b).drop_last() =~= a.push(sep) + b2);
        assert(b2.push(c) =~= b);
        let x = split_on(b2, sep);
        if c == sep {
            assert((seq![a] + x).push(Seq::<char>::empty()) =~= seq![a] + x.push(Seq::<char>::empty()));
        } else {
            let y = seq![a] + x;
            assert(y.update(y.len() - 1, y.last().push(c)) =~= seq![a] + x.update(
                x.len() - 1,
                x.last().push(c),
            ));
        }
    }
}

proof fn lemma_trim_id(s: Seq<char>)
    requires
        s.len() > 0,
        !crate::text::is_ws(s[0]),
        !crate::text::is_ws(s.last()),
    ensures
        trim(s) == s,
{
    crate::text::lemma_trim_start_skip(s, 0);
    assert(s.skip(0) =~= s);
    crate::text::lemma_trim_end_take(s, s.len() as int);
    assert(s.take(s.len() as int) =~= s);
}

proof fn lemma_dec_facts(n: nat)
    ensures
        dec(n).len() > 0,
        crate::text::all_digits(dec(n)),
        !has_char(dec(n), '-'),
        !has_char(dec(n), ','),
        !crate::text::is_ws(dec(n)[0]),
        !crate::text::is_ws(dec(n).last()),
        dec(n)[0] != '+',
        dec(n)[0] != '!',
        trim(dec(n)) == dec(n),
        page_number(dec(n)) == (if n <= usize::MAX {
            Some(n)
        } else {
            None::<nat>
        }),
{
    crate::text::lemma_dec_digits(n);
    crate::text::lemma_dec_value(n);
    let d = dec(n);
    assert(crate::text::is_digit(d[0]));
    assert(crate::text::is_digit(d[d.len() - 1]));
    lemma_trim_id(d);
    if has_char(d, '-') {
        let i = choose|i: int| 0 <= i < d.len() && d[i] == '-';
        assert(crate::text::is_digit(d[i]));
    }
    if has_char(d, ',') {
        let i = choose|i: int| 0 <= i < d.len() && d[i] == ',';
        assert(crate::text::is_digit(d[i]));
    }
}

/// A text whose first character is a digit is none of the keywords.
proof fn lemma_digit_not_keyword(t: Seq<char>)
    requires
        t.len() > 0,
        crate::text::is_digit(t[0]),
    ensures
        !eq_fold(t, "odd"@),
        !eq_fold(t, "even"@),
        !eq_fold(t, "first"@),
        !eq_fold(t, "last"@),
{
    reveal_strlit("odd");
    reveal_strlit("even");
    reveal_strlit("first");
    reveal_strlit("last");
    assert(crate::text::lower(t[0]) == t[0]);
}

/// Printing a well-formed spec that is not an exclusion and parsing the
/// piece back gives the spec.
proof fn lemma_single_roundtrip(p: PageSpec)
    requires
        well_formed(p),
        !(p is Exclude),
    ensures
        single_spec(display(p)) == Ok::<PageSpec, Seq<char>>(p),
        display(p).len() > 0,
        display(p)[0] != '!',
        !crate::text::is_ws(display(p)[0]),
        !crate::text::is_ws(display(p).last()),
        !has_char(display(p), ','),
{
    reveal_strlit("odd");
    reveal_strlit("even");
    reveal_strlit("first");
    reveal_strlit("last");
    reveal_strlit("-");
    let d = display(p);
    match p {
        PageSpec::Page(n) => {
            lemma_dec_facts(n as nat);
            lemma_digit_not_keyword(d);
        },
        PageSpec::Range { start, end } => {
            lemma_dec_facts(start as nat);
            let a = dec(start as nat);
            assert(crate::text::is_digit(a[0]));
            match end {
                Some(e) => {
                    lemma_dec_facts(e as nat);
                    let b = dec(e as nat);
                    assert(d =~= a.push('-') + b);
                    assert(d[0] == a[0]);
                    assert(d.last() == b.last());
                    lemma_trim_id(d);
                    lemma_digit_not_keyword(d);
                    assert(d[a.len() as int] == '-');
                    lemma_split_after_sep(a, b, '-');
                    lemma_split_no_sep(b, '-');
                    assert(split_on(d, '-') =~= seq![a, b]);
                    assert(!has_char(d, ',')) by {
                        if has_char(d, ',') {
                            let i = choose|i: int| 0 <= i < d.len() && d[i] == ',';
                            if i < a.len() {
                                assert(a[i] == ',');
                            } else if i > a.len() {
                                assert(b[i - a.len() - 1] == ',');
                            }
                        }
                    }
                },
                None => {
                    assert(d =~= a.push('-'));
                    assert(d[0] == a[0]);
                    assert(d.last() == '-');
                    lemma_trim_id(d);
                    lemma_digit_not_keyword(d);
                    assert(d[a.len() as int] == '-');
                    assert(a.push('-') + Seq::<char>::empty() =~= d);
                    lemma_split_after_sep(a, Seq::<char>::empty(), '-');
                    assert(split_on(d, '-') =~= seq![a, Seq::<char>::empty()]);
                    assert(trim(Seq::<char>::empty()) =~= Seq::<char>::empty());
                    assert(!has_char(d, ',')) by {
                        if has_char(d, ',') {
                            let i = choose|i: int| 0 <= i < d.len() && d[i] == ',';
                            if i < a.len() {
                                assert(a[i] == ',');
                            }
                        }
                    }
                },
            }
        },
        PageSpec::Odd => {
            lemma_trim_id(d);
            assert(!has_char(d, ',')) by {
                if has_char(d, ',') {
                    let i = choose|i: int| 0 <= i < d.len() && d[i] == ',';
                }
            }
        },
        PageSpec::Even => {
            lemma_trim_id(d);
            assert(!has_char(d, ',')) by {
                if has_char(d, ',') {
                    let i = choose|i: int| 0 <= i < d.len() && d[i] == ',';
                }
            }
        },
        PageSpec::First => {
            lemma_trim_id(d);
            assert(!has_char(d, ',')) by {
                if has_char(d, ',') {
                    let i = choose|i: int| 0 <= i < d.len() && d[i] == ',';
                }
            }
        },
        PageSpec::Last => {
            lemma_trim_id(d);
            assert(!has_char(d, ',')) by {
                if has_char(d, ',') {
                    let i = choose|i: int| 0 <= i < d.len() && d[i] == ',';
                }
            }
        },
        PageSpec::Exclude(_) => {},
    }
}

/// Printing a spec that parsing can produce and parsing the text back
/// gives that one spec again.
pub proof fn law_display_parse_roundtrip(p: PageSpec)
    requires
        well_formed(p),
    ensures
        parse_spec(display(p)) == Ok::<Seq<PageSpec>, Seq<char>>(seq![p]),
{
    reveal_strlit("!");
    let d = display(p);
    match p {
        PageSpec::Exclude(inner) => {
            let q = *inner;
            lemma_single_roundtrip(q);
            let e = display(q);
            assert(d =~= seq!['!'] + e);
            assert(d.drop_first() =~= e);
            assert(d.last() == e.last());
            lemma_trim_id(d);
            assert(!has_char(d, ',')) by {
                if has_char(d, ',') {
                    let i = choose|i: int| 0 <= i < d.len() && d[i] == ',';
                    assert(e[i - 1] == ',');
                }
            }
            lemma_split_no_sep(d, ',');
            assert(seq![d].drop_first() =~= Seq::<Seq<char>>::empty());
            assert(d[0] == '!');
            assert(trim(d) == d);
            assert(single_spec(d.drop_first()) == Ok::<PageSpec, Seq<char>>(q));
            assert(PageSpec::Exclude(Box::new(q)) == p);
            assert(part_spec(d) == Ok::<PageSpec, Seq<char>>(p));
            assert(split_on(d, ',')[0] == d);
            assert(parts_spec(Seq::<Seq<char>>::empty()) == Ok::<Seq<PageSpec>, Seq<char>>(Seq::empty()));
            assert(seq![p] + Seq::<PageSpec>::empty() =~= seq![p]);
        },
        _ => {
            lemma_single_roundtrip(p);
            lemma_trim_id(d);
            lemma_split_no_sep(d, ',');
            assert(seq![d].drop_first() =~= Seq::<Seq<char>>::empty());
            assert(seq![p] + Seq::<PageSpec>::empty() =~= seq![p]);
        },
    }
}

/// Every spec that a piece parses to is well formed.
proof fn lemma_single_well_formed(s: Seq<char>)
    ensures
        single_spec(s) matches Ok(p) ==> well_formed(p) && !(p is Exclude) && well_formed(
            PageSpec::Exclude(Box::new(p)),
        ),
{
}

/// A qpdf range item `a-b`.
pub open spec fn range_item(a: nat, b: nat) -> Seq<char> {
    dec(a) + "-"@ + dec(b)
}

/// A qpdf range item `a-z`, from `a` to the last page.
pub open spec fn open_item(a: nat) -> Seq<char> {
    dec(a) + "-z"@
}

/// Whether a qpdf item names only pages up to `total`: a page `a`, a range
/// `a-b`, or a range `a-z` to the last page, with `a` and `b` at most
/// `total`.
pub open spec fn item_within(item: Seq<char>, total: nat) -> bool {
    ||| exists|a: nat| a <= total && #[trigger] dec(a) == item
    ||| exists|a: nat, b: nat| a <= total && b <= total && #[trigger] range_item(a, b) == item
    ||| exists|a: nat| a <= total && #[trigger] open_item(a) == item
}

/// Whether every item names only pages up to `total`.
pub open spec fn all_within(items: Seq<Seq<char>>, total: nat) -> bool {
    forall|k: int| 0 <= k < items.len() ==> item_within(#[trigger] items[k], total)
}

/// The items of one spec name only pages of the document.
proof fn lemma_items_within(p: PageSpec, total: nat)
    requires
        total >= 1,
    ensures
        qpdf_items(p, total) matches Ok(items) ==> all_within(items, total),
{
    match p {
        PageSpec::Page(n) => {
            let a = n as nat;
            assert(a <= total ==> item_within(dec(a), total));
        },
        PageSpec::Range { start, end } => {
            let a = start as nat;
            match end {
                Some(x) => {
                    assert(a <= total && x <= total ==> item_within(range_item(a, x as nat), total));
                },
                None => {
                    assert(a <= total ==> item_within(open_item(a), total));
                },
            }
        },
        PageSpec::Odd => {
            let items = odd_pages(total);
            assert forall|k: int| 0 <= k < items.len() implies item_within(#[trigger] items[k], total) by {
                let a = (2 * k + 1) as nat;
                assert(items[k] == dec(a));
                assert(a <= total);
            }
        },
        PageSpec::Even => {
            let items = even_pages(total);
            assert forall|k: int| 0 <= k < items.len() implies item_within(#[trigger] items[k], total) by {
                let a = (2 * k + 2) as nat;
                assert(items[k] == dec(a));
                assert(a <= total);
            }
        },
        PageSpec::First => {
            reveal_strlit("1");
            assert(dec(1) =~= "1"@);
            assert(item_within(dec(1), total));
        },
        PageSpec::Last => {
            assert(item_within(dec(total), total));
        },
        PageSpec::Exclude(_) => {},
    }
}

/// A qpdf page list never names a page beyond the end of a document of
/// `total` pages (of at least one page): every item is a page, a range, or
/// a range to the last page, whose numbers are at most `total`.
pub proof fn law_qpdf_pages_within(specs: Seq<PageSpec>, total: nat)
    requires
        total >= 1,
    ensures
        qpdf_list(specs, total) matches Ok(items) ==> all_within(items, total),
    decreases specs.len(),
{
    if specs.len() > 0 {
        lemma_items_within(specs[0], total);
        law_qpdf_pages_within(specs.drop_first(), total);
        if let (Ok(items), Ok(rest)) = (qpdf_items(specs[0], total), qpdf_list(specs.drop_first(), total)) {
            let all = items + rest;
            assert forall|k: int| 0 <= k < all.len() implies item_within(#[trigger] all[k], total) by {
                if k < items.len() {
                    assert(all[k] == items[k]);
                } else {
                    assert(all[k] == rest[k - items.len()]);
                }
            }
        }
    }
}

/// Splitting `x,d` where `d` holds no separator gives the pieces of `x`
/// followed by `d`.
proof fn lemma_split_push_piece(x: Seq<char>, d: Seq<char>, sep: char)
    requires
        !has_char(d, sep),
    ensures
        split_on(x.push(sep) + d, sep) == split_on(x, sep).push(d),
    decreases d.len(),
{
    if d.len() == 0 {
        assert(x.push(sep) + d =~= x.push(sep));
        assert(x.push(sep).drop_last() =~= x);
        assert(d =~= Seq::<char>::empty());
    } else {
        let d2 = d.drop_last();
        let c = d.last();
        assert(!has_char(d2, sep)) by {
            if has_char(d2, sep) {
                let i = choose|i: int| 0 <= i < d2.len() && d2[i] == sep;
                assert(d[i] == sep);
            }
        }
        assert(c != sep) by {
            assert(d[d.len() - 1] == c);
        }
        lemma_split_push_piece(x, d2, sep);
        assert((x.push(sep) + d).drop_last() =~= x.push(sep) + d2);
        assert((x.push(sep) + d).last() == c);
        let y = split_on(x, sep).push(d2);
        assert(y.update(y.len() - 1, y.last().push(c)) =~= split_on(x, sep).push(d2.push(c)));
        assert(d2.push(c) =~= d);
    }
}

/// Splitting pieces joined with commas gives the pieces back, when none
/// holds a comma.
proof fn lemma_split_join(ds: Seq<Seq<char>>)
    requires
        ds.len() > 0,
        forall|i: int| 0 <= i < ds.len() ==> !has_char(#[trigger] ds[i], ','),
    ensures
        split_on(join(ds, ","@), ',') == ds,
    decreases ds.len(),
{
    reveal_strlit(",");
    if ds.len() == 1 {
        lemma_split_no_sep(ds[0], ',');
        assert(seq![ds[0]] =~= ds);
    } else {
        let x = join(ds.drop_last(), ","@);
        lemma_split_join(ds.drop_last());
        assert(x + ","@ + ds.last() =~= x.push(',') + ds.last());
        assert(!has_char(ds.last(), ',')) by {
            assert(ds[ds.len() - 1] == ds.last());
        }
        lemma_split_push_piece(x, ds.last(), ',');
        assert(ds.drop_last().push(ds.last()) =~= ds);
    }
}

/// A well-formed spec prints without commas, as one piece that parses
/// back to it.
proof fn lemma_display_piece(p: PageSpec)
    requires
        well_formed(p),
    ensures
        !has_char(display(p), ','),
        parts_spec(seq![display(p)]) == Ok::<Seq<PageSpec>, Seq<char>>(seq![p]),
{
    law_display_parse_roundtrip(p);
    match p {
        PageSpec::Exclude(inner) => {
            lemma_single_roundtrip(*inner);
            let d = display(*inner);
            reveal_strlit("!");
            assert(display(p) =~= seq!['!'] + d);
            if has_char(display(p), ',') {
                let i = choose|i: int| 0 <= i < display(p).len() && display(p)[i] == ',';
                assert(i > 0);
                assert(d[i - 1] == ',');
            }
        },
        _ => {
            lemma_single_roundtrip(p);
        },
    }
    lemma_split_no_sep(display(p), ',');
}

/// The pieces of a list of well-formed specs parse back to the list.
proof fn lemma_parts_displays(v: Seq<PageSpec>)
    requires
        forall|i: int| 0 <= i < v.len() ==> well_formed(#[trigger] v[i]),
    ensures
        parts_spec(v.map_values(|p: PageSpec| display(p))) == Ok::<Seq<PageSpec>, Seq<char>>(v),
    decreases v.len(),
{
    let ds = v.map_values(|p: PageSpec| display(p));
    if v.len() == 0 {
        assert(ds =~= Seq::<Seq<char>>::empty());
        assert(v =~= Seq::<PageSpec>::empty());
    } else {
        let rest = v.drop_first();
        assert(ds.drop_first() =~= rest.map_values(|p: PageSpec| display(p)));
        assert(forall|i: int| 0 <= i < rest.len() ==> well_formed(#[trigger] rest[i])) by {
            assert forall|i: int| 0 <= i < rest.len() implies well_formed(#[trigger] rest[i]) by {
                assert(rest[i] == v[i + 1]);
            }
        }
        lemma_parts_displays(rest);
        lemma_display_piece(v[0]);
        let d = display(v[0]);
        assert(ds[0] == d);
        assert(seq![d].drop_first() =~= Seq::<Seq<char>>::empty());
        assert(seq![d][0] == d);
        let t = trim(d);
        let single = seq![d];
        assert(parts_spec(single.drop_first()) == Ok::<Seq<PageSpec>, Seq<char>>(Seq::empty()));
        if t.len() == 0 {
            assert(parts_spec(single) == parts_spec(single.drop_first()));
            assert(seq![v[0]].len() == 1);
        }
        assert(t.len() > 0);
        match part_spec(t) {
            Err(e) => {
                assert(parts_spec(single) == Err::<Seq<PageSpec>, Seq<char>>(e));
            },
            Ok(x) => {
                assert(parts_spec(single) == Ok::<Seq<PageSpec>, Seq<char>>(seq![x] + Seq::<PageSpec>::empty()));
                assert((seq![x] + Seq::<PageSpec>::empty())[0] == x);
                assert(seq![v[0]][0] == v[0]);
                assert(x == v[0]);
                assert(parts_spec(ds) == Ok::<Seq<PageSpec>, Seq<char>>(seq![x] + rest));
                assert(seq![v[0]] + rest =~= v);
            },
        }
    }
}

/// Printing a list of well-formed specs (such as any list that parsing
/// gives) joined with commas, and parsing that, gives the list back.
pub proof fn law_list_display_parse_roundtrip(v: Seq<PageSpec>)
    requires
        forall|i: int| 0 <= i < v.len() ==> well_formed(#[trigger] v[i]),
    ensures
        parse_spec(join(v.map_values(|p: PageSpec| display(p)), ","@)) == Ok::<Seq<PageSpec>, Seq<char>>(v),
{
    let ds = v.map_values(|p: PageSpec| display(p));
    lemma_parts_displays(v);
    if v.len() == 0 {
        assert(ds.len() == 0);
        assert(join(ds, ","@) =~= Seq::<char>::empty());
        assert(split_on(Seq::<char>::empty(), ',') == seq![Seq::<char>::empty()]);
        assert(seq![Seq::<char>::empty()].drop_first() =~= Seq::<Seq<char>>::empty());
        assert(trim(Seq::<char>::empty()).len() == 0);
        assert(v =~= Seq::<PageSpec>::empty());
        assert(parts_spec(seq![Seq::<char>::empty()]) == parts_spec(Seq::<Seq<char>>::empty()));
        assert(parse_spec(join(ds, ","@)) == parts_spec(split_on(join(ds, ","@), ',')));
    } else {
        assert forall|i: int| 0 <= i < ds.len() implies !has_char(#[trigger] ds[i], ',') by {
            lemma_display_piece(v[i]);
        }
        lemma_split_join(ds);
        assert(parse_spec(join(ds, ","@)) == parts_spec(split_on(join(ds, ","@), ',')));
    }
}

} // verus!
