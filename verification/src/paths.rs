//! File names, extensions and stems of `/`-separated paths.
//!
//! These follow the rules of `std::path::Path` on Unix: the file name is
//! the last component (empty components and `.` components do not count,
//! and a final `..` has no file name); the extension is what follows the
//! last `.` of the file name unless that dot is the name's first
//! character; the stem is the name without its extension.
use vstd::prelude::*;
use crate::text::{has_char, split_on, split_chars, to_chars, from_chars, lemma_split_nonempty};

verus! {

broadcast use vstd::string::group_string_axioms;

/// The last component among `segs` that is neither empty nor `.`.
pub open spec fn last_named(segs: Seq<Seq<char>>) -> Option<Seq<char>>
    decreases segs.len(),
{
    if segs.len() == 0 {
        None
    } else if segs.last().len() == 0 || segs.last() == seq!['.'] {
        last_named(segs.drop_last())
    } else {
        Some(segs.last())
    }
}

/// The file name of a path (`Path::file_name`).
pub open spec fn file_name(p: Seq<char>) -> Option<Seq<char>> {
    match last_named(split_on(p, '/')) {
        Some(x) => if x == seq!['.', '.'] {
            None
        } else {
            Some(x)
        },
        None => None,
    }
}

/// The index of the last `c` in `s`, or -1.
pub open spec fn last_index_of(s: Seq<char>, c: char) -> int
    decreases s.len(),
{
    if s.len() == 0 {
        -1
    } else if s.last() == c {
        s.len() - 1
    } else {
        last_index_of(s.drop_last(), c)
    }
}

/// The extension of a file name (`Path::extension` on the name).
pub open spec fn name_extension(name: Seq<char>) -> Option<Seq<char>> {
    let i = last_index_of(name, '.');
    if i <= 0 {
        None
    } else {
        Some(name.skip(i + 1))
    }
}

/// The stem of a file name (`Path::file_stem` on the name).
pub open spec fn name_stem(name: Seq<char>) -> Seq<char> {
    let i = last_index_of(name, '.');
    if i <= 0 {
        name
    } else {
        name.take(i)
    }
}

/// The extension of a path.
pub open spec fn extension(p: Seq<char>) -> Option<Seq<char>> {
    match file_name(p) {
        Some(n) => name_extension(n),
        None => None,
    }
}

/// The stem of a path.
pub open spec fn file_stem(p: Seq<char>) -> Option<Seq<char>> {
    match file_name(p) {
        Some(n) => Some(name_stem(n)),
        None => None,
    }
}

proof fn lemma_last_index_range(s: Seq<char>, c: char)
    ensures
        -1 <= last_index_of(s, c) < s.len(),
        last_index_of(s, c) >= 0 ==> s[last_index_of(s, c)] == c,
    decreases s.len(),
{
    if s.len() > 0 && s.last() != c {
        lemma_last_index_range(s.drop_last(), c);
    }
}

/// The index of the last `c` in the run, or -1.
fn last_index_exec(s: &[char], c: char) -> (r: Option<usize>)
    ensures
        match r {
            Some(i) => i == last_index_of(s@, c),
            None => last_index_of(s@, c) == -1,
        },
{
    let mut j: usize = s.len();
    assert(s@.take(j as int) =~= s@);
    while j > 0 && s[j - 1] != c
        invariant
            j <= s@.len(),
            last_index_of(s@, c) == last_index_of(s@.take(j as int), c),
        decreases j,
    {
        assert(s@.take(j - 1) =~= s@.take(j as int).drop_last());
        j = j - 1;
    }
    if j == 0 {
        assert(s@.take(0) =~= Seq::<char>::empty());
        None
    } else {
        assert(s@.take(j as int).last() == c);
        Some(j - 1)
    }
}

fn is_dot(v: &[char]) -> (r: bool)
    ensures
        r == (v@ == seq!['.']),
{
    if v.len() == 1 && v[0] == '.' {
        assert(v@ =~= seq!['.']);
        true
    } else {
        false
    }
}

fn is_dot_dot(v: &[char]) -> (r: bool)
    ensures
        r == (v@ == seq!['.', '.']),
{
    if v.len() == 2 && v[0] == '.' && v[1] == '.' {
        assert(v@ =~= seq!['.', '.']);
        true
    } else {
        false
    }
}

/// The file name of a path, as characters.
pub fn file_name_chars(path: &[char]) -> (r: Option<Vec<char>>)
    ensures
        match file_name(path@) {
            Some(n) => r matches Some(v) && v@ == n,
            None => r is None,
        },
{
    let segs = split_chars(path, '/');
    let ghost all = split_on(path@, '/');
    let mut j: usize = segs.len();
    assert(all.take(j as int) =~= all);
    while j > 0 && (segs[j - 1].len() == 0 || is_dot(segs[j - 1].as_slice()))
        invariant
            j <= segs@.len(),
            segs@.len() == all.len(),
            all == split_on(path@, '/'),
            forall|i: int| 0 <= i < segs@.len() ==> #[trigger] segs@[i]@ == all[i],
            last_named(all) == last_named(all.take(j as int)),
        decreases j,
    {
        assert(all.take(j - 1) =~= all.take(j as int).drop_last());
        j = j - 1;
    }
    if j == 0 {
        assert(all.take(0) =~= Seq::<Seq<char>>::empty());
        return None;
    }
    assert(all.take(j as int).last() == all[j - 1]);
    let name = &segs[j - 1];
    if is_dot_dot(name.as_slice()) {
        None
    } else {
        let mut v: Vec<char> = Vec::new();
        let n = name.len();
        for k in 0..n
            invariant
                n == name@.len(),
                v@ == name@.take(k as int),
        {
            v.push(name[k]);
            assert(name@.take(k + 1) =~= name@.take(k as int).push(name@[k as int]));
        }
        assert(name@.take(n as int) =~= name@);
        Some(v)
    }
}

/// The file name of a path (`None` when the path has none).
pub fn file_name_of(path: &str) -> (r: Option<String>)
    ensures
        match file_name(path@) {
            Some(n) => r matches Some(s) && s@ == n,
            None => r is None,
        },
{
    let chars = to_chars(path);
    match file_name_chars(chars.as_slice()) {
        Some(v) => Some(from_chars(v.as_slice())),
        None => None,
    }
}

/// The extension of a path (`None` when its file name has no extension).
pub fn extension_of(path: &str) -> (r: Option<String>)
    ensures
        match extension(path@) {
            Some(e) => r matches Some(s) && s@ == e,
            None => r is None,
        },
{
    let chars = to_chars(path);
    match file_name_chars(chars.as_slice()) {
        None => None,
        Some(name) => {
            let found = last_index_exec(name.as_slice(), '.');
            proof {
                lemma_last_index_range(name@, '.');
            }
            let i = match found {
                Some(i) => i,
                None => {
                    return None;
                },
            };
            let n = name.len();
            assert(i < n);
            if i == 0 {
                None
            } else {
                let start = i + 1;
                let mut v: Vec<char> = Vec::new();
                for k in start..n
                    invariant
                        start <= n,
                        n == name@.len(),
                        v@ == name@.subrange(start as int, k as int),
                {
                    v.push(name[k]);
                    assert(name@.subrange(start as int, k + 1) =~= name@.subrange(
                        start as int,
                        k as int,
                    ).push(name@[k as int]));
                }
                assert(name@.subrange(start as int, n as int) =~= name@.skip(i + 1));
                Some(from_chars(v.as_slice()))
            }
        },
    }
}


/// The stem of a path: its file name without the extension.
pub fn file_stem_of(path: &str) -> (r: Option<String>)
    ensures
        match file_stem(path@) {
            Some(e) => r matches Some(s) && s@ == e,
            None => r is None,
        },
{
    let chars = to_chars(path);
    match file_name_chars(chars.as_slice()) {
        None => None,
        Some(name) => {
            let found = last_index_exec(name.as_slice(), '.');
            proof {
                lemma_last_index_range(name@, '.');
            }
            let n = name.len();
            let end: usize = match found {
                Some(i) => if i == 0 {
                    n
                } else {
                    i
                },
                None => n,
            };
            let mut v: Vec<char> = Vec::new();
            for k in 0..end
                invariant
                    end <= n,
                    n == name@.len(),
                    v@ == name@.take(k as int),
            {
                v.push(name[k]);
                assert(name@.take(k + 1) =~= name@.take(k as int).push(name@[k as int]));
            }
            assert(name@.take(n as int) =~= name@);
            Some(from_chars(v.as_slice()))
        },
    }
}

/// What `std::path::Path::join` gives for these two paths, as text.
pub uninterp spec fn path_joined(base: Seq<char>, name: Seq<char>) -> Seq<char>;

/// What `std::path::Path::with_file_name` gives for a path and a new
/// file name, as text.
pub uninterp spec fn path_renamed(path: Seq<char>, name: Seq<char>) -> Seq<char>;

/// What `std::path::Path::with_extension` gives for a path and an
/// extension, as text.
pub uninterp spec fn path_with_ext(path: Seq<char>, ext: Seq<char>) -> Seq<char>;

/// Whether `std::path::Path` considers the two paths equal (it compares
/// their components).
pub uninterp spec fn path_same(a: Seq<char>, b: Seq<char>) -> bool;

/// What `std::path::Path::parent` gives for a path, as text: the path
/// without its last component, or none.
pub uninterp spec fn path_parent(path: Seq<char>) -> Option<Seq<char>>;

/// The parent of `path` (`Path::parent`), as text.  Its documentation
/// says that the empty path has none; nothing else is claimed of the
/// result beyond its being a function of the text.
#[verifier::external_body]
pub(crate) fn parent_of(path: &str) -> (r: Option<String>)
    ensures
        match r {
            Some(p) => path_parent(path@) == Some(p@),
            None => path_parent(path@) is None,
        },
        path@.len() == 0 ==> r is None,
{
    match std::path::Path::new(path).parent() {
        Some(p) => Some(p.display().to_string()),
        None => None,
    }
}

/// `base` joined with `name` (`Path::join`).  Nothing is claimed of the
/// result beyond its being a function of the two texts.
#[verifier::external_body]
pub(crate) fn join_path(base: &str, name: &str) -> (r: String)
    ensures
        r@ == path_joined(base@, name@),
{
    std::path::Path::new(base).join(name).display().to_string()
}

/// `path` with its file name replaced by `name` (`Path::with_file_name`).
/// Nothing is claimed of the result beyond its being a function of the
/// two texts.
#[verifier::external_body]
pub(crate) fn with_file_name(path: &str, name: &str) -> (r: String)
    ensures
        r@ == path_renamed(path@, name@),
{
    std::path::Path::new(path).with_file_name(name).display().to_string()
}

/// `path` with its extension set to `ext` (`Path::with_extension`), which
/// panics on an extension holding a path separator; such extensions are
/// excluded.
/// Nothing is claimed of the result beyond its being a function of the
/// two texts.
#[verifier::external_body]
pub(crate) fn with_extension(path: &str, ext: &str) -> (r: String)
    requires
        !has_char(ext@, '/'),
        !has_char(ext@, '\\'),
    ensures
        r@ == path_with_ext(path@, ext@),
{
    std::path::Path::new(path).with_extension(ext).display().to_string()
}

/// Whether two paths are equal as `Path` compares them; a path is equal
/// to itself (`Path` is `Eq`).
#[verifier::external_body]
pub(crate) fn same_path(a: &str, b: &str) -> (r: bool)
    ensures
        r == path_same(a@, b@),
        a@ == b@ ==> r,
{
    std::path::Path::new(a) == std::path::Path::new(b)
}

} // verus!
