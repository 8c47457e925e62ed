//! ocrmypdf: adding a searchable text layer to scanned PDFs.
use vstd::prelude::*;
use crate::error::ForgeKitError;
use crate::text::{
    from_chars, push_text, split_chars, split_on, str_eq, texts, to_chars, trim, trim_chars,
};

verus! {

broadcast use vstd::string::group_string_axioms;

/// ocrmypdf adapter.
pub struct OcrmypdfTool;

/// The lines, trimmed, without the blank ones.
pub open spec fn nonblank_trimmed(lines: Seq<Seq<char>>) -> Seq<Seq<char>>
    decreases lines.len(),
{
    if lines.len() == 0 {
        Seq::<Seq<char>>::empty()
    } else {
        let rest = nonblank_trimmed(lines.drop_last());
        let t = trim(lines.last());
        if t.len() > 0 {
            rest.push(t)
        } else {
            rest
        }
    }
}

/// The languages `tesseract --list-langs` reports: every non-blank line
/// after the header, trimmed; just `eng` when it failed or listed none.
pub open spec fn listed_languages(success: bool, stdout: Seq<char>) -> Seq<Seq<char>> {
    let found = nonblank_trimmed(split_on(stdout, '\n').drop_first());
    if success && found.len() > 0 {
        found
    } else {
        seq!["eng"@]
    }
}

/// Whether `lang` is one of the languages that could be listed.
pub open spec fn language_listed(langs: Result<Vec<String>, ForgeKitError>, lang: Seq<char>) -> bool {
    match langs {
        Ok(v) => texts(v@).contains(lang),
        Err(_) => false,
    }
}

impl OcrmypdfTool {
    /// The tool's name.
    pub fn name(&self) -> (r: &'static str)
        ensures
            r@ == "ocrmypdf"@,
    {
        "ocrmypdf"
    }

    /// The available OCR languages, from whether `tesseract --list-langs`
    /// succeeded and what it printed.
    pub fn languages_from_output(success: bool, stdout: &str) -> (r: Vec<String>)
        ensures
            texts(r@) == listed_languages(success, stdout@),
    {
        let mut found: Vec<String> = Vec::new();
        if success {
            let c = to_chars(stdout);
            let lines = split_chars(c.as_slice(), '\n');
            let ghost all = split_on(stdout@, '\n');
            proof {
                crate::text::lemma_split_nonempty(stdout@, '\n');
            }
            let n = lines.len();
            let mut i: usize = 1;
            assert(all.drop_first().take(0) =~= Seq::<Seq<char>>::empty());
            while i < n
                invariant
                    1 <= i <= n,
                    n == lines@.len(),
                    all == split_on(stdout@, '\n'),
                    n == all.len(),
                    forall|k: int| 0 <= k < n ==> #[trigger] lines@[k]@ == all[k],
                    texts(found@) == nonblank_trimmed(all.drop_first().take(i - 1)),
                decreases n - i,
            {
                let t = trim_chars(lines[i].as_slice());
                proof {
                    assert(all.drop_first().take(i as int) =~= all.drop_first().take(i - 1).push(
                        all[i as int],
                    ));
                    assert(all.drop_first().take(i as int).drop_last() =~= all.drop_first().take(
                        i - 1,
                    ));
                }
                if t.len() > 0 {
                    let s = from_chars(t.as_slice());
                    crate::text::push_string(&mut found, s);
                }
                i = i + 1;
            }
            assert(all.drop_first().take(n - 1) =~= all.drop_first());
        }
        if found.len() == 0 {
            let mut eng: Vec<String> = Vec::new();
            push_text(&mut eng, "eng");
            assert(texts(eng@) =~= seq!["eng"@]);
            return eng;
        }
        found
    }

    /// Whether `lang` is among the languages listed, `false` when they
    /// could not be listed.
    pub fn is_language_available(&self, languages: &Result<Vec<String>, ForgeKitError>, lang: &str) -> (b:
        bool)
        ensures
            b == language_listed(*languages, lang@),
    {
        match languages {
            Ok(v) => {
                let n = v.len();
                for i in 0..n
                    invariant
                        n == v@.len(),
                        *languages == Ok::<Vec<String>, ForgeKitError>(*v),
                        forall|j: int| 0 <= j < i ==> v@[j]@ != lang@,
                {
                    if str_eq(v[i].as_str(), lang) {
                        assert(texts(v@)[i as int] == lang@);
                        assert(texts(v@).contains(lang@));
                        return true;
                    }
                }
                assert(!texts(v@).contains(lang@)) by {
                    if texts(v@).contains(lang@) {
                        let j = choose|j: int| 0 <= j < texts(v@).len() && texts(v@)[j] == lang@;
                        assert(v@[j]@ == lang@);
                    }
                }
                false
            },
            Err(_) => false,
        }
    }
}

} // verus!
