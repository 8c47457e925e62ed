//! ExifTool: reading and writing PDF metadata.
use vstd::prelude::*;
use crate::text::{
    eq_fold, eq_fold_exec, lower, from_chars, push_str, push_string, push_text, string_of, texts, to_chars,
    trim, trim_chars,
};

verus! {

broadcast use vstd::string::group_string_axioms;

/// ExifTool adapter.
pub struct ExiftoolTool;

/// PDF metadata fields supported for read/write operations.
#[derive(Debug, Clone, PartialEq, Eq)]
pub enum PdfMetadataField {
    Title,
    Author,
    Subject,
    Keywords,
    Creator,
    Producer,
    CreationDate,
    ModifyDate,
    /// Any other XMP or PDF metadata field, by name.
    Custom(String),
}

/// The standard field a name denotes, ignoring letter case, if any.
pub open spec fn known_field(s: Seq<char>) -> Option<PdfMetadataField> {
    if eq_fold(s, "title"@) {
        Some(PdfMetadataField::Title)
    } else if eq_fold(s, "author"@) {
        Some(PdfMetadataField::Author)
    } else if eq_fold(s, "subject"@) {
        Some(PdfMetadataField::Subject)
    } else if eq_fold(s, "keywords"@) {
        Some(PdfMetadataField::Keywords)
    } else if eq_fold(s, "creator"@) {
        Some(PdfMetadataField::Creator)
    } else if eq_fold(s, "producer"@) {
        Some(PdfMetadataField::Producer)
    } else if eq_fold(s, "creationdate"@) || eq_fold(s, "createdate"@) || eq_fold(
        s,
        "creation_date"@,
    ) {
        Some(PdfMetadataField::CreationDate)
    } else if eq_fold(s, "modifydate"@) || eq_fold(s, "moddate"@) || eq_fold(s, "modify_date"@) {
        Some(PdfMetadataField::ModifyDate)
    } else {
        None
    }
}

/// The exiftool tag name of a field.
pub open spec fn tag_of(f: PdfMetadataField) -> Seq<char> {
    match f {
        PdfMetadataField::Title => "Title"@,
        PdfMetadataField::Author => "Author"@,
        PdfMetadataField::Subject => "Subject"@,
        PdfMetadataField::Keywords => "Keywords"@,
        PdfMetadataField::Creator => "Creator"@,
        PdfMetadataField::Producer => "Producer"@,
        PdfMetadataField::CreationDate => "CreateDate"@,
        PdfMetadataField::ModifyDate => "ModifyDate"@,
        PdfMetadataField::Custom(name) => name@,
    }
}

/// The exiftool tag for a field given by name: standard fields by their
/// tag, any other name as it is.
pub open spec fn tag_for_name(s: Seq<char>) -> Seq<char> {
    match known_field(s) {
        Some(f) => tag_of(f),
        None => s,
    }
}

/// Arguments that read all PDF and XMP metadata as JSON.
pub open spec fn read_json_args(pdf: Seq<char>) -> Seq<Seq<char>> {
    seq!["-json"@, "-PDF:all"@, "-XMP:all"@, pdf]
}

/// Arguments that print only the value of one field.
pub open spec fn read_field_args(pdf: Seq<char>, field: Seq<char>) -> Seq<Seq<char>> {
    seq!["-s"@, "-s"@, "-s"@, "-"@ + field, pdf]
}

/// The `-TAG=VALUE` assignments for the given (field, value) pairs.
pub open spec fn assignments(fields: Seq<(Seq<char>, Seq<char>)>) -> Seq<Seq<char>> {
    fields.map_values(|p: (Seq<char>, Seq<char>)| "-"@ + tag_for_name(p.0) + "="@ + p.1)
}

/// The (field, value) texts of metadata pairs.
pub open spec fn pair_texts(m: Seq<(String, String)>) -> Seq<(Seq<char>, Seq<char>)> {
    m.map_values(|p: (String, String)| (p.0@, p.1@))
}

/// Arguments that write metadata into a PDF, in place.
pub open spec fn write_args(pdf: Seq<char>, fields: Seq<(Seq<char>, Seq<char>)>, overwrite: bool) -> Seq<
    Seq<char>,
> {
    (if overwrite {
        seq!["-overwrite_original"@]
    } else {
        Seq::empty()
    }) + assignments(fields) + seq![pdf]
}

/// Whether `s` matches `kw` character by character, ignoring case.
spec fn fold_matches(s: Seq<char>, kw: Seq<char>) -> bool
    decreases s.len(),
{
    if s.len() == 0 {
        kw.len() == 0
    } else {
        kw.len() > 0 && lower(s[0]) == kw[0] && fold_matches(s.drop_first(), kw.drop_first())
    }
}

/// Matching character by character is matching ignoring case.
proof fn lemma_fold_matches(s: Seq<char>, kw: Seq<char>)
    requires
        fold_matches(s, kw),
    ensures
        eq_fold(s, kw),
    decreases s.len(),
{
    if s.len() > 0 {
        lemma_fold_matches(s.drop_first(), kw.drop_first());
        assert forall|i: int| 0 <= i < s.len() implies lower(#[trigger] s[i]) == kw[i] by {
            if i > 0 {
                assert(s.drop_first()[i - 1] == s[i]);
                assert(kw.drop_first()[i - 1] == kw[i]);
                assert(lower(s.drop_first()[i - 1]) == kw.drop_first()[i - 1]);
            }
        }
    }
}

/// A field's exiftool tag reads back as that field: the standard fields
/// by their tags, ignoring case, and a custom field whose name is no
/// standard field's name as itself.
pub proof fn law_tag_parse_roundtrip(f: PdfMetadataField)
    requires
        f matches PdfMetadataField::Custom(name) ==> known_field(name@) is None,
    ensures
        match f {
            PdfMetadataField::Custom(name) => known_field(tag_of(f)) is None && tag_of(f) == name@,
            _ => known_field(tag_of(f)) == Some(f),
        },
{
    reveal_strlit("Title");
    reveal_strlit("Author");
    reveal_strlit("Subject");
    reveal_strlit("Keywords");
    reveal_strlit("Creator");
    reveal_strlit("Producer");
    reveal_strlit("CreateDate");
    reveal_strlit("ModifyDate");
    reveal_strlit("title");
    reveal_strlit("author");
    reveal_strlit("subject");
    reveal_strlit("keywords");
    reveal_strlit("creator");
    reveal_strlit("producer");
    reveal_strlit("creationdate");
    reveal_strlit("createdate");
    reveal_strlit("creation_date");
    reveal_strlit("modifydate");
    reveal_strlit("moddate");
    reveal_strlit("modify_date");
    match f {
        PdfMetadataField::Title => {
            assert(fold_matches("Title"@, "title"@)) by {
                reveal_with_fuel(fold_matches, 6);
            }
            lemma_fold_matches("Title"@, "title"@);
        },
        PdfMetadataField::Author => {
            assert(fold_matches("Author"@, "author"@)) by {
                reveal_with_fuel(fold_matches, 7);
            }
            lemma_fold_matches("Author"@, "author"@);
        },
        PdfMetadataField::Subject => {
            assert(fold_matches("Subject"@, "subject"@)) by {
                reveal_with_fuel(fold_matches, 8);
            }
            lemma_fold_matches("Subject"@, "subject"@);
        },
        PdfMetadataField::Keywords => {
            assert(fold_matches("Keywords"@, "keywords"@)) by {
                reveal_with_fuel(fold_matches, 9);
            }
            lemma_fold_matches("Keywords"@, "keywords"@);
        },
        PdfMetadataField::Creator => {
            assert(lower("Creator"@[0]) != "subject"@[0]);
            assert(fold_matches("Creator"@, "creator"@)) by {
                reveal_with_fuel(fold_matches, 8);
            }
            lemma_fold_matches("Creator"@, "creator"@);
        },
        PdfMetadataField::Producer => {
            assert(lower("Producer"@[0]) != "keywords"@[0]);
            assert(fold_matches("Producer"@, "producer"@)) by {
                reveal_with_fuel(fold_matches, 9);
            }
            lemma_fold_matches("Producer"@, "producer"@);
        },
        PdfMetadataField::CreationDate => {
            assert(fold_matches("CreateDate"@, "createdate"@)) by {
                reveal_with_fuel(fold_matches, 11);
            }
            lemma_fold_matches("CreateDate"@, "createdate"@);
        },
        PdfMetadataField::ModifyDate => {
            assert(lower("ModifyDate"@[0]) != "createdate"@[0]);
            assert(fold_matches("ModifyDate"@, "modifydate"@)) by {
                reveal_with_fuel(fold_matches, 11);
            }
            lemma_fold_matches("ModifyDate"@, "modifydate"@);
        },
        PdfMetadataField::Custom(_) => {},
    }
}

/// Two keywords that one name matches, ignoring case, are the same.
proof fn lemma_fold_unique(s: Seq<char>)
    ensures
        forall|a: Seq<char>, b: Seq<char>| #[trigger] eq_fold(s, a) && #[trigger] eq_fold(s, b) ==> a == b,
{
    assert forall|a: Seq<char>, b: Seq<char>| #[trigger] eq_fold(s, a) && #[trigger] eq_fold(s, b) implies a == b by {
        assert forall|i: int| 0 <= i < a.len() implies a[i] == b[i] by {
            assert(lower(s[i]) == a[i]);
            assert(lower(s[i]) == b[i]);
        }
        assert(a =~= b);
    }
}

/// Every accepted name of a standard field, in any letter case, reads as
/// that field: `title`, `author`, `subject`, `keywords`, `creator`,
/// `producer`; `creationdate`, `createdate` or `creation_date` for the
/// creation date; `modifydate`, `moddate` or `modify_date` for the
/// modification date.
pub proof fn law_field_aliases(s: Seq<char>)
    ensures
        eq_fold(s, "title"@) ==> known_field(s) == Some(PdfMetadataField::Title),
        eq_fold(s, "author"@) ==> known_field(s) == Some(PdfMetadataField::Author),
        eq_fold(s, "subject"@) ==> known_field(s) == Some(PdfMetadataField::Subject),
        eq_fold(s, "keywords"@) ==> known_field(s) == Some(PdfMetadataField::Keywords),
        eq_fold(s, "creator"@) ==> known_field(s) == Some(PdfMetadataField::Creator),
        eq_fold(s, "producer"@) ==> known_field(s) == Some(PdfMetadataField::Producer),
        eq_fold(s, "creationdate"@) ==> known_field(s) == Some(PdfMetadataField::CreationDate),
        eq_fold(s, "createdate"@) ==> known_field(s) == Some(PdfMetadataField::CreationDate),
        eq_fold(s, "creation_date"@) ==> known_field(s) == Some(PdfMetadataField::CreationDate),
        eq_fold(s, "modifydate"@) ==> known_field(s) == Some(PdfMetadataField::ModifyDate),
        eq_fold(s, "moddate"@) ==> known_field(s) == Some(PdfMetadataField::ModifyDate),
        eq_fold(s, "modify_date"@) ==> known_field(s) == Some(PdfMetadataField::ModifyDate),
{
    reveal_strlit("title");
    reveal_strlit("author");
    reveal_strlit("subject");
    reveal_strlit("keywords");
    reveal_strlit("creator");
    reveal_strlit("producer");
    reveal_strlit("creationdate");
    reveal_strlit("createdate");
    reveal_strlit("creation_date");
    reveal_strlit("modifydate");
    reveal_strlit("moddate");
    reveal_strlit("modify_date");
    lemma_fold_unique(s);
    assert("creator"@[0] != "subject"@[0]);
    assert("moddate"@[0] != "subject"@[0]);
    assert("moddate"@[0] != "creator"@[0]);
    assert("producer"@[0] != "keywords"@[0]);
    assert("modifydate"@[0] != "createdate"@[0]);
}

impl PdfMetadataField {
    /// The exiftool tag name for this field.
    pub fn to_exiftool_tag(&self) -> (r: String)
        ensures
            r@ == tag_of(*self),
    {
        match self {
            PdfMetadataField::Title => string_of("Title"),
            PdfMetadataField::Author => string_of("Author"),
            PdfMetadataField::Subject => string_of("Subject"),
            PdfMetadataField::Keywords => string_of("Keywords"),
            PdfMetadataField::Creator => string_of("Creator"),
            PdfMetadataField::Producer => string_of("Producer"),
            PdfMetadataField::CreationDate => string_of("CreateDate"),
            PdfMetadataField::ModifyDate => string_of("ModifyDate"),
            PdfMetadataField::Custom(name) => string_of(name.as_str()),
        }
    }
}

impl core::str::FromStr for PdfMetadataField {
    type Err = core::convert::Infallible;

    /// Reads a field name, ignoring letter case; any other name is a custom
    /// field.  Never fails.
    fn from_str(s: &str) -> (r: Result<Self, core::convert::Infallible>)
        ensures
            match known_field(s@) {
                Some(f) => r == Ok::<PdfMetadataField, core::convert::Infallible>(f),
                None => r matches Ok(PdfMetadataField::Custom(c)) && c@ == s@,
            },
    {
        let c = to_chars(s);
        let c = c.as_slice();
        Ok(
            if eq_fold_exec(c, "title") {
                PdfMetadataField::Title
            } else if eq_fold_exec(c, "author") {
                PdfMetadataField::Author
            } else if eq_fold_exec(c, "subject") {
                PdfMetadataField::Subject
            } else if eq_fold_exec(c, "keywords") {
                PdfMetadataField::Keywords
            } else if eq_fold_exec(c, "creator") {
                PdfMetadataField::Creator
            } else if eq_fold_exec(c, "producer") {
                PdfMetadataField::Producer
            } else if eq_fold_exec(c, "creationdate") || eq_fold_exec(c, "createdate")
                || eq_fold_exec(c, "creation_date") {
                PdfMetadataField::CreationDate
            } else if eq_fold_exec(c, "modifydate") || eq_fold_exec(c, "moddate") || eq_fold_exec(
                c,
                "modify_date",
            ) {
                PdfMetadataField::ModifyDate
            } else {
                PdfMetadataField::Custom(string_of(s))
            },
        )
    }
}

impl ExiftoolTool {
    /// The tool's name.
    pub fn name(&self) -> (r: &'static str)
        ensures
            r@ == "exiftool"@,
    {
        "exiftool"
    }

    /// Arguments for reading all PDF metadata as JSON.
    pub fn read_metadata_json_args(pdf_path: &str) -> (r: Vec<String>)
        ensures
            texts(r@) == read_json_args(pdf_path@),
    {
        let mut args: Vec<String> = Vec::new();
        push_text(&mut args, "-json");
        push_text(&mut args, "-PDF:all");
        push_text(&mut args, "-XMP:all");
        push_text(&mut args, pdf_path);
        assert(texts(args@) =~= read_json_args(pdf_path@));
        args
    }

    /// Arguments for reading one field's value.
    pub fn read_field_args(pdf_path: &str, field: &str) -> (r: Vec<String>)
        ensures
            texts(r@) == read_field_args(pdf_path@, field@),
    {
        let mut args: Vec<String> = Vec::new();
        push_text(&mut args, "-s");
        push_text(&mut args, "-s");
        push_text(&mut args, "-s");
        let mut t = string_of("-");
        push_str(&mut t, field);
        push_string(&mut args, t);
        push_text(&mut args, pdf_path);
        assert(texts(args@) =~= read_field_args(pdf_path@, field@));
        args
    }

    /// The value of a field as exiftool printed it: its output, trimmed
    /// (empty when the field is not set).
    pub fn field_value(stdout: &str) -> (r: String)
        ensures
            r@ == trim(stdout@),
    {
        let c = to_chars(stdout);
        let t = trim_chars(c.as_slice());
        from_chars(t.as_slice())
    }

    /// Arguments for writing (field, value) pairs into a PDF; standard
    /// field names are written under their exiftool tags.
    pub fn write_metadata_args(pdf_path: &str, metadata: &[(String, String)], overwrite_original: bool) -> (r:
        Vec<String>)
        ensures
            texts(r@) == write_args(pdf_path@, pair_texts(metadata@), overwrite_original),
    {
        let ghost fields = pair_texts(metadata@);
        let mut args: Vec<String> = Vec::new();
        if overwrite_original {
            push_text(&mut args, "-overwrite_original");
        }
        let ghost start = texts(args@);
        let n = metadata.len();
        for i in 0..n
            invariant
                n == metadata@.len(),
                fields == pair_texts(metadata@),
                texts(args@) == start + assignments(fields).take(i as int),
        {
            let (field, value) = &metadata[i];
            let parsed = <PdfMetadataField as core::str::FromStr>::from_str(field.as_str());
            let tag = match parsed {
                Ok(f) => {
                    let t = f.to_exiftool_tag();
                    proof {
                        match known_field(field@) {
                            Some(k) => {},
                            None => {},
                        }
                    }
                    t
                },
                Err(_) => string_of(field.as_str()),
            };
            let mut a = string_of("-");
            push_str(&mut a, tag.as_str());
            push_str(&mut a, "=");
            push_str(&mut a, value.as_str());
            push_string(&mut args, a);
            proof {
                assert(assignments(fields).take(i + 1) =~= assignments(fields).take(i as int).push(
                    assignments(fields)[i as int],
                ));
                assert(start + assignments(fields).take(i + 1) =~= (start + assignments(fields).take(
                    i as int,
                )).push(assignments(fields)[i as int]));
            }
        }
        assert(assignments(fields).take(n as int) =~= assignments(fields));
        push_text(&mut args, pdf_path);
        assert(texts(args@) =~= write_args(pdf_path@, fields, overwrite_original));
        args
    }
}

} // verus!
