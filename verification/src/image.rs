//! Image formats: detection from extensions.
use vstd::prelude::*;
use crate::paths::{extension, extension_of};
use crate::text::{
    eq_fold, eq_fold_exec, has_char, lemma_fold_congruent, lemma_fold_plain, lower, plain_word, push_chars,
    push_str, to_chars,
};

verus! {

broadcast use vstd::string::group_string_axioms;

/// Supported image formats for conversion.
#[derive(Debug, Clone, Copy, PartialEq, Eq)]
pub enum ImageFormat {
    Jpeg,
    Png,
    WebP,
    Avif,
    Tiff,
    Gif,
}

/// The format an extension names, in any letter case.
pub open spec fn image_from_ext(e: Seq<char>) -> Option<ImageFormat> {
    if eq_fold(e, "jpg"@) || eq_fold(e, "jpeg"@) {
        Some(ImageFormat::Jpeg)
    } else if eq_fold(e, "png"@) {
        Some(ImageFormat::Png)
    } else if eq_fold(e, "webp"@) {
        Some(ImageFormat::WebP)
    } else if eq_fold(e, "avif"@) {
        Some(ImageFormat::Avif)
    } else if eq_fold(e, "tiff"@) || eq_fold(e, "tif"@) {
        Some(ImageFormat::Tiff)
    } else if eq_fold(e, "gif"@) {
        Some(ImageFormat::Gif)
    } else {
        None
    }
}

/// The canonical extension of a format.
pub open spec fn image_ext(f: ImageFormat) -> Seq<char> {
    match f {
        ImageFormat::Jpeg => "jpg"@,
        ImageFormat::Png => "png"@,
        ImageFormat::WebP => "webp"@,
        ImageFormat::Avif => "avif"@,
        ImageFormat::Tiff => "tiff"@,
        ImageFormat::Gif => "gif"@,
    }
}

/// No image extension holds a path separator.
pub proof fn lemma_image_ext_plain(f: ImageFormat)
    ensures
        !has_char(image_ext(f), '/'),
        !has_char(image_ext(f), '\\'),
{
    reveal_strlit("jpg");
    reveal_strlit("png");
    reveal_strlit("webp");
    reveal_strlit("avif");
    reveal_strlit("tiff");
    reveal_strlit("gif");
}

/// The format of a path, from its extension.
pub open spec fn image_from_path(p: Seq<char>) -> Option<ImageFormat> {
    match extension(p) {
        Some(e) => image_from_ext(e),
        None => None,
    }
}

pub open spec fn image_supported() -> Seq<char> {
    "jpg, jpeg, png, webp, avif, tiff, tif, gif"@
}

pub open spec fn image_unknown_msg(s: Seq<char>) -> Seq<char> {
    "Unknown image format: '"@ + s + "'. Supported: "@ + image_supported()
}

impl ImageFormat {
    /// Detects the format from a file extension, ignoring letter case.
    pub fn from_extension(ext: &str) -> (r: Option<Self>)
        ensures
            r == image_from_ext(ext@),
    {
        let e = to_chars(ext);
        let e = e.as_slice();
        if eq_fold_exec(e, "jpg") || eq_fold_exec(e, "jpeg") {
            Some(ImageFormat::Jpeg)
        } else if eq_fold_exec(e, "png") {
            Some(ImageFormat::Png)
        } else if eq_fold_exec(e, "webp") {
            Some(ImageFormat::WebP)
        } else if eq_fold_exec(e, "avif") {
            Some(ImageFormat::Avif)
        } else if eq_fold_exec(e, "tiff") || eq_fold_exec(e, "tif") {
            Some(ImageFormat::Tiff)
        } else if eq_fold_exec(e, "gif") {
            Some(ImageFormat::Gif)
        } else {
            None
        }
    }

    /// The canonical file extension.
    pub fn extension(&self) -> (r: &'static str)
        ensures
            r@ == image_ext(*self),
    {
        match self {
            ImageFormat::Jpeg => "jpg",
            ImageFormat::Png => "png",
            ImageFormat::WebP => "webp",
            ImageFormat::Avif => "avif",
            ImageFormat::Tiff => "tiff",
            ImageFormat::Gif => "gif",
        }
    }

    /// Detects the format from a file path's extension.
    pub fn from_path(path: &str) -> (r: Option<Self>)
        ensures
            r == image_from_path(path@),
    {
        match extension_of(path) {
            Some(e) => Self::from_extension(e.as_str()),
            None => None,
        }
    }

    /// All supported extensions, comma-separated.
    pub fn supported_extensions() -> (r: &'static str)
        ensures
            r@ == image_supported(),
    {
        "jpg, jpeg, png, webp, avif, tiff, tif, gif"
    }
}

impl core::str::FromStr for ImageFormat {
    type Err = String;

    /// Parses a format name; unknown names are refused with a message that
    /// lists the supported extensions.
    fn from_str(s: &str) -> (r: Result<Self, String>)
        ensures
            match image_from_ext(s@) {
                Some(f) => r == Ok::<ImageFormat, String>(f),
                None => r matches Err(m) && m@ == image_unknown_msg(s@),
            },
    {
        match Self::from_extension(s) {
            Some(f) => Ok(f),
            None => {
                let mut m = String::new();
                push_str(&mut m, "Unknown image format: '");
                let c = to_chars(s);
                push_chars(&mut m, c.as_slice());
                push_str(&mut m, "'. Supported: ");
                push_str(&mut m, Self::supported_extensions());
                Err(m)
            },
        }
    }
}

/// Every format's own extension detects that format.
pub proof fn law_image_extension_roundtrip(f: ImageFormat)
    ensures
        image_from_ext(image_ext(f)) == Some(f),
{
    reveal_strlit("jpg");
    reveal_strlit("jpeg");
    reveal_strlit("png");
    reveal_strlit("webp");
    reveal_strlit("avif");
    reveal_strlit("tiff");
    reveal_strlit("tif");
    reveal_strlit("gif");
    assert("jpg"@ =~= seq!['j', 'p', 'g']);
    assert("jpeg"@ =~= seq!['j', 'p', 'e', 'g']);
    assert("png"@ =~= seq!['p', 'n', 'g']);
    assert("webp"@ =~= seq!['w', 'e', 'b', 'p']);
    assert("avif"@ =~= seq!['a', 'v', 'i', 'f']);
    assert("tiff"@ =~= seq!['t', 'i', 'f', 'f']);
    assert("tif"@ =~= seq!['t', 'i', 'f']);
    assert("gif"@ =~= seq!['g', 'i', 'f']);
    let e = image_ext(f);
    assert(plain_word(e));
    lemma_fold_plain(e, "jpg"@);
    lemma_fold_plain(e, "jpeg"@);
    lemma_fold_plain(e, "png"@);
    lemma_fold_plain(e, "webp"@);
    lemma_fold_plain(e, "avif"@);
    lemma_fold_plain(e, "tiff"@);
    lemma_fold_plain(e, "tif"@);
    lemma_fold_plain(e, "gif"@);
}

/// Detection ignores letter case: two extensions that agree once folded to
/// lower case detect the same format.
pub proof fn law_image_case_insensitive(a: Seq<char>, b: Seq<char>)
    requires
        a.len() == b.len(),
        forall|i: int| 0 <= i < a.len() ==> lower(#[trigger] a[i]) == lower(b[i]),
    ensures
        image_from_ext(a) == image_from_ext(b),
{
    lemma_fold_congruent(a, b, "jpg"@);
    lemma_fold_congruent(a, b, "jpeg"@);
    lemma_fold_congruent(a, b, "png"@);
    lemma_fold_congruent(a, b, "webp"@);
    lemma_fold_congruent(a, b, "avif"@);
    lemma_fold_congruent(a, b, "tiff"@);
    lemma_fold_congruent(a, b, "tif"@);
    lemma_fold_congruent(a, b, "gif"@);
}

} // verus!
