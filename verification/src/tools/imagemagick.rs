//! ImageMagick: the fallback image tool (`magick convert` in version 7,
//! `convert` in version 6).
use vstd::prelude::*;
use crate::error::{ForgeKitError, invalid_input, is_invalid_input};
use crate::paths::{file_name, file_name_chars};
use crate::text::{
    contains, contains_exec, dec, lower_all, lower_all_exec, push_dec, push_string, push_text, string_of,
    texts, to_chars,
};
use crate::tools::libvips::{size_text, resize_size, msg_resize_needs_size};
use crate::tools::{command_line, command_line_of};

verus! {

broadcast use vstd::string::group_string_axioms;

/// ImageMagick tool adapter.
pub struct ImageMagickTool;

/// Whether a tool path names ImageMagick 7's `magick`, which takes the
/// operation as a subcommand.
pub open spec fn magick_v7(tool_path: Seq<char>) -> bool {
    match file_name(tool_path) {
        Some(n) => n.len() >= 6 && n.take(6) == "magick"@,
        None => false,
    }
}

/// The subcommand that version 7 needs.
pub open spec fn v7_prefix(tool_path: Seq<char>) -> Seq<Seq<char>> {
    if magick_v7(tool_path) {
        seq!["convert"@]
    } else {
        Seq::empty()
    }
}

/// Conversion arguments after the subcommand.
pub open spec fn im_convert_tail(
    input: Seq<char>,
    output: Seq<char>,
    quality: Option<u8>,
    strip: bool,
) -> Seq<Seq<char>> {
    seq![input] + (match quality {
        Some(q) => seq!["-quality"@, dec(q as nat)],
        None => Seq::empty(),
    }) + (if strip {
        seq!["-strip"@]
    } else {
        Seq::empty()
    }) + seq![output]
}

pub open spec fn im_resize_tail(input: Seq<char>, output: Seq<char>, size: Seq<char>) -> Seq<
    Seq<char>,
> {
    seq![input, "-resize"@, size, output]
}

pub open spec fn im_strip_tail(input: Seq<char>, output: Seq<char>) -> Seq<Seq<char>> {
    seq![input, "-strip"@, output]
}

/// Whether a version text is ImageMagick's: it mentions `imagemagick` in
/// any letter case.
pub open spec fn names_imagemagick(version: Seq<char>) -> bool {
    contains(lower_all(version), "imagemagick"@)
}

impl ImageMagickTool {
    /// Whether the program that printed `version` is ImageMagick rather
    /// than some other `convert`.
    pub fn is_imagemagick_version(version: &str) -> (b: bool)
        ensures
            b == names_imagemagick(version@),
    {
        let v = to_chars(version);
        let l = lower_all_exec(v.as_slice());
        let k = to_chars("imagemagick");
        contains_exec(l.as_slice(), k.as_slice())
    }

    /// The tool's name.
    pub fn name(&self) -> (r: &'static str)
        ensures
            r@ == "magick"@,
    {
        "magick"
    }

    /// Whether the tool path is ImageMagick 7's `magick` (file name starting
    /// with `magick`).
    pub fn is_magick_v7(tool_path: &str) -> (b: bool)
        ensures
            b == magick_v7(tool_path@),
    {
        let c = to_chars(tool_path);
        match file_name_chars(c.as_slice()) {
            None => false,
            Some(n) => {
                let m = to_chars("magick");
                proof {
                    reveal_strlit("magick");
                }
                if n.len() < 6 {
                    return false;
                }
                let mut k: usize = 0;
                while k < 6
                    invariant
                        k <= 6,
                        n@.len() >= 6,
                        file_name(tool_path@) == Some(n@),
                        m@ == "magick"@,
                        m@.len() == 6,
                        forall|j: int| 0 <= j < k ==> n@[j] == m@[j],
                    decreases 6 - k,
                {
                    if n[k] != m[k] {
                        assert(n@.take(6)[k as int] != "magick"@[k as int]);
                        return false;
                    }
                    k = k + 1;
                }
                assert(n@.take(6) =~= "magick"@);
                true
            },
        }
    }

    fn start_args(tool_path: &str) -> (r: Vec<String>)
        ensures
            texts(r@) == v7_prefix(tool_path@),
    {
        let mut args: Vec<String> = Vec::new();
        if Self::is_magick_v7(tool_path) {
            push_text(&mut args, "convert");
        }
        assert(texts(args@) =~= v7_prefix(tool_path@));
        args
    }

    fn push_convert_tail(args: &mut Vec<String>, input: &str, output: &str, quality: Option<u8>, strip: bool)
        ensures
            texts(final(args)@) == texts(old(args)@) + im_convert_tail(input@, output@, quality, strip),
    {
        push_text(args, input);
        match quality {
            Some(q) => {
                push_text(args, "-quality");
                let mut t = String::new();
                push_dec(&mut t, q as u64);
                push_string(args, t);
            },
            None => {},
        }
        if strip {
            push_text(args, "-strip");
        }
        push_text(args, output);
        assert(texts(args@) =~= texts(old(args)@) + im_convert_tail(input@, output@, quality, strip));
    }

    /// Arguments for converting an image with optional quality and
    /// metadata stripping.
    pub fn convert_args(tool_path: &str, input: &str, output: &str, quality: Option<u8>, strip: bool) -> (r:
        Vec<String>)
        ensures
            texts(r@) == v7_prefix(tool_path@) + im_convert_tail(input@, output@, quality, strip),
    {
        let mut args = Self::start_args(tool_path);
        Self::push_convert_tail(&mut args, input, output, quality, strip);
        args
    }

    /// Arguments for resizing (keeping the aspect ratio); a width or a
    /// height is needed.
    pub fn resize_args(
        tool_path: &str,
        input: &str,
        output: &str,
        width: Option<u32>,
        height: Option<u32>,
    ) -> (r: Result<Vec<String>, ForgeKitError>)
        ensures
            match resize_size(width, height) {
                Some(size) => r matches Ok(a) && texts(a@) == v7_prefix(tool_path@) + im_resize_tail(
                    input@,
                    output@,
                    size,
                ),
                None => r matches Err(e) && is_invalid_input(e, Seq::empty(), msg_resize_needs_size()),
            },
    {
        match size_text(width, height) {
            None => Err(invalid_input(string_of("Width or height required for resize"))),
            Some(size) => {
                let ghost sz = size@;
                let mut args = Self::start_args(tool_path);
                let ghost start = texts(args@);
                push_text(&mut args, input);
                push_text(&mut args, "-resize");
                push_string(&mut args, size);
                push_text(&mut args, output);
                assert(texts(args@) =~= start + im_resize_tail(input@, output@, sz));
                Ok(args)
            },
        }
    }

    /// Arguments for stripping metadata.
    pub fn strip_args(tool_path: &str, input: &str, output: &str) -> (r: Vec<String>)
        ensures
            texts(r@) == v7_prefix(tool_path@) + im_strip_tail(input@, output@),
    {
        let mut args = Self::start_args(tool_path);
        let ghost start = texts(args@);
        push_text(&mut args, input);
        push_text(&mut args, "-strip");
        push_text(&mut args, output);
        assert(texts(args@) =~= start + im_strip_tail(input@, output@));
        args
    }

    /// The `--plan` text for a conversion.
    pub fn plan_convert(input: &str, output: &str, quality: Option<u8>, strip: bool) -> (r: String)
        ensures
            r@ == command_line(
                "magick"@,
                seq!["convert"@] + im_convert_tail(input@, output@, quality, strip),
            ),
    {
        let mut args: Vec<String> = Vec::new();
        push_text(&mut args, "convert");
        assert(texts(args@) =~= seq!["convert"@]);
        Self::push_convert_tail(&mut args, input, output, quality, strip);
        command_line_of("magick", args.as_slice())
    }

    /// The `--plan` text for a resize (`?` stands for a missing size).
    pub fn plan_resize(input: &str, output: &str, width: Option<u32>, height: Option<u32>) -> (r:
        String)
        ensures
            r@ == command_line(
                "magick"@,
                seq!["convert"@] + im_resize_tail(
                    input@,
                    output@,
                    match resize_size(width, height) {
                        Some(s) => s,
                        None => "?"@,
                    },
                ),
            ),
    {
        let size = match size_text(width, height) {
            Some(s) => s,
            None => string_of("?"),
        };
        let ghost sz = size@;
        let mut args: Vec<String> = Vec::new();
        push_text(&mut args, "convert");
        push_text(&mut args, input);
        push_text(&mut args, "-resize");
        push_string(&mut args, size);
        push_text(&mut args, output);
        assert(texts(args@) =~= seq!["convert"@] + im_resize_tail(input@, output@, sz));
        command_line_of("magick", args.as_slice())
    }

    /// The `--plan` text for stripping metadata.
    pub fn plan_strip(input: &str, output: &str) -> (r: String)
        ensures
            r@ == command_line("magick"@, seq!["convert"@] + im_strip_tail(input@, output@)),
    {
        let mut args: Vec<String> = Vec::new();
        push_text(&mut args, "convert");
        push_text(&mut args, input);
        push_text(&mut args, "-strip");
        push_text(&mut args, output);
        assert(texts(args@) =~= seq!["convert"@] + im_strip_tail(input@, output@));
        command_line_of("magick", args.as_slice())
    }
}

} // verus!
