//! libvips: format conversion (`vips copy`), resizing (`vipsthumbnail`) and
//! metadata stripping.
use vstd::prelude::*;
use crate::error::{ForgeKitError, invalid_input, is_invalid_input};
use crate::text::{dec, join, join_strings, push_dec, push_str, push_string, push_text, string_of, texts};
use crate::tools::{command_line, command_line_of};

verus! {

broadcast use vstd::string::group_string_axioms;

/// libvips tool adapter.
pub struct LibvipsTool;

/// Save options: quality, PNG compression level, metadata stripping.
pub open spec fn save_options(quality: Option<u8>, compression: Option<u8>, strip: bool) -> Seq<
    Seq<char>,
> {
    (match quality {
        Some(q) => seq!["Q="@ + dec(q as nat)],
        None => Seq::empty(),
    }) + (match compression {
        Some(c) => seq!["compression="@ + dec(c as nat)],
        None => Seq::empty(),
    }) + (if strip {
        seq!["strip"@]
    } else {
        Seq::empty()
    })
}

/// The output path with its save options in brackets, if there are any.
pub open spec fn output_spec(output: Seq<char>, options: Seq<Seq<char>>) -> Seq<char> {
    if options.len() == 0 {
        output
    } else {
        output + "["@ + join(options, ","@) + "]"@
    }
}

/// Arguments of `vips` that convert an image.
pub open spec fn vips_convert_args(
    input: Seq<char>,
    output: Seq<char>,
    quality: Option<u8>,
    compression: Option<u8>,
    strip: bool,
) -> Seq<Seq<char>> {
    seq!["copy"@, input, output_spec(output, save_options(quality, compression, strip))]
}

/// The `-s` size of a resize: `WxH`, `Wx` or `xH`; none without a dimension.
pub open spec fn resize_size(width: Option<u32>, height: Option<u32>) -> Option<Seq<char>> {
    match (width, height) {
        (Some(w), Some(h)) => Some(dec(w as nat) + "x"@ + dec(h as nat)),
        (Some(w), None) => Some(dec(w as nat) + "x"@),
        (None, Some(h)) => Some("x"@ + dec(h as nat)),
        (None, None) => None,
    }
}

/// Arguments of `vipsthumbnail` that resize to `size`.
pub open spec fn vips_resize_args(input: Seq<char>, output: Seq<char>, size: Seq<char>) -> Seq<
    Seq<char>,
> {
    seq![input, "-s"@, size, "-o"@, output]
}

/// Arguments of `vips` that copy an image without its metadata.
pub open spec fn vips_strip_args(input: Seq<char>, output: Seq<char>) -> Seq<Seq<char>> {
    seq!["copy"@, input, output + "[strip]"@]
}

pub open spec fn msg_resize_needs_size() -> Seq<char> {
    "Width or height required for resize"@
}

/// The resize size text, if a dimension is given.
pub fn size_text(width: Option<u32>, height: Option<u32>) -> (r: Option<String>)
    ensures
        match resize_size(width, height) {
            Some(s) => r matches Some(t) && t@ == s,
            None => r is None,
        },
{
    match (width, height) {
        (Some(w), Some(h)) => {
            let mut s = String::new();
            push_dec(&mut s, w as u64);
            push_str(&mut s, "x");
            push_dec(&mut s, h as u64);
            Some(s)
        },
        (Some(w), None) => {
            let mut s = String::new();
            push_dec(&mut s, w as u64);
            push_str(&mut s, "x");
            Some(s)
        },
        (None, Some(h)) => {
            let mut s = string_of("x");
            push_dec(&mut s, h as u64);
            Some(s)
        },
        (None, None) => None,
    }
}

impl LibvipsTool {
    /// The tool's name.
    pub fn name(&self) -> (r: &'static str)
        ensures
            r@ == "vips"@,
    {
        "vips"
    }

    /// The output path decorated with its save options.
    fn output_with_options(output: &str, quality: Option<u8>, compression: Option<u8>, strip: bool) -> (r:
        String)
        ensures
            r@ == output_spec(output@, save_options(quality, compression, strip)),
    {
        let mut options: Vec<String> = Vec::new();
        match quality {
            Some(q) => {
                let mut o = string_of("Q=");
                push_dec(&mut o, q as u64);
                push_string(&mut options, o);
            },
            None => {},
        }
        match compression {
            Some(c) => {
                let mut o = string_of("compression=");
                push_dec(&mut o, c as u64);
                push_string(&mut options, o);
            },
            None => {},
        }
        if strip {
            push_text(&mut options, "strip");
        }
        assert(texts(options@) =~= save_options(quality, compression, strip));
        if options.len() == 0 {
            string_of(output)
        } else {
            let mut r = string_of(output);
            push_str(&mut r, "[");
            let j = join_strings(options.as_slice(), ",");
            push_str(&mut r, j.as_str());
            push_str(&mut r, "]");
            r
        }
    }

    /// Arguments of `vips` for converting an image, with optional quality,
    /// PNG compression level and metadata stripping.
    pub fn convert_args(
        input: &str,
        output: &str,
        quality: Option<u8>,
        compression: Option<u8>,
        strip: bool,
    ) -> (r: Vec<String>)
        ensures
            texts(r@) == vips_convert_args(input@, output@, quality, compression, strip),
    {
        let mut args: Vec<String> = Vec::new();
        push_text(&mut args, "copy");
        push_text(&mut args, input);
        push_string(&mut args, Self::output_with_options(output, quality, compression, strip));
        assert(texts(args@) =~= vips_convert_args(input@, output@, quality, compression, strip));
        args
    }

    /// Arguments of `vipsthumbnail` for resizing; a width or a height is
    /// needed.
    pub fn resize_args(input: &str, output: &str, width: Option<u32>, height: Option<u32>) -> (r:
        Result<Vec<String>, ForgeKitError>)
        ensures
            match resize_size(width, height) {
                Some(size) => r matches Ok(a) && texts(a@) == vips_resize_args(input@, output@, size),
                None => r matches Err(e) && is_invalid_input(e, Seq::empty(), msg_resize_needs_size()),
            },
    {
        match size_text(width, height) {
            None => Err(invalid_input(string_of("Width or height required for resize"))),
            Some(size) => {
                let ghost sz = size@;
                let mut args: Vec<String> = Vec::new();
                push_text(&mut args, input);
                push_text(&mut args, "-s");
                push_string(&mut args, size);
                push_text(&mut args, "-o");
                push_text(&mut args, output);
                assert(texts(args@) =~= vips_resize_args(input@, output@, sz));
                Ok(args)
            },
        }
    }

    /// Arguments of `vips` for stripping metadata.
    pub fn strip_args(input: &str, output: &str) -> (r: Vec<String>)
        ensures
            texts(r@) == vips_strip_args(input@, output@),
    {
        let mut args: Vec<String> = Vec::new();
        push_text(&mut args, "copy");
        push_text(&mut args, input);
        let mut o = string_of(output);
        push_str(&mut o, "[strip]");
        push_string(&mut args, o);
        assert(texts(args@) =~= vips_strip_args(input@, output@));
        args
    }

    /// The `--plan` text for a conversion.
    pub fn plan_convert(
        input: &str,
        output: &str,
        quality: Option<u8>,
        compression: Option<u8>,
        strip: bool,
    ) -> (r: String)
        ensures
            r@ == command_line("vips"@, vips_convert_args(input@, output@, quality, compression, strip)),
    {
        let args = Self::convert_args(input, output, quality, compression, strip);
        command_line_of("vips", args.as_slice())
    }

    /// The `--plan` text for a resize (`?` stands for a missing size).
    pub fn plan_resize(input: &str, output: &str, width: Option<u32>, height: Option<u32>) -> (r:
        String)
        ensures
            r@ == command_line(
                "vipsthumbnail"@,
                vips_resize_args(
                    input@,
                    output@,
                    match resize_size(width, height) {
                        Some(s) => s,
                        None => "?"@,
                    },
                ),
            ),
    {
        let size = match size_text(width, height) {
            Some(s) => s,
            None => string_of("?"),
        };
        let ghost sz = size@;
        let mut args: Vec<String> = Vec::new();
        push_text(&mut args, input);
        push_text(&mut args, "-s");
        push_string(&mut args, size);
        push_text(&mut args, "-o");
        push_text(&mut args, output);
        assert(texts(args@) =~= vips_resize_args(input@, output@, sz));
        command_line_of("vipsthumbnail", args.as_slice())
    }

    /// The `--plan` text for stripping metadata.
    pub fn plan_strip(input: &str, output: &str) -> (r: String)
        ensures
            r@ == command_line("vips"@, vips_strip_args(input@, output@)),
    {
        let args = Self::strip_args(input, output);
        command_line_of("vips", args.as_slice())
    }
}

} // verus!
