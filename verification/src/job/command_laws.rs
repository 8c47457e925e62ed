//! What the commands of page extraction and compression read and write.
use vstd::prelude::*;
use crate::job::executor::{
    CommandView, OutcomeView, audio_convert_outcome, audio_extract_outcome, audio_mono_outcome,
    image_convert_outcome, image_resize_outcome, image_strip_outcome, linearize_outcome, reorder_outcome,
    Facts, FinishView, StepView, compress_outcome, exists_in, extract_outcome, extract_temp_path, found,
    gs_compress_args, command, qpdf_command, render_args, select_args, StartView,
    to_pdf_result,
};
use crate::audio::{AudioFormat, audio_codec};
use crate::image::ImageFormat;
use crate::pages::qpdf_pages_spec;
use crate::text::join;
use crate::tools::ffmpeg::{convert_args_spec, extract_args_spec};
use crate::tools::libvips::{output_spec, save_options};
use crate::paths::{path_joined, path_renamed};
use crate::pages::PageSpec;
use crate::presets::preset_for_level;
use crate::text::texts;
use crate::tools::command_line;

verus! {

/// Whether `format` asks for one image per page.
pub open spec fn image_format(format: Seq<char>) -> bool {
    format == "png"@ || format == "jpeg"@ || format == "jpg"@
}

/// Extracting pages as images runs qpdf on the input, then Ghostscript on
/// the file qpdf wrote, which it removes afterwards: Ghostscript renders
/// only the selected pages.
pub proof fn law_images_render_the_selected_pages(
    input: Seq<char>,
    output: Option<Seq<char>>,
    dir: Seq<char>,
    pages: Seq<PageSpec>,
    format: Seq<char>,
    facts: Facts,
)
    requires
        image_format(format),
    ensures
        ({
            let o = extract_outcome(input, output, Some(dir), pages, format, false, facts);
            o.end is Ok ==> {
                &&& o.steps.len() == 3
                &&& o.steps[1] is Run
                &&& o.steps[2] is Run
                &&& o.steps[1]->Run_0.tool == "qpdf"@
                &&& o.steps[2]->Run_0.tool == "gs"@
                &&& o.steps[1]->Run_0.args.len() > 0
                &&& o.steps[2]->Run_0.args.len() > 0
                &&& o.steps[1]->Run_0.args[0] == input
                &&& o.steps[2]->Run_0.args.last() == o.steps[1]->Run_0.args.last()
                &&& o.steps[2]->Run_0.cleanup == Some(o.steps[1]->Run_0.args.last())
            }
        }),
{
    lemma_not_pdf(format);
    let o = extract_outcome(input, output, Some(dir), pages, format, false, facts);
    let temp = extract_temp_path(facts);
    lemma_run_selects(input, temp, pages, facts);
    if o.end is Ok {
        assert(pages.len() > 0);
        let r = to_pdf_result(input, temp, pages, false, facts);
        assert(r is Ok);
        let steps = r->Ok_0.0;
        let q = steps[0]->Run_0;
        let all = o.steps;
        assert(all.len() == 3);
        assert(all[1] == steps[0]);
        assert(all[2]->Run_0.args.last() == temp);
        assert(all[2]->Run_0.cleanup == Some(temp));
        assert(q.args.last() == temp);
    }
}

/// An image format is not `pdf`.
proof fn lemma_not_pdf(format: Seq<char>)
    requires
        image_format(format),
    ensures
        format != "pdf"@,
        format != "images"@,
{
    reveal_strlit("pdf");
    reveal_strlit("png");
    reveal_strlit("jpeg");
    reveal_strlit("jpg");
    reveal_strlit("images");
    if format == "pdf"@ || format == "images"@ {
        assert(format[1] == "pdf"@[1] || format[1] == "images"@[1]);
        assert(format == "png"@ || format == "jpeg"@ || format == "jpg"@);
        assert(format[1] == 'n' || format[1] == 'p');
    }
}

/// Selecting pages into `out` outside plan mode runs one qpdf command
/// whose first argument is the input and whose last is `out`.
proof fn lemma_run_selects(input: Seq<char>, out: Seq<char>, pages: Seq<PageSpec>, facts: Facts)
    ensures
        to_pdf_result(input, out, pages, false, facts) matches Ok((steps, _)) ==> {
            &&& steps.len() == 1
            &&& steps[0] is Run
            &&& steps[0]->Run_0.tool == "qpdf"@
            &&& steps[0]->Run_0.args.len() > 0
            &&& steps[0]->Run_0.args[0] == input
            &&& steps[0]->Run_0.args.last() == out
        },
{
}

/// The plan of extracting pages as images shows qpdf writing the selected
/// pages of the input to a file, Ghostscript rendering that file, and the
/// file's removal.
pub proof fn law_image_plan_renders_the_selected_pages(
    input: Seq<char>,
    output: Option<Seq<char>>,
    dir: Seq<char>,
    pages: Seq<PageSpec>,
    format: Seq<char>,
    facts: Facts,
)
    requires
        image_format(format),
    ensures
        ({
            let o = extract_outcome(input, output, Some(dir), pages, format, true, facts);
            o.end matches Ok(FinishView::Message(m)) ==> exists|q: Seq<Seq<char>>, g: Seq<Seq<char>>|
                #![trigger command_line("qpdf"@, q), command_line("gs"@, g)]
                {
                    &&& m == command_line("qpdf"@, q) + " && "@ + command_line("gs"@, g) + " && rm "@ + q.last()
                    &&& q.len() > 0
                    &&& g.len() > 0
                    &&& q[0] == input
                    &&& g.last() == q.last()
                }
        }),
{
    reveal_strlit("pdf");
    reveal_strlit("png");
    reveal_strlit("jpeg");
    reveal_strlit("jpg");
    lemma_not_pdf(format);
    let o = extract_outcome(input, output, Some(dir), pages, format, true, facts);
    let temp = path_renamed(input, "temp_extract_pages.pdf"@);
    lemma_plan_selects(input, temp, pages, facts);
    if o.end is Ok && pages.len() > 0 {
        let x = to_pdf_result(input, temp, pages, true, facts)->Ok_0.1->Some_0;
        let q = choose|q: Seq<Seq<char>>| #[trigger] command_line("qpdf"@, q) == x && q.len() > 0 && q[0] == input
            && q.last() == temp;
        let device = if format == "png"@ {
            "png16m"@
        } else {
            "jpeg"@
        };
        let ext = if format == "png"@ {
            "png"@
        } else {
            "jpg"@
        };
        let g = render_args(device, path_joined(dir, "page_%d."@ + ext), temp);
        assert(g.last() == temp);
        assert(command_line("qpdf"@, q) == x);
        assert(command_line("gs"@, g) == command_line("gs"@, g));
    }
}

/// The plan that selects pages into `out` is a qpdf command whose first
/// argument is the input and whose last is `out`.
proof fn lemma_plan_selects(input: Seq<char>, out: Seq<char>, pages: Seq<PageSpec>, facts: Facts)
    ensures
        to_pdf_result(input, out, pages, true, facts) matches Ok((_, p)) ==> (p matches Some(x) && exists|
            q: Seq<Seq<char>>,
        | #[trigger] command_line("qpdf"@, q) == x && q.len() > 0 && q[0] == input && q.last() == out),
{
    let total: nat = if exists_in(facts, input) && found(facts.qpdf) is Ok {
        match facts.page_count {
            Ok(c) => c as nat,
            Err(_) => 100,
        }
    } else {
        100
    };
    match qpdf_pages_spec(pages, total) {
        Ok(list) => {
            let q = select_args(input, list, out);
            assert(q[0] == input && q.last() == out);
            assert(command_line("qpdf"@, q) == command_line("qpdf"@, q));
        },
        Err(_) => {},
    }
}

/// Compressing reads the input and writes the output: Ghostscript gets
/// `-sOutputFile=<output>` first and `-f <input>` last; qpdf gets the
/// input then the output last.  The run is one such command.
pub proof fn law_compress_reads_input_writes_output(
    input: Seq<char>,
    output: Seq<char>,
    level: Seq<char>,
    facts: Facts,
)
    ensures
        ({
            let o = compress_outcome(input, output, level, false, facts);
            o.end is Ok ==> {
                &&& o.steps.len() == 1
                &&& o.steps[0] is Run
                &&& {
                    let c = o.steps[0]->Run_0;
                    let n = c.args.len();
                    &&& n >= 2
                    &&& (c.tool == "gs"@ || c.tool == "qpdf"@)
                    &&& (c.tool == "gs"@ ==> c.args[0] == "-sOutputFile="@ + output && c.args[n - 2] == "-f"@
                        && c.args[n - 1] == input)
                    &&& (c.tool == "qpdf"@ ==> c.args[n - 2] == input && c.args[n - 1] == output)
                }
            }
        }),
{
    reveal_strlit("gs");
    reveal_strlit("qpdf");
    let preset = preset_for_level(facts.presets.presets@, level);
    let tool = preset.tool@;
    let flags = texts(preset.args@);
    let o = compress_outcome(input, output, level, false, facts);
    if o.end is Ok {
        if tool == "gs"@ {
            let a = gs_compress_args(input, output, flags);
            lemma_gs_args(input, output, flags);
            assert(o.steps =~= seq![command("gs"@, found(facts.gs)->Ok_0, a, StartView::Processing("Failed to execute: "@))]);
        } else if tool == "qpdf"@ {
            let a = flags + seq![input, output];
            assert(a[a.len() - 2] == input && a[a.len() - 1] == output);
            assert(o.steps =~= seq![qpdf_command(found(facts.qpdf)->Ok_0, a)]);
        }
    }
}

/// Ghostscript's compression arguments name the output first and the
/// input last, after `-f`.
proof fn lemma_gs_args(input: Seq<char>, output: Seq<char>, flags: Seq<Seq<char>>)
    ensures
        ({
            let a = gs_compress_args(input, output, flags);
            let n = a.len();
            &&& n >= 2
            &&& a[0] == "-sOutputFile="@ + output
            &&& a[n - 2] == "-f"@
            &&& a[n - 1] == input
        }),
{
    let a = gs_compress_args(input, output, flags);
    assert(a.len() == flags.len() + 3);
    assert(a[0] == "-sOutputFile="@ + output);
    assert(a[a.len() - 2] == "-f"@);
    assert(a[a.len() - 1] == input);
}

/// The plan of compressing shows the same command: the preset's tool with
/// arguments that read the input and write the output.
pub proof fn law_compress_plan_reads_input_writes_output(
    input: Seq<char>,
    output: Seq<char>,
    level: Seq<char>,
    facts: Facts,
)
    ensures
        ({
            let o = compress_outcome(input, output, level, true, facts);
            let tool = preset_for_level(facts.presets.presets@, level).tool@;
            o.end matches Ok(FinishView::Message(m)) ==> exists|a: Seq<Seq<char>>|
                {
                    &&& #[trigger] command_line(tool, a) == m
                    &&& a.len() >= 2
                    &&& (tool == "gs"@ ==> a[0] == "-sOutputFile="@ + output && a[a.len() - 2] == "-f"@
                        && a[a.len() - 1] == input)
                    &&& (tool == "qpdf"@ ==> a[a.len() - 2] == input && a[a.len() - 1] == output)
                }
        }),
{
    reveal_strlit("gs");
    reveal_strlit("qpdf");
    let preset = preset_for_level(facts.presets.presets@, level);
    let tool = preset.tool@;
    let flags = texts(preset.args@);
    if tool == "gs"@ {
        let a = gs_compress_args(input, output, flags);
        lemma_gs_args(input, output, flags);
        assert(command_line(tool, a) == command_line(tool, a));
    } else if tool == "qpdf"@ {
        let a = flags + seq![input, output];
        assert(a[a.len() - 2] == input && a[a.len() - 1] == output);
        assert(command_line(tool, a) == command_line(tool, a));
    }
}

/// Whether an outcome runs exactly one command.
pub open spec fn one_run(o: OutcomeView) -> bool {
    o.steps.len() == 1 && o.steps[0] is Run
}

/// The command of an outcome that runs one.
pub open spec fn the_run(o: OutcomeView) -> CommandView {
    o.steps[0]->Run_0
}

/// Whether `p` begins `s`.
pub open spec fn begins(s: Seq<char>, p: Seq<char>) -> bool {
    p.len() <= s.len() && s.take(p.len() as int) == p
}

/// Linearizing runs qpdf once, reading the input and writing the output.
pub proof fn law_linearize_reads_input_writes_output(input: Seq<char>, output: Seq<char>, facts: Facts)
    ensures
        ({
            let o = linearize_outcome(input, output, false, facts);
            o.end is Ok ==> one_run(o) && the_run(o).tool == "qpdf"@ && the_run(o).args.len() == 3
                && the_run(o).args[1] == input && the_run(o).args[2] == output
        }),
{
}

/// Reordering runs qpdf once, selecting from the input into the output.
pub proof fn law_reorder_reads_input_writes_output(input: Seq<char>, output: Seq<char>, order: Seq<u32>, facts: Facts)
    ensures
        ({
            let o = reorder_outcome(input, output, order, false, facts);
            o.end is Ok ==> one_run(o) && the_run(o).tool == "qpdf"@ && the_run(o).args.len() > 0
                && the_run(o).args[0] == input && the_run(o).args.last() == output
        }),
{
}

/// Converting and stripping an image run vips once: `copy`, the input, then
/// the output (with its save options after it); resizing runs
/// vipsthumbnail on the input with `-o` and the output last.
pub proof fn law_images_read_input_write_output(
    input: Seq<char>,
    output: Seq<char>,
    format: ImageFormat,
    quality: Option<u8>,
    compression: Option<u8>,
    strip: bool,
    width: Option<u32>,
    height: Option<u32>,
    facts: Facts,
)
    ensures
        ({
            let o = image_convert_outcome(input, output, format, quality, compression, strip, false, facts);
            o.end is Ok ==> one_run(o) && the_run(o).tool == "vips"@ && the_run(o).args.len() == 3
                && the_run(o).args[0] == "copy"@ && the_run(o).args[1] == input && begins(the_run(o).args[2], output)
        }),
        ({
            let o = image_strip_outcome(input, output, false, facts);
            o.end is Ok ==> one_run(o) && the_run(o).tool == "vips"@ && the_run(o).args.len() == 3
                && the_run(o).args[0] == "copy"@ && the_run(o).args[1] == input && begins(the_run(o).args[2], output)
        }),
        ({
            let o = image_resize_outcome(input, output, width, height, false, facts);
            o.end is Ok ==> one_run(o) && the_run(o).tool == "vipsthumbnail"@ && the_run(o).args.len() == 5
                && the_run(o).args[0] == input && the_run(o).args[3] == "-o"@ && the_run(o).args[4] == output
        }),
{
    let opts = save_options(quality, compression, strip);
    let spec = output_spec(output, opts);
    if opts.len() > 0 {
        assert((output + "["@ + join(opts, ","@) + "]"@).take(output.len() as int) =~= output);
    } else {
        assert(spec.take(output.len() as int) =~= output);
    }
    assert((output + "[strip]"@).take(output.len() as int) =~= output);
}

/// Converting, extracting and downmixing audio run ffmpeg once: `-y -i`
/// and the input first, the output last; conversion and extraction name
/// the format's encoder after `-c:a` (extraction after dropping the video
/// with `-vn`).
pub proof fn law_audio_reads_input_writes_output(
    input: Seq<char>,
    output: Seq<char>,
    format: AudioFormat,
    bitrate: Option<u32>,
    facts: Facts,
)
    ensures
        ({
            let o = audio_convert_outcome(input, output, format, bitrate, false, facts);
            let a = the_run(o).args;
            o.end is Ok ==> one_run(o) && the_run(o).tool == "ffmpeg"@ && a.len() >= 6 && a[0] == "-y"@ && a[1]
                == "-i"@ && a[2] == input && a[3] == "-c:a"@ && a[4] == audio_codec(format) && a.last() == output
        }),
        ({
            let o = audio_extract_outcome(input, output, format, bitrate, false, facts);
            let a = the_run(o).args;
            o.end is Ok ==> one_run(o) && the_run(o).tool == "ffmpeg"@ && a.len() >= 7 && a[0] == "-y"@ && a[1]
                == "-i"@ && a[2] == input && a[3] == "-vn"@ && a[4] == "-c:a"@ && a[5] == audio_codec(format)
                && a.last() == output
        }),
        ({
            let o = audio_mono_outcome(input, output, false, facts);
            let a = the_run(o).args;
            o.end is Ok ==> one_run(o) && the_run(o).tool == "ffmpeg"@ && a.len() == 6 && a[1] == "-i"@ && a[2]
                == input && a[3] == "-ac"@ && a[4] == "1"@ && a[5] == output
        }),
{
    let c = convert_args_spec(input, output, format, bitrate);
    let e = extract_args_spec(input, output, format, bitrate);
    assert(c.last() == output);
    assert(e.last() == output);
}

} // verus!
