//! ffmpeg: audio conversion and extraction, joining, mono downmix and H.264
//! transcoding.
use vstd::prelude::*;
use crate::audio::{AudioFormat, audio_codec, audio_has_bitrate};
use crate::tools::{command_line, command_line_of};
use crate::text::{
    append_all, dec, dec_int, first_line, first_line_of, from_chars, join, join_strings, push_dec, push_int,
    push_str, push_string, push_text, string_of, texts, to_chars, push_chars, trim, trim_chars, words,
    words_of,
};

verus! {

broadcast use vstd::string::group_string_axioms;

/// ffmpeg tool adapter.
pub struct FfmpegTool;

/// The bitrate arguments, when a bitrate is asked for and the format takes one.
pub open spec fn bitrate_args(f: AudioFormat, bitrate: Option<u32>) -> Seq<Seq<char>> {
    match bitrate {
        Some(b) => if audio_has_bitrate(f) {
            seq!["-b:a"@, dec(b as nat) + "k"@]
        } else {
            Seq::empty()
        },
        None => Seq::empty(),
    }
}

/// Opus output needs its container named explicitly.
pub open spec fn opus_args(f: AudioFormat) -> Seq<Seq<char>> {
    if f == AudioFormat::Opus {
        seq!["-f"@, "opus"@]
    } else {
        Seq::empty()
    }
}

/// Arguments that convert audio to `f`.
pub open spec fn convert_args_spec(
    input: Seq<char>,
    output: Seq<char>,
    f: AudioFormat,
    bitrate: Option<u32>,
) -> Seq<Seq<char>> {
    seq!["-y"@, "-i"@, input, "-c:a"@, audio_codec(f)] + bitrate_args(f, bitrate) + opus_args(f)
        + seq![output]
}

/// Arguments that extract the audio of a video as `f` (`-vn` drops the video).
pub open spec fn extract_args_spec(
    input: Seq<char>,
    output: Seq<char>,
    f: AudioFormat,
    bitrate: Option<u32>,
) -> Seq<Seq<char>> {
    seq!["-y"@, "-i"@, input, "-vn"@, "-c:a"@, audio_codec(f)] + bitrate_args(f, bitrate)
        + opus_args(f) + seq![output]
}

/// Arguments that join files listed in a concat list, copying streams.
pub open spec fn join_args_spec(list_file: Seq<char>, output: Seq<char>) -> Seq<Seq<char>> {
    seq!["-y"@, "-f"@, "concat"@, "-safe"@, "0"@, "-i"@, list_file, "-c"@, "copy"@, output]
}

/// Arguments that downmix to one channel.
pub open spec fn mono_args_spec(input: Seq<char>, output: Seq<char>) -> Seq<Seq<char>> {
    seq!["-y"@, "-i"@, input, "-ac"@, "1"@, output]
}

/// The scale filter: a height of -1 keeps the aspect ratio (`-2` keeps the
/// height even).
pub open spec fn scale_filter(width: i32, height: i32) -> Seq<char> {
    if height == -1 {
        "scale="@ + dec_int(width as int) + ":-2"@
    } else {
        "scale="@ + dec_int(width as int) + ":"@ + dec_int(height as int)
    }
}

/// Arguments that transcode a video to H.264 with x264.
pub open spec fn transcode_args_spec(
    input: Seq<char>,
    output: Seq<char>,
    crf: u8,
    preset: Seq<char>,
    scale: Option<(i32, i32)>,
    copy_audio: bool,
) -> Seq<Seq<char>> {
    seq!["-y"@, "-i"@, input, "-c:v"@, "libx264"@, "-crf"@, dec(crf as nat), "-preset"@, preset]
        + match scale {
        Some((w, h)) => seq!["-vf"@, scale_filter(w, h)],
        None => Seq::empty(),
    } + if copy_audio {
        seq!["-c:a"@, "copy"@]
    } else {
        seq!["-c:a"@, "aac"@, "-b:a"@, "128k"@]
    } + seq![output]
}

/// One line of an ffmpeg concat list for a file, with each `'` written as
/// `'\''`.
pub open spec fn escape_quotes(s: Seq<char>) -> Seq<char>
    decreases s.len(),
{
    if s.len() == 0 {
        Seq::empty()
    } else {
        escape_quotes(s.drop_last()) + if s.last() == '\'' {
            seq!['\'', '\\', '\'', '\'']
        } else {
            seq![s.last()]
        }
    }
}

/// The concat list for the inputs: one `file '...'` line per input.
pub open spec fn concat_list_spec(inputs: Seq<Seq<char>>) -> Seq<char>
    decreases inputs.len(),
{
    if inputs.len() == 0 {
        Seq::empty()
    } else {
        concat_list_spec(inputs.drop_last()) + "file '"@ + escape_quotes(inputs.last()) + "'\n"@
    }
}

/// What the join plan shows.
pub open spec fn plan_join_spec(inputs: Seq<Seq<char>>, output: Seq<char>) -> Seq<char> {
    "ffmpeg -y -f concat -safe 0 -i <list: "@ + join(inputs, ", "@) + "> -c copy "@ + output
}

fn push_audio_options(args: &mut Vec<String>, format: &AudioFormat, bitrate: Option<u32>)
    ensures
        texts(final(args)@) == texts(old(args)@) + bitrate_args(*format, bitrate) + opus_args(
            *format,
        ),
{
    let ghost start = texts(args@);
    match bitrate {
        Some(br) => {
            if format.supports_bitrate() {
                push_text(args, "-b:a");
                let mut b = String::new();
                push_dec(&mut b, br as u64);
                push_str(&mut b, "k");
                push_string(args, b);
            }
        },
        None => {},
    }
    assert(texts(args@) =~= start + bitrate_args(*format, bitrate));
    let ghost mid = texts(args@);
    if matches!(format, AudioFormat::Opus) {
        push_text(args, "-f");
        push_text(args, "opus");
    }
    assert(texts(args@) =~= mid + opus_args(*format));
}

/// The version `ffmpeg -version` reports: the third word of its first
/// line (`ffmpeg version 6.1 ...`), or the whole line when it has fewer
/// words, trimmed.
pub open spec fn ffmpeg_version(stdout: Seq<char>) -> Seq<char> {
    let line = first_line(stdout);
    let w = words(line);
    if w.len() > 2 {
        trim(w[2])
    } else {
        trim(line)
    }
}

impl FfmpegTool {
    /// The tool's name.
    pub fn name(&self) -> (r: &'static str)
        ensures
            r@ == "ffmpeg"@,
    {
        "ffmpeg"
    }

    /// The version number from what `ffmpeg -version` printed.
    pub fn version_from_output(stdout: &str) -> (r: String)
        ensures
            r@ == ffmpeg_version(stdout@),
    {
        let line = first_line_of(stdout);
        let w = words_of(line.as_slice());
        if w.len() > 2 {
            let t = trim_chars(w[2].as_slice());
            from_chars(t.as_slice())
        } else {
            let t = trim_chars(line.as_slice());
            from_chars(t.as_slice())
        }
    }

    /// Arguments for converting audio to `format`, with a bitrate (in kbps)
    /// when the format takes one.
    pub fn convert_args(input: &str, output: &str, format: &AudioFormat, bitrate: Option<u32>) -> (r:
        Vec<String>)
        ensures
            texts(r@) == convert_args_spec(input@, output@, *format, bitrate),
    {
        let mut args: Vec<String> = Vec::new();
        push_text(&mut args, "-y");
        push_text(&mut args, "-i");
        push_text(&mut args, input);
        push_text(&mut args, "-c:a");
        push_text(&mut args, format.ffmpeg_codec());
        push_audio_options(&mut args, format, bitrate);
        push_text(&mut args, output);
        assert(texts(args@) =~= convert_args_spec(input@, output@, *format, bitrate));
        args
    }

    /// Arguments for extracting the audio of a video as `format`.
    pub fn extract_args(input: &str, output: &str, format: &AudioFormat, bitrate: Option<u32>) -> (r:
        Vec<String>)
        ensures
            texts(r@) == extract_args_spec(input@, output@, *format, bitrate),
    {
        let mut args: Vec<String> = Vec::new();
        push_text(&mut args, "-y");
        push_text(&mut args, "-i");
        push_text(&mut args, input);
        push_text(&mut args, "-vn");
        push_text(&mut args, "-c:a");
        push_text(&mut args, format.ffmpeg_codec());
        push_audio_options(&mut args, format, bitrate);
        push_text(&mut args, output);
        assert(texts(args@) =~= extract_args_spec(input@, output@, *format, bitrate));
        args
    }

    /// Arguments for joining the files named in `list_file`.
    pub fn join_args(list_file: &str, output: &str) -> (r: Vec<String>)
        ensures
            texts(r@) == join_args_spec(list_file@, output@),
    {
        let mut args: Vec<String> = Vec::new();
        push_text(&mut args, "-y");
        push_text(&mut args, "-f");
        push_text(&mut args, "concat");
        push_text(&mut args, "-safe");
        push_text(&mut args, "0");
        push_text(&mut args, "-i");
        push_text(&mut args, list_file);
        push_text(&mut args, "-c");
        push_text(&mut args, "copy");
        push_text(&mut args, output);
        assert(texts(args@) =~= join_args_spec(list_file@, output@));
        args
    }

    /// Arguments for downmixing to mono.
    pub fn mono_args(input: &str, output: &str) -> (r: Vec<String>)
        ensures
            texts(r@) == mono_args_spec(input@, output@),
    {
        let mut args: Vec<String> = Vec::new();
        push_text(&mut args, "-y");
        push_text(&mut args, "-i");
        push_text(&mut args, input);
        push_text(&mut args, "-ac");
        push_text(&mut args, "1");
        push_text(&mut args, output);
        assert(texts(args@) =~= mono_args_spec(input@, output@));
        args
    }

    /// Arguments for transcoding a video to H.264 (CRF quality, x264 preset,
    /// optional scaling, audio copied or re-encoded to AAC 128k).
    pub fn transcode_args(
        input: &str,
        output: &str,
        crf: u8,
        preset: &str,
        scale: Option<(i32, i32)>,
        copy_audio: bool,
    ) -> (r: Vec<String>)
        ensures
            texts(r@) == transcode_args_spec(input@, output@, crf, preset@, scale, copy_audio),
    {
        let mut args: Vec<String> = Vec::new();
        push_text(&mut args, "-y");
        push_text(&mut args, "-i");
        push_text(&mut args, input);
        push_text(&mut args, "-c:v");
        push_text(&mut args, "libx264");
        push_text(&mut args, "-crf");
        let mut c = String::new();
        push_dec(&mut c, crf as u64);
        push_string(&mut args, c);
        push_text(&mut args, "-preset");
        push_text(&mut args, preset);
        let ghost base = texts(args@);
        match scale {
            Some((width, height)) => {
                push_text(&mut args, "-vf");
                let mut f = string_of("scale=");
                push_int(&mut f, width as i64);
                if height == -1 {
                    push_str(&mut f, ":-2");
                } else {
                    push_str(&mut f, ":");
                    push_int(&mut f, height as i64);
                }
                push_string(&mut args, f);
            },
            None => {},
        }
        let ghost scaled = texts(args@);
        if copy_audio {
            push_text(&mut args, "-c:a");
            push_text(&mut args, "copy");
        } else {
            push_text(&mut args, "-c:a");
            push_text(&mut args, "aac");
            push_text(&mut args, "-b:a");
            push_text(&mut args, "128k");
        }
        push_text(&mut args, output);
        assert(texts(args@) =~= transcode_args_spec(input@, output@, crf, preset@, scale, copy_audio));
        args
    }

    /// The `--plan` text for converting audio.
    pub fn plan_convert(input: &str, output: &str, format: &AudioFormat, bitrate: Option<u32>) -> (r:
        String)
        ensures
            r@ == command_line("ffmpeg"@, convert_args_spec(input@, output@, *format, bitrate)),
    {
        let args = Self::convert_args(input, output, format, bitrate);
        command_line_of("ffmpeg", args.as_slice())
    }

    /// The `--plan` text for extracting audio from a video.
    pub fn plan_extract(input: &str, output: &str, format: &AudioFormat, bitrate: Option<u32>) -> (r:
        String)
        ensures
            r@ == command_line("ffmpeg"@, extract_args_spec(input@, output@, *format, bitrate)),
    {
        let args = Self::extract_args(input, output, format, bitrate);
        command_line_of("ffmpeg", args.as_slice())
    }

    /// The `--plan` text for joining audio files.
    pub fn plan_join(inputs: &[String], output: &str) -> (r: String)
        ensures
            r@ == plan_join_spec(texts(inputs@), output@),
    {
        let mut r = string_of("ffmpeg -y -f concat -safe 0 -i <list: ");
        let l = join_strings(inputs, ", ");
        push_str(&mut r, l.as_str());
        push_str(&mut r, "> -c copy ");
        push_str(&mut r, output);
        r
    }

    /// The `--plan` text for downmixing to mono.
    pub fn plan_mono(input: &str, output: &str) -> (r: String)
        ensures
            r@ == command_line("ffmpeg"@, mono_args_spec(input@, output@)),
    {
        let args = Self::mono_args(input, output);
        command_line_of("ffmpeg", args.as_slice())
    }

    /// The `--plan` text for transcoding a video.
    pub fn plan_transcode(
        input: &str,
        output: &str,
        crf: u8,
        preset: &str,
        scale: Option<(i32, i32)>,
        copy_audio: bool,
    ) -> (r: String)
        ensures
            r@ == command_line(
                "ffmpeg"@,
                transcode_args_spec(input@, output@, crf, preset@, scale, copy_audio),
            ),
    {
        let args = Self::transcode_args(input, output, crf, preset, scale, copy_audio);
        command_line_of("ffmpeg", args.as_slice())
    }

    /// The concat list that names the inputs, one `file '...'` line each.
    pub fn concat_list(inputs: &[String]) -> (r: String)
        ensures
            r@ == concat_list_spec(texts(inputs@)),
    {
        let ghost all = texts(inputs@);
        let mut r = String::new();
        let n = inputs.len();
        for i in 0..n
            invariant
                n == inputs@.len(),
                all == texts(inputs@),
                r@ == concat_list_spec(all.take(i as int)),
        {
            push_str(&mut r, "file '");
            let c = to_chars(inputs[i].as_str());
            push_escaped(&mut r, c.as_slice());
            push_str(&mut r, "'\n");
            proof {
                assert(all.take(i + 1).drop_last() =~= all.take(i as int));
                assert(all.take(i + 1).last() == all[i as int]);
            }
        }
        assert(all.take(n as int) =~= all);
        r
    }
}

/// Appends the text with each `'` written as `'\''`.
fn push_escaped(r: &mut String, s: &[char])
    ensures
        final(r)@ == old(r)@ + escape_quotes(s@),
{
    let n = s.len();
    for i in 0..n
        invariant
            n == s@.len(),
            r@ == old(r)@ + escape_quotes(s@.take(i as int)),
    {
        proof {
            assert(s@.take(i + 1).drop_last() =~= s@.take(i as int));
            assert(s@.take(i + 1).last() == s@[i as int]);
        }
        if s[i] == '\'' {
            let q: [char; 4] = ['\'', '\\', '\'', '\''];
            push_chars(r, &q);
            assert(q@ =~= seq!['\'', '\\', '\'', '\'']);
        } else {
            let one: [char; 1] = [s[i]];
            push_chars(r, &one);
            assert(one@ =~= seq![s@[i as int]]);
        }
    }
    assert(s@.take(n as int) =~= s@);
}

} // verus!
