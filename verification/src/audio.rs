//! Audio formats: detection from extensions and the codecs ffmpeg uses.
use vstd::prelude::*;
use crate::paths::{extension, extension_of};
use crate::text::{
    eq_fold, eq_fold_exec, lemma_fold_congruent, lemma_fold_plain, lower, plain_word, push_chars,
    push_str, to_chars,
};

verus! {

broadcast use vstd::string::group_string_axioms;

/// Supported audio formats for conversion.
#[derive(Debug, Clone, Copy, PartialEq, Eq)]
pub enum AudioFormat {
    Mp3,
    Aac,
    Opus,
    Flac,
    Wav,
    Ogg,
    M4a,
}

/// The format an extension names, in any letter case.
pub open spec fn audio_from_ext(e: Seq<char>) -> Option<AudioFormat> {
    if eq_fold(e, "mp3"@) {
        Some(AudioFormat::Mp3)
    } else if eq_fold(e, "aac"@) {
        Some(AudioFormat::Aac)
    } else if eq_fold(e, "opus"@) {
        Some(AudioFormat::Opus)
    } else if eq_fold(e, "flac"@) {
        Some(AudioFormat::Flac)
    } else if eq_fold(e, "wav"@) {
        Some(AudioFormat::Wav)
    } else if eq_fold(e, "ogg"@) || eq_fold(e, "oga"@) {
        Some(AudioFormat::Ogg)
    } else if eq_fold(e, "m4a"@) {
        Some(AudioFormat::M4a)
    } else {
        None
    }
}

/// The canonical extension of a format.
pub open spec fn audio_ext(f: AudioFormat) -> Seq<char> {
    match f {
        AudioFormat::Mp3 => "mp3"@,
        AudioFormat::Aac => "aac"@,
        AudioFormat::Opus => "opus"@,
        AudioFormat::Flac => "flac"@,
        AudioFormat::Wav => "wav"@,
        AudioFormat::Ogg => "ogg"@,
        AudioFormat::M4a => "m4a"@,
    }
}

/// The ffmpeg encoder used for a format.
pub open spec fn audio_codec(f: AudioFormat) -> Seq<char> {
    match f {
        AudioFormat::Mp3 => "libmp3lame"@,
        AudioFormat::Aac => "aac"@,
        AudioFormat::Opus => "libopus"@,
        AudioFormat::Flac => "flac"@,
        AudioFormat::Wav => "pcm_s16le"@,
        AudioFormat::Ogg => "libvorbis"@,
        AudioFormat::M4a => "aac"@,
    }
}

/// Whether a bitrate can be set for a format (the lossy ones).
pub open spec fn audio_has_bitrate(f: AudioFormat) -> bool {
    match f {
        AudioFormat::Flac | AudioFormat::Wav => false,
        _ => true,
    }
}

/// The format of a path, from its extension.
pub open spec fn audio_from_path(p: Seq<char>) -> Option<AudioFormat> {
    match extension(p) {
        Some(e) => audio_from_ext(e),
        None => None,
    }
}

pub open spec fn audio_supported() -> Seq<char> {
    "mp3, aac, opus, flac, wav, ogg, m4a"@
}

pub open spec fn audio_unknown_msg(s: Seq<char>) -> Seq<char> {
    "Unknown audio format: '"@ + s + "'. Supported: "@ + audio_supported()
}

impl AudioFormat {
    /// Detects the format from a file extension, ignoring letter case.
    pub fn from_extension(ext: &str) -> (r: Option<Self>)
        ensures
            r == audio_from_ext(ext@),
    {
        let e = to_chars(ext);
        let e = e.as_slice();
        if eq_fold_exec(e, "mp3") {
            Some(AudioFormat::Mp3)
        } else if eq_fold_exec(e, "aac") {
            Some(AudioFormat::Aac)
        } else if eq_fold_exec(e, "opus") {
            Some(AudioFormat::Opus)
        } else if eq_fold_exec(e, "flac") {
            Some(AudioFormat::Flac)
        } else if eq_fold_exec(e, "wav") {
            Some(AudioFormat::Wav)
        } else if eq_fold_exec(e, "ogg") || eq_fold_exec(e, "oga") {
            Some(AudioFormat::Ogg)
        } else if eq_fold_exec(e, "m4a") {
            Some(AudioFormat::M4a)
        } else {
            None
        }
    }

    /// The canonical file extension.
    pub fn extension(&self) -> (r: &'static str)
        ensures
            r@ == audio_ext(*self),
    {
        match self {
            AudioFormat::Mp3 => "mp3",
            AudioFormat::Aac => "aac",
            AudioFormat::Opus => "opus",
            AudioFormat::Flac => "flac",
            AudioFormat::Wav => "wav",
            AudioFormat::Ogg => "ogg",
            AudioFormat::M4a => "m4a",
        }
    }

    /// Detects the format from a file path's extension.
    pub fn from_path(path: &str) -> (r: Option<Self>)
        ensures
            r == audio_from_path(path@),
    {
        match extension_of(path) {
            Some(e) => Self::from_extension(e.as_str()),
            None => None,
        }
    }

    /// The ffmpeg codec name for this format.
    pub fn ffmpeg_codec(&self) -> (r: &'static str)
        ensures
            r@ == audio_codec(*self),
    {
        match self {
            AudioFormat::Mp3 => "libmp3lame",
            AudioFormat::Aac => "aac",
            AudioFormat::Opus => "libopus",
            AudioFormat::Flac => "flac",
            AudioFormat::Wav => "pcm_s16le",
            AudioFormat::Ogg => "libvorbis",
            AudioFormat::M4a => "aac",
        }
    }

    /// All supported extensions, comma-separated.
    pub fn supported_extensions() -> (r: &'static str)
        ensures
            r@ == audio_supported(),
    {
        "mp3, aac, opus, flac, wav, ogg, m4a"
    }

    /// Whether this format supports setting a bitrate.
    pub fn supports_bitrate(&self) -> (b: bool)
        ensures
            b == audio_has_bitrate(*self),
    {
        match self {
            AudioFormat::Flac | AudioFormat::Wav => false,
            _ => true,
        }
    }
}

impl core::str::FromStr for AudioFormat {
    type Err = String;

    /// Parses a format name; unknown names are refused with a message that
    /// lists the supported extensions.
    fn from_str(s: &str) -> (r: Result<Self, String>)
        ensures
            match audio_from_ext(s@) {
                Some(f) => r == Ok::<AudioFormat, String>(f),
                None => r matches Err(m) && m@ == audio_unknown_msg(s@),
            },
    {
        match Self::from_extension(s) {
            Some(f) => Ok(f),
            None => {
                let mut m = String::new();
                push_str(&mut m, "Unknown audio format: '");
                let c = to_chars(s);
                push_chars(&mut m, c.as_slice());
                push_str(&mut m, "'. Supported: ");
                push_str(&mut m, Self::supported_extensions());
                Err(m)
            },
        }
    }
}

/// Every format's own extension detects that format.
pub proof fn law_audio_extension_roundtrip(f: AudioFormat)
    ensures
        audio_from_ext(audio_ext(f)) == Some(f),
{
    reveal_strlit("mp3");
    reveal_strlit("aac");
    reveal_strlit("opus");
    reveal_strlit("flac");
    reveal_strlit("wav");
    reveal_strlit("ogg");
    reveal_strlit("oga");
    reveal_strlit("m4a");
    assert("mp3"@ =~= seq!['m', 'p', '3']);
    assert("aac"@ =~= seq!['a', 'a', 'c']);
    assert("opus"@ =~= seq!['o', 'p', 'u', 's']);
    assert("flac"@ =~= seq!['f', 'l', 'a', 'c']);
    assert("wav"@ =~= seq!['w', 'a', 'v']);
    assert("ogg"@ =~= seq!['o', 'g', 'g']);
    assert("oga"@ =~= seq!['o', 'g', 'a']);
    assert("m4a"@ =~= seq!['m', '4', 'a']);
    let e = audio_ext(f);
    assert(plain_word(e));
    lemma_fold_plain(e, "mp3"@);
    lemma_fold_plain(e, "aac"@);
    lemma_fold_plain(e, "opus"@);
    lemma_fold_plain(e, "flac"@);
    lemma_fold_plain(e, "wav"@);
    lemma_fold_plain(e, "ogg"@);
    lemma_fold_plain(e, "oga"@);
    lemma_fold_plain(e, "m4a"@);
}

/// Detection ignores letter case: two extensions that agree once folded to
/// lower case detect the same format.
pub proof fn law_audio_case_insensitive(a: Seq<char>, b: Seq<char>)
    requires
        a.len() == b.len(),
        forall|i: int| 0 <= i < a.len() ==> lower(#[trigger] a[i]) == lower(b[i]),
    ensures
        audio_from_ext(a) == audio_from_ext(b),
{
    lemma_fold_congruent(a, b, "mp3"@);
    lemma_fold_congruent(a, b, "aac"@);
    lemma_fold_congruent(a, b, "opus"@);
    lemma_fold_congruent(a, b, "flac"@);
    lemma_fold_congruent(a, b, "wav"@);
    lemma_fold_congruent(a, b, "ogg"@);
    lemma_fold_congruent(a, b, "oga"@);
    lemma_fold_congruent(a, b, "m4a"@);
}

/// A format supports a bitrate exactly when it is lossy.
pub proof fn law_audio_lossless_no_bitrate(f: AudioFormat)
    ensures
        !audio_has_bitrate(f) <==> (f == AudioFormat::Flac || f == AudioFormat::Wav),
{
}

/// Each format is encoded with an encoder its container holds: MP3 with
/// LAME, AAC and M4A with AAC, Opus with libopus, FLAC with FLAC, WAV with
/// 16-bit little-endian PCM, and Ogg with Vorbis.
pub proof fn law_encoder_per_container()
    ensures
        audio_codec(AudioFormat::Mp3) == "libmp3lame"@,
        audio_codec(AudioFormat::Aac) == "aac"@,
        audio_codec(AudioFormat::M4a) == "aac"@,
        audio_codec(AudioFormat::Opus) == "libopus"@,
        audio_codec(AudioFormat::Flac) == "flac"@,
        audio_codec(AudioFormat::Wav) == "pcm_s16le"@,
        audio_codec(AudioFormat::Ogg) == "libvorbis"@,
{
}

} // verus!
