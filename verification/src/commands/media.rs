//! `media transcode` / `video transcode`: checking the encoder options.
use vstd::prelude::*;
use crate::commands::image::invalid;
use crate::error::{ErrorView, ForgeKitError};
use crate::text::{dec, join, push_dec, push_str, str_eq, string_of};

verus! {

broadcast use vstd::string::group_string_axioms;

/// The x264 presets, fastest first.
pub open spec fn x264_presets() -> Seq<Seq<char>> {
    seq![
        "ultrafast"@,
        "superfast"@,
        "veryfast"@,
        "faster"@,
        "fast"@,
        "medium"@,
        "slow"@,
        "slower"@,
        "veryslow"@,
    ]
}

/// Whether transcoding options are acceptable: a CRF from 0 to 51 and a
/// known preset, checked in that order.
pub open spec fn transcode_check(crf: u8, preset: Seq<char>) -> Result<(), ErrorView> {
    if crf > 51 {
        Err(invalid("CRF must be 0-51, got "@ + dec(crf as nat)))
    } else if !x264_presets().contains(preset) {
        Err(invalid("Invalid preset '"@ + preset + "'. Valid presets: "@ + join(x264_presets(), ", "@)))
    } else {
        Ok(())
    }
}

/// A width to scale to, with the height following the aspect ratio.
pub open spec fn scale_to_width(scale: Option<i32>) -> Option<(i32, i32)> {
    match scale {
        Some(w) => Some((w, -1i32)),
        None => None,
    }
}

/// Checks transcoding options.
pub fn validate_transcode(crf: u8, preset: &str) -> (r: Result<(), ForgeKitError>)
    ensures
        match transcode_check(crf, preset@) {
            Ok(_) => r is Ok,
            Err(e) => r matches Err(x) && x@ == e,
        },
{
    if crf > 51 {
        let mut m = string_of("CRF must be 0-51, got ");
        push_dec(&mut m, crf as u64);
        return Err(ForgeKitError::InvalidInput { path: String::new(), reason: m });
    }
    proof {
        reveal_strlit("ultrafast");
        reveal_strlit("superfast");
        reveal_strlit("veryfast");
        reveal_strlit("faster");
        reveal_strlit("fast");
        reveal_strlit("medium");
        reveal_strlit("slow");
        reveal_strlit("slower");
        reveal_strlit("veryslow");
    }
    let known = str_eq(preset, "ultrafast") || str_eq(preset, "superfast") || str_eq(preset, "veryfast")
        || str_eq(preset, "faster") || str_eq(preset, "fast") || str_eq(preset, "medium") || str_eq(
        preset,
        "slow",
    ) || str_eq(preset, "slower") || str_eq(preset, "veryslow");
    assert(known == x264_presets().contains(preset@)) by {
        if x264_presets().contains(preset@) {
            let k = choose|k: int| 0 <= k < x264_presets().len() && x264_presets()[k] == preset@;
            assert(0 <= k < 9);
        }
        if known {
            assert(x264_presets().contains(preset@)) by {
                if preset@ == "ultrafast"@ { assert(x264_presets()[0] == preset@); }
                else if preset@ == "superfast"@ { assert(x264_presets()[1] == preset@); }
                else if preset@ == "veryfast"@ { assert(x264_presets()[2] == preset@); }
                else if preset@ == "faster"@ { assert(x264_presets()[3] == preset@); }
                else if preset@ == "fast"@ { assert(x264_presets()[4] == preset@); }
                else if preset@ == "medium"@ { assert(x264_presets()[5] == preset@); }
                else if preset@ == "slow"@ { assert(x264_presets()[6] == preset@); }
                else if preset@ == "slower"@ { assert(x264_presets()[7] == preset@); }
                else { assert(x264_presets()[8] == preset@); }
            }
        }
    }
    if !known {
        let mut m = string_of("Invalid preset '");
        push_str(&mut m, preset);
        push_str(&mut m, "'. Valid presets: ");
        push_str(&mut m, "ultrafast, superfast, veryfast, faster, fast, medium, slow, slower, veryslow");
        proof {
            reveal_strlit(", ");
            reveal_strlit("ultrafast, superfast, veryfast, faster, fast, medium, slow, slower, veryslow");
            reveal_with_fuel(join, 10);
            assert(join(x264_presets(), ", "@) =~= "ultrafast, superfast, veryfast, faster, fast, medium, slow, slower, veryslow"@);
        }
        return Err(ForgeKitError::InvalidInput { path: String::new(), reason: m });
    }
    Ok(())
}

/// The scale of a transcode to a width.
pub fn scale_for_width(scale: Option<i32>) -> (r: Option<(i32, i32)>)
    ensures
        r == scale_to_width(scale),
{
    match scale {
        Some(w) => Some((w, -1)),
        None => None,
    }
}

} // verus!
