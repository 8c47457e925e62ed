//! Compression presets: named argument sets for the PDF compressor.
//!
//! A preset names the tool to run (`gs` or `qpdf`) and the arguments that
//! select its quality.  The built-in `light`, `standard` and `high` presets
//! are read by the program from their YAML text; looking a level up, with
//! `standard` as the fallback for unknown levels, happens here.
use vstd::prelude::*;
use crate::text::{append_all, str_eq, string_of, texts};

verus! {

broadcast use vstd::string::group_string_axioms;

/// Definition of one preset.
#[derive(Debug, Clone)]
pub struct PresetDefinition {
    /// The tool to use (`gs` or `qpdf`).
    pub tool: String,
    /// The arguments passed to the tool.
    pub args: Vec<String>,
    /// What the preset is for.
    pub description: Option<String>,
}

/// All presets, by name.
#[derive(Debug, Clone)]
pub struct PresetsConfig {
    /// Version of the configuration schema.
    pub version: u32,
    /// The presets with their names, each name once.
    pub presets: Vec<(String, PresetDefinition)>,
}

/// What a compression level resolves to: a tool and its arguments.
#[derive(Debug, Clone)]
pub struct CompressionStrategy {
    /// Tool to use: `gs` or `qpdf`.
    pub tool: String,
    /// Arguments for the tool.
    pub flags: Vec<String>,
}

/// The preset with the given name, if there is one.
pub open spec fn find_preset(presets: Seq<(String, PresetDefinition)>, name: Seq<char>) -> Option<
    PresetDefinition,
>
    decreases presets.len(),
{
    if presets.len() == 0 {
        None
    } else if presets[0].0@ == name {
        Some(presets[0].1)
    } else {
        find_preset(presets.drop_first(), name)
    }
}

/// The preset a compression level selects: the level's own preset, or
/// `standard` when there is none.
pub open spec fn preset_for_level(presets: Seq<(String, PresetDefinition)>, level: Seq<char>) -> PresetDefinition {
    match find_preset(presets, level) {
        Some(p) => p,
        None => find_preset(presets, "standard"@).unwrap(),
    }
}

/// Whether the presets include `standard`, the fallback for unknown levels.
pub open spec fn has_standard(config: PresetsConfig) -> bool {
    find_preset(config.presets@, "standard"@) is Some
}

/// The position of the first preset with the given name.
fn preset_index(presets: &Vec<(String, PresetDefinition)>, name: &str) -> (r: Option<usize>)
    ensures
        r is None ==> find_preset(presets@, name@) is None,
        r matches Some(i) ==> i < presets@.len() && find_preset(presets@, name@) == Some(
            presets@[i as int].1,
        ),
{
    let n = presets.len();
    let mut i: usize = 0;
    assert(presets@.skip(0) =~= presets@);
    while i < n
        invariant
            i <= n,
            n == presets@.len(),
            find_preset(presets@, name@) == find_preset(presets@.skip(i as int), name@),
        decreases n - i,
    {
        assert(presets@.skip(i as int).drop_first() =~= presets@.skip(i + 1));
        assert(presets@.skip(i as int)[0] == presets@[i as int]);
        if str_eq(presets[i].0.as_str(), name) {
            return Some(i);
        }
        i = i + 1;
    }
    None
}

/// The compression strategy for a level; unknown levels fall back to
/// `standard`.
pub fn get_compression_strategy(level: &str, config: &PresetsConfig) -> (r: CompressionStrategy)
    requires
        has_standard(*config),
    ensures
        r.tool@ == preset_for_level(config.presets@, level@).tool@,
        texts(r.flags@) == texts(preset_for_level(config.presets@, level@).args@),
{
    let i = match preset_index(&config.presets, level) {
        Some(i) => i,
        None => match preset_index(&config.presets, "standard") {
            Some(j) => j,
            None => {
                proof {
                    assert(false);
                }
                0
            },
        },
    };
    let p = &config.presets[i].1;
    let mut flags: Vec<String> = Vec::new();
    append_all(&mut flags, p.args.as_slice());
    assert(texts(flags@) =~= texts(p.args@));
    CompressionStrategy { tool: string_of(p.tool.as_str()), flags }
}

/// A level that names no preset gets the `standard` preset, the same tool
/// and flags as asking for `standard` itself.
pub proof fn law_unknown_level_is_standard(config: PresetsConfig, level: Seq<char>)
    requires
        has_standard(config),
        find_preset(config.presets@, level) is None,
    ensures
        preset_for_level(config.presets@, level) == preset_for_level(config.presets@, "standard"@),
{
}

} // verus!
