use forgekit::presets::{get_compression_strategy, PresetDefinition, PresetsConfig};

fn args(qfactor: &str) -> Vec<String> {
    vec![
        "-sDEVICE=pdfwrite".to_string(),
        "-dCompatibilityLevel=1.4".to_string(),
        "-dNOPAUSE".to_string(),
        "-dBATCH".to_string(),
        "-dQUIET".to_string(),
        "-dDownsampleColorImages=false".to_string(),
        "-dDownsampleGrayImages=false".to_string(),
        "-dDownsampleMonoImages=false".to_string(),
        "-c".to_string(),
        format!(
            "<< /ColorACSImageDict << /QFactor {} /Blend 1 /ColorTransform 1 /HSamples [1 1 1 1] /VSamples [1 1 1 1] >> >> setdistillerparams",
            qfactor
        ),
    ]
}

fn preset(qfactor: &str, description: &str) -> PresetDefinition {
    PresetDefinition { tool: "gs".to_string(), args: args(qfactor), description: Some(description.to_string()) }
}

/// The built-in presets, as the program reads them.
fn builtin() -> PresetsConfig {
    PresetsConfig {
        version: 1,
        presets: vec![
            ("light".to_string(), preset("0.15", "High quality (~300 dpi equivalent)")),
            ("standard".to_string(), preset("0.5", "Medium quality (balanced defaults)")),
            ("high".to_string(), preset("1.5", "Low quality (smallest size)")),
        ],
    }
}

#[test]
fn test_get_compression_strategy_light() {
    let strategy = get_compression_strategy("light", &builtin());
    assert_eq!(strategy.tool, "gs");
    assert!(strategy.flags.contains(&"-sDEVICE=pdfwrite".to_string()));
    assert!(strategy.flags.contains(&"-dDownsampleColorImages=false".to_string()));
    let param_str = strategy.flags.last().unwrap();
    assert!(param_str.contains("/QFactor 0.15"));
}

#[test]
fn test_get_compression_strategy_standard() {
    let strategy = get_compression_strategy("standard", &builtin());
    assert_eq!(strategy.tool, "gs");
    let param_str = strategy.flags.last().unwrap();
    assert!(param_str.contains("/QFactor 0.5"));
}

#[test]
fn test_get_compression_strategy_high() {
    let strategy = get_compression_strategy("high", &builtin());
    let param_str = strategy.flags.last().unwrap();
    assert!(param_str.contains("/QFactor 1.5"));
}

#[test]
fn test_get_compression_strategy_unknown() {
    let strategy = get_compression_strategy("unknown", &builtin());
    let param_str = strategy.flags.last().unwrap();
    assert!(param_str.contains("/QFactor 0.5"));
}

#[test]
fn test_compression_strategy_base_flags() {
    for level in &["light", "standard", "high"] {
        let strategy = get_compression_strategy(level, &builtin());
        assert!(strategy.flags.contains(&"-sDEVICE=pdfwrite".to_string()));
        assert!(strategy.flags.contains(&"-dQUIET".to_string()));
        assert!(strategy.flags.contains(&"-dDownsampleColorImages=false".to_string()));
        assert!(strategy.flags.contains(&"-c".to_string()));
    }
}

#[test]
fn a_qpdf_preset_names_its_tool() {
    let mut config = builtin();
    config.presets.push((
        "structure".to_string(),
        PresetDefinition { tool: "qpdf".to_string(), args: vec!["--object-streams=generate".to_string()], description: None },
    ));
    let strategy = get_compression_strategy("structure", &config);
    assert_eq!(strategy.tool, "qpdf");
    assert_eq!(strategy.flags, vec!["--object-streams=generate"]);
}
