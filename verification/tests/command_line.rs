use nasty_retropixel_cli::cli::{
    apply_suggested_setup, check_batch_input, check_single_input, check_variant_input, configure,
    debug_exports, parse_cli_args, wants_auto_preset, CliOptions, SuggestedSetup,
};
use nasty_retropixel_cli::modes::{CliError, Config};
use nasty_retropixel_cli::report::{
    assign_ranks, json_node, json_str, json_u64, source_for, summary_row_from_report,
    summary_row_from_report_bytes, JsonValue,
};
use nasty_retropixel_cli::summary::QualitySignals;
use nasty_retropixel_cli::text::{is_blank_str, parse_usize_str, replace_all_str};

fn argv(rest: &[&str]) -> Vec<String> {
    let mut v = vec!["nasty-retropixel-cli".to_string()];
    v.extend(rest.iter().map(|s| s.to_string()));
    v
}

fn pixel_ok(args: &[String]) -> Vec<bool> {
    args.iter()
        .map(|a| matches!(a.parse::<f64>(), Ok(p) if p.is_finite() && p > 0.0))
        .collect()
}

fn parse(rest: &[&str]) -> Result<CliOptions, CliError> {
    let args = argv(rest);
    let ok = pixel_ok(&args);
    parse_cli_args(&args, &ok)
}

fn error_text(r: Result<CliOptions, CliError>) -> String {
    match r {
        Err(CliError::InvalidInput(m)) => m,
        Ok(_) => panic!("accepted"),
    }
}

#[test]
fn too_few_arguments_give_usage() {
    let m = error_text(parse(&["in.png"]));
    assert!(m.starts_with("Usage: nasty-retropixel-cli <input> <output> [k_colors]"));
    assert!(m.ends_with("- Use a directory input + directory output for batch processing."));
}

#[test]
fn plain_single_image() {
    let o = parse(&["input.png", "output.png"]).unwrap();
    assert_eq!(o.input_path, "input.png");
    assert_eq!(o.output_path, "output.png");
    assert!(o.k_colors.is_none());
    assert!(o.preset_name.is_none());
    assert!(!o.debug_json && !o.recommend_variant);
    let c = configure(&o).unwrap();
    assert_eq!(c, Config::default());
}

#[test]
fn readme_examples_parse() {
    let o = parse(&["input.png", "output.png", "16"]).unwrap();
    assert_eq!(o.k_colors, Some(16));
    let o = parse(&["input.png", "output.png", "16", "--pixel-size", "8"]).unwrap();
    assert_eq!(o.pixel_size.as_deref(), Some("8"));
    let o = parse(&["input.png", "output.png", "16", "--denoise", "box3", "--palette-source", "cells"])
        .unwrap();
    assert_eq!(o.denoise, Some(1));
    assert_eq!(o.palette_source, Some(1));
    let o = parse(&["input.png", "output.png", "16", "--dither", "fs", "--color-space", "linear"])
        .unwrap();
    assert_eq!(o.dither, Some(1));
    assert_eq!(o.color_space, Some(1));
    let c = configure(&o).unwrap();
    assert_eq!(c.k_colors, 16);
    assert_eq!(c.dither_mode, 1);
}

#[test]
fn every_flag_is_read() {
    let o = parse(&[
        "in", "out", "--preset", "icon-cleanup", "--palette-lock", "pal.png", "--palette-cleanup",
        "strict", "--cell-color", "medoid", "--cleanup", "off", "--repair", "ultra",
        "--debug-json", "--debug-overlay", "--debug-heatmap", "--debug-dir", "dbg",
        "--review-pack-top", "5", "--retry-review-top", "+3", "--recommend-variant",
    ])
    .unwrap();
    assert_eq!(o.preset_name.as_deref(), Some("icon-cleanup"));
    assert_eq!(o.palette_lock_path.as_deref(), Some("pal.png"));
    assert_eq!(o.palette_cleanup_mode, Some(2));
    assert_eq!(o.cell_color_mode, Some(2));
    assert_eq!(o.cleanup_mode, Some(0));
    assert_eq!(o.repair_mode, Some(3));
    assert!(o.debug_json && o.debug_overlay && o.debug_heatmap);
    assert_eq!(o.debug_dir.as_deref(), Some("dbg"));
    assert_eq!(o.review_pack_top, Some(5));
    assert_eq!(o.retry_review_top, Some(3));
    assert!(o.recommend_variant);
    let c = configure(&o).unwrap();
    assert_eq!(c.k_colors, 12);
    assert_eq!(c.cleanup_mode, 0);
    assert_eq!(c.repair_mode, 3);
    assert_eq!(c.cell_color_mode, 2);
}

#[test]
fn later_flags_win() {
    let o = parse(&["in", "out", "8", "--repair", "basic", "12", "--repair", "smart"]).unwrap();
    assert_eq!(o.k_colors, Some(12));
    assert_eq!(o.repair_mode, Some(2));
}

#[test]
fn refusals_carry_their_messages() {
    assert_eq!(error_text(parse(&["in", "out", "--pixel-size"])), "--pixel-size requires a value");
    assert_eq!(error_text(parse(&["in", "out", "--pixel-size", "0"])), "invalid --pixel-size '0'");
    assert_eq!(error_text(parse(&["in", "out", "--pixel-size", "inf"])), "invalid --pixel-size 'inf'");
    assert_eq!(error_text(parse(&["in", "out", "--preset", "  "])), "--preset cannot be empty");
    assert_eq!(error_text(parse(&["in", "out", "--denoise", "gauss"])), "invalid --denoise 'gauss'");
    assert_eq!(
        error_text(parse(&["in", "out", "--palette-source", "image"])),
        "invalid --palette-source 'image'"
    );
    assert_eq!(error_text(parse(&["in", "out", "--palette-lock", "\t"])), "--palette-lock cannot be empty");
    assert_eq!(error_text(parse(&["in", "out", "--cell-color"])), "--cell-color requires a value");
    assert_eq!(error_text(parse(&["in", "out", "--dither", "ordered"])), "invalid --dither 'ordered'");
    assert_eq!(error_text(parse(&["in", "out", "--color-space", "lab"])), "invalid --color-space 'lab'");
    assert_eq!(error_text(parse(&["in", "out", "--cleanup", "strict"])), "invalid --cleanup 'strict'");
    assert_eq!(error_text(parse(&["in", "out", "--repair", "mega"])), "invalid --repair 'mega'");
    assert_eq!(error_text(parse(&["in", "out", "--debug-dir", ""])), "--debug-dir cannot be empty");
    assert_eq!(error_text(parse(&["in", "out", "--review-pack-top", "0"])), "invalid --review-pack-top '0'");
    assert_eq!(error_text(parse(&["in", "out", "--retry-review-top", "-2"])), "invalid --retry-review-top '-2'");
    assert_eq!(error_text(parse(&["in", "out", "--fast"])), "unknown argument '--fast'");
    assert_eq!(error_text(parse(&["in", "out", "0"])), "invalid k_colors '0'");
    assert_eq!(error_text(parse(&["in", "out", "sixteen"])), "invalid k_colors 'sixteen'");
    assert_eq!(error_text(parse(&["in", "out", "-5"])), "invalid k_colors '-5'");
}

#[test]
fn first_refusal_stops_reading() {
    assert_eq!(
        error_text(parse(&["in", "out", "--pixel-size", "abc", "--bogus"])),
        "invalid --pixel-size 'abc'"
    );
    assert_eq!(
        error_text(parse(&["in", "out", "--bogus", "--pixel-size", "abc"])),
        "unknown argument '--bogus'"
    );
}

#[test]
fn unknown_preset_is_refused_by_configure() {
    let o = parse(&["in", "out", "--preset", "pastel"]).unwrap();
    match configure(&o) {
        Err(CliError::InvalidInput(m)) => assert!(m.starts_with("unknown preset 'pastel'.")),
        Ok(_) => panic!("accepted"),
    }
}

#[test]
fn auto_preset_and_suggestions() {
    let o = parse(&["in", "out", "--preset", "auto", "20", "--dither", "fs"]).unwrap();
    assert!(wants_auto_preset(&o));
    let mut c = configure(&o).unwrap();
    assert_eq!(c.k_colors, 20);
    let s = SuggestedSetup {
        prefilter_mode: 0,
        palette_source: 0,
        palette_cleanup_mode: 0,
        cell_color_mode: 0,
        cleanup_mode: 0,
        repair_mode: 1,
    };
    apply_suggested_setup(&mut c, "character-cleanup", &s, &o).unwrap();
    assert_eq!(c.k_colors, 20);
    assert_eq!(c.prefilter_mode, 0);
    assert_eq!(c.repair_mode, 1);
    assert_eq!(c.dither_mode, 1);
    assert_eq!(c.color_space, 1);
    let before = c;
    assert!(apply_suggested_setup(&mut c, "nope", &s, &o).is_err());
    assert_eq!(c, before);
    assert!(check_batch_input(&o).is_err());
    let plain = parse(&["in", "out"]).unwrap();
    assert!(!wants_auto_preset(&plain));
    assert!(check_batch_input(&plain).is_ok());
}

#[test]
fn review_flags_turn_on_debug_exports() {
    let o = parse(&["in", "out", "--debug-overlay"]).unwrap();
    assert_eq!(debug_exports(&o), (false, true, false));
    assert!(check_single_input(&o).is_ok());
    let o = parse(&["in", "out", "--retry-review-top", "2"]).unwrap();
    assert_eq!(debug_exports(&o), (true, true, true));
    match check_single_input(&o) {
        Err(CliError::InvalidInput(m)) => assert_eq!(
            m,
            "--review-pack-top e --retry-review-top sono supportati solo con input directory batch"
        ),
        Ok(()) => panic!("accepted"),
    }
}

#[test]
fn variant_needs_a_file() {
    let o = parse(&["in", "out", "--recommend-variant"]).unwrap();
    assert!(check_variant_input(&o, true).is_ok());
    match check_variant_input(&o, false) {
        Err(CliError::InvalidInput(m)) => {
            assert_eq!(m, "--recommend-variant is supported only for single-file input")
        }
        Ok(()) => panic!("accepted"),
    }
    let plain = parse(&["in", "out"]).unwrap();
    assert!(check_variant_input(&plain, false).is_ok());
}

#[test]
fn unsigned_numbers_parse_as_std_does() {
    for s in ["0", "7", "+7", "007", "18446744073709551615", "", "+", "-0", " 1", "1 ", "18446744073709551616", "1e3", "٣"] {
        assert_eq!(parse_usize_str(s), s.parse::<usize>().ok(), "for {:?}", s);
    }
}

#[test]
fn blank_means_trimmed_empty() {
    for s in ["", " ", "\t\n\r", "\u{3000}\u{a0}", " x ", "x", "\u{200b}"] {
        assert_eq!(is_blank_str(s), s.trim().is_empty(), "for {:?}", s);
    }
}

#[test]
fn replacing_matches_std() {
    for (s, p, r) in [("aaa", "aa", "b"), ("x.debug.json", ".debug.json", ".png"), ("", "a", "b"), ("abab", "ab", ""), ("\"\"\"", "\"", "\"\"")] {
        assert_eq!(replace_all_str(s, p, r), s.replace(p, r));
    }
}

fn obj(fields: Vec<(&str, JsonValue)>) -> JsonValue {
    JsonValue::Object(fields.into_iter().map(|(k, v)| (k.to_string(), v)).collect())
}

fn report() -> JsonValue {
    obj(vec![
        ("config", obj(vec![
            ("k_colors", JsonValue::Number(Some(24))),
            ("prefilter_mode", JsonValue::Str("off".to_string())),
            ("palette_source", JsonValue::Str("pixels".to_string())),
            ("palette_cleanup_mode", JsonValue::Str("basic".to_string())),
            ("cell_color_mode", JsonValue::Str("mean".to_string())),
            ("dither_mode", JsonValue::Str("fs".to_string())),
            ("color_space", JsonValue::Str("srgb".to_string())),
            ("cleanup_mode", JsonValue::Str("off".to_string())),
            ("repair_mode", JsonValue::Number(Some(2))),
        ])),
        ("palette", JsonValue::Array(vec![JsonValue::Null, JsonValue::Bool(true), JsonValue::Null])),
        ("output_width", JsonValue::Number(Some(64))),
        ("output_height", JsonValue::Number(None)),
    ])
}

#[test]
fn json_paths() {
    let r = report();
    assert!(json_node(&r, &[]).is_some());
    assert!(json_node(&r, &["config", "k_colors"]).is_some());
    assert!(json_node(&r, &["config", "missing"]).is_none());
    assert!(json_node(&r, &["palette", "x"]).is_none());
    assert_eq!(json_u64(&r, &["config", "k_colors"]), Some(24));
    assert_eq!(json_u64(&r, &["palette"]), Some(3));
    assert_eq!(json_u64(&r, &["output_height"]), None);
    assert_eq!(json_u64(&r, &["config", "prefilter_mode"]), None);
    assert_eq!(json_str(&r, &["config", "dither_mode"]), "fs");
    assert_eq!(json_str(&r, &["config", "repair_mode"]), "");
    assert_eq!(json_str(&r, &["nothing"]), "");
}

#[test]
fn sources_are_looked_up_last_first() {
    let pairs = vec![
        ("a.png".to_string(), "one/a.jpg".to_string()),
        ("b.png".to_string(), "b.jpg".to_string()),
        ("a.png".to_string(), "two/a.jpg".to_string()),
    ];
    assert_eq!(source_for(&pairs, "a.png"), "two/a.jpg");
    assert_eq!(source_for(&pairs, "b.png"), "b.jpg");
    assert_eq!(source_for(&pairs, "c.png"), "");
}

#[test]
fn summary_rows_from_reports() {
    let r = report();
    let pairs = vec![("sub/x.png".to_string(), "sub/x.jpg".to_string())];
    let signals = QualitySignals {
        quality_below: 1,
        grid_below: 0,
        compactness_below: 0,
        coverage_below: 0,
        area_above: 0,
        score_above: 0,
    };
    let row = summary_row_from_report(&r, "sub/x.debug.json", &pairs, signals);
    assert_eq!(row.rank, 0);
    assert_eq!(row.relative_path, "sub/x.debug.json");
    assert_eq!(row.output_relative_path, "sub/x.png");
    assert_eq!(row.source_relative_path, "sub/x.jpg");
    assert_eq!(row.k_colors, 24);
    assert_eq!(row.palette_count, 3);
    assert_eq!(row.output_width, 64);
    assert_eq!(row.output_height, 0);
    assert_eq!(row.prefilter_mode, "off");
    assert_eq!(row.repair_mode, "");
    assert_eq!(row.review_priority, "medium");
    assert_eq!(row.recommended_profile, "ai-sprite");
    assert_eq!(row.recommended_actions, "mantieni setup attuale e verifica manualmente");
    assert_eq!(row.recommendation_reason, "focus principale: rifinitura generale");

    let empty = obj(vec![("palette_count", JsonValue::Number(Some(7)))]);
    let row = summary_row_from_report(&empty, "y.json", &Vec::new(), signals);
    assert_eq!(row.k_colors, 16);
    assert_eq!(row.palette_count, 7);
    assert_eq!(row.output_relative_path, "y.json");
    assert_eq!(row.source_relative_path, "");

    let mut rows = vec![
        summary_row_from_report(&r, "b.debug.json", &pairs, signals),
        summary_row_from_report(&r, "a.debug.json", &pairs, signals),
    ];
    assign_ranks(&mut rows);
    assert_eq!(rows[0].rank, 1);
    assert_eq!(rows[1].rank, 2);
    assert_eq!(rows[0].relative_path, "b.debug.json");
}

#[test]
fn reports_are_read_from_their_bytes() {
    let text = br#"{"config":{"k_colors":12,"dither_mode":"fs","repair_mode":"smart","cleanup_mode":7},
        "palette":[1,2,3,4],"output_width":40,"output_height":-3,"note":null,"ok":true}"#;
    let pairs = vec![("r.png".to_string(), "in/r.jpg".to_string())];
    let signals = QualitySignals {
        quality_below: 0,
        grid_below: 0,
        compactness_below: 0,
        coverage_below: 0,
        area_above: 0,
        score_above: 0,
    };
    let row = summary_row_from_report_bytes(text, "r.debug.json", &pairs, signals)
        .expect("a summary row");
    assert_eq!(row.rank, 0);
    assert_eq!(row.k_colors, 12);
    assert_eq!(row.palette_count, 4);
    assert_eq!(row.output_width, 40);
    assert_eq!(row.output_height, 0);
    assert_eq!(row.dither_mode, "fs");
    assert_eq!(row.repair_mode, "smart");
    assert_eq!(row.cleanup_mode, "");
    assert_eq!(row.prefilter_mode, "");
    assert_eq!(row.output_relative_path, "r.png");
    assert_eq!(row.source_relative_path, "in/r.jpg");
    assert_eq!(row.review_priority, "low");

    let counted = summary_row_from_report_bytes(
        br#"{"palette_count":9,"output_width":2.5,"config":{"k_colors":"many"}}"#,
        "s.debug.json",
        &pairs,
        signals,
    )
    .expect("a summary row");
    assert_eq!(counted.palette_count, 9);
    assert_eq!(counted.output_width, 0);
    assert_eq!(counted.k_colors, 16);
    assert_eq!(counted.source_relative_path, "");

    for bad in [&b"not json"[..], b"", b"{\"config\":", b"[1] [2]"] {
        assert!(summary_row_from_report_bytes(bad, "r.debug.json", &pairs, signals).is_none());
    }
    let other = summary_row_from_report_bytes(b"[]", "r.debug.json", &pairs, signals)
        .expect("any JSON document gives a row");
    assert_eq!(other.k_colors, 16);
}

#[test]
fn preset_position_does_not_matter() {
    let orders: [&[&str]; 4] = [
        &["in.png", "out.png", "--preset", "ai-sprite", "8", "--dither", "fs", "--repair", "off"],
        &["in.png", "out.png", "8", "--preset", "ai-sprite", "--dither", "fs", "--repair", "off"],
        &["in.png", "out.png", "8", "--dither", "fs", "--preset", "ai-sprite", "--repair", "off"],
        &["in.png", "out.png", "8", "--dither", "fs", "--repair", "off", "--preset", "ai-sprite"],
    ];
    let expected = Config {
        k_colors: 8,
        prefilter_mode: 1,
        palette_source: 1,
        palette_cleanup_mode: 2,
        cell_color_mode: 2,
        dither_mode: 1,
        color_space: 1,
        cleanup_mode: 1,
        repair_mode: 0,
    };
    for args in orders {
        let o = parse(args).unwrap();
        assert_eq!(o.preset_name.as_deref(), Some("ai-sprite"));
        assert_eq!(configure(&o).unwrap(), expected);
    }
    // Unset settings come from the preset.
    let o = parse(&["in.png", "out.png", "--preset", "ultra-cleanup"]).unwrap();
    let c = configure(&o).unwrap();
    assert_eq!((c.k_colors, c.repair_mode, c.cell_color_mode), (24, 3, 2));
}
