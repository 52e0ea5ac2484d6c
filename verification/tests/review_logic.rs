use nasty_retropixel_cli::csv::{build_csv, csv_escape, decimal_string, CsvCell};
use nasty_retropixel_cli::modes::{
    algo_overrides_from_config, apply_named_preset, apply_retry_algo_overrides, mode_cell_color,
    mode_cleanup, mode_color_space, mode_dither, mode_palette_cleanup, mode_palette_source,
    mode_prefilter, mode_repair, preset_by_name, CliError, Config, RetryAlgoOverrides,
};
use nasty_retropixel_cli::paths::{
    is_debug_report_name, normalize_separators, output_relative_path, png_file_name,
    retry_heatmap_relative_path, retry_overlay_relative_path,
};
use nasty_retropixel_cli::plans::{
    build_retry_candidate_plans_for_cli, build_retry_plan_candidates, dedupe_retry_candidate_plans,
    RetryCandidatePlan,
};
use nasty_retropixel_cli::retry::{retry_status, select_retry};
use nasty_retropixel_cli::summary::{
    compactness_cuts, config_from_summary_row, coverage_cuts, diff_area_cuts, diff_score_cuts,
    grid_cuts, quality_cuts, summarize_recommendation, BatchSummaryRow, QualitySignals,
};
use nasty_retropixel_cli::tables::{
    batch_summary_csv_header, retry_review_csv_cells, retry_review_csv_header, summary_csv_cells,
    RetryReviewLine, SummaryFigures,
};

fn quiet_signals() -> QualitySignals {
    QualitySignals {
        quality_below: 0,
        grid_below: 0,
        compactness_below: 0,
        coverage_below: 0,
        area_above: 0,
        score_above: 0,
    }
}

fn row_with(signals: QualitySignals) -> BatchSummaryRow {
    BatchSummaryRow {
        rank: 0,
        source_relative_path: String::new(),
        relative_path: "a/b.debug.json".to_string(),
        output_relative_path: "a/b.png".to_string(),
        review_priority: String::new(),
        recommended_profile: "ai-sprite".to_string(),
        recommended_actions: "mantieni setup attuale e verifica manualmente".to_string(),
        recommendation_reason: "focus principale: rifinitura generale".to_string(),
        k_colors: 16,
        palette_count: 10,
        output_width: 32,
        output_height: 16,
        prefilter_mode: "box3".to_string(),
        palette_source: "cells".to_string(),
        palette_cleanup_mode: "strict".to_string(),
        cell_color_mode: "dominant".to_string(),
        dither_mode: "off".to_string(),
        color_space: "linear".to_string(),
        cleanup_mode: "basic".to_string(),
        repair_mode: "smart".to_string(),
        signals,
    }
}

fn modes(
    d: u32,
    ps: u32,
    pc: u32,
    cc: u32,
    di: u32,
    cs: u32,
    cl: u32,
    rp: u32,
) -> RetryAlgoOverrides {
    RetryAlgoOverrides {
        denoise: d,
        palette_source: ps,
        palette_cleanup_mode: pc,
        cell_color_mode: cc,
        dither_mode: di,
        color_space: cs,
        cleanup_mode: cl,
        repair_mode: rp,
    }
}

#[test]
fn mode_labels_are_read_back() {
    assert_eq!(mode_prefilter("box3"), 1);
    assert_eq!(mode_prefilter("off"), 0);
    assert_eq!(mode_prefilter("anything"), 0);
    assert_eq!(mode_palette_source("pixels"), 0);
    assert_eq!(mode_palette_source("cells"), 1);
    assert_eq!(mode_palette_source(""), 1);
    assert_eq!(mode_palette_cleanup("off"), 0);
    assert_eq!(mode_palette_cleanup("basic"), 1);
    assert_eq!(mode_palette_cleanup("strict"), 2);
    assert_eq!(mode_palette_cleanup("?"), 1);
    assert_eq!(mode_cell_color("mean"), 0);
    assert_eq!(mode_cell_color("dominant"), 1);
    assert_eq!(mode_cell_color("medoid"), 2);
    assert_eq!(mode_cell_color("Mean"), 1);
    assert_eq!(mode_dither("fs"), 1);
    assert_eq!(mode_dither("off"), 0);
    assert_eq!(mode_color_space("srgb"), 0);
    assert_eq!(mode_color_space("linear"), 1);
    assert_eq!(mode_cleanup("off"), 0);
    assert_eq!(mode_cleanup("basic"), 1);
    assert_eq!(mode_repair("off"), 0);
    assert_eq!(mode_repair("basic"), 1);
    assert_eq!(mode_repair("smart"), 2);
    assert_eq!(mode_repair("ultra"), 3);
    assert_eq!(mode_repair("ultra "), 2);
}

#[test]
fn summary_row_gives_its_settings() {
    let mut row = row_with(quiet_signals());
    row.k_colors = 0;
    row.prefilter_mode = "off".to_string();
    row.repair_mode = "ultra".to_string();
    let c = config_from_summary_row(&row);
    assert_eq!(c.k_colors, 1);
    assert_eq!(c.prefilter_mode, 0);
    assert_eq!(c.palette_source, 1);
    assert_eq!(c.palette_cleanup_mode, 2);
    assert_eq!(c.cell_color_mode, 1);
    assert_eq!(c.dither_mode, 0);
    assert_eq!(c.color_space, 1);
    assert_eq!(c.cleanup_mode, 1);
    assert_eq!(c.repair_mode, 3);
}

#[test]
fn presets_set_palette_and_modes() {
    let mut c = Config::default();
    assert_eq!(c.k_colors, 16);
    assert!(apply_named_preset(&mut c, "ultra-cleanup").is_ok());
    assert_eq!(c.k_colors, 24);
    assert_eq!(c.repair_mode, 3);
    assert_eq!(c.cell_color_mode, 2);
    assert!(apply_named_preset(&mut c, "tileset-cleanup").is_ok());
    assert_eq!(c.k_colors, 32);
    assert_eq!(c.palette_cleanup_mode, 1);
    assert_eq!(preset_by_name("icon-cleanup").unwrap().k_colors, 12);
    assert!(preset_by_name("auto").is_none());
}

#[test]
fn unknown_preset_is_refused_and_changes_nothing() {
    let mut c = Config::default();
    let before = c;
    match apply_named_preset(&mut c, "pastel") {
        Err(CliError::InvalidInput(m)) => assert_eq!(
            m,
            "unknown preset 'pastel'. Available presets: ai-sprite, strict-retro, tileset-cleanup, character-cleanup, icon-cleanup, ultra-cleanup"
        ),
        Ok(()) => panic!("accepted an unknown preset"),
    }
    assert_eq!(c, before);
    let e = CliError::InvalidInput("x".to_string());
    assert_eq!(e.message(), "Invalid input: x");
}

#[test]
fn overrides_round_trip() {
    let base = Config::default();
    let o = modes(1, 0, 2, 2, 1, 0, 0, 3);
    let applied = apply_retry_algo_overrides(&base, &o);
    assert_eq!(algo_overrides_from_config(&applied), o);
    assert_eq!(applied.k_colors, base.k_colors);
    let same = apply_retry_algo_overrides(&base, &algo_overrides_from_config(&base));
    assert_eq!(same, base);
}

fn plan(key: &str, o: RetryAlgoOverrides) -> RetryCandidatePlan {
    RetryCandidatePlan {
        key: key.to_string(),
        label: key.to_uppercase(),
        reason: String::new(),
        algo_overrides: o,
    }
}

#[test]
fn dedupe_keeps_first_of_each_mode_set() {
    let a = modes(1, 1, 2, 2, 0, 1, 1, 2);
    let b = modes(1, 1, 2, 2, 0, 1, 1, 3);
    let plans = vec![plan("p1", a), plan("p2", b), plan("p3", a), plan("p4", b), plan("p5", a)];
    let kept = dedupe_retry_candidate_plans(plans);
    let keys: Vec<&str> = kept.iter().map(|p| p.key.as_str()).collect();
    assert_eq!(keys, vec!["p1", "p2"]);
    let again = dedupe_retry_candidate_plans(kept);
    assert_eq!(again.len(), 2);
    assert!(dedupe_retry_candidate_plans(Vec::new()).is_empty());
}

#[test]
fn retry_plans_for_a_row() {
    let mut row = row_with(quiet_signals());
    row.prefilter_mode = "off".to_string();
    row.palette_cleanup_mode = "off".to_string();
    row.repair_mode = "off".to_string();
    row.palette_count = 30;
    row.recommended_profile = "ai-sprite".to_string();
    row.recommendation_reason = "focus principale: palette dispersa".to_string();
    let plans = build_retry_candidate_plans_for_cli(&row).unwrap();
    assert_eq!(plans.len(), 3);
    assert_eq!(plans[0].key, "recommended-profile");
    assert_eq!(plans[0].label, "Profilo ai-sprite");
    assert_eq!(plans[0].reason, "focus principale: palette dispersa");
    assert_eq!(plans[0].algo_overrides, modes(1, 1, 2, 2, 0, 1, 1, 2));
    assert_eq!(plans[1].key, "stability-pass");
    assert_eq!(plans[1].label, "Stability Pass");
    assert_eq!(plans[1].reason, "rinforza griglia, palette dalle celle e repair medio");
    assert_eq!(plans[1].algo_overrides, modes(1, 1, 2, 1, 0, 1, 1, 2));
    assert_eq!(plans[2].key, "recovery-pass");
    assert_eq!(
        plans[2].reason,
        "pass aggressivo per casi molto degradati o con grande area differente"
    );
    assert_eq!(plans[2].algo_overrides, modes(1, 1, 2, 2, 0, 1, 1, 3));
}

#[test]
fn retry_plans_drop_duplicate_passes() {
    // With a strict palette of few colors, the stability pass runs the same
    // modes as the strict-retro preset and is dropped.
    let mut row = row_with(quiet_signals());
    row.recommended_profile = "strict-retro".to_string();
    let plans = build_retry_candidate_plans_for_cli(&row).unwrap();
    let keys: Vec<&str> = plans.iter().map(|p| p.key.as_str()).collect();
    assert_eq!(keys, vec!["recommended-profile", "recovery-pass"]);
    // The ultra preset runs what the recovery pass would run.
    row.recommended_profile = "ultra-cleanup".to_string();
    row.cell_color_mode = "medoid".to_string();
    let plans = build_retry_candidate_plans_for_cli(&row).unwrap();
    let keys: Vec<&str> = plans.iter().map(|p| p.key.as_str()).collect();
    assert_eq!(keys, vec!["recommended-profile", "stability-pass"]);
}

#[test]
fn retry_plans_need_a_known_profile() {
    let mut row = row_with(quiet_signals());
    row.recommended_profile = "".to_string();
    match build_retry_candidate_plans_for_cli(&row) {
        Err(CliError::InvalidInput(m)) => assert!(m.starts_with("unknown preset ''.")),
        Ok(_) => panic!("accepted an empty profile"),
    }
}

#[test]
fn review_pack_plan_outlines() {
    let row = row_with(quiet_signals());
    let outlines = build_retry_plan_candidates(&row);
    assert_eq!(outlines.len(), 3);
    assert_eq!(outlines[0].label, "Profilo ai-sprite");
    assert_eq!(outlines[0].actions, "mantieni setup attuale e verifica manualmente");
    assert_eq!(
        outlines[1].actions,
        "attiva denoise box3 | usa palette dalle celle | attiva/alza repair smart"
    );
    assert_eq!(outlines[2].reason, "pass aggressivo per casi molto degradati");
    assert_eq!(
        outlines[2].actions,
        "attiva denoise box3 | palette cleanup strict | prova repair ultra"
    );
}

#[test]
fn cut_points_are_sorted_and_in_ten_thousandths() {
    assert_eq!(quality_cuts(), vec![3800, 5500, 7200]);
    assert_eq!(grid_cuts(), vec![4200, 4800, 5500, 5800]);
    assert_eq!(compactness_cuts(), vec![5500, 6000, 6200, 6800]);
    assert_eq!(coverage_cuts(), vec![4500]);
    assert_eq!(diff_area_cuts(), vec![1400, 1800, 2200, 2600, 3200]);
    assert_eq!(diff_score_cuts(), vec![220000, 240000]);
}

#[test]
fn recommendation_for_a_clean_row() {
    let row = row_with(quiet_signals());
    let (p, profile, actions, reason) = summarize_recommendation(&row);
    assert_eq!(p, "low");
    assert_eq!(profile, "ai-sprite");
    assert_eq!(actions, "mantieni setup attuale e verifica manualmente");
    assert_eq!(reason, "focus principale: rifinitura generale");
}

#[test]
fn recommendation_for_a_degraded_row() {
    // quality below every quality cut, grid below all grid cuts, area above two area cuts
    let s = QualitySignals {
        quality_below: 3,
        grid_below: 4,
        compactness_below: 1,
        coverage_below: 0,
        area_above: 2,
        score_above: 1,
    };
    let mut row = row_with(s);
    row.prefilter_mode = "off".to_string();
    row.palette_source = "pixels".to_string();
    row.palette_cleanup_mode = "basic".to_string();
    row.cleanup_mode = "off".to_string();
    row.repair_mode = "basic".to_string();
    let (p, profile, actions, reason) = summarize_recommendation(&row);
    assert_eq!(p, "critical");
    assert_eq!(profile, "tileset-cleanup");
    assert_eq!(
        actions,
        "attiva denoise box3 | usa palette dalle celle | attiva cleanup base | alza repair a smart"
    );
    assert_eq!(reason, "focus principale: griglia instabile");
}

#[test]
fn recommendation_priorities_and_profiles() {
    let mut s = quiet_signals();
    s.quality_below = 2;
    assert_eq!(summarize_recommendation(&row_with(s)).0, "high");
    s.quality_below = 1;
    assert_eq!(summarize_recommendation(&row_with(s)).0, "medium");
    s.quality_below = 0;
    s.area_above = 5;
    let r = summarize_recommendation(&row_with(s));
    assert_eq!(r.0, "critical");
    assert_eq!(r.1, "character-cleanup");
    assert_eq!(r.3, "focus principale: molta area differente");
    assert_eq!(r.2, "prova repair ultra");
    let mut s = quiet_signals();
    s.score_above = 2;
    let r = summarize_recommendation(&row_with(s));
    assert_eq!(r.1, "ultra-cleanup");
    assert_eq!(r.3, "focus principale: fedelta' bassa");
    let mut row = row_with(quiet_signals());
    row.palette_count = 25;
    row.palette_cleanup_mode = "basic".to_string();
    let r = summarize_recommendation(&row);
    assert_eq!(r.1, "strict-retro");
    assert_eq!(r.2, "porta palette cleanup a strict");
    let mut s = quiet_signals();
    s.compactness_below = 3;
    let mut row = row_with(s);
    row.repair_mode = "off".to_string();
    let r = summarize_recommendation(&row);
    assert_eq!(r.3, "focus principale: palette dispersa");
    assert_eq!(r.2, "attiva repair smart");
}

#[test]
fn csv_fields_are_escaped() {
    assert_eq!(csv_escape("plain"), "plain");
    assert_eq!(csv_escape(""), "");
    assert_eq!(csv_escape("a,b"), "\"a,b\"");
    assert_eq!(csv_escape("say \"hi\""), "\"say \"\"hi\"\"\"");
    assert_eq!(csv_escape("line\nbreak"), "\"line\nbreak\"");
    assert_eq!(csv_escape("cr\r"), "\"cr\r\"");
    assert_eq!(csv_escape("\""), "\"\"\"\"");
}

fn unescape(f: &str) -> String {
    if f.len() >= 2 && f.starts_with('"') && f.ends_with('"') {
        f[1..f.len() - 1].replace("\"\"", "\"")
    } else {
        f.to_string()
    }
}

#[test]
fn csv_escape_round_trips() {
    for v in ["", "x", "\"", "\"\"", "a\"b,c", "é, \"ü\"\n", "\"start", "end\""] {
        assert_eq!(unescape(&csv_escape(v)), v);
    }
}

#[test]
fn csv_documents_are_assembled() {
    let rows = vec![
        vec![CsvCell::Raw("1".to_string()), CsvCell::Text("a,b".to_string())],
        vec![CsvCell::Raw("2".to_string()), CsvCell::Text("c".to_string())],
    ];
    assert_eq!(build_csv("n,t\n", &rows), "n,t\n1,\"a,b\"\n2,c\n");
    assert_eq!(build_csv("h\n", &Vec::new()), "h\n");
    assert_eq!(build_csv("", &vec![Vec::new()]), "\n");
}

#[test]
fn decimal_numbers() {
    assert_eq!(decimal_string(0), "0");
    assert_eq!(decimal_string(7), "7");
    assert_eq!(decimal_string(10), "10");
    assert_eq!(decimal_string(40321), "40321");
    assert_eq!(decimal_string(u64::MAX), u64::MAX.to_string());
}

#[test]
fn report_file_names() {
    assert!(is_debug_report_name("x.debug.json"));
    assert!(!is_debug_report_name("x.debug.json.bak"));
    assert!(!is_debug_report_name("debug.json"));
    assert_eq!(retry_overlay_relative_path("dir/x.debug.json"), "dir/x.overlay.png");
    assert_eq!(retry_heatmap_relative_path("dir/x.debug.json"), "dir/x.heatmap.png");
    assert_eq!(
        retry_overlay_relative_path("a.debug.json/b.debug.json"),
        "a.overlay.png/b.overlay.png"
    );
    assert_eq!(retry_heatmap_relative_path("plain.txt"), "plain.txt");
    assert_eq!(output_relative_path("dir/x.debug.json"), "dir/x.png");
    assert_eq!(output_relative_path("dir/x.json"), "dir/x.json");
    assert_eq!(normalize_separators("a\\b\\c.png"), "a/b/c.png");
    assert_eq!(png_file_name("sprite"), "sprite.png");
}

#[test]
fn retry_selection() {
    let d = vec![Some(-5), None, Some(12), Some(12), Some(3)];
    assert_eq!(select_retry(&d), (Some(2), Some(2)));
    let d = vec![Some(-5), Some(-1), Some(0)];
    assert_eq!(select_retry(&d), (Some(2), None));
    let d = vec![None, None];
    assert_eq!(select_retry(&d), (None, None));
    assert_eq!(select_retry(&Vec::new()), (None, None));
    let d = vec![Some(0), Some(0)];
    assert_eq!(select_retry(&d), (Some(0), None));
}

#[test]
fn retry_statuses() {
    assert_eq!(retry_status("", true, &Vec::new()), "missing_source");
    assert_eq!(retry_status("a.png", false, &vec![Some(5)]), "missing_source");
    assert_eq!(retry_status("a.png", true, &vec![Some(-2), Some(5)]), "improved");
    assert_eq!(retry_status("a.png", true, &vec![Some(-2), Some(0)]), "no_gain");
    assert_eq!(retry_status("a.png", true, &vec![None, None]), "attempt_failed");
    assert_eq!(retry_status("a.png", true, &Vec::new()), "not_available");
}

#[test]
fn summary_csv_line() {
    let mut row = row_with(quiet_signals());
    row.rank = 3;
    row.recommended_actions = "a | b".to_string();
    row.recommendation_reason = "x, y".to_string();
    let f = SummaryFigures {
        pixel_size_override: String::new(),
        quality_overall: "0.5000".to_string(),
        diff_score: "12.0000".to_string(),
        diff_area: "0.1000".to_string(),
        grid_regularity: "0.9000".to_string(),
        palette_compactness: "1.0000".to_string(),
        coverage_ratio: "0.7500".to_string(),
        step_x: "8.0000".to_string(),
        step_y: "8.5000".to_string(),
    };
    let doc = build_csv(&batch_summary_csv_header(), &vec![summary_csv_cells(&row, &f)]);
    let expected_header = "rank,source_relative_path,relative_path,output_relative_path,review_priority,recommended_profile,recommended_actions,recommendation_reason,k_colors,pixel_size_override,quality_overall,diff_score,diff_area,grid_regularity,palette_compactness,coverage_ratio,palette_count,output_width,output_height,step_x,step_y,prefilter_mode,palette_source,palette_cleanup_mode,cell_color_mode,dither_mode,color_space,cleanup_mode,repair_mode\n";
    let expected_line = "3,,a/b.debug.json,a/b.png,,ai-sprite,a | b,\"x, y\",16,,0.5000,12.0000,0.1000,0.9000,1.0000,0.7500,10,32,16,8.0000,8.5000,box3,cells,strict,dominant,off,linear,basic,smart\n";
    assert_eq!(doc, format!("{}{}", expected_header, expected_line));
}

#[test]
fn retry_review_csv_line() {
    let line = RetryReviewLine {
        relative_path: "x.debug.json".to_string(),
        source_relative_path: "x.png".to_string(),
        retry_status: "no_gain".to_string(),
        baseline_quality: "0.4000".to_string(),
        best_label: None,
        best_quality: String::new(),
        best_delta: String::new(),
        selected_label: None,
        selected_quality: String::new(),
        selected_delta: String::new(),
        exported_output_relative_path: None,
        recommended_profile: "ai-sprite".to_string(),
        recommended_actions: "a".to_string(),
        recommendation_reason: "r".to_string(),
    };
    let doc = build_csv(&retry_review_csv_header(), &vec![retry_review_csv_cells(&line)]);
    assert!(doc.starts_with("relative_path,source_relative_path,retry_status,baseline_quality,"));
    assert!(doc.ends_with("\nx.debug.json,x.png,no_gain,0.4000,baseline,,,,,,,ai-sprite,a,r\n"));
    let line = RetryReviewLine {
        best_label: Some("Recovery Pass".to_string()),
        best_quality: "0.6000".to_string(),
        best_delta: "0.2000".to_string(),
        selected_label: Some("Recovery Pass".to_string()),
        selected_quality: "0.6000".to_string(),
        selected_delta: "0.2000".to_string(),
        exported_output_relative_path: Some("outputs/x.png".to_string()),
        ..line
    };
    let cells = retry_review_csv_cells(&line);
    let doc = build_csv("", &vec![cells]);
    assert_eq!(
        doc,
        "x.debug.json,x.png,no_gain,0.4000,Recovery Pass,0.6000,0.2000,Recovery Pass,0.6000,0.2000,outputs/x.png,ai-sprite,a,r\n"
    );
}

/// A plain RFC 4180 reader: records of fields, quoted fields with doubled
/// quotes.
fn read_csv(text: &str) -> Vec<Vec<String>> {
    let chars: Vec<char> = text.chars().collect();
    let mut records = Vec::new();
    let mut i = 0;
    while i < chars.len() {
        let mut record = Vec::new();
        loop {
            let mut field = String::new();
            if i < chars.len() && chars[i] == '"' {
                i += 1;
                while i < chars.len() {
                    if chars[i] == '"' {
                        if i + 1 < chars.len() && chars[i + 1] == '"' {
                            field.push('"');
                            i += 2;
                        } else {
                            i += 1;
                            break;
                        }
                    } else {
                        field.push(chars[i]);
                        i += 1;
                    }
                }
            } else {
                while i < chars.len() && chars[i] != ',' && chars[i] != '\n' {
                    field.push(chars[i]);
                    i += 1;
                }
            }
            record.push(field);
            if i < chars.len() && chars[i] == ',' {
                i += 1;
            } else {
                i += 1;
                break;
            }
        }
        records.push(record);
    }
    records
}

#[test]
fn summary_csv_reads_back_as_its_rows() {
    let mut a = row_with(quiet_signals());
    a.rank = 1;
    a.relative_path = "dir, with comma/a.debug.json".to_string();
    a.recommended_actions = "say \"hi\" | then\nnext line".to_string();
    a.source_relative_path = "\"quoted\"".to_string();
    let mut b = row_with(quiet_signals());
    b.rank = 2;
    b.repair_mode = "\r\n".to_string();
    let f = SummaryFigures {
        pixel_size_override: "2.5000".to_string(),
        quality_overall: "0.5000".to_string(),
        diff_score: "12.0000".to_string(),
        diff_area: "0.1000".to_string(),
        grid_regularity: "0.9000".to_string(),
        palette_compactness: "1.0000".to_string(),
        coverage_ratio: "0.7500".to_string(),
        step_x: "8.0000".to_string(),
        step_y: "8.5000".to_string(),
    };
    let doc = build_csv(
        &batch_summary_csv_header(),
        &vec![summary_csv_cells(&a, &f), summary_csv_cells(&b, &f)],
    );
    let records = read_csv(&doc);
    assert_eq!(records.len(), 3);
    assert!(records.iter().all(|r| r.len() == 29));
    assert_eq!(records[0][0], "rank");
    assert_eq!(records[0][28], "repair_mode");
    assert_eq!(records[1][0], "1");
    assert_eq!(records[1][1], "\"quoted\"");
    assert_eq!(records[1][2], "dir, with comma/a.debug.json");
    assert_eq!(records[1][6], "say \"hi\" | then\nnext line");
    assert_eq!(records[1][9], "2.5000");
    assert_eq!(records[1][10], "0.5000");
    assert_eq!(records[2][0], "2");
    assert_eq!(records[2][28], "\r\n");

    let line = RetryReviewLine {
        relative_path: "x,y.debug.json".to_string(),
        source_relative_path: "x.png".to_string(),
        retry_status: "no_gain".to_string(),
        baseline_quality: "0.4000".to_string(),
        best_label: None,
        best_quality: String::new(),
        best_delta: String::new(),
        selected_label: None,
        selected_quality: String::new(),
        selected_delta: String::new(),
        exported_output_relative_path: None,
        recommended_profile: "ai-sprite".to_string(),
        recommended_actions: "a \"b\"".to_string(),
        recommendation_reason: "r".to_string(),
    };
    let doc = build_csv(&retry_review_csv_header(), &vec![retry_review_csv_cells(&line)]);
    let records = read_csv(&doc);
    assert_eq!(records.len(), 2);
    assert!(records.iter().all(|r| r.len() == 14));
    assert_eq!(records[1][0], "x,y.debug.json");
    assert_eq!(records[1][4], "baseline");
    assert_eq!(records[1][12], "a \"b\"");
}
