//! Batch summary rows and the review recommendation drawn from each.
//!
//! A row's quality measures are fractional; the rules below only ever ask
//! on which side of a fixed cut point a measure lies. The cut points are
//! given here in ten-thousandths, and a row carries, for each measure, how
//! many of its cut points the measure has passed ([`QualitySignals`]).
use vstd::prelude::*;

use crate::modes::{
    mode_cell_color, mode_cleanup, mode_color_space, mode_dither, mode_palette_cleanup,
    mode_palette_source, mode_prefilter, mode_repair, spec_mode_cell_color, spec_mode_cleanup,
    spec_mode_color_space, spec_mode_dither, spec_mode_palette_cleanup, spec_mode_palette_source,
    spec_mode_prefilter, spec_mode_repair, Config,
};
use crate::text::{cat, join, join_strings, owned, str_eq};

verus! {

/// Cut points of the overall quality score, in ten-thousandths; a row counts
/// those that the score lies strictly below.
pub fn quality_cuts() -> (r: Vec<u32>)
    ensures
        r@ == seq![3800u32, 5500u32, 7200u32],
{
    vec![3800, 5500, 7200]
}

/// Cut points of the grid regularity, in ten-thousandths; a row counts those
/// that the regularity lies strictly below.
pub fn grid_cuts() -> (r: Vec<u32>)
    ensures
        r@ == seq![4200u32, 4800u32, 5500u32, 5800u32],
{
    vec![4200, 4800, 5500, 5800]
}

/// Cut points of the palette compactness, in ten-thousandths; a row counts
/// those that the compactness lies strictly below.
pub fn compactness_cuts() -> (r: Vec<u32>)
    ensures
        r@ == seq![5500u32, 6000u32, 6200u32, 6800u32],
{
    vec![5500, 6000, 6200, 6800]
}

/// Cut point of the coverage ratio, in ten-thousandths; a row counts it when
/// the coverage lies strictly below.
pub fn coverage_cuts() -> (r: Vec<u32>)
    ensures
        r@ == seq![4500u32],
{
    vec![4500]
}

/// Cut points of the differing area, in ten-thousandths; a row counts those
/// that the area lies strictly above.
pub fn diff_area_cuts() -> (r: Vec<u32>)
    ensures
        r@ == seq![1400u32, 1800u32, 2200u32, 2600u32, 3200u32],
{
    vec![1400, 1800, 2200, 2600, 3200]
}

/// Cut points of the difference score, in ten-thousandths; a row counts those
/// that the score lies strictly above.
pub fn diff_score_cuts() -> (r: Vec<u32>)
    ensures
        r@ == seq![220000u32, 240000u32],
{
    vec![220000, 240000]
}

/// For each quality measure of a row, how many of its cut points it has
/// passed. Cut points are sorted, so a measure that passes one passes all
/// the earlier ones: `quality_below >= 3` says that the score lies below the
/// first quality cut, `area_above >= 5` that the area lies above the last
/// area cut.
#[derive(Clone, Copy, Debug, PartialEq, Eq, Structural)]
pub struct QualitySignals {
    pub quality_below: usize,
    pub grid_below: usize,
    pub compactness_below: usize,
    pub coverage_below: usize,
    pub area_above: usize,
    pub score_above: usize,
}

/// One row of the batch quality summary, without its fractional measures
/// (which stand in `signals`).
#[derive(Debug)]
pub struct BatchSummaryRow {
    pub rank: usize,
    pub source_relative_path: String,
    pub relative_path: String,
    pub output_relative_path: String,
    pub review_priority: String,
    pub recommended_profile: String,
    pub recommended_actions: String,
    pub recommendation_reason: String,
    pub k_colors: usize,
    pub palette_count: usize,
    pub output_width: u32,
    pub output_height: u32,
    pub prefilter_mode: String,
    pub palette_source: String,
    pub palette_cleanup_mode: String,
    pub cell_color_mode: String,
    pub dither_mode: String,
    pub color_space: String,
    pub cleanup_mode: String,
    pub repair_mode: String,
    pub signals: QualitySignals,
}

/// The settings that a summary row records: at least one palette color, and
/// each mode read back from its label.
pub open spec fn spec_config_from_row(row: &BatchSummaryRow) -> Config {
    Config {
        k_colors: if row.k_colors >= 1 { row.k_colors } else { 1 },
        prefilter_mode: spec_mode_prefilter(row.prefilter_mode@),
        palette_source: spec_mode_palette_source(row.palette_source@),
        palette_cleanup_mode: spec_mode_palette_cleanup(row.palette_cleanup_mode@),
        cell_color_mode: spec_mode_cell_color(row.cell_color_mode@),
        dither_mode: spec_mode_dither(row.dither_mode@),
        color_space: spec_mode_color_space(row.color_space@),
        cleanup_mode: spec_mode_cleanup(row.cleanup_mode@),
        repair_mode: spec_mode_repair(row.repair_mode@),
    }
}

/// The settings that a summary row records.
pub fn config_from_summary_row(row: &BatchSummaryRow) -> (r: Config)
    ensures
        r == spec_config_from_row(row),
        r.k_colors >= 1,
{
    Config {
        k_colors: if row.k_colors >= 1 {
            row.k_colors
        } else {
            1
        },
        prefilter_mode: mode_prefilter(row.prefilter_mode.as_str()),
        palette_source: mode_palette_source(row.palette_source.as_str()),
        palette_cleanup_mode: mode_palette_cleanup(row.palette_cleanup_mode.as_str()),
        cell_color_mode: mode_cell_color(row.cell_color_mode.as_str()),
        dither_mode: mode_dither(row.dither_mode.as_str()),
        color_space: mode_color_space(row.color_space.as_str()),
        cleanup_mode: mode_cleanup(row.cleanup_mode.as_str()),
        repair_mode: mode_repair(row.repair_mode.as_str()),
    }
}

/// Review priority: critical below the first quality cut or above the last
/// area cut, then high, medium and low by the quality cuts.
pub open spec fn priority_of(s: QualitySignals) -> Seq<char> {
    if s.quality_below >= 3 || s.area_above >= 5 {
        "critical"@
    } else if s.quality_below >= 2 {
        "high"@
    } else if s.quality_below >= 1 {
        "medium"@
    } else {
        "low"@
    }
}

/// The weakest aspect of a row, in order of concern.
pub open spec fn weakest_of(s: QualitySignals) -> Seq<char> {
    if s.grid_below >= 3 {
        "griglia instabile"@
    } else if s.compactness_below >= 3 {
        "palette dispersa"@
    } else if s.area_above >= 3 {
        "molta area differente"@
    } else if s.score_above >= 2 {
        "fedelta' bassa"@
    } else {
        "rifinitura generale"@
    }
}

/// The preset recommended for a row.
pub open spec fn profile_of(s: QualitySignals, palette_count: usize) -> Seq<char> {
    if s.grid_below >= 4 {
        "tileset-cleanup"@
    } else if s.area_above >= 4 || s.coverage_below >= 1 {
        "character-cleanup"@
    } else if s.compactness_below >= 4 || palette_count > 24 {
        "strict-retro"@
    } else if s.score_above >= 2 {
        "ultra-cleanup"@
    } else {
        "ai-sprite"@
    }
}

/// One action when `cond` holds, none otherwise.
pub open spec fn action_if(cond: bool, text: Seq<char>) -> Seq<Seq<char>> {
    if cond { seq![text] } else { Seq::empty() }
}

/// The repair advice of a row: switch repair on, raise basic to smart, or try
/// ultra, whichever applies first.
pub open spec fn repair_action(row: &BatchSummaryRow) -> Seq<Seq<char>> {
    let s = row.signals;
    if row.repair_mode@ == "off"@ {
        seq!["attiva repair smart"@]
    } else if row.repair_mode@ == "basic"@ && s.area_above >= 2 {
        seq!["alza repair a smart"@]
    } else if row.repair_mode@ != "ultra"@ && (s.area_above >= 4 || s.quality_below >= 3) {
        seq!["prova repair ultra"@]
    } else {
        Seq::empty()
    }
}

/// The actions that the rules find for a row, before the fallback.
pub open spec fn found_actions(row: &BatchSummaryRow) -> Seq<Seq<char>> {
    let s = row.signals;
    action_if(
        row.prefilter_mode@ == "off"@ && (s.score_above >= 1 || s.grid_below >= 2),
        "attiva denoise box3"@,
    ) + action_if(
        row.palette_source@ != "cells"@ && (s.grid_below >= 1 || s.compactness_below >= 1),
        "usa palette dalle celle"@,
    ) + action_if(
        row.palette_cleanup_mode@ != "strict"@ && (s.compactness_below >= 2 || row.palette_count
            > 24),
        "porta palette cleanup a strict"@,
    ) + action_if(row.cleanup_mode@ == "off"@ && s.area_above >= 1, "attiva cleanup base"@)
        + repair_action(row)
}

/// The recommended actions of a row; when no rule applies, the advice to keep
/// the setup and check by hand.
pub open spec fn actions_of(row: &BatchSummaryRow) -> Seq<Seq<char>> {
    let found = found_actions(row);
    if found.len() == 0 {
        seq!["mantieni setup attuale e verifica manualmente"@]
    } else {
        found
    }
}

/// The separator between recommended actions.
pub open spec fn action_separator() -> Seq<char> {
    " | "@
}

/// Appends `text` to `actions` when `cond` holds.
fn push_action_if(actions: &mut Vec<String>, cond: bool, text: &str)
    ensures
        final(actions)@.map_values(|a: String| a@) == old(actions)@.map_values(|a: String| a@)
            + action_if(cond, text@),
{
    let ghost before = actions@;
    if cond {
        actions.push(owned(text));
    }
    assert(actions@.map_values(|a: String| a@) =~= before.map_values(|a: String| a@) + action_if(
        cond,
        text@,
    ));
}

/// The repair advice of a row, appended to `actions`.
fn push_repair_action(actions: &mut Vec<String>, row: &BatchSummaryRow)
    ensures
        final(actions)@.map_values(|a: String| a@) == old(actions)@.map_values(|a: String| a@)
            + repair_action(row),
{
    let s = row.signals;
    if str_eq(row.repair_mode.as_str(), "off") {
        push_action_if(actions, true, "attiva repair smart");
    } else if str_eq(row.repair_mode.as_str(), "basic") && s.area_above >= 2 {
        push_action_if(actions, true, "alza repair a smart");
    } else if !str_eq(row.repair_mode.as_str(), "ultra") && (s.area_above >= 4 || s.quality_below
        >= 3) {
        push_action_if(actions, true, "prova repair ultra");
    } else {
        assert(actions@.map_values(|a: String| a@) =~= actions@.map_values(|a: String| a@)
            + repair_action(row));
    }
}

/// The recommended actions of a row, in order.
fn recommended_actions(row: &BatchSummaryRow) -> (r: Vec<String>)
    ensures
        r@.map_values(|a: String| a@) == actions_of(row),
{
    let s = row.signals;
    let mut actions: Vec<String> = Vec::new();
    assert(actions@.map_values(|a: String| a@) =~= Seq::<Seq<char>>::empty());
    let c1 = str_eq(row.prefilter_mode.as_str(), "off") && (s.score_above >= 1 || s.grid_below
        >= 2);
    push_action_if(&mut actions, c1, "attiva denoise box3");
    let c2 = !str_eq(row.palette_source.as_str(), "cells") && (s.grid_below >= 1
        || s.compactness_below >= 1);
    push_action_if(&mut actions, c2, "usa palette dalle celle");
    let c3 = !str_eq(row.palette_cleanup_mode.as_str(), "strict") && (s.compactness_below >= 2
        || row.palette_count > 24);
    push_action_if(&mut actions, c3, "porta palette cleanup a strict");
    let c4 = str_eq(row.cleanup_mode.as_str(), "off") && s.area_above >= 1;
    push_action_if(&mut actions, c4, "attiva cleanup base");
    push_repair_action(&mut actions, row);
    assert(actions@.map_values(|a: String| a@) =~= found_actions(row));
    if actions.len() == 0 {
        push_action_if(&mut actions, true, "mantieni setup attuale e verifica manualmente");
    }
    actions
}

/// Review priority, recommended preset, recommended actions (joined by
/// ` | `) and the main focus of a summary row.
pub fn summarize_recommendation(row: &BatchSummaryRow) -> (r: (String, String, String, String))
    ensures
        r.0@ == priority_of(row.signals),
        r.1@ == profile_of(row.signals, row.palette_count),
        r.2@ == join(actions_of(row), action_separator()),
        r.3@ == "focus principale: "@ + weakest_of(row.signals),
{
    let s = row.signals;
    let priority = if s.quality_below >= 3 || s.area_above >= 5 {
        owned("critical")
    } else if s.quality_below >= 2 {
        owned("high")
    } else if s.quality_below >= 1 {
        owned("medium")
    } else {
        owned("low")
    };
    let weakest = if s.grid_below >= 3 {
        "griglia instabile"
    } else if s.compactness_below >= 3 {
        "palette dispersa"
    } else if s.area_above >= 3 {
        "molta area differente"
    } else if s.score_above >= 2 {
        "fedelta' bassa"
    } else {
        "rifinitura generale"
    };
    let profile = if s.grid_below >= 4 {
        owned("tileset-cleanup")
    } else if s.area_above >= 4 || s.coverage_below >= 1 {
        owned("character-cleanup")
    } else if s.compactness_below >= 4 || row.palette_count > 24 {
        owned("strict-retro")
    } else if s.score_above >= 2 {
        owned("ultra-cleanup")
    } else {
        owned("ai-sprite")
    };
    let actions = recommended_actions(row);
    let joined = join_strings(&actions, " | ");
    (priority, profile, joined, cat("focus principale: ", weakest))
}

/// Every summary row gets at least one recommended action, and the
/// recommended preset is always one of the named presets.
pub proof fn lemma_recommendation_always_advises(row: &BatchSummaryRow)
    ensures
        actions_of(row).len() >= 1,
        crate::modes::spec_preset_by_name(profile_of(row.signals, row.palette_count)) is Some,
{
}

/// The lengths and a few characters of the action texts, enough to tell
/// any two of them apart.
proof fn lemma_action_spellings()
    ensures
        "off"@.len() == 3,
        "basic"@.len() == 5,
        "basic"@[0] == 'b',
        "ultra"@.len() == 5,
        "ultra"@[0] == 'u',
        "attiva denoise box3"@.len() == 19,
        "attiva denoise box3"@[0] == 'a',
        "attiva denoise box3"@[1] == 't',
        "attiva denoise box3"@[7] == 'd',
        "usa palette dalle celle"@.len() == 23,
        "usa palette dalle celle"@[0] == 'u',
        "usa palette dalle celle"@[1] == 's',
        "usa palette dalle celle"@[7] == 'e',
        "porta palette cleanup a strict"@.len() == 30,
        "porta palette cleanup a strict"@[0] == 'p',
        "porta palette cleanup a strict"@[1] == 'o',
        "porta palette cleanup a strict"@[7] == 'a',
        "attiva cleanup base"@.len() == 19,
        "attiva cleanup base"@[0] == 'a',
        "attiva cleanup base"@[1] == 't',
        "attiva cleanup base"@[7] == 'c',
        "attiva repair smart"@.len() == 19,
        "attiva repair smart"@[0] == 'a',
        "attiva repair smart"@[1] == 't',
        "attiva repair smart"@[7] == 'r',
        "alza repair a smart"@.len() == 19,
        "alza repair a smart"@[0] == 'a',
        "alza repair a smart"@[1] == 'l',
        "alza repair a smart"@[7] == 'p',
        "prova repair ultra"@.len() == 18,
        "prova repair ultra"@[0] == 'p',
        "prova repair ultra"@[1] == 'r',
        "prova repair ultra"@[7] == 'e',
        "mantieni setup attuale e verifica manualmente"@.len() == 45,
        "mantieni setup attuale e verifica manualmente"@[0] == 'm',
        "mantieni setup attuale e verifica manualmente"@[1] == 'a',
        "mantieni setup attuale e verifica manualmente"@[7] == 'i',
{
    reveal_strlit("off");
    reveal_strlit("basic");
    reveal_strlit("ultra");
    reveal_strlit("attiva denoise box3");
    reveal_strlit("usa palette dalle celle");
    reveal_strlit("porta palette cleanup a strict");
    reveal_strlit("attiva cleanup base");
    reveal_strlit("attiva repair smart");
    reveal_strlit("alza repair a smart");
    reveal_strlit("prova repair ultra");
    reveal_strlit("mantieni setup attuale e verifica manualmente");
}

/// A sequence holds `x` after another is appended exactly when one of the
/// two holds it.
proof fn lemma_contains_concat(a: Seq<Seq<char>>, b: Seq<Seq<char>>, x: Seq<char>)
    ensures
        (a + b).contains(x) <==> a.contains(x) || b.contains(x),
{
    if (a + b).contains(x) {
        let i = choose|i: int| 0 <= i < (a + b).len() && (a + b)[i] == x;
        if i >= a.len() {
            assert(b[i - a.len()] == x);
        }
    }
    if a.contains(x) {
        let i = choose|i: int| 0 <= i < a.len() && a[i] == x;
        assert((a + b)[i] == x);
    }
    if b.contains(x) {
        let i = choose|i: int| 0 <= i < b.len() && b[i] == x;
        assert((a + b)[i + a.len()] == x);
    }
}

/// Which actions a row gets: each rule's action is recommended exactly when
/// its condition holds, whatever the other rules say (the repair rules
/// apply the first that fits), and keeping the setup is advised exactly when
/// no rule applies. The denoise advice, when given, comes first.
pub proof fn lemma_action_rules(row: &BatchSummaryRow)
    ensures
        ({
            let s = row.signals;
            let a = actions_of(row);
            let denoise = row.prefilter_mode@ == "off"@ && (s.score_above >= 1 || s.grid_below >= 2);
            let cells = row.palette_source@ != "cells"@ && (s.grid_below >= 1 || s.compactness_below
                >= 1);
            let strict = row.palette_cleanup_mode@ != "strict"@ && (s.compactness_below >= 2
                || row.palette_count > 24);
            let cleanup = row.cleanup_mode@ == "off"@ && s.area_above >= 1;
            let repair_on = row.repair_mode@ == "off"@;
            let raise = row.repair_mode@ == "basic"@ && s.area_above >= 2;
            let ultra = !repair_on && !raise && row.repair_mode@ != "ultra"@ && (s.area_above >= 4
                || s.quality_below >= 3);
            &&& a.contains("attiva denoise box3"@) <==> denoise
            &&& a.contains("usa palette dalle celle"@) <==> cells
            &&& a.contains("porta palette cleanup a strict"@) <==> strict
            &&& a.contains("attiva cleanup base"@) <==> cleanup
            &&& a.contains("attiva repair smart"@) <==> repair_on
            &&& a.contains("alza repair a smart"@) <==> raise
            &&& a.contains("prova repair ultra"@) <==> ultra
            &&& a.contains("mantieni setup attuale e verifica manualmente"@) <==> !(denoise || cells
                || strict || cleanup || repair_on || raise || ultra)
            &&& denoise ==> a[0] == "attiva denoise box3"@
        }),
{
    lemma_action_spellings();
    let s = row.signals;
    let a1 = action_if(
        row.prefilter_mode@ == "off"@ && (s.score_above >= 1 || s.grid_below >= 2),
        "attiva denoise box3"@,
    );
    let a2 = action_if(
        row.palette_source@ != "cells"@ && (s.grid_below >= 1 || s.compactness_below >= 1),
        "usa palette dalle celle"@,
    );
    let a3 = action_if(
        row.palette_cleanup_mode@ != "strict"@ && (s.compactness_below >= 2 || row.palette_count
            > 24),
        "porta palette cleanup a strict"@,
    );
    let a4 = action_if(row.cleanup_mode@ == "off"@ && s.area_above >= 1, "attiva cleanup base"@);
    let r = repair_action(row);
    let found = found_actions(row);
    assert(found == a1 + a2 + a3 + a4 + r);
    let texts = seq![
        "attiva denoise box3"@,
        "usa palette dalle celle"@,
        "porta palette cleanup a strict"@,
        "attiva cleanup base"@,
        "attiva repair smart"@,
        "alza repair a smart"@,
        "prova repair ultra"@,
        "mantieni setup attuale e verifica manualmente"@,
    ];
    assert forall|k: int| 0 <= k < texts.len() implies {
        let x = #[trigger] texts[k];
        &&& found.contains(x) <==> a1.contains(x) || a2.contains(x) || a3.contains(x)
            || a4.contains(x) || r.contains(x)
    } by {
        let x = texts[k];
        lemma_contains_concat(a1 + a2 + a3 + a4, r, x);
        lemma_contains_concat(a1 + a2 + a3, a4, x);
        lemma_contains_concat(a1 + a2, a3, x);
        lemma_contains_concat(a1, a2, x);
    }
    assert(texts[0] == "attiva denoise box3"@);
    assert(texts[1] == "usa palette dalle celle"@);
    assert(texts[2] == "porta palette cleanup a strict"@);
    assert(texts[3] == "attiva cleanup base"@);
    assert(texts[4] == "attiva repair smart"@);
    assert(texts[5] == "alza repair a smart"@);
    assert(texts[6] == "prova repair ultra"@);
    assert(texts[7] == "mantieni setup attuale e verifica manualmente"@);
    lemma_action_if_contains(
        row.prefilter_mode@ == "off"@ && (s.score_above >= 1 || s.grid_below >= 2),
        "attiva denoise box3"@,
    );
    lemma_action_if_contains(
        row.palette_source@ != "cells"@ && (s.grid_below >= 1 || s.compactness_below >= 1),
        "usa palette dalle celle"@,
    );
    lemma_action_if_contains(
        row.palette_cleanup_mode@ != "strict"@ && (s.compactness_below >= 2 || row.palette_count
            > 24),
        "porta palette cleanup a strict"@,
    );
    lemma_action_if_contains(
        row.cleanup_mode@ == "off"@ && s.area_above >= 1,
        "attiva cleanup base"@,
    );
    assert(forall|x: Seq<char>|
        #![trigger r.contains(x)]
        r.contains(x) <==> r.len() == 1 && r[0] == x);
    let denoise = row.prefilter_mode@ == "off"@ && (s.score_above >= 1 || s.grid_below >= 2);
    let any = found.len() > 0;
    assert(any <==> a1.len() + a2.len() + a3.len() + a4.len() + r.len() > 0);
    if any {
        assert(actions_of(row) == found);
    } else {
        assert(actions_of(row) == seq!["mantieni setup attuale e verifica manualmente"@]);
        assert(!found.contains("attiva denoise box3"@));
    }
    if denoise {
        assert(found[0] == a1[0]);
    }
    let a = actions_of(row);
    assert(r.len() > 0 <==> (row.repair_mode@ == "off"@ || (row.repair_mode@ == "basic"@
        && s.area_above >= 2) || (row.repair_mode@ != "ultra"@ && (s.area_above >= 4
        || s.quality_below >= 3))));
    let m = "mantieni setup attuale e verifica manualmente"@;
    assert(!found.contains(m));
    if !any {
        assert(a[0] == m);
    }
    assert(a.contains(m) <==> !any);
}

/// One action when its condition holds: it holds a text exactly when the
/// condition holds and the text is that action's.
proof fn lemma_action_if_contains(cond: bool, text: Seq<char>)
    ensures
        forall|x: Seq<char>| #[trigger] action_if(cond, text).contains(x) <==> cond && x == text,
        action_if(cond, text).len() == if cond { 1int } else { 0int },
{
    assert forall|x: Seq<char>| #[trigger] action_if(cond, text).contains(x) <==> cond && x == text by {
        if cond && x == text {
            assert(action_if(cond, text)[0] == x);
        }
    }
}

/// The lengths of the priority, preset and focus texts, which tell them
/// apart.
proof fn lemma_recommendation_spellings()
    ensures
        "critical"@.len() == 8,
        "high"@.len() == 4,
        "medium"@.len() == 6,
        "low"@.len() == 3,
        "tileset-cleanup"@.len() == 15,
        "character-cleanup"@.len() == 17,
        "strict-retro"@.len() == 12,
        "ultra-cleanup"@.len() == 13,
        "ai-sprite"@.len() == 9,
        "griglia instabile"@.len() == 17,
        "palette dispersa"@.len() == 16,
        "molta area differente"@.len() == 21,
        "fedelta' bassa"@.len() == 14,
        "rifinitura generale"@.len() == 19,
{
    reveal_strlit("critical");
    reveal_strlit("high");
    reveal_strlit("medium");
    reveal_strlit("low");
    reveal_strlit("tileset-cleanup");
    reveal_strlit("character-cleanup");
    reveal_strlit("strict-retro");
    reveal_strlit("ultra-cleanup");
    reveal_strlit("ai-sprite");
    reveal_strlit("griglia instabile");
    reveal_strlit("palette dispersa");
    reveal_strlit("molta area differente");
    reveal_strlit("fedelta' bassa");
    reveal_strlit("rifinitura generale");
}

/// The review priority, the recommended preset and the main focus of a row,
/// each by the cut points its measures pass. Priority: critical when the
/// quality lies below its first cut or the differing area above its last,
/// then high, medium and low as the quality passes fewer of its cuts.
/// Preset: tileset-cleanup for a grid below every grid cut, then
/// character-cleanup for a large differing area or a low coverage, then
/// strict-retro for a scattered or large palette, then ultra-cleanup for a
/// high difference score, else ai-sprite. Focus: an unstable grid, then a
/// scattered palette, a large differing area, a low fidelity, else general
/// finishing.
pub proof fn lemma_recommendation_rules(s: QualitySignals, palette_count: usize)
    ensures
        priority_of(s) == "critical"@ <==> s.quality_below >= 3 || s.area_above >= 5,
        priority_of(s) == "high"@ <==> s.quality_below == 2 && s.area_above < 5,
        priority_of(s) == "medium"@ <==> s.quality_below == 1 && s.area_above < 5,
        priority_of(s) == "low"@ <==> s.quality_below == 0 && s.area_above < 5,
        profile_of(s, palette_count) == "tileset-cleanup"@ <==> s.grid_below >= 4,
        profile_of(s, palette_count) == "character-cleanup"@ <==> s.grid_below < 4 && (
        s.area_above >= 4 || s.coverage_below >= 1),
        profile_of(s, palette_count) == "strict-retro"@ <==> s.grid_below < 4 && s.area_above < 4
            && s.coverage_below == 0 && (s.compactness_below >= 4 || palette_count > 24),
        profile_of(s, palette_count) == "ultra-cleanup"@ <==> s.grid_below < 4 && s.area_above < 4
            && s.coverage_below == 0 && s.compactness_below < 4 && palette_count <= 24
            && s.score_above >= 2,
        profile_of(s, palette_count) == "ai-sprite"@ <==> s.grid_below < 4 && s.area_above < 4
            && s.coverage_below == 0 && s.compactness_below < 4 && palette_count <= 24
            && s.score_above < 2,
        weakest_of(s) == "griglia instabile"@ <==> s.grid_below >= 3,
        weakest_of(s) == "palette dispersa"@ <==> s.grid_below < 3 && s.compactness_below >= 3,
        weakest_of(s) == "molta area differente"@ <==> s.grid_below < 3 && s.compactness_below < 3
            && s.area_above >= 3,
        weakest_of(s) == "fedelta' bassa"@ <==> s.grid_below < 3 && s.compactness_below < 3
            && s.area_above < 3 && s.score_above >= 2,
        weakest_of(s) == "rifinitura generale"@ <==> s.grid_below < 3 && s.compactness_below < 3
            && s.area_above < 3 && s.score_above < 2,
{
    lemma_recommendation_spellings();
}

} // verus!
