//! Retry plans: the alternative settings tried on the worst rows of a batch,
//! with duplicates (plans that would run the same modes) removed.
use vstd::prelude::*;

use crate::modes::{
    algo_overrides_from_config, apply_named_preset, overrides_of, spec_preset_by_name,
    unknown_preset_text, CliError, RetryAlgoOverrides,
};
use crate::summary::{config_from_summary_row, spec_config_from_row, BatchSummaryRow};
use crate::text::{cat, owned};

verus! {

/// A retry plan: a key, a label and a reason shown in the review, and the modes
/// that the retry runs with.
#[derive(Debug)]
pub struct RetryCandidatePlan {
    pub key: String,
    pub label: String,
    pub reason: String,
    pub algo_overrides: RetryAlgoOverrides,
}

/// A retry plan, with its texts as character sequences.
pub struct PlanView {
    pub key: Seq<char>,
    pub label: Seq<char>,
    pub reason: Seq<char>,
    pub overrides: RetryAlgoOverrides,
}

impl View for RetryCandidatePlan {
    type V = PlanView;

    open spec fn view(&self) -> PlanView {
        PlanView {
            key: self.key@,
            label: self.label@,
            reason: self.reason@,
            overrides: self.algo_overrides,
        }
    }
}

/// The views of a list of plans.
pub open spec fn plan_views(plans: Seq<RetryCandidatePlan>) -> Seq<PlanView> {
    plans.map_values(|p: RetryCandidatePlan| p@)
}

/// Whether an earlier plan than the one at `i` runs the same modes.
pub open spec fn seen_before(s: Seq<PlanView>, i: int) -> bool {
    exists|j: int| 0 <= j < i && #[trigger] s[j].overrides == s[i].overrides
}

/// The plans of `s`, in order, without those whose modes an earlier plan
/// already runs.
pub open spec fn dedupe_plans(s: Seq<PlanView>) -> Seq<PlanView>
    decreases s.len(),
{
    if s.len() == 0 {
        Seq::empty()
    } else if seen_before(s, s.len() - 1) {
        dedupe_plans(s.drop_last())
    } else {
        dedupe_plans(s.drop_last()).push(s.last())
    }
}

/// Whether some plan of `s` runs modes `o`.
pub open spec fn runs(s: Seq<PlanView>, o: RetryAlgoOverrides) -> bool {
    exists|k: int| 0 <= k < s.len() && #[trigger] s[k].overrides == o
}

/// No two plans of `s` run the same modes.
pub open spec fn all_distinct(s: Seq<PlanView>) -> bool {
    forall|i: int, j: int|
        0 <= i < s.len() && 0 <= j < s.len() && i != j ==> #[trigger] s[i].overrides
            != #[trigger] s[j].overrides
}

/// Deduplication keeps exactly the modes that the input runs.
proof fn lemma_dedupe_runs(s: Seq<PlanView>, o: RetryAlgoOverrides)
    ensures
        runs(dedupe_plans(s), o) == runs(s, o),
    decreases s.len(),
{
    if s.len() > 0 {
        let prev = s.drop_last();
        lemma_dedupe_runs(prev, o);
        let d = dedupe_plans(prev);
        if runs(s, o) {
            let k = choose|k: int| 0 <= k < s.len() && #[trigger] s[k].overrides == o;
            if k < s.len() - 1 {
                assert(prev[k].overrides == o);
                if !seen_before(s, s.len() - 1) {
                    let m = choose|m: int| 0 <= m < d.len() && #[trigger] d[m].overrides == o;
                    assert(d.push(s.last())[m].overrides == o);
                }
            } else if seen_before(s, s.len() - 1) {
                let j = choose|j: int| 0 <= j < s.len() - 1 && #[trigger] s[j].overrides == s[s.len()
                    - 1].overrides;
                assert(prev[j].overrides == o);
            } else {
                assert(d.push(s.last())[d.len() as int].overrides == o);
            }
        }
        if runs(dedupe_plans(s), o) {
            if !seen_before(s, s.len() - 1) {
                let m = choose|m: int|
                    0 <= m < d.len() + 1 && #[trigger] d.push(s.last())[m].overrides == o;
                if m < d.len() {
                    assert(d[m].overrides == o);
                    let k = choose|k: int| 0 <= k < prev.len() && #[trigger] prev[k].overrides == o;
                    assert(s[k].overrides == o);
                } else {
                    assert(s[s.len() - 1].overrides == o);
                }
            } else {
                let k = choose|k: int| 0 <= k < prev.len() && #[trigger] prev[k].overrides == o;
                assert(s[k].overrides == o);
            }
        }
    }
}

/// After deduplication no two plans run the same modes.
pub proof fn lemma_dedupe_distinct(s: Seq<PlanView>)
    ensures
        all_distinct(dedupe_plans(s)),
    decreases s.len(),
{
    if s.len() > 0 {
        let prev = s.drop_last();
        lemma_dedupe_distinct(prev);
        let d = dedupe_plans(prev);
        if !seen_before(s, s.len() - 1) {
            lemma_dedupe_runs(prev, s.last().overrides);
            let e = d.push(s.last());
            assert forall|i: int, j: int|
                0 <= i < e.len() && 0 <= j < e.len() && i != j implies #[trigger] e[i].overrides
                != #[trigger] e[j].overrides by {
                if i == d.len() as int {
                    if e[j].overrides == e[i].overrides {
                        assert(d[j].overrides == s.last().overrides);
                        let k = choose|k: int|
                            0 <= k < prev.len() && #[trigger] prev[k].overrides
                                == s.last().overrides;
                        assert(s[k].overrides == s[s.len() - 1].overrides);
                    }
                } else if j == d.len() as int {
                    if e[j].overrides == e[i].overrides {
                        assert(d[i].overrides == s.last().overrides);
                        let k = choose|k: int|
                            0 <= k < prev.len() && #[trigger] prev[k].overrides
                                == s.last().overrides;
                        assert(s[k].overrides == s[s.len() - 1].overrides);
                    }
                } else {
                    assert(e[i] == d[i]);
                    assert(e[j] == d[j]);
                }
            }
        }
    }
}

/// Every plan that deduplication keeps is a plan of the input that no
/// earlier plan duplicates, and deduplication never lengthens the list.
pub proof fn lemma_dedupe_keeps_first_occurrences(s: Seq<PlanView>)
    ensures
        dedupe_plans(s).len() <= s.len(),
        forall|k: int|
            0 <= k < dedupe_plans(s).len() ==> exists|i: int|
                0 <= i < s.len() && !seen_before(s, i) && s[i] == #[trigger] dedupe_plans(s)[k],
    decreases s.len(),
{
    if s.len() > 0 {
        let prev = s.drop_last();
        lemma_dedupe_keeps_first_occurrences(prev);
        let d = dedupe_plans(prev);
        assert forall|k: int| 0 <= k < dedupe_plans(s).len() implies exists|i: int|
            0 <= i < s.len() && !seen_before(s, i) && s[i] == #[trigger] dedupe_plans(s)[k] by {
            if k < d.len() {
                assert(dedupe_plans(s)[k] == d[k]);
                let i = choose|i: int|
                    0 <= i < prev.len() && !seen_before(prev, i) && prev[i] == #[trigger] d[k];
                assert(s[i] == prev[i]);
                if seen_before(s, i) {
                    let j = choose|j: int| 0 <= j < i && #[trigger] s[j].overrides == s[i].overrides;
                    assert(prev[j].overrides == prev[i].overrides);
                }
            } else {
                assert(dedupe_plans(s)[k] == s[s.len() - 1]);
            }
        }
    }
}

/// A list in which no two plans run the same modes is left as it is.
pub proof fn lemma_dedupe_of_distinct(s: Seq<PlanView>)
    requires
        all_distinct(s),
    ensures
        dedupe_plans(s) == s,
    decreases s.len(),
{
    if s.len() > 0 {
        let prev = s.drop_last();
        assert(all_distinct(prev)) by {
            assert forall|i: int, j: int|
                0 <= i < prev.len() && 0 <= j < prev.len() && i != j implies #[trigger] prev[i].overrides
                != #[trigger] prev[j].overrides by {
                assert(s[i] == prev[i]);
                assert(s[j] == prev[j]);
            }
        }
        lemma_dedupe_of_distinct(prev);
        if seen_before(s, s.len() - 1) {
            let j = choose|j: int| 0 <= j < s.len() - 1 && #[trigger] s[j].overrides == s[s.len()
                - 1].overrides;
            assert(s[j].overrides != s[s.len() - 1].overrides);
        }
        assert(prev.push(s.last()) =~= s);
    }
}

/// Deduplicating twice gives what deduplicating once gives; every mode set
/// that the input runs stays run, by exactly one plan.
pub proof fn lemma_dedupe_idempotent(s: Seq<PlanView>)
    ensures
        dedupe_plans(dedupe_plans(s)) == dedupe_plans(s),
        forall|o: RetryAlgoOverrides| runs(dedupe_plans(s), o) == runs(s, o),
{
    lemma_dedupe_distinct(s);
    lemma_dedupe_of_distinct(dedupe_plans(s));
    assert forall|o: RetryAlgoOverrides| runs(dedupe_plans(s), o) == runs(s, o) by {
        lemma_dedupe_runs(s, o);
    }
}

/// The first plan of a non-empty list is always kept, in first place.
pub proof fn lemma_dedupe_keeps_head(s: Seq<PlanView>)
    requires
        s.len() > 0,
    ensures
        dedupe_plans(s).len() >= 1,
        dedupe_plans(s)[0] == s[0],
    decreases s.len(),
{
    if s.len() == 1 {
        assert(!seen_before(s, 0));
        assert(s.drop_last() =~= Seq::<PlanView>::empty());
        assert(dedupe_plans(s.drop_last()) =~= Seq::<PlanView>::empty());
        assert(dedupe_plans(s) == dedupe_plans(s.drop_last()).push(s.last()));
    } else {
        let prev = s.drop_last();
        lemma_dedupe_keeps_head(prev);
        assert(prev[0] == s[0]);
        if !seen_before(s, s.len() - 1) {
            assert(dedupe_plans(prev).push(s.last())[0] == dedupe_plans(prev)[0]);
        }
    }
}

/// Whether `out` already holds a plan that runs modes `o`.
fn already_runs(out: &Vec<RetryCandidatePlan>, o: &RetryAlgoOverrides) -> (r: bool)
    ensures
        r == runs(plan_views(out@), *o),
{
    let n = out.len();
    for k in 0..n
        invariant
            n == out@.len(),
            forall|m: int| 0 <= m < k ==> out@[m].algo_overrides != *o,
    {
        if out[k].algo_overrides == *o {
            assert(plan_views(out@)[k as int].overrides == *o);
            return true;
        }
    }
    assert forall|m: int| 0 <= m < plan_views(out@).len() implies #[trigger] plan_views(
        out@,
    )[m].overrides != *o by {
        assert(plan_views(out@)[m].overrides == out@[m].algo_overrides);
    }
    false
}

/// The plans, in order, without those whose modes an earlier plan already
/// runs.
pub fn dedupe_retry_candidate_plans(plans: Vec<RetryCandidatePlan>) -> (r: Vec<
    RetryCandidatePlan,
>)
    ensures
        plan_views(r@) == dedupe_plans(plan_views(plans@)),
{
    let ghost input = plan_views(plans@);
    let mut out: Vec<RetryCandidatePlan> = Vec::new();
    let mut rest = plans;
    let n = rest.len();
    let mut i: usize = 0;
    // Plans are taken from the back of `rest` after reversing it, so that they
    // come in input order.
    let mut reversed: Vec<RetryCandidatePlan> = Vec::new();
    while rest.len() > 0
        invariant
            reversed@.len() + rest@.len() == n,
            n == input.len(),
            forall|k: int|
                0 <= k < rest@.len() ==> #[trigger] rest@[k]@ == input[k],
            forall|k: int|
                0 <= k < reversed@.len() ==> #[trigger] reversed@[k]@ == input[n - 1 - k],
        decreases rest@.len(),
    {
        let p = rest.pop().unwrap();
        reversed.push(p);
    }
    assert(plan_views(out@) =~= dedupe_plans(input.take(0)));
    while reversed.len() > 0
        invariant
            i + reversed@.len() == n,
            n == input.len(),
            forall|k: int|
                0 <= k < reversed@.len() ==> #[trigger] reversed@[k]@ == input[n - 1 - k],
            plan_views(out@) == dedupe_plans(input.take(i as int)),
        decreases reversed@.len(),
    {
        let p = reversed.pop().unwrap();
        assert(p@ == input[i as int]);
        let ghost pre = input.take(i as int);
        let ghost cur = input.take(i + 1);
        assert(cur.drop_last() =~= pre);
        assert(cur.last() == p@);
        proof {
            lemma_dedupe_runs(pre, p.algo_overrides);
        }
        let dup = already_runs(&out, &p.algo_overrides);
        proof {
            if dup {
                let k = choose|k: int| 0 <= k < pre.len() && #[trigger] pre[k].overrides
                    == p.algo_overrides;
                assert(cur[k].overrides == cur[cur.len() - 1].overrides);
            } else {
                if seen_before(cur, cur.len() - 1) {
                    let j = choose|j: int| 0 <= j < cur.len() - 1 && #[trigger] cur[j].overrides
                        == cur[cur.len() - 1].overrides;
                    assert(pre[j].overrides == p.algo_overrides);
                }
            }
        }
        if !dup {
            let ghost before = out@;
            out.push(p);
            assert(plan_views(out@) =~= plan_views(before).push(cur.last()));
        }
        i = i + 1;
    }
    assert(input.take(n as int) =~= input);
    out
}

/// The larger of two modes.
pub open spec fn max_mode(a: u32, b: u32) -> u32 {
    if a >= b { a } else { b }
}

/// The larger of two modes.
fn max_u32(a: u32, b: u32) -> (r: u32)
    ensures
        r == max_mode(a, b),
{
    if a >= b {
        a
    } else {
        b
    }
}

/// The modes of the stability pass: denoise, cell palette, at least basic
/// (strict past 24 palette colors) palette cleanup, at least dominant cell
/// color, cleanup, and at least smart repair, over the row's own modes.
pub open spec fn stability_modes(base: RetryAlgoOverrides, palette_count: usize) -> RetryAlgoOverrides {
    RetryAlgoOverrides {
        denoise: max_mode(base.denoise, 1),
        palette_source: 1,
        palette_cleanup_mode: max_mode(
            base.palette_cleanup_mode,
            if palette_count > 24 { 2 } else { 1 },
        ),
        cell_color_mode: max_mode(base.cell_color_mode, 1),
        dither_mode: base.dither_mode,
        color_space: base.color_space,
        cleanup_mode: max_mode(base.cleanup_mode, 1),
        repair_mode: max_mode(base.repair_mode, 2),
    }
}

/// The stability pass never runs a mode below the row's own for denoise,
/// palette cleanup, cell color, cleanup and repair, and it always denoises,
/// takes the palette from the cells and repairs at least smartly.
pub proof fn lemma_stability_never_weakens(base: RetryAlgoOverrides, palette_count: usize)
    ensures
        stability_modes(base, palette_count).denoise >= base.denoise,
        stability_modes(base, palette_count).palette_cleanup_mode >= base.palette_cleanup_mode,
        stability_modes(base, palette_count).cell_color_mode >= base.cell_color_mode,
        stability_modes(base, palette_count).cleanup_mode >= base.cleanup_mode,
        stability_modes(base, palette_count).repair_mode >= base.repair_mode,
        stability_modes(base, palette_count).denoise >= 1,
        stability_modes(base, palette_count).palette_source == 1,
        stability_modes(base, palette_count).repair_mode >= 2,
        palette_count > 24 ==> stability_modes(base, palette_count).palette_cleanup_mode >= 2,
        stability_modes(base, palette_count).dither_mode == base.dither_mode,
        stability_modes(base, palette_count).color_space == base.color_space,
{
}

/// The modes of the recovery pass: everything at its most aggressive, keeping
/// the row's dithering and color space.
pub open spec fn recovery_modes(base: RetryAlgoOverrides) -> RetryAlgoOverrides {
    RetryAlgoOverrides {
        denoise: 1,
        palette_source: 1,
        palette_cleanup_mode: 2,
        cell_color_mode: 2,
        dither_mode: base.dither_mode,
        color_space: base.color_space,
        cleanup_mode: 1,
        repair_mode: 3,
    }
}

/// Reason given for the stability pass.
pub open spec fn stability_reason() -> Seq<char> {
    "rinforza griglia, palette dalle celle e repair medio"@
}

/// Reason given for the recovery pass.
pub open spec fn recovery_reason() -> Seq<char> {
    "pass aggressivo per casi molto degradati o con grande area differente"@
}

/// The three candidate plans for a row, before deduplication: the row's
/// recommended preset, the stability pass and the recovery pass.
pub open spec fn candidate_plans(row: &BatchSummaryRow, recommended: RetryAlgoOverrides) -> Seq<
    PlanView,
> {
    let base = overrides_of(spec_config_from_row(row));
    seq![
        PlanView {
            key: "recommended-profile"@,
            label: "Profilo "@ + row.recommended_profile@,
            reason: row.recommendation_reason@,
            overrides: recommended,
        },
        PlanView {
            key: "stability-pass"@,
            label: "Stability Pass"@,
            reason: stability_reason(),
            overrides: stability_modes(base, row.palette_count),
        },
        PlanView {
            key: "recovery-pass"@,
            label: "Recovery Pass"@,
            reason: recovery_reason(),
            overrides: recovery_modes(base),
        },
    ]
}

/// The three plans tried on a row, before duplicates are dropped. The first
/// runs the recommended modes. The stability pass always denoises, takes the
/// palette from the cells, cleans the palette at least basically (strictly
/// past 24 palette colors), takes at least the dominant cell color, runs
/// cleanup and repairs at least smartly, whatever the row's own modes; each
/// of these is the row's own mode where that is already as strong, and the
/// floor otherwise; dithering and color space stay the row's. The recovery
/// pass runs the strongest of each mode, keeping the row's dithering and
/// color space.
pub proof fn lemma_candidate_plan_modes(row: &BatchSummaryRow, recommended: RetryAlgoOverrides)
    ensures
        ({
            let b = spec_config_from_row(row);
            let plans = candidate_plans(row, recommended);
            let st = plans[1].overrides;
            let rc = plans[2].overrides;
            &&& plans.len() == 3
            &&& plans[0].key == "recommended-profile"@ && plans[0].overrides == recommended
            &&& plans[1].key == "stability-pass"@
            &&& plans[2].key == "recovery-pass"@
            &&& st.denoise >= 1 && st.denoise >= b.prefilter_mode
            &&& (st.denoise == 1 || st.denoise == b.prefilter_mode)
            &&& st.palette_source == 1
            &&& st.palette_cleanup_mode >= 1 && st.palette_cleanup_mode >= b.palette_cleanup_mode
            &&& (row.palette_count > 24 ==> st.palette_cleanup_mode >= 2)
            &&& (st.palette_cleanup_mode == b.palette_cleanup_mode || st.palette_cleanup_mode == (
            if row.palette_count > 24 {
                2u32
            } else {
                1u32
            }))
            &&& st.cell_color_mode >= 1 && st.cell_color_mode >= b.cell_color_mode
            &&& (st.cell_color_mode == 1 || st.cell_color_mode == b.cell_color_mode)
            &&& st.cleanup_mode >= 1 && st.cleanup_mode >= b.cleanup_mode
            &&& (st.cleanup_mode == 1 || st.cleanup_mode == b.cleanup_mode)
            &&& st.repair_mode >= 2 && st.repair_mode >= b.repair_mode
            &&& (st.repair_mode == 2 || st.repair_mode == b.repair_mode)
            &&& st.dither_mode == b.dither_mode && st.color_space == b.color_space
            &&& rc == RetryAlgoOverrides {
                denoise: 1,
                palette_source: 1,
                palette_cleanup_mode: 2,
                cell_color_mode: 2,
                dither_mode: b.dither_mode,
                color_space: b.color_space,
                cleanup_mode: 1,
                repair_mode: 3,
            }
        }),
{
}

/// The retry plans for a summary row, without duplicates. The row's
/// recommended profile must name a preset; otherwise the unknown-preset
/// error is returned.
pub fn build_retry_candidate_plans_for_cli(row: &BatchSummaryRow) -> (r: Result<
    Vec<RetryCandidatePlan>,
    CliError,
>)
    ensures
        match spec_preset_by_name(row.recommended_profile@) {
            Some(p) => r matches Ok(v) && plan_views(v@) == dedupe_plans(
                candidate_plans(row, p.modes),
            ) && all_distinct(plan_views(v@)) && v@.len() >= 1 && v@[0].key@
                == "recommended-profile"@ && v@[0].algo_overrides == p.modes,
            None => r matches Err(e) && e.text() == unknown_preset_text(row.recommended_profile@),
        },
{
    let base = config_from_summary_row(row);
    let mut recommended = base;
    let keep_k = recommended.k_colors;
    match apply_named_preset(&mut recommended, row.recommended_profile.as_str()) {
        Ok(()) => {},
        Err(e) => {
            return Err(e);
        },
    }
    recommended.k_colors = keep_k;
    let palette_count = row.palette_count;
    let base_overrides = algo_overrides_from_config(&base);
    let recommended_overrides = algo_overrides_from_config(&recommended);
    let mut plans: Vec<RetryCandidatePlan> = Vec::new();
    plans.push(
        RetryCandidatePlan {
            key: owned("recommended-profile"),
            label: cat("Profilo ", row.recommended_profile.as_str()),
            reason: row.recommendation_reason.clone(),
            algo_overrides: recommended_overrides,
        },
    );
    plans.push(
        RetryCandidatePlan {
            key: owned("stability-pass"),
            label: owned("Stability Pass"),
            reason: owned("rinforza griglia, palette dalle celle e repair medio"),
            algo_overrides: RetryAlgoOverrides {
                denoise: max_u32(base_overrides.denoise, 1),
                palette_source: 1,
                palette_cleanup_mode: max_u32(
                    base_overrides.palette_cleanup_mode,
                    if palette_count > 24 {
                        2
                    } else {
                        1
                    },
                ),
                cell_color_mode: max_u32(base_overrides.cell_color_mode, 1),
                dither_mode: base_overrides.dither_mode,
                color_space: base_overrides.color_space,
                cleanup_mode: max_u32(base_overrides.cleanup_mode, 1),
                repair_mode: max_u32(base_overrides.repair_mode, 2),
            },
        },
    );
    plans.push(
        RetryCandidatePlan {
            key: owned("recovery-pass"),
            label: owned("Recovery Pass"),
            reason: owned("pass aggressivo per casi molto degradati o con grande area differente"),
            algo_overrides: RetryAlgoOverrides {
                denoise: 1,
                palette_source: 1,
                palette_cleanup_mode: 2,
                cell_color_mode: 2,
                dither_mode: base_overrides.dither_mode,
                color_space: base_overrides.color_space,
                cleanup_mode: 1,
                repair_mode: 3,
            },
        },
    );
    assert(plan_views(plans@) =~= candidate_plans(row, recommended_overrides));
    let kept = dedupe_retry_candidate_plans(plans);
    proof {
        lemma_dedupe_distinct(candidate_plans(row, recommended_overrides));
        lemma_dedupe_keeps_head(candidate_plans(row, recommended_overrides));
        assert(plan_views(kept@)[0] == kept@[0]@);
    }
    Ok(kept)
}

/// A retry plan as the review pack lists it: key, label, reason and the
/// actions that the plan stands for.
#[derive(Debug)]
pub struct RetryPlanOutline {
    pub key: String,
    pub label: String,
    pub reason: String,
    pub actions: String,
}

/// An outline, with its texts as character sequences.
pub struct OutlineView {
    pub key: Seq<char>,
    pub label: Seq<char>,
    pub reason: Seq<char>,
    pub actions: Seq<char>,
}

impl View for RetryPlanOutline {
    type V = OutlineView;

    open spec fn view(&self) -> OutlineView {
        OutlineView {
            key: self.key@,
            label: self.label@,
            reason: self.reason@,
            actions: self.actions@,
        }
    }
}

/// The three plan outlines that the review pack lists for a row.
pub open spec fn plan_outlines(row: &BatchSummaryRow) -> Seq<OutlineView> {
    seq![
        OutlineView {
            key: "recommended-profile"@,
            label: "Profilo "@ + row.recommended_profile@,
            reason: row.recommendation_reason@,
            actions: row.recommended_actions@,
        },
        OutlineView {
            key: "stability-pass"@,
            label: "Stability Pass"@,
            reason: "rinforza griglia, palette dalle celle e repair medio"@,
            actions: "attiva denoise box3 | usa palette dalle celle | attiva/alza repair smart"@,
        },
        OutlineView {
            key: "recovery-pass"@,
            label: "Recovery Pass"@,
            reason: "pass aggressivo per casi molto degradati"@,
            actions: "attiva denoise box3 | palette cleanup strict | prova repair ultra"@,
        },
    ]
}

/// The plan outlines that the review pack lists for a row.
pub fn build_retry_plan_candidates(row: &BatchSummaryRow) -> (r: Vec<RetryPlanOutline>)
    ensures
        r@.map_values(|o: RetryPlanOutline| o@) == plan_outlines(row),
{
    let mut plans: Vec<RetryPlanOutline> = Vec::new();
    plans.push(
        RetryPlanOutline {
            key: owned("recommended-profile"),
            label: cat("Profilo ", row.recommended_profile.as_str()),
            reason: row.recommendation_reason.clone(),
            actions: row.recommended_actions.clone(),
        },
    );
    plans.push(
        RetryPlanOutline {
            key: owned("stability-pass"),
            label: owned("Stability Pass"),
            reason: owned("rinforza griglia, palette dalle celle e repair medio"),
            actions: owned(
                "attiva denoise box3 | usa palette dalle celle | attiva/alza repair smart",
            ),
        },
    );
    plans.push(
        RetryPlanOutline {
            key: owned("recovery-pass"),
            label: owned("Recovery Pass"),
            reason: owned("pass aggressivo per casi molto degradati"),
            actions: owned("attiva denoise box3 | palette cleanup strict | prova repair ultra"),
        },
    );
    assert(plans@.map_values(|o: RetryPlanOutline| o@) =~= plan_outlines(row));
    plans
}

} // verus!
