//! The two CSV tables that a batch run writes: the quality summary and the
//! retry review. Fractional figures arrive already written with four
//! decimals; everything else is laid out here.
use vstd::prelude::*;

use crate::csv::{
    cell_text, csv_document, csv_line, decimal, decimal_string, escaped_line, lemma_csv_document_reads_back,
    lemma_decimal_plain, line_string, needs_quoting, read_records, spec_csv_escape, CsvCell,
};
use crate::summary::BatchSummaryRow;
use crate::text::owned;

verus! {

/// The column names of the batch quality summary, in order.
pub open spec fn summary_columns() -> Seq<Seq<char>> {
    seq![
        "rank"@,
        "source_relative_path"@,
        "relative_path"@,
        "output_relative_path"@,
        "review_priority"@,
        "recommended_profile"@,
        "recommended_actions"@,
        "recommendation_reason"@,
        "k_colors"@,
        "pixel_size_override"@,
        "quality_overall"@,
        "diff_score"@,
        "diff_area"@,
        "grid_regularity"@,
        "palette_compactness"@,
        "coverage_ratio"@,
        "palette_count"@,
        "output_width"@,
        "output_height"@,
        "step_x"@,
        "step_y"@,
        "prefilter_mode"@,
        "palette_source"@,
        "palette_cleanup_mode"@,
        "cell_color_mode"@,
        "dither_mode"@,
        "color_space"@,
        "cleanup_mode"@,
        "repair_mode"@,
    ]
}

/// Header line of the batch quality summary: the column names.
pub open spec fn summary_header() -> Seq<char> {
    escaped_line(summary_columns())
}

/// Header line of the batch quality summary.
pub fn batch_summary_csv_header() -> (r: String)
    ensures
        r@ == summary_header(),
{
    let mut c: Vec<CsvCell> = Vec::new();
    assert(cell_texts(c@) =~= Seq::<Seq<char>>::empty());
    push_text(&mut c, "rank");
    push_text(&mut c, "source_relative_path");
    push_text(&mut c, "relative_path");
    push_text(&mut c, "output_relative_path");
    push_text(&mut c, "review_priority");
    push_text(&mut c, "recommended_profile");
    push_text(&mut c, "recommended_actions");
    push_text(&mut c, "recommendation_reason");
    push_text(&mut c, "k_colors");
    push_text(&mut c, "pixel_size_override");
    push_text(&mut c, "quality_overall");
    push_text(&mut c, "diff_score");
    push_text(&mut c, "diff_area");
    push_text(&mut c, "grid_regularity");
    push_text(&mut c, "palette_compactness");
    push_text(&mut c, "coverage_ratio");
    push_text(&mut c, "palette_count");
    push_text(&mut c, "output_width");
    push_text(&mut c, "output_height");
    push_text(&mut c, "step_x");
    push_text(&mut c, "step_y");
    push_text(&mut c, "prefilter_mode");
    push_text(&mut c, "palette_source");
    push_text(&mut c, "palette_cleanup_mode");
    push_text(&mut c, "cell_color_mode");
    push_text(&mut c, "dither_mode");
    push_text(&mut c, "color_space");
    push_text(&mut c, "cleanup_mode");
    push_text(&mut c, "repair_mode");
    assert(cell_texts(c@) =~= summary_columns().map_values(|v: Seq<char>| spec_csv_escape(v)));
    line_string(&c)
}

/// The fractional figures of a summary row, each written with four decimals
/// (the pixel size override is empty when there is none).
#[derive(Debug)]
pub struct SummaryFigures {
    pub pixel_size_override: String,
    pub quality_overall: String,
    pub diff_score: String,
    pub diff_area: String,
    pub grid_regularity: String,
    pub palette_compactness: String,
    pub coverage_ratio: String,
    pub step_x: String,
    pub step_y: String,
}

/// The texts of the cells of a summary line, in column order.
pub open spec fn summary_cells(row: &BatchSummaryRow, f: &SummaryFigures) -> Seq<Seq<char>> {
    seq![
        decimal(row.rank as nat),
        spec_csv_escape(row.source_relative_path@),
        spec_csv_escape(row.relative_path@),
        spec_csv_escape(row.output_relative_path@),
        spec_csv_escape(row.review_priority@),
        spec_csv_escape(row.recommended_profile@),
        spec_csv_escape(row.recommended_actions@),
        spec_csv_escape(row.recommendation_reason@),
        decimal(row.k_colors as nat),
        spec_csv_escape(f.pixel_size_override@),
        f.quality_overall@,
        f.diff_score@,
        f.diff_area@,
        f.grid_regularity@,
        f.palette_compactness@,
        f.coverage_ratio@,
        decimal(row.palette_count as nat),
        decimal(row.output_width as nat),
        decimal(row.output_height as nat),
        f.step_x@,
        f.step_y@,
        spec_csv_escape(row.prefilter_mode@),
        spec_csv_escape(row.palette_source@),
        spec_csv_escape(row.palette_cleanup_mode@),
        spec_csv_escape(row.cell_color_mode@),
        spec_csv_escape(row.dither_mode@),
        spec_csv_escape(row.color_space@),
        spec_csv_escape(row.cleanup_mode@),
        spec_csv_escape(row.repair_mode@),
    ]
}

/// The texts of a list of cells.
pub open spec fn cell_texts(cells: Seq<CsvCell>) -> Seq<Seq<char>> {
    cells.map_values(|c: CsvCell| cell_text(c))
}

/// Appends a text cell (escaped when written).
fn push_text(cells: &mut Vec<CsvCell>, s: &str)
    ensures
        cell_texts(final(cells)@) == cell_texts(old(cells)@).push(spec_csv_escape(s@)),
{
    let ghost before = cells@;
    cells.push(CsvCell::Text(owned(s)));
    assert(cell_texts(cells@) =~= cell_texts(before).push(spec_csv_escape(s@)));
}

/// Appends a cell written as it is.
fn push_raw(cells: &mut Vec<CsvCell>, s: String)
    ensures
        cell_texts(final(cells)@) == cell_texts(old(cells)@).push(s@),
{
    let ghost before = cells@;
    let ghost v = s@;
    cells.push(CsvCell::Raw(s));
    assert(cell_texts(cells@) =~= cell_texts(before).push(v));
}

/// Appends a cell holding a decimal number.
fn push_number(cells: &mut Vec<CsvCell>, n: u64)
    ensures
        cell_texts(final(cells)@) == cell_texts(old(cells)@).push(decimal(n as nat)),
{
    push_raw(cells, decimal_string(n));
}

/// The cells of the summary line of `row`.
pub fn summary_csv_cells(row: &BatchSummaryRow, f: &SummaryFigures) -> (r: Vec<CsvCell>)
    ensures
        cell_texts(r@) == summary_cells(row, f),
{
    let mut c: Vec<CsvCell> = Vec::new();
    assert(cell_texts(c@) =~= Seq::<Seq<char>>::empty());
    push_number(&mut c, row.rank as u64);
    push_text(&mut c, row.source_relative_path.as_str());
    push_text(&mut c, row.relative_path.as_str());
    push_text(&mut c, row.output_relative_path.as_str());
    push_text(&mut c, row.review_priority.as_str());
    push_text(&mut c, row.recommended_profile.as_str());
    push_text(&mut c, row.recommended_actions.as_str());
    push_text(&mut c, row.recommendation_reason.as_str());
    push_number(&mut c, row.k_colors as u64);
    push_text(&mut c, f.pixel_size_override.as_str());
    push_raw(&mut c, owned(f.quality_overall.as_str()));
    push_raw(&mut c, owned(f.diff_score.as_str()));
    push_raw(&mut c, owned(f.diff_area.as_str()));
    push_raw(&mut c, owned(f.grid_regularity.as_str()));
    push_raw(&mut c, owned(f.palette_compactness.as_str()));
    push_raw(&mut c, owned(f.coverage_ratio.as_str()));
    push_number(&mut c, row.palette_count as u64);
    push_number(&mut c, row.output_width as u64);
    push_number(&mut c, row.output_height as u64);
    push_raw(&mut c, owned(f.step_x.as_str()));
    push_raw(&mut c, owned(f.step_y.as_str()));
    push_text(&mut c, row.prefilter_mode.as_str());
    push_text(&mut c, row.palette_source.as_str());
    push_text(&mut c, row.palette_cleanup_mode.as_str());
    push_text(&mut c, row.cell_color_mode.as_str());
    push_text(&mut c, row.dither_mode.as_str());
    push_text(&mut c, row.color_space.as_str());
    push_text(&mut c, row.cleanup_mode.as_str());
    push_text(&mut c, row.repair_mode.as_str());
    assert(cell_texts(c@) =~= summary_cells(row, f));
    c
}

/// The fields of a summary line as a CSV reader reads them back, in column
/// order: each count in decimal, each text as it is, and each fractional
/// figure as it was written.
pub open spec fn summary_values(row: &BatchSummaryRow, f: &SummaryFigures) -> Seq<Seq<char>> {
    seq![
        decimal(row.rank as nat),
        row.source_relative_path@,
        row.relative_path@,
        row.output_relative_path@,
        row.review_priority@,
        row.recommended_profile@,
        row.recommended_actions@,
        row.recommendation_reason@,
        decimal(row.k_colors as nat),
        f.pixel_size_override@,
        f.quality_overall@,
        f.diff_score@,
        f.diff_area@,
        f.grid_regularity@,
        f.palette_compactness@,
        f.coverage_ratio@,
        decimal(row.palette_count as nat),
        decimal(row.output_width as nat),
        decimal(row.output_height as nat),
        f.step_x@,
        f.step_y@,
        row.prefilter_mode@,
        row.palette_source@,
        row.palette_cleanup_mode@,
        row.cell_color_mode@,
        row.dither_mode@,
        row.color_space@,
        row.cleanup_mode@,
        row.repair_mode@,
    ]
}

/// Whether the figures written as they are (all but the pixel size
/// override) need no quoting, as numbers written with four decimals do not.
pub open spec fn figures_need_no_quoting(f: &SummaryFigures) -> bool {
    &&& !needs_quoting(f.quality_overall@)
    &&& !needs_quoting(f.diff_score@)
    &&& !needs_quoting(f.diff_area@)
    &&& !needs_quoting(f.grid_regularity@)
    &&& !needs_quoting(f.palette_compactness@)
    &&& !needs_quoting(f.coverage_ratio@)
    &&& !needs_quoting(f.step_x@)
    &&& !needs_quoting(f.step_y@)
}

/// A summary line writes the escaped fields of the row.
proof fn lemma_summary_cells_escaped(row: &BatchSummaryRow, f: &SummaryFigures)
    requires
        figures_need_no_quoting(f),
    ensures
        summary_cells(row, f) == summary_values(row, f).map_values(|v: Seq<char>| spec_csv_escape(v)),
{
    lemma_decimal_plain(row.rank as nat);
    lemma_decimal_plain(row.k_colors as nat);
    lemma_decimal_plain(row.palette_count as nat);
    lemma_decimal_plain(row.output_width as nat);
    lemma_decimal_plain(row.output_height as nat);
    assert(summary_cells(row, f) =~= summary_values(row, f).map_values(
        |v: Seq<char>| spec_csv_escape(v),
    ));
}

/// The batch quality summary, as a CSV reader (RFC 4180) reads it: one
/// record for the header, with the column names, then one record per row,
/// in order, of 29 fields each; every text of the row reads back exactly,
/// whatever commas, quotes or line breaks it holds, and every figure as it
/// was written.
pub proof fn lemma_summary_csv_reads_back(
    rows: Seq<BatchSummaryRow>,
    figures: Seq<SummaryFigures>,
    lines: Seq<Vec<CsvCell>>,
)
    requires
        figures.len() == rows.len(),
        lines.len() == rows.len(),
        forall|k: int|
            0 <= k < rows.len() ==> cell_texts(#[trigger] lines[k]@) == summary_cells(
                &rows[k],
                &figures[k],
            ),
        forall|k: int| 0 <= k < rows.len() ==> figures_need_no_quoting(#[trigger] &figures[k]),
    ensures
        read_records(csv_document(summary_header(), lines)) == seq![summary_columns()] + Seq::new(
            rows.len(),
            |k: int| summary_values(&rows[k], &figures[k]),
        ),
{
    let values = Seq::new(rows.len(), |k: int| summary_values(&rows[k], &figures[k]));
    let written = lines.map_values(|r: Vec<CsvCell>| csv_line(r@));
    let expected = values.map_values(|r: Seq<Seq<char>>| escaped_line(r));
    assert forall|k: int| 0 <= k < rows.len() implies #[trigger] written[k] == expected[k] by {
        assert(figures_need_no_quoting(&figures[k]));
        lemma_summary_cells_escaped(&rows[k], &figures[k]);
        assert(cell_texts(lines[k]@) == summary_cells(&rows[k], &figures[k]));
    }
    assert(written =~= expected);
    assert forall|k: int| 0 <= k < values.len() implies #[trigger] values[k].len() > 0 by {
        assert(values[k].len() == 29);
    }
    lemma_csv_document_reads_back(summary_columns(), values);
}

/// The column names of the retry review, in order.
pub open spec fn retry_review_columns() -> Seq<Seq<char>> {
    seq![
        "relative_path"@,
        "source_relative_path"@,
        "retry_status"@,
        "baseline_quality"@,
        "best_retry_candidate"@,
        "best_retry_quality"@,
        "best_retry_delta_quality"@,
        "selected_candidate"@,
        "selected_quality"@,
        "selected_delta_quality"@,
        "exported_output_relative_path"@,
        "recommended_profile"@,
        "recommended_actions"@,
        "recommendation_reason"@,
    ]
}

/// Header line of the retry review: the column names.
pub open spec fn retry_review_header() -> Seq<char> {
    escaped_line(retry_review_columns())
}

/// Header line of the retry review.
pub fn retry_review_csv_header() -> (r: String)
    ensures
        r@ == retry_review_header(),
{
    let mut c: Vec<CsvCell> = Vec::new();
    assert(cell_texts(c@) =~= Seq::<Seq<char>>::empty());
    push_text(&mut c, "relative_path");
    push_text(&mut c, "source_relative_path");
    push_text(&mut c, "retry_status");
    push_text(&mut c, "baseline_quality");
    push_text(&mut c, "best_retry_candidate");
    push_text(&mut c, "best_retry_quality");
    push_text(&mut c, "best_retry_delta_quality");
    push_text(&mut c, "selected_candidate");
    push_text(&mut c, "selected_quality");
    push_text(&mut c, "selected_delta_quality");
    push_text(&mut c, "exported_output_relative_path");
    push_text(&mut c, "recommended_profile");
    push_text(&mut c, "recommended_actions");
    push_text(&mut c, "recommendation_reason");
    assert(cell_texts(c@) =~= retry_review_columns().map_values(|v: Seq<char>| spec_csv_escape(v)));
    line_string(&c)
}

/// One line of the retry review, with its fractional figures already
/// written (an empty figure stands for one that is missing).
#[derive(Debug)]
pub struct RetryReviewLine {
    pub relative_path: String,
    pub source_relative_path: String,
    pub retry_status: String,
    pub baseline_quality: String,
    pub best_label: Option<String>,
    pub best_quality: String,
    pub best_delta: String,
    pub selected_label: Option<String>,
    pub selected_quality: String,
    pub selected_delta: String,
    pub exported_output_relative_path: Option<String>,
    pub recommended_profile: String,
    pub recommended_actions: String,
    pub recommendation_reason: String,
}

/// The text of an optional string, or `fallback` when there is none.
pub open spec fn text_or(o: Option<String>, fallback: Seq<char>) -> Seq<char> {
    match o {
        Some(s) => s@,
        None => fallback,
    }
}

/// The texts of the cells of a retry review line, in column order: a row
/// with no best attempt names the baseline.
pub open spec fn retry_review_cells(l: &RetryReviewLine) -> Seq<Seq<char>> {
    seq![
        spec_csv_escape(l.relative_path@),
        spec_csv_escape(l.source_relative_path@),
        spec_csv_escape(l.retry_status@),
        l.baseline_quality@,
        spec_csv_escape(text_or(l.best_label, "baseline"@)),
        spec_csv_escape(l.best_quality@),
        spec_csv_escape(l.best_delta@),
        spec_csv_escape(text_or(l.selected_label, Seq::empty())),
        spec_csv_escape(l.selected_quality@),
        spec_csv_escape(l.selected_delta@),
        spec_csv_escape(text_or(l.exported_output_relative_path, Seq::empty())),
        spec_csv_escape(l.recommended_profile@),
        spec_csv_escape(l.recommended_actions@),
        spec_csv_escape(l.recommendation_reason@),
    ]
}

/// The text of an optional string, or `fallback`.
fn text_or_exec<'a>(o: &'a Option<String>, fallback: &'a str) -> (r: &'a str)
    ensures
        r@ == text_or(*o, fallback@),
{
    match o {
        Some(s) => s.as_str(),
        None => fallback,
    }
}

/// The cells of a retry review line.
pub fn retry_review_csv_cells(l: &RetryReviewLine) -> (r: Vec<CsvCell>)
    ensures
        cell_texts(r@) == retry_review_cells(l),
{
    let mut c: Vec<CsvCell> = Vec::new();
    assert(cell_texts(c@) =~= Seq::<Seq<char>>::empty());
    push_text(&mut c, l.relative_path.as_str());
    push_text(&mut c, l.source_relative_path.as_str());
    push_text(&mut c, l.retry_status.as_str());
    push_raw(&mut c, owned(l.baseline_quality.as_str()));
    push_text(&mut c, text_or_exec(&l.best_label, "baseline"));
    push_text(&mut c, l.best_quality.as_str());
    push_text(&mut c, l.best_delta.as_str());
    proof {
        reveal_strlit("");
    }
    push_text(&mut c, text_or_exec(&l.selected_label, ""));
    push_text(&mut c, l.selected_quality.as_str());
    push_text(&mut c, l.selected_delta.as_str());
    push_text(&mut c, text_or_exec(&l.exported_output_relative_path, ""));
    push_text(&mut c, l.recommended_profile.as_str());
    push_text(&mut c, l.recommended_actions.as_str());
    push_text(&mut c, l.recommendation_reason.as_str());
    assert(""@ =~= Seq::<char>::empty());
    assert(cell_texts(c@) =~= retry_review_cells(l));
    c
}

/// The fields of a retry review line as a CSV reader reads them back, in
/// column order.
pub open spec fn retry_review_values(l: &RetryReviewLine) -> Seq<Seq<char>> {
    seq![
        l.relative_path@,
        l.source_relative_path@,
        l.retry_status@,
        l.baseline_quality@,
        text_or(l.best_label, "baseline"@),
        l.best_quality@,
        l.best_delta@,
        text_or(l.selected_label, Seq::empty()),
        l.selected_quality@,
        l.selected_delta@,
        text_or(l.exported_output_relative_path, Seq::empty()),
        l.recommended_profile@,
        l.recommended_actions@,
        l.recommendation_reason@,
    ]
}

/// The retry review, as a CSV reader (RFC 4180) reads it: one record for
/// the header, with the column names, then one record per line, in order,
/// of 14 fields each, each reading back exactly (the baseline quality, written
/// as it is, needs no quoting).
pub proof fn lemma_retry_review_csv_reads_back(reviews: Seq<RetryReviewLine>, lines: Seq<Vec<CsvCell>>)
    requires
        lines.len() == reviews.len(),
        forall|k: int|
            0 <= k < reviews.len() ==> cell_texts(#[trigger] lines[k]@) == retry_review_cells(
                &reviews[k],
            ),
        forall|k: int|
            0 <= k < reviews.len() ==> !needs_quoting(#[trigger] reviews[k].baseline_quality@),
    ensures
        read_records(csv_document(retry_review_header(), lines)) == seq![retry_review_columns()]
            + Seq::new(reviews.len(), |k: int| retry_review_values(&reviews[k])),
{
    let values = Seq::new(reviews.len(), |k: int| retry_review_values(&reviews[k]));
    let written = lines.map_values(|r: Vec<CsvCell>| csv_line(r@));
    let expected = values.map_values(|r: Seq<Seq<char>>| escaped_line(r));
    assert forall|k: int| 0 <= k < reviews.len() implies #[trigger] written[k] == expected[k] by {
        assert(!needs_quoting(reviews[k].baseline_quality@));
        assert(cell_texts(lines[k]@) =~= retry_review_values(&reviews[k]).map_values(
            |v: Seq<char>| spec_csv_escape(v),
        ));
    }
    assert(written =~= expected);
    assert forall|k: int| 0 <= k < values.len() implies #[trigger] values[k].len() > 0 by {
        assert(values[k].len() == 14);
    }
    lemma_csv_document_reads_back(retry_review_columns(), values);
}

} // verus!
