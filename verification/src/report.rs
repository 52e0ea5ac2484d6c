//! Reading a debug report: a JSON document, as far as the batch summary
//! reads it, and the summary row built from it.
use vstd::prelude::*;

use crate::paths::{output_relative_path, spec_output_relative_path};
use crate::summary::{
    actions_of, action_separator, priority_of, profile_of, summarize_recommendation, weakest_of,
    BatchSummaryRow, QualitySignals,
};
use crate::text::{join, owned, str_eq};

verus! {

/// A JSON value. A number is held by what the summary reads of it: its value
/// when it is a non-negative integer that fits in `u64`, and nothing
/// otherwise. An object holds its members in order, each key once.
#[derive(Debug)]
pub enum JsonValue {
    Null,
    Bool(bool),
    Number(Option<u64>),
    Str(String),
    Array(Vec<JsonValue>),
    Object(Vec<(String, JsonValue)>),
}

#[verifier::external_type_specification]
#[verifier::external_body]
pub struct ExJsonDocument(serde_json::Value);

/// The library's model of a JSON document that `serde_json` parsed: one
/// variant for each variant of `serde_json::Value`, with the same contents,
/// and each number replaced by `serde_json::Number::as_u64` of it.
#[verifier::external_body]
fn json_from_value(v: &serde_json::Value) -> JsonValue {
    match v {
        serde_json::Value::Null => JsonValue::Null,
        serde_json::Value::Bool(b) => JsonValue::Bool(*b),
        serde_json::Value::Number(n) => JsonValue::Number(n.as_u64()),
        serde_json::Value::String(s) => JsonValue::Str(s.clone()),
        serde_json::Value::Array(items) => JsonValue::Array(items.iter().map(json_from_value).collect()),
        serde_json::Value::Object(map) => JsonValue::Object(
            map.iter().map(|(k, x)| (k.clone(), json_from_value(x))).collect(),
        ),
    }
}

/// What `serde_json::from_slice::<serde_json::Value>` makes of `bytes`, in
/// the library's model: nothing where it returns an error.
pub uninterp spec fn parsed_json(bytes: Seq<u8>) -> Option<JsonValue>;

/// Parses `bytes` as one JSON document with `serde_json::from_slice`. The
/// contract claims only that the result is a function of the bytes alone,
/// named `parsed_json`: which byte strings `serde_json` accepts, and what it
/// reads from them, is that crate's and is not stated here.
#[verifier::external_body]
fn parse_json(bytes: &[u8]) -> (r: Option<JsonValue>)
    ensures
        r == parsed_json(bytes@),
{
    match serde_json::from_slice::<serde_json::Value>(bytes) {
        Ok(v) => Some(json_from_value(&v)),
        Err(_) => None,
    }
}

/// The value of the first member of `fields` whose key is `key`.
pub open spec fn find_member(fields: Seq<(String, JsonValue)>, key: Seq<char>) -> Option<JsonValue>
    decreases fields.len(),
{
    if fields.len() == 0 {
        None
    } else if fields[0].0@ == key {
        Some(fields[0].1)
    } else {
        find_member(fields.skip(1), key)
    }
}

/// The member `key` of an object; nothing for any other value.
pub open spec fn member(v: JsonValue, key: Seq<char>) -> Option<JsonValue> {
    match v {
        JsonValue::Object(fields) => find_member(fields@, key),
        _ => None,
    }
}

/// The value reached from `v` by following the keys of `path` in turn.
pub open spec fn node_at(v: JsonValue, path: Seq<Seq<char>>) -> Option<JsonValue>
    decreases path.len(),
{
    if path.len() == 0 {
        Some(v)
    } else {
        match member(v, path[0]) {
            Some(child) => node_at(child, path.skip(1)),
            None => None,
        }
    }
}

/// A count read from a value: a non-negative integer, or the length of an
/// array.
pub open spec fn count_of(v: JsonValue) -> Option<u64> {
    match v {
        JsonValue::Number(n) => n,
        JsonValue::Array(items) => Some(items@.len() as u64),
        _ => None,
    }
}

/// The count found at `path`, if any.
pub open spec fn spec_json_u64(v: JsonValue, path: Seq<Seq<char>>) -> Option<u64> {
    match node_at(v, path) {
        Some(n) => count_of(n),
        None => None,
    }
}

/// The text found at `path`; empty when there is no string there.
pub open spec fn spec_json_str(v: JsonValue, path: Seq<Seq<char>>) -> Seq<char> {
    match node_at(v, path) {
        Some(JsonValue::Str(s)) => s@,
        _ => Seq::empty(),
    }
}

/// The keys of a path, as character sequences.
pub open spec fn path_keys(path: Seq<&str>) -> Seq<Seq<char>> {
    path.map_values(|k: &str| k@)
}

/// The member `key` of an object; nothing for any other value.
fn json_member<'a>(v: &'a JsonValue, key: &str) -> (r: Option<&'a JsonValue>)
    ensures
        r matches Some(c) ==> member(*v, key@) == Some(*c),
        r is None ==> member(*v, key@) is None,
{
    match v {
        JsonValue::Object(fields) => {
            let n = fields.len();
            assert(fields@.skip(0) =~= fields@);
            for i in 0..n
                invariant
                    n == fields@.len(),
                    member(*v, key@) == find_member(fields@, key@),
                    find_member(fields@, key@) == find_member(fields@.skip(i as int), key@),
            {
                assert(fields@.skip(i as int)[0] == fields@[i as int]);
                assert(fields@.skip(i as int).skip(1) =~= fields@.skip(i + 1));
                if str_eq(fields[i].0.as_str(), key) {
                    assert(find_member(fields@.skip(i as int), key@) == Some(fields@[i as int].1));
                    return Some(&fields[i].1);
                }
            }
            assert(fields@.skip(n as int) =~= Seq::<(String, JsonValue)>::empty());
            None
        },
        _ => None,
    }
}

/// The value reached from `value` by following the keys of `path` in turn.
pub fn json_node<'a>(value: &'a JsonValue, path: &[&str]) -> (r: Option<&'a JsonValue>)
    ensures
        r matches Some(c) ==> node_at(*value, path_keys(path@)) == Some(*c),
        r is None ==> node_at(*value, path_keys(path@)) is None,
{
    let ghost keys = path_keys(path@);
    let mut current = value;
    let n = path.len();
    assert(keys.skip(0) =~= keys);
    for i in 0..n
        invariant
            n == path@.len(),
            keys == path_keys(path@),
            node_at(*value, keys) == node_at(*current, keys.skip(i as int)),
    {
        let ghost rest = keys.skip(i as int);
        assert(rest[0] == path@[i as int]@);
        assert(rest.skip(1) =~= keys.skip(i + 1));
        match json_member(current, path[i]) {
            Some(child) => {
                current = child;
            },
            None => {
                return None;
            },
        }
    }
    assert(keys.skip(n as int) =~= Seq::<Seq<char>>::empty());
    Some(current)
}

/// The count at `path`: a non-negative integer there, or the length of an
/// array there.
pub fn json_u64(value: &JsonValue, path: &[&str]) -> (r: Option<u64>)
    ensures
        r == spec_json_u64(*value, path_keys(path@)),
{
    match json_node(value, path) {
        Some(node) => match node {
            JsonValue::Number(n) => *n,
            JsonValue::Array(items) => Some(items.len() as u64),
            _ => None,
        },
        None => None,
    }
}

/// The string at `path`; empty when there is none.
pub fn json_str(value: &JsonValue, path: &[&str]) -> (r: String)
    ensures
        r@ == spec_json_str(*value, path_keys(path@)),
{
    match json_node(value, path) {
        Some(node) => match node {
            JsonValue::Str(s) => owned(s.as_str()),
            _ => String::new(),
        },
        None => String::new(),
    }
}

/// The input path recorded for an output path: the value of the last pair
/// whose output is `output`, or empty when there is none (later pairs
/// replace earlier ones, as a map that is filled in order does).
pub open spec fn spec_source_for(pairs: Seq<(String, String)>, output: Seq<char>) -> Seq<char>
    decreases pairs.len(),
{
    if pairs.len() == 0 {
        Seq::empty()
    } else if pairs.last().0@ == output {
        pairs.last().1@
    } else {
        spec_source_for(pairs.drop_last(), output)
    }
}

/// The input path recorded for an output path.
pub fn source_for(pairs: &Vec<(String, String)>, output: &str) -> (r: String)
    ensures
        r@ == spec_source_for(pairs@, output@),
{
    let mut i = pairs.len();
    assert(pairs@.take(i as int) =~= pairs@);
    while i > 0
        invariant
            i <= pairs@.len(),
            spec_source_for(pairs@, output@) == spec_source_for(pairs@.take(i as int), output@),
        decreases i,
    {
        let ghost pre = pairs@.take(i as int);
        assert(pre.last() == pairs@[i - 1]);
        assert(pre.drop_last() =~= pairs@.take(i - 1));
        if str_eq(pairs[i - 1].0.as_str(), output) {
            return owned(pairs[i - 1].1.as_str());
        }
        i = i - 1;
    }
    assert(pairs@.take(0) =~= Seq::<(String, String)>::empty());
    String::new()
}

/// The path of a report key under `config`.
pub open spec fn config_key(k: Seq<char>) -> Seq<Seq<char>> {
    seq!["config"@, k]
}

/// The summary row for a debug report found at `relative_path` (with `/`
/// between its parts), whose source was recorded in `pairs`, and whose
/// quality measures give `signals`. The row is not ranked yet (rank 0) and
/// carries its review recommendation.
pub open spec fn row_matches_report(
    row: &BatchSummaryRow,
    report: JsonValue,
    relative_path: Seq<char>,
    pairs: Seq<(String, String)>,
    signals: QualitySignals,
) -> bool {
    let palette = match spec_json_u64(report, seq!["palette"@]) {
        Some(n) => Some(n),
        None => spec_json_u64(report, seq!["palette_count"@]),
    };
    &&& row.rank == 0
    &&& row.relative_path@ == relative_path
    &&& row.output_relative_path@ == spec_output_relative_path(relative_path)
    &&& row.source_relative_path@ == spec_source_for(pairs, spec_output_relative_path(relative_path))
    &&& row.k_colors == match spec_json_u64(report, config_key("k_colors"@)) {
        Some(k) => k as usize,
        None => 16usize,
    }
    &&& row.palette_count == match palette {
        Some(n) => n as usize,
        None => 0usize,
    }
    &&& row.output_width == match spec_json_u64(report, seq!["output_width"@]) {
        Some(w) => w as u32,
        None => 0u32,
    }
    &&& row.output_height == match spec_json_u64(report, seq!["output_height"@]) {
        Some(h) => h as u32,
        None => 0u32,
    }
    &&& row.prefilter_mode@ == spec_json_str(report, config_key("prefilter_mode"@))
    &&& row.palette_source@ == spec_json_str(report, config_key("palette_source"@))
    &&& row.palette_cleanup_mode@ == spec_json_str(report, config_key("palette_cleanup_mode"@))
    &&& row.cell_color_mode@ == spec_json_str(report, config_key("cell_color_mode"@))
    &&& row.dither_mode@ == spec_json_str(report, config_key("dither_mode"@))
    &&& row.color_space@ == spec_json_str(report, config_key("color_space"@))
    &&& row.cleanup_mode@ == spec_json_str(report, config_key("cleanup_mode"@))
    &&& row.repair_mode@ == spec_json_str(report, config_key("repair_mode"@))
    &&& row.signals == signals
    &&& row.review_priority@ == priority_of(signals)
    &&& row.recommended_profile@ == profile_of(signals, row.palette_count)
    &&& row.recommended_actions@ == join(actions_of(row), action_separator())
    &&& row.recommendation_reason@ == "focus principale: "@ + weakest_of(signals)
}

/// The string at `config.<key>`.
fn config_str(report: &JsonValue, key: &str) -> (r: String)
    ensures
        r@ == spec_json_str(*report, config_key(key@)),
{
    let path = ["config", key];
    let r = json_str(report, &path);
    proof {
        assert(path_keys(path@) =~= config_key(key@));
    }
    r
}

/// The count at the top-level member `key`.
fn top_u64(report: &JsonValue, key: &str) -> (r: Option<u64>)
    ensures
        r == spec_json_u64(*report, seq![key@]),
{
    let path = [key];
    let r = json_u64(report, &path);
    proof {
        assert(path_keys(path@) =~= seq![key@]);
    }
    r
}

/// The summary row for a debug report.
pub fn summary_row_from_report(
    report: &JsonValue,
    relative_path: &str,
    pairs: &Vec<(String, String)>,
    signals: QualitySignals,
) -> (r: BatchSummaryRow)
    ensures
        row_matches_report(&r, *report, relative_path@, pairs@, signals),
{
    let output_rel = output_relative_path(relative_path);
    let source = source_for(pairs, output_rel.as_str());
    let k_path = ["config", "k_colors"];
    let k = json_u64(report, &k_path);
    proof {
        assert(path_keys(k_path@) =~= config_key("k_colors"@));
    }
    let palette = match top_u64(report, "palette") {
        Some(n) => Some(n),
        None => top_u64(report, "palette_count"),
    };
    let width = top_u64(report, "output_width");
    let height = top_u64(report, "output_height");
    let mut row = BatchSummaryRow {
        rank: 0,
        source_relative_path: source,
        relative_path: owned(relative_path),
        output_relative_path: output_rel,
        review_priority: String::new(),
        recommended_profile: String::new(),
        recommended_actions: String::new(),
        recommendation_reason: String::new(),
        k_colors: match k {
            Some(v) => v as usize,
            None => 16,
        },
        palette_count: match palette {
            Some(v) => v as usize,
            None => 0,
        },
        output_width: match width {
            Some(v) => v as u32,
            None => 0,
        },
        output_height: match height {
            Some(v) => v as u32,
            None => 0,
        },
        prefilter_mode: config_str(report, "prefilter_mode"),
        palette_source: config_str(report, "palette_source"),
        palette_cleanup_mode: config_str(report, "palette_cleanup_mode"),
        cell_color_mode: config_str(report, "cell_color_mode"),
        dither_mode: config_str(report, "dither_mode"),
        color_space: config_str(report, "color_space"),
        cleanup_mode: config_str(report, "cleanup_mode"),
        repair_mode: config_str(report, "repair_mode"),
        signals,
    };
    let (priority, profile, actions, reason) = summarize_recommendation(&row);
    row.review_priority = priority;
    row.recommended_profile = profile;
    row.recommended_actions = actions;
    row.recommendation_reason = reason;
    row
}

/// The summary row for the debug report whose bytes are `bytes`: nothing
/// when they are not a JSON document.
pub fn summary_row_from_report_bytes(
    bytes: &[u8],
    relative_path: &str,
    pairs: &Vec<(String, String)>,
    signals: QualitySignals,
) -> (r: Option<BatchSummaryRow>)
    ensures
        r is None <==> parsed_json(bytes@) is None,
        r matches Some(row) ==> (parsed_json(bytes@) matches Some(v) && row_matches_report(
            &row,
            v,
            relative_path@,
            pairs@,
            signals,
        )),
{
    match parse_json(bytes) {
        Some(report) => Some(summary_row_from_report(&report, relative_path, pairs, signals)),
        None => None,
    }
}

/// `row` with rank `rank`.
pub open spec fn with_rank(row: BatchSummaryRow, rank: usize) -> BatchSummaryRow {
    BatchSummaryRow { rank, ..row }
}

/// Gives the rows, already in review order, their ranks `1, 2, ...`.
pub fn assign_ranks(rows: &mut Vec<BatchSummaryRow>)
    ensures
        final(rows)@.len() == old(rows)@.len(),
        forall|i: int|
            0 <= i < final(rows)@.len() ==> #[trigger] final(rows)@[i] == with_rank(old(rows)@[i], (i + 1) as usize),
{
    let n = rows.len();
    let mut done: Vec<BatchSummaryRow> = Vec::new();
    let ghost original = rows@;
    let mut rest: Vec<BatchSummaryRow> = Vec::new();
    while rows.len() > 0
        invariant
            rows@.len() + rest@.len() == n,
            n == original.len(),
            forall|k: int| 0 <= k < rows@.len() ==> #[trigger] rows@[k] == original[k],
            forall|k: int|
                0 <= k < rest@.len() ==> #[trigger] rest@[k] == original[n - 1 - k],
        decreases rows@.len(),
    {
        let r = rows.pop().unwrap();
        rest.push(r);
    }
    let mut i: usize = 0;
    while rest.len() > 0
        invariant
            i + rest@.len() == n,
            n == original.len(),
            forall|k: int|
                0 <= k < rest@.len() ==> #[trigger] rest@[k] == original[n - 1 - k],
            done@.len() == i,
            forall|k: int|
                0 <= k < i ==> #[trigger] done@[k] == with_rank(original[k], (k + 1) as usize),
        decreases rest@.len(),
    {
        let mut r = rest.pop().unwrap();
        assert(r == original[i as int]);
        r.rank = i + 1;
        done.push(r);
        i = i + 1;
    }
    *rows = done;
}

} // verus!
