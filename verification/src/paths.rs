//! Names of the files that a batch run writes beside each output: the debug
//! report, its overlay and heatmap images, and the output image itself.
use vstd::prelude::*;

use crate::text::{
    cat, drop_last_chars, ends_with, ends_with_str, occurs_at, owned, replace_all,
    replace_all_str,
};

verus! {

/// Suffix of a debug report's file name.
pub open spec fn report_suffix() -> Seq<char> {
    ".debug.json"@
}

/// Whether a file name is that of a debug report.
pub fn is_debug_report_name(name: &str) -> (r: bool)
    ensures
        r == ends_with(name@, report_suffix()),
{
    ends_with_str(name, ".debug.json")
}

/// Path of the overlay image that belongs to a debug report: every
/// `.debug.json` in the path becomes `.overlay.png`.
pub fn retry_overlay_relative_path(relative_debug_path: &str) -> (r: String)
    ensures
        r@ == replace_all(relative_debug_path@, report_suffix(), ".overlay.png"@),
{
    proof {
        reveal_strlit(".debug.json");
    }
    replace_all_str(relative_debug_path, ".debug.json", ".overlay.png")
}

/// Path of the heatmap image that belongs to a debug report: every
/// `.debug.json` in the path becomes `.heatmap.png`.
pub fn retry_heatmap_relative_path(relative_debug_path: &str) -> (r: String)
    ensures
        r@ == replace_all(relative_debug_path@, report_suffix(), ".heatmap.png"@),
{
    proof {
        reveal_strlit(".debug.json");
    }
    replace_all_str(relative_debug_path, ".debug.json", ".heatmap.png")
}

/// Path of the output image that a debug report describes: the report's path
/// with `.debug.json` at its end made `.png`; a path without that ending is
/// kept as it is.
pub open spec fn spec_output_relative_path(rel: Seq<char>) -> Seq<char> {
    if ends_with(rel, report_suffix()) {
        rel.take(rel.len() - report_suffix().len()) + ".png"@
    } else {
        rel
    }
}

/// Path of the output image that a debug report describes.
pub fn output_relative_path(rel: &str) -> (r: String)
    ensures
        r@ == spec_output_relative_path(rel@),
{
    if ends_with_str(rel, ".debug.json") {
        proof {
            reveal_strlit(".debug.json");
        }
        let stem = drop_last_chars(rel, 11);
        cat(stem.as_str(), ".png")
    } else {
        owned(rel)
    }
}

/// A path written with `/` between its parts: every `\` becomes `/`.
pub fn normalize_separators(path: &str) -> (r: String)
    ensures
        r@ == replace_all(path@, seq!['\\'], seq!['/']),
{
    proof {
        reveal_strlit("\\");
        reveal_strlit("/");
        assert("\\"@ =~= seq!['\\']);
        assert("/"@ =~= seq!['/']);
    }
    replace_all_str(path, "\\", "/")
}

/// File name of an output image: the input's stem and `.png`.
pub fn png_file_name(stem: &str) -> (r: String)
    ensures
        r@ == stem@ + ".png"@,
{
    cat(stem, ".png")
}

/// A path in which the pattern never occurs is left unchanged by replacing it.
proof fn lemma_replace_absent(s: Seq<char>, pat: Seq<char>, rep: Seq<char>)
    requires
        pat.len() > 0,
        forall|i: int| !occurs_at(s, pat, i),
    ensures
        replace_all(s, pat, rep) == s,
    decreases s.len(),
{
    if s.len() >= pat.len() {
        assert(s.take(pat.len() as int) != pat) by {
            assert(!occurs_at(s, pat, 0));
            assert(s.subrange(0, pat.len() as int) =~= s.take(pat.len() as int));
        }
        let rest = s.skip(1);
        assert forall|i: int| !occurs_at(rest, pat, i) by {
            if occurs_at(rest, pat, i) {
                assert(rest.subrange(i, i + pat.len()) =~= s.subrange(i + 1, i + 1 + pat.len()));
                assert(occurs_at(s, pat, i + 1));
            }
        }
        lemma_replace_absent(rest, pat, rep);
        assert(seq![s[0]] + rest =~= s);
    }
}

/// A report path `stem.debug.json` names the output `stem.png`, and it is a
/// report path; when the stem holds no `.debug.json` of its own, the overlay
/// and heatmap of a path that holds none at all are the path itself.
pub proof fn lemma_report_names(stem: Seq<char>, other: Seq<char>)
    requires
        forall|i: int| !occurs_at(other, report_suffix(), i),
    ensures
        spec_output_relative_path(stem + report_suffix()) == stem + ".png"@,
        ends_with(stem + report_suffix(), report_suffix()),
        replace_all(other, report_suffix(), ".overlay.png"@) == other,
        replace_all(other, report_suffix(), ".heatmap.png"@) == other,
        spec_output_relative_path(other) == other,
{
    reveal_strlit(".debug.json");
    let p = stem + report_suffix();
    assert(p.skip(p.len() - report_suffix().len()) =~= report_suffix());
    assert(p.take(p.len() - report_suffix().len()) =~= stem);
    lemma_replace_absent(other, report_suffix(), ".overlay.png"@);
    lemma_replace_absent(other, report_suffix(), ".heatmap.png"@);
    if ends_with(other, report_suffix()) {
        let k = other.len() - report_suffix().len();
        assert(other.subrange(k, k + report_suffix().len()) =~= other.skip(k));
        assert(occurs_at(other, report_suffix(), k));
    }
}

} // verus!
