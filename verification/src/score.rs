//! Severity aggregation: the deterministic weighted sum over one analysis
//! result, its tier mapping, and the overall verdict.

use vstd::prelude::*;

use crate::result::{AnalysisResult, ResultView};

verus! {

/// Qualitative severity tier for an analysis score.
#[derive(Clone, Copy, Debug, PartialEq, Eq, Structural)]
pub enum Severity {
    Low,
    Medium,
    High,
    Critical,
}

/// The tier a score maps to: 0-2 Low, 3-5 Medium, 6-10 High, 11 and up
/// Critical.
pub open spec fn spec_severity(score: u32) -> Severity {
    if score <= 2 {
        Severity::Low
    } else if score <= 5 {
        Severity::Medium
    } else if score <= 10 {
        Severity::High
    } else {
        Severity::Critical
    }
}

/// Map a severity score to its tier.
pub fn severity_tier(score: u32) -> (r: Severity)
    ensures
        r == spec_severity(score),
{
    if score <= 2 {
        Severity::Low
    } else if score <= 5 {
        Severity::Medium
    } else if score <= 10 {
        Severity::High
    } else {
        Severity::Critical
    }
}

/// A tier's name.
pub open spec fn spec_severity_label(s: Severity) -> Seq<char> {
    match s {
        Severity::Low => "Low"@,
        Severity::Medium => "Medium"@,
        Severity::High => "High"@,
        Severity::Critical => "Critical"@,
    }
}

/// The name of a tier.
pub fn severity_label(s: Severity) -> (r: String)
    ensures
        r@ == spec_severity_label(s),
{
    match s {
        Severity::Low => "Low".to_owned(),
        Severity::Medium => "Medium".to_owned(),
        Severity::High => "High".to_owned(),
        Severity::Critical => "Critical".to_owned(),
    }
}

/// Any positive score reads as potentially malicious; zero as likely benign.
pub open spec fn spec_verdict(score: u32) -> Seq<char> {
    if score > 0 {
        "Potentially malicious"@
    } else {
        "Likely benign"@
    }
}

/// The qualitative verdict a score maps to.
pub fn verdict(score: u32) -> (r: String)
    ensures
        r@ == spec_verdict(score),
{
    if score > 0 {
        "Potentially malicious".to_owned()
    } else {
        "Likely benign".to_owned()
    }
}

/// The exact weighted sum over a result's indicator fields; the stored
/// severity score does not feed into it.
pub open spec fn spec_score_sum(r: ResultView) -> int {
    (if r.has_javascript {
        3int
    } else {
        0int
    }) + (if r.has_auto_action {
        2int
    } else {
        0int
    }) + (if r.has_obj_stm {
        2int
    } else {
        0int
    }) + r.suspicious_names.len() + (if r.hidden_content {
        2int
    } else {
        0int
    }) + (if r.large_file_size {
        1int
    } else {
        0int
    }) + (if r.suspicious_metadata {
        2int
    } else {
        0int
    }) + r.unusual_objects.len() + 2 * r.object_statistics.js_objects
        + r.object_statistics.obj_stm_objects
}

/// The severity score: the weighted sum, saturating at the score type's
/// maximum.
pub open spec fn spec_score(r: ResultView) -> u32 {
    if spec_score_sum(r) <= u32::MAX {
        spec_score_sum(r) as u32
    } else {
        u32::MAX
    }
}

/// Law: the oversized-file flag contributes exactly 1 to the weighted sum,
/// whatever the other fields hold.
pub proof fn lemma_large_file_contributes_one(r: ResultView)
    ensures
        spec_score_sum(ResultView { large_file_size: true, ..r }) == spec_score_sum(
            ResultView { large_file_size: false, ..r },
        ) + 1,
{
}

fn sat_add_u64(a: u64, b: u64) -> (r: u64)
    ensures
        r == if a + b <= u64::MAX {
            a + b
        } else {
            u64::MAX as int
        },
{
    if a > u64::MAX - b {
        u64::MAX
    } else {
        a + b
    }
}

/// Combine all indicator outputs and statistics into the severity score.
pub fn calculate_severity_score(result: &AnalysisResult) -> (r: u32)
    ensures
        r == spec_score(result@),
{
    let mut total: u64 = 0;
    if result.has_javascript {
        total = sat_add_u64(total, 3);
    }
    if result.has_auto_action {
        total = sat_add_u64(total, 2);
    }
    if result.has_obj_stm {
        total = sat_add_u64(total, 2);
    }
    total = sat_add_u64(total, result.suspicious_names.len() as u64);
    if result.hidden_content {
        total = sat_add_u64(total, 2);
    }
    if result.large_file_size {
        total = sat_add_u64(total, 1);
    }
    if result.suspicious_metadata {
        total = sat_add_u64(total, 2);
    }
    total = sat_add_u64(total, result.unusual_objects.len() as u64);
    let js_count = result.object_statistics.js_objects as u64;
    let js_term = sat_add_u64(js_count, js_count);
    total = sat_add_u64(total, js_term);
    total = sat_add_u64(total, result.object_statistics.obj_stm_objects as u64);
    proof {
        assert(result@.suspicious_names.len() == result.suspicious_names@.len());
        assert(result@.unusual_objects.len() == result.unusual_objects@.len());
    }
    if total > u32::MAX as u64 {
        u32::MAX
    } else {
        total as u32
    }
}

} // verus!
