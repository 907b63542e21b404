//! The full pipeline over one document: every detector, the statistics, the
//! script extraction, the stream scan, and the severity aggregation.

use vstd::prelude::*;

use crate::config::CompiledConfig;
use crate::detectors::{
    check_file_size, check_for_auto_action, check_for_hidden_content, check_for_javascript,
    check_for_obj_stm, check_for_suspicious_names, check_for_unusual_objects, check_metadata,
    info_dict_of, spec_has_auto_action, spec_has_hidden_content, spec_has_javascript,
    spec_has_obj_stm, spec_suspicious_metadata, spec_suspicious_names, spec_unusual_objects,
};
use crate::extract::{analyze_streams, find_javascript_objects, spec_javascript_objects,
    spec_stream_findings};
use crate::model::Document;
use crate::pattern::matcher_view;
use crate::result::{AnalysisResult, ResultView};
use crate::score::{calculate_severity_score, spec_score, spec_severity, spec_verdict, Severity};
use crate::stats::{calculate_object_statistics, spec_statistics};

verus! {

/// What one run over `doc` yields under the given suspicious pattern,
/// known-good metadata pattern, and size threshold.
pub open spec fn spec_analyze(
    doc: Document,
    sus: Option<Seq<char>>,
    meta: Option<Seq<char>>,
    file_size_threshold: u64,
) -> ResultView {
    let base = ResultView {
        has_javascript: spec_has_javascript(doc),
        has_auto_action: spec_has_auto_action(doc),
        has_obj_stm: spec_has_obj_stm(doc),
        suspicious_names: spec_suspicious_names(doc.objects@, sus) + spec_stream_findings(
            doc.objects@,
            sus,
        ),
        hidden_content: spec_has_hidden_content(doc),
        large_file_size: doc.size_in_bytes > file_size_threshold,
        suspicious_metadata: spec_suspicious_metadata(doc, meta),
        unusual_objects: spec_unusual_objects(doc.objects@),
        object_statistics: spec_statistics(doc.objects@),
        severity_score: 0,
        javascript_objects: spec_javascript_objects(doc.objects@),
    };
    ResultView { severity_score: spec_score(base), ..base }
}

/// Run every detector and the statistics pass over the document, scan the
/// streams, and aggregate the severity score.
pub fn analyze_pdf(doc: &Document, cc: &CompiledConfig) -> (r: AnalysisResult)
    ensures
        r@ == spec_analyze(
            *doc,
            matcher_view(cc.suspicious),
            matcher_view(cc.suspicious_metadata),
            cc.file_size_threshold,
        ),
{
    let has_javascript = check_for_javascript(doc);
    let javascript_objects = find_javascript_objects(doc);
    let has_auto_action = check_for_auto_action(doc);
    let has_obj_stm = check_for_obj_stm(doc);
    let mut suspicious_names = check_for_suspicious_names(doc, &cc.suspicious);
    let hidden_content = check_for_hidden_content(doc);
    let large_file_size = check_file_size(doc, cc.file_size_threshold);
    let suspicious_metadata = check_metadata(doc, &cc.suspicious_metadata);
    let unusual_objects = check_for_unusual_objects(doc);
    let object_statistics = calculate_object_statistics(doc);
    analyze_streams(doc, &cc.suspicious, &mut suspicious_names);
    let mut result = AnalysisResult {
        has_javascript,
        has_auto_action,
        has_obj_stm,
        suspicious_names,
        hidden_content,
        large_file_size,
        suspicious_metadata,
        unusual_objects,
        object_statistics,
        severity_score: 0,
        javascript_objects,
    };
    let ghost v0 = result@;
    let score = calculate_severity_score(&result);
    result.severity_score = score;
    proof {
        let target = spec_analyze(
            *doc,
            matcher_view(cc.suspicious),
            matcher_view(cc.suspicious_metadata),
            cc.file_size_threshold,
        );
        let base = ResultView { severity_score: 0u32, ..target };
        assert(v0 =~~= base);
        assert(result@ =~~= target);
    }
    result
}

/// Law: a document with zero objects, a size figure within the threshold,
/// and no Info dictionary in its trailer scores zero, with zero counted
/// objects, tier Low, and the benign verdict.
pub proof fn lemma_empty_document_benign(
    doc: Document,
    sus: Option<Seq<char>>,
    meta: Option<Seq<char>>,
    file_size_threshold: u64,
)
    requires
        doc.objects@.len() == 0,
        doc.size_in_bytes <= file_size_threshold,
        info_dict_of(doc) is None,
    ensures
        spec_analyze(doc, sus, meta, file_size_threshold).object_statistics.total_objects == 0,
        spec_analyze(doc, sus, meta, file_size_threshold).severity_score == 0,
        spec_severity(spec_analyze(doc, sus, meta, file_size_threshold).severity_score)
            == Severity::Low,
        spec_verdict(spec_analyze(doc, sus, meta, file_size_threshold).severity_score)
            == "Likely benign"@,
{
    let r = spec_analyze(doc, sus, meta, file_size_threshold);
    assert(!spec_has_javascript(doc));
    assert(!spec_has_auto_action(doc));
    assert(!spec_has_obj_stm(doc));
    assert(!spec_has_hidden_content(doc));
    assert(spec_suspicious_names(doc.objects@, sus) =~= Seq::<Seq<char>>::empty());
    assert(spec_stream_findings(doc.objects@, sus) =~= Seq::<Seq<char>>::empty());
    assert(spec_unusual_objects(doc.objects@) =~= Seq::<Seq<char>>::empty());
    assert(spec_javascript_objects(doc.objects@).len() == 0);
    assert(r.suspicious_names.len() == 0);
    assert(r.severity_score == 0);
}

/// Law: the severity score and its tier are a pure function of the analysis
/// result's fields: results with the same content score the same.
pub proof fn lemma_score_deterministic(a: AnalysisResult, b: AnalysisResult)
    requires
        a@ == b@,
    ensures
        spec_score(a@) == spec_score(b@),
        spec_severity(spec_score(a@)) == spec_severity(spec_score(b@)),
{
}

/// Law: the full pipeline is deterministic: two results of runs over the
/// same document under the same patterns and threshold have the same
/// content, list order included.
pub proof fn lemma_analysis_deterministic(
    r1: AnalysisResult,
    r2: AnalysisResult,
    doc: Document,
    sus: Option<Seq<char>>,
    meta: Option<Seq<char>>,
    file_size_threshold: u64,
)
    requires
        r1@ == spec_analyze(doc, sus, meta, file_size_threshold),
        r2@ == spec_analyze(doc, sus, meta, file_size_threshold),
    ensures
        r1@ == r2@,
{
}

} // verus!
