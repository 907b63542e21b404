//! The terminal value of one analysis run: every detector's output, the
//! extracted scripts, the statistics, and the severity score.

use vstd::prelude::*;

use crate::extract::{JavaScriptObject, JsView};
use crate::stats::{ObjectStatistics, StatsView};

verus! {

/// Everything one analysis run found. Owned by the caller; the engine keeps
/// no reference to it.
#[derive(Debug, PartialEq, Eq)]
pub struct AnalysisResult {
    pub has_javascript: bool,
    pub has_auto_action: bool,
    pub has_obj_stm: bool,
    pub suspicious_names: Vec<String>,
    pub hidden_content: bool,
    pub large_file_size: bool,
    pub suspicious_metadata: bool,
    pub unusual_objects: Vec<String>,
    pub object_statistics: ObjectStatistics,
    pub severity_score: u32,
    pub javascript_objects: Vec<JavaScriptObject>,
}

/// The mathematical content of `AnalysisResult`.
#[verifier::ext_equal]
pub struct ResultView {
    pub has_javascript: bool,
    pub has_auto_action: bool,
    pub has_obj_stm: bool,
    pub suspicious_names: Seq<Seq<char>>,
    pub hidden_content: bool,
    pub large_file_size: bool,
    pub suspicious_metadata: bool,
    pub unusual_objects: Seq<Seq<char>>,
    pub object_statistics: StatsView,
    pub severity_score: u32,
    pub javascript_objects: Seq<JsView>,
}

impl View for AnalysisResult {
    type V = ResultView;

    open spec fn view(&self) -> ResultView {
        ResultView {
            has_javascript: self.has_javascript,
            has_auto_action: self.has_auto_action,
            has_obj_stm: self.has_obj_stm,
            suspicious_names: self.suspicious_names.deep_view(),
            hidden_content: self.hidden_content,
            large_file_size: self.large_file_size,
            suspicious_metadata: self.suspicious_metadata,
            unusual_objects: self.unusual_objects.deep_view(),
            object_statistics: self.object_statistics@,
            severity_score: self.severity_score,
            javascript_objects: self.javascript_objects.deep_view(),
        }
    }
}

} // verus!
