use pdfscan::extract::JavaScriptObject;
use pdfscan::model::{dict_get, dict_has, Dict, DictEntry, Object};
use pdfscan::result::AnalysisResult;
use pdfscan::score::{calculate_severity_score, severity_label, severity_tier, verdict, Severity};
use pdfscan::stats::ObjectStatistics;

fn result_with(
    has_javascript: bool,
    suspicious_names: Vec<String>,
    unusual_objects: Vec<String>,
    js_objects: usize,
    obj_stm_objects: usize,
) -> AnalysisResult {
    AnalysisResult {
        has_javascript,
        has_auto_action: false,
        has_obj_stm: false,
        suspicious_names,
        hidden_content: false,
        large_file_size: false,
        suspicious_metadata: false,
        unusual_objects,
        object_statistics: ObjectStatistics {
            total_objects: 0,
            stream_objects: 0,
            js_objects,
            obj_stm_objects,
        },
        severity_score: 0,
        javascript_objects: Vec::<JavaScriptObject>::new(),
    }
}

#[test]
fn severity_score_exact_formula() {
    let mut r = result_with(
        true,
        vec!["a".to_string(), "b".to_string()],
        vec!["X".to_string()],
        2,
        3,
    );
    r.has_auto_action = true;
    r.has_obj_stm = true;
    r.hidden_content = true;
    r.large_file_size = true;
    r.suspicious_metadata = true;
    // 3 + 2 + 2 + 2 + 2 + 1 + 2 + 1 + 2*2 + 3 = 22
    assert_eq!(calculate_severity_score(&r), 22);
    assert_eq!(severity_tier(22), Severity::Critical);
}

#[test]
fn severity_score_is_deterministic() {
    let r = result_with(true, vec!["n".to_string()], vec![], 1, 0);
    let s1 = calculate_severity_score(&r);
    let s2 = calculate_severity_score(&r);
    assert_eq!(s1, s2);
    assert_eq!(s1, 6);
    assert_eq!(severity_tier(s1), severity_tier(s2));
}

#[test]
fn score_ignores_stored_severity_field() {
    let mut r = result_with(true, vec![], vec![], 0, 0);
    r.severity_score = 999;
    assert_eq!(calculate_severity_score(&r), 3);
}

#[test]
fn severity_tier_boundaries() {
    assert_eq!(severity_tier(0), Severity::Low);
    assert_eq!(severity_tier(2), Severity::Low);
    assert_eq!(severity_tier(3), Severity::Medium);
    assert_eq!(severity_tier(5), Severity::Medium);
    assert_eq!(severity_tier(6), Severity::High);
    assert_eq!(severity_tier(10), Severity::High);
    assert_eq!(severity_tier(11), Severity::Critical);
    assert_eq!(severity_tier(u32::MAX), Severity::Critical);
}

#[test]
fn severity_labels_and_verdicts() {
    assert_eq!(severity_label(Severity::Low), "Low");
    assert_eq!(severity_label(Severity::Medium), "Medium");
    assert_eq!(severity_label(Severity::High), "High");
    assert_eq!(severity_label(Severity::Critical), "Critical");
    assert_eq!(verdict(0), "Likely benign");
    assert_eq!(verdict(1), "Potentially malicious");
    assert_eq!(verdict(u32::MAX), "Potentially malicious");
}

#[test]
fn dict_get_returns_first_binding() {
    let d = Dict {
        entries: vec![
            DictEntry {
                key: "K".as_bytes().to_vec(),
                value: Object::Name("first".as_bytes().to_vec()),
            },
            DictEntry {
                key: "K".as_bytes().to_vec(),
                value: Object::Name("second".as_bytes().to_vec()),
            },
        ],
    };
    match dict_get(&d, "K") {
        Some(Object::Name(n)) => assert_eq!(n, "first".as_bytes()),
        other => panic!("unexpected lookup result: {:?}", other.is_some()),
    }
    assert!(dict_has(&d, "K"));
    assert!(!dict_has(&d, "Missing"));
}
