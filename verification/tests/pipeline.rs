use std::io::Write;

use pdfscan::analyze::analyze_pdf;
use pdfscan::config::{compile_config, default_config, CompiledConfig, Config};
use pdfscan::extract::JavaScriptObject;
use pdfscan::model::{Dict, DictEntry, Document, Object, StreamObj};
use pdfscan::score::{severity_tier, verdict, Severity};

fn entry(key: &str, value: Object) -> DictEntry {
    DictEntry { key: key.as_bytes().to_vec(), value }
}

fn dict(entries: Vec<DictEntry>) -> Dict {
    Dict { entries }
}

fn doc_of(objects: Vec<(u32, Object)>) -> Document {
    Document { objects, trailer: dict(vec![]), size_in_bytes: 0 }
}

fn compiled_default() -> CompiledConfig {
    compile_config(&default_config()).expect("default patterns compile")
}

fn zlib(data: &[u8]) -> Vec<u8> {
    let mut enc = flate2::write::ZlibEncoder::new(Vec::new(), flate2::Compression::default());
    enc.write_all(data).unwrap();
    enc.finish().unwrap()
}

#[test]
fn empty_document_scores_zero() {
    let doc = doc_of(vec![]);
    let cc = compiled_default();
    let r = analyze_pdf(&doc, &cc);
    assert_eq!(r.object_statistics.total_objects, 0);
    assert_eq!(r.object_statistics.stream_objects, 0);
    assert_eq!(r.object_statistics.js_objects, 0);
    assert_eq!(r.object_statistics.obj_stm_objects, 0);
    assert!(!r.has_javascript);
    assert!(!r.has_auto_action);
    assert!(!r.has_obj_stm);
    assert!(!r.hidden_content);
    assert!(!r.large_file_size);
    assert!(!r.suspicious_metadata);
    assert!(r.suspicious_names.is_empty());
    assert!(r.unusual_objects.is_empty());
    assert!(r.javascript_objects.is_empty());
    assert_eq!(r.severity_score, 0);
    assert_eq!(severity_tier(r.severity_score), Severity::Low);
    assert_eq!(verdict(r.severity_score), "Likely benign");
}

#[test]
fn scripting_plus_auto_action_scores_medium() {
    // The scripting mark comes from an S entry naming JavaScript, so the
    // scripting-object count stays zero and the score is exactly 3 + 2.
    let doc = doc_of(vec![
        (
            1,
            Object::Dictionary(dict(vec![entry(
                "S",
                Object::Name("JavaScript".as_bytes().to_vec()),
            )])),
        ),
        (2, Object::Dictionary(dict(vec![entry("OpenAction", Object::Null)]))),
    ]);
    let cc = compiled_default();
    let r = analyze_pdf(&doc, &cc);
    assert!(r.has_javascript);
    assert!(r.has_auto_action);
    assert_eq!(r.object_statistics.js_objects, 0);
    assert_eq!(r.severity_score, 5);
    assert_eq!(severity_tier(r.severity_score), Severity::Medium);
    assert_eq!(verdict(r.severity_score), "Potentially malicious");
}

#[test]
fn flate_script_is_extracted_exactly() {
    let doc = doc_of(vec![(
        7,
        Object::Stream(StreamObj {
            dict: dict(vec![
                entry("JS", Object::Null),
                entry("Filter", Object::Name("FlateDecode".as_bytes().to_vec())),
            ]),
            content: zlib(b"alert('x')"),
        }),
    )]);
    let cc = compiled_default();
    let r = analyze_pdf(&doc, &cc);
    assert_eq!(
        r.javascript_objects,
        vec![JavaScriptObject { id: 7, content: "alert('x')".to_string() }]
    );
    assert!(r.has_javascript);
    assert_eq!(r.object_statistics.stream_objects, 1);
    assert_eq!(r.object_statistics.js_objects, 1);
}

#[test]
fn unsupported_filter_is_skipped_without_error() {
    let doc = doc_of(vec![(
        3,
        Object::Stream(StreamObj {
            dict: dict(vec![
                entry("JS", Object::Null),
                entry("Filter", Object::Name("LZWDecode".as_bytes().to_vec())),
            ]),
            content: zlib(b"alert('x')"),
        }),
    )]);
    let cc = compiled_default();
    let r = analyze_pdf(&doc, &cc);
    assert!(r.javascript_objects.is_empty());
    // The dictionary key check still sees the scripting key.
    assert!(r.has_javascript);
}

#[test]
fn corrupt_flate_content_is_skipped_without_error() {
    let doc = doc_of(vec![(
        4,
        Object::Stream(StreamObj {
            dict: dict(vec![
                entry("JS", Object::Null),
                entry("Filter", Object::Name("FlateDecode".as_bytes().to_vec())),
            ]),
            content: vec![1, 2, 3],
        }),
    )]);
    let cc = compiled_default();
    let r = analyze_pdf(&doc, &cc);
    assert!(r.javascript_objects.is_empty());
    assert!(r.has_javascript);
}

#[test]
fn non_utf8_script_is_not_extracted() {
    let doc = doc_of(vec![(
        5,
        Object::Stream(StreamObj {
            dict: dict(vec![
                entry("JS", Object::Null),
                entry("Filter", Object::Name("FlateDecode".as_bytes().to_vec())),
            ]),
            content: zlib(&[0xff, 0xfe, 0x80]),
        }),
    )]);
    let cc = compiled_default();
    let r = analyze_pdf(&doc, &cc);
    assert!(r.javascript_objects.is_empty());
}

#[test]
fn file_size_threshold_boundary() {
    let cc = compiled_default();
    let mut over = doc_of(vec![]);
    over.size_in_bytes = 10_485_761;
    let r = analyze_pdf(&over, &cc);
    assert!(r.large_file_size);
    // The oversized flag contributes exactly 1 on an otherwise empty document.
    assert_eq!(r.severity_score, 1);

    let mut under = doc_of(vec![]);
    under.size_in_bytes = 10_485_759;
    let r = analyze_pdf(&under, &cc);
    assert!(!r.large_file_size);
    assert_eq!(r.severity_score, 0);

    let mut at = doc_of(vec![]);
    at.size_in_bytes = 10_485_760;
    let r = analyze_pdf(&at, &cc);
    assert!(!r.large_file_size);
}

#[test]
fn unusual_object_types_listed_once_each() {
    let doc = doc_of(vec![
        (1, Object::Dictionary(dict(vec![entry("Type", Object::Name("Font".as_bytes().to_vec()))]))),
        (
            2,
            Object::Dictionary(dict(vec![entry(
                "Type",
                Object::Name("EmbeddedFile".as_bytes().to_vec()),
            )])),
        ),
    ]);
    let cc = compiled_default();
    let r = analyze_pdf(&doc, &cc);
    assert_eq!(r.unusual_objects, vec!["EmbeddedFile".to_string()]);
}

#[test]
fn suspicious_names_and_strings_in_object_order() {
    let doc = doc_of(vec![
        (1, Object::Name("EvalScript".as_bytes().to_vec())),
        (2, Object::Name("benign".as_bytes().to_vec())),
        (3, Object::Str("please exec now".as_bytes().to_vec())),
    ]);
    let cc = compiled_default();
    let r = analyze_pdf(&doc, &cc);
    assert_eq!(
        r.suspicious_names,
        vec!["EvalScript".to_string(), "please exec now".to_string()]
    );
    assert_eq!(r.severity_score, 2);
}

#[test]
fn invalid_utf8_name_is_matched_through_lossy_text() {
    let mut bytes = vec![0xff];
    bytes.extend_from_slice("shellcode".as_bytes());
    let doc = doc_of(vec![(1, Object::Name(bytes))]);
    let cc = compiled_default();
    let r = analyze_pdf(&doc, &cc);
    assert_eq!(r.suspicious_names, vec![format!("{}shellcode", '\u{FFFD}')]);
}

#[test]
fn stream_content_scan_appends_synthetic_finding() {
    let doc = doc_of(vec![(
        1,
        Object::Stream(StreamObj {
            dict: dict(vec![entry("Filter", Object::Name("FlateDecode".as_bytes().to_vec()))]),
            content: zlib(b"launch shell now"),
        }),
    )]);
    let cc = compiled_default();
    let r = analyze_pdf(&doc, &cc);
    assert_eq!(r.suspicious_names, vec!["Suspicious content in stream".to_string()]);
    assert_eq!(r.severity_score, 1);
}

#[test]
fn obj_stm_hidden_content_and_auto_action_weights() {
    let doc = doc_of(vec![(1, Object::Dictionary(dict(vec![entry("ObjStm", Object::Null)])))]);
    let cc = compiled_default();
    let r = analyze_pdf(&doc, &cc);
    assert!(r.has_obj_stm);
    assert_eq!(r.object_statistics.obj_stm_objects, 1);
    // 2 for the marker plus 1 per carrying object.
    assert_eq!(r.severity_score, 3);

    let doc = doc_of(vec![(1, Object::Dictionary(dict(vec![entry("OCGs", Object::Null)])))]);
    let r = analyze_pdf(&doc, &cc);
    assert!(r.hidden_content);
    assert_eq!(r.severity_score, 2);

    let doc = doc_of(vec![(1, Object::Dictionary(dict(vec![entry("AA", Object::Null)])))]);
    let r = analyze_pdf(&doc, &cc);
    assert!(r.has_auto_action);
    assert_eq!(r.severity_score, 2);
}

#[test]
fn metadata_known_good_producer_not_flagged() {
    let mut doc = doc_of(vec![]);
    doc.trailer = dict(vec![entry(
        "Info",
        Object::Dictionary(dict(vec![entry(
            "Producer",
            Object::Str("Adobe Acrobat".as_bytes().to_vec()),
        )])),
    )]);
    let cc = compiled_default();
    let r = analyze_pdf(&doc, &cc);
    assert!(!r.suspicious_metadata);
}

#[test]
fn metadata_unknown_producer_flagged() {
    let mut doc = doc_of(vec![]);
    doc.trailer = dict(vec![entry(
        "Info",
        Object::Dictionary(dict(vec![entry(
            "Producer",
            Object::Str("EvilSoft 3000".as_bytes().to_vec()),
        )])),
    )]);
    let cc = compiled_default();
    let r = analyze_pdf(&doc, &cc);
    assert!(r.suspicious_metadata);
    assert_eq!(r.severity_score, 2);
}

#[test]
fn metadata_reference_info_is_not_followed() {
    let mut doc = doc_of(vec![]);
    doc.trailer = dict(vec![entry("Info", Object::Reference(12))]);
    let cc = compiled_default();
    let r = analyze_pdf(&doc, &cc);
    assert!(!r.suspicious_metadata);
}

#[test]
fn empty_pattern_list_never_matches() {
    let config = Config {
        file_size_threshold: 10_485_760,
        suspicious_patterns: vec![],
        suspicious_metadata_patterns: vec![],
    };
    let cc = compile_config(&config).expect("empty lists compile to never-matching");
    let doc = doc_of(vec![(1, Object::Name("eval".as_bytes().to_vec()))]);
    let r = analyze_pdf(&doc, &cc);
    assert!(r.suspicious_names.is_empty());

    // With no known-good pattern, every Info string entry counts as unmatched.
    let mut doc = doc_of(vec![]);
    doc.trailer = dict(vec![entry(
        "Info",
        Object::Dictionary(dict(vec![entry(
            "Producer",
            Object::Str("Adobe Acrobat".as_bytes().to_vec()),
        )])),
    )]);
    let r = analyze_pdf(&doc, &cc);
    assert!(r.suspicious_metadata);
}

#[test]
fn invalid_configured_pattern_fails_at_startup() {
    let config = Config {
        file_size_threshold: 10_485_760,
        suspicious_patterns: vec!["(".to_string()],
        suspicious_metadata_patterns: vec![],
    };
    assert!(compile_config(&config).is_none());
}

#[test]
fn oversized_decompressed_stream_is_a_decode_error() {
    let huge = vec![b'a'; 64 * 1024 * 1024 + 1];
    let doc = doc_of(vec![(
        9,
        Object::Stream(StreamObj {
            dict: dict(vec![
                entry("JS", Object::Null),
                entry("Filter", Object::Name("FlateDecode".as_bytes().to_vec())),
            ]),
            content: zlib(&huge),
        }),
    )]);
    let cc = compiled_default();
    let r = analyze_pdf(&doc, &cc);
    assert!(r.javascript_objects.is_empty());
    assert!(r.has_javascript);
}

#[test]
fn pipeline_round_trip_is_byte_identical() {
    let doc = doc_of(vec![
        (
            1,
            Object::Stream(StreamObj {
                dict: dict(vec![
                    entry("JS", Object::Null),
                    entry("Filter", Object::Name("FlateDecode".as_bytes().to_vec())),
                ]),
                content: zlib(b"eval(payload)"),
            }),
        ),
        (2, Object::Name("spawnHelper".as_bytes().to_vec())),
        (3, Object::Dictionary(dict(vec![entry("OpenAction", Object::Null)]))),
        (
            4,
            Object::Dictionary(dict(vec![entry(
                "Type",
                Object::Name("EmbeddedFile".as_bytes().to_vec()),
            )])),
        ),
    ]);
    let cc = compiled_default();
    let first = analyze_pdf(&doc, &cc);
    let second = analyze_pdf(&doc, &cc);
    assert_eq!(first, second);

    // A freshly compiled identical configuration changes nothing either.
    let cc2 = compiled_default();
    let third = analyze_pdf(&doc, &cc2);
    assert_eq!(first, third);
}
