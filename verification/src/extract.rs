//! Flate-backed inspection: extraction of embedded script text, and the scan
//! of decompressed stream content for suspicious substrings.

use vstd::prelude::*;
use vstd::string::StringSliceAdditionalSpecFns;
use vstd::utf8::{decode_utf8, valid_utf8};

use crate::decode::{decode_flate, lossy_decoded, spec_decoded, utf8_decode, utf8_lossy};
use crate::model::{bytes_eq, dict_get, object_has_key, spec_dict_get, Document, Object};
use crate::pattern::{matcher_is_match, matcher_view, pattern_matches, Matcher};
use crate::stats::has_js_key;

verus! {

/// One extracted script: the carrying object's id and the decoded text.
#[derive(Debug, PartialEq, Eq)]
pub struct JavaScriptObject {
    pub id: u32,
    pub content: String,
}

/// The mathematical content of `JavaScriptObject`.
#[verifier::ext_equal]
pub struct JsView {
    pub id: u32,
    pub content: Seq<char>,
}

impl DeepView for JavaScriptObject {
    type V = JsView;

    open spec fn deep_view(&self) -> JsView {
        JsView { id: self.id, content: self.content@ }
    }
}

/// The declared filter of a stream object: the name its dictionary binds to
/// `Filter`, if there is one.
pub open spec fn filter_name_of(o: Object) -> Option<Seq<u8>> {
    match o {
        Object::Stream(s) => match spec_dict_get(s.dict, "Filter".spec_bytes()) {
            Some(v) => match v {
                Object::Name(n) => Some(n@),
                _ => None,
            },
            None => None,
        },
        _ => None,
    }
}

/// The script record an object contributes: only a stream whose dictionary
/// carries a scripting key, declares the Flate filter, and whose content
/// decompresses to valid UTF-8 yields one.
pub open spec fn extracted_js_of(id: u32, o: Object) -> Option<JsView> {
    if has_js_key(o) {
        match o {
            Object::Stream(s) => if filter_name_of(o) == Some("FlateDecode".spec_bytes()) {
                match spec_decoded(s.content@) {
                    Some(b) => if valid_utf8(b) {
                        Some(JsView { id, content: decode_utf8(b) })
                    } else {
                        None
                    },
                    None => None,
                }
            } else {
                None
            },
            _ => None,
        }
    } else {
        None
    }
}

/// All extracted scripts, in object order.
pub open spec fn spec_javascript_objects(objs: Seq<(u32, Object)>) -> Seq<JsView>
    decreases objs.len(),
{
    if objs.len() == 0 {
        Seq::empty()
    } else {
        spec_javascript_objects(objs.drop_last()) + (match extracted_js_of(
            objs.last().0,
            objs.last().1,
        ) {
            Some(j) => seq![j],
            None => Seq::<JsView>::empty(),
        })
    }
}

fn object_extract_js(id: u32, o: &Object) -> (r: Option<JavaScriptObject>)
    ensures
        match r {
            Some(j) => extracted_js_of(id, *o) == Some(j.deep_view()),
            None => extracted_js_of(id, *o) is None,
        },
{
    if !(object_has_key(o, "JS") || object_has_key(o, "JavaScript")) {
        return None;
    }
    let s = match o {
        Object::Stream(s) => s,
        _ => {
            return None;
        },
    };
    let is_flate = match dict_get(&s.dict, "Filter") {
        Some(v) => match v {
            Object::Name(n) => bytes_eq(n, "FlateDecode".as_bytes()),
            _ => false,
        },
        None => false,
    };
    if !is_flate {
        return None;
    }
    let decoded = match decode_flate(&s.content) {
        Some(b) => b,
        None => {
            return None;
        },
    };
    match utf8_decode(&decoded) {
        Some(text) => Some(JavaScriptObject { id, content: text }),
        None => None,
    }
}

/// Extract the script text of every scripting stream whose Flate content
/// decompresses to valid UTF-8; streams with another or no filter, corrupt
/// content, or non-UTF-8 text are skipped without error.
pub fn find_javascript_objects(doc: &Document) -> (r: Vec<JavaScriptObject>)
    ensures
        r.deep_view() == spec_javascript_objects(doc.objects@),
{
    let mut found: Vec<JavaScriptObject> = Vec::new();
    let n: usize = doc.objects.len();
    let mut i: usize = 0;
    while i < n
        invariant
            n == doc.objects@.len(),
            i <= n,
            found.deep_view() == spec_javascript_objects(doc.objects@.take(i as int)),
        decreases n - i,
    {
        let ghost prev = found.deep_view();
        let id = doc.objects[i].0;
        match object_extract_js(id, &doc.objects[i].1) {
            Some(j) => {
                found.push(j);
            },
            None => {},
        }
        proof {
            let s = doc.objects@;
            assert(s.take(i + 1).drop_last() =~= s.take(i as int));
            assert(s.take(i + 1).last() == s[i as int]);
            match extracted_js_of(s[i as int].0, s[i as int].1) {
                Some(j) => {
                    assert(found.deep_view() =~= prev + seq![j]);
                },
                None => {
                    assert(found.deep_view() =~= prev + Seq::<JsView>::empty());
                },
            }
        }
        i += 1;
    }
    proof {
        assert(doc.objects@.take(n as int) =~= doc.objects@);
    }
    found
}

/// Whether a stream's Flate-decoded content matches the suspicious pattern.
pub open spec fn stream_content_hit(o: Object, mv: Option<Seq<char>>) -> bool {
    match o {
        Object::Stream(s) => filter_name_of(o) == Some("FlateDecode".spec_bytes()) && (
        match spec_decoded(s.content@) {
            Some(b) => pattern_matches(mv, lossy_decoded(b)),
            None => false,
        }),
        _ => false,
    }
}

/// One synthetic finding per matching stream, in object order; the finding
/// names no object id.
pub open spec fn spec_stream_findings(objs: Seq<(u32, Object)>, mv: Option<Seq<char>>) -> Seq<
    Seq<char>,
>
    decreases objs.len(),
{
    if objs.len() == 0 {
        Seq::empty()
    } else {
        spec_stream_findings(objs.drop_last(), mv) + (if stream_content_hit(objs.last().1, mv) {
            seq!["Suspicious content in stream"@]
        } else {
            Seq::<Seq<char>>::empty()
        })
    }
}

fn object_stream_hit(o: &Object, m: &Matcher) -> (r: bool)
    ensures
        r == stream_content_hit(*o, matcher_view(*m)),
{
    let s = match o {
        Object::Stream(s) => s,
        _ => {
            return false;
        },
    };
    let is_flate = match dict_get(&s.dict, "Filter") {
        Some(v) => match v {
            Object::Name(n) => bytes_eq(n, "FlateDecode".as_bytes()),
            _ => false,
        },
        None => false,
    };
    if !is_flate {
        return false;
    }
    match decode_flate(&s.content) {
        Some(b) => {
            let text = utf8_lossy(&b);
            matcher_is_match(m, &text)
        },
        None => false,
    }
}

/// Scan every Flate stream's decompressed content against the suspicious
/// pattern and append one synthetic finding per match to `names`; corrupt or
/// differently filtered streams are skipped without error.
pub fn analyze_streams(doc: &Document, m: &Matcher, names: &mut Vec<String>)
    ensures
        final (names).deep_view() == old(names).deep_view() + spec_stream_findings(
            doc.objects@,
            matcher_view(*m),
        ),
{
    let ghost base = names.deep_view();
    let n: usize = doc.objects.len();
    let mut i: usize = 0;
    while i < n
        invariant
            n == doc.objects@.len(),
            i <= n,
            names.deep_view() == base + spec_stream_findings(
                doc.objects@.take(i as int),
                matcher_view(*m),
            ),
        decreases n - i,
    {
        let ghost prev = names.deep_view();
        if object_stream_hit(&doc.objects[i].1, m) {
            names.push("Suspicious content in stream".to_owned());
        }
        proof {
            let s = doc.objects@;
            assert(s.take(i + 1).drop_last() =~= s.take(i as int));
            assert(s.take(i + 1).last() == s[i as int]);
            if stream_content_hit(s[i as int].1, matcher_view(*m)) {
                assert(names.deep_view() =~= prev + seq!["Suspicious content in stream"@]);
            } else {
                assert(names.deep_view() =~= prev + Seq::<Seq<char>>::empty());
            }
            assert(prev + (if stream_content_hit(s[i as int].1, matcher_view(*m)) {
                seq!["Suspicious content in stream"@]
            } else {
                Seq::<Seq<char>>::empty()
            }) =~= base + spec_stream_findings(s.take(i + 1), matcher_view(*m)));
        }
        i += 1;
    }
    proof {
        assert(doc.objects@.take(n as int) =~= doc.objects@);
    }
}

} // verus!
