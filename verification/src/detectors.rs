//! Indicator detectors: independent, side-effect-free scans of the object
//! graph, each for one class of threat indicator.

use vstd::prelude::*;
use vstd::string::StringSliceAdditionalSpecFns;

use crate::decode::{lossy_decoded, utf8_lossy};
use crate::model::{
    bytes_eq, dict_get, dict_has, dict_of, obj_has_key, object_dict, object_has_key,
    spec_dict_get, Dict, DictEntry, Document, Object,
};
use crate::pattern::{matcher_is_match, matcher_view, pattern_matches, Matcher};

verus! {

/// Whether the object is a name spelling out a scripting language.
pub open spec fn is_scripting_language_name(o: Object) -> bool {
    match o {
        Object::Name(n) => n@ == "JavaScript".spec_bytes(),
        _ => false,
    }
}

/// Whether the object's dictionary marks scripting: a script key, a
/// script-type key, or a subtype-like key naming a scripting language.
pub open spec fn marks_javascript(o: Object) -> bool {
    ||| obj_has_key(o, "JS".spec_bytes())
    ||| obj_has_key(o, "JavaScript".spec_bytes())
    ||| match dict_of(o) {
        Some(d) => match spec_dict_get(d, "S".spec_bytes()) {
            Some(v) => is_scripting_language_name(v),
            None => false,
        },
        None => false,
    }
}

/// Whether the object's dictionary carries an additional-actions or
/// open-action key.
pub open spec fn marks_auto_action(o: Object) -> bool {
    obj_has_key(o, "AA".spec_bytes()) || obj_has_key(o, "OpenAction".spec_bytes())
}

/// Whether the object's dictionary carries the object-stream key.
pub open spec fn marks_obj_stm(o: Object) -> bool {
    obj_has_key(o, "ObjStm".spec_bytes())
}

/// Whether the object's dictionary carries an optional-content-group key.
pub open spec fn marks_hidden_content(o: Object) -> bool {
    obj_has_key(o, "OCG".spec_bytes()) || obj_has_key(o, "OCGs".spec_bytes())
}

pub open spec fn spec_has_javascript(doc: Document) -> bool {
    exists|i: int| 0 <= i < doc.objects@.len() && marks_javascript(doc.objects@[i].1)
}

pub open spec fn spec_has_auto_action(doc: Document) -> bool {
    exists|i: int| 0 <= i < doc.objects@.len() && marks_auto_action(doc.objects@[i].1)
}

pub open spec fn spec_has_obj_stm(doc: Document) -> bool {
    exists|i: int| 0 <= i < doc.objects@.len() && marks_obj_stm(doc.objects@[i].1)
}

pub open spec fn spec_has_hidden_content(doc: Document) -> bool {
    exists|i: int| 0 <= i < doc.objects@.len() && marks_hidden_content(doc.objects@[i].1)
}

fn object_marks_javascript(o: &Object) -> (r: bool)
    ensures
        r == marks_javascript(*o),
{
    if object_has_key(o, "JS") || object_has_key(o, "JavaScript") {
        return true;
    }
    match object_dict(o) {
        Some(d) => match dict_get(d, "S") {
            Some(v) => match v {
                Object::Name(n) => bytes_eq(n, "JavaScript".as_bytes()),
                _ => false,
            },
            None => false,
        },
        None => false,
    }
}

/// Whether any object's dictionary marks scripting.
pub fn check_for_javascript(doc: &Document) -> (r: bool)
    ensures
        r == spec_has_javascript(*doc),
{
    let n: usize = doc.objects.len();
    let mut i: usize = 0;
    while i < n
        invariant
            n == doc.objects@.len(),
            i <= n,
            forall|j: int| 0 <= j < i ==> !marks_javascript(doc.objects@[j].1),
        decreases n - i,
    {
        if object_marks_javascript(&doc.objects[i].1) {
            return true;
        }
        i += 1;
    }
    false
}

/// Whether any object's dictionary carries an auto-execution key.
pub fn check_for_auto_action(doc: &Document) -> (r: bool)
    ensures
        r == spec_has_auto_action(*doc),
{
    let n: usize = doc.objects.len();
    let mut i: usize = 0;
    while i < n
        invariant
            n == doc.objects@.len(),
            i <= n,
            forall|j: int| 0 <= j < i ==> !marks_auto_action(doc.objects@[j].1),
        decreases n - i,
    {
        let obj = &doc.objects[i].1;
        if object_has_key(obj, "AA") || object_has_key(obj, "OpenAction") {
            return true;
        }
        i += 1;
    }
    false
}

/// Whether any object's dictionary carries the object-stream key.
pub fn check_for_obj_stm(doc: &Document) -> (r: bool)
    ensures
        r == spec_has_obj_stm(*doc),
{
    let n: usize = doc.objects.len();
    let mut i: usize = 0;
    while i < n
        invariant
            n == doc.objects@.len(),
            i <= n,
            forall|j: int| 0 <= j < i ==> !marks_obj_stm(doc.objects@[j].1),
        decreases n - i,
    {
        if object_has_key(&doc.objects[i].1, "ObjStm") {
            return true;
        }
        i += 1;
    }
    false
}

/// Whether any object's dictionary carries an optional-content-group key.
pub fn check_for_hidden_content(doc: &Document) -> (r: bool)
    ensures
        r == spec_has_hidden_content(*doc),
{
    let n: usize = doc.objects.len();
    let mut i: usize = 0;
    while i < n
        invariant
            n == doc.objects@.len(),
            i <= n,
            forall|j: int| 0 <= j < i ==> !marks_hidden_content(doc.objects@[j].1),
        decreases n - i,
    {
        let obj = &doc.objects[i].1;
        if object_has_key(obj, "OCG") || object_has_key(obj, "OCGs") {
            return true;
        }
        i += 1;
    }
    false
}

/// Whether the document's size figure exceeds the configured threshold.
pub fn check_file_size(doc: &Document, file_size_threshold: u64) -> (r: bool)
    ensures
        r == (doc.size_in_bytes > file_size_threshold),
{
    doc.size_in_bytes > file_size_threshold
}

/// The byte content of a name or string object.
pub open spec fn name_or_string_bytes(o: Object) -> Option<Seq<u8>> {
    match o {
        Object::Name(b) => Some(b@),
        Object::Str(b) => Some(b@),
        _ => None,
    }
}

/// The decoded text a name or string object contributes when the pattern
/// matches it.
pub open spec fn suspicious_text_of(o: Object, mv: Option<Seq<char>>) -> Option<Seq<char>> {
    match name_or_string_bytes(o) {
        Some(b) => if pattern_matches(mv, lossy_decoded(b)) {
            Some(lossy_decoded(b))
        } else {
            None
        },
        None => None,
    }
}

/// The texts of all name and string objects the pattern matches, in object
/// order.
pub open spec fn spec_suspicious_names(objs: Seq<(u32, Object)>, mv: Option<Seq<char>>) -> Seq<
    Seq<char>,
>
    decreases objs.len(),
{
    if objs.len() == 0 {
        Seq::empty()
    } else {
        spec_suspicious_names(objs.drop_last(), mv) + (match suspicious_text_of(
            objs.last().1,
            mv,
        ) {
            Some(t) => seq![t],
            None => Seq::<Seq<char>>::empty(),
        })
    }
}

/// Collect the decoded texts of name and string objects the configured
/// pattern matches.
pub fn check_for_suspicious_names(doc: &Document, m: &Matcher) -> (r: Vec<String>)
    ensures
        r.deep_view() == spec_suspicious_names(doc.objects@, matcher_view(*m)),
{
    let mut found: Vec<String> = Vec::new();
    let n: usize = doc.objects.len();
    let mut i: usize = 0;
    while i < n
        invariant
            n == doc.objects@.len(),
            i <= n,
            found.deep_view() == spec_suspicious_names(
                doc.objects@.take(i as int),
                matcher_view(*m),
            ),
        decreases n - i,
    {
        let ghost prev = found.deep_view();
        let obj = &doc.objects[i].1;
        let bytes: Option<&Vec<u8>> = match obj {
            Object::Name(b) => Some(b),
            Object::Str(b) => Some(b),
            _ => None,
        };
        match bytes {
            Some(b) => {
                let text = utf8_lossy(b);
                if matcher_is_match(m, &text) {
                    found.push(text);
                }
            },
            None => {},
        }
        proof {
            let s = doc.objects@;
            assert(s.take(i + 1).drop_last() =~= s.take(i as int));
            assert(s.take(i + 1).last() == s[i as int]);
            match suspicious_text_of(s[i as int].1, matcher_view(*m)) {
                Some(t) => {
                    assert(found.deep_view() =~= prev + seq![t]);
                },
                None => {
                    assert(found.deep_view() =~= prev + Seq::<Seq<char>>::empty());
                },
            }
        }
        i += 1;
    }
    proof {
        assert(doc.objects@.take(n as int) =~= doc.objects@);
    }
    found
}

/// The type names the detector recognizes as ordinary.
pub open spec fn allowed_type_name(n: Seq<u8>) -> bool {
    ||| n == "Catalog".spec_bytes()
    ||| n == "Pages".spec_bytes()
    ||| n == "Page".spec_bytes()
    ||| n == "Font".spec_bytes()
    ||| n == "XObject".spec_bytes()
    ||| n == "Metadata".spec_bytes()
}

/// The decoded type name an object contributes when its declared type is
/// outside the allow-list.
pub open spec fn unusual_type_of(o: Object) -> Option<Seq<char>> {
    match dict_of(o) {
        Some(d) => match spec_dict_get(d, "Type".spec_bytes()) {
            Some(v) => match v {
                Object::Name(n) => if !allowed_type_name(n@) {
                    Some(lossy_decoded(n@))
                } else {
                    None
                },
                _ => None,
            },
            None => None,
        },
        None => None,
    }
}

/// The unrecognized type names, in object order, one per carrying object.
pub open spec fn spec_unusual_objects(objs: Seq<(u32, Object)>) -> Seq<Seq<char>>
    decreases objs.len(),
{
    if objs.len() == 0 {
        Seq::empty()
    } else {
        spec_unusual_objects(objs.drop_last()) + (match unusual_type_of(objs.last().1) {
            Some(t) => seq![t],
            None => Seq::<Seq<char>>::empty(),
        })
    }
}

fn object_unusual_type<'a>(o: &'a Object) -> (r: Option<&'a Vec<u8>>)
    ensures
        match r {
            Some(n) => unusual_type_of(*o) == Some(lossy_decoded(n@)),
            None => unusual_type_of(*o) is None,
        },
{
    match object_dict(o) {
        Some(d) => match dict_get(d, "Type") {
            Some(v) => match v {
                Object::Name(n) => {
                    let allowed = bytes_eq(n, "Catalog".as_bytes()) || bytes_eq(
                        n,
                        "Pages".as_bytes(),
                    ) || bytes_eq(n, "Page".as_bytes()) || bytes_eq(n, "Font".as_bytes())
                        || bytes_eq(n, "XObject".as_bytes()) || bytes_eq(n, "Metadata".as_bytes());
                    if allowed {
                        None
                    } else {
                        Some(n)
                    }
                },
                _ => None,
            },
            None => None,
        },
        None => None,
    }
}

/// Collect the declared type names outside the allow-list.
pub fn check_for_unusual_objects(doc: &Document) -> (r: Vec<String>)
    ensures
        r.deep_view() == spec_unusual_objects(doc.objects@),
{
    let mut found: Vec<String> = Vec::new();
    let n: usize = doc.objects.len();
    let mut i: usize = 0;
    while i < n
        invariant
            n == doc.objects@.len(),
            i <= n,
            found.deep_view() == spec_unusual_objects(doc.objects@.take(i as int)),
        decreases n - i,
    {
        let ghost prev = found.deep_view();
        match object_unusual_type(&doc.objects[i].1) {
            Some(name_bytes) => {
                let text = utf8_lossy(name_bytes);
                found.push(text);
            },
            None => {},
        }
        proof {
            let s = doc.objects@;
            assert(s.take(i + 1).drop_last() =~= s.take(i as int));
            assert(s.take(i + 1).last() == s[i as int]);
            match unusual_type_of(s[i as int].1) {
                Some(t) => {
                    assert(found.deep_view() =~= prev + seq![t]);
                },
                None => {
                    assert(found.deep_view() =~= prev + Seq::<Seq<char>>::empty());
                },
            }
        }
        i += 1;
    }
    proof {
        assert(doc.objects@.take(n as int) =~= doc.objects@);
    }
    found
}

/// The trailer's Info entry, when it carries a dictionary directly.
pub open spec fn info_dict_of(doc: Document) -> Option<Dict> {
    match spec_dict_get(doc.trailer, "Info".spec_bytes()) {
        Some(o) => dict_of(o),
        None => None,
    }
}

/// Whether an Info entry is flagged: a string value that the known-good
/// pattern does not match.
pub open spec fn entry_flags_metadata(e: DictEntry, mv: Option<Seq<char>>) -> bool {
    match e.value {
        Object::Str(b) => !pattern_matches(mv, lossy_decoded(b@)),
        _ => false,
    }
}

/// Whether any entry of the dictionary is flagged.
pub open spec fn dict_flags_metadata(d: Dict, mv: Option<Seq<char>>) -> bool {
    exists|i: int| 0 <= i < d.entries@.len() && entry_flags_metadata(d.entries@[i], mv)
}

/// Whether the Info dictionary, if present, has any string entry the
/// known-good pattern does not match.
pub open spec fn spec_suspicious_metadata(doc: Document, mv: Option<Seq<char>>) -> bool {
    match info_dict_of(doc) {
        Some(d) => dict_flags_metadata(d, mv),
        None => false,
    }
}

/// Check the Info dictionary's string entries against the known-good
/// pattern; an absent Info dictionary is never flagged.
pub fn check_metadata(doc: &Document, m: &Matcher) -> (r: bool)
    ensures
        r == spec_suspicious_metadata(*doc, matcher_view(*m)),
{
    let info = match dict_get(&doc.trailer, "Info") {
        Some(o) => o,
        None => {
            return false;
        },
    };
    let d = match object_dict(info) {
        Some(d) => d,
        None => {
            return false;
        },
    };
    let n: usize = d.entries.len();
    let mut i: usize = 0;
    while i < n
        invariant
            n == d.entries@.len(),
            i <= n,
            info_dict_of(*doc) == Some(*d),
            forall|j: int| 0 <= j < i ==> !entry_flags_metadata(d.entries@[j], matcher_view(*m)),
        decreases n - i,
    {
        match &d.entries[i].value {
            Object::Str(b) => {
                let text = utf8_lossy(b);
                if !matcher_is_match(m, &text) {
                    proof {
                        let mv = matcher_view(*m);
                        let idx = i as int;
                        assert(entry_flags_metadata(d.entries@[idx], mv));
                        assert(dict_flags_metadata(*d, mv));
                    }
                    return true;
                }
            },
            _ => {},
        }
        i += 1;
    }
    false
}

} // verus!
