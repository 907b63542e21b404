//! The document model the analysis runs over: an immutable object graph,
//! already resolved from raw bytes by an upstream parser.

use vstd::prelude::*;
use vstd::string::StringSliceAdditionalSpecFns;

verus! {

/// One entry of a dictionary: a byte-string key and its value.
pub struct DictEntry {
    pub key: Vec<u8>,
    pub value: Object,
}

/// An ordered mapping from byte-string keys to objects.
pub struct Dict {
    pub entries: Vec<DictEntry>,
}

/// A stream: a dictionary plus raw, possibly compressed, byte content.
/// The declared filter, if any, sits in the dictionary under `Filter`.
pub struct StreamObj {
    pub dict: Dict,
    pub content: Vec<u8>,
}

/// The tagged union of object kinds the analysis distinguishes.
pub enum Object {
    Null,
    Boolean(bool),
    Number(i64),
    Name(Vec<u8>),
    Str(Vec<u8>),
    Array(Vec<Object>),
    Dictionary(Dict),
    Stream(StreamObj),
    Reference(u32),
}

/// The finished object graph: objects addressable by id, the trailer
/// dictionary, and a size-in-bytes figure for the whole document.
pub struct Document {
    pub objects: Vec<(u32, Object)>,
    pub trailer: Dict,
    pub size_in_bytes: u64,
}

/// A dictionary is well formed when its keys are unique.
pub open spec fn dict_wf(d: Dict) -> bool {
    forall|i: int, j: int|
        0 <= i < j < d.entries@.len() ==> d.entries@[i].key@ != d.entries@[j].key@
}

/// A document is well formed when its object ids are unique.
pub open spec fn document_wf(doc: Document) -> bool {
    forall|i: int, j: int|
        0 <= i < j < doc.objects@.len() ==> doc.objects@[i].0 != doc.objects@[j].0
}

/// The first value bound to `key`, searching entries front to back.
pub open spec fn seq_dict_get(s: Seq<DictEntry>, key: Seq<u8>) -> Option<Object>
    decreases s.len(),
{
    if s.len() == 0 {
        None
    } else if s[0].key@ == key {
        Some(s[0].value)
    } else {
        seq_dict_get(s.drop_first(), key)
    }
}

/// The value a dictionary binds to `key`, if any.
pub open spec fn spec_dict_get(d: Dict, key: Seq<u8>) -> Option<Object> {
    seq_dict_get(d.entries@, key)
}

/// Whether a dictionary carries `key` at all.
pub open spec fn spec_dict_has(d: Dict, key: Seq<u8>) -> bool {
    spec_dict_get(d, key) is Some
}

/// The dictionary of an object: its own for a dictionary, the stream
/// dictionary for a stream, nothing for the other kinds.
pub open spec fn dict_of(o: Object) -> Option<Dict> {
    match o {
        Object::Dictionary(d) => Some(d),
        Object::Stream(s) => Some(s.dict),
        _ => None,
    }
}

/// Whether an object has a dictionary that carries `key`.
pub open spec fn obj_has_key(o: Object, key: Seq<u8>) -> bool {
    match dict_of(o) {
        Some(d) => spec_dict_has(d, key),
        None => false,
    }
}

proof fn lemma_seq_dict_get_at(s: Seq<DictEntry>, key: Seq<u8>, i: int)
    requires
        0 <= i < s.len(),
        s[i].key@ == key,
        forall|j: int| 0 <= j < i ==> s[j].key@ != key,
    ensures
        seq_dict_get(s, key) == Some(s[i].value),
    decreases i,
{
    if i > 0 {
        assert(forall|j: int|
            0 <= j < i - 1 ==> s.drop_first()[j] == s[j + 1] && s[j + 1].key@ != key);
        assert(s.drop_first()[i - 1] == s[i]);
        lemma_seq_dict_get_at(s.drop_first(), key, i - 1);
    }
}

proof fn lemma_seq_dict_get_absent(s: Seq<DictEntry>, key: Seq<u8>)
    requires
        forall|j: int| 0 <= j < s.len() ==> s[j].key@ != key,
    ensures
        seq_dict_get(s, key) is None,
    decreases s.len(),
{
    if s.len() > 0 {
        assert(forall|j: int|
            0 <= j < s.drop_first().len() ==> s.drop_first()[j] == s[j + 1]);
        lemma_seq_dict_get_absent(s.drop_first(), key);
    }
}

/// Byte-wise equality of a byte vector against a slice.
pub fn bytes_eq(a: &Vec<u8>, b: &[u8]) -> (r: bool)
    ensures
        r == (a@ == b@),
{
    if a.len() != b.len() {
        return false;
    }
    let n: usize = a.len();
    let mut i: usize = 0;
    while i < n
        invariant
            n == a@.len(),
            n == b@.len(),
            i <= n,
            forall|j: int| 0 <= j < i ==> a@[j] == b@[j],
        decreases n - i,
    {
        if a[i] != b[i] {
            return false;
        }
        i += 1;
    }
    proof {
        assert(a@ =~= b@);
    }
    true
}

/// The first value bound to an ASCII `key`, searching front to back.
pub fn dict_get<'a>(d: &'a Dict, key: &str) -> (r: Option<&'a Object>)
    ensures
        match r {
            Some(o) => spec_dict_get(*d, key.spec_bytes()) == Some(*o),
            None => spec_dict_get(*d, key.spec_bytes()) is None,
        },
{
    let key_bytes = key.as_bytes();
    let n: usize = d.entries.len();
    let mut i: usize = 0;
    while i < n
        invariant
            n == d.entries@.len(),
            i <= n,
            key_bytes@ == key.spec_bytes(),
            forall|j: int| 0 <= j < i ==> d.entries@[j].key@ != key.spec_bytes(),
        decreases n - i,
    {
        if bytes_eq(&d.entries[i].key, key_bytes) {
            proof {
                lemma_seq_dict_get_at(d.entries@, key.spec_bytes(), i as int);
            }
            return Some(&d.entries[i].value);
        }
        i += 1;
    }
    proof {
        lemma_seq_dict_get_absent(d.entries@, key.spec_bytes());
    }
    None
}

/// Whether a dictionary carries an ASCII `key`.
pub fn dict_has(d: &Dict, key: &str) -> (r: bool)
    ensures
        r == spec_dict_has(*d, key.spec_bytes()),
{
    dict_get(d, key).is_some()
}

/// The dictionary of an object, if it has one.
pub fn object_dict<'a>(o: &'a Object) -> (r: Option<&'a Dict>)
    ensures
        match r {
            Some(d) => dict_of(*o) == Some(*d),
            None => dict_of(*o) is None,
        },
{
    match o {
        Object::Dictionary(d) => Some(d),
        Object::Stream(s) => Some(&s.dict),
        _ => None,
    }
}

/// Whether an object has a dictionary carrying an ASCII `key`.
pub fn object_has_key(o: &Object, key: &str) -> (r: bool)
    ensures
        r == obj_has_key(*o, key.spec_bytes()),
{
    match object_dict(o) {
        Some(d) => dict_has(d, key),
        None => false,
    }
}

} // verus!
