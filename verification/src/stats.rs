//! Structural counts over one document snapshot, tallied in a single pass.

use vstd::prelude::*;
use vstd::string::StringSliceAdditionalSpecFns;

use crate::model::{obj_has_key, object_has_key, Document, Object};

verus! {

/// Aggregate counts over one document; purely a function of the document.
#[derive(Debug, PartialEq, Eq)]
pub struct ObjectStatistics {
    pub total_objects: usize,
    pub stream_objects: usize,
    pub js_objects: usize,
    pub obj_stm_objects: usize,
}

/// The mathematical content of `ObjectStatistics`.
#[verifier::ext_equal]
pub struct StatsView {
    pub total_objects: nat,
    pub stream_objects: nat,
    pub js_objects: nat,
    pub obj_stm_objects: nat,
}

impl View for ObjectStatistics {
    type V = StatsView;

    open spec fn view(&self) -> StatsView {
        StatsView {
            total_objects: self.total_objects as nat,
            stream_objects: self.stream_objects as nat,
            js_objects: self.js_objects as nat,
            obj_stm_objects: self.obj_stm_objects as nat,
        }
    }
}

/// Whether the object is a stream.
pub open spec fn is_stream(o: Object) -> bool {
    o matches Object::Stream(_)
}

/// Whether the object's dictionary carries a scripting key.
pub open spec fn has_js_key(o: Object) -> bool {
    obj_has_key(o, "JS".spec_bytes()) || obj_has_key(o, "JavaScript".spec_bytes())
}

/// Whether the object's dictionary carries the object-stream key.
pub open spec fn has_obj_stm_key(o: Object) -> bool {
    obj_has_key(o, "ObjStm".spec_bytes())
}

pub open spec fn count_stream_objects(objs: Seq<(u32, Object)>) -> nat
    decreases objs.len(),
{
    if objs.len() == 0 {
        0
    } else {
        count_stream_objects(objs.drop_last()) + (if is_stream(objs.last().1) {
            1nat
        } else {
            0nat
        })
    }
}

pub open spec fn count_js_objects(objs: Seq<(u32, Object)>) -> nat
    decreases objs.len(),
{
    if objs.len() == 0 {
        0
    } else {
        count_js_objects(objs.drop_last()) + (if has_js_key(objs.last().1) {
            1nat
        } else {
            0nat
        })
    }
}

pub open spec fn count_obj_stm_objects(objs: Seq<(u32, Object)>) -> nat
    decreases objs.len(),
{
    if objs.len() == 0 {
        0
    } else {
        count_obj_stm_objects(objs.drop_last()) + (if has_obj_stm_key(objs.last().1) {
            1nat
        } else {
            0nat
        })
    }
}

/// The statistics a document yields.
pub open spec fn spec_statistics(objs: Seq<(u32, Object)>) -> StatsView {
    StatsView {
        total_objects: objs.len(),
        stream_objects: count_stream_objects(objs),
        js_objects: count_js_objects(objs),
        obj_stm_objects: count_obj_stm_objects(objs),
    }
}

/// Tally all structural counts in one pass over the objects.
pub fn calculate_object_statistics(doc: &Document) -> (r: ObjectStatistics)
    ensures
        r@ == spec_statistics(doc.objects@),
{
    let n: usize = doc.objects.len();
    let mut stream_objects: usize = 0;
    let mut js_objects: usize = 0;
    let mut obj_stm_objects: usize = 0;
    let mut i: usize = 0;
    while i < n
        invariant
            n == doc.objects@.len(),
            i <= n,
            stream_objects == count_stream_objects(doc.objects@.take(i as int)),
            js_objects == count_js_objects(doc.objects@.take(i as int)),
            obj_stm_objects == count_obj_stm_objects(doc.objects@.take(i as int)),
            stream_objects <= i,
            js_objects <= i,
            obj_stm_objects <= i,
        decreases n - i,
    {
        let obj = &doc.objects[i].1;
        proof {
            let s = doc.objects@;
            assert(s.take(i + 1).drop_last() =~= s.take(i as int));
            assert(s.take(i + 1).last() == s[i as int]);
        }
        if matches!(obj, Object::Stream(_)) {
            stream_objects += 1;
        }
        if object_has_key(obj, "JS") || object_has_key(obj, "JavaScript") {
            js_objects += 1;
        }
        if object_has_key(obj, "ObjStm") {
            obj_stm_objects += 1;
        }
        i += 1;
    }
    proof {
        assert(doc.objects@.take(n as int) =~= doc.objects@);
    }
    ObjectStatistics { total_objects: n, stream_objects, js_objects, obj_stm_objects }
}

} // verus!
