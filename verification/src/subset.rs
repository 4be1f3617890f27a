use vstd::prelude::*;

use crate::value::{bytes_eq, obj_first_index, obj_get, obj_lookup, JsonValue};

verus! {

/// What it means for `sub` to be a legal redaction of `sup`:
/// `null` replaces anything; booleans, numbers and strings must match
/// exactly; arrays keep their length and redact element-wise; an object may
/// omit keys, and every key it keeps must exist in `sup` with a legally
/// redacted value.  Nothing may be added, moved or reordered.
pub open spec fn is_subset_of(sub: JsonValue, sup: JsonValue) -> bool
    decreases sub,
{
    match sub {
        JsonValue::Null => true,
        JsonValue::Bool(a) => sup matches JsonValue::Bool(b) && a == b,
        JsonValue::UInt(a) => sup matches JsonValue::UInt(b) && a == b,
        JsonValue::NumText(a) => sup matches JsonValue::NumText(b) && a@ == b@,
        JsonValue::Str(a) => sup matches JsonValue::Str(b) && a@ == b@,
        JsonValue::Array(a) => sup matches JsonValue::Array(b) && a@.len() == b@.len()
            && (forall|i: int| 0 <= i < a@.len() ==> is_subset_of(#[trigger] a@[i], b@[i])),
        JsonValue::Object(a) => sup matches JsonValue::Object(b) && (forall|i: int|
            0 <= i < a@.len() ==> match obj_get(b@, (#[trigger] a@[i]).0@) {
                Some(v) => is_subset_of(a@[i].1, v),
                None => false,
            }),
    }
}

/// Decides whether `subset` is a valid filtered view of `superset`.
///
/// Filtering primitives: object key omission and replacement of any value by
/// `null`.  Array elements may be nulled but never dropped, so positional
/// meaning is preserved.
#[verifier::loop_isolation(false)]
pub fn is_json_subset(subset: &JsonValue, superset: &JsonValue) -> (r: bool)
    ensures
        r == is_subset_of(*subset, *superset),
    decreases *subset,
{
    match (subset, superset) {
        (JsonValue::Null, _) => true,
        (JsonValue::Bool(a), JsonValue::Bool(b)) => *a == *b,
        (JsonValue::UInt(a), JsonValue::UInt(b)) => *a == *b,
        (JsonValue::NumText(a), JsonValue::NumText(b)) => bytes_eq(a, b),
        (JsonValue::Str(a), JsonValue::Str(b)) => bytes_eq(a, b),
        (JsonValue::Array(a), JsonValue::Array(b)) => {
            if a.len() != b.len() {
                return false;
            }
            let mut i: usize = 0;
            while i < a.len()
                invariant
                    i <= a.len(),
                    a.len() == b.len(),
                    subset == JsonValue::Array(*a),
                    superset == JsonValue::Array(*b),
                    forall|j: int| 0 <= j < i ==> is_subset_of(#[trigger] a@[j], b@[j]),
                decreases a.len() - i,
            {
                if !is_json_subset(&a[i], &b[i]) {
                    return false;
                }
                i += 1;
            }
            true
        },
        (JsonValue::Object(a), JsonValue::Object(b)) => {
            let mut i: usize = 0;
            while i < a.len()
                invariant
                    i <= a.len(),
                    subset == JsonValue::Object(*a),
                    superset == JsonValue::Object(*b),
                    forall|j: int| 0 <= j < i ==> match obj_get(b@, (#[trigger] a@[j]).0@) {
                        Some(v) => is_subset_of(a@[j].1, v),
                        None => false,
                    },
                decreases a.len() - i,
            {
                match obj_lookup(b, &a[i].0) {
                    Some(v) => {
                        if !is_json_subset(&a[i].1, v) {
                            return false;
                        }
                    },
                    None => {
                        return false;
                    },
                }
                i += 1;
            }
            true
        },
        _ => false,
    }
}

/// No object, at any depth, binds the same key twice.  Both the parser and
/// the conversions that build a `JsonValue` keep this.
pub open spec fn json_wf(v: JsonValue) -> bool
    decreases v,
{
    match v {
        JsonValue::Array(a) => forall|i: int| 0 <= i < a@.len() ==> json_wf(#[trigger] a@[i]),
        JsonValue::Object(a) => (forall|i: int, j: int|
            0 <= i < j < a@.len() ==> (#[trigger] a@[i]).0@ != (#[trigger] a@[j]).0@)
            && (forall|i: int| 0 <= i < a@.len() ==> json_wf((#[trigger] a@[i]).1)),
        _ => true,
    }
}

/// Law: every value without duplicate object keys is a subset of itself.
pub proof fn lemma_subset_reflexive(v: JsonValue)
    requires
        json_wf(v),
    ensures
        is_subset_of(v, v),
    decreases v,
{
    match v {
        JsonValue::Array(a) => {
            assert forall|i: int| 0 <= i < a@.len() implies is_subset_of(
                #[trigger] a@[i],
                a@[i],
            ) by {
                lemma_subset_reflexive(a@[i]);
            }
        },
        JsonValue::Object(a) => {
            assert forall|i: int| 0 <= i < a@.len() implies match obj_get(
                a@,
                (#[trigger] a@[i]).0@,
            ) {
                Some(w) => is_subset_of(a@[i].1, w),
                None => false,
            } by {
                crate::value::lemma_obj_first_index(a@, a@[i].0@);
                match obj_first_index(a@, a@[i].0@) {
                    Some(k) => {
                        if k != i {
                            assert(a@[k].0@ != a@[i].0@);
                        }
                        lemma_subset_reflexive(a@[i].1);
                    },
                    None => {
                        assert(a@[i].0@ != a@[i].0@);
                    },
                }
            }
        },
        _ => {},
    }
}

/// Law: `null` is a subset of every value.
pub proof fn lemma_null_subset_of_all(v: JsonValue)
    ensures
        is_subset_of(JsonValue::Null, v),
{
}

/// Law: two arrays related by the subset predicate have the same length.
pub proof fn lemma_subset_arrays_same_len(a: Vec<JsonValue>, b: Vec<JsonValue>)
    requires
        is_subset_of(JsonValue::Array(a), JsonValue::Array(b)),
    ensures
        a@.len() == b@.len(),
{
}

} // verus!
