use vstd::prelude::*;

verus! {

/// A JSON value as the notary works with it.
///
/// Strings (and object keys) are kept as their UTF-8 bytes.  A number that is
/// a non-negative integer fitting `u64` is held as `UInt`; any other numeric
/// literal is held verbatim as its text, so no floating point arithmetic is
/// ever performed.  Object members keep their insertion order.
pub enum JsonValue {
    Null,
    Bool(bool),
    UInt(u64),
    NumText(Vec<u8>),
    Str(Vec<u8>),
    Array(Vec<JsonValue>),
    Object(Vec<(Vec<u8>, JsonValue)>),
}

/// The value of the first member of `obj` whose key is `key`, if any.
pub open spec fn obj_get(obj: Seq<(Vec<u8>, JsonValue)>, key: Seq<u8>) -> Option<JsonValue> {
    match obj_first_index(obj, key) {
        Some(i) => Some(obj[i].1),
        None => None,
    }
}

/// The smallest index of a member of `obj` with key `key`.
pub open spec fn obj_first_index(obj: Seq<(Vec<u8>, JsonValue)>, key: Seq<u8>) -> Option<int>
    decreases obj.len(),
{
    if obj.len() == 0 {
        None
    } else if obj[0].0@ == key {
        Some(0)
    } else {
        match obj_first_index(obj.drop_first(), key) {
            Some(i) => Some(i + 1),
            None => None,
        }
    }
}

/// Byte-vector equality, stated over the views.
pub fn bytes_eq(a: &Vec<u8>, b: &Vec<u8>) -> (r: bool)
    ensures
        r == (a@ == b@),
{
    if a.len() != b.len() {
        return false;
    }
    let mut i: usize = 0;
    while i < a.len()
        invariant
            i <= a.len(),
            a.len() == b.len(),
            forall|j: int| 0 <= j < i ==> a@[j] == b@[j],
        decreases a.len() - i,
    {
        if a[i] != b[i] {
            return false;
        }
        i += 1;
    }
    proof {
        assert(a@ =~= b@);
    }
    true
}

/// Looks up the first member of `obj` with key `key`.
pub fn obj_lookup<'a>(obj: &'a Vec<(Vec<u8>, JsonValue)>, key: &Vec<u8>) -> (r: Option<
    &'a JsonValue,
>)
    ensures
        match r {
            Some(v) => obj_get(obj@, key@) == Some(*v),
            None => obj_get(obj@, key@) is None,
        },
{
    let mut i: usize = 0;
    while i < obj.len()
        invariant
            i <= obj.len(),
            forall|j: int| 0 <= j < i ==> obj@[j].0@ != key@,
        decreases obj.len() - i,
    {
        if bytes_eq(&obj[i].0, key) {
            proof {
                lemma_obj_first_index_at(obj@, key@, i as int);
            }
            return Some(&obj[i].1);
        }
        i += 1;
    }
    proof {
        lemma_obj_first_index(obj@, key@);
    }
    None
}

/// `obj_first_index` returns an index bearing the key, and `None` only when
/// no member bears it.
pub proof fn lemma_obj_first_index(obj: Seq<(Vec<u8>, JsonValue)>, key: Seq<u8>)
    ensures
        match obj_first_index(obj, key) {
            Some(i) => 0 <= i < obj.len() && obj[i].0@ == key && forall|j: int|
                0 <= j < i ==> obj[j].0@ != key,
            None => forall|j: int| 0 <= j < obj.len() ==> obj[j].0@ != key,
        },
    decreases obj.len(),
{
    if obj.len() != 0 && obj[0].0@ != key {
        lemma_obj_first_index(obj.drop_first(), key);
        assert forall|j: int| 1 <= j < obj.len() implies obj[j].0@ == obj.drop_first()[j - 1].0@ by {}
    }
}

/// If the first `i` members miss the key and member `i` bears it, the first
/// index with the key is `i`.
pub proof fn lemma_obj_first_index_at(obj: Seq<(Vec<u8>, JsonValue)>, key: Seq<u8>, i: int)
    requires
        0 <= i < obj.len(),
        obj[i].0@ == key,
        forall|j: int| 0 <= j < i ==> obj[j].0@ != key,
    ensures
        obj_first_index(obj, key) == Some(i),
{
    lemma_obj_first_index(obj, key);
    match obj_first_index(obj, key) {
        Some(k) => {
            if k < i {
                assert(obj[k].0@ != key);
            }
            if k > i {
                assert(obj[i].0@ != key);
            }
        },
        None => {
            assert(obj[i].0@ != key);
        },
    }
}

} // verus!
