use vstd::prelude::*;

use crate::subset::json_wf;
use crate::value::{bytes_eq, JsonValue};

verus! {

/// Whether `b` is JSON whitespace.
pub open spec fn is_ws(b: u8) -> bool {
    b == 0x20 || b == 0x09 || b == 0x0a || b == 0x0d
}

/// Skips to the first non-whitespace byte at or after `i`.
fn skip_ws(s: &Vec<u8>, i: usize) -> (r: usize)
    requires
        i <= s@.len(),
    ensures
        i <= r <= s@.len(),
        r < s@.len() ==> !is_ws(s@[r as int]),
        forall|k: int| i <= k < r ==> is_ws(s@[k]),
{
    let mut j = i;
    while j < s.len() && (s[j] == 0x20 || s[j] == 0x09 || s[j] == 0x0a || s[j] == 0x0d)
        invariant
            i <= j <= s@.len(),
            forall|k: int| i <= k < j ==> is_ws(s@[k]),
        decreases s@.len() - j,
    {
        j += 1;
    }
    j
}

/// Appends the UTF-8 encoding of the code point `cp`.
fn push_utf8(cp: u32, out: &mut Vec<u8>)
    requires
        cp < 0x110000,
{
    if cp < 0x80 {
        out.push(cp as u8);
    } else if cp < 0x800 {
        out.push(0xc0 + (cp / 0x40) as u8);
        out.push(0x80 + (cp % 0x40) as u8);
    } else if cp < 0x10000 {
        out.push(0xe0 + (cp / 0x1000) as u8);
        out.push(0x80 + ((cp / 0x40) % 0x40) as u8);
        out.push(0x80 + (cp % 0x40) as u8);
    } else {
        out.push(0xf0 + (cp / 0x40000) as u8);
        out.push(0x80 + ((cp / 0x1000) % 0x40) as u8);
        out.push(0x80 + ((cp / 0x40) % 0x40) as u8);
        out.push(0x80 + (cp % 0x40) as u8);
    }
}

/// The value of a hex digit, if `b` is one.
fn hex_val(b: u8) -> (r: Option<u32>)
    ensures
        r matches Some(v) ==> v < 16,
{
    if 0x30 <= b && b <= 0x39 {
        Some((b - 0x30) as u32)
    } else if 0x61 <= b && b <= 0x66 {
        Some((b - 0x61) as u32 + 10)
    } else if 0x41 <= b && b <= 0x46 {
        Some((b - 0x41) as u32 + 10)
    } else {
        None
    }
}

/// Reads the four hex digits at `i`.
fn hex4(s: &Vec<u8>, i: usize) -> (r: Option<u32>)
    requires
        i <= s@.len(),
    ensures
        r matches Some(v) ==> v < 0x10000 && i + 4 <= s@.len(),
{
    if s.len() < 4 || i > s.len() - 4 {
        return None;
    }
    let a = hex_val(s[i])?;
    let b = hex_val(s[i + 1])?;
    let c = hex_val(s[i + 2])?;
    let d = hex_val(s[i + 3])?;
    Some(a * 0x1000 + b * 0x100 + c * 0x10 + d)
}

/// Parses the content of a string literal whose opening quote sits just
/// before `i`, returning the unescaped bytes and the index past the closing
/// quote.  JSON's escapes are honored, `\uXXXX` including surrogate pairs;
/// unescaped control characters, lone surrogates and unterminated strings
/// are rejected.
fn parse_string_body(s: &Vec<u8>, i: usize) -> (r: Option<(Vec<u8>, usize)>)
    requires
        i <= s@.len(),
    ensures
        r matches Some(p) ==> i < p.1 <= s@.len(),
{
    let mut out: Vec<u8> = Vec::new();
    let mut j = i;
    loop
        invariant
            i <= j <= s@.len(),
        decreases s@.len() - j,
    {
        if j >= s.len() {
            return None;
        }
        let b = s[j];
        if b == 0x22 {
            let end = j + 1;
            return Some((out, end));
        } else if b == 0x5c {
            if j + 1 >= s.len() {
                return None;
            }
            let e = s[j + 1];
            if e == 0x22 || e == 0x5c || e == 0x2f {
                out.push(e);
                j += 2;
            } else if e == 0x62 {
                out.push(0x08);
                j += 2;
            } else if e == 0x66 {
                out.push(0x0c);
                j += 2;
            } else if e == 0x6e {
                out.push(0x0a);
                j += 2;
            } else if e == 0x72 {
                out.push(0x0d);
                j += 2;
            } else if e == 0x74 {
                out.push(0x09);
                j += 2;
            } else if e == 0x75 {
                let cp = match hex4(s, j + 2) {
                    Some(v) => v,
                    None => {
                        return None;
                    },
                };
                if 0xd800 <= cp && cp < 0xdc00 {
                    // A high surrogate must pair with a following
                    // `\uXXXX` low surrogate.
                    if s.len() - j < 8 || s[j + 6] != 0x5c || s[j + 7] != 0x75 {
                        return None;
                    }
                    let lo = match hex4(s, j + 8) {
                        Some(v) => v,
                        None => {
                            return None;
                        },
                    };
                    if !(0xdc00 <= lo && lo < 0xe000) {
                        return None;
                    }
                    let combined = 0x10000 + (cp - 0xd800) * 0x400 + (lo - 0xdc00);
                    push_utf8(combined, &mut out);
                    j += 12;
                } else if 0xdc00 <= cp && cp < 0xe000 {
                    return None;
                } else {
                    push_utf8(cp, &mut out);
                    j += 6;
                }
            } else {
                return None;
            }
        } else if b < 0x20 {
            return None;
        } else {
            out.push(b);
            j += 1;
        }
    }
}

/// Parses a number starting at `i` (a digit or a minus sign): an integer
/// part per JSON's grammar, an optional fraction and exponent.  A plain
/// unsigned integer that fits `u64` becomes `UInt`; any other number is
/// kept verbatim as its text.
fn parse_number(s: &Vec<u8>, i: usize) -> (r: Option<(JsonValue, usize)>)
    requires
        i < s@.len(),
    ensures
        r matches Some(p) ==> i < p.1 <= s@.len() && json_wf(p.0),
{
    let slen = s.len();
    let neg = s[i] == 0x2d;
    let start_digits = if neg {
        i + 1
    } else {
        i
    };
    if start_digits >= s.len() || !(0x30 <= s[start_digits] && s[start_digits] <= 0x39) {
        return None;
    }
    // Integer part: a lone 0, or a nonzero digit followed by digits.
    let mut j = start_digits + 1;
    if s[start_digits] != 0x30 {
        while j < s.len() && 0x30 <= s[j] && s[j] <= 0x39
            invariant
                start_digits < j <= s@.len(),
                forall|t: int| start_digits < t < j ==> 0x30 <= #[trigger] s@[t] <= 0x39,
            decreases s@.len() - j,
        {
            j += 1;
        }
    }
    let int_end = j;
    proof {
        assert(forall|t: int| start_digits <= t < int_end ==> 0x30 <= #[trigger] s@[t] <= 0x39);
    }
    // Fraction.
    if j < s.len() && s[j] == 0x2e {
        if j + 1 >= s.len() || !(0x30 <= s[j + 1] && s[j + 1] <= 0x39) {
            return None;
        }
        j += 2;
        while j < s.len() && 0x30 <= s[j] && s[j] <= 0x39
            invariant
                i < j <= s@.len(),
            decreases s@.len() - j,
        {
            j += 1;
        }
    }
    // Exponent.
    if j < s.len() && (s[j] == 0x65 || s[j] == 0x45) {
        let mut k = j + 1;
        if k < s.len() && (s[k] == 0x2b || s[k] == 0x2d) {
            k += 1;
        }
        if k >= s.len() || !(0x30 <= s[k] && s[k] <= 0x39) {
            return None;
        }
        j = k + 1;
        while j < s.len() && 0x30 <= s[j] && s[j] <= 0x39
            invariant
                i < j <= s@.len(),
            decreases s@.len() - j,
        {
            j += 1;
        }
    }
    let end = j;
    if !neg && int_end == end {
        // A plain unsigned integer: try to hold it as a `u64`.
        let mut val: u64 = 0;
        let mut k = i;
        let mut fits = true;
        while k < end && fits
            invariant
                i <= k <= end,
                end <= s@.len(),
                forall|t: int| i <= t < end ==> 0x30 <= #[trigger] s@[t] <= 0x39,
            decreases end - k,
        {
            let d = (s[k] - 0x30) as u64;
            match val.checked_mul(10) {
                Some(m) => match m.checked_add(d) {
                    Some(a) => {
                        val = a;
                    },
                    None => {
                        fits = false;
                    },
                },
                None => {
                    fits = false;
                },
            }
            k += 1;
        }
        if fits {
            return Some((JsonValue::UInt(val), end));
        }
    }
    let mut text: Vec<u8> = Vec::new();
    let mut k = i;
    while k < end
        invariant
            i <= k <= end,
            end <= s@.len(),
        decreases end - k,
    {
        text.push(s[k]);
        k += 1;
    }
    Some((JsonValue::NumText(text), end))
}

/// Decides whether the bytes of `lit` stand at `i`.
fn match_lit(s: &Vec<u8>, i: usize, lit: &Vec<u8>) -> (r: bool)
    requires
        i <= s@.len(),
    ensures
        r <==> (i + lit@.len() <= s@.len() && s@.subrange(i as int, i + lit@.len()) == lit@),
{
    if lit.len() > s.len() || i > s.len() - lit.len() {
        return false;
    }
    let mut k: usize = 0;
    while k < lit.len()
        invariant
            k <= lit@.len(),
            i + lit@.len() <= s@.len(),
            s@.len() <= usize::MAX,
            forall|t: int| 0 <= t < k ==> s@[i + t] == lit@[t],
        decreases lit@.len() - k,
    {
        if s[i + k] != lit[k] {
            proof {
                assert(s@.subrange(i as int, i + lit@.len())[k as int] != lit@[k as int]);
            }
            return false;
        }
        k += 1;
    }
    proof {
        assert(s@.subrange(i as int, i + lit@.len()) =~= lit@);
    }
    true
}

/// Parses one JSON value starting at or after `i` (leading whitespace is
/// skipped), returning it and the index just past it.  Objects with a
/// repeated key are rejected, so every parsed value is well formed.
pub fn parse_value(s: &Vec<u8>, i: usize) -> (r: Option<(JsonValue, usize)>)
    requires
        i <= s@.len(),
    ensures
        r matches Some(p) ==> i < p.1 <= s@.len() && json_wf(p.0),
    decreases s@.len() - i, 0nat,
{
    let j = skip_ws(s, i);
    if j >= s.len() {
        return None;
    }
    let b = s[j];
    if b == 0x6e {
        let lit: Vec<u8> = vec![0x6e, 0x75, 0x6c, 0x6c];
        if match_lit(s, j, &lit) {
            Some((JsonValue::Null, j + 4))
        } else {
            None
        }
    } else if b == 0x74 {
        let lit: Vec<u8> = vec![0x74, 0x72, 0x75, 0x65];
        if match_lit(s, j, &lit) {
            Some((JsonValue::Bool(true), j + 4))
        } else {
            None
        }
    } else if b == 0x66 {
        let lit: Vec<u8> = vec![0x66, 0x61, 0x6c, 0x73, 0x65];
        if match_lit(s, j, &lit) {
            Some((JsonValue::Bool(false), j + 5))
        } else {
            None
        }
    } else if b == 0x22 {
        match parse_string_body(s, j + 1) {
            Some(p) => Some((JsonValue::Str(p.0), p.1)),
            None => None,
        }
    } else if b == 0x2d || (0x30 <= b && b <= 0x39) {
        parse_number(s, j)
    } else if b == 0x5b {
        parse_array_items(s, j + 1)
    } else if b == 0x7b {
        parse_object_members(s, j + 1)
    } else {
        None
    }
}

/// Parses the elements of an array whose `[` sits just before `i`.
fn parse_array_items(s: &Vec<u8>, i: usize) -> (r: Option<(JsonValue, usize)>)
    requires
        i <= s@.len(),
    ensures
        r matches Some(p) ==> i < p.1 <= s@.len() && json_wf(p.0),
    decreases s@.len() - i, 1nat,
{
    let mut items: Vec<JsonValue> = Vec::new();
    let mut j = skip_ws(s, i);
    if j >= s.len() {
        return None;
    }
    if s[j] == 0x5d {
        proof {
            assert(json_wf(JsonValue::Array(items)));
        }
        return Some((JsonValue::Array(items), j + 1));
    }
    loop
        invariant
            i <= j <= s@.len(),
            forall|k: int| 0 <= k < items@.len() ==> json_wf(#[trigger] items@[k]),
        decreases s@.len() - j,
    {
        let (v, n) = match parse_value(s, j) {
            Some(p) => p,
            None => {
                return None;
            },
        };
        items.push(v);
        let m = skip_ws(s, n);
        if m >= s.len() {
            return None;
        }
        if s[m] == 0x5d {
            proof {
                assert(json_wf(JsonValue::Array(items)));
            }
            return Some((JsonValue::Array(items), m + 1));
        }
        if s[m] != 0x2c {
            return None;
        }
        j = m + 1;
    }
}

/// Parses the members of an object whose `{` sits just before `i`.  A key
/// already bound rejects the whole object.
fn parse_object_members(s: &Vec<u8>, i: usize) -> (r: Option<(JsonValue, usize)>)
    requires
        i <= s@.len(),
    ensures
        r matches Some(p) ==> i < p.1 <= s@.len() && json_wf(p.0),
    decreases s@.len() - i, 1nat,
{
    let mut members: Vec<(Vec<u8>, JsonValue)> = Vec::new();
    let mut j = skip_ws(s, i);
    if j >= s.len() {
        return None;
    }
    if s[j] == 0x7d {
        proof {
            assert(json_wf(JsonValue::Object(members)));
        }
        return Some((JsonValue::Object(members), j + 1));
    }
    loop
        invariant
            i <= j <= s@.len(),
            forall|k: int, l: int|
                0 <= k < l < members@.len() ==> (#[trigger] members@[k]).0@ != (
                #[trigger] members@[l]).0@,
            forall|k: int| 0 <= k < members@.len() ==> json_wf((#[trigger] members@[k]).1),
        decreases s@.len() - j,
    {
        let k0 = skip_ws(s, j);
        if k0 >= s.len() || s[k0] != 0x22 {
            return None;
        }
        let (key, after_key) = match parse_string_body(s, k0 + 1) {
            Some(p) => p,
            None => {
                return None;
            },
        };
        let mut dup = false;
        let mut idx: usize = 0;
        while idx < members.len()
            invariant
                idx <= members@.len(),
                dup ==> exists|k: int| 0 <= k < members@.len() && (#[trigger] members@[k]).0@
                    == key@,
                !dup ==> forall|k: int| 0 <= k < idx ==> (#[trigger] members@[k]).0@ != key@,
            decreases members@.len() - idx,
        {
            if bytes_eq(&members[idx].0, &key) {
                dup = true;
            }
            idx += 1;
        }
        if dup {
            return None;
        }
        let colon = skip_ws(s, after_key);
        if colon >= s.len() || s[colon] != 0x3a {
            return None;
        }
        let (v, n) = match parse_value(s, colon + 1) {
            Some(p) => p,
            None => {
                return None;
            },
        };
        members.push((key, v));
        let m = skip_ws(s, n);
        if m >= s.len() {
            return None;
        }
        if s[m] == 0x7d {
            proof {
                assert(json_wf(JsonValue::Object(members)));
            }
            return Some((JsonValue::Object(members), m + 1));
        }
        if s[m] != 0x2c {
            return None;
        }
        j = m + 1;
    }
}

/// Parses a whole JSON document: one value with nothing but whitespace
/// after it.
pub fn parse_json(s: &Vec<u8>) -> (r: Option<JsonValue>)
    ensures
        r matches Some(v) ==> json_wf(v),
{
    let (v, n) = match parse_value(s, 0) {
        Some(p) => p,
        None => {
            return None;
        },
    };
    let m = skip_ws(s, n);
    if m < s.len() {
        return None;
    }
    Some(v)
}

} // verus!
