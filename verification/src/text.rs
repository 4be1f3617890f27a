use vstd::prelude::*;

use crate::value::JsonValue;

verus! {

/// Lowercase hex digit for a nibble.
pub open spec fn hex_digit(n: u8) -> u8 {
    if n < 10 {
        (n + 0x30) as u8
    } else {
        (n - 10 + 0x61) as u8
    }
}

/// Decimal digits of `n`, most significant first.
pub open spec fn dec_digits(n: nat) -> Seq<u8>
    decreases n,
{
    if n < 10 {
        seq![(n + 0x30) as u8]
    } else {
        dec_digits(n / 10) + seq![(n % 10 + 0x30) as u8]
    }
}

/// How one byte of string content is written inside a JSON string literal:
/// the two-character escapes of JSON for quote, backslash and the common
/// control characters, `\u00XX` for the remaining control characters, and
/// the byte itself otherwise.
pub open spec fn escape_byte(b: u8) -> Seq<u8> {
    if b == 0x22 {
        seq![0x5cu8, 0x22u8]
    } else if b == 0x5c {
        seq![0x5cu8, 0x5cu8]
    } else if b == 0x08 {
        seq![0x5cu8, 0x62u8]
    } else if b == 0x09 {
        seq![0x5cu8, 0x74u8]
    } else if b == 0x0a {
        seq![0x5cu8, 0x6eu8]
    } else if b == 0x0c {
        seq![0x5cu8, 0x66u8]
    } else if b == 0x0d {
        seq![0x5cu8, 0x72u8]
    } else if b < 0x20 {
        seq![0x5cu8, 0x75u8, 0x30u8, 0x30u8, hex_digit(b / 16), hex_digit(b % 16)]
    } else {
        seq![b]
    }
}

/// The escaped form of the first `i` bytes of `s`.
pub open spec fn escape_prefix(s: Seq<u8>, i: int) -> Seq<u8>
    decreases i,
{
    if i <= 0 {
        Seq::empty()
    } else {
        escape_prefix(s, i - 1) + escape_byte(s[i - 1])
    }
}

/// A JSON string literal holding `s`.
pub open spec fn string_text(s: Seq<u8>) -> Seq<u8> {
    seq![0x22u8] + escape_prefix(s, s.len() as int) + seq![0x22u8]
}

/// The text of the first `i` elements of the array `v`, comma separated.
pub open spec fn arr_items_text(v: JsonValue, i: int) -> Seq<u8>
    decreases v, 0nat, i,
{
    match v {
        JsonValue::Array(a) => if i <= 0 || i > a@.len() {
            Seq::empty()
        } else if i == 1 {
            json_text_of(a@[0])
        } else {
            arr_items_text(v, i - 1) + seq![0x2cu8] + json_text_of(a@[i - 1])
        },
        _ => Seq::empty(),
    }
}

/// The text of the first `i` members of the object `v`, comma separated.
pub open spec fn obj_items_text(v: JsonValue, i: int) -> Seq<u8>
    decreases v, 0nat, i,
{
    match v {
        JsonValue::Object(m) => if i <= 0 || i > m@.len() {
            Seq::empty()
        } else if i == 1 {
            string_text(m@[0].0@) + seq![0x3au8] + json_text_of(m@[0].1)
        } else {
            obj_items_text(v, i - 1) + seq![0x2cu8] + string_text(m@[i - 1].0@) + seq![0x3au8]
                + json_text_of(m@[i - 1].1)
        },
        _ => Seq::empty(),
    }
}

/// The canonical text of a JSON value: no whitespace, members in the order
/// they are held, strings escaped as `escape_byte` says.
pub open spec fn json_text_of(v: JsonValue) -> Seq<u8>
    decreases v, 1nat, 0nat,
{
    match v {
        JsonValue::Null => seq![0x6eu8, 0x75u8, 0x6cu8, 0x6cu8],
        JsonValue::Bool(b) => if b {
            seq![0x74u8, 0x72u8, 0x75u8, 0x65u8]
        } else {
            seq![0x66u8, 0x61u8, 0x6cu8, 0x73u8, 0x65u8]
        },
        JsonValue::UInt(n) => dec_digits(n as nat),
        JsonValue::NumText(t) => t@,
        JsonValue::Str(s) => string_text(s@),
        JsonValue::Array(a) => seq![0x5bu8] + arr_items_text(v, a@.len() as int) + seq![0x5du8],
        JsonValue::Object(m) => seq![0x7bu8] + obj_items_text(v, m@.len() as int) + seq![0x7du8],
    }
}

/// Appends the decimal digits of `n`.
pub fn push_decimal(n: u64, out: &mut Vec<u8>)
    ensures
        final(out)@ == old(out)@ + dec_digits(n as nat),
    decreases n,
{
    if n < 10 {
        out.push((n as u8) + 0x30);
    } else {
        push_decimal(n / 10, out);
        out.push(((n % 10) as u8) + 0x30);
    }
    proof {
        assert(out@ =~= old(out)@ + dec_digits(n as nat));
    }
}

/// Appends a JSON string literal holding `s`.
pub fn push_string_text(s: &Vec<u8>, out: &mut Vec<u8>)
    ensures
        final(out)@ == old(out)@ + string_text(s@),
{
    out.push(0x22);
    let mut i: usize = 0;
    while i < s.len()
        invariant
            i <= s.len(),
            out@ == old(out)@ + seq![0x22u8] + escape_prefix(s@, i as int),
        decreases s.len() - i,
    {
        let b = s[i];
        if b == 0x22 {
            out.push(0x5c);
            out.push(0x22);
        } else if b == 0x5c {
            out.push(0x5c);
            out.push(0x5c);
        } else if b == 0x08 {
            out.push(0x5c);
            out.push(0x62);
        } else if b == 0x09 {
            out.push(0x5c);
            out.push(0x74);
        } else if b == 0x0a {
            out.push(0x5c);
            out.push(0x6e);
        } else if b == 0x0c {
            out.push(0x5c);
            out.push(0x66);
        } else if b == 0x0d {
            out.push(0x5c);
            out.push(0x72);
        } else if b < 0x20 {
            out.push(0x5c);
            out.push(0x75);
            out.push(0x30);
            out.push(0x30);
            let hi = b / 16;
            let lo = b % 16;
            out.push(if hi < 10 { hi + 0x30 } else { hi - 10 + 0x61 });
            out.push(if lo < 10 { lo + 0x30 } else { lo - 10 + 0x61 });
        } else {
            out.push(b);
        }
        proof {
            assert(out@ =~= old(out)@ + seq![0x22u8] + escape_prefix(s@, i + 1));
        }
        i += 1;
    }
    out.push(0x22);
    proof {
        assert(out@ =~= old(out)@ + string_text(s@));
    }
}

/// Appends the canonical text of `v`.
#[verifier::loop_isolation(false)]
pub fn push_json_text(v: &JsonValue, out: &mut Vec<u8>)
    ensures
        final(out)@ == old(out)@ + json_text_of(*v),
    decreases *v,
{
    match v {
        JsonValue::Null => {
            out.push(0x6e);
            out.push(0x75);
            out.push(0x6c);
            out.push(0x6c);
            proof {
                assert(out@ =~= old(out)@ + json_text_of(*v));
            }
        },
        JsonValue::Bool(b) => {
            if *b {
                out.push(0x74);
                out.push(0x72);
                out.push(0x75);
                out.push(0x65);
            } else {
                out.push(0x66);
                out.push(0x61);
                out.push(0x6c);
                out.push(0x73);
                out.push(0x65);
            }
            proof {
                assert(out@ =~= old(out)@ + json_text_of(*v));
            }
        },
        JsonValue::UInt(n) => {
            push_decimal(*n, out);
        },
        JsonValue::NumText(t) => {
            let mut i: usize = 0;
            while i < t.len()
                invariant
                    i <= t.len(),
                    out@ == old(out)@ + t@.take(i as int),
                decreases t.len() - i,
            {
                out.push(t[i]);
                proof {
                    assert(out@ =~= old(out)@ + t@.take(i + 1));
                }
                i += 1;
            }
            proof {
                assert(t@.take(t@.len() as int) =~= t@);
            }
        },
        JsonValue::Str(s) => {
            push_string_text(s, out);
        },
        JsonValue::Array(a) => {
            out.push(0x5b);
            let mut i: usize = 0;
            while i < a.len()
                invariant
                    i <= a.len(),
                    out@ == old(out)@ + seq![0x5bu8] + arr_items_text(*v, i as int),
                decreases a.len() - i,
            {
                if i > 0 {
                    out.push(0x2c);
                }
                push_json_text(&a[i], out);
                proof {
                    assert(out@ =~= old(out)@ + seq![0x5bu8] + arr_items_text(*v, i + 1));
                }
                i += 1;
            }
            out.push(0x5d);
            proof {
                assert(out@ =~= old(out)@ + json_text_of(*v));
            }
        },
        JsonValue::Object(m) => {
            out.push(0x7b);
            let mut i: usize = 0;
            while i < m.len()
                invariant
                    i <= m.len(),
                    out@ == old(out)@ + seq![0x7bu8] + obj_items_text(*v, i as int),
                decreases m.len() - i,
            {
                if i > 0 {
                    out.push(0x2c);
                }
                push_string_text(&m[i].0, out);
                out.push(0x3a);
                push_json_text(&m[i].1, out);
                proof {
                    assert(out@ =~= old(out)@ + seq![0x7bu8] + obj_items_text(*v, i + 1));
                }
                i += 1;
            }
            out.push(0x7d);
            proof {
                assert(out@ =~= old(out)@ + json_text_of(*v));
            }
        },
    }
}

/// The canonical JSON text of `v`, as bytes.
pub fn to_json_bytes(v: &JsonValue) -> (r: Vec<u8>)
    ensures
        r@ == json_text_of(*v),
{
    let mut out: Vec<u8> = Vec::new();
    push_json_text(v, &mut out);
    out
}

/// The lowercase hex text of the first `i` bytes of `s`.
pub open spec fn hex_prefix(s: Seq<u8>, i: int) -> Seq<u8>
    decreases i,
{
    if i <= 0 {
        Seq::empty()
    } else {
        hex_prefix(s, i - 1) + seq![hex_digit(s[i - 1] / 16), hex_digit(s[i - 1] % 16)]
    }
}

/// The lowercase hex text of `s`: two digits for each byte.
pub open spec fn hex_of(s: Seq<u8>) -> Seq<u8> {
    hex_prefix(s, s.len() as int)
}

/// Law: hex text is two digits for each byte.
pub proof fn lemma_hex_prefix_len(s: Seq<u8>, i: int)
    requires
        0 <= i,
    ensures
        hex_prefix(s, i).len() == 2 * i,
    decreases i,
{
    if i > 0 {
        lemma_hex_prefix_len(s, i - 1);
    }
}

/// Law: hex text is two digits for each byte.
pub proof fn lemma_hex_of_len(s: Seq<u8>)
    ensures
        hex_of(s).len() == 2 * s.len(),
{
    lemma_hex_prefix_len(s, s.len() as int);
}

/// Writes `b` as lowercase hex text.
pub fn hex_encode(b: &Vec<u8>) -> (r: Vec<u8>)
    ensures
        r@ == hex_of(b@),
{
    let mut out: Vec<u8> = Vec::new();
    let mut i: usize = 0;
    while i < b.len()
        invariant
            i <= b.len(),
            out@ == hex_prefix(b@, i as int),
        decreases b.len() - i,
    {
        let hi = b[i] / 16;
        let lo = b[i] % 16;
        out.push(if hi < 10 { hi + 0x30 } else { hi - 10 + 0x61 });
        out.push(if lo < 10 { lo + 0x30 } else { lo - 10 + 0x61 });
        proof {
            assert(out@ =~= hex_prefix(b@, i + 1));
        }
        i += 1;
    }
    out
}

} // verus!
