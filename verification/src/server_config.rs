use vstd::prelude::*;

verus! {

/// How a client asks for its notarized context back.
pub enum NotarizationContextFormat {
    Json,
    Binary,
}

/// The query parameters of a notarization request.
pub struct NotarizationRequestQuery {
    pub context_format: NotarizationContextFormat,
}

/// The value of one hex digit, if `b` is one (either case).
pub open spec fn hex_nibble_spec(b: u8) -> Option<u8> {
    if 0x30 <= b && b <= 0x39 {
        Some((b - 0x30) as u8)
    } else if 0x61 <= b && b <= 0x66 {
        Some((b - 0x61 + 10) as u8)
    } else if 0x41 <= b && b <= 0x46 {
        Some((b - 0x41 + 10) as u8)
    } else {
        None
    }
}

/// Where the address digits start: after an optional `0x` / `0X` prefix.
pub open spec fn hex_addr_start(s: Seq<u8>) -> int {
    if s.len() >= 2 && s[0] == 0x30 && (s[1] == 0x78 || s[1] == 0x58) {
        2
    } else {
        0
    }
}

/// Whether `s` is a well-formed address: exactly 40 hex digits after the
/// optional prefix.
pub open spec fn hex_addr_ok(s: Seq<u8>) -> bool {
    &&& s.len() == hex_addr_start(s) + 40
    &&& forall|k: int| hex_addr_start(s) <= k < s.len() ==> hex_nibble_spec(#[trigger] s[k]) is Some
}

/// The `i`-th decoded address byte: its two digits' nibbles.
pub open spec fn hex_addr_byte(s: Seq<u8>, i: int) -> u8
    recommends
        hex_addr_ok(s),
        0 <= i < 20,
{
    (hex_nibble_spec(s[hex_addr_start(s) + 2 * i]).unwrap() * 16 + hex_nibble_spec(
        s[hex_addr_start(s) + 2 * i + 1],
    ).unwrap()) as u8
}

/// Reads a 20-byte address from `0x`-prefixed (or bare) hex text of either
/// case, as the EIP-712 `verifying_contract` setting is written: exactly
/// the well-formed inputs decode, to their nibble pairs in order.
pub fn parse_hex_address(s: &Vec<u8>) -> (r: Option<[u8; 20]>)
    ensures
        r is Some <==> hex_addr_ok(s@),
        r matches Some(a) ==> forall|i: int| 0 <= i < 20 ==> a@[i] == hex_addr_byte(s@, i),
{
    let start: usize = if s.len() >= 2 && s[0] == 0x30 && (s[1] == 0x78 || s[1] == 0x58) {
        2
    } else {
        0
    };
    if s.len() - start != 40 {
        return None;
    }
    let mut out: [u8; 20] = [0; 20];
    let mut i: usize = 0;
    while i < 20
        invariant
            i <= 20,
            start == hex_addr_start(s@),
            start + 40 == s@.len(),
            s@.len() <= usize::MAX,
            forall|k: int| start <= k < start + 2 * i ==> hex_nibble_spec(#[trigger] s@[k]) is Some,
            forall|j: int| 0 <= j < i ==> out@[j] == hex_addr_byte(s@, j),
        decreases 20 - i,
    {
        let hi = match hex_nibble(s[start + 2 * i]) {
            Some(v) => v,
            None => {
                return None;
            },
        };
        let lo = match hex_nibble(s[start + 2 * i + 1]) {
            Some(v) => v,
            None => {
                return None;
            },
        };
        out[i] = hi * 16 + lo;
        i += 1;
    }
    Some(out)
}

/// The value of one hex digit.
fn hex_nibble(b: u8) -> (r: Option<u8>)
    ensures
        r == hex_nibble_spec(b),
        r matches Some(v) ==> v < 16,
{
    if 0x30 <= b && b <= 0x39 {
        Some(b - 0x30)
    } else if 0x61 <= b && b <= 0x66 {
        Some(b - 0x61 + 10)
    } else if 0x41 <= b && b <= 0x46 {
        Some(b - 0x41 + 10)
    } else {
        None
    }
}

} // verus!
