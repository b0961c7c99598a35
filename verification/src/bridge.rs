//! Payload handling for the companion bridge utility: the line-oriented
//! forwarder that feeds the serial port from a network source.
//!
//! Each incoming line carries a hex-encoded message between one leading and
//! two trailing framing bytes. The payload logic strips the framing,
//! hex-decodes the remainder, and discards payloads that decode to all
//! zeroes; whatever fails any of these steps is dropped, since the core must
//! tolerate arbitrary byte-level garbage from this source.

use vstd::prelude::*;

verus! {

/// Whether a byte is an ASCII hex digit in the alphabet the external hex
/// decoder accepts (digits, and letters of either case).
pub open spec fn is_hex_digit(b: u8) -> bool {
    (48 <= b && b <= 57) || (97 <= b && b <= 102) || (65 <= b && b <= 70)
}

/// The value of one ASCII hex digit.
pub open spec fn hex_val(b: u8) -> u8
    recommends
        is_hex_digit(b),
{
    if 48 <= b && b <= 57 {
        (b - 48) as u8
    } else if 97 <= b && b <= 102 {
        (b - 97 + 10) as u8
    } else {
        (b - 65 + 10) as u8
    }
}

/// Whether a byte sequence is well-formed hex: even length, every byte a hex
/// digit.
pub open spec fn valid_hex(s: Seq<u8>) -> bool {
    s.len() % 2 == 0 && (forall|i: int| 0 <= i < s.len() ==> is_hex_digit(s[i]))
}

/// The bytes encoded by a well-formed hex sequence: each successive digit
/// pair yields one byte, high digit first.
pub open spec fn hex_bytes(s: Seq<u8>) -> Seq<u8> {
    Seq::new(s.len() / 2, |i: int| (hex_val(s[2 * i]) * 16 + hex_val(s[2 * i + 1])) as u8)
}

/// Relies on `hex::decode`: it succeeds exactly on even-length sequences of
/// ASCII hex digits (either case) and yields the byte each digit pair
/// encodes, high digit first; malformed input gives an error, never a panic.
#[verifier::external_body]
fn hex_decode(data: &[u8]) -> (r: Option<Vec<u8>>)
    ensures
        r is Some <==> valid_hex(data@),
        r matches Some(v) ==> v@ == hex_bytes(data@),
{
    hex::decode(data).ok()
}

/// Whether every byte of a sequence is zero.
pub open spec fn all_zero(s: Seq<u8>) -> bool {
    forall|i: int| 0 <= i < s.len() ==> s[i] == 0
}

/// The hex-encoded part of a line: what lies between the single leading and
/// the two trailing framing bytes.
pub open spec fn bridge_inner(line: Seq<u8>) -> Seq<u8> {
    line.subrange(1, line.len() - 2)
}

/// What one line of the bridge feed yields: nothing when the line is too
/// short to hold any payload, is not well-formed hex between its framing
/// bytes, or decodes to all zeroes; otherwise the decoded raw message bytes.
pub open spec fn bridge_payload_spec(line: Seq<u8>) -> Option<Seq<u8>> {
    if line.len() < 3 {
        None
    } else if !valid_hex(bridge_inner(line)) {
        None
    } else if all_zero(hex_bytes(bridge_inner(line))) {
        None
    } else {
        Some(hex_bytes(bridge_inner(line)))
    }
}

/// Extracts the raw message bytes from one line of the bridge feed, or
/// nothing when the line carries no forwardable payload.
pub fn bridge_payload(line: &Vec<u8>) -> (r: Option<Vec<u8>>)
    ensures
        r is Some <==> bridge_payload_spec(line@) is Some,
        r matches Some(v) ==> Some(v@) == bridge_payload_spec(line@),
{
    if line.len() < 3 {
        return None;
    }
    let end = line.len() - 2;
    let mut inner: Vec<u8> = Vec::new();
    let mut i: usize = 1;
    while i < end
        invariant
            3 <= line@.len(),
            end == line@.len() - 2,
            1 <= i <= end,
            inner@ == line@.subrange(1, i as int),
        decreases end - i,
    {
        inner.push(line[i]);
        proof {
            assert(line@.subrange(1, i + 1) =~= line@.subrange(1, i as int).push(
                line@[i as int],
            ));
        }
        i += 1;
    }
    proof {
        assert(inner@ == bridge_inner(line@));
    }
    match hex_decode(inner.as_slice()) {
        Some(bytes) => {
            let n = bytes.len();
            let mut nonzero = false;
            let mut j: usize = 0;
            while j < n
                invariant
                    n == bytes@.len(),
                    j <= n,
                    nonzero <==> exists|k: int| 0 <= k < j && bytes@[k] != 0,
                decreases n - j,
            {
                if bytes[j] != 0 {
                    nonzero = true;
                }
                j += 1;
            }
            if nonzero {
                Some(bytes)
            } else {
                None
            }
        },
        None => None,
    }
}

} // verus!
