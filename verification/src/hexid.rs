//! Hexadecimal decoding of the program image identity.
//!
//! The image identity arrives as a hex string and must decode to exactly
//! 32 bytes before any cryptographic work starts.

use vstd::prelude::*;
use vstd::string::StrSliceExecFns;

verus! {

/// Number of bytes in a program image identity digest.
pub const IMAGE_ID_BYTES: usize = 32;

/// The value of one hex digit character, if it is one.
/// Accepts `0-9`, `a-f` and `A-F`.
pub open spec fn hex_digit_value(c: char) -> Option<u8> {
    let v = c as u32;
    if 48 <= v <= 57 {
        Some((v - 48) as u8)
    } else if 97 <= v <= 102 {
        Some((v - 87) as u8)
    } else if 65 <= v <= 70 {
        Some((v - 55) as u8)
    } else {
        None
    }
}

/// The bytes a hex string denotes: two digits per byte, high digit first.
/// `None` on odd length or any non-digit character.
pub open spec fn hex_decoded(s: Seq<char>) -> Option<Seq<u8>>
    decreases s.len(),
{
    if s.len() % 2 != 0 {
        None
    } else if s.len() == 0 {
        Some(Seq::empty())
    } else {
        match (hex_digit_value(s[0]), hex_digit_value(s[1])) {
            (Some(hi), Some(lo)) => match hex_decoded(s.skip(2)) {
                Some(rest) => Some(seq![(16 * hi + lo) as u8] + rest),
                None => None,
            },
            _ => None,
        }
    }
}

/// A well-formed image identity: hex that decodes to exactly 32 bytes.
pub open spec fn image_id_ok(s: Seq<char>) -> bool {
    match hex_decoded(s) {
        Some(bytes) => bytes.len() == IMAGE_ID_BYTES,
        None => false,
    }
}

fn hex_digit(c: char) -> (r: Option<u8>)
    ensures
        r == hex_digit_value(c),
{
    let v = c as u32;
    if 48 <= v && v <= 57 {
        Some((v - 48) as u8)
    } else if 97 <= v && v <= 102 {
        Some((v - 87) as u8)
    } else if 65 <= v && v <= 70 {
        Some((v - 55) as u8)
    } else {
        None
    }
}

/// Decode a hex string to its bytes; `None` exactly when the string is not
/// well-formed hex of even length.
pub fn hex_decode(s: &str) -> (r: Option<Vec<u8>>)
    ensures
        r is Some <==> hex_decoded(s@) is Some,
        r matches Some(v) ==> Some(v@) == hex_decoded(s@),
{
    let n = s.unicode_len();
    if n % 2 != 0 {
        return None;
    }
    let mut out: Vec<u8> = Vec::new();
    let mut i: usize = 0;
    proof {
        assert(s@.skip(0) =~= s@);
    }
    while i < n
        invariant
            n == s@.len(),
            n % 2 == 0,
            i % 2 == 0,
            i <= n,
            hex_decoded(s@) is Some <==> hex_decoded(s@.skip(i as int)) is Some,
            hex_decoded(s@) matches Some(whole) ==> hex_decoded(s@.skip(i as int)) matches Some(
                rest,
            ) && whole == out@ + rest,
        decreases n - i,
    {
        let c0 = s.get_char(i);
        let c1 = s.get_char(i + 1);
        proof {
            assert(s@.skip(i as int)[0] == s@[i as int]);
            assert(s@.skip(i as int)[1] == s@[i as int + 1]);
            assert(s@.skip(i as int).skip(2) =~= s@.skip(i as int + 2));
        }
        let d0 = hex_digit(c0);
        let d1 = hex_digit(c1);
        match (d0, d1) {
            (Some(hi), Some(lo)) => {
                out.push(16 * hi + lo);
            },
            _ => {
                return None;
            },
        }
        i = i + 2;
    }
    proof {
        assert(s@.skip(n as int) =~= Seq::<char>::empty());
        if hex_decoded(s@) is Some {
            assert(hex_decoded(s@).unwrap() =~= out@);
        }
    }
    Some(out)
}

/// Decode an image identity; `None` exactly when the hex is malformed or
/// does not denote 32 bytes.
pub fn parse_image_id(s: &str) -> (r: Option<Vec<u8>>)
    ensures
        r is Some <==> image_id_ok(s@),
        r matches Some(v) ==> Some(v@) == hex_decoded(s@) && v@.len() == IMAGE_ID_BYTES,
{
    match hex_decode(s) {
        Some(bytes) => {
            if bytes.len() == IMAGE_ID_BYTES {
                Some(bytes)
            } else {
                None
            }
        },
        None => None,
    }
}

} // verus!
