//! Signature claims and the serialized claim list of the multi-signature
//! journal schema.
//!
//! A claim bundles a commitment string, a base64 signature and a PEM public
//! key. The multi-signature schema carries its claims as one byte string
//! holding a serialized list: an 8-byte little-endian count, then per claim
//! three strings, each an 8-byte little-endian length followed by that many
//! UTF-8 bytes. Trailing bytes after the list are ignored.

use vstd::prelude::*;
use vstd::slice::{slice_subrange, slice_to_vec};
use vstd::utf8::{decode_utf8, valid_utf8};
use crate::sigcheck::{signature_valid, verify_signature};

verus! {

/// One asserted provenance claim: the signed payload, its signature and the
/// key material to check it against. Transient — built only while a journal
/// is being verified.
pub struct SignatureClaim {
    /// The payload string the signature is asserted to cover.
    pub commitment: String,
    /// The signature, base64-encoded.
    pub signature: String,
    /// The RSA public key, PEM-encoded in SPKI or PKCS#1 form.
    pub pub_key: String,
}

/// The mathematical content of a claim: its three strings.
pub struct ClaimModel {
    pub commitment: Seq<char>,
    pub signature: Seq<char>,
    pub pub_key: Seq<char>,
}

impl View for SignatureClaim {
    type V = ClaimModel;

    open spec fn view(&self) -> ClaimModel {
        ClaimModel {
            commitment: self.commitment@,
            signature: self.signature@,
            pub_key: self.pub_key@,
        }
    }
}

/// The models of a sequence of claims.
pub open spec fn claim_models(cs: Seq<SignatureClaim>) -> Seq<ClaimModel> {
    cs.map_values(|c: SignatureClaim| c@)
}

/// Whether one claim's signature verifies.
pub open spec fn claim_valid(c: ClaimModel) -> bool {
    signature_valid(c.commitment, c.signature, c.pub_key)
}

/// The quorum policy over a claim set: an empty set asserts no provenance and
/// is rejected; a non-empty set is accepted only if every claim verifies.
pub open spec fn claim_set_accepted(cs: Seq<ClaimModel>) -> bool {
    cs.len() > 0 && (forall|i: int| 0 <= i < cs.len() ==> claim_valid(cs[i]))
}

/// Verify one claim.
pub fn verify_claim(c: &SignatureClaim) -> (r: bool)
    ensures
        r == claim_valid(c@),
{
    verify_signature(self_str(&c.commitment), self_str(&c.signature), self_str(&c.pub_key))
}

fn self_str(s: &String) -> (r: &str)
    ensures
        r@ == s@,
{
    s.as_str()
}

/// Verify every claim of a set, with no short-circuit: the second result has
/// one entry per claim, in order, saying whether that claim verified. The
/// first result applies the quorum policy: `true` exactly when the set is
/// non-empty and every claim verified.
pub fn verify_claim_set(claims: &Vec<SignatureClaim>) -> (r: (bool, Vec<bool>))
    ensures
        r.1@.len() == claims@.len(),
        forall|i: int| 0 <= i < claims@.len() ==> r.1@[i] == claim_valid(claims@[i]@),
        r.0 == claim_set_accepted(claim_models(claims@)),
{
    let mut outcomes: Vec<bool> = Vec::new();
    let mut all_ok = true;
    let n = claims.len();
    let mut i: usize = 0;
    while i < n
        invariant
            n == claims@.len(),
            i <= n,
            outcomes@.len() == i,
            forall|k: int| 0 <= k < i ==> outcomes@[k] == claim_valid(claims@[k]@),
            all_ok == (forall|k: int| 0 <= k < i ==> claim_valid(claims@[k]@)),
        decreases n - i,
    {
        let ok = verify_claim(&claims[i]);
        if !ok {
            all_ok = false;
        }
        outcomes.push(ok);
        i = i + 1;
    }
    let accepted = n > 0 && all_ok;
    proof {
        let cs = claim_models(claims@);
        assert(cs.len() == claims@.len());
        if all_ok {
            assert forall|k: int| 0 <= k < cs.len() implies claim_valid(cs[k]) by {
                assert(cs[k] == claims@[k]@);
            }
        } else {
            let k = choose|k: int| 0 <= k < claims@.len() && !claim_valid(claims@[k]@);
            assert(cs[k] == claims@[k]@);
            assert(!claim_valid(cs[k]));
        }
    }
    (accepted, outcomes)
}

/// The 64-bit little-endian integer held in the 8 bytes at `off`.
pub open spec fn le64_at(b: Seq<u8>, off: int) -> int {
    b[off] + 256 * (b[off + 1] + 256 * (b[off + 2] + 256 * (b[off + 3] + 256 * (b[off + 4] + 256
        * (b[off + 5] + 256 * (b[off + 6] + 256 * b[off + 7]))))))
}

/// The string a serialized claim list holds at byte offset `off`: an 8-byte
/// little-endian length, then that many bytes of valid UTF-8. Yields the
/// decoded characters and the offset just past the string.
pub open spec fn bstr_at(b: Seq<u8>, off: int) -> Option<(Seq<char>, int)> {
    if off + 8 <= b.len() {
        let n = le64_at(b, off);
        if off + 8 + n <= b.len() {
            let bytes = b.subrange(off + 8, off + 8 + n);
            if valid_utf8(bytes) {
                Some((decode_utf8(bytes), off + 8 + n))
            } else {
                None
            }
        } else {
            None
        }
    } else {
        None
    }
}

/// The claim a serialized claim list holds at byte offset `off`: three
/// strings in order — commitment, signature, public key.
pub open spec fn claim_at(b: Seq<u8>, off: int) -> Option<(ClaimModel, int)> {
    match bstr_at(b, off) {
        Some((commitment, o1)) => match bstr_at(b, o1) {
            Some((signature, o2)) => match bstr_at(b, o2) {
                Some((pub_key, o3)) => Some((ClaimModel { commitment, signature, pub_key }, o3)),
                None => None,
            },
            None => None,
        },
        None => None,
    }
}

/// `n` consecutive claims starting at byte offset `off`.
pub open spec fn claims_from(b: Seq<u8>, off: int, n: nat) -> Option<(Seq<ClaimModel>, int)>
    decreases n,
{
    if n == 0 {
        Some((Seq::empty(), off))
    } else {
        match claim_at(b, off) {
            Some((c, o1)) => match claims_from(b, o1, (n - 1) as nat) {
                Some((cs, o2)) => Some((seq![c] + cs, o2)),
                None => None,
            },
            None => None,
        }
    }
}

/// The claim list a byte string denotes: an 8-byte little-endian count, then
/// that many claims. `None` when the bytes are not such a list.
pub open spec fn claims_decoded(b: Seq<u8>) -> Option<Seq<ClaimModel>> {
    if b.len() >= 8 {
        match claims_from(b, 8, le64_at(b, 0) as nat) {
            Some((cs, _)) => Some(cs),
            None => None,
        }
    } else {
        None
    }
}

proof fn lemma_bstr_at_bounds(b: Seq<u8>, off: int)
    requires
        0 <= off,
        bstr_at(b, off) is Some,
    ensures
        off + 8 <= bstr_at(b, off).unwrap().1 <= b.len(),
{
}

proof fn lemma_claim_at_bounds(b: Seq<u8>, off: int)
    requires
        0 <= off,
        claim_at(b, off) is Some,
    ensures
        off + 24 <= claim_at(b, off).unwrap().1 <= b.len(),
{
    let (_, o1) = bstr_at(b, off).unwrap();
    lemma_bstr_at_bounds(b, off);
    let (_, o2) = bstr_at(b, o1).unwrap();
    lemma_bstr_at_bounds(b, o1);
    lemma_bstr_at_bounds(b, o2);
}

/// A successful parse of `n` claims needs at least 24 bytes per claim.
proof fn lemma_claims_from_bound(b: Seq<u8>, off: int, n: nat)
    requires
        0 <= off,
        claims_from(b, off, n) is Some,
    ensures
        off + 24 * n <= b.len() || n == 0,
    decreases n,
{
    if n > 0 {
        let (_, o1) = claim_at(b, off).unwrap();
        lemma_claim_at_bounds(b, off);
        lemma_claims_from_bound(b, o1, (n - 1) as nat);
    }
}

fn read_le64(b: &Vec<u8>, off: usize) -> (r: u64)
    requires
        off + 8 <= b@.len(),
    ensures
        r == le64_at(b@, off as int),
{
    let _len = b.len();
    let b0 = b[off] as u64;
    let b1 = b[off + 1] as u64;
    let b2 = b[off + 2] as u64;
    let b3 = b[off + 3] as u64;
    let b4 = b[off + 4] as u64;
    let b5 = b[off + 5] as u64;
    let b6 = b[off + 6] as u64;
    let b7 = b[off + 7] as u64;
    b0 + 256 * (b1 + 256 * (b2 + 256 * (b3 + 256 * (b4 + 256 * (b5 + 256 * (b6 + 256 * b7))))))
}

/// Relies on std String::from_utf8: succeeds exactly on valid UTF-8 input and
/// decodes those bytes to their characters.
#[verifier::external_body]
pub(crate) fn bytes_to_string(bytes: Vec<u8>) -> (r: Option<String>)
    ensures
        r is Some <==> valid_utf8(bytes@),
        r matches Some(s) ==> s@ == decode_utf8(bytes@),
{
    match String::from_utf8(bytes) {
        Ok(s) => Some(s),
        Err(_) => None,
    }
}

fn read_bstr(b: &Vec<u8>, off: usize) -> (r: Option<(String, usize)>)
    ensures
        r is Some <==> bstr_at(b@, off as int) is Some,
        r matches Some((s, o)) ==> bstr_at(b@, off as int) == Some((s@, o as int)) && off + 8 <= o
            <= b@.len(),
{
    if b.len() < 8 || off > b.len() - 8 {
        return None;
    }
    let n = read_le64(b, off);
    let avail = (b.len() - off - 8) as u64;
    if n > avail {
        return None;
    }
    let n_us = n as usize;
    let bytes = slice_to_vec(slice_subrange(b.as_slice(), off + 8, off + 8 + n_us));
    match bytes_to_string(bytes) {
        Some(s) => Some((s, off + 8 + n_us)),
        None => None,
    }
}

fn read_claim(b: &Vec<u8>, off: usize) -> (r: Option<(SignatureClaim, usize)>)
    ensures
        r is Some <==> claim_at(b@, off as int) is Some,
        r matches Some((c, o)) ==> claim_at(b@, off as int) == Some((c@, o as int)) && off + 24
            <= o <= b@.len(),
{
    let (commitment, o1) = match read_bstr(b, off) {
        Some(x) => x,
        None => {
            return None;
        },
    };
    let (signature, o2) = match read_bstr(b, o1) {
        Some(x) => x,
        None => {
            return None;
        },
    };
    let (pub_key, o3) = match read_bstr(b, o2) {
        Some(x) => x,
        None => {
            return None;
        },
    };
    Some((SignatureClaim { commitment, signature, pub_key }, o3))
}

/// Decode a serialized claim list; `None` exactly when the bytes are not a
/// well-formed list.
pub fn decode_claims(b: &Vec<u8>) -> (r: Option<Vec<SignatureClaim>>)
    ensures
        r is Some <==> claims_decoded(b@) is Some,
        r matches Some(cs) ==> Some(claim_models(cs@)) == claims_decoded(b@),
{
    if b.len() < 8 {
        return None;
    }
    let n = read_le64(b, 0);
    if n as u128 * 24 > (b.len() - 8) as u128 {
        proof {
            if claims_from(b@, 8, n as nat) is Some && n > 0 {
                lemma_claims_from_bound(b@, 8, n as nat);
            }
        }
        return None;
    }
    let count = n as usize;
    let mut out: Vec<SignatureClaim> = Vec::new();
    let mut cur: usize = 8;
    let mut i: usize = 0;
    while i < count
        invariant
            b@.len() >= 8,
            n == le64_at(b@, 0),
            count == n as nat,
            i <= count,
            8 <= cur <= b@.len() || count == 0,
            cur >= 8,
            out@.len() == i,
            claims_from(b@, 8, n as nat) is Some <==> claims_from(
                b@,
                cur as int,
                (n - i) as nat,
            ) is Some,
            claims_from(b@, 8, n as nat) matches Some((all, end)) ==> claims_from(
                b@,
                cur as int,
                (n - i) as nat,
            ) matches Some((rest, end2)) && all == claim_models(out@) + rest && end == end2,
        decreases count - i,
    {
        match read_claim(b, cur) {
            Some((c, o)) => {
                proof {
                    assert(claim_models(out@.push(c)) =~= claim_models(out@) + seq![c@]);
                    if let Some((all, end)) = claims_from(b@, 8, n as nat) {
                        let (rest, end2) = claims_from(b@, cur as int, (n - i) as nat).unwrap();
                        let (rest2, end3) = claims_from(b@, o as int, (n - i - 1) as nat).unwrap();
                        assert(rest == seq![c@] + rest2);
                        assert(all =~= (claim_models(out@) + seq![c@]) + rest2);
                    }
                }
                out.push(c);
                cur = o;
            },
            None => {
                return None;
            },
        }
        i = i + 1;
    }
    proof {
        let (rest, _) = claims_from(b@, cur as int, 0).unwrap();
        assert(rest =~= Seq::<ClaimModel>::empty());
        if let Some((all, end)) = claims_from(b@, 8, n as nat) {
            assert(all =~= claim_models(out@));
        }
    }
    Some(out)
}

} // verus!
