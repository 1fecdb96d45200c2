//! Decoding of the proof journal into one of the two recognized schemas.
//!
//! The journal is a little-endian word stream: a 32-bit value takes one
//! 4-byte word, a 64-bit value two words (low word first), a string a length
//! word followed by its UTF-8 bytes packed into words (the padding bytes up
//! to the word boundary are ignored), and a byte list a count word followed
//! by one word per byte. Words after the decoded value are ignored.
//!
//! Schema A carries a 32-bit output, an execution-metrics record and one
//! inline signature claim. Schema B carries a 64-bit float output (as its
//! bit pattern) and a serialized list of claims. The wire format has no
//! version tag, so which schemas are acceptable is part of the front end's
//! configuration (`SchemaPolicy`); structural trial decoding, A first, is
//! one of the configurations, with a documented ambiguity.

use vstd::prelude::*;
use vstd::slice::{slice_subrange, slice_to_vec};
use vstd::utf8::{decode_utf8, valid_utf8};
use crate::claims::{
    claim_models, claims_decoded, decode_claims, ClaimModel, SignatureClaim,
};

verus! {

/// Execution metrics the guest records alongside its output.
#[derive(Clone, Copy, Debug, PartialEq, Eq, Structural)]
pub struct GuestMetrics {
    pub start_cycles: u64,
    pub end_cycles: u64,
    pub risc_v_cycles: u64,
}

/// A decoded journal, discriminated by which schema matched.
pub enum Journal {
    /// Schema A: one 32-bit output, metrics, one inline signature claim.
    SchemaA { value: u32, metrics: GuestMetrics, claim: SignatureClaim },
    /// Schema B: a 64-bit float output as its bit pattern, and zero or more
    /// signature claims.
    SchemaB { value_bits: u64, claims: Vec<SignatureClaim> },
}

/// The mathematical content of a decoded journal.
pub enum JournalModel {
    SchemaA { value: u32, metrics: GuestMetrics, claim: ClaimModel },
    SchemaB { value_bits: u64, claims: Seq<ClaimModel> },
}

impl View for Journal {
    type V = JournalModel;

    open spec fn view(&self) -> JournalModel {
        match self {
            Journal::SchemaA { value, metrics, claim } => JournalModel::SchemaA {
                value: *value,
                metrics: *metrics,
                claim: claim@,
            },
            Journal::SchemaB { value_bits, claims } => JournalModel::SchemaB {
                value_bits: *value_bits,
                claims: claim_models(claims@),
            },
        }
    }
}

/// How many whole words the journal holds.
pub open spec fn word_count(j: Seq<u8>) -> int {
    j.len() as int / 4
}

/// The little-endian 32-bit word at word offset `w`.
pub open spec fn word_at(j: Seq<u8>, w: int) -> int {
    j[4 * w] + 256 * (j[4 * w + 1] + 256 * (j[4 * w + 2] + 256 * j[4 * w + 3]))
}

/// The 64-bit value held in two consecutive words, low word first.
pub open spec fn dword_at(j: Seq<u8>, w: int) -> int {
    word_at(j, w) + 0x1_0000_0000 * word_at(j, w + 1)
}

/// The string at word offset `w`: a byte-length word `n`, then the next
/// `(n + 3) / 4` words holding `n` UTF-8 bytes; the padding bytes after them
/// are ignored. Yields the characters and the word offset just past them.
pub open spec fn wstr_at(j: Seq<u8>, w: int) -> Option<(Seq<char>, int)> {
    if 0 <= w < word_count(j) {
        let n = word_at(j, w);
        let nw = (n + 3) / 4;
        if w + 1 + nw <= word_count(j) {
            let bytes = j.subrange(4 * (w + 1), 4 * (w + 1) + n);
            if valid_utf8(bytes) {
                Some((decode_utf8(bytes), w + 1 + nw))
            } else {
                None
            }
        } else {
            None
        }
    } else {
        None
    }
}

/// The Schema A reading of a journal: word 0 the 32-bit output, words 1-6 the
/// three 64-bit metrics, then commitment, signature and public key strings.
pub open spec fn schema_a_of(j: Seq<u8>) -> Option<JournalModel> {
    if j.len() % 4 == 0 && word_count(j) >= 7 {
        match wstr_at(j, 7) {
            Some((commitment, w1)) => match wstr_at(j, w1) {
                Some((signature, w2)) => match wstr_at(j, w2) {
                    Some((pub_key, _)) => Some(
                        JournalModel::SchemaA {
                            value: word_at(j, 0) as u32,
                            metrics: GuestMetrics {
                                start_cycles: dword_at(j, 1) as u64,
                                end_cycles: dword_at(j, 3) as u64,
                                risc_v_cycles: dword_at(j, 5) as u64,
                            },
                            claim: ClaimModel { commitment, signature, pub_key },
                        },
                    ),
                    None => None,
                },
                None => None,
            },
            None => None,
        }
    } else {
        None
    }
}

/// The byte list embedded in a Schema B journal: a count word at word 2,
/// then one word per byte, each below 256.
pub open spec fn inner_bytes_of(j: Seq<u8>) -> Option<Seq<u8>> {
    if j.len() % 4 == 0 && word_count(j) >= 3 {
        let m = word_at(j, 2);
        if 3 + m <= word_count(j) && (forall|k: int| 0 <= k < m ==> #[trigger] word_at(j, 3 + k)
            <= 255) {
            Some(Seq::new(m as nat, |k: int| word_at(j, 3 + k) as u8))
        } else {
            None
        }
    } else {
        None
    }
}

/// The Schema B reading of a journal: words 0-1 the output's 64-bit float
/// bit pattern, then the serialized claim list as a byte list.
pub open spec fn schema_b_of(j: Seq<u8>) -> Option<JournalModel> {
    match inner_bytes_of(j) {
        Some(bytes) => match claims_decoded(bytes) {
            Some(cs) => Some(
                JournalModel::SchemaB { value_bits: dword_at(j, 0) as u64, claims: cs },
            ),
            None => None,
        },
        None => None,
    }
}

/// Which journal schemas a pipeline configuration accepts. The wire format
/// carries no version tag, so this is part of the front end's configuration
/// rather than of the bytes: a typical multi-signature journal also happens
/// to match Schema A (the high zero bytes of its length words read as empty
/// strings), so purely structural trial decoding would misread it.
#[derive(Clone, Copy, Debug, PartialEq, Eq, Structural)]
pub enum SchemaPolicy {
    /// Only Schema A is acceptable.
    SchemaAOnly,
    /// Only Schema B is acceptable.
    SchemaBOnly,
    /// Structural trial decoding: Schema A first, then Schema B. A payload
    /// matching both shapes is resolved in favor of A — a documented latent
    /// risk of the untagged format.
    TrialDecode,
}

/// The journal's decoded content under a schema policy.
pub open spec fn journal_decoded(j: Seq<u8>, policy: SchemaPolicy) -> Option<JournalModel> {
    match policy {
        SchemaPolicy::SchemaAOnly => schema_a_of(j),
        SchemaPolicy::SchemaBOnly => schema_b_of(j),
        SchemaPolicy::TrialDecode => match schema_a_of(j) {
            Some(a) => Some(a),
            None => schema_b_of(j),
        },
    }
}

fn read_word(j: &Vec<u8>, w: usize) -> (r: u32)
    requires
        4 * w + 4 <= j@.len(),
    ensures
        r == word_at(j@, w as int),
{
    let _len = j.len();
    let base = 4 * w;
    j[base] as u32 + 256 * (j[base + 1] as u32 + 256 * (j[base + 2] as u32 + 256 * (j[base
        + 3] as u32)))
}

fn read_dword(j: &Vec<u8>, w: usize) -> (r: u64)
    requires
        4 * w + 8 <= j@.len(),
    ensures
        r == dword_at(j@, w as int),
{
    let _len = j.len();
    let lo = read_word(j, w) as u64;
    let hi = read_word(j, w + 1) as u64;
    lo + 0x1_0000_0000 * hi
}

fn read_wstr(j: &Vec<u8>, w: usize) -> (r: Option<(String, usize)>)
    requires
        j@.len() % 4 == 0,
    ensures
        r is Some <==> wstr_at(j@, w as int) is Some,
        r matches Some((s, w2)) ==> wstr_at(j@, w as int) == Some((s@, w2 as int)) && w < w2
            && 4 * w2 <= j@.len(),
{
    let wc = j.len() / 4;
    if w >= wc {
        return None;
    }
    proof {
        assert(4 * (w as int) + 4 <= j@.len());
    }
    let n = read_word(j, w) as usize;
    let nw = n / 4 + if n % 4 != 0 {
        1
    } else {
        0
    };
    if nw > wc - (w + 1) {
        return None;
    }
    proof {
        assert(nw == (n as int + 3) / 4);
        assert(n <= 4 * (nw as int));
        assert(4 * ((w as int) + 1) + n <= j@.len());
    }
    let start = 4 * (w + 1);
    let bytes = slice_to_vec(slice_subrange(j.as_slice(), start, start + n));
    match crate::claims::bytes_to_string(bytes) {
        Some(s) => Some((s, w + 1 + nw)),
        None => None,
    }
}

fn decode_schema_a(j: &Vec<u8>) -> (r: Option<Journal>)
    ensures
        r is Some <==> schema_a_of(j@) is Some,
        r matches Some(x) ==> Some(x@) == schema_a_of(j@),
{
    let len = j.len();
    if len % 4 != 0 || len / 4 < 7 {
        return None;
    }
    let value = read_word(j, 0);
    let start_cycles = read_dword(j, 1);
    let end_cycles = read_dword(j, 3);
    let risc_v_cycles = read_dword(j, 5);
    let (commitment, w1) = match read_wstr(j, 7) {
        Some(x) => x,
        None => {
            return None;
        },
    };
    let (signature, w2) = match read_wstr(j, w1) {
        Some(x) => x,
        None => {
            return None;
        },
    };
    let (pub_key, _w3) = match read_wstr(j, w2) {
        Some(x) => x,
        None => {
            return None;
        },
    };
    Some(
        Journal::SchemaA {
            value,
            metrics: GuestMetrics { start_cycles, end_cycles, risc_v_cycles },
            claim: SignatureClaim { commitment, signature, pub_key },
        },
    )
}

fn decode_schema_b(j: &Vec<u8>) -> (r: Option<Journal>)
    ensures
        r is Some <==> schema_b_of(j@) is Some,
        r matches Some(x) ==> Some(x@) == schema_b_of(j@),
{
    let len = j.len();
    if len % 4 != 0 || len / 4 < 3 {
        return None;
    }
    let wc = len / 4;
    let value_bits = read_dword(j, 0);
    let m = read_word(j, 2) as usize;
    if m > wc - 3 {
        return None;
    }
    let mut bytes: Vec<u8> = Vec::new();
    let mut k: usize = 0;
    while k < m
        invariant
            j@.len() % 4 == 0,
            wc == word_count(j@),
            m == word_at(j@, 2),
            3 + m <= wc,
            k <= m,
            bytes@.len() == k,
            forall|t: int| 0 <= t < k ==> #[trigger] word_at(j@, 3 + t) <= 255,
            forall|t: int| 0 <= t < k ==> bytes@[t] == word_at(j@, 3 + t) as u8,
        decreases m - k,
    {
        let v = read_word(j, 3 + k);
        if v > 255 {
            return None;
        }
        bytes.push(v as u8);
        k = k + 1;
    }
    proof {
        assert(inner_bytes_of(j@) is Some);
        assert(bytes@ =~= inner_bytes_of(j@).unwrap());
    }
    match decode_claims(&bytes) {
        Some(claims) => Some(Journal::SchemaB { value_bits, claims }),
        None => None,
    }
}

/// Decode a journal under a schema policy. `None` exactly when the bytes fit
/// no acceptable schema.
pub fn decode_journal(j: &Vec<u8>, policy: SchemaPolicy) -> (r: Option<Journal>)
    ensures
        r is Some <==> journal_decoded(j@, policy) is Some,
        r matches Some(x) ==> Some(x@) == journal_decoded(j@, policy),
{
    match policy {
        SchemaPolicy::SchemaAOnly => decode_schema_a(j),
        SchemaPolicy::SchemaBOnly => decode_schema_b(j),
        SchemaPolicy::TrialDecode => match decode_schema_a(j) {
            Some(x) => Some(x),
            None => decode_schema_b(j),
        },
    }
}

} // verus!
