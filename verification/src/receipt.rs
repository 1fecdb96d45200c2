//! The proof receipt and the calls into the external proof system.
//!
//! A receipt is an opaque proof artifact; this library never looks inside
//! it. It keeps a copy of the receipt's journal bytes — the one part the
//! pipeline reads — and delegates the actual zero-knowledge proof check to
//! the external primitive as a trusted black box.

use vstd::prelude::*;
use crate::sigcheck::{b64_decode, base64_decoded};

verus! {

#[verifier::external_type_specification]
#[verifier::external_body]
pub struct ExReceipt(risc0_zkvm::Receipt);

/// The journal bytes of the receipt that a serialized byte string denotes,
/// or `None` when the bytes do not deserialize to a receipt. Deserialization
/// is a function of the bytes alone.
pub uninterp spec fn receipt_journal_of(b: Seq<u8>) -> Option<Seq<u8>>;

/// An opaque proof receipt paired with a copy of its journal bytes, the one
/// part of it the pipeline reads.
pub struct ProofReceipt {
    inner: risc0_zkvm::Receipt,
    journal: Vec<u8>,
}

impl ProofReceipt {
    /// The journal bytes the receipt asserts the proven execution produced.
    pub closed spec fn journal_view(&self) -> Seq<u8> {
        self.journal@
    }

    /// Relies on the public `journal.bytes` field of risc0_zkvm::Receipt:
    /// wraps a receipt, copying its journal bytes out. The receipt is opaque,
    /// so nothing is promised of what those bytes are.
    #[verifier::external_body]
    pub(crate) fn from_receipt(inner: risc0_zkvm::Receipt) -> (r: ProofReceipt) {
        let journal = inner.journal.bytes.clone();
        ProofReceipt { inner, journal }
    }

    /// Relies on bincode::deserialize::<risc0_zkvm::Receipt>: success and the
    /// resulting receipt — hence its journal bytes — are functions of the
    /// input bytes alone.
    #[verifier::external_body]
    pub(crate) fn from_bincode(bytes: &[u8]) -> (r: Option<ProofReceipt>)
        ensures
            r is Some <==> receipt_journal_of(bytes@) is Some,
            r matches Some(p) ==> Some(p.journal_view()) == receipt_journal_of(bytes@),
    {
        match bincode::deserialize::<risc0_zkvm::Receipt>(bytes) {
            Ok(inner) => {
                let journal = inner.journal.bytes.clone();
                Some(ProofReceipt { inner, journal })
            },
            Err(_) => None,
        }
    }

    /// The journal bytes, for decoding.
    pub fn journal_bytes(&self) -> (r: &Vec<u8>)
        ensures
            r@ == self.journal_view(),
    {
        &self.journal
    }

    /// Relies on risc0_zkvm::Receipt::verify: asks the external proof system
    /// whether this receipt proves an execution of the program with the given
    /// 32-byte identity digest. In the external system's development mode (an
    /// environment setting) the check is weakened to accept fake proofs, so
    /// nothing is promised of the outcome; callers state what holds for every
    /// value of it.
    #[verifier::external_body]
    pub(crate) fn check_proof(&self, image_id: &Vec<u8>) -> bool
        requires
            image_id@.len() == crate::hexid::IMAGE_ID_BYTES,
    {
        let mut digest_bytes = [0u8; 32];
        digest_bytes.copy_from_slice(image_id.as_slice());
        self.inner.verify(risc0_zkvm::Digest::from(digest_bytes)).is_ok()
    }
}

/// Deserialize a receipt that arrives as base64-wrapped bincode bytes, as the
/// chunked-stream front end delivers it.
pub fn receipt_from_base64(s: &str) -> (r: Option<ProofReceipt>)
    ensures
        r is Some <==> (base64_decoded(s@) matches Some(b) && receipt_journal_of(b) is Some),
        r matches Some(p) ==> Some(p.journal_view()) == receipt_journal_of(
            base64_decoded(s@).unwrap(),
        ),
{
    match b64_decode(s) {
        Some(bytes) => ProofReceipt::from_bincode(bytes.as_slice()),
        None => None,
    }
}

} // verus!
