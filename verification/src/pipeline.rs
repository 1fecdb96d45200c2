//! The verification orchestrator: one linear pass from a request to a
//! verdict.
//!
//! The pipeline validates the image identity, asks the external proof system
//! about the receipt, decodes the journal and checks its signature claims,
//! and emits a single verdict with a diagnostic message and any numeric
//! journal output. Every failure is terminal and reported synchronously;
//! only a malformed image identity is a request error rather than a verdict.

use vstd::prelude::*;
use vstd::string::StringExecFns;
use crate::claims::{claim_set_accepted, claim_valid, verify_claim, verify_claim_set};
use crate::hexid::{image_id_ok, parse_image_id};
use crate::journal::{decode_journal, journal_decoded, Journal, JournalModel, SchemaPolicy};
use crate::receipt::ProofReceipt;

verus! {

/// The numeric output a journal carries: a 32-bit unsigned value under
/// Schema A, a 64-bit float (held as its bit pattern, since the pipeline
/// never computes with it) under Schema B.
#[derive(Clone, Copy, Debug, PartialEq, Eq, Structural)]
pub enum JournalNumber {
    Unsigned(u32),
    FloatBits(u64),
}

/// The pipeline's result: the aggregate validity, a diagnostic message, and
/// the journal's numeric output where the journal was readable.
pub struct Verdict {
    pub valid: bool,
    pub message: String,
    pub journal_value: Option<JournalNumber>,
}

/// The one request error: an image identity that is not 64 hex digits.
/// It is rejected before any cryptographic work and never becomes a verdict.
#[derive(Clone, Copy, Debug, PartialEq, Eq, Structural)]
pub enum PipelineError {
    MalformedImageId,
}

pub open spec fn msg_proof_invalid() -> Seq<char> {
    "Receipt ist UNGUELTIG"@
}

pub open spec fn msg_decode_failed() -> Seq<char> {
    "Journal Deserialisierung fehlgeschlagen"@
}

pub open spec fn msg_single_valid() -> Seq<char> {
    "Receipt ist gueltig"@
}

pub open spec fn msg_single_invalid() -> Seq<char> {
    "Signatur ist UNGUELTIG"@
}

pub open spec fn msg_multi_valid() -> Seq<char> {
    "Receipt und alle Signaturen sind gueltig"@
}

pub open spec fn msg_multi_invalid() -> Seq<char> {
    "Receipt ist gueltig, aber mindestens eine Signatur war ungueltig"@
}

/// The validity the pipeline owes once the proof outcome is fixed: the proof
/// was accepted, the journal matches a schema, and its claim set passes —
/// a single claim under Schema A, the quorum policy under Schema B.
pub open spec fn decide_valid(proof_ok: bool, j: Seq<u8>, policy: SchemaPolicy) -> bool {
    proof_ok && match journal_decoded(j, policy) {
        Some(JournalModel::SchemaA { claim, .. }) => claim_valid(claim),
        Some(JournalModel::SchemaB { claims, .. }) => claim_set_accepted(claims),
        None => false,
    }
}

/// The numeric output the verdict owes: present exactly when the proof was
/// accepted and the journal decoded, whatever the signature outcome.
pub open spec fn decide_value(proof_ok: bool, j: Seq<u8>, policy: SchemaPolicy) -> Option<JournalNumber> {
    if proof_ok {
        match journal_decoded(j, policy) {
            Some(JournalModel::SchemaA { value, .. }) => Some(JournalNumber::Unsigned(value)),
            Some(JournalModel::SchemaB { value_bits, .. }) => Some(
                JournalNumber::FloatBits(value_bits),
            ),
            None => None,
        }
    } else {
        None
    }
}

/// The diagnostic message the verdict owes.
pub open spec fn decide_message(proof_ok: bool, j: Seq<u8>, policy: SchemaPolicy) -> Seq<char> {
    if !proof_ok {
        msg_proof_invalid()
    } else {
        match journal_decoded(j, policy) {
            Some(JournalModel::SchemaA { claim, .. }) => if claim_valid(claim) {
                msg_single_valid()
            } else {
                msg_single_invalid()
            },
            Some(JournalModel::SchemaB { claims, .. }) => if claim_set_accepted(claims) {
                msg_multi_valid()
            } else {
                msg_multi_invalid()
            },
            None => msg_decode_failed(),
        }
    }
}

/// Whether a verdict is exactly the one owed for proof outcome `proof_ok`
/// and journal bytes `j`.
pub open spec fn verdict_matches(v: Verdict, proof_ok: bool, j: Seq<u8>, policy: SchemaPolicy) -> bool {
    &&& v.valid == decide_valid(proof_ok, j, policy)
    &&& v.journal_value == decide_value(proof_ok, j, policy)
    &&& v.message@ == decide_message(proof_ok, j, policy)
}

/// Whether a verdict is the one owed for journal bytes `j` under one of the
/// two possible proof outcomes.
pub open spec fn verdict_decided(v: Verdict, j: Seq<u8>, policy: SchemaPolicy) -> bool {
    verdict_matches(v, true, j, policy) || verdict_matches(v, false, j, policy)
}

/// The verdict for one proof outcome and one journal: decode the journal,
/// check its signature claims, and aggregate. This is everything the
/// pipeline decides after the external proof check.
pub fn decide(proof_ok: bool, journal: &Vec<u8>, policy: SchemaPolicy) -> (v: Verdict)
    ensures
        verdict_matches(v, proof_ok, journal@, policy),
{
    if !proof_ok {
        return Verdict {
            valid: false,
            message: String::from_str("Receipt ist UNGUELTIG"),
            journal_value: None,
        };
    }
    match decode_journal(journal, policy) {
        Some(Journal::SchemaA { value, metrics: _, claim }) => {
            let ok = verify_claim(&claim);
            Verdict {
                valid: ok,
                message: if ok {
                    String::from_str("Receipt ist gueltig")
                } else {
                    String::from_str("Signatur ist UNGUELTIG")
                },
                journal_value: Some(JournalNumber::Unsigned(value)),
            }
        },
        Some(Journal::SchemaB { value_bits, claims }) => {
            let (ok, _outcomes) = verify_claim_set(&claims);
            Verdict {
                valid: ok,
                message: if ok {
                    String::from_str("Receipt und alle Signaturen sind gueltig")
                } else {
                    String::from_str(
                        "Receipt ist gueltig, aber mindestens eine Signatur war ungueltig",
                    )
                },
                journal_value: Some(JournalNumber::FloatBits(value_bits)),
            }
        },
        None => Verdict {
            valid: false,
            message: String::from_str("Journal Deserialisierung fehlgeschlagen"),
            journal_value: None,
        },
    }
}

/// The whole pipeline for one request. A malformed image identity is
/// rejected before the external proof system is consulted; any other
/// request runs to a verdict that is exactly the one owed for the journal
/// under the proof outcome the external system returned. In particular a
/// `valid` verdict is only ever the one owed for an accepted proof.
pub fn verify_receipt_logic(image_id: &str, receipt: &ProofReceipt, policy: SchemaPolicy) -> (r: Result<
    Verdict,
    PipelineError,
>)
    ensures
        r is Err <==> !image_id_ok(image_id@),
        r matches Err(e) ==> e == PipelineError::MalformedImageId,
        r matches Ok(v) ==> verdict_decided(v, receipt.journal_view(), policy),
        r matches Ok(v) ==> (v.valid ==> verdict_matches(v, true, receipt.journal_view(), policy)),
{
    let image = match parse_image_id(image_id) {
        Some(bytes) => bytes,
        None => {
            return Err(PipelineError::MalformedImageId);
        },
    };
    let proof_ok = receipt.check_proof(&image);
    let verdict = decide(proof_ok, receipt.journal_bytes(), policy);
    Ok(verdict)
}

/// The pipeline for a request that already carries a deserialized receipt,
/// as the request/response front end delivers it.
pub fn verify_receipt(image_id: &str, receipt: risc0_zkvm::Receipt, policy: SchemaPolicy) -> (r: Result<
    Verdict,
    PipelineError,
>)
    ensures
        r is Err <==> !image_id_ok(image_id@),
        r matches Ok(v) ==> exists|j: Seq<u8>| verdict_decided(v, j, policy),
{
    let wrapped = ProofReceipt::from_receipt(receipt);
    match verify_receipt_logic(image_id, &wrapped, policy) {
        Ok(v) => {
            proof {
                assert(verdict_decided(v, wrapped.journal_view(), policy));
            }
            Ok(v)
        },
        Err(e) => Err(e),
    }
}

/// For every journal matching Schema A whose single claim verifies, and a
/// proof the external system accepted, the decision is `valid` and the
/// embedded numeric output is surfaced unchanged.
pub proof fn lemma_schema_a_accepted(
    j: Seq<u8>,
    policy: SchemaPolicy,
    value: u32,
    metrics: crate::journal::GuestMetrics,
    claim: crate::claims::ClaimModel,
)
    requires
        crate::journal::schema_a_of(j) == Some(JournalModel::SchemaA { value, metrics, claim }),
        claim_valid(claim),
        policy != SchemaPolicy::SchemaBOnly,
    ensures
        decide_valid(true, j, policy),
        decide_value(true, j, policy) == Some(JournalNumber::Unsigned(value)),
{
}

/// A journal whose claim set is empty is never accepted, whatever the proof
/// outcome and whatever else the journal holds: an empty set asserts no
/// provenance.
pub proof fn lemma_empty_claim_set_rejected(
    j: Seq<u8>,
    policy: SchemaPolicy,
    proof_ok: bool,
    value_bits: u64,
)
    requires
        journal_decoded(j, policy) == Some(
            JournalModel::SchemaB { value_bits, claims: Seq::<crate::claims::ClaimModel>::empty() },
        ),
    ensures
        !decide_valid(proof_ok, j, policy),
{
}

} // verus!
