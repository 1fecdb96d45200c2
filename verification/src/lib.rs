//! Verification backend for cryptographically proven telemetry.
//!
//! A client submits a proof artifact (a receipt) asserting that a program,
//! identified by a 32-byte image identity, executed and produced a journal.
//! This library checks the receipt against the external proof system, decodes
//! the journal under one of two structured schemas, verifies every embedded
//! RSA signature claim, and aggregates everything into a single verdict.

pub mod claims;
pub mod hexid;
pub mod journal;
pub mod pipeline;
pub mod receipt;
pub mod sigcheck;
