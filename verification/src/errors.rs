//! The canonical error taxonomy shared by every node and workload.
//!
//! An `error` payload on the wire carries a numeric `code` drawn from
//! this fixed catalogue, plus a human-readable `text`. Codes up to 14
//! are generic to any node; the remaining codes are reserved for
//! storage and transaction workloads built on top of the core, so that
//! all collaborators share one vocabulary.

use vstd::prelude::*;
use vstd::string::StrSliceExecFns;
use vstd::string::StringSliceAdditionalSpecFns;

verus! {

/// The fixed catalogue of error kinds a reply may signal.
#[derive(Clone, Copy, Debug, PartialEq, Eq, Structural)]
pub enum ErrorCode {
    /// The operation exceeded its deadline.
    Timeout,
    /// The addressed node is unknown or unreachable.
    NodeNotFound,
    /// The payload kind has no registered handler.
    NotSupported,
    /// Transient inability to serve the request.
    Unavailable,
    /// The request body failed validation.
    Malformed,
    /// A handler failed unexpectedly.
    Crashed,
    /// The operation was intentionally cancelled.
    Aborted,
    /// A referenced key is absent (storage workloads).
    KeyNotExist,
    /// Key uniqueness was violated (storage workloads).
    KeyAlreadyExist,
    /// A conditional write's precondition failed.
    PreconditionFailed,
    /// A transactional write conflict was detected.
    TxConflict,
}

impl ErrorCode {
    /// The numeric wire code of this error kind.
    pub open spec fn spec_code(self) -> u64 {
        match self {
            ErrorCode::Timeout => 0,
            ErrorCode::NodeNotFound => 1,
            ErrorCode::NotSupported => 10,
            ErrorCode::Unavailable => 11,
            ErrorCode::Malformed => 12,
            ErrorCode::Crashed => 13,
            ErrorCode::Aborted => 14,
            ErrorCode::KeyNotExist => 20,
            ErrorCode::KeyAlreadyExist => 21,
            ErrorCode::PreconditionFailed => 22,
            ErrorCode::TxConflict => 30,
        }
    }

    /// The canonical human-readable text for this error kind, as the
    /// UTF-8 bytes that an `error` payload carries in its `text` field.
    pub open spec fn spec_text(self) -> Seq<u8> {
        match self {
            ErrorCode::Timeout => vstd::utf8::encode_utf8("Timed out"@),
            ErrorCode::NodeNotFound => vstd::utf8::encode_utf8("Node not found"@),
            ErrorCode::NotSupported => vstd::utf8::encode_utf8("Operation not supported"@),
            ErrorCode::Unavailable => vstd::utf8::encode_utf8("Temporarily unavailable"@),
            ErrorCode::Malformed => vstd::utf8::encode_utf8("Malformed request"@),
            ErrorCode::Crashed => vstd::utf8::encode_utf8("Crashed"@),
            ErrorCode::Aborted => vstd::utf8::encode_utf8("Aborted"@),
            ErrorCode::KeyNotExist => vstd::utf8::encode_utf8("Key does not exist"@),
            ErrorCode::KeyAlreadyExist => vstd::utf8::encode_utf8("Key already exists"@),
            ErrorCode::PreconditionFailed => vstd::utf8::encode_utf8("Precondition failed"@),
            ErrorCode::TxConflict => vstd::utf8::encode_utf8("Transaction conflict"@),
        }
    }

    /// The numeric wire code of this error kind.
    pub fn code(&self) -> (c: u64)
        ensures
            c == self.spec_code(),
    {
        match self {
            ErrorCode::Timeout => 0,
            ErrorCode::NodeNotFound => 1,
            ErrorCode::NotSupported => 10,
            ErrorCode::Unavailable => 11,
            ErrorCode::Malformed => 12,
            ErrorCode::Crashed => 13,
            ErrorCode::Aborted => 14,
            ErrorCode::KeyNotExist => 20,
            ErrorCode::KeyAlreadyExist => 21,
            ErrorCode::PreconditionFailed => 22,
            ErrorCode::TxConflict => 30,
        }
    }

    /// The error kind a numeric wire code denotes, if the code is in
    /// the catalogue.
    pub fn from_code(c: u64) -> (r: Option<ErrorCode>)
        ensures
            match r {
                Some(e) => e.spec_code() == c,
                None => forall|e: ErrorCode| e.spec_code() != c,
            },
    {
        match c {
            0 => Some(ErrorCode::Timeout),
            1 => Some(ErrorCode::NodeNotFound),
            10 => Some(ErrorCode::NotSupported),
            11 => Some(ErrorCode::Unavailable),
            12 => Some(ErrorCode::Malformed),
            13 => Some(ErrorCode::Crashed),
            14 => Some(ErrorCode::Aborted),
            20 => Some(ErrorCode::KeyNotExist),
            21 => Some(ErrorCode::KeyAlreadyExist),
            22 => Some(ErrorCode::PreconditionFailed),
            30 => Some(ErrorCode::TxConflict),
            _ => None,
        }
    }

    /// The canonical human-readable text for this error kind.
    pub fn text(&self) -> (t: Vec<u8>)
        ensures
            t@ == self.spec_text(),
    {
        match self {
            ErrorCode::Timeout => "Timed out".as_bytes_vec(),
            ErrorCode::NodeNotFound => "Node not found".as_bytes_vec(),
            ErrorCode::NotSupported => "Operation not supported".as_bytes_vec(),
            ErrorCode::Unavailable => "Temporarily unavailable".as_bytes_vec(),
            ErrorCode::Malformed => "Malformed request".as_bytes_vec(),
            ErrorCode::Crashed => "Crashed".as_bytes_vec(),
            ErrorCode::Aborted => "Aborted".as_bytes_vec(),
            ErrorCode::KeyNotExist => "Key does not exist".as_bytes_vec(),
            ErrorCode::KeyAlreadyExist => "Key already exists".as_bytes_vec(),
            ErrorCode::PreconditionFailed => "Precondition failed".as_bytes_vec(),
            ErrorCode::TxConflict => "Transaction conflict".as_bytes_vec(),
        }
    }
}

/// Every code in the catalogue denotes exactly one error kind: mapping
/// a kind to its code and back yields the kind again.
pub proof fn lemma_code_taxonomy_injective(a: ErrorCode, b: ErrorCode)
    ensures
        a.spec_code() == b.spec_code() ==> a == b,
{
}

} // verus!
