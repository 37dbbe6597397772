//! Submitting a write: what the log's reply comes to.
//!
//! The operation is signed and sent by the caller. A write is tried once:
//! whether to try again after a failure is for the caller to decide.

use crate::document::{EntryReference, EntryReferenceView};
use crate::error::{SubmitError, TransportFailure};
use crate::identifier::{
    is_hash, lemma_hash_is_view_id, parses_as_document_id, parses_as_view_id,
};
use crate::projection::entry_is_well_formed;
use vstd::prelude::*;

verus! {

/// How the log answered a write.
#[derive(Debug, PartialEq, Eq)]
pub enum SubmitReply {
    /// The log took the entry; this is the entry's hash.
    Accepted(String),
    /// The log refused the entry.
    Rejected,
    /// The endpoint could not be reached.
    Unreachable,
    /// The endpoint did not answer in time.
    Timeout,
}

impl SubmitReply {
    /// The reply that a failed request to the log stands for. An answer
    /// that cannot be read names no entry, so it counts as a refusal.
    pub fn failed(failure: TransportFailure) -> (reply: SubmitReply)
        ensures
            reply == match failure {
                TransportFailure::Refused => SubmitReply::Rejected,
                TransportFailure::Unreadable => SubmitReply::Rejected,
                TransportFailure::Unreachable => SubmitReply::Unreachable,
                TransportFailure::TimedOut => SubmitReply::Timeout,
            },
    {
        match failure {
            TransportFailure::Refused => SubmitReply::Rejected,
            TransportFailure::Unreadable => SubmitReply::Rejected,
            TransportFailure::Unreachable => SubmitReply::Unreachable,
            TransportFailure::TimedOut => SubmitReply::Timeout,
        }
    }
}

/// The reference to the entry of a write is `submitted`, given the log's
/// reply.
///
/// Where the log took the entry, its hash names both the new document and
/// the document's first revision; a hash that is no identifier counts as
/// `Rejected`. Every other reply gives the error of its name.
pub open spec fn acknowledges(
    submitted: Result<EntryReference, SubmitError>,
    reply: SubmitReply,
) -> bool {
    match reply {
        SubmitReply::Accepted(hash) => {
            let entry = EntryReferenceView { document_id: hash@, view_id: hash@ };
            if entry_is_well_formed(entry) {
                submitted matches Ok(issued) && issued@ == entry
            } else {
                submitted matches Err(e) && e == SubmitError::Rejected
            }
        },
        SubmitReply::Rejected => submitted matches Err(e) && e == SubmitError::Rejected,
        SubmitReply::Unreachable => submitted matches Err(e) && e == SubmitError::Unreachable,
        SubmitReply::Timeout => submitted matches Err(e) && e == SubmitError::Timeout,
    }
}

/// The reference to the entry of a write, given the log's reply. An accepted
/// entry gives its reference exactly where its hash is the text form of a
/// hash.
pub fn submitted(reply: SubmitReply) -> (submitted: Result<EntryReference, SubmitError>)
    ensures
        acknowledges(submitted, reply),
        reply matches SubmitReply::Accepted(hash) ==> (submitted is Ok <==> is_hash(hash@)),
{
    match reply {
        SubmitReply::Accepted(hash) => {
            let document_id_ok = parses_as_document_id(hash.as_str());
            let view_id_ok = parses_as_view_id(hash.as_str());
            proof {
                if is_hash(hash@) {
                    lemma_hash_is_view_id(hash@);
                }
            }
            if document_id_ok && view_id_ok {
                Ok(EntryReference::of_entry(hash))
            } else {
                Err(SubmitError::Rejected)
            }
        },
        SubmitReply::Rejected => Err(SubmitError::Rejected),
        SubmitReply::Unreachable => Err(SubmitError::Unreachable),
        SubmitReply::Timeout => Err(SubmitError::Timeout),
    }
}

} // verus!
