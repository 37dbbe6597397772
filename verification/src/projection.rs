//! From what the log answers to documents: the entry reference of a write
//! that was accepted, and the rows of a query.

use crate::document::{
    is_writable, Bookmark, BookmarkView, Document, DocumentView, EntryReference,
    EntryReferenceView, Meta, MetaView, LATEST_TIMESTAMP,
};
use crate::error::{QueryError, SubmitError};
use crate::identifier::{
    document_id_is_valid, parses_as_document_id, parses_as_public_key, parses_as_view_id,
    public_key_is_valid, view_id_is_valid,
};
use crate::identity::Identity;
use vstd::prelude::*;

verus! {

/// One document as a query's answer carries it. The metadata is always
/// there; a field is absent where the document was written before the
/// schema had it.
#[derive(Debug, PartialEq, Eq)]
pub struct QueryRow {
    pub document_id: String,
    pub view_id: String,
    pub owner: String,
    pub url: Option<String>,
    pub description: Option<String>,
    pub timestamp: Option<i64>,
}

/// Mathematical value of a [`QueryRow`].
pub struct QueryRowView {
    pub document_id: Seq<char>,
    pub view_id: Seq<char>,
    pub owner: Seq<char>,
    pub url: Option<Seq<char>>,
    pub description: Option<Seq<char>>,
    pub timestamp: Option<i64>,
}

/// The value of an optional text.
pub open spec fn text_view(text: Option<String>) -> Option<Seq<char>> {
    match text {
        Some(t) => Some(t@),
        None => None,
    }
}

impl Clone for QueryRow {
    fn clone(&self) -> (copy: Self)
        ensures
            copy@ == self@,
    {
        QueryRow {
            document_id: self.document_id.clone(),
            view_id: self.view_id.clone(),
            owner: self.owner.clone(),
            url: match &self.url {
                Some(text) => Some(text.clone()),
                None => None,
            },
            description: match &self.description {
                Some(text) => Some(text.clone()),
                None => None,
            },
            timestamp: self.timestamp,
        }
    }
}

impl View for QueryRow {
    type V = QueryRowView;

    open spec fn view(&self) -> QueryRowView {
        QueryRowView {
            document_id: self.document_id@,
            view_id: self.view_id@,
            owner: self.owner@,
            url: text_view(self.url),
            description: text_view(self.description),
            timestamp: self.timestamp,
        }
    }
}

/// Both identifiers of the reference are ones that a log issues.
pub open spec fn entry_is_well_formed(entry: EntryReferenceView) -> bool {
    &&& document_id_is_valid(entry.document_id)
    &&& view_id_is_valid(entry.view_id)
}

/// No field is absent, and the timestamp is not before the epoch.
pub open spec fn row_is_complete(row: QueryRowView) -> bool {
    &&& row.url is Some
    &&& row.description is Some
    &&& row.timestamp is Some
    &&& row.timestamp->0 >= 0
}

/// The metadata is well formed and the row is complete.
pub open spec fn row_is_well_formed(row: QueryRowView) -> bool {
    &&& document_id_is_valid(row.document_id)
    &&& view_id_is_valid(row.view_id)
    &&& public_key_is_valid(row.owner)
    &&& row_is_complete(row)
}

/// The document that a write leaves behind: the identifiers of the entry,
/// the author, and the fields as they were written.
pub open spec fn entry_document(
    entry: EntryReferenceView,
    owner: Seq<char>,
    fields: BookmarkView,
) -> DocumentView {
    DocumentView {
        meta: MetaView { document_id: entry.document_id, view_id: entry.view_id, owner },
        fields,
    }
}

/// The document that a well-formed row stands for.
pub open spec fn row_document(row: QueryRowView) -> DocumentView {
    DocumentView {
        meta: MetaView { document_id: row.document_id, view_id: row.view_id, owner: row.owner },
        fields: BookmarkView {
            url: row.url->0,
            description: row.description->0,
            timestamp: row.timestamp->0 as u64,
        },
    }
}

/// The row by which a query answers with the document `d`.
pub open spec fn document_row(d: DocumentView) -> QueryRowView {
    QueryRowView {
        document_id: d.meta.document_id,
        view_id: d.meta.view_id,
        owner: d.meta.owner,
        url: Some(d.fields.url),
        description: Some(d.fields.description),
        timestamp: Some(d.fields.timestamp as i64),
    }
}

/// The document of a write that the log accepted, made from the entry
/// reference it answered with, the author and the fields just written,
/// without reading anything back.
///
/// A reference whose identifiers no log issues gives `Rejected`, and so do
/// fields that no bookmark is written with.
pub fn from_entry(entry: EntryReference, identity: &Identity, fields: Bookmark) -> (made: Result<
    Document<Bookmark>,
    SubmitError,
>)
    ensures
        match made {
            Ok(d) => entry_is_well_formed(entry@) && is_writable(fields@) && d@ == entry_document(
                entry@,
                identity.public_key_text(),
                fields@,
            ),
            Err(e) => !(entry_is_well_formed(entry@) && is_writable(fields@)) && e
                == SubmitError::Rejected,
        },
{
    let document_id_ok = parses_as_document_id(entry.document_id.as_str());
    let view_id_ok = parses_as_view_id(entry.view_id.as_str());
    from_checked_entry(entry, document_id_ok, view_id_ok, identity.public_key(), fields)
}

/// The document of a write, given what the parsers said of the entry's two
/// identifiers: the document with these identifiers, this owner and these
/// fields where both are identifiers and the fields are ones that a bookmark
/// is written with, and `Rejected` otherwise.
pub fn from_checked_entry(
    entry: EntryReference,
    document_id_ok: bool,
    view_id_ok: bool,
    owner: String,
    fields: Bookmark,
) -> (made: Result<Document<Bookmark>, SubmitError>)
    ensures
        match made {
            Ok(d) => document_id_ok && view_id_ok && is_writable(fields@) && d@ == entry_document(
                entry@,
                owner@,
                fields@,
            ),
            Err(e) => !(document_id_ok && view_id_ok && is_writable(fields@)) && e
                == SubmitError::Rejected,
        },
{
    let writable = !fields.url.as_str().is_empty() && fields.timestamp <= LATEST_TIMESTAMP;
    if document_id_ok && view_id_ok && writable {
        Ok(
            Document {
                meta: Meta { document_id: entry.document_id, view_id: entry.view_id, owner },
                fields,
            },
        )
    } else {
        Err(SubmitError::Rejected)
    }
}

/// The document that a row of a query's answer stands for.
///
/// A row that lacks a field, or whose metadata or timestamp no log writes,
/// gives `MalformedResponse`: nothing is filled in for what is missing.
pub fn from_query_row(row: QueryRow) -> (made: Result<Document<Bookmark>, QueryError>)
    ensures
        match made {
            Ok(d) => row_is_well_formed(row@) && d@ == row_document(row@) && d@.fields.timestamp
                == row@.timestamp->0,
            Err(e) => !row_is_well_formed(row@) && e == QueryError::MalformedResponse,
        },
{
    let document_id_ok = parses_as_document_id(row.document_id.as_str());
    let view_id_ok = parses_as_view_id(row.view_id.as_str());
    let owner_ok = parses_as_public_key(row.owner.as_str());
    from_checked_row(row, document_id_ok, view_id_ok, owner_ok)
}

/// The document that a row stands for, given what the parsers said of its
/// metadata: the document of the row where all three texts were accepted
/// and the row is complete, and `MalformedResponse` otherwise.
pub fn from_checked_row(
    row: QueryRow,
    document_id_ok: bool,
    view_id_ok: bool,
    owner_ok: bool,
) -> (made: Result<Document<Bookmark>, QueryError>)
    ensures
        match made {
            Ok(d) => document_id_ok && view_id_ok && owner_ok && row_is_complete(row@) && d@
                == row_document(row@) && d@.fields.timestamp == row@.timestamp->0,
            Err(e) => !(document_id_ok && view_id_ok && owner_ok && row_is_complete(row@)) && e
                == QueryError::MalformedResponse,
        },
{
    if !(document_id_ok && view_id_ok && owner_ok) {
        return Err(QueryError::MalformedResponse);
    }
    let QueryRow { document_id, view_id, owner, url, description, timestamp } = row;
    match (url, description, timestamp) {
        (Some(url), Some(description), Some(timestamp)) => {
            if timestamp < 0 {
                return Err(QueryError::MalformedResponse);
            }
            Ok(
                Document {
                    meta: Meta { document_id, view_id, owner },
                    fields: Bookmark { url, description, timestamp: timestamp as u64 },
                },
            )
        },
        _ => Err(QueryError::MalformedResponse),
    }
}

/// A document made from the entry of a write and the same document read
/// back by a query agree in every field: the row by which a query answers
/// with the written document is well formed, and stands for that document.
pub proof fn lemma_round_trip(entry: EntryReferenceView, owner: Seq<char>, fields: BookmarkView)
    requires
        entry_is_well_formed(entry),
        public_key_is_valid(owner),
        fields.timestamp <= LATEST_TIMESTAMP,
    ensures
        row_is_well_formed(document_row(entry_document(entry, owner, fields))),
        row_document(document_row(entry_document(entry, owner, fields))) == entry_document(
            entry,
            owner,
            fields,
        ),
{
}

} // verus!
