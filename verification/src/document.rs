//! The read-facing record: a document with its metadata and typed fields.

use vstd::prelude::*;

verus! {

/// The greatest timestamp that can be written: the log keeps integers as
/// signed numbers of 64 bits.
pub const LATEST_TIMESTAMP: u64 = 0x7fff_ffff_ffff_ffff;

/// The fields of a bookmark document.
#[derive(Debug, PartialEq, Eq)]
pub struct Bookmark {
    pub url: String,
    pub description: String,
    /// Seconds since the Unix epoch at which the bookmark was written.
    pub timestamp: u64,
}

/// What identifies a document revision and its author. All three are kept in
/// their text form: identifiers as hexadecimal hashes, the owner as a
/// hexadecimal public key.
#[derive(Debug, PartialEq, Eq)]
pub struct Meta {
    pub document_id: String,
    pub view_id: String,
    pub owner: String,
}

/// A materialized document.
#[derive(Debug, PartialEq, Eq)]
pub struct Document<T> {
    pub meta: Meta,
    pub fields: T,
}

/// The pair that the log issues for an accepted entry.
#[derive(Debug, PartialEq, Eq)]
pub struct EntryReference {
    pub document_id: String,
    pub view_id: String,
}

/// Mathematical value of a [`Bookmark`].
pub struct BookmarkView {
    pub url: Seq<char>,
    pub description: Seq<char>,
    pub timestamp: u64,
}

/// The fields are ones that a bookmark can be written with: the url is not
/// empty, and the timestamp is one that the log's integers hold.
pub open spec fn is_writable(fields: BookmarkView) -> bool {
    &&& fields.url.len() > 0
    &&& fields.timestamp <= LATEST_TIMESTAMP
}

/// Mathematical value of a [`Meta`].
pub struct MetaView {
    pub document_id: Seq<char>,
    pub view_id: Seq<char>,
    pub owner: Seq<char>,
}

/// Mathematical value of a bookmark [`Document`].
pub struct DocumentView {
    pub meta: MetaView,
    pub fields: BookmarkView,
}

/// Mathematical value of an [`EntryReference`].
pub struct EntryReferenceView {
    pub document_id: Seq<char>,
    pub view_id: Seq<char>,
}

impl View for Bookmark {
    type V = BookmarkView;

    open spec fn view(&self) -> BookmarkView {
        BookmarkView {
            url: self.url@,
            description: self.description@,
            timestamp: self.timestamp,
        }
    }
}

impl View for Meta {
    type V = MetaView;

    open spec fn view(&self) -> MetaView {
        MetaView {
            document_id: self.document_id@,
            view_id: self.view_id@,
            owner: self.owner@,
        }
    }
}

impl View for Document<Bookmark> {
    type V = DocumentView;

    open spec fn view(&self) -> DocumentView {
        DocumentView { meta: self.meta@, fields: self.fields@ }
    }
}

impl View for EntryReference {
    type V = EntryReferenceView;

    open spec fn view(&self) -> EntryReferenceView {
        EntryReferenceView { document_id: self.document_id@, view_id: self.view_id@ }
    }
}

impl Clone for Bookmark {
    fn clone(&self) -> (copy: Self)
        ensures
            copy == *self,
    {
        Bookmark {
            url: self.url.clone(),
            description: self.description.clone(),
            timestamp: self.timestamp,
        }
    }
}

impl Clone for Meta {
    fn clone(&self) -> (copy: Self)
        ensures
            copy == *self,
    {
        Meta {
            document_id: self.document_id.clone(),
            view_id: self.view_id.clone(),
            owner: self.owner.clone(),
        }
    }
}

impl Clone for Document<Bookmark> {
    fn clone(&self) -> (copy: Self)
        ensures
            copy == *self,
    {
        Document { meta: self.meta.clone(), fields: self.fields.clone() }
    }
}

impl Clone for EntryReference {
    fn clone(&self) -> (copy: Self)
        ensures
            copy == *self,
    {
        EntryReference { document_id: self.document_id.clone(), view_id: self.view_id.clone() }
    }
}

impl EntryReference {
    /// The reference to a document's first revision: the hash of the entry
    /// that created the document names both the document and that revision.
    pub fn of_entry(entry_hash: String) -> (entry: EntryReference)
        ensures
            entry@.document_id == entry_hash@,
            entry@.view_id == entry_hash@,
    {
        EntryReference { document_id: entry_hash.clone(), view_id: entry_hash }
    }
}

/// The values of a sequence of documents, in the same order.
pub open spec fn views(documents: Seq<Document<Bookmark>>) -> Seq<DocumentView> {
    documents.map_values(|d: Document<Bookmark>| d@)
}

} // verus!
