//! The bookmark client: what it asks of the node, and what it makes of the
//! answers.
//!
//! The client sends nothing itself. For a write the caller takes the
//! operation from [`Client::prepare_bookmark`], signs and sends it, and hands
//! the log's reply to [`Client::add_bookmark`]. For a read the caller sends
//! the text from [`Client::all_bookmarks_query`] and hands the reply to
//! [`Client::all_bookmarks`].

use crate::document::{
    Bookmark, BookmarkView, Document, DocumentView, EntryReferenceView, LATEST_TIMESTAMP,
};
use crate::error::{BuildError, QueryError, SubmitError};
use crate::identifier::public_key_is_valid;
use crate::identity::Identity;
use crate::operation::{
    assigned, build, field_views, plain_operation_of, schema_id_is_valid, shape_is_complete,
    Field, FieldValue, FieldValueView, FieldView, Operation,
};
use crate::projection::{
    document_row, entry_document, entry_is_well_formed, from_checked_entry, lemma_round_trip,
    row_document, QueryRowView,
};
use crate::collection::{lemma_project_exact, project};
use crate::filter::{accepts, filter_view, Predicate, PredicateView, TextField};
use crate::query::{answers, query_all, query_text, query_text_of, rows_documents, QueryReply};
use crate::submission::{submitted, SubmitReply};
use vstd::prelude::*;
use vstd::string::StringExecFns;

verus! {

/// Where the node listens for queries and entries.
pub const NODE_ENDPOINT: &'static str = "http://localhost:2020/graphql";

/// The schema that bookmarks are written and read under.
pub const BOOKMARKS_SCHEMA_ID: &'static str =
    "bookmarks_0020017dbdd0193158a00a62a9a8e382d1daa7120de5f3243c8b380f9d0f74e7c524";

/// The filter that a search for `query` stands for: the description contains
/// the text. Without a text there is no filter.
pub open spec fn search_filter(query: Option<Seq<char>>) -> Option<PredicateView> {
    match query {
        Some(text) => Some(PredicateView::Contains { field: TextField::Description, text }),
        None => None,
    }
}

/// The value of an optional search text.
pub open spec fn query_view(query: Option<String>) -> Option<Seq<char>> {
    match query {
        Some(text) => Some(text@),
        None => None,
    }
}

/// The assignments that write a bookmark.
pub open spec fn bookmark_fields(url: Seq<char>, description: Seq<char>, timestamp: u64) -> Seq<
    FieldView,
> {
    seq![
        FieldView { name: "url"@, value: FieldValueView::Text(url) },
        FieldView { name: "description"@, value: FieldValueView::Text(description) },
        FieldView { name: "timestamp"@, value: FieldValueView::Integer(timestamp as i64) },
    ]
}

/// The assignments that write a bookmark are complete exactly where the url
/// is not empty.
pub proof fn lemma_bookmark_fields_complete(
    url: Seq<char>,
    description: Seq<char>,
    timestamp: u64,
)
    ensures
        shape_is_complete(bookmark_fields(url, description, timestamp)) <==> url.len() > 0,
{
    reveal_strlit("url");
    reveal_strlit("description");
    reveal_strlit("timestamp");
    reveal_with_fuel(assigned, 4);
    let fields = bookmark_fields(url, description, timestamp);
    assert("url"@.len() == 3);
    assert("description"@.len() == 11);
    assert("timestamp"@.len() == 9);
    assert(fields.drop_first().drop_first()[0] == fields[2]);
    assert(fields.drop_first()[0] == fields[1]);
}

/// No two rows of an answer stand for one document.
pub open spec fn documents_are_distinct(rows: Seq<QueryRowView>) -> bool {
    forall|i: int, j: int|
        0 <= i < j < rows.len() ==> (#[trigger] rows[i]).document_id != (
        #[trigger] rows[j]).document_id
}

/// A bookmark that was written is read back as it was written. Where the
/// node's answer holds the row of the written document, and no other row
/// under its identifier, and the document passes the filter, the query's
/// result holds that very document, and every document that it holds under
/// that identifier agrees with the written one in every field.
pub proof fn lemma_written_bookmark_is_listed(
    entry: EntryReferenceView,
    owner: Seq<char>,
    fields: BookmarkView,
    rows: Seq<QueryRowView>,
    filter: Option<PredicateView>,
)
    requires
        entry_is_well_formed(entry),
        public_key_is_valid(owner),
        fields.timestamp <= LATEST_TIMESTAMP,
        rows.contains(document_row(entry_document(entry, owner, fields))),
        documents_are_distinct(rows),
        accepts(filter, entry_document(entry, owner, fields)),
    ensures
        project(rows_documents(rows), filter).contains(entry_document(entry, owner, fields)),
        forall|d: DocumentView|
            project(rows_documents(rows), filter).contains(d) && d.meta.document_id
                == entry.document_id ==> d == entry_document(entry, owner, fields),
{
    let written = entry_document(entry, owner, fields);
    let listed = project(rows_documents(rows), filter);
    lemma_round_trip(entry, owner, fields);
    let i = choose|i: int| 0 <= i < rows.len() && rows[i] == document_row(written);
    assert(rows_documents(rows)[i] == written);
    lemma_project_exact(rows_documents(rows), filter);
    assert forall|d: DocumentView|
        listed.contains(d) && d.meta.document_id == entry.document_id implies d == written by {
        let read = rows_documents(rows);
        assert(read.contains(d));
        let j = choose|j: int| 0 <= j < read.len() && read[j] == d;
        assert(read[j] == row_document(rows[j]));
        assert(rows[j].document_id == rows[i].document_id);
        if i < j {
            assert(rows[i].document_id != rows[j].document_id);
        }
        if j < i {
            assert(rows[j].document_id != rows[i].document_id);
        }
    }
}

/// A client with an identity of its own.
pub struct Client {
    identity: Identity,
}

impl Client {
    /// The public key under which this client writes, in its text form.
    pub closed spec fn owner(&self) -> Seq<char> {
        self.identity.public_key_text()
    }

    /// A client with a fresh identity.
    pub fn new() -> (client: Client)
        ensures
            public_key_is_valid(client.owner()),
    {
        Client { identity: Identity::create() }
    }

    /// The identity under which this client writes.
    pub fn identity(&self) -> (identity: &Identity)
        ensures
            identity.public_key_text() == self.owner(),
    {
        &self.identity
    }

    /// The text of the query for all bookmarks, or for those whose
    /// description contains `query`.
    pub fn all_bookmarks_query(query: &Option<String>) -> (text: String)
        ensures
            text@ == query_text_of(BOOKMARKS_SCHEMA_ID@, search_filter(query_view(*query))),
    {
        let filter = Self::filter_of(query);
        query_text(BOOKMARKS_SCHEMA_ID, &filter)
    }

    /// What a query for all bookmarks, or for those whose description
    /// contains `query`, comes to, given the node's reply: what
    /// [`query_all`] makes of the reply under the filter that the search
    /// stands for.
    pub fn all_bookmarks(&self, query: &Option<String>, reply: QueryReply) -> (listed: Result<
        Vec<Document<Bookmark>>,
        QueryError,
    >)
        ensures
            answers(listed, search_filter(query_view(*query)), reply),
    {
        let filter = Self::filter_of(query);
        query_all(&filter, reply)
    }

    /// The operation that writes a bookmark with these fields, stamped with
    /// `timestamp`, the seconds since the Unix epoch at which it is written.
    /// The timestamp tells apart two writes of the same url and description.
    /// It must be one that the log's integers hold, so that what is written
    /// is what was meant.
    ///
    /// An empty `url` gives `MissingField`: nothing is to be signed or sent
    /// for it.
    pub fn prepare_bookmark(&self, url: &str, description: &str, timestamp: u64) -> (prepared:
        Result<Operation, BuildError>)
        requires
            timestamp <= LATEST_TIMESTAMP,
        ensures
            match prepared {
                Ok(operation) => {
                    &&& schema_id_is_valid(BOOKMARKS_SCHEMA_ID@)
                    &&& url@.len() > 0
                    &&& operation.schema_id_text() == BOOKMARKS_SCHEMA_ID@
                    &&& operation.assignments() == bookmark_fields(url@, description@, timestamp)
                    &&& operation.plain_form() == plain_operation_of(
                        BOOKMARKS_SCHEMA_ID@,
                        bookmark_fields(url@, description@, timestamp),
                    )
                },
                Err(BuildError::InvalidSchema) => !schema_id_is_valid(BOOKMARKS_SCHEMA_ID@),
                Err(BuildError::MissingField) => schema_id_is_valid(BOOKMARKS_SCHEMA_ID@)
                    && url@.len() == 0,
            },
    {
        let mut fields: Vec<Field> = Vec::new();
        fields.push(
            Field { name: String::from_str("url"), value: FieldValue::Text(String::from_str(url)) },
        );
        fields.push(
            Field {
                name: String::from_str("description"),
                value: FieldValue::Text(String::from_str(description)),
            },
        );
        fields.push(
            Field {
                name: String::from_str("timestamp"),
                value: FieldValue::Integer(timestamp as i64),
            },
        );
        proof {
            let wanted = bookmark_fields(url@, description@, timestamp);
            assert(field_views(fields@) =~= wanted);
            lemma_bookmark_fields_complete(url@, description@, timestamp);
        }
        build(BOOKMARKS_SCHEMA_ID, fields)
    }

    /// What the write of a bookmark comes to, given the log's reply. The
    /// arguments are those that the operation was prepared with, so the url
    /// is not empty and the timestamp is one that the log's integers hold.
    ///
    /// Where the log took the entry, the document is made from the entry's
    /// hash, this client's public key and the fields that were written,
    /// without reading anything back; an accepted entry whose hash is no
    /// identifier counts as `Rejected`. Every other reply gives the error of
    /// its name.
    pub fn add_bookmark(
        &self,
        url: &str,
        description: &str,
        timestamp: u64,
        reply: SubmitReply,
    ) -> (added: Result<Document<Bookmark>, SubmitError>)
        requires
            url@.len() > 0,
            timestamp <= LATEST_TIMESTAMP,
        ensures
            match reply {
                SubmitReply::Accepted(hash) => {
                    let entry = EntryReferenceView { document_id: hash@, view_id: hash@ };
                    if entry_is_well_formed(entry) {
                        added matches Ok(d) && d@ == entry_document(
                            entry,
                            self.owner(),
                            BookmarkView { url: url@, description: description@, timestamp },
                        )
                    } else {
                        added matches Err(e) && e == SubmitError::Rejected
                    }
                },
                SubmitReply::Rejected => added matches Err(e) && e == SubmitError::Rejected,
                SubmitReply::Unreachable => added matches Err(e) && e == SubmitError::Unreachable,
                SubmitReply::Timeout => added matches Err(e) && e == SubmitError::Timeout,
            },
    {
        let entry = match submitted(reply) {
            Ok(entry) => entry,
            Err(error) => {
                return Err(error);
            },
        };
        let fields = Bookmark {
            url: String::from_str(url),
            description: String::from_str(description),
            timestamp,
        };
        from_checked_entry(entry, true, true, self.identity.public_key(), fields)
    }

    /// The filter that a search for `query` stands for.
    fn filter_of(query: &Option<String>) -> (filter: Option<Predicate>)
        ensures
            filter_view(filter) == search_filter(query_view(*query)),
    {
        match query {
            Some(text) => Some(
                Predicate::Contains { field: TextField::Description, text: text.clone() },
            ),
            None => None,
        }
    }
}

} // verus!
