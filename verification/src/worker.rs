//! The worker's side of the bus: one request at a time, from the delivery of
//! a message to the answer that is published for it.
//!
//! The worker neither receives nor sends. Its caller hands it each delivery
//! and does what the resulting [`Turn`] says: receive the next delivery,
//! publish a message, or send something to the node and hand the reply back.
//! A worker that waits for a reply takes no delivery, so a request is
//! answered before the next is looked at; and whatever the reply, the caller
//! gets the worker back with a message to publish, so a failed request does
//! not end the worker.

use crate::client::{bookmark_fields, query_view, search_filter, Client, BOOKMARKS_SCHEMA_ID};
use crate::collection::project;
use crate::document::{BookmarkView, EntryReferenceView, LATEST_TIMESTAMP};
use crate::error::{BuildError, BusDeliveryMiss, QueryError, SubmitError};
use crate::identity::Identity;
use crate::message::{
    is_answer, worker_passes_over, Delivery, Failure, Message, MessageView,
};
use crate::operation::{plain_operation_of, schema_id_is_valid, Operation};
use crate::projection::{entry_document, entry_is_well_formed};
use crate::query::{query_text_of, row_views, rows_are_well_formed, rows_documents, QueryReply};
use crate::submission::SubmitReply;
use vstd::prelude::*;

verus! {

/// A worker that waits for the next delivery.
pub struct Worker {
    client: Client,
}

/// A worker that waits for the node's reply to a query.
pub struct PendingQuery {
    worker: Worker,
    query: Option<String>,
}

/// A worker that waits for the log's reply to a write.
pub struct PendingAdd {
    worker: Worker,
    url: String,
    description: String,
    timestamp: u64,
}

/// What the caller is to do after a delivery.
pub enum Turn {
    /// The message was not meant for the worker: receive the next.
    Receive(Worker),
    /// Messages were lost to the worker: make it known, then receive the
    /// next.
    Missed(Worker, BusDeliveryMiss),
    /// The request failed before anything was sent: publish this message,
    /// then receive the next.
    Publish(Worker, Message),
    /// Send this query to the node, and hand the reply to
    /// [`PendingQuery::answered`].
    Query(PendingQuery, String),
    /// Sign this operation, send it to the log, and hand the reply to
    /// [`PendingAdd::answered`].
    Submit(PendingAdd, Operation),
    /// The bus is closed: stop.
    Stop,
}

/// The clock gave a time that a bookmark can be stamped with: one at or
/// after the Unix epoch that the log's integers hold.
pub open spec fn clock_is_usable(now: Option<u64>) -> bool {
    now matches Some(seconds) && seconds <= LATEST_TIMESTAMP
}

/// The message that answers a query, given the node's reply.
pub open spec fn query_outcome(reply: QueryReply, query: Option<Seq<char>>) -> MessageView {
    match reply {
        QueryReply::Unreachable => MessageView::RequestFailed(
            Failure::Query(QueryError::Unreachable),
        ),
        QueryReply::Malformed => MessageView::RequestFailed(
            Failure::Query(QueryError::MalformedResponse),
        ),
        QueryReply::Rows(rows) => if rows_are_well_formed(row_views(rows@)) {
            MessageView::GetAllBookmarksResponse(
                project(rows_documents(row_views(rows@)), search_filter(query)),
            )
        } else {
            MessageView::RequestFailed(Failure::Query(QueryError::MalformedResponse))
        },
    }
}

/// The message that answers a request to add a bookmark, given the log's
/// reply.
pub open spec fn add_outcome(
    reply: SubmitReply,
    owner: Seq<char>,
    fields: BookmarkView,
) -> MessageView {
    match reply {
        SubmitReply::Accepted(hash) => {
            let entry = EntryReferenceView { document_id: hash@, view_id: hash@ };
            if entry_is_well_formed(entry) {
                MessageView::AddBookmarkResponse(entry_document(entry, owner, fields))
            } else {
                MessageView::RequestFailed(Failure::Submit(SubmitError::Rejected))
            }
        },
        SubmitReply::Rejected => MessageView::RequestFailed(Failure::Submit(SubmitError::Rejected)),
        SubmitReply::Unreachable => MessageView::RequestFailed(
            Failure::Submit(SubmitError::Unreachable),
        ),
        SubmitReply::Timeout => MessageView::RequestFailed(Failure::Submit(SubmitError::Timeout)),
    }
}

impl Worker {
    /// The public key under which the worker writes, in its text form.
    pub closed spec fn owner(&self) -> Seq<char> {
        self.client.owner()
    }

    /// A worker that writes and reads through `client`.
    pub fn new(client: Client) -> (worker: Worker)
        ensures
            worker.owner() == client.owner(),
    {
        Worker { client }
    }

    /// What the worker makes of a delivery that came at `now`: the seconds
    /// since the Unix epoch, or nothing where the clock stands before it.
    ///
    /// A request for bookmarks becomes a query to send. A request to add a
    /// bookmark becomes an operation to sign and send, stamped with `now`;
    /// where the clock gave no time that can be written, or no operation can
    /// be built, the failure is to be published instead and nothing is sent.
    /// Answers and failures are passed over: they are not meant for the
    /// worker. Missed messages are reported with their number, and a closed
    /// bus stops the worker.
    pub fn deliver(self, delivery: Delivery, now: Option<u64>) -> (turn: Turn)
        ensures
            turn is Receive <==> worker_passes_over(delivery),
            turn matches Turn::Publish(_, message) ==> is_answer(message@),
            match delivery {
                Delivery::Message(Message::GetAllBookmarksRequest(query)) => {
                    &&& turn matches Turn::Query(pending, text)
                    &&& pending.owner() == self.owner()
                    &&& pending.query() == query_view(query)
                    &&& text@ == query_text_of(
                        BOOKMARKS_SCHEMA_ID@,
                        search_filter(query_view(query)),
                    )
                },
                Delivery::Message(Message::AddBookmarkRequest(url, description)) => {
                    if !clock_is_usable(now) {
                        &&& turn matches Turn::Publish(worker, message)
                        &&& worker.owner() == self.owner()
                        &&& message@ == MessageView::RequestFailed(Failure::Clock)
                    } else if !schema_id_is_valid(BOOKMARKS_SCHEMA_ID@) {
                        &&& turn matches Turn::Publish(worker, message)
                        &&& worker.owner() == self.owner()
                        &&& message@ == MessageView::RequestFailed(
                            Failure::Build(BuildError::InvalidSchema),
                        )
                    } else if url@.len() == 0 {
                        &&& turn matches Turn::Publish(worker, message)
                        &&& worker.owner() == self.owner()
                        &&& message@ == MessageView::RequestFailed(
                            Failure::Build(BuildError::MissingField),
                        )
                    } else {
                        &&& turn matches Turn::Submit(pending, operation)
                        &&& pending.owner() == self.owner()
                        &&& pending.fields() == (BookmarkView {
                            url: url@,
                            description: description@,
                            timestamp: now->0,
                        })
                        &&& operation.schema_id_text() == BOOKMARKS_SCHEMA_ID@
                        &&& operation.assignments() == bookmark_fields(
                            url@,
                            description@,
                            now->0,
                        )
                        &&& operation.plain_form() == plain_operation_of(
                            BOOKMARKS_SCHEMA_ID@,
                            bookmark_fields(url@, description@, now->0),
                        )
                    }
                },
                Delivery::Message(Message::GetAllBookmarksResponse(_)) => {
                    &&& turn matches Turn::Receive(worker)
                    &&& worker.owner() == self.owner()
                },
                Delivery::Message(Message::AddBookmarkResponse(_)) => turn matches Turn::Receive(
                    worker,
                ) && worker.owner() == self.owner(),
                Delivery::Message(Message::RequestFailed(_)) => turn matches Turn::Receive(worker)
                    && worker.owner() == self.owner(),
                Delivery::Missed(miss) => turn matches Turn::Missed(worker, seen) && seen == miss
                    && worker.owner() == self.owner(),
                Delivery::Closed => turn is Stop,
            },
    {
        match delivery {
            Delivery::Message(Message::GetAllBookmarksRequest(query)) => {
                let text = Client::all_bookmarks_query(&query);
                Turn::Query(PendingQuery { worker: self, query }, text)
            },
            Delivery::Message(Message::AddBookmarkRequest(url, description)) => {
                let timestamp = match now {
                    Some(seconds) if seconds <= LATEST_TIMESTAMP => seconds,
                    _ => {
                        return Turn::Publish(self, Message::RequestFailed(Failure::Clock));
                    },
                };
                match self.client.prepare_bookmark(url.as_str(), description.as_str(), timestamp) {
                    Ok(operation) => Turn::Submit(
                        PendingAdd { worker: self, url, description, timestamp },
                        operation,
                    ),
                    Err(error) => Turn::Publish(
                        self,
                        Message::RequestFailed(Failure::Build(error)),
                    ),
                }
            },
            Delivery::Message(Message::GetAllBookmarksResponse(_)) => Turn::Receive(self),
            Delivery::Message(Message::AddBookmarkResponse(_)) => Turn::Receive(self),
            Delivery::Message(Message::RequestFailed(_)) => Turn::Receive(self),
            Delivery::Missed(miss) => Turn::Missed(self, miss),
            Delivery::Closed => Turn::Stop,
        }
    }
}

impl PendingQuery {
    /// The public key under which the worker writes, in its text form.
    pub closed spec fn owner(&self) -> Seq<char> {
        self.worker.owner()
    }

    /// The text that was searched for, if any.
    pub closed spec fn query(&self) -> Option<Seq<char>> {
        query_view(self.query)
    }

    /// The worker, free for the next delivery, and the message to publish:
    /// the bookmarks that were asked for, or the failure.
    pub fn answered(self, reply: QueryReply) -> (next: (Worker, Message))
        ensures
            next.0.owner() == self.owner(),
            next.1@ == query_outcome(reply, self.query()),
            is_answer(next.1@),
    {
        let message = match self.worker.client.all_bookmarks(&self.query, reply) {
            Ok(documents) => Message::GetAllBookmarksResponse(documents),
            Err(error) => Message::RequestFailed(Failure::Query(error)),
        };
        (self.worker, message)
    }
}

impl PendingAdd {
    /// The public key under which the worker writes, in its text form.
    pub closed spec fn owner(&self) -> Seq<char> {
        self.worker.owner()
    }

    /// The fields that were sent to be written.
    pub closed spec fn fields(&self) -> BookmarkView {
        BookmarkView { url: self.url@, description: self.description@, timestamp: self.timestamp }
    }

    /// What is waited for is the write of a bookmark that could be prepared:
    /// its url is not empty, and its timestamp is one that the log holds.
    #[verifier::type_invariant]
    spec fn well_formed(&self) -> bool {
        &&& self.url@.len() > 0
        &&& self.timestamp <= LATEST_TIMESTAMP
    }

    /// The identity under which the operation is to be signed.
    pub fn identity(&self) -> (identity: &Identity)
        ensures
            identity.public_key_text() == self.owner(),
    {
        self.worker.client.identity()
    }

    /// The worker, free for the next delivery, and the message to publish:
    /// the bookmark that was written, or the failure.
    pub fn answered(self, reply: SubmitReply) -> (next: (Worker, Message))
        ensures
            next.0.owner() == self.owner(),
            next.1@ == add_outcome(reply, self.owner(), self.fields()),
            is_answer(next.1@),
    {
        proof {
            use_type_invariant(&self);
        }
        let added = self.worker.client.add_bookmark(
            self.url.as_str(),
            self.description.as_str(),
            self.timestamp,
            reply,
        );
        let message = match added {
            Ok(document) => Message::AddBookmarkResponse(document),
            Err(error) => Message::RequestFailed(Failure::Submit(error)),
        };
        (self.worker, message)
    }
}

} // verus!
