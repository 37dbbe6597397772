//! The messages that travel between the interface and the worker, and what
//! a subscriber of the bus is handed.

use crate::document::{views, Bookmark, Document, DocumentView};
use crate::error::{BuildError, BusDeliveryMiss, QueryError, SubmitError};
use vstd::prelude::*;

verus! {

/// Why a request got no result.
#[derive(Clone, Copy, Debug, PartialEq, Eq, Structural)]
pub enum Failure {
    Build(BuildError),
    Submit(SubmitError),
    Query(QueryError),
    /// The clock gave no time that a bookmark can be stamped with: one
    /// before the Unix epoch, or beyond what the log's integers hold.
    Clock,
}

/// A request of the interface, or the worker's answer to one. Each side
/// acts on the variants that are meant for it and passes over the others.
#[derive(Debug, PartialEq, Eq)]
pub enum Message {
    /// Asks for all bookmarks, or for those whose description contains the
    /// text.
    GetAllBookmarksRequest(Option<String>),
    /// The bookmarks that were asked for, newest first.
    GetAllBookmarksResponse(Vec<Document<Bookmark>>),
    /// Asks to write a bookmark with this url and this description.
    AddBookmarkRequest(String, String),
    /// The bookmark that was written.
    AddBookmarkResponse(Document<Bookmark>),
    /// A request failed; the worker goes on with the next.
    RequestFailed(Failure),
}

/// Mathematical value of a [`Message`].
pub enum MessageView {
    GetAllBookmarksRequest(Option<Seq<char>>),
    GetAllBookmarksResponse(Seq<DocumentView>),
    AddBookmarkRequest(Seq<char>, Seq<char>),
    AddBookmarkResponse(DocumentView),
    RequestFailed(Failure),
}

impl View for Message {
    type V = MessageView;

    open spec fn view(&self) -> MessageView {
        match self {
            Message::GetAllBookmarksRequest(query) => MessageView::GetAllBookmarksRequest(
                match query {
                    Some(text) => Some(text@),
                    None => None,
                },
            ),
            Message::GetAllBookmarksResponse(documents) => MessageView::GetAllBookmarksResponse(
                views(documents@),
            ),
            Message::AddBookmarkRequest(url, description) => MessageView::AddBookmarkRequest(
                url@,
                description@,
            ),
            Message::AddBookmarkResponse(document) => MessageView::AddBookmarkResponse(document@),
            Message::RequestFailed(failure) => MessageView::RequestFailed(*failure),
        }
    }
}

/// The message asks the worker for something.
pub open spec fn is_request(message: MessageView) -> bool {
    message is GetAllBookmarksRequest || message is AddBookmarkRequest
}

/// The message tells the interface how a request ended.
pub open spec fn is_answer(message: MessageView) -> bool {
    message is GetAllBookmarksResponse || message is AddBookmarkResponse
        || message is RequestFailed
}

/// The worker passes over this delivery: it holds a message that is not
/// meant for it.
pub open spec fn worker_passes_over(delivery: Delivery) -> bool {
    delivery matches Delivery::Message(message) && is_answer(message@)
}

/// The interface passes over this delivery: it holds a message that is not
/// meant for it.
pub open spec fn interface_passes_over(delivery: Delivery) -> bool {
    delivery matches Delivery::Message(message) && is_request(message@)
}

/// Every message that the bus hands to both sides is acted on by one of
/// them and passed over by the other; a gap or the end of the bus is passed
/// over by neither.
pub proof fn lemma_one_side_acts(delivery: Delivery)
    ensures
        delivery is Message ==> worker_passes_over(delivery) != interface_passes_over(delivery),
        !(delivery is Message) ==> !worker_passes_over(delivery) && !interface_passes_over(
            delivery,
        ),
{
}

/// What a subscriber of the bus is handed when it asks for the next
/// message.
#[derive(Debug, PartialEq, Eq)]
pub enum Delivery {
    /// The next message, in the order of publishing.
    Message(Message),
    /// The subscriber fell behind, and the oldest messages that it had not
    /// read are lost to it. The next delivery is the oldest that is left.
    Missed(BusDeliveryMiss),
    /// Every publisher is gone; no message will come.
    Closed,
}

/// A copy of a list of documents.
pub fn copy_documents(documents: &Vec<Document<Bookmark>>) -> (copy: Vec<Document<Bookmark>>)
    ensures
        copy@ == documents@,
{
    let mut copy: Vec<Document<Bookmark>> = Vec::new();
    let mut i: usize = 0;
    while i < documents.len()
        invariant
            i <= documents@.len(),
            copy@ == documents@.take(i as int),
        decreases documents@.len() - i,
    {
        copy.push(documents[i].clone());
        assert(copy@ =~= documents@.take(i + 1));
        i = i + 1;
    }
    assert(copy@ =~= documents@);
    copy
}

impl Clone for Message {
    fn clone(&self) -> (copy: Self)
        ensures
            copy@ == self@,
    {
        match self {
            Message::GetAllBookmarksRequest(query) => Message::GetAllBookmarksRequest(
                match query {
                    Some(text) => Some(text.clone()),
                    None => None,
                },
            ),
            Message::GetAllBookmarksResponse(documents) => Message::GetAllBookmarksResponse(
                copy_documents(documents),
            ),
            Message::AddBookmarkRequest(url, description) => Message::AddBookmarkRequest(
                url.clone(),
                description.clone(),
            ),
            Message::AddBookmarkResponse(document) => Message::AddBookmarkResponse(
                document.clone(),
            ),
            Message::RequestFailed(failure) => Message::RequestFailed(*failure),
        }
    }
}

} // verus!
