//! The interface's side of the bus: which requests the user's actions turn
//! into, and what the worker's answers give to show.

use crate::document::{views, Bookmark, Document, DocumentView};
use crate::error::BusDeliveryMiss;
use crate::message::{interface_passes_over, Delivery, Failure, Message, MessageView};
use vstd::prelude::*;

verus! {

/// What the list of bookmarks shows of one document.
#[derive(Debug, PartialEq, Eq)]
pub struct Link {
    pub url: String,
    pub description: String,
}

/// Mathematical value of a [`Link`].
pub struct LinkView {
    pub url: Seq<char>,
    pub description: Seq<char>,
}

impl View for Link {
    type V = LinkView;

    open spec fn view(&self) -> LinkView {
        LinkView { url: self.url@, description: self.description@ }
    }
}

impl Clone for Link {
    fn clone(&self) -> (copy: Self)
        ensures
            copy == *self,
    {
        Link { url: self.url.clone(), description: self.description.clone() }
    }
}

/// The values of a list of links, in the same order.
pub open spec fn link_views(links: Seq<Link>) -> Seq<LinkView> {
    links.map_values(|l: Link| l@)
}

/// What the list shows of the document `d`.
pub open spec fn link_of(d: DocumentView) -> LinkView {
    LinkView { url: d.fields.url, description: d.fields.description }
}

/// What the list shows of `documents`, in the same order.
pub open spec fn links_of(documents: Seq<DocumentView>) -> Seq<LinkView> {
    documents.map_values(|d: DocumentView| link_of(d))
}

/// What the interface is to do with a delivery.
#[derive(Debug, PartialEq, Eq)]
pub enum Shown {
    /// Replace the list of bookmarks by these, in this order.
    Bookmarks(Vec<Link>),
    /// A bookmark was written: this is its document.
    Added(Document<Bookmark>),
    /// A request failed, and the user is to see that it did.
    Failed(Failure),
    /// The message was not meant for the interface.
    Nothing,
    /// Messages were lost to the interface; what it shows may be out of
    /// date.
    Missed(BusDeliveryMiss),
    /// The bus is closed.
    Closed,
}

/// The request that the refresh button stands for: all bookmarks, without a
/// filter.
pub fn refresh_requested() -> (request: Message)
    ensures
        request@ == MessageView::GetAllBookmarksRequest(None),
{
    Message::GetAllBookmarksRequest(None)
}

/// The request that the add button stands for, if there is one: with an
/// empty url nothing is published.
pub fn add_requested(url: String, description: String) -> (request: Option<Message>)
    ensures
        match request {
            Some(message) => url@.len() > 0 && message@ == MessageView::AddBookmarkRequest(
                url@,
                description@,
            ),
            None => url@.len() == 0,
        },
{
    if url.as_str().is_empty() {
        None
    } else {
        Some(Message::AddBookmarkRequest(url, description))
    }
}

/// What the list shows of `documents`: url and description of each, in the
/// same order.
pub fn links(documents: &Vec<Document<Bookmark>>) -> (shown: Vec<Link>)
    ensures
        link_views(shown@) == links_of(views(documents@)),
{
    let mut shown: Vec<Link> = Vec::new();
    let mut i: usize = 0;
    while i < documents.len()
        invariant
            i <= documents@.len(),
            shown@.len() == i,
            forall|j: int| 0 <= j < i ==> (#[trigger] shown@[j])@ == link_of(documents@[j]@),
        decreases documents@.len() - i,
    {
        shown.push(
            Link {
                url: documents[i].fields.url.clone(),
                description: documents[i].fields.description.clone(),
            },
        );
        i = i + 1;
    }
    assert(link_views(shown@) =~= links_of(views(documents@)));
    shown
}

/// What the interface is to do with a delivery. It acts on the worker's
/// answers and passes over requests, its own among them. That messages were
/// missed is never passed over.
pub fn on_delivery(delivery: Delivery) -> (shown: Shown)
    ensures
        shown is Nothing <==> interface_passes_over(delivery),
        match delivery {
            Delivery::Message(Message::GetAllBookmarksResponse(documents)) => {
                &&& shown matches Shown::Bookmarks(list)
                &&& link_views(list@) == links_of(views(documents@))
            },
            Delivery::Message(Message::AddBookmarkResponse(document)) => shown matches Shown::Added(
                d,
            ) && d@ == document@,
            Delivery::Message(Message::RequestFailed(failure)) => shown matches Shown::Failed(f)
                && f == failure,
            Delivery::Message(Message::GetAllBookmarksRequest(_)) => shown is Nothing,
            Delivery::Message(Message::AddBookmarkRequest(_, _)) => shown is Nothing,
            Delivery::Missed(miss) => shown matches Shown::Missed(seen) && seen == miss,
            Delivery::Closed => shown is Closed,
        },
{
    match delivery {
        Delivery::Message(Message::GetAllBookmarksResponse(documents)) => Shown::Bookmarks(
            links(&documents),
        ),
        Delivery::Message(Message::AddBookmarkResponse(document)) => Shown::Added(document),
        Delivery::Message(Message::RequestFailed(failure)) => Shown::Failed(failure),
        Delivery::Message(Message::GetAllBookmarksRequest(_)) => Shown::Nothing,
        Delivery::Message(Message::AddBookmarkRequest(_, _)) => Shown::Nothing,
        Delivery::Missed(miss) => Shown::Missed(miss),
        Delivery::Closed => Shown::Closed,
    }
}

} // verus!
