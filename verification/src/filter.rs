//! Filters: the tests by which a query picks its documents.

use crate::document::{Bookmark, Document, DocumentView};
use crate::text::{contains, is_substring};
use vstd::prelude::*;

verus! {

/// A text field of a bookmark that a filter can name.
#[derive(Clone, Copy, Debug, PartialEq, Eq, Structural)]
pub enum TextField {
    Url,
    Description,
}

/// A test that a document passes or fails.
#[derive(Debug, PartialEq, Eq)]
pub enum Predicate {
    /// The named field contains the text, character for character; upper and
    /// lower case are told apart.
    Contains { field: TextField, text: String },
}

/// Mathematical value of a [`Predicate`].
pub enum PredicateView {
    Contains { field: TextField, text: Seq<char> },
}

impl View for Predicate {
    type V = PredicateView;

    open spec fn view(&self) -> PredicateView {
        match self {
            Predicate::Contains { field, text } => PredicateView::Contains {
                field: *field,
                text: text@,
            },
        }
    }
}

impl Clone for Predicate {
    fn clone(&self) -> (copy: Self)
        ensures
            copy == *self,
    {
        match self {
            Predicate::Contains { field, text } => Predicate::Contains {
                field: *field,
                text: text.clone(),
            },
        }
    }
}

/// The value of an optional filter.
pub open spec fn filter_view(filter: Option<Predicate>) -> Option<PredicateView> {
    match filter {
        Some(p) => Some(p@),
        None => None,
    }
}

/// The text that `field` names in `d`.
pub open spec fn field_text(d: DocumentView, field: TextField) -> Seq<char> {
    match field {
        TextField::Url => d.fields.url,
        TextField::Description => d.fields.description,
    }
}

/// `d` passes the test `p`.
pub open spec fn holds(p: PredicateView, d: DocumentView) -> bool {
    match p {
        PredicateView::Contains { field, text } => is_substring(field_text(d, field), text),
    }
}

/// `d` passes the filter; without a filter every document does.
pub open spec fn accepts(filter: Option<PredicateView>, d: DocumentView) -> bool {
    match filter {
        Some(p) => holds(p, d),
        None => true,
    }
}

/// [`accepts`] as a predicate on documents.
pub open spec fn accepted_by(filter: Option<PredicateView>) -> spec_fn(DocumentView) -> bool {
    |d: DocumentView| accepts(filter, d)
}

impl Predicate {
    /// Whether `d` passes this test.
    pub fn admits(&self, d: &Document<Bookmark>) -> (pass: bool)
        ensures
            pass == holds(self@, d@),
    {
        match self {
            Predicate::Contains { field, text } => match field {
                TextField::Url => contains(d.fields.url.as_str(), text.as_str()),
                TextField::Description => contains(d.fields.description.as_str(), text.as_str()),
            },
        }
    }
}

/// Whether `d` passes the filter; without a filter every document does.
pub fn passes(filter: &Option<Predicate>, d: &Document<Bookmark>) -> (pass: bool)
    ensures
        pass == accepts(filter_view(*filter), d@),
{
    match filter {
        Some(p) => p.admits(d),
        None => true,
    }
}

} // verus!
