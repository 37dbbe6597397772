//! The order of a query's results.

use crate::document::{Bookmark, Document, DocumentView};
use crate::text::{
    lemma_lex_le_antisymmetric, lemma_lex_le_reflexive, lemma_lex_le_total,
    lemma_lex_le_transitive, lex_le, text_le,
};
use vstd::prelude::*;
use vstd::relations::total_ordering;

verus! {

/// The order of a query's results: the later timestamp first; among equal
/// timestamps the smaller document identifier first. Documents that agree in
/// both are told apart by their remaining texts, so that no two different
/// documents are ever tied.
pub open spec fn comes_before(a: DocumentView, b: DocumentView) -> bool {
    if a.fields.timestamp != b.fields.timestamp {
        a.fields.timestamp > b.fields.timestamp
    } else if a.meta.document_id != b.meta.document_id {
        lex_le(a.meta.document_id, b.meta.document_id)
    } else if a.meta.view_id != b.meta.view_id {
        lex_le(a.meta.view_id, b.meta.view_id)
    } else if a.meta.owner != b.meta.owner {
        lex_le(a.meta.owner, b.meta.owner)
    } else if a.fields.url != b.fields.url {
        lex_le(a.fields.url, b.fields.url)
    } else {
        lex_le(a.fields.description, b.fields.description)
    }
}

/// [`comes_before`] as a relation on documents.
pub open spec fn by_recency() -> spec_fn(DocumentView, DocumentView) -> bool {
    |a: DocumentView, b: DocumentView| comes_before(a, b)
}

/// `a` may stand before `b` in a result: it has the later timestamp, or the
/// same timestamp and a document identifier that is not the greater one.
pub open spec fn newer_or_tied(a: DocumentView, b: DocumentView) -> bool {
    ||| a.fields.timestamp > b.fields.timestamp
    ||| (a.fields.timestamp == b.fields.timestamp && lex_le(
        a.meta.document_id,
        b.meta.document_id,
    ))
}

/// Timestamps never rise along `s`, and among equal timestamps the document
/// identifiers never fall.
pub open spec fn newest_first(s: Seq<DocumentView>) -> bool {
    forall|i: int, j: int| 0 <= i < j < s.len() ==> newer_or_tied(#[trigger] s[i], #[trigger] s[j])
}

proof fn lemma_comes_before_reflexive(a: DocumentView)
    ensures
        comes_before(a, a),
{
    lemma_lex_le_reflexive(a.fields.description);
}

pub(crate) proof fn lemma_comes_before_total(a: DocumentView, b: DocumentView)
    ensures
        comes_before(a, b) || comes_before(b, a),
{
    lemma_lex_le_total(a.meta.document_id, b.meta.document_id);
    lemma_lex_le_total(a.meta.view_id, b.meta.view_id);
    lemma_lex_le_total(a.meta.owner, b.meta.owner);
    lemma_lex_le_total(a.fields.url, b.fields.url);
    lemma_lex_le_total(a.fields.description, b.fields.description);
}

proof fn lemma_text_antisymmetric(x: Seq<char>, y: Seq<char>)
    ensures
        lex_le(x, y) && lex_le(y, x) ==> x == y,
{
    if lex_le(x, y) && lex_le(y, x) {
        lemma_lex_le_antisymmetric(x, y);
    }
}

proof fn lemma_text_transitive(x: Seq<char>, y: Seq<char>, z: Seq<char>)
    ensures
        lex_le(x, y) && lex_le(y, z) ==> lex_le(x, z),
{
    if lex_le(x, y) && lex_le(y, z) {
        lemma_lex_le_transitive(x, y, z);
    }
}

proof fn lemma_comes_before_antisymmetric(a: DocumentView, b: DocumentView)
    requires
        comes_before(a, b),
        comes_before(b, a),
    ensures
        a == b,
{
    lemma_text_antisymmetric(a.meta.document_id, b.meta.document_id);
    lemma_text_antisymmetric(a.meta.view_id, b.meta.view_id);
    lemma_text_antisymmetric(a.meta.owner, b.meta.owner);
    lemma_text_antisymmetric(a.fields.url, b.fields.url);
    lemma_text_antisymmetric(a.fields.description, b.fields.description);
}

pub(crate) proof fn lemma_comes_before_transitive(a: DocumentView, b: DocumentView, c: DocumentView)
    requires
        comes_before(a, b),
        comes_before(b, c),
    ensures
        comes_before(a, c),
{
    lemma_text_transitive(a.meta.document_id, b.meta.document_id, c.meta.document_id);
    lemma_text_transitive(a.meta.view_id, b.meta.view_id, c.meta.view_id);
    lemma_text_transitive(a.meta.owner, b.meta.owner, c.meta.owner);
    lemma_text_transitive(a.fields.url, b.fields.url, c.fields.url);
    lemma_text_transitive(a.fields.description, b.fields.description, c.fields.description);
    lemma_text_antisymmetric(a.meta.document_id, b.meta.document_id);
    lemma_text_antisymmetric(b.meta.document_id, c.meta.document_id);
    lemma_text_antisymmetric(a.meta.view_id, b.meta.view_id);
    lemma_text_antisymmetric(b.meta.view_id, c.meta.view_id);
    lemma_text_antisymmetric(a.meta.owner, b.meta.owner);
    lemma_text_antisymmetric(b.meta.owner, c.meta.owner);
    lemma_text_antisymmetric(a.fields.url, b.fields.url);
    lemma_text_antisymmetric(b.fields.url, c.fields.url);
}

/// The order of results is a total order on documents: any two are
/// comparable, and only a document itself is tied with it.
pub proof fn lemma_by_recency_is_total_order()
    ensures
        total_ordering(by_recency()),
{
    let r = by_recency();
    assert forall|x: DocumentView| #[trigger] r(x, x) by {
        lemma_comes_before_reflexive(x);
    }
    assert forall|x: DocumentView, y: DocumentView| #[trigger]
        r(x, y) && #[trigger] r(y, x) implies x == y by {
        lemma_comes_before_antisymmetric(x, y);
    }
    assert forall|x: DocumentView, y: DocumentView, z: DocumentView| #[trigger]
        r(x, y) && #[trigger] r(y, z) implies r(x, z) by {
        lemma_comes_before_transitive(x, y, z);
    }
    assert forall|x: DocumentView, y: DocumentView| #[trigger] r(x, y) || #[trigger] r(y, x) by {
        lemma_comes_before_total(x, y);
    }
}

/// Whether `a` comes before `b` in the order of results, or is the same
/// document.
pub fn precedes(a: &Document<Bookmark>, b: &Document<Bookmark>) -> (before: bool)
    ensures
        before == comes_before(a@, b@),
{
    if a.fields.timestamp != b.fields.timestamp {
        a.fields.timestamp > b.fields.timestamp
    } else if !(a.meta.document_id == b.meta.document_id) {
        text_le(a.meta.document_id.as_str(), b.meta.document_id.as_str())
    } else if !(a.meta.view_id == b.meta.view_id) {
        text_le(a.meta.view_id.as_str(), b.meta.view_id.as_str())
    } else if !(a.meta.owner == b.meta.owner) {
        text_le(a.meta.owner.as_str(), b.meta.owner.as_str())
    } else if !(a.fields.url == b.fields.url) {
        text_le(a.fields.url.as_str(), b.fields.url.as_str())
    } else {
        text_le(a.fields.description.as_str(), b.fields.description.as_str())
    }
}

} // verus!
