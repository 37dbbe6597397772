//! The collection that a query returns: the documents that pass the filter,
//! newest first.

use crate::document::{views, Bookmark, Document, DocumentView};
use crate::filter::{accepted_by, accepts, filter_view, passes, Predicate, PredicateView};
use crate::order::{
    by_recency, comes_before, lemma_by_recency_is_total_order, lemma_comes_before_total,
    lemma_comes_before_transitive, newer_or_tied, newest_first, precedes,
};
use crate::text::lemma_lex_le_reflexive;
use vstd::multiset::Multiset;
use vstd::prelude::*;
use vstd::relations::sorted_by;
use vstd::seq_lib::{lemma_sorted_unique, to_multiset_build, to_multiset_insert};

verus! {

/// What a query over `store` returns: the documents that pass the filter,
/// sorted by [`comes_before`].
pub open spec fn project(store: Seq<DocumentView>, filter: Option<PredicateView>) -> Seq<
    DocumentView,
> {
    store.filter(accepted_by(filter)).sort_by(by_recency())
}

/// The first position in `sorted` whose document does not come before `d`.
fn slot(sorted: &Vec<Document<Bookmark>>, d: &Document<Bookmark>) -> (at: usize)
    ensures
        at <= sorted@.len(),
        forall|j: int| 0 <= j < at ==> comes_before(#[trigger] sorted@[j]@, d@),
        at < sorted@.len() ==> !comes_before(sorted@[at as int]@, d@),
{
    let mut at: usize = 0;
    while at < sorted.len() && precedes(&sorted[at], d)
        invariant
            at <= sorted@.len(),
            forall|j: int| 0 <= j < at ==> comes_before(#[trigger] sorted@[j]@, d@),
        decreases sorted@.len() - at,
    {
        at = at + 1;
    }
    at
}

/// A sorted sequence stays sorted when a document is put in at the first
/// position whose document does not come before it.
proof fn lemma_insert_keeps_sorted(s: Seq<DocumentView>, at: int, d: DocumentView)
    requires
        sorted_by(s, by_recency()),
        0 <= at <= s.len(),
        forall|j: int| 0 <= j < at ==> comes_before(#[trigger] s[j], d),
        at < s.len() ==> !comes_before(s[at], d),
    ensures
        sorted_by(s.insert(at, d), by_recency()),
{
    let t = s.insert(at, d);
    let r = by_recency();
    assert forall|i: int, j: int| 0 <= i < j < t.len() implies #[trigger] r(t[i], t[j]) by {
        if j < at {
            assert(r(s[i], s[j]));
        } else if j == at {
            assert(comes_before(s[i], d));
        } else if i < at {
            assert(r(s[i], s[j - 1]));
        } else {
            lemma_comes_before_total(s[at], d);
            if j - 1 > at {
                assert(r(s[at], s[j - 1]));
                lemma_comes_before_transitive(d, s[at], s[j - 1]);
            }
            if i > at {
                assert(r(s[i - 1], s[j - 1]));
            }
        }
    }
}

/// The empty sequence holds nothing.
pub(crate) proof fn lemma_empty_multiset(s: Seq<DocumentView>)
    requires
        s.len() == 0,
    ensures
        s.to_multiset() == Multiset::<DocumentView>::empty(),
{
    vstd::seq_lib::to_multiset_len(s);
    vstd::multiset::lemma_multiset_empty_len(s.to_multiset());
    assert(s.to_multiset() =~= Multiset::<DocumentView>::empty());
}

/// Filtering a sequence keeps each passing document as often as the sequence
/// holds it, and no other.
pub proof fn lemma_filter_counts(s: Seq<DocumentView>, keep: spec_fn(DocumentView) -> bool)
    ensures
        s.filter(keep).to_multiset() == s.to_multiset().filter(keep),
    decreases s.len(),
{
    broadcast use vstd::multiset::group_multiset_axioms;

    if s.len() == 0 {
        reveal(Seq::filter);
        lemma_empty_multiset(s);
        lemma_empty_multiset(s.filter(keep));
        assert(s.filter(keep).to_multiset() =~= s.to_multiset().filter(keep));
    } else {
        let front = s.drop_last();
        let d = s.last();
        assert(s =~= front.push(d));
        lemma_filter_counts(front, keep);
        front.lemma_filter_push(d, keep);
        vstd::seq_lib::to_multiset_build(front, d);
        vstd::seq_lib::to_multiset_build(front.filter(keep), d);
        assert(s.filter(keep).to_multiset() =~= s.to_multiset().filter(keep));
    }
}

/// A query returns exactly the documents of the store that pass its filter:
/// each of them as often as the store holds it, and nothing else.
pub proof fn lemma_project_exact(store: Seq<DocumentView>, filter: Option<PredicateView>)
    ensures
        project(store, filter).to_multiset() == store.to_multiset().filter(accepted_by(filter)),
        project(store, filter).len() == store.filter(accepted_by(filter)).len(),
        forall|d: DocumentView|
            project(store, filter).contains(d) <==> store.contains(d) && accepts(filter, d),
{
    broadcast use vstd::multiset::group_multiset_axioms;

    let keep = accepted_by(filter);
    let kept = store.filter(keep);
    lemma_by_recency_is_total_order();
    kept.lemma_sort_by_ensures(by_recency());
    lemma_filter_counts(store, keep);
    vstd::seq_lib::to_multiset_len(kept);
    vstd::seq_lib::to_multiset_len(project(store, filter));
    assert forall|d: DocumentView|
        project(store, filter).contains(d) <==> store.contains(d) && accepts(filter, d) by {
        vstd::seq_lib::to_multiset_contains(project(store, filter), d);
        vstd::seq_lib::to_multiset_contains(store, d);
        assert(keep(d) == accepts(filter, d));
    }
}

/// Without a filter a query returns every document of the store.
pub proof fn lemma_project_all(store: Seq<DocumentView>)
    ensures
        project(store, None).to_multiset() == store.to_multiset(),
        project(store, None).len() == store.len(),
{
    broadcast use vstd::multiset::group_multiset_axioms;

    lemma_project_exact(store, None);
    let keep = accepted_by(None);
    assert forall|d: DocumentView|
        store.to_multiset().filter(keep).count(d) == store.to_multiset().count(d) by {
        assert(keep(d));
    }
    assert(store.to_multiset().filter(keep) =~= store.to_multiset());
    vstd::seq_lib::to_multiset_len(store);
    vstd::seq_lib::to_multiset_len(project(store, None));
}

/// The results of a query are sorted: the later timestamp first, and among
/// equal timestamps the smaller document identifier first.
pub proof fn lemma_project_newest_first(store: Seq<DocumentView>, filter: Option<PredicateView>)
    ensures
        sorted_by(project(store, filter), by_recency()),
        newest_first(project(store, filter)),
{
    let out = project(store, filter);
    lemma_by_recency_is_total_order();
    store.filter(accepted_by(filter)).lemma_sort_by_ensures(by_recency());
    assert forall|i: int, j: int| 0 <= i < j < out.len() implies newer_or_tied(
        #[trigger] out[i],
        #[trigger] out[j],
    ) by {
        let r = by_recency();
        assert(r(out[i], out[j]));
        lemma_lex_le_reflexive(out[i].meta.document_id);
    }
}

/// What a query returns depends only on which documents the store holds, not
/// on the order in which they are handed over: two stores with the same
/// documents give the same sequence. Asking twice of an unchanged store
/// gives the same answer twice.
pub proof fn lemma_project_ignores_order(
    a: Seq<DocumentView>,
    b: Seq<DocumentView>,
    filter: Option<PredicateView>,
)
    requires
        a.to_multiset() == b.to_multiset(),
    ensures
        project(a, filter) == project(b, filter),
{
    let keep = accepted_by(filter);
    lemma_filter_counts(a, keep);
    lemma_filter_counts(b, keep);
    lemma_by_recency_is_total_order();
    a.filter(keep).lemma_sort_by_ensures(by_recency());
    b.filter(keep).lemma_sort_by_ensures(by_recency());
    lemma_sorted_unique(project(a, filter), project(b, filter), by_recency());
}

/// Running a query over its own results changes nothing.
pub proof fn lemma_project_idempotent(store: Seq<DocumentView>, filter: Option<PredicateView>)
    ensures
        project(project(store, filter), filter) == project(store, filter),
{
    broadcast use vstd::multiset::group_multiset_axioms;

    let keep = accepted_by(filter);
    let once = project(store, filter);
    let twice = project(once, filter);
    lemma_project_exact(store, filter);
    lemma_project_exact(once, filter);
    lemma_project_newest_first(store, filter);
    lemma_project_newest_first(once, filter);
    assert(twice.to_multiset() =~= once.to_multiset());
    lemma_by_recency_is_total_order();
    lemma_sorted_unique(twice, once, by_recency());
}

/// A sorted sequence that holds exactly the passing documents of the store
/// is the query's result: the contract leaves no choice.
pub proof fn lemma_project_unique(
    store: Seq<DocumentView>,
    filter: Option<PredicateView>,
    out: Seq<DocumentView>,
)
    requires
        sorted_by(out, by_recency()),
        out.to_multiset() == store.to_multiset().filter(accepted_by(filter)),
    ensures
        out == project(store, filter),
{
    lemma_project_exact(store, filter);
    lemma_project_newest_first(store, filter);
    lemma_by_recency_is_total_order();
    lemma_sorted_unique(out, project(store, filter), by_recency());
}

/// The documents of `rows` that pass the filter, newest first.
///
/// The result is a function of which documents `rows` holds and how often,
/// not of the order in which it holds them.
pub fn select(rows: Vec<Document<Bookmark>>, filter: &Option<Predicate>) -> (out: Vec<
    Document<Bookmark>,
>)
    ensures
        views(out@) == project(views(rows@), filter_view(*filter)),
        newest_first(views(out@)),
        views(out@).to_multiset() == views(rows@).to_multiset().filter(
            accepted_by(filter_view(*filter)),
        ),
{
    let ghost store = views(rows@);
    let ghost keep = accepted_by(filter_view(*filter));
    let mut rest = rows;
    let mut out: Vec<Document<Bookmark>> = Vec::new();
    proof {
        lemma_empty_multiset(views(out@));
        assert(views(out@).to_multiset().add(views(rest@).filter(keep).to_multiset())
            =~= store.filter(keep).to_multiset());
    }
    loop
        invariant
            keep == accepted_by(filter_view(*filter)),
            sorted_by(views(out@), by_recency()),
            views(out@).to_multiset().add(views(rest@).filter(keep).to_multiset())
                == store.filter(keep).to_multiset(),
        ensures
            rest@.len() == 0,
        decreases rest@.len(),
    {
        let ghost before = views(rest@);
        let ghost sorted = views(out@);
        match rest.pop() {
            None => {
                break ;
            },
            Some(d) => {
                proof {
                    assert(views(rest@) =~= before.drop_last());
                    assert(before =~= views(rest@).push(d@));
                    views(rest@).lemma_filter_push(d@, keep);
                    to_multiset_build(views(rest@).filter(keep), d@);
                }
                if passes(filter, &d) {
                    let at = slot(&out, &d);
                    out.insert(at, d);
                    proof {
                        assert(views(out@) =~= sorted.insert(at as int, d@));
                        lemma_insert_keeps_sorted(sorted, at as int, d@);
                        to_multiset_insert(sorted, at as int, d@);
                        assert(views(out@).to_multiset().add(
                            views(rest@).filter(keep).to_multiset(),
                        ) =~= store.filter(keep).to_multiset());
                    }
                }
            },
        }
    }
    proof {
        let wanted = store.filter(keep);
        reveal(Seq::filter);
        assert(views(rest@).filter(keep) =~= Seq::<DocumentView>::empty());
        lemma_empty_multiset(views(rest@).filter(keep));
        assert(views(out@).to_multiset() =~= wanted.to_multiset());
        lemma_by_recency_is_total_order();
        wanted.lemma_sort_by_ensures(by_recency());
        lemma_sorted_unique(views(out@), wanted.sort_by(by_recency()), by_recency());
        lemma_project_newest_first(store, filter_view(*filter));
        lemma_project_exact(store, filter_view(*filter));
    }
    out
}

} // verus!
