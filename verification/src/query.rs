//! The query client: what is asked of the node, and what the node's reply
//! comes to.

use crate::collection::{lemma_empty_multiset, lemma_project_ignores_order, project, select};
use crate::document::{views, Bookmark, Document, DocumentView};
use crate::error::{QueryError, TransportFailure};
use crate::filter::{filter_view, Predicate, PredicateView, TextField};
use crate::projection::{from_query_row, row_document, row_is_well_formed, QueryRow, QueryRowView};
use crate::text::push_char;
use vstd::prelude::*;
use vstd::seq_lib::to_multiset_build;
use vstd::std_specs::iter::IteratorSpec;
use vstd::string::StringExecFns;

verus! {

/// The name by which a query addresses `field`.
pub open spec fn field_name(field: TextField) -> Seq<char> {
    match field {
        TextField::Url => "url"@,
        TextField::Description => "description"@,
    }
}

/// The hexadecimal digit for a number below 16.
pub open spec fn hex_digit(n: u32) -> char {
    if n == 0 {
        '0'
    } else if n == 1 {
        '1'
    } else if n == 2 {
        '2'
    } else if n == 3 {
        '3'
    } else if n == 4 {
        '4'
    } else if n == 5 {
        '5'
    } else if n == 6 {
        '6'
    } else if n == 7 {
        '7'
    } else if n == 8 {
        '8'
    } else if n == 9 {
        '9'
    } else if n == 10 {
        'a'
    } else if n == 11 {
        'b'
    } else if n == 12 {
        'c'
    } else if n == 13 {
        'd'
    } else if n == 14 {
        'e'
    } else {
        'f'
    }
}

/// How a character stands inside a quoted text of a query: a quotation mark
/// and a backslash behind a backslash, a control character as `\u00` and
/// its two hexadecimal digits, every other character as itself.
pub open spec fn escaped_char(c: char) -> Seq<char> {
    if c == '"' {
        seq!['\\', '"']
    } else if c == '\\' {
        seq!['\\', '\\']
    } else if (c as u32) < 0x20 {
        seq!['\\', 'u', '0', '0', hex_digit((c as u32) / 16), hex_digit((c as u32) % 16)]
    } else {
        seq![c]
    }
}

/// How a text stands inside the quotation marks of a query, so that the
/// node reads it back as the text that it is: each character escaped by
/// [`escaped_char`].
pub open spec fn escaped(text: Seq<char>) -> Seq<char>
    decreases text.len(),
{
    if text.len() == 0 {
        Seq::empty()
    } else {
        escaped(text.drop_last()) + escaped_char(text.last())
    }
}

/// The number that a hexadecimal digit stands for.
pub open spec fn digit_value(c: char) -> int {
    if c == '0' {
        0
    } else if c == '1' {
        1
    } else if c == '2' {
        2
    } else if c == '3' {
        3
    } else if c == '4' {
        4
    } else if c == '5' {
        5
    } else if c == '6' {
        6
    } else if c == '7' {
        7
    } else if c == '8' {
        8
    } else if c == '9' {
        9
    } else if c == 'a' {
        10
    } else if c == 'b' {
        11
    } else if c == 'c' {
        12
    } else if c == 'd' {
        13
    } else if c == 'e' {
        14
    } else {
        15
    }
}

/// What a reader of the query takes a quoted text to be, from behind its
/// opening quotation mark on: the characters up to the first quotation mark
/// that stands for itself, with each escape taken for the character it
/// stands for.
pub open spec fn read_quoted(s: Seq<char>) -> Seq<char>
    decreases s.len(),
{
    if s.len() == 0 || s[0] == '"' {
        Seq::empty()
    } else if s[0] != '\\' {
        seq![s[0]] + read_quoted(s.skip(1))
    } else if s.len() >= 6 && s[1] == 'u' {
        seq![
            ((digit_value(s[2]) * 16 + digit_value(s[3])) * 256 + digit_value(s[4]) * 16
                + digit_value(s[5])) as char,
        ] + read_quoted(s.skip(6))
    } else if s.len() >= 2 {
        seq![s[1]] + read_quoted(s.skip(2))
    } else {
        Seq::empty()
    }
}

/// A text is escaped character by character, from the front as from the
/// back.
pub proof fn lemma_escaped_from_front(text: Seq<char>)
    requires
        text.len() > 0,
    ensures
        escaped(text) == escaped_char(text[0]) + escaped(text.skip(1)),
    decreases text.len(),
{
    if text.len() == 1 {
        assert(text.drop_last() =~= Seq::<char>::empty());
        assert(text.skip(1) =~= Seq::<char>::empty());
        assert(escaped(text) =~= escaped_char(text[0]) + escaped(text.skip(1)));
    } else {
        lemma_escaped_from_front(text.drop_last());
        assert(text.drop_last().skip(1) =~= text.skip(1).drop_last());
        assert(text.skip(1).last() == text.last());
        assert(escaped(text) =~= escaped_char(text[0]) + escaped(text.skip(1)));
    }
}

/// The search text reaches the node as it is: whatever it holds, a reader
/// of the query that meets the escaped text and then the closing quotation
/// mark takes the quoted text to be exactly the search text.
pub proof fn lemma_escaped_is_read_back(text: Seq<char>, tail: Seq<char>)
    ensures
        read_quoted(escaped(text) + seq!['"'] + tail) == text,
    decreases text.len(),
{
    let whole = escaped(text) + seq!['"'] + tail;
    if text.len() == 0 {
        assert(whole[0] == '"');
        assert(read_quoted(whole) =~= text);
    } else {
        let c = text[0];
        let rest = escaped(text.skip(1)) + seq!['"'] + tail;
        lemma_escaped_from_front(text);
        lemma_escaped_is_read_back(text.skip(1), tail);
        assert(whole =~= escaped_char(c) + rest);
        assert(whole.skip(escaped_char(c).len() as int) =~= rest);
        if c != '"' && c != '\\' && (c as u32) < 0x20 {
            let code = c as u32;
            assert(digit_value(hex_digit(code / 16)) == code / 16);
            assert(digit_value(hex_digit(code % 16)) == code % 16);
            assert(whole[2] == '0' && whole[3] == '0');
            vstd::utf8::char_u32_cast(c, code);
            assert(((code / 16) * 16 + code % 16) as char == c);
        }
        assert(read_quoted(whole) =~= seq![c] + text.skip(1));
        assert(seq![c] + text.skip(1) =~= text);
    }
}

/// The part of a query's text that carries the filter; empty without one.
/// The text to look for stands between the quotation marks, escaped.
pub open spec fn filter_clause(filter: Option<PredicateView>) -> Seq<char> {
    match filter {
        Some(PredicateView::Contains { field, text }) => ", filter: { "@ + field_name(field)
            + ": { contains: \""@ + escaped(text) + "\" } }"@,
        None => Seq::empty(),
    }
}

/// The text of the query that asks the node for the documents of the schema
/// `schema_id`: ordered by `timestamp`, descending, with the filter if there
/// is one, and with the metadata and the three fields of each document.
pub open spec fn query_text_of(schema_id: Seq<char>, filter: Option<PredicateView>) -> Seq<char> {
    "{ bookmarks: all_"@ + schema_id + "(orderBy: \"timestamp\", orderDirection: DESC"@
        + filter_clause(filter) + ") { documents { meta { documentId viewId owner } "@
        + "fields { url description timestamp } } } }"@
}

/// The name by which a query addresses `field`.
fn name_of(field: TextField) -> (name: &'static str)
    ensures
        name@ == field_name(field),
{
    match field {
        TextField::Url => "url",
        TextField::Description => "description",
    }
}

/// The hexadecimal digit for a number below 16.
fn digit(n: u32) -> (c: char)
    requires
        n < 16,
    ensures
        c == hex_digit(n),
{
    if n == 0 {
        '0'
    } else if n == 1 {
        '1'
    } else if n == 2 {
        '2'
    } else if n == 3 {
        '3'
    } else if n == 4 {
        '4'
    } else if n == 5 {
        '5'
    } else if n == 6 {
        '6'
    } else if n == 7 {
        '7'
    } else if n == 8 {
        '8'
    } else if n == 9 {
        '9'
    } else if n == 10 {
        'a'
    } else if n == 11 {
        'b'
    } else if n == 12 {
        'c'
    } else if n == 13 {
        'd'
    } else if n == 14 {
        'e'
    } else {
        'f'
    }
}

/// Appends `c` to `out` as it stands inside a quoted text.
fn append_escaped_char(out: &mut String, c: char)
    ensures
        final(out)@ == old(out)@ + escaped_char(c),
{
    let ghost before = out@;
    if c == '"' {
        out.append("\\\"");
        proof {
            reveal_strlit("\\\"");
            assert("\\\""@ =~= escaped_char(c));
        }
    } else if c == '\\' {
        out.append("\\\\");
        proof {
            reveal_strlit("\\\\");
            assert("\\\\"@ =~= escaped_char(c));
        }
    } else {
        let code: u32 = c as u32;
        if code < 0x20 {
            out.append("\\u00");
            push_char(out, digit(code / 16));
            push_char(out, digit(code % 16));
            proof {
                reveal_strlit("\\u00");
                assert(out@ =~= before + escaped_char(c));
            }
        } else {
            push_char(out, c);
            assert(out@ =~= before + escaped_char(c));
        }
    }
}

/// Appends `text` to `out` as it stands inside the quotation marks of a
/// query.
fn append_escaped(out: &mut String, text: &str)
    ensures
        final(out)@ == old(out)@ + escaped(text@),
{
    let ghost before = out@;
    let ghost mut done: Seq<char> = Seq::empty();
    let mut rest = text.chars();
    proof {
        assert(out@ =~= before + escaped(done));
    }
    loop
        invariant
            done + rest.remaining() == text@,
            out@ == before + escaped(done),
        ensures
            out@ == before + escaped(text@),
        decreases text@.len() - done.len(),
    {
        match rest.next() {
            Some(c) => {
                append_escaped_char(out, c);
                proof {
                    let longer = done.push(c);
                    assert(longer.drop_last() =~= done);
                    assert(out@ =~= before + escaped(longer));
                    done = longer;
                }
            },
            None => {
                proof {
                    assert(done =~= text@);
                }
                break ;
            },
        }
    }
}

/// The text of the query for the documents of `schema_id` that pass `filter`.
pub fn query_text(schema_id: &str, filter: &Option<Predicate>) -> (text: String)
    ensures
        text@ == query_text_of(schema_id@, filter_view(*filter)),
{
    let mut text = String::from_str("{ bookmarks: all_");
    text.append(schema_id);
    text.append("(orderBy: \"timestamp\", orderDirection: DESC");
    match filter {
        Some(Predicate::Contains { field, text: wanted }) => {
            text.append(", filter: { ");
            text.append(name_of(*field));
            text.append(": { contains: \"");
            append_escaped(&mut text, wanted.as_str());
            text.append("\" } }");
        },
        None => {},
    }
    text.append(") { documents { meta { documentId viewId owner } ");
    text.append("fields { url description timestamp } } } }");
    assert(text@ =~= query_text_of(schema_id@, filter_view(*filter)));
    text
}

/// How the node answered a query.
#[derive(Debug, PartialEq, Eq)]
pub enum QueryReply {
    /// The documents of the answer, in the order in which they came.
    Rows(Vec<QueryRow>),
    /// The node answered, but not with a list of documents.
    Malformed,
    /// The endpoint could not be reached.
    Unreachable,
}

impl QueryReply {
    /// The reply that a failed request to the node stands for. A node that
    /// refuses the query, or answers with something that cannot be read,
    /// does not serve the shape that is asked for; a node that does not
    /// answer in time counts as one that cannot be reached.
    pub fn failed(failure: TransportFailure) -> (reply: QueryReply)
        ensures
            match failure {
                TransportFailure::Refused => reply is Malformed,
                TransportFailure::Unreadable => reply is Malformed,
                TransportFailure::Unreachable => reply is Unreachable,
                TransportFailure::TimedOut => reply is Unreachable,
            },
    {
        match failure {
            TransportFailure::Refused => QueryReply::Malformed,
            TransportFailure::Unreadable => QueryReply::Malformed,
            TransportFailure::Unreachable => QueryReply::Unreachable,
            TransportFailure::TimedOut => QueryReply::Unreachable,
        }
    }
}

/// The values of a sequence of rows, in the same order.
pub open spec fn row_views(rows: Seq<QueryRow>) -> Seq<QueryRowView> {
    rows.map_values(|row: QueryRow| row@)
}

/// The documents that a sequence of well-formed rows stands for.
pub open spec fn rows_documents(rows: Seq<QueryRowView>) -> Seq<DocumentView> {
    rows.map_values(|row: QueryRowView| row_document(row))
}

/// Every row of the answer is well formed.
pub open spec fn rows_are_well_formed(rows: Seq<QueryRowView>) -> bool {
    forall|i: int| 0 <= i < rows.len() ==> row_is_well_formed(#[trigger] rows[i])
}

/// The result `listed` is what a query under `filter` comes to, given the
/// node's reply.
///
/// A node that could not be reached gives `Unreachable`. An answer that is
/// no list of documents, or that has a row that is not well formed, gives
/// `MalformedResponse`, whatever the other rows hold. Otherwise the result
/// holds the documents of the answer that pass the filter, newest first,
/// whatever the order in which the node sent them.
pub open spec fn answers(
    listed: Result<Vec<Document<Bookmark>>, QueryError>,
    filter: Option<PredicateView>,
    reply: QueryReply,
) -> bool {
    match reply {
        QueryReply::Unreachable => listed matches Err(e) && e == QueryError::Unreachable,
        QueryReply::Malformed => listed matches Err(e) && e == QueryError::MalformedResponse,
        QueryReply::Rows(rows) => if rows_are_well_formed(row_views(rows@)) {
            listed matches Ok(out) && views(out@) == project(
                rows_documents(row_views(rows@)),
                filter,
            )
        } else {
            listed matches Err(e) && e == QueryError::MalformedResponse
        },
    }
}

/// What a query under `filter` comes to, given the node's reply. The node
/// is trusted neither with the shape of its rows nor with their order nor
/// with the filter: every row is checked, and the documents are filtered and
/// ordered here.
pub fn query_all(filter: &Option<Predicate>, reply: QueryReply) -> (listed: Result<
    Vec<Document<Bookmark>>,
    QueryError,
>)
    ensures
        answers(listed, filter_view(*filter), reply),
{
    let rows = match reply {
        QueryReply::Unreachable => {
            return Err(QueryError::Unreachable);
        },
        QueryReply::Malformed => {
            return Err(QueryError::MalformedResponse);
        },
        QueryReply::Rows(rows) => rows,
    };
    let ghost all = row_views(rows@);
    let mut rest = rows;
    let mut documents: Vec<Document<Bookmark>> = Vec::new();
    proof {
        assert(row_views(rest@) =~= all.take(rest@.len() as int));
        lemma_empty_multiset(views(documents@));
        assert(views(documents@).to_multiset().add(rows_documents(row_views(rest@)).to_multiset())
            =~= rows_documents(all).to_multiset());
    }
    loop
        invariant
            reply matches QueryReply::Rows(given) && all == row_views(given@),
            rest@.len() <= all.len(),
            row_views(rest@) == all.take(rest@.len() as int),
            forall|j: int| rest@.len() <= j < all.len() ==> row_is_well_formed(#[trigger] all[j]),
            views(documents@).to_multiset().add(rows_documents(row_views(rest@)).to_multiset())
                == rows_documents(all).to_multiset(),
        ensures
            rest@.len() == 0,
        decreases rest@.len(),
    {
        let ghost before = row_views(rest@);
        let ghost made = views(documents@);
        match rest.pop() {
            None => {
                break ;
            },
            Some(row) => {
                let ghost at = rest@.len() as int;
                proof {
                    assert(row_views(rest@) =~= before.drop_last());
                    assert(before[at] == row@);
                    assert(rows_documents(before) =~= rows_documents(row_views(rest@)).push(
                        row_document(row@),
                    ));
                    to_multiset_build(rows_documents(row_views(rest@)), row_document(row@));
                }
                match from_query_row(row) {
                    Ok(document) => {
                        documents.push(document);
                        proof {
                            assert(views(documents@) =~= made.push(row_document(all[at])));
                            to_multiset_build(made, row_document(all[at]));
                            assert(views(documents@).to_multiset().add(
                                rows_documents(row_views(rest@)).to_multiset(),
                            ) =~= rows_documents(all).to_multiset());
                        }
                    },
                    Err(_) => {
                        assert(!row_is_well_formed(all[at]));
                        return Err(QueryError::MalformedResponse);
                    },
                }
            },
        }
    }
    proof {
        assert(rows_documents(row_views(rest@)) =~= Seq::<DocumentView>::empty());
        lemma_empty_multiset(rows_documents(row_views(rest@)));
        assert(views(documents@).to_multiset() =~= rows_documents(all).to_multiset());
        lemma_project_ignores_order(views(documents@), rows_documents(all), filter_view(*filter));
    }
    Ok(select(documents, filter))
}

} // verus!
