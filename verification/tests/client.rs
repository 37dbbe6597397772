use bookmarks::client::{Client, BOOKMARKS_SCHEMA_ID, NODE_ENDPOINT};
use bookmarks::document::{Bookmark, Document};
use bookmarks::error::{BuildError, QueryError, SubmitError};
use bookmarks::operation::{Field, FieldValue};
use bookmarks::projection::QueryRow;
use bookmarks::query::QueryReply;
use bookmarks::submission::SubmitReply;

const HASH: &str = "0020cfb0fa37f36d082faad3886a9ffbcc2813b7afe90f0609a556d425f1a76ec805";
const OTHER_HASH: &str = "0020aab0fa37f36d082faad3886a9ffbcc2813b7afe90f0609a556d425f1a76ec805";
const OWNER: &str = "7cf4f58a2d89e93313f2de99604a814ecea9800cf217b140e9c3a7ba59a5d982";

fn row_of(document: &Document<Bookmark>) -> QueryRow {
    QueryRow {
        document_id: document.meta.document_id.clone(),
        view_id: document.meta.view_id.clone(),
        owner: document.meta.owner.clone(),
        url: Some(document.fields.url.clone()),
        description: Some(document.fields.description.clone()),
        timestamp: Some(document.fields.timestamp as i64),
    }
}

fn row(hash: &str, url: &str, description: &str, timestamp: i64) -> QueryRow {
    QueryRow {
        document_id: hash.to_string(),
        view_id: hash.to_string(),
        owner: OWNER.to_string(),
        url: Some(url.to_string()),
        description: Some(description.to_string()),
        timestamp: Some(timestamp),
    }
}

#[test]
fn constants_name_the_node_and_the_schema() {
    assert_eq!(NODE_ENDPOINT, "http://localhost:2020/graphql");
    assert_eq!(
        BOOKMARKS_SCHEMA_ID,
        "bookmarks_0020017dbdd0193158a00a62a9a8e382d1daa7120de5f3243c8b380f9d0f74e7c524"
    );
}

#[test]
fn submit_then_query_includes_the_document() {
    let client = Client::new();
    let operation = client.prepare_bookmark("https://example.com", "demo", 1_700_000_000).unwrap();
    assert_eq!(operation.schema_id(), BOOKMARKS_SCHEMA_ID);
    let added = client
        .add_bookmark(
            "https://example.com",
            "demo",
            1_700_000_000,
            SubmitReply::Accepted(HASH.to_string()),
        )
        .unwrap();
    assert!(!added.meta.document_id.is_empty());
    assert!(!added.meta.view_id.is_empty());
    assert_eq!(added.meta.owner, client.identity().public_key());
    let listed = client.all_bookmarks(&None, QueryReply::Rows(vec![row_of(&added)])).unwrap();
    assert!(listed.iter().any(|d| d.fields.url == "https://example.com"));
    assert_eq!(listed, vec![added]);
}

#[test]
fn submit_with_empty_url_is_rejected_before_anything_is_sent() {
    let client = Client::new();
    assert_eq!(client.prepare_bookmark("", "demo", 1).unwrap_err(), BuildError::MissingField);
}

#[test]
fn prepare_bookmark_writes_the_three_fields() {
    let client = Client::new();
    let operation = client.prepare_bookmark("https://example.com", "", 42).unwrap();
    assert_eq!(
        operation.fields(),
        &vec![
            Field {
                name: "url".to_string(),
                value: FieldValue::Text("https://example.com".to_string())
            },
            Field { name: "description".to_string(), value: FieldValue::Text(String::new()) },
            Field { name: "timestamp".to_string(), value: FieldValue::Integer(42) },
        ]
    );
}

#[test]
fn add_bookmark_passes_on_the_failure_of_the_log() {
    let client = Client::new();
    let add = |reply| client.add_bookmark("https://example.com", "demo", 1, reply);
    assert_eq!(add(SubmitReply::Rejected), Err(SubmitError::Rejected));
    assert_eq!(add(SubmitReply::Unreachable), Err(SubmitError::Unreachable));
    assert_eq!(add(SubmitReply::Timeout), Err(SubmitError::Timeout));
}

#[test]
fn add_bookmark_rejects_a_hash_that_is_none() {
    let client = Client::new();
    for bad in ["", "0020"] {
        let reply = SubmitReply::Accepted(bad.to_string());
        let added = client.add_bookmark("https://example.com", "demo", 1, reply);
        assert_eq!(added, Err(SubmitError::Rejected));
    }
}

#[test]
fn all_bookmarks_query_without_and_with_search() {
    let plain = Client::all_bookmarks_query(&None);
    assert_eq!(
        plain,
        format!(
            "{{ bookmarks: all_{BOOKMARKS_SCHEMA_ID}(orderBy: \"timestamp\", orderDirection: DESC) \
             {{ documents {{ meta {{ documentId viewId owner }} \
             fields {{ url description timestamp }} }} }} }}"
        )
    );
    let search = Client::all_bookmarks_query(&Some("demo".to_string()));
    assert!(search
        .contains("orderDirection: DESC, filter: { description: { contains: \"demo\" } })"));
}

#[test]
fn all_bookmarks_orders_and_filters_the_rows() {
    let client = Client::new();
    let rows = vec![
        row(HASH, "https://old.example", "a demo", 1),
        row(OTHER_HASH, "https://new.example", "another demo", 2),
        row(HASH, "https://other.example", "nothing", 3),
    ];
    let all = client.all_bookmarks(&None, QueryReply::Rows(rows.clone())).unwrap();
    let urls: Vec<&str> = all.iter().map(|d| d.fields.url.as_str()).collect();
    assert_eq!(urls, vec!["https://other.example", "https://new.example", "https://old.example"]);
    let found =
        client.all_bookmarks(&Some("demo".to_string()), QueryReply::Rows(rows)).unwrap();
    let urls: Vec<&str> = found.iter().map(|d| d.fields.url.as_str()).collect();
    assert_eq!(urls, vec!["https://new.example", "https://old.example"]);
}

#[test]
fn all_bookmarks_reports_an_unreachable_node() {
    let client = Client::new();
    assert_eq!(client.all_bookmarks(&None, QueryReply::Unreachable), Err(QueryError::Unreachable));
}

#[test]
fn all_bookmarks_reports_an_answer_that_is_no_list() {
    let client = Client::new();
    assert_eq!(
        client.all_bookmarks(&None, QueryReply::Malformed),
        Err(QueryError::MalformedResponse)
    );
}

#[test]
fn all_bookmarks_fails_closed_on_one_malformed_row() {
    let client = Client::new();
    let mut broken = row(OTHER_HASH, "https://new.example", "demo", 2);
    broken.timestamp = None;
    for rows in [
        vec![broken.clone()],
        vec![row(HASH, "https://old.example", "demo", 1), broken.clone()],
        vec![broken.clone(), row(HASH, "https://old.example", "demo", 1)],
    ] {
        assert_eq!(
            client.all_bookmarks(&None, QueryReply::Rows(rows)),
            Err(QueryError::MalformedResponse)
        );
    }
    let filtered_out =
        client.all_bookmarks(&Some("no such text".to_string()), QueryReply::Rows(vec![broken]));
    assert_eq!(filtered_out, Err(QueryError::MalformedResponse));
}

#[test]
fn all_bookmarks_of_an_empty_answer_is_empty() {
    let client = Client::new();
    assert_eq!(client.all_bookmarks(&None, QueryReply::Rows(Vec::new())), Ok(Vec::new()));
}
