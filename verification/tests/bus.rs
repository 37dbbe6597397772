use bookmarks::client::{Client, BOOKMARKS_SCHEMA_ID};
use bookmarks::document::{Bookmark, Document, Meta};
use bookmarks::error::{BuildError, BusDeliveryMiss, QueryError, SubmitError};
use bookmarks::interface::{add_requested, links, on_delivery, refresh_requested, Link, Shown};
use bookmarks::message::{copy_documents, Delivery, Failure, Message};
use bookmarks::projection::QueryRow;
use bookmarks::query::QueryReply;
use bookmarks::submission::SubmitReply;
use bookmarks::worker::{Turn, Worker};
use tokio::sync::broadcast;
use tokio::sync::broadcast::error::TryRecvError;

const HASH: &str = "0020cfb0fa37f36d082faad3886a9ffbcc2813b7afe90f0609a556d425f1a76ec805";
const OWNER: &str = "7cf4f58a2d89e93313f2de99604a814ecea9800cf217b140e9c3a7ba59a5d982";

fn document(url: &str, description: &str, timestamp: u64) -> Document<Bookmark> {
    Document {
        meta: Meta {
            document_id: HASH.to_string(),
            view_id: HASH.to_string(),
            owner: OWNER.to_string(),
        },
        fields: Bookmark {
            url: url.to_string(),
            description: description.to_string(),
            timestamp,
        },
    }
}

fn row(url: &str, description: &str, timestamp: i64) -> QueryRow {
    QueryRow {
        document_id: HASH.to_string(),
        view_id: HASH.to_string(),
        owner: OWNER.to_string(),
        url: Some(url.to_string()),
        description: Some(description.to_string()),
        timestamp: Some(timestamp),
    }
}

fn worker() -> Worker {
    Worker::new(Client::new())
}

#[test]
fn refresh_asks_for_all_bookmarks() {
    assert_eq!(refresh_requested(), Message::GetAllBookmarksRequest(None));
}

#[test]
fn add_with_empty_url_publishes_nothing() {
    assert_eq!(add_requested(String::new(), "demo".to_string()), None);
}

#[test]
fn add_with_url_publishes_the_request() {
    assert_eq!(
        add_requested("https://example.com".to_string(), String::new()),
        Some(Message::AddBookmarkRequest("https://example.com".to_string(), String::new()))
    );
}

#[test]
fn links_keep_order_url_and_description() {
    let documents =
        vec![document("https://b.example", "second", 2), document("https://a.example", "first", 1)];
    assert_eq!(
        links(&documents),
        vec![
            Link { url: "https://b.example".to_string(), description: "second".to_string() },
            Link { url: "https://a.example".to_string(), description: "first".to_string() },
        ]
    );
}

#[test]
fn interface_shows_answers_and_failures() {
    let documents = vec![document("https://a.example", "first", 1)];
    assert_eq!(
        on_delivery(Delivery::Message(Message::GetAllBookmarksResponse(copy_documents(
            &documents
        )))),
        Shown::Bookmarks(links(&documents))
    );
    assert_eq!(
        on_delivery(Delivery::Message(Message::AddBookmarkResponse(document("u", "d", 1)))),
        Shown::Added(document("u", "d", 1))
    );
    let failure = Failure::Submit(SubmitError::Timeout);
    assert_eq!(
        on_delivery(Delivery::Message(Message::RequestFailed(failure))),
        Shown::Failed(failure)
    );
}

#[test]
fn interface_passes_over_requests() {
    assert_eq!(on_delivery(Delivery::Message(refresh_requested())), Shown::Nothing);
    let add = Message::AddBookmarkRequest("https://example.com".to_string(), String::new());
    assert_eq!(on_delivery(Delivery::Message(add)), Shown::Nothing);
}

#[test]
fn interface_sees_a_gap_and_the_end() {
    let miss = BusDeliveryMiss { missed: 3 };
    assert_eq!(on_delivery(Delivery::Missed(miss)), Shown::Missed(miss));
    assert_eq!(on_delivery(Delivery::Closed), Shown::Closed);
}

#[test]
fn message_clone_is_equal() {
    let messages = vec![
        Message::GetAllBookmarksRequest(Some("demo".to_string())),
        Message::GetAllBookmarksRequest(None),
        Message::GetAllBookmarksResponse(vec![document("u", "d", 1), document("v", "e", 2)]),
        Message::AddBookmarkRequest("u".to_string(), "d".to_string()),
        Message::AddBookmarkResponse(document("u", "d", 1)),
        Message::RequestFailed(Failure::Build(BuildError::InvalidSchema)),
    ];
    for message in messages {
        assert_eq!(message.clone(), message);
    }
}

#[test]
fn worker_answers_a_query() {
    let request = Message::GetAllBookmarksRequest(Some("demo".to_string()));
    let (pending, text) = match worker().deliver(Delivery::Message(request), Some(5)) {
        Turn::Query(pending, text) => (pending, text),
        _ => panic!("a query was expected"),
    };
    assert_eq!(text, Client::all_bookmarks_query(&Some("demo".to_string())));
    let rows = vec![row("https://a.example", "a demo", 1), row("https://b.example", "other", 2)];
    let (_, answer) = pending.answered(QueryReply::Rows(rows));
    assert_eq!(
        answer,
        Message::GetAllBookmarksResponse(vec![document("https://a.example", "a demo", 1)])
    );
}

#[test]
fn worker_survives_a_failed_query() {
    let pending = match worker().deliver(Delivery::Message(refresh_requested()), Some(5)) {
        Turn::Query(pending, _) => pending,
        _ => panic!("a query was expected"),
    };
    let (worker, answer) = pending.answered(QueryReply::Unreachable);
    assert_eq!(answer, Message::RequestFailed(Failure::Query(QueryError::Unreachable)));
    let turn = worker.deliver(Delivery::Message(refresh_requested()), Some(6));
    assert!(matches!(turn, Turn::Query(_, _)));
}

#[test]
fn worker_reports_a_malformed_answer() {
    let pending = match worker().deliver(Delivery::Message(refresh_requested()), Some(5)) {
        Turn::Query(pending, _) => pending,
        _ => panic!("a query was expected"),
    };
    let mut broken = row("https://a.example", "demo", 1);
    broken.url = None;
    let (_, answer) = pending.answered(QueryReply::Rows(vec![broken]));
    assert_eq!(answer, Message::RequestFailed(Failure::Query(QueryError::MalformedResponse)));
}

#[test]
fn worker_adds_a_bookmark_stamped_with_the_time_of_delivery() {
    let client = Client::new();
    let owner = client.identity().public_key();
    let request =
        Message::AddBookmarkRequest("https://example.com".to_string(), "demo".to_string());
    let turn = Worker::new(client).deliver(Delivery::Message(request), Some(1_700_000_000));
    let (pending, operation) = match turn {
        Turn::Submit(pending, operation) => (pending, operation),
        _ => panic!("an operation was expected"),
    };
    assert_eq!(operation.schema_id(), BOOKMARKS_SCHEMA_ID);
    let shown = format!("{:?}", operation.plain());
    assert!(shown.contains("1700000000"));
    let (_, answer) = pending.answered(SubmitReply::Accepted(HASH.to_string()));
    let mut expected = document("https://example.com", "demo", 1_700_000_000);
    expected.meta.owner = owner;
    assert_eq!(answer, Message::AddBookmarkResponse(expected));
}

#[test]
fn worker_survives_a_failed_write() {
    for (reply, error) in [
        (SubmitReply::Rejected, SubmitError::Rejected),
        (SubmitReply::Unreachable, SubmitError::Unreachable),
        (SubmitReply::Timeout, SubmitError::Timeout),
        (SubmitReply::Accepted("no hash".to_string()), SubmitError::Rejected),
    ] {
        let request = Message::AddBookmarkRequest("https://example.com".to_string(), String::new());
        let pending = match worker().deliver(Delivery::Message(request), Some(1)) {
            Turn::Submit(pending, _) => pending,
            _ => panic!("an operation was expected"),
        };
        let (worker, answer) = pending.answered(reply);
        assert_eq!(answer, Message::RequestFailed(Failure::Submit(error)));
        assert!(matches!(worker.deliver(Delivery::Closed, Some(2)), Turn::Stop));
    }
}

#[test]
fn worker_sends_nothing_for_an_empty_url() {
    let request = Message::AddBookmarkRequest(String::new(), "demo".to_string());
    match worker().deliver(Delivery::Message(request), Some(1)) {
        Turn::Publish(_, message) => {
            assert_eq!(message, Message::RequestFailed(Failure::Build(BuildError::MissingField)))
        }
        _ => panic!("a failure was expected"),
    }
}

#[test]
fn worker_passes_over_answers() {
    let answers = vec![
        Message::GetAllBookmarksResponse(Vec::new()),
        Message::AddBookmarkResponse(document("u", "d", 1)),
        Message::RequestFailed(Failure::Query(QueryError::Unreachable)),
    ];
    for answer in answers {
        let turn = worker().deliver(Delivery::Message(answer), Some(1));
        assert!(matches!(turn, Turn::Receive(_)));
    }
}

#[test]
fn worker_sees_a_gap_and_goes_on() {
    let miss = BusDeliveryMiss { missed: 17 };
    let worker = match worker().deliver(Delivery::Missed(miss), Some(1)) {
        Turn::Missed(worker, BusDeliveryMiss { missed: 17 }) => worker,
        _ => panic!("a gap of 17 was expected"),
    };
    let turn = worker.deliver(Delivery::Message(refresh_requested()), Some(2));
    assert!(matches!(turn, Turn::Query(_, _)));
}

#[test]
fn worker_stops_when_the_bus_is_closed() {
    assert!(matches!(worker().deliver(Delivery::Closed, Some(1)), Turn::Stop));
}

fn next(receiver: &mut broadcast::Receiver<Message>) -> Option<Delivery> {
    match receiver.try_recv() {
        Ok(message) => Some(Delivery::Message(message)),
        Err(TryRecvError::Lagged(missed)) => Some(Delivery::Missed(BusDeliveryMiss { missed })),
        Err(TryRecvError::Closed) => Some(Delivery::Closed),
        Err(TryRecvError::Empty) => None,
    }
}

fn search(text: &str) -> Message {
    Message::GetAllBookmarksRequest(Some(text.to_string()))
}

#[test]
fn bus_delivers_every_message_to_every_subscriber_once_and_in_order() {
    let (sender, mut first) = broadcast::channel::<Message>(16);
    let mut second = sender.subscribe();
    let mut third = sender.subscribe();
    assert_eq!(sender.send(search("one")).unwrap(), 3);
    assert_eq!(sender.send(search("two")).unwrap(), 3);
    for receiver in [&mut first, &mut second, &mut third] {
        assert_eq!(next(receiver), Some(Delivery::Message(search("one"))));
        assert_eq!(next(receiver), Some(Delivery::Message(search("two"))));
        assert_eq!(next(receiver), None);
    }
}

#[test]
fn bus_hands_a_late_subscriber_only_what_is_published_after_it_came() {
    let (sender, mut early) = broadcast::channel::<Message>(16);
    sender.send(search("one")).unwrap();
    let mut late = sender.subscribe();
    sender.send(search("two")).unwrap();
    assert_eq!(next(&mut early), Some(Delivery::Message(search("one"))));
    assert_eq!(next(&mut early), Some(Delivery::Message(search("two"))));
    assert_eq!(next(&mut late), Some(Delivery::Message(search("two"))));
    assert_eq!(next(&mut late), None);
}

#[test]
fn bus_tells_a_slow_subscriber_how_much_it_missed() {
    let (sender, mut slow) = broadcast::channel::<Message>(2);
    let mut fast = sender.subscribe();
    sender.send(search("one")).unwrap();
    assert_eq!(next(&mut fast), Some(Delivery::Message(search("one"))));
    sender.send(search("two")).unwrap();
    assert_eq!(next(&mut fast), Some(Delivery::Message(search("two"))));
    sender.send(search("three")).unwrap();
    assert_eq!(next(&mut fast), Some(Delivery::Message(search("three"))));

    let gap = next(&mut slow).unwrap();
    assert_eq!(gap, Delivery::Missed(BusDeliveryMiss { missed: 1 }));
    let worker = match worker().deliver(gap, Some(1)) {
        Turn::Missed(worker, BusDeliveryMiss { missed: 1 }) => worker,
        _ => panic!("a gap of one was expected"),
    };
    let pending = match worker.deliver(next(&mut slow).unwrap(), Some(2)) {
        Turn::Query(pending, text) => {
            assert_eq!(text, Client::all_bookmarks_query(&Some("two".to_string())));
            pending
        }
        _ => panic!("the oldest message that is left was expected"),
    };
    let (_, answer) = pending.answered(QueryReply::Rows(Vec::new()));
    assert_eq!(answer, Message::GetAllBookmarksResponse(Vec::new()));
    assert_eq!(next(&mut slow), Some(Delivery::Message(search("three"))));
    assert_eq!(next(&mut slow), None);
}

#[test]
fn bus_without_subscribers_takes_no_message() {
    let (sender, receiver) = broadcast::channel::<Message>(16);
    drop(receiver);
    assert!(sender.send(refresh_requested()).is_err());
    let mut late = sender.subscribe();
    assert_eq!(next(&mut late), None);
}

#[test]
fn bus_closes_when_every_publisher_is_gone() {
    let (sender, mut receiver) = broadcast::channel::<Message>(16);
    sender.send(refresh_requested()).unwrap();
    drop(sender);
    assert_eq!(next(&mut receiver), Some(Delivery::Message(refresh_requested())));
    assert_eq!(next(&mut receiver), Some(Delivery::Closed));
    assert_eq!(on_delivery(Delivery::Closed), Shown::Closed);
}

#[test]
fn every_message_is_acted_on_by_one_side() {
    let messages = || {
        vec![
            Message::GetAllBookmarksRequest(None),
            Message::GetAllBookmarksResponse(Vec::new()),
            Message::AddBookmarkRequest("https://example.com".to_string(), String::new()),
            Message::AddBookmarkResponse(document("u", "d", 1)),
            Message::RequestFailed(Failure::Submit(SubmitError::Rejected)),
        ]
    };
    for (to_worker, to_interface) in messages().into_iter().zip(messages()) {
        let turn = worker().deliver(Delivery::Message(to_worker), Some(1));
        let worker_passed = matches!(turn, Turn::Receive(_));
        let interface_passed = on_delivery(Delivery::Message(to_interface)) == Shown::Nothing;
        assert_ne!(worker_passed, interface_passed);
    }
}

#[test]
fn worker_sends_nothing_without_a_time_to_stamp_with() {
    for now in [None, Some(u64::MAX), Some(i64::MAX as u64 + 1)] {
        let request =
            Message::AddBookmarkRequest("https://example.com".to_string(), "demo".to_string());
        let worker = match worker().deliver(Delivery::Message(request), now) {
            Turn::Publish(worker, message) => {
                assert_eq!(message, Message::RequestFailed(Failure::Clock));
                worker
            }
            _ => panic!("a failure was expected"),
        };
        assert!(matches!(
            worker.deliver(Delivery::Message(refresh_requested()), now),
            Turn::Query(_, _)
        ));
    }
}

#[test]
fn worker_stamps_with_the_latest_time_that_can_be_written() {
    let request = Message::AddBookmarkRequest("https://example.com".to_string(), String::new());
    let latest = i64::MAX as u64;
    let (pending, operation) = match worker().deliver(Delivery::Message(request), Some(latest)) {
        Turn::Submit(pending, operation) => (pending, operation),
        _ => panic!("an operation was expected"),
    };
    assert!(format!("{:?}", operation.plain()).contains("9223372036854775807"));
    match pending.answered(SubmitReply::Accepted(HASH.to_string())) {
        (_, Message::AddBookmarkResponse(document)) => {
            assert_eq!(document.fields.timestamp, latest)
        }
        _ => panic!("the written bookmark was expected"),
    }
}

#[test]
fn interface_shows_a_failed_clock() {
    assert_eq!(
        on_delivery(Delivery::Message(Message::RequestFailed(Failure::Clock))),
        Shown::Failed(Failure::Clock)
    );
}
