use bookstore::{
    create_reply, current_health, delete_reply, get_reply, health_report, list_reply, parse_id,
    route, update_reply, Book, BookError, BookStore, Method, NewBook, Reply, Route,
};

fn payload(title: &str, author: &str, year: Option<i32>) -> NewBook {
    NewBook { title: title.to_string(), author: author.to_string(), published_year: year }
}

fn same_fields(b: &Book, p: &NewBook) -> bool {
    b.title == p.title && b.author == p.author && b.published_year == p.published_year
}

#[test]
fn create_then_get_returns_same_fields() {
    let mut store = BookStore::new();
    let p = payload("Dune", "Herbert", Some(1965));
    let created = store.create(&p).unwrap();
    assert_eq!(created.id, 1);
    let got = store.get(created.id).unwrap();
    assert_eq!(got.id, 1);
    assert!(same_fields(&got, &p));
    let q = payload("Emma", "Austen", None);
    let second = store.create(&q).unwrap();
    assert_eq!(second.id, 2);
    assert!(same_fields(&store.get(2).unwrap(), &q));
}

#[test]
fn update_then_get_returns_new_fields_under_path_id() {
    let mut store = BookStore::new();
    store.create(&payload("Dune", "Herbert", Some(1965))).unwrap();
    let q = payload("Dune Messiah", "F. Herbert", None);
    let updated = store.update(1, &q).unwrap();
    assert_eq!(updated.id, 1);
    assert!(same_fields(&updated, &q));
    let got = store.get(1).unwrap();
    assert_eq!(got.id, 1);
    assert!(same_fields(&got, &q));
}

#[test]
fn delete_then_get_is_not_found() {
    let mut store = BookStore::new();
    store.create(&payload("Dune", "Herbert", Some(1965))).unwrap();
    assert_eq!(store.delete(1), Ok(()));
    assert_eq!(store.get(1).unwrap_err(), BookError::NotFound);
    assert_eq!(store.delete(1), Err(BookError::NotFound));
}

#[test]
fn unassigned_ids_are_not_found() {
    let mut store = BookStore::new();
    store.create(&payload("Dune", "Herbert", Some(1965))).unwrap();
    for id in [0i64, 2, 99, -1, i64::MAX, i64::MIN] {
        assert_eq!(store.get(id).unwrap_err(), BookError::NotFound);
        assert_eq!(store.update(id, &payload("X", "Y", None)).unwrap_err(), BookError::NotFound);
        assert_eq!(store.delete(id), Err(BookError::NotFound));
    }
    assert_eq!(store.list().len(), 1);
}

#[test]
fn list_after_creates_and_deletes() {
    let mut store = BookStore::new();
    assert!(store.list().is_empty());
    let mut payloads = Vec::new();
    for i in 0..5 {
        let p = payload(&format!("Title {}", i), &format!("Author {}", i), Some(1900 + i));
        store.create(&p).unwrap();
        payloads.push(p);
    }
    store.delete(2).unwrap();
    store.delete(5).unwrap();
    let rows = store.list();
    assert_eq!(rows.len(), 3);
    let ids: Vec<i64> = rows.iter().map(|b| b.id).collect();
    assert_eq!(ids, vec![1, 3, 4]);
    for b in &rows {
        assert!(same_fields(b, &payloads[(b.id - 1) as usize]));
    }
}

#[test]
fn ids_are_not_reused_after_delete() {
    let mut store = BookStore::new();
    store.create(&payload("A", "B", None)).unwrap();
    store.delete(1).unwrap();
    assert_eq!(store.create(&payload("C", "D", None)).unwrap().id, 2);
}

#[test]
fn invalid_payloads_are_refused_and_change_nothing() {
    let mut store = BookStore::new();
    assert_eq!(store.create(&payload("", "Herbert", None)).unwrap_err(), BookError::MissingTitle);
    assert_eq!(store.create(&payload("Dune", "", None)).unwrap_err(), BookError::MissingAuthor);
    assert!(store.list().is_empty());
    store.create(&payload("Dune", "Herbert", None)).unwrap();
    assert_eq!(store.update(1, &payload("", "", None)).unwrap_err(), BookError::MissingTitle);
    assert_eq!(store.get(1).unwrap().title, "Dune");
}

#[test]
fn fields_are_checked_when_building_a_payload() {
    let ok = NewBook::from_fields(Some("Dune".to_string()), Some("Herbert".to_string()), Some(1965))
        .unwrap();
    assert_eq!(ok.title, "Dune");
    assert_eq!(ok.author, "Herbert");
    assert_eq!(ok.published_year, Some(1965));
    assert_eq!(
        NewBook::from_fields(None, Some("Herbert".to_string()), None).unwrap_err(),
        BookError::MissingTitle
    );
    assert_eq!(
        NewBook::from_fields(Some(String::new()), Some("Herbert".to_string()), None).unwrap_err(),
        BookError::MissingTitle
    );
    assert_eq!(
        NewBook::from_fields(Some("Dune".to_string()), None, None).unwrap_err(),
        BookError::MissingAuthor
    );
    assert_eq!(
        NewBook::from_fields(Some("Dune".to_string()), Some(String::new()), None).unwrap_err(),
        BookError::MissingAuthor
    );
}

#[test]
fn dune_scenario_through_requests() {
    let mut store = BookStore::new();
    let created = store.serve(
        Method::Post,
        b"/api/v1/books",
        Some(payload("Dune", "Herbert", Some(1965))),
    );
    assert_eq!(created.status(), 201);
    match &created {
        Reply::Created(b) => {
            assert_eq!(b.id, 1);
            assert!(same_fields(b, &payload("Dune", "Herbert", Some(1965))));
        }
        other => panic!("unexpected reply {:?}", other),
    }
    let got = store.serve(Method::Get, b"/api/v1/books/1", None);
    assert_eq!(got.status(), 200);
    match &got {
        Reply::Found(b) => {
            assert_eq!(b.id, 1);
            assert!(same_fields(b, &payload("Dune", "Herbert", Some(1965))));
        }
        other => panic!("unexpected reply {:?}", other),
    }
    let updated = store.serve(
        Method::Put,
        b"/api/v1/books/1",
        Some(payload("Dune", "F. Herbert", Some(1965))),
    );
    assert_eq!(updated.status(), 200);
    match store.serve(Method::Get, b"/api/v1/books/1", None) {
        Reply::Found(b) => {
            assert_eq!(b.id, 1);
            assert_eq!(b.author, "F. Herbert");
        }
        other => panic!("unexpected reply {:?}", other),
    }
    let deleted = store.serve(Method::Delete, b"/api/v1/books/1", None);
    assert_eq!(deleted.status(), 204);
    let gone = store.serve(Method::Get, b"/api/v1/books/1", None);
    assert!(matches!(gone, Reply::Failed(BookError::NotFound)));
    assert_eq!(gone.status(), 404);
}

#[test]
fn serve_answers_health_list_and_errors() {
    let mut store = BookStore::new();
    assert!(matches!(store.serve(Method::Get, b"/api/v1/health", None), Reply::Healthy));
    match store.serve(Method::Get, b"/api/v1/books", None) {
        Reply::Books(v) => assert!(v.is_empty()),
        other => panic!("unexpected reply {:?}", other),
    }
    let bad = store.serve(Method::Get, b"/api/v1/books/abc", None);
    assert!(matches!(bad, Reply::Failed(BookError::InvalidId)));
    assert_eq!(bad.status(), 400);
    let no_body = store.serve(Method::Post, b"/api/v1/books", None);
    assert!(matches!(no_body, Reply::Failed(BookError::InvalidBody)));
    let empty_title = store.serve(Method::Post, b"/api/v1/books", Some(payload("", "A", None)));
    assert!(matches!(empty_title, Reply::Failed(BookError::MissingTitle)));
    assert_eq!(empty_title.status(), 400);
    let wrong = store.serve(Method::Post, b"/api/v1/books/1", None);
    assert_eq!(wrong.status(), 405);
    let missing = store.serve(Method::Get, b"/nowhere", None);
    assert_eq!(missing.status(), 404);
    let update_missing = store.serve(Method::Put, b"/api/v1/books/7", Some(payload("A", "B", None)));
    assert!(matches!(update_missing, Reply::Failed(BookError::NotFound)));
    match store.serve(Method::Get, b"/api/v1/books", None) {
        Reply::Books(v) => assert!(v.is_empty()),
        other => panic!("unexpected reply {:?}", other),
    }
}

#[test]
fn routes_by_method_and_path() {
    for p in [&b"/"[..], b"/health", b"/api/v1", b"/api/v1/health"] {
        assert_eq!(route(Method::Get, p), Route::Health);
        assert_eq!(route(Method::Post, p), Route::MethodNotAllowed);
    }
    assert_eq!(route(Method::Get, b"/api/v1/books"), Route::ListBooks);
    assert_eq!(route(Method::Post, b"/api/v1/books"), Route::CreateBook);
    assert_eq!(route(Method::Delete, b"/api/v1/books"), Route::MethodNotAllowed);
    assert_eq!(route(Method::Get, b"/api/v1/books/42"), Route::GetBook(42));
    assert_eq!(route(Method::Put, b"/api/v1/books/42"), Route::UpdateBook(42));
    assert_eq!(route(Method::Delete, b"/api/v1/books/42"), Route::DeleteBook(42));
    assert_eq!(route(Method::Other, b"/api/v1/books/42"), Route::MethodNotAllowed);
    assert_eq!(route(Method::Get, b"/api/v1/books/4x"), Route::InvalidId);
    assert_eq!(route(Method::Get, b"/api/v1/books/"), Route::NotFound);
    assert_eq!(route(Method::Get, b"/api/v1/books/1/2"), Route::NotFound);
    assert_eq!(route(Method::Get, b"/api/v1/bookshelf"), Route::NotFound);
    assert_eq!(route(Method::Get, b""), Route::NotFound);
}

#[test]
fn parses_identifiers() {
    assert_eq!(parse_id(b"0"), Some(0));
    assert_eq!(parse_id(b"12"), Some(12));
    assert_eq!(parse_id(b"007"), Some(7));
    assert_eq!(parse_id(b"-5"), Some(-5));
    assert_eq!(parse_id(b"+7"), Some(7));
    assert_eq!(parse_id(b"9223372036854775807"), Some(i64::MAX));
    assert_eq!(parse_id(b"-9223372036854775808"), Some(i64::MIN));
    assert_eq!(parse_id(b"9223372036854775808"), None);
    assert_eq!(parse_id(b"-9223372036854775809"), None);
    assert_eq!(parse_id(b"99999999999999999999"), None);
    assert_eq!(parse_id(b""), None);
    assert_eq!(parse_id(b"-"), None);
    assert_eq!(parse_id(b"+"), None);
    assert_eq!(parse_id(b"1.5"), None);
    assert_eq!(parse_id(b"abc"), None);
    assert_eq!(parse_id(b"--1"), None);
}

#[test]
fn storage_outcomes_become_replies() {
    let dune = payload("Dune", "Herbert", Some(1965));
    match create_reply(&dune, Ok(9)) {
        Reply::Created(b) => {
            assert_eq!(b.id, 9);
            assert!(same_fields(&b, &dune));
        }
        other => panic!("unexpected reply {:?}", other),
    }
    assert_eq!(create_reply(&dune, Err(BookError::Storage)).status(), 500);
    match update_reply(3, &dune, Ok(1)) {
        Reply::Found(b) => assert_eq!(b.id, 3),
        other => panic!("unexpected reply {:?}", other),
    }
    assert!(matches!(update_reply(3, &dune, Ok(0)), Reply::Failed(BookError::NotFound)));
    assert!(matches!(delete_reply(Ok(1)), Reply::Deleted));
    assert!(matches!(delete_reply(Ok(0)), Reply::Failed(BookError::NotFound)));
    assert!(matches!(delete_reply(Err(BookError::Storage)), Reply::Failed(BookError::Storage)));
    assert!(matches!(get_reply(Ok(None)), Reply::Failed(BookError::NotFound)));
    assert!(matches!(get_reply(Ok(Some(dune.with_id(4)))), Reply::Found(_)));
    assert!(matches!(list_reply(Err(BookError::Storage)), Reply::Failed(BookError::Storage)));
    match list_reply(Ok(vec![dune.with_id(1)])) {
        Reply::Books(v) => assert_eq!(v.len(), 1),
        other => panic!("unexpected reply {:?}", other),
    }
}

#[test]
fn route_errors_and_statuses() {
    assert_eq!(Route::InvalidId.error(), Some(BookError::InvalidId));
    assert_eq!(Route::MethodNotAllowed.error(), Some(BookError::UnsupportedMethod));
    assert_eq!(Route::NotFound.error(), Some(BookError::NotFound));
    assert_eq!(Route::ListBooks.error(), None);
    assert_eq!(BookError::NotFound.status(), 404);
    assert_eq!(BookError::MissingAuthor.status(), 400);
    assert_eq!(BookError::InvalidBody.status(), 400);
    assert_eq!(BookError::UnsupportedMethod.status(), 405);
    assert_eq!(BookError::Storage.status(), 500);
    assert_eq!(Reply::Healthy.status(), 200);
}

#[test]
fn health_document_has_fixed_fields() {
    let r = health_report("2024-01-01T00:00:00+00:00".to_string());
    assert_eq!(r.status, "healthy");
    assert_eq!(r.timestamp, "2024-01-01T00:00:00+00:00");
    assert_eq!(r.service, "Bookstore API");
    assert_eq!(r.api_url, "http://localhost:5000/api/v1/books");
    let now = current_health();
    assert_eq!(now.status, "healthy");
    assert!(now.timestamp.len() >= 25);
    assert!(now.timestamp.contains('T'));
    assert!(now.timestamp.ends_with("+00:00"));
}
