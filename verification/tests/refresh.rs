use emoji_mashup::guard::RefreshGuard;
use emoji_mashup::record::CombinationRecord;
use emoji_mashup::refresh::{
    is_success, Coordinator, DecodeFailure, RefreshAction, RefreshError, RefreshEvent,
    RefreshOutcome, RefreshSession, RefreshStart,
};
use emoji_mashup::store::{LookupOutcome, MappingStore};

const DOCUMENT: &str = r#"{"data": {"1f600": {"emoji": "😀", "combinations": {"1f602": [
    {"gStaticUrl": "http://x/1.png", "leftEmoji": "😀", "rightEmoji": "😂"}]}}}}"#;

fn started(coordinator: &mut Coordinator) -> RefreshSession {
    match coordinator.begin_refresh() {
        RefreshStart::Fetch(session) => session,
        RefreshStart::AlreadyInProgress => panic!("a refresh is in progress"),
    }
}

fn fetched(status: u16, body: &[u8]) -> RefreshEvent {
    RefreshEvent::Fetched { status, body: body.to_vec() }
}

fn failure(action: RefreshAction) -> RefreshError {
    match action {
        RefreshAction::Done(Err(error)) => error,
        other => panic!("not a failure: {:?}", other),
    }
}

fn found(url: &str) -> LookupOutcome {
    LookupOutcome::Found(url.to_string())
}

#[test]
fn the_guard_is_claimed_once() {
    let mut guard = RefreshGuard::new();
    assert!(!guard.is_in_progress());
    assert!(guard.try_begin());
    assert!(guard.is_in_progress());
    assert!(!guard.try_begin());
    assert!(guard.is_in_progress());
    guard.end();
    assert!(!guard.is_in_progress());
    assert!(guard.try_begin());
}

#[test]
fn end_on_a_free_guard_leaves_it_free() {
    let mut guard = RefreshGuard::new();
    guard.end();
    assert!(!guard.is_in_progress());
}

#[test]
fn success_is_a_status_from_200_to_299() {
    assert!(!is_success(0));
    assert!(!is_success(199));
    assert!(is_success(200));
    assert!(is_success(204));
    assert!(is_success(299));
    assert!(!is_success(300));
    assert!(!is_success(404));
    assert!(!is_success(500));
    assert!(!is_success(u16::MAX));
}

#[test]
fn a_refresh_runs_through_its_steps() {
    let mut coordinator = Coordinator::new();
    assert!(!coordinator.is_refreshing());
    let session = started(&mut coordinator);
    assert!(coordinator.is_refreshing());
    assert_eq!(session.raw_document(), None);

    let (session, action) = session.step(fetched(200, DOCUMENT.as_bytes()));
    assert!(matches!(action, RefreshAction::PersistRaw));
    assert_eq!(session.raw_document(), Some(DOCUMENT));
    assert!(session.pending_records().is_none());

    let (session, action) = session.step(RefreshEvent::Persisted);
    assert!(matches!(action, RefreshAction::Store));
    assert_eq!(session.raw_document(), None);
    assert_eq!(
        session.pending_records(),
        Some(&vec![CombinationRecord::new("😀", "😀", "😂", "http://x/1.png")])
    );
    assert!(!session.is_finished());
    assert!(!coordinator.store().is_initialized());

    let (session, action) = session.step(RefreshEvent::Stored);
    assert!(session.is_finished());
    let result = match action {
        RefreshAction::Done(result) => result,
        other => panic!("not done: {:?}", other),
    };
    assert!(coordinator.is_refreshing());
    assert_eq!(coordinator.finish_refresh(result), Ok(RefreshOutcome::Replaced(1)));
    assert!(!coordinator.is_refreshing());
    assert_eq!(coordinator.store().lookup("😂", "😀"), found("http://x/1.png"));
}

#[test]
fn a_second_request_is_told_that_a_refresh_is_in_progress() {
    let mut coordinator = Coordinator::new();
    let session = started(&mut coordinator);
    assert!(matches!(coordinator.begin_refresh(), RefreshStart::AlreadyInProgress));
    assert!(matches!(coordinator.begin_refresh(), RefreshStart::AlreadyInProgress));
    assert!(coordinator.is_refreshing());

    let (session, _) = session.step(fetched(200, DOCUMENT.as_bytes()));
    assert!(matches!(coordinator.begin_refresh(), RefreshStart::AlreadyInProgress));
    let (session, _) = session.step(RefreshEvent::Persisted);
    let (_, action) = session.step(RefreshEvent::Stored);
    let result = match action {
        RefreshAction::Done(result) => result,
        other => panic!("not done: {:?}", other),
    };
    assert_eq!(coordinator.finish_refresh(result), Ok(RefreshOutcome::Replaced(1)));
    assert!(matches!(coordinator.begin_refresh(), RefreshStart::Fetch(_)));
}

#[test]
fn of_many_requests_one_starts_a_refresh() {
    let mut coordinator = Coordinator::new();
    let mut starts = 0;
    for _ in 0..10 {
        if let RefreshStart::Fetch(_) = coordinator.begin_refresh() {
            starts += 1;
        }
    }
    assert_eq!(starts, 1);
    assert!(!coordinator.store().is_initialized());
}

#[test]
fn a_failed_fetch_leaves_an_empty_store_empty() {
    let mut coordinator = Coordinator::new();
    let session = started(&mut coordinator);
    let (session, action) = session.step(RefreshEvent::FetchFailed("timed out".to_string()));
    assert!(session.is_finished());
    let error = failure(action);
    assert_eq!(error, RefreshError::Network("timed out".to_string()));
    assert_eq!(coordinator.finish_refresh(Err(error.clone())), Err(error));
    assert!(!coordinator.is_refreshing());
    assert!(!coordinator.store().is_initialized());
    assert_eq!(coordinator.store().lookup("😀", "😂"), LookupOutcome::NotInitialized);
}

#[test]
fn a_failed_fetch_leaves_the_previous_snapshot() {
    let mut store = MappingStore::new();
    store.replace_all(vec![CombinationRecord::new("a", "a", "b", "old")]);
    let mut coordinator = Coordinator::with_store(store);
    let session = started(&mut coordinator);
    let (_, action) = session.step(fetched(503, DOCUMENT.as_bytes()));
    let error = failure(action);
    assert_eq!(error, RefreshError::HttpStatus(503));
    assert_eq!(coordinator.finish_refresh(Err(error)), Err(RefreshError::HttpStatus(503)));
    assert!(!coordinator.is_refreshing());
    assert_eq!(coordinator.store().lookup("b", "a"), found("old"));
    assert_eq!(coordinator.store().record_count(), Some(1));
    assert!(matches!(coordinator.begin_refresh(), RefreshStart::Fetch(_)));
}

#[test]
fn a_body_that_is_not_utf8_is_a_decode_error() {
    let mut coordinator = Coordinator::new();
    let session = started(&mut coordinator);
    let (session, action) = session.step(fetched(200, &[b'{', 0xff, b'}']));
    assert!(session.is_finished());
    assert_eq!(failure(action), RefreshError::Decode(DecodeFailure::NotUtf8));
}

#[test]
fn a_status_is_judged_before_the_body() {
    let mut coordinator = Coordinator::new();
    let session = started(&mut coordinator);
    let (_, action) = session.step(fetched(404, &[0xff]));
    assert_eq!(failure(action), RefreshError::HttpStatus(404));
}

#[test]
fn a_copy_that_cannot_be_written_is_a_persist_error() {
    let mut coordinator = Coordinator::new();
    let session = started(&mut coordinator);
    let (session, _) = session.step(fetched(200, DOCUMENT.as_bytes()));
    let (session, action) = session.step(RefreshEvent::PersistFailed("disk full".to_string()));
    assert!(session.is_finished());
    assert_eq!(failure(action), RefreshError::Persist("disk full".to_string()));
}

#[test]
fn a_text_that_is_not_json_is_a_decode_error_after_the_copy() {
    let mut coordinator = Coordinator::new();
    let session = started(&mut coordinator);
    let (session, action) = session.step(fetched(200, b"<html>"));
    assert!(matches!(action, RefreshAction::PersistRaw));
    assert_eq!(session.raw_document(), Some("<html>"));
    let (session, action) = session.step(RefreshEvent::Persisted);
    assert!(session.is_finished());
    match failure(action) {
        RefreshError::Decode(DecodeFailure::NotJson(message)) => assert!(!message.is_empty()),
        other => panic!("not a decode error: {:?}", other),
    }
}

#[test]
fn a_table_that_cannot_be_written_is_a_store_error() {
    let mut store = MappingStore::new();
    store.replace_all(vec![CombinationRecord::new("a", "a", "b", "old")]);
    let mut coordinator = Coordinator::with_store(store);
    let session = started(&mut coordinator);
    let (session, _) = session.step(fetched(200, DOCUMENT.as_bytes()));
    let (session, _) = session.step(RefreshEvent::Persisted);
    let (session, action) = session.step(RefreshEvent::StoreFailed("locked".to_string()));
    assert!(session.is_finished());
    let error = failure(action);
    assert_eq!(error, RefreshError::Store("locked".to_string()));
    assert_eq!(coordinator.finish_refresh(Err(error)), Err(RefreshError::Store("locked".to_string())));
    assert!(!coordinator.is_refreshing());
    assert_eq!(coordinator.store().lookup("a", "b"), found("old"));
    assert_eq!(coordinator.store().lookup("😀", "😂"), LookupOutcome::NotFound);
}

#[test]
fn an_event_out_of_turn_is_rejected() {
    let mut coordinator = Coordinator::new();
    let session = started(&mut coordinator);
    let (session, action) = session.step(RefreshEvent::Persisted);
    assert!(matches!(action, RefreshAction::Rejected));
    let (session, action) = session.step(RefreshEvent::Stored);
    assert!(matches!(action, RefreshAction::Rejected));
    let (session, action) = session.step(RefreshEvent::StoreFailed("x".to_string()));
    assert!(matches!(action, RefreshAction::Rejected));
    assert!(!session.is_finished());

    let (session, _) = session.step(fetched(200, DOCUMENT.as_bytes()));
    let (session, action) = session.step(fetched(200, b"{}"));
    assert!(matches!(action, RefreshAction::Rejected));
    let (session, action) = session.step(RefreshEvent::FetchFailed("x".to_string()));
    assert!(matches!(action, RefreshAction::Rejected));
    let (session, action) = session.step(RefreshEvent::Stored);
    assert!(matches!(action, RefreshAction::Rejected));
    assert_eq!(session.raw_document(), Some(DOCUMENT));

    let (session, _) = session.step(RefreshEvent::Persisted);
    let (session, action) = session.step(RefreshEvent::Persisted);
    assert!(matches!(action, RefreshAction::Rejected));
    let (session, action) = session.step(RefreshEvent::PersistFailed("x".to_string()));
    assert!(matches!(action, RefreshAction::Rejected));
    assert!(session.pending_records().is_some());

    let (session, _) = session.step(RefreshEvent::Stored);
    let (session, action) = session.step(RefreshEvent::Stored);
    assert!(matches!(action, RefreshAction::Rejected));
    assert!(session.is_finished());
}

#[test]
fn a_refresh_replaces_the_whole_snapshot() {
    let mut store = MappingStore::new();
    store.replace_all(vec![CombinationRecord::new("a", "a", "b", "old")]);
    let mut coordinator = Coordinator::with_store(store);
    let session = started(&mut coordinator);
    let (session, _) = session.step(fetched(200, DOCUMENT.as_bytes()));
    let (session, _) = session.step(RefreshEvent::Persisted);
    assert_eq!(coordinator.store().lookup("a", "b"), found("old"));
    let (_, action) = session.step(RefreshEvent::Stored);
    let result = match action {
        RefreshAction::Done(result) => result,
        other => panic!("not done: {:?}", other),
    };
    assert_eq!(coordinator.finish_refresh(result), Ok(RefreshOutcome::Replaced(1)));
    assert_eq!(coordinator.store().lookup("a", "b"), LookupOutcome::NotFound);
    assert_eq!(coordinator.store().lookup("😀", "😂"), found("http://x/1.png"));
}

#[test]
fn a_document_without_records_gives_an_empty_snapshot() {
    let mut coordinator = Coordinator::new();
    let session = started(&mut coordinator);
    let (session, _) = session.step(fetched(200, b"{}"));
    let (session, _) = session.step(RefreshEvent::Persisted);
    let (_, action) = session.step(RefreshEvent::Stored);
    let result = match action {
        RefreshAction::Done(result) => result,
        other => panic!("not done: {:?}", other),
    };
    assert_eq!(coordinator.finish_refresh(result), Ok(RefreshOutcome::Replaced(0)));
    assert!(coordinator.store().is_initialized());
}
