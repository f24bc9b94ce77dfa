use actix_practice::events::EventCounter;
use actix_practice::responses::{complex_error_test, either, error_helper, error_test, EitherReply, MyErr, MyError};

#[test]
fn error_pages() {
    assert_eq!(error_test("true").ok().unwrap(), "true");
    let err = error_test("false").err().unwrap();
    assert_eq!(err.message(), "my error: Custom err : Bad req ");
    assert_eq!(MyErr { name: "x".to_string() }.message(), "my error: x");
    assert!(matches!(complex_error_test("true"), Ok(ref s) if s == "true"));
    assert!(matches!(complex_error_test("TRUE"), Err(MyError::BadClientData)));
    assert_eq!(error_helper("abc"), "Error 400 : abc");
}

#[test]
fn error_status_codes_and_text() {
    assert_eq!(MyError::InternalError.status_code(), 500);
    assert_eq!(MyError::BadClientData.status_code(), 400);
    assert_eq!(MyError::Timeout.status_code(), 504);
    assert_eq!(MyError::InternalError.message(), "internal error");
    assert_eq!(MyError::BadClientData.message(), "bad request");
    assert_eq!(MyError::Timeout.message(), "timeout");
}

#[test]
fn either_reply() {
    assert!(matches!(either(true), EitherReply::Greeting(ref s) if s == "Hello !"));
    assert!(matches!(either(false), EitherReply::BadData(ref s) if s == "BadData !"));
}

#[test]
fn test_stream_chunk() {
    let mut counter = EventCounter::new();
    assert_eq!(counter.next_event().unwrap(), "data: 5\n\n");
    assert_eq!(counter.next_event().unwrap(), "data: 4\n\n");
    for i in 0..3 {
        let expected_data = format!("data: {}\n\n", 3 - i);
        assert_eq!(counter.next_event().unwrap(), expected_data);
    }
    assert!(counter.next_event().is_none());
    assert!(counter.next_event().is_none());
}

#[test]
fn drained_stream_counts_down() {
    let events = EventCounter::starting_at(3).drain();
    assert_eq!(events, vec!["data: 3\n\n", "data: 2\n\n", "data: 1\n\n"]);
    assert!(EventCounter::starting_at(0).drain().is_empty());
    let mut c = EventCounter::starting_at(12);
    assert_eq!(c.next_event().unwrap(), "data: 12\n\n");
}
