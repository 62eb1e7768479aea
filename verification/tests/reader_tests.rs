use dirsync::reader::is_transient;
use dirsync::reader::ReadStep;
use dirsync::reader::RetryingReader;
use dirsync::reader::SHARING_VIOLATION;

#[test]
fn only_a_sharing_violation_passes() {
    assert_eq!(SHARING_VIOLATION, 32);
    assert!(is_transient(Some(32)));
    assert!(!is_transient(Some(33)));
    assert!(!is_transient(Some(2)));
    assert!(!is_transient(Some(5)));
    assert!(!is_transient(None));
}

#[test]
fn a_success_ends_the_read_with_the_bytes() {
    let mut reader = RetryingReader::new(3, 50);
    assert_eq!(reader.on_attempt(Ok(b"xyz".to_vec())), ReadStep::Done(Some(b"xyz".to_vec())));
    let mut none_left = RetryingReader::new(0, 50);
    assert_eq!(none_left.on_attempt(Ok(Vec::new())), ReadStep::Done(Some(Vec::new())));
}

#[test]
fn a_lasting_failure_ends_the_read_at_once() {
    let mut reader = RetryingReader::new(3, 50);
    assert_eq!(reader.on_attempt(Err(Some(5))), ReadStep::Done(None));
    assert_eq!(reader.on_attempt(Err(None)), ReadStep::Done(None));
}

#[test]
fn a_passing_failure_is_retried_after_the_same_wait_each_time() {
    let mut reader = RetryingReader::new(3, 50);
    assert_eq!(reader.on_attempt(Err(Some(32))), ReadStep::RetryAfter(50));
    assert_eq!(reader.on_attempt(Err(Some(32))), ReadStep::RetryAfter(50));
    assert_eq!(reader.on_attempt(Err(Some(32))), ReadStep::RetryAfter(50));
    assert_eq!(reader.on_attempt(Err(Some(32))), ReadStep::Done(None));
    assert_eq!(reader.on_attempt(Err(Some(32))), ReadStep::Done(None));
}

#[test]
fn a_retry_can_succeed() {
    let mut reader = RetryingReader::new(2, 10);
    assert_eq!(reader.on_attempt(Err(Some(32))), ReadStep::RetryAfter(10));
    assert_eq!(reader.on_attempt(Ok(vec![1, 2])), ReadStep::Done(Some(vec![1, 2])));
}

#[test]
fn without_retries_the_first_failure_is_final() {
    let mut reader = RetryingReader::new(0, 10);
    assert_eq!(reader.on_attempt(Err(Some(32))), ReadStep::Done(None));
}
