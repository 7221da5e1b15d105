use thor::error::ServiceError;
use thor::failover::{FailoverAttempt, Progress, MAX_ATTEMPTS};
use thor::http_server::AppState;

const ALICE_HASH: &str = "21223f0195e973f8da43d1f3523861384fc6cc25fff5a33922bdf52f9403615c";
const BOB_HASH: &str = "13afc3a505ef2efb23c779cf47c9696a9ee7440dba697dd3da51a1e39b04c42f";

fn pending(progress: Progress) -> FailoverAttempt {
    match progress {
        Progress::Pending(attempt) => attempt,
        Progress::Finished(r) => panic!("finished early: {:?}", r),
    }
}

fn finished(progress: Progress) -> Result<String, ServiceError> {
    match progress {
        Progress::Finished(answer) => answer,
        Progress::Pending(attempt) => panic!("still pending: {:?}", attempt),
    }
}

fn state_with(count: usize) -> AppState<u8> {
    let mut state: AppState<u8> = AppState::empty("example.com".to_string());
    state.insert("alice".to_string(), vec![0; count]);
    state
}

#[test]
fn at_most_three_attempts() {
    assert_eq!(MAX_ATTEMPTS, 3);
}

#[test]
fn start_fixes_amount_hash_and_first_backend() {
    let attempt = pending(FailoverAttempt::start("example.com", "alice", 1500, vec![2, 0, 1]));
    assert_eq!(attempt.backend(), 2);
    assert_eq!(attempt.attempt(), 0);
    assert_eq!(attempt.amount(), 1500);
    assert_eq!(attempt.description_hash(), ALICE_HASH);
    assert_eq!(attempt.last_error(), None);
}

#[test]
fn hash_depends_on_user_and_domain() {
    let attempt = pending(FailoverAttempt::start("pay.example.org", "bob", 1, vec![0]));
    assert_eq!(attempt.description_hash(), BOB_HASH);
    assert_eq!(attempt.description_hash().len(), 64);
}

#[test]
fn hash_of_a_name_that_needs_escaping() {
    let attempt = pending(FailoverAttempt::start("example.com", "a\"b\\c", 1, vec![0]));
    assert_eq!(
        attempt.description_hash(),
        "52de79d4f8427039a5b88c783dd543b86917407bf23cca8f6783320bf1fc0b83"
    );
}

#[test]
fn hash_of_a_name_outside_ascii() {
    let attempt = pending(FailoverAttempt::start("example.com", "zo\u{eb}", 1, vec![0]));
    assert_eq!(
        attempt.description_hash(),
        "c284dd244e06dd47b46262ab805b044190db9e15ccb61a1701e04eec4fd9f48f"
    );
}

#[test]
fn record_success_answers_with_the_invoice() {
    let attempt = pending(FailoverAttempt::start("example.com", "alice", 1500, vec![0]));
    let answer = finished(attempt.record(Ok("lnbc1test".to_string())));
    assert_eq!(answer.unwrap(), "lnbc1test");
}

#[test]
fn record_failure_moves_to_the_next_backend_in_order() {
    let attempt = pending(FailoverAttempt::start("example.com", "alice", 1500, vec![1, 2, 0]));
    let second = pending(attempt.record(Err("one failed".to_string())));
    assert_eq!(second.backend(), 2);
    assert_eq!(second.attempt(), 1);
    assert_eq!(second.last_error(), Some("one failed"));
    assert_eq!(second.amount(), 1500);
    assert_eq!(second.description_hash(), ALICE_HASH);
    let third = pending(second.record(Err("two failed".to_string())));
    assert_eq!(third.backend(), 0);
    assert_eq!(third.attempt(), 2);
    assert_eq!(third.last_error(), Some("two failed"));
}

#[test]
fn third_backend_wins_after_two_failures() {
    let first = pending(FailoverAttempt::start("example.com", "alice", 1500, vec![0, 1, 2]));
    let second = pending(first.record(Err("backend 1 failed".to_string())));
    let third = pending(second.record(Err("backend 2 failed".to_string())));
    assert_eq!(third.backend(), 2);
    let answer = finished(third.record(Ok("invoice of backend 3".to_string())));
    assert_eq!(answer.unwrap(), "invoice of backend 3");
}

#[test]
fn second_backend_wins_after_one_failure() {
    let first = pending(FailoverAttempt::start("example.com", "alice", 1500, vec![2, 1, 0]));
    let second = pending(first.record(Err("down".to_string())));
    assert_eq!(second.backend(), 1);
    let answer = finished(second.record(Ok("lnbc-second".to_string())));
    assert_eq!(answer.unwrap(), "lnbc-second");
}

#[test]
fn third_failure_ends_the_request_though_backends_are_left() {
    let mut attempt =
        pending(FailoverAttempt::start("example.com", "alice", 5, vec![4, 3, 2, 1, 0]));
    let mut called = vec![attempt.backend()];
    for reason in ["first", "second"] {
        attempt = pending(attempt.record(Err(reason.to_string())));
        called.push(attempt.backend());
    }
    assert_eq!(called, vec![4, 3, 2]);
    let e = finished(attempt.record(Err("third".to_string()))).unwrap_err();
    assert!(matches!(&e, ServiceError::AllBackendsFailed { last_error } if last_error == "third"));
}

#[test]
fn two_backends_both_failing_give_the_second_error() {
    let first = pending(FailoverAttempt::start("example.com", "alice", 5, vec![1, 0]));
    assert_eq!(first.backend(), 1);
    let second = pending(first.record(Err("first error".to_string())));
    assert_eq!(second.backend(), 0);
    let e = finished(second.record(Err("second error".to_string()))).unwrap_err();
    assert!(
        matches!(&e, ServiceError::AllBackendsFailed { last_error } if last_error == "second error")
    );
}

#[test]
fn single_backend_failing_ends_the_request() {
    let only = pending(FailoverAttempt::start("example.com", "alice", 5, vec![0]));
    let e = finished(only.record(Err("down".to_string()))).unwrap_err();
    assert!(matches!(&e, ServiceError::AllBackendsFailed { last_error } if last_error == "down"));
}

#[test]
fn begin_refuses_amount_zero() {
    let e = finished(FailoverAttempt::begin(&state_with(2), "alice", 0)).unwrap_err();
    assert!(matches!(e, ServiceError::InvalidAmount));
}

#[test]
fn begin_refuses_unknown_user() {
    let e = finished(FailoverAttempt::begin(&state_with(2), "bob", 1)).unwrap_err();
    assert!(matches!(&e, ServiceError::UserNotFound { username } if username == "bob"));
}

#[test]
fn begin_checks_the_amount_first() {
    let e = finished(FailoverAttempt::begin(&state_with(2), "bob", 0)).unwrap_err();
    assert!(matches!(e, ServiceError::InvalidAmount));
}

#[test]
fn begin_accepts_the_smallest_and_the_largest_amount() {
    for amount in [1u64, u64::MAX] {
        let attempt = pending(FailoverAttempt::begin(&state_with(1), "alice", amount));
        assert_eq!(attempt.amount(), amount);
        assert_eq!(attempt.backend(), 0);
        assert_eq!(attempt.attempt(), 0);
        assert_eq!(attempt.last_error(), None);
        assert_eq!(attempt.description_hash(), ALICE_HASH);
    }
}

#[test]
fn begin_walks_a_permutation_of_the_backends() {
    for _ in 0..50 {
        let mut attempt = pending(FailoverAttempt::begin(&state_with(7), "alice", 9));
        let mut called = vec![attempt.backend()];
        loop {
            match attempt.record(Err("down".to_string())) {
                Progress::Pending(next) => {
                    attempt = next;
                    called.push(attempt.backend());
                }
                Progress::Finished(answer) => {
                    assert!(matches!(
                        answer,
                        Err(ServiceError::AllBackendsFailed { last_error }) if last_error == "down"
                    ));
                    break;
                }
            }
        }
        assert_eq!(called.len(), 3);
        assert!(called.iter().all(|&i| i < 7));
        called.sort();
        called.dedup();
        assert_eq!(called.len(), 3);
    }
}
