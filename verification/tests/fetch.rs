use archive_scraper::helper_methods::{
    attempt_event, get_with_retry, FetchAction, FetchEvent, RetryingFetch,
};

/// Drives a fetch against a transport that answers from the given
/// invocation on, counted from zero, and reports whether it succeeded,
/// how often the transport was invoked and how often the caller slept.
fn drive(mut fetch: RetryingFetch, answers_from: Option<usize>) -> (bool, usize, usize) {
    let mut invocations = 0;
    let mut pauses = 0;
    loop {
        match fetch.action() {
            FetchAction::Attempt { url } => {
                assert_eq!(url, "http://x/page");
                let answered = answers_from.map_or(false, |from| invocations >= from);
                invocations += 1;
                fetch.advance(if answered { FetchEvent::ResponseReceived } else { FetchEvent::AttemptFailed });
            }
            FetchAction::Backoff { nanos, .. } => {
                assert_eq!(nanos, 51_230_508);
                pauses += 1;
                fetch.advance(FetchEvent::BackoffElapsed);
            }
            FetchAction::Deliver => {
                assert!(fetch.is_done());
                return (true, invocations, pauses);
            }
            FetchAction::GiveUp { url, tries } => {
                assert_eq!(url, "http://x/page");
                assert_eq!(tries, 5);
                assert!(fetch.is_done());
                return (false, invocations, pauses);
            }
        }
    }
}

fn fetch() -> RetryingFetch {
    get_with_retry("http://x/page".to_string(), 5, 51_230_508)
}

#[test]
fn succeeds_at_first_attempt_without_pause() {
    assert_eq!(drive(fetch(), Some(0)), (true, 1, 0));
}

#[test]
fn succeeds_after_k_failures_with_k_plus_one_invocations() {
    assert_eq!(drive(fetch(), Some(1)), (true, 2, 1));
    assert_eq!(drive(fetch(), Some(2)), (true, 3, 2));
    assert_eq!(drive(fetch(), Some(4)), (true, 5, 4));
}

#[test]
fn fails_after_exactly_max_attempts() {
    assert_eq!(drive(fetch(), None), (false, 5, 5));
    assert_eq!(drive(fetch(), Some(5)), (false, 5, 5));
}

#[test]
fn zero_attempts_fail_without_invocation() {
    let fetch = get_with_retry("http://x/page".to_string(), 0, 1);
    assert!(fetch.is_done());
    assert_eq!(
        fetch.action(),
        FetchAction::GiveUp { url: "http://x/page".to_string(), tries: 0 }
    );
}

#[test]
fn one_attempt_is_made_when_one_is_allowed() {
    let mut fetch = get_with_retry("u".to_string(), 1, 7);
    assert_eq!(fetch.action(), FetchAction::Attempt { url: "u".to_string() });
    fetch.advance(FetchEvent::AttemptFailed);
    assert_eq!(fetch.action(), FetchAction::Backoff { nanos: 7, attempts_left: 0 });
    fetch.advance(FetchEvent::BackoffElapsed);
    assert_eq!(fetch.action(), FetchAction::GiveUp { url: "u".to_string(), tries: 1 });
}

#[test]
fn attempts_left_count_down() {
    let mut fetch = get_with_retry("u".to_string(), 3, 9);
    fetch.advance(FetchEvent::AttemptFailed);
    assert_eq!(fetch.action(), FetchAction::Backoff { nanos: 9, attempts_left: 2 });
    fetch.advance(FetchEvent::BackoffElapsed);
    fetch.advance(FetchEvent::AttemptFailed);
    assert_eq!(fetch.action(), FetchAction::Backoff { nanos: 9, attempts_left: 1 });
}

#[test]
fn events_that_answer_nothing_change_nothing() {
    let mut fetch = get_with_retry("u".to_string(), 2, 9);
    fetch.advance(FetchEvent::BackoffElapsed);
    assert_eq!(fetch.action(), FetchAction::Attempt { url: "u".to_string() });
    fetch.advance(FetchEvent::AttemptFailed);
    fetch.advance(FetchEvent::ResponseReceived);
    fetch.advance(FetchEvent::AttemptFailed);
    assert_eq!(fetch.action(), FetchAction::Backoff { nanos: 9, attempts_left: 1 });
    fetch.advance(FetchEvent::BackoffElapsed);
    fetch.advance(FetchEvent::ResponseReceived);
    assert_eq!(fetch.action(), FetchAction::Deliver);
    fetch.advance(FetchEvent::AttemptFailed);
    fetch.advance(FetchEvent::BackoffElapsed);
    assert_eq!(fetch.action(), FetchAction::Deliver);
}

#[test]
fn error_status_is_a_failed_attempt() {
    assert_eq!(attempt_event(Some(200)), FetchEvent::ResponseReceived);
    assert_eq!(attempt_event(Some(204)), FetchEvent::ResponseReceived);
    assert_eq!(attempt_event(Some(302)), FetchEvent::ResponseReceived);
    assert_eq!(attempt_event(Some(399)), FetchEvent::ResponseReceived);
    assert_eq!(attempt_event(Some(400)), FetchEvent::AttemptFailed);
    assert_eq!(attempt_event(Some(404)), FetchEvent::AttemptFailed);
    assert_eq!(attempt_event(Some(500)), FetchEvent::AttemptFailed);
    assert_eq!(attempt_event(Some(u16::MAX)), FetchEvent::AttemptFailed);
    assert_eq!(attempt_event(None), FetchEvent::AttemptFailed);
}

#[test]
fn error_statuses_use_up_the_attempts() {
    let mut fetch = get_with_retry("u".to_string(), 2, 9);
    let mut invocations = 0;
    let mut pauses = 0;
    loop {
        match fetch.action() {
            FetchAction::Attempt { .. } => {
                invocations += 1;
                fetch.advance(attempt_event(Some(500)));
            }
            FetchAction::Backoff { nanos, .. } => {
                assert_eq!(nanos, 9);
                pauses += 1;
                fetch.advance(FetchEvent::BackoffElapsed);
            }
            FetchAction::Deliver => panic!("an error status was delivered"),
            FetchAction::GiveUp { tries, .. } => {
                assert_eq!(tries, 2);
                break;
            }
        }
    }
    assert_eq!((invocations, pauses), (2, 2));
}

#[test]
fn error_status_then_success_is_delivered() {
    let mut fetch = get_with_retry("u".to_string(), 3, 9);
    fetch.advance(attempt_event(Some(503)));
    fetch.advance(FetchEvent::BackoffElapsed);
    fetch.advance(attempt_event(None));
    fetch.advance(FetchEvent::BackoffElapsed);
    fetch.advance(attempt_event(Some(200)));
    assert_eq!(fetch.action(), FetchAction::Deliver);
}
