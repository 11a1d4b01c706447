use proj::retry::{
    get_wait_time_quad, is_client_error, is_retry_status, is_server_error, is_success,
    RetryAction, RetryState, MAX_RETRIES,
};

#[test]
fn wait_time_is_quadratic() {
    assert_eq!(get_wait_time_quad(0), 0);
    assert_eq!(get_wait_time_quad(1), 100);
    assert_eq!(get_wait_time_quad(3), 900);
    assert_eq!(get_wait_time_quad(8), 6400);
    let total: u64 = (1..=8).map(get_wait_time_quad).sum();
    assert_eq!(total, 20400);
}

#[test]
fn status_classes() {
    assert!(is_success(200) && is_success(206) && !is_success(300) && !is_success(199));
    assert!(is_client_error(404) && !is_client_error(500));
    assert!(is_server_error(503) && !is_server_error(600));
    assert!(is_retry_status(429) && is_retry_status(500) && is_retry_status(502));
    assert!(is_retry_status(504) && !is_retry_status(503) && !is_retry_status(404));
}

#[test]
fn five_unavailable_then_success_is_accepted() {
    let mut state = RetryState::new();
    for n in 1..=5u64 {
        assert_eq!(state.on_response(503), RetryAction::Retry { wait_ms: n * n * 100 });
    }
    assert_eq!(state.on_response(206), RetryAction::Accept);
    assert_eq!(state.retries(), 5);
}

#[test]
fn nine_retriable_failures_give_up_after_max_retries() {
    let mut state = RetryState::new();
    let mut actions = Vec::new();
    for _ in 0..9 {
        actions.push(state.on_response(503));
    }
    for a in &actions[..8] {
        assert!(matches!(a, RetryAction::Retry { .. }));
    }
    assert_eq!(actions[8], RetryAction::GiveUp { status: 503, retries: MAX_RETRIES });
    assert_eq!(state.retries(), 8);
    // further responses change nothing
    assert_eq!(state.on_response(503), RetryAction::GiveUp { status: 503, retries: 8 });
}

#[test]
fn client_error_fails_at_once() {
    let mut state = RetryState::new();
    assert_eq!(state.on_response(404), RetryAction::GiveUp { status: 404, retries: 0 });
    assert_eq!(state.retries(), 0);
}

#[test]
fn throttling_is_retried_and_redirect_is_not_success() {
    let mut state = RetryState::new();
    assert_eq!(state.on_response(429), RetryAction::Retry { wait_ms: 100 });
    assert_eq!(state.on_response(301), RetryAction::GiveUp { status: 301, retries: 1 });
}

#[test]
fn client_error_after_retry_gives_up() {
    let mut state = RetryState::new();
    assert_eq!(state.on_response(500), RetryAction::Retry { wait_ms: 100 });
    assert_eq!(state.on_response(502), RetryAction::Retry { wait_ms: 400 });
    assert_eq!(state.on_response(403), RetryAction::GiveUp { status: 403, retries: 2 });
}
