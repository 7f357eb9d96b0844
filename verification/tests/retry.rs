use periphery::retry::{RetryLogState, RETRY_LOG_EVERY, RETRY_LOG_INTERVAL_NANOS};

const NANOS_PER_SEC: u64 = 1_000_000_000;

/// An arbitrary monotonic clock reading to start from.
const START: u64 = 7_200 * NANOS_PER_SEC;

fn secs(n: u64) -> u64 {
    n * NANOS_PER_SEC
}

#[test]
fn retry_log_state_logs_first_failure_and_periodic_repeats() {
    let mut state = RetryLogState::default();
    let start = START;

    assert_eq!(state.record_failure(start), Some(1));

    for offset in 1..11 {
        assert_eq!(state.record_failure(start + secs(offset)), None);
    }

    assert_eq!(state.record_failure(start + secs(11)), Some(12));
}

#[test]
fn retry_log_state_logs_after_interval_and_resets() {
    let mut state = RetryLogState::default();
    let start = START;

    assert_eq!(state.record_failure(start), Some(1));
    assert_eq!(state.record_failure(start + secs(30)), None);
    assert_eq!(state.record_failure(start + RETRY_LOG_INTERVAL_NANOS), Some(3));

    state.reset();

    assert_eq!(state.record_failure(start + RETRY_LOG_INTERVAL_NANOS), Some(1));
}

#[test]
fn constants_match_the_documented_policy() {
    assert_eq!(RETRY_LOG_EVERY, 12);
    assert_eq!(RETRY_LOG_INTERVAL_NANOS, secs(60));
}

#[test]
fn silent_failures_never_exceed_eleven_in_a_row() {
    let mut state = RetryLogState::new();
    let mut silent_run = 0;
    let mut longest = 0;
    // failures one second apart: only the count forces reports
    for i in 0..100u64 {
        match state.record_failure(START + secs(i)) {
            Some(n) => {
                assert_eq!(n, i + 1);
                silent_run = 0;
            }
            None => {
                silent_run += 1;
                longest = longest.max(silent_run);
            }
        }
    }
    assert_eq!(longest, 11);
    assert_eq!(state.failures(), 100);
}

#[test]
fn interval_is_measured_from_the_last_report() {
    let mut state = RetryLogState::new();
    assert_eq!(state.record_failure(START), Some(1));
    assert_eq!(state.last_logged_at(), Some(START));
    assert_eq!(state.record_failure(START + secs(59)), None);
    // 60 s after the first report, not after the last failure
    assert_eq!(state.record_failure(START + secs(60)), Some(3));
    assert_eq!(state.last_logged_at(), Some(START + secs(60)));
    assert_eq!(state.record_failure(START + secs(119)), None);
    assert_eq!(state.record_failure(START + secs(120)), Some(5));
}

#[test]
fn clock_reading_before_last_report_counts_as_no_time_passed() {
    let mut state = RetryLogState::new();
    assert_eq!(state.record_failure(START), Some(1));
    assert_eq!(state.record_failure(START - secs(100)), None);
    assert_eq!(state.last_logged_at(), Some(START));
}

#[test]
fn reset_forgets_count_and_last_report() {
    let mut state = RetryLogState::new();
    state.record_failure(START);
    state.record_failure(START + 1);
    state.reset();
    assert_eq!(state.failures(), 0);
    assert_eq!(state.last_logged_at(), None);
}
