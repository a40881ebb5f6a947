use premium_monitor::retry::{
    after_attempt, AttemptOutcome, FetchFailure, Verdict, MAX_ATTEMPTS, RETRY_PAUSE_SECS,
};

fn attempts_until_final(outcomes: &[AttemptOutcome]) -> (u32, Verdict) {
    let mut attempts = 0;
    let mut sent = 0;
    for outcome in outcomes {
        sent += 1;
        match after_attempt(attempts, *outcome) {
            Verdict::Retry { attempts: next, .. } => attempts = next,
            verdict => return (sent, verdict),
        }
    }
    panic!("the fetch did not end within {} attempts", sent);
}

#[test]
fn retry_constants() {
    assert_eq!(MAX_ATTEMPTS, 3);
    assert_eq!(RETRY_PAUSE_SECS, 2);
}

#[test]
fn a_rate_is_accepted_at_any_attempt() {
    assert_eq!(after_attempt(0, AttemptOutcome::Rate), Verdict::Accept);
    assert_eq!(after_attempt(2, AttemptOutcome::Rate), Verdict::Accept);
    assert_eq!(after_attempt(7, AttemptOutcome::Rate), Verdict::Accept);
}

#[test]
fn an_unreadable_reply_is_final() {
    assert_eq!(after_attempt(0, AttemptOutcome::Malformed), Verdict::Fail(FetchFailure::Malformed));
    assert_eq!(after_attempt(1, AttemptOutcome::Malformed), Verdict::Fail(FetchFailure::Malformed));
}

#[test]
fn an_unusable_rate_is_final() {
    assert_eq!(
        after_attempt(0, AttemptOutcome::InvalidRate),
        Verdict::Fail(FetchFailure::InvalidRate)
    );
    assert_eq!(
        after_attempt(2, AttemptOutcome::InvalidRate),
        Verdict::Fail(FetchFailure::InvalidRate)
    );
}

#[test]
fn a_failed_send_is_retried_twice_with_a_pause() {
    assert_eq!(
        after_attempt(0, AttemptOutcome::SendFailed),
        Verdict::Retry { attempts: 1, pause_secs: 2 }
    );
    assert_eq!(
        after_attempt(1, AttemptOutcome::SendFailed),
        Verdict::Retry { attempts: 2, pause_secs: 2 }
    );
    assert_eq!(after_attempt(2, AttemptOutcome::SendFailed), Verdict::Fail(FetchFailure::Unreachable));
    assert_eq!(
        after_attempt(u32::MAX, AttemptOutcome::SendFailed),
        Verdict::Fail(FetchFailure::Unreachable)
    );
}

#[test]
fn a_reply_without_rate_counts_as_an_attempt() {
    assert_eq!(
        after_attempt(0, AttemptOutcome::NoRate),
        Verdict::Retry { attempts: 1, pause_secs: 0 }
    );
    assert_eq!(
        after_attempt(1, AttemptOutcome::NoRate),
        Verdict::Retry { attempts: 2, pause_secs: 0 }
    );
    assert_eq!(after_attempt(2, AttemptOutcome::NoRate), Verdict::Fail(FetchFailure::RateMissing));
    assert_eq!(after_attempt(3, AttemptOutcome::NoRate), Verdict::Fail(FetchFailure::RateMissing));
    assert_eq!(
        after_attempt(u32::MAX, AttemptOutcome::NoRate),
        Verdict::Fail(FetchFailure::RateMissing)
    );
}

#[test]
fn three_failed_sends_end_the_fetch() {
    let outcomes = [AttemptOutcome::SendFailed; 10];
    assert_eq!(attempts_until_final(&outcomes), (3, Verdict::Fail(FetchFailure::Unreachable)));
}

#[test]
fn three_replies_without_rate_end_the_fetch() {
    let outcomes = [AttemptOutcome::NoRate; 10];
    assert_eq!(attempts_until_final(&outcomes), (3, Verdict::Fail(FetchFailure::RateMissing)));
}

#[test]
fn every_mix_of_outcomes_ends_within_three_attempts() {
    let kinds = [
        AttemptOutcome::Rate,
        AttemptOutcome::InvalidRate,
        AttemptOutcome::NoRate,
        AttemptOutcome::Malformed,
        AttemptOutcome::SendFailed,
    ];
    for a in kinds {
        for b in kinds {
            for c in kinds {
                let (sent, verdict) = attempts_until_final(&[a, b, c]);
                assert!(sent <= 3);
                assert!(!matches!(verdict, Verdict::Retry { .. }));
            }
        }
    }
    assert_eq!(
        attempts_until_final(&[
            AttemptOutcome::SendFailed,
            AttemptOutcome::NoRate,
            AttemptOutcome::SendFailed
        ]),
        (3, Verdict::Fail(FetchFailure::Unreachable))
    );
    assert_eq!(
        attempts_until_final(&[AttemptOutcome::NoRate, AttemptOutcome::SendFailed, AttemptOutcome::Rate]),
        (3, Verdict::Accept)
    );
}
