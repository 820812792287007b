use fork_relay::retry::{Attempts, Progress, Verdict};

#[test]
fn fresh_budget_is_trying() {
    let attempts = Attempts::new(3, 2000);
    assert_eq!(attempts.retries, 3);
    assert_eq!(attempts.interval, 2000);
    assert_eq!(attempts.progress, Progress::Trying { failures: 0 });
    assert!(attempts.is_trying());
}

#[test]
fn success_at_once_is_done() {
    let mut attempts = Attempts::new(3, 2000);
    assert_eq!(attempts.record(true), Verdict::Done);
    assert_eq!(attempts.progress, Progress::Succeeded);
    assert!(!attempts.is_trying());
}

#[test]
fn failure_is_retried_after_the_interval() {
    let mut attempts = Attempts::new(3, 2000);
    assert_eq!(attempts.record(false), Verdict::Retry { after: 2000 });
    assert_eq!(attempts.progress, Progress::Trying { failures: 1 });
    assert!(attempts.is_trying());
}

#[test]
fn three_retries_allow_four_attempts() {
    let mut attempts = Attempts::new(3, 2000);
    let mut made = 0;
    let mut verdicts = Vec::new();
    while attempts.is_trying() {
        made += 1;
        verdicts.push(attempts.record(false));
    }
    assert_eq!(made, 4);
    assert_eq!(
        verdicts,
        vec![
            Verdict::Retry { after: 2000 },
            Verdict::Retry { after: 2000 },
            Verdict::Retry { after: 2000 },
            Verdict::GiveUp,
        ]
    );
    assert_eq!(attempts.progress, Progress::Exhausted);
}

#[test]
fn no_retries_allow_one_attempt() {
    let mut attempts = Attempts::new(0, 500);
    assert_eq!(attempts.record(false), Verdict::GiveUp);
    assert_eq!(attempts.progress, Progress::Exhausted);
    assert!(!attempts.is_trying());
}

#[test]
fn success_on_the_last_retry_is_done() {
    let mut attempts = Attempts::new(2, 10);
    assert_eq!(attempts.record(false), Verdict::Retry { after: 10 });
    assert_eq!(attempts.record(false), Verdict::Retry { after: 10 });
    assert_eq!(attempts.record(true), Verdict::Done);
    assert_eq!(attempts.progress, Progress::Succeeded);
}

#[test]
fn given_up_stays_given_up() {
    let mut attempts = Attempts::new(1, 10);
    assert_eq!(attempts.record(false), Verdict::Retry { after: 10 });
    assert_eq!(attempts.record(false), Verdict::GiveUp);
    assert_eq!(attempts.record(false), Verdict::GiveUp);
    assert_eq!(attempts.record(true), Verdict::GiveUp);
    assert_eq!(attempts.progress, Progress::Exhausted);
}

#[test]
fn done_stays_done() {
    let mut attempts = Attempts::new(1, 10);
    assert_eq!(attempts.record(true), Verdict::Done);
    assert_eq!(attempts.record(false), Verdict::Done);
    assert_eq!(attempts.progress, Progress::Succeeded);
}

#[test]
fn attempts_never_exceed_retries_plus_one() {
    for retries in 0..6u32 {
        let mut attempts = Attempts::new(retries, 1);
        let mut made = 0u32;
        while attempts.is_trying() {
            made += 1;
            let verdict = attempts.record(false);
            if made <= retries {
                assert_eq!(verdict, Verdict::Retry { after: 1 });
            } else {
                assert_eq!(verdict, Verdict::GiveUp);
            }
        }
        assert_eq!(made, retries + 1);
    }
}

#[test]
fn largest_budget_does_not_overflow() {
    let mut attempts = Attempts {
        retries: u32::MAX,
        interval: u64::MAX,
        progress: Progress::Trying { failures: u32::MAX - 1 },
    };
    assert_eq!(attempts.record(false), Verdict::Retry { after: u64::MAX });
    assert_eq!(attempts.progress, Progress::Trying { failures: u32::MAX });
    assert_eq!(attempts.record(false), Verdict::GiveUp);
}

#[test]
fn zero_interval_is_kept() {
    let mut attempts = Attempts::new(1, 0);
    assert_eq!(attempts.record(false), Verdict::Retry { after: 0 });
}
