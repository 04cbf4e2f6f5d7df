use msys_bootstrap::waiter::{
    waiter_step, waiter_verdict, WaitOutcome, WaiterStep, MAX_POLL_ATTEMPTS, POLL_INTERVAL_SECS,
};

#[test]
fn policy_constants() {
    assert_eq!(MAX_POLL_ATTEMPTS, 30);
    assert_eq!(POLL_INTERVAL_SECS, 2);
}

#[test]
fn never_true_consumes_exactly_the_budget() {
    let polls = vec![false; MAX_POLL_ATTEMPTS as usize];
    assert_eq!(waiter_verdict(&polls), WaitOutcome::TimedOut);
}

#[test]
fn detection_stops_polling_immediately() {
    let mut polls = vec![false; MAX_POLL_ATTEMPTS as usize];
    polls[4] = true;
    polls[20] = true;
    assert_eq!(waiter_verdict(&polls), WaitOutcome::Ready { attempts_used: 5 });
}

#[test]
fn detection_on_first_attempt_uses_one_probe() {
    let mut polls = vec![false; MAX_POLL_ATTEMPTS as usize];
    polls[0] = true;
    assert_eq!(waiter_verdict(&polls), WaitOutcome::Ready { attempts_used: 1 });
}

#[test]
fn detection_on_last_attempt_still_succeeds() {
    let mut polls = vec![false; MAX_POLL_ATTEMPTS as usize];
    polls[MAX_POLL_ATTEMPTS as usize - 1] = true;
    assert_eq!(
        waiter_verdict(&polls),
        WaitOutcome::Ready { attempts_used: MAX_POLL_ATTEMPTS }
    );
}

#[test]
fn single_steps_follow_the_policy() {
    assert_eq!(waiter_step(0, true), WaiterStep::Ready);
    assert_eq!(waiter_step(0, false), WaiterStep::Continue { next_attempt: 1 });
    assert_eq!(
        waiter_step(MAX_POLL_ATTEMPTS - 2, false),
        WaiterStep::Continue { next_attempt: MAX_POLL_ATTEMPTS - 1 }
    );
    assert_eq!(waiter_step(MAX_POLL_ATTEMPTS - 1, false), WaiterStep::TimedOut);
}
