use std::sync::mpsc;

use git_tailor::update_check::cache::{default_interval, is_fresh, TimeSpan};
use git_tailor::update_check::{check_outcome, newer_release, poll_step, CheckOutcome, Received, UpdatePoller};

fn poller_with(rx: mpsc::Receiver<CheckOutcome>) -> UpdatePoller {
    UpdatePoller::new(rx)
}

#[test]
fn poll_returns_none_while_pending() {
    let (_tx, rx) = mpsc::channel::<CheckOutcome>();
    let mut poller = poller_with(rx);
    assert_eq!(poller.poll(), None);
    // Sender still alive, so still pending on a second call.
    assert_eq!(poller.poll(), None);
}

#[test]
fn poll_yields_version_once_then_none() {
    let (tx, rx) = mpsc::channel();
    tx.send(CheckOutcome::UpdateAvailable("1.2.3".to_string())).unwrap();
    let mut poller = poller_with(rx);
    assert_eq!(poller.poll(), Some("1.2.3".to_string()));
    assert_eq!(poller.poll(), None);
    assert_eq!(poller.poll(), None);
}

#[test]
fn poll_returns_none_when_up_to_date() {
    let (tx, rx) = mpsc::channel();
    tx.send(CheckOutcome::UpToDate).unwrap();
    let mut poller = poller_with(rx);
    assert_eq!(poller.poll(), None);
}

#[test]
fn a_failed_check_stays_silent() {
    let (tx, rx) = mpsc::channel();
    tx.send(CheckOutcome::Failed("no route to host".to_string())).unwrap();
    let mut poller = poller_with(rx);
    assert_eq!(poller.poll(), None);
}

#[test]
fn poll_returns_none_when_thread_died_without_sending() {
    let (tx, rx) = mpsc::channel::<CheckOutcome>();
    drop(tx);
    let mut poller = poller_with(rx);
    assert_eq!(poller.poll(), None);
    assert_eq!(poller.poll(), None);
}

#[test]
fn an_update_sent_after_a_pending_poll_is_still_announced() {
    let (tx, rx) = mpsc::channel();
    let mut poller = poller_with(rx);
    assert_eq!(poller.poll(), None);
    tx.send(CheckOutcome::UpdateAvailable("9.0.0".to_string())).unwrap();
    assert_eq!(poller.poll(), Some("9.0.0".to_string()));
    tx.send(CheckOutcome::UpdateAvailable("9.0.1".to_string())).ok();
    assert_eq!(poller.poll(), None);
}

#[test]
fn poll_step_keeps_listening_only_while_empty() {
    assert_eq!(poll_step(Received::Empty), (true, None));
    assert_eq!(poll_step(Received::Disconnected), (false, None));
    assert_eq!(poll_step(Received::Outcome(CheckOutcome::UpToDate)), (false, None));
    assert_eq!(
        poll_step(Received::Outcome(CheckOutcome::UpdateAvailable("2.0.0".to_string()))),
        (false, Some("2.0.0".to_string()))
    );
}

#[test]
fn a_higher_release_is_offered() {
    assert_eq!(newer_release("2.0.0", "3.0.0"), Some("3.0.0".to_string()));
    assert_eq!(newer_release("2.9.9", "2.10.0"), Some("2.10.0".to_string()));
}

#[test]
fn the_same_or_older_release_is_not_offered() {
    assert_eq!(newer_release("3.0.0", "3.0.0"), None);
    assert_eq!(newer_release("3.0.0", "2.0.0"), None);
}

#[test]
fn a_prerelease_of_the_running_version_is_not_an_update() {
    assert_eq!(newer_release("3.0.0", "3.0.0-rc.1"), None);
}

#[test]
fn unparseable_versions_are_not_offered() {
    assert_eq!(newer_release("2.0.0", "not-a-version"), None);
    assert_eq!(newer_release("nightly", "3.0.0"), None);
}

#[test]
fn check_outcome_classifies_answers() {
    assert!(matches!(
        check_outcome(Ok("1.1.0".to_string()), "1.0.0"),
        CheckOutcome::UpdateAvailable(v) if v == "1.1.0"
    ));
    assert!(matches!(check_outcome(Ok("1.0.0".to_string()), "1.0.0"), CheckOutcome::UpToDate));
    assert!(matches!(check_outcome(Ok("garbage".to_string()), "1.0.0"), CheckOutcome::UpToDate));
    assert!(matches!(
        check_outcome(Err("offline".to_string()), "1.0.0"),
        CheckOutcome::Failed(e) if e == "offline"
    ));
}

fn day() -> TimeSpan {
    TimeSpan::from_secs(60 * 60 * 24)
}

#[test]
fn missing_cache_is_never_fresh() {
    assert!(!is_fresh(None, day()));
}

#[test]
fn entry_younger_than_the_interval_is_fresh() {
    assert!(is_fresh(Some(TimeSpan::from_secs(60)), day()));
}

#[test]
fn entry_older_than_the_interval_is_stale() {
    assert!(!is_fresh(Some(TimeSpan::from_secs(60 * 60 * 24 + 1)), day()));
}

#[test]
fn entry_exactly_at_the_interval_is_stale() {
    assert!(!is_fresh(Some(day()), day()));
}

#[test]
fn a_zero_interval_always_reaches_the_network() {
    assert!(!is_fresh(Some(TimeSpan::zero()), TimeSpan::zero()));
}

#[test]
fn sub_second_ages_count() {
    let just_under = TimeSpan { secs: 60 * 60 * 24 - 1, nanos: 999_999_999 };
    assert!(is_fresh(Some(just_under), default_interval()));
    let just_over = TimeSpan { secs: 60 * 60 * 24, nanos: 1 };
    assert!(!is_fresh(Some(just_over), default_interval()));
}
