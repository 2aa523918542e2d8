//! Check for a newer crates.io release.
//!
//! The request and the cache file live with the front end; this module
//! decides what their answers mean. A background thread hands its
//! [`CheckOutcome`] over a channel, and [`UpdatePoller::poll`] drains it on
//! the next keypress without ever blocking, so the network never holds up
//! rendering or input.

pub mod cache;

use vstd::prelude::*;
use std::sync::mpsc::{Receiver, TryRecvError};

verus! {

#[verifier::external_type_specification]
#[verifier::external_body]
#[verifier::reject_recursive_types(T)]
pub struct ExReceiver<T>(Receiver<T>);

#[verifier::external_type_specification]
#[verifier::external_body]
pub struct ExSemverVersion(semver::Version);

#[verifier::external_type_specification]
#[verifier::external_body]
pub struct ExSemverError(semver::Error);

/// Whether `semver::Version::parse` accepts `text`.
pub uninterp spec fn semver_parses(text: Seq<char>) -> bool;

/// Whether the version parsed from `a` orders before the one parsed from `b`
/// under `semver::Version`'s `<`: its field-by-field order, which ranks
/// build metadata too (so it is finer than semver precedence).
pub uninterp spec fn semver_precedes(a: Seq<char>, b: Seq<char>) -> bool;

/// A parsed semantic version, with the text it was parsed from.
pub struct ParsedVersion {
    text: String,
    version: semver::Version,
}

impl View for ParsedVersion {
    type V = Seq<char>;

    closed spec fn view(&self) -> Seq<char> {
        self.text@
    }
}

/// `semver::Version::parse`. Trusted: it succeeds exactly when
/// `semver_parses(text)`, and what it returns was parsed from `text`.
#[verifier::external_body]
fn parse_version(text: &str) -> (r: Result<ParsedVersion, semver::Error>)
    ensures
        r is Ok <==> semver_parses(text@),
        r matches Ok(v) ==> v@ == text@,
{
    match semver::Version::parse(text) {
        Ok(version) => Ok(ParsedVersion { text: text.to_string(), version }),
        Err(e) => Err(e),
    }
}

/// `<` on `semver::Version`, which derives `Ord`. Trusted: the answer is
/// `semver_precedes` of the two texts; as an order it is irreflexive (the
/// same text never precedes itself) and asymmetric.
#[verifier::external_body]
fn version_precedes(a: &ParsedVersion, b: &ParsedVersion) -> (r: bool)
    ensures
        r == semver_precedes(a@, b@),
        a@ == b@ ==> !r,
        r ==> !semver_precedes(b@, a@),
{
    a.version < b.version
}

/// `latest` is offered as an update over `current`: both parse and `latest`
/// orders after `current`.
pub open spec fn is_newer_release(current: Seq<char>, latest: Seq<char>) -> bool {
    semver_parses(current) && semver_parses(latest) && semver_precedes(current, latest)
}

/// `Some(latest)` when `latest` is a newer release than `current`. Versions
/// that do not parse as semver yield `None` rather than a spurious notice.
/// The same release is never offered, and when `latest` is offered over
/// `current`, `current` would not be offered over `latest`.
pub fn newer_release(current: &str, latest: &str) -> (r: Option<String>)
    ensures
        r is Some <==> is_newer_release(current@, latest@),
        r matches Some(v) ==> v@ == latest@,
        current@ == latest@ ==> r is None,
        r is Some ==> !is_newer_release(latest@, current@),
{
    let cur = match parse_version(current) {
        Ok(v) => v,
        Err(_) => return None,
    };
    let candidate = match parse_version(latest) {
        Ok(v) => v,
        Err(_) => return None,
    };
    if version_precedes(&cur, &candidate) {
        Some(latest.to_owned())
    } else {
        None
    }
}

/// What a finished check found.
#[derive(Debug)]
pub enum CheckOutcome {
    UpdateAvailable(String),
    UpToDate,
    Failed(String),
}

/// What a check finds, given the newest version it learned (or why it could
/// not learn one) and the version running.
pub open spec fn check_result(latest: Result<String, String>, current: Seq<char>) -> CheckOutcome {
    match latest {
        Ok(l) => if is_newer_release(current, l@) { CheckOutcome::UpdateAvailable(l) } else { CheckOutcome::UpToDate },
        Err(e) => CheckOutcome::Failed(e),
    }
}

/// What a check found, given the newest version it learned (or the reason
/// it could not learn one) and the version running.
pub fn check_outcome(latest: Result<String, String>, current_version: &str) -> (o: CheckOutcome)
    ensures
        o == check_result(latest, current_version@),
        match latest {
            Ok(l) => if is_newer_release(current_version@, l@) {
                o == CheckOutcome::UpdateAvailable(l)
            } else {
                o is UpToDate
            },
            Err(e) => o == CheckOutcome::Failed(e),
        },
{
    match latest {
        Ok(l) => match newer_release(current_version, l.as_str()) {
            Some(_) => CheckOutcome::UpdateAvailable(l),
            None => CheckOutcome::UpToDate,
        },
        Err(e) => CheckOutcome::Failed(e),
    }
}

/// What a non-blocking receive from the check's channel gave.
#[derive(Debug)]
pub enum Received {
    Outcome(CheckOutcome),
    /// The check is still running.
    Empty,
    /// The check ended without sending anything.
    Disconnected,
}

/// `Receiver::try_recv`, its result told apart by variant. Nothing is
/// stated of what it returns: that depends on when the checking thread
/// finishes.
#[verifier::external_body]
fn try_receive(rx: &Receiver<CheckOutcome>) -> (r: Received)
{
    match rx.try_recv() {
        Ok(o) => Received::Outcome(o),
        Err(TryRecvError::Empty) => Received::Empty,
        Err(TryRecvError::Disconnected) => Received::Disconnected,
    }
}

/// Whether to keep listening after `received`, and the version to announce.
pub open spec fn poll_answer(received: Received) -> (bool, Option<String>) {
    match received {
        Received::Outcome(CheckOutcome::UpdateAvailable(v)) => (false, Some(v)),
        Received::Outcome(_) => (false, None),
        Received::Empty => (true, None),
        Received::Disconnected => (false, None),
    }
}

/// What a poll makes of a receive: whether to keep listening, and the
/// version to announce. Only a reported update is announced; every answer
/// but "still running" ends the listening.
pub fn poll_step(received: Received) -> (r: (bool, Option<String>))
    ensures
        r == poll_answer(received),
        received matches Received::Outcome(CheckOutcome::UpdateAvailable(v)) ==> r == (false, Some(v)),
        received matches Received::Outcome(CheckOutcome::UpToDate) ==> r == (false, Option::<String>::None),
        received matches Received::Outcome(CheckOutcome::Failed(_)) ==> r == (false, Option::<String>::None),
        received is Empty ==> r == (true, Option::<String>::None),
        received is Disconnected ==> r == (false, Option::<String>::None),
{
    match received {
        Received::Outcome(CheckOutcome::UpdateAvailable(version)) => (false, Some(version)),
        Received::Outcome(_) => (false, None),
        Received::Empty => (true, None),
        Received::Disconnected => (false, None),
    }
}

/// Polls the background update check without ever blocking.
pub struct UpdatePoller {
    rx: Option<Receiver<CheckOutcome>>,
}

impl UpdatePoller {
    /// Whether the poller still listens for the check's answer.
    pub closed spec fn listening(&self) -> bool {
        self.rx is Some
    }

    /// Listen for the outcome of a check that reports on `rx`.
    pub fn new(rx: Receiver<CheckOutcome>) -> (p: UpdatePoller)
        ensures
            p.listening(),
    {
        UpdatePoller { rx: Some(rx) }
    }

    /// Return `Some(version)` the first time the check reports an available
    /// update, then `None` forever after. Returns `None` while the check is
    /// still running, and for an up-to-date or failed check. Never blocks.
    pub fn poll(&mut self) -> (r: Option<String>)
        ensures
            !old(self).listening() ==> r is None && !final(self).listening(),
            r is Some ==> old(self).listening() && !final(self).listening(),
            final(self).listening() ==> old(self).listening() && r is None,
            poll_allowed(*old(self), *final(self), r),
    {
        let got = match &self.rx {
            Some(rx) => try_receive(rx),
            None => return None,
        };
        let (keep, version) = poll_step(got);
        if !keep {
            self.rx = None;
        }
        version
    }
}

/// A version announced from what the check found is a release newer than
/// the one running: the check reports only such a version, and a poll
/// announces nothing else.
pub proof fn lemma_announced_is_newer(latest: Result<String, String>, current: Seq<char>)
    ensures
        poll_answer(Received::Outcome(check_result(latest, current))).1 matches Some(v)
            ==> is_newer_release(current, v@),
{
}

/// One poll, from `before` to `after` answering `r`, as `UpdatePoller::poll`
/// makes it: a poller that stopped listening answers nothing and stays
/// stopped; a version is answered only by a listening poller, which then
/// stops; one that keeps listening answered nothing.
pub open spec fn poll_allowed(before: UpdatePoller, after: UpdatePoller, r: Option<String>) -> bool {
    &&& !before.listening() ==> r is None && !after.listening()
    &&& r is Some ==> before.listening() && !after.listening()
    &&& after.listening() ==> before.listening() && r is None
}

proof fn lemma_stopped_stays_stopped(states: Seq<UpdatePoller>, results: Seq<Option<String>>, i: int, j: int)
    requires
        states.len() == results.len() + 1,
        forall|k: int| 0 <= k < results.len() ==> poll_allowed(states[k], states[k + 1], #[trigger] results[k]),
        0 <= i <= j <= results.len(),
        !states[i].listening(),
    ensures
        !states[j].listening(),
    decreases j - i,
{
    if i < j {
        assert(poll_allowed(states[i], states[i + 1], results[i]));
        lemma_stopped_stays_stopped(states, results, i + 1, j);
    }
}

/// Over any run of polls of one poller (`states[k]` polled into
/// `states[k + 1]`, answering `results[k]`), at most one poll answers with a
/// version.
pub proof fn lemma_poll_announces_at_most_once(states: Seq<UpdatePoller>, results: Seq<Option<String>>, i: int,
    j: int)
    requires
        states.len() == results.len() + 1,
        forall|k: int| 0 <= k < results.len() ==> poll_allowed(states[k], states[k + 1], #[trigger] results[k]),
        0 <= i < j < results.len(),
    ensures
        !(results[i] is Some && results[j] is Some),
{
    assert(poll_allowed(states[i], states[i + 1], results[i]));
    assert(poll_allowed(states[j], states[j + 1], results[j]));
    if results[i] is Some {
        lemma_stopped_stays_stopped(states, results, i + 1, j);
    }
}

} // verus!
