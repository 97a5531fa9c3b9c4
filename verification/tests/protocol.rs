use k8s_openapi::apimachinery::pkg::apis::meta::v1::ObjectMeta;
use kunobi_ha::error::{KubeError, Status};
use kunobi_ha::leader::attempt::{renew_existing_lease, try_acquire, try_acquire_at, TryAcquire};
use kunobi_ha::leader::election::AcquireStep;
use kunobi_ha::leader::guard::Effect;
use kunobi_ha::leader::lease::{Claim, Lease, LeaseSpec};
use kunobi_ha::leader::release::clear_holder;
use kunobi_ha::leader::renewal::{renew_lease_at, RenewEvent, RenewLoop, RenewOutcome};
use kunobi_ha::leader::request::{replace_lease, Step, Write};
use kunobi_ha::leader::{Identity, LeaderElection, LeaderGuard, LeaderState, StepDownReason};
use kunobi_ha::timestamp::{DateTime, Timestamp, MAX_TIMESTAMP_SECOND};
use kunobi_ha::{Duration, Error, Instant, InvalidConfig};

// A lease on an API server.

const START: i64 = 1_700_000_000;

fn at(second: i64) -> DateTime {
    DateTime::from_timestamp(second, 0).unwrap()
}

fn stamp(second: i64) -> Option<Timestamp> {
    Some(Timestamp::from_second(second).unwrap())
}

fn beyond_leases() -> DateTime {
    at(MAX_TIMESTAMP_SECOND + 1)
}

fn metadata() -> ObjectMeta {
    let mut labels = std::collections::BTreeMap::new();
    labels.insert("team".to_string(), "storage".to_string());
    ObjectMeta {
        name: Some("my-lease".to_string()),
        namespace: Some("test-ns".to_string()),
        resource_version: Some("41".to_string()),
        labels: Some(labels),
        ..ObjectMeta::default()
    }
}

fn lease(holder: Option<&str>, renewed: i64) -> Lease {
    Lease {
        metadata: metadata(),
        spec: Some(LeaseSpec {
            holder_identity: holder.map(|h| h.to_string()),
            lease_duration_seconds: Some(15),
            acquire_time: stamp(renewed - 100),
            renew_time: stamp(renewed),
            lease_transitions: Some(7),
            preferred_holder: Some("favourite".to_string()),
            strategy: Some("OldestEmulationVersion".to_string()),
        }),
    }
}

fn refusal(code: u16) -> KubeError {
    KubeError::Api(Status {
        code,
        reason: "Reason".to_string(),
        message: "a message".to_string(),
    })
}

fn no_answer() -> KubeError {
    KubeError::Other("connection reset".to_string())
}

fn attempt_at(identity: &str, now: DateTime) -> TryAcquire {
    try_acquire_at("my-lease", identity, Duration::from_secs(20), now).unwrap()
}

fn sent<T: std::fmt::Debug, P: std::fmt::Debug>(step: Step<T, P>) -> (Write, P) {
    match step {
        Step::Send(write, pending) => (write, pending),
        other => panic!("something must be sent, got {other:?}"),
    }
}

fn finished<T: std::fmt::Debug, P: std::fmt::Debug>(step: Step<T, P>) -> Result<T, Error> {
    match step {
        Step::Finished(outcome) => outcome,
        other => panic!("nothing may be sent, got {other:?}"),
    }
}

fn replaced(write: Write) -> Lease {
    match write {
        Write::Replace { name, lease } => {
            assert_eq!(name, "my-lease");
            lease
        }
        other => panic!("the lease must be replaced, got {other:?}"),
    }
}

// Who may claim a lease.

#[test]
fn claims_turn_on_holder_and_time() {
    let now = at(START + 15);
    assert_eq!(lease(Some("me"), START).claim("me", now, 20), Claim::Own);
    assert_eq!(lease(Some("other"), START).claim("me", now, 20), Claim::Held);
    assert_eq!(lease(None, START).claim("me", now, 20), Claim::Free);
    assert_eq!(lease(Some(""), START).claim("me", now, 20), Claim::Free);
    let late = DateTime::from_timestamp(START + 15, 1).unwrap();
    assert_eq!(lease(Some("other"), START).claim("me", late, 20), Claim::Free);
    assert_eq!(lease(Some("me"), START).claim("me", late, 20), Claim::Own);
}

#[test]
fn lease_without_a_record_is_free() {
    let bare = Lease { metadata: metadata(), spec: None };
    assert_eq!(bare.claim("me", at(START), 20), Claim::Free);
    assert!(!bare.is_held_by("me"));
    assert_eq!(bare.transitions(), 0);
}

#[test]
fn lease_without_a_renewal_has_expired() {
    let mut other = lease(Some("other"), START);
    other.spec.as_mut().unwrap().renew_time = None;
    assert_eq!(other.claim("me", at(START), 20), Claim::Free);
}

#[test]
fn lease_without_a_duration_has_our_own() {
    let mut other = lease(Some("other"), START);
    other.spec.as_mut().unwrap().lease_duration_seconds = None;
    assert_eq!(other.claim("me", at(START + 20), 20), Claim::Held);
    assert_eq!(other.claim("me", at(START + 21), 20), Claim::Free);
}

#[test]
fn empty_identity_owns_an_empty_holder() {
    assert_eq!(lease(Some(""), START).claim("", at(START), 20), Claim::Own);
}

// Attempts.

#[test]
fn absent_lease_is_created_in_full() {
    let (write, pending) = sent(attempt_at("me", at(START)).fetched_at(Err(refusal(404)), at(START + 1)));
    match write {
        Write::Create { name, spec } => {
            assert_eq!(name, "my-lease");
            assert_eq!(spec.holder_identity, Some("me".to_string()));
            assert_eq!(spec.lease_duration_seconds, Some(20));
            assert_eq!(spec.acquire_time, stamp(START));
            assert_eq!(spec.renew_time, stamp(START));
            assert_eq!(spec.lease_transitions, Some(0));
            assert_eq!(spec.preferred_holder, None);
            assert_eq!(spec.strategy, None);
        }
        other => panic!("an absent lease must be created, got {other:?}"),
    }
    assert!(pending.written(Ok(())).unwrap());
}

#[test]
fn takeover_counts_and_keeps_the_rest() {
    let attempt = attempt_at("me", at(START + 60));
    let (write, pending) = sent(attempt.fetched_at(Ok(lease(Some("other"), START)), at(START + 61)));
    let taken = replaced(write);
    assert_eq!(taken.metadata, metadata());
    let spec = taken.spec.unwrap();
    assert_eq!(spec.holder_identity, Some("me".to_string()));
    assert_eq!(spec.lease_duration_seconds, Some(20));
    assert_eq!(spec.acquire_time, stamp(START + 60));
    assert_eq!(spec.renew_time, stamp(START + 60));
    assert_eq!(spec.lease_transitions, Some(8));
    assert_eq!(spec.preferred_holder, Some("favourite".to_string()));
    assert_eq!(spec.strategy, Some("OldestEmulationVersion".to_string()));
    assert!(pending.written(Ok(())).unwrap());
}

#[test]
fn takeover_of_a_bare_lease_counts_from_zero() {
    let bare = Lease { metadata: metadata(), spec: None };
    let (write, _) = sent(attempt_at("me", at(START)).fetched_at(Ok(bare), at(START)));
    let spec = replaced(write).spec.unwrap();
    assert_eq!(spec.lease_transitions, Some(1));
    assert_eq!(spec.holder_identity, Some("me".to_string()));
}

#[test]
fn last_takeover_that_can_be_counted() {
    let mut other = lease(None, START);
    other.spec.as_mut().unwrap().lease_transitions = Some(i32::MAX - 1);
    let (write, _) = sent(attempt_at("me", at(START)).fetched_at(Ok(other), at(START)));
    assert_eq!(replaced(write).spec.unwrap().lease_transitions, Some(i32::MAX));
}

#[test]
fn own_lease_is_renewed_even_if_expired() {
    let attempt = attempt_at("me", at(START + 600));
    assert_eq!(attempt.claim(&lease(Some("me"), START)), Claim::Own);
    let (write, _) = sent(attempt.fetched_at(Ok(lease(Some("me"), START)), at(START + 601)));
    let renewed = replaced(write);
    assert_eq!(renewed.metadata, metadata());
    let spec = renewed.spec.unwrap();
    assert_eq!(spec.acquire_time, stamp(START - 100));
    assert_eq!(spec.renew_time, stamp(START + 601));
    assert_eq!(spec.lease_transitions, Some(7));
    assert_eq!(spec.lease_duration_seconds, Some(20));
}

#[test]
fn own_lease_with_a_full_count_is_renewed() {
    let mut own = lease(Some("me"), START);
    own.spec.as_mut().unwrap().lease_transitions = Some(i32::MAX);
    let (write, _) = sent(attempt_at("me", at(START)).fetched_at(Ok(own), at(START)));
    assert_eq!(replaced(write).spec.unwrap().lease_transitions, Some(i32::MAX));
}

#[test]
fn held_lease_is_left_alone() {
    let attempt = attempt_at("me", at(START + 15));
    let outcome = finished(attempt.fetched_at(Ok(lease(Some("other"), START)), at(START + 99)));
    assert!(!outcome.unwrap());
}

#[test]
fn failed_read_ends_an_attempt() {
    match finished(attempt_at("me", at(START)).fetched_at(Err(no_answer()), at(START))) {
        Err(Error::Kube(KubeError::Other(text))) => assert_eq!(text, "connection reset"),
        other => panic!("the failure must surface, got {other:?}"),
    }
}

#[test]
fn clock_beyond_leases_ends_attempts_and_renewals() {
    let attempt = try_acquire_at("my-lease", "me", Duration::from_secs(15), beyond_leases());
    assert!(matches!(attempt, Err(Error::Timestamp(_))));
    let own = attempt_at("me", at(START)).fetched_at(Ok(lease(Some("me"), START)), beyond_leases());
    assert!(matches!(finished(own), Err(Error::Timestamp(_))));
    let other = attempt_at("me", at(START + 60)).fetched_at(Ok(lease(None, START)), beyond_leases());
    assert_eq!(replaced(sent(other).0).spec.unwrap().renew_time, stamp(START + 60));
    let renewal = renew_lease_at("my-lease", "me", 15, Ok(lease(Some("me"), START)), beyond_leases());
    assert!(matches!(finished(renewal), Err(Error::Timestamp(_))));
    let renewed = renew_existing_lease(lease(Some("me"), START), "me", 15, beyond_leases());
    assert!(matches!(renewed, Err(Error::Timestamp(_))));
}

#[test]
fn attempts_read_the_clock() {
    let before = chrono::Utc::now().timestamp();
    let attempt = try_acquire("my-lease", "me", Duration::from_secs(15)).unwrap();
    let (write, _) = sent(attempt.fetched(Err(refusal(404))));
    let after = chrono::Utc::now().timestamp();
    match write {
        Write::Create { spec, .. } => {
            let second = spec.renew_time.unwrap().as_second();
            assert!(before <= second && second <= after);
        }
        other => panic!("an absent lease must be created, got {other:?}"),
    }
}

#[test]
fn answers_to_writes() {
    assert!(replace_lease(Ok(())).unwrap());
    assert!(!replace_lease(Err(refusal(409))).unwrap());
    match replace_lease(Err(refusal(403))) {
        Err(Error::Kube(KubeError::Api(status))) => {
            assert_eq!(status.code, 403);
            assert_eq!(status.reason, "Reason");
            assert_eq!(status.message, "a message");
        }
        other => panic!("the failure must surface, got {other:?}"),
    }
    assert!(matches!(replace_lease(Err(no_answer())), Err(Error::Kube(KubeError::Other(_)))));
    assert!(refusal(404).has_code(404));
    assert!(!refusal(404).has_code(409));
    assert!(!no_answer().has_code(404));
}

// Renewals and releases.

#[test]
fn renewal_changes_the_time_only() {
    let step = renew_lease_at("my-lease", "me", 15, Ok(lease(Some("me"), START)), at(START + 2));
    let (write, pending) = sent(step);
    let renewed = replaced(write);
    assert_eq!(renewed.metadata, metadata());
    let spec = renewed.spec.unwrap();
    assert_eq!(spec.holder_identity, Some("me".to_string()));
    assert_eq!(spec.acquire_time, stamp(START - 100));
    assert_eq!(spec.renew_time, stamp(START + 2));
    assert_eq!(spec.lease_transitions, Some(7));
    assert_eq!(spec.preferred_holder, Some("favourite".to_string()));
    assert_eq!(pending.written(Ok(())).unwrap(), RenewOutcome::Renewed);
}

#[test]
fn renewal_of_a_cleared_or_missing_lease() {
    let cleared = renew_lease_at("my-lease", "me", 15, Ok(lease(None, START)), at(START));
    assert_eq!(finished(cleared).unwrap(), RenewOutcome::Lost);
    let bare = Lease { metadata: metadata(), spec: None };
    let bare = renew_lease_at("my-lease", "me", 15, Ok(bare), at(START));
    assert_eq!(finished(bare).unwrap(), RenewOutcome::Lost);
    let missing = renew_lease_at("my-lease", "me", 15, Err(refusal(404)), at(START));
    assert!(matches!(finished(missing), Err(Error::Kube(_))));
}

#[test]
fn release_keeps_all_but_the_holder() {
    let (write, pending) = sent(clear_holder("my-lease", "me", Ok(lease(Some("me"), START))));
    let cleared = replaced(write);
    assert_eq!(cleared.metadata, metadata());
    let spec = cleared.spec.unwrap();
    assert_eq!(spec.holder_identity, None);
    assert_eq!(spec.renew_time, stamp(START));
    assert_eq!(spec.lease_transitions, Some(7));
    assert!(pending.written(Ok(())).is_ok());
}

#[test]
fn release_that_fails_or_conflicts() {
    let (_, conflicted) = sent(clear_holder("my-lease", "me", Ok(lease(Some("me"), START))));
    assert!(conflicted.written(Err(refusal(409))).is_ok());
    let (_, failed) = sent(clear_holder("my-lease", "me", Ok(lease(Some("me"), START))));
    assert!(matches!(failed.written(Err(refusal(500))), Err(Error::Kube(_))));
    let unread = clear_holder("my-lease", "me", Err(refusal(404)));
    assert!(matches!(finished(unread), Err(Error::Kube(_))));
}

#[test]
fn released_lease_goes_to_the_next_replica() {
    let (write, _) = sent(clear_holder("my-lease", "me", Ok(lease(Some("me"), START))));
    let stored = replaced(write);
    let (write, pending) = sent(attempt_at("next", at(START)).fetched_at(Ok(stored), at(START)));
    let stored = replaced(write);
    assert!(pending.written(Ok(())).unwrap());
    assert!(stored.is_held_by("next"));
    assert_eq!(stored.transitions(), 8);
    assert_eq!(stored.claim("me", at(START + 20), 15), Claim::Held);
    let renewal = renew_lease_at("my-lease", "me", 15, Ok(stored), at(START + 1));
    assert_eq!(finished(renewal).unwrap(), RenewOutcome::Lost);
}

// The renewal loop.

fn instant(millis: u64) -> Instant {
    Instant::at(Duration::from_millis(millis))
}

fn renewals() -> RenewLoop {
    RenewLoop::new(
        "my-lease",
        "me",
        Duration::from_secs(15),
        Duration::from_secs(10),
        instant(1_000),
    )
}

fn failed_turn() -> RenewEvent {
    RenewEvent::Completed(Err(Error::Kube(refusal(409))))
}

fn renewed_turn() -> RenewEvent {
    RenewEvent::Completed(Ok(RenewOutcome::Renewed))
}

#[test]
fn only_sustained_failure_steps_down() {
    let mut turns = renewals();
    assert_eq!(turns.turn_ended(failed_turn(), instant(3_000)), None);
    assert_eq!(turns.turn_ended(RenewEvent::TimedOut, instant(11_000)), None);
    assert_eq!(
        turns.turn_ended(failed_turn(), instant(11_001)),
        Some(StepDownReason::RenewDeadlineExceeded)
    );
    assert_eq!(
        turns.turn_ended(RenewEvent::TimedOut, instant(11_001)),
        Some(StepDownReason::RenewDeadlineExceeded)
    );
}

#[test]
fn success_starts_the_deadline_anew() {
    let mut turns = renewals();
    assert_eq!(turns.turn_ended(failed_turn(), instant(10_000)), None);
    assert_eq!(turns.turn_ended(renewed_turn(), instant(10_500)), None);
    assert_eq!(turns.turn_ended(RenewEvent::TimedOut, instant(20_500)), None);
    assert_eq!(
        turns.turn_ended(RenewEvent::TimedOut, instant(20_501)),
        Some(StepDownReason::RenewDeadlineExceeded)
    );
}

#[test]
fn lost_lease_steps_down_at_once() {
    let mut turns = renewals();
    let lost = RenewEvent::Completed(finished(turns.renew(Ok(lease(Some("other"), START)))));
    assert_eq!(turns.turn_ended(lost, instant(1_001)), Some(StepDownReason::HolderChanged));
}

#[test]
fn loop_renews_for_its_own_duration() {
    let turns = renewals();
    let mut own = lease(Some("me"), START);
    own.spec.as_mut().unwrap().lease_duration_seconds = Some(99);
    let (write, _) = sent(turns.renew(Ok(own)));
    assert_eq!(replaced(write).spec.unwrap().lease_duration_seconds, Some(15));
}

#[test]
fn leader_that_goes_on_is_alone() {
    let mut turns = renewals();
    let step = renew_lease_at("my-lease", "me", 15, Ok(lease(Some("me"), START)), at(START + 1));
    let stored = replaced(sent(step).0);
    assert_eq!(turns.turn_ended(renewed_turn(), instant(1_000)), None);
    assert_eq!(turns.turn_ended(failed_turn(), instant(11_000)), None);
    assert_eq!(stored.claim("other", at(START + 11), 15), Claim::Held);
    assert_eq!(stored.claim("other", at(START + 16), 15), Claim::Held);
    assert_eq!(stored.claim("other", at(START + 17), 15), Claim::Free);
}

#[test]
fn deadline_is_the_first_time_past_the_window() {
    let mut turns = renewals();
    let end = turns.deadline().unwrap();
    let window = Duration::from_nanos(10_000_000_001);
    assert_eq!(end, instant(1_000).plus(window));
    assert_eq!(turns.turn_ended(RenewEvent::TimedOut, instant(11_000)), None);
    assert_eq!(turns.deadline(), Some(end));
    assert_eq!(
        turns.turn_ended(RenewEvent::TimedOut, end),
        Some(StepDownReason::RenewDeadlineExceeded)
    );
    let mut turns = renewals();
    assert_eq!(turns.turn_ended(renewed_turn(), instant(4_000)), None);
    assert_eq!(turns.deadline(), Some(instant(4_000).plus(window)));
}

#[test]
fn deadline_that_no_clock_can_show() {
    let longest = Duration::new(u64::MAX, 999_999_999);
    let endless = RenewLoop::new("my-lease", "me", longest, longest, instant(0));
    assert_eq!(endless.deadline(), None);
    let almost = Duration::new(u64::MAX, 999_999_998);
    let mut turns = RenewLoop::new("my-lease", "me", longest, almost, instant(0));
    assert_eq!(turns.deadline(), Some(Instant::at(longest)));
    assert_eq!(
        turns.turn_ended(RenewEvent::TimedOut, Instant::at(longest)),
        Some(StepDownReason::RenewDeadlineExceeded)
    );
}

#[test]
fn default_leader_stops_while_the_lease_is_closed() {
    let election = LeaderElection::builder("ns", "my-lease")
        .identity(Identity::from("me"))
        .build(None);
    let (mut guard, _, mut turns) = lead(&election, instant(0));
    let step = renew_lease_at("my-lease", "me", 15, Ok(lease(Some("me"), START)), at(START));
    let stored = replaced(sent(step).0);
    assert_eq!(turns.turn_ended(renewed_turn(), instant(0)), None);
    assert_eq!(turns.turn_ended(failed_turn(), instant(10_000)), None);
    let end = turns.deadline().unwrap();
    assert!(instant(15_000).reached(end));
    let reason = turns.turn_ended(RenewEvent::TimedOut, end).unwrap();
    guard.renewal_stopped(reason);
    assert!(!guard.is_leader());
    let now = DateTime::from_timestamp(START + 10, 1).unwrap();
    assert_eq!(stored.claim("other", now, 15), Claim::Held);
    assert_eq!(stored.claim("other", at(START + 15), 15), Claim::Held);
}

// The wait for the lease.

fn election() -> LeaderElection {
    LeaderElection::builder("ns", "my-lease")
        .identity(Identity::from("me"))
        .observe_timeout(Duration::from_secs(30))
        .build(None)
}

fn retried(step: AcquireStep) -> bool {
    match step {
        AcquireStep::Retry(period) => period == Duration::from_secs(2),
        _ => false,
    }
}

#[test]
fn wait_outlasts_short_outages() {
    let mut waiting = election().acquire().unwrap();
    assert!(retried(waiting.attempted(Err(Error::Kube(refusal(500))), instant(1_000))));
    assert!(retried(waiting.attempted(Err(Error::Kube(refusal(500))), instant(30_999))));
    assert!(retried(waiting.attempted(Ok(false), instant(31_000))));
    assert!(retried(waiting.attempted(Err(Error::Kube(refusal(500))), instant(40_000))));
    assert!(retried(waiting.attempted(Err(Error::Kube(no_answer())), instant(69_999))));
    match waiting.attempted(Err(Error::Kube(refusal(503))), instant(70_000)) {
        AcquireStep::GiveUp(Error::ObserveTimeout(window, last)) => {
            assert_eq!(window, Duration::from_secs(30));
            match *last {
                Error::Kube(KubeError::Api(status)) => assert_eq!(status.code, 503),
                other => panic!("the last failure must be kept, got {other:?}"),
            }
        }
        other => panic!("the wait must be given up, got {other:?}"),
    }
}

#[test]
fn wait_ends_with_the_lease() {
    let mut waiting = election().acquire().unwrap();
    assert!(retried(waiting.attempted(Ok(false), instant(1_000))));
    assert!(matches!(waiting.attempted(Ok(true), instant(3_000)), AcquireStep::Acquired(_)));
}

#[test]
fn empty_observe_window_gives_up_at_once() {
    let mut waiting = LeaderElection::builder("ns", "my-lease")
        .identity(Identity::from("me"))
        .observe_timeout(Duration::zero())
        .build(None)
        .acquire()
        .unwrap();
    let step = waiting.attempted(Err(Error::Kube(no_answer())), instant(5));
    assert!(matches!(step, AcquireStep::GiveUp(Error::ObserveTimeout(..))));
}

#[test]
fn wait_attempts_in_the_name_of_the_election() {
    let waiting = election().acquire().unwrap();
    let (write, _) = sent(waiting.attempt().unwrap().fetched(Err(refusal(404))));
    match write {
        Write::Create { name, spec } => {
            assert_eq!(name, "my-lease");
            assert_eq!(spec.holder_identity, Some("me".to_string()));
            assert_eq!(spec.lease_duration_seconds, Some(15));
        }
        other => panic!("an absent lease must be created, got {other:?}"),
    }
}

// Configuration.

fn broken(election: LeaderElection) -> InvalidConfig {
    match election.acquire() {
        Err(Error::InvalidConfig(rule)) => rule,
        other => panic!("the configuration must be refused, got {other:?}"),
    }
}

#[test]
fn refusals_carry_what_is_wrong() {
    let builder = || LeaderElection::builder("ns", "lease").identity(Identity::from("me"));
    match broken(builder().renew_deadline(Duration::from_secs(16)).build(None)) {
        InvalidConfig::RenewDeadlineNotLess { renew, lease } => {
            assert_eq!(renew, Duration::from_secs(16));
            assert_eq!(lease, Duration::from_secs(15));
        }
        other => panic!("got {other:?}"),
    }
    match broken(builder().retry_period(Duration::from_millis(10_001)).build(None)) {
        InvalidConfig::RetryPeriodTooLong { retry, renew } => {
            assert_eq!(retry, Duration::from_millis(10_001));
            assert_eq!(renew, Duration::from_secs(10));
        }
        other => panic!("got {other:?}"),
    }
    let zero = broken(builder().retry_period(Duration::zero()).build(None));
    assert!(matches!(zero, InvalidConfig::RetryPeriodZero));
    let nobody = broken(builder().identity(Identity::from("")).build(None));
    assert!(matches!(nobody, InvalidConfig::IdentityEmpty));
    let unnamed = LeaderElection::builder("ns", "").identity(Identity::from("me"));
    assert!(matches!(broken(unnamed.build(None)), InvalidConfig::NameEmpty));
    let nowhere = LeaderElection::builder("", "lease").identity(Identity::from("me"));
    assert!(matches!(broken(nowhere.build(None)), InvalidConfig::NamespaceEmpty));
}

#[test]
fn first_broken_rule_is_named() {
    let all = LeaderElection::builder("", "")
        .identity(Identity::from(""))
        .lease_duration(Duration::zero())
        .retry_period(Duration::zero());
    assert!(matches!(broken(all.build(None)), InvalidConfig::RenewDeadlineNotLess { .. }));
    let names = LeaderElection::builder("", "").identity(Identity::from(""));
    assert!(matches!(broken(names.build(None)), InvalidConfig::IdentityEmpty));
    let places = LeaderElection::builder("", "").identity(Identity::from("me"));
    assert!(matches!(broken(places.build(None)), InvalidConfig::NameEmpty));
}

#[test]
fn builder_keeps_what_it_is_told() {
    let election = LeaderElection::builder("ns", "lease")
        .identity(Identity::from("me".to_string()))
        .retry_period(Duration::from_secs(3))
        .observe_timeout(Duration::from_secs(4))
        .renew_request_timeout(Duration::from_secs(6))
        .build(Some("pod-0".to_string()));
    assert_eq!(election.namespace(), "ns");
    assert_eq!(election.name(), "lease");
    assert_eq!(election.identity(), "me");
    assert_eq!(election.retry_period(), Duration::from_secs(3));
    assert_eq!(election.observe_timeout(), Duration::from_secs(4));
    assert_eq!(election.renew_request_timeout(), Duration::from_secs(6));
    let defaults = LeaderElection::builder("ns", "lease").build(None);
    assert_eq!(defaults.retry_period(), Duration::from_secs(2));
    assert_eq!(defaults.observe_timeout(), Duration::from_secs(300));
    assert_eq!(defaults.renew_request_timeout(), Duration::from_secs(5));
}

// Identities.

fn is_random_uuid(text: &str) -> bool {
    match uuid::Uuid::parse_str(text) {
        Ok(parsed) => {
            parsed.get_version_num() == 4
                && parsed.get_variant() == uuid::Variant::RFC4122
                && parsed.to_string() == text
        }
        Err(_) => false,
    }
}

#[test]
fn identities_come_from_where_they_say() {
    let pod = Some("pod-0".to_string());
    assert_eq!(Identity::PodNameOrUuid.resolve(pod.clone()), "pod-0");
    assert!(is_random_uuid(&Identity::PodNameOrUuid.resolve(None)));
    assert!(is_random_uuid(&Identity::Generated.resolve(pod.clone())));
    assert!(is_random_uuid(&Identity::Generated.resolve(None)));
    assert_eq!(Identity::from("me").resolve(pod.clone()), "me");
    assert_eq!(Identity::from("me".to_string()).resolve(None), "me");
    assert_eq!(Identity::PodNameOrUuid.resolve(Some(String::new())), "");
    let uuid = "made-up".to_string();
    assert_eq!(Identity::Generated.resolve_with(pod.clone(), uuid.clone()), "made-up");
    assert_eq!(Identity::PodNameOrUuid.resolve_with(None, uuid.clone()), "made-up");
    assert_eq!(Identity::PodNameOrUuid.resolve_with(pod.clone(), uuid), "pod-0");
    assert!(Identity::Generated.needs_uuid(&pod));
    assert!(!Identity::PodNameOrUuid.needs_uuid(&pod));
    assert!(Identity::PodNameOrUuid.needs_uuid(&None));
    assert!(!Identity::from("me").needs_uuid(&None));
}

#[test]
fn generated_identities_differ() {
    let one = Identity::Generated.resolve(None);
    let other = Identity::Generated.resolve(None);
    assert_ne!(one, other);
}

#[test]
fn elections_resolve_their_identity() {
    let pod = LeaderElection::builder("ns", "lease").build(Some("pod-0".to_string()));
    assert_eq!(pod.identity(), "pod-0");
    let fresh = LeaderElection::builder("ns", "lease").build(None);
    assert!(is_random_uuid(fresh.identity()));
    let given = LeaderElection::builder("ns", "lease").build_with(None, "made-up".to_string());
    assert_eq!(given.identity(), "made-up");
    let empty = LeaderElection::builder("ns", "lease").build(Some(String::new()));
    assert!(matches!(broken(empty), InvalidConfig::IdentityEmpty));
}

// The guard.

fn perform(state: &mut LeaderState, effects: &[Effect]) {
    for effect in effects {
        state.perform(*effect);
        if let Effect::SignalLost(_) = effect {
            assert!(!state.is_leader(), "a loss is announced only to those who know");
        }
    }
}

fn leading() -> (LeaderState, LeaderGuard) {
    let election = election();
    let mut state = election.state();
    assert!(!state.is_leader());
    let (guard, effects, _) = lead(&election, instant(0));
    perform(&mut state, &effects);
    assert!(state.is_leader());
    assert!(guard.is_leader());
    (state, guard)
}

fn lead(election: &LeaderElection, now: Instant) -> (LeaderGuard, Vec<Effect>, RenewLoop) {
    match election.acquire().unwrap().attempted(Ok(true), now) {
        AcquireStep::Acquired(won) => won.lead(now),
        other => panic!("the lease is won, got {other:?}"),
    }
}

#[test]
fn winner_leads_the_lease_that_it_won() {
    let election = LeaderElection::builder("ns", "my-lease")
        .identity(Identity::from("someone"))
        .lease_duration(Duration::from_secs(40))
        .renew_deadline(Duration::from_secs(30))
        .build(None);
    let (guard, _, renewals) = lead(&election, instant(1_000));
    assert_eq!(
        renewals.deadline(),
        Some(instant(31_000).plus(Duration::from_nanos(1)))
    );
    let (write, _) = sent(renewals.renew(Ok(lease(Some("someone"), START))));
    assert_eq!(replaced(write).spec.unwrap().lease_duration_seconds, Some(40));
    let (write, _) = sent(guard.release(Ok(lease(Some("someone"), START))));
    assert_eq!(replaced(write).spec.unwrap().holder_identity, None);
}

#[test]
fn only_set_leader_changes_a_state() {
    let (leading, _) = leading();
    let others = [
        Effect::AbortRenewal,
        Effect::SignalLost(StepDownReason::RenewDeadlineExceeded),
        Effect::SignalLost(StepDownReason::HolderChanged),
        Effect::SignalLost(StepDownReason::Cancelled),
        Effect::ReleaseLease,
    ];
    for effect in others {
        let mut state = leading;
        state.perform(effect);
        assert!(state.is_leader(), "{effect:?}");
        let mut standby = LeaderState::standby();
        standby.perform(effect);
        assert!(!standby.is_leader(), "{effect:?}");
    }
    let mut state = leading;
    state.perform(Effect::SetLeader(true));
    assert!(state.is_leader());
    state.perform(Effect::SetLeader(false));
    assert!(!state.is_leader());
}

#[test]
fn step_down_goes_unready_before_all_else() {
    let (mut state, mut guard) = leading();
    let effects = guard.step_down();
    assert_eq!(
        effects,
        vec![
            Effect::SetLeader(false),
            Effect::AbortRenewal,
            Effect::SignalLost(StepDownReason::Cancelled),
            Effect::ReleaseLease,
        ]
    );
    perform(&mut state, &effects);
    assert!(!state.is_leader());
    assert_eq!(guard.lost(), Some(StepDownReason::Cancelled));
    assert!(guard.step_down().is_empty());
    assert!(guard.dropped().is_empty());
    assert_eq!(guard.lost(), Some(StepDownReason::Cancelled));
}

#[test]
fn dropped_guard_gives_the_lease_up() {
    let (mut state, mut guard) = leading();
    let effects = guard.dropped();
    assert_eq!(
        effects,
        vec![
            Effect::SetLeader(false),
            Effect::AbortRenewal,
            Effect::SignalLost(StepDownReason::Cancelled),
            Effect::ReleaseLease,
        ]
    );
    perform(&mut state, &effects);
    assert!(!state.is_leader());
    let (write, _) = sent(guard.release(Ok(lease(Some("me"), START))));
    let cleared = replaced(write);
    assert_eq!(cleared.claim("next", at(START), 15), Claim::Free);
    assert_eq!(cleared.spec.unwrap().holder_identity, None);
    assert!(guard.step_down().is_empty());
    assert!(guard.dropped().is_empty());
}

#[test]
fn first_reason_for_a_loss_stays() {
    let (mut state, mut guard) = leading();
    let effects = guard.renewal_stopped(StepDownReason::RenewDeadlineExceeded);
    assert_eq!(
        effects,
        vec![
            Effect::SetLeader(false),
            Effect::SignalLost(StepDownReason::RenewDeadlineExceeded),
        ]
    );
    perform(&mut state, &effects);
    assert!(guard.renewal_stopped(StepDownReason::HolderChanged).is_empty());
    assert_eq!(guard.lost(), Some(StepDownReason::RenewDeadlineExceeded));
    assert_eq!(guard.step_down(), vec![Effect::AbortRenewal, Effect::ReleaseLease]);
    assert_eq!(guard.lost(), Some(StepDownReason::RenewDeadlineExceeded));
    assert!(!guard.is_leader());
    assert!(!state.is_leader());
}

#[test]
fn guard_dropped_after_a_loss_stops_the_renewal() {
    let (_, mut guard) = leading();
    guard.renewal_stopped(StepDownReason::HolderChanged);
    assert_eq!(guard.dropped(), vec![Effect::AbortRenewal, Effect::ReleaseLease]);
    assert!(guard.dropped().is_empty());
}

#[test]
fn guard_releases_its_own_lease_only() {
    let (_, guard) = leading();
    let (write, _) = sent(guard.release(Ok(lease(Some("me"), START))));
    assert_eq!(replaced(write).spec.unwrap().holder_identity, None);
    assert!(finished(guard.release(Ok(lease(Some("other"), START)))).is_ok());
}
