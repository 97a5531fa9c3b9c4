//! Keeping the lease: renew it every so often, and step down when it is lost.
use crate::duration::{Duration, Instant, MAX_NANOS};
use crate::error::{outcome, seen, Error, ErrorView, KubeError, KubeErrorView};
use crate::leader::attempt::{renew_existing_lease, renewal};
use crate::leader::lease::{lease_seconds, lease_secs_of, Lease, LeaseView};
use crate::leader::request::{Step, StepView, Write, WriteView};
use crate::timestamp::{shown_since, DateTime, Moment};
use vstd::prelude::*;

verus! {

/// Outcome of a renewal that did not fail. A failed one is an error, and is retried
/// within `renew_deadline`; a lost lease cannot be won back by retrying.
#[derive(Clone, Copy, Debug, PartialEq, Eq, Structural)]
pub enum RenewOutcome {
    /// The lease is renewed.
    Renewed,
    /// We no longer hold the lease.
    Lost,
}

/// Why a leader is no longer leader.
#[derive(Clone, Copy, Debug, PartialEq, Eq, Structural)]
#[non_exhaustive]
pub enum StepDownReason {
    /// Renewals kept failing for longer than `renew_deadline`.
    RenewDeadlineExceeded,
    /// A renewal found that we no longer hold the lease.
    HolderChanged,
    /// The leader gave the lease up, or dropped its guard.
    Cancelled,
}

/// A renewal whose write is under way.
#[derive(Debug)]
pub struct RenewalSent {}

/// What `identity`, who renews the lease `name`, makes of the answer to its read, which
/// came when the clock showed `now`.
pub open spec fn renewal_step(
    name: Seq<char>,
    identity: Seq<char>,
    lease_secs: i32,
    reply: Result<LeaseView, KubeErrorView>,
    now: Moment,
) -> StepView<RenewOutcome> {
    match reply {
        Ok(lease) => if lease.record().holder_identity == Some(identity) {
            match renewal(lease, identity, lease_secs, now) {
                Ok(renewed) => StepView::Send(WriteView::Replace { name, lease: renewed }),
                Err(error) => StepView::Finished(Err(error)),
            }
        } else {
            StepView::Finished(Ok(RenewOutcome::Lost))
        },
        Err(error) => StepView::Finished(Err(ErrorView::Kube(error))),
    }
}

/// Whether `step` is what `identity` makes of the answer to its read at a moment that the
/// clock showed once the answer was there.
pub open spec fn renewal_stepped(
    name: Seq<char>,
    identity: Seq<char>,
    lease_secs: i32,
    reply: Result<Lease, KubeError>,
    step: StepView<RenewOutcome>,
) -> bool {
    exists|now: Moment|
        now.on_clock() && shown_since(reply, now) && step == #[trigger] renewal_step(
            name,
            identity,
            lease_secs,
            seen(reply),
            now,
        )
}

/// What the answer to the write that renews the lease means. Every failure counts as one,
/// a conflict too: it is retried, and does not by itself mean that the lease is lost.
pub open spec fn renewal_outcome(reply: Result<(), KubeErrorView>) -> Result<
    RenewOutcome,
    ErrorView,
> {
    match reply {
        Ok(()) => Ok(RenewOutcome::Renewed),
        Err(error) => Err(ErrorView::Kube(error)),
    }
}

/// What comes after the answer to the read of the lease `name`, which `identity` renews;
/// the answer came at `now`.
pub fn renew_lease_at(
    name: &str,
    identity: &str,
    lease_secs: i32,
    reply: Result<Lease, KubeError>,
    now: DateTime,
) -> (step: Step<RenewOutcome, RenewalSent>)
    ensures
        step@ == renewal_step(name@, identity@, lease_secs, seen(reply), now@),
{
    match reply {
        Ok(lease) => if lease.is_held_by(identity) {
            match renew_existing_lease(lease, identity, lease_secs, now) {
                Ok(lease) => Step::Send(
                    Write::Replace { name: name.to_owned(), lease },
                    RenewalSent {  },
                ),
                Err(error) => Step::Finished(Err(error)),
            }
        } else {
            Step::Finished(Ok(RenewOutcome::Lost))
        },
        Err(error) => Step::Finished(Err(Error::Kube(error))),
    }
}

/// What comes after the answer to the read of the lease `name`, which `identity` renews;
/// the answer has just come.
pub fn renew_lease(
    name: &str,
    identity: &str,
    lease_secs: i32,
    reply: Result<Lease, KubeError>,
) -> (step: Step<RenewOutcome, RenewalSent>)
    ensures
        renewal_stepped(name@, identity@, lease_secs, reply, step@),
{
    let now = DateTime::now_since(&reply);
    renew_lease_at(name, identity, lease_secs, reply, now)
}

impl RenewalSent {
    /// The outcome of the renewal, once its write is answered.
    pub fn written(self, reply: Result<(), KubeError>) -> (renewed: Result<RenewOutcome, Error>)
        ensures
            outcome(renewed) == renewal_outcome(outcome(reply)),
    {
        match reply {
            Ok(()) => Ok(RenewOutcome::Renewed),
            Err(error) => Err(Error::Kube(error)),
        }
    }
}

/// Whether the leader has missed its renew window at `now`: more than `renew_deadline` has
/// passed since `last_renew`.
pub fn renew_deadline_exceeded(now: Instant, last_renew: Instant, renew_deadline: Duration) -> (exceeded:
    bool)
    ensures
        exceeded == (now@ > last_renew@ + renew_deadline@),
{
    now.duration_since(last_renew).as_nanos() > renew_deadline.as_nanos()
}

/// How one turn of the renewal loop went.
#[derive(Debug)]
pub enum RenewEvent {
    /// The renewal came to an end in time.
    Completed(Result<RenewOutcome, Error>),
    /// The renewal took longer than `renew_request_timeout`, or the turn was still under
    /// way at [`RenewLoop::deadline`].
    TimedOut,
}

/// The view of a [`RenewEvent`]: all failures are alike to the loop.
pub ghost enum Turn {
    Renewed,
    Lost,
    Failed,
}

impl View for RenewEvent {
    type V = Turn;

    open spec fn view(&self) -> Turn {
        match *self {
            RenewEvent::Completed(Ok(RenewOutcome::Renewed)) => Turn::Renewed,
            RenewEvent::Completed(Ok(RenewOutcome::Lost)) => Turn::Lost,
            RenewEvent::Completed(Err(_)) => Turn::Failed,
            RenewEvent::TimedOut => Turn::Failed,
        }
    }
}

/// The loop that keeps the lease renewed while we lead.
#[derive(Debug)]
pub struct RenewLoop {
    name: String,
    identity: String,
    lease_secs: i32,
    renew_deadline: Duration,
    last_renew: Instant,
}

/// The view of a [`RenewLoop`].
#[verifier::ext_equal]
pub ghost struct LoopView {
    /// The name of the lease.
    pub name: Seq<char>,
    /// Who renews the lease.
    pub identity: Seq<char>,
    /// For how many seconds a renewed lease is good.
    pub lease_secs: i32,
    /// For how long renewals may fail, in nanoseconds.
    pub renew_deadline: nat,
    /// When the lease was last renewed.
    pub last_renew: nat,
}

impl View for RenewLoop {
    type V = LoopView;

    closed spec fn view(&self) -> LoopView {
        LoopView {
            name: self.name@,
            identity: self.identity@,
            lease_secs: self.lease_secs,
            renew_deadline: self.renew_deadline@,
            last_renew: self.last_renew@,
        }
    }
}

impl LoopView {
    /// The first time at which the leader has missed its renew window, should no renewal
    /// succeed before.
    pub open spec fn deadline(self) -> nat {
        self.last_renew + self.renew_deadline + 1
    }

    /// Whether, and why, the leader steps down after a turn that ended at `now`.
    pub open spec fn verdict(self, turn: Turn, now: nat) -> Option<StepDownReason> {
        match turn {
            Turn::Renewed => None,
            Turn::Lost => Some(StepDownReason::HolderChanged),
            Turn::Failed => if now > self.last_renew + self.renew_deadline {
                Some(StepDownReason::RenewDeadlineExceeded)
            } else {
                None
            },
        }
    }

    /// The loop after a turn that ended at `now`.
    pub open spec fn after(self, turn: Turn, now: nat) -> LoopView {
        match turn {
            Turn::Renewed => LoopView { last_renew: now, ..self },
            _ => self,
        }
    }
}

impl RenewLoop {
    /// Starts the loop of `identity`, who has acquired the lease `name` at `now`.
    pub fn new(
        name: &str,
        identity: &str,
        lease_duration: Duration,
        renew_deadline: Duration,
        now: Instant,
    ) -> (renewals: RenewLoop)
        ensures
            renewals@ == (LoopView {
                name: name@,
                identity: identity@,
                lease_secs: lease_secs_of(lease_duration@),
                renew_deadline: renew_deadline@,
                last_renew: now@,
            }),
    {
        RenewLoop {
            name: name.to_owned(),
            identity: identity.to_owned(),
            lease_secs: lease_seconds(lease_duration),
            renew_deadline,
            last_renew: now,
        }
    }

    /// What comes, in a turn of the loop, after the answer to the read of the lease, which
    /// has just come.
    pub fn renew(&self, reply: Result<Lease, KubeError>) -> (step: Step<RenewOutcome, RenewalSent>)
        ensures
            renewal_stepped(self@.name, self@.identity, self@.lease_secs, reply, step@),
    {
        renew_lease(self.name.as_str(), self.identity.as_str(), self.lease_secs, reply)
    }

    /// Until when the leader may go on without a successful renewal. A turn that is still
    /// under way then, be it before its request or in the middle of it, is to be ended as
    /// [`RenewEvent::TimedOut`], whatever the retry period and the request's own time limit:
    /// [`Self::turn_ended`] answers it by stepping down. There is no deadline where no
    /// [`Instant`] can show it.
    pub fn deadline(&self) -> (deadline: Option<Instant>)
        ensures
            deadline is Some <==> self@.deadline() <= MAX_NANOS,
            deadline matches Some(end) ==> end@ == self@.deadline(),
    {
        let last: u128 = self.last_renew.duration_since(Instant::at(Duration::zero())).as_nanos();
        let window: u128 = self.renew_deadline.as_nanos();
        if last + window < MAX_NANOS {
            Some(self.last_renew.plus(self.renew_deadline).plus(Duration::from_nanos(1)))
        } else {
            None
        }
    }

    /// Takes note of a turn of the loop that ended at `now`. If the leader has to step
    /// down, says why; otherwise the loop goes on.
    pub fn turn_ended(&mut self, event: RenewEvent, now: Instant) -> (verdict: Option<StepDownReason>)
        ensures
            verdict == old(self)@.verdict(event@, now@),
            event matches RenewEvent::Completed(Ok(RenewOutcome::Renewed)) ==> verdict is None,
            event matches RenewEvent::Completed(Ok(RenewOutcome::Lost)) ==> verdict == Some(
                StepDownReason::HolderChanged,
            ),
            final(self)@ == old(self)@.after(event@, now@),
    {
        match event {
            RenewEvent::Completed(Ok(RenewOutcome::Renewed)) => {
                self.last_renew = now;
                None
            },
            RenewEvent::Completed(Ok(RenewOutcome::Lost)) => Some(StepDownReason::HolderChanged),
            _ => if renew_deadline_exceeded(now, self.last_renew, self.renew_deadline) {
                Some(StepDownReason::RenewDeadlineExceeded)
            } else {
                None
            },
        }
    }
}

} // verus!
