//! One attempt to acquire the lease: read it, then create it, renew it, take it over, or
//! leave it to its holder.
use crate::duration::Duration;
use crate::error::{outcome, seen, Error, ErrorView, KubeError, KubeErrorView};
use crate::leader::lease::{
    lease_seconds, lease_secs_of, Claim, Lease, LeaseRecord, LeaseSpec, LeaseView,
};
use crate::leader::request::{
    replace_lease, write_outcome, Step, StepView, Write, WriteView, NOT_FOUND,
};
use crate::outside::shown;
use crate::timestamp::{
    chrono_to_timestamp, shown_since, stamped, DateTime, Moment, Timestamp,
};
use vstd::prelude::*;

verus! {

/// An attempt whose read of the lease is under way.
#[derive(Debug)]
pub struct TryAcquire {
    name: String,
    identity: String,
    lease_secs: i32,
    now: DateTime,
    micro_now: Timestamp,
}

/// An attempt whose write is under way.
#[derive(Debug)]
pub struct ClaimSent {}

/// The view of a [`TryAcquire`].
#[verifier::ext_equal]
pub ghost struct AttemptView {
    /// The name of the lease.
    pub name: Seq<char>,
    /// Who wants the lease.
    pub identity: Seq<char>,
    /// For how many seconds a lease that is written is good.
    pub lease_secs: i32,
    /// When the attempt started.
    pub started: Moment,
}

impl View for TryAcquire {
    type V = AttemptView;

    closed spec fn view(&self) -> AttemptView {
        AttemptView {
            name: self.name@,
            identity: self.identity@,
            lease_secs: self.lease_secs,
            started: self.now@,
        }
    }
}

/// The start of an attempt at `now`, or why there is none.
pub open spec fn attempt_start(
    name: Seq<char>,
    identity: Seq<char>,
    lease_duration: nat,
    now: Moment,
) -> Result<AttemptView, ErrorView> {
    match stamped(now) {
        Ok(_) => Ok(
            AttemptView { name, identity, lease_secs: lease_secs_of(lease_duration), started: now },
        ),
        Err(error) => Err(error),
    }
}

/// Whether `attempt` is the start of an attempt at a moment that the clock showed.
pub open spec fn attempt_started(
    name: Seq<char>,
    identity: Seq<char>,
    lease_duration: nat,
    attempt: Result<AttemptView, ErrorView>,
) -> bool {
    exists|now: Moment|
        now.on_clock() && shown(now) && attempt == #[trigger] attempt_start(
            name,
            identity,
            lease_duration,
            now,
        )
}

/// Whether `attempt` is the start of an attempt at a moment that the clock showed once `what`
/// was at hand.
pub open spec fn attempt_started_since<T>(
    what: T,
    name: Seq<char>,
    identity: Seq<char>,
    lease_duration: nat,
    attempt: Result<AttemptView, ErrorView>,
) -> bool {
    exists|now: Moment|
        now.on_clock() && shown_since(what, now) && attempt == #[trigger] attempt_start(
            name,
            identity,
            lease_duration,
            now,
        )
}

/// `lease`, which `identity` holds, as `identity` renews it at `now`, or why it cannot.
pub open spec fn renewal(
    lease: LeaseView,
    identity: Seq<char>,
    lease_secs: i32,
    now: Moment,
) -> Result<LeaseView, ErrorView> {
    match stamped(now) {
        Ok(at) => Ok(lease.with(lease.record().renewed(identity, lease_secs, at))),
        Err(error) => Err(error),
    }
}

impl AttemptView {
    /// What this attempt finds `lease` to be.
    pub open spec fn claim(self, lease: LeaseView) -> Claim {
        lease.record().claim(self.identity, self.started, self.lease_secs)
    }

    /// What this attempt makes of the answer to its read, which came when the clock
    /// showed `now`.
    pub open spec fn fetched(
        self,
        reply: Result<LeaseView, KubeErrorView>,
        now: Moment,
    ) -> StepView<bool> {
        match reply {
            Ok(lease) => match self.claim(lease) {
                Claim::Own => match renewal(lease, self.identity, self.lease_secs, now) {
                    Ok(renewed) => StepView::Send(
                        WriteView::Replace { name: self.name, lease: renewed },
                    ),
                    Err(error) => StepView::Finished(Err(error)),
                },
                Claim::Free => StepView::Send(
                    WriteView::Replace {
                        name: self.name,
                        lease: lease.with(
                            lease.record().taken_over(
                                self.identity,
                                self.lease_secs,
                                self.started.stamp(),
                            ),
                        ),
                    },
                ),
                Claim::Held => StepView::Finished(Ok(false)),
            },
            Err(error) => if error.has_code(NOT_FOUND) {
                StepView::Send(
                    WriteView::Create {
                        name: self.name,
                        record: LeaseRecord::created(
                            self.identity,
                            self.lease_secs,
                            self.started.stamp(),
                        ),
                    },
                )
            } else {
                StepView::Finished(Err(ErrorView::Kube(error)))
            },
        }
    }

    /// Whether the count of a lease's holders has room for one more, should this attempt
    /// take over what the read found.
    pub open spec fn countable(self, reply: Result<LeaseView, KubeErrorView>) -> bool {
        reply matches Ok(lease) ==> self.claim(lease) == Claim::Free
            ==> lease.record().transitions() < i32::MAX
    }
}

/// Whether `step` is what `attempt` makes of the answer to its read at a moment that the clock
/// showed once the answer was there.
pub open spec fn attempt_fetched(
    attempt: AttemptView,
    reply: Result<Lease, KubeError>,
    step: StepView<bool>,
) -> bool {
    exists|now: Moment|
        now.on_clock() && shown_since(reply, now) && step == #[trigger] attempt.fetched(
            seen(reply),
            now,
        )
}

/// Starts an attempt by `identity` to acquire the lease `name` at `now`: the lease is to
/// be read next. Fails where a lease cannot hold `now`.
pub fn try_acquire_at(name: &str, identity: &str, lease_duration: Duration, now: DateTime) -> (attempt:
    Result<TryAcquire, Error>)
    ensures
        seen(attempt) == attempt_start(name@, identity@, lease_duration@, now@),
{
    match chrono_to_timestamp(now) {
        Ok(micro_now) => Ok(
            TryAcquire {
                name: name.to_owned(),
                identity: identity.to_owned(),
                lease_secs: lease_seconds(lease_duration),
                now,
                micro_now,
            },
        ),
        Err(error) => Err(error),
    }
}

/// Starts an attempt by `identity` to acquire the lease `name` now: the lease is to be
/// read next.
pub fn try_acquire(name: &str, identity: &str, lease_duration: Duration) -> (attempt: Result<
    TryAcquire,
    Error,
>)
    ensures
        attempt_started(name@, identity@, lease_duration@, seen(attempt)),
{
    try_acquire_at(name, identity, lease_duration, DateTime::now())
}

/// `lease`, which `identity` holds, renewed at `now`. Fails where a lease cannot hold `now`.
pub fn renew_existing_lease(lease: Lease, identity: &str, lease_secs: i32, now: DateTime) -> (renewed:
    Result<Lease, Error>)
    ensures
        seen(renewed) == renewal(lease@, identity@, lease_secs, now@),
{
    match chrono_to_timestamp(now) {
        Ok(at) => Ok(lease.renewed(identity, lease_secs, at)),
        Err(error) => Err(error),
    }
}

impl TryAcquire {
    #[verifier::type_invariant]
    spec fn started_in_range(self) -> bool {
        self.micro_now@ == self.now@.stamp()
    }

    /// What this attempt finds `lease` to be.
    pub fn claim(&self, lease: &Lease) -> (claim: Claim)
        ensures
            claim == self@.claim(lease@),
    {
        lease.claim(self.identity.as_str(), self.now, self.lease_secs)
    }

    /// What comes after the answer to the read of the lease, which came at `now`.
    pub fn fetched_at(self, reply: Result<Lease, KubeError>, now: DateTime) -> (step: Step<bool, ClaimSent>)
        requires
            self@.countable(seen(reply)),
        ensures
            step@ == self@.fetched(seen(reply), now@),
    {
        proof {
            use_type_invariant(&self);
        }
        match reply {
            Ok(lease) => match self.claim(&lease) {
                Claim::Own => match renew_existing_lease(
                    lease,
                    self.identity.as_str(),
                    self.lease_secs,
                    now,
                ) {
                    Ok(lease) => Step::Send(Write::Replace { name: self.name, lease }, ClaimSent {  }),
                    Err(error) => Step::Finished(Err(error)),
                },
                Claim::Free => Step::Send(
                    Write::Replace {
                        name: self.name,
                        lease: lease.taken_over(
                            self.identity.as_str(),
                            self.lease_secs,
                            self.micro_now,
                        ),
                    },
                    ClaimSent {  },
                ),
                Claim::Held => Step::Finished(Ok(false)),
            },
            Err(error) => if error.has_code(NOT_FOUND) {
                Step::Send(
                    Write::Create {
                        name: self.name,
                        spec: LeaseSpec::created(
                            self.identity.as_str(),
                            self.lease_secs,
                            self.micro_now,
                        ),
                    },
                    ClaimSent {  },
                )
            } else {
                Step::Finished(Err(Error::Kube(error)))
            },
        }
    }

    /// What comes after the answer to the read of the lease, which has just come.
    pub fn fetched(self, reply: Result<Lease, KubeError>) -> (step: Step<bool, ClaimSent>)
        requires
            self@.countable(seen(reply)),
        ensures
            attempt_fetched(self@, reply, step@),
    {
        let now = DateTime::now_since(&reply);
        self.fetched_at(reply, now)
    }
}

impl ClaimSent {
    /// Whether the attempt won the lease, once its write is answered.
    pub fn written(self, reply: Result<(), KubeError>) -> (acquired: Result<bool, Error>)
        ensures
            outcome(acquired) == write_outcome(outcome(reply)),
    {
        replace_lease(reply)
    }
}

} // verus!
