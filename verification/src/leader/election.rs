//! The configuration of an election, and the wait until it is won.
use crate::duration::{Duration, Instant, MAX_NANOS};
use crate::error::{outcome, seen, Error, ErrorView, InvalidConfig, InvalidConfigView};
use crate::leader::attempt::{
    attempt_started, attempt_started_since, try_acquire_at, TryAcquire,
};
use crate::leader::guard::{Effect, GuardView, LeaderGuard, LeaderState};
use crate::leader::identity::{is_uuid_v4, Identity, IdentityView};
use crate::leader::lease::{lease_secs_of, text};
use crate::leader::renewal::{LoopView, RenewLoop};
use crate::outside::drawn;
use crate::timestamp::DateTime;
use vstd::prelude::*;

verus! {

/// For how many seconds a lease is good by default.
pub const DEFAULT_LEASE_DURATION_SECS: u64 = 15;

/// Within how many seconds a leader must renew by default.
pub const DEFAULT_RENEW_DEADLINE_SECS: u64 = 10;

/// How many seconds pass between two renewals, or two attempts, by default.
pub const DEFAULT_RETRY_PERIOD_SECS: u64 = 2;

/// For how many seconds attempts may fail by default.
pub const DEFAULT_OBSERVE_TIMEOUT_SECS: u64 = 300;

/// How many seconds one renewal may take by default.
pub const DEFAULT_RENEW_REQUEST_TIMEOUT_SECS: u64 = 5;

/// The configuration of an election.
#[derive(Debug)]
pub struct LeaderElection {
    namespace: String,
    name: String,
    identity: String,
    lease_duration: Duration,
    renew_deadline: Duration,
    retry_period: Duration,
    observe_timeout: Duration,
    renew_request_timeout: Duration,
}

/// Fluent builder returned by [`LeaderElection::builder`].
#[derive(Debug)]
pub struct LeaderElectionBuilder {
    namespace: String,
    name: String,
    identity: Identity,
    lease_duration: Duration,
    renew_deadline: Duration,
    retry_period: Duration,
    observe_timeout: Duration,
    renew_request_timeout: Duration,
}

/// The spans of time of an election, in nanoseconds.
pub ghost struct Timing {
    pub lease_duration: nat,
    pub renew_deadline: nat,
    pub retry_period: nat,
    pub observe_timeout: nat,
    pub renew_request_timeout: nat,
}

/// The view of a [`LeaderElection`].
#[verifier::ext_equal]
pub ghost struct ElectionView {
    pub namespace: Seq<char>,
    pub name: Seq<char>,
    pub identity: Seq<char>,
    pub timing: Timing,
}

/// The view of a [`LeaderElectionBuilder`].
#[verifier::ext_equal]
pub ghost struct BuilderView {
    pub namespace: Seq<char>,
    pub name: Seq<char>,
    pub identity: IdentityView,
    pub timing: Timing,
}

impl View for LeaderElection {
    type V = ElectionView;

    closed spec fn view(&self) -> ElectionView {
        ElectionView {
            namespace: self.namespace@,
            name: self.name@,
            identity: self.identity@,
            timing: Timing {
                lease_duration: self.lease_duration@,
                renew_deadline: self.renew_deadline@,
                retry_period: self.retry_period@,
                observe_timeout: self.observe_timeout@,
                renew_request_timeout: self.renew_request_timeout@,
            },
        }
    }
}

impl View for LeaderElectionBuilder {
    type V = BuilderView;

    closed spec fn view(&self) -> BuilderView {
        BuilderView {
            namespace: self.namespace@,
            name: self.name@,
            identity: self.identity@,
            timing: Timing {
                lease_duration: self.lease_duration@,
                renew_deadline: self.renew_deadline@,
                retry_period: self.retry_period@,
                observe_timeout: self.observe_timeout@,
                renew_request_timeout: self.renew_request_timeout@,
            },
        }
    }
}

impl Timing {
    /// The spans of time by default.
    pub open spec fn defaults() -> Timing {
        Timing {
            lease_duration: 15_000_000_000,
            renew_deadline: 10_000_000_000,
            retry_period: 2_000_000_000,
            observe_timeout: 300_000_000_000,
            renew_request_timeout: 5_000_000_000,
        }
    }
}

impl BuilderView {
    /// The election that is built when the identity is resolved to `identity`.
    pub open spec fn built(self, identity: Seq<char>) -> ElectionView {
        ElectionView { namespace: self.namespace, name: self.name, identity, timing: self.timing }
    }
}

impl ElectionView {
    /// The wait for the lease of this election, before any attempt.
    pub open spec fn waiting(self) -> AcquireView {
        AcquireView {
            name: self.name,
            identity: self.identity,
            lease_duration: self.timing.lease_duration,
            renew_deadline: self.timing.renew_deadline,
            retry_period: self.timing.retry_period,
            observe_timeout: self.timing.observe_timeout,
            error_deadline: None,
        }
    }

    /// The first of the rules for a configuration that this one breaks.
    pub open spec fn broken_rule(self) -> Option<InvalidConfigView> {
        if self.timing.renew_deadline >= self.timing.lease_duration {
            Some(
                InvalidConfigView::RenewDeadlineNotLess {
                    renew: self.timing.renew_deadline,
                    lease: self.timing.lease_duration,
                },
            )
        } else if self.timing.retry_period > self.timing.renew_deadline {
            Some(
                InvalidConfigView::RetryPeriodTooLong {
                    retry: self.timing.retry_period,
                    renew: self.timing.renew_deadline,
                },
            )
        } else if self.timing.retry_period == 0 {
            Some(InvalidConfigView::RetryPeriodZero)
        } else if self.identity.len() == 0 {
            Some(InvalidConfigView::IdentityEmpty)
        } else if self.name.len() == 0 {
            Some(InvalidConfigView::NameEmpty)
        } else if self.namespace.len() == 0 {
            Some(InvalidConfigView::NamespaceEmpty)
        } else {
            None
        }
    }

    /// Whether this configuration is accepted, and the error if it is not.
    pub open spec fn validated(self) -> Result<(), ErrorView> {
        match self.broken_rule() {
            Some(rule) => Err(ErrorView::InvalidConfig(rule)),
            None => Ok(()),
        }
    }
}

impl LeaderElectionBuilder {
    /// Sets where the identity comes from. Default: [`Identity::PodNameOrUuid`].
    pub fn identity(self, identity: Identity) -> (builder: LeaderElectionBuilder)
        ensures
            builder@ == (BuilderView { identity: identity@, ..self@ }),
    {
        LeaderElectionBuilder { identity, ..self }
    }

    /// Sets how long the lease is good without renewal. Default: 15s.
    pub fn lease_duration(self, duration: Duration) -> (builder: LeaderElectionBuilder)
        ensures
            builder@ == (BuilderView {
                timing: Timing { lease_duration: duration@, ..self@.timing },
                ..self@
            }),
    {
        LeaderElectionBuilder { lease_duration: duration, ..self }
    }

    /// Sets within how long the leader must renew; if it does not, it steps down.
    /// Default: 10s.
    pub fn renew_deadline(self, duration: Duration) -> (builder: LeaderElectionBuilder)
        ensures
            builder@ == (BuilderView {
                timing: Timing { renew_deadline: duration@, ..self@.timing },
                ..self@
            }),
    {
        LeaderElectionBuilder { renew_deadline: duration, ..self }
    }

    /// Sets how often the leader renews and a follower tries. Default: 2s.
    pub fn retry_period(self, duration: Duration) -> (builder: LeaderElectionBuilder)
        ensures
            builder@ == (BuilderView {
                timing: Timing { retry_period: duration@, ..self@.timing },
                ..self@
            }),
    {
        LeaderElectionBuilder { retry_period: duration, ..self }
    }

    /// Sets for how long attempts to acquire the lease may fail before it is given up.
    /// Default: 5 minutes.
    pub fn observe_timeout(self, duration: Duration) -> (builder: LeaderElectionBuilder)
        ensures
            builder@ == (BuilderView {
                timing: Timing { observe_timeout: duration@, ..self@.timing },
                ..self@
            }),
    {
        LeaderElectionBuilder { observe_timeout: duration, ..self }
    }

    /// Sets how long one renewal may take. Default: 5s.
    pub fn renew_request_timeout(self, duration: Duration) -> (builder: LeaderElectionBuilder)
        ensures
            builder@ == (BuilderView {
                timing: Timing { renew_request_timeout: duration@, ..self@.timing },
                ..self@
            }),
    {
        LeaderElectionBuilder { renew_request_timeout: duration, ..self }
    }

    /// Finalises the configuration, when `$HOSTNAME` is `hostname` and a fresh UUID is
    /// `uuid`.
    pub fn build_with(self, hostname: Option<String>, uuid: String) -> (election: LeaderElection)
        ensures
            election@ == self@.built(self@.identity.resolved(text(hostname), uuid@)),
            self@.identity is PodNameOrUuid && hostname is Some ==> election@.identity
                == hostname->Some_0@,
            self@.identity matches IdentityView::Custom(name) ==> election@.identity == name,
    {
        LeaderElection {
            namespace: self.namespace,
            name: self.name,
            identity: self.identity.resolve_with(hostname, uuid),
            lease_duration: self.lease_duration,
            renew_deadline: self.renew_deadline,
            retry_period: self.retry_period,
            observe_timeout: self.observe_timeout,
            renew_request_timeout: self.renew_request_timeout,
        }
    }

    /// Finalises the configuration, when `$HOSTNAME` is `hostname`.
    pub fn build(self, hostname: Option<String>) -> (election: LeaderElection)
        ensures
            election@ == self@.built(election@.identity),
            election@.identity == self@.identity.resolved(text(hostname), election@.identity),
            self@.identity.needs_uuid(text(hostname)) ==> is_uuid_v4(election@.identity) && drawn(
                election@.identity,
            ),
            self@.identity is PodNameOrUuid && hostname is Some ==> election@.identity
                == hostname->Some_0@,
            self@.identity is PodNameOrUuid && hostname is None ==> drawn(election@.identity),
            self@.identity is Generated ==> drawn(election@.identity),
            self@.identity matches IdentityView::Custom(name) ==> election@.identity == name,
    {
        LeaderElection {
            namespace: self.namespace,
            name: self.name,
            identity: self.identity.resolve(hostname),
            lease_duration: self.lease_duration,
            renew_deadline: self.renew_deadline,
            retry_period: self.retry_period,
            observe_timeout: self.observe_timeout,
            renew_request_timeout: self.renew_request_timeout,
        }
    }
}

impl LeaderElection {
    /// Starts the configuration of an election for the lease `name` in `namespace`. The
    /// name should be unique per controller.
    pub fn builder(namespace: &str, name: &str) -> (builder: LeaderElectionBuilder)
        ensures
            builder@ == (BuilderView {
                namespace: namespace@,
                name: name@,
                identity: IdentityView::PodNameOrUuid,
                timing: Timing::defaults(),
            }),
    {
        LeaderElectionBuilder {
            namespace: namespace.to_owned(),
            name: name.to_owned(),
            identity: Identity::PodNameOrUuid,
            lease_duration: Duration::from_secs(DEFAULT_LEASE_DURATION_SECS),
            renew_deadline: Duration::from_secs(DEFAULT_RENEW_DEADLINE_SECS),
            retry_period: Duration::from_secs(DEFAULT_RETRY_PERIOD_SECS),
            observe_timeout: Duration::from_secs(DEFAULT_OBSERVE_TIMEOUT_SECS),
            renew_request_timeout: Duration::from_secs(DEFAULT_RENEW_REQUEST_TIMEOUT_SECS),
        }
    }

    /// Whether the configuration is sound.
    ///
    /// A leader must finish renewing within `renew_deadline`, which has to leave a margin
    /// under `lease_duration`: without it, a brief renewal hiccup can race a takeover and
    /// produce two leaders.
    pub fn validate(&self) -> (valid: Result<(), Error>)
        ensures
            outcome(valid) == self@.validated(),
    {
        if self.renew_deadline.as_nanos() >= self.lease_duration.as_nanos() {
            return Err(
                Error::InvalidConfig(
                    InvalidConfig::RenewDeadlineNotLess {
                        renew: self.renew_deadline,
                        lease: self.lease_duration,
                    },
                ),
            );
        }
        if self.retry_period.as_nanos() > self.renew_deadline.as_nanos() {
            return Err(
                Error::InvalidConfig(
                    InvalidConfig::RetryPeriodTooLong {
                        retry: self.retry_period,
                        renew: self.renew_deadline,
                    },
                ),
            );
        }
        if self.retry_period.is_zero() {
            return Err(Error::InvalidConfig(InvalidConfig::RetryPeriodZero));
        }
        if self.identity.as_str().is_empty() {
            return Err(Error::InvalidConfig(InvalidConfig::IdentityEmpty));
        }
        if self.name.as_str().is_empty() {
            return Err(Error::InvalidConfig(InvalidConfig::NameEmpty));
        }
        if self.namespace.as_str().is_empty() {
            return Err(Error::InvalidConfig(InvalidConfig::NamespaceEmpty));
        }
        Ok(())
    }

    /// The state of the leadership before the lease is acquired.
    pub fn state(&self) -> (state: LeaderState)
        ensures
            !state@,
    {
        LeaderState::standby()
    }

    /// Starts to wait for the lease, unless the configuration is not sound.
    pub fn acquire(&self) -> (waiting: Result<Acquire, Error>)
        ensures
            seen(waiting) == match self@.validated() {
                Ok(()) => Ok(self@.waiting()),
                Err(error) => Err(error),
            },
    {
        match self.validate() {
            Ok(()) => Ok(
                Acquire {
                    name: self.name.clone(),
                    identity: self.identity.clone(),
                    lease_duration: self.lease_duration,
                    renew_deadline: self.renew_deadline,
                    retry_period: self.retry_period,
                    observe_timeout: self.observe_timeout,
                    observe_error_deadline: None,
                },
            ),
            Err(error) => Err(error),
        }
    }

    /// The namespace of the lease.
    pub fn namespace(&self) -> (namespace: &str)
        ensures
            namespace@ == self@.namespace,
    {
        self.namespace.as_str()
    }

    /// The name of the lease.
    pub fn name(&self) -> (name: &str)
        ensures
            name@ == self@.name,
    {
        self.name.as_str()
    }

    /// Who wants the lease.
    pub fn identity(&self) -> (identity: &str)
        ensures
            identity@ == self@.identity,
    {
        self.identity.as_str()
    }

    /// How often the leader renews.
    pub fn retry_period(&self) -> (period: Duration)
        ensures
            period@ == self@.timing.retry_period,
    {
        self.retry_period
    }

    /// For how long attempts to acquire the lease may fail.
    pub fn observe_timeout(&self) -> (timeout: Duration)
        ensures
            timeout@ == self@.timing.observe_timeout,
    {
        self.observe_timeout
    }

    /// How long one renewal may take.
    pub fn renew_request_timeout(&self) -> (timeout: Duration)
        ensures
            timeout@ == self@.timing.renew_request_timeout,
    {
        self.renew_request_timeout
    }
}

/// The wait for the lease.
#[derive(Debug)]
pub struct Acquire {
    name: String,
    identity: String,
    lease_duration: Duration,
    renew_deadline: Duration,
    retry_period: Duration,
    observe_timeout: Duration,
    observe_error_deadline: Option<Instant>,
}

/// The view of an [`Acquire`].
#[verifier::ext_equal]
pub ghost struct AcquireView {
    pub name: Seq<char>,
    pub identity: Seq<char>,
    pub lease_duration: nat,
    pub renew_deadline: nat,
    pub retry_period: nat,
    pub observe_timeout: nat,
    /// If the last attempt failed: when the wait is given up, should attempts go on failing.
    pub error_deadline: Option<nat>,
}

impl View for Acquire {
    type V = AcquireView;

    closed spec fn view(&self) -> AcquireView {
        AcquireView {
            name: self.name@,
            identity: self.identity@,
            lease_duration: self.lease_duration@,
            renew_deadline: self.renew_deadline@,
            retry_period: self.retry_period@,
            observe_timeout: self.observe_timeout@,
            error_deadline: match self.observe_error_deadline {
                Some(deadline) => Some(deadline@),
                None => None,
            },
        }
    }
}

/// The ticket to lead, which an attempt that won the lease hands out. It is good for that
/// lease only.
#[derive(Debug)]
pub struct Won {
    name: String,
    identity: String,
    lease_duration: Duration,
    renew_deadline: Duration,
}

/// The view of a [`Won`].
#[verifier::ext_equal]
pub ghost struct WonView {
    pub name: Seq<char>,
    pub identity: Seq<char>,
    pub lease_duration: nat,
    pub renew_deadline: nat,
}

impl View for Won {
    type V = WonView;

    closed spec fn view(&self) -> WonView {
        WonView {
            name: self.name@,
            identity: self.identity@,
            lease_duration: self.lease_duration@,
            renew_deadline: self.renew_deadline@,
        }
    }
}

impl WonView {
    /// The guard of the lease that was won.
    pub open spec fn guard(self) -> GuardView {
        GuardView::acquired(self.name, self.identity)
    }

    /// The loop that keeps the lease renewed from `now` on.
    pub open spec fn renewals(self, now: nat) -> LoopView {
        LoopView {
            name: self.name,
            identity: self.identity,
            lease_secs: lease_secs_of(self.lease_duration),
            renew_deadline: self.renew_deadline,
            last_renew: now,
        }
    }
}

impl Won {
    /// Starts to lead, at `now`, once the lease is won: gives the guard, the effects of that,
    /// and the loop that keeps the lease renewed.
    pub fn lead(self, now: Instant) -> (started: (LeaderGuard, Vec<Effect>, RenewLoop))
        ensures
            started.0@ == self@.guard(),
            started.1@ == seq![Effect::SetLeader(true)],
            started.2@ == self@.renewals(now@),
    {
        let (guard, effects) = LeaderGuard::acquired(self.name.as_str(), self.identity.as_str());
        let renewals = RenewLoop::new(
            self.name.as_str(),
            self.identity.as_str(),
            self.lease_duration,
            self.renew_deadline,
            now,
        );
        (guard, effects, renewals)
    }
}

/// What comes after an attempt.
#[derive(Debug)]
pub enum AcquireStep {
    /// The lease is ours.
    Acquired(Won),
    /// Try again after this time.
    Retry(Duration),
    /// Attempts have failed for too long.
    GiveUp(Error),
}

/// The view of an [`AcquireStep`].
#[verifier::ext_equal]
pub ghost enum AcquireStepView {
    Acquired(WonView),
    Retry(nat),
    GiveUp(ErrorView),
}

impl View for AcquireStep {
    type V = AcquireStepView;

    open spec fn view(&self) -> AcquireStepView {
        match *self {
            AcquireStep::Acquired(won) => AcquireStepView::Acquired(won@),
            AcquireStep::Retry(period) => AcquireStepView::Retry(period@),
            AcquireStep::GiveUp(error) => AcquireStepView::GiveUp(error@),
        }
    }
}

impl AcquireView {
    /// The ticket that an attempt hands out if it wins.
    pub open spec fn won(self) -> WonView {
        WonView {
            name: self.name,
            identity: self.identity,
            lease_duration: self.lease_duration,
            renew_deadline: self.renew_deadline,
        }
    }

    /// When the wait is given up if the attempt that ended at `now` failed, and attempts go
    /// on failing.
    pub open spec fn deadline(self, now: nat) -> nat {
        match self.error_deadline {
            Some(deadline) => deadline,
            None => now + self.observe_timeout,
        }
    }

    /// The wait after an attempt that ended at `now`.
    pub open spec fn after(self, attempt: Result<bool, ErrorView>, now: nat) -> AcquireView {
        match attempt {
            Ok(true) => self,
            Ok(false) => AcquireView { error_deadline: None, ..self },
            Err(_) => AcquireView { error_deadline: Some(self.deadline(now)), ..self },
        }
    }

    /// What comes after an attempt that ended at `now`.
    pub open spec fn step(self, attempt: Result<bool, ErrorView>, now: nat) -> AcquireStepView {
        match attempt {
            Ok(true) => AcquireStepView::Acquired(self.won()),
            Ok(false) => AcquireStepView::Retry(self.retry_period),
            Err(error) => if now >= self.deadline(now) {
                AcquireStepView::GiveUp(
                    ErrorView::ObserveTimeout(self.observe_timeout, Box::new(error)),
                )
            } else {
                AcquireStepView::Retry(self.retry_period)
            },
        }
    }
}

impl Acquire {
    /// Starts an attempt now: the lease is to be read next.
    pub fn attempt(&self) -> (attempt: Result<TryAcquire, Error>)
        ensures
            attempt_started(self@.name, self@.identity, self@.lease_duration, seen(attempt)),
            attempt_started_since(
                *self,
                self@.name,
                self@.identity,
                self@.lease_duration,
                seen(attempt),
            ),
    {
        let now = DateTime::now_since(self);
        try_acquire_at(self.name.as_str(), self.identity.as_str(), self.lease_duration, now)
    }

    /// Takes note of an attempt that ended at `now`, and says what comes next. Attempts may
    /// fail for as long as `observe_timeout`, counted from the first failure after the last
    /// attempt that did not fail.
    pub fn attempted(&mut self, attempt: Result<bool, Error>, now: Instant) -> (step: AcquireStep)
        requires
            attempt is Err ==> old(self)@.deadline(now@) <= MAX_NANOS,
        ensures
            final(self)@ == old(self)@.after(outcome(attempt), now@),
            step@ == old(self)@.step(outcome(attempt), now@),
            step is Acquired <==> attempt == Ok::<bool, Error>(true),
            attempt == Ok::<bool, Error>(false) ==> (step matches AcquireStep::Retry(period)
                && period@ == old(self)@.retry_period),
    {
        match attempt {
            Ok(true) => AcquireStep::Acquired(
                Won {
                    name: self.name.clone(),
                    identity: self.identity.clone(),
                    lease_duration: self.lease_duration,
                    renew_deadline: self.renew_deadline,
                },
            ),
            Ok(false) => {
                self.observe_error_deadline = None;
                AcquireStep::Retry(self.retry_period)
            },
            Err(error) => {
                let deadline = match self.observe_error_deadline {
                    Some(deadline) => deadline,
                    None => now.plus(self.observe_timeout),
                };
                self.observe_error_deadline = Some(deadline);
                if now.reached(deadline) {
                    AcquireStep::GiveUp(Error::ObserveTimeout(self.observe_timeout, Box::new(error)))
                } else {
                    AcquireStep::Retry(self.retry_period)
                }
            },
        }
    }
}

} // verus!
