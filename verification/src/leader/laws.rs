//! What holds of the protocol as a whole.
use crate::error::{ErrorView, KubeErrorView};
use crate::leader::attempt::AttemptView;
use crate::leader::election::{AcquireStepView, AcquireView, BuilderView, ElectionView, Timing};
use crate::leader::guard::{Effect, GuardView, Leadership};
use crate::leader::identity::IdentityView;
use crate::leader::lease::{lease_secs_of, wrap_i32, Claim, LeaseRecord, LeaseView};
use crate::leader::release::{release_outcome, release_step};
use crate::leader::renewal::{
    renewal_outcome, renewal_step, LoopView, RenewOutcome, StepDownReason, Turn,
};
use crate::leader::request::{write_outcome, StepView, WriteView, CONFLICT};
use crate::timestamp::{stamped, Moment, Stamp};
use vstd::prelude::*;

verus! {

/// A configuration is accepted exactly when the leader renews well before the lease expires,
/// tries at least as often as it must renew, does not busy-loop, and all names are there.
pub proof fn law_sound_configurations(election: ElectionView)
    ensures
        election.validated() is Ok <==> {
            &&& election.timing.renew_deadline < election.timing.lease_duration
            &&& 0 < election.timing.retry_period <= election.timing.renew_deadline
            &&& election.identity.len() > 0
            &&& election.name.len() > 0
            &&& election.namespace.len() > 0
        },
{
}

/// The default configuration is accepted, whatever the names.
pub proof fn law_defaults_are_sound(
    namespace: Seq<char>,
    name: Seq<char>,
    source: IdentityView,
    identity: Seq<char>,
)
    requires
        namespace.len() > 0,
        name.len() > 0,
        identity.len() > 0,
    ensures
        (BuilderView { namespace, name, identity: source, timing: Timing::defaults() }).built(
            identity,
        ).validated() is Ok,
{
}

/// A moment that a lease can hold comes back from it without its fraction of a second.
pub proof fn law_timestamp_roundtrip(time: Moment)
    requires
        stamped(time) is Ok,
    ensures
        stamped(time)->Ok_0.moment() == (Moment { secs: time.secs, nanos: 0 }),
        stamped(time)->Ok_0.moment().valid(),
        stamped(time)->Ok_0.valid(),
{
}

/// The record of a lease that `identity` has just written, in any of the three ways.
pub open spec fn written_by(
    record: LeaseRecord,
    before: LeaseRecord,
    identity: Seq<char>,
    lease_secs: i32,
    at: Stamp,
) -> bool {
    ||| record == LeaseRecord::created(identity, lease_secs, at)
    ||| record == before.renewed(identity, lease_secs, at)
    ||| record == before.taken_over(identity, lease_secs, at)
}

/// A replica that wrote the lease keeps all others out until the lease expires, and not
/// longer; to itself the lease is its own.
pub proof fn law_holder_excludes_others(
    record: LeaseRecord,
    before: LeaseRecord,
    holder: Seq<char>,
    lease_secs: i32,
    at: Stamp,
    other: Seq<char>,
    now: Moment,
    default_secs: i32,
)
    requires
        written_by(record, before, holder, lease_secs, at),
        holder.len() > 0,
        at.valid(),
    ensures
        record.claim(holder, now, default_secs) == Claim::Own,
        other != holder ==> record.claim(other, now, default_secs) == if now.is_after(
            at.moment().plus_seconds(lease_secs as int),
        ) {
            Claim::Free
        } else {
            Claim::Held
        },
{
}

/// Whatever an attempt writes names the replica that attempts as the holder, is good for the
/// time that it asks for, and counts from a moment that a lease can hold.
pub proof fn law_attempt_writes_its_own_claim(
    attempt: AttemptView,
    reply: Result<LeaseView, KubeErrorView>,
    now: Moment,
)
    requires
        stamped(attempt.started) is Ok,
    ensures
        attempt.fetched(reply, now) matches StepView::Send(write) ==> {
            let record = match write {
                WriteView::Create { record, .. } => record,
                WriteView::Replace { lease, .. } => lease.record(),
            };
            let before = match reply {
                Ok(lease) => lease.record(),
                Err(_) => LeaseRecord::empty(),
            };
            ||| written_by(
                record,
                before,
                attempt.identity,
                attempt.lease_secs,
                attempt.started.stamp(),
            )
            ||| {
                &&& stamped(now) is Ok
                &&& written_by(record, before, attempt.identity, attempt.lease_secs, now.stamp())
            }
        },
{
}

/// A lease that another replica holds is left alone until it expires: nothing is written, and
/// the attempt has not won.
pub proof fn law_held_lease_is_left_alone(attempt: AttemptView, lease: LeaseView, now: Moment)
    ensures
        attempt.claim(lease) == Claim::Held <==> attempt.fetched(Ok(lease), now) == (StepView::<
            bool,
        >::Finished(Ok(false))),
{
}

/// A replace carries the metadata that were read, so that the API server can refuse it if the
/// lease has been written since. This holds of attempts, renewals and releases alike.
pub proof fn law_replace_carries_what_was_read(
    attempt: AttemptView,
    name: Seq<char>,
    identity: Seq<char>,
    lease_secs: i32,
    reply: Result<LeaseView, KubeErrorView>,
    now: Moment,
)
    ensures
        attempt.fetched(reply, now) matches StepView::Send(
            WriteView::Replace { name: target, lease },
        ) ==> reply is Ok && target == attempt.name && lease.metadata == reply->Ok_0.metadata,
        renewal_step(name, identity, lease_secs, reply, now) matches StepView::Send(write) ==> {
            &&& reply is Ok
            &&& write matches WriteView::Replace { name: target, lease }
            &&& target == name
            &&& lease.metadata == reply->Ok_0.metadata
        },
        release_step(name, identity, reply) matches StepView::Send(write) ==> {
            &&& reply is Ok
            &&& write matches WriteView::Replace { name: target, lease }
            &&& target == name
            &&& lease.metadata == reply->Ok_0.metadata
        },
{
}

/// A replace that the API server accepts never displaces a holder whose lease has time left.
/// The server accepts one that carries the metadata of the lease it stores, and it gives a
/// lease new metadata with every write.
pub proof fn law_accepted_takeover_displaces_nobody(
    attempt: AttemptView,
    read: LeaseView,
    stored: LeaseView,
    now: Moment,
)
    requires
        attempt.fetched(Ok(read), now) matches StepView::Send(WriteView::Replace { lease, .. })
            && lease.metadata == stored.metadata,
        read.metadata == stored.metadata ==> read == stored,
    ensures
        attempt.claim(stored) != Claim::Held,
{
}

/// How an attempt ends: with the answer to its write, if it writes.
pub open spec fn attempt_outcome(
    attempt: AttemptView,
    reply: Result<LeaseView, KubeErrorView>,
    now: Moment,
    written: Result<(), KubeErrorView>,
) -> Result<bool, ErrorView> {
    match attempt.fetched(reply, now) {
        StepView::Finished(result) => result,
        StepView::Send(_) => write_outcome(written),
    }
}

/// An attempt wins only by a write that the API server accepted, and every accepted write wins.
pub proof fn law_attempt_wins_by_writing(
    attempt: AttemptView,
    reply: Result<LeaseView, KubeErrorView>,
    now: Moment,
    written: Result<(), KubeErrorView>,
)
    ensures
        attempt_outcome(attempt, reply, now, written) == Ok::<bool, ErrorView>(true) <==> {
            &&& attempt.fetched(reply, now) is Send
            &&& written is Ok
        },
{
}

/// A holder that attempts again renews: it stays the holder, and neither the time at which it
/// acquired the lease nor the count of holders changes, even if the lease has expired.
pub proof fn law_holder_renews(attempt: AttemptView, lease: LeaseView, now: Moment)
    requires
        lease.record().holder_identity == Some(attempt.identity),
        stamped(now) is Ok,
    ensures
        attempt.fetched(Ok(lease), now) == (StepView::<bool>::Send(
            WriteView::Replace {
                name: attempt.name,
                lease: LeaseView {
                    spec: Some(
                        LeaseRecord {
                            lease_duration_seconds: Some(attempt.lease_secs),
                            renew_time: Some(now.stamp()),
                            ..lease.record()
                        },
                    ),
                    ..lease
                },
            },
        )),
{
}

/// A takeover counts one more holder, and leaves what it does not own as it was.
pub proof fn law_takeover_counts(attempt: AttemptView, lease: LeaseView, now: Moment)
    requires
        attempt.claim(lease) == Claim::Free,
        lease.record().transitions() < i32::MAX,
    ensures
        attempt.fetched(Ok(lease), now) matches StepView::Send(
            WriteView::Replace { lease: taken, .. },
        ) && {
            &&& taken.record().transitions() == lease.record().transitions() + 1
            &&& taken.record().holder_identity == Some(attempt.identity)
            &&& taken.record().acquire_time == Some(attempt.started.stamp())
            &&& taken.record().preferred_holder == lease.record().preferred_holder
            &&& taken.record().strategy == lease.record().strategy
            &&& taken.metadata == lease.metadata
        },
{
}

/// Giving the lease up clears the holder and nothing else, and only if that is still us.
pub proof fn law_release_clears_only_ourselves(
    name: Seq<char>,
    identity: Seq<char>,
    lease: LeaseView,
)
    ensures
        release_step(name, identity, Ok(lease)) == if lease.record().holder_identity == Some(
            identity,
        ) {
            StepView::<()>::Send(
                WriteView::Replace {
                    name,
                    lease: LeaseView {
                        spec: Some(LeaseRecord { holder_identity: None, ..lease.record() }),
                        ..lease
                    },
                },
            )
        } else {
            StepView::<()>::Finished(Ok(()))
        },
{
}

/// The next replica takes over a lease that was given up at its next attempt, however fresh
/// the last renewal is. The lease may have gone through the API server, which changes its
/// metadata.
pub proof fn law_released_lease_is_taken_over_at_once(
    name: Seq<char>,
    leader: Seq<char>,
    lease: LeaseView,
    attempt: AttemptView,
    stored: LeaseView,
    now: Moment,
)
    requires
        lease.record().holder_identity == Some(leader),
        release_step(name, leader, Ok(lease)) matches StepView::Send(
            WriteView::Replace { lease: released, .. },
        ) && stored.spec == released.spec,
    ensures
        attempt.claim(stored) == Claim::Free,
        attempt.fetched(Ok(stored), now) == (StepView::<bool>::Send(
            WriteView::Replace {
                name: attempt.name,
                lease: stored.with(
                    stored.record().taken_over(
                        attempt.identity,
                        attempt.lease_secs,
                        attempt.started.stamp(),
                    ),
                ),
            },
        )),
{
}

/// A leader whose lease was taken over, or that gave it up, learns of that at its next
/// renewal, and steps down because the holder changed.
pub proof fn law_former_leader_steps_down(
    renewals: LoopView,
    stored: LeaseView,
    now: Moment,
    ended: nat,
)
    requires
        stored.record().holder_identity != Some(renewals.identity),
    ensures
        renewal_step(renewals.name, renewals.identity, renewals.lease_secs, Ok(stored), now)
            == StepView::Finished(Ok::<RenewOutcome, ErrorView>(RenewOutcome::Lost)),
        renewals.verdict(Turn::Lost, ended) == Some(StepDownReason::HolderChanged),
{
}

/// A conflict is not the end of anything: an attempt has not won and is repeated, a renewal
/// has failed and is retried, a release is done.
pub proof fn law_conflict_ends_nothing(error: KubeErrorView)
    requires
        error.has_code(CONFLICT),
    ensures
        write_outcome(Err(error)) == Ok::<bool, ErrorView>(false),
        renewal_outcome(Err(error)) == Err::<RenewOutcome, ErrorView>(ErrorView::Kube(error)),
        release_outcome(Err(error)) == Ok::<(), ErrorView>(()),
{
}

/// Any other failure of a write surfaces as it is.
pub proof fn law_other_failures_surface(error: KubeErrorView)
    requires
        !error.has_code(CONFLICT),
    ensures
        write_outcome(Err(error)) == Err::<bool, ErrorView>(ErrorView::Kube(error)),
        renewal_outcome(Err(error)) == Err::<RenewOutcome, ErrorView>(ErrorView::Kube(error)),
        release_outcome(Err(error)) == Err::<(), ErrorView>(ErrorView::Kube(error)),
{
}

/// The loop after a run of turns, each with the time at which it ended.
pub open spec fn loop_after(renewals: LoopView, turns: Seq<(Turn, nat)>) -> LoopView
    decreases turns.len(),
{
    if turns.len() == 0 {
        renewals
    } else {
        loop_after(renewals, turns.drop_last()).after(turns.last().0, turns.last().1)
    }
}

/// When the last successful turn ended, if the lease was acquired at `acquired`.
pub open spec fn last_success(acquired: nat, turns: Seq<(Turn, nat)>) -> nat
    decreases turns.len(),
{
    if turns.len() == 0 {
        acquired
    } else if turns.last().0 is Renewed {
        turns.last().1
    } else {
        last_success(acquired, turns.drop_last())
    }
}

/// After any run of turns, a failed turn makes the leader step down exactly when more than
/// `renew_deadline` has passed since the last success, and never before.
pub proof fn law_only_sustained_failure_steps_down(
    renewals: LoopView,
    turns: Seq<(Turn, nat)>,
    now: nat,
)
    ensures
        loop_after(renewals, turns) == (LoopView {
            last_renew: last_success(renewals.last_renew, turns),
            ..renewals
        }),
        loop_after(renewals, turns).verdict(Turn::Failed, now) == if now > last_success(
            renewals.last_renew,
            turns,
        ) + renewals.renew_deadline {
            Some(StepDownReason::RenewDeadlineExceeded)
        } else {
            None
        },
    decreases turns.len(),
{
    if turns.len() > 0 {
        law_only_sustained_failure_steps_down(renewals, turns.drop_last(), now);
    }
}

/// Nanoseconds since the Unix epoch.
pub open spec fn nanos_of(time: Moment) -> int {
    time.secs * 1_000_000_000 + time.nanos
}

/// After any run of turns, a leader that cannot renew goes on until its deadline, and at the
/// deadline, or later, a turn that has not succeeded ends its leadership.
pub proof fn law_failing_leader_stops_at_its_deadline(
    renewals: LoopView,
    turns: Seq<(Turn, nat)>,
    now: nat,
    guard: GuardView,
)
    ensures
        loop_after(renewals, turns).deadline() == last_success(renewals.last_renew, turns)
            + renewals.renew_deadline + 1,
        loop_after(renewals, turns).verdict(Turn::Failed, now) == if now >= loop_after(
            renewals,
            turns,
        ).deadline() {
            Some(StepDownReason::RenewDeadlineExceeded)
        } else {
            None
        },
        !guard.ended(StepDownReason::RenewDeadlineExceeded).leadership().leader,
{
    law_only_sustained_failure_steps_down(renewals, turns, now);
}

/// In an accepted configuration the deadline of a leader that cannot renew comes no later than
/// `lease_duration` after its last success.
pub proof fn law_deadline_comes_within_the_lease(election: ElectionView, renewals: LoopView)
    requires
        election.validated() is Ok,
        renewals.renew_deadline == election.timing.renew_deadline,
    ensures
        renewals.deadline() <= renewals.last_renew + election.timing.lease_duration,
        renewals.verdict(
            Turn::Failed,
            renewals.last_renew + election.timing.lease_duration,
        ) == Some(StepDownReason::RenewDeadlineExceeded),
{
}

/// The lease stays closed to all others for as long as a leader that cannot renew goes on. Say
/// that it last wrote the lease at `written`, took note of the success `latency` later, and
/// stops no more than `slack` after `renew_deadline` is over: at its deadline, if `slack` is
/// one nanosecond. Then up to that time, `elapsed` after the write, nobody else may claim the
/// lease. This needs the window that the write leaves: the whole seconds of `lease_duration`,
/// less the fraction of a second that the lease does not hold, must cover `latency`,
/// `renew_deadline` and `slack`.
pub proof fn law_grace_window(
    lease_duration: nat,
    renewals: LoopView,
    record: LeaseRecord,
    before: LeaseRecord,
    written: Moment,
    latency: nat,
    slack: nat,
    elapsed: nat,
    other: Seq<char>,
    now: Moment,
    default_secs: i32,
)
    requires
        renewals.lease_secs == lease_secs_of(lease_duration),
        written_by(record, before, renewals.identity, renewals.lease_secs, written.stamp()),
        lease_duration / 1_000_000_000 <= i32::MAX,
        renewals.identity.len() > 0,
        other != renewals.identity,
        written.on_clock(),
        stamped(written) is Ok,
        now.on_clock(),
        nanos_of(now) == nanos_of(written) + elapsed,
        written.nanos + latency + renewals.renew_deadline + slack <= (lease_duration
            / 1_000_000_000) * 1_000_000_000,
        elapsed <= latency + renewals.renew_deadline + slack,
    ensures
        record.claim(other, now, default_secs) == Claim::Held,
{
    let secs = (lease_duration / 1_000_000_000) as int;
    assert(wrap_i32(secs) == secs);
    assert(nanos_of(now) <= written.secs * 1_000_000_000 + secs * 1_000_000_000);
}

/// With the default spans of time, a leader that cannot renew and stops at its deadline does so
/// while the lease is closed to all others, if it took note of its last success less than five
/// seconds after the whole second in which it wrote the lease.
pub proof fn law_default_grace_window(
    renewals: LoopView,
    record: LeaseRecord,
    before: LeaseRecord,
    written: Moment,
    latency: nat,
    elapsed: nat,
    other: Seq<char>,
    now: Moment,
    default_secs: i32,
)
    requires
        renewals.lease_secs == lease_secs_of(Timing::defaults().lease_duration),
        renewals.renew_deadline == Timing::defaults().renew_deadline,
        written_by(record, before, renewals.identity, renewals.lease_secs, written.stamp()),
        renewals.identity.len() > 0,
        other != renewals.identity,
        written.on_clock(),
        stamped(written) is Ok,
        now.on_clock(),
        nanos_of(now) == nanos_of(written) + elapsed,
        written.nanos + latency < 5_000_000_000,
        latency <= renewals.last_renew,
        renewals.last_renew - latency + elapsed <= renewals.deadline(),
    ensures
        record.claim(other, now, default_secs) == Claim::Held,
        renewals.verdict(Turn::Failed, renewals.deadline()) == Some(
            StepDownReason::RenewDeadlineExceeded,
        ),
{
    law_grace_window(
        Timing::defaults().lease_duration,
        renewals,
        record,
        before,
        written,
        latency,
        1,
        elapsed,
        other,
        now,
        default_secs,
    );
}

/// The wait for the lease after a run of attempts, each with the time at which it ended.
pub open spec fn wait_after(
    wait: AcquireView,
    attempts: Seq<(Result<bool, ErrorView>, nat)>,
) -> AcquireView
    decreases attempts.len(),
{
    if attempts.len() == 0 {
        wait
    } else {
        wait_after(wait, attempts.drop_last()).after(attempts.last().0, attempts.last().1)
    }
}

/// Whatever attempts came before, an attempt that wins makes the replica lead what its own
/// election is about: that lease, under that identity and with those spans of time.
pub proof fn law_winner_leads_its_own_election(
    election: ElectionView,
    attempts: Seq<(Result<bool, ErrorView>, nat)>,
    now: nat,
    started: nat,
)
    ensures
        wait_after(election.waiting(), attempts).step(Ok(true), now) == AcquireStepView::Acquired(
            election.waiting().won(),
        ),
        election.waiting().won().guard() == GuardView::acquired(election.name, election.identity),
        election.waiting().won().renewals(started) == (LoopView {
            name: election.name,
            identity: election.identity,
            lease_secs: lease_secs_of(election.timing.lease_duration),
            renew_deadline: election.timing.renew_deadline,
            last_renew: started,
        }),
    decreases attempts.len(),
{
    if attempts.len() > 0 {
        law_winner_leads_its_own_election(election, attempts.drop_last(), now, started);
    }
}

/// When the first of the failures ended that a run of attempts ends with, if any.
pub open spec fn failing_since(attempts: Seq<(Result<bool, ErrorView>, nat)>) -> Option<nat>
    decreases attempts.len(),
{
    if attempts.len() == 0 || attempts.last().0 is Ok {
        None
    } else {
        match failing_since(attempts.drop_last()) {
            Some(since) => Some(since),
            None => Some(attempts.last().1),
        }
    }
}

/// The wait for the lease is given up exactly when an attempt fails and attempts have done
/// nothing but fail for at least `observe_timeout`; the error holds that last failure. Any
/// attempt that does not fail starts the count anew.
pub proof fn law_wait_outlasts_short_outages(
    wait: AcquireView,
    attempts: Seq<(Result<bool, ErrorView>, nat)>,
    error: ErrorView,
    now: nat,
)
    requires
        wait.error_deadline is None,
        forall|i: int|
            0 <= i < attempts.len() ==> (#[trigger] attempts[i]).0 != Ok::<bool, ErrorView>(true),
    ensures
        wait_after(wait, attempts) == (AcquireView {
            error_deadline: match failing_since(attempts) {
                Some(since) => Some(since + wait.observe_timeout),
                None => None,
            },
            ..wait
        }),
        wait_after(wait, attempts).step(Err(error), now) == if now >= (match failing_since(
            attempts,
        ) {
            Some(since) => since,
            None => now,
        }) + wait.observe_timeout {
            AcquireStepView::GiveUp(
                ErrorView::ObserveTimeout(wait.observe_timeout, Box::new(error)),
            )
        } else {
            AcquireStepView::Retry(wait.retry_period)
        },
    decreases attempts.len(),
{
    if attempts.len() > 0 {
        law_wait_outlasts_short_outages(wait, attempts.drop_last(), error, now);
        assert(attempts.last() == attempts[attempts.len() - 1]);
    }
}

/// Whether nobody learns of a loss while a state still says that we lead.
pub open spec fn unready_if_lost(leadership: Leadership) -> bool {
    leadership.lost is Some ==> !leadership.leader
}

/// Performing the first `done` effects, one by one.
proof fn lemma_perform_prefix(leadership: Leadership, effects: Seq<Effect>, done: int)
    requires
        0 <= done <= effects.len(),
    ensures
        done == 0 ==> leadership.perform_all(effects.take(done)) == leadership,
        done > 0 ==> leadership.perform_all(effects.take(done)) == leadership.perform_all(
            effects.take(done - 1),
        ).perform(effects[done - 1]),
        done == effects.len() ==> effects.take(done) == effects,
{
    if done > 0 {
        assert(effects.take(done).drop_last() == effects.take(done - 1));
    }
}

/// Effects that never claim the leadership, and that end it before anything else if it has
/// not ended yet, announce no loss too early.
proof fn lemma_no_loss_too_early(leadership: Leadership, effects: Seq<Effect>, done: int)
    requires
        0 <= done <= effects.len(),
        forall|i: int|
            0 <= i < effects.len() ==> #[trigger] effects[i] != Effect::SetLeader(true),
        leadership.leader ==> leadership.lost is None,
        leadership.leader && effects.len() > 0 ==> effects[0] == Effect::SetLeader(false),
    ensures
        unready_if_lost(leadership.perform_all(effects.take(done))),
        !leadership.leader || done > 0 ==> !leadership.perform_all(effects.take(done)).leader,
    decreases done,
{
    lemma_perform_prefix(leadership, effects, done);
    if done > 0 {
        lemma_no_loss_too_early(leadership, effects, done - 1);
    }
}

/// What is seen once up to four effects are performed.
proof fn lemma_perform_few(leadership: Leadership, effects: Seq<Effect>)
    requires
        effects.len() <= 4,
    ensures
        effects.len() == 0 ==> leadership.perform_all(effects) == leadership,
        effects.len() == 1 ==> leadership.perform_all(effects) == leadership.perform(effects[0]),
        effects.len() == 2 ==> leadership.perform_all(effects) == leadership.perform(
            effects[0],
        ).perform(effects[1]),
        effects.len() == 3 ==> leadership.perform_all(effects) == leadership.perform(
            effects[0],
        ).perform(effects[1]).perform(effects[2]),
        effects.len() == 4 ==> leadership.perform_all(effects) == leadership.perform(
            effects[0],
        ).perform(effects[1]).perform(effects[2]).perform(effects[3]),
{
    reveal_with_fuel(Leadership::perform_all, 5);
}

/// What a state says after a run of effects, if it said `leading` before.
pub open spec fn says_after(leading: bool, effects: Seq<Effect>) -> bool
    decreases effects.len(),
{
    if effects.len() == 0 {
        leading
    } else {
        effects.last().leads_after(says_after(leading, effects.drop_last()))
    }
}

/// A state that takes note of every effect says what is seen of the leadership.
pub proof fn law_states_say_what_is_seen(leadership: Leadership, effects: Seq<Effect>)
    ensures
        says_after(leadership.leader, effects) == leadership.perform_all(effects).leader,
    decreases effects.len(),
{
    if effects.len() > 0 {
        law_states_say_what_is_seen(leadership, effects.drop_last());
    }
}

/// Every state says that we lead once the effect of acquiring the lease is performed: then all
/// see what the guard says.
pub proof fn law_ready_once_acquired(name: Seq<char>, identity: Seq<char>)
    ensures
        !Leadership::standby().leader,
        Leadership::standby().perform_all(seq![Effect::SetLeader(true)]) == GuardView::acquired(
            name,
            identity,
        ).leadership(),
        GuardView::acquired(name, identity).leadership().leader,
        GuardView::acquired(name, identity).valid(),
{
    lemma_perform_few(Leadership::standby(), seq![Effect::SetLeader(true)]);
}

/// However a leadership ends, every state says so before anybody learns of the loss: this
/// holds after each of the effects, and after the last one all see what the guard says.
pub proof fn law_unready_before_lost(guard: GuardView, reason: StepDownReason, done: int)
    ensures
        0 <= done <= guard.stop_effects(reason).len() ==> unready_if_lost(
            guard.leadership().perform_all(guard.stop_effects(reason).take(done)),
        ),
        0 <= done <= guard.step_down_effects().len() ==> unready_if_lost(
            guard.leadership().perform_all(guard.step_down_effects().take(done)),
        ),
        guard.leadership().perform_all(guard.stop_effects(reason)) == guard.ended(
            reason,
        ).leadership(),
        guard.leadership().perform_all(guard.step_down_effects()) == guard.let_go().leadership(),
{
    let before = guard.leadership();
    let stop = guard.stop_effects(reason);
    let step_down = guard.step_down_effects();
    if 0 <= done <= stop.len() {
        lemma_no_loss_too_early(before, stop, done);
    }
    if 0 <= done <= step_down.len() {
        lemma_no_loss_too_early(before, step_down, done);
    }
    lemma_perform_few(before, stop);
    lemma_perform_few(before, step_down);
}

/// A guard that steps down or is dropped gives its lease up, once and as the last thing it
/// does: if the lease still names it as the holder, the name is cleared.
pub proof fn law_leaving_guard_gives_the_lease_up(guard: GuardView, lease: LeaseView)
    requires
        guard.renewing,
    ensures
        guard.step_down_effects().last() == Effect::ReleaseLease,
        !guard.step_down_effects().drop_last().contains(Effect::ReleaseLease),
        lease.record().holder_identity == Some(guard.identity) ==> release_step(
            guard.name,
            guard.identity,
            Ok(lease),
        ) == (StepView::<()>::Send(
            WriteView::Replace { name: guard.name, lease: lease.with(lease.record().released()) },
        )),
{
}

/// Stepping down is done once: after that, stepping down again or dropping the guard does
/// nothing.
pub proof fn law_step_down_is_idempotent(guard: GuardView)
    ensures
        guard.let_go().step_down_effects() == Seq::<Effect>::empty(),
        guard.let_go().let_go() == guard.let_go(),
{
}

/// Once lost, always lost: the reason for the loss does not change any more, and whoever
/// asks for it later gets it too. A guard that steps down while it leads is cancelled.
pub proof fn law_loss_is_final(guard: GuardView, reason: StepDownReason)
    requires
        guard.valid(),
    ensures
        guard.lost is Some ==> guard.ended(reason).lost == guard.lost,
        guard.lost is Some ==> guard.let_go().lost == guard.lost,
        guard.lost is None ==> guard.ended(reason).lost == Some(reason),
        guard.lost is None ==> guard.let_go().lost == Some(StepDownReason::Cancelled),
        !guard.let_go().leadership().leader,
        guard.ended(reason).valid(),
        guard.let_go().valid(),
{
}

} // verus!
