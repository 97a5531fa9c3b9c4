//! What each operation of the protocol does, in terms of the fields and numbers that go in and
//! come out.
use crate::error::{ErrorView, InvalidConfigView, KubeError, KubeErrorView};
use crate::leader::attempt::{attempt_fetched, attempt_start, attempt_started, AttemptView};
use crate::leader::election::{
    AcquireStep, AcquireStepView, AcquireView, BuilderView, ElectionView, Timing,
};
use crate::leader::guard::{Effect, GuardView, Leadership};
use crate::leader::identity::{Identity, IdentityView};
use crate::leader::laws::{
    last_success, law_only_sustained_failure_steps_down, loop_after, wait_after,
};
use crate::leader::lease::{lease_secs_of, Claim, Lease, LeaseRecord, LeaseSpec, LeaseView};
use crate::leader::release::{release_outcome, release_step};
use crate::leader::renewal::{
    renewal_outcome, renewal_step, renewal_stepped, LoopView, RenewEvent, RenewOutcome,
    StepDownReason, Turn,
};
use crate::leader::request::{write_outcome, Step, StepView, Write, WriteView};
use crate::outside::shown;
use crate::timestamp::{shown_since, Moment, Stamp, TIMESTAMP_RANGE_TEXT};
use vstd::prelude::*;

verus! {

// Leases.

/// A lease holds the whole seconds of its duration, up to 32 bits of them.
pub proof fn law_leases_last_whole_seconds(lease_duration: nat)
    ensures
        lease_duration < 2_147_483_648_000_000_000 ==> lease_secs_of(lease_duration)
            * 1_000_000_000 <= lease_duration < (lease_secs_of(lease_duration) + 1)
            * 1_000_000_000,
        (lease_duration / 1_000_000_000 - lease_secs_of(lease_duration)) % 0x1_0000_0000 == 0,
{
}

/// The view of a lease is what its fields hold.
pub proof fn law_leases_are_seen_in_full(lease: Lease, spec: LeaseSpec)
    ensures
        lease@.metadata == lease.metadata,
        lease.spec matches Some(held) ==> lease@.spec == Some(held@),
        lease.spec is None ==> lease@.spec is None,
        spec@.lease_duration_seconds == spec.lease_duration_seconds,
        spec@.lease_transitions == spec.lease_transitions,
        spec.holder_identity matches Some(holder) ==> spec@.holder_identity == Some(holder@),
        spec.holder_identity is None ==> spec@.holder_identity is None,
        spec.preferred_holder matches Some(holder) ==> spec@.preferred_holder == Some(holder@),
        spec.preferred_holder is None ==> spec@.preferred_holder is None,
        spec.strategy matches Some(strategy) ==> spec@.strategy == Some(strategy@),
        spec.strategy is None ==> spec@.strategy is None,
        spec.acquire_time matches Some(at) ==> spec@.acquire_time == Some(at@),
        spec.acquire_time is None ==> spec@.acquire_time is None,
        spec.renew_time matches Some(at) ==> spec@.renew_time == Some(at@),
        spec.renew_time is None ==> spec@.renew_time is None,
{
}

/// A lease without a record says nothing; putting a record in changes the record only.
pub proof fn law_leases_carry_one_record(lease: LeaseView, record: LeaseRecord)
    ensures
        lease.spec matches Some(held) ==> lease.record() == held,
        lease.spec is None ==> {
            &&& lease.record().holder_identity is None
            &&& lease.record().lease_duration_seconds is None
            &&& lease.record().acquire_time is None
            &&& lease.record().renew_time is None
            &&& lease.record().lease_transitions is None
            &&& lease.record().preferred_holder is None
            &&& lease.record().strategy is None
        },
        lease.with(record).spec == Some(record),
        lease.with(record).metadata == lease.metadata,
{
}

/// What each kind of write makes of a record, field by field.
pub proof fn law_records_are_written_field_by_field(
    record: LeaseRecord,
    identity: Seq<char>,
    lease_secs: i32,
    at: Stamp,
)
    ensures
        ({
            let new = LeaseRecord::created(identity, lease_secs, at);
            &&& new.holder_identity == Some(identity)
            &&& new.lease_duration_seconds == Some(lease_secs)
            &&& new.acquire_time == Some(at)
            &&& new.renew_time == Some(at)
            &&& new.lease_transitions == Some(0i32)
            &&& new.preferred_holder is None
            &&& new.strategy is None
        }),
        ({
            let new = record.renewed(identity, lease_secs, at);
            &&& new.holder_identity == Some(identity)
            &&& new.lease_duration_seconds == Some(lease_secs)
            &&& new.acquire_time == record.acquire_time
            &&& new.renew_time == Some(at)
            &&& new.lease_transitions == record.lease_transitions
            &&& new.preferred_holder == record.preferred_holder
            &&& new.strategy == record.strategy
        }),
        ({
            let new = record.taken_over(identity, lease_secs, at);
            &&& new.holder_identity == Some(identity)
            &&& new.lease_duration_seconds == Some(lease_secs)
            &&& new.acquire_time == Some(at)
            &&& new.renew_time == Some(at)
            &&& record.lease_transitions is None ==> new.lease_transitions == Some(1i32)
            &&& record.lease_transitions matches Some(count) ==> count < i32::MAX ==> (
            new.lease_transitions matches Some(counted) && counted == count + 1)
            &&& new.preferred_holder == record.preferred_holder
            &&& new.strategy == record.strategy
        }),
        ({
            let new = record.released();
            &&& new.holder_identity is None
            &&& new.lease_duration_seconds == record.lease_duration_seconds
            &&& new.acquire_time == record.acquire_time
            &&& new.renew_time == record.renew_time
            &&& new.lease_transitions == record.lease_transitions
            &&& new.preferred_holder == record.preferred_holder
            &&& new.strategy == record.strategy
        }),
        record.lease_transitions matches Some(count) ==> record.transitions() == count,
        record.lease_transitions is None ==> record.transitions() == 0,
{
}

/// The whole seconds for which a lease is good after its last renewal.
pub open spec fn good_for(record: LeaseRecord, default_secs: i32) -> int {
    match record.lease_duration_seconds {
        Some(secs) => secs as int,
        None => default_secs as int,
    }
}

/// Whether the time for which a lease is good, counted from its last renewal, is over before
/// `now`.
pub open spec fn ends_before(record: LeaseRecord, now: Moment, default_secs: i32) -> bool {
    record.renew_time matches Some(at) && {
        let end = at.second + good_for(record, default_secs);
        now.secs > end || (now.secs == end && now.nanos > 0)
    }
}

/// A replica owns a lease that names it as the holder. To it any other lease is free if nobody
/// is named, or if the holder did not renew it in the time for which it is good, however long
/// ago that was; otherwise it is held.
pub proof fn law_claims_turn_on_holder_and_time(
    record: LeaseRecord,
    identity: Seq<char>,
    now: Moment,
    default_secs: i32,
)
    requires
        record.renew_time matches Some(at) ==> at.valid(),
        0 <= now.nanos,
    ensures
        record.claim(identity, now, default_secs) == Claim::Own <==> record.holder_identity == Some(
            identity,
        ),
        record.holder_identity is None ==> record.claim(identity, now, default_secs)
            == Claim::Free,
        record.holder_identity matches Some(holder) ==> {
            &&& holder.len() == 0 && holder != identity ==> record.claim(
                identity,
                now,
                default_secs,
            ) == Claim::Free
            &&& holder.len() > 0 && holder != identity && record.renew_time is None
                ==> record.claim(identity, now, default_secs) == Claim::Free
        },
        record.holder_identity matches Some(holder) ==> record.renew_time matches Some(at) ==> {
            let end = at.second + good_for(record, default_secs);
            holder.len() > 0 && holder != identity ==> {
                &&& record.claim(identity, now, default_secs) == Claim::Free <==> now.secs > end
                    || (now.secs == end && now.nanos > 0)
                &&& now.nanos < 1_000_000_000 ==> (record.claim(identity, now, default_secs)
                    == Claim::Free <==> now.secs * 1_000_000_000 + now.nanos > end
                    * 1_000_000_000)
            }
        },
{
}

/// A lease that is free stays so as time goes on, until somebody writes it.
pub proof fn law_free_leases_stay_free(
    record: LeaseRecord,
    identity: Seq<char>,
    now: Moment,
    later: Moment,
    default_secs: i32,
)
    requires
        later.secs > now.secs || (later.secs == now.secs && later.nanos >= now.nanos),
        record.claim(identity, now, default_secs) == Claim::Free,
    ensures
        record.claim(identity, later, default_secs) == Claim::Free,
{
}

// Attempts.

/// An attempt starts under the name, the identity and the duration that it is given, unless a
/// lease cannot hold the time.
pub proof fn law_attempts_start_as_they_are_told(
    name: Seq<char>,
    identity: Seq<char>,
    lease_duration: nat,
    now: Moment,
)
    ensures
        attempt_start(name, identity, lease_duration, now) is Ok <==> -377_705_023_201 <= now.secs
            <= 253_402_207_200,
        attempt_start(name, identity, lease_duration, now) matches Ok(attempt) ==> {
            &&& attempt.name == name
            &&& attempt.identity == identity
            &&& attempt.lease_secs == lease_secs_of(lease_duration)
            &&& attempt.started == now
        },
        attempt_start(name, identity, lease_duration, now) matches Err(error) ==> error
            == ErrorView::Timestamp(TIMESTAMP_RANGE_TEXT@),
{
}

/// An attempt that reads the clock starts at a moment that the clock showed.
pub proof fn law_attempts_start_when_the_clock_says(
    name: Seq<char>,
    identity: Seq<char>,
    lease_duration: nat,
    attempt: Result<AttemptView, ErrorView>,
)
    requires
        attempt_started(name, identity, lease_duration, attempt),
    ensures
        attempt matches Ok(started) ==> shown(started.started) && started.started.secs >= 0
            && started.name == name && started.identity == identity,
        attempt is Err ==> exists|now: Moment| #[trigger]
            shown(now) && now.secs > 253_402_207_200,
{
    let now = choose|now: Moment|
        now.on_clock() && shown(now) && attempt == #[trigger] attempt_start(
            name,
            identity,
            lease_duration,
            now,
        );
    assert(shown(now));
}

/// An attempt finds a lease to be what its own identity finds it to be when it started, with
/// its own duration for a lease that says none.
pub proof fn law_attempts_claim_for_themselves(attempt: AttemptView, lease: LeaseView)
    ensures
        attempt.claim(lease) == lease.record().claim(
            attempt.identity,
            attempt.started,
            attempt.lease_secs,
        ),
{
}

/// A lease that does not exist is created: held by the replica, from the second at which the
/// attempt started, with no holder before it.
pub proof fn law_absent_lease_is_created(attempt: AttemptView, error: KubeErrorView, now: Moment)
    requires
        error matches KubeErrorView::Api { code, .. } && code == 404,
    ensures
        attempt.fetched(Err(error), now) matches StepView::Send(
            WriteView::Create { name, record },
        ) && {
            &&& name == attempt.name
            &&& record.holder_identity == Some(attempt.identity)
            &&& record.lease_duration_seconds == Some(attempt.lease_secs)
            &&& record.acquire_time == Some(Stamp { second: attempt.started.secs, nanosecond: 0 })
            &&& record.renew_time == record.acquire_time
            &&& record.lease_transitions == Some(0i32)
            &&& record.preferred_holder is None
            &&& record.strategy is None
        },
{
}

/// Any other failure to read the lease ends the attempt with that failure.
pub proof fn law_failed_read_ends_the_attempt(
    attempt: AttemptView,
    error: KubeErrorView,
    now: Moment,
)
    requires
        error matches KubeErrorView::Api { code, .. } ==> code != 404,
    ensures
        attempt.fetched(Err(error), now) == StepView::Finished(
            Err::<bool, ErrorView>(ErrorView::Kube(error)),
        ),
{
}

/// A lease that names nobody, or whose holder has not renewed it in time, is taken over: the
/// replica becomes its holder from the second at which the attempt started, one more holder is
/// counted, and all else stays.
pub proof fn law_free_lease_is_taken_over(attempt: AttemptView, lease: LeaseView, now: Moment)
    requires
        lease.record().renew_time matches Some(at) ==> at.valid(),
        lease.record().holder_identity != Some(attempt.identity),
        ({
            ||| lease.record().holder_identity is None
            ||| lease.record().holder_identity->Some_0.len() == 0
            ||| lease.record().renew_time is None
            ||| ends_before(lease.record(), attempt.started, attempt.lease_secs)
        }),
        lease.record().lease_transitions != Some(i32::MAX),
    ensures
        attempt.fetched(Ok(lease), now) matches StepView::Send(
            WriteView::Replace { name, lease: taken },
        ) && taken.spec matches Some(record) && {
            &&& name == attempt.name
            &&& taken.metadata == lease.metadata
            &&& record.holder_identity == Some(attempt.identity)
            &&& record.lease_duration_seconds == Some(attempt.lease_secs)
            &&& record.acquire_time == Some(Stamp { second: attempt.started.secs, nanosecond: 0 })
            &&& record.renew_time == record.acquire_time
            &&& lease.record().lease_transitions is None ==> record.lease_transitions == Some(1i32)
            &&& lease.record().lease_transitions matches Some(count)
                ==> record.lease_transitions == Some((count + 1) as i32)
            &&& record.preferred_holder == lease.record().preferred_holder
            &&& record.strategy == lease.record().strategy
        },
{
}

/// A lease whose holder has time left is not written, and the attempt has not won.
pub proof fn law_live_holder_is_left_alone(attempt: AttemptView, lease: LeaseView, now: Moment)
    requires
        lease.record().holder_identity matches Some(holder) && holder.len() > 0 && holder
            != attempt.identity,
        lease.record().renew_time matches Some(at) && at.valid(),
        0 <= attempt.started.nanos,
        !ends_before(lease.record(), attempt.started, attempt.lease_secs),
    ensures
        attempt.fetched(Ok(lease), now) == StepView::Finished(Ok::<bool, ErrorView>(false)),
{
}

/// Our own lease is renewed at the second that the clock shows once it has been read; if a
/// lease cannot hold that second, the attempt fails.
pub proof fn law_own_lease_is_renewed(attempt: AttemptView, lease: LeaseView, now: Moment)
    requires
        lease.record().holder_identity == Some(attempt.identity),
    ensures
        -377_705_023_201 <= now.secs <= 253_402_207_200 ==> (attempt.fetched(
            Ok(lease),
            now,
        ) matches StepView::Send(WriteView::Replace { name, lease: renewed })
            && renewed.spec matches Some(record) && {
            &&& name == attempt.name
            &&& renewed.metadata == lease.metadata
            &&& record.holder_identity == Some(attempt.identity)
            &&& record.lease_duration_seconds == Some(attempt.lease_secs)
            &&& record.acquire_time == lease.record().acquire_time
            &&& record.renew_time == Some(Stamp { second: now.secs, nanosecond: 0 })
            &&& record.lease_transitions == lease.record().lease_transitions
            &&& record.preferred_holder == lease.record().preferred_holder
            &&& record.strategy == lease.record().strategy
        }),
        !(-377_705_023_201 <= now.secs <= 253_402_207_200) ==> attempt.fetched(Ok(lease), now)
            == StepView::Finished(
            Err::<bool, ErrorView>(ErrorView::Timestamp(TIMESTAMP_RANGE_TEXT@)),
        ),
{
}

/// The only read that an attempt cannot go on from is that of a lease which it would take over,
/// and whose count of holders is full.
pub proof fn law_only_a_full_count_stops_an_attempt(
    attempt: AttemptView,
    reply: Result<LeaseView, KubeErrorView>,
)
    ensures
        !attempt.countable(reply) ==> {
            &&& reply is Ok
            &&& reply->Ok_0.record().lease_transitions == Some(i32::MAX)
            &&& reply->Ok_0.record().holder_identity != Some(attempt.identity)
        },
{
}

/// An attempt that finds its own lease renews it at a second that the clock showed once the
/// lease had been read. At that moment nobody else may claim the lease.
pub proof fn law_own_lease_is_renewed_by_the_clock(
    attempt: AttemptView,
    lease: Lease,
    step: StepView<bool>,
    other: Seq<char>,
    default_secs: i32,
)
    requires
        lease@.record().holder_identity == Some(attempt.identity),
        attempt_fetched(attempt, Ok(lease), step),
        attempt.lease_secs > 0,
        attempt.identity.len() > 0,
        other != attempt.identity,
    ensures
        exists|now: Moment| #[trigger]
            shown_since(Ok::<Lease, KubeError>(lease), now) && written_at(step, now)
                && closed_to(step, other, now, default_secs),
{
    let reply: Result<Lease, KubeError> = Ok(lease);
    let now = choose|now: Moment|
        now.on_clock() && shown_since(reply, now) && step == #[trigger] attempt.fetched(
            Ok(lease@),
            now,
        );
    assert(shown_since(reply, now));
}

// Renewals.

/// Whether a step that writes writes the second of `now` as the time of the last renewal. A step
/// that does not write fails, because a lease cannot hold that second.
pub open spec fn written_at<T>(step: StepView<T>, now: Moment) -> bool {
    match step {
        StepView::Send(WriteView::Replace { lease, .. }) => lease.record().renew_time == Some(
            Stamp { second: now.secs, nanosecond: 0 },
        ),
        StepView::Send(WriteView::Create { .. }) => false,
        StepView::Finished(_) => now.secs > 253_402_207_200,
    }
}

/// Whether the lease that a step writes, if it does, is held to `other` at `now`.
pub open spec fn closed_to<T>(
    step: StepView<T>,
    other: Seq<char>,
    now: Moment,
    default_secs: i32,
) -> bool {
    step matches StepView::Send(WriteView::Replace { lease, .. }) ==> lease.record().claim(
        other,
        now,
        default_secs,
    ) == Claim::Held
}

/// A renewal writes the second that the clock showed once the lease had been read: no moment of
/// its own choice. So the lease is closed to all others at that moment.
pub proof fn law_renewals_are_timed_by_the_clock(
    name: Seq<char>,
    identity: Seq<char>,
    lease_secs: i32,
    lease: Lease,
    step: StepView<RenewOutcome>,
    other: Seq<char>,
    default_secs: i32,
)
    requires
        lease@.record().holder_identity == Some(identity),
        renewal_stepped(name, identity, lease_secs, Ok(lease), step),
        lease_secs > 0,
        identity.len() > 0,
        other != identity,
    ensures
        exists|now: Moment| #[trigger]
            shown_since(Ok::<Lease, KubeError>(lease), now) && written_at(step, now)
                && closed_to(step, other, now, default_secs),
{
    let reply: Result<Lease, KubeError> = Ok(lease);
    let now = choose|now: Moment|
        now.on_clock() && shown_since(reply, now) && step == #[trigger] renewal_step(
            name,
            identity,
            lease_secs,
            Ok(lease@),
            now,
        );
    assert(shown_since(reply, now));
}

/// A renewal of a lease that names us writes it back with the second of `now` and our duration,
/// and with all else as it was; if a lease cannot hold that second, the renewal fails.
pub proof fn law_renewals_change_the_time_only(
    name: Seq<char>,
    identity: Seq<char>,
    lease_secs: i32,
    lease: LeaseView,
    now: Moment,
)
    requires
        lease.record().holder_identity == Some(identity),
    ensures
        -377_705_023_201 <= now.secs <= 253_402_207_200 ==> (renewal_step(
            name,
            identity,
            lease_secs,
            Ok(lease),
            now,
        ) matches StepView::Send(WriteView::Replace { name: target, lease: renewed })
            && renewed.spec matches Some(record) && {
            &&& target == name
            &&& renewed.metadata == lease.metadata
            &&& record.holder_identity == Some(identity)
            &&& record.lease_duration_seconds == Some(lease_secs)
            &&& record.acquire_time == lease.record().acquire_time
            &&& record.renew_time == Some(Stamp { second: now.secs, nanosecond: 0 })
            &&& record.lease_transitions == lease.record().lease_transitions
            &&& record.preferred_holder == lease.record().preferred_holder
            &&& record.strategy == lease.record().strategy
        }),
        !(-377_705_023_201 <= now.secs <= 253_402_207_200) ==> renewal_step(
            name,
            identity,
            lease_secs,
            Ok(lease),
            now,
        ) == StepView::Finished(
            Err::<RenewOutcome, ErrorView>(ErrorView::Timestamp(TIMESTAMP_RANGE_TEXT@)),
        ),
{
}

/// A renewal is lost exactly when the lease was read and does not name us; a failure to read it
/// is a failure, not a loss.
pub proof fn law_renewals_are_lost_to_others_only(
    name: Seq<char>,
    identity: Seq<char>,
    lease_secs: i32,
    reply: Result<LeaseView, KubeErrorView>,
    now: Moment,
)
    ensures
        renewal_step(name, identity, lease_secs, reply, now) == StepView::Finished(
            Ok::<RenewOutcome, ErrorView>(RenewOutcome::Lost),
        ) <==> {
            &&& reply is Ok
            &&& reply->Ok_0.record().holder_identity != Some(identity)
        },
        reply matches Err(error) ==> renewal_step(name, identity, lease_secs, reply, now)
            == StepView::Finished(Err::<RenewOutcome, ErrorView>(ErrorView::Kube(error))),
{
}

/// A release that cannot read the lease fails; one that reads it never does.
pub proof fn law_releases_fail_unread_only(
    name: Seq<char>,
    identity: Seq<char>,
    reply: Result<LeaseView, KubeErrorView>,
)
    ensures
        reply matches Err(error) ==> release_step(name, identity, reply) == StepView::Finished(
            Err::<(), ErrorView>(ErrorView::Kube(error)),
        ),
        reply is Ok ==> !(release_step(name, identity, reply) matches StepView::Finished(Err(_))),
        reply matches Ok(lease) ==> (release_step(name, identity, reply) is Send
            <==> lease.record().holder_identity == Some(identity)),
{
}

/// What the answer to a write means: an accepted one is a success for attempt, renewal and
/// release alike; a conflict means that an attempt has not won, that a renewal has failed, and
/// that there is nothing left to release; any other failure is one for all three.
pub proof fn law_answers_mean_what_they_say(error: KubeErrorView)
    ensures
        write_outcome(Ok(())) == Ok::<bool, ErrorView>(true),
        renewal_outcome(Ok(())) == Ok::<RenewOutcome, ErrorView>(RenewOutcome::Renewed),
        release_outcome(Ok(())) == Ok::<(), ErrorView>(()),
        write_outcome(Err(error)) == if (error matches KubeErrorView::Api { code, .. } && code
            == 409) {
            Ok::<bool, ErrorView>(false)
        } else {
            Err(ErrorView::Kube(error))
        },
        renewal_outcome(Err(error)) == Err::<RenewOutcome, ErrorView>(ErrorView::Kube(error)),
        release_outcome(Err(error)) == if (error matches KubeErrorView::Api { code, .. } && code
            == 409) {
            Ok::<(), ErrorView>(())
        } else {
            Err(ErrorView::Kube(error))
        },
{
}

/// The view of a write, and of a step, is what its fields hold.
pub proof fn law_writes_are_seen_in_full(write: Write, step: Step<bool, ()>)
    ensures
        write matches Write::Create { name, spec } ==> write@ == (WriteView::Create {
            name: name@,
            record: spec@,
        }),
        write matches Write::Replace { name, lease } ==> write@ == (WriteView::Replace {
            name: name@,
            lease: lease@,
        }),
        step matches Step::Send(sent, _) ==> step@ == StepView::<bool>::Send(sent@),
        step matches Step::Finished(Ok(won)) ==> step@ == StepView::Finished(
            Ok::<bool, ErrorView>(won),
        ),
        step matches Step::Finished(Err(error)) ==> step@ == StepView::Finished(
            Err::<bool, ErrorView>(error@),
        ),
{
}

// The renewal loop.

/// A turn is a success if the renewal was one, a loss if the lease is lost, and a failure in
/// every other case, whatever the error and however it was cut short.
pub proof fn law_turns_are_seen_as_they_went(event: RenewEvent)
    ensures
        event@ == Turn::Renewed <==> event matches RenewEvent::Completed(Ok(RenewOutcome::Renewed)),
        event@ == Turn::Lost <==> event matches RenewEvent::Completed(Ok(RenewOutcome::Lost)),
        event@ == Turn::Failed <==> event is TimedOut || event matches RenewEvent::Completed(
            Err(_),
        ),
{
}

/// After any run of turns, a leader steps down for two reasons only: its lease is lost, or
/// renewals have failed for longer than `renew_deadline`. A turn that renewed the lease never
/// ends the leadership, at whatever time.
pub proof fn law_leaders_step_down_for_a_reason(
    renewals: LoopView,
    turns: Seq<(Turn, nat)>,
    turn: Turn,
    now: nat,
)
    ensures
        turn is Renewed ==> loop_after(renewals, turns).verdict(turn, now) is None,
        turn is Lost ==> loop_after(renewals, turns).verdict(turn, now) == Some(
            StepDownReason::HolderChanged,
        ),
        turn is Failed && now <= last_success(renewals.last_renew, turns) + renewals.renew_deadline
            ==> loop_after(renewals, turns).verdict(turn, now) is None,
        turn is Failed && now > last_success(renewals.last_renew, turns) + renewals.renew_deadline
            ==> loop_after(renewals, turns).verdict(turn, now) == Some(
            StepDownReason::RenewDeadlineExceeded,
        ),
{
    law_only_sustained_failure_steps_down(renewals, turns, now);
}

/// A turn that renewed the lease starts the window anew; any other leaves the loop as it was.
pub proof fn law_only_success_restarts_the_window(renewals: LoopView, turn: Turn, now: nat)
    ensures
        renewals.after(turn, now).last_renew == if turn is Renewed {
            now
        } else {
            renewals.last_renew
        },
        renewals.after(turn, now).name == renewals.name,
        renewals.after(turn, now).identity == renewals.identity,
        renewals.after(turn, now).lease_secs == renewals.lease_secs,
        renewals.after(turn, now).renew_deadline == renewals.renew_deadline,
        renewals.deadline() == renewals.last_renew + renewals.renew_deadline + 1,
{
}

// The wait for the lease.

/// After any run of attempts, the wait ends with the lease exactly when an attempt has won it.
/// An attempt that has not, at whatever time, is followed by another after `retry_period`; and
/// only failures can make the wait be given up.
pub proof fn law_waits_end_with_a_win(
    wait: AcquireView,
    attempts: Seq<(Result<bool, ErrorView>, nat)>,
    attempt: Result<bool, ErrorView>,
    now: nat,
)
    ensures
        wait_after(wait, attempts).step(attempt, now) is Acquired <==> attempt == Ok::<
            bool,
            ErrorView,
        >(true),
        attempt == Ok::<bool, ErrorView>(false) ==> wait_after(wait, attempts).step(attempt, now)
            == AcquireStepView::Retry(wait.retry_period),
        wait_after(wait, attempts).step(attempt, now) is GiveUp ==> attempt is Err,
        wait_after(wait, attempts).step(attempt, now) matches AcquireStepView::Retry(period)
            ==> period == wait.retry_period,
        wait_after(wait, attempts).step(attempt, now) matches AcquireStepView::GiveUp(error)
            ==> error == ErrorView::ObserveTimeout(
            wait.observe_timeout,
            Box::new(attempt->Err_0),
        ),
    decreases attempts.len(),
{
    if attempts.len() > 0 {
        law_waits_end_with_a_win(wait, attempts.drop_last(), attempt, now);
    }
    law_waits_stay_what_they_are(wait, attempts);
}

/// A run of attempts changes nothing of a wait but since when attempts have been failing.
pub proof fn law_waits_stay_what_they_are(
    wait: AcquireView,
    attempts: Seq<(Result<bool, ErrorView>, nat)>,
)
    ensures
        wait_after(wait, attempts).name == wait.name,
        wait_after(wait, attempts).identity == wait.identity,
        wait_after(wait, attempts).lease_duration == wait.lease_duration,
        wait_after(wait, attempts).renew_deadline == wait.renew_deadline,
        wait_after(wait, attempts).retry_period == wait.retry_period,
        wait_after(wait, attempts).observe_timeout == wait.observe_timeout,
    decreases attempts.len(),
{
    if attempts.len() > 0 {
        law_waits_stay_what_they_are(wait, attempts.drop_last());
    }
}

/// The view of what comes after an attempt is what its fields hold.
pub proof fn law_steps_of_a_wait_are_seen_in_full(step: AcquireStep)
    ensures
        step matches AcquireStep::Acquired(won) ==> step@ == AcquireStepView::Acquired(won@),
        step matches AcquireStep::Retry(period) ==> step@ == AcquireStepView::Retry(period@),
        step matches AcquireStep::GiveUp(error) ==> step@ == AcquireStepView::GiveUp(error@),
{
}

/// The first of a run of failures sets the time at which the wait is given up, `observe_timeout`
/// later; further failures do not move it, and an attempt that does not fail takes it away.
pub proof fn law_first_failure_sets_the_deadline(wait: AcquireView, error: ErrorView, now: nat)
    ensures
        wait.after(Ok(false), now).error_deadline is None,
        wait.error_deadline is None ==> wait.after(Err(error), now).error_deadline == Some(
            now + wait.observe_timeout,
        ),
        wait.error_deadline is Some ==> wait.after(Err(error), now).error_deadline
            == wait.error_deadline,
        wait.error_deadline matches Some(end) ==> (wait.step(Err(error), now) is GiveUp <==> now
            >= end),
        wait.error_deadline is None ==> (wait.step(Err(error), now) is GiveUp
            <==> wait.observe_timeout == 0),
{
}

// Configuration and identity.

/// The spans of time by default: 15, 10, 2, 300 and 5 seconds.
pub proof fn law_default_timing()
    ensures
        Timing::defaults().lease_duration == 15 * 1_000_000_000,
        Timing::defaults().renew_deadline == 10 * 1_000_000_000,
        Timing::defaults().retry_period == 2 * 1_000_000_000,
        Timing::defaults().observe_timeout == 300 * 1_000_000_000,
        Timing::defaults().renew_request_timeout == 5 * 1_000_000_000,
{
}

/// An election is what its builder was told, under the identity that was resolved; and the wait
/// for its lease is about that election.
pub proof fn law_elections_are_what_was_configured(builder: BuilderView, identity: Seq<char>)
    ensures
        ({
            let election = builder.built(identity);
            &&& election.namespace == builder.namespace
            &&& election.name == builder.name
            &&& election.identity == identity
            &&& election.timing == builder.timing
            &&& election.waiting().name == builder.name
            &&& election.waiting().identity == identity
            &&& election.waiting().lease_duration == builder.timing.lease_duration
            &&& election.waiting().renew_deadline == builder.timing.renew_deadline
            &&& election.waiting().retry_period == builder.timing.retry_period
            &&& election.waiting().observe_timeout == builder.timing.observe_timeout
            &&& election.waiting().error_deadline is None
        }),
{
}

/// A configuration that is refused is refused for a rule that it breaks, with the values that
/// break it, and no rule that comes before it in the list is broken.
pub proof fn law_refusals_name_the_first_broken_rule(election: ElectionView)
    ensures
        ({
            let timing = election.timing;
            let late = timing.renew_deadline >= timing.lease_duration;
            let slow = timing.retry_period > timing.renew_deadline;
            let busy = timing.retry_period == 0;
            let refused = |rule: InvalidConfigView|
                election.validated() == Err::<(), ErrorView>(ErrorView::InvalidConfig(rule));
            &&& late ==> refused(
                InvalidConfigView::RenewDeadlineNotLess {
                    renew: timing.renew_deadline,
                    lease: timing.lease_duration,
                },
            )
            &&& !late && slow ==> refused(
                InvalidConfigView::RetryPeriodTooLong {
                    retry: timing.retry_period,
                    renew: timing.renew_deadline,
                },
            )
            &&& !late && !slow && busy ==> refused(InvalidConfigView::RetryPeriodZero)
            &&& !late && !slow && !busy && election.identity.len() == 0 ==> refused(
                InvalidConfigView::IdentityEmpty,
            )
            &&& !late && !slow && !busy && election.identity.len() > 0 && election.name.len() == 0
                ==> refused(InvalidConfigView::NameEmpty)
            &&& !late && !slow && !busy && election.identity.len() > 0 && election.name.len() > 0
                && election.namespace.len() == 0 ==> refused(InvalidConfigView::NamespaceEmpty)
            &&& !late && !slow && !busy && election.identity.len() > 0 && election.name.len() > 0
                && election.namespace.len() > 0 ==> election.validated() is Ok
        }),
{
}

/// An identity comes from where it says, character for character: from the pod's name, from a
/// UUID, or from the text that was given.
pub proof fn law_identities_come_from_where_they_say(
    source: IdentityView,
    hostname: Option<Seq<char>>,
    uuid: Seq<char>,
)
    ensures
        source is PodNameOrUuid ==> (hostname matches Some(pod) ==> source.resolved(hostname, uuid)
            == pod),
        source is PodNameOrUuid && hostname is None ==> source.resolved(hostname, uuid) == uuid,
        source is Generated ==> source.resolved(hostname, uuid) == uuid,
        source matches IdentityView::Custom(name) ==> source.resolved(hostname, uuid) == name,
        source.needs_uuid(hostname) <==> (source is Generated || (source is PodNameOrUuid
            && hostname is None)),
{
}

/// The view of an identity's source is that source, with the text that was given.
pub proof fn law_identity_sources_are_seen_in_full(source: Identity)
    ensures
        source is PodNameOrUuid <==> source@ is PodNameOrUuid,
        source is Generated <==> source@ is Generated,
        source matches Identity::Custom(name) ==> source@ == IdentityView::Custom(name@),
{
}

/// Replicas with different pod names have different identities, and so have replicas for which
/// different UUIDs were drawn.
pub proof fn law_different_pods_have_different_identities(
    pod: Seq<char>,
    other: Seq<char>,
    uuid: Seq<char>,
    other_uuid: Seq<char>,
)
    ensures
        pod != other ==> IdentityView::PodNameOrUuid.resolved(Some(pod), uuid)
            != IdentityView::PodNameOrUuid.resolved(Some(other), other_uuid),
        uuid != other_uuid ==> IdentityView::PodNameOrUuid.resolved(None, uuid)
            != IdentityView::PodNameOrUuid.resolved(None, other_uuid),
        uuid != other_uuid ==> IdentityView::Generated.resolved(Some(pod), uuid)
            != IdentityView::Generated.resolved(Some(other), other_uuid),
{
}

// The guard.

/// What each effect changes of what is seen, and that it changes nothing else.
pub proof fn law_effects_change_one_thing_each(
    leadership: Leadership,
    leader: bool,
    reason: StepDownReason,
)
    ensures
        leadership.perform(Effect::SetLeader(leader)) == (Leadership { leader, ..leadership }),
        leadership.perform(Effect::AbortRenewal) == (Leadership { renewing: false, ..leadership }),
        leadership.perform(Effect::SignalLost(reason)) == (Leadership {
            lost: Some(reason),
            ..leadership
        }),
        leadership.perform(Effect::ReleaseLease) == leadership,
        Effect::SetLeader(leader).leads_after(!leader) == leader,
        Effect::SetLeader(leader).leads_after(leader) == leader,
        Effect::AbortRenewal.leads_after(leader) == leader,
        Effect::SignalLost(reason).leads_after(leader) == leader,
        Effect::ReleaseLease.leads_after(leader) == leader,
{
}

/// A guard leads as long as nothing is lost, and what is seen of it is what it holds.
pub proof fn law_guards_lead_until_a_loss(guard: GuardView, name: Seq<char>, identity: Seq<char>)
    ensures
        guard.leadership().leader <==> guard.lost is None,
        guard.leadership().lost == guard.lost,
        guard.leadership().renewing == guard.renewing,
        GuardView::acquired(name, identity).name == name,
        GuardView::acquired(name, identity).identity == identity,
        GuardView::acquired(name, identity).renewing,
        GuardView::acquired(name, identity).lost is None,
{
}

/// When the renewal loop ends, a guard that leads goes unready and then announces the loss with
/// the loop's reason; one that does not lead any more has nothing to announce.
pub proof fn law_ended_renewal_is_announced_once(guard: GuardView, reason: StepDownReason)
    ensures
        guard.lost is None ==> {
            let effects = guard.stop_effects(reason);
            &&& effects.len() == 2
            &&& effects[0] == Effect::SetLeader(false)
            &&& effects[1] == Effect::SignalLost(reason)
        },
        guard.lost is Some ==> guard.stop_effects(reason).len() == 0,
        guard.ended(reason).lost == if guard.lost is None {
            Some(reason)
        } else {
            guard.lost
        },
        guard.ended(reason).name == guard.name,
        guard.ended(reason).identity == guard.identity,
        guard.ended(reason).renewing == guard.renewing,
{
}

/// A guard that steps down or is dropped for the first time stops the renewal and gives the
/// lease up; if it leads, it goes unready before that, and announces that it was cancelled. For
/// the second time it does nothing.
pub proof fn law_guards_let_go_once(guard: GuardView)
    ensures
        guard.renewing && guard.lost is None ==> {
            let effects = guard.step_down_effects();
            &&& effects.len() == 4
            &&& effects[0] == Effect::SetLeader(false)
            &&& effects[1] == Effect::AbortRenewal
            &&& effects[2] == Effect::SignalLost(StepDownReason::Cancelled)
            &&& effects[3] == Effect::ReleaseLease
        },
        guard.renewing && guard.lost is Some ==> {
            let effects = guard.step_down_effects();
            &&& effects.len() == 2
            &&& effects[0] == Effect::AbortRenewal
            &&& effects[1] == Effect::ReleaseLease
        },
        !guard.renewing ==> guard.step_down_effects().len() == 0,
        !guard.let_go().renewing,
        guard.let_go().name == guard.name,
        guard.let_go().identity == guard.identity,
        guard.let_go().lost == if guard.renewing && guard.lost is None {
            Some(StepDownReason::Cancelled)
        } else {
            guard.lost
        },
{
}

} // verus!
