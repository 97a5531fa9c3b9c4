//! What holds of times and errors, in numbers and fields.
use crate::error::{
    error_view, outcome, seen, Error, ErrorView, InvalidConfig, InvalidConfigView, KubeError,
    KubeErrorView,
};
use crate::timestamp::{stamped, Moment, Stamp, Timestamp, TIMESTAMP_RANGE_TEXT};
use vstd::prelude::*;

verus! {

/// Moments are ordered by their nanoseconds. A leap second comes after the second that it
/// prolongs and before the next.
pub proof fn law_moments_are_ordered_by_time(a: Moment, b: Moment)
    ensures
        0 <= a.nanos < 1_000_000_000 && 0 <= b.nanos < 1_000_000_000 ==> (a.is_after(b) <==> a.secs
            * 1_000_000_000 + a.nanos > b.secs * 1_000_000_000 + b.nanos),
        a.secs > b.secs ==> a.is_after(b),
        a.secs < b.secs ==> !a.is_after(b),
        a.secs == b.secs ==> (a.is_after(b) <==> a.nanos > b.nanos),
{
}

/// Of two moments that differ one is after the other, never both; and what is after a later
/// moment is after an earlier one.
pub proof fn law_moments_are_in_line(a: Moment, b: Moment, c: Moment)
    ensures
        a != b <==> (a.is_after(b) || b.is_after(a)),
        !(a.is_after(b) && b.is_after(a)),
        a.is_after(b) && !c.is_after(b) ==> a.is_after(c),
{
}

/// A sum of seconds lies that many seconds away, to the nanosecond. From a leap second, a step
/// forward counts from its beginning.
pub proof fn law_sums_are_seconds_away(time: Moment, seconds: int)
    ensures
        ({
            let sum = time.plus_seconds(seconds);
            let before = time.secs * 1_000_000_000 + time.nanos;
            let after = sum.secs * 1_000_000_000 + sum.nanos;
            &&& time.nanos < 1_000_000_000 ==> after - before == seconds * 1_000_000_000
                && sum.nanos == time.nanos
            &&& time.nanos >= 1_000_000_000 && seconds <= 0 ==> after - before == seconds
                * 1_000_000_000
            &&& time.nanos >= 1_000_000_000 && seconds > 0 ==> after - before == (seconds - 1)
                * 1_000_000_000
            &&& seconds == 0 ==> sum == time
            &&& time.nanos >= 1_000_000_000 && seconds != 0 ==> sum.nanos == time.nanos
                - 1_000_000_000
        }),
{
}

/// A lease can hold every second from the year -9999 to the year 9999, and no other; it holds
/// that very second.
pub proof fn law_leases_hold_seconds(time: Moment)
    ensures
        stamped(time) is Ok <==> -377_705_023_201 <= time.secs <= 253_402_207_200,
        stamped(time) matches Ok(at) ==> at.second == time.secs && at.nanosecond == 0,
        stamped(time) matches Err(error) ==> error == ErrorView::Timestamp(TIMESTAMP_RANGE_TEXT@),
        time.stamp().second == time.secs,
        time.stamp().nanosecond == 0,
{
}

/// The moments and the times that there are, in numbers: moments run from the year -262143 to
/// the year 262142, with leap seconds at the end of any minute; the times of a lease run from
/// the year -9999 to the year 9999, and both their parts have the same sign.
pub proof fn law_ranges_of_time(time: Moment, at: Stamp)
    ensures
        0 <= time.nanos < 1_000_000_000 ==> (time.valid() <==> -8_334_601_228_800 <= time.secs
            <= 8_210_266_876_799),
        1_000_000_000 <= time.nanos < 2_000_000_000 ==> (time.valid() <==> -8_334_601_228_800
            <= time.secs <= 8_210_266_876_799 && time.secs % 60 == 59),
        !(0 <= time.nanos < 2_000_000_000) ==> !time.valid(),
        time.on_clock() <==> time.valid() && time.secs >= 0 && time.nanos < 1_000_000_000,
        at.valid() <==> {
            &&& -1_000_000_000 < at.nanosecond < 1_000_000_000
            &&& (at.second <= 0 && at.nanosecond <= 0) || (at.second >= 0 && at.nanosecond >= 0)
            &&& -377_705_023_201_000_000_000 <= at.second * 1_000_000_000 + at.nanosecond
                <= 253_402_207_200_999_999_999
        },
{
}

/// Every time of a lease is a moment of the clock, at the second that the lease says.
pub proof fn law_lease_times_are_moments(at: Stamp)
    requires
        at.valid(),
    ensures
        at.moment().valid(),
        at.moment().secs == at.second,
        at.moment().nanos == 0,
{
}

/// The API server answered with a code if that is the code of its answer; no answer has none.
pub proof fn law_codes_are_those_answered(error: KubeErrorView, code: u16)
    ensures
        error matches KubeErrorView::Api { code: answered, .. } ==> (error.has_code(code)
            <==> answered == code),
        error is Other ==> !error.has_code(code),
{
}

/// The view of a failed request says all that is known of it.
pub proof fn law_failures_are_seen_in_full(error: KubeError)
    ensures
        error matches KubeError::Api(status) ==> error@ == (KubeErrorView::Api {
            code: status.code,
            reason: status.reason@,
            message: status.message@,
        }),
        error matches KubeError::Other(text) ==> error@ == KubeErrorView::Other(text@),
{
}

/// The view of a broken rule says which rule it is, and the values that break it.
pub proof fn law_rules_are_seen_in_full(broken: InvalidConfig)
    ensures
        broken matches InvalidConfig::RenewDeadlineNotLess { renew, lease } ==> broken@ == (
        InvalidConfigView::RenewDeadlineNotLess { renew: renew@, lease: lease@ }),
        broken matches InvalidConfig::RetryPeriodTooLong { retry, renew } ==> broken@ == (
        InvalidConfigView::RetryPeriodTooLong { retry: retry@, renew: renew@ }),
        broken is RetryPeriodZero <==> broken@ is RetryPeriodZero,
        broken is IdentityEmpty <==> broken@ is IdentityEmpty,
        broken is NameEmpty <==> broken@ is NameEmpty,
        broken is NamespaceEmpty <==> broken@ is NamespaceEmpty,
{
}

/// The view of an error says what went wrong, down to the error that it wraps.
pub proof fn law_errors_are_seen_in_full(error: Error)
    ensures
        error matches Error::Kube(failure) ==> error@ == ErrorView::Kube(failure@),
        error matches Error::Timestamp(text) ==> error@ == ErrorView::Timestamp(text@),
        error matches Error::ObserveTimeout(window, last) ==> error@ == ErrorView::ObserveTimeout(
            window@,
            Box::new(last@),
        ),
        error matches Error::InvalidConfig(broken) ==> error@ == ErrorView::InvalidConfig(broken@),
        error@ == error_view(error),
{
}

/// The view of a result succeeds where the result does, with its value, and fails where it
/// fails, with its error.
pub proof fn law_results_are_seen_as_they_are(
    flag: Result<bool, Error>,
    time: Result<Timestamp, Error>,
)
    ensures
        flag matches Ok(value) ==> outcome(flag) == Ok::<bool, ErrorView>(value),
        flag matches Err(error) ==> outcome(flag) == Err::<bool, ErrorView>(error@),
        time matches Ok(value) ==> seen(time) == Ok::<Stamp, ErrorView>(value@),
        time matches Err(error) ==> seen(time) == Err::<Stamp, ErrorView>(error@),
{
}

} // verus!
