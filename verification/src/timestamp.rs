//! Wall-clock time: the [`DateTime`]s that the clock shows, the [`Timestamp`]s that a
//! lease holds, and the test whether a lease has outlived its duration.
use crate::error::{seen, Error, ErrorView};
use crate::outside::shown;
use vstd::prelude::*;

verus! {

/// The first second that a [`DateTime`] can show, counted from the Unix epoch.
pub const MIN_DATETIME_SECS: i64 = -8_334_601_228_800;

/// The last second that a [`DateTime`] can show, counted from the Unix epoch.
pub const MAX_DATETIME_SECS: i64 = 8_210_266_876_799;

/// The first second that a [`Timestamp`] can show, counted from the Unix epoch.
pub const MIN_TIMESTAMP_SECOND: i64 = -377_705_023_201;

/// The last second that a [`Timestamp`] can show, counted from the Unix epoch.
pub const MAX_TIMESTAMP_SECOND: i64 = 253_402_207_200;

/// The view of a [`DateTime`]: whole seconds since the Unix epoch, and the nanoseconds
/// since that second. During a leap second the nanoseconds go on from one billion.
pub ghost struct Moment {
    pub secs: int,
    pub nanos: int,
}

impl Moment {
    /// Whether a [`DateTime`] can show this moment.
    pub open spec fn valid(self) -> bool {
        &&& MIN_DATETIME_SECS <= self.secs <= MAX_DATETIME_SECS
        &&& 0 <= self.nanos < 2_000_000_000
        &&& self.nanos >= 1_000_000_000 ==> self.secs % 60 == 59
    }

    /// Whether the wall clock can show this moment: it does not go back before the Unix
    /// epoch, and it does not know of leap seconds.
    pub open spec fn on_clock(self) -> bool {
        self.valid() && self.secs >= 0 && self.nanos < 1_000_000_000
    }

    /// Whether this moment comes after `other`.
    pub open spec fn is_after(self, other: Moment) -> bool {
        self.secs > other.secs || (self.secs == other.secs && self.nanos > other.nanos)
    }

    /// The moment `seconds` after this one. A step out of a leap second leaves it.
    pub open spec fn plus_seconds(self, seconds: int) -> Moment {
        if self.nanos < 1_000_000_000 || seconds == 0 {
            Moment { secs: self.secs + seconds, nanos: self.nanos }
        } else if seconds > 0 {
            Moment { secs: self.secs + seconds, nanos: self.nanos - 1_000_000_000 }
        } else {
            Moment { secs: self.secs + seconds + 1, nanos: self.nanos - 1_000_000_000 }
        }
    }

    /// This moment as a lease holds it: the fraction of the second is dropped.
    pub open spec fn stamp(self) -> Stamp {
        Stamp { second: self.secs, nanosecond: 0 }
    }
}

/// The view of a [`Timestamp`]: whole seconds since the Unix epoch, truncated towards
/// it, and the remaining nanoseconds, of the same sign.
pub ghost struct Stamp {
    pub second: int,
    pub nanosecond: int,
}

impl Stamp {
    /// Whether a [`Timestamp`] can show this time.
    pub open spec fn valid(self) -> bool {
        &&& MIN_TIMESTAMP_SECOND <= self.second <= MAX_TIMESTAMP_SECOND
        &&& -1_000_000_000 < self.nanosecond < 1_000_000_000
        &&& self.second > 0 ==> self.nanosecond >= 0
        &&& self.second < 0 ==> self.nanosecond <= 0
        &&& self.second == MIN_TIMESTAMP_SECOND ==> self.nanosecond == 0
    }

    /// The second of this time as a moment of the clock.
    pub open spec fn moment(self) -> Moment {
        Moment { secs: self.second, nanos: 0 }
    }
}

/// A date and time in UTC, as the wall clock shows it.
#[derive(Clone, Copy, Debug, PartialEq, Eq, Structural)]
pub struct DateTime {
    secs: i64,
    nanos: u32,
}

impl View for DateTime {
    type V = Moment;

    closed spec fn view(&self) -> Moment {
        Moment { secs: self.secs as int, nanos: self.nanos as int }
    }
}

/// A point in time as a lease holds it.
#[derive(Clone, Copy, Debug, PartialEq, Eq, Structural)]
pub struct Timestamp {
    second: i64,
    nanosecond: i32,
}

impl View for Timestamp {
    type V = Stamp;

    closed spec fn view(&self) -> Stamp {
        Stamp { second: self.second as int, nanosecond: self.nanosecond as int }
    }
}

/// What `jiff` says of a second that its `Timestamp` cannot show.
pub const TIMESTAMP_RANGE_TEXT: &'static str =
    "parameter 'Unix timestamp seconds' is not in the required range of -377705023201..=253402207200";

/// Calls `chrono::Utc::now`, which reads the system clock. It shows a moment no earlier
/// than the Unix epoch and never a leap second; a system clock set before the epoch
/// makes `chrono` panic. Which moment it shows is left unsaid, but for the mark that this is
/// what the clock showed.
#[verifier::external_body]
fn clock_now() -> (now: (i64, u32))
    ensures
        (Moment { secs: now.0 as int, nanos: now.1 as int }).on_clock(),
        shown(Moment { secs: now.0 as int, nanos: now.1 as int }),
{
    let now = chrono::Utc::now();
    (now.timestamp(), now.timestamp_subsec_nanos())
}

/// Calls `chrono::DateTime::from_timestamp`: a moment is given back as it was handed
/// over where `chrono` can show it, and is refused everywhere else.
#[verifier::external_body]
fn chrono_from_timestamp(secs: i64, nanos: u32) -> (shown: Option<(i64, u32)>)
    ensures
        shown == if (Moment { secs: secs as int, nanos: nanos as int }).valid() {
            Some((secs, nanos))
        } else {
            None
        },
{
    let shown = chrono::DateTime::from_timestamp(secs, nanos)?;
    Some((shown.timestamp(), shown.timestamp_subsec_nanos()))
}

/// Calls the `+` of `chrono::DateTime` and `chrono::Duration`, with a duration of whole
/// seconds. `chrono` panics where it cannot show the sum.
#[verifier::external_body]
fn chrono_plus_seconds(secs: i64, nanos: u32, seconds: i64) -> (sum: (i64, u32))
    requires
        (Moment { secs: secs as int, nanos: nanos as int }).valid(),
        (Moment { secs: secs as int, nanos: nanos as int }).plus_seconds(seconds as int).valid(),
    ensures
        (Moment { secs: sum.0 as int, nanos: sum.1 as int })
            == (Moment { secs: secs as int, nanos: nanos as int }).plus_seconds(seconds as int),
{
    let start = chrono::DateTime::from_timestamp(secs, nanos).unwrap();
    let sum = start + chrono::Duration::seconds(seconds);
    (sum.timestamp(), sum.timestamp_subsec_nanos())
}

/// Calls `jiff::Timestamp::from_second`: a second in the range of a timestamp is given
/// back as it was handed over, with no fraction; any other is refused with a text that
/// names that range.
#[verifier::external_body]
fn jiff_from_second(second: i64) -> (shown: Result<(i64, i32), String>)
    ensures
        shown is Ok <==> MIN_TIMESTAMP_SECOND <= second <= MAX_TIMESTAMP_SECOND,
        shown matches Ok(time) ==> time == (second, 0i32),
        shown matches Err(text) ==> text@ == TIMESTAMP_RANGE_TEXT@,
{
    match k8s_openapi::jiff::Timestamp::from_second(second) {
        Ok(time) => Ok((time.as_second(), time.subsec_nanosecond())),
        Err(error) => Err(error.to_string()),
    }
}

/// The mark of a moment that was read from the wall clock with `what` already at hand, so that
/// the reading is no older than that. It is closed too: only [`DateTime::now_since`] hands it
/// out.
pub closed spec fn shown_since<T>(what: T, time: Moment) -> bool {
    shown(time)
}

impl DateTime {
    #[verifier::type_invariant]
    spec fn in_range(self) -> bool {
        self@.valid()
    }

    /// What the wall clock shows now.
    pub fn now() -> (now: DateTime)
        ensures
            now@.on_clock(),
            shown(now@),
    {
        let (secs, nanos) = clock_now();
        DateTime { secs, nanos }
    }

    /// What the wall clock shows now that `_what` is at hand.
    pub fn now_since<T>(_what: &T) -> (now: DateTime)
        ensures
            now@.on_clock(),
            shown(now@),
            shown_since(*_what, now@),
    {
        DateTime::now()
    }

    /// The moment `nanos` after the second `secs`, counted from the Unix epoch, where a
    /// `DateTime` can show it.
    pub fn from_timestamp(secs: i64, nanos: u32) -> (shown: Option<DateTime>)
        ensures
            shown is Some <==> (Moment { secs: secs as int, nanos: nanos as int }).valid(),
            shown matches Some(time) ==> time@ == (Moment {
                secs: secs as int,
                nanos: nanos as int,
            }),
    {
        match chrono_from_timestamp(secs, nanos) {
            Some((secs, nanos)) => Some(DateTime { secs, nanos }),
            None => None,
        }
    }

    /// Whole seconds since the Unix epoch.
    pub fn timestamp(&self) -> (secs: i64)
        ensures
            secs == self@.secs,
            self@.valid(),
    {
        proof {
            use_type_invariant(self);
        }
        self.secs
    }

    /// Nanoseconds since the last whole second.
    pub fn timestamp_subsec_nanos(&self) -> (nanos: u32)
        ensures
            nanos == self@.nanos,
    {
        self.nanos
    }

    /// Whether this time comes after `other`.
    pub fn is_after(&self, other: &DateTime) -> (later: bool)
        ensures
            later == self@.is_after(other@),
            self@.secs != other@.secs ==> later == (self@.secs > other@.secs),
            self@.secs == other@.secs ==> later == (self@.nanos > other@.nanos),
    {
        self.secs > other.secs || (self.secs == other.secs && self.nanos > other.nanos)
    }

    /// The time `seconds` after this one.
    pub fn plus_seconds(&self, seconds: i64) -> (sum: DateTime)
        requires
            self@.plus_seconds(seconds as int).valid(),
        ensures
            sum@ == self@.plus_seconds(seconds as int),
    {
        proof {
            use_type_invariant(self);
        }
        let (secs, nanos) = chrono_plus_seconds(self.secs, self.nanos, seconds);
        DateTime { secs, nanos }
    }
}

impl Timestamp {
    #[verifier::type_invariant]
    spec fn in_range(self) -> bool {
        self@.valid()
    }

    /// The time `nanosecond` after the second `second`, counted from the Unix epoch,
    /// where a `Timestamp` can show it. Both parts have the same sign.
    pub fn new(second: i64, nanosecond: i32) -> (shown: Option<Timestamp>)
        ensures
            shown is Some <==> (Stamp {
                second: second as int,
                nanosecond: nanosecond as int,
            }).valid(),
            shown matches Some(time) ==> time@ == (Stamp {
                second: second as int,
                nanosecond: nanosecond as int,
            }),
    {
        if second < MIN_TIMESTAMP_SECOND || second > MAX_TIMESTAMP_SECOND {
            return None;
        }
        if nanosecond <= -1_000_000_000 || nanosecond >= 1_000_000_000 {
            return None;
        }
        if (second > 0 && nanosecond < 0) || (second < 0 && nanosecond > 0) || (second
            == MIN_TIMESTAMP_SECOND && nanosecond != 0) {
            return None;
        }
        Some(Timestamp { second, nanosecond })
    }

    /// The time at the second `second`, counted from the Unix epoch.
    pub fn from_second(second: i64) -> (shown: Result<Timestamp, String>)
        ensures
            shown is Ok <==> MIN_TIMESTAMP_SECOND <= second <= MAX_TIMESTAMP_SECOND,
            shown matches Ok(time) ==> time@ == (Stamp { second: second as int, nanosecond: 0 }),
            shown matches Err(text) ==> text@ == TIMESTAMP_RANGE_TEXT@,
    {
        match jiff_from_second(second) {
            Ok((second, nanosecond)) => Ok(Timestamp { second, nanosecond }),
            Err(text) => Err(text),
        }
    }

    /// Whole seconds since the Unix epoch, truncated towards it.
    pub fn as_second(&self) -> (second: i64)
        ensures
            second == self@.second,
            self@.valid(),
    {
        proof {
            use_type_invariant(self);
        }
        self.second
    }

    /// The nanoseconds beyond [`Self::as_second`], of the same sign.
    pub fn subsec_nanosecond(&self) -> (nanosecond: i32)
        ensures
            nanosecond == self@.nanosecond,
    {
        self.nanosecond
    }
}

/// The time that a lease holds for a moment of the clock, or why it cannot hold it.
pub open spec fn stamped(time: Moment) -> Result<Stamp, ErrorView> {
    if MIN_TIMESTAMP_SECOND <= time.secs <= MAX_TIMESTAMP_SECOND {
        Ok(time.stamp())
    } else {
        Err(ErrorView::Timestamp(TIMESTAMP_RANGE_TEXT@))
    }
}

/// The time that a lease holds for `time`: the fraction of the second is dropped. A
/// time that a lease cannot hold is an [`Error::Timestamp`].
pub fn chrono_to_timestamp(time: DateTime) -> (shown: Result<Timestamp, Error>)
    ensures
        seen(shown) == stamped(time@),
{
    match Timestamp::from_second(time.timestamp()) {
        Ok(held) => Ok(held),
        Err(text) => Err(Error::Timestamp(text)),
    }
}

/// The moment of the clock for the second of a lease's time, where the clock can show it.
pub fn timestamp_to_chrono(held: &Timestamp) -> (shown: Option<DateTime>)
    ensures
        held@.valid(),
        shown is Some <==> held@.moment().valid(),
        shown matches Some(time) ==> time@ == held@.moment(),
{
    DateTime::from_timestamp(held.as_second(), 0)
}

/// Whether a lease that was last renewed at `renew_time`, and is good for `lease_seconds`,
/// has expired: `now` is strictly after the end of that time.
pub fn chrono_lease_expired(now: DateTime, renew_time: DateTime, lease_seconds: i64) -> (expired:
    bool)
    requires
        renew_time@.plus_seconds(lease_seconds as int).valid(),
    ensures
        expired == now@.is_after(renew_time@.plus_seconds(lease_seconds as int)),
        now@.nanos < 1_000_000_000 && renew_time@.nanos < 1_000_000_000 ==> expired == (now@.secs
            * 1_000_000_000 + now@.nanos > (renew_time@.secs + lease_seconds) * 1_000_000_000
            + renew_time@.nanos),
{
    proof {
        use_type_invariant(&now);
        use_type_invariant(&renew_time);
    }
    now.is_after(&renew_time.plus_seconds(lease_seconds))
}

} // verus!
