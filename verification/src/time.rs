use vstd::prelude::*;

verus! {

/// The first second of the earliest date.
pub const MIN_SECONDS: i64 = -8_334_601_228_800;

/// The last second of the latest date.
pub const MAX_SECONDS: i64 = 8_210_266_876_799;

/// A point in time: whole seconds since 1970-01-01 00:00:00 UTC, and the nanoseconds since the
/// last whole second. It lies within the range of dates (see `TimestampView::is_date`).
#[derive(Debug, Clone, Copy, PartialEq, Eq, PartialOrd, Ord, Structural)]
pub struct Timestamp {
    seconds: i64,
    nanos: u32,
}

/// What a timestamp says.
#[verifier::ext_equal]
pub struct TimestampView {
    pub seconds: int,
    pub nanos: int,
}

impl View for Timestamp {
    type V = TimestampView;

    closed spec fn view(&self) -> TimestampView {
        TimestampView { seconds: self.seconds as int, nanos: self.nanos as int }
    }
}

impl TimestampView {
    /// Whether a date can hold the point in time: the year is one from -262143 to 262142, and the
    /// nanoseconds make up less than two seconds (from one second on they count as a leap second).
    pub open spec fn is_date(self) -> bool {
        &&& MIN_SECONDS <= self.seconds <= MAX_SECONDS
        &&& 0 <= self.nanos < 2_000_000_000
    }
}

/// A date can hold every point in time from the start of the year -262143 to the end of the year
/// 262142, with less than two seconds of nanoseconds, and no other.
pub proof fn lemma_dates(point: TimestampView)
    ensures
        point.is_date() <==> (-8_334_601_228_800 <= point.seconds <= 8_210_266_876_799 && 0
            <= point.nanos <= 1_999_999_999),
{
}

impl Timestamp {
    #[verifier::type_invariant]
    spec fn well_formed(self) -> bool {
        self@.is_date()
    }

    /// The point in time with these seconds and nanoseconds, where a date can hold it.
    pub fn new(seconds: i64, nanos: u32) -> (timestamp: Option<Self>)
        ensures
            timestamp is Some <==> (TimestampView {
                seconds: seconds as int,
                nanos: nanos as int,
            }).is_date(),
            timestamp matches Some(timestamp) ==> timestamp@ == (TimestampView {
                seconds: seconds as int,
                nanos: nanos as int,
            }),
    {
        if MIN_SECONDS <= seconds && seconds <= MAX_SECONDS && nanos < 2_000_000_000 {
            Some(Timestamp { seconds, nanos })
        } else {
            None
        }
    }

    /// The whole seconds since 1970-01-01 00:00:00 UTC.
    pub fn seconds(&self) -> (seconds: i64)
        ensures
            seconds == self@.seconds,
            self@.is_date(),
    {
        proof {
            use_type_invariant(self);
        }
        self.seconds
    }

    /// The nanoseconds since the last whole second.
    pub fn nanos(&self) -> (nanos: u32)
        ensures
            nanos == self@.nanos,
            self@.is_date(),
    {
        proof {
            use_type_invariant(self);
        }
        self.nanos
    }
}

/// The current time, from `chrono::Utc::now`, split by `DateTime::timestamp` and
/// `DateTime::timestamp_subsec_nanos`.
///
/// Which time that is depends on the machine. Claimed is only what holds of every reading: it is
/// a date, it is not before 1970 (`Utc::now` does not return on a clock that says otherwise), and
/// it lies within a second (`Utc::now` never reports a leap second).
#[verifier::external_body]
pub(crate) fn utc_now() -> (now: Timestamp)
    ensures
        now@.is_date(),
        now@.seconds >= 0,
        now@.nanos < 1_000_000_000,
{
    let now = chrono::Utc::now();
    Timestamp { seconds: now.timestamp(), nanos: now.timestamp_subsec_nanos() }
}

} // verus!
