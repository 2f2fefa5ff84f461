//! Points in time, with the offset of the clock that they were read from.

use vstd::prelude::*;

verus! {

/// The first second that can be written as a date.
pub const FIRST_SECOND: i64 = -8_334_601_228_800;

/// The last second that can be written as a date.
pub const LAST_SECOND: i64 = 8_210_266_876_799;

/// The seconds of a day; every offset is less than that.
pub const DAY_SECONDS: i32 = 86_400;

/// A point in time that can be written as a date: whole seconds and nanoseconds after the Unix
/// epoch, and how many seconds the local clock is ahead of UTC. The nanoseconds go on counting
/// through a leap second.
#[derive(Clone, Copy, Debug)]
pub struct Timestamp {
    secs: i64,
    nanos: u32,
    offset: i32,
}

/// Whether there is a date for so many seconds and nanoseconds. Only the last second of a minute
/// can be a leap second's.
pub open spec fn is_date(secs: int, nanos: int) -> bool {
    &&& FIRST_SECOND <= secs <= LAST_SECOND
    &&& 0 <= nanos < 1_000_000_000 || (nanos < 2_000_000_000 && nanos >= 0 && secs % 60 == 59)
}

/// Whether a clock can be so many seconds ahead of UTC.
pub open spec fn is_offset(offset: int) -> bool {
    -DAY_SECONDS < offset < DAY_SECONDS
}

/// The text of a point in time in the form of RFC 3339, as a clock with the offset shows it.
pub uninterp spec fn rfc3339(secs: int, nanos: int, offset: int) -> Seq<char>;

/// `DateTime::<Utc>::from_timestamp`, `FixedOffset::east_opt`, `with_timezone` and `to_rfc3339`:
/// the text of a point in time. The first two give a value for everything in their ranges; how
/// the last writes it is left to it.
#[verifier::external_body]
fn rfc3339_of(secs: i64, nanos: u32, offset: i32) -> (r: String)
    requires
        is_date(secs as int, nanos as int),
        is_offset(offset as int),
    ensures
        r@ == rfc3339(secs as int, nanos as int, offset as int),
{
    let zone = sea_orm::sqlx::types::chrono::FixedOffset::east_opt(offset).unwrap();
    let time = sea_orm::prelude::DateTimeUtc::from_timestamp(secs, nanos).unwrap();
    time.with_timezone(&zone).to_rfc3339()
}

impl Timestamp {
    #[verifier::type_invariant]
    closed spec fn in_range(&self) -> bool {
        is_date(self.secs as int, self.nanos as int) && is_offset(self.offset as int)
    }

    /// The whole seconds after the epoch.
    pub closed spec fn spec_secs(&self) -> int {
        self.secs as int
    }

    /// The nanoseconds after the last whole second.
    pub closed spec fn spec_nanos(&self) -> int {
        self.nanos as int
    }

    /// The seconds that the local clock is ahead of UTC.
    pub closed spec fn spec_offset(&self) -> int {
        self.offset as int
    }

    /// The place of the point in the course of time: of two points the earlier has the smaller
    /// one, whatever their offsets, and a leap second comes before the second behind it.
    pub open spec fn moment(&self) -> int {
        self.spec_secs() * 2_000_000_000 + self.spec_nanos()
    }

    /// The text of the point in the form of RFC 3339.
    pub open spec fn written(&self) -> Seq<char> {
        rfc3339(self.spec_secs(), self.spec_nanos(), self.spec_offset())
    }

    /// The point so many seconds and nanoseconds after the epoch, on a clock with the given
    /// offset, where there is a date for it.
    pub fn new(secs: i64, nanos: u32, offset: i32) -> (r: Option<Timestamp>)
        ensures
            match r {
                Some(t) => {
                    &&& is_date(secs as int, nanos as int)
                    &&& is_offset(offset as int)
                    &&& t.spec_secs() == secs
                    &&& t.spec_nanos() == nanos
                    &&& t.spec_offset() == offset
                },
                None => !(is_date(secs as int, nanos as int) && is_offset(offset as int)),
            },
    {
        if secs < FIRST_SECOND || secs > LAST_SECOND || offset <= -DAY_SECONDS || offset
            >= DAY_SECONDS {
            return None;
        }
        let since_first = (secs - FIRST_SECOND) as u64;
        let last_of_minute = since_first % 60 == 59;
        assert(last_of_minute == (secs % 60 == 59));
        if nanos < 1_000_000_000 || (nanos < 2_000_000_000 && last_of_minute) {
            Some(Timestamp { secs, nanos, offset })
        } else {
            None
        }
    }

    /// The whole seconds after the epoch.
    pub fn secs(&self) -> (r: i64)
        ensures
            r == self.spec_secs(),
    {
        self.secs
    }

    /// The nanoseconds after the last whole second.
    pub fn nanos(&self) -> (r: u32)
        ensures
            r == self.spec_nanos(),
    {
        self.nanos
    }

    /// The seconds that the local clock is ahead of UTC.
    pub fn offset(&self) -> (r: i32)
        ensures
            r == self.spec_offset(),
    {
        self.offset
    }

    /// The same point on a clock that shows UTC.
    pub fn to_utc(&self) -> (r: Timestamp)
        ensures
            r.spec_secs() == self.spec_secs(),
            r.spec_nanos() == self.spec_nanos(),
            r.spec_offset() == 0,
    {
        proof {
            use_type_invariant(self);
        }
        Timestamp { secs: self.secs, nanos: self.nanos, offset: 0 }
    }

    /// Whether this point in time is at or before `other`.
    pub fn at_or_before(&self, other: &Timestamp) -> (r: bool)
        ensures
            r == (self.moment() <= other.moment()),
            r == (self.spec_secs() < other.spec_secs() || (self.spec_secs() == other.spec_secs()
                && self.spec_nanos() <= other.spec_nanos())),
    {
        proof {
            use_type_invariant(self);
            use_type_invariant(other);
        }
        self.secs < other.secs || (self.secs == other.secs && self.nanos <= other.nanos)
    }

    /// The point in time in the form of RFC 3339, as the local clock shows it.
    pub fn to_rfc3339(&self) -> (r: String)
        ensures
            r@ == self.written(),
            r@ == rfc3339(self.spec_secs(), self.spec_nanos(), self.spec_offset()),
    {
        proof {
            use_type_invariant(self);
        }
        rfc3339_of(self.secs, self.nanos, self.offset)
    }
}

/// Two points are equal where they are the same moment, whatever their offsets.
impl PartialEq for Timestamp {
    fn eq(&self, other: &Timestamp) -> (r: bool) {
        proof {
            use_type_invariant(self);
            use_type_invariant(other);
        }
        self.secs == other.secs && self.nanos == other.nanos
    }
}

impl vstd::std_specs::cmp::PartialEqSpecImpl for Timestamp {
    open spec fn obeys_eq_spec() -> bool {
        true
    }

    open spec fn eq_spec(&self, other: &Timestamp) -> bool {
        self.moment() == other.moment()
    }
}

impl Eq for Timestamp {

}

/// Of two points in time the earlier is the one with fewer whole seconds, or with as many and
/// fewer nanoseconds; they are one where both agree. The offsets of their clocks do not count.
pub proof fn law_time_is_ordered_by_seconds_and_nanoseconds(a: Timestamp, b: Timestamp)
    requires
        0 <= a.spec_nanos() < 2_000_000_000,
        0 <= b.spec_nanos() < 2_000_000_000,
    ensures
        a.moment() < b.moment() <==> a.spec_secs() < b.spec_secs() || (a.spec_secs()
            == b.spec_secs() && a.spec_nanos() < b.spec_nanos()),
        a.moment() == b.moment() <==> a.spec_secs() == b.spec_secs() && a.spec_nanos()
            == b.spec_nanos(),
{
}

/// There is a date for every second of the years that can be written, with every nanosecond of
/// it, and with those of a leap second at the end of a minute; a clock is less than a day off.
pub proof fn law_dates(secs: int, nanos: int, offset: int)
    ensures
        -8_334_601_228_800 <= secs <= 8_210_266_876_799 && 0 <= nanos < 1_000_000_000 ==> is_date(
            secs,
            nanos,
        ),
        -8_334_601_228_800 <= secs <= 8_210_266_876_799 && 0 <= nanos < 2_000_000_000 && secs % 60
            == 59 ==> is_date(secs, nanos),
        is_date(secs, nanos) ==> -8_334_601_228_800 <= secs <= 8_210_266_876_799 && 0 <= nanos
            < 2_000_000_000 && (nanos < 1_000_000_000 || secs % 60 == 59),
        is_offset(offset) <==> -86_400 < offset < 86_400,
{
}

} // verus!
