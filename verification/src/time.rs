//! Points in time and the spans between them.

use crate::calendar::{
    civil_exists, civil_fields, civil_reading, civil_seconds, printable, read_clock, read_rfc2822,
    rfc2822_reading, rfc2822_text, utc_seconds, write_rfc2822, Civil, FIRST_SECOND, LAST_SECOND,
};
use vstd::prelude::*;
use vstd::std_specs::cmp::{PartialEqSpec, PartialOrdSpec};
use vstd::std_specs::ops::{AddSpec, SubSpec};

verus! {

/// Why an operation on times failed.
#[derive(Clone, Copy, Debug, PartialEq, Eq, Structural)]
pub enum TimeErrorKind {
    /// The components do not name a second that exists.
    InvalidCalendarDate,
    /// The text is not a timestamp in the canonical form.
    TimeParseFailure,
    /// A span was divided by a span of zero length.
    DivisionByZeroDuration,
}

/// The error of the operations on times.
#[derive(Clone, Copy, Debug, PartialEq, Eq, Structural)]
pub struct TimeError {
    pub kind: TimeErrorKind,
}

/// A signed span of whole seconds.
#[derive(Clone, Copy, Debug, PartialEq, Eq, Structural, PartialOrd, Ord)]
pub struct Duration {
    seconds: i64,
}

/// One span measured in another: an exact fraction of whole seconds.
#[derive(Clone, Copy, Debug, PartialEq, Eq, Structural)]
pub struct Ratio {
    pub numerator: i64,
    pub denominator: i64,
}

impl View for Duration {
    type V = int;

    /// The length in seconds.
    closed spec fn view(&self) -> int {
        self.seconds as int
    }
}

impl Duration {
    /// The span of the given number of seconds.
    pub closed spec fn of(seconds: int) -> Duration {
        Duration { seconds: seconds as i64 }
    }

    /// Two spans of the same length are the same value.
    pub proof fn lemma_determined(a: Duration, b: Duration)
        requires
            a@ == b@,
        ensures
            a == b,
    {
    }

    /// The span of a number of seconds that fits has that length.
    pub proof fn lemma_of(seconds: int)
        requires
            i64::MIN <= seconds <= i64::MAX,
        ensures
            Duration::of(seconds)@ == seconds,
    {
    }

    /// A span of `seconds` seconds.
    pub fn from_seconds(seconds: i64) -> (d: Duration)
        ensures
            d@ == seconds,
    {
        Duration { seconds }
    }

    /// A span of `minutes` minutes.
    pub fn from_minutes(minutes: i64) -> (d: Duration)
        requires
            i64::MIN <= minutes * 60 <= i64::MAX,
        ensures
            d@ == minutes * 60,
    {
        Duration { seconds: minutes * 60 }
    }

    /// A span of `hours` hours.
    pub fn from_hours(hours: i64) -> (d: Duration)
        requires
            i64::MIN <= hours * 3600 <= i64::MAX,
        ensures
            d@ == hours * 3600,
    {
        Duration { seconds: hours * 3600 }
    }

    /// The length in whole seconds.
    pub fn num_seconds(&self) -> (s: i64)
        ensures
            s == self@,
    {
        self.seconds
    }

    /// This span measured in `unit`, as an exact fraction. A unit of zero
    /// length is refused.
    pub fn checked_div(&self, unit: &Duration) -> (r: Result<Ratio, TimeError>)
        ensures
            unit@ != 0 ==> r == Ok::<Ratio, TimeError>(
                Ratio { numerator: self@ as i64, denominator: unit@ as i64 },
            ),
            unit@ == 0 ==> r == Err::<Ratio, TimeError>(
                TimeError { kind: TimeErrorKind::DivisionByZeroDuration },
            ),
    {
        if unit.seconds == 0 {
            Err(TimeError { kind: TimeErrorKind::DivisionByZeroDuration })
        } else {
            Ok(Ratio { numerator: self.seconds, denominator: unit.seconds })
        }
    }
}

/// A point in time: a second counted from the Unix epoch, seen from a fixed
/// offset east of UTC. Every value has a canonical text, so the offset is a
/// whole number of minutes and the local year has four digits.
///
/// Times are ordered and compared by the instant alone; the offset only
/// decides how the time is written.
#[derive(Clone, Copy, Debug)]
pub struct Time {
    instant: i64,
    offset: i32,
}

/// The second nearest to `instant` that lies between `low` and `high`.
pub open spec fn clamped(instant: int, low: int, high: int) -> int {
    if instant < low {
        low
    } else if instant > high {
        high
    } else {
        instant
    }
}

impl Time {
    /// The seconds from the Unix epoch.
    pub closed spec fn instant(&self) -> int {
        self.instant as int
    }

    /// The seconds that local time is ahead of UTC.
    pub closed spec fn offset(&self) -> int {
        self.offset as int
    }

    /// The time of an instant at an offset.
    pub closed spec fn at(instant: int, offset: int) -> Time {
        Time { instant: instant as i64, offset: offset as i32 }
    }

    /// A time made of an instant and an offset that it can hold has them.
    pub proof fn lemma_at(instant: int, offset: int)
        requires
            printable(instant, offset),
        ensures
            Time::at(instant, offset).instant() == instant,
            Time::at(instant, offset).offset() == offset,
            Time::at(instant, offset).wf(),
    {
    }

    /// A time is the time of its instant at its offset.
    pub proof fn lemma_at_self(t: Time)
        requires
            t.wf(),
        ensures
            Time::at(t.instant(), t.offset()) == t,
    {
    }

    /// What holds of every time that executable code can hold.
    #[verifier::type_invariant]
    pub open spec fn wf(&self) -> bool {
        printable(self.instant(), self.offset())
    }

    /// The canonical text of the time.
    pub open spec fn text(&self) -> Seq<char> {
        rfc2822_text(self.instant(), self.offset())
    }

    /// The instant and offset that a text stands for, where it is a canonical
    /// timestamp of a time that this type can hold.
    pub open spec fn parsed(text: Seq<char>) -> Option<(int, int)> {
        match rfc2822_reading(text) {
            Some(p) => if printable(p.0, p.1) {
                Some(p)
            } else {
                None
            },
            None => None,
        }
    }

    /// The time of a civil date and time in UTC, or the error where the
    /// components do not name an existing second of the years 0 to 9999.
    pub open spec fn of_civil(
        day: u32,
        month: u32,
        year: u32,
        hour: u32,
        minute: u32,
        second: u32,
    ) -> Result<Time, TimeError> {
        if civil_exists(
            year as int,
            month as int,
            day as int,
            hour as int,
            minute as int,
            second as int,
        ) {
            Ok(
                Time::at(
                    civil_seconds(
                        year as int,
                        month as int,
                        day as int,
                        hour as int,
                        minute as int,
                        second as int,
                    ),
                    0,
                ),
            )
        } else {
            Err(TimeError { kind: TimeErrorKind::InvalidCalendarDate })
        }
    }

    /// The first instant that can be held at `offset`.
    pub open spec fn earliest(offset: int) -> int {
        FIRST_SECOND - offset
    }

    /// The last instant that can be held at `offset`.
    pub open spec fn latest(offset: int) -> int {
        LAST_SECOND - offset
    }

    /// Two times with the same instant and offset are the same value.
    pub proof fn lemma_determined(a: Time, b: Time)
        requires
            a.instant() == b.instant(),
            a.offset() == b.offset(),
        ensures
            a == b,
    {
    }

    /// The time of a civil date and time in UTC. Fails, without rounding or
    /// clamping, where the components do not name an existing second of the
    /// years 0 to 9999.
    pub fn new(day: u32, month: u32, year: u32, hour: u32, minute: u32, second: u32) -> (r: Result<
        Time,
        TimeError,
    >)
        ensures
            r == Time::of_civil(day, month, year, hour, minute, second),
            civil_exists(
                year as int,
                month as int,
                day as int,
                hour as int,
                minute as int,
                second as int,
            ) ==> (r matches Ok(t) && t.offset() == 0 && t.instant() == civil_seconds(
                year as int,
                month as int,
                day as int,
                hour as int,
                minute as int,
                second as int,
            )),
            !civil_exists(
                year as int,
                month as int,
                day as int,
                hour as int,
                minute as int,
                second as int,
            ) ==> r == Err::<Time, TimeError>(
                TimeError { kind: TimeErrorKind::InvalidCalendarDate },
            ),
    {
        if year > 9999 {
            return Err(TimeError { kind: TimeErrorKind::InvalidCalendarDate });
        }
        match utc_seconds(Civil { year, month, day, hour, minute, second }) {
            Some(instant) => Ok(Time { instant, offset: 0 }),
            None => Err(TimeError { kind: TimeErrorKind::InvalidCalendarDate }),
        }
    }

    /// The time that a clock reading stands for. A reading that this type
    /// cannot hold is moved to the nearest second that it can hold in UTC.
    pub fn from_clock(instant: i64, offset: i32) -> (t: Time)
        ensures
            t.wf(),
            printable(instant as int, offset as int) ==> t.instant() == instant && t.offset()
                == offset,
            !printable(instant as int, offset as int) ==> t.offset() == 0 && t.instant()
                == clamped(instant as int, FIRST_SECOND as int, LAST_SECOND as int),
    {
        if Time::holds(instant, offset) {
            Time { instant, offset }
        } else if instant < FIRST_SECOND {
            Time { instant: FIRST_SECOND, offset: 0 }
        } else if instant > LAST_SECOND {
            Time { instant: LAST_SECOND, offset: 0 }
        } else {
            Time { instant, offset: 0 }
        }
    }

    /// The current time of the system clock, to the second.
    pub fn now() -> (t: Time)
        ensures
            t.wf(),
    {
        let (instant, offset) = read_clock();
        Time::from_clock(instant, offset)
    }

    /// Whether a text is the canonical timestamp of a time.
    pub fn is_timestamp(text: &str) -> (b: bool)
        ensures
            b == Time::parsed(text@).is_some(),
    {
        match read_rfc2822(text) {
            Some((instant, offset)) => Time::holds(instant, offset),
            None => false,
        }
    }

    /// The time that a canonical timestamp stands for.
    pub fn from(text: &str) -> (t: Time)
        requires
            Time::parsed(text@).is_some(),
        ensures
            Time::parsed(text@) == Some((t.instant(), t.offset())),
    {
        match read_rfc2822(text) {
            Some((instant, offset)) => Time { instant, offset },
            None => vstd::pervasive::unreached(),
        }
    }

    /// Reads a canonical timestamp; a text that is none is an error.
    pub fn parse(text: &str) -> (r: Result<Time, TimeError>)
        ensures
            match Time::parsed(text@) {
                Some(p) => r matches Ok(t) && t.instant() == p.0 && t.offset() == p.1,
                None => r == Err::<Time, TimeError>(
                    TimeError { kind: TimeErrorKind::TimeParseFailure },
                ),
            },
    {
        if Time::is_timestamp(text) {
            Ok(Time::from(text))
        } else {
            Err(TimeError { kind: TimeErrorKind::TimeParseFailure })
        }
    }

    /// The canonical text of the time. Reading the text gives the time back.
    pub fn to_string(&self) -> (text: String)
        ensures
            text@ == self.text(),
            Time::parsed(text@) == Some((self.instant(), self.offset())),
    {
        proof {
            use_type_invariant(self);
        }
        write_rfc2822(self.instant, self.offset)
    }

    /// The local date and time of day.
    pub fn civil(&self) -> (c: Civil)
        ensures
            c.is_real(),
            c.fields() == civil_reading(self.instant() + self.offset()),
    {
        proof {
            use_type_invariant(self);
        }
        civil_fields(self.instant, self.offset)
    }

    /// The local day of the month.
    pub fn day(&self) -> (d: u32)
        ensures
            d == civil_reading(self.instant() + self.offset()).2,
    {
        self.civil().day
    }

    /// The local month of the year.
    pub fn month(&self) -> (m: u32)
        ensures
            m == civil_reading(self.instant() + self.offset()).1,
    {
        self.civil().month
    }

    /// The local year.
    pub fn year(&self) -> (y: u32)
        ensures
            y == civil_reading(self.instant() + self.offset()).0,
    {
        self.civil().year
    }

    /// The local hour of the day.
    pub fn hour(&self) -> (h: u32)
        ensures
            h == civil_reading(self.instant() + self.offset()).3,
    {
        self.civil().hour
    }

    /// The local minute of the hour.
    pub fn minute(&self) -> (m: u32)
        ensures
            m == civil_reading(self.instant() + self.offset()).4,
    {
        self.civil().minute
    }

    /// The seconds from the Unix epoch.
    pub fn timestamp(&self) -> (s: i64)
        ensures
            s == self.instant(),
    {
        self.instant
    }

    /// The seconds that local time is ahead of UTC.
    pub fn utc_offset(&self) -> (s: i32)
        ensures
            s == self.offset(),
    {
        self.offset
    }

    /// Whether this time comes strictly before `other`.
    pub fn is_before(&self, other: &Time) -> (b: bool)
        ensures
            b == (self.instant() < other.instant()),
    {
        self.instant < other.instant
    }

    /// The span from `earlier` to this time; negative where this time comes
    /// first.
    pub fn since(&self, earlier: &Time) -> (d: Duration)
        ensures
            d@ == self.instant() - earlier.instant(),
            d == Duration::of(self.instant() - earlier.instant()),
    {
        proof {
            use_type_invariant(self);
            use_type_invariant(earlier);
        }
        Duration { seconds: self.instant - earlier.instant }
    }

    /// The time `span` after this one, at the same offset, where it can be
    /// held.
    pub fn checked_add(&self, span: &Duration) -> (r: Option<Time>)
        ensures
            printable(self.instant() + span@, self.offset()) ==> (r matches Some(t) && t.instant()
                == self.instant() + span@ && t.offset() == self.offset()),
            !printable(self.instant() + span@, self.offset()) ==> r is None,
    {
        proof {
            use_type_invariant(self);
        }
        let low: i64 = FIRST_SECOND - (self.offset as i64) - self.instant;
        let high: i64 = LAST_SECOND - (self.offset as i64) - self.instant;
        if low <= span.seconds && span.seconds <= high {
            Some(Time { instant: self.instant + span.seconds, offset: self.offset })
        } else {
            None
        }
    }

    /// The time `span` before this one, at the same offset, where it can be
    /// held.
    pub fn checked_sub(&self, span: &Duration) -> (r: Option<Time>)
        ensures
            printable(self.instant() - span@, self.offset()) ==> (r matches Some(t) && t.instant()
                == self.instant() - span@ && t.offset() == self.offset()),
            !printable(self.instant() - span@, self.offset()) ==> r is None,
    {
        proof {
            use_type_invariant(self);
        }
        let low: i64 = self.instant - (LAST_SECOND - (self.offset as i64));
        let high: i64 = self.instant - (FIRST_SECOND - (self.offset as i64));
        if low <= span.seconds && span.seconds <= high {
            Some(Time { instant: self.instant - span.seconds, offset: self.offset })
        } else {
            None
        }
    }

    /// The time `span` after this one, at the same offset; where that cannot
    /// be held, the nearest time that can.
    pub fn saturating_add(&self, span: &Duration) -> (t: Time)
        ensures
            t.wf(),
            t.offset() == self.offset(),
            t.instant() == clamped(
                self.instant() + span@,
                Time::earliest(self.offset()),
                Time::latest(self.offset()),
            ),
    {
        proof {
            use_type_invariant(self);
        }
        let low: i64 = FIRST_SECOND - (self.offset as i64) - self.instant;
        let high: i64 = LAST_SECOND - (self.offset as i64) - self.instant;
        if span.seconds < low {
            Time { instant: FIRST_SECOND - (self.offset as i64), offset: self.offset }
        } else if span.seconds > high {
            Time { instant: LAST_SECOND - (self.offset as i64), offset: self.offset }
        } else {
            Time { instant: self.instant + span.seconds, offset: self.offset }
        }
    }

    /// The time `span` before this one, at the same offset; where that cannot
    /// be held, the nearest time that can.
    pub fn saturating_sub(&self, span: &Duration) -> (t: Time)
        ensures
            t.wf(),
            t.offset() == self.offset(),
            t.instant() == clamped(
                self.instant() - span@,
                Time::earliest(self.offset()),
                Time::latest(self.offset()),
            ),
    {
        proof {
            use_type_invariant(self);
        }
        let low: i64 = self.instant - (LAST_SECOND - (self.offset as i64));
        let high: i64 = self.instant - (FIRST_SECOND - (self.offset as i64));
        if span.seconds < low {
            Time { instant: LAST_SECOND - (self.offset as i64), offset: self.offset }
        } else if span.seconds > high {
            Time { instant: FIRST_SECOND - (self.offset as i64), offset: self.offset }
        } else {
            Time { instant: self.instant - span.seconds, offset: self.offset }
        }
    }

    /// Whether a time can hold the instant at the offset.
    fn holds(instant: i64, offset: i32) -> (b: bool)
        ensures
            b == printable(instant as int, offset as int),
    {
        -86_400 < offset && offset < 86_400 && offset % 60 == 0 && FIRST_SECOND - 86_400
            <= instant && instant <= LAST_SECOND + 86_400 && FIRST_SECOND <= instant + (
        offset as i64) && instant + (offset as i64) <= LAST_SECOND
    }
}

impl PartialEq for Time {
    fn eq(&self, other: &Time) -> (b: bool) {
        self.instant == other.instant
    }
}

impl vstd::std_specs::cmp::PartialEqSpecImpl for Time {
    open spec fn obeys_eq_spec() -> bool {
        true
    }

    open spec fn eq_spec(&self, other: &Time) -> bool {
        self.instant() == other.instant()
    }
}

impl PartialOrd for Time {
    fn partial_cmp(&self, other: &Time) -> (o: Option<core::cmp::Ordering>) {
        if self.instant < other.instant {
            Some(core::cmp::Ordering::Less)
        } else if self.instant > other.instant {
            Some(core::cmp::Ordering::Greater)
        } else {
            Some(core::cmp::Ordering::Equal)
        }
    }
}

impl vstd::std_specs::cmp::PartialOrdSpecImpl for Time {
    open spec fn obeys_partial_cmp_spec() -> bool {
        true
    }

    open spec fn partial_cmp_spec(&self, other: &Time) -> Option<core::cmp::Ordering> {
        if self.instant() < other.instant() {
            Some(core::cmp::Ordering::Less)
        } else if self.instant() > other.instant() {
            Some(core::cmp::Ordering::Greater)
        } else {
            Some(core::cmp::Ordering::Equal)
        }
    }
}

impl<'a, 'b> core::ops::Sub<&'b Time> for &'a Time {
    type Output = Duration;

    fn sub(self, earlier: &'b Time) -> (d: Duration) {
        self.since(earlier)
    }
}

impl<'a, 'b> vstd::std_specs::ops::SubSpecImpl<&'b Time> for &'a Time {
    open spec fn obeys_sub_spec() -> bool {
        true
    }

    open spec fn sub_req(self, earlier: &'b Time) -> bool {
        true
    }

    open spec fn sub_spec(self, earlier: &'b Time) -> Duration {
        Duration::of(self.instant() - earlier.instant())
    }
}

impl<'a, 'b> core::ops::Add<&'b Duration> for &'a Time {
    type Output = Time;

    fn add(self, span: &'b Duration) -> (t: Time) {
        proof {
            use_type_invariant(self);
        }
        Time { instant: self.instant + span.seconds, offset: self.offset }
    }
}

impl<'a, 'b> vstd::std_specs::ops::AddSpecImpl<&'b Duration> for &'a Time {
    open spec fn obeys_add_spec() -> bool {
        true
    }

    open spec fn add_req(self, span: &'b Duration) -> bool {
        printable(self.instant() + span@, self.offset())
    }

    open spec fn add_spec(self, span: &'b Duration) -> Time {
        Time::at(self.instant() + span@, self.offset())
    }
}

impl<'a, 'b> core::ops::Sub<&'b Duration> for &'a Time {
    type Output = Time;

    fn sub(self, span: &'b Duration) -> (t: Time) {
        proof {
            use_type_invariant(self);
        }
        Time { instant: self.instant - span.seconds, offset: self.offset }
    }
}

impl<'a, 'b> vstd::std_specs::ops::SubSpecImpl<&'b Duration> for &'a Time {
    open spec fn obeys_sub_spec() -> bool {
        true
    }

    open spec fn sub_req(self, span: &'b Duration) -> bool {
        printable(self.instant() - span@, self.offset())
    }

    open spec fn sub_spec(self, span: &'b Duration) -> Time {
        Time::at(self.instant() - span@, self.offset())
    }
}

/// Adding a span to a time and then taking the span since that time gives
/// the span back, and taking it away again gives the time back.
pub proof fn lemma_add_then_subtract(time: Time, span: Duration)
    requires
        time.wf(),
        printable(time.instant() + span@, time.offset()),
    ensures
        (&time).add_req(&span),
        (&(&time).add_spec(&span)).sub_spec(&time) == span,
        (&(&time).add_spec(&span)).sub_req(&span),
        (&(&time).add_spec(&span)).sub_spec(&span) == time,
{
}

/// Times are totally ordered by their instant: of two times one comes
/// before the other or they are equal, never two of these at once, and
/// coming before is transitive.
pub proof fn lemma_order_is_total(a: Time, b: Time, c: Time)
    ensures
        a.partial_cmp_spec(&b) is Some,
        a.eq_spec(&b) <==> a.partial_cmp_spec(&b) == Some(core::cmp::Ordering::Equal),
        a.eq_spec(&b) <==> a.instant() == b.instant(),
        a.partial_cmp_spec(&b) == Some(core::cmp::Ordering::Less) <==> a.instant() < b.instant(),
        a.partial_cmp_spec(&b) == Some(core::cmp::Ordering::Less) <==> b.partial_cmp_spec(&a)
            == Some(core::cmp::Ordering::Greater),
        a.partial_cmp_spec(&b) == Some(core::cmp::Ordering::Less) && b.partial_cmp_spec(&c)
            == Some(core::cmp::Ordering::Less) ==> a.partial_cmp_spec(&c) == Some(
            core::cmp::Ordering::Less,
        ),
        a.eq_spec(&a),
{
}

} // verus!
