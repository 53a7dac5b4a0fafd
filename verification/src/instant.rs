//! Instants on the local timeline, held as plain integers.

use vstd::prelude::*;

verus! {

/// Nanoseconds in one second.
pub const NANOS_PER_SECOND: u32 = 1_000_000_000;

/// Seconds in one civil day.
pub const SECONDS_PER_DAY: i64 = 86_400;

/// First second of the year 1, counted from the Unix epoch.
pub const EARLIEST_SECOND: i64 = -62_135_596_800;

/// Last second of the year 9999, counted from the Unix epoch.
pub const LATEST_SECOND: i64 = 253_402_300_799;

/// An instant together with the offset of the zone it is read in.
///
/// `secs` and `nanos` count from the Unix epoch in UTC; `offset` is the number
/// of seconds that local clocks are ahead of UTC at that instant.
#[derive(Clone, Copy, Debug, PartialEq, Eq, Structural)]
pub struct LocalTimestamp {
    pub secs: i64,
    pub nanos: u32,
    pub offset: i32,
}

/// The three integers describe an instant that the calendar can hold.
pub open spec fn valid_instant(secs: int, nanos: int, offset: int) -> bool {
    &&& EARLIEST_SECOND <= secs <= LATEST_SECOND
    &&& 0 <= nanos < NANOS_PER_SECOND
    &&& -SECONDS_PER_DAY < offset < SECONDS_PER_DAY
}

impl LocalTimestamp {
    /// Well-formedness: a year of four digits, less than a second of
    /// nanoseconds, and an offset of less than a day.
    pub open spec fn wf(&self) -> bool {
        valid_instant(self.secs as int, self.nanos as int, self.offset as int)
    }

    /// Nanoseconds since the epoch: the position of the instant on the
    /// timeline, whatever zone it is read in.
    pub open spec fn position(&self) -> int {
        self.secs * NANOS_PER_SECOND + self.nanos
    }

    /// Seconds since local midnight, in `0..86_400`.
    pub open spec fn clock_second(&self) -> int {
        (self.secs + self.offset) % (SECONDS_PER_DAY as int)
    }

    /// Nanoseconds since local midnight.
    pub open spec fn clock_nanos(&self) -> int {
        self.clock_second() * NANOS_PER_SECOND + self.nanos
    }

    /// Makes a timestamp of three integers, or nothing where they are out of
    /// range.
    pub fn new(secs: i64, nanos: u32, offset: i32) -> (made: Option<LocalTimestamp>)
        ensures
            made.is_some() == valid_instant(secs as int, nanos as int, offset as int),
            made.is_some() ==> made.unwrap() == (LocalTimestamp { secs, nanos, offset }),
    {
        if EARLIEST_SECOND <= secs && secs <= LATEST_SECOND && nanos < NANOS_PER_SECOND
            && -SECONDS_PER_DAY < offset as i64 && (offset as i64) < SECONDS_PER_DAY {
            Some(LocalTimestamp { secs, nanos, offset })
        } else {
            None
        }
    }

    /// Whether `self` is no later than `other` on the timeline.
    pub fn at_or_before(&self, other: &LocalTimestamp) -> (earlier: bool)
        requires
            self.wf(),
            other.wf(),
        ensures
            earlier == (self.position() <= other.position()),
    {
        proof {
            lemma_position_order(*self, *other);
        }
        self.secs < other.secs || (self.secs == other.secs && self.nanos <= other.nanos)
    }

    /// Seconds since local midnight.
    pub fn second_of_day(&self) -> (second: i64)
        requires
            self.wf(),
        ensures
            second == self.clock_second(),
            0 <= second < SECONDS_PER_DAY,
    {
        // 719_164 whole days reach back past the earliest local second.
        let lifted: i64 = self.secs + self.offset as i64 + 719_164 * SECONDS_PER_DAY;
        proof {
            vstd::arithmetic::div_mod::lemma_mod_multiples_vanish(
                719_164,
                self.secs + self.offset,
                SECONDS_PER_DAY as int,
            );
        }
        lifted % SECONDS_PER_DAY
    }
}

/// Positions compare as the pairs of second and nanosecond do.
pub proof fn lemma_position_order(a: LocalTimestamp, b: LocalTimestamp)
    requires
        a.nanos < NANOS_PER_SECOND,
        b.nanos < NANOS_PER_SECOND,
    ensures
        a.position() <= b.position() <==> (a.secs < b.secs || (a.secs == b.secs && a.nanos
            <= b.nanos)),
        a.secs < b.secs ==> a.position() < b.position(),
{
}

} // verus!
