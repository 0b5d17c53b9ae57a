//! The clock capability: something that knows "today" in its own timezone.
//!
//! The core logic never reads the real clock.  It is handed a
//! [`DateTimeProvider`], whose contract guarantees that `tomorrow` and
//! `yesterday` are exactly one day after and before `today`, computed in the
//! provider's own timezone.  [`FixedProvider`] is the frozen, deterministic
//! implementation; a live implementation reads the clock once at the
//! boundary and freezes the result into a [`FixedProvider`].

use vstd::prelude::*;

verus! {

/// A calendar day, counted in whole days relative to the Unix epoch
/// (1970-01-01 is day 0, the day before is day -1).
#[derive(Debug, Clone, Copy, PartialEq, Eq, Structural)]
pub struct Date {
    pub days: i64,
}

/// Supplies "now"-derived calendar queries in an associated timezone.
pub trait DateTimeProvider {
    /// The day this provider reports as today.
    spec fn spec_today_days(&self) -> int;

    /// The UTC offset, in seconds, of the provider's timezone.
    spec fn spec_offset_secs(&self) -> int;

    /// The provider's internal consistency condition: it must leave room
    /// for the neighbouring days and keep to a sub-day UTC offset.
    spec fn wf(&self) -> bool;

    fn timezone(&self) -> (r: i32)
        requires
            self.wf(),
        ensures
            r as int == self.spec_offset_secs(),
    ;

    fn today(&self) -> (r: Date)
        requires
            self.wf(),
        ensures
            r.days as int == self.spec_today_days(),
    ;

    fn tomorrow(&self) -> (r: Date)
        requires
            self.wf(),
        ensures
            r.days as int == self.spec_today_days() + 1,
    ;

    fn yesterday(&self) -> (r: Date)
        requires
            self.wf(),
        ensures
            r.days as int == self.spec_today_days() - 1,
    ;
}

/// A provider frozen at a fixed day and timezone: the deterministic
/// implementation used wherever the result must not depend on the wall
/// clock.
#[derive(Debug, Clone, Copy, PartialEq, Eq, Structural)]
pub struct FixedProvider {
    pub date: Date,
    pub offset_secs: i32,
}

impl FixedProvider {
    pub open spec fn spec_new_ok(date: Date, offset_secs: i32) -> bool {
        &&& i64::MIN < date.days < i64::MAX
        &&& -86_400 < offset_secs < 86_400
    }

    pub fn new(date: Date, offset_secs: i32) -> (r: FixedProvider)
        requires
            Self::spec_new_ok(date, offset_secs),
        ensures
            r.wf(),
            r.spec_today_days() == date.days as int,
            r.spec_offset_secs() == offset_secs as int,
    {
        FixedProvider { date, offset_secs }
    }
}

impl DateTimeProvider for FixedProvider {
    open spec fn spec_today_days(&self) -> int {
        self.date.days as int
    }

    open spec fn spec_offset_secs(&self) -> int {
        self.offset_secs as int
    }

    open spec fn wf(&self) -> bool {
        Self::spec_new_ok(self.date, self.offset_secs)
    }

    fn timezone(&self) -> (r: i32) {
        self.offset_secs
    }

    fn today(&self) -> (r: Date) {
        self.date
    }

    fn tomorrow(&self) -> (r: Date) {
        Date { days: self.date.days + 1 }
    }

    fn yesterday(&self) -> (r: Date) {
        Date { days: self.date.days - 1 }
    }
}

} // verus!
