//! Spans of time and instants, as plain numbers.

use core::cmp::Ordering;
use vstd::prelude::*;

verus! {

/// Nanoseconds in a second.
pub const NANOS_PER_SECOND: i64 = 1_000_000_000;

/// The largest number of whole seconds that a [`Duration`] holds, either way.
pub const MAX_SECONDS: i64 = 9_223_372_036_854_775;

/// The largest number of nanoseconds in a [`Duration`], either way: as many
/// milliseconds as an `i64` counts.
pub open spec fn max_nanos() -> int {
    i64::MAX * 1_000_000
}

/// A signed span of time with nanosecond precision. Its view is its length in
/// nanoseconds.
///
/// The seconds are cut towards zero, so that the nanoseconds, which never make
/// up a whole second, have the sign of the span.
#[derive(Clone, Copy, Debug, Eq, Ord, Hash)]
pub struct Duration {
    secs: i64,
    nanos: i32,
}

impl View for Duration {
    type V = int;

    closed spec fn view(&self) -> int {
        self.secs * NANOS_PER_SECOND + self.nanos
    }
}

/// `secs` and `nanos` are the two parts of a span, cut towards zero.
pub open spec fn duration_parts(secs: int, nanos: int) -> bool {
    &&& -NANOS_PER_SECOND < nanos < NANOS_PER_SECOND
    &&& secs > 0 ==> nanos >= 0
    &&& secs < 0 ==> nanos <= 0
    &&& -max_nanos() <= secs * NANOS_PER_SECOND + nanos <= max_nanos()
}

/// `TimeDelta::minutes` of `chrono`, as the two parts that `num_seconds` and
/// `subsec_nanos` give back: sixty seconds a minute and no nanoseconds. It
/// panics out of the bounds that `requires` sets.
#[verifier::external_body]
fn delta_of_minutes(minutes: i64) -> (parts: (i64, i32))
    requires
        -MAX_SECONDS <= minutes * 60 <= MAX_SECONDS,
    ensures
        parts.0 == minutes * 60,
        parts.1 == 0,
{
    let delta = chrono::TimeDelta::minutes(minutes);
    (delta.num_seconds(), delta.subsec_nanos())
}

/// `TimeDelta::seconds` of `chrono`, as the two parts that `num_seconds` and
/// `subsec_nanos` give back: the seconds and no nanoseconds. It panics out of
/// the bounds that `requires` sets.
#[verifier::external_body]
fn delta_of_seconds(seconds: i64) -> (parts: (i64, i32))
    requires
        -MAX_SECONDS <= seconds <= MAX_SECONDS,
    ensures
        parts.0 == seconds,
        parts.1 == 0,
{
    let delta = chrono::TimeDelta::seconds(seconds);
    (delta.num_seconds(), delta.subsec_nanos())
}

impl Duration {
    #[verifier::type_invariant]
    spec fn well_formed(self) -> bool {
        duration_parts(self.secs as int, self.nanos as int)
    }

    /// A span of `minutes`.
    pub fn minutes(minutes: i64) -> (span: Self)
        requires
            -MAX_SECONDS <= minutes * 60 <= MAX_SECONDS,
        ensures
            span@ == minutes * 60 * NANOS_PER_SECOND,
    {
        let (secs, nanos) = delta_of_minutes(minutes);
        Duration { secs, nanos }
    }

    /// A span of `seconds`.
    pub fn seconds(seconds: i64) -> (span: Self)
        requires
            -MAX_SECONDS <= seconds <= MAX_SECONDS,
        ensures
            span@ == seconds * NANOS_PER_SECOND,
    {
        let (secs, nanos) = delta_of_seconds(seconds);
        Duration { secs, nanos }
    }

    /// The span of `secs` seconds and `nanos` nanoseconds, both of its sign;
    /// `None` where the two are not the parts of a span.
    pub fn from_parts(secs: i64, nanos: i32) -> (span: Option<Self>)
        ensures
            span is Some <==> duration_parts(secs as int, nanos as int),
            span matches Some(d) ==> d@ == secs * NANOS_PER_SECOND + nanos,
    {
        if nanos <= -1_000_000_000 || nanos >= 1_000_000_000 {
            return None;
        }
        if (secs > 0 && nanos < 0) || (secs < 0 && nanos > 0) {
            return None;
        }
        if secs > MAX_SECONDS || (secs == MAX_SECONDS && nanos > 807_000_000) {
            return None;
        }
        if secs < -MAX_SECONDS || (secs == -MAX_SECONDS && nanos < -807_000_000) {
            return None;
        }
        Some(Duration { secs, nanos })
    }

    /// The whole seconds of the span, cut towards zero.
    pub fn num_seconds(&self) -> (secs: i64)
        ensures
            self@ >= 0 ==> secs == self@ / (NANOS_PER_SECOND as int),
            self@ < 0 ==> secs == -((-self@) / (NANOS_PER_SECOND as int)),
    {
        proof {
            use_type_invariant(self);
        }
        self.secs
    }

    /// What the whole seconds leave of the span, in nanoseconds.
    pub fn subsec_nanos(&self) -> (nanos: i32)
        ensures
            self@ >= 0 ==> nanos == self@ % (NANOS_PER_SECOND as int),
            self@ < 0 ==> nanos == -((-self@) % (NANOS_PER_SECOND as int)),
    {
        proof {
            use_type_invariant(self);
        }
        self.nanos
    }
}

/// Spans are equal when their lengths are.
impl PartialEq for Duration {
    fn eq(&self, other: &Self) -> (equal: bool) {
        proof {
            use_type_invariant(self);
            use_type_invariant(other);
        }
        self.secs == other.secs && self.nanos == other.nanos
    }
}

impl vstd::std_specs::cmp::PartialEqSpecImpl for Duration {
    open spec fn obeys_eq_spec() -> bool {
        true
    }

    open spec fn eq_spec(&self, other: &Self) -> bool {
        self@ == other@
    }
}

/// Spans compare by their length.
impl PartialOrd for Duration {
    fn partial_cmp(&self, other: &Self) -> (ordering: Option<Ordering>) {
        proof {
            use_type_invariant(self);
            use_type_invariant(other);
        }
        if self.secs < other.secs || (self.secs == other.secs && self.nanos < other.nanos) {
            Some(Ordering::Less)
        } else if self.secs == other.secs && self.nanos == other.nanos {
            Some(Ordering::Equal)
        } else {
            Some(Ordering::Greater)
        }
    }
}

impl vstd::std_specs::cmp::PartialOrdSpecImpl for Duration {
    open spec fn obeys_partial_cmp_spec() -> bool {
        true
    }

    open spec fn partial_cmp_spec(&self, other: &Self) -> Option<Ordering> {
        if self@ < other@ {
            Some(Ordering::Less)
        } else if self@ == other@ {
            Some(Ordering::Equal)
        } else {
            Some(Ordering::Greater)
        }
    }
}

/// The first and the last second that a [`Timestamp`] names: the bounds of the
/// years -262143 and 262142.
pub const FIRST_SECOND: i64 = -8_334_601_228_800;

/// See [`FIRST_SECOND`].
pub const LAST_SECOND: i64 = 8_210_266_876_799;

/// `secs` and `nanos` name an instant. A nanosecond part of a second or more
/// stands for a leap second, which may follow any second.
pub open spec fn instant_parts(secs: int, nanos: int) -> bool {
    &&& FIRST_SECOND <= secs <= LAST_SECOND
    &&& 0 <= nanos < 2 * NANOS_PER_SECOND
}

/// An instant in UTC. Its view is the number of non-leap seconds since the
/// beginning of 1970, and the nanoseconds since the last of them.
#[derive(Clone, Copy, Debug, Eq, Ord, Hash)]
pub struct Timestamp {
    secs: i64,
    nanos: u32,
}

impl View for Timestamp {
    type V = (int, int);

    closed spec fn view(&self) -> (int, int) {
        (self.secs as int, self.nanos as int)
    }
}

/// The instant that `DateTime::from_timestamp` of `chrono` makes of the whole
/// seconds and `with_nanosecond` completes, as the two parts that `timestamp`
/// and `timestamp_subsec_nanos` give back: the parts that went in, wherever
/// they name an instant, and `None` elsewhere.
#[verifier::external_body]
fn instant_of_parts(secs: i64, nanos: u32) -> (parts: Option<(i64, u32)>)
    ensures
        parts is Some <==> instant_parts(secs as int, nanos as int),
        parts matches Some(same) ==> same == (secs, nanos),
{
    let whole = chrono::DateTime::from_timestamp(secs, 0)?;
    let instant = chrono::Timelike::with_nanosecond(&whole.naive_utc(), nanos)?.and_utc();
    Some((instant.timestamp(), instant.timestamp_subsec_nanos()))
}

/// `Utc::now` of `chrono`, as the two parts that `timestamp` and
/// `timestamp_subsec_nanos` give back. Which instant it is, the system clock
/// decides; it is always one that a [`Timestamp`] names, and never within a
/// leap second. A clock that is set before 1970, or past the last year that a
/// [`Timestamp`] names, makes `Utc::now` panic.
#[verifier::external_body]
fn instant_now() -> (parts: (i64, u32))
    ensures
        instant_parts(parts.0 as int, parts.1 as int),
        parts.1 < NANOS_PER_SECOND,
{
    let instant = chrono::Utc::now();
    (instant.timestamp(), instant.timestamp_subsec_nanos())
}

impl Timestamp {
    #[verifier::type_invariant]
    spec fn well_formed(self) -> bool {
        instant_parts(self.secs as int, self.nanos as int)
    }

    /// The instant is one that a reading of the system clock gives.
    pub closed spec fn read_from_the_clock(self) -> bool {
        call_ensures(instant_now, (), (self.secs, self.nanos))
    }

    /// An instant that was read from the clock has the two parts that `chrono`
    /// gave for its reading.
    proof fn readings_come_from_chrono(self)
        ensures
            self.read_from_the_clock() <==> call_ensures(instant_now, (), (self.secs, self.nanos)),
            self@ == (self.secs as int, self.nanos as int),
    {
    }

    /// What the system clock reads, which is never within a leap second.
    ///
    /// # Panics
    /// Panics when the clock is set before 1970 or past the year 262142.
    pub fn now() -> (instant: Self)
        ensures
            instant.read_from_the_clock(),
            instant_parts(instant@.0, instant@.1),
            instant@.1 < NANOS_PER_SECOND,
    {
        let (secs, nanos) = instant_now();
        Timestamp { secs, nanos }
    }

    /// The instant `secs` seconds and `nanos` nanoseconds after the beginning
    /// of 1970; `None` where the two name no instant.
    pub fn from_parts(secs: i64, nanos: u32) -> (instant: Option<Self>)
        ensures
            instant is Some <==> instant_parts(secs as int, nanos as int),
            instant matches Some(t) ==> t@ == (secs as int, nanos as int),
    {
        match instant_of_parts(secs, nanos) {
            Some((secs, nanos)) => Some(Timestamp { secs, nanos }),
            None => None,
        }
    }

    /// The non-leap seconds since the beginning of 1970.
    pub fn unix_seconds(&self) -> (secs: i64)
        ensures
            secs == self@.0,
            instant_parts(self@.0, self@.1),
    {
        proof {
            use_type_invariant(self);
        }
        self.secs
    }

    /// The nanoseconds since the last non-leap second.
    pub fn subsec_nanos(&self) -> (nanos: u32)
        ensures
            nanos == self@.1,
            instant_parts(self@.0, self@.1),
    {
        proof {
            use_type_invariant(self);
        }
        self.nanos
    }
}

/// Instants are equal when both their parts are.
impl PartialEq for Timestamp {
    fn eq(&self, other: &Self) -> (equal: bool) {
        self.secs == other.secs && self.nanos == other.nanos
    }
}

impl vstd::std_specs::cmp::PartialEqSpecImpl for Timestamp {
    open spec fn obeys_eq_spec() -> bool {
        true
    }

    open spec fn eq_spec(&self, other: &Self) -> bool {
        self@ == other@
    }
}

/// Instants compare by their seconds, and within a second by their nanoseconds.
impl PartialOrd for Timestamp {
    fn partial_cmp(&self, other: &Self) -> (ordering: Option<Ordering>) {
        if self.secs < other.secs || (self.secs == other.secs && self.nanos < other.nanos) {
            Some(Ordering::Less)
        } else if self.secs == other.secs && self.nanos == other.nanos {
            Some(Ordering::Equal)
        } else {
            Some(Ordering::Greater)
        }
    }
}

impl vstd::std_specs::cmp::PartialOrdSpecImpl for Timestamp {
    open spec fn obeys_partial_cmp_spec() -> bool {
        true
    }

    open spec fn partial_cmp_spec(&self, other: &Self) -> Option<Ordering> {
        if self@.0 < other@.0 || (self@.0 == other@.0 && self@.1 < other@.1) {
            Some(Ordering::Less)
        } else if self@ == other@ {
            Some(Ordering::Equal)
        } else {
            Some(Ordering::Greater)
        }
    }
}

} // verus!
