//! Nanosecond timestamps.
//!
//! [`NsTimestamp`] counts nanoseconds since the Unix epoch in an `i128`, so
//! both directions of time are representable. Conversions that narrow the
//! value report when it does not fit.
use vstd::prelude::*;

verus! {

/// Failure of a timestamp conversion.
#[derive(Debug, Clone, Copy, PartialEq, Eq, Structural)]
pub enum Error {
    /// The value does not fit the target unit.
    OutOfRange,
}

/// A point in time, in nanoseconds since the Unix epoch; negative values lie
/// before the epoch.
#[derive(Debug, Clone, Copy, PartialEq, Eq, Structural, PartialOrd, Ord, Hash)]
pub struct NsTimestamp(i128);

impl View for NsTimestamp {
    type V = int;

    closed spec fn view(&self) -> int {
        self.0 as int
    }
}

/// Two timestamps are the same moment exactly when their values agree.
pub broadcast proof fn lemma_view_injective(a: NsTimestamp, b: NsTimestamp)
    ensures
        (#[trigger] a@ == #[trigger] b@) <==> a == b,
{
}

/// A timestamp's value always fits the machine representation.
pub broadcast proof fn lemma_view_in_range(t: NsTimestamp)
    ensures
        i128::MIN <= #[trigger] t@ <= i128::MAX,
{
}

/// Relies on `std::time::SystemTime::now` and
/// `SystemTime::duration_since(UNIX_EPOCH)`: reads the system clock and hands
/// it out as a sign and a magnitude in nanoseconds. The magnitude of a
/// `Duration` is at most `u64::MAX` seconds and then some nanoseconds, which
/// bounds the result.
#[verifier::external_body]
fn system_clock_nanos() -> (r: (bool, u128))
    ensures
        r.1 <= 0xFFFF_FFFF_FFFF_FFFFu128 * 1_000_000_000 + 999_999_999,
{
    match std::time::SystemTime::now().duration_since(std::time::UNIX_EPOCH) {
        Ok(after) => (false, after.as_nanos()),
        Err(before) => (true, before.duration().as_nanos()),
    }
}

impl NsTimestamp {
    /// The current moment, read from the system clock.
    pub fn now() -> NsTimestamp {
        let (negative, magnitude) = system_clock_nanos();
        let nanos: i128 = if negative {
            -(magnitude as i128)
        } else {
            magnitude as i128
        };
        NsTimestamp(nanos)
    }

    /// The index of the second this moment falls in; rounds towards minus
    /// infinity, so the second has already begun.
    pub fn as_secs(self) -> (r: i128)
        ensures
            r as int == self@ / 1_000_000_000,
    {
        self.0.checked_div_euclid(1_000_000_000).unwrap()
    }

    /// The index of the millisecond this moment falls in; rounds towards
    /// minus infinity.
    pub fn as_millis(self) -> (r: i128)
        ensures
            r as int == self@ / 1_000_000,
    {
        self.0.checked_div_euclid(1_000_000).unwrap()
    }

    /// The index of the microsecond this moment falls in; rounds towards
    /// minus infinity.
    pub fn as_micros(self) -> (r: i128)
        ensures
            r as int == self@ / 1_000,
    {
        self.0.checked_div_euclid(1_000).unwrap()
    }

    /// The exact count of nanoseconds since the epoch.
    pub fn as_nanos(self) -> (r: i128)
        ensures
            r as int == self@,
    {
        self.0
    }

    /// The beginning of the given second. Any `i64` count of seconds fits.
    pub fn from_secs(secs: i64) -> (r: NsTimestamp)
        ensures
            r@ == secs * 1_000_000_000,
    {
        NsTimestamp((secs as i128) * 1_000_000_000)
    }

    /// The beginning of the given second, for a count that may not fit.
    pub fn try_from_secs(secs: i128) -> (r: Result<NsTimestamp, Error>)
        ensures
            match r {
                Ok(t) => t@ == secs * 1_000_000_000 && i128::MIN <= secs * 1_000_000_000
                    <= i128::MAX,
                Err(e) => e == Error::OutOfRange && !(i128::MIN <= secs * 1_000_000_000
                    <= i128::MAX),
            },
    {
        match secs.checked_mul(1_000_000_000) {
            Some(nanos) => Ok(NsTimestamp(nanos)),
            None => Err(Error::OutOfRange),
        }
    }

    /// The beginning of the given millisecond. Any `i64` count fits.
    pub fn from_millis(millis: i64) -> (r: NsTimestamp)
        ensures
            r@ == millis * 1_000_000,
    {
        NsTimestamp((millis as i128) * 1_000_000)
    }

    /// The beginning of the given millisecond, for a count that may not fit.
    pub fn try_from_millis(millis: i128) -> (r: Result<NsTimestamp, Error>)
        ensures
            match r {
                Ok(t) => t@ == millis * 1_000_000 && i128::MIN <= millis * 1_000_000
                    <= i128::MAX,
                Err(e) => e == Error::OutOfRange && !(i128::MIN <= millis * 1_000_000
                    <= i128::MAX),
            },
    {
        match millis.checked_mul(1_000_000) {
            Some(nanos) => Ok(NsTimestamp(nanos)),
            None => Err(Error::OutOfRange),
        }
    }

    /// The beginning of the given microsecond. Any `i64` count fits.
    pub fn from_micros(micros: i64) -> (r: NsTimestamp)
        ensures
            r@ == micros * 1_000,
    {
        NsTimestamp((micros as i128) * 1_000)
    }

    /// The beginning of the given microsecond, for a count that may not fit.
    pub fn try_from_micros(micros: i128) -> (r: Result<NsTimestamp, Error>)
        ensures
            match r {
                Ok(t) => t@ == micros * 1_000 && i128::MIN <= micros * 1_000 <= i128::MAX,
                Err(e) => e == Error::OutOfRange && !(i128::MIN <= micros * 1_000 <= i128::MAX),
            },
    {
        match micros.checked_mul(1_000) {
            Some(nanos) => Ok(NsTimestamp(nanos)),
            None => Err(Error::OutOfRange),
        }
    }

    /// The moment exactly that many nanoseconds after the epoch.
    pub fn from_nanos(nanos: i128) -> (r: NsTimestamp)
        ensures
            r@ == nanos,
    {
        NsTimestamp(nanos)
    }

    /// The moment as far before `origin` as this one lies after it (and the
    /// other way round). The inputs whose mirror image overflows are
    /// excluded.
    pub fn invert_with_origin(self, origin: NsTimestamp) -> (r: NsTimestamp)
        requires
            i128::MIN <= self@ - origin@ <= i128::MAX,
            i128::MIN <= origin@ - (self@ - origin@) <= i128::MAX,
        ensures
            r@ == origin@ - (self@ - origin@),
    {
        let duration_since_origin = self.0 - origin.0;
        NsTimestamp(origin.0 - duration_since_origin)
    }
}

} // verus!
