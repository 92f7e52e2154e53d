use vstd::prelude::*;
use vstd::arithmetic::div_mod::lemma_div_is_ordered;
use vstd::arithmetic::mul::lemma_mul_inequality;

verus! {

/// Nanoseconds in one second.
pub const NANOS_PER_SEC: u64 = 1_000_000_000;

/// The largest value a reading can take.
pub open spec fn reading_max() -> nat {
    u64::MAX as nat
}

/// `value`, or the largest reading where `value` does not fit in 64 bits.
pub open spec fn clamp_reading(value: int) -> nat {
    if value > reading_max() {
        reading_max()
    } else {
        value as nat
    }
}

/// Nanoseconds for `raw` ticks of a timebase with ratio `numer / denom`:
/// the product is taken before the division, in full precision, and a
/// quotient past the 64-bit range reads as the largest value.
pub open spec fn scaled_nanos(raw: nat, numer: nat, denom: nat) -> nat
    recommends
        denom > 0,
{
    clamp_reading(((raw * numer) / denom) as int)
}

/// Nanoseconds for a reading of `secs` seconds and `nanos` nanoseconds,
/// read as the largest value where the sum does not fit in 64 bits.
pub open spec fn timespec_nanos(secs: nat, nanos: nat) -> nat {
    clamp_reading(secs * NANOS_PER_SEC + nanos)
}

/// Why a monotonic clock could not be calibrated.
#[derive(Clone, Copy, Debug, PartialEq, Eq, Structural)]
pub enum CalibrationError {
    /// The operating system's calibration query reported failure.
    QueryFailed,
    /// The timebase had a numerator of zero: every reading would be zero.
    ZeroNumerator,
    /// The timebase had a denominator of zero (a tick frequency of zero).
    ZeroDenominator,
}

/// The operating system's monotonic clock, in nanoseconds since an arbitrary
/// epoch fixed for the process.
///
/// Where the operating system reports raw ticks, each reading is scaled by
/// `numer / denom`, fixed when the clock is built; where it reports
/// nanoseconds the ratio is one.
#[derive(Clone, Copy, Debug)]
pub struct Monotonic {
    numer: u64,
    denom: u64,
}

impl Monotonic {
    #[verifier::type_invariant]
    spec fn well_formed(self) -> bool {
        self.numer > 0 && self.denom > 0
    }

    /// The numerator of the tick-to-nanosecond ratio.
    pub closed spec fn numer_spec(self) -> nat {
        self.numer as nat
    }

    /// The denominator of the tick-to-nanosecond ratio.
    pub closed spec fn denom_spec(self) -> nat {
        self.denom as nat
    }

    /// A clock over a primitive that already reports nanoseconds: the ratio
    /// is one and nothing is queried.
    pub fn new() -> (r: Monotonic)
        ensures
            r.numer_spec() == 1,
            r.denom_spec() == 1,
    {
        Monotonic { numer: 1, denom: 1 }
    }

    /// A clock over a primitive that reports ticks, with the timebase ratio
    /// `numer / denom` that the operating system gave.
    pub fn from_timebase(numer: u64, denom: u64) -> (r: Result<Monotonic, CalibrationError>)
        ensures
            r is Ok <==> numer > 0 && denom > 0,
            r matches Ok(m) ==> m.numer_spec() == numer && m.denom_spec() == denom,
            numer == 0 ==> r == Err::<Monotonic, CalibrationError>(
                CalibrationError::ZeroNumerator,
            ),
            numer > 0 && denom == 0 ==> r == Err::<Monotonic, CalibrationError>(
                CalibrationError::ZeroDenominator,
            ),
    {
        if numer == 0 {
            Err(CalibrationError::ZeroNumerator)
        } else if denom == 0 {
            Err(CalibrationError::ZeroDenominator)
        } else {
            Ok(Monotonic { numer, denom })
        }
    }

    /// A clock over a performance counter that ticks `ticks_per_sec` times a
    /// second: a tick is `NANOS_PER_SEC / ticks_per_sec` nanoseconds.
    pub fn from_frequency(ticks_per_sec: u64) -> (r: Result<Monotonic, CalibrationError>)
        ensures
            r is Ok <==> ticks_per_sec > 0,
            r matches Ok(m) ==> m.numer_spec() == NANOS_PER_SEC && m.denom_spec()
                == ticks_per_sec,
            ticks_per_sec == 0 ==> r == Err::<Monotonic, CalibrationError>(
                CalibrationError::ZeroDenominator,
            ),
    {
        Monotonic::from_timebase(NANOS_PER_SEC, ticks_per_sec)
    }

    /// The numerator of the tick-to-nanosecond ratio.
    pub fn numer(&self) -> (r: u64)
        ensures
            r == self.numer_spec(),
            r > 0,
    {
        proof {
            use_type_invariant(self);
        }
        self.numer
    }

    /// The denominator of the tick-to-nanosecond ratio.
    pub fn denom(&self) -> (r: u64)
        ensures
            r == self.denom_spec(),
            r > 0,
    {
        proof {
            use_type_invariant(self);
        }
        self.denom
    }

    /// Converts a raw tick reading to nanoseconds.
    ///
    /// The product `raw * numer` is formed in 128 bits, so it never wraps and
    /// no precision is lost before the division; a quotient past the 64-bit
    /// range (some 584 years of nanoseconds) reads as `u64::MAX`.
    pub fn ticks_to_nanos(&self, raw: u64) -> (r: u64)
        ensures
            r == scaled_nanos(raw as nat, self.numer_spec(), self.denom_spec()),
    {
        proof {
            use_type_invariant(self);
        }
        let numer = self.numer as u128;
        let denom = self.denom as u128;
        let wide = raw as u128;
        assert(wide * numer <= u128::MAX) by (nonlinear_arith)
            requires
                wide <= u64::MAX,
                numer <= u64::MAX,
        ;
        let product = wide * numer;
        let quotient = product / denom;
        if quotient > u64::MAX as u128 {
            u64::MAX
        } else {
            quotient as u64
        }
    }

    /// Converts a reading of `secs` seconds and `nanos` nanoseconds to
    /// nanoseconds, saturating at `u64::MAX`.
    pub fn timespec_to_nanos(secs: u64, nanos: u64) -> (r: u64)
        ensures
            r == timespec_nanos(secs as nat, nanos as nat),
    {
        match secs.checked_mul(NANOS_PER_SEC) {
            Some(whole) => match whole.checked_add(nanos) {
                Some(total) => total,
                None => u64::MAX,
            },
            None => u64::MAX,
        }
    }
}

impl Default for Monotonic {
    fn default() -> (r: Monotonic)
        ensures
            r.numer_spec() == 1,
            r.denom_spec() == 1,
    {
        Monotonic::new()
    }
}

/// Scaling ticks keeps their order: for a ratio with a non-zero denominator,
/// a later tick reading never gives fewer nanoseconds than an earlier one.
pub proof fn lemma_scaled_nanos_monotone(earlier: nat, later: nat, numer: nat, denom: nat)
    requires
        earlier <= later,
        denom > 0,
    ensures
        scaled_nanos(earlier, numer, denom) <= scaled_nanos(later, numer, denom),
{
    lemma_mul_inequality(earlier as int, later as int, numer as int);
    lemma_div_is_ordered((earlier * numer) as int, (later * numer) as int, denom as int);
}

/// Converting second/nanosecond readings keeps their order: of two readings
/// with a nanosecond part below one second, the later one never gives fewer
/// nanoseconds.
pub proof fn lemma_timespec_nanos_monotone(
    earlier_secs: nat,
    earlier_nanos: nat,
    later_secs: nat,
    later_nanos: nat,
)
    requires
        earlier_nanos < NANOS_PER_SEC,
        later_nanos < NANOS_PER_SEC,
        earlier_secs < later_secs || (earlier_secs == later_secs && earlier_nanos <= later_nanos),
    ensures
        timespec_nanos(earlier_secs, earlier_nanos) <= timespec_nanos(later_secs, later_nanos),
{
}

} // verus!
