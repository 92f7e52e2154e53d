use vstd::prelude::*;

verus! {

/// The family of cycle counter that a target offers.
#[derive(Clone, Copy, Debug, PartialEq, Eq, Structural)]
pub enum CounterSource {
    /// The x86_64 time-stamp counter, read with `rdtsc`.
    Tsc,
    /// The AArch64 virtual counter register `cntvct_el0`, readable from user mode.
    VirtualCounter,
    /// No counter that user code may read.
    Unsupported,
}

/// Why a cycle counter cannot be had.
#[derive(Clone, Copy, Debug, PartialEq, Eq, Structural)]
pub enum CounterError {
    /// The target has no cycle counter that user code may read.
    Unsupported,
}

/// Handle on the CPU's free-running cycle counter.
///
/// A reading carries no unit and no absolute meaning: only the difference of
/// two readings taken on the same logical core is meaningful, and only when
/// the counter has been found trustworthy on the machine.
#[derive(Clone, Copy, Debug, Default)]
pub struct Counter;

impl CounterSource {
    /// Whether the source is a counter that can be read at all.
    pub open spec fn is_readable(self) -> bool {
        self != CounterSource::Unsupported
    }
}

impl Counter {
    /// A counter handle for a target whose counter family is `source`.
    ///
    /// A target without a readable counter gets an error, never a handle
    /// whose readings would be made up.
    pub fn for_source(source: CounterSource) -> (r: Result<Counter, CounterError>)
        ensures
            r is Ok <==> source.is_readable(),
            r is Err ==> r == Err::<Counter, CounterError>(CounterError::Unsupported),
    {
        match source {
            CounterSource::Unsupported => Err(CounterError::Unsupported),
            _ => Ok(Counter),
        }
    }
}

} // verus!
