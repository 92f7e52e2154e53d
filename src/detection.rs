use vstd::prelude::*;
use crate::counter::CounterSource;
use raw_cpuid::{ApmInfo, CpuId, ExtendedProcessorFeatureIdentifiers};

verus! {

#[verifier::external_type_specification]
#[verifier::external_body]
pub struct ExApmInfo(ApmInfo);

#[verifier::external_type_specification]
#[verifier::external_body]
pub struct ExExtendedProcessorFeatureIdentifiers(ExtendedProcessorFeatureIdentifiers);

/// Relies on `raw_cpuid::CpuId::new` and `CpuId::get_advanced_power_mgmt_info`:
/// leaf 0x8000_0007 of the running CPU, absent where the CPU does not report
/// it. What the CPU reports is not known here.
#[verifier::external_body]
fn power_mgmt_leaf() -> (r: Option<ApmInfo>) {
    CpuId::new().get_advanced_power_mgmt_info()
}

/// Relies on `raw_cpuid::CpuId::new` and
/// `CpuId::get_extended_processor_and_feature_identifiers`: leaf 0x8000_0001 of
/// the running CPU, absent where the CPU does not report it. What the CPU
/// reports is not known here.
#[verifier::external_body]
fn extended_features_leaf() -> (r: Option<ExtendedProcessorFeatureIdentifiers>) {
    CpuId::new().get_extended_processor_and_feature_identifiers()
}

/// Relies on `raw_cpuid::ApmInfo::has_invariant_tsc`: the invariant-TSC bit of
/// the leaf.
pub assume_specification[ ApmInfo::has_invariant_tsc ](info: &ApmInfo) -> bool;

/// Relies on `raw_cpuid::ExtendedProcessorFeatureIdentifiers::has_rdtscp`: the
/// `rdtscp` bit of the leaf.
pub assume_specification[ ExtendedProcessorFeatureIdentifiers::has_rdtscp ](
    info: &ExtendedProcessorFeatureIdentifiers,
) -> bool;

/// Whether a time-stamp counter may be trusted, given the invariant-TSC flag
/// and the `rdtscp` flag; `None` is a flag whose identification leaf the CPU
/// does not report, which counts as absent.
pub open spec fn tsc_trustworthy(invariant_tsc: Option<bool>, rdtscp: Option<bool>) -> bool {
    invariant_tsc == Some(true) && rdtscp == Some(true)
}

/// Whether the cycle counter of `source` runs at a fixed rate whatever the
/// power state, and can be ordered against surrounding instructions.
///
/// The virtual counter is part of every AArch64 (ARMv8) processor; the
/// time-stamp counter qualifies only when the CPU reports both flags.
pub open spec fn counter_supported(
    source: CounterSource,
    invariant_tsc: Option<bool>,
    rdtscp: Option<bool>,
) -> bool {
    match source {
        CounterSource::Tsc => tsc_trustworthy(invariant_tsc, rdtscp),
        CounterSource::VirtualCounter => true,
        CounterSource::Unsupported => false,
    }
}

/// Decides whether the counter of `source` can be trusted, from the CPU
/// identification flags (read only for the time-stamp counter).
pub fn counter_support(
    source: CounterSource,
    invariant_tsc: Option<bool>,
    rdtscp: Option<bool>,
) -> (r: bool)
    ensures
        r == counter_supported(source, invariant_tsc, rdtscp),
{
    match source {
        CounterSource::Tsc => {
            let fixed_rate = match invariant_tsc {
                Some(flag) => flag,
                None => false,
            };
            let ordered = match rdtscp {
                Some(flag) => flag,
                None => false,
            };
            fixed_rate && ordered
        },
        CounterSource::VirtualCounter => true,
        CounterSource::Unsupported => false,
    }
}

/// The invariant-TSC flag of the running CPU, `None` where the CPU does not
/// report the power-management leaf.
pub fn invariant_tsc_flag() -> Option<bool> {
    match power_mgmt_leaf() {
        Some(info) => Some(info.has_invariant_tsc()),
        None => None,
    }
}

/// The `rdtscp` flag of the running CPU, `None` where the CPU does not report
/// the extended feature leaf.
pub fn rdtscp_flag() -> Option<bool> {
    match extended_features_leaf() {
        Some(info) => Some(info.has_rdtscp()),
        None => None,
    }
}

/// Whether the time-stamp counter of the running x86_64 CPU may be trusted:
/// both its invariant-rate flag and its `rdtscp` flag must be reported.
///
/// What the CPU reports is outside what can be proved; the decision made from
/// it is `counter_support`. The result is not cached.
pub fn has_counter_support() -> bool {
    let invariant_tsc = invariant_tsc_flag();
    let rdtscp = rdtscp_flag();
    counter_support(CounterSource::Tsc, invariant_tsc, rdtscp)
}

} // verus!
