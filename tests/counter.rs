use quanta::{counter_support, has_counter_support, Counter, CounterError, CounterSource};
use quanta::detection::{invariant_tsc_flag, rdtscp_flag};

#[test]
fn unsupported_target_has_no_counter() {
    let r = Counter::for_source(CounterSource::Unsupported);
    assert!(matches!(r, Err(CounterError::Unsupported)));
}

#[test]
fn readable_targets_give_a_counter() {
    assert!(Counter::for_source(CounterSource::Tsc).is_ok());
    assert!(Counter::for_source(CounterSource::VirtualCounter).is_ok());
}

#[test]
fn tsc_needs_both_flags() {
    assert!(counter_support(CounterSource::Tsc, Some(true), Some(true)));
    assert!(!counter_support(CounterSource::Tsc, Some(true), Some(false)));
    assert!(!counter_support(CounterSource::Tsc, Some(false), Some(true)));
    assert!(!counter_support(CounterSource::Tsc, Some(true), None));
    assert!(!counter_support(CounterSource::Tsc, None, Some(true)));
    assert!(!counter_support(CounterSource::Tsc, None, None));
}

#[test]
fn virtual_counter_is_always_supported() {
    assert!(counter_support(CounterSource::VirtualCounter, None, None));
    assert!(counter_support(CounterSource::VirtualCounter, Some(false), Some(false)));
}

#[test]
fn unsupported_source_is_never_supported() {
    assert!(!counter_support(CounterSource::Unsupported, Some(true), Some(true)));
    assert!(!counter_support(CounterSource::Unsupported, None, None));
}

#[test]
fn detection_is_repeatable() {
    let first = has_counter_support();
    for _ in 0..100 {
        assert_eq!(has_counter_support(), first);
    }
}

#[test]
fn detection_agrees_with_the_flags() {
    let expected = invariant_tsc_flag() == Some(true) && rdtscp_flag() == Some(true);
    assert_eq!(has_counter_support(), expected);
}

#[test]
fn supported_counter_constructs_repeatedly() {
    if has_counter_support() {
        for _ in 0..10_000 {
            let c = Counter::for_source(CounterSource::Tsc);
            assert!(c.is_ok());
        }
    }
}
