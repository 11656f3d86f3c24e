use host_monitor::{CpuSampler, SamplerAction, SETTLING_DELAY_MS};

#[test]
fn sampler_two_samples_with_delay_report() {
    let mut s = CpuSampler::new();
    assert_eq!(s.next_action(), SamplerAction::Refresh);
    s.refreshed();
    assert_eq!(s.next_action(), SamplerAction::Wait(SETTLING_DELAY_MS));
    s.waited(200);
    assert_eq!(s.next_action(), SamplerAction::Refresh);
    s.refreshed();
    assert_eq!(s.next_action(), SamplerAction::Report);
}

#[test]
fn sampler_zero_delay_does_not_report() {
    let mut s = CpuSampler::new();
    s.refreshed();
    s.refreshed();
    assert_ne!(s.next_action(), SamplerAction::Report);
    assert_eq!(s.next_action(), SamplerAction::Wait(200));
}

#[test]
fn sampler_short_wait_asks_for_the_rest() {
    let mut s = CpuSampler::new();
    s.refreshed();
    s.waited(150);
    assert_eq!(s.next_action(), SamplerAction::Wait(50));
    s.waited(u64::MAX);
    assert_eq!(s.since_last_ms, u64::MAX);
    s.refreshed();
    assert_eq!(s.next_action(), SamplerAction::Report);
}
