use cazzmachine_lib::crawler::providers_per_cycle;
use cazzmachine_lib::settings::Controls;

#[test]
fn test_provider_count() {
    let controls = Controls::new();
    let count = providers_per_cycle(controls.get_throttle_level());
    assert!(count > 0, "Should have at least one provider per cycle");
}
