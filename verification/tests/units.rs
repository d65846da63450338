use performance_timing::{
    const_cycle_loop, derive_frequency_hz, elapsed_between, CriterionCycleCounter, ThroughputKind,
};

#[test]
fn latency_loop_returns_zero_deterministically() {
    assert_eq!(const_cycle_loop(10_000), 0);
    assert_eq!(const_cycle_loop(10_000), 0);
    assert_eq!(const_cycle_loop(0), 0);
    assert_eq!(const_cycle_loop(4), 0);
}

#[test]
fn derived_frequency_rounds_to_nearest_50_mhz() {
    assert_eq!(derive_frequency_hz(1_000_000, 1_000_000), 1_000_000_000);
    assert_eq!(derive_frequency_hz(1_000_000, 2_000_000), 500_000_000);
    // 10^15 / 810_000 = 1_234_567_901 Hz, which rounds up to 1.25 GHz
    assert_eq!(derive_frequency_hz(1_000_000, 810_000), 1_250_000_000);
    // 10^15 / 820_000 = 1_219_512_195 Hz, which rounds down to 1.2 GHz
    assert_eq!(derive_frequency_hz(1_000_000, 820_000), 1_200_000_000);
}

#[test]
fn elapsed_between_saturates_at_zero() {
    assert_eq!(elapsed_between(10, 25), 15);
    assert_eq!(elapsed_between(25, 10), 0);
    assert_eq!(elapsed_between(7, 7), 0);
}

#[test]
fn counter_combines_values() {
    let c = CriterionCycleCounter;
    assert_eq!(c.zero(), 0);
    assert_eq!(c.add(&2, &3), 5);
    let i = c.start();
    let v = c.end(i);
    assert_eq!(c.add(&v, &c.zero()), v);
}

#[test]
fn formats_value_with_clock_unit() {
    let c = CriterionCycleCounter;
    assert_eq!(c.format_value(format!("{:.3}", 1234.5f64)), "1234.500 clocks");
}

#[test]
fn formats_throughput_rates() {
    let c = CriterionCycleCounter;
    let bytes_per_clock = 1024u64 as f64 / 2.0f64;
    assert_eq!(
        c.format_throughput(ThroughputKind::Bytes, format!("{}", bytes_per_clock)),
        "512 b/c"
    );
    let elems_per_clock = 10u64 as f64 / 4.0f64;
    assert_eq!(
        c.format_throughput(ThroughputKind::Elements, format!("{}", elems_per_clock)),
        "2.5 elem/c"
    );
}

#[test]
fn unit_labels() {
    let c = CriterionCycleCounter;
    assert_eq!(c.value_unit(), "clocks");
    assert_eq!(c.throughput_unit(ThroughputKind::Bytes), "b/c");
    assert_eq!(c.throughput_unit(ThroughputKind::Elements), "elem/c");
}
