use performance_timing::{const_cycle_loop, MeasureRegion, MeasureSample};

#[test]
fn zero_samples_average_is_nan() {
    let r = MeasureRegion::new();
    assert_eq!(r.get_total_time(), 0);
    assert_eq!(r.get_sample_count(), 0);
    let average = r.get_total_time() as f64 / r.get_sample_count() as f64;
    assert!(average.is_nan());
}

#[test]
fn one_sample_average_is_its_duration() {
    let mut r = MeasureRegion::new();
    r.record_sample(42);
    assert_eq!(r.get_total_time(), 42);
    assert_eq!(r.get_sample_count(), 1);
    let average = r.get_total_time() as f64 / r.get_sample_count() as f64;
    assert_eq!(average, 42.0);
}

#[test]
fn many_samples_sum_and_average() {
    let mut r = MeasureRegion::new();
    r.record_sample(5);
    r.record_sample(7);
    r.record_sample(12);
    assert_eq!(r.get_total_time(), 24);
    assert_eq!(r.get_sample_count(), 3);
    assert_eq!(r.get_total_time() as f64 / r.get_sample_count() as f64, 8.0);
}

#[test]
fn scoped_sample_records_once() {
    let mut r = MeasureRegion::new();
    let s = r.get_sample();
    const_cycle_loop(1_000_000);
    r.close_sample(s);
    assert_eq!(r.get_sample_count(), 1);
    assert!(r.get_total_time() > 0);
}

#[test]
fn stopped_sample_keeps_its_value() {
    let mut s = MeasureSample::new();
    const_cycle_loop(1_000_000);
    s.stop();
    let v = s.get_value();
    s.stop(); // a second stop must not move the end timestamp
    assert_eq!(s.get_value(), v);

    let mut r = MeasureRegion::new();
    r.close_sample(s);
    assert_eq!(r.get_sample_count(), 1);
    assert_eq!(r.get_total_time(), v);
}

#[test]
fn named_region_keeps_name_and_dump_flag() {
    let named = MeasureRegion::new_named(String::from("hot_path"), true);
    assert_eq!(named.get_name().as_str(), "hot_path");
    assert!(named.dumps_on_drop());

    let default = MeasureRegion::new();
    assert_eq!(default.get_name().as_str(), "default_name");
    assert!(!default.dumps_on_drop());
}
