use glean_core::common::CommonMetricData;
use glean_core::glean::Glean;
use glean_core::metric::Metric;
use glean_core::uuid_metric::UuidMetric;
use glean_core::uuid_value::{is_canonical_uuid_str, UuidValue};

const UUID_A: &str = "550e8400-e29b-41d4-a716-446655440000";
const UUID_B: &str = "67e55044-10b1-426f-9247-bb680e5fe0c8";

fn uuid(s: &str) -> UuidValue {
    UuidValue::from_string(String::from(s)).unwrap()
}

#[test]
fn set_policy_denied_leaves_storage_unchanged() {
    let meta = CommonMetricData { id: 1, disabled: true };
    let metric = UuidMetric::new(meta);
    let mut glean = Glean::new(true);
    metric.set(&mut glean, &uuid(UUID_A));
    assert_eq!(glean.get_value(&meta), None);
}

#[test]
fn set_upload_disabled_leaves_storage_unchanged() {
    let meta = CommonMetricData { id: 1, disabled: false };
    let metric = UuidMetric::new(meta);
    let mut glean = Glean::new(false);
    metric.set(&mut glean, &uuid(UUID_A));
    assert_eq!(glean.get_value(&meta), None);
}

#[test]
fn generate_if_missing_gate_denied_is_a_no_op() {
    let meta = CommonMetricData { id: 2, disabled: true };
    let metric = UuidMetric::new(meta);
    let mut glean = Glean::new(true);
    metric.generate_if_missing(&mut glean);
    assert_eq!(glean.get_value(&meta), None);
}

#[test]
fn generate_upload_disabled_returns_value_but_stores_nothing() {
    let meta = CommonMetricData { id: 3, disabled: false };
    let metric = UuidMetric::new(meta);
    let mut glean = Glean::new(false);
    let generated = metric.generate(&mut glean);
    assert!(is_canonical_uuid_str(generated.as_str()));
    assert_eq!(glean.get_value(&meta), None);
}

#[test]
fn generate_persists_exactly_the_returned_value() {
    let meta = CommonMetricData { id: 4, disabled: false };
    let metric = UuidMetric::new(meta);
    let mut glean = Glean::new(true);
    let generated = metric.generate(&mut glean);
    let expected = Metric::Uuid(String::from(generated.as_str()));
    assert_eq!(glean.get_value(&meta), Some(&expected));
}

#[test]
fn set_persists_the_canonical_encoding() {
    let meta = CommonMetricData { id: 5, disabled: false };
    let metric = UuidMetric::new(meta);
    let mut glean = Glean::new(true);
    metric.set(&mut glean, &uuid(UUID_A));
    assert_eq!(glean.get_value(&meta), Some(&Metric::Uuid(String::from(UUID_A))));
}

#[test]
fn set_then_set_overwrites() {
    let meta = CommonMetricData { id: 6, disabled: false };
    let metric = UuidMetric::new(meta);
    let mut glean = Glean::new(true);
    metric.set(&mut glean, &uuid(UUID_A));
    metric.set(&mut glean, &uuid(UUID_B));
    assert_eq!(glean.get_value(&meta), Some(&Metric::Uuid(String::from(UUID_B))));
}

#[test]
fn generate_if_missing_is_idempotent() {
    let meta = CommonMetricData { id: 7, disabled: false };
    let metric = UuidMetric::new(meta);
    let mut glean = Glean::new(true);
    metric.generate_if_missing(&mut glean);
    let first = match glean.get_value(&meta) {
        Some(Metric::Uuid(s)) => s.clone(),
        other => panic!("expected a stored UUID, found {:?}", other),
    };
    assert!(is_canonical_uuid_str(first.as_str()));
    metric.generate_if_missing(&mut glean);
    assert_eq!(glean.get_value(&meta), Some(&Metric::Uuid(first)));
}

#[test]
fn generate_if_missing_keeps_an_externally_set_value() {
    let meta = CommonMetricData { id: 8, disabled: false };
    let metric = UuidMetric::new(meta);
    let mut glean = Glean::new(true);
    metric.set(&mut glean, &uuid(UUID_A));
    metric.generate_if_missing(&mut glean);
    assert_eq!(glean.get_value(&meta), Some(&Metric::Uuid(String::from(UUID_A))));
}

#[test]
fn generate_if_missing_replaces_a_value_of_another_kind() {
    let meta = CommonMetricData { id: 9, disabled: false };
    let metric = UuidMetric::new(meta);
    let mut glean = Glean::new(true);
    glean.record(&meta, Metric::Boolean(true));
    metric.generate_if_missing(&mut glean);
    match glean.get_value(&meta) {
        Some(Metric::Uuid(s)) => assert!(is_canonical_uuid_str(s.as_str())),
        other => panic!("expected the boolean to be replaced by a UUID, found {:?}", other),
    }
}

#[test]
fn metrics_with_distinct_identities_do_not_interfere() {
    let meta_a = CommonMetricData { id: 10, disabled: false };
    let meta_b = CommonMetricData { id: 11, disabled: false };
    let metric_a = UuidMetric::new(meta_a);
    let metric_b = UuidMetric::new(meta_b);
    let mut glean = Glean::new(true);
    metric_a.set(&mut glean, &uuid(UUID_A));
    metric_b.set(&mut glean, &uuid(UUID_B));
    assert_eq!(glean.get_value(&meta_a), Some(&Metric::Uuid(String::from(UUID_A))));
    assert_eq!(glean.get_value(&meta_b), Some(&Metric::Uuid(String::from(UUID_B))));
}
