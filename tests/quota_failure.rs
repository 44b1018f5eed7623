use tonic_transport::quota_failure::{QuotaFailure, QuotaViolation};

#[test]
fn gen_quota_failure() {
    let mut quota_failure = QuotaFailure::new(Vec::new());
    let formatted = format!("{quota_failure:?}");

    let expected = "QuotaFailure { violations: [] }";

    assert!(
        formatted.eq(expected),
        "empty QuotaFailure differs from expected result"
    );

    assert!(
        quota_failure.is_empty(),
        "empty QuotaFailure returns 'false' from .is_empty()"
    );

    quota_failure.add_violation("clientip:<ip address>", "description a");
    quota_failure.add_violation("project:<project id>", "description b");

    let formatted = format!("{quota_failure:?}");

    let expected_filled = "QuotaFailure { violations: [QuotaViolation { subject: \"clientip:<ip address>\", description: \"description a\", api_service: \"\", quota_metric: \"\", quota_id: \"\", quota_dimensions: {}, quota_value: 0, futura_quota_value: None }, QuotaViolation { subject: \"project:<project id>\", description: \"description b\", api_service: \"\", quota_metric: \"\", quota_id: \"\", quota_dimensions: {}, quota_value: 0, futura_quota_value: None }] }";

    assert!(
        formatted.eq(expected_filled),
        "filled QuotaFailure differs from expected result"
    );

    assert!(
        !quota_failure.is_empty(),
        "filled QuotaFailure returns 'true' from .is_empty()"
    );
}

#[test]
fn with_violation_holds_one_violation() {
    let q = QuotaFailure::with_violation("subj", "desc");
    assert_eq!(q.violations.len(), 1);
    assert_eq!(q.violations[0].subject, "subj");
    assert_eq!(q.violations[0].description, "desc");
    assert_eq!(q.violations[0].api_service, "");
    assert_eq!(q.violations[0].quota_value, 0);
    assert_eq!(q.violations[0].futura_quota_value, None);
    assert!(q.violations[0].quota_dimensions.is_empty());
    assert!(!q.is_empty());
}

#[test]
fn violation_new_sets_defaults() {
    let v = QuotaViolation::new("a", "b");
    assert_eq!(v.subject, "a");
    assert_eq!(v.description, "b");
    assert_eq!(v.quota_metric, "");
    assert_eq!(v.quota_id, "");
}

#[test]
fn add_violation_keeps_order() {
    let mut q = QuotaFailure::new(vec![QuotaViolation::new("first", "1")]);
    q.add_violation("second", "2");
    assert_eq!(q.violations.len(), 2);
    assert_eq!(q.violations[0].subject, "first");
    assert_eq!(q.violations[1].subject, "second");
    assert_eq!(q.violations[1].description, "2");
}

#[test]
fn type_url_names_quota_failure() {
    assert_eq!(
        QuotaFailure::TYPE_URL,
        "type.googleapis.com/google.rpc.QuotaFailure"
    );
}
