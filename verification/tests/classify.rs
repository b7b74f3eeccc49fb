use fedi_discovery::media_type::{Accept, ActivityGuard, MediaType, is_as};

#[test]
fn identifies_ap_requests() {
    let accept_json = Accept::new(vec![MediaType::new("application", "activity+json")]);
    let accept_json_ld = Accept::new(vec![MediaType::with_params(
        "application",
        "ld+json",
        "profile",
        "https://www.w3.org/ns/activitystreams",
    )]);

    assert!(is_as(&accept_json_ld));
    assert!(is_as(&accept_json));
}

#[test]
fn activity_json_preferred_over_others_classifies() {
    let accept = Accept::new(vec![
        MediaType::new("application", "activity+json"),
        MediaType::new("text", "html"),
    ]);
    assert!(is_as(&accept));
}

#[test]
fn activity_json_with_extra_parameter_does_not_classify() {
    let accept = Accept::new(vec![MediaType::with_params(
        "application",
        "activity+json",
        "charset",
        "utf-8",
    )]);
    assert!(!is_as(&accept));
}

#[test]
fn ld_json_with_wrong_profile_does_not_classify() {
    let accept = Accept::new(vec![MediaType::with_params(
        "application",
        "ld+json",
        "profile",
        "https://example.com/other-vocabulary",
    )]);
    assert!(!is_as(&accept));
}

#[test]
fn ld_json_without_profile_does_not_classify() {
    let accept = Accept::new(vec![MediaType::new("application", "ld+json")]);
    assert!(!is_as(&accept));
}

#[test]
fn unrecognized_most_preferred_does_not_classify() {
    let accept = Accept::new(vec![
        MediaType::new("text", "html"),
        MediaType::new("application", "activity+json"),
    ]);
    assert!(!is_as(&accept));
}

#[test]
fn guard_admits_federation_requests_only() {
    let accept = Accept::new(vec![MediaType::new("application", "activity+json")]);
    assert!(ActivityGuard::from_accept(Some(&accept)).is_some());

    let html = Accept::new(vec![MediaType::new("text", "html")]);
    assert!(ActivityGuard::from_accept(Some(&html)).is_none());
}

#[test]
fn absent_accept_header_does_not_classify() {
    assert!(ActivityGuard::from_accept(None).is_none());
}
