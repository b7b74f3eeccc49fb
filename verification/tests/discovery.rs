use fedi_discovery::account::{Account, AccountDirectory, ap_user_object};
use fedi_discovery::config::Config;
use fedi_discovery::host_meta::{EntryPointDocument, webfinger_host_meta, xrd_media_type};
use fedi_discovery::jrd::{jrd_media_type, json_escape, render_jrd};
use fedi_discovery::webfinger::{
    DiscoveryError, WFQuery, parse_discovery_query, webfinger_get_resource,
};

fn example_server() -> (Config, AccountDirectory) {
    let config = Config::new(
        "https://example.com".to_string(),
        "example.com".to_string(),
    );
    let mut directory = AccountDirectory::new();
    let alice = Account::local_account(&config, "alice");
    assert!(directory.insert(alice));
    (config, directory)
}

#[test]
fn resolves_local_account() {
    let (config, directory) = example_server();
    let query = WFQuery::new("acct:alice@example.com".to_string());

    let doc = webfinger_get_resource(&config, &directory, &query)
        .expect("well-formed query")
        .expect("known local account");

    assert_eq!(doc.subject, "acct:alice@example.com");
    assert_eq!(doc.aliases, vec!["https://example.com/users/alice".to_string()]);
    assert_eq!(doc.links.len(), 2);
    assert_eq!(doc.links[0].rel, "http://webfinger.net/rel/profile-page");
    assert_eq!(doc.links[0].href, "https://example.com/users/alice");
    assert_eq!(doc.links[0].media_type, "text/html");
    assert_eq!(doc.links[1].rel, "self");
    assert_eq!(doc.links[1].href, "https://example.com/users/alice");
    assert_eq!(doc.links[1].media_type, "application/activity+json");
}

#[test]
fn foreign_domain_is_not_found_not_an_error() {
    let (config, directory) = example_server();
    let query = WFQuery::new("acct:alice@other.org".to_string());

    let r = webfinger_get_resource(&config, &directory, &query);
    assert_eq!(r.expect("well-formed query"), None);
}

#[test]
fn unknown_account_is_not_found() {
    let (config, directory) = example_server();
    let query = WFQuery::new("acct:bob@example.com".to_string());

    let r = webfinger_get_resource(&config, &directory, &query);
    assert_eq!(r.expect("well-formed query"), None);
}

#[test]
fn query_without_acct_is_malformed() {
    let (config, directory) = example_server();
    let query = WFQuery::new("notanaddress".to_string());

    let r = webfinger_get_resource(&config, &directory, &query);
    assert_eq!(r.expect_err("malformed query"), DiscoveryError::MalformedQuery);
}

#[test]
fn address_with_two_ats_is_malformed() {
    let (config, directory) = example_server();
    let query = WFQuery::new("acct:a@b@c".to_string());

    let r = webfinger_get_resource(&config, &directory, &query);
    assert_eq!(r.expect_err("malformed query"), DiscoveryError::MalformedQuery);
}

#[test]
fn address_without_at_is_malformed() {
    let r = parse_discovery_query("acct:aliceexample.com");
    assert_eq!(r.expect_err("malformed query"), DiscoveryError::MalformedQuery);
}

#[test]
fn address_after_last_acct_occurrence_is_used() {
    let p = parse_discovery_query("acct:acct:carol@example.com").expect("well-formed");
    assert_eq!(p.username, "carol");
    assert_eq!(p.domain, "example.com");

    let p = parse_discovery_query("prefix acct:dave@example.com").expect("well-formed");
    assert_eq!(p.username, "dave");
    assert_eq!(p.domain, "example.com");
}

#[test]
fn resolver_is_idempotent() {
    let (config, directory) = example_server();
    let query = WFQuery::new("acct:alice@example.com".to_string());

    let first = webfinger_get_resource(&config, &directory, &query)
        .expect("well-formed query")
        .expect("known local account");
    let second = webfinger_get_resource(&config, &directory, &query)
        .expect("well-formed query")
        .expect("known local account");

    assert_eq!(first, second);
    assert_eq!(render_jrd(&first), render_jrd(&second));
}

#[test]
fn renders_jrd_body() {
    let (config, directory) = example_server();
    let query = WFQuery::new("acct:alice@example.com".to_string());
    let doc = webfinger_get_resource(&config, &directory, &query)
        .expect("well-formed query")
        .expect("known local account");

    let expected = "{\"aliases\":[\"https://example.com/users/alice\"],\"links\":[{\"href\":\"https://example.com/users/alice\",\"rel\":\"http://webfinger.net/rel/profile-page\",\"type\":\"text/html\"},{\"href\":\"https://example.com/users/alice\",\"rel\":\"self\",\"type\":\"application/activity+json\"}],\"subject\":\"acct:alice@example.com\"}";
    assert_eq!(render_jrd(&doc), expected);
}

#[test]
fn json_escape_escapes_quotes_and_backslashes() {
    assert_eq!(json_escape("plain"), "plain");
    assert_eq!(json_escape("a\"b\\c"), "a\\\"b\\\\c");
    assert_eq!(json_escape(""), "");
}

#[test]
fn host_meta_embeds_base_url_and_keeps_uri_placeholder() {
    let config = Config::new(
        "https://example.com".to_string(),
        "example.com".to_string(),
    );
    let body = webfinger_host_meta(&config);
    assert!(body.contains("https://example.com/.well-known/webfinger?resource={uri}"));
    let expected = "<?xml version=\"1.0\"?>\n<XRD xmlns=\"http://docs.oasis-open.org/ns/xri/xrd-1.0\">\n  <Link rel=\"lrdd\" type=\"application/xrd+xml\" template=\"https://example.com/.well-known/webfinger?resource={uri}\"/>\n</XRD>";
    assert_eq!(body, expected);
}

#[test]
fn entry_point_document_is_static_per_configuration() {
    let config = Config::new(
        "https://example.com".to_string(),
        "example.com".to_string(),
    );
    let doc = EntryPointDocument::advertise(&config);
    assert_eq!(doc.rel, "lrdd");
    assert_eq!(doc.media_type, "application/xrd+xml");
    assert_eq!(
        doc.template,
        "https://example.com/.well-known/webfinger?resource={uri}"
    );
}

#[test]
fn user_object_for_local_account_only() {
    let (config, directory) = example_server();

    let obj = ap_user_object(&directory, "alice").expect("known local account");
    assert_eq!(obj.id, "https://example.com/users/alice");
    assert_eq!(obj.preferred_username, "alice");

    assert!(ap_user_object(&directory, "bob").is_none());

    let remote = Account {
        username: "eve".to_string(),
        local: false,
        uri: "https://elsewhere.example/users/eve".to_string(),
    };
    let mut directory = directory;
    assert!(directory.insert(remote));
    assert!(ap_user_object(&directory, "eve").is_none());

    let _ = config;
}

#[test]
fn directory_refuses_duplicate_local_username() {
    let (config, mut directory) = example_server();
    let again = Account::local_account(&config, "alice");
    assert!(!directory.insert(again));
    let other = Account::local_account(&config, "bob");
    assert!(directory.insert(other));
}

#[test]
fn document_content_types() {
    assert_eq!(jrd_media_type().essence(), "application/jrd+json");
    assert_eq!(xrd_media_type().essence(), "application/xrd+xml");
}

#[test]
fn conversion_is_deterministic() {
    let config = Config::new(
        "https://example.com".to_string(),
        "example.com".to_string(),
    );
    let alice = Account::local_account(&config, "alice");
    assert_eq!(alice.as_activitypub(), alice.as_activitypub());
}
