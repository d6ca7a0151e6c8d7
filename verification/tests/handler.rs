use alias_relay::alias::{Alias, AliasRequest};
use alias_relay::auth::auth;
use alias_relay::config::AppConfig;
use alias_relay::handler::{create_alias, create_alias_reply, created, reply_at};
use alias_relay::reply::Reply;
use alias_relay::upstream::UpstreamOutcome;
use std::time::{SystemTime, UNIX_EPOCH};

fn config() -> AppConfig {
    AppConfig {
        port: 3000,
        api_token: "s3cret".to_string(),
        alias_domain: "alias.example".to_string(),
        forward_to: "inbox".to_string(),
        stalwart_url: "http://mail.example:8080/api".to_string(),
        stalwart_username: "admin".to_string(),
        stalwart_password: "hunter2".to_string(),
    }
}

fn is_short_token(text: &str) -> bool {
    text.len() == 8 && text.chars().all(|c| matches!(c, '0'..='9' | 'a'..='f'))
}

fn clock_millis() -> u64 {
    SystemTime::now().duration_since(UNIX_EPOCH).unwrap().as_millis() as u64
}

#[test]
fn null_domain_and_upstream_200_give_201_with_the_default_domain() {
    let config = config();
    assert!(auth(Some("Bearer s3cret"), &config).is_ok());
    let (alias, _patch) = create_alias(AliasRequest { domain: None }, &config);
    let reply = create_alias_reply(alias, UpstreamOutcome::Responded { status: 200 });
    assert_eq!(reply.status_code(), 201);
    let data = &reply.body().unwrap().data;
    let (local_part, domain) = data.email.split_once('@').unwrap();
    assert!(is_short_token(local_part), "{local_part:?}");
    assert_eq!(domain, "alias.example");
    assert_eq!(data.local_part, local_part);
    assert_eq!(data.domain, "alias.example");
    assert!(data.enabled);
    assert_eq!(data.description, None);
}

#[test]
fn unreachable_upstream_gives_500_without_body() {
    let config = config();
    let (alias, _patch) = create_alias(AliasRequest { domain: None }, &config);
    let reply = create_alias_reply(alias, UpstreamOutcome::Unreachable);
    assert!(matches!(reply, Reply::InternalServerError));
    assert_eq!(reply.status_code(), 500);
    assert!(reply.body().is_none());
}

#[test]
fn upstream_403_still_gives_201() {
    let config = config();
    let (alias, _patch) = create_alias(AliasRequest { domain: None }, &config);
    let address = alias.address().clone();
    let reply = create_alias_reply(alias, UpstreamOutcome::Responded { status: 403 });
    assert_eq!(reply.status_code(), 201);
    assert_eq!(reply.body().unwrap().data.email, address);
}

#[test]
fn every_upstream_status_gives_201() {
    for status in [100, 199, 200, 204, 301, 400, 403, 404, 500, 503] {
        let alias = Alias::new("cafe0123".to_string(), "example.org".to_string());
        let reply = reply_at(alias, UpstreamOutcome::Responded { status }, 1_700_000_000_000);
        assert_eq!(reply.status_code(), 201, "{status}");
    }
}

#[test]
fn two_requests_with_the_same_body_are_both_served() {
    let config = config();
    let body = || AliasRequest { domain: Some("example.org".to_string()) };
    let (first, _) = create_alias(body(), &config);
    let (second, _) = create_alias(body(), &config);
    assert_ne!(first.username(), second.username());
    let first = reply_at(first, UpstreamOutcome::Responded { status: 200 }, 1_700_000_000_000);
    let second = reply_at(second, UpstreamOutcome::Responded { status: 200 }, 1_700_000_000_001);
    assert_eq!(first.status_code(), 201);
    assert_eq!(second.status_code(), 201);
    assert_ne!(first.body().unwrap().data.id, second.body().unwrap().data.id);
}

#[test]
fn the_same_alias_is_reported_again_without_deduplication() {
    let first = reply_at(
        Alias::new("cafe0123".to_string(), "example.org".to_string()),
        UpstreamOutcome::Responded { status: 200 },
        1_700_000_000_000,
    );
    let second = reply_at(
        Alias::new("cafe0123".to_string(), "example.org".to_string()),
        UpstreamOutcome::Responded { status: 200 },
        1_700_000_000_000,
    );
    assert_eq!(first.status_code(), 201);
    assert_eq!(second.status_code(), 201);
    assert_eq!(first.body().unwrap().data.email, second.body().unwrap().data.email);
    assert_eq!(first.body().unwrap().data.id, second.body().unwrap().data.id);
}

#[test]
fn reply_at_echoes_the_alias_under_the_given_id() {
    let alias = Alias::new("cafe0123".to_string(), "example.org".to_string());
    let reply = reply_at(alias, UpstreamOutcome::Responded { status: 200 }, 1_700_000_000_123);
    let data = &reply.body().unwrap().data;
    assert_eq!(data.id, 1_700_000_000_123);
    assert_eq!(data.email, "cafe0123@example.org");
    assert_eq!(data.local_part, "cafe0123");
    assert_eq!(data.domain, "example.org");
    assert_eq!(data.description, None);
    assert!(data.enabled);
}

#[test]
fn reply_at_takes_any_id() {
    for id in [0, 1, u64::MAX] {
        let alias = Alias::new("cafe0123".to_string(), "example.org".to_string());
        let reply = reply_at(alias, UpstreamOutcome::Responded { status: 200 }, id);
        assert_eq!(reply.body().unwrap().data.id, id);
    }
}

#[test]
fn reply_at_discloses_nothing_when_unreachable() {
    let alias = Alias::new("cafe0123".to_string(), "example.org".to_string());
    let reply = reply_at(alias, UpstreamOutcome::Unreachable, 1_700_000_000_123);
    assert!(matches!(reply, Reply::InternalServerError));
    assert!(reply.body().is_none());
}

#[test]
fn created_reports_the_alias() {
    let alias = Alias::new("cafe0123".to_string(), "example.org".to_string());
    let reply = created(alias, 42);
    assert_eq!(reply.status_code(), 201);
    let data = &reply.body().unwrap().data;
    assert_eq!(data.id, 42);
    assert_eq!(data.email, "cafe0123@example.org");
    assert_eq!(data.local_part, "cafe0123");
    assert_eq!(data.domain, "example.org");
    assert_eq!(data.description, None);
    assert!(data.enabled);
}

#[test]
fn the_id_is_the_wall_clock_in_milliseconds() {
    let before = clock_millis();
    let alias = Alias::new("cafe0123".to_string(), "example.org".to_string());
    let reply = create_alias_reply(alias, UpstreamOutcome::Responded { status: 200 });
    let after = clock_millis();
    let id = reply.body().unwrap().data.id;
    assert!(before <= id && id <= after, "{before} {id} {after}");
}

#[test]
fn create_alias_plans_the_registration_of_the_generated_address() {
    let config = config();
    let payload = AliasRequest { domain: Some("example.org".to_string()) };
    let (alias, patch) = create_alias(payload, &config);
    assert!(is_short_token(alias.username()));
    assert_eq!(alias.domain(), "example.org");
    assert_eq!(patch.url, "http://mail.example:8080/api/principal/inbox");
    assert_eq!(patch.username, "admin");
    assert_eq!(patch.password, "hunter2");
    assert_eq!(patch.mutations.len(), 1);
    assert_eq!(patch.mutations[0].action, "addItem");
    assert_eq!(patch.mutations[0].field, "emails");
    assert_eq!(&patch.mutations[0].value, alias.address());
}

#[test]
fn create_alias_uses_the_default_for_the_word_random() {
    let config = config();
    let (alias, patch) = create_alias(AliasRequest { domain: Some("random".to_string()) }, &config);
    assert_eq!(alias.domain(), "alias.example");
    assert!(patch.mutations[0].value.ends_with("@alias.example"));
}
