use activity_gate::activity::{Activity, Entity, ObjectField};
use activity_gate::domain::verify_activity_domains_valid;
use activity_gate::error::{CoreError, ResolveError};
use activity_gate::extract::get_like_object_id;
use activity_gate::receive::{receive_unhandled_activity, reject_unsupported, verify_and_extract};
use activity_gate::resolve::{get_actor_as_user, LocalActorRecord, MemoryResolver};
use activity_gate::uri::Uri;
use activity_gate::FetchBudget;

fn uri(s: &str) -> Uri {
    Uri::new(s.to_string())
}

fn activity(id: &str, actor: Option<&str>, object: ObjectField, kind: &str) -> Activity {
    Activity {
        id: uri(id),
        actor: actor.map(|a| uri(a)),
        object,
        kind: kind.to_string(),
    }
}

fn known_resolver(actor: &str) -> MemoryResolver {
    let mut resolver = MemoryResolver::new();
    resolver.add_local(LocalActorRecord { actor_uri: uri(actor) });
    resolver
}

#[test]
fn uri_reads_domain_through_url_crate() {
    let u = uri("https://a.example/posts/9");
    assert_eq!(u.text().as_str(), "https://a.example/posts/9");
    assert_eq!(u.domain().map(|d| d.as_str()), Some("a.example"));

    let no_domain = uri("mailto:alice@example.com");
    assert!(no_domain.domain().is_none());

    let unparsable = uri("not a uri at all");
    assert!(unparsable.domain().is_none());
}

#[test]
fn scenario_same_origin_with_object_matching() {
    let act = activity(
        "https://a.example/activities/1",
        Some("https://a.example/users/alice"),
        ObjectField::Bare(uri("https://a.example/posts/9")),
        "Like",
    );
    let mut resolver = known_resolver("https://a.example/users/alice");
    let mut budget = FetchBudget::new(5);

    let (record, object) = verify_and_extract(&act, true, &mut resolver, &mut budget).unwrap();
    assert_eq!(record.actor_uri.text().as_str(), "https://a.example/users/alice");
    assert_eq!(object.unwrap().text().as_str(), "https://a.example/posts/9");
    assert_eq!(budget.remaining, 5);
}

#[test]
fn scenario_foreign_actor_is_a_domain_mismatch() {
    let act = activity(
        "https://a.example/activities/1",
        Some("https://b.example/users/bob"),
        ObjectField::Bare(uri("https://a.example/posts/9")),
        "Like",
    );
    let mut resolver = known_resolver("https://b.example/users/bob");
    let mut budget = FetchBudget::new(5);

    let r = verify_and_extract(&act, false, &mut resolver, &mut budget);
    assert!(matches!(r, Err(CoreError::DomainMismatch)));
    assert_eq!(budget.remaining, 5);
}

#[test]
fn scenario_legacy_embedded_like_object() {
    let act = activity(
        "https://a.example/activities/1",
        Some("https://a.example/users/alice"),
        ObjectField::Embedded(Entity { id: Some(uri("https://a.example/posts/9")) }),
        "Like",
    );
    let extracted = get_like_object_id(&act).unwrap();
    assert_eq!(extracted.text().as_str(), "https://a.example/posts/9");
}

#[test]
fn scenario_unrecognized_kind_goes_to_the_sink() {
    let act = activity(
        "https://a.example/activities/1",
        Some("https://a.example/users/alice"),
        ObjectField::Bare(uri("https://a.example/posts/9")),
        "Arrive",
    );
    let budget = FetchBudget::new(3);

    let r = receive_unhandled_activity(&act);
    match r {
        Err(CoreError::UnsupportedActivity { kind }) => assert_eq!(kind, "Arrive"),
        _ => panic!("the sink must fail with UnsupportedActivity"),
    }
    let rejection = reject_unsupported(&act);
    assert!(matches!(rejection, CoreError::UnsupportedActivity { .. }));
    assert_eq!(budget.remaining, 3);
}

#[test]
fn extraction_returns_a_bare_uri_unchanged() {
    let act = activity(
        "https://a.example/activities/1",
        Some("https://a.example/users/alice"),
        ObjectField::Bare(uri("https://a.example/posts/9")),
        "Like",
    );
    let extracted = get_like_object_id(&act).unwrap();
    assert_eq!(extracted.text().as_str(), "https://a.example/posts/9");
}

#[test]
fn extraction_fails_on_an_embedded_entity_without_id() {
    let act = activity(
        "https://a.example/activities/1",
        Some("https://a.example/users/alice"),
        ObjectField::Embedded(Entity { id: None }),
        "Like",
    );
    assert!(matches!(get_like_object_id(&act), Err(CoreError::MalformedReference)));
}

#[test]
fn extraction_fails_when_no_single_object_is_present() {
    let act = activity(
        "https://a.example/activities/1",
        Some("https://a.example/users/alice"),
        ObjectField::NotSingle,
        "Like",
    );
    assert!(matches!(get_like_object_id(&act), Err(CoreError::MalformedReference)));
}

#[test]
fn matcher_ignores_object_domain_when_flag_is_off() {
    let act = activity(
        "https://a.example/activities/1",
        Some("https://a.example/users/alice"),
        ObjectField::Bare(uri("https://elsewhere.example/posts/7")),
        "Like",
    );
    let actor_id = uri("https://a.example/users/alice");
    assert!(verify_activity_domains_valid(&act, &actor_id, false).is_ok());
}

#[test]
fn matcher_checks_object_domain_when_flag_is_on() {
    let act = activity(
        "https://a.example/activities/1",
        Some("https://a.example/users/alice"),
        ObjectField::Bare(uri("https://elsewhere.example/posts/7")),
        "Like",
    );
    let actor_id = uri("https://a.example/users/alice");
    let r = verify_activity_domains_valid(&act, &actor_id, true);
    assert!(matches!(r, Err(CoreError::DomainMismatch)));
}

#[test]
fn matcher_rejects_an_actor_uri_without_domain() {
    let act = activity(
        "https://a.example/activities/1",
        Some("mailto:alice@example.com"),
        ObjectField::Bare(uri("https://a.example/posts/9")),
        "Like",
    );
    let actor_id = uri("mailto:alice@example.com");
    let r = verify_activity_domains_valid(&act, &actor_id, false);
    assert!(matches!(r, Err(CoreError::MissingDomain)));
}

#[test]
fn matcher_rejects_a_malformed_object_even_with_flag_off() {
    let act = activity(
        "https://a.example/activities/1",
        Some("https://a.example/users/alice"),
        ObjectField::Embedded(Entity { id: None }),
        "Like",
    );
    let actor_id = uri("https://a.example/users/alice");
    let r = verify_activity_domains_valid(&act, &actor_id, false);
    assert!(matches!(r, Err(CoreError::MalformedReference)));
}

#[test]
fn missing_actor_is_rejected_before_any_fetch() {
    let act = activity(
        "https://a.example/activities/1",
        None,
        ObjectField::Bare(uri("https://a.example/posts/9")),
        "Like",
    );
    let mut resolver = MemoryResolver::new();
    let mut budget = FetchBudget::new(2);
    let r = get_actor_as_user(&act, &mut resolver, &mut budget);
    assert!(matches!(r, Err(CoreError::MissingActor)));
    assert_eq!(budget.remaining, 2);
}

#[test]
fn exhausted_budget_fails_fast_for_an_unknown_actor() {
    let act = activity(
        "https://a.example/activities/1",
        Some("https://a.example/users/alice"),
        ObjectField::Bare(uri("https://a.example/posts/9")),
        "Like",
    );
    let mut resolver = MemoryResolver::new();
    resolver.add_remote(LocalActorRecord { actor_uri: uri("https://a.example/users/alice") });
    let mut budget = FetchBudget::new(0);

    let r = get_actor_as_user(&act, &mut resolver, &mut budget);
    match r {
        Err(CoreError::Resolve { uri, cause }) => {
            assert_eq!(uri, "https://a.example/users/alice");
            assert_eq!(cause, ResolveError::BudgetExhausted);
        },
        _ => panic!("resolution must fail fast once the budget is spent"),
    }
    assert_eq!(budget.remaining, 0);
}

#[test]
fn one_fetch_spends_one_unit_and_is_then_cached() {
    let act = activity(
        "https://a.example/activities/1",
        Some("https://a.example/users/alice"),
        ObjectField::Bare(uri("https://a.example/posts/9")),
        "Like",
    );
    let mut resolver = MemoryResolver::new();
    resolver.add_remote(LocalActorRecord { actor_uri: uri("https://a.example/users/alice") });
    let mut budget = FetchBudget::new(1);

    let first = get_actor_as_user(&act, &mut resolver, &mut budget).unwrap();
    assert_eq!(first.actor_uri.text().as_str(), "https://a.example/users/alice");
    assert_eq!(budget.remaining, 0);

    let second = get_actor_as_user(&act, &mut resolver, &mut budget).unwrap();
    assert_eq!(second.actor_uri.text().as_str(), "https://a.example/users/alice");
    assert_eq!(budget.remaining, 0);
}

#[test]
fn a_failed_fetch_still_spends_its_unit() {
    let act = activity(
        "https://a.example/activities/1",
        Some("https://a.example/users/alice"),
        ObjectField::Bare(uri("https://a.example/posts/9")),
        "Like",
    );
    let mut resolver = MemoryResolver::new();
    let mut budget = FetchBudget::new(2);

    let r = get_actor_as_user(&act, &mut resolver, &mut budget);
    match r {
        Err(CoreError::Resolve { uri, cause }) => {
            assert_eq!(uri, "https://a.example/users/alice");
            assert_eq!(cause, ResolveError::NotFound);
        },
        _ => panic!("an unknown actor that the federation does not answer must fail"),
    }
    assert_eq!(budget.remaining, 1);
}

#[test]
fn gate_fetches_an_unknown_actor_through_the_capability() {
    let act = activity(
        "https://a.example/activities/1",
        Some("https://a.example/users/alice"),
        ObjectField::Embedded(Entity { id: Some(uri("https://a.example/posts/9")) }),
        "Dislike",
    );
    let mut resolver = MemoryResolver::new();
    resolver.add_remote(LocalActorRecord { actor_uri: uri("https://a.example/users/alice") });
    let mut budget = FetchBudget::new(2);

    let (record, object) = verify_and_extract(&act, true, &mut resolver, &mut budget).unwrap();
    assert_eq!(record.actor_uri.text().as_str(), "https://a.example/users/alice");
    assert_eq!(object.unwrap().text().as_str(), "https://a.example/posts/9");
    assert_eq!(budget.remaining, 1);
}
