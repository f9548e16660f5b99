use sandbox_api::auth::LocalUser;
use sandbox_api::error::Error;
use sandbox_api::identity::{next_resolution, start_resolution, ResolveAction, ResolveStep, StoreReply};

fn record(id: u128) -> LocalUser {
    LocalUser { id, provider_id: "auth0|dana".to_string() }
}

#[test]
fn resolution_starts_with_lookup() {
    let (step, action) = start_resolution();
    assert_eq!(step, ResolveStep::LookingUp);
    assert!(matches!(action, ResolveAction::Lookup));
}

#[test]
fn existing_record_resolves() {
    let (_, action) = next_resolution(ResolveStep::LookingUp, StoreReply::Found(record(4)));
    assert!(matches!(action, ResolveAction::Resolved(u) if u.id == 4));
}

#[test]
fn missing_record_is_created() {
    let (step, action) = next_resolution(ResolveStep::LookingUp, StoreReply::Missing);
    assert_eq!(step, ResolveStep::Creating);
    assert!(matches!(action, ResolveAction::Create));
    let (_, action) = next_resolution(step, StoreReply::Created(record(9)));
    assert!(matches!(action, ResolveAction::Resolved(u) if u.id == 9));
}

#[test]
fn create_conflict_rereads() {
    let (step, action) = next_resolution(ResolveStep::Creating, StoreReply::Conflict);
    assert_eq!(step, ResolveStep::Rereading);
    assert!(matches!(action, ResolveAction::Lookup));
    let (_, action) = next_resolution(step, StoreReply::Found(record(2)));
    assert!(matches!(action, ResolveAction::Resolved(u) if u.id == 2));
}

#[test]
fn store_failures_are_internal() {
    for step in [ResolveStep::LookingUp, ResolveStep::Creating, ResolveStep::Rereading] {
        let (_, action) = next_resolution(step, StoreReply::Failed);
        match action {
            ResolveAction::Fail(e) => {
                assert!(matches!(e, Error::Store));
                assert_eq!(e.status_code(), 500);
            }
            other => panic!("unexpected {:?}", other),
        }
    }
}

#[test]
fn reread_that_finds_nothing_fails() {
    let (_, action) = next_resolution(ResolveStep::Rereading, StoreReply::Missing);
    assert!(matches!(action, ResolveAction::Fail(Error::Store)));
}
