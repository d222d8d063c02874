use drogue_bazaar::authz::{
    ApplicationAuthorizer, AuthZ, Authorization, Authorizer, Context, Evaluation, NotAnonymous,
    Outcome, PathParam, Permission,
};
use drogue_bazaar::error::AuthError;
use drogue_bazaar::user::{UserDetails, UserInformation};

fn user() -> UserInformation {
    UserInformation::Authenticated(UserDetails {
        user_id: "alice".to_string(),
        roles: vec!["admin".to_string()],
    })
}

fn ctx(identity: UserInformation) -> Context {
    Context {
        identity,
        params: vec![PathParam { name: "application".to_string(), value: "app1".to_string() }],
    }
}

fn abstain() -> Authorizer {
    Authorizer::Chain(vec![])
}

fn allow() -> Authorizer {
    abstain().or_else_allow()
}

fn deny() -> Authorizer {
    abstain().or_else_deny()
}

/// Fails: the path has no parameter of this name.
fn failing() -> Authorizer {
    Authorizer::Application(ApplicationAuthorizer {
        permission: Permission::Read,
        app_param: "device".to_string(),
    })
}

fn remote() -> Authorizer {
    Authorizer::Application(ApplicationAuthorizer {
        permission: Permission::Write,
        app_param: "application".to_string(),
    })
}

fn decide(a: &Authorizer, c: &Context, answers: Vec<Result<Outcome, AuthError>>) -> Result<Option<Outcome>, AuthError> {
    match a.authorize(c, &answers) {
        Evaluation::Done(r) => r,
        Evaluation::Ask(_) => panic!("unexpected question to the authorization service"),
    }
}

#[test]
fn first_decisive_vote_wins() {
    let chain = Authorizer::Chain(vec![deny(), allow()]);
    assert!(matches!(decide(&chain, &ctx(user()), vec![]), Ok(Some(Outcome::Deny))));
}

#[test]
fn unanimous_abstention_takes_the_default() {
    let allowing = Authorizer::Chain(vec![abstain(), abstain()]).or_else_allow();
    assert!(matches!(decide(&allowing, &ctx(user()), vec![]), Ok(Some(Outcome::Allow))));
    let denying = Authorizer::Chain(vec![abstain(), abstain()]).or_else_deny();
    assert!(matches!(decide(&denying, &ctx(user()), vec![]), Ok(Some(Outcome::Deny))));
    let bare = Authorizer::Chain(vec![abstain(), abstain()]);
    assert!(matches!(decide(&bare, &ctx(user()), vec![]), Ok(None)));
}

#[test]
fn error_stops_the_chain_before_later_members() {
    // the second member would have to ask the authorization service if it were reached
    let chain = Authorizer::Chain(vec![failing(), remote()]);
    match decide(&chain, &ctx(user()), vec![]) {
        Err(AuthError::InvalidRequest(m)) => assert_eq!(m, "Missing 'device' information"),
        _ => panic!("expected the first member's error"),
    }
}

#[test]
fn denial_becomes_not_found() {
    let a = deny().into_not_found("Application".to_string(), "application".to_string());
    match decide(&a, &ctx(user()), vec![]) {
        Err(e @ AuthError::NotFound(_, _)) => {
            assert_eq!(e.message(), "Resource not found: Application / app1");
            assert_eq!(e.status_code(), 404);
            assert_eq!(e.error_kind(), "NotFound");
        }
        _ => panic!("expected not found"),
    }
    let missing = deny().into_not_found("Device".to_string(), "device".to_string());
    assert!(matches!(decide(&missing, &ctx(user()), vec![]),
        Err(AuthError::NotFound(t, id)) if t == "Device" && id.is_empty()));
}

#[test]
fn allowance_passes_not_found_translation() {
    let a = allow().into_not_found("Application".to_string(), "application".to_string());
    assert!(matches!(decide(&a, &ctx(user()), vec![]), Ok(Some(Outcome::Allow))));
    let a = abstain().into_not_found("Application".to_string(), "application".to_string());
    assert!(matches!(decide(&a, &ctx(user()), vec![]), Ok(None)));
}

#[test]
fn not_anonymous_denies_anonymous_and_abstains_otherwise() {
    let a = Authorizer::NotAnonymous(NotAnonymous);
    assert!(matches!(decide(&a, &ctx(UserInformation::Anonymous), vec![]), Ok(Some(Outcome::Deny))));
    assert!(matches!(decide(&a, &ctx(user()), vec![]), Ok(None)));
}

#[test]
fn remote_denial_decides_after_not_anonymous_abstains() {
    let authz = AuthZ::new(Authorizer::Chain(vec![Authorizer::NotAnonymous(NotAnonymous), remote()]));
    let c = ctx(user());
    match authz.authorize(&c, &vec![]) {
        Authorization::Ask(q) => {
            assert_eq!(q.application, "app1");
            assert_eq!(q.permission, Permission::Write);
            assert_eq!(q.user_id.as_deref(), Some("alice"));
            assert_eq!(q.roles, vec!["admin".to_string()]);
        }
        _ => panic!("expected a question to the authorization service"),
    }
    assert!(matches!(authz.authorize(&c, &vec![Ok(Outcome::Deny)]), Authorization::Done(Err(AuthError::Forbidden))));
    assert!(matches!(authz.authorize(&c, &vec![Ok(Outcome::Allow)]), Authorization::Done(Ok(()))));
}

#[test]
fn anonymous_user_is_denied_without_asking() {
    let authz = AuthZ::new(Authorizer::Chain(vec![Authorizer::NotAnonymous(NotAnonymous), remote()]));
    assert!(matches!(authz.authorize(&ctx(UserInformation::Anonymous), &vec![]),
        Authorization::Done(Err(AuthError::Forbidden))));
}

#[test]
fn abstention_is_forbidden_at_the_top() {
    let authz = AuthZ::new(abstain());
    assert!(matches!(authz.authorize(&ctx(user()), &vec![]), Authorization::Done(Err(AuthError::Forbidden))));
}

#[test]
fn service_failure_is_passed_on() {
    let authz = AuthZ::new(remote());
    let answers = vec![Err(AuthError::Internal("timeout".to_string()))];
    assert!(matches!(authz.authorize(&ctx(user()), &answers),
        Authorization::Done(Err(AuthError::Internal(m))) if m == "timeout"));
}

#[test]
fn application_check_without_service_allows() {
    let authz = ApplicationAuthorizer::wrapping(false, Permission::Read);
    let c = Context { identity: UserInformation::Anonymous, params: vec![] };
    assert!(matches!(authz.authorize(&c, &vec![]), Authorization::Done(Ok(()))));
}

#[test]
fn application_check_with_service() {
    let authz = ApplicationAuthorizer::wrapping(true, Permission::Admin);
    let c = ctx(user());
    match authz.authorize(&c, &vec![]) {
        Authorization::Ask(q) => {
            assert_eq!(q.application, "app1");
            assert_eq!(q.permission, Permission::Admin);
        }
        _ => panic!("expected a question"),
    }
    assert!(matches!(authz.authorize(&c, &vec![Ok(Outcome::Allow)]), Authorization::Done(Ok(()))));
    assert!(matches!(authz.authorize(&c, &vec![Ok(Outcome::Deny)]),
        Authorization::Done(Err(AuthError::NotFound(t, id))) if t == "Application" && id == "app1"));
    let no_app = Context { identity: user(), params: vec![] };
    assert!(matches!(authz.authorize(&no_app, &vec![]),
        Authorization::Done(Err(AuthError::InvalidRequest(m))) if m == "Missing 'application' information"));
}

#[test]
fn first_matching_path_parameter_is_used() {
    let c = Context {
        identity: user(),
        params: vec![
            PathParam { name: "device".to_string(), value: "d1".to_string() },
            PathParam { name: "application".to_string(), value: "first".to_string() },
            PathParam { name: "application".to_string(), value: "second".to_string() },
        ],
    };
    assert_eq!(c.param(&"application".to_string()), Some("first".to_string()));
    assert_eq!(c.param(&"missing".to_string()), None);
}

#[test]
fn nested_chains_evaluate_like_flat_ones() {
    let c = ctx(user());
    let nested = Authorizer::Chain(vec![Authorizer::Chain(vec![abstain(), deny()]), allow()]);
    let flat = Authorizer::Chain(vec![abstain(), deny(), allow()]);
    assert!(matches!(decide(&nested, &c, vec![]), Ok(Some(Outcome::Deny))));
    assert!(matches!(decide(&flat, &c, vec![]), Ok(Some(Outcome::Deny))));
}

#[test]
fn error_categories_map_to_status_codes() {
    assert_eq!(AuthError::Forbidden.status_code(), 403);
    assert_eq!(AuthError::Forbidden.message(), "Forbidden");
    let invalid = AuthError::InvalidRequest("bad".to_string());
    assert_eq!(invalid.status_code(), 403);
    assert_eq!(invalid.error_kind(), "Forbidden");
    assert_eq!(invalid.message(), "Invalid request: bad");
    let internal = AuthError::Internal("boom".to_string());
    assert_eq!(internal.status_code(), 500);
    assert_eq!(internal.error_kind(), "Internal");
}
