use drogue_bazaar::authn::{
    to_expiration, AccessTokenOutcome, AuthN, AuthStep, AuthenticatedUntil, TokenClaims,
    MAX_UTC_TIMESTAMP, MIN_UTC_TIMESTAMP,
};
use drogue_bazaar::credentials::{ApiKey, BasicCredentials, CredentialSources, Credentials};
use drogue_bazaar::error::AuthError;
use drogue_bazaar::user::{UserDetails, UserInformation};

fn no_sources() -> CredentialSources {
    CredentialSources { basic: None, bearer: None, token: None, api_key: None }
}

fn basic(user: &str, password: Option<&str>) -> BasicCredentials {
    BasicCredentials { user_id: user.to_string(), password: password.map(|p| p.to_string()) }
}

fn api_key(user: &str, key: &str) -> ApiKey {
    ApiKey { username: user.to_string(), api_key: key.to_string() }
}

fn claims(exp: i64) -> TokenClaims {
    TokenClaims {
        subject: "alice".to_string(),
        expiration: exp,
        realm_roles: vec![Some("admin".to_string()), None, Some("user".to_string())],
        services_roles: vec![],
        drogue_roles: vec![Some("drogue-user".to_string())],
    }
}

fn is_invalid_request(r: &Result<Credentials, AuthError>) -> bool {
    matches!(r, Err(AuthError::InvalidRequest(m)) if m == "More than one way of authentication provided")
}

#[test]
fn no_source_is_anonymous() {
    assert!(matches!(Credentials::from_sources(no_sources()), Ok(Credentials::Anonymous)));
}

#[test]
fn basic_header_is_access_token() {
    let s = CredentialSources { basic: Some(basic("bob", Some("pat"))), ..no_sources() };
    match Credentials::from_sources(s) {
        Ok(Credentials::AccessToken(c)) => {
            assert_eq!(c.username, "bob");
            assert_eq!(c.access_token.as_deref(), Some("pat"));
        }
        _ => panic!("expected an access token"),
    }
}

#[test]
fn bearer_header_and_token_param_are_openid_tokens() {
    let s = CredentialSources { bearer: Some("abc".to_string()), ..no_sources() };
    assert!(matches!(Credentials::from_sources(s), Ok(Credentials::OpenIDToken(t)) if t == "abc"));
    let s = CredentialSources { token: Some("xyz".to_string()), ..no_sources() };
    assert!(matches!(Credentials::from_sources(s), Ok(Credentials::OpenIDToken(t)) if t == "xyz"));
}

#[test]
fn api_key_params_are_access_token() {
    let s = CredentialSources { api_key: Some(api_key("carol", "k1")), ..no_sources() };
    match Credentials::from_sources(s) {
        Ok(Credentials::AccessToken(c)) => {
            assert_eq!(c.username, "carol");
            assert_eq!(c.access_token.as_deref(), Some("k1"));
        }
        _ => panic!("expected an access token"),
    }
}

#[test]
fn basic_header_and_token_param_is_invalid_request() {
    let s = CredentialSources {
        basic: Some(basic("bob", Some("pat"))),
        token: Some("t".to_string()),
        ..no_sources()
    };
    let r = Credentials::from_sources(s);
    assert!(is_invalid_request(&r));
    assert_eq!(r.err().unwrap().status_code(), 403);
}

#[test]
fn every_combination_of_sources_classifies() {
    for mask in 0u8..16 {
        let s = CredentialSources {
            basic: if mask & 1 != 0 { Some(basic("u", Some("p"))) } else { None },
            bearer: if mask & 2 != 0 { Some("b".to_string()) } else { None },
            token: if mask & 4 != 0 { Some("t".to_string()) } else { None },
            api_key: if mask & 8 != 0 { Some(api_key("u", "k")) } else { None },
        };
        let r = Credentials::from_sources(s);
        match mask.count_ones() {
            0 => assert!(matches!(r, Ok(Credentials::Anonymous))),
            1 => assert!(matches!(r, Ok(Credentials::AccessToken(_)) | Ok(Credentials::OpenIDToken(_)))),
            _ => assert!(is_invalid_request(&r)),
        }
    }
}

#[test]
fn disabled_authentication_is_anonymous() {
    let auth = AuthN::from_verifiers(false, false);
    assert_eq!(auth, AuthN::Disabled);
    assert_eq!(AuthN::from_verifiers(false, true), AuthN::Enabled { openid: false, token: true });
    for c in [
        Credentials::Anonymous,
        Credentials::OpenIDToken("t".to_string()),
        Credentials::AccessToken(drogue_bazaar::credentials::UsernameAndToken {
            username: "u".to_string(),
            access_token: None,
        }),
    ] {
        match auth.authenticate(c) {
            AuthStep::Done(Ok(a)) => {
                assert!(matches!(a.identity, UserInformation::Anonymous));
                assert!(a.until.is_none());
            }
            _ => panic!("expected an anonymous identity"),
        }
    }
}

#[test]
fn request_without_credentials_and_authentication_disabled_proceeds_anonymously() {
    let credentials = Credentials::from_sources(no_sources()).unwrap();
    match AuthN::Disabled.authenticate(credentials) {
        AuthStep::Done(Ok(a)) => assert!(matches!(a.identity, UserInformation::Anonymous)),
        _ => panic!("expected an anonymous identity"),
    }
}

fn access_token(token: Option<&str>) -> Credentials {
    Credentials::AccessToken(drogue_bazaar::credentials::UsernameAndToken {
        username: "dave".to_string(),
        access_token: token.map(|t| t.to_string()),
    })
}

#[test]
fn missing_or_empty_access_token_is_invalid_request() {
    let auth = AuthN::Enabled { openid: true, token: true };
    for c in [access_token(None), access_token(Some(""))] {
        match auth.authenticate(c) {
            AuthStep::Done(Err(AuthError::InvalidRequest(m))) => {
                assert_eq!(m, "No access token provided.")
            }
            _ => panic!("expected an invalid request"),
        }
    }
}

#[test]
fn access_token_is_verified_when_enabled() {
    let auth = AuthN::from_verifiers(true, true);
    match auth.authenticate(access_token(Some("secret"))) {
        AuthStep::VerifyAccessToken(req) => {
            assert_eq!(req.user_id, "dave");
            assert_eq!(req.access_token, "secret");
        }
        _ => panic!("expected a verification step"),
    }
}

#[test]
fn disabled_verifiers_reject_their_credentials() {
    let auth = AuthN::Enabled { openid: false, token: false };
    match auth.authenticate(access_token(Some("secret"))) {
        AuthStep::Done(Err(AuthError::InvalidRequest(m))) => {
            assert_eq!(m, "Access token authentication disabled")
        }
        _ => panic!("expected an invalid request"),
    }
    match auth.authenticate(Credentials::OpenIDToken("t".to_string())) {
        AuthStep::Done(Err(AuthError::InvalidRequest(m))) => {
            assert_eq!(m, "Open ID authentication disabled")
        }
        _ => panic!("expected an invalid request"),
    }
    match auth.authenticate(Credentials::Anonymous) {
        AuthStep::Done(Ok(a)) => assert!(matches!(a.identity, UserInformation::Anonymous)),
        _ => panic!("expected an anonymous identity"),
    }
}

#[test]
fn openid_token_is_validated_when_enabled() {
    match AuthN::from_verifiers(true, false).authenticate(Credentials::OpenIDToken("tok".to_string())) {
        AuthStep::ValidateOpenIdToken(t) => assert_eq!(t, "tok"),
        _ => panic!("expected a validation step"),
    }
}

#[test]
fn known_access_token_authenticates_without_expiration() {
    let details = UserDetails { user_id: "dave".to_string(), roles: vec!["r1".to_string()] };
    let a = AuthN::access_token_verified(Ok(AccessTokenOutcome::Known(details))).unwrap();
    match a.identity {
        UserInformation::Authenticated(d) => {
            assert_eq!(d.user_id, "dave");
            assert_eq!(d.roles, vec!["r1".to_string()]);
        }
        _ => panic!("expected an authenticated identity"),
    }
    assert!(a.until.is_none());
}

#[test]
fn unknown_access_token_is_forbidden() {
    let r = AuthN::access_token_verified(Ok(AccessTokenOutcome::Unknown));
    assert!(matches!(r, Err(AuthError::Forbidden)));
}

#[test]
fn unreachable_access_token_service_is_internal() {
    let r = AuthN::access_token_verified(Err("connection refused".to_string()));
    match r {
        Err(e @ AuthError::Internal(_)) => {
            assert_eq!(e.message(), "Internal: connection refused");
            assert_eq!(e.status_code(), 500);
        }
        _ => panic!("expected an internal error"),
    }
}

#[test]
fn bearer_token_expiration_is_taken_from_exp_claim() {
    let s = CredentialSources { bearer: Some("jwt".to_string()), ..no_sources() };
    let c = Credentials::from_sources(s).unwrap();
    assert!(matches!(AuthN::from_verifiers(true, true).authenticate(c), AuthStep::ValidateOpenIdToken(_)));
    let a = AuthN::openid_validated(Some(claims(1700000000))).unwrap();
    assert_eq!(a.until, Some(AuthenticatedUntil(1700000000)));
}

#[test]
fn validated_token_roles_keep_string_entries_in_order() {
    let a = AuthN::openid_validated(Some(claims(1700000000))).unwrap();
    match a.identity {
        UserInformation::Authenticated(d) => {
            assert_eq!(d.user_id, "alice");
            assert_eq!(d.roles, vec!["admin", "user", "drogue-user"]);
        }
        _ => panic!("expected an authenticated identity"),
    }
}

#[test]
fn invalid_openid_token_is_forbidden() {
    assert!(matches!(AuthN::openid_validated(None), Err(AuthError::Forbidden)));
}

#[test]
fn unrepresentable_expiration_is_internal() {
    match AuthN::openid_validated(Some(claims(i64::MAX))) {
        Err(AuthError::Internal(m)) => assert_eq!(m, "Unable to convert timestamp"),
        _ => panic!("expected an internal error"),
    }
}

#[test]
fn expiration_range_matches_utc_dates() {
    assert_eq!(to_expiration(0).unwrap(), AuthenticatedUntil(0));
    assert_eq!(to_expiration(MAX_UTC_TIMESTAMP).unwrap(), AuthenticatedUntil(MAX_UTC_TIMESTAMP));
    assert_eq!(to_expiration(MIN_UTC_TIMESTAMP).unwrap(), AuthenticatedUntil(MIN_UTC_TIMESTAMP));
    assert!(matches!(to_expiration(MAX_UTC_TIMESTAMP + 1), Err(AuthError::Internal(_))));
    assert!(matches!(to_expiration(MIN_UTC_TIMESTAMP - 1), Err(AuthError::Internal(_))));
}
