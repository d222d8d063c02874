use drogue_bazaar::cors::{CorsBase, CorsConfig, CorsConfigError, CorsSettings, CorsStep};

fn strings(v: &[&str]) -> Vec<String> {
    v.iter().map(|s| s.to_string()).collect()
}

fn steps(cfg: &CorsConfig) -> (CorsBase, Vec<CorsStep>) {
    cfg.policy().unwrap().unwrap()
}

#[test]
fn test_config_disabled() {
    assert!(CorsConfig::Disabled.policy().unwrap().is_none());
}

#[test]
fn test_config_permissive() {
    let (base, s) = steps(&CorsConfig::Permissive(CorsSettings::default()));
    assert_eq!(base, CorsBase::Permissive);
    assert!(s.is_empty());
}

#[test]
fn test_config_custom() {
    let (base, s) = steps(&CorsConfig::Custom(CorsSettings::default()));
    assert_eq!(base, CorsBase::Restrictive);
    assert!(s.is_empty());
}

#[test]
fn test_config_permissive_with() {
    let settings = CorsSettings { max_age: Some(3600), ..CorsSettings::default() };
    let (base, s) = steps(&CorsConfig::Permissive(settings));
    assert_eq!(base, CorsBase::Permissive);
    assert_eq!(s.len(), 1);
    assert!(matches!(s[0], CorsStep::MaxAge(3600)));
}

#[test]
fn test_config_custom_with() {
    let settings = CorsSettings {
        max_age: Some(3600),
        allowed_methods: Some(strings(&["GET", "POST"])),
        allowed_origin_urls: Some(strings(&["https://foo.bar", "https://bar.baz/*"])),
        ..CorsSettings::default()
    };
    let (base, s) = steps(&CorsConfig::Custom(settings));
    assert_eq!(base, CorsBase::Restrictive);
    assert_eq!(s.len(), 4);
    assert!(matches!(s[0], CorsStep::MaxAge(3600)));
    assert!(matches!(&s[1], CorsStep::AllowedOrigin(o) if o == "https://foo.bar"));
    assert!(matches!(&s[2], CorsStep::AllowedOrigin(o) if o == "https://bar.baz/*"));
    assert!(matches!(&s[3], CorsStep::AllowedMethods(m) if *m == strings(&["GET", "POST"])));
}

#[test]
fn steps_follow_the_builder_order() {
    let settings = CorsSettings {
        allowed_headers: Some(strings(&["X-Custom", "Content-Type"])),
        expose_headers: Some(strings(&["X-Trace"])),
        send_wildcard: true,
        supports_credentials: true,
        expose_any_header: true,
        ..CorsSettings::default()
    };
    let s = settings.apply().unwrap();
    assert_eq!(s.len(), 5);
    assert!(matches!(&s[0], CorsStep::AllowedHeaders(h) if *h == strings(&["x-custom", "content-type"])));
    assert!(matches!(s[1], CorsStep::SendWildcard));
    assert!(matches!(s[2], CorsStep::SupportsCredentials));
    assert!(matches!(&s[3], CorsStep::ExposeHeaders(h) if *h == strings(&["x-trace"])));
    assert!(matches!(s[4], CorsStep::ExposeAnyHeader));
}

#[test]
fn invalid_header_name_is_reported() {
    let settings = CorsSettings {
        allowed_headers: Some(strings(&["X-Ok", "bad header"])),
        allowed_methods: Some(strings(&["G E T"])),
        ..CorsSettings::default()
    };
    assert!(matches!(settings.apply(), Err(CorsConfigError::InvalidHeaderName(h)) if h == "bad header"));
    let exposed = CorsSettings { expose_headers: Some(strings(&[""])), ..CorsSettings::default() };
    assert!(matches!(exposed.apply(), Err(CorsConfigError::InvalidHeaderName(h)) if h.is_empty()));
}

#[test]
fn invalid_method_is_reported() {
    let settings = CorsSettings {
        allowed_methods: Some(strings(&["GET", "G E T"])),
        expose_headers: Some(strings(&["bad header"])),
        ..CorsSettings::default()
    };
    assert!(matches!(settings.apply(), Err(CorsConfigError::InvalidMethod(m)) if m == "G E T"));
    let custom = CorsSettings { allowed_methods: Some(strings(&["PURGE"])), ..CorsSettings::default() };
    assert!(matches!(&custom.apply().unwrap()[0], CorsStep::AllowedMethods(m) if *m == strings(&["PURGE"])));
}
