use matrix_identity_admin::clients::{
    mas_finish_path, merge_sessions, space_child_ids, token_lifetime_secs, user_id_from_location,
    SpaceStateEvent,
};
use matrix_identity_admin::config::{parse_allowed_domains, Config};
use matrix_identity_admin::error::AppError;
use matrix_identity_admin::models::mas::MasSession;
use matrix_identity_admin::text::parse_i64;

fn s(id: &str, t: &str) -> MasSession {
    MasSession {
        id: id.into(),
        session_type: t.into(),
        created_at: None,
        last_active_at: None,
        user_agent: None,
        ip_address: None,
        finished_at: None,
    }
}

#[test]
fn finish_paths_by_session_type() {
    assert_eq!(
        mas_finish_path("01H", "compat").unwrap(),
        "/api/admin/v1/compat-sessions/01H/finish"
    );
    assert_eq!(
        mas_finish_path("01H", "oauth2").unwrap(),
        "/api/admin/v1/oauth2-sessions/01H/finish"
    );
    match mas_finish_path("01H", "saml") {
        Err(AppError::Validation(m)) => assert_eq!(m, "Unknown MAS session type: saml"),
        other => panic!("unexpected {other:?}"),
    }
}

#[test]
fn session_lists_merge_in_order() {
    let all = merge_sessions(Ok(vec![s("c1", "compat")]), Ok(vec![s("o1", "oauth2")]));
    let ids: Vec<&str> = all.iter().map(|x| x.id.as_str()).collect();
    assert_eq!(ids, vec!["c1", "o1"]);
    let half = merge_sessions(Err(AppError::Internal("x".into())), Ok(vec![s("o1", "oauth2")]));
    assert_eq!(half.len(), 1);
}

#[test]
fn created_user_id_from_location() {
    assert_eq!(
        user_id_from_location(Some("https://kc/admin/realms/r/users/abc-123")).unwrap(),
        "abc-123"
    );
    assert_eq!(user_id_from_location(Some("plain")).unwrap(), "plain");
    assert_eq!(user_id_from_location(Some("trailing/")).unwrap(), "");
    match user_id_from_location(None) {
        Err(AppError::Upstream { service, message }) => {
            assert_eq!(service, "keycloak");
            assert_eq!(message, "create_user response missing Location header");
        }
        other => panic!("unexpected {other:?}"),
    }
}

#[test]
fn space_children_from_state() {
    let ev = |t: &str, k: &str, c: bool| SpaceStateEvent {
        event_type: t.into(),
        state_key: k.into(),
        has_content: c,
    };
    let ids = space_child_ids(vec![
        ev("m.space.child", "!a", true),
        ev("m.space.child", "!gone", false),
        ev("m.room.name", "", true),
        ev("m.space.child", "", true),
        ev("m.space.child", "!b", true),
    ]);
    assert_eq!(ids, vec!["!a", "!b"]);
}

#[test]
fn token_lifetime_keeps_margin() {
    assert_eq!(token_lifetime_secs(300), 270);
    assert_eq!(token_lifetime_secs(10), 0);
}

fn vars(pairs: &[(&str, &str)]) -> Vec<(String, String)> {
    pairs
        .iter()
        .map(|(k, v)| (k.to_string(), v.to_string()))
        .collect()
}

const REQUIRED: [&str; 16] = [
    "APP_BASE_URL",
    "APP_SESSION_SECRET",
    "HOMESERVER_DOMAIN",
    "OIDC_ISSUER_URL",
    "OIDC_CLIENT_ID",
    "OIDC_CLIENT_SECRET",
    "OIDC_REDIRECT_URL",
    "KEYCLOAK_BASE_URL",
    "KEYCLOAK_REALM",
    "KEYCLOAK_ADMIN_CLIENT_ID",
    "KEYCLOAK_ADMIN_CLIENT_SECRET",
    "MAS_BASE_URL",
    "MAS_ADMIN_CLIENT_ID",
    "MAS_ADMIN_CLIENT_SECRET",
    "DATABASE_URL",
    "BOT_API_SECRET",
];

#[test]
fn config_from_environment() {
    let mut v: Vec<(&str, &str)> = REQUIRED.iter().map(|k| (*k, "x")).collect();
    v.push(("INVITE_ALLOWED_DOMAINS", " Example.org, ,test.com"));
    v.push(("SYNAPSE_BASE_URL", "http://synapse"));
    let c = Config::from_vars(&vars(&v)).unwrap();
    assert_eq!(c.bind_addr, "127.0.0.1:3000");
    assert_eq!(c.required_admin_role, "matrix-admin");
    assert!(c.synapse.is_none());
    assert_eq!(
        c.invite_allowed_domains,
        Some(vec!["example.org".to_string(), "test.com".to_string()])
    );
    assert_eq!(c.templates_path(), "onboarding_templates.json");
}

#[test]
fn missing_variable_is_named() {
    let v: Vec<(&str, &str)> = REQUIRED
        .iter()
        .filter(|k| **k != "OIDC_CLIENT_ID" && **k != "DATABASE_URL")
        .map(|k| (*k, "x"))
        .collect();
    match Config::from_vars(&vars(&v)) {
        Err(m) => assert_eq!(m, "Required environment variable OIDC_CLIENT_ID is not set"),
        Ok(_) => panic!("expected an error"),
    }
}

#[test]
fn allowed_domains_are_normalised() {
    assert_eq!(parse_allowed_domains("A.com,,b.org "), vec!["a.com", "b.org"]);
}

#[test]
fn numbers_parse_like_std() {
    for s in ["0", "-0", "+12", "-9223372036854775808", "9223372036854775807", "007"] {
        assert_eq!(parse_i64(s), s.parse::<i64>().ok(), "{s}");
    }
    for s in ["", "+", "-", "1a", " 1", "9223372036854775808", "--1"] {
        assert_eq!(parse_i64(s), None, "{s}");
    }
}
