use matrix_identity_admin::error::{upstream_error, AppError};

#[test]
fn auth_error_returns_401() {
    assert_eq!(AppError::Auth("not logged in".into()).status_code(), 401);
}

#[test]
fn not_found_error_returns_404() {
    assert_eq!(AppError::NotFound("missing".into()).status_code(), 404);
}

#[test]
fn validation_error_returns_400() {
    assert_eq!(AppError::Validation("bad input".into()).status_code(), 400);
}

#[test]
fn upstream_error_returns_502() {
    assert_eq!(
        AppError::Upstream {
            service: "keycloak".into(),
            message: "timeout".into(),
        }
        .status_code(),
        502
    );
}

#[test]
fn database_error_returns_500() {
    assert_eq!(AppError::Database("row not found".into()).status_code(), 500);
}

#[test]
fn internal_error_returns_500() {
    assert_eq!(AppError::Internal("oops".into()).status_code(), 500);
}

#[test]
fn messages_name_the_kind() {
    assert_eq!(
        AppError::Auth("x".into()).to_message(),
        "Authentication error: x"
    );
    assert_eq!(
        AppError::Upstream {
            service: "mas".into(),
            message: "boom".into()
        }
        .to_message(),
        "Upstream API error from mas: boom"
    );
    assert_eq!(AppError::NotFound("u".into()).to_message(), "Not found: u");
}

#[test]
fn upstream_error_without_status_is_request_failed() {
    match upstream_error("testsvc", None) {
        AppError::Upstream { service, message } => {
            assert_eq!(service, "testsvc");
            assert_eq!(message, "request failed");
        }
        other => panic!("expected Upstream, got {other:?}"),
    }
}
