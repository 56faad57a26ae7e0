use matrix_identity_admin::error::AppError;
use matrix_identity_admin::handlers::audit::{
    audit_action_options, audit_filter, audit_page, audit_result_options, default_page, non_empty,
    validate_date_format, validate_optional_filter,
};
use matrix_identity_admin::handlers::dashboard::{status_card, total_users, window_counts};
use matrix_identity_admin::handlers::delete::delete_redirect;
use matrix_identity_admin::handlers::devices::{force_logout_call, user_page};
use matrix_identity_admin::handlers::invite::{
    admin_invite_redirect, check_bot_authorization, invite_failure_response,
};
use matrix_identity_admin::handlers::notice::warning_param;
use matrix_identity_admin::handlers::policy::{
    binding_request, change_redirect, created_redirect, group_options, parse_power_level,
    refreshed_redirect, role_options, room_options, CreateBindingForm,
};
use matrix_identity_admin::handlers::reactivate::reactivate_redirect;
use matrix_identity_admin::handlers::reconcile::reconcile_redirect;
use matrix_identity_admin::handlers::sessions::revoke_call;
use matrix_identity_admin::handlers::templates::{
    new_template, remove_template, template_created_record, template_name,
};
use matrix_identity_admin::handlers::users::{search_first, search_page, search_total_pages};
use matrix_identity_admin::models::keycloak::KeycloakGroup;
use matrix_identity_admin::models::onboarding_template::OnboardingTemplate;
use matrix_identity_admin::models::policy_binding::{CachedRoom, PolicySubject, PolicyTarget};
use matrix_identity_admin::models::workflow::WorkflowOutcome;
use matrix_identity_admin::services::delete_user::DeleteUserResult;
use matrix_identity_admin::services::protocol::Command;

#[test]
fn audit_filters_are_validated() {
    let actions = audit_action_options();
    assert_eq!(actions.len(), 20);
    assert_eq!(default_page(), 1);
    assert_eq!(
        validate_optional_filter(Some("invite_user".into()), "action", &actions).unwrap(),
        "invite_user"
    );
    assert_eq!(validate_optional_filter(None, "action", &actions).unwrap(), "");
    match validate_optional_filter(Some("drop_table".into()), "action", &actions) {
        Err(AppError::Validation(m)) => assert_eq!(m, "Invalid audit action filter."),
        other => panic!("unexpected {other:?}"),
    }
    let results = audit_result_options();
    assert!(validate_optional_filter(Some("failure".into()), "result", &results).is_ok());
    assert!(validate_optional_filter(Some("maybe".into()), "result", &results).is_err());
}

#[test]
fn dates_must_be_iso() {
    assert!(validate_date_format("2026-01-31").is_ok());
    for bad in ["2026-1-31", "2026/01/31", "20260131xx", "2026-01-3a", "", "２０２６-01-31"] {
        match validate_date_format(bad) {
            Err(AppError::Validation(m)) => assert_eq!(m, "Invalid date format, expected YYYY-MM-DD"),
            other => panic!("{bad}: unexpected {other:?}"),
        }
    }
}

#[test]
fn audit_paging_clamps() {
    let p = audit_page(0, 5);
    assert_eq!((p.page, p.total_pages, p.offset), (1, 1, 0));
    let p = audit_page(120, 2);
    assert_eq!((p.page, p.total_pages, p.offset), (2, 3, 50));
    let p = audit_page(120, 99);
    assert_eq!((p.page, p.total_pages, p.offset), (3, 3, 100));
    let p = audit_page(120, -4);
    assert_eq!(p.page, 1);
}

#[test]
fn empty_filter_fields_do_not_filter() {
    let f = audit_filter("", "success", "", "2026-01-01", "");
    assert_eq!(f.action, None);
    assert_eq!(f.result, Some("success"));
    assert_eq!(f.from, Some("2026-01-01"));
    assert_eq!(non_empty(""), None);
}

#[test]
fn search_paging() {
    assert_eq!(search_page(None), 1);
    assert_eq!(search_page(Some(0)), 1);
    assert_eq!(search_page(Some(3)), 3);
    assert_eq!(search_first(3), 50);
    assert_eq!(search_total_pages(0), 1);
    assert_eq!(search_total_pages(25), 1);
    assert_eq!(search_total_pages(26), 2);
}

fn outcome(ws: &[&str]) -> WorkflowOutcome {
    WorkflowOutcome {
        warnings: ws.iter().map(|s| s.to_string()).collect(),
    }
}

#[test]
fn warnings_are_encoded_and_limited() {
    assert_eq!(warning_param(&outcome(&["a b", "c"])), "a+b%3B+c");
    let long = "x".repeat(500);
    let w = warning_param(&outcome(&[long.as_str()]));
    assert_eq!(w.len(), 409);
    assert!(w.ends_with("%E2%80%A6"));
}

#[test]
fn lifecycle_redirects() {
    assert_eq!(
        reconcile_redirect("kc-1", &outcome(&[])),
        "/users/kc-1?notice=Room+membership+reconciled"
    );
    assert_eq!(
        reconcile_redirect("kc-1", &outcome(&["oops"])),
        "/users/kc-1?warning=oops"
    );
    assert_eq!(
        reactivate_redirect("kc-1", &outcome(&[])),
        "/users/kc-1?notice=User+reactivated"
    );
    assert_eq!(
        delete_redirect("kc-1", &DeleteUserResult::Deleted(outcome(&[]))),
        "/users/search"
    );
    assert_eq!(
        delete_redirect("kc-1", &DeleteUserResult::Deleted(outcome(&["w"]))),
        "/users/search?warning=w"
    );
    assert_eq!(
        delete_redirect("kc-1", &DeleteUserResult::PartialFailure(outcome(&["w"]))),
        "/users/kc-1?warning=w"
    );
    assert_eq!(user_page("kc-1"), "/users/kc-1");
}

#[test]
fn bot_secret_is_checked() {
    assert!(check_bot_authorization(Some("Bearer s3cret"), "s3cret").is_ok());
    for bad in [None, Some("s3cret"), Some("Bearer other")] {
        match check_bot_authorization(bad, "s3cret") {
            Err(AppError::Auth(m)) => assert_eq!(m, "Invalid bot API secret"),
            other => panic!("unexpected {other:?}"),
        }
    }
}

#[test]
fn invite_failures_map_to_status() {
    let (s, m) = invite_failure_response(&AppError::Auth("Invalid bot API secret".into()));
    assert_eq!((s, m.as_str()), (401, "Authentication error: Invalid bot API secret"));
    let (s, m) = invite_failure_response(&AppError::Validation("Invalid email address".into()));
    assert_eq!((s, m.as_str()), (422, "Invalid email address"));
    let (s, m) = invite_failure_response(&AppError::Upstream {
        service: "keycloak".into(),
        message: "HTTP 500".into(),
    });
    assert_eq!((s, m.as_str()), (502, "Upstream error (keycloak): HTTP 500"));
    let (s, m) = invite_failure_response(&AppError::Database("x".into()));
    assert_eq!((s, m.as_str()), (500, "Internal error"));
}

#[test]
fn admin_invite_redirects() {
    assert_eq!(admin_invite_redirect(&Ok("done".to_string())), "/?notice=Invite+sent+to+done");
    assert_eq!(
        admin_invite_redirect(&Err(AppError::Validation("bad".into()))),
        "/?error=Validation+error%3A+bad"
    );
}

fn form(st: &str, tt: &str, pl: Option<&str>, rm: bool) -> CreateBindingForm {
    CreateBindingForm {
        _csrf: "t".into(),
        subject_type: st.into(),
        subject_value: "staff".into(),
        target_type: tt.into(),
        target_room_id: "!r".into(),
        power_level: pl.map(String::from),
        allow_remove: if rm { Some("on".into()) } else { None },
    }
}

#[test]
fn binding_forms_are_read() {
    let b = binding_request(form("group", "space", Some(" 50 "), true)).unwrap();
    assert_eq!(b.subject, PolicySubject::Group("staff".into()));
    assert_eq!(b.target, PolicyTarget::Space("!r".into()));
    assert_eq!(b.power_level, Some(50));
    assert!(b.allow_remove);
    let b = binding_request(form("role", "room", Some("high"), false)).unwrap();
    assert_eq!(b.subject, PolicySubject::Role("staff".into()));
    assert_eq!(b.power_level, None);
    match binding_request(form("user", "room", None, false)) {
        Err(AppError::Validation(m)) => assert_eq!(m, "Invalid subject type"),
        _ => panic!("expected an invalid subject"),
    }
    match binding_request(form("group", "dm", None, false)) {
        Err(AppError::Validation(m)) => assert_eq!(m, "Invalid target type"),
        _ => panic!("expected an invalid target"),
    }
    assert_eq!(parse_power_level(&Some("-100".into())), Some(-100));
    assert_eq!(parse_power_level(&Some("+7".into())), Some(7));
    assert_eq!(parse_power_level(&Some("".into())), None);
    assert_eq!(parse_power_level(&Some("99999999999999999999".into())), None);
    assert_eq!(parse_power_level(&None), None);
}

#[test]
fn policy_redirects() {
    assert_eq!(created_redirect(), "/policy?notice=Binding+created");
    assert_eq!(change_redirect(false, true), "/policy?notice=Binding+updated");
    assert_eq!(change_redirect(true, true), "/policy?notice=Binding+deleted");
    assert_eq!(change_redirect(true, false), "/policy?warning=Binding+not+found");
    assert_eq!(refreshed_redirect(12), "/policy?notice=Refreshed+12+rooms+from+Synapse");
}

#[test]
fn option_fragments() {
    let groups = Ok(vec![KeycloakGroup {
        id: "1".into(),
        name: "staff".into(),
        path: "/staff".into(),
    }]);
    assert_eq!(
        group_options(&groups),
        "<option value=\"\">Select a group…</option><option value=\"staff\">staff</option>"
    );
    assert_eq!(
        group_options(&Err(AppError::Internal("x".into()))),
        "<option value=\"\" disabled>Failed to load groups — try again</option>"
    );
    assert_eq!(
        role_options(&Ok(vec![])),
        "<option value=\"\">Select a role…</option>"
    );
    let rooms = vec![
        CachedRoom {
            room_id: "!a".into(),
            name: Some("Lobby".into()),
            canonical_alias: Some("#lobby:test".into()),
            parent_space_id: None,
            is_space: false,
            last_seen_at: String::new(),
        },
        CachedRoom {
            room_id: "!b".into(),
            name: None,
            canonical_alias: None,
            parent_space_id: None,
            is_space: true,
            last_seen_at: String::new(),
        },
    ];
    assert_eq!(
        room_options(&rooms),
        "<option value=\"\">Select a room…</option><option value=\"!a\">[Room] Lobby (#lobby:test)</option><option value=\"!b\">[Space] !b</option>"
    );
    assert_eq!(
        room_options(&vec![]),
        "<option value=\"\" disabled>No rooms cached — click Refresh Rooms</option>"
    );
}

#[test]
fn templates_are_created_and_removed() {
    assert_eq!(template_name("   "), None);
    assert_eq!(template_name(" Staff ").as_deref(), Some("Staff"));
    let existing = vec![OnboardingTemplate {
        name: "Staff".into(),
        description: String::new(),
        groups: vec![],
        roles: vec![],
    }];
    assert!(new_template("Staff".into(), String::new(), "", "", &existing).is_none());
    let t = new_template("Ops".into(), "d".into(), " a, ,b ", "r1,", &existing).unwrap();
    assert_eq!(t.groups, vec!["a", "b"]);
    assert_eq!(t.roles, vec!["r1"]);
    let rec = template_created_record("sub", "admin", &t);
    assert_eq!(rec.action, "create_onboarding_template");
    let mut all = existing.clone();
    all.push(t);
    let left = remove_template(all, "Ops");
    assert_eq!(left, existing);
}

#[test]
fn single_audited_calls() {
    let (c, r) = force_logout_call("sub", "admin", "kc-1");
    assert!(matches!(c, Command::LogoutUser { user_id } if user_id == "kc-1"));
    assert_eq!(r.action, "force_keycloak_logout");
    let (c, r) = revoke_call("sub", "admin", "kc-1", "s-1", "oauth2");
    assert!(matches!(c, Command::FinishAuthSession { session_id, session_type } if session_id == "s-1" && session_type == "oauth2"));
    assert_eq!(r.action, "finish_mas_session");
}

#[test]
fn dashboard_counts_default_to_zero() {
    let w = window_counts(&Ok(3), &Err(AppError::Internal("x".into())), &Ok(9));
    assert_eq!((w.day, w.week, w.month), (3, 0, 9));
    assert_eq!(total_users(&Err(AppError::Internal("x".into()))), 0);
    let card = status_card(&Ok(5), &Ok(None), &Ok(vec![]), &Err(AppError::Internal("x".into())), &None);
    assert!(card.keycloak_ok && card.mas_ok && !card.synapse_configured);
    assert_eq!(card.user_count, Some(5));
    assert_eq!(card.group_count, Some(0));
    assert_eq!(card.role_count, None);
    assert_eq!(card.room_count, None);
}

#[test]
fn template_names_drop_unicode_white_space() {
    assert_eq!(template_name("\u{a0}\tStaff team\u{3000}\n").as_deref(), Some("Staff team"));
    assert_eq!(template_name("\u{2028}\u{85}"), None);
}
