use admin_core::auth_api::{
    issue_session, login_decision, me_output, password_update_decision, plan_profile_update,
    refresh_cookie_ttl_secs, refresh_session, refresh_token_for_client, require_refresh_token,
    to_auth_output, AdminPasswordUpdateInput, AdminProfileUpdateInput, AuthClientType,
};
use admin_core::error::CoreError;
use admin_core::model::{AdminRecord, AdminType, AttrValue};
use admin_core::session::{
    admin_permissions, resolve_scope_grant, SessionStore, TokenScopeGrant,
};

fn admin_with_abilities(tier: AdminType, abilities: Vec<AttrValue>) -> AdminRecord {
    AdminRecord {
        id: 42,
        username: "clerk".to_string(),
        email: Some("clerk@desk.example".to_string()),
        name: "Clerk".to_string(),
        admin_type: tier,
        abilities,
        created_at: 1704067200,
        updated_at: 1704067200,
    }
}

#[test]
fn explicit_permissions_resolve_to_an_explicit_grant() {
    let admin = admin_with_abilities(
        AdminType::Admin,
        vec![AttrValue::Str("reports.view".to_string())],
    );
    match resolve_scope_grant(&admin) {
        TokenScopeGrant::Explicit(perms) => {
            assert_eq!(perms, vec!["reports.view".to_string()]);
        },
        other => panic!("unexpected grant: {:?}", other),
    }
}

#[test]
fn wildcard_ability_resolves_to_a_wildcard_grant_for_privileged_tiers() {
    let admin = admin_with_abilities(AdminType::SuperAdmin, Vec::new());
    assert!(matches!(resolve_scope_grant(&admin), TokenScopeGrant::Wildcard));
    let dev = admin_with_abilities(AdminType::Developer, Vec::new());
    assert!(matches!(resolve_scope_grant(&dev), TokenScopeGrant::Wildcard));
}

#[test]
fn wildcard_ability_gives_a_normal_admin_the_wildcard_grant() {
    let admin = admin_with_abilities(
        AdminType::Admin,
        vec![
            AttrValue::Str("*".to_string()),
            AttrValue::Str("reports.view".to_string()),
        ],
    );
    assert!(matches!(resolve_scope_grant(&admin), TokenScopeGrant::Wildcard));
}

#[test]
fn refresh_cookie_lifetime_follows_the_guard_configuration() {
    assert_eq!(refresh_cookie_ttl_secs(Some(30)), Some(30 * 86400));
    assert_eq!(refresh_cookie_ttl_secs(None), None);
    assert_eq!(refresh_cookie_ttl_secs(Some(u64::MAX)), None);
}

#[test]
fn no_abilities_resolve_to_auth_only() {
    let admin = admin_with_abilities(AdminType::Admin, vec![AttrValue::Int(3), AttrValue::Null]);
    assert!(matches!(resolve_scope_grant(&admin), TokenScopeGrant::AuthOnly));
}

#[test]
fn admin_permissions_sort_dedup_and_skip_junk() {
    let admin = admin_with_abilities(
        AdminType::Admin,
        vec![
            AttrValue::Str("  reports.view ".to_string()),
            AttrValue::Str("admin.read".to_string()),
            AttrValue::Str("reports.view".to_string()),
            AttrValue::Str("  ".to_string()),
            AttrValue::Str("not.a.permission".to_string()),
            AttrValue::Int(7),
            AttrValue::Str("*".to_string()),
        ],
    );
    let perms = admin_permissions(&admin);
    assert_eq!(
        perms,
        vec!["*".to_string(), "admin.read".to_string(), "reports.view".to_string()]
    );
}

#[test]
fn login_requires_a_known_subject_and_a_valid_password() {
    let admin = admin_with_abilities(AdminType::Admin, Vec::new());
    assert_eq!(login_decision(None, true).unwrap_err(), CoreError::Unauthorized);
    assert_eq!(
        login_decision(Some(admin_with_abilities(AdminType::Admin, Vec::new())), false)
            .unwrap_err(),
        CoreError::Unauthorized
    );
    let ok = login_decision(Some(admin), true).unwrap();
    assert_eq!(ok.id, 42);
}

#[test]
fn issued_pair_embeds_grant_and_expiry() {
    let mut store = SessionStore::new();
    let admin = admin_with_abilities(
        AdminType::Admin,
        vec![AttrValue::Str("reports.view".to_string())],
    );
    let (pair, claims) = issue_session(
        &mut store,
        &admin,
        "admin".to_string(),
        "admin-session".to_string(),
        "signed-access".to_string(),
        "refresh-1".to_string(),
        1_000,
        900,
        86_400,
    );
    assert_eq!(pair.access_token, "signed-access");
    assert_eq!(pair.access_expires_at, 1_900);
    assert_eq!(pair.refresh_token, "refresh-1");
    assert_eq!(pair.abilities, vec!["reports.view".to_string()]);
    assert_eq!(claims.subject_id, 42);
    assert_eq!(claims.expires_at, 1_900);
    assert!(matches!(claims.grant, TokenScopeGrant::Explicit(_)));
    assert_eq!(store.len(), 1);
    assert!(store.is_live("refresh-1", 1_000));
    assert!(!store.is_live("refresh-1", 90_000));
}

#[test]
fn refresh_rotates_exactly_once() {
    let mut store = SessionStore::new();
    let admin = admin_with_abilities(AdminType::SuperAdmin, Vec::new());
    issue_session(
        &mut store,
        &admin,
        "admin".to_string(),
        "admin-session".to_string(),
        "signed-access".to_string(),
        "refresh-1".to_string(),
        1_000,
        900,
        86_400,
    );
    let first = refresh_session(
        &mut store,
        "refresh-1",
        &admin,
        "admin".to_string(),
        "signed-access-2".to_string(),
        "refresh-2".to_string(),
        2_000,
        900,
        86_400,
    );
    let (pair, _claims) = first.unwrap();
    assert_eq!(pair.refresh_token, "refresh-2");
    // The presented token was consumed atomically: a replay loses.
    let replay = refresh_session(
        &mut store,
        "refresh-1",
        &admin,
        "admin".to_string(),
        "signed-access-3".to_string(),
        "refresh-3".to_string(),
        2_001,
        900,
        86_400,
    );
    assert_eq!(replay.unwrap_err(), CoreError::Conflict);
    // The successor works.
    assert!(store.is_live("refresh-2", 2_002));
}

#[test]
fn refresh_of_unknown_or_expired_tokens_is_unauthorized() {
    let mut store = SessionStore::new();
    let admin = admin_with_abilities(AdminType::SuperAdmin, Vec::new());
    let unknown = refresh_session(
        &mut store,
        "missing",
        &admin,
        "admin".to_string(),
        "a".to_string(),
        "refresh-9".to_string(),
        2_000,
        900,
        86_400,
    );
    assert_eq!(unknown.unwrap_err(), CoreError::Unauthorized);
    issue_session(
        &mut store,
        &admin,
        "admin".to_string(),
        "admin-session".to_string(),
        "a".to_string(),
        "refresh-1".to_string(),
        1_000,
        900,
        10,
    );
    let expired = refresh_session(
        &mut store,
        "refresh-1",
        &admin,
        "admin".to_string(),
        "a".to_string(),
        "refresh-2".to_string(),
        5_000,
        900,
        86_400,
    );
    assert_eq!(expired.unwrap_err(), CoreError::Unauthorized);
}

#[test]
fn revoking_twice_succeeds_both_times() {
    let mut store = SessionStore::new();
    let admin = admin_with_abilities(AdminType::SuperAdmin, Vec::new());
    issue_session(
        &mut store,
        &admin,
        "admin".to_string(),
        "admin-session".to_string(),
        "a".to_string(),
        "refresh-1".to_string(),
        1_000,
        900,
        86_400,
    );
    store.revoke("refresh-1");
    assert!(!store.is_live("refresh-1", 1_001));
    store.revoke("refresh-1");
    assert!(!store.is_live("refresh-1", 1_001));
    // Revoking an unknown token is not an error either.
    store.revoke("never-issued");
    assert_eq!(store.len(), 1);
}

#[test]
fn web_clients_get_no_refresh_token_in_the_body() {
    let mut store = SessionStore::new();
    let admin = admin_with_abilities(AdminType::SuperAdmin, Vec::new());
    let (pair, _claims) = issue_session(
        &mut store,
        &admin,
        "admin".to_string(),
        "admin-session".to_string(),
        "signed".to_string(),
        "refresh-1".to_string(),
        1_000,
        900,
        86_400,
    );
    let web = to_auth_output(AuthClientType::Web, &pair);
    assert_eq!(web.token_type, "Bearer");
    assert!(web.refresh_token.is_none());
    assert_eq!(web.access_token, "signed");
    let mobile = to_auth_output(AuthClientType::Mobile, &pair);
    assert_eq!(mobile.refresh_token, Some("refresh-1".to_string()));
    assert_eq!(mobile.scopes, vec!["*".to_string()]);
}

#[test]
fn refresh_token_source_follows_the_client_type() {
    let cookie = Some("from-cookie".to_string());
    let body = Some("from-body".to_string());
    assert_eq!(
        refresh_token_for_client(AuthClientType::Web, cookie.clone(), body.clone()),
        cookie
    );
    assert_eq!(
        refresh_token_for_client(AuthClientType::Mobile, cookie, body.clone()),
        body
    );
    assert_eq!(
        require_refresh_token(None).unwrap_err(),
        CoreError::BadRequest
    );
    assert_eq!(require_refresh_token(Some("t".to_string())).unwrap(), "t");
}

#[test]
fn profile_and_password_flows_decide_as_documented() {
    let plan = plan_profile_update(AdminProfileUpdateInput {
        name: "  New Name  ".to_string(),
        email: Some("  OPS@Example.COM ".to_string()),
    });
    assert_eq!(plan.name, "New Name");
    assert_eq!(plan.email, Some("ops@example.com".to_string()));
    let noop = plan_profile_update(AdminProfileUpdateInput {
        name: "n".to_string(),
        email: Some("   ".to_string()),
    });
    assert!(noop.email.is_none());

    assert_eq!(
        password_update_decision(false, true).unwrap_err(),
        CoreError::NotFound
    );
    assert_eq!(
        password_update_decision(true, false).unwrap_err(),
        CoreError::Unauthorized
    );
    assert!(password_update_decision(true, true).is_ok());

    let req = AdminPasswordUpdateInput {
        current_password: "old".to_string(),
        password: "new-password".to_string(),
        password_confirmation: "new-password".to_string(),
    };
    assert!(req.confirmation_matches());

    let admin = admin_with_abilities(AdminType::Admin, Vec::new());
    let me = me_output(admin, vec!["reports.view".to_string()]);
    assert_eq!(me.username, "clerk");
    assert_eq!(me.scopes, vec!["reports.view".to_string()]);
}
