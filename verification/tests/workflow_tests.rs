use admin_core::authz::{has_required_permissions, Permission, PermissionMode};
use admin_core::error::CoreError;
use admin_core::export::{export_rows, AsyncExportManager, ExportStatus};
use admin_core::input::DataTableInput;
use admin_core::model::{AdminRecord, AdminType, AttrValue};
use admin_core::registry::DataTableRegistry;
use admin_core::util::{is_truthy, nonblank_or, renumber_placeholders, should_skip_bootstrap};
use admin_core::validation::{validate_username, UsernameIssue, UsernameString};
use admin_core::workflow::{
    ensure_assignable_permissions, ensure_not_self, ensure_username_free,
    normalize_optional_email, plan_create, plan_update, require_affected, require_found,
    AdminOutput, CreateAdminInput, UpdateAdminInput,
};

fn record(id: i64, tier: AdminType) -> AdminRecord {
    AdminRecord {
        id,
        username: "clerk".to_string(),
        email: None,
        name: "Clerk".to_string(),
        admin_type: tier,
        abilities: vec![
            AttrValue::Str("reports.view".to_string()),
            AttrValue::Int(9),
        ],
        created_at: 0,
        updated_at: 0,
    }
}

#[test]
fn any_mode_passes_with_one_of_the_required_permissions() {
    let held = vec!["admin.read".to_string()];
    let required = vec!["admin.read".to_string(), "admin.manage".to_string()];
    assert!(has_required_permissions(&held, &required, PermissionMode::Any));
    let none: Vec<String> = Vec::new();
    assert!(!has_required_permissions(&none, &required, PermissionMode::Any));
}

#[test]
fn all_mode_needs_every_permission_and_wildcard_passes_everything() {
    let held = vec!["admin.read".to_string()];
    let required = vec!["admin.read".to_string(), "admin.manage".to_string()];
    assert!(!has_required_permissions(&held, &required, PermissionMode::All));
    let star = vec!["*".to_string()];
    assert!(has_required_permissions(&star, &required, PermissionMode::All));
    assert!(has_required_permissions(&star, &required, PermissionMode::Any));
}

#[test]
fn usernames_are_lowercase_alpha_dash_and_bounded() {
    assert!(validate_username("clerk_01").is_ok());
    assert!(validate_username("  clerk-01  ").is_ok());
    assert_eq!(validate_username("   "), Err(UsernameIssue::Required));
    assert_eq!(validate_username("bad name"), Err(UsernameIssue::AlphaDash));
    assert_eq!(validate_username("Clerk"), Err(UsernameIssue::Lowercase));
    assert_eq!(UsernameString::new("ab"), Err(UsernameIssue::Length));
    let u = UsernameString::new("  clerk  ").unwrap();
    assert_eq!(u.as_str(), "clerk");
}

#[test]
fn email_normalization_trims_lowercases_and_drops_blanks() {
    assert_eq!(
        normalize_optional_email(Some("  Ops@Example.COM ".to_string())),
        Some("ops@example.com".to_string())
    );
    assert_eq!(normalize_optional_email(Some("   ".to_string())), None);
    assert_eq!(normalize_optional_email(None), None);
}

#[test]
fn a_normal_admin_cannot_assign_admin_permissions() {
    let held = vec!["reports.view".to_string()];
    let err = ensure_assignable_permissions(
        AdminType::Admin,
        &held,
        &vec![Permission::AdminRead],
    )
    .unwrap_err();
    assert_eq!(err, CoreError::Forbidden);
    let ok = ensure_assignable_permissions(
        AdminType::Admin,
        &held,
        &vec![Permission::ReportsView],
    )
    .unwrap();
    assert_eq!(ok, vec!["reports.view".to_string()]);
    let not_held = ensure_assignable_permissions(
        AdminType::Admin,
        &vec![],
        &vec![Permission::ReportsView],
    );
    assert_eq!(not_held.unwrap_err(), CoreError::Forbidden);
    let privileged = ensure_assignable_permissions(
        AdminType::SuperAdmin,
        &vec![],
        &vec![Permission::AdminManage],
    )
    .unwrap();
    assert_eq!(privileged, vec!["admin.manage".to_string()]);
}

#[test]
fn create_plan_normalizes_and_checks_availability() {
    let req = CreateAdminInput {
        username: UsernameString::new("newadmin").unwrap(),
        email: Some(" New@Example.com ".to_string()),
        name: "  New Admin  ".to_string(),
        admin_type: AdminType::Admin,
        password: "secret-password".to_string(),
        abilities: vec![Permission::ReportsView],
    };
    let taken = plan_create(AdminType::SuperAdmin, &vec![], req.clone(), true);
    assert_eq!(taken.unwrap_err(), CoreError::BadRequest);
    let plan = plan_create(AdminType::SuperAdmin, &vec![], req, false).unwrap();
    assert_eq!(plan.username, "newadmin");
    assert_eq!(plan.email, Some("new@example.com".to_string()));
    assert_eq!(plan.name, "New Admin");
    assert_eq!(plan.abilities, vec!["reports.view".to_string()]);
}

#[test]
fn update_plan_refuses_self_update_and_tracks_touched_fields() {
    let existing = record(42, AdminType::Admin);
    let req = UpdateAdminInput::new(None, None, None, None, None).with_target_id(42);
    let err = plan_update(42, AdminType::SuperAdmin, &vec![], &existing, req).unwrap_err();
    assert_eq!(err, CoreError::Forbidden);

    let untouched =
        UpdateAdminInput::new(None, Some("  ".to_string()), None, None, None).with_target_id(42);
    let plan = plan_update(7, AdminType::SuperAdmin, &vec![], &existing, untouched).unwrap();
    assert!(!plan.touched);

    let same_name =
        UpdateAdminInput::new(Some(UsernameString::new("clerk").unwrap()), None, None, None, None)
            .with_target_id(42);
    let plan = plan_update(7, AdminType::SuperAdmin, &vec![], &existing, same_name).unwrap();
    assert!(plan.username.is_none());

    let renamed = UpdateAdminInput::new(
        Some(UsernameString::new("chief").unwrap()),
        None,
        Some("  Chief  ".to_string()),
        Some(AdminType::SuperAdmin),
        None,
    )
    .with_target_id(42);
    let plan = plan_update(7, AdminType::SuperAdmin, &vec![], &existing, renamed).unwrap();
    assert_eq!(plan.username, Some("chief".to_string()));
    assert_eq!(plan.name, Some("Chief".to_string()));
    assert!(plan.touched);
}

#[test]
fn guard_helpers_map_outcomes_to_errors() {
    assert_eq!(require_found(None).unwrap_err(), CoreError::NotFound);
    assert!(require_found(Some(record(1, AdminType::Admin))).is_ok());
    assert_eq!(require_affected(0).unwrap_err(), CoreError::NotFound);
    assert!(require_affected(3).is_ok());
    assert_eq!(ensure_not_self(5, 5).unwrap_err(), CoreError::Forbidden);
    assert!(ensure_not_self(5, 6).is_ok());
    assert_eq!(ensure_username_free(true).unwrap_err(), CoreError::BadRequest);
    assert!(ensure_username_free(false).is_ok());
}

#[test]
fn admin_output_keeps_raw_string_abilities_only() {
    let out = AdminOutput::from_record(record(42, AdminType::Admin));
    assert_eq!(out.abilities, vec!["reports.view".to_string()]);
    assert_eq!(out.username, "clerk");
}

#[test]
fn export_jobs_move_monotonically_and_expire() {
    let mut mgr = AsyncExportManager::new();
    let input = DataTableInput {
        page: 1,
        per_page: None,
        sort: None,
        params: admin_core::input::Params::new(),
        include_meta: false,
        export_file_name: Some("admins.csv".to_string()),
    };
    let id = mgr.submit("admin.admin".to_string(), input, 1_000, 600);
    assert_eq!(id, 0);
    let (status, link) = mgr.poll(id, 1_001).unwrap();
    assert!(matches!(status, ExportStatus::Queued));
    assert!(link.is_none());
    assert_eq!(mgr.poll(99, 1_001).unwrap_err(), CoreError::NotFound);
    assert_eq!(mgr.poll(id, 2_000).unwrap_err(), CoreError::NotFound);

    assert!(mgr.mark_running(id).is_ok());
    assert_eq!(mgr.mark_running(id).unwrap_err(), CoreError::Conflict);
    assert!(mgr.complete(id, "exports/1.csv".to_string()).is_ok());
    assert_eq!(
        mgr.fail(id, "late failure".to_string()).unwrap_err(),
        CoreError::Conflict
    );
    let (status, link) = mgr.poll(id, 1_200).unwrap();
    assert!(matches!(status, ExportStatus::Succeeded));
    assert_eq!(link, Some("exports/1.csv".to_string()));
    // Polling a terminal job again answers the same.
    let (again, link2) = mgr.poll(id, 1_300).unwrap();
    assert!(matches!(again, ExportStatus::Succeeded));
    assert_eq!(link2, Some("exports/1.csv".to_string()));
}

#[test]
fn export_rows_materialises_the_full_filtered_set() {
    let rows = vec![record(1, AdminType::Admin), record(2, AdminType::Admin)];
    let preds = Vec::new();
    let cols = vec!["name".to_string(), "email".to_string()];
    let out = export_rows(rows, &preds, &None, &cols);
    assert_eq!(out.len(), 2);
}

#[test]
fn registry_serves_registered_scope_keys() {
    let mut registry: DataTableRegistry<u32> = DataTableRegistry::new();
    registry.register_as("admin.admin", 1);
    registry.register_as("admin.account", 2);
    assert_eq!(registry.len(), 2);
    assert_eq!(registry.lookup("admin.admin"), Some(&1));
    assert_eq!(registry.lookup("admin.account"), Some(&2));
    assert_eq!(registry.lookup("missing"), None);
}

#[test]
fn truthiness_and_bootstrap_skip_follow_the_flag() {
    assert!(is_truthy(" YES "));
    assert!(is_truthy("1"));
    assert!(is_truthy("on"));
    assert!(!is_truthy("0"));
    assert!(!is_truthy(""));
    assert!(should_skip_bootstrap("production", ""));
    assert!(!should_skip_bootstrap("production", "true"));
    assert!(!should_skip_bootstrap("local", ""));
    assert_eq!(nonblank_or(Some("  v "), "d"), "v");
    assert_eq!(nonblank_or(Some("   "), "d"), "d");
    assert_eq!(nonblank_or(None, "d"), "d");
}

#[test]
fn placeholders_are_renumbered_from_the_start_offset() {
    assert_eq!(
        renumber_placeholders("SELECT * FROM t WHERE a = $1 AND b = $2", 3),
        "SELECT * FROM t WHERE a = $3 AND b = $4"
    );
    assert_eq!(renumber_placeholders("no placeholders", 5), "no placeholders");
    assert_eq!(renumber_placeholders("$1", 1), "$1");
    assert_eq!(renumber_placeholders("$ and $7", 2), "$1 and $8");
}

#[test]
fn error_labels_name_every_variant() {
    assert_eq!(CoreError::Unauthorized.label(), "unauthorized");
    assert_eq!(CoreError::Forbidden.label(), "forbidden");
    assert_eq!(CoreError::NotFound.label(), "not_found");
    assert_eq!(CoreError::BadRequest.label(), "bad_request");
    assert_eq!(CoreError::Conflict.label(), "conflict");
    assert_eq!(CoreError::Upstream.label(), "upstream");
}

#[test]
fn lowercasing_and_decimal_formatting_change_their_input() {
    // These go through the one trusted string-append primitive; a primitive
    // that handed its input back unchanged would fail both.
    let req = UpdateAdminInput::new(
        Some(UsernameString::new("mixed-case").unwrap()),
        Some("MiXeD@CASE.example".to_string()),
        None,
        None,
        None,
    )
    .with_target_id(9);
    let existing = record(42, AdminType::Admin);
    let plan = plan_update(7, AdminType::SuperAdmin, &vec![], &existing, req).unwrap();
    assert_eq!(plan.email, Some("mixed@case.example".to_string()));
    assert_eq!(renumber_placeholders("$9", 4), "$12");
}
