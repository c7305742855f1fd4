use admin_core::actor::Actor;
use admin_core::admin_table::{
    plan_admin_email_export, run_admin_query, admin_filter_fields, admin_search_columns,
    admin_sortable_fields, AdminAdminDataTableContract, AdminDatatableEmailExportInput,
    AdminDatatableQueryInput,
};
use admin_core::context::{parse_fixed_offset, DataTableContext, Timezone};
use admin_core::error::CoreError;
use admin_core::filter::{parse_filter_key, FilterKey};
use admin_core::input::{
    EmailExportRequestBase, Params, QueryRequestBase, SortDirection, UnknownFilterMode,
};
use admin_core::model::{AdminRecord, AdminType, AttrValue};
use admin_core::page::paginate;

fn base_request() -> QueryRequestBase {
    QueryRequestBase {
        page: 1,
        per_page: Some(10),
        sort: None,
        sort_direction: None,
        include_meta: true,
    }
}

fn admin_row(id: i64, username: &str, email: Option<&str>, tier: AdminType, created: i64) -> AdminRecord {
    AdminRecord {
        id,
        username: username.to_string(),
        email: email.map(|e| e.to_string()),
        name: format!("User {}", id),
        admin_type: tier,
        abilities: Vec::new(),
        created_at: created,
        updated_at: created,
    }
}

fn superadmin_ctx(mode: UnknownFilterMode) -> DataTableContext {
    let actor = Actor {
        id: "7".to_string(),
        guard: Some("admin".to_string()),
        roles: Vec::new(),
        permissions: vec!["admin.read".to_string()],
        attributes: vec![("admin_type".to_string(), AttrValue::Str("superadmin".to_string()))],
    };
    DataTableContext {
        default_per_page: 15,
        app_timezone: Timezone { name: "UTC".to_string(), offset_secs: 0 },
        user_timezone: Some(Timezone { name: "UTC".to_string(), offset_secs: 0 }),
        actor: Some(actor),
        unknown_filter_mode: mode,
    }
}

fn sample_rows() -> Vec<AdminRecord> {
    vec![
        admin_row(1, "root", Some("root@ops.example"), AdminType::Developer, 1704067200),
        admin_row(2, "lead", Some("lead@ops.example"), AdminType::SuperAdmin, 1704153600),
        admin_row(3, "clerk", Some("clerk@desk.example"), AdminType::Admin, 1706745599),
        admin_row(4, "guest", None, AdminType::Admin, 1706745600),
    ]
}

fn query(
    q: Option<&str>,
    email: Option<&str>,
    tier: Option<AdminType>,
    from: Option<&str>,
    to: Option<&str>,
) -> AdminDatatableQueryInput {
    AdminDatatableQueryInput {
        base: base_request(),
        q: q.map(|s| s.to_string()),
        email: email.map(|s| s.to_string()),
        admin_type: tier,
        created_at_from: from.map(|s| s.to_string()),
        created_at_to: to.map(|s| s.to_string()),
    }
}

fn run(
    rows: Vec<AdminRecord>,
    req: &AdminDatatableQueryInput,
    ctx: &DataTableContext,
) -> Result<admin_core::page::Page<AdminRecord>, CoreError> {
    run_admin_query(
        rows,
        req,
        ctx,
        &admin_filter_fields(),
        &admin_search_columns(),
        &admin_sortable_fields(),
    )
}

#[test]
fn filter_key_convention_parses_typed_keys() {
    assert!(matches!(parse_filter_key("q"), FilterKey::Search));
    match parse_filter_key("f-admin_type") {
        FilterKey::Exact(f) => assert_eq!(f, "admin_type"),
        other => panic!("unexpected: {:?}", other),
    }
    match parse_filter_key("f-like-email") {
        FilterKey::Like(f) => assert_eq!(f, "email"),
        other => panic!("unexpected: {:?}", other),
    }
    match parse_filter_key("f-date-from-created_at") {
        FilterKey::DateFrom(f) => assert_eq!(f, "created_at"),
        other => panic!("unexpected: {:?}", other),
    }
    match parse_filter_key("f-date-to-created_at") {
        FilterKey::DateTo(f) => assert_eq!(f, "created_at"),
        other => panic!("unexpected: {:?}", other),
    }
    assert!(matches!(parse_filter_key("f-"), FilterKey::Unknown));
    assert!(matches!(parse_filter_key("page"), FilterKey::Unknown));
}

#[test]
fn blank_filter_value_emits_no_key() {
    let with_blank = query(None, Some("   "), None, None, None);
    let without = query(None, None, None, None, None);
    let a = with_blank.to_input();
    let b = without.to_input();
    assert_eq!(a.params.len(), 0);
    assert_eq!(b.params.len(), 0);
    let ctx = superadmin_ctx(UnknownFilterMode::Error);
    let pa = run(sample_rows(), &with_blank, &ctx).unwrap();
    let pb = run(sample_rows(), &without, &ctx).unwrap();
    assert_eq!(pa.total, pb.total);
    assert_eq!(pa.data.len(), pb.data.len());
}

#[test]
fn trimmed_filter_value_is_emitted_under_its_key() {
    let req = query(None, Some("  desk  "), None, None, None);
    let input = req.to_input();
    assert_eq!(input.params.len(), 1);
    assert_eq!(input.params.get("f-like-email").unwrap().as_str(), "desk");
}

#[test]
fn unknown_filter_key_error_mode_rejects_ignore_mode_has_no_effect() {
    let mut params = Params::new();
    params.set_trimmed("f-bogus", "x");
    let req = query(None, None, None, None, None);
    // Route the bogus key through a raw input built by hand.
    let mut input = req.to_input();
    input.params.set_trimmed("f-bogus", "x");
    let fields = admin_filter_fields();
    let err = admin_core::engine::check_unknown_keys(&fields, &input.params, UnknownFilterMode::Error);
    assert_eq!(err.unwrap_err(), CoreError::BadRequest);
    let ok = admin_core::engine::check_unknown_keys(&fields, &input.params, UnknownFilterMode::Ignore);
    assert!(ok.unwrap().is_empty());
    let built = admin_core::engine::build_predicates(&fields, &input.params, UnknownFilterMode::Ignore, 0)
        .unwrap();
    assert!(built.0.is_empty());
    let warned = admin_core::engine::check_unknown_keys(&fields, &input.params, UnknownFilterMode::Warn)
        .unwrap();
    assert_eq!(warned, vec!["f-bogus".to_string()]);
}

#[test]
fn email_like_filter_is_case_insensitive_substring() {
    let ctx = superadmin_ctx(UnknownFilterMode::Error);
    let req = query(None, Some("DESK"), None, None, None);
    let page = run(sample_rows(), &req, &ctx).unwrap();
    assert_eq!(page.total, 1);
    assert_eq!(page.data[0].id, 3);
}

#[test]
fn admin_type_exact_filter_selects_one_tier() {
    let ctx = superadmin_ctx(UnknownFilterMode::Error);
    let req = query(None, None, Some(AdminType::Admin), None, None);
    let page = run(sample_rows(), &req, &ctx).unwrap();
    assert_eq!(page.total, 2);
    for row in &page.data {
        assert!(matches!(row.admin_type, AdminType::Admin));
    }
}

#[test]
fn date_range_filter_uses_inclusive_day_bounds_in_utc() {
    // Rows at exactly 2024-01-01T00:00:00Z and 2024-01-31T23:59:59Z are kept;
    // one second past the upper bound is not. The developer row is hidden
    // from the superadmin by scoping, so use rows of lower tiers.
    let rows = vec![
        admin_row(10, "a", None, AdminType::Admin, 1704067200),
        admin_row(11, "b", None, AdminType::Admin, 1706745599),
        admin_row(12, "c", None, AdminType::Admin, 1706745600),
        admin_row(13, "d", None, AdminType::Admin, 1704067199),
    ];
    let ctx = superadmin_ctx(UnknownFilterMode::Error);
    let req = query(None, None, None, Some("2024-01-01"), Some("2024-01-31"));
    let page = run(rows, &req, &ctx).unwrap();
    assert_eq!(page.total, 2);
    let ids: Vec<i64> = page.data.iter().map(|r| r.id).collect();
    assert!(ids.contains(&10));
    assert!(ids.contains(&11));
}

#[test]
fn malformed_date_value_is_a_bad_request() {
    let ctx = superadmin_ctx(UnknownFilterMode::Ignore);
    let req = query(None, None, None, Some("2024-13-01"), None);
    let err = run(sample_rows(), &req, &ctx).unwrap_err();
    assert_eq!(err, CoreError::BadRequest);
}

#[test]
fn missing_actor_is_forbidden() {
    let mut ctx = superadmin_ctx(UnknownFilterMode::Ignore);
    ctx.actor = None;
    let req = query(None, None, None, None, None);
    let err = run(sample_rows(), &req, &ctx).unwrap_err();
    assert_eq!(err, CoreError::Forbidden);
}

#[test]
fn actor_without_permissions_is_forbidden() {
    let mut ctx = superadmin_ctx(UnknownFilterMode::Ignore);
    if let Some(actor) = ctx.actor.as_mut() {
        actor.permissions = Vec::new();
    }
    let req = query(None, None, None, None, None);
    let err = run(sample_rows(), &req, &ctx).unwrap_err();
    assert_eq!(err, CoreError::Forbidden);
}

#[test]
fn actor_with_unresolvable_tier_sees_zero_rows() {
    let mut ctx = superadmin_ctx(UnknownFilterMode::Ignore);
    if let Some(actor) = ctx.actor.as_mut() {
        actor.attributes = vec![("admin_type".to_string(), AttrValue::Str("warden".to_string()))];
    }
    let req = query(None, None, None, None, None);
    let page = run(sample_rows(), &req, &ctx).unwrap();
    assert_eq!(page.total, 0);
    assert!(page.data.is_empty());
}

#[test]
fn superadmin_scope_hides_the_developer_tier() {
    let ctx = superadmin_ctx(UnknownFilterMode::Ignore);
    let req = query(None, None, None, None, None);
    let page = run(sample_rows(), &req, &ctx).unwrap();
    assert_eq!(page.total, 3);
    for row in &page.data {
        assert!(!matches!(row.admin_type, AdminType::Developer));
    }
}

#[test]
fn normal_admin_scope_keeps_only_its_own_tier() {
    let mut ctx = superadmin_ctx(UnknownFilterMode::Ignore);
    if let Some(actor) = ctx.actor.as_mut() {
        actor.attributes = vec![("admin_type".to_string(), AttrValue::Str("admin".to_string()))];
    }
    let req = query(None, None, None, None, None);
    let page = run(sample_rows(), &req, &ctx).unwrap();
    assert_eq!(page.total, 2);
}

#[test]
fn pagination_is_total_consistent_and_out_of_range_pages_are_empty() {
    let rows: Vec<i64> = (1..=7).collect();
    let page = paginate(rows.clone(), 3, 3);
    assert_eq!(page.total, 7);
    assert_eq!(page.last_page, 3);
    assert_eq!(page.data, vec![7]);
    let beyond = paginate(rows, 4, 3);
    assert_eq!(beyond.total, 7);
    assert_eq!(beyond.last_page, 3);
    assert!(beyond.data.is_empty());
}

#[test]
fn sorting_by_id_descending_orders_the_page() {
    let ctx = superadmin_ctx(UnknownFilterMode::Ignore);
    let mut req = query(None, None, None, None, None);
    req.base.sort = Some("id".to_string());
    req.base.sort_direction = Some(SortDirection::Desc);
    let page = run(sample_rows(), &req, &ctx).unwrap();
    let ids: Vec<i64> = page.data.iter().map(|r| r.id).collect();
    assert_eq!(ids, vec![4, 3, 2]);
}

#[test]
fn unknown_sort_field_is_rejected_under_error_mode() {
    let ctx = superadmin_ctx(UnknownFilterMode::Error);
    let mut req = query(None, None, None, None, None);
    req.base.sort = Some("password".to_string());
    let err = run(sample_rows(), &req, &ctx).unwrap_err();
    assert_eq!(err, CoreError::BadRequest);
}

#[test]
fn per_page_is_clamped_to_the_maximum() {
    let req = AdminDatatableQueryInput {
        base: QueryRequestBase {
            page: 0,
            per_page: Some(100000),
            sort: None,
            sort_direction: None,
            include_meta: false,
        },
        q: None,
        email: None,
        admin_type: None,
        created_at_from: None,
        created_at_to: None,
    };
    let input = req.to_input();
    assert_eq!(input.page, 1);
    assert_eq!(input.per_page, Some(admin_core::MAX_PER_PAGE));
}

#[test]
fn fixed_offset_timezones_parse() {
    assert_eq!(parse_fixed_offset("UTC"), Some(0));
    assert_eq!(parse_fixed_offset("Z"), Some(0));
    assert_eq!(parse_fixed_offset("+05:30"), Some(19800));
    assert_eq!(parse_fixed_offset("-08:00"), Some(-28800));
    assert_eq!(parse_fixed_offset("+19:00"), None);
    assert_eq!(parse_fixed_offset("utc"), None);
}

#[test]
fn email_export_plan_requires_recipients_and_authorization() {
    let fields = admin_filter_fields();
    let sortable = admin_sortable_fields();
    let ctx = superadmin_ctx(UnknownFilterMode::Ignore);
    let req = AdminDatatableEmailExportInput {
        base: EmailExportRequestBase {
            query: base_request(),
            recipients: Vec::new(),
            subject: Some("Admins".to_string()),
            export_file_name: Some("admins.csv".to_string()),
        },
        q: None,
        email: None,
        admin_type: None,
        created_at_from: None,
        created_at_to: None,
    };
    let err = plan_admin_email_export(&req, &ctx, &fields, &sortable).unwrap_err();
    assert_eq!(err, CoreError::BadRequest);

    let mut with_recipients = req.clone();
    with_recipients.base.recipients = vec!["ops@example.com".to_string()];
    let plan = plan_admin_email_export(&with_recipients, &ctx, &fields, &sortable).unwrap();
    assert_eq!(plan.recipients, vec!["ops@example.com".to_string()]);
    assert_eq!(plan.file_name, Some("admins.csv".to_string()));

    let mut unauth_ctx = superadmin_ctx(UnknownFilterMode::Ignore);
    unauth_ctx.actor = None;
    let err = plan_admin_email_export(&with_recipients, &unauth_ctx, &fields, &sortable).unwrap_err();
    assert_eq!(err, CoreError::Forbidden);
}

#[test]
fn contract_surface_matches_the_scope_key_and_groups() {
    let contract = AdminAdminDataTableContract;
    assert_eq!(contract.scoped_key(), "admin.admin");
    let groups = contract.filter_rows();
    assert_eq!(groups.len(), 2);
    assert_eq!(groups[0].len(), 2);
    assert_eq!(groups[1].len(), 1);
    assert_eq!(groups[0][0].filter_key, "q");
    assert_eq!(groups[0][1].filter_key, "f-like-email");
    assert_eq!(groups[1][0].filter_key, "f-admin_type");
    let options = groups[1][0].options.as_ref().unwrap();
    assert_eq!(options.len(), 3);
    assert_eq!(options[0].label, "developer");
    assert_eq!(options[0].value, "developer");
    assert_eq!(options[1].value, "superadmin");
    assert_eq!(options[2].value, "admin");
    // The date-range field stays in the declared list the engine matches
    // keys against, outside the UI grouping.
    let fields = admin_filter_fields();
    assert_eq!(fields.len(), 4);
    assert_eq!(fields[3].field, "created_at");
    assert_eq!(fields[3].filter_key, "f-date-created_at");
}

#[test]
fn async_export_plan_applies_the_same_gates_as_the_listing() {
    let fields = admin_filter_fields();
    let sortable = admin_sortable_fields();
    let ctx = superadmin_ctx(UnknownFilterMode::Ignore);
    let req = query(None, None, Some(AdminType::Admin), None, None);
    let plan = admin_core::admin_table::plan_admin_async_export(&req, &ctx, &fields, &sortable)
        .unwrap();
    // Scope predicate plus the tier filter.
    assert_eq!(plan.predicates.len(), 2);
    let rows = admin_core::export::export_rows(
        sample_rows(),
        &plan.predicates,
        &plan.sort,
        &admin_search_columns(),
    );
    assert_eq!(rows.len(), 2);
    let mut unauth_ctx = superadmin_ctx(UnknownFilterMode::Ignore);
    unauth_ctx.actor = None;
    let err = admin_core::admin_table::plan_admin_async_export(&req, &unauth_ctx, &fields, &sortable)
        .unwrap_err();
    assert_eq!(err, CoreError::Forbidden);
}

#[test]
fn authorize_needs_one_of_the_admin_permissions() {
    let hooks = admin_core::admin_table::AdminDataTableAppHooks;
    let req = query(None, None, None, None, None);
    let input = req.to_input();
    let mut ctx = superadmin_ctx(UnknownFilterMode::Ignore);
    if let Some(actor) = ctx.actor.as_mut() {
        actor.permissions = vec!["admin.read".to_string()];
    }
    assert!(hooks.authorize(&input, &ctx));
    if let Some(actor) = ctx.actor.as_mut() {
        actor.permissions = Vec::new();
    }
    assert!(!hooks.authorize(&input, &ctx));
    if let Some(actor) = ctx.actor.as_mut() {
        actor.permissions = vec!["*".to_string()];
    }
    assert!(hooks.authorize(&input, &ctx));
}

#[test]
fn built_actor_carries_the_classification_attribute() {
    let actor = admin_core::actor::build_admin_actor(
        "42".to_string(),
        "admin".to_string(),
        vec!["admin.read".to_string()],
        AdminType::SuperAdmin,
    );
    match actor.attr("admin_type") {
        Some(AttrValue::Str(s)) => assert_eq!(s, "superadmin"),
        other => panic!("unexpected attribute: {:?}", other),
    }
    assert_eq!(actor.guard, Some("admin".to_string()));
}
