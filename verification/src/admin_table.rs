//! The admin record type's scoped contract: its typed listing and email
//! export requests, the conversion to the generic input, its declared
//! filter fields, and its authorize and scope hooks.
//!
//! The conversion trims every free-text filter and drops blank values
//! entirely: an absent or blank field emits no filter key at all.

use vstd::prelude::*;
use crate::context::DataTableContext;
use crate::error::CoreError;
use crate::input::{
    pairs_view, DataTableInput, EmailExportRequestBase, Params, QueryRequestBase,
};
use crate::model::{spec_parse_admin_type, AdminType, AttrValue};
use crate::query::{Predicate, PredicateV, Value, ValueV};
use crate::text::{is_blank, spec_trim};

verus! {

/// The registry name of the admin/admin contract.
pub fn admin_scoped_key() -> (r: &'static str)
    ensures
        r@ == "admin.admin"@,
{
    "admin.admin"
}

/// Typed listing request for the admin table.
#[derive(Debug, Clone)]
pub struct AdminDatatableQueryInput {
    /// Pagination, sort and meta options shared by every listing request.
    pub base: QueryRequestBase,
    /// Free-text search across the contract's search columns.
    pub q: Option<String>,
    /// Substring filter on the email column.
    pub email: Option<String>,
    /// Exact filter on the classification tier.
    pub admin_type: Option<AdminType>,
    /// Inclusive lower creation-date bound, `YYYY-MM-DD`.
    pub created_at_from: Option<String>,
    /// Inclusive upper creation-date bound, `YYYY-MM-DD`.
    pub created_at_to: Option<String>,
}

/// Whether an optional filter value survives trimming.
pub open spec fn keeps(o: Option<String>) -> bool {
    match o {
        Some(s) => !is_blank(s@),
        None => false,
    }
}

/// The trimmed view of a kept value.
pub open spec fn kept(o: Option<String>) -> Seq<char> {
    spec_trim(o.unwrap()@)
}

/// The filter parameters an admin listing request emits: one key per
/// non-blank field, with the value trimmed. A blank or absent field emits
/// no key at all.
pub open spec fn spec_admin_params(
    q: Option<String>,
    email: Option<String>,
    admin_type: Option<AdminType>,
    from: Option<String>,
    to: Option<String>,
) -> Seq<(Seq<char>, Seq<char>)> {
    let e0: Seq<(Seq<char>, Seq<char>)> = Seq::empty();
    let e1 = if keeps(q) {
        e0.push(("q"@, kept(q)))
    } else {
        e0
    };
    let e2 = if keeps(email) {
        e1.push(("f-like-email"@, kept(email)))
    } else {
        e1
    };
    let e3 = match admin_type {
        Some(t) => e2.push(("f-admin_type"@, t.spec_str())),
        None => e2,
    };
    let e4 = if keeps(from) {
        e3.push(("f-date-from-created_at"@, kept(from)))
    } else {
        e3
    };
    let e5 = if keeps(to) {
        e4.push(("f-date-to-created_at"@, kept(to)))
    } else {
        e4
    };
    e5
}

/// Appends the admin filter parameters to fresh params.
fn fill_admin_params(
    params: &mut Params,
    q: &Option<String>,
    email: &Option<String>,
    admin_type: &Option<AdminType>,
    from: &Option<String>,
    to: &Option<String>,
)
    requires
        old(params)@.len() == 0,
        old(params).wf(),
    ensures
        final(params).wf(),
        pairs_view(final(params)@) == spec_admin_params(*q, *email, *admin_type, *from, *to),
{
    proof {
        reveal_strlit("q");
        reveal_strlit("f-like-email");
        reveal_strlit("f-admin_type");
        reveal_strlit("f-date-from-created_at");
        reveal_strlit("f-date-to-created_at");
        assert("q"@.len() == 1);
        assert("f-like-email"@.len() == 12);
        assert("f-admin_type"@.len() == 12);
        assert("f-date-from-created_at"@.len() == 22);
        assert("f-date-to-created_at"@.len() == 20);
        assert("f-like-email"@[2] == 'l' && "f-admin_type"@[2] == 'a');
        assert("f-like-email"@ != "f-admin_type"@);
    }
    let ghost target = spec_admin_params(*q, *email, *admin_type, *from, *to);
    if let Some(v) = q {
        proof {
            crate::input::lemma_lookup_absent(params@, "q"@);
        }
        params.set_trimmed("q", v.as_str());
        proof {
            if !is_blank(v@) {
                crate::input::lemma_pairs_push(params@);
            }
        }
    }
    proof {
        assert(params_keys_among1(params@));
        assert(pairs_view(params@) =~= spec_admin_params(*q, None, None, None, None));
    }
    if let Some(v) = email {
        proof {
            crate::input::lemma_lookup_absent(params@, "f-like-email"@);
        }
        params.set_trimmed("f-like-email", v.as_str());
        proof {
            if !is_blank(v@) {
                crate::input::lemma_pairs_push(params@);
            }
        }
    }
    proof {
        assert(params_keys_among2(params@));
        assert(pairs_view(params@) =~= spec_admin_params(*q, *email, None, None, None));
    }
    if let Some(t) = admin_type {
        proof {
            crate::input::lemma_lookup_absent(params@, "f-admin_type"@);
        }
        params.set("f-admin_type", String::from_str(t.as_str()));
        proof {
            crate::input::lemma_pairs_push(params@);
        }
    }
    proof {
        assert(params_keys_among3(params@));
        assert(pairs_view(params@) =~= spec_admin_params(*q, *email, *admin_type, None, None));
    }
    if let Some(v) = from {
        proof {
            crate::input::lemma_lookup_absent(params@, "f-date-from-created_at"@);
        }
        params.set_trimmed("f-date-from-created_at", v.as_str());
        proof {
            if !is_blank(v@) {
                crate::input::lemma_pairs_push(params@);
            }
        }
    }
    proof {
        assert(params_keys_among4(params@));
        assert(pairs_view(params@) =~= spec_admin_params(*q, *email, *admin_type, *from, None));
    }
    if let Some(v) = to {
        proof {
            crate::input::lemma_lookup_absent(params@, "f-date-to-created_at"@);
        }
        params.set_trimmed("f-date-to-created_at", v.as_str());
        proof {
            if !is_blank(v@) {
                crate::input::lemma_pairs_push(params@);
            }
        }
    }
    proof {
        assert(pairs_view(params@) =~= target);
    }
}

/// Keys emitted so far: after the search field.
pub open spec fn params_keys_among1(entries: Seq<(String, String)>) -> bool {
    forall|k: int| 0 <= k < entries.len() ==> (#[trigger] entries[k].0@) == "q"@
}

/// Keys emitted so far: after the email field.
pub open spec fn params_keys_among2(entries: Seq<(String, String)>) -> bool {
    forall|k: int|
        0 <= k < entries.len() ==> (#[trigger] entries[k].0@) == "q"@ || entries[k].0@
            == "f-like-email"@
}

/// Keys emitted so far: after the classification field.
pub open spec fn params_keys_among3(entries: Seq<(String, String)>) -> bool {
    forall|k: int|
        0 <= k < entries.len() ==> (#[trigger] entries[k].0@) == "q"@ || entries[k].0@
            == "f-like-email"@ || entries[k].0@ == "f-admin_type"@
}

/// Keys emitted so far: after the lower date bound.
pub open spec fn params_keys_among4(entries: Seq<(String, String)>) -> bool {
    forall|k: int|
        0 <= k < entries.len() ==> (#[trigger] entries[k].0@) == "q"@ || entries[k].0@
            == "f-like-email"@ || entries[k].0@ == "f-admin_type"@ || entries[k].0@
            == "f-date-from-created_at"@
}

impl AdminDatatableQueryInput {
    /// Converts the typed request into the generic input: base options are
    /// normalized and each non-blank filter value is trimmed and emitted
    /// under its filter key.
    pub fn to_input(&self) -> (r: DataTableInput)
        ensures
            r.wf(),
            r.page == self.base.spec_page(),
            r.per_page == self.base.spec_per_page(),
            r.include_meta == self.base.include_meta,
            r.sort == self.base.spec_sort(),
            r.export_file_name is None,
            pairs_view(r.params@) == spec_admin_params(
                self.q,
                self.email,
                self.admin_type,
                self.created_at_from,
                self.created_at_to,
            ),
    {
        let mut input = self.base.to_input();
        fill_admin_params(
            &mut input.params,
            &self.q,
            &self.email,
            &self.admin_type,
            &self.created_at_from,
            &self.created_at_to,
        );
        input
    }
}

/// Typed email-export request for the admin table: the same filters as the
/// listing request, plus delivery metadata.
#[derive(Debug, Clone)]
pub struct AdminDatatableEmailExportInput {
    /// Delivery metadata and the shared listing options.
    pub base: EmailExportRequestBase,
    /// Free-text search across the contract's search columns.
    pub q: Option<String>,
    /// Substring filter on the email column.
    pub email: Option<String>,
    /// Exact filter on the classification tier.
    pub admin_type: Option<AdminType>,
    /// Inclusive lower creation-date bound, `YYYY-MM-DD`.
    pub created_at_from: Option<String>,
    /// Inclusive upper creation-date bound, `YYYY-MM-DD`.
    pub created_at_to: Option<String>,
}

impl AdminDatatableEmailExportInput {
    /// Converts the export request into the generic input; the export file
    /// name is carried over from the request.
    pub fn to_input(&self) -> (r: DataTableInput)
        ensures
            r.wf(),
            r.page == self.base.query.spec_page(),
            r.per_page == self.base.query.spec_per_page(),
            r.include_meta == self.base.query.include_meta,
            r.sort == self.base.query.spec_sort(),
            r.export_file_name == self.base.export_file_name,
            pairs_view(r.params@) == spec_admin_params(
                self.q,
                self.email,
                self.admin_type,
                self.created_at_from,
                self.created_at_to,
            ),
    {
        let mut input = self.base.query.to_input();
        fill_admin_params(
            &mut input.params,
            &self.q,
            &self.email,
            &self.admin_type,
            &self.created_at_from,
            &self.created_at_to,
        );
        input.export_file_name = match &self.base.export_file_name {
            Some(n) => Some(n.clone()),
            None => None,
        };
        input
    }
}

/// Law: a blank or whitespace-only filter value emits no filter key, and
/// the engine then behaves exactly as if the field had been omitted: the
/// emitted parameters are the very same, so unknown-key resolution and
/// predicate building answer the same for both requests.
pub proof fn lemma_blank_filter_round_trip(
    q: Option<String>,
    email: Option<String>,
    admin_type: Option<AdminType>,
    from: Option<String>,
    to: Option<String>,
    fields: Seq<crate::engine::FilterField>,
    mode: crate::input::UnknownFilterMode,
    tz: int,
)
    requires
        !keeps(email),
    ensures
        spec_admin_params(q, email, admin_type, from, to) == spec_admin_params(
            q,
            None,
            admin_type,
            from,
            to,
        ),
        crate::engine::spec_build(
            spec_admin_params(q, email, admin_type, from, to),
            fields,
            mode,
            tz,
        ) == crate::engine::spec_build(
            spec_admin_params(q, None, admin_type, from, to),
            fields,
            mode,
            tz,
        ),
        crate::engine::spec_check(
            spec_admin_params(q, email, admin_type, from, to),
            fields,
            mode,
        ) == crate::engine::spec_check(spec_admin_params(q, None, admin_type, from, to), fields, mode),
{
}

/// The columns the free-text search key `q` scans.
pub fn admin_search_columns() -> (r: Vec<String>)
    ensures
        crate::session::strs_view(r@) =~= seq!["name"@, "email"@],
{
    proof {
        reveal_strlit("name");
        reveal_strlit("email");
    }
    let mut v: Vec<String> = Vec::new();
    v.push(String::from_str("name"));
    v.push(String::from_str("email"));
    v
}

/// The fields a listing may sort on.
pub fn admin_sortable_fields() -> (r: Vec<String>)
    ensures
        r.deep_view() =~= seq!["id"@, "created_at"@],
{
    proof {
        reveal_strlit("id");
        reveal_strlit("created_at");
    }
    let mut v: Vec<String> = Vec::new();
    v.push(String::from_str("id"));
    v.push(String::from_str("created_at"));
    v
}

/// The search descriptor: the reserved free-text key.
pub open spec fn is_q_field(f: crate::engine::FilterField) -> bool {
    &&& f.filter_key@ == "q"@
    &&& f.field@ == "q"@
    &&& f.field_type is Text
    &&& f.label@ == "Keyword"@
}

/// The email substring descriptor.
pub open spec fn is_email_field(f: crate::engine::FilterField) -> bool {
    &&& f.filter_key@ == "f-like-email"@
    &&& f.field@ == "email"@
    &&& f.field_type is Text
    &&& f.label@ == "Email"@
}

/// The classification select descriptor: one option per tier, each
/// option's label equal to its value, in declaration order.
pub open spec fn is_admin_type_field(f: crate::engine::FilterField) -> bool {
    &&& f.filter_key@ == "f-admin_type"@
    &&& f.field@ == "admin_type"@
    &&& f.field_type is Select
    &&& f.label@ == "Admin Type"@
    &&& match f.options {
        Some(opts) => {
            &&& opts@.len() == 3
            &&& opts@[0].label@ == "developer"@ && opts@[0].value@ == "developer"@
            &&& opts@[1].label@ == "superadmin"@ && opts@[1].value@ == "superadmin"@
            &&& opts@[2].label@ == "admin"@ && opts@[2].value@ == "admin"@
        },
        None => false,
    }
}

/// The creation-date range descriptor.
pub open spec fn is_created_at_field(f: crate::engine::FilterField) -> bool {
    &&& f.filter_key@ == "f-date-created_at"@
    &&& f.field@ == "created_at"@
    &&& f.field_type is DateRange
}

/// The admin contract's declared filter fields, flat, in declaration
/// order: the search key, the email substring filter, the classification
/// select, and the creation-date range. Filter keys are pairwise distinct:
/// colliding keys are a contract bug.
pub fn admin_filter_fields() -> (r: Vec<crate::engine::FilterField>)
    ensures
        r@.len() == 4,
        is_q_field(r@[0]),
        is_email_field(r@[1]),
        is_admin_type_field(r@[2]),
        is_created_at_field(r@[3]),
        forall|i: int, j: int|
            0 <= i < j < r@.len() ==> (#[trigger] r@[i].filter_key@) != (
            #[trigger] r@[j].filter_key@),
{
    proof {
        reveal_strlit("q");
        reveal_strlit("f-like-email");
        reveal_strlit("email");
        reveal_strlit("f-admin_type");
        reveal_strlit("admin_type");
        reveal_strlit("created_at");
        reveal_strlit("f-date-created_at");
        reveal_strlit("Keyword");
        reveal_strlit("Email");
        reveal_strlit("Admin Type");
        reveal_strlit("developer");
        reveal_strlit("superadmin");
        reveal_strlit("admin");
        assert("f-like-email"@[2] == 'l' && "f-admin_type"@[2] == 'a');
        assert("q"@.len() == 1 && "f-like-email"@.len() == 12 && "f-admin_type"@.len() == 12
            && "f-date-created_at"@.len() == 17);
    }
    let mut options: Vec<crate::engine::FilterOption> = Vec::new();
    options.push(
        crate::engine::FilterOption {
            label: String::from_str("developer"),
            value: String::from_str("developer"),
        },
    );
    options.push(
        crate::engine::FilterOption {
            label: String::from_str("superadmin"),
            value: String::from_str("superadmin"),
        },
    );
    options.push(
        crate::engine::FilterOption {
            label: String::from_str("admin"),
            value: String::from_str("admin"),
        },
    );
    let mut v: Vec<crate::engine::FilterField> = Vec::new();
    v.push(
        crate::engine::FilterField {
            field: String::from_str("q"),
            filter_key: String::from_str("q"),
            field_type: crate::engine::FilterFieldType::Text,
            label: String::from_str("Keyword"),
            placeholder: Some(String::from_str("Search name/email")),
            description: None,
            options: None,
        },
    );
    v.push(
        crate::engine::FilterField {
            field: String::from_str("email"),
            filter_key: String::from_str("f-like-email"),
            field_type: crate::engine::FilterFieldType::Text,
            label: String::from_str("Email"),
            placeholder: Some(String::from_str("Contains")),
            description: None,
            options: None,
        },
    );
    v.push(
        crate::engine::FilterField {
            field: String::from_str("admin_type"),
            filter_key: String::from_str("f-admin_type"),
            field_type: crate::engine::FilterFieldType::Select,
            label: String::from_str("Admin Type"),
            placeholder: Some(String::from_str("Choose type")),
            description: None,
            options: Some(options),
        },
    );
    v.push(
        crate::engine::FilterField {
            field: String::from_str("created_at"),
            filter_key: String::from_str("f-date-created_at"),
            field_type: crate::engine::FilterFieldType::DateRange,
            label: String::from_str("Created"),
            placeholder: None,
            description: None,
            options: None,
        },
    );
    v
}

/// The admin contract's filter fields as the UI groups them: the search
/// and email filters together, then the classification select. The date
/// range stays out of the UI grouping; its keys are recognised through
/// the declared field list.
pub fn admin_filter_rows() -> (r: Vec<Vec<crate::engine::FilterField>>)
    ensures
        r@.len() == 2,
        r@[0]@.len() == 2,
        r@[1]@.len() == 1,
        is_q_field(r@[0]@[0]),
        is_email_field(r@[0]@[1]),
        is_admin_type_field(r@[1]@[0]),
        r@[0]@[0].filter_key@ != r@[0]@[1].filter_key@,
        r@[0]@[0].filter_key@ != r@[1]@[0].filter_key@,
        r@[0]@[1].filter_key@ != r@[1]@[0].filter_key@,
{
    let mut flat = admin_filter_fields();
    let mut rest = flat.split_off(2);
    rest.truncate(1);
    let mut groups: Vec<Vec<crate::engine::FilterField>> = Vec::new();
    groups.push(flat);
    groups.push(rest);
    groups
}

/// The classification tier an actor's attributes resolve to, if any.
pub open spec fn spec_actor_tier(ctx: DataTableContext) -> Option<AdminType> {
    match ctx.actor {
        None => None,
        Some(a) => match crate::actor::spec_attr_lookup(a.attributes@, "admin_type"@) {
            Some(v) => match v {
                AttrValue::Str(s) => spec_parse_admin_type(s@),
                _ => None,
            },
            None => None,
        },
    }
}

/// The row-level predicate the scope hook adds for a context, if any: the
/// unrestricted tier sees everything; the management tier everything but
/// the unrestricted tier; the normal tier only its own tier; and a missing
/// actor or unresolvable tier is scoped to an impossible predicate.
pub open spec fn spec_scope_pred(ctx: DataTableContext) -> Option<PredicateV> {
    match ctx.actor {
        None => Some(PredicateV::Eq("id"@, ValueV::Int(-1))),
        Some(_) => match spec_actor_tier(ctx) {
            Some(AdminType::Developer) => None,
            Some(AdminType::SuperAdmin) => Some(
                PredicateV::Ne("admin_type"@, ValueV::Str("developer"@)),
            ),
            Some(AdminType::Admin) => Some(
                PredicateV::Eq("admin_type"@, ValueV::Str("admin"@)),
            ),
            None => Some(PredicateV::Eq("id"@, ValueV::Int(-1))),
        },
    }
}

/// Whether a context's permission set passes the admin contract's coarse
/// gate: at least one of `admin.read` and `admin.manage` (or the
/// wildcard). A context without an actor never passes.
pub open spec fn spec_admin_authorized(ctx: DataTableContext) -> bool {
    match ctx.actor {
        None => false,
        Some(a) => crate::authz::spec_satisfies(
            a.permissions.deep_view(),
            seq!["admin.read"@, "admin.manage"@],
            crate::authz::PermissionMode::Any,
        ),
    }
}

/// The admin table's authorize and scope hooks.
#[derive(Debug, Clone, Copy)]
pub struct AdminDataTableAppHooks;

impl AdminDataTableAppHooks {
    /// The coarse gate, evaluated before any row access: false for a
    /// missing actor or an insufficient permission set, never an error.
    pub fn authorize(&self, _input: &DataTableInput, ctx: &DataTableContext) -> (r: bool)
        ensures
            r == spec_admin_authorized(*ctx),
    {
        proof {
            reveal_strlit("admin.read");
            reveal_strlit("admin.manage");
        }
        let actor = match &ctx.actor {
            Some(a) => a,
            None => {
                return false;
            },
        };
        let mut required: Vec<String> = Vec::new();
        required.push(String::from_str("admin.read"));
        required.push(String::from_str("admin.manage"));
        proof {
            assert(required.deep_view() =~= seq!["admin.read"@, "admin.manage"@]);
        }
        crate::authz::has_required_permissions(
            &actor.permissions,
            &required,
            crate::authz::PermissionMode::Any,
        )
    }

    /// The row-level gate, applied unconditionally after authorization:
    /// appends the scope predicate of [`spec_scope_pred`] to the plan the
    /// whole query (filters and pagination included) then runs on.
    pub fn scope(&self, preds: &mut Vec<Predicate>, _input: &DataTableInput, ctx: &DataTableContext)
        ensures
            match spec_scope_pred(*ctx) {
                None => final(preds)@ == old(preds)@,
                Some(p) => final(preds)@.len() == old(preds)@.len() + 1 && final(preds)@.drop_last()
                    == old(preds)@ && final(preds)@.last()@ == p,
            },
    {
        proof {
            reveal_strlit("id");
            reveal_strlit("admin_type");
            reveal_strlit("developer");
            reveal_strlit("admin");
        }
        let actor = match &ctx.actor {
            Some(a) => a,
            None => {
                preds.push(Predicate::Eq(String::from_str("id"), Value::Int(-1)));
                proof {
                    assert(final(preds)@.drop_last() =~= old(preds)@);
                }
                return ;
            },
        };
        let tier = match actor.attr("admin_type") {
            Some(v) => match v.as_str() {
                Some(s) => crate::model::parse_admin_type(s),
                None => None,
            },
            None => None,
        };
        match tier {
            Some(AdminType::Developer) => {},
            Some(AdminType::SuperAdmin) => {
                preds.push(
                    Predicate::Ne(
                        String::from_str("admin_type"),
                        Value::Str(String::from_str("developer")),
                    ),
                );
                proof {
                    assert(final(preds)@.drop_last() =~= old(preds)@);
                }
            },
            Some(AdminType::Admin) => {
                preds.push(
                    Predicate::Eq(
                        String::from_str("admin_type"),
                        Value::Str(String::from_str("admin")),
                    ),
                );
                proof {
                    assert(final(preds)@.drop_last() =~= old(preds)@);
                }
            },
            None => {
                preds.push(Predicate::Eq(String::from_str("id"), Value::Int(-1)));
                proof {
                    assert(final(preds)@.drop_last() =~= old(preds)@);
                }
            },
        }
    }
}

/// The predicates a context and a parameter list resolve to: the scope
/// predicate of the context, then the filter predicates, in that order.
pub open spec fn spec_admin_plan_preds(
    ctx: DataTableContext,
    built: Seq<PredicateV>,
) -> Seq<PredicateV> {
    match spec_scope_pred(ctx) {
        Some(p) => seq![p] + built,
        None => built,
    }
}

/// Runs one admin listing request over rows held in memory, applying the
/// engine order: unknown-key resolution, authorize, scope, filter, sort,
/// paginate.
///
/// The request fails with `BadRequest` when the unknown-filter policy
/// rejects a key or a recognised date value is malformed, and with
/// `Forbidden` when the context carries no actor or its permissions do not
/// pass the contract's gate; authorization is decided before any row is
/// touched. On success every returned row satisfies both the scope
/// predicate and every filter predicate, and the aggregate counts describe
/// the full matching set.
#[verifier::rlimit(60)]
pub fn run_admin_query(
    rows: Vec<crate::model::AdminRecord>,
    req: &AdminDatatableQueryInput,
    ctx: &DataTableContext,
    fields: &Vec<crate::engine::FilterField>,
    search_cols: &Vec<String>,
    sortable: &Vec<String>,
) -> (r: Result<crate::page::Page<crate::model::AdminRecord>, CoreError>)
    requires
        ctx.wf(),
        rows@.len() + crate::MAX_PER_PAGE <= i64::MAX,
    ensures
        ({
            let pv = spec_admin_params(
                req.q,
                req.email,
                req.admin_type,
                req.created_at_from,
                req.created_at_to,
            );
            let chk = crate::engine::spec_check(pv, fields@, ctx.unknown_filter_mode);
            let built = crate::engine::spec_build(
                pv,
                fields@,
                ctx.unknown_filter_mode,
                ctx.spec_tz_offset(),
            );
            let rs = crate::engine::spec_sort_resolution(
                sortable.deep_view(),
                req.base.spec_sort(),
                ctx.unknown_filter_mode,
            );
            &&& (chk is Err ==> r == Err::<crate::page::Page<crate::model::AdminRecord>, CoreError>(
                CoreError::BadRequest,
            ))
            &&& (chk is Ok && !spec_admin_authorized(*ctx) ==> r == Err::<
                crate::page::Page<crate::model::AdminRecord>,
                CoreError,
            >(CoreError::Forbidden))
            &&& ((chk is Ok && spec_admin_authorized(*ctx) && built is Err) ==> r == Err::<
                crate::page::Page<crate::model::AdminRecord>,
                CoreError,
            >(built->Err_0))
            &&& ((chk is Ok && spec_admin_authorized(*ctx) && built is Ok && rs is Err) ==> r
                == Err::<crate::page::Page<crate::model::AdminRecord>, CoreError>(
                CoreError::BadRequest,
            ))
            &&& ((chk is Ok && spec_admin_authorized(*ctx) && built is Ok && rs is Ok) ==> r
                is Ok)
            &&& match r {
                Ok(page) => {
                    &&& chk is Ok
                    &&& spec_admin_authorized(*ctx)
                    &&& built is Ok
                    &&& rs is Ok
                    &&& ({
                        let full = spec_admin_plan_preds(*ctx, built.unwrap().0);
                        let flt = crate::rows::spec_filter(rows@, full, search_cols@);
                        &&& page.total == flt.len()
                        &&& page.current_page == req.base.spec_page()
                        &&& page.per_page == (match req.base.spec_per_page() {
                            Some(p) => p,
                            None => ctx.default_per_page,
                        })
                        &&& page.last_page == crate::page::spec_ceil_div(
                            flt.len() as int,
                            page.per_page as int,
                        )
                        &&& (page.current_page > page.last_page ==> page.data@.len() == 0)
                        &&& page.data@.len() <= page.per_page
                        &&& (match rs.unwrap() {
                            None => page.data@ == crate::page::spec_page_slice(
                                flt,
                                page.current_page as int,
                                page.per_page as int,
                            ),
                            Some(fd) => crate::rows::spec_sorted_page_of(
                                flt,
                                fd.0,
                                fd.1,
                                page.data@,
                                page.current_page as int,
                                page.per_page as int,
                            ),
                        })
                        &&& forall|i: int|
                            0 <= i < page.data@.len() ==> crate::rows::spec_matches(
                                full,
                                search_cols@,
                                #[trigger] page.data@[i],
                            )
                    })
                },
                Err(e) => e == CoreError::BadRequest || e == CoreError::Forbidden,
            }
        }),
{
    let input = req.to_input();
    let mode = ctx.unknown_filter_mode;
    match crate::engine::check_unknown_keys(fields, &input.params, mode) {
        Ok(_warnings) => {},
        Err(_e) => {
            return Err(CoreError::BadRequest);
        },
    }
    let hooks = AdminDataTableAppHooks;
    if !hooks.authorize(&input, ctx) {
        return Err(CoreError::Forbidden);
    }
    let mut preds: Vec<Predicate> = Vec::new();
    hooks.scope(&mut preds, &input, ctx);
    let ghost scope_preds = preds@;
    let built = match crate::engine::build_predicates(fields, &input.params, mode, ctx.tz_offset())
        {
        Ok(out) => out,
        Err(e) => {
            proof {
                crate::engine::lemma_build_err_is_bad_request(
                    crate::input::pairs_view(input.params@),
                    fields@,
                    mode,
                    ctx.spec_tz_offset(),
                );
            }
            return Err(e);
        },
    };
    let (mut filter_preds, _warns) = built;
    let ghost fp = filter_preds@;
    preds.append(&mut filter_preds);
    proof {
        crate::engine::lemma_preds_view_concat(scope_preds, fp);
        match spec_scope_pred(*ctx) {
            Some(p) => {
                assert(crate::query::preds_view(scope_preds) =~= seq![p]);
            },
            None => {
                assert(crate::query::preds_view(scope_preds) =~= Seq::<PredicateV>::empty());
            },
        }
    }
    let sort = match crate::engine::resolve_sort(sortable, &input.sort, mode) {
        Ok(s) => s,
        Err(_e) => {
            return Err(CoreError::BadRequest);
        },
    };
    let per_page = match input.per_page {
        Some(p) => p,
        None => ctx.default_per_page,
    };
    let plan = crate::query::QueryPlan {
        predicates: preds,
        sort,
        page: input.page,
        per_page: Some(per_page),
        include_meta: input.include_meta,
    };
    let page = crate::engine::run_plan(rows, &plan, search_cols);
    proof {
        broadcast use vstd::seq_lib::group_to_multiset_ensures;

        let full = spec_admin_plan_preds(*ctx, crate::query::preds_view(fp));
        assert(crate::query::preds_view(plan.predicates@) =~= full);
        let flt = crate::rows::spec_filter(rows@, full, search_cols@);
        crate::rows::lemma_filter_complete(rows@, full, search_cols@);
        assert forall|i: int| 0 <= i < page.data@.len() implies crate::rows::spec_matches(
            full,
            search_cols@,
            #[trigger] page.data@[i],
        ) by {
            match plan.sort {
                None => {
                    lemma_slice_elements_match(flt, full, search_cols@, plan.page as int, per_page as int, i);
                },
                Some(fd) => {
                    let sorted = choose|sorted: Seq<crate::model::AdminRecord>|
                        {
                            &&& (#[trigger] sorted.to_multiset()) == flt.to_multiset()
                            &&& sorted.len() == flt.len()
                            &&& crate::rows::spec_sorted_by(fd.0@, fd.1, sorted)
                            &&& page.data@ == crate::page::spec_page_slice(
                                sorted,
                                plan.page as int,
                                per_page as int,
                            )
                        };
                    lemma_slice_in_source(sorted, plan.page as int, per_page as int, i);
                    assert(sorted.contains(page.data@[i]));
                    assert(sorted.to_multiset().count(page.data@[i]) > 0);
                    assert(flt.to_multiset().count(page.data@[i]) > 0);
                    assert(flt.contains(page.data@[i]));
                    let j = choose|j: int| 0 <= j < flt.len() && flt[j] == page.data@[i];
                    assert(crate::rows::spec_matches(full, search_cols@, flt[j]));
                },
            }
        }
        match plan.sort {
            None => {
                assert(crate::engine::sort_view(plan.sort) is None);
                assert(page.data@ == crate::page::spec_page_slice(
                    flt,
                    page.current_page as int,
                    page.per_page as int,
                ));
            },
            Some(fd2) => {
                let fd = (fd2.0@, fd2.1);
                assert(crate::engine::sort_view(plan.sort) == Some(fd));
                assert(crate::rows::spec_sorted_page_of(
                    flt,
                    fd.0,
                    fd.1,
                    page.data@,
                    page.current_page as int,
                    page.per_page as int,
                ));
            },
        }
    }
    Ok(page)
}

/// An element of a page slice is an element of the sliced sequence.
proof fn lemma_slice_in_source(
    s: Seq<crate::model::AdminRecord>,
    page: int,
    per: int,
    i: int,
)
    requires
        page >= 1,
        per >= 1,
        0 <= i < crate::page::spec_page_slice(s, page, per).len(),
    ensures
        s.contains(crate::page::spec_page_slice(s, page, per)[i]),
{
    let slice = crate::page::spec_page_slice(s, page, per);
    let start = (page - 1) * per;
    assert((page - 1) * per >= 0) by (nonlinear_arith)
        requires
            page >= 1 && per >= 1,
    ;
    if start < s.len() {
        assert(slice[i] == s[start + i]);
    }
}

/// An element of a page slice of a filtered set satisfies the predicates.
proof fn lemma_slice_elements_match(
    flt: Seq<crate::model::AdminRecord>,
    full: Seq<PredicateV>,
    cols: Seq<String>,
    page: int,
    per: int,
    i: int,
)
    requires
        page >= 1,
        per >= 1,
        0 <= i < crate::page::spec_page_slice(flt, page, per).len(),
        forall|k: int|
            0 <= k < flt.len() ==> crate::rows::spec_matches(full, cols, #[trigger] flt[k]),
    ensures
        crate::rows::spec_matches(full, cols, crate::page::spec_page_slice(flt, page, per)[i]),
{
    let slice = crate::page::spec_page_slice(flt, page, per);
    let start = (page - 1) * per;
    assert((page - 1) * per >= 0) by (nonlinear_arith)
        requires
            page >= 1 && per >= 1,
    ;
    if start < flt.len() {
        assert(slice[i] == flt[start + i]);
    }
}

/// The admin table's scoped contract: one value bundling the conversion,
/// delivery metadata and filter declarations the registry serves for the
/// `admin.admin` scope key.
#[derive(Debug, Clone, Copy, Default)]
pub struct AdminAdminDataTableContract;

impl AdminAdminDataTableContract {
    /// The registry name this contract is registered under.
    pub fn scoped_key(&self) -> (r: &'static str)
        ensures
            r@ == "admin.admin"@,
    {
        admin_scoped_key()
    }

    /// Converts a typed listing request into the generic input.
    pub fn query_to_input(&self, req: &AdminDatatableQueryInput) -> (r: DataTableInput)
        ensures
            r.wf(),
            pairs_view(r.params@) == spec_admin_params(
                req.q,
                req.email,
                req.admin_type,
                req.created_at_from,
                req.created_at_to,
            ),
    {
        req.to_input()
    }

    /// Converts a typed email-export request into the generic input.
    pub fn email_to_input(&self, req: &AdminDatatableEmailExportInput) -> (r: DataTableInput)
        ensures
            r.wf(),
            r.export_file_name == req.base.export_file_name,
            pairs_view(r.params@) == spec_admin_params(
                req.q,
                req.email,
                req.admin_type,
                req.created_at_from,
                req.created_at_to,
            ),
    {
        req.to_input()
    }

    /// Where the rendered export is sent.
    pub fn email_recipients(&self, req: &AdminDatatableEmailExportInput) -> (r: Vec<String>)
        ensures
            r@ =~= req.base.recipients@,
    {
        crate::text::clone_strings(&req.base.recipients)
    }

    /// Subject line for the delivery, if the request names one.
    pub fn email_subject(&self, req: &AdminDatatableEmailExportInput) -> (r: Option<String>)
        ensures
            r == req.base.subject,
    {
        match &req.base.subject {
            Some(s) => Some(crate::text::clone_string(s)),
            None => None,
        }
    }

    /// File name for the rendered artifact, if the request names one.
    pub fn export_file_name(&self, req: &AdminDatatableEmailExportInput) -> (r: Option<String>)
        ensures
            r == req.base.export_file_name,
    {
        match &req.base.export_file_name {
            Some(s) => Some(crate::text::clone_string(s)),
            None => None,
        }
    }

    /// Whether aggregate counts must be computed for this request.
    pub fn include_meta(&self, req: &AdminDatatableQueryInput) -> (r: bool)
        ensures
            r == req.base.include_meta,
    {
        req.base.include_meta
    }

    /// The filter fields this contract declares, grouped for the UI: the
    /// search and email filters, then the classification select with its
    /// three tier options; filter keys are pairwise distinct.
    pub fn filter_rows(&self) -> (r: Vec<Vec<crate::engine::FilterField>>)
        ensures
            r@.len() == 2,
            r@[0]@.len() == 2,
            r@[1]@.len() == 1,
            is_q_field(r@[0]@[0]),
            is_email_field(r@[0]@[1]),
            is_admin_type_field(r@[1]@[0]),
            r@[0]@[0].filter_key@ != r@[0]@[1].filter_key@,
            r@[0]@[0].filter_key@ != r@[1]@[0].filter_key@,
            r@[0]@[1].filter_key@ != r@[1]@[0].filter_key@,
    {
        admin_filter_rows()
    }
}

/// Everything a validated email-export request resolves to: who receives
/// the file, what it is called, and the exact plan whose rows it holds.
#[derive(Debug)]
pub struct EmailExportPlan {
    /// Non-empty recipient list.
    pub recipients: Vec<String>,
    /// Subject line, if the request names one.
    pub subject: Option<String>,
    /// File name, if the request names one.
    pub file_name: Option<String>,
    /// Predicates of the filtered set: scope first, then filters.
    pub predicates: Vec<Predicate>,
    /// Resolved sort, if any.
    pub sort: Option<(String, crate::input::SortDirection)>,
}

/// Validates and resolves an email-export request: the authorize and scope
/// gates are mandatory on the export path exactly as on the listing path,
/// and an empty recipient list aborts before any row access. Delivery
/// happens outside; a failure there never produces a partial delivery
/// because the plan is only handed out whole.
pub fn plan_admin_email_export(
    req: &AdminDatatableEmailExportInput,
    ctx: &DataTableContext,
    fields: &Vec<crate::engine::FilterField>,
    sortable: &Vec<String>,
) -> (r: Result<EmailExportPlan, CoreError>)
    requires
        ctx.wf(),
    ensures
        ({
            let pv = spec_admin_params(
                req.q,
                req.email,
                req.admin_type,
                req.created_at_from,
                req.created_at_to,
            );
            let chk = crate::engine::spec_check(pv, fields@, ctx.unknown_filter_mode);
            let built = crate::engine::spec_build(
                pv,
                fields@,
                ctx.unknown_filter_mode,
                ctx.spec_tz_offset(),
            );
            let rs = crate::engine::spec_sort_resolution(
                sortable.deep_view(),
                req.base.query.spec_sort(),
                ctx.unknown_filter_mode,
            );
            &&& (req.base.recipients@.len() == 0 ==> r == Err::<EmailExportPlan, CoreError>(
                CoreError::BadRequest,
            ))
            &&& ((req.base.recipients@.len() > 0 && chk is Err) ==> r == Err::<
                EmailExportPlan,
                CoreError,
            >(CoreError::BadRequest))
            &&& ((req.base.recipients@.len() > 0 && chk is Ok && !spec_admin_authorized(*ctx))
                ==> r == Err::<EmailExportPlan, CoreError>(CoreError::Forbidden))
            &&& ((req.base.recipients@.len() > 0 && chk is Ok && spec_admin_authorized(*ctx)
                && built is Ok && rs is Err) ==> r == Err::<EmailExportPlan, CoreError>(
                CoreError::BadRequest,
            ))
            &&& ((req.base.recipients@.len() > 0 && chk is Ok && spec_admin_authorized(*ctx)
                && built is Ok && rs is Ok) ==> r is Ok)
            &&& match r {
                Ok(plan) => {
                    &&& req.base.recipients@.len() > 0
                    &&& chk is Ok
                    &&& spec_admin_authorized(*ctx)
                    &&& built is Ok
                    &&& plan.recipients@ =~= req.base.recipients@
                    &&& plan.subject == req.base.subject
                    &&& plan.file_name == req.base.export_file_name
                    &&& crate::query::preds_view(plan.predicates@) == spec_admin_plan_preds(
                        *ctx,
                        built.unwrap().0,
                    )
                    &&& rs == Ok::<_, CoreError>(crate::engine::sort_view(plan.sort))
                },
                Err(e) => e == CoreError::BadRequest || e == CoreError::Forbidden,
            }
        }),
{
    if req.base.recipients.len() == 0 {
        return Err(CoreError::BadRequest);
    }
    let input = req.to_input();
    let mode = ctx.unknown_filter_mode;
    match crate::engine::check_unknown_keys(fields, &input.params, mode) {
        Ok(_warnings) => {},
        Err(_e) => {
            return Err(CoreError::BadRequest);
        },
    }
    let hooks = AdminDataTableAppHooks;
    if !hooks.authorize(&input, ctx) {
        return Err(CoreError::Forbidden);
    }
    let mut preds: Vec<Predicate> = Vec::new();
    hooks.scope(&mut preds, &input, ctx);
    let ghost scope_preds = preds@;
    let built = match crate::engine::build_predicates(fields, &input.params, mode, ctx.tz_offset())
        {
        Ok(out) => out,
        Err(_e) => {
            return Err(CoreError::BadRequest);
        },
    };
    let (mut filter_preds, _warns) = built;
    let ghost fp = filter_preds@;
    preds.append(&mut filter_preds);
    proof {
        crate::engine::lemma_preds_view_concat(scope_preds, fp);
        match spec_scope_pred(*ctx) {
            Some(p) => {
                assert(crate::query::preds_view(scope_preds) =~= seq![p]);
            },
            None => {
                assert(crate::query::preds_view(scope_preds) =~= Seq::<PredicateV>::empty());
            },
        }
        assert(crate::query::preds_view(preds@) =~= spec_admin_plan_preds(
            *ctx,
            crate::query::preds_view(fp),
        ));
    }
    let sort = match crate::engine::resolve_sort(sortable, &input.sort, mode) {
        Ok(s) => s,
        Err(_e) => {
            return Err(CoreError::BadRequest);
        },
    };
    let contract = AdminAdminDataTableContract;
    let recipients = contract.email_recipients(req);
    let subject = contract.email_subject(req);
    let file_name = contract.export_file_name(req);
    Ok(EmailExportPlan { recipients, subject, file_name, predicates: preds, sort })
}

/// What a validated asynchronous export request resolves to: the exact
/// plan whose rows the job will materialise. Recipients play no part on
/// this path; the artifact goes to storage and is fetched by reference.
#[derive(Debug)]
pub struct AsyncExportPlan {
    /// Predicates of the filtered set: scope first, then filters.
    pub predicates: Vec<Predicate>,
    /// Resolved sort, if any.
    pub sort: Option<(String, crate::input::SortDirection)>,
}

/// Validates and resolves an asynchronous export submission: authorize and
/// scope are mandatory on the export path exactly as on the listing path,
/// decided before the job is recorded. The job body materialises the rows
/// of this plan, unpaginated, out-of-band.
pub fn plan_admin_async_export(
    req: &AdminDatatableQueryInput,
    ctx: &DataTableContext,
    fields: &Vec<crate::engine::FilterField>,
    sortable: &Vec<String>,
) -> (r: Result<AsyncExportPlan, CoreError>)
    requires
        ctx.wf(),
    ensures
        ({
            let pv = spec_admin_params(
                req.q,
                req.email,
                req.admin_type,
                req.created_at_from,
                req.created_at_to,
            );
            let chk = crate::engine::spec_check(pv, fields@, ctx.unknown_filter_mode);
            let built = crate::engine::spec_build(
                pv,
                fields@,
                ctx.unknown_filter_mode,
                ctx.spec_tz_offset(),
            );
            let rs = crate::engine::spec_sort_resolution(
                sortable.deep_view(),
                req.base.spec_sort(),
                ctx.unknown_filter_mode,
            );
            &&& (chk is Err ==> r == Err::<AsyncExportPlan, CoreError>(CoreError::BadRequest))
            &&& ((chk is Ok && !spec_admin_authorized(*ctx)) ==> r == Err::<
                AsyncExportPlan,
                CoreError,
            >(CoreError::Forbidden))
            &&& ((chk is Ok && spec_admin_authorized(*ctx) && built is Err) ==> r == Err::<
                AsyncExportPlan,
                CoreError,
            >(CoreError::BadRequest))
            &&& ((chk is Ok && spec_admin_authorized(*ctx) && built is Ok && rs is Err) ==> r
                == Err::<AsyncExportPlan, CoreError>(CoreError::BadRequest))
            &&& ((chk is Ok && spec_admin_authorized(*ctx) && built is Ok && rs is Ok) ==> r
                is Ok)
            &&& match r {
                Ok(plan) => {
                    &&& chk is Ok
                    &&& spec_admin_authorized(*ctx)
                    &&& built is Ok
                    &&& crate::query::preds_view(plan.predicates@) == spec_admin_plan_preds(
                        *ctx,
                        built.unwrap().0,
                    )
                    &&& rs == Ok::<_, CoreError>(crate::engine::sort_view(plan.sort))
                },
                Err(e) => e == CoreError::BadRequest || e == CoreError::Forbidden,
            }
        }),
{
    let input = req.to_input();
    let mode = ctx.unknown_filter_mode;
    match crate::engine::check_unknown_keys(fields, &input.params, mode) {
        Ok(_warnings) => {},
        Err(_e) => {
            return Err(CoreError::BadRequest);
        },
    }
    let hooks = AdminDataTableAppHooks;
    if !hooks.authorize(&input, ctx) {
        return Err(CoreError::Forbidden);
    }
    let mut preds: Vec<Predicate> = Vec::new();
    hooks.scope(&mut preds, &input, ctx);
    let ghost scope_preds = preds@;
    let built = match crate::engine::build_predicates(fields, &input.params, mode, ctx.tz_offset())
        {
        Ok(out) => out,
        Err(_e) => {
            return Err(CoreError::BadRequest);
        },
    };
    let (mut filter_preds, _warns) = built;
    let ghost fp = filter_preds@;
    preds.append(&mut filter_preds);
    proof {
        crate::engine::lemma_preds_view_concat(scope_preds, fp);
        match spec_scope_pred(*ctx) {
            Some(p) => {
                assert(crate::query::preds_view(scope_preds) =~= seq![p]);
            },
            None => {
                assert(crate::query::preds_view(scope_preds) =~= Seq::<PredicateV>::empty());
            },
        }
        assert(crate::query::preds_view(preds@) =~= spec_admin_plan_preds(
            *ctx,
            crate::query::preds_view(fp),
        ));
    }
    let sort = match crate::engine::resolve_sort(sortable, &input.sort, mode) {
        Ok(s) => s,
        Err(_e) => {
            return Err(CoreError::BadRequest);
        },
    };
    Ok(AsyncExportPlan { predicates: preds, sort })
}

/// Law: an actor without a resolvable classification attribute (or a
/// missing actor) is scoped to an impossible predicate, so the scoped
/// query yields zero rows over any well-formed row set — never an error
/// and never unscoped access.
pub proof fn lemma_unresolvable_scope_yields_zero_rows(
    ctx: DataTableContext,
    rows: Seq<crate::model::AdminRecord>,
    others: Seq<PredicateV>,
    cols: Seq<String>,
)
    requires
        forall|i: int| 0 <= i < rows.len() ==> (#[trigger] rows[i]).wf(),
        ctx.actor is None || spec_actor_tier(ctx) is None,
    ensures
        spec_scope_pred(ctx) == Some(PredicateV::Eq("id"@, ValueV::Int(-1))),
        crate::rows::spec_filter(
            rows,
            others.push(spec_scope_pred(ctx).unwrap()),
            cols,
        ).len() == 0,
{
    reveal_strlit("id");
    let full = others.push(spec_scope_pred(ctx).unwrap());
    let k = full.len() - 1;
    assert(full[k] == PredicateV::Eq("id"@, ValueV::Int(-1)));
    assert forall|i: int| 0 <= i < rows.len() implies !crate::rows::spec_matches(
        full,
        cols,
        #[trigger] rows[i],
    ) by {
        assert(crate::rows::spec_int_field("id"@, rows[i]) == Some(rows[i].id as int));
        assert(rows[i].id >= 0);
        assert(!crate::rows::spec_eval(full[k], cols, rows[i]));
    }
    crate::rows::lemma_filter_complete(rows, full, cols);
}

} // verus!
