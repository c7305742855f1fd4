//! Admin account management: the decision and normalization logic of the
//! create, read, update and delete flows. Record-store reads and writes
//! happen outside; these functions take their results as values and decide
//! what happens, so every rule here is checked.

use vstd::prelude::*;
use crate::authz::{seq_contains_str, Permission};
use crate::error::CoreError;
use crate::model::{AdminRecord, AdminType, AttrValue};
use crate::session::strs_view;
use crate::text::{is_blank, spec_norm, spec_trim};
use crate::validation::UsernameString;

verus! {

/// Request to create an admin account.
#[derive(Debug, Clone)]
pub struct CreateAdminInput {
    /// Validated login name.
    pub username: UsernameString,
    /// Optional contact address.
    pub email: Option<String>,
    /// Display name.
    pub name: String,
    /// Classification tier of the new account.
    pub admin_type: AdminType,
    /// Initial password, hashed outside.
    pub password: String,
    /// Permissions the new account receives.
    pub abilities: Vec<Permission>,
}

/// Request to update an admin account; absent fields stay untouched.
#[derive(Debug, Clone)]
pub struct UpdateAdminInput {
    /// The record this update is aimed at; bound by [`Self::with_target_id`].
    pub target_id: i64,
    /// New login name, if changing.
    pub username: Option<UsernameString>,
    /// New contact address, if changing.
    pub email: Option<String>,
    /// New display name, if changing.
    pub name: Option<String>,
    /// New classification tier, if changing.
    pub admin_type: Option<AdminType>,
    /// New permission set, if changing.
    pub abilities: Option<Vec<Permission>>,
}

impl UpdateAdminInput {
    /// A request not yet bound to a record.
    pub fn new(
        username: Option<UsernameString>,
        email: Option<String>,
        name: Option<String>,
        admin_type: Option<AdminType>,
        abilities: Option<Vec<Permission>>,
    ) -> (r: UpdateAdminInput)
        ensures
            r.username == username,
            r.email == email,
            r.name == name,
            r.admin_type == admin_type,
            r.abilities == abilities,
            r.target_id == 0,
    {
        UpdateAdminInput { target_id: 0, username, email, name, admin_type, abilities }
    }

    /// Binds the request to the record named by the route.
    pub fn with_target_id(self, id: i64) -> (r: Self)
        ensures
            r.target_id == id,
            r.username == self.username,
            r.email == self.email,
            r.name == self.name,
            r.admin_type == self.admin_type,
            r.abilities == self.abilities,
    {
        UpdateAdminInput { target_id: id, ..self }
    }

}

/// Confirmation that a delete took effect.
#[derive(Debug, PartialEq, Eq)]
pub struct AdminDeleteOutput {
    /// Always true on the success path.
    pub deleted: bool,
}

/// The admin shape answered by the management endpoints.
#[derive(Debug)]
pub struct AdminOutput {
    /// Primary key.
    pub id: i64,
    /// Login name.
    pub username: String,
    /// Contact address, if recorded.
    pub email: Option<String>,
    /// Display name.
    pub name: String,
    /// Classification tier.
    pub admin_type: AdminType,
    /// The raw ability strings of the record, non-strings skipped.
    pub abilities: Vec<String>,
    /// Creation time, seconds since the Unix epoch.
    pub created_at: i64,
    /// Last update time, seconds since the Unix epoch.
    pub updated_at: i64,
}

/// The string entries of a raw ability list, in order, untouched;
/// non-string entries contribute nothing.
pub open spec fn spec_ability_strings(items: Seq<AttrValue>) -> Seq<Seq<char>>
    decreases items.len(),
{
    if items.len() == 0 {
        Seq::empty()
    } else {
        let rest = spec_ability_strings(items.drop_last());
        match items.last() {
            AttrValue::Str(s) => rest.push(s@),
            _ => rest,
        }
    }
}

impl AdminOutput {
    /// Builds the output shape from a record: plain fields carried over,
    /// ability strings kept as they are stored.
    pub fn from_record(value: AdminRecord) -> (r: AdminOutput)
        ensures
            r.id == value.id,
            r.username == value.username,
            r.email == value.email,
            r.name == value.name,
            r.admin_type == value.admin_type,
            strs_view(r.abilities@) == spec_ability_strings(value.abilities@),
            r.created_at == value.created_at,
            r.updated_at == value.updated_at,
    {
        let mut abilities: Vec<String> = Vec::new();
        let items = &value.abilities;
        let mut i: usize = 0;
        while i < items.len()
            invariant
                0 <= i <= items@.len(),
                strs_view(abilities@) =~= spec_ability_strings(items@.subrange(0, i as int)),
            decreases items@.len() - i,
        {
            proof {
                assert(items@.subrange(0, i as int + 1).drop_last() =~= items@.subrange(
                    0,
                    i as int,
                ));
                assert(items@.subrange(0, i as int + 1).last() == items@[i as int]);
            }
            match &items[i] {
                AttrValue::Str(s) => {
                    let ghost before = abilities@;
                    abilities.push(s.clone());
                    proof {
                        assert(strs_view(abilities@) =~= strs_view(before).push(s@));
                    }
                },
                _ => {},
            }
            i = i + 1;
        }
        proof {
            assert(items@.subrange(0, items@.len() as int) =~= items@);
        }
        AdminOutput {
            id: value.id,
            username: value.username,
            email: value.email,
            name: value.name,
            admin_type: value.admin_type,
            abilities,
            created_at: value.created_at,
            updated_at: value.updated_at,
        }
    }
}

/// A record that must exist: absence is a `NotFound`.
pub fn require_found(found: Option<AdminRecord>) -> (r: Result<AdminRecord, CoreError>)
    ensures
        match found {
            Some(admin) => r == Ok::<AdminRecord, CoreError>(admin),
            None => r == Err::<AdminRecord, CoreError>(CoreError::NotFound),
        },
{
    match found {
        Some(admin) => Ok(admin),
        None => Err(CoreError::NotFound),
    }
}

/// A write that must hit a row: zero affected rows is a `NotFound`.
pub fn require_affected(affected: u64) -> (r: Result<(), CoreError>)
    ensures
        affected == 0 ==> r == Err::<(), CoreError>(CoreError::NotFound),
        affected > 0 ==> r == Ok::<(), CoreError>(()),
{
    if affected == 0 {
        Err(CoreError::NotFound)
    } else {
        Ok(())
    }
}

/// Accounts cannot manage themselves through the management endpoints.
pub fn ensure_not_self(actor_id: i64, target_id: i64) -> (r: Result<(), CoreError>)
    ensures
        actor_id == target_id ==> r == Err::<(), CoreError>(CoreError::Forbidden),
        actor_id != target_id ==> r == Ok::<(), CoreError>(()),
{
    if actor_id == target_id {
        Err(CoreError::Forbidden)
    } else {
        Ok(())
    }
}

/// A free username: a taken one is a `BadRequest`.
pub fn ensure_username_free(username_exists: bool) -> (r: Result<(), CoreError>)
    ensures
        username_exists ==> r == Err::<(), CoreError>(CoreError::BadRequest),
        !username_exists ==> r == Ok::<(), CoreError>(()),
{
    if username_exists {
        Err(CoreError::BadRequest)
    } else {
        Ok(())
    }
}

/// The normalized contact address: trimmed and lowercased, or nothing
/// when absent or blank.
pub open spec fn spec_norm_email(email: Option<String>) -> Option<Seq<char>> {
    match email {
        Some(e) => if is_blank(e@) {
            None
        } else {
            Some(spec_norm(e@))
        },
        None => None,
    }
}

/// Normalizes an optional contact address per [`spec_norm_email`].
pub fn normalize_optional_email(email: Option<String>) -> (r: Option<String>)
    ensures
        match r {
            Some(s) => spec_norm_email(email) == Some(s@),
            None => spec_norm_email(email) is None,
        },
{
    match email {
        Some(e) => {
            let t = crate::text::trim(e.as_str());
            if t.as_str().unicode_len() == 0 {
                None
            } else {
                Some(crate::text::to_ascii_lower(t.as_str()))
            }
        },
        None => None,
    }
}

/// The permission names an actor may assign, as canonical strings.
///
/// A normal admin may never assign the admin-management permissions, and
/// may otherwise assign only permissions it holds itself; the privileged
/// tiers may assign anything.
pub open spec fn spec_assignable(
    actor_type: AdminType,
    actor_perms: Seq<Seq<char>>,
    requested: Seq<Permission>,
) -> Result<(), CoreError> {
    if actor_type is Admin && (exists|i: int|
        0 <= i < requested.len() && ((#[trigger] requested[i]) is AdminRead || requested[i]
            is AdminManage)) {
        Err(CoreError::Forbidden)
    } else if actor_type is Developer || actor_type is SuperAdmin {
        Ok(())
    } else if forall|i: int|
        0 <= i < requested.len() ==> seq_contains_str(actor_perms, (#[trigger] requested[i]).spec_str())
            || seq_contains_str(actor_perms, crate::authz::wildcard()) {
        Ok(())
    } else {
        Err(CoreError::Forbidden)
    }
}

/// The canonical strings of a permission list, in order.
pub open spec fn spec_perm_strings(requested: Seq<Permission>) -> Seq<Seq<char>> {
    requested.map_values(|p: Permission| p.spec_str())
}

/// Checks that the actor may assign the requested permissions and turns
/// them into their canonical strings.
pub fn ensure_assignable_permissions(
    actor_type: AdminType,
    actor_perms: &Vec<String>,
    requested: &Vec<Permission>,
) -> (r: Result<Vec<String>, CoreError>)
    ensures
        match r {
            Ok(out) => spec_assignable(actor_type, actor_perms.deep_view(), requested@) is Ok
                && strs_view(out@) == spec_perm_strings(requested@),
            Err(e) => spec_assignable(actor_type, actor_perms.deep_view(), requested@) == Err::<
                (),
                CoreError,
            >(e),
        },
{
    proof {
        reveal_strlit("*");
    }
    if matches!(actor_type, AdminType::Admin) {
        let mut i: usize = 0;
        while i < requested.len()
            invariant
                actor_type is Admin,
                0 <= i <= requested@.len(),
                forall|j: int|
                    0 <= j < i ==> !((#[trigger] requested@[j]) is AdminRead || requested@[j]
                        is AdminManage),
            decreases requested@.len() - i,
        {
            if matches!(requested[i], Permission::AdminRead) || matches!(
                requested[i],
                Permission::AdminManage,
            ) {
                assert((requested@[i as int]) is AdminRead || requested@[i as int] is AdminManage);
                return Err(CoreError::Forbidden);
            }
            i = i + 1;
        }
    }
    let mut out: Vec<String> = Vec::new();
    let mut i: usize = 0;
    while i < requested.len()
        invariant
            0 <= i <= requested@.len(),
            strs_view(out@) =~= spec_perm_strings(requested@.subrange(0, i as int)),
        decreases requested@.len() - i,
    {
        let ghost before = out@;
        out.push(String::from_str(requested[i].as_str()));
        proof {
            assert(strs_view(out@) =~= strs_view(before).push(requested@[i as int].spec_str()));
            assert(spec_perm_strings(requested@.subrange(0, i as int + 1)) =~= spec_perm_strings(
                requested@.subrange(0, i as int),
            ).push(requested@[i as int].spec_str()));
        }
        i = i + 1;
    }
    proof {
        assert(requested@.subrange(0, requested@.len() as int) =~= requested@);
    }
    if matches!(actor_type, AdminType::Developer) || matches!(actor_type, AdminType::SuperAdmin) {
        return Ok(out);
    }
    let has_wildcard = crate::authz::vec_contains_str(actor_perms, "*");
    let mut i: usize = 0;
    while i < requested.len()
        invariant
            actor_type is Admin,
            forall|j: int|
                0 <= j < requested@.len() ==> !((#[trigger] requested@[j]) is AdminRead
                    || requested@[j] is AdminManage),
            0 <= i <= requested@.len(),
            strs_view(out@) == spec_perm_strings(requested@),
            has_wildcard == seq_contains_str(actor_perms.deep_view(), crate::authz::wildcard()),
            forall|j: int|
                0 <= j < i ==> seq_contains_str(
                    actor_perms.deep_view(),
                    (#[trigger] requested@[j]).spec_str(),
                ) || seq_contains_str(actor_perms.deep_view(), crate::authz::wildcard()),
        decreases requested@.len() - i,
    {
        if !has_wildcard && !crate::authz::vec_contains_str(actor_perms, requested[i].as_str()) {
            assert(!(seq_contains_str(actor_perms.deep_view(), requested@[i as int].spec_str())
                || seq_contains_str(actor_perms.deep_view(), crate::authz::wildcard())));
            return Err(CoreError::Forbidden);
        }
        i = i + 1;
    }
    Ok(out)
}

/// Everything a create request resolves to before it is written.
#[derive(Debug)]
pub struct NewAdminPlan {
    /// Login name, trimmed and lowercased.
    pub username: String,
    /// Contact address, normalized; absent when blank.
    pub email: Option<String>,
    /// Display name, trimmed.
    pub name: String,
    /// Classification tier.
    pub admin_type: AdminType,
    /// Canonical permission strings to store.
    pub abilities: Vec<String>,
    /// The password to hash and store.
    pub password: String,
}

/// Resolves a create request: normalizes the login name and address,
/// checks availability, and checks that the actor may assign the
/// requested permissions.
pub fn plan_create(
    actor_type: AdminType,
    actor_perms: &Vec<String>,
    req: CreateAdminInput,
    username_exists: bool,
) -> (r: Result<NewAdminPlan, CoreError>)
    ensures
        username_exists ==> r == Err::<NewAdminPlan, CoreError>(CoreError::BadRequest),
        (!username_exists && spec_assignable(actor_type, actor_perms.deep_view(), req.abilities@)
            is Err) ==> r == Err::<NewAdminPlan, CoreError>(
            spec_assignable(actor_type, actor_perms.deep_view(), req.abilities@)->Err_0,
        ),
        (!username_exists && spec_assignable(actor_type, actor_perms.deep_view(), req.abilities@)
            is Ok) ==> r is Ok,
        r matches Ok(plan) ==> {
            &&& !username_exists
            &&& spec_assignable(actor_type, actor_perms.deep_view(), req.abilities@) is Ok
            &&& plan.username@ == spec_norm(req.username@)
            &&& spec_norm_email_matches(plan.email, req.email)
            &&& plan.name@ == spec_trim(req.name@)
            &&& plan.admin_type == req.admin_type
            &&& strs_view(plan.abilities@) == spec_perm_strings(req.abilities@)
            &&& plan.password == req.password
        },
{
    if username_exists {
        return Err(CoreError::BadRequest);
    }
    let abilities = match ensure_assignable_permissions(actor_type, actor_perms, &req.abilities) {
        Ok(a) => a,
        Err(e) => {
            return Err(e);
        },
    };
    let username = crate::text::normalize(req.username.as_str());
    let name = crate::text::trim(req.name.as_str());
    let email = normalize_optional_email(req.email);
    Ok(
        NewAdminPlan {
            username,
            email,
            name,
            admin_type: req.admin_type,
            abilities,
            password: req.password,
        },
    )
}

/// The plan's address is the normalization of the requested one.
pub open spec fn spec_norm_email_matches(plan: Option<String>, req: Option<String>) -> bool {
    match plan {
        Some(s) => spec_norm_email(req) == Some(s@),
        None => spec_norm_email(req) is None,
    }
}

/// Everything an update request resolves to before it is written;
/// absent fields stay untouched.
#[derive(Debug)]
pub struct UpdateAdminPlan {
    /// New login name, normalized; absent when unchanged or not requested.
    pub username: Option<String>,
    /// New contact address, normalized; absent when not requested or blank.
    pub email: Option<String>,
    /// New display name, trimmed.
    pub name: Option<String>,
    /// New classification tier.
    pub admin_type: Option<AdminType>,
    /// New canonical permission strings.
    pub abilities: Option<Vec<String>>,
    /// Whether anything is to be written at all.
    pub touched: bool,
}

/// Resolves an update request against the existing record: the actor may
/// not touch its own account; a requested login name equal to the current
/// one is dropped; permissions go through the assignability check. The
/// caller must still check availability of a returned new login name.
pub fn plan_update(
    actor_id: i64,
    actor_type: AdminType,
    actor_perms: &Vec<String>,
    existing: &AdminRecord,
    req: UpdateAdminInput,
) -> (r: Result<UpdateAdminPlan, CoreError>)
    ensures
        actor_id == req.target_id ==> r == Err::<UpdateAdminPlan, CoreError>(
            CoreError::Forbidden,
        ),
        r matches Ok(plan) ==> {
            &&& actor_id != req.target_id
            &&& match req.username {
                Some(u) => {
                    if spec_norm(u@) == existing.username@ {
                        plan.username is None
                    } else {
                        plan.username matches Some(s) && s@ == spec_norm(u@)
                    }
                },
                None => plan.username is None,
            }
            &&& match req.name {
                Some(n) => plan.name matches Some(s) && s@ == spec_trim(n@),
                None => plan.name is None,
            }
            &&& spec_norm_email_matches(plan.email, req.email)
            &&& plan.admin_type == req.admin_type
            &&& match req.abilities {
                Some(a) => {
                    &&& spec_assignable(actor_type, actor_perms.deep_view(), a@) is Ok
                    &&& plan.abilities matches Some(out) && strs_view(out@) == spec_perm_strings(
                        a@,
                    )
                },
                None => plan.abilities is None,
            }
            &&& plan.touched == (plan.username is Some || plan.name is Some || plan.email is Some
                || plan.admin_type is Some || plan.abilities is Some)
        },
        (r is Err && actor_id != req.target_id) ==> (match req.abilities {
            Some(a) => spec_assignable(actor_type, actor_perms.deep_view(), a@) == Err::<
                (),
                CoreError,
            >(r->Err_0),
            None => false,
        }),
{
    if actor_id == req.target_id {
        return Err(CoreError::Forbidden);
    }
    let username: Option<String> = match &req.username {
        Some(u) => {
            let norm = crate::text::normalize(u.as_str());
            if crate::text::str_eq(norm.as_str(), existing.username.as_str()) {
                None
            } else {
                Some(norm)
            }
        },
        None => None,
    };
    let abilities: Option<Vec<String>> = match &req.abilities {
        Some(a) => {
            match ensure_assignable_permissions(actor_type, actor_perms, a) {
                Ok(out) => Some(out),
                Err(e) => {
                    return Err(e);
                },
            }
        },
        None => None,
    };
    let name: Option<String> = match &req.name {
        Some(n) => Some(crate::text::trim(n.as_str())),
        None => None,
    };
    let email = normalize_optional_email(req.email);
    let admin_type = req.admin_type;
    let touched = username.is_some() || name.is_some() || email.is_some() || admin_type.is_some()
        || abilities.is_some();
    Ok(UpdateAdminPlan { username, email, name, admin_type, abilities, touched })
}

} // verus!
