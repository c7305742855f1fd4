//! The authentication entry points' decision logic: login, token issuance
//! and refresh, logout, profile reads — everything between the HTTP layer
//! and the session store that does not itself touch a database or a
//! password hasher.
//!
//! Credential verification happens outside; these functions take its
//! verdict as a value and decide what the subject receives.

use vstd::prelude::*;
use crate::error::CoreError;
use crate::model::{AdminRecord, AdminType};
use crate::session::{
    spec_admin_permissions, spec_find, strs_view, SessionStore, TokenScopeGrant,
};

verus! {

/// How the client receives its refresh token: a web client only through a
/// scoped, guard-named cookie; a bearer-only client in the response body.
/// A delivery-channel decision, not a session-state difference.
#[derive(Debug, Clone, Copy, PartialEq, Eq)]
pub enum AuthClientType {
    /// Cookie-based delivery.
    Web,
    /// Bearer-only delivery: the refresh token travels in the body.
    Mobile,
}

/// The pair a successful login or refresh hands out.
#[derive(Debug)]
pub struct IssuedTokenPair {
    /// Self-contained access token (signed by the caller).
    pub access_token: String,
    /// When the access token stops working, seconds since the Unix epoch.
    pub access_expires_at: i64,
    /// Opaque, persisted, revocable refresh token.
    pub refresh_token: String,
    /// The permission strings the access token carries.
    pub abilities: Vec<String>,
}

/// What a minted access token asserts; the caller signs and encodes it.
#[derive(Debug)]
pub struct AccessClaims {
    /// Subject the token speaks for.
    pub subject_id: i64,
    /// Guard (actor class) the token was issued for.
    pub guard: String,
    /// The resolved scope grant, embedded in the token.
    pub grant: TokenScopeGrant,
    /// Expiry, seconds since the Unix epoch.
    pub expires_at: i64,
}

/// Decides a login attempt: an unknown username and a wrong password are
/// both answered `Unauthorized`, indistinguishably; a verified credential
/// hands the record on.
pub fn login_decision(found: Option<AdminRecord>, password_valid: bool) -> (r: Result<
    AdminRecord,
    CoreError,
>)
    ensures
        match found {
            None => r == Err::<AdminRecord, CoreError>(CoreError::Unauthorized),
            Some(admin) => {
                if password_valid {
                    r == Ok::<AdminRecord, CoreError>(admin)
                } else {
                    r == Err::<AdminRecord, CoreError>(CoreError::Unauthorized)
                }
            },
        },
{
    match found {
        None => Err(CoreError::Unauthorized),
        Some(admin) => {
            if password_valid {
                Ok(admin)
            } else {
                Err(CoreError::Unauthorized)
            }
        },
    }
}

/// Mints a session for a verified subject: resolves the scope grant from
/// the subject's current record, persists the refresh token, and returns
/// the pair together with the claims the caller must sign into the access
/// token.
pub fn issue_session(
    store: &mut SessionStore,
    admin: &AdminRecord,
    guard: String,
    label: String,
    access_token: String,
    refresh_token: String,
    now: i64,
    access_ttl_secs: i64,
    refresh_ttl_secs: i64,
) -> (r: (IssuedTokenPair, AccessClaims))
    requires
        old(store).wf(),
        spec_find(old(store)@, refresh_token@) is None,
        0 <= now,
        0 <= access_ttl_secs,
        0 <= refresh_ttl_secs,
        now + access_ttl_secs <= i64::MAX,
        now + refresh_ttl_secs <= i64::MAX,
    ensures
        final(store).wf(),
        final(store)@.len() == old(store)@.len() + 1,
        final(store)@.last().refresh_token == refresh_token,
        final(store)@.last().subject_id == admin.id,
        final(store)@.last().guard == guard,
        final(store)@.last().label == label,
        !final(store)@.last().consumed && !final(store)@.last().revoked,
        final(store)@.last().expires_at == now + refresh_ttl_secs,
        final(store)@.drop_last() == old(store)@,
        r.0.access_token == access_token,
        r.0.refresh_token == refresh_token,
        r.0.access_expires_at == now + access_ttl_secs,
        r.1.subject_id == admin.id,
        r.1.guard == guard,
        r.1.expires_at == now + access_ttl_secs,
        grant_matches(r.1.grant, *admin),
        abilities_match(r.0.abilities@, r.1.grant),
{
    let grant = crate::session::resolve_scope_grant(admin);
    let abilities = crate::session::abilities_of_grant(&grant);
    store.issue(
        admin.id,
        guard.clone(),
        label,
        refresh_token.clone(),
        now,
        refresh_ttl_secs,
    );
    let expires_at = now + access_ttl_secs;
    let pair = IssuedTokenPair {
        access_token,
        access_expires_at: expires_at,
        refresh_token,
        abilities,
    };
    let claims = AccessClaims { subject_id: admin.id, guard, grant, expires_at };
    (pair, claims)
}

/// The grant is the one the record resolves to.
pub open spec fn grant_matches(grant: TokenScopeGrant, admin: AdminRecord) -> bool {
    &&& (admin.admin_type is Developer || admin.admin_type is SuperAdmin) ==> grant is Wildcard
    &&& admin.admin_type is Admin ==> {
        if crate::model::names_ability(admin.abilities@, "*"@) {
            grant is Wildcard
        } else if spec_admin_permissions(admin.abilities@).len() == 0 {
            grant is AuthOnly
        } else {
            grant matches TokenScopeGrant::Explicit(e) && strs_view(e@) == spec_admin_permissions(
                admin.abilities@,
            )
        }
    }
}

/// The carried permission strings match the grant.
pub open spec fn abilities_match(abilities: Seq<String>, grant: TokenScopeGrant) -> bool {
    match grant {
        TokenScopeGrant::Wildcard => strs_view(abilities) == seq!["*"@],
        TokenScopeGrant::Explicit(e) => abilities == e@,
        TokenScopeGrant::AuthOnly => abilities.len() == 0,
    }
}

/// Rotates a refresh token and mints the successor pair. The presented
/// token must belong to the requested guard; the scope grant is
/// re-resolved from the subject's current record, so a permission change
/// takes effect at the next refresh, not only at the next login.
///
/// A token of another guard, an absent token and an expired token are all
/// `Unauthorized`; one already rotated or revoked is a `Conflict`. The
/// store is unchanged on every failure.
pub fn refresh_session(
    store: &mut SessionStore,
    presented: &str,
    admin: &AdminRecord,
    guard: String,
    access_token: String,
    successor: String,
    now: i64,
    access_ttl_secs: i64,
    refresh_ttl_secs: i64,
) -> (r: Result<(IssuedTokenPair, AccessClaims), CoreError>)
    requires
        old(store).wf(),
        spec_find(old(store)@, successor@) is None,
        0 <= now,
        0 <= access_ttl_secs,
        0 <= refresh_ttl_secs,
        now + access_ttl_secs <= i64::MAX,
        now + refresh_ttl_secs <= i64::MAX,
    ensures
        final(store).wf(),
        ({
            let guard_ok = match spec_find(old(store)@, presented@) {
                Some(i) => old(store)@[i].guard@ == guard@,
                None => false,
            };
            &&& (!guard_ok ==> r == Err::<(IssuedTokenPair, AccessClaims), CoreError>(
                CoreError::Unauthorized,
            ) && final(store)@ == old(store)@)
            &&& (guard_ok ==> (r is Ok <==> crate::session::spec_refresh_result(
                old(store)@,
                presented@,
                now as int,
            ) is Ok))
            &&& ((guard_ok && r is Err) ==> final(store)@ == old(store)@
                && crate::session::spec_refresh_result(old(store)@, presented@, now as int)
                == Err::<(), CoreError>(r->Err_0))
        }),
        r matches Ok(out) ==> {
            &&& out.0.access_token == access_token
            &&& out.0.refresh_token == successor
            &&& out.0.access_expires_at == now + access_ttl_secs
            &&& out.1.expires_at == now + access_ttl_secs
            &&& out.1.subject_id == admin.id
            &&& out.1.guard == guard
            &&& grant_matches(out.1.grant, *admin)
            &&& abilities_match(out.0.abilities@, out.1.grant)
        },
{
    let guard_ok = match store.guard_of(presented) {
        Some(g) => crate::text::str_eq(g.as_str(), guard.as_str()),
        None => false,
    };
    if !guard_ok {
        return Err(CoreError::Unauthorized);
    }
    match store.refresh(presented, successor.clone(), now, refresh_ttl_secs) {
        Ok(()) => {},
        Err(e) => {
            return Err(e);
        },
    }
    let grant = crate::session::resolve_scope_grant(admin);
    let abilities = crate::session::abilities_of_grant(&grant);
    let expires_at = now + access_ttl_secs;
    let pair = IssuedTokenPair {
        access_token,
        access_expires_at: expires_at,
        refresh_token: successor,
        abilities,
    };
    let claims = AccessClaims { subject_id: admin.id, guard, grant, expires_at };
    Ok((pair, claims))
}

/// How long a web client's refresh cookie lives, in seconds: the guard's
/// configured refresh lifetime in days, where one is configured and the
/// seconds fit the clock's range; otherwise no cookie expiry is set.
pub fn refresh_cookie_ttl_secs(refresh_ttl_days: Option<u64>) -> (r: Option<i64>)
    ensures
        match refresh_ttl_days {
            Some(d) => {
                if d <= 106751991167300 {
                    r == Some((d * 86400) as i64)
                } else {
                    r is None
                }
            },
            None => r is None,
        },
{
    match refresh_ttl_days {
        Some(d) => {
            if d <= 106751991167300 {
                Some((d as i64) * 86400)
            } else {
                None
            }
        },
        None => None,
    }
}

/// Routes the pair to the client per its type: a web client receives the
/// refresh token only via cookie (never in the body), a bearer-only
/// client receives it in the body. The caller reads the refresh token for
/// the cookie from the pair itself.
pub fn to_auth_output(client_type: AuthClientType, tokens: &IssuedTokenPair) -> (r: AdminAuthOutput)
    ensures
        r.token_type@ == "Bearer"@,
        r.access_token == tokens.access_token,
        r.access_expires_at == Some(tokens.access_expires_at),
        r.scopes@ =~= tokens.abilities@,
        client_type is Web ==> r.refresh_token is None,
        client_type is Mobile ==> (r.refresh_token matches Some(t) && t == tokens.refresh_token),
{
    let refresh_token = match client_type {
        AuthClientType::Web => None,
        AuthClientType::Mobile => Some(crate::text::clone_string(&tokens.refresh_token)),
    };
    AdminAuthOutput {
        token_type: String::from_str("Bearer"),
        access_token: crate::text::clone_string(&tokens.access_token),
        access_expires_at: Some(tokens.access_expires_at),
        refresh_token,
        scopes: crate::text::clone_strings(&tokens.abilities),
    }
}

/// What the authentication endpoints answer on success.
#[derive(Debug)]
pub struct AdminAuthOutput {
    /// Always the bearer scheme.
    pub token_type: String,
    /// The signed access token.
    pub access_token: String,
    /// Access-token expiry, seconds since the Unix epoch.
    pub access_expires_at: Option<i64>,
    /// Refresh token, body-delivered clients only.
    pub refresh_token: Option<String>,
    /// The permission strings the access token carries.
    pub scopes: Vec<String>,
}

/// The profile the `me` endpoint answers.
#[derive(Debug)]
pub struct AdminMeOutput {
    /// Primary key.
    pub id: i64,
    /// Login name.
    pub username: String,
    /// Contact address, if recorded.
    pub email: Option<String>,
    /// Display name.
    pub name: String,
    /// Classification tier.
    pub admin_type: AdminType,
    /// The permission strings of the current token.
    pub scopes: Vec<String>,
}

/// Builds the `me` answer from the authenticated record and the token's
/// permission strings.
pub fn me_output(user: AdminRecord, abilities: Vec<String>) -> (r: AdminMeOutput)
    ensures
        r.id == user.id,
        r.username == user.username,
        r.email == user.email,
        r.name == user.name,
        r.admin_type == user.admin_type,
        r.scopes == abilities,
{
    AdminMeOutput {
        id: user.id,
        username: user.username,
        email: user.email,
        name: user.name,
        admin_type: user.admin_type,
        scopes: abilities,
    }
}

/// A login request.
#[derive(Debug, Clone)]
pub struct AdminLoginInput {
    /// Validated login name.
    pub username: crate::validation::UsernameString,
    /// The presented password, verified outside.
    pub password: String,
    /// How the refresh token is delivered back.
    pub client_type: AuthClientType,
}

/// A refresh request; the token may travel in the body or in a cookie.
#[derive(Debug, Clone)]
pub struct AdminRefreshInput {
    /// How the refresh token was delivered.
    pub client_type: AuthClientType,
    /// The token, when the client presents it in the body.
    pub refresh_token: Option<String>,
}

/// A logout request; shaped like a refresh request.
#[derive(Debug, Clone)]
pub struct AdminLogoutInput {
    /// How the refresh token was delivered.
    pub client_type: AuthClientType,
    /// The token, when the client presents it in the body.
    pub refresh_token: Option<String>,
}

/// Picks the refresh token per the client's delivery channel: a web
/// client presents it only via cookie, a bearer-only client only in the
/// body.
pub fn refresh_token_for_client(
    client_type: AuthClientType,
    cookie_token: Option<String>,
    body_token: Option<String>,
) -> (r: Option<String>)
    ensures
        client_type is Web ==> r == cookie_token,
        client_type is Mobile ==> r == body_token,
{
    match client_type {
        AuthClientType::Web => cookie_token,
        AuthClientType::Mobile => body_token,
    }
}

/// A missing refresh token is a `BadRequest`.
pub fn require_refresh_token(token: Option<String>) -> (r: Result<String, CoreError>)
    ensures
        match token {
            Some(t) => r == Ok::<String, CoreError>(t),
            None => r == Err::<String, CoreError>(CoreError::BadRequest),
        },
{
    match token {
        Some(t) => Ok(t),
        None => Err(CoreError::BadRequest),
    }
}

/// A profile update: a new display name and, optionally, a new address.
#[derive(Debug, Clone)]
pub struct AdminProfileUpdateInput {
    /// New display name.
    pub name: String,
    /// New contact address, if given.
    pub email: Option<String>,
}

/// What a profile update resolves to before it is written.
#[derive(Debug)]
pub struct ProfileUpdatePlan {
    /// Display name, trimmed.
    pub name: String,
    /// Contact address, normalized; absent (and then untouched) when the
    /// request carries none or a blank one.
    pub email: Option<String>,
}

/// Normalizes a profile update: the name is trimmed, the address is
/// trimmed and lowercased, and a blank address changes nothing.
pub fn plan_profile_update(req: AdminProfileUpdateInput) -> (r: ProfileUpdatePlan)
    ensures
        r.name@ == crate::text::spec_trim(req.name@),
        crate::workflow::spec_norm_email_matches(r.email, req.email),
{
    ProfileUpdatePlan {
        name: crate::text::trim(req.name.as_str()),
        email: crate::workflow::normalize_optional_email(req.email),
    }
}

/// The profile answered after a profile update.
#[derive(Debug)]
pub struct AdminProfileUpdateOutput {
    /// Primary key.
    pub id: i64,
    /// Login name.
    pub username: String,
    /// Contact address, if recorded.
    pub email: Option<String>,
    /// Display name.
    pub name: String,
    /// Classification tier.
    pub admin_type: AdminType,
}

/// Builds the profile-update answer from the re-read record.
pub fn profile_update_output(admin: AdminRecord) -> (r: AdminProfileUpdateOutput)
    ensures
        r.id == admin.id,
        r.username == admin.username,
        r.email == admin.email,
        r.name == admin.name,
        r.admin_type == admin.admin_type,
{
    AdminProfileUpdateOutput {
        id: admin.id,
        username: admin.username,
        email: admin.email,
        name: admin.name,
        admin_type: admin.admin_type,
    }
}

/// A password update: the current password and the new one, confirmed.
#[derive(Debug, Clone)]
pub struct AdminPasswordUpdateInput {
    /// The current password, verified outside against the stored hash.
    pub current_password: String,
    /// The new password.
    pub password: String,
    /// Must equal the new password.
    pub password_confirmation: String,
}

impl AdminPasswordUpdateInput {
    /// The new password and its confirmation agree.
    pub fn confirmation_matches(&self) -> (r: bool)
        ensures
            r == (self.password@ == self.password_confirmation@),
    {
        crate::text::str_eq(self.password.as_str(), self.password_confirmation.as_str())
    }
}

/// Decides a password update: the subject must exist and the presented
/// current password must verify; only then is the new password written.
pub fn password_update_decision(subject_found: bool, current_valid: bool) -> (r: Result<
    (),
    CoreError,
>)
    ensures
        !subject_found ==> r == Err::<(), CoreError>(CoreError::NotFound),
        subject_found && !current_valid ==> r == Err::<(), CoreError>(CoreError::Unauthorized),
        subject_found && current_valid ==> r == Ok::<(), CoreError>(()),
{
    if !subject_found {
        return Err(CoreError::NotFound);
    }
    if !current_valid {
        return Err(CoreError::Unauthorized);
    }
    Ok(())
}

/// Confirmation that a logout revoked the presented token.
#[derive(Debug, PartialEq, Eq)]
pub struct AdminLogoutOutput {
    /// Always true: revocation is idempotent and cannot fail.
    pub revoked: bool,
}

/// Confirmation that a password update took effect.
#[derive(Debug, PartialEq, Eq)]
pub struct AdminPasswordUpdateOutput {
    /// Always true on the success path.
    pub updated: bool,
}

} // verus!
