//! The session lifecycle: scope-grant resolution, the persisted
//! refresh-token store, and single-use token rotation.
//!
//! A refresh token is single-use: a successful refresh marks the presented
//! token consumed and persists its successor in one atomic store update, so
//! a stolen refresh token cannot be replayed after its first use. Revocation
//! is idempotent.

use vstd::prelude::*;
use vstd::pervasive::VecAdditionalExecFns;
use crate::error::CoreError;
use crate::model::{names_ability, AdminRecord, AdminType, AttrValue};
use crate::text::spec_trim;

verus! {

/// The permission grant embedded in an issued access token.
#[derive(Debug, Clone, PartialEq, Eq)]
pub enum TokenScopeGrant {
    /// All permissions.
    Wildcard,
    /// Exactly the listed permissions.
    Explicit(Vec<String>),
    /// Authenticated, but no operational permissions.
    AuthOnly,
}

/// The element views of a permission list.
pub open spec fn strs_view(items: Seq<String>) -> Seq<Seq<char>> {
    items.map_values(|s: String| s@)
}

/// The canonical, lexicographically sorted, duplicate-free permission list
/// a raw ability list resolves to: the wildcard and the known permission
/// names it mentions (trimmed); anything else contributes nothing.
pub open spec fn spec_admin_permissions(items: Seq<AttrValue>) -> Seq<Seq<char>> {
    let star: Seq<Seq<char>> = if names_ability(items, "*"@) {
        seq!["*"@]
    } else {
        Seq::empty()
    };
    let manage: Seq<Seq<char>> = if names_ability(items, "admin.manage"@) {
        seq!["admin.manage"@]
    } else {
        Seq::empty()
    };
    let read: Seq<Seq<char>> = if names_ability(items, "admin.read"@) {
        seq!["admin.read"@]
    } else {
        Seq::empty()
    };
    let reports: Seq<Seq<char>> = if names_ability(items, "reports.view"@) {
        seq!["reports.view"@]
    } else {
        Seq::empty()
    };
    star + manage + read + reports
}

/// Whether some ability entry names `target` (after trimming).
fn has_ability(items: &Vec<AttrValue>, target: &str) -> (r: bool)
    requires
        target@.len() > 0,
    ensures
        r == names_ability(items@, target@),
{
    let mut i: usize = 0;
    while i < items.len()
        invariant
            target@.len() > 0,
            0 <= i <= items@.len(),
            forall|j: int|
                0 <= j < i ==> !(match #[trigger] items@[j] {
                    AttrValue::Str(s) => spec_trim(s@) == target@ && target@.len() > 0,
                    _ => false,
                }),
        decreases items@.len() - i,
    {
        let hit = match &items[i] {
            AttrValue::Str(s) => {
                let t = crate::text::trim(s.as_str());
                crate::text::str_eq(t.as_str(), target)
            },
            _ => false,
        };
        if hit {
            assert(match items@[i as int] {
                AttrValue::Str(s) => spec_trim(s@) == target@ && target@.len() > 0,
                _ => false,
            });
            return true;
        }
        i = i + 1;
    }
    false
}

/// The operational permissions an admin's raw ability list grants, as
/// canonical strings, sorted and without duplicates.
pub fn admin_permissions(admin: &AdminRecord) -> (r: Vec<String>)
    ensures
        strs_view(r@) == spec_admin_permissions(admin.abilities@),
{
    proof {
        reveal_strlit("*");
        reveal_strlit("admin.manage");
        reveal_strlit("admin.read");
        reveal_strlit("reports.view");
    }
    let mut out: Vec<String> = Vec::new();
    if has_ability(&admin.abilities, "*") {
        out.push(String::from_str("*"));
    }
    if has_ability(&admin.abilities, "admin.manage") {
        out.push(String::from_str("admin.manage"));
    }
    if has_ability(&admin.abilities, "admin.read") {
        out.push(String::from_str("admin.read"));
    }
    if has_ability(&admin.abilities, "reports.view") {
        out.push(String::from_str("reports.view"));
    }
    proof {
        assert(strs_view(out@) =~= spec_admin_permissions(admin.abilities@));
    }
    out
}

/// The grant a subject receives, resolved from its current record: the
/// privileged tiers get the wildcard grant, as does a normal admin whose
/// resolved permissions hold the wildcard value; otherwise a normal admin
/// gets exactly its resolved permissions, or an authenticated-only grant
/// when it has none.
pub fn resolve_scope_grant(admin: &AdminRecord) -> (r: TokenScopeGrant)
    ensures
        (admin.admin_type is Developer || admin.admin_type is SuperAdmin) ==> r is Wildcard,
        admin.admin_type is Admin ==> {
            if names_ability(admin.abilities@, "*"@) {
                r is Wildcard
            } else if spec_admin_permissions(admin.abilities@).len() == 0 {
                r is AuthOnly
            } else {
                r matches TokenScopeGrant::Explicit(e) && strs_view(e@) == spec_admin_permissions(
                    admin.abilities@,
                )
            }
        },
{
    match admin.admin_type {
        AdminType::Developer | AdminType::SuperAdmin => TokenScopeGrant::Wildcard,
        AdminType::Admin => {
            proof {
                reveal_strlit("*");
            }
            if has_ability(&admin.abilities, "*") {
                return TokenScopeGrant::Wildcard;
            }
            let explicit = admin_permissions(admin);
            if explicit.len() == 0 {
                proof {
                    assert(strs_view(explicit@).len() == explicit@.len());
                }
                TokenScopeGrant::AuthOnly
            } else {
                TokenScopeGrant::Explicit(explicit)
            }
        },
    }
}

/// The permission strings an issued token carries for a grant.
pub fn abilities_of_grant(grant: &TokenScopeGrant) -> (r: Vec<String>)
    ensures
        grant is Wildcard ==> strs_view(r@) =~= seq!["*"@],
        grant matches TokenScopeGrant::Explicit(e) ==> r@ == e@,
        grant is AuthOnly ==> r@.len() == 0,
{
    match grant {
        TokenScopeGrant::Wildcard => {
            proof {
                reveal_strlit("*");
            }
            let mut v: Vec<String> = Vec::new();
            v.push(String::from_str("*"));
            v
        },
        TokenScopeGrant::Explicit(e) => {
            let mut v: Vec<String> = Vec::new();
            let mut i: usize = 0;
            while i < e.len()
                invariant
                    0 <= i <= e@.len(),
                    v@ =~= e@.subrange(0, i as int),
                decreases e@.len() - i,
            {
                v.push(e[i].clone());
                proof {
                    assert(v@ =~= e@.subrange(0, i as int + 1));
                }
                i = i + 1;
            }
            proof {
                assert(e@.subrange(0, e@.len() as int) =~= e@);
            }
            v
        },
        TokenScopeGrant::AuthOnly => Vec::new(),
    }
}

/// One persisted refresh-token record, keyed by the opaque token value.
#[derive(Debug)]
pub struct SessionRecord {
    /// The opaque refresh-token value presented by clients.
    pub refresh_token: String,
    /// Subject the session belongs to.
    pub subject_id: i64,
    /// Guard (actor class) the session was issued for.
    pub guard: String,
    /// Device or session label, as supplied at login.
    pub label: String,
    /// Set once this token has been rotated away; a consumed token can
    /// never refresh again.
    pub consumed: bool,
    /// Set by revocation; permanent.
    pub revoked: bool,
    /// Expiry, seconds since the Unix epoch.
    pub expires_at: i64,
}

impl Clone for SessionRecord {
    /// Structural copy.
    fn clone(&self) -> (r: Self)
        ensures
            r == *self,
    {
        SessionRecord {
            refresh_token: self.refresh_token.clone(),
            subject_id: self.subject_id,
            guard: self.guard.clone(),
            label: self.label.clone(),
            consumed: self.consumed,
            revoked: self.revoked,
            expires_at: self.expires_at,
        }
    }
}

/// A record can refresh: neither rotated away, nor revoked, nor expired.
pub open spec fn spec_live(rec: SessionRecord, now: int) -> bool {
    !rec.consumed && !rec.revoked && now <= rec.expires_at
}

/// Index of the record holding `token`, if any.
pub open spec fn spec_find(records: Seq<SessionRecord>, token: Seq<char>) -> Option<int>
    decreases records.len(),
{
    if records.len() == 0 {
        None
    } else if records[0].refresh_token@ == token {
        Some(0)
    } else {
        match spec_find(records.drop_first(), token) {
            Some(i) => Some(i + 1),
            None => None,
        }
    }
}

/// The persisted session store, keyed by opaque refresh-token values.
///
/// Every mutation is one atomic update keyed by token, matching the
/// store's concurrency model: concurrent refresh attempts serialise, and
/// exactly one sees the token live.
#[derive(Debug)]
pub struct SessionStore {
    records: Vec<SessionRecord>,
}

impl View for SessionStore {
    type V = Seq<SessionRecord>;

    closed spec fn view(&self) -> Seq<SessionRecord> {
        self.records@
    }
}

/// What a refresh of `token` at `now` answers on a given store state.
pub open spec fn spec_refresh_result(
    records: Seq<SessionRecord>,
    token: Seq<char>,
    now: int,
) -> Result<(), CoreError> {
    match spec_find(records, token) {
        None => Err(CoreError::Unauthorized),
        Some(i) => {
            let rec = records[i];
            if rec.consumed || rec.revoked {
                Err(CoreError::Conflict)
            } else if now > rec.expires_at {
                Err(CoreError::Unauthorized)
            } else {
                Ok(())
            }
        },
    }
}

impl SessionStore {
    /// Token values are unique keys.
    pub open spec fn wf(self) -> bool {
        forall|i: int, j: int|
            0 <= i < j < self@.len() ==> self@[i].refresh_token@ != self@[j].refresh_token@
    }

    /// An empty store.
    pub fn new() -> (r: SessionStore)
        ensures
            r@ =~= Seq::<SessionRecord>::empty(),
            r.wf(),
    {
        SessionStore { records: Vec::new() }
    }

    /// Number of records, live or not.
    pub fn len(&self) -> (r: usize)
        ensures
            r == self@.len(),
    {
        self.records.len()
    }

    /// Index of the record holding `token`, if any.
    fn find(&self, token: &str) -> (r: Option<usize>)
        ensures
            match r {
                Some(i) => spec_find(self@, token@) == Some(i as int) && i < self@.len()
                    && self@[i as int].refresh_token@ == token@,
                None => spec_find(self@, token@) is None,
            },
    {
        let n = self.records.len();
        proof {
            assert(self.records@.subrange(0, n as int) =~= self.records@);
        }
        let mut i: usize = 0;
        while i < n
            invariant
                0 <= i <= n,
                n == self.records@.len(),
                spec_find_offset(self.records@, token@, i as int),
            decreases n - i,
        {
            proof {
                let cur = self.records@.subrange(i as int, n as int);
                assert(cur.drop_first() =~= self.records@.subrange(i as int + 1, n as int));
                assert(cur[0] == self.records@[i as int]);
            }
            if crate::text::str_eq(self.records[i].refresh_token.as_str(), token) {
                return Some(i);
            }
            i = i + 1;
        }
        proof {
            assert(self.records@.subrange(n as int, n as int) =~= Seq::<SessionRecord>::empty());
        }
        None
    }

    /// The guard the record holding `token` was issued for, if any.
    pub fn guard_of(&self, token: &str) -> (r: Option<String>)
        ensures
            match spec_find(self@, token@) {
                Some(i) => r matches Some(g) && g == self@[i].guard,
                None => r is None,
            },
    {
        match self.find(token) {
            Some(i) => Some(self.records[i].guard.clone()),
            None => None,
        }
    }

    /// Whether any record holds `token`, live or not.
    pub fn contains_token(&self, token: &str) -> (r: bool)
        ensures
            r == (spec_find(self@, token@) is Some),
    {
        matches!(self.find(token), Some(_))
    }

    /// The subject the record holding `token` belongs to, if any.
    pub fn subject_of(&self, token: &str) -> (r: Option<i64>)
        ensures
            match spec_find(self@, token@) {
                Some(i) => r == Some(self@[i].subject_id),
                None => r is None,
            },
    {
        match self.find(token) {
            Some(i) => Some(self.records[i].subject_id),
            None => None,
        }
    }

    /// Whether `token` is present and could refresh at `now`.
    pub fn is_live(&self, token: &str, now: i64) -> (r: bool)
        ensures
            r == match spec_find(self@, token@) {
                Some(i) => spec_live(self@[i], now as int),
                None => false,
            },
    {
        match self.find(token) {
            Some(i) => {
                let rec = &self.records[i];
                !rec.consumed && !rec.revoked && now <= rec.expires_at
            },
            None => false,
        }
    }

    /// Persists a fresh session for a subject: one new live record.
    pub fn issue(
        &mut self,
        subject_id: i64,
        guard: String,
        label: String,
        refresh_token: String,
        now: i64,
        ttl_secs: i64,
    )
        requires
            old(self).wf(),
            spec_find(old(self)@, refresh_token@) is None,
            0 <= now,
            0 <= ttl_secs,
            now + ttl_secs <= i64::MAX,
        ensures
            final(self).wf(),
            final(self)@ == old(self)@.push(
                SessionRecord {
                    refresh_token,
                    subject_id,
                    guard,
                    label,
                    consumed: false,
                    revoked: false,
                    expires_at: (now + ttl_secs) as i64,
                },
            ),
    {
        proof {
            lemma_find_none_means_absent(self.records@, refresh_token@);
        }
        let expires_at = now + ttl_secs;
        self.records.push(
            SessionRecord {
                refresh_token,
                subject_id,
                guard,
                label,
                consumed: false,
                revoked: false,
                expires_at,
            },
        );
    }

    /// Rotates `token`: marks it consumed and persists `successor` as the
    /// new live token of the same subject, in one atomic update.
    ///
    /// Fails with `Unauthorized` when the token is absent or expired and
    /// with `Conflict` when it was already rotated or revoked; the store is
    /// unchanged on every failure. Exactly one of any set of serialised
    /// refresh attempts on one live token can succeed: success consumes the
    /// token, and a consumed token answers `Conflict`.
    pub fn refresh(
        &mut self,
        token: &str,
        successor: String,
        now: i64,
        ttl_secs: i64,
    ) -> (r: Result<(), CoreError>)
        requires
            old(self).wf(),
            spec_find(old(self)@, successor@) is None,
            0 <= now,
            0 <= ttl_secs,
            now + ttl_secs <= i64::MAX,
        ensures
            final(self).wf(),
            r == spec_refresh_result(old(self)@, token@, now as int),
            r is Err ==> final(self)@ == old(self)@,
            r is Ok ==> ({
                let i = spec_find(old(self)@, token@).unwrap();
                let rotated = SessionRecord { consumed: true, ..old(self)@[i] };
                final(self)@ == old(self)@.update(i, rotated).push(
                    SessionRecord {
                        refresh_token: successor,
                        subject_id: old(self)@[i].subject_id,
                        guard: old(self)@[i].guard,
                        label: old(self)@[i].label,
                        consumed: false,
                        revoked: false,
                        expires_at: (now + ttl_secs) as i64,
                    },
                )
            }),
    {
        proof {
            lemma_find_none_means_absent(self.records@, successor@);
        }
        let idx = match self.find(token) {
            Some(i) => i,
            None => {
                return Err(CoreError::Unauthorized);
            },
        };
        if self.records[idx].consumed || self.records[idx].revoked {
            return Err(CoreError::Conflict);
        }
        if now > self.records[idx].expires_at {
            return Err(CoreError::Unauthorized);
        }
        let subject_id = self.records[idx].subject_id;
        let guard = self.records[idx].guard.clone();
        let label = self.records[idx].label.clone();
        let old_rec = self.records[idx].clone();
        let rotated = SessionRecord { consumed: true, ..old_rec };
        self.records.set(idx, rotated);
        let expires_at = now + ttl_secs;
        self.records.push(
            SessionRecord {
                refresh_token: successor,
                subject_id,
                guard,
                label,
                consumed: false,
                revoked: false,
                expires_at,
            },
        );
        Ok(())
    }

    /// Marks `token` permanently invalid. Idempotent: revoking an already
    /// revoked or unknown token is not an error and changes nothing more.
    pub fn revoke(&mut self, token: &str)
        requires
            old(self).wf(),
        ensures
            final(self).wf(),
            final(self)@ == spec_revoke_state(old(self)@, token@),
    {
        let idx = match self.find(token) {
            Some(i) => i,
            None => {
                return;
            },
        };
        let old_rec = self.records[idx].clone();
        let revoked = SessionRecord { revoked: true, ..old_rec };
        self.records.set(idx, revoked);
        proof {
            assert(final(self)@ =~= spec_revoke_state(old(self)@, token@));
        }
    }
}

/// The store state after revoking `token`: the matching record, if any,
/// with its revoked flag set.
pub open spec fn spec_revoke_state(records: Seq<SessionRecord>, token: Seq<char>) -> Seq<
    SessionRecord,
> {
    match spec_find(records, token) {
        None => records,
        Some(i) => records.update(i, SessionRecord { revoked: true, ..records[i] }),
    }
}

/// Lookup position `i` still to be searched: nothing before matched.
pub open spec fn spec_find_offset(records: Seq<SessionRecord>, token: Seq<char>, i: int) -> bool {
    match spec_find(records.subrange(i, records.len() as int), token) {
        Some(k) => spec_find(records, token) == Some(k + i),
        None => spec_find(records, token) is None,
    }
}

/// An absent token matches no record.
proof fn lemma_find_none_means_absent(records: Seq<SessionRecord>, token: Seq<char>)
    requires
        spec_find(records, token) is None,
    ensures
        forall|i: int| 0 <= i < records.len() ==> records[i].refresh_token@ != token,
    decreases records.len(),
{
    if records.len() > 0 {
        lemma_find_none_means_absent(records.drop_first(), token);
        assert forall|i: int| 0 <= i < records.len() implies records[i].refresh_token@
            != token by {
            if i > 0 {
                assert(records.drop_first()[i - 1] == records[i]);
            }
        }
    }
}

/// When exactly index `i` holds the token, lookup answers `i`.
proof fn lemma_find_unique(records: Seq<SessionRecord>, token: Seq<char>, i: int)
    requires
        0 <= i < records.len(),
        records[i].refresh_token@ == token,
        forall|j: int| 0 <= j < records.len() && j != i ==> records[j].refresh_token@ != token,
    ensures
        spec_find(records, token) == Some(i),
    decreases records.len(),
{
    if i == 0 {
    } else {
        assert(records[0].refresh_token@ != token);
        let rest = records.drop_first();
        assert(rest[i - 1] == records[i]);
        assert forall|j: int| 0 <= j < rest.len() && j != i - 1 implies rest[j].refresh_token@
            != token by {
            assert(rest[j] == records[j + 1]);
        }
        lemma_find_unique(rest, token, i - 1);
    }
}

/// Pairwise-unique tokens, as the store's well-formedness states them.
pub open spec fn unique_tokens(records: Seq<SessionRecord>) -> bool {
    forall|i: int, j: int|
        0 <= i < j < records.len() ==> records[i].refresh_token@ != records[j].refresh_token@
}

/// Law: refresh-token rotation is exactly-once. On a store with unique
/// tokens, once a refresh of `token` succeeds, the store it leaves behind
/// answers `Conflict` to every further refresh of the same token, whatever
/// time the retry happens and whatever fresh successor record was added.
/// Under the store's serialisation of updates this means that of any number
/// of concurrent refresh attempts on one token exactly one succeeds.
pub proof fn lemma_rotation_exactly_once(
    records: Seq<SessionRecord>,
    token: Seq<char>,
    succ: SessionRecord,
    now1: int,
    now2: int,
)
    requires
        unique_tokens(records),
        succ.refresh_token@ != token,
        spec_refresh_result(records, token, now1) is Ok,
    ensures
        ({
            let i = spec_find(records, token).unwrap();
            let after = records.update(
                i,
                SessionRecord { consumed: true, ..records[i] },
            ).push(succ);
            spec_refresh_result(after, token, now2) == Err::<(), CoreError>(CoreError::Conflict)
        }),
{
    let i = spec_find(records, token).unwrap();
    lemma_find_some(records, token);
    let rotated = SessionRecord { consumed: true, ..records[i] };
    let after = records.update(i, rotated).push(succ);
    assert(after[i].refresh_token@ == token);
    assert forall|j: int| 0 <= j < after.len() && j != i implies after[j].refresh_token@
        != token by {
        if j < records.len() {
            assert(records[j].refresh_token@ != records[i].refresh_token@);
        } else {
            assert(after[j] == succ);
        }
    }
    lemma_find_unique(after, token, i);
    assert(after[i].consumed);
}

/// Law: revocation is idempotent. Revoking a token never fails, and
/// revoking it a second time leaves the store exactly as the first
/// revocation left it.
pub proof fn lemma_revoke_idempotent(records: Seq<SessionRecord>, token: Seq<char>)
    requires
        unique_tokens(records),
    ensures
        spec_revoke_state(spec_revoke_state(records, token), token) == spec_revoke_state(
            records,
            token,
        ),
{
    match spec_find(records, token) {
        None => {
            assert(spec_revoke_state(records, token) == records);
        },
        Some(i) => {
            lemma_find_some(records, token);
            let marked = SessionRecord { revoked: true, ..records[i] };
            let once = records.update(i, marked);
            assert(once[i].refresh_token@ == token);
            assert forall|j: int| 0 <= j < once.len() && j != i implies once[j].refresh_token@
                != token by {
                assert(records[j].refresh_token@ != records[i].refresh_token@);
            }
            lemma_find_unique(once, token, i);
            let twice = once.update(i, SessionRecord { revoked: true, ..once[i] });
            assert(SessionRecord { revoked: true, ..once[i] } == once[i]);
            assert(twice =~= once);
        },
    }
}

/// A found token is at its reported index.
proof fn lemma_find_some(records: Seq<SessionRecord>, token: Seq<char>)
    requires
        spec_find(records, token) is Some,
    ensures
        ({
            let i = spec_find(records, token).unwrap();
            0 <= i < records.len() && records[i].refresh_token@ == token
        }),
    decreases records.len(),
{
    if records.len() > 0 && records[0].refresh_token@ != token {
        lemma_find_some(records.drop_first(), token);
    }
}

} // verus!
