//! Coarse authorization: permission names, grant modes and the permission
//! check evaluated before any row access.

use vstd::prelude::*;

verus! {

/// The wildcard permission value meaning "all permissions".
pub open spec fn wildcard() -> Seq<char> {
    "*"@
}

/// How a required-permission list is combined.
#[derive(Debug, Clone, Copy, PartialEq, Eq)]
pub enum PermissionMode {
    /// At least one listed permission (or the wildcard) must be present.
    Any,
    /// Every listed permission must be present (the wildcard also passes).
    All,
}

/// The closed set of operational permissions known to this deployment.
#[derive(Debug, Clone, Copy, PartialEq, Eq)]
pub enum Permission {
    /// Read access to admin accounts.
    AdminRead,
    /// Full management of admin accounts.
    AdminManage,
    /// Access to report views and exports.
    ReportsView,
}

impl Permission {
    /// Canonical permission string.
    pub open spec fn spec_str(self) -> Seq<char> {
        match self {
            Permission::AdminRead => "admin.read"@,
            Permission::AdminManage => "admin.manage"@,
            Permission::ReportsView => "reports.view"@,
        }
    }

    /// Canonical permission string.
    pub fn as_str(&self) -> (r: &'static str)
        ensures
            r@ == self.spec_str(),
    {
        match self {
            Permission::AdminRead => "admin.read",
            Permission::AdminManage => "admin.manage",
            Permission::ReportsView => "reports.view",
        }
    }

    /// The permission named by `value`, if any.
    pub open spec fn spec_from_str(value: Seq<char>) -> Option<Permission> {
        if value == "admin.read"@ {
            Some(Permission::AdminRead)
        } else if value == "admin.manage"@ {
            Some(Permission::AdminManage)
        } else if value == "reports.view"@ {
            Some(Permission::ReportsView)
        } else {
            None
        }
    }

    /// Parses a canonical permission string; anything else is `None`.
    pub fn from_str(value: &str) -> (r: Option<Permission>)
        ensures
            r == Permission::spec_from_str(value@),
    {
        if crate::text::str_eq(value, "admin.read") {
            Some(Permission::AdminRead)
        } else if crate::text::str_eq(value, "admin.manage") {
            Some(Permission::AdminManage)
        } else if crate::text::str_eq(value, "reports.view") {
            Some(Permission::ReportsView)
        } else {
            None
        }
    }
}

/// Membership of a string in a list of strings, by contents.
pub open spec fn seq_contains_str(items: Seq<Seq<char>>, needle: Seq<char>) -> bool {
    exists|i: int| 0 <= i < items.len() && items[i] == needle
}

/// Executable membership test matching [`seq_contains_str`].
pub fn vec_contains_str(items: &Vec<String>, needle: &str) -> (r: bool)
    ensures
        r == seq_contains_str(items.deep_view(), needle@),
{
    let mut i: usize = 0;
    while i < items.len()
        invariant
            0 <= i <= items.len(),
            forall|j: int| 0 <= j < i ==> items.deep_view()[j] != needle@,
        decreases items.len() - i,
    {
        if crate::text::str_eq(items[i].as_str(), needle) {
            assert(items.deep_view()[i as int] == needle@);
            return true;
        }
        i = i + 1;
    }
    false
}

/// Whether a permission set satisfies a required list under a mode.
///
/// A set holding the wildcard satisfies every requirement. Under `Any` at
/// least one required permission must be held; under `All`, every one.
pub open spec fn spec_satisfies(
    perms: Seq<Seq<char>>,
    required: Seq<Seq<char>>,
    mode: PermissionMode,
) -> bool {
    seq_contains_str(perms, wildcard()) || (match mode {
        PermissionMode::Any => exists|i: int|
            0 <= i < required.len() && #[trigger] seq_contains_str(perms, required[i]),
        PermissionMode::All => forall|i: int|
            0 <= i < required.len() ==> #[trigger] seq_contains_str(perms, required[i]),
    })
}

/// The coarse permission gate.
pub fn has_required_permissions(
    permissions: &Vec<String>,
    required: &Vec<String>,
    mode: PermissionMode,
) -> (r: bool)
    ensures
        r == spec_satisfies(permissions.deep_view(), required.deep_view(), mode),
{
    if vec_contains_str(permissions, "*") {
        proof {
            reveal_strlit("*");
        }
        return true;
    }
    proof {
        reveal_strlit("*");
    }
    match mode {
        PermissionMode::Any => {
            assert(mode is Any);
            let mut i: usize = 0;
            while i < required.len()
                invariant
                    mode is Any,
                    !seq_contains_str(permissions.deep_view(), wildcard()),
                    0 <= i <= required.len(),
                    forall|j: int|
                        0 <= j < i ==> !seq_contains_str(
                            permissions.deep_view(),
                            required.deep_view()[j],
                        ),
                decreases required.len() - i,
            {
                if vec_contains_str(permissions, required[i].as_str()) {
                    assert(seq_contains_str(permissions.deep_view(), required.deep_view()[i as int]));
                    return true;
                }
                i = i + 1;
            }
            false
        },
        PermissionMode::All => {
            assert(mode is All);
            let mut i: usize = 0;
            while i < required.len()
                invariant
                    mode is All,
                    !seq_contains_str(permissions.deep_view(), wildcard()),
                    0 <= i <= required.len(),
                    forall|j: int|
                        0 <= j < i ==> seq_contains_str(
                            permissions.deep_view(),
                            required.deep_view()[j],
                        ),
                decreases required.len() - i,
            {
                if !vec_contains_str(permissions, required[i].as_str()) {
                    assert(!seq_contains_str(permissions.deep_view(), required.deep_view()[i as int]));
                    return false;
                }
                i = i + 1;
            }
            true
        },
    }
}

} // verus!
