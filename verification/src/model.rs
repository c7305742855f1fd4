//! Record-side data model: the admin classification enum, scalar attribute
//! values, and the admin row shape the engine filters and exports.
//!
//! Timestamps are carried as seconds since the Unix epoch; ability lists are
//! carried as scalar values so that malformed entries (a number where a
//! permission string was expected) can be skipped exactly like the source
//! data they were read from.

use vstd::prelude::*;
use crate::text::{spec_norm, spec_trim};

verus! {

/// Classification of an admin account, from most to least privileged.
#[derive(Debug, Clone, Copy, PartialEq, Eq)]
pub enum AdminType {
    /// Unrestricted tier; sees every row.
    Developer,
    /// Management tier; sees every row except the unrestricted tier.
    SuperAdmin,
    /// Normal tier; sees only rows of its own tier.
    Admin,
}

impl Default for AdminType {
    /// The bootstrap default used when no classification is recorded.
    fn default() -> (r: Self)
        ensures
            r is Developer,
    {
        AdminType::Developer
    }
}

impl AdminType {
    /// Canonical storage string.
    pub open spec fn spec_str(self) -> Seq<char> {
        match self {
            AdminType::Developer => "developer"@,
            AdminType::SuperAdmin => "superadmin"@,
            AdminType::Admin => "admin"@,
        }
    }

    /// Canonical storage string.
    pub fn as_str(&self) -> (r: &'static str)
        ensures
            r@ == self.spec_str(),
    {
        match self {
            AdminType::Developer => "developer",
            AdminType::SuperAdmin => "superadmin",
            AdminType::Admin => "admin",
        }
    }
}

/// The classification named by `value`, after trimming and lowercasing.
pub open spec fn spec_parse_admin_type(value: Seq<char>) -> Option<AdminType> {
    if spec_norm(value) == "developer"@ {
        Some(AdminType::Developer)
    } else if spec_norm(value) == "superadmin"@ {
        Some(AdminType::SuperAdmin)
    } else if spec_norm(value) == "admin"@ {
        Some(AdminType::Admin)
    } else {
        None
    }
}

/// Parses a classification value leniently: surrounding whitespace and ASCII
/// case are ignored; anything unrecognised is `None`.
pub fn parse_admin_type(value: &str) -> (r: Option<AdminType>)
    ensures
        r == spec_parse_admin_type(value@),
{
    let norm = crate::text::normalize(value);
    if crate::text::str_eq(norm.as_str(), "developer") {
        Some(AdminType::Developer)
    } else if crate::text::str_eq(norm.as_str(), "superadmin") {
        Some(AdminType::SuperAdmin)
    } else if crate::text::str_eq(norm.as_str(), "admin") {
        Some(AdminType::Admin)
    } else {
        None
    }
}

/// A scalar attribute or ability value, as read from free-form record data.
///
/// Anything that is not a string (or is missing) is represented faithfully so
/// the logic that skips such entries can be stated and checked.
#[derive(Debug, PartialEq, Eq)]
pub enum AttrValue {
    /// A string value.
    Str(String),
    /// An integer value.
    Int(i64),
    /// A boolean value.
    Bool(bool),
    /// An explicit null.
    Null,
}

impl AttrValue {
    /// The string contents, if this value is a string.
    pub open spec fn spec_as_str(self) -> Option<Seq<char>> {
        match self {
            AttrValue::Str(s) => Some(s@),
            _ => None,
        }
    }

    /// The string contents, if this value is a string.
    pub fn as_str(&self) -> (r: Option<&str>)
        ensures
            match r {
                Some(s) => self.spec_as_str() == Some(s@),
                None => self.spec_as_str() is None,
            },
    {
        match self {
            AttrValue::Str(s) => Some(s.as_str()),
            _ => None,
        }
    }
}

/// An admin row as the engine sees it: plain values only.
#[derive(Debug)]
pub struct AdminRecord {
    /// Primary key; generated keys are nonnegative.
    pub id: i64,
    /// Unique login name, stored lowercase.
    pub username: String,
    /// Optional contact address, stored lowercase.
    pub email: Option<String>,
    /// Display name.
    pub name: String,
    /// Classification tier.
    pub admin_type: AdminType,
    /// Raw ability entries; non-string entries are tolerated and skipped.
    pub abilities: Vec<AttrValue>,
    /// Creation time, seconds since the Unix epoch.
    pub created_at: i64,
    /// Last update time, seconds since the Unix epoch.
    pub updated_at: i64,
}

impl AdminRecord {
    /// Stored rows have nonnegative generated keys.
    pub open spec fn wf(self) -> bool {
        self.id >= 0
    }
}

/// The ability strings a raw ability list names: each string entry, trimmed.
/// Entries that are not strings, or blank after trimming, contribute nothing.
pub open spec fn names_ability(items: Seq<AttrValue>, value: Seq<char>) -> bool {
    exists|i: int|
        0 <= i < items.len() && match #[trigger] items[i] {
            AttrValue::Str(s) => spec_trim(s@) == value && value.len() > 0,
            _ => false,
        }
}

} // verus!
