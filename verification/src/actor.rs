//! The actor model: resolved identity, permissions and classification
//! attributes for the current request.
//!
//! An actor is rebuilt per request from a validated access token and never
//! persisted. Attributes carry classification data (such as the admin tier)
//! used for row-level scoping.

use vstd::prelude::*;
use crate::model::AttrValue;

verus! {

/// Identity and capabilities derived from an authenticated token.
#[derive(Debug, Clone)]
pub struct Actor {
    /// Subject identifier, as carried by the token.
    pub id: String,
    /// The guard (actor class) the token was issued for.
    pub guard: Option<String>,
    /// Role names, in resolution order.
    pub roles: Vec<String>,
    /// Permission strings; may contain the wildcard `"*"`.
    pub permissions: Vec<String>,
    /// Free-form classification attributes, keyed by name.
    pub attributes: Vec<(String, AttrValue)>,
}

/// Builds the admin actor for a request from the validated token's
/// findings: the subject, its token abilities, and its classification,
/// recorded under the `admin_type` attribute for the scope hook.
pub fn build_admin_actor(
    subject_id: String,
    guard: String,
    permissions: Vec<String>,
    admin_type: crate::model::AdminType,
) -> (r: Actor)
    ensures
        r.wf(),
        r.id == subject_id,
        r.guard == Some(guard),
        r.roles@.len() == 0,
        r.permissions == permissions,
        r.attributes@.len() == 1,
        r.attributes@[0].0@ == "admin_type"@,
        spec_attr_lookup(r.attributes@, "admin_type"@) matches Some(v) && v matches
            AttrValue::Str(s) && s@ == admin_type.spec_str(),
{
    let mut attributes: Vec<(String, AttrValue)> = Vec::new();
    attributes.push(
        (
            String::from_str("admin_type"),
            AttrValue::Str(String::from_str(admin_type.as_str())),
        ),
    );
    Actor { id: subject_id, guard: Some(guard), roles: Vec::new(), permissions, attributes }
}

/// First value bound to `key` in an attribute list, if any.
pub open spec fn spec_attr_lookup(attrs: Seq<(String, AttrValue)>, key: Seq<char>) -> Option<
    AttrValue,
>
    decreases attrs.len(),
{
    if attrs.len() == 0 {
        None
    } else if attrs[0].0@ == key {
        Some(attrs[0].1)
    } else {
        spec_attr_lookup(attrs.drop_first(), key)
    }
}

impl Actor {
    /// Attribute keys are unique, so lookup order cannot matter.
    pub open spec fn wf(self) -> bool {
        forall|i: int, j: int|
            0 <= i < j < self.attributes@.len() ==> self.attributes@[i].0@
                != self.attributes@[j].0@
    }

    /// The attribute bound to `key`, if any.
    pub fn attr(&self, key: &str) -> (r: Option<&AttrValue>)
        ensures
            match r {
                Some(v) => spec_attr_lookup(self.attributes@, key@) == Some(*v),
                None => spec_attr_lookup(self.attributes@, key@) is None,
            },
    {
        let n = self.attributes.len();
        proof {
            assert(self.attributes@.subrange(0, n as int) =~= self.attributes@);
        }
        let mut i: usize = 0;
        while i < n
            invariant
                0 <= i <= n,
                n == self.attributes@.len(),
                spec_attr_lookup(self.attributes@, key@) == spec_attr_lookup(
                    self.attributes@.subrange(i as int, n as int),
                    key@,
                ),
            decreases n - i,
        {
            proof {
                let cur = self.attributes@.subrange(i as int, n as int);
                assert(cur.drop_first() =~= self.attributes@.subrange(i as int + 1, n as int));
                assert(cur[0] == self.attributes@[i as int]);
            }
            if crate::text::str_eq(self.attributes[i].0.as_str(), key) {
                return Some(&self.attributes[i].1);
            }
            i = i + 1;
        }
        proof {
            assert(self.attributes@.subrange(n as int, n as int) =~= Seq::<(
                String,
                AttrValue,
            )>::empty());
        }
        None
    }
}

} // verus!
