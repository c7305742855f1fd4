//! The generic listing input: pagination, sort, filter parameters and export
//! metadata, together with the normalization rule that a blank filter value
//! must not produce a filter key at all.

use vstd::prelude::*;
use crate::text::{is_blank, spec_trim};

verus! {

/// Sort order for a single sort field.
#[derive(Debug, Clone, Copy, PartialEq, Eq)]
pub enum SortDirection {
    /// Ascending.
    Asc,
    /// Descending.
    Desc,
}

/// Policy for parameter keys no contract field declares.
#[derive(Debug, Clone, Copy, PartialEq, Eq)]
pub enum UnknownFilterMode {
    /// Drop the key silently.
    Ignore,
    /// Drop the key and record a warning.
    Warn,
    /// Reject the whole request.
    Error,
}

/// Filter parameters: an association list with unique keys.
#[derive(Debug, Clone)]
pub struct Params {
    entries: Vec<(String, String)>,
}

/// First value bound to `key`, if any.
pub open spec fn spec_param_lookup(entries: Seq<(String, String)>, key: Seq<char>) -> Option<
    Seq<char>,
>
    decreases entries.len(),
{
    if entries.len() == 0 {
        None
    } else if entries[0].0@ == key {
        Some(entries[0].1@)
    } else {
        spec_param_lookup(entries.drop_first(), key)
    }
}

impl View for Params {
    type V = Seq<(String, String)>;

    closed spec fn view(&self) -> Seq<(String, String)> {
        self.entries@
    }
}

impl Params {
    /// Keys are unique: a duplicate contribution is a contract bug, not a
    /// runtime-resolved conflict.
    pub open spec fn wf(self) -> bool {
        forall|i: int, j: int| 0 <= i < j < self@.len() ==> self@[i].0@ != self@[j].0@
    }

    /// The value bound to `key`, if any.
    pub open spec fn spec_get(self, key: Seq<char>) -> Option<Seq<char>> {
        spec_param_lookup(self@, key)
    }

    /// An empty parameter list.
    pub fn new() -> (r: Params)
        ensures
            r@ =~= Seq::<(String, String)>::empty(),
            r.wf(),
    {
        Params { entries: Vec::new() }
    }

    /// Number of parameters.
    pub fn len(&self) -> (r: usize)
        ensures
            r == self@.len(),
    {
        self.entries.len()
    }

    /// The entry at `i`, for walking the parameter list.
    pub fn entry(&self, i: usize) -> (r: (&String, &String))
        requires
            i < self@.len(),
        ensures
            *r.0 == self@[i as int].0,
            *r.1 == self@[i as int].1,
    {
        (&self.entries[i].0, &self.entries[i].1)
    }

    /// Whether `key` is present.
    pub fn contains_key(&self, key: &str) -> (r: bool)
        ensures
            r == (self.spec_get(key@) is Some),
    {
        let n = self.entries.len();
        proof {
            assert(self.entries@.subrange(0, n as int) =~= self.entries@);
        }
        let mut i: usize = 0;
        while i < n
            invariant
                0 <= i <= n,
                n == self.entries@.len(),
                spec_param_lookup(self.entries@, key@) == spec_param_lookup(
                    self.entries@.subrange(i as int, n as int),
                    key@,
                ),
            decreases n - i,
        {
            proof {
                let cur = self.entries@.subrange(i as int, n as int);
                assert(cur.drop_first() =~= self.entries@.subrange(i as int + 1, n as int));
                assert(cur[0] == self.entries@[i as int]);
            }
            if crate::text::str_eq(self.entries[i].0.as_str(), key) {
                return true;
            }
            i = i + 1;
        }
        proof {
            assert(self.entries@.subrange(n as int, n as int) =~= Seq::<(
                String,
                String,
            )>::empty());
        }
        false
    }

    /// The value bound to `key`, if any.
    pub fn get(&self, key: &str) -> (r: Option<&String>)
        ensures
            match r {
                Some(v) => self.spec_get(key@) == Some(v@),
                None => self.spec_get(key@) is None,
            },
    {
        let n = self.entries.len();
        proof {
            assert(self.entries@.subrange(0, n as int) =~= self.entries@);
        }
        let mut i: usize = 0;
        while i < n
            invariant
                0 <= i <= n,
                n == self.entries@.len(),
                spec_param_lookup(self.entries@, key@) == spec_param_lookup(
                    self.entries@.subrange(i as int, n as int),
                    key@,
                ),
            decreases n - i,
        {
            proof {
                let cur = self.entries@.subrange(i as int, n as int);
                assert(cur.drop_first() =~= self.entries@.subrange(i as int + 1, n as int));
                assert(cur[0] == self.entries@[i as int]);
            }
            if crate::text::str_eq(self.entries[i].0.as_str(), key) {
                return Some(&self.entries[i].1);
            }
            i = i + 1;
        }
        proof {
            assert(self.entries@.subrange(n as int, n as int) =~= Seq::<(
                String,
                String,
            )>::empty());
        }
        None
    }

    /// Binds `key` to `value`, appending a fresh key.
    ///
    /// Contributions must write to disjoint keys, so a duplicate key is
    /// excluded by precondition rather than resolved at runtime.
    pub fn set(&mut self, key: &str, value: String)
        requires
            old(self).wf(),
            old(self).spec_get(key@) is None,
        ensures
            final(self).wf(),
            final(self)@.len() == old(self)@.len() + 1,
            final(self)@.last().0@ == key@,
            final(self)@.last().1 == value,
            final(self)@.drop_last() == old(self)@,
    {
        proof {
            lemma_lookup_none_means_absent(self.entries@, key@);
        }
        self.entries.push((String::from_str(key), value));
        proof {
            assert(final(self)@.drop_last() =~= old(self)@);
        }
    }

    /// Binds `key` to the trimmed `value`, or does nothing when the value is
    /// blank: an absent or empty value must not produce a filter key at all.
    pub fn set_trimmed(&mut self, key: &str, value: &str)
        requires
            old(self).wf(),
            old(self).spec_get(key@) is None,
        ensures
            final(self).wf(),
            is_blank(value@) ==> final(self)@ == old(self)@,
            !is_blank(value@) ==> {
                &&& final(self)@.len() == old(self)@.len() + 1
                &&& final(self)@.last().0@ == key@
                &&& final(self)@.last().1@ == spec_trim(value@)
                &&& final(self)@.drop_last() == old(self)@
            },
    {
        let t = crate::text::trim(value);
        if t.as_str().unicode_len() > 0 {
            self.set(key, t);
        }
    }
}

/// The key-and-value views of a parameter list, in order.
pub open spec fn pairs_view(entries: Seq<(String, String)>) -> Seq<(Seq<char>, Seq<char>)> {
    entries.map_values(|p: (String, String)| (p.0@, p.1@))
}

/// Appending an entry appends its views.
pub proof fn lemma_pairs_push(entries: Seq<(String, String)>)
    requires
        entries.len() > 0,
    ensures
        pairs_view(entries) =~= pairs_view(entries.drop_last()).push(
            (entries.last().0@, entries.last().1@),
        ),
{
    assert forall|k: int| 0 <= k < entries.len() - 1 implies pairs_view(entries)[k] == pairs_view(
        entries.drop_last(),
    )[k] by {
        assert(entries.drop_last()[k] == entries[k]);
    }
}

/// A key held by no entry is not found.
pub proof fn lemma_lookup_absent(entries: Seq<(String, String)>, key: Seq<char>)
    requires
        forall|i: int| 0 <= i < entries.len() ==> (#[trigger] entries[i].0@) != key,
    ensures
        spec_param_lookup(entries, key) is None,
    decreases entries.len(),
{
    if entries.len() > 0 {
        assert forall|i: int|
            0 <= i < entries.drop_first().len() implies (#[trigger] entries.drop_first()[i].0@)
            != key by {
            assert(entries.drop_first()[i] == entries[i + 1]);
        }
        lemma_lookup_absent(entries.drop_first(), key);
    }
}

/// A key absent from the lookup is absent from every entry.
proof fn lemma_lookup_none_means_absent(entries: Seq<(String, String)>, key: Seq<char>)
    requires
        spec_param_lookup(entries, key) is None,
    ensures
        forall|i: int| 0 <= i < entries.len() ==> entries[i].0@ != key,
    decreases entries.len(),
{
    if entries.len() > 0 {
        lemma_lookup_none_means_absent(entries.drop_first(), key);
        assert forall|i: int| 0 <= i < entries.len() implies entries[i].0@ != key by {
            if i > 0 {
                assert(entries.drop_first()[i - 1] == entries[i]);
            }
        }
    }
}

/// The generic input every contract converts its typed request into.
#[derive(Debug, Clone)]
pub struct DataTableInput {
    /// 1-based page to show.
    pub page: i64,
    /// Requested page size; the context default applies when absent.
    pub per_page: Option<i64>,
    /// Requested sort field and direction, if any.
    pub sort: Option<(String, SortDirection)>,
    /// Filter parameters keyed by the filter-key convention.
    pub params: Params,
    /// Whether aggregate counts must be computed.
    pub include_meta: bool,
    /// File name for exports, if the request names one.
    pub export_file_name: Option<String>,
}

impl DataTableInput {
    /// Parameter keys are unique and paging values are sane.
    pub open spec fn wf(self) -> bool {
        &&& self.params.wf()
        &&& self.page >= 1
        &&& match self.per_page {
            Some(p) => 1 <= p <= crate::MAX_PER_PAGE,
            None => true,
        }
    }
}

/// The part of a typed listing request shared by every record type.
#[derive(Debug, Clone)]
pub struct QueryRequestBase {
    /// 1-based page to show; values below 1 are treated as 1.
    pub page: i64,
    /// Requested page size; bounded by [`crate::MAX_PER_PAGE`].
    pub per_page: Option<i64>,
    /// Requested sort field.
    pub sort: Option<String>,
    /// Sort direction; ascending when absent.
    pub sort_direction: Option<SortDirection>,
    /// Whether aggregate counts must be computed.
    pub include_meta: bool,
}

impl QueryRequestBase {
    /// The normalized page: at least 1.
    pub open spec fn spec_page(self) -> i64 {
        if self.page < 1 {
            1
        } else {
            self.page
        }
    }

    /// The normalized page size: clamped into `[1, MAX_PER_PAGE]`.
    pub open spec fn spec_per_page(self) -> Option<i64> {
        match self.per_page {
            Some(p) => if p < 1 {
                Some(1)
            } else if p > crate::MAX_PER_PAGE {
                Some(crate::MAX_PER_PAGE)
            } else {
                Some(p)
            },
            None => None,
        }
    }

    /// The sort the request asks for, with ascending as the default
    /// direction.
    pub open spec fn spec_sort(self) -> Option<(String, SortDirection)> {
        match self.sort {
            Some(f) => Some(
                (
                    f,
                    match self.sort_direction {
                        Some(d) => d,
                        None => SortDirection::Asc,
                    },
                ),
            ),
            None => None,
        }
    }

    /// Converts the base request into a generic input with no filters yet.
    pub fn to_input(&self) -> (r: DataTableInput)
        ensures
            r.wf(),
            r.page == self.spec_page(),
            r.per_page == self.spec_per_page(),
            r.params@ =~= Seq::<(String, String)>::empty(),
            r.include_meta == self.include_meta,
            r.export_file_name is None,
            r.sort == self.spec_sort(),
    {
        let page: i64 = if self.page < 1 {
            1
        } else {
            self.page
        };
        let per_page: Option<i64> = match self.per_page {
            Some(p) => if p < 1 {
                Some(1)
            } else if p > crate::MAX_PER_PAGE {
                Some(crate::MAX_PER_PAGE)
            } else {
                Some(p)
            },
            None => None,
        };
        let sort: Option<(String, SortDirection)> = match &self.sort {
            Some(f) => {
                let dir = match self.sort_direction {
                    Some(d) => d,
                    None => SortDirection::Asc,
                };
                Some((f.clone(), dir))
            },
            None => None,
        };
        DataTableInput {
            page,
            per_page,
            sort,
            params: Params::new(),
            include_meta: self.include_meta,
            export_file_name: None,
        }
    }
}

/// The part of a typed email-export request shared by every record type.
#[derive(Debug, Clone)]
pub struct EmailExportRequestBase {
    /// The listing request whose filtered rows are exported.
    pub query: QueryRequestBase,
    /// Where the rendered file is sent. Must not be empty.
    pub recipients: Vec<String>,
    /// Subject line for the delivery, if the request names one.
    pub subject: Option<String>,
    /// File name for the rendered artifact, if the request names one.
    pub export_file_name: Option<String>,
}

} // verus!
