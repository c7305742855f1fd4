//! The query engine: recognising filter parameters against a contract's
//! declared filter fields, applying the unknown-filter policy, resolving the
//! sort, and running the resulting plan over rows.
//!
//! The order is fixed: unknown-key resolution, authorize, scope, filter,
//! sort, paginate. Authorize and scope live with the per-record-type hooks;
//! this module owns the key resolution, the filter and sort building, and
//! the plan run.

use vstd::prelude::*;
use crate::dates::{spec_day_end, spec_day_start, spec_parse_date, MAX_TZ_OFFSET};
use crate::error::CoreError;
use crate::filter::{spec_classify, FilterClass, FilterKey};
use crate::input::{Params, SortDirection, UnknownFilterMode};
use crate::model::AdminRecord;
use crate::page::{spec_page_slice, Page};
use crate::query::{preds_view, Predicate, PredicateV, QueryPlan, Value, ValueV};
use crate::rows::{spec_filter, spec_in_order};

verus! {

/// How a filter field is rendered and which keys it recognises.
#[derive(Debug, Clone, Copy, PartialEq, Eq)]
pub enum FilterFieldType {
    /// Free text.
    Text,
    /// One value of a closed option list.
    Select,
    /// A from/to date pair; recognises the `f-date-from-`/`f-date-to-` keys
    /// of its field.
    DateRange,
}

/// One choice of a `Select` filter field.
#[derive(Debug, Clone, PartialEq, Eq)]
pub struct FilterOption {
    /// Human-readable label.
    pub label: String,
    /// Value sent back as the filter value.
    pub value: String,
}

/// A contract-declared filter field descriptor.
#[derive(Debug, Clone)]
pub struct FilterField {
    /// Column the filter applies to.
    pub field: String,
    /// The exact parameter key this field recognises (`q`, `f-admin_type`,
    /// `f-like-email`); date-range fields recognise their two date keys
    /// through `field` instead.
    pub filter_key: String,
    /// Rendering and recognition kind.
    pub field_type: FilterFieldType,
    /// Human-readable label.
    pub label: String,
    /// Input placeholder, if any.
    pub placeholder: Option<String>,
    /// Longer description, if any.
    pub description: Option<String>,
    /// Options of a `Select` field.
    pub options: Option<Vec<FilterOption>>,
}

/// Some declared field recognises exactly this parameter key.
pub open spec fn declares_key(fields: Seq<FilterField>, key: Seq<char>) -> bool {
    exists|i: int| 0 <= i < fields.len() && (#[trigger] fields[i].filter_key@) == key
}

/// Some declared date-range field covers this column.
pub open spec fn declares_date_field(fields: Seq<FilterField>, f: Seq<char>) -> bool {
    exists|i: int|
        0 <= i < fields.len() && (#[trigger] fields[i].field@) == f && fields[i].field_type
            is DateRange
}

/// Executable test matching [`declares_key`].
pub fn field_declares_key(fields: &Vec<FilterField>, key: &str) -> (r: bool)
    ensures
        r == declares_key(fields@, key@),
{
    let mut i: usize = 0;
    while i < fields.len()
        invariant
            0 <= i <= fields@.len(),
            forall|j: int| 0 <= j < i ==> (#[trigger] fields@[j].filter_key@) != key@,
        decreases fields@.len() - i,
    {
        if crate::text::str_eq(fields[i].filter_key.as_str(), key) {
            assert(fields@[i as int].filter_key@ == key@);
            return true;
        }
        i = i + 1;
    }
    false
}

/// Executable test matching [`declares_date_field`].
pub fn field_declares_date(fields: &Vec<FilterField>, f: &str) -> (r: bool)
    ensures
        r == declares_date_field(fields@, f@),
{
    let mut i: usize = 0;
    while i < fields.len()
        invariant
            0 <= i <= fields@.len(),
            forall|j: int|
                0 <= j < i ==> !((#[trigger] fields@[j].field@) == f@ && fields@[j].field_type
                    is DateRange),
        decreases fields@.len() - i,
    {
        if matches!(fields[i].field_type, FilterFieldType::DateRange) && crate::text::str_eq(
            fields[i].field.as_str(),
            f,
        ) {
            assert(fields@[i as int].field@ == f@ && fields@[i as int].field_type is DateRange);
            return true;
        }
        i = i + 1;
    }
    false
}

/// Ghost outcome for one filter parameter.
pub enum BuildStep {
    /// The parameter contributes this predicate.
    Keep(PredicateV),
    /// The parameter is dropped silently.
    Dropped,
    /// The parameter is dropped with a recorded warning.
    Warned,
    /// The whole request is rejected.
    Reject,
}

/// The outcome the unknown-filter policy assigns to an unrecognised key.
pub open spec fn unknown_step(mode: UnknownFilterMode) -> BuildStep {
    match mode {
        UnknownFilterMode::Ignore => BuildStep::Dropped,
        UnknownFilterMode::Warn => BuildStep::Warned,
        UnknownFilterMode::Error => BuildStep::Reject,
    }
}

/// What one parameter contributes, given the declared fields, the policy,
/// and the effective timezone offset.
pub open spec fn spec_build_one(
    key: Seq<char>,
    value: Seq<char>,
    fields: Seq<FilterField>,
    mode: UnknownFilterMode,
    tz: int,
) -> BuildStep {
    match spec_classify(key) {
        FilterClass::Search => BuildStep::Keep(PredicateV::Search(value)),
        FilterClass::Exact(f) => if declares_key(fields, key) {
            BuildStep::Keep(PredicateV::Eq(f, ValueV::Str(value)))
        } else {
            unknown_step(mode)
        },
        FilterClass::Like(f) => if declares_key(fields, key) {
            BuildStep::Keep(PredicateV::Like(f, value))
        } else {
            unknown_step(mode)
        },
        FilterClass::DateFrom(f) => if declares_date_field(fields, f) {
            match spec_parse_date(value) {
                Some(d) => BuildStep::Keep(PredicateV::DateGe(f, spec_day_start(d, tz))),
                None => BuildStep::Reject,
            }
        } else {
            unknown_step(mode)
        },
        FilterClass::DateTo(f) => if declares_date_field(fields, f) {
            match spec_parse_date(value) {
                Some(d) => BuildStep::Keep(PredicateV::DateLe(f, spec_day_end(d, tz))),
                None => BuildStep::Reject,
            }
        } else {
            unknown_step(mode)
        },
        FilterClass::Unknown => unknown_step(mode),
    }
}

/// The predicates and warnings a parameter list yields, or the error that
/// rejects the request. Parameters are processed in order; the first
/// rejection wins.
pub open spec fn spec_build(
    entries: Seq<(Seq<char>, Seq<char>)>,
    fields: Seq<FilterField>,
    mode: UnknownFilterMode,
    tz: int,
) -> Result<(Seq<PredicateV>, Seq<Seq<char>>), CoreError>
    decreases entries.len(),
{
    if entries.len() == 0 {
        Ok((Seq::empty(), Seq::empty()))
    } else {
        let key = entries[0].0;
        let value = entries[0].1;
        let step = spec_build_one(key, value, fields, mode, tz);
        if step is Reject {
            Err(CoreError::BadRequest)
        } else {
            match spec_build(entries.drop_first(), fields, mode, tz) {
                Err(e) => Err(e),
                Ok((ps, ws)) => match step {
                    BuildStep::Keep(p) => Ok((seq![p] + ps, ws)),
                    BuildStep::Warned => Ok((ps, seq![key] + ws)),
                    _ => Ok((ps, ws)),
                },
            }
        }
    }
}

/// The element views of a warning list.
pub open spec fn warns_view(warns: Seq<String>) -> Seq<Seq<char>> {
    warns.map_values(|w: String| w@)
}

/// Applies one filter parameter to the accumulators per
/// [`spec_build_one`]; `false` means the request is rejected.
fn apply_entry(
    key: &String,
    value: String,
    fields: &Vec<FilterField>,
    mode: UnknownFilterMode,
    tz_offset: i64,
    preds: &mut Vec<Predicate>,
    warns: &mut Vec<String>,
) -> (ok: bool)
    requires
        -MAX_TZ_OFFSET <= tz_offset <= MAX_TZ_OFFSET,
    ensures
        ({
            let step = spec_build_one(key@, value@, fields@, mode, tz_offset as int);
            let p0 = old(preds)@;
            let w0 = old(warns)@;
            match step {
                BuildStep::Keep(p) => ok && final(preds)@.len() == p0.len() + 1
                    && final(preds)@.drop_last() == p0 && final(preds)@.last()@ == p
                    && final(warns)@ == w0,
                BuildStep::Dropped => ok && final(preds)@ == p0 && final(warns)@ == w0,
                BuildStep::Warned => ok && final(preds)@ == p0 && final(warns)@ == w0.push(*key),
                BuildStep::Reject => !ok && final(preds)@ == p0 && final(warns)@ == w0,
            }
        }),
{
    let parsed = crate::filter::parse_filter_key(key.as_str());
    match parsed {
        FilterKey::Search => {
            preds.push(Predicate::Search(value));
            assert(final(preds)@.drop_last() =~= old(preds)@);
            true
        },
        FilterKey::Exact(f) => {
            if field_declares_key(fields, key.as_str()) {
                preds.push(Predicate::Eq(f, Value::Str(value)));
                assert(final(preds)@.drop_last() =~= old(preds)@);
                true
            } else {
                handle_unknown(warns, key, mode)
            }
        },
        FilterKey::Like(f) => {
            if field_declares_key(fields, key.as_str()) {
                preds.push(Predicate::Like(f, value));
                assert(final(preds)@.drop_last() =~= old(preds)@);
                true
            } else {
                handle_unknown(warns, key, mode)
            }
        },
        FilterKey::DateFrom(f) => {
            if field_declares_date(fields, f.as_str()) {
                match crate::dates::parse_date(value.as_str()) {
                    Some(d) => {
                        let bound = crate::dates::day_start(&d, tz_offset);
                        preds.push(Predicate::DateGe(f, bound));
                        assert(final(preds)@.drop_last() =~= old(preds)@);
                        true
                    },
                    None => false,
                }
            } else {
                handle_unknown(warns, key, mode)
            }
        },
        FilterKey::DateTo(f) => {
            if field_declares_date(fields, f.as_str()) {
                match crate::dates::parse_date(value.as_str()) {
                    Some(d) => {
                        let bound = crate::dates::day_end(&d, tz_offset);
                        preds.push(Predicate::DateLe(f, bound));
                        assert(final(preds)@.drop_last() =~= old(preds)@);
                        true
                    },
                    None => false,
                }
            } else {
                handle_unknown(warns, key, mode)
            }
        },
        FilterKey::Unknown => handle_unknown(warns, key, mode),
    }
}

/// Applies the unknown-filter policy; `false` means the request is rejected.
fn handle_unknown(warns: &mut Vec<String>, key: &String, mode: UnknownFilterMode) -> (r: bool)
    ensures
        match mode {
            UnknownFilterMode::Ignore => r && final(warns)@ == old(warns)@,
            UnknownFilterMode::Warn => r && final(warns)@ == old(warns)@.push(*key),
            UnknownFilterMode::Error => !r && final(warns)@ == old(warns)@,
        },
{
    match mode {
        UnknownFilterMode::Ignore => true,
        UnknownFilterMode::Warn => {
            warns.push(key.clone());
            true
        },
        UnknownFilterMode::Error => false,
    }
}

/// Turns the filter parameters into predicates under the declared fields
/// and the unknown-filter policy.
///
/// A recognised date filter with a malformed value is a `BadRequest`; an
/// unrecognised key is dropped, warned about, or rejected per the policy.
pub fn build_predicates(
    fields: &Vec<FilterField>,
    params: &Params,
    mode: UnknownFilterMode,
    tz_offset: i64,
) -> (r: Result<(Vec<Predicate>, Vec<String>), CoreError>)
    requires
        -MAX_TZ_OFFSET <= tz_offset <= MAX_TZ_OFFSET,
    ensures
        match r {
            Ok(out) => spec_build(
                crate::input::pairs_view(params@),
                fields@,
                mode,
                tz_offset as int,
            ) == Ok::<_, CoreError>((preds_view(out.0@), warns_view(out.1@))),
            Err(e) => spec_build(crate::input::pairs_view(params@), fields@, mode, tz_offset as int)
                == Err::<(Seq<PredicateV>, Seq<Seq<char>>), _>(e),
        },
{
    let ghost entries = crate::input::pairs_view(params@);
    let n = params.len();
    let mut preds: Vec<Predicate> = Vec::new();
    let mut warns: Vec<String> = Vec::new();
    let mut i: usize = 0;
    proof {
        assert(entries.subrange(0, n as int) =~= entries);
    }
    while i < n
        invariant
            -MAX_TZ_OFFSET <= tz_offset <= MAX_TZ_OFFSET,
            entries == crate::input::pairs_view(params@),
            n == entries.len(),
            0 <= i <= n,
            match spec_build(entries.subrange(i as int, n as int), fields@, mode, tz_offset as int) {
                Ok(rest) => spec_build(entries, fields@, mode, tz_offset as int) == Ok::<
                    _,
                    CoreError,
                >((preds_view(preds@) + rest.0, warns_view(warns@) + rest.1)),
                Err(e) => spec_build(entries, fields@, mode, tz_offset as int) == Err::<
                    (Seq<PredicateV>, Seq<Seq<char>>),
                    _,
                >(e),
            },
        decreases n - i,
    {
        let ghost suffix = entries.subrange(i as int, n as int);
        let ghost rest1 = spec_build(
            entries.subrange(i as int + 1, n as int),
            fields@,
            mode,
            tz_offset as int,
        );
        proof {
            assert(suffix.drop_first() =~= entries.subrange(i as int + 1, n as int));
            assert(suffix[0] == entries[i as int]);
            assert(entries[i as int] == (params@[i as int].0@, params@[i as int].1@));
        }
        let (key, value) = params.entry(i);
        let key = key.clone();
        let value = value.clone();
        let ghost step = spec_build_one(key@, value@, fields@, mode, tz_offset as int);
        let ghost preds_before = preds@;
        let ghost warns_before = warns@;
        let ok = apply_entry(&key, value, fields, mode, tz_offset, &mut preds, &mut warns);
        if !ok {
            proof {
                assert(step is Reject);
            }
            return Err(CoreError::BadRequest);
        }
        proof {
            match step {
                BuildStep::Keep(p) => {
                    lemma_push_view(preds@, step);
                    assert(preds@.drop_last() == preds_before);
                    assert(preds_view(preds@) =~= preds_view(preds_before).push(p));
                    match rest1 {
                        Ok(rw) => {
                            assert(preds_view(preds_before) + (seq![p] + rw.0) =~= preds_view(
                                preds@,
                            ) + rw.0);
                        },
                        Err(_) => {},
                    }
                },
                BuildStep::Warned => {
                    assert(warns@ == warns_before.push(key));
                    assert(warns_view(warns@) =~= warns_view(warns_before).push(key@));
                    match rest1 {
                        Ok(rw) => {
                            assert(warns_view(warns_before) + (seq![key@] + rw.1) =~= warns_view(
                                warns@,
                            ) + rw.1);
                        },
                        Err(_) => {},
                    }
                },
                _ => {},
            }
        }
        i = i + 1;
    }
    proof {
        assert(entries.subrange(n as int, n as int) =~= Seq::<(Seq<char>, Seq<char>)>::empty());
        assert(preds_view(preds@) + Seq::<PredicateV>::empty() =~= preds_view(preds@));
        assert(warns_view(warns@) + Seq::<Seq<char>>::empty() =~= warns_view(warns@));
    }
    Ok((preds, warns))
}

/// Pushing a predicate appends its view.
proof fn lemma_push_view(preds: Seq<Predicate>, step: BuildStep)
    requires
        preds.len() > 0,
    ensures
        preds_view(preds) =~= preds_view(preds.drop_last()).push(preds.last()@),
{
    assert forall|k: int| 0 <= k < preds.len() - 1 implies preds_view(preds)[k] == preds_view(
        preds.drop_last(),
    )[k] by {
        assert(preds.drop_last()[k] == preds[k]);
    }
}

/// A parameter key some declared field (or the reserved search key)
/// recognises.
pub open spec fn spec_recognized(key: Seq<char>, fields: Seq<FilterField>) -> bool {
    match spec_classify(key) {
        FilterClass::Search => true,
        FilterClass::Exact(_) => declares_key(fields, key),
        FilterClass::Like(_) => declares_key(fields, key),
        FilterClass::DateFrom(f) => declares_date_field(fields, f),
        FilterClass::DateTo(f) => declares_date_field(fields, f),
        FilterClass::Unknown => false,
    }
}

/// The unknown-filter resolution: the warnings recorded for unrecognised
/// keys, or the rejection under the `Error` policy. This step runs before
/// authorization and touches no row.
pub open spec fn spec_check(
    entries: Seq<(Seq<char>, Seq<char>)>,
    fields: Seq<FilterField>,
    mode: UnknownFilterMode,
) -> Result<Seq<Seq<char>>, CoreError>
    decreases entries.len(),
{
    if entries.len() == 0 {
        Ok(Seq::empty())
    } else {
        let key = entries[0].0;
        if spec_recognized(key, fields) {
            spec_check(entries.drop_first(), fields, mode)
        } else {
            match mode {
                UnknownFilterMode::Ignore => spec_check(entries.drop_first(), fields, mode),
                UnknownFilterMode::Warn => match spec_check(entries.drop_first(), fields, mode) {
                    Ok(ws) => Ok(seq![key] + ws),
                    Err(e) => Err(e),
                },
                UnknownFilterMode::Error => Err(CoreError::BadRequest),
            }
        }
    }
}

/// Whether one key is recognised, matching [`spec_recognized`].
fn key_recognized(key: &String, fields: &Vec<FilterField>) -> (r: bool)
    ensures
        r == spec_recognized(key@, fields@),
{
    match crate::filter::parse_filter_key(key.as_str()) {
        FilterKey::Search => true,
        FilterKey::Exact(_) => field_declares_key(fields, key.as_str()),
        FilterKey::Like(_) => field_declares_key(fields, key.as_str()),
        FilterKey::DateFrom(f) => field_declares_date(fields, f.as_str()),
        FilterKey::DateTo(f) => field_declares_date(fields, f.as_str()),
        FilterKey::Unknown => false,
    }
}

/// Resolves unrecognised keys per the policy, before any row access:
/// silently dropped, collected as warnings, or rejecting the request.
pub fn check_unknown_keys(
    fields: &Vec<FilterField>,
    params: &Params,
    mode: UnknownFilterMode,
) -> (r: Result<Vec<String>, CoreError>)
    ensures
        match r {
            Ok(ws) => spec_check(crate::input::pairs_view(params@), fields@, mode) == Ok::<
                _,
                CoreError,
            >(warns_view(ws@)),
            Err(e) => spec_check(crate::input::pairs_view(params@), fields@, mode) == Err::<
                Seq<Seq<char>>,
                _,
            >(e),
        },
{
    let ghost entries = crate::input::pairs_view(params@);
    let n = params.len();
    let mut warns: Vec<String> = Vec::new();
    let mut i: usize = 0;
    proof {
        assert(entries.subrange(0, n as int) =~= entries);
    }
    while i < n
        invariant
            entries == crate::input::pairs_view(params@),
            n == entries.len(),
            0 <= i <= n,
            match spec_check(entries.subrange(i as int, n as int), fields@, mode) {
                Ok(rest) => spec_check(entries, fields@, mode) == Ok::<_, CoreError>(
                    warns_view(warns@) + rest,
                ),
                Err(e) => spec_check(entries, fields@, mode) == Err::<Seq<Seq<char>>, _>(e),
            },
        decreases n - i,
    {
        let ghost suffix = entries.subrange(i as int, n as int);
        let ghost rest1 = spec_check(entries.subrange(i as int + 1, n as int), fields@, mode);
        proof {
            assert(suffix.drop_first() =~= entries.subrange(i as int + 1, n as int));
            assert(suffix[0] == entries[i as int]);
            assert(entries[i as int] == (params@[i as int].0@, params@[i as int].1@));
        }
        let (key, _value) = params.entry(i);
        let key = key.clone();
        let ghost warns_before = warns@;
        if !key_recognized(&key, fields) {
            match mode {
                UnknownFilterMode::Ignore => {},
                UnknownFilterMode::Warn => {
                    warns.push(key);
                    proof {
                        assert(warns_view(warns@) =~= warns_view(warns_before).push(
                            warns@.last()@,
                        ));
                        match rest1 {
                            Ok(ws) => {
                                assert(warns_view(warns_before) + (seq![warns@.last()@] + ws)
                                    =~= warns_view(warns@) + ws);
                            },
                            Err(_) => {},
                        }
                    }
                },
                UnknownFilterMode::Error => {
                    return Err(CoreError::BadRequest);
                },
            }
        }
        i = i + 1;
    }
    proof {
        assert(entries.subrange(n as int, n as int) =~= Seq::<(Seq<char>, Seq<char>)>::empty());
        assert(warns_view(warns@) + Seq::<Seq<char>>::empty() =~= warns_view(warns@));
    }
    Ok(warns)
}

/// The only way predicate building rejects a request is a `BadRequest`.
pub proof fn lemma_build_err_is_bad_request(
    entries: Seq<(Seq<char>, Seq<char>)>,
    fields: Seq<FilterField>,
    mode: UnknownFilterMode,
    tz: int,
)
    ensures
        spec_build(entries, fields, mode, tz) is Err ==> spec_build(entries, fields, mode, tz)
            == Err::<(Seq<PredicateV>, Seq<Seq<char>>), CoreError>(CoreError::BadRequest),
    decreases entries.len(),
{
    if entries.len() > 0 {
        lemma_build_err_is_bad_request(entries.drop_first(), fields, mode, tz);
    }
}

/// Concatenating predicate lists concatenates their views.
pub proof fn lemma_preds_view_concat(a: Seq<Predicate>, b: Seq<Predicate>)
    ensures
        preds_view(a + b) =~= preds_view(a) + preds_view(b),
{
    assert forall|k: int| 0 <= k < a.len() + b.len() implies preds_view(a + b)[k] == (preds_view(
        a,
    ) + preds_view(b))[k] by {
        if k < a.len() {
            assert((a + b)[k] == a[k]);
        } else {
            assert((a + b)[k] == b[k - a.len()]);
        }
    }
}

/// What a requested sort resolves to: a declared sortable field keeps its
/// direction; an unrecognised field is a no-op or an error per the policy.
pub open spec fn spec_sort_resolution(
    sortable: Seq<Seq<char>>,
    sort: Option<(String, SortDirection)>,
    mode: UnknownFilterMode,
) -> Result<Option<(Seq<char>, SortDirection)>, CoreError> {
    match sort {
        None => Ok(None),
        Some(fd) => {
            if exists|i: int| 0 <= i < sortable.len() && sortable[i] == fd.0@ {
                Ok(Some((fd.0@, fd.1)))
            } else {
                match mode {
                    UnknownFilterMode::Error => Err(CoreError::BadRequest),
                    _ => Ok(None),
                }
            }
        },
    }
}

/// The ghost image of a resolved sort.
pub open spec fn sort_view(sort: Option<(String, SortDirection)>) -> Option<(
    Seq<char>,
    SortDirection,
)> {
    match sort {
        None => None,
        Some(fd) => Some((fd.0@, fd.1)),
    }
}

/// Resolves the requested sort per [`spec_sort_resolution`].
pub fn resolve_sort(
    sortable: &Vec<String>,
    sort: &Option<(String, SortDirection)>,
    mode: UnknownFilterMode,
) -> (r: Result<Option<(String, SortDirection)>, CoreError>)
    ensures
        match r {
            Ok(rs) => spec_sort_resolution(sortable.deep_view(), *sort, mode) == Ok::<
                _,
                CoreError,
            >(sort_view(rs)),
            Err(e) => spec_sort_resolution(sortable.deep_view(), *sort, mode) == Err::<
                Option<(Seq<char>, SortDirection)>,
                _,
            >(e),
        },
{
    match sort {
        None => Ok(None),
        Some((f, d)) => {
            if crate::authz::vec_contains_str(sortable, f.as_str()) {
                proof {
                    assert(exists|i: int|
                        0 <= i < sortable.deep_view().len() && sortable.deep_view()[i] == f@);
                }
                Ok(Some((f.clone(), *d)))
            } else {
                match mode {
                    UnknownFilterMode::Error => Err(CoreError::BadRequest),
                    _ => Ok(None),
                }
            }
        },
    }
}

/// Runs a resolved plan over rows held in memory: filter, sort, paginate.
///
/// The returned page slices the filtered (and, when a sort is resolved,
/// reordered) row set; `total` always counts every matching row.
pub fn run_plan(rows: Vec<AdminRecord>, plan: &QueryPlan, search_cols: &Vec<String>) -> (r: Page<
    AdminRecord,
>)
    requires
        plan.page >= 1,
        plan.per_page matches Some(p) && 1 <= p <= crate::MAX_PER_PAGE,
        rows@.len() + crate::MAX_PER_PAGE <= i64::MAX,
    ensures
        ({
            let flt = spec_filter(rows@, preds_view(plan.predicates@), search_cols@);
            let per = plan.per_page.unwrap();
            &&& r.total == flt.len()
            &&& r.per_page == per
            &&& r.current_page == plan.page
            &&& r.last_page == crate::page::spec_ceil_div(flt.len() as int, per as int)
            &&& plan.page > r.last_page ==> r.data@.len() == 0
            &&& match plan.sort {
                None => r.data@ == spec_page_slice(flt, plan.page as int, per as int),
                Some(fd) => crate::rows::spec_sorted_page_of(
                    flt,
                    fd.0@,
                    fd.1,
                    r.data@,
                    plan.page as int,
                    per as int,
                ),
            }
        }),
{
    proof {
        crate::rows::lemma_filter_len(rows@, preds_view(plan.predicates@), search_cols@);
    }
    let filtered = crate::rows::filter_rows(rows, &plan.predicates, search_cols);
    let per_page = match plan.per_page {
        Some(p) => p,
        None => crate::DEFAULT_PER_PAGE,
    };
    match &plan.sort {
        None => crate::page::paginate(filtered, plan.page, per_page),
        Some((f, d)) => {
            let ghost flt = filtered@;
            let sorted = crate::rows::sort_rows(filtered, f.as_str(), *d);
            let ghost sorted_view = sorted@;
            let page = crate::page::paginate(sorted, plan.page, per_page);
            proof {
                crate::rows::lemma_sorted_page_intro(
                    sorted_view,
                    flt,
                    f@,
                    *d,
                    page.data@,
                    plan.page as int,
                    per_page as int,
                );
            }
            page
        },
    }
}

} // verus!
